# smallest_polygon_cover

A search for a small polygon that covers a cloud of points: the nodes of
the polygon are moved step by step (stochastic moves, steepest ascent, or
stochastic moves with simulated cooling) to shorten the circumference
while every point stays inside.

- `src/` is the verified library: the heuristics and their names
  (`heuristics`), the rules that keep or undo a move and that pick a
  steepest-ascent direction (`moves`), the rules that stop a run
  (`stopping`), and the ring of polygon nodes (`ring`), each with its
  contract and the laws that hold of it.
- `app/` is the egui front end and the floating-point geometry, which
  calls the library for every decision.
- `tests/` runs the library on concrete values.
