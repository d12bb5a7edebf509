use smallest_polygon_cover::ring::successor;

#[test]
fn successor_wraps_around() {
    assert_eq!(successor(0, 3), 1);
    assert_eq!(successor(1, 3), 2);
    assert_eq!(successor(2, 3), 0);
    assert_eq!(successor(0, 1), 0);
}

#[test]
fn ring_closes_and_visits_all_nodes() {
    let n = 7usize;
    let mut seen = vec![false; n];
    let mut i = 3usize;
    for _ in 0..n {
        seen[i] = true;
        i = successor(i, n);
    }
    assert_eq!(i, 3);
    assert!(seen.iter().all(|s| *s));
}
