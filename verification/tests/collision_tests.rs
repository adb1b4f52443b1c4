use computer_mark_up::collision::point_on_rect;

#[test]
fn point_inside_hits() {
    assert!(point_on_rect(10, 10, 20, 20, 15, 15));
}

#[test]
fn corner_point_misses() {
    assert!(!point_on_rect(10, 10, 20, 20, 10, 10));
}

#[test]
fn point_past_the_right_edge_misses() {
    assert!(!point_on_rect(10, 10, 20, 20, 31, 15));
}

#[test]
fn edges_are_excluded_on_both_axes() {
    assert!(!point_on_rect(10, 10, 20, 20, 30, 15));
    assert!(!point_on_rect(10, 10, 20, 20, 15, 10));
    assert!(!point_on_rect(10, 10, 20, 20, 15, 30));
    assert!(point_on_rect(10, 10, 20, 20, 29, 29));
    assert!(point_on_rect(10, 10, 20, 20, 11, 11));
}

#[test]
fn negative_coordinates_work() {
    assert!(point_on_rect(-10, -10, 20, 20, 0, 0));
    assert!(!point_on_rect(-10, -10, 20, 20, 10, 0));
}
