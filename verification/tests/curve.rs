use ferrolite_app::curve::delete_point;

#[test]
fn delete_keeps_endpoints() {
    let pts = vec![(0.0, 0.0), (0.5, 0.5), (1.0, 1.0)];
    assert_eq!(delete_point(&pts, 1).len(), 2, "interior deletable");
    assert_eq!(delete_point(&pts, 0).len(), 3, "left endpoint not deletable");
    assert_eq!(delete_point(&pts, 2).len(), 3, "right endpoint not deletable");
}

#[test]
fn delete_two_point_curve_keeps_both_endpoints() {
    // The identity curve: its two corner points.
    let two = vec![(0.0_f32, 0.0_f32), (1.0, 1.0)];
    assert_eq!(delete_point(&two, 0).len(), 2, "left endpoint of 2-point curve not deletable");
    assert_eq!(delete_point(&two, 1).len(), 2, "right endpoint of 2-point curve not deletable");
}

#[test]
fn delete_removes_exactly_the_interior_point() {
    let pts = vec![(0.0_f32, 0.0_f32), (0.25, 0.1), (0.5, 0.6), (1.0, 1.0)];
    assert_eq!(delete_point(&pts, 2), vec![(0.0, 0.0), (0.25, 0.1), (1.0, 1.0)]);
    assert_eq!(delete_point(&pts, 9), pts);
    let empty: Vec<(f32, f32)> = Vec::new();
    assert!(delete_point(&empty, 0).is_empty());
}
