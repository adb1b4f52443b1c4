use computer_mark_up::vertex::{ComponentVertex, make_quad};

#[test]
fn quad_positions_form_the_rectangle() {
    let q = make_quad(10, 20, 30, 40, 2);
    assert_eq!((q[0].position_x, q[0].position_y), (10, 20));
    assert_eq!((q[1].position_x, q[1].position_y), (40, 20));
    assert_eq!((q[2].position_x, q[2].position_y), (10, 60));
    assert_eq!((q[3].position_x, q[3].position_y), (40, 60));
    for v in &q {
        assert_eq!(v.texture_index, 2);
    }
}

#[test]
fn quad_texture_coords_follow_the_fixed_mapping() {
    let q = make_quad(0, 0, 800, 600, 0);
    assert_eq!((q[0].texture_u, q[0].texture_v), (0, 1));
    assert_eq!((q[1].texture_u, q[1].texture_v), (1, 0));
    assert_eq!((q[2].texture_u, q[2].texture_v), (0, 0));
    assert_eq!((q[3].texture_u, q[3].texture_v), (1, 0));
}

#[test]
fn quad_height_grows_downward() {
    let q = make_quad(5, 5, 1, 7, 0);
    assert!(q[2].position_y > q[0].position_y);
    assert_eq!(q[2].position_y, 12);
}

#[test]
fn unit_quad_vertices() {
    let q = make_quad(0, 0, 1, 1, 9);
    let expected = [
        ComponentVertex { position_x: 0, position_y: 0, texture_index: 9, texture_u: 0, texture_v: 1 },
        ComponentVertex { position_x: 1, position_y: 0, texture_index: 9, texture_u: 1, texture_v: 0 },
        ComponentVertex { position_x: 0, position_y: 1, texture_index: 9, texture_u: 0, texture_v: 0 },
        ComponentVertex { position_x: 1, position_y: 1, texture_index: 9, texture_u: 1, texture_v: 0 },
    ];
    assert_eq!(q, expected);
}
