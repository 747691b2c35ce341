use rsrender::fixed::{LIMIT, UNIT};
use rsrender::geometry::{Geometry, Keys};

fn held(set: fn(&mut Keys)) -> Keys {
    let mut keys = Keys::none();
    set(&mut keys);
    keys
}

fn editing_cube(selected: usize) -> Geometry {
    let mut g = Geometry::cube();
    g.vertex_editing = true;
    g.selected_vertex = selected;
    g
}

#[test]
fn cube_has_eight_vertices_and_twelve_edges() {
    let g = Geometry::cube();
    assert_eq!(g.vertex.len(), 8);
    assert_eq!(g.edges.len(), 12);
    assert_eq!(g.vertex[0], [0, 100_000, 0]);
    assert_eq!(g.vertex[5], [100_000, 100_000, 100_000]);
    assert_eq!(g.edges[4], [7, 6]);
    assert_eq!(g.edges[11], [3, 7]);
    assert_eq!(g.user_scale, 500_000);
    assert_eq!(g.user_distance, 500_000);
    assert_eq!(g.user_angle_x, 0);
    assert_eq!(g.user_angle_y, 0);
    assert_eq!((g.user_x, g.user_y), (0, 0));
    assert!(!g.vertex_editing);
    assert_eq!(g.selected_vertex, 0);
    assert_eq!(g.fault(), None);
}

#[test]
fn no_key_changes_nothing() {
    let mut g = Geometry::cube();
    g.movement(&Keys::none());
    assert_eq!(g, Geometry::cube());
    let mut e = editing_cube(3);
    e.movement(&Keys::none());
    assert_eq!(e, editing_cube(3));
}

#[test]
fn arrows_pan_the_view_by_one_unit() {
    let mut g = Geometry::cube();
    g.movement(&held(|k| k.up = true));
    assert_eq!((g.user_x, g.user_y), (0, -UNIT));
    g.movement(&held(|k| k.down = true));
    g.movement(&held(|k| k.down = true));
    assert_eq!((g.user_x, g.user_y), (0, UNIT));
    g.movement(&held(|k| k.left = true));
    assert_eq!((g.user_x, g.user_y), (-UNIT, UNIT));
    g.movement(&held(|k| k.right = true));
    g.movement(&held(|k| k.right = true));
    assert_eq!((g.user_x, g.user_y), (UNIT, UNIT));
    assert_eq!(g.vertex, Geometry::cube().vertex);
    assert_eq!(g.edges, Geometry::cube().edges);
}

#[test]
fn opposite_arrows_cancel() {
    let mut g = Geometry::cube();
    g.movement(&held(|k| {
        k.up = true;
        k.down = true;
        k.left = true;
        k.right = true;
        k.zoom_in = true;
        k.zoom_out = true;
    }));
    assert_eq!(g, Geometry::cube());
}

#[test]
fn zoom_keys_change_the_scale_by_one() {
    let mut g = Geometry::cube();
    g.movement(&held(|k| k.zoom_in = true));
    assert_eq!(g.user_scale, 501_000);
    g.movement(&held(|k| k.zoom_out = true));
    g.movement(&held(|k| k.zoom_out = true));
    assert_eq!(g.user_scale, 499_000);
    assert_eq!(g.user_distance, 500_000);
}

#[test]
fn scale_may_fall_below_zero() {
    let mut g = Geometry::cube();
    g.user_scale = 0;
    g.movement(&held(|k| k.zoom_out = true));
    assert_eq!(g.user_scale, -UNIT);
}

#[test]
fn pan_saturates_at_the_limit() {
    let mut g = Geometry::cube();
    g.user_x = LIMIT;
    g.user_y = -LIMIT;
    g.movement(&held(|k| {
        k.right = true;
        k.up = true;
    }));
    assert_eq!((g.user_x, g.user_y), (LIMIT, -LIMIT));
    g.user_x = LIMIT - 1;
    g.movement(&held(|k| k.right = true));
    assert_eq!(g.user_x, LIMIT);
}

#[test]
fn lowering_key_acts_before_raising_key_at_the_limit() {
    let mut g = Geometry::cube();
    g.user_y = LIMIT;
    g.user_scale = LIMIT;
    g.movement(&held(|k| {
        k.up = true;
        k.down = true;
        k.zoom_in = true;
        k.zoom_out = true;
    }));
    assert_eq!(g.user_y, LIMIT);
    assert_eq!(g.user_scale, LIMIT - UNIT);
}

#[test]
fn rotation_keys_advance_the_angles_by_one_degree() {
    let mut g = Geometry::cube();
    g.movement(&held(|k| k.rotate_x = true));
    assert_eq!((g.user_angle_x, g.user_angle_y), (1_000, 0));
    g.movement(&held(|k| k.rotate_y = true));
    g.movement(&held(|k| {
        k.rotate_x = true;
        k.rotate_y = true;
    }));
    assert_eq!((g.user_angle_x, g.user_angle_y), (2_000, 2_000));
}

#[test]
fn angle_after_361_ticks_is_361_degrees() {
    let mut g = Geometry::cube();
    let keys = held(|k| k.rotate_x = true);
    for _ in 0..360 {
        g.movement(&keys);
    }
    assert_eq!(g.user_angle_x, 360_000);
    g.movement(&keys);
    assert_eq!(g.user_angle_x, 361_000);
    g.movement(&keys);
    assert_eq!(g.user_angle_x, 0);
    g.movement(&keys);
    assert_eq!(g.user_angle_x, 1_000);
    assert_eq!(g.user_angle_y, 0);
}

#[test]
fn angle_just_beyond_a_full_turn_starts_over() {
    let mut g = Geometry::cube();
    g.user_angle_y = 360_001;
    g.movement(&held(|k| k.rotate_y = true));
    assert_eq!(g.user_angle_y, 0);
    g.user_angle_y = 359_500;
    g.movement(&held(|k| k.rotate_y = true));
    assert_eq!(g.user_angle_y, 360_500);
    g.movement(&held(|k| k.rotate_y = true));
    assert_eq!(g.user_angle_y, 0);
}

#[test]
fn negative_angle_is_advanced() {
    let mut g = Geometry::cube();
    g.user_angle_x = -90_000;
    g.movement(&held(|k| k.rotate_x = true));
    assert_eq!(g.user_angle_x, -89_000);
}

#[test]
fn toggle_changes_the_mode_once_per_press() {
    let mut g = Geometry::cube();
    g.movement(&held(|k| k.toggle = true));
    assert!(g.vertex_editing);
    for _ in 0..5 {
        g.movement(&Keys::none());
    }
    assert!(g.vertex_editing);
    g.movement(&held(|k| k.toggle = true));
    assert!(!g.vertex_editing);
    g.movement(&Keys::none());
    assert!(!g.vertex_editing);
}

#[test]
fn keys_act_in_the_mode_in_which_the_tick_began() {
    let mut g = Geometry::cube();
    g.movement(&held(|k| {
        k.toggle = true;
        k.up = true;
    }));
    assert!(g.vertex_editing);
    assert_eq!(g.user_y, -UNIT);
    assert_eq!(g.vertex, Geometry::cube().vertex);
    g.movement(&held(|k| {
        k.toggle = true;
        k.up = true;
    }));
    assert!(!g.vertex_editing);
    assert_eq!(g.user_y, -UNIT);
    assert_eq!(g.vertex[0], [0, 99_000, 0]);
}

#[test]
fn previous_stops_at_the_first_vertex() {
    let mut g = editing_cube(0);
    g.movement(&held(|k| k.previous = true));
    assert_eq!(g.selected_vertex, 0);
    g.selected_vertex = 1;
    g.movement(&held(|k| k.previous = true));
    assert_eq!(g.selected_vertex, 0);
}

#[test]
fn next_stops_at_the_last_vertex() {
    let mut g = editing_cube(6);
    g.movement(&held(|k| k.next = true));
    assert_eq!(g.selected_vertex, 7);
    g.movement(&held(|k| k.next = true));
    assert_eq!(g.selected_vertex, 7);
    g.movement(&held(|k| k.zoom_in = true));
    assert_eq!(g.vertex[7], [0, 0, 101_000]);
}

#[test]
fn next_and_previous_together() {
    let mut g = editing_cube(3);
    g.movement(&held(|k| {
        k.next = true;
        k.previous = true;
    }));
    assert_eq!(g.selected_vertex, 3);
    g.selected_vertex = 7;
    g.movement(&held(|k| {
        k.next = true;
        k.previous = true;
    }));
    assert_eq!(g.selected_vertex, 6);
    g.selected_vertex = 0;
    g.movement(&held(|k| {
        k.next = true;
        k.previous = true;
    }));
    assert_eq!(g.selected_vertex, 0);
}

#[test]
fn selection_keys_do_nothing_in_view_mode() {
    let mut g = Geometry::cube();
    g.selected_vertex = 2;
    g.movement(&held(|k| k.next = true));
    assert_eq!(g.selected_vertex, 2);
    g.movement(&held(|k| k.previous = true));
    assert_eq!(g.selected_vertex, 2);
}

#[test]
fn vertex_zoom_in_raises_only_the_depth_of_the_selected_vertex() {
    for k in 0..8 {
        let mut g = editing_cube(k);
        g.movement(&held(|keys| keys.zoom_in = true));
        let cube = Geometry::cube();
        for j in 0..8 {
            if j == k {
                assert_eq!(g.vertex[j][0], cube.vertex[j][0]);
                assert_eq!(g.vertex[j][1], cube.vertex[j][1]);
                assert_eq!(g.vertex[j][2], cube.vertex[j][2] + UNIT);
            } else {
                assert_eq!(g.vertex[j], cube.vertex[j]);
            }
        }
        assert_eq!(g.edges, cube.edges);
        assert_eq!(g.selected_vertex, k);
        assert_eq!(g.user_scale, cube.user_scale);
    }
}

#[test]
fn editing_keys_move_the_selected_vertex_along_each_axis() {
    let mut g = editing_cube(1);
    g.movement(&held(|k| k.up = true));
    assert_eq!(g.vertex[1], [100_000, 99_000, 0]);
    g.movement(&held(|k| k.down = true));
    g.movement(&held(|k| k.down = true));
    assert_eq!(g.vertex[1], [100_000, 101_000, 0]);
    g.movement(&held(|k| k.left = true));
    assert_eq!(g.vertex[1], [99_000, 101_000, 0]);
    g.movement(&held(|k| k.right = true));
    g.movement(&held(|k| k.right = true));
    assert_eq!(g.vertex[1], [101_000, 101_000, 0]);
    g.movement(&held(|k| k.zoom_out = true));
    assert_eq!(g.vertex[1], [101_000, 101_000, -1_000]);
    assert_eq!((g.user_x, g.user_y, g.user_scale), (0, 0, 500_000));
}

#[test]
fn editing_keys_held_together_act_each_on_its_own_axis() {
    let mut g = editing_cube(0);
    g.movement(&held(|k| {
        k.up = true;
        k.right = true;
    }));
    assert_eq!(g.vertex[0], [1_000, 99_000, 0]);
    let mut g = editing_cube(0);
    g.movement(&held(|k| {
        k.down = true;
        k.left = true;
        k.zoom_out = true;
    }));
    assert_eq!(g.vertex[0], [-1_000, 101_000, -1_000]);
    let mut g = editing_cube(5);
    g.movement(&held(|k| {
        k.up = true;
        k.left = true;
        k.zoom_in = true;
    }));
    assert_eq!(g.vertex[5], [99_000, 99_000, 101_000]);
    assert_eq!((g.user_x, g.user_y, g.user_scale), (0, 0, 500_000));
}

#[test]
fn opposite_editing_keys_cancel() {
    let mut g = editing_cube(0);
    g.movement(&held(|k| {
        k.up = true;
        k.down = true;
    }));
    assert_eq!(g.vertex[0], [0, 100_000, 0]);
    let mut g = editing_cube(0);
    g.movement(&held(|k| {
        k.up = true;
        k.down = true;
        k.left = true;
        k.right = true;
        k.zoom_in = true;
        k.zoom_out = true;
    }));
    assert_eq!(g.vertex[0], [0, 100_000, 0]);
    assert_eq!(g, editing_cube(0));
}

#[test]
fn opposite_editing_keys_at_the_limit_act_in_order() {
    let mut g = editing_cube(0);
    g.vertex[0] = [-LIMIT, LIMIT, LIMIT];
    g.movement(&held(|k| {
        k.up = true;
        k.down = true;
        k.left = true;
        k.right = true;
        k.zoom_in = true;
        k.zoom_out = true;
    }));
    assert_eq!(g.vertex[0], [-LIMIT + UNIT, LIMIT, LIMIT - UNIT]);
}

#[test]
fn edit_moves_the_vertex_that_was_selected_before_the_tick() {
    let mut g = editing_cube(2);
    g.movement(&held(|k| {
        k.zoom_in = true;
        k.next = true;
    }));
    assert_eq!(g.selected_vertex, 3);
    assert_eq!(g.vertex[2], [100_000, 0, 1_000]);
    assert_eq!(g.vertex[3], [0, 0, 0]);
}

#[test]
fn rotation_keys_do_nothing_in_edit_mode() {
    let mut g = editing_cube(0);
    g.movement(&held(|k| {
        k.rotate_x = true;
        k.rotate_y = true;
    }));
    assert_eq!(g, editing_cube(0));
}

#[test]
fn vertex_saturates_at_the_limit() {
    let mut g = editing_cube(0);
    g.vertex[0] = [LIMIT, -LIMIT, LIMIT];
    g.movement(&held(|k| k.zoom_in = true));
    assert_eq!(g.vertex[0], [LIMIT, -LIMIT, LIMIT]);
    g.movement(&held(|k| k.up = true));
    assert_eq!(g.vertex[0], [LIMIT, -LIMIT, LIMIT]);
    g.movement(&held(|k| k.left = true));
    assert_eq!(g.vertex[0], [LIMIT - UNIT, -LIMIT, LIMIT]);
}

#[test]
fn empty_mesh_takes_every_key() {
    let mut g = Geometry::cube();
    g.vertex = Vec::new();
    g.edges = Vec::new();
    g.vertex_editing = true;
    assert_eq!(g.fault(), None);
    g.movement(&held(|k| {
        k.up = true;
        k.zoom_in = true;
        k.next = true;
        k.previous = true;
    }));
    assert!(g.vertex.is_empty());
    assert_eq!(g.selected_vertex, 0);
    assert!(g.vertex_editing);
}
