//! The mesh with its view and edit state, and the transition that one tick of
//! keyboard input makes on it.

use vstd::prelude::*;
use crate::fixed::{clamped, in_range, lower, raise, LIMIT, UNIT};
use crate::math::transform;

verus! {

/// The angle after which a held rotation key starts over from zero: 360 degrees.
pub const FULL_TURN: i64 = 360_000;

/// The keys that act on the mesh, as they stand in one tick.
///
/// The first eight are level-triggered: true in every tick in which the key is
/// held down. The last three are edge-triggered: true only in the tick in
/// which the key goes down.
#[derive(Clone, Copy, Debug, PartialEq, Eq)]
pub struct Keys {
    pub up: bool,
    pub down: bool,
    pub left: bool,
    pub right: bool,
    pub zoom_in: bool,
    pub zoom_out: bool,
    pub rotate_x: bool,
    pub rotate_y: bool,
    pub next: bool,
    pub previous: bool,
    pub toggle: bool,
}

impl Keys {
    /// The tick in which no key is held or pressed.
    pub fn none() -> (keys: Keys)
        ensures
            keys == (Keys {
                up: false,
                down: false,
                left: false,
                right: false,
                zoom_in: false,
                zoom_out: false,
                rotate_x: false,
                rotate_y: false,
                next: false,
                previous: false,
                toggle: false,
            }),
    {
        Keys {
            up: false,
            down: false,
            left: false,
            right: false,
            zoom_in: false,
            zoom_out: false,
            rotate_x: false,
            rotate_y: false,
            next: false,
            previous: false,
            toggle: false,
        }
    }
}

/// A wireframe mesh together with the state of its view and of its vertex editor.
///
/// Coordinates, angles (in degrees), the scale, the distance and the pan
/// offset are all counted in thousandths.
#[derive(Clone, Debug, PartialEq, Eq)]
pub struct Geometry {
    pub vertex: Vec<[i64; 3]>,
    pub edges: Vec<[usize; 2]>,
    pub user_angle_x: i64,
    pub user_angle_y: i64,
    pub user_scale: i64,
    pub user_distance: i64,
    pub user_x: i64,
    pub user_y: i64,
    pub vertex_editing: bool,
    pub selected_vertex: usize,
}

/// The mathematical value of a [`Geometry`].
pub struct GeometryView {
    pub vertex: Seq<[i64; 3]>,
    pub edges: Seq<[usize; 2]>,
    pub user_angle_x: int,
    pub user_angle_y: int,
    pub user_scale: int,
    pub user_distance: int,
    pub user_x: int,
    pub user_y: int,
    pub vertex_editing: bool,
    pub selected_vertex: int,
}

impl View for Geometry {
    type V = GeometryView;

    open spec fn view(&self) -> GeometryView {
        GeometryView {
            vertex: self.vertex@,
            edges: self.edges@,
            user_angle_x: self.user_angle_x as int,
            user_angle_y: self.user_angle_y as int,
            user_scale: self.user_scale as int,
            user_distance: self.user_distance as int,
            user_x: self.user_x as int,
            user_y: self.user_y as int,
            vertex_editing: self.vertex_editing,
            selected_vertex: self.selected_vertex as int,
        }
    }
}

/// Whether the three coordinates of `p` lie in the range of stored values.
pub open spec fn point_in_range(p: [i64; 3]) -> bool {
    in_range(p[0] as int) && in_range(p[1] as int) && in_range(p[2] as int)
}

/// `v` after a tick in which the key that lowers it and the key that raises it
/// stand as given; the lowering key acts first.
pub open spec fn lowered_then_raised(v: int, lowering: bool, raising: bool) -> int {
    let a = if lowering {
        clamped(v - UNIT)
    } else {
        v
    };
    if raising {
        clamped(a + UNIT)
    } else {
        a
    }
}

/// `v` after a tick in which the key that raises it and the key that lowers it
/// stand as given; the raising key acts first.
pub open spec fn raised_then_lowered(v: int, raising: bool, lowering: bool) -> int {
    let a = if raising {
        clamped(v + UNIT)
    } else {
        v
    };
    if lowering {
        clamped(a - UNIT)
    } else {
        a
    }
}

/// A view angle after one tick of its rotation key: one degree more, or zero
/// once the angle has gone beyond a full turn. An angle of exactly 360 degrees
/// is still advanced, to 361.
pub open spec fn advanced(angle: int) -> int {
    if angle <= FULL_TURN {
        angle + UNIT
    } else {
        0
    }
}

/// The vertex `p` after one tick of the six editing keys. Each held key
/// moves the vertex by one unit along its own axis: left and right along x,
/// up and down along y, zoom in and zoom out along z. Two keys of one axis
/// that are held together act one after the other, in the order in which
/// they are named here.
pub open spec fn nudged(p: [i64; 3], keys: Keys) -> [i64; 3] {
    [
        lowered_then_raised(p[0] as int, keys.left, keys.right) as i64,
        lowered_then_raised(p[1] as int, keys.up, keys.down) as i64,
        raised_then_lowered(p[2] as int, keys.zoom_in, keys.zoom_out) as i64,
    ]
}

/// The selected index after one tick of the keys "next" and "previous" on a
/// mesh of `len` vertices; "next" acts first, and neither leaves `0 .. len`.
pub open spec fn reselected(selected: int, len: int, keys: Keys) -> int {
    let a = if keys.next && selected + 1 < len {
        selected + 1
    } else {
        selected
    };
    if keys.previous && a > 0 {
        a - 1
    } else {
        a
    }
}

impl GeometryView {
    /// Every coordinate and every number of the view lies in the range of
    /// stored values.
    pub open spec fn numbers_in_range(self) -> bool {
        &&& forall|i: int| 0 <= i < self.vertex.len() ==> point_in_range(#[trigger] self.vertex[i])
        &&& in_range(self.user_angle_x)
        &&& in_range(self.user_angle_y)
        &&& in_range(self.user_scale)
        &&& in_range(self.user_distance)
        &&& in_range(self.user_x)
        &&& in_range(self.user_y)
    }

    /// Every edge joins two vertices that the mesh has.
    pub open spec fn edges_in_range(self) -> bool {
        forall|i: int|
            0 <= i < self.edges.len() ==> (#[trigger] self.edges[i])[0] < self.vertex.len()
                && self.edges[i][1] < self.vertex.len()
    }

    /// The selected index names a vertex, unless the mesh has none.
    pub open spec fn selection_in_range(self) -> bool {
        &&& 0 <= self.selected_vertex
        &&& self.vertex.len() > 0 ==> self.selected_vertex < self.vertex.len()
    }

    /// The invariant of the mesh: every number lies in the range of stored
    /// values, every edge joins two existing vertices, and the selected
    /// index names a vertex unless there is none.
    pub open spec fn wf(self) -> bool {
        &&& self.numbers_in_range()
        &&& self.edges_in_range()
        &&& self.selection_in_range()
    }

    /// The state after one tick in view mode: the arrow keys pan, the zoom
    /// keys change the scale, the rotation keys advance the two angles.
    pub open spec fn viewed(self, keys: Keys) -> GeometryView {
        GeometryView {
            user_y: lowered_then_raised(self.user_y, keys.up, keys.down),
            user_x: lowered_then_raised(self.user_x, keys.left, keys.right),
            user_scale: raised_then_lowered(self.user_scale, keys.zoom_in, keys.zoom_out),
            user_angle_x: if keys.rotate_x {
                advanced(self.user_angle_x)
            } else {
                self.user_angle_x
            },
            user_angle_y: if keys.rotate_y {
                advanced(self.user_angle_y)
            } else {
                self.user_angle_y
            },
            ..self
        }
    }

    /// The state after one tick in edit mode: the arrow and zoom keys move the
    /// selected vertex, then "next" and "previous" move the selection.
    pub open spec fn edited(self, keys: Keys) -> GeometryView {
        GeometryView {
            vertex: if self.selected_vertex < self.vertex.len() {
                self.vertex.update(
                    self.selected_vertex,
                    nudged(self.vertex[self.selected_vertex], keys),
                )
            } else {
                self.vertex
            },
            selected_vertex: reselected(self.selected_vertex, self.vertex.len() as int, keys),
            ..self
        }
    }

    /// The state after one tick: the keys act according to the mode in which
    /// the tick began, and then the toggle key, if it went down, changes the mode.
    pub open spec fn step(self, keys: Keys) -> GeometryView {
        let acted = if self.vertex_editing {
            self.edited(keys)
        } else {
            self.viewed(keys)
        };
        GeometryView { vertex_editing: self.vertex_editing != keys.toggle, ..acted }
    }

    /// The state after the ticks of `ticks`, taken in order.
    pub open spec fn run(self, ticks: Seq<Keys>) -> GeometryView
        decreases ticks.len(),
    {
        if ticks.len() == 0 {
            self
        } else {
            self.run(ticks.drop_last()).step(ticks.last())
        }
    }
}

/// Holding the rotation key about x from an angle of zero, in view mode,
/// counts the angle up by one degree per tick through 360 to 361; the tick
/// after that, the 362nd, starts over from zero.
pub proof fn held_rotation_turns_past_360(g: GeometryView, ticks: Seq<Keys>)
    requires
        !g.vertex_editing,
        g.user_angle_x == 0,
        ticks.len() <= 362,
        forall|i: int| 0 <= i < ticks.len() ==> ticks[i].rotate_x && !ticks[i].toggle,
    ensures
        !g.run(ticks).vertex_editing,
        ticks.len() <= 361 ==> g.run(ticks).user_angle_x == ticks.len() * UNIT,
        ticks.len() == 362 ==> g.run(ticks).user_angle_x == 0,
    decreases ticks.len(),
{
    if ticks.len() > 0 {
        held_rotation_turns_past_360(g, ticks.drop_last());
    }
}

/// The mode changes exactly once over a run of ticks in which the toggle key
/// goes down in the first tick and in no later one, however long the run is.
pub proof fn one_press_toggles_once(g: GeometryView, ticks: Seq<Keys>)
    requires
        ticks.len() >= 1,
        ticks[0].toggle,
        forall|i: int| 1 <= i < ticks.len() ==> !ticks[i].toggle,
    ensures
        g.run(ticks).vertex_editing == !g.vertex_editing,
    decreases ticks.len(),
{
    if ticks.len() == 1 {
        assert(ticks.drop_last().len() == 0);
        assert(g.run(ticks.drop_last()) == g);
    } else {
        one_press_toggles_once(g, ticks.drop_last());
    }
}

/// In edit mode the selection stops at both ends of the vertex list:
/// "previous" leaves the first vertex selected, "next" alone leaves the last
/// one selected, and no tick takes the selection out of the list.
pub proof fn selection_stops_at_ends(g: GeometryView, keys: Keys)
    requires
        g.wf(),
        g.vertex_editing,
        g.vertex.len() > 0,
    ensures
        0 <= g.step(keys).selected_vertex < g.vertex.len(),
        g.selected_vertex == 0 && keys.previous ==> g.step(keys).selected_vertex == 0,
        g.selected_vertex == g.vertex.len() - 1 && keys.next && !keys.previous ==> g.step(
            keys,
        ).selected_vertex == g.vertex.len() - 1,
{
}

/// In edit mode one tick of "zoom in" alone among the zoom keys raises the z
/// coordinate of the selected vertex by exactly one unit, provided that the
/// sum is still in the range of stored values, and changes neither another
/// vertex nor an edge. Its x stays unless left or right is held, and its y
/// unless up or down is.
pub proof fn zoom_in_raises_selected_depth(g: GeometryView, keys: Keys)
    requires
        g.wf(),
        g.vertex_editing,
        g.vertex.len() > 0,
        keys.zoom_in,
        !keys.zoom_out,
        g.vertex[g.selected_vertex][2] + UNIT <= LIMIT,
    ensures
        g.step(keys).vertex.len() == g.vertex.len(),
        g.step(keys).vertex[g.selected_vertex][2] == g.vertex[g.selected_vertex][2] + UNIT,
        !keys.left && !keys.right ==> g.step(keys).vertex[g.selected_vertex][0]
            == g.vertex[g.selected_vertex][0],
        !keys.up && !keys.down ==> g.step(keys).vertex[g.selected_vertex][1]
            == g.vertex[g.selected_vertex][1],
        forall|j: int|
            0 <= j < g.vertex.len() && j != g.selected_vertex ==> g.step(keys).vertex[j]
                == g.vertex[j],
        g.step(keys).edges == g.edges,
{
    assert(point_in_range(g.vertex[g.selected_vertex]));
}

/// In edit mode every held editing key moves the selected vertex along its
/// own axis, whatever other keys are held, and the view stays as it is: with
/// the vertex far enough from the ends of the range of stored values, left
/// and right change x by one unit down and up, up and down change y, and
/// zoom in and zoom out change z by one unit up and down.
pub proof fn editing_keys_act_on_their_own_axes(g: GeometryView, keys: Keys)
    requires
        g.wf(),
        g.vertex_editing,
        g.vertex.len() > 0,
        -LIMIT + UNIT <= g.vertex[g.selected_vertex][0] <= LIMIT - UNIT,
        -LIMIT + UNIT <= g.vertex[g.selected_vertex][1] <= LIMIT - UNIT,
        -LIMIT + UNIT <= g.vertex[g.selected_vertex][2] <= LIMIT - UNIT,
    ensures
        g.step(keys).vertex[g.selected_vertex][0] == g.vertex[g.selected_vertex][0] - (if keys.left {
            UNIT as int
        } else {
            0
        }) + (if keys.right {
            UNIT as int
        } else {
            0
        }),
        g.step(keys).vertex[g.selected_vertex][1] == g.vertex[g.selected_vertex][1] - (if keys.up {
            UNIT as int
        } else {
            0
        }) + (if keys.down {
            UNIT as int
        } else {
            0
        }),
        g.step(keys).vertex[g.selected_vertex][2] == g.vertex[g.selected_vertex][2] + (
        if keys.zoom_in {
            UNIT as int
        } else {
            0
        }) - (if keys.zoom_out {
            UNIT as int
        } else {
            0
        }),
        g.step(keys).user_x == g.user_x,
        g.step(keys).user_y == g.user_y,
        g.step(keys).user_scale == g.user_scale,
        g.step(keys).user_distance == g.user_distance,
        g.step(keys).user_angle_x == g.user_angle_x,
        g.step(keys).user_angle_y == g.user_angle_y,
{
}

/// A tick takes a well-formed mesh to a well-formed mesh, and never changes
/// its edges or the number of its vertices.
pub proof fn step_keeps_the_mesh(g: GeometryView, keys: Keys)
    requires
        g.wf(),
    ensures
        g.step(keys).wf(),
        g.step(keys).edges == g.edges,
        g.step(keys).vertex.len() == g.vertex.len(),
{
    if g.vertex_editing && g.selected_vertex < g.vertex.len() {
        assert(point_in_range(g.vertex[g.selected_vertex]));
    }
}

/// Lowers `v` by one unit if `lowering` is set, then raises it by one if `raising` is.
fn lower_then_raise(v: i64, lowering: bool, raising: bool) -> (r: i64)
    requires
        in_range(v as int),
    ensures
        r == lowered_then_raised(v as int, lowering, raising),
        in_range(r as int),
{
    let a: i64 = if lowering {
        lower(v)
    } else {
        v
    };
    if raising {
        raise(a)
    } else {
        a
    }
}

/// Raises `v` by one unit if `raising` is set, then lowers it by one if `lowering` is.
fn raise_then_lower(v: i64, raising: bool, lowering: bool) -> (r: i64)
    requires
        in_range(v as int),
    ensures
        r == raised_then_lowered(v as int, raising, lowering),
        in_range(r as int),
{
    let a: i64 = if raising {
        raise(v)
    } else {
        v
    };
    if lowering {
        lower(a)
    } else {
        a
    }
}

/// Advances a view angle by one tick of its rotation key.
fn advance(angle: i64) -> (r: i64)
    requires
        in_range(angle as int),
    ensures
        r == advanced(angle as int),
        in_range(r as int),
{
    if angle <= FULL_TURN {
        angle + UNIT
    } else {
        0
    }
}

/// The length of the edges of the cube with which a viewer starts.
pub const CUBE_EDGE: i64 = 100_000;

/// The scale and the distance of the view with which a viewer starts.
pub const CUBE_VIEW: i64 = 500_000;

/// The cube with which a viewer starts: eight vertices, the front face at
/// depth zero and the back face one edge length behind it, and twelve
/// edges, four around each face and four that join the faces.
pub open spec fn cube() -> GeometryView {
    GeometryView {
        vertex: seq![
            [0, CUBE_EDGE, 0],
            [CUBE_EDGE, CUBE_EDGE, 0],
            [CUBE_EDGE, 0, 0],
            [0, 0, 0],
            [0, CUBE_EDGE, CUBE_EDGE],
            [CUBE_EDGE, CUBE_EDGE, CUBE_EDGE],
            [CUBE_EDGE, 0, CUBE_EDGE],
            [0, 0, CUBE_EDGE],
        ],
        edges: seq![
            [0, 1],
            [1, 2],
            [2, 3],
            [3, 0],
            [7, 6],
            [6, 5],
            [5, 4],
            [4, 7],
            [0, 4],
            [1, 5],
            [2, 6],
            [3, 7],
        ],
        user_angle_x: 0,
        user_angle_y: 0,
        user_scale: CUBE_VIEW as int,
        user_distance: CUBE_VIEW as int,
        user_x: 0,
        user_y: 0,
        vertex_editing: false,
        selected_vertex: 0,
    }
}

/// Moves the vertex `p` by one tick of the six editing keys.
fn nudge(p: [i64; 3], keys: &Keys) -> (q: [i64; 3])
    requires
        point_in_range(p),
    ensures
        q == nudged(p, *keys),
        point_in_range(q),
{
    transform(
        lower_then_raise(p[0], keys.left, keys.right),
        lower_then_raise(p[1], keys.up, keys.down),
        raise_then_lower(p[2], keys.zoom_in, keys.zoom_out),
    )
}

impl Geometry {
    /// The invariant of the mesh, see [`GeometryView::wf`].
    pub open spec fn wf(&self) -> bool {
        self@.wf()
    }

    /// The cube with which a viewer starts, see [`cube`].
    pub fn cube() -> (g: Geometry)
        ensures
            g@ == cube(),
            g.wf(),
    {
        let g = Geometry {
            vertex: vec![
                [0, CUBE_EDGE, 0],
                [CUBE_EDGE, CUBE_EDGE, 0],
                [CUBE_EDGE, 0, 0],
                [0, 0, 0],
                [0, CUBE_EDGE, CUBE_EDGE],
                [CUBE_EDGE, CUBE_EDGE, CUBE_EDGE],
                [CUBE_EDGE, 0, CUBE_EDGE],
                [0, 0, CUBE_EDGE],
            ],
            edges: vec![
                [0, 1],
                [1, 2],
                [2, 3],
                [3, 0],
                [7, 6],
                [6, 5],
                [5, 4],
                [4, 7],
                [0, 4],
                [1, 5],
                [2, 6],
                [3, 7],
            ],
            user_angle_x: 0,
            user_angle_y: 0,
            user_scale: CUBE_VIEW,
            user_distance: CUBE_VIEW,
            user_x: 0,
            user_y: 0,
            vertex_editing: false,
            selected_vertex: 0,
        };
        assert(g@.vertex =~= cube().vertex);
        assert(g@.edges =~= cube().edges);
        g
    }

    /// One tick of the keys in view mode.
    fn view_tick(&mut self, keys: &Keys)
        requires
            old(self).wf(),
        ensures
            final(self)@ == old(self)@.viewed(*keys),
            final(self).wf(),
    {
        self.user_y = lower_then_raise(self.user_y, keys.up, keys.down);
        self.user_x = lower_then_raise(self.user_x, keys.left, keys.right);
        self.user_scale = raise_then_lower(self.user_scale, keys.zoom_in, keys.zoom_out);
        if keys.rotate_x {
            self.user_angle_x = advance(self.user_angle_x);
        }
        if keys.rotate_y {
            self.user_angle_y = advance(self.user_angle_y);
        }
    }

    /// One tick of the keys in edit mode.
    fn edit_tick(&mut self, keys: &Keys)
        requires
            old(self).wf(),
        ensures
            final(self)@ == old(self)@.edited(*keys),
            final(self).wf(),
    {
        let len: usize = self.vertex.len();
        if self.selected_vertex < len {
            let moved: [i64; 3] = nudge(self.vertex[self.selected_vertex], keys);
            self.vertex.set(self.selected_vertex, moved);
        }
        if keys.next {
            if self.selected_vertex < len && self.selected_vertex + 1 < len {
                self.selected_vertex += 1;
            }
        }
        if keys.previous {
            if self.selected_vertex > 0 {
                self.selected_vertex -= 1;
            }
        }
    }

    /// Applies one tick of keyboard input.
    ///
    /// In view mode the arrow keys pan by one unit, the zoom keys change the
    /// scale by one, and each rotation key advances its angle by one degree,
    /// starting over from zero once the angle is beyond 360. In edit mode the
    /// arrow and zoom keys move the selected vertex by one unit along y, x or
    /// z, and "next" and "previous" move the selection within the vertex
    /// list. The toggle key changes the mode at the end of the tick.
    pub fn movement(&mut self, keys: &Keys)
        requires
            old(self).wf(),
        ensures
            final(self)@ == old(self)@.step(*keys),
            final(self).wf(),
    {
        if !self.vertex_editing {
            self.view_tick(keys);
        } else {
            self.edit_tick(keys);
        }
        if keys.toggle {
            self.vertex_editing = !self.vertex_editing;
        }
    }
}

} // verus!
