//! The bounding box drawn around a selection: which edge the pointer grabs,
//! how a drag resizes the box, and the overlays that show it.

use vstd::prelude::*;
use crate::communication::message::{
    delete_overlay_message, lemma_views_push, overlay, overlay_message, place_overlay_message,
    views, Message, MessageView,
};
use crate::communication::{generate_uuid, UuidGenerator};
use crate::consts::{
    BOUNDS_ROTATE_THRESHOLD, BOUNDS_SELECT_THRESHOLD, COORDINATE_LIMIT,
    VECTOR_MANIPULATOR_ANCHOR_MARKER_SIZE,
};
use crate::document::{
    clone_path, path_views, BoxTransform, Color, LayerId, Operation, OperationView, PathStyle,
    Stroke,
};
use crate::frontend::MouseCursorIcon;
use crate::geometry::{
    abs_diff_lt, abs_int, bounds_in_canvas, diff_lt, halve, max_int, midpoint, midpoint_int,
    midpoint_up, midpoint_up_int,
    min_int, with_sign_of, Bounds, Point,
};
use crate::input::InputPreprocessorMessageHandler;

verus! {

/// The edges of a box that a drag moves, with the box as it was when the drag
/// began. `bounds[0]` is the top-left corner, `bounds[1]` the bottom-right one.
#[derive(Clone, Copy, Debug)]
pub struct SelectedEdges {
    pub bounds: Bounds,
    pub top: bool,
    pub bottom: bool,
    pub left: bool,
    pub right: bool,
}

/// A scaling about a moved origin, its factors kept as exact fractions:
/// `numerator / denominator` on each axis, then a shift by `offset`.
#[derive(Clone, Copy, Debug, PartialEq, Eq, Structural)]
pub struct ScaleTransform {
    pub offset: Point,
    pub numerator: Point,
    pub denominator: Point,
}

/// The square side that constraining gives to a `width` by `height` box.
pub open spec fn square_side(width: int, height: int) -> int {
    max_int(abs_int(width), abs_int(height))
}

impl SelectedEdges {
    /// No two opposite edges are dragged at once, and the box lies on the canvas.
    pub open spec fn wf(self) -> bool {
        &&& !(self.top && self.bottom)
        &&& !(self.left && self.right)
        &&& bounds_in_canvas(self.bounds)
    }

    /// The edges of a drag that began on `bounds`.
    pub fn new(top: bool, bottom: bool, left: bool, right: bool, bounds: Bounds) -> (edges: Self)
        requires
            !(top && bottom),
            !(left && right),
            bounds_in_canvas(bounds),
        ensures
            edges == (SelectedEdges { bounds, top, bottom, left, right }),
            edges.wf(),
    {
        SelectedEdges { bounds, top, bottom, left, right }
    }

    /// The point that stays fixed during the drag: on each axis the edge
    /// opposite the dragged one, or the middle where no edge is dragged.
    pub open spec fn pivot(self) -> Point {
        let min = self.bounds[0];
        let max = self.bounds[1];
        Point {
            x: if self.left {
                max.x
            } else if self.right {
                min.x
            } else {
                midpoint_int(min.x as int, max.x as int) as i64
            },
            y: if self.top {
                max.y
            } else if self.bottom {
                min.y
            } else {
                midpoint_int(min.y as int, max.y as int) as i64
            },
        }
    }

    /// Calculates the pivot of the drag, the point opposite the dragged edges.
    pub fn calculate_pivot(&self) -> (pivot: Point)
        ensures
            pivot == self.pivot(),
    {
        let min = self.bounds[0];
        let max = self.bounds[1];
        let x = if self.left {
            max.x
        } else if self.right {
            min.x
        } else {
            midpoint(min.x, max.x)
        };
        let y = if self.top {
            max.y
        } else if self.bottom {
            min.y
        } else {
            midpoint(min.y, max.y)
        };
        Point { x, y }
    }

    /// The top-left corner once the dragged edges follow the pointer.
    pub open spec fn dragged_min(self, mouse: Point) -> Point {
        Point {
            x: if self.left { mouse.x } else { self.bounds[0].x },
            y: if self.top { mouse.y } else { self.bounds[0].y },
        }
    }

    /// The bottom-right corner once the dragged edges follow the pointer.
    pub open spec fn dragged_max(self, mouse: Point) -> Point {
        Point {
            x: if !self.left && self.right { mouse.x } else { self.bounds[1].x },
            y: if !self.top && self.bottom { mouse.y } else { self.bounds[1].y },
        }
    }

    /// The width of the resized box. Constraining makes the box square, each
    /// extent keeping its sign; resizing from the centre doubles the extent
    /// on a dragged axis.
    pub open spec fn new_width(self, mouse: Point, centre: bool, constrain: bool) -> int {
        let width = self.dragged_max(mouse).x - self.dragged_min(mouse).x;
        let height = self.dragged_max(mouse).y - self.dragged_min(mouse).y;
        let width = if constrain {
            with_sign_of(square_side(width, height), width)
        } else {
            width
        };
        if centre && (self.left || self.right) {
            2 * width
        } else {
            width
        }
    }

    /// The height of the resized box; see `new_width`.
    pub open spec fn new_height(self, mouse: Point, centre: bool, constrain: bool) -> int {
        let width = self.dragged_max(mouse).x - self.dragged_min(mouse).x;
        let height = self.dragged_max(mouse).y - self.dragged_min(mouse).y;
        let height = if constrain {
            with_sign_of(square_side(width, height), height)
        } else {
            height
        };
        if centre && (self.top || self.bottom) {
            2 * height
        } else {
            height
        }
    }

    /// Computes the new box, as its top-left corner and its size, for the given
    /// pointer position and modifier keys.
    pub fn new_size(&self, mouse: Point, centre: bool, constrain: bool) -> (resized: Bounds)
        requires
            bounds_in_canvas(self.bounds),
            mouse.in_canvas(),
        ensures
            resized[0] == self.dragged_min(mouse),
            resized[1].x == self.new_width(mouse, centre, constrain),
            resized[1].y == self.new_height(mouse, centre, constrain),
            resized[0].in_canvas(),
            resized[1].within(4 * COORDINATE_LIMIT),
    {
        let mut min = self.bounds[0];
        let mut max = self.bounds[1];
        if self.top {
            min.y = mouse.y;
        } else if self.bottom {
            max.y = mouse.y;
        }
        if self.left {
            min.x = mouse.x;
        } else if self.right {
            max.x = mouse.x;
        }
        let mut width: i64 = max.x - min.x;
        let mut height: i64 = max.y - min.y;
        if constrain {
            let abs_width: i64 = if width < 0 { -width } else { width };
            let abs_height: i64 = if height < 0 { -height } else { height };
            let side: i64 = if abs_width >= abs_height { abs_width } else { abs_height };
            width = if width < 0 { -side } else { side };
            height = if height < 0 { -side } else { side };
        }
        if centre {
            if self.left || self.right {
                width = 2 * width;
            }
            if self.bottom || self.top {
                height = 2 * height;
            }
        }
        [min, Point { x: width, y: height }]
    }

    /// How far the origin moves so that a resize from the centre keeps the
    /// pivot in place: half the size, towards the dragged edge's far side.
    pub open spec fn pivot_offset(self, centre: bool, size: Point) -> Point {
        Point {
            x: ((if centre && self.left { size.x / 2 } else { 0 }) - (if centre && self.right {
                size.x / 2
            } else {
                0
            })) as i64,
            y: ((if centre && self.top { size.y / 2 } else { 0 }) - (if centre && self.bottom {
                size.y / 2
            } else {
                0
            })) as i64,
        }
    }

    /// Offsets the transformation pivot in order to scale from the centre.
    pub fn offset_pivot(&self, centre: bool, size: Point) -> (offset: Point)
        ensures
            offset == self.pivot_offset(centre, size),
    {
        let half_x: i64 = halve(size.x);
        let half_y: i64 = halve(size.y);
        let mut x: i64 = 0;
        let mut y: i64 = 0;
        if centre && self.right {
            x = x - half_x;
        }
        if centre && self.left {
            x = x + half_x;
        }
        if centre && self.bottom {
            y = y - half_y;
        }
        if centre && self.top {
            y = y + half_y;
        }
        Point { x, y }
    }

    /// The corner of the resized box when it grows from the centre: moved back
    /// by half the size on an axis whose far edge is dragged.
    pub open spec fn centred(self, position: Point, size: Point, centre: bool) -> Point {
        Point {
            x: (if centre && self.right { position.x - size.x / 2 } else { position.x as int }) as i64,
            y: (if centre && self.bottom {
                position.y - size.y / 2
            } else {
                position.y as int
            }) as i64,
        }
    }

    /// Moves the corner of a resized box so that a resize from the centre
    /// keeps the pivot in place.
    pub fn centre_position(&self, position: Point, size: Point, centre: bool) -> (moved: Point)
        requires
            position.in_canvas(),
            size.within(4 * COORDINATE_LIMIT),
        ensures
            moved == self.centred(position, size, centre),
            moved.x == if centre && self.right { position.x - size.x / 2 } else { position.x as int },
            moved.y == if centre && self.bottom { position.y - size.y / 2 } else { position.y as int },
    {
        let mut position = position;
        if centre && self.right {
            position.x = position.x - halve(size.x);
        }
        if centre && self.bottom {
            position.y = position.y - halve(size.y);
        }
        position
    }

    /// Calculates the scaling that resizes the box of the drag's start to
    /// `size`: on each axis `size` over the extent it had, about the offset
    /// pivot.
    pub fn bounds_to_scale_transform(&self, centre: bool, size: Point) -> (transform: ScaleTransform)
        requires
            bounds_in_canvas(self.bounds),
        ensures
            transform.offset == self.pivot_offset(centre, size),
            transform.numerator == size,
            transform.denominator.x == self.bounds[1].x - self.bounds[0].x,
            transform.denominator.y == self.bounds[1].y - self.bounds[0].y,
    {
        let offset = self.offset_pivot(centre, size);
        let denominator = Point {
            x: self.bounds[1].x - self.bounds[0].x,
            y: self.bounds[1].y - self.bounds[0].y,
        };
        ScaleTransform { offset, numerator: size, denominator }
    }
}

/// With an unconstrained resize from the centre, the resized box stays
/// centred on the pivot along every dragged axis: its corner plus half its
/// size is the pivot.
pub proof fn lemma_centre_resize_keeps_pivot(edges: SelectedEdges, mouse: Point)
    requires
        edges.wf(),
        mouse.in_canvas(),
    ensures
        ({
            let width = edges.new_width(mouse, true, false);
            let height = edges.new_height(mouse, true, false);
            let corner = edges.dragged_min(mouse);
            let size = Point { x: width as i64, y: height as i64 };
            let moved = edges.centred(corner, size, true);
            &&& (edges.left || edges.right) ==> moved.x + width / 2 == edges.pivot().x
            &&& (edges.top || edges.bottom) ==> moved.y + height / 2 == edges.pivot().y
        }),
{
}

/// A constrained resize gives a square: both extents have the same
/// magnitude when neither or both are doubled.
pub proof fn lemma_constrained_resize_is_square(edges: SelectedEdges, mouse: Point, centre: bool)
    requires
        !centre || ((edges.left || edges.right) <==> (edges.top || edges.bottom)),
    ensures
        abs_int(edges.new_width(mouse, centre, true)) == abs_int(
            edges.new_height(mouse, centre, true),
        ),
{
}

/// The smaller coordinates of the two corners.
pub open spec fn lower_corner(bounds: Bounds) -> Point {
    Point {
        x: min_int(bounds[0].x as int, bounds[1].x as int) as i64,
        y: min_int(bounds[0].y as int, bounds[1].y as int) as i64,
    }
}

/// The larger coordinates of the two corners.
pub open spec fn upper_corner(bounds: Bounds) -> Point {
    Point {
        x: max_int(bounds[0].x as int, bounds[1].x as int) as i64,
        y: max_int(bounds[0].y as int, bounds[1].y as int) as i64,
    }
}

/// The pointer is less than `threshold` outside the box on every side.
pub open spec fn within_reach(bounds: Bounds, cursor: Point, threshold: int) -> bool {
    let min = lower_corner(bounds);
    let max = upper_corner(bounds);
    &&& min.x - cursor.x < threshold
    &&& min.y - cursor.y < threshold
    &&& cursor.x - max.x < threshold
    &&& cursor.y - max.y < threshold
}

/// The edges the pointer grabs, as (top, bottom, left, right): each edge less
/// than `threshold` away, except that where both edges of an axis are that
/// near neither is grabbed. `None` where the pointer is out of reach of the
/// box or grabs no edge.
pub open spec fn grabbed_edges(bounds: Bounds, cursor: Point, threshold: int) -> Option<
    (bool, bool, bool, bool),
> {
    let min = lower_corner(bounds);
    let max = upper_corner(bounds);
    let near_top = abs_int(cursor.y - min.y) < threshold;
    let near_bottom = abs_int(max.y - cursor.y) < threshold;
    let near_left = abs_int(cursor.x - min.x) < threshold;
    let near_right = abs_int(max.x - cursor.x) < threshold;
    let top = near_top && !near_bottom;
    let bottom = near_bottom && !near_top;
    let left = near_left && !near_right;
    let right = near_right && !near_left;
    if within_reach(bounds, cursor, threshold) && (top || bottom || left || right) {
        Some((top, bottom, left, right))
    } else {
        None
    }
}

/// The pointer is outside the box, less than `threshold` outside it on every
/// side, and grabs no edge: the rotate zone is a frame around the frame in
/// which edges are grabbed.
pub open spec fn in_rotate_zone(bounds: Bounds, cursor: Point, threshold: int) -> bool {
    let min = lower_corner(bounds);
    let max = upper_corner(bounds);
    let outside = min.x > cursor.x || cursor.x > max.x || min.y > cursor.y || cursor.y > max.y;
    &&& outside
    &&& within_reach(bounds, cursor, threshold)
    &&& grabbed_edges(bounds, cursor, BOUNDS_SELECT_THRESHOLD as int) is None
}

/// The rotate zone and the resize frame do not overlap: a pointer in the
/// rotate zone grabs no edge, whatever the width of the zone.
pub proof fn lemma_rotate_zone_grabs_no_edge(bounds: Bounds, cursor: Point, threshold: int)
    requires
        in_rotate_zone(bounds, cursor, threshold),
    ensures
        grabbed_edges(bounds, cursor, BOUNDS_SELECT_THRESHOLD as int) is None,
{
}

/// The cursor shown over a box: a resize arrow along the grabbed edges, a
/// grabbing hand in the rotate zone, the default elsewhere.
pub open spec fn cursor_over(bounds: Bounds, cursor: Point) -> MouseCursorIcon {
    match grabbed_edges(bounds, cursor, BOUNDS_SELECT_THRESHOLD as int) {
        Some((top, bottom, left, right)) => {
            if (top || bottom) && !left && !right {
                MouseCursorIcon::NSResize
            } else if (left || right) && !top && !bottom {
                MouseCursorIcon::EWResize
            } else if (top && left) || (bottom && right) {
                MouseCursorIcon::NWSEResize
            } else {
                MouseCursorIcon::NESWResize
            }
        },
        None => if in_rotate_zone(bounds, cursor, BOUNDS_ROTATE_THRESHOLD as int) {
            MouseCursorIcon::Grabbing
        } else {
            MouseCursorIcon::Default
        },
    }
}

/// No pointer position grabs two opposite edges of a box at once.
pub proof fn lemma_grabbed_edges_exclusive(bounds: Bounds, cursor: Point, threshold: int)
    ensures
        grabbed_edges(bounds, cursor, threshold) matches Some((top, bottom, left, right)) ==> !(top
            && bottom) && !(left && right) && (top || bottom || left || right),
{
}

/// Which edges of `bounds` a pointer at `cursor` grabs, for an edge reach of
/// `threshold`.
pub fn selected_edges_at(bounds: &Bounds, cursor: Point, threshold: i64) -> (edges: Option<
    (bool, bool, bool, bool),
>)
    ensures
        edges == grabbed_edges(*bounds, cursor, threshold as int),
        edges matches Some((top, bottom, left, right)) ==> !(top && bottom) && !(left && right),
{
    let a = bounds[0];
    let b = bounds[1];
    let min = Point { x: if a.x <= b.x { a.x } else { b.x }, y: if a.y <= b.y { a.y } else { b.y } };
    let max = Point { x: if a.x >= b.x { a.x } else { b.x }, y: if a.y >= b.y { a.y } else { b.y } };
    if diff_lt(min.x, cursor.x, threshold) && diff_lt(min.y, cursor.y, threshold) && diff_lt(
        cursor.x,
        max.x,
        threshold,
    ) && diff_lt(cursor.y, max.y, threshold) {
        let near_top = abs_diff_lt(cursor.y, min.y, threshold);
        let near_bottom = abs_diff_lt(max.y, cursor.y, threshold);
        let near_left = abs_diff_lt(cursor.x, min.x, threshold);
        let near_right = abs_diff_lt(max.x, cursor.x, threshold);
        let top = near_top && !near_bottom;
        let bottom = near_bottom && !near_top;
        let left = near_left && !near_right;
        let right = near_right && !near_left;
        if top || bottom || left || right {
            return Some((top, bottom, left, right));
        }
    }
    None
}

/// Whether a pointer at `cursor` is in the band of width `threshold` around
/// `bounds`, outside the frame in which it grabs an edge.
pub fn rotate_zone_at(bounds: &Bounds, cursor: Point, threshold: i64) -> (rotating: bool)
    ensures
        rotating == in_rotate_zone(*bounds, cursor, threshold as int),
{
    let a = bounds[0];
    let b = bounds[1];
    let min = Point { x: if a.x <= b.x { a.x } else { b.x }, y: if a.y <= b.y { a.y } else { b.y } };
    let max = Point { x: if a.x >= b.x { a.x } else { b.x }, y: if a.y >= b.y { a.y } else { b.y } };
    let outside_bounds = (min.x > cursor.x || cursor.x > max.x) || (min.y > cursor.y || cursor.y
        > max.y);
    let inside_extended_bounds = diff_lt(min.x, cursor.x, threshold) && diff_lt(
        min.y,
        cursor.y,
        threshold,
    ) && diff_lt(cursor.x, max.x, threshold) && diff_lt(cursor.y, max.y, threshold);
    outside_bounds && inside_extended_bounds && selected_edges_at(
        bounds,
        cursor,
        BOUNDS_SELECT_THRESHOLD,
    ).is_none()
}

/// The placement of a box with corners `pos1` and `pos2`: its extent as the
/// scale, its first corner as the translation.
pub open spec fn placement_of(pos1: Point, pos2: Point) -> BoxTransform {
    BoxTransform {
        scale: Point { x: (pos2.x - pos1.x) as i64, y: (pos2.y - pos1.y) as i64 },
        translation: pos1,
    }
}

/// Converts a box given by two corners into its placement.
pub fn transform_from_box(pos1: Point, pos2: Point) -> (transform: BoxTransform)
    requires
        pos1.in_canvas(),
        pos2.in_canvas(),
    ensures
        transform == placement_of(pos1, pos2),
        transform.scale.x == pos2.x - pos1.x,
        transform.scale.y == pos2.y - pos1.y,
        transform.translation == pos1,
{
    BoxTransform { scale: Point { x: pos2.x - pos1.x, y: pos2.y - pos1.y }, translation: pos1 }
}

/// The scale of a box's placement is the box's extent and its translation is
/// the box's first corner, so the two give back both corners.
pub proof fn lemma_transform_from_box_round_trip(pos1: Point, pos2: Point)
    requires
        pos1.in_canvas(),
        pos2.in_canvas(),
    ensures
        placement_of(pos1, pos2).scale.x == pos2.x - pos1.x,
        placement_of(pos1, pos2).scale.y == pos2.y - pos1.y,
        placement_of(pos1, pos2).translation == pos1,
        placement_of(pos1, pos2).translation.x + placement_of(pos1, pos2).scale.x == pos2.x,
        placement_of(pos1, pos2).translation.y + placement_of(pos1, pos2).scale.y == pos2.y,
{
}

/// An outline in the accent colour, one unit wide, with no fill.
pub open spec fn bounding_box_style() -> PathStyle {
    PathStyle { stroke: Some(Stroke { color: Color::accent(), weight: 1 }), fill: None }
}

/// An outline in the accent colour, two units wide, filled white.
pub open spec fn handle_style() -> PathStyle {
    PathStyle { stroke: Some(Stroke { color: Color::accent(), weight: 2 }), fill: Some(Color::white()) }
}

/// The message that adds an overlay rectangle at the one-element path `[id]`.
pub open spec fn add_rect_message(id: LayerId, style: PathStyle) -> MessageView {
    overlay_message(OperationView::AddOverlayRect { path: seq![id], style })
}

/// Adds the overlay rectangle that outlines the selection, under a fresh
/// identifier, and returns its path.
pub fn add_bounding_box(responses: &mut Vec<Message>, ids: &mut UuidGenerator) -> (path: Vec<LayerId>)
    ensures
        path@ == seq![old(ids).next],
        *final(ids) == old(ids).advanced(1),
        views(final(responses)@) == views(old(responses)@).push(
            add_rect_message(old(ids).next, bounding_box_style()),
        ),
{
    let id = generate_uuid(ids);
    let mut path: Vec<LayerId> = Vec::new();
    path.push(id);
    let operation = Operation::AddOverlayRect {
        path: clone_path(&path),
        style: PathStyle { stroke: Some(Stroke { color: Color::accent(), weight: 1 }), fill: None },
    };
    let message = overlay(operation);
    proof {
        lemma_views_push(responses@, message);
        assert(path@ =~= seq![id]);
    }
    responses.push(message);
    path
}

/// Where the eight handles of a box sit: its corners and the middles of its
/// edges, column by column from the left. A middle that falls between two
/// units goes to the higher one.
pub open spec fn handle_positions(min: Point, max: Point) -> Seq<Point> {
    let mid_x = midpoint_up_int(min.x as int, max.x as int) as i64;
    let mid_y = midpoint_up_int(min.y as int, max.y as int) as i64;
    seq![
        Point { x: min.x, y: min.y },
        Point { x: min.x, y: mid_y },
        Point { x: min.x, y: max.y },
        Point { x: mid_x, y: min.y },
        Point { x: mid_x, y: max.y },
        Point { x: max.x, y: min.y },
        Point { x: max.x, y: mid_y },
        Point { x: max.x, y: max.y },
    ]
}

/// Computes where the eight handles of a box sit.
pub fn evaluate_transform_handle_positions(min: Point, max: Point) -> (positions: [Point; 8])
    ensures
        positions@ == handle_positions(min, max),
{
    let mid_x = midpoint_up(min.x, max.x);
    let mid_y = midpoint_up(min.y, max.y);
    let positions = [
        Point { x: min.x, y: min.y },
        Point { x: min.x, y: mid_y },
        Point { x: min.x, y: max.y },
        Point { x: mid_x, y: min.y },
        Point { x: mid_x, y: max.y },
        Point { x: max.x, y: min.y },
        Point { x: max.x, y: mid_y },
        Point { x: max.x, y: max.y },
    ];
    assert(positions@ =~= handle_positions(min, max));
    positions
}

/// The messages that add the eight handles, the `i`-th under the `i`-th
/// identifier of `ids`.
pub open spec fn add_handle_messages(ids: UuidGenerator, count: int) -> Seq<MessageView> {
    Seq::new(count as nat, |i: int| add_rect_message(ids.nth(i), handle_style()))
}

/// Adds the eight handle overlays, each under a fresh identifier, and returns
/// their paths.
pub fn add_transform_handles(responses: &mut Vec<Message>, ids: &mut UuidGenerator) -> (paths: Vec<
    Vec<LayerId>,
>)
    ensures
        paths.len() == 8,
        forall|i: int| 0 <= i < 8 ==> (#[trigger] paths[i])@ == seq![old(ids).nth(i)],
        *final(ids) == old(ids).advanced(8),
        views(final(responses)@) == views(old(responses)@) + add_handle_messages(*old(ids), 8),
{
    let ghost first = *ids;
    let ghost before = views(responses@);
    let mut paths: Vec<Vec<LayerId>> = Vec::new();
    let mut count: usize = 0;
    while count < 8
        invariant
            count <= 8,
            paths.len() == count,
            forall|i: int| 0 <= i < count ==> (#[trigger] paths[i])@ == seq![first.nth(i)],
            *ids == first.advanced(count as int),
            views(responses@) == before + add_handle_messages(first, count as int),
        decreases 8 - count,
    {
        let id = generate_uuid(ids);
        let mut current_path: Vec<LayerId> = Vec::new();
        current_path.push(id);
        let operation = Operation::AddOverlayRect {
            path: clone_path(&current_path),
            style: PathStyle {
                stroke: Some(Stroke { color: Color::accent(), weight: 2 }),
                fill: Some(Color::white()),
            },
        };
        let message = overlay(operation);
        proof {
            lemma_views_push(responses@, message);
            assert(current_path@ =~= seq![id]);
            assert(id == first.nth(count as int));
            assert(message@ == add_rect_message(first.nth(count as int), handle_style()));
            assert(add_handle_messages(first, count + 1) =~= add_handle_messages(
                first,
                count as int,
            ).push(message@));
            assert(before + add_handle_messages(first, count + 1) =~= (before + add_handle_messages(
                first,
                count as int,
            )).push(message@));
        }
        responses.push(message);
        paths.push(current_path);
        count = count + 1;
    }
    paths
}

/// The layers whose transforms were recorded when a drag began.
#[derive(Clone, Debug)]
pub struct OriginalTransforms {
    pub layers: Vec<Vec<LayerId>>,
}

impl OriginalTransforms {
    /// No layer is recorded.
    pub fn new() -> (transforms: OriginalTransforms)
        ensures
            transforms.layers@.len() == 0,
    {
        OriginalTransforms { layers: Vec::new() }
    }

    /// Forgets every recorded layer.
    pub fn clear(&mut self)
        ensures
            final(self).layers@.len() == 0,
    {
        self.layers = Vec::new();
    }
}

/// The placement of a handle at `position`: a square of the marker's size
/// whose corner lies before the position, on each axis, by half the marker
/// and half a unit, which for the marker's odd size is a whole number.
pub open spec fn handle_placement(position: Point) -> BoxTransform {
    let size = VECTOR_MANIPULATOR_ANCHOR_MARKER_SIZE;
    BoxTransform {
        scale: Point { x: size, y: size },
        translation: Point {
            x: (position.x - (size + 1) / 2) as i64,
            y: (position.y - (size + 1) / 2) as i64,
        },
    }
}

/// The overlays of the bounding box and of its eight transform handles.
#[derive(Clone, Debug)]
pub struct BoundingBoxOverlays {
    pub bounding_box: Vec<LayerId>,
    pub transform_handles: Vec<Vec<LayerId>>,
    pub bounds: Bounds,
    pub selected_edges: Option<SelectedEdges>,
    pub original_transforms: OriginalTransforms,
    pub pivot: Point,
}

/// The overlays with their paths as sequences.
pub struct BoundingBoxOverlaysView {
    pub bounding_box: Seq<LayerId>,
    pub transform_handles: Seq<Seq<LayerId>>,
    pub bounds: Bounds,
    pub selected_edges: Option<SelectedEdges>,
    pub recorded_layers: Seq<Seq<LayerId>>,
    pub pivot: Point,
}

impl View for BoundingBoxOverlays {
    type V = BoundingBoxOverlaysView;

    open spec fn view(&self) -> BoundingBoxOverlaysView {
        BoundingBoxOverlaysView {
            bounding_box: self.bounding_box@,
            transform_handles: path_views(self.transform_handles@),
            bounds: self.bounds,
            selected_edges: self.selected_edges,
            recorded_layers: path_views(self.original_transforms.layers@),
            pivot: self.pivot,
        }
    }
}

impl BoundingBoxOverlaysView {
    /// There are eight handles, the box lies on the canvas, and the edges of a
    /// drag in progress are well formed.
    pub open spec fn wf(self) -> bool {
        &&& self.transform_handles.len() == 8
        &&& bounds_in_canvas(self.bounds)
        &&& self.selected_edges matches Some(edges) ==> edges.wf()
    }

    /// The overlays of a new box at the origin with no extent: the outline
    /// under the first identifier of `ids`, the handles under the eight that
    /// follow.
    pub open spec fn created(ids: UuidGenerator) -> BoundingBoxOverlaysView {
        BoundingBoxOverlaysView {
            bounding_box: seq![ids.nth(0)],
            transform_handles: Seq::new(8, |i: int| seq![ids.nth(i + 1)]),
            bounds: [Point { x: 0, y: 0 }, Point { x: 0, y: 0 }],
            selected_edges: None,
            recorded_layers: Seq::empty(),
            pivot: Point { x: 0, y: 0 },
        }
    }

    /// The messages that add the overlays of a new box.
    pub open spec fn creation_messages(ids: UuidGenerator) -> Seq<MessageView> {
        seq![add_rect_message(ids.nth(0), bounding_box_style())] + add_handle_messages(
            ids.advanced(1),
            8,
        )
    }

    /// The messages that place the outline on the box and the handles on its
    /// corners and edge middles.
    pub open spec fn transform_messages(self) -> Seq<MessageView> {
        seq![
            place_overlay_message(self.bounding_box, placement_of(self.bounds[0], self.bounds[1])),
        ] + Seq::new(
            8,
            |i: int|
                place_overlay_message(
                    self.transform_handles[i],
                    handle_placement(handle_positions(self.bounds[0], self.bounds[1])[i]),
                ),
        )
    }

    /// The messages that remove the outline and then the handles.
    pub open spec fn deletion_messages(self) -> Seq<MessageView> {
        seq![delete_overlay_message(self.bounding_box)] + Seq::new(
            self.transform_handles.len(),
            |i: int| delete_overlay_message(self.transform_handles[i]),
        )
    }
}

impl BoundingBoxOverlays {
    /// Creates the overlays of a box at the origin with no extent.
    pub fn new(buffer: &mut Vec<Message>, ids: &mut UuidGenerator) -> (overlays: Self)
        ensures
            overlays@ == BoundingBoxOverlaysView::created(*old(ids)),
            overlays@.wf(),
            *final(ids) == old(ids).advanced(9),
            views(final(buffer)@) == views(old(buffer)@) + BoundingBoxOverlaysView::creation_messages(
                *old(ids),
            ),
    {
        let ghost first = *ids;
        let ghost before = views(buffer@);
        let bounding_box = add_bounding_box(buffer, ids);
        let transform_handles = add_transform_handles(buffer, ids);
        let overlays = BoundingBoxOverlays {
            bounding_box,
            transform_handles,
            bounds: [Point { x: 0, y: 0 }, Point { x: 0, y: 0 }],
            selected_edges: None,
            original_transforms: OriginalTransforms::new(),
            pivot: Point { x: 0, y: 0 },
        };
        proof {
            assert(views(buffer@) =~= before + BoundingBoxOverlaysView::creation_messages(first));
            assert forall|i: int| 0 <= i < 8 implies (#[trigger] overlays.transform_handles[i])@
                == seq![first.nth(i + 1)] by {
                assert(first.advanced(1).nth(i) == first.nth(i + 1));
            }
            assert(overlays@.transform_handles =~= BoundingBoxOverlaysView::created(
                first,
            ).transform_handles);
            assert(overlays@.recorded_layers =~= Seq::empty());
            assert(overlays@.bounds =~= BoundingBoxOverlaysView::created(first).bounds);
        }
        overlays
    }

    /// Update the position of the bounding box and transform handles.
    pub fn transform(&mut self, buffer: &mut Vec<Message>)
        requires
            old(self)@.wf(),
        ensures
            *final(self) == *old(self),
            views(final(buffer)@) == views(old(buffer)@) + old(self)@.transform_messages(),
    {
        let ghost before = views(buffer@);
        let ghost all = self@.transform_messages();
        let transform = transform_from_box(self.bounds[0], self.bounds[1]);
        let path = clone_path(&self.bounding_box);
        let message = overlay(Operation::SetLayerTransformInViewport { path, transform });
        proof {
            lemma_views_push(buffer@, message);
        }
        buffer.push(message);
        let positions = evaluate_transform_handle_positions(self.bounds[0], self.bounds[1]);
        let size: i64 = VECTOR_MANIPULATOR_ANCHOR_MARKER_SIZE;
        let mut index: usize = 0;
        while index < 8
            invariant
                index <= 8,
                self@.wf(),
                all == self@.transform_messages(),
                size == VECTOR_MANIPULATOR_ANCHOR_MARKER_SIZE,
                positions@ == handle_positions(self.bounds[0], self.bounds[1]),
                views(buffer@) == before + all.take(index + 1),
            decreases 8 - index,
        {
            let position = positions[index];
            let translation = Point {
                x: position.x - halve(size + 1),
                y: position.y - halve(size + 1),
            };
            let transform = BoxTransform { scale: Point { x: size, y: size }, translation };
            let path = clone_path(&self.transform_handles[index]);
            let message = overlay(Operation::SetLayerTransformInViewport { path, transform });
            proof {
                lemma_views_push(buffer@, message);
                assert(self@.transform_handles[index as int] == path@);
                assert(all.take(index + 2) =~= all.take(index + 1).push(message@));
            }
            buffer.push(message);
            index = index + 1;
        }
        proof {
            assert(all.take(9) =~= all);
        }
    }

    /// Check if the user has selected the edge for dragging (returns which edge
    /// in order top, bottom, left, right).
    pub fn check_selected_edges(&self, cursor: Point) -> (edges: Option<(bool, bool, bool, bool)>)
        ensures
            edges == grabbed_edges(self.bounds, cursor, BOUNDS_SELECT_THRESHOLD as int),
            edges matches Some((top, bottom, left, right)) ==> !(top && bottom) && !(left && right),
    {
        selected_edges_at(&self.bounds, cursor, BOUNDS_SELECT_THRESHOLD)
    }

    /// Check if the user is rotating with the bounds.
    pub fn check_rotate(&self, cursor: Point) -> (rotating: bool)
        ensures
            rotating == in_rotate_zone(self.bounds, cursor, BOUNDS_ROTATE_THRESHOLD as int),
            rotating ==> grabbed_edges(self.bounds, cursor, BOUNDS_SELECT_THRESHOLD as int) is None,
    {
        rotate_zone_at(&self.bounds, cursor, BOUNDS_ROTATE_THRESHOLD)
    }

    /// The cursor icon for the pointer of `input`: a resize arrow on an edge,
    /// a grabbing hand in the rotate zone.
    pub fn get_cursor(&self, input: &InputPreprocessorMessageHandler) -> (icon: MouseCursorIcon)
        ensures
            icon == cursor_over(self.bounds, input.mouse.position),
    {
        if let Some(directions) = self.check_selected_edges(input.mouse.position) {
            match directions {
                (true, false, false, false) | (false, true, false, false) => MouseCursorIcon::NSResize,
                (false, false, true, false) | (false, false, false, true) => MouseCursorIcon::EWResize,
                (true, false, true, false) | (false, true, false, true) => MouseCursorIcon::NWSEResize,
                (true, false, false, true) | (false, true, true, false) => MouseCursorIcon::NESWResize,
                _ => MouseCursorIcon::Default,
            }
        } else if self.check_rotate(input.mouse.position) {
            MouseCursorIcon::Grabbing
        } else {
            MouseCursorIcon::Default
        }
    }

    /// Removes the overlays.
    pub fn delete(self, buffer: &mut Vec<Message>)
        ensures
            views(final(buffer)@) == views(old(buffer)@) + self@.deletion_messages(),
    {
        let ghost before = views(buffer@);
        let ghost all = self@.deletion_messages();
        let BoundingBoxOverlays { bounding_box, transform_handles, .. } = self;
        let message = overlay(Operation::DeleteLayer { path: bounding_box });
        proof {
            lemma_views_push(buffer@, message);
        }
        buffer.push(message);
        let mut index: usize = 0;
        while index < transform_handles.len()
            invariant
                index <= transform_handles.len(),
                all.len() == transform_handles.len() + 1,
                forall|i: int|
                    0 <= i < transform_handles.len() ==> #[trigger] all[i + 1]
                        == delete_overlay_message(transform_handles[i]@),
                views(buffer@) == before + all.take(index + 1),
            decreases transform_handles.len() - index,
        {
            let path = clone_path(&transform_handles[index]);
            let message = overlay(Operation::DeleteLayer { path });
            proof {
                lemma_views_push(buffer@, message);
                assert(all.take(index + 2) =~= all.take(index + 1).push(message@));
            }
            buffer.push(message);
            index = index + 1;
        }
        proof {
            assert(all.take(all.len() as int) =~= all);
        }
    }
}

} // verus!
