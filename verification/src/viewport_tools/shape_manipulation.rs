//! The points of the selected vector shapes, and which of them is grabbed.

use std::collections::VecDeque;
use vstd::prelude::*;
use crate::communication::message::{
    delete_overlay_message, lemma_views_push, overlay, views, Message, MessageView,
};
use crate::document::{
    clone_path, points_in_canvas, shape_views, shapes_in_canvas, Operation, OperationView,
    VectorShape, VectorShapeView,
};
use crate::geometry::Point;


verus! {

/// The selected shapes and the grabbed point, if there is one.
#[derive(Clone, Debug)]
pub struct ManipulationHandler {
    pub selected_shapes: Vec<VectorShape>,
    pub has_selection: bool,
    pub selected_shape: usize,
    pub selected_point: usize,
}

/// The handler with its shapes as sequences.
pub struct ManipulationHandlerView {
    pub selected_shapes: Seq<VectorShapeView>,
    pub has_selection: bool,
    pub selected_shape: usize,
    pub selected_point: usize,
}

impl View for ManipulationHandler {
    type V = ManipulationHandlerView;

    open spec fn view(&self) -> ManipulationHandlerView {
        ManipulationHandlerView {
            selected_shapes: shape_views(self.selected_shapes@),
            has_selection: self.has_selection,
            selected_shape: self.selected_shape,
            selected_point: self.selected_point,
        }
    }
}

/// The squared distance between `a` and `b` is below the square of
/// `threshold`.
pub open spec fn near(a: Point, b: Point, threshold: int) -> bool {
    (a.x - b.x) * (a.x - b.x) + (a.y - b.y) * (a.y - b.y) < threshold * threshold
}

/// The distance between `a` and `b` is no more than `threshold`.
pub open spec fn within_distance(a: Point, b: Point, threshold: int) -> bool {
    (a.x - b.x) * (a.x - b.x) + (a.y - b.y) * (a.y - b.y) <= threshold * threshold
}

/// The first anchor at or after `from` that is near `position`.
pub open spec fn near_anchor_from(
    anchors: Seq<Point>,
    position: Point,
    threshold: int,
    from: int,
) -> Option<int>
    decreases anchors.len() - from,
{
    if from < 0 || from >= anchors.len() {
        None
    } else if near(anchors[from], position, threshold) {
        Some(from)
    } else {
        near_anchor_from(anchors, position, threshold, from + 1)
    }
}

/// The first shape at or after `from` with an anchor near `position`, and the
/// first such anchor of it.
pub open spec fn near_point_from(
    shapes: Seq<VectorShapeView>,
    position: Point,
    threshold: int,
    from: int,
) -> Option<(int, int)>
    decreases shapes.len() - from,
{
    if from < 0 || from >= shapes.len() {
        None
    } else {
        match near_anchor_from(shapes[from].anchors, position, threshold, 0) {
            Some(anchor) => Some((from, anchor)),
            None => near_point_from(shapes, position, threshold, from + 1),
        }
    }
}

/// The anchors of all the shapes, shape after shape.
pub open spec fn all_anchors(shapes: Seq<VectorShapeView>) -> Seq<Point>
    decreases shapes.len(),
{
    if shapes.len() == 0 {
        Seq::empty()
    } else {
        all_anchors(shapes.drop_last()) + shapes.last().anchors
    }
}

/// The shape without its overlay.
pub open spec fn without_overlay(shape: VectorShapeView) -> VectorShapeView {
    VectorShapeView { overlay_path: None, ..shape }
}

/// The messages that remove the overlays of the shapes that have one, in the
/// order of the shapes.
pub open spec fn overlay_removals(shapes: Seq<VectorShapeView>) -> Seq<MessageView>
    decreases shapes.len(),
{
    if shapes.len() == 0 {
        Seq::empty()
    } else {
        overlay_removals(shapes.drop_last()) + (match shapes.last().overlay_path {
            Some(path) => seq![delete_overlay_message(path)],
            None => Seq::empty(),
        })
    }
}

/// The anchors that `fresh` holds for the layer of `shape`: those of the first
/// shape at or after `from` on the same layer, or the shape's own.
pub open spec fn fresh_anchors_from(
    fresh: Seq<VectorShapeView>,
    shape: VectorShapeView,
    from: int,
) -> Seq<Point>
    decreases fresh.len() - from,
{
    if from < 0 || from >= fresh.len() {
        shape.anchors
    } else if fresh[from].layer_path == shape.layer_path {
        fresh[from].anchors
    } else {
        fresh_anchors_from(fresh, shape, from + 1)
    }
}

/// The shape with its anchors read again from `fresh`.
pub open spec fn refreshed_shape(
    fresh: Seq<VectorShapeView>,
    shape: VectorShapeView,
) -> VectorShapeView {
    VectorShapeView { anchors: fresh_anchors_from(fresh, shape, 0), ..shape }
}

impl ManipulationHandlerView {
    /// The anchors lie on the canvas, and a grabbed point exists.
    pub open spec fn wf(self) -> bool {
        &&& shapes_in_canvas(self.selected_shapes)
        &&& self.has_selection ==> self.selected_shape < self.selected_shapes.len()
            && self.selected_point < self.selected_shapes[self.selected_shape as int].anchors.len()
    }

    /// The handler once every overlay is removed.
    pub open spec fn without_overlays(self) -> ManipulationHandlerView {
        ManipulationHandlerView {
            selected_shapes: self.selected_shapes.map_values(
                |shape: VectorShapeView| without_overlay(shape),
            ),
            ..self
        }
    }

    /// The handler with `shapes` selected and no point grabbed.
    pub open spec fn with_shapes(self, shapes: Seq<VectorShapeView>) -> ManipulationHandlerView {
        ManipulationHandlerView { selected_shapes: shapes, has_selection: false, ..self }
    }

    /// The handler with the anchors of its shapes read again from `fresh`; a
    /// grabbed point that no longer exists is let go.
    pub open spec fn refreshed(self, fresh: Seq<VectorShapeView>) -> ManipulationHandlerView {
        let shapes = self.selected_shapes.map_values(
            |shape: VectorShapeView| refreshed_shape(fresh, shape),
        );
        ManipulationHandlerView {
            selected_shapes: shapes,
            has_selection: self.has_selection && self.selected_shape < shapes.len()
                && self.selected_point < shapes[self.selected_shape as int].anchors.len(),
            ..self
        }
    }

    /// The handler with no point marked as grabbed, or with the last grabbed
    /// point marked again.
    pub open spec fn with_selection_state(self, selected: bool) -> ManipulationHandlerView {
        ManipulationHandlerView { has_selection: selected, ..self }
    }

    /// The handler after a press at `position`: it grabs the first point near
    /// the position, if there is one.
    pub open spec fn pressed(self, position: Point, threshold: int) -> ManipulationHandlerView {
        match near_point_from(self.selected_shapes, position, threshold, 0) {
            Some((shape, point)) => ManipulationHandlerView {
                has_selection: true,
                selected_shape: shape as usize,
                selected_point: point as usize,
                ..self
            },
            None => self,
        }
    }

    /// The operation that moves the grabbed point to `position`; none where no
    /// point is grabbed.
    pub open spec fn move_operation(self, position: Point, mirror: bool) -> Option<OperationView> {
        if self.has_selection {
            Some(
                OperationView::MoveManipulatorPoint {
                    path: self.selected_shapes[self.selected_shape as int].layer_path,
                    point: self.selected_point,
                    position,
                    mirror,
                },
            )
        } else {
            None
        }
    }
}

/// A found point lies within the shapes, at or after the starting shape.
pub proof fn lemma_near_point_in_range(
    shapes: Seq<VectorShapeView>,
    position: Point,
    threshold: int,
    from: int,
)
    requires
        0 <= from,
    ensures
        near_point_from(shapes, position, threshold, from) matches Some((shape, point)) ==> from
            <= shape < shapes.len() && 0 <= point < shapes[shape].anchors.len() && near(
            shapes[shape].anchors[point],
            position,
            threshold,
        ),
    decreases shapes.len() - from,
{
    if from < shapes.len() {
        lemma_near_anchor_in_range(shapes[from].anchors, position, threshold, 0);
        lemma_near_point_in_range(shapes, position, threshold, from + 1);
    }
}

/// A found anchor lies within the anchors, at or after the starting one, and
/// is near the position.
pub proof fn lemma_near_anchor_in_range(anchors: Seq<Point>, position: Point, threshold: int, from: int)
    requires
        0 <= from,
    ensures
        near_anchor_from(anchors, position, threshold, from) matches Some(anchor) ==> from <= anchor
            < anchors.len() && near(anchors[anchor], position, threshold),
    decreases anchors.len() - from,
{
    if from < anchors.len() {
        lemma_near_anchor_in_range(anchors, position, threshold, from + 1);
    }
}

/// A copy of a list of points.
pub fn clone_points(points: &Vec<Point>) -> (copy: Vec<Point>)
    ensures
        copy@ == points@,
{
    let mut copy: Vec<Point> = Vec::new();
    let mut index: usize = 0;
    while index < points.len()
        invariant
            index <= points.len(),
            copy@ == points@.take(index as int),
        decreases points.len() - index,
    {
        copy.push(points[index]);
        assert(copy@ =~= points@.take(index + 1));
        index = index + 1;
    }
    assert(points@.take(points.len() as int) =~= points@);
    copy
}

/// A copy of a shape.
pub fn clone_shape(shape: &VectorShape) -> (copy: VectorShape)
    ensures
        copy@ == shape@,
{
    VectorShape {
        layer_path: clone_path(&shape.layer_path),
        anchors: clone_points(&shape.anchors),
        overlay_path: match &shape.overlay_path {
            Some(path) => Some(clone_path(path)),
            None => None,
        },
    }
}

/// A copy of a list of shapes.
pub fn clone_shapes(shapes: &Vec<VectorShape>) -> (copy: Vec<VectorShape>)
    ensures
        shape_views(copy@) == shape_views(shapes@),
{
    let mut copy: Vec<VectorShape> = Vec::new();
    let mut index: usize = 0;
    while index < shapes.len()
        invariant
            index <= shapes.len(),
            shape_views(copy@) == shape_views(shapes@).take(index as int),
        decreases shapes.len() - index,
    {
        let ghost seen = shape_views(copy@);
        let shape = clone_shape(&shapes[index]);
        copy.push(shape);
        proof {
            assert(shape_views(shapes@)[index as int] == shape@);
            assert(shape_views(copy@) =~= seen.push(shape@));
            assert(shape_views(shapes@).take(index + 1) =~= seen.push(shape@));
        }
        index = index + 1;
    }
    assert(shape_views(shapes@).take(shapes.len() as int) =~= shape_views(shapes@));
    copy
}

/// Whether `a` is near `b`; the comparison cannot overflow.
pub fn is_near(a: Point, b: Point, threshold: i64) -> (close: bool)
    ensures
        close == near(a, b, threshold as int),
{
    let dx: i128 = a.x as i128 - b.x as i128;
    let dy: i128 = a.y as i128 - b.y as i128;
    let dx: i128 = if dx < 0 { -dx } else { dx };
    let dy: i128 = if dy < 0 { -dy } else { dy };
    let t: i128 = threshold as i128;
    let t: i128 = if t < 0 { -t } else { t };
    assert(t * t == threshold * threshold) by (nonlinear_arith)
        requires
            t == threshold || t == -threshold,
    ;
    assert(dx * dx == (a.x - b.x) * (a.x - b.x)) by (nonlinear_arith)
        requires
            dx == a.x - b.x || dx == -(a.x - b.x),
    ;
    assert(dy * dy == (a.y - b.y) * (a.y - b.y)) by (nonlinear_arith)
        requires
            dy == a.y - b.y || dy == -(a.y - b.y),
    ;
    if dx >= t || dy >= t {
        assert(dx * dx + dy * dy >= t * t) by (nonlinear_arith)
            requires
                0 <= t,
                0 <= dx,
                0 <= dy,
                dx >= t || dy >= t,
        ;
        return false;
    }
    assert(0 <= dx * dx < 0x4000_0000_0000_0000_0000_0000_0000_0000) by (nonlinear_arith)
        requires
            0 <= dx < 0x8000_0000_0000_0000,
    ;
    assert(0 <= dy * dy < 0x4000_0000_0000_0000_0000_0000_0000_0000) by (nonlinear_arith)
        requires
            0 <= dy < 0x8000_0000_0000_0000,
    ;
    assert(0 <= t * t <= 0x4000_0000_0000_0000_0000_0000_0000_0000) by (nonlinear_arith)
        requires
            0 <= t <= 0x8000_0000_0000_0000,
    ;
    dx * dx + dy * dy < t * t
}

/// Whether `a` is no farther than `threshold` from `b`; the comparison cannot
/// overflow.
pub fn is_within_distance(a: Point, b: Point, threshold: i64) -> (close: bool)
    ensures
        close == within_distance(a, b, threshold as int),
{
    let dx: i128 = a.x as i128 - b.x as i128;
    let dy: i128 = a.y as i128 - b.y as i128;
    let dx: i128 = if dx < 0 { -dx } else { dx };
    let dy: i128 = if dy < 0 { -dy } else { dy };
    let t: i128 = threshold as i128;
    let t: i128 = if t < 0 { -t } else { t };
    assert(t * t == threshold * threshold) by (nonlinear_arith)
        requires
            t == threshold || t == -threshold,
    ;
    assert(dx * dx == (a.x - b.x) * (a.x - b.x)) by (nonlinear_arith)
        requires
            dx == a.x - b.x || dx == -(a.x - b.x),
    ;
    assert(dy * dy == (a.y - b.y) * (a.y - b.y)) by (nonlinear_arith)
        requires
            dy == a.y - b.y || dy == -(a.y - b.y),
    ;
    if dx > t || dy > t {
        assert(dx * dx + dy * dy > t * t) by (nonlinear_arith)
            requires
                0 <= t,
                0 <= dx,
                0 <= dy,
                dx > t || dy > t,
        ;
        return false;
    }
    assert(0 <= dx * dx <= 0x4000_0000_0000_0000_0000_0000_0000_0000) by (nonlinear_arith)
        requires
            0 <= dx <= 0x8000_0000_0000_0000,
    ;
    assert(0 <= dy * dy <= 0x4000_0000_0000_0000_0000_0000_0000_0000) by (nonlinear_arith)
        requires
            0 <= dy <= 0x8000_0000_0000_0000,
    ;
    assert(0 <= t * t <= 0x4000_0000_0000_0000_0000_0000_0000_0000) by (nonlinear_arith)
        requires
            0 <= t <= 0x8000_0000_0000_0000,
    ;
    assert(dx * dx <= t * t) by (nonlinear_arith)
        requires
            0 <= dx <= t,
    ;
    let excess: i128 = dx * dx - t * t;
    excess + dy * dy <= 0
}

impl ManipulationHandler {
    /// No shape is selected and no point is grabbed.
    pub fn new() -> (handler: ManipulationHandler)
        ensures
            handler@ == (ManipulationHandlerView {
                selected_shapes: Seq::empty(),
                has_selection: false,
                selected_shape: 0,
                selected_point: 0,
            }),
            handler@.wf(),
    {
        let handler = ManipulationHandler {
            selected_shapes: Vec::new(),
            has_selection: false,
            selected_shape: 0,
            selected_point: 0,
        };
        assert(handler@.selected_shapes =~= Seq::empty());
        handler
    }

    /// Removes the overlay of every selected shape.
    pub fn remove_overlays(&mut self, responses: &mut VecDeque<Message>)
        ensures
            final(self)@ == old(self)@.without_overlays(),
            views(final(responses)@) == views(old(responses)@) + overlay_removals(
                old(self)@.selected_shapes,
            ),
            old(self)@.wf() ==> final(self)@.wf(),
    {
        let ghost before = views(responses@);
        let ghost shapes = self@.selected_shapes;
        let mut bare: Vec<VectorShape> = Vec::new();
        let mut index: usize = 0;
        assert(shapes.take(0) =~= Seq::empty());
        while index < self.selected_shapes.len()
            invariant
                index <= self.selected_shapes.len(),
                shapes == shape_views(self.selected_shapes@),
                shape_views(bare@) == shapes.take(index as int).map_values(
                    |shape: VectorShapeView| without_overlay(shape),
                ),
                views(responses@) == before + overlay_removals(shapes.take(index as int)),
            decreases self.selected_shapes.len() - index,
        {
            let shape = &self.selected_shapes[index];
            proof {
                assert(shapes.take(index + 1).drop_last() =~= shapes.take(index as int));
                assert(shapes.take(index + 1).last() == shape@);
            }
            if let Some(path) = &shape.overlay_path {
                let message = overlay(Operation::DeleteLayer { path: clone_path(path) });
                proof {
                    lemma_views_push(responses@, message);
                    assert(before + overlay_removals(shapes.take(index + 1)) =~= (before
                        + overlay_removals(shapes.take(index as int))).push(message@));
                }
                responses.push_back(message);
            } else {
                proof {
                    assert(before + overlay_removals(shapes.take(index + 1)) =~= before
                        + overlay_removals(shapes.take(index as int)));
                }
            }
            let ghost seen = shape_views(bare@);
            let stripped = VectorShape {
                layer_path: clone_path(&shape.layer_path),
                anchors: clone_points(&shape.anchors),
                overlay_path: None,
            };
            bare.push(stripped);
            proof {
                assert(shapes[index as int] == shape@);
                assert(stripped@ == without_overlay(shape@));
                assert(shape_views(bare@) =~= seen.push(stripped@));
                assert(shapes.take(index + 1).map_values(
                    |shape: VectorShapeView| without_overlay(shape),
                ) =~= seen.push(stripped@));
            }
            index = index + 1;
        }
        proof {
            assert(shapes.take(shapes.len() as int) =~= shapes);
        }
        self.selected_shapes = bare;
    }

    /// Replaces the selected shapes; no point is grabbed afterwards.
    pub fn set_selected_shapes(&mut self, selected_shapes: Vec<VectorShape>)
        ensures
            final(self)@ == old(self)@.with_shapes(shape_views(selected_shapes@)),
    {
        self.selected_shapes = selected_shapes;
        self.has_selection = false;
    }

    /// Reads the anchors of the selected shapes again from `fresh`.
    pub fn update_shapes(&mut self, fresh: &Vec<VectorShape>)
        ensures
            final(self)@ == old(self)@.refreshed(shape_views(fresh@)),
            old(self)@.wf() && shapes_in_canvas(shape_views(fresh@)) ==> final(self)@.wf(),
    {
        let ghost shapes = self@.selected_shapes;
        let ghost new = shape_views(fresh@);
        let mut updated: Vec<VectorShape> = Vec::new();
        let mut index: usize = 0;
        while index < self.selected_shapes.len()
            invariant
                index <= self.selected_shapes.len(),
                shapes == shape_views(self.selected_shapes@),
                new == shape_views(fresh@),
                shape_views(updated@) == shapes.take(index as int).map_values(
                    |shape: VectorShapeView| refreshed_shape(new, shape),
                ),
                shapes_in_canvas(shapes) && shapes_in_canvas(new) ==> shapes_in_canvas(
                    shape_views(updated@),
                ),
            decreases self.selected_shapes.len() - index,
        {
            let shape = &self.selected_shapes[index];
            let mut anchors = clone_points(&shape.anchors);
            let mut found = false;
            let mut candidate: usize = 0;
            while candidate < fresh.len() && !found
                invariant
                    candidate <= fresh.len(),
                    new == shape_views(fresh@),
                    fresh_anchors_from(new, shape@, 0) == if found {
                        anchors@
                    } else {
                        fresh_anchors_from(new, shape@, candidate as int)
                    },
                    !found ==> anchors@ == shape@.anchors,
                    found ==> exists|k: int| 0 <= k < new.len() && new[k].anchors == anchors@,
                decreases fresh.len() - candidate, if found { 0int } else { 1int },
            {
                if crate::document::paths_equal(&fresh[candidate].layer_path, &shape.layer_path) {
                    anchors = clone_points(&fresh[candidate].anchors);
                    found = true;
                    assert(new[candidate as int].anchors == anchors@);
                } else {
                    candidate = candidate + 1;
                }
            }
            let ghost seen = shape_views(updated@);
            let renewed = VectorShape {
                layer_path: clone_path(&shape.layer_path),
                anchors,
                overlay_path: match &shape.overlay_path {
                    Some(path) => Some(clone_path(path)),
                    None => None,
                },
            };
            updated.push(renewed);
            proof {
                assert(shapes[index as int] == shape@);
                assert(renewed@ == refreshed_shape(new, shape@));
                assert(shape_views(updated@) =~= seen.push(renewed@));
                assert(shapes.take(index + 1).map_values(
                    |shape: VectorShapeView| refreshed_shape(new, shape),
                ) =~= seen.push(renewed@));
                if shapes_in_canvas(shapes) && shapes_in_canvas(new) {
                    assert(points_in_canvas(shapes[index as int].anchors));
                    assert forall|i: int| 0 <= i < shape_views(updated@).len() implies points_in_canvas(
                        (#[trigger] shape_views(updated@)[i]).anchors,
                    ) by {
                        if i < index {
                            assert(shape_views(updated@)[i] == seen[i]);
                        }
                    }
                }
            }
            index = index + 1;
        }
        proof {
            assert(shapes.take(shapes.len() as int) =~= shapes);
        }
        self.selected_shapes = updated;
        let valid = self.has_selection && self.selected_shape < self.selected_shapes.len()
            && self.selected_point < self.selected_shapes[self.selected_shape].anchors.len();
        self.has_selection = valid;
    }

    /// Marks the grabbed point as grabbed or as let go.
    pub fn set_selection_state(&mut self, selected: bool)
        requires
            selected ==> old(self)@.has_selection,
        ensures
            final(self)@ == old(self)@.with_selection_state(selected),
    {
        self.has_selection = selected;
    }

    /// Grabs the first point within `select_threshold` of `mouse_position`
    /// and says whether there was one.
    pub fn select_manipulator(&mut self, mouse_position: Point, select_threshold: i64) -> (found: bool)
        ensures
            final(self)@ == old(self)@.pressed(mouse_position, select_threshold as int),
            found == (near_point_from(
                old(self)@.selected_shapes,
                mouse_position,
                select_threshold as int,
                0,
            ) is Some),
            found ==> final(self)@.has_selection,
            old(self)@.wf() ==> final(self)@.wf(),
    {
        let ghost shapes = self@.selected_shapes;
        let mut shape_index: usize = 0;
        while shape_index < self.selected_shapes.len()
            invariant
                shape_index <= self.selected_shapes.len(),
                *self == *old(self),
                shapes == shape_views(self.selected_shapes@),
                near_point_from(shapes, mouse_position, select_threshold as int, 0)
                    == near_point_from(
                    shapes,
                    mouse_position,
                    select_threshold as int,
                    shape_index as int,
                ),
            decreases self.selected_shapes.len() - shape_index,
        {
            let mut anchor_index: usize = 0;
            let count = self.selected_shapes[shape_index].anchors.len();
            let ghost anchors = shapes[shape_index as int].anchors;
            assert(anchors == self.selected_shapes[shape_index as int].anchors@);
            while anchor_index < count
                invariant
                    anchor_index <= count,
                    shape_index < self.selected_shapes.len(),
                    *self == *old(self),
                    shapes == shape_views(self.selected_shapes@),
                    count == self.selected_shapes[shape_index as int].anchors.len(),
                    anchors == shapes[shape_index as int].anchors,
                    anchors == self.selected_shapes[shape_index as int].anchors@,
                    near_point_from(shapes, mouse_position, select_threshold as int, 0)
                        == near_point_from(
                        shapes,
                        mouse_position,
                        select_threshold as int,
                        shape_index as int,
                    ),
                    near_anchor_from(anchors, mouse_position, select_threshold as int, 0)
                        == near_anchor_from(
                        anchors,
                        mouse_position,
                        select_threshold as int,
                        anchor_index as int,
                    ),
                decreases count - anchor_index,
            {
                let anchor = self.selected_shapes[shape_index].anchors[anchor_index];
                assert(anchor == anchors[anchor_index as int]);
                if is_near(anchor, mouse_position, select_threshold) {
                    proof {
                        assert(near_anchor_from(
                            anchors,
                            mouse_position,
                            select_threshold as int,
                            anchor_index as int,
                        ) == Some(anchor_index as int));
                        assert(near_point_from(
                            shapes,
                            mouse_position,
                            select_threshold as int,
                            shape_index as int,
                        ) == Some((shape_index as int, anchor_index as int)));
                    }
                    self.has_selection = true;
                    self.selected_shape = shape_index;
                    self.selected_point = anchor_index;
                    return true;
                }
                anchor_index = anchor_index + 1;
            }
            proof {
                assert(near_anchor_from(anchors, mouse_position, select_threshold as int, 0) is None);
                assert(near_point_from(
                    shapes,
                    mouse_position,
                    select_threshold as int,
                    shape_index as int,
                ) == near_point_from(
                    shapes,
                    mouse_position,
                    select_threshold as int,
                    shape_index + 1,
                ));
            }
            shape_index = shape_index + 1;
        }
        false
    }

    /// The operation that moves the grabbed point to `position`.
    pub fn move_selected_to(&self, position: Point, mirror: bool) -> (operation: Option<Operation>)
        requires
            self@.wf(),
        ensures
            match operation {
                Some(operation) => self@.move_operation(position, mirror) == Some(operation@),
                None => self@.move_operation(position, mirror) is None,
            },
    {
        if self.has_selection {
            Some(
                Operation::MoveManipulatorPoint {
                    path: clone_path(&self.selected_shapes[self.selected_shape].layer_path),
                    point: self.selected_point,
                    position,
                    mirror,
                },
            )
        } else {
            None
        }
    }

    /// The anchors of all the selected shapes.
    pub fn anchor_positions(&self) -> (points: Vec<Point>)
        ensures
            points@ == all_anchors(self@.selected_shapes),
    {
        let ghost shapes = self@.selected_shapes;
        let mut points: Vec<Point> = Vec::new();
        let mut shape_index: usize = 0;
        assert(shapes.take(0) =~= Seq::empty());
        while shape_index < self.selected_shapes.len()
            invariant
                shape_index <= self.selected_shapes.len(),
                shapes == shape_views(self.selected_shapes@),
                points@ == all_anchors(shapes.take(shape_index as int)),
            decreases self.selected_shapes.len() - shape_index,
        {
            let anchors = &self.selected_shapes[shape_index].anchors;
            let ghost collected = points@;
            let mut anchor_index: usize = 0;
            while anchor_index < anchors.len()
                invariant
                    anchor_index <= anchors.len(),
                    points@ == collected + anchors@.take(anchor_index as int),
                decreases anchors.len() - anchor_index,
            {
                points.push(anchors[anchor_index]);
                assert(points@ =~= collected + anchors@.take(anchor_index + 1));
                anchor_index = anchor_index + 1;
            }
            proof {
                assert(anchors@.take(anchors.len() as int) =~= anchors@);
                assert(shapes.take(shape_index + 1).drop_last() =~= shapes.take(shape_index as int));
                assert(shapes.take(shape_index + 1).last().anchors == anchors@);
            }
            shape_index = shape_index + 1;
        }
        proof {
            assert(shapes.take(shapes.len() as int) =~= shapes);
        }
        points
    }
}

/// Shapes without overlays have no overlay to remove.
pub proof fn lemma_no_overlays_no_removals(shapes: Seq<VectorShapeView>)
    requires
        forall|i: int| 0 <= i < shapes.len() ==> (#[trigger] shapes[i]).overlay_path is None,
    ensures
        overlay_removals(shapes) == Seq::<MessageView>::empty(),
    decreases shapes.len(),
{
    if shapes.len() > 0 {
        let init = shapes.drop_last();
        assert forall|i: int| 0 <= i < init.len() implies (#[trigger] init[i]).overlay_path is None by {
            assert(init[i] == shapes[i]);
        }
        lemma_no_overlays_no_removals(init);
        assert(shapes.last() == shapes[shapes.len() - 1]);
        assert(overlay_removals(shapes) =~= Seq::<MessageView>::empty());
    }
}

/// The anchors of shapes on the canvas lie on the canvas.
pub proof fn lemma_all_anchors_in_canvas(shapes: Seq<VectorShapeView>)
    requires
        shapes_in_canvas(shapes),
    ensures
        points_in_canvas(all_anchors(shapes)),
    decreases shapes.len(),
{
    if shapes.len() > 0 {
        assert(shapes_in_canvas(shapes.drop_last())) by {
            assert forall|i: int| 0 <= i < shapes.drop_last().len() implies points_in_canvas(
                (#[trigger] shapes.drop_last()[i]).anchors,
            ) by {
                assert(shapes.drop_last()[i] == shapes[i]);
            }
        }
        lemma_all_anchors_in_canvas(shapes.drop_last());
        assert(points_in_canvas(shapes.last().anchors)) by {
            assert(shapes.last() == shapes[shapes.len() - 1]);
        }
    }
}

} // verus!
