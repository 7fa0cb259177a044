//! Snapping of a dragged position to the geometry of other layers, one axis
//! at a time, with guide overlays that show what was snapped to.

use std::collections::VecDeque;
use vstd::prelude::*;
use crate::communication::message::{
    delete_overlay_message, lemma_views_push, overlay, overlay_message, views, Message, MessageView,
};
use crate::communication::{generate_uuid, UuidGenerator};
use crate::consts::{COORDINATE_LIMIT, SNAP_TOLERANCE};
use crate::document::{
    boxes_in_canvas, clone_path, path_views, points_in_canvas, Color, DocumentMessageHandler,
    LayerId, Operation, OperationView, PathStyle, Stroke,
};
use crate::geometry::{abs_int, bounds_in_canvas, midpoint, midpoint_int, Bounds, Point};
use crate::viewport_tools::tools::shared::transformation_cage::{bounding_box_style};

verus! {

/// The coordinates a drag may snap to, per axis.
#[derive(Clone, Debug)]
pub struct SnapTargets {
    pub x: Vec<i64>,
    pub y: Vec<i64>,
}

/// The snapping state of one drag.
#[derive(Clone, Debug)]
pub struct SnapHandler {
    pub snap_targets: Option<SnapTargets>,
    pub overlay_paths: Vec<Vec<LayerId>>,
}

/// The snapping state with its targets and guide paths as sequences; the
/// targets are absent while no drag is snapping.
pub struct SnapHandlerView {
    pub snap_targets: Option<(Seq<i64>, Seq<i64>)>,
    pub overlay_paths: Seq<Seq<LayerId>>,
}

impl View for SnapHandler {
    type V = SnapHandlerView;

    open spec fn view(&self) -> SnapHandlerView {
        SnapHandlerView {
            snap_targets: match self.snap_targets {
                Some(targets) => Some((targets.x@, targets.y@)),
                None => None,
            },
            overlay_paths: path_views(self.overlay_paths@),
        }
    }
}

/// The `k`-th snap coordinate of a box along x: its left edge, its middle, its
/// right edge.
pub open spec fn box_target_x(bounds: Bounds, k: int) -> i64 {
    if k == 0 {
        bounds[0].x
    } else if k == 1 {
        midpoint_int(bounds[0].x as int, bounds[1].x as int) as i64
    } else {
        bounds[1].x
    }
}

/// The `k`-th snap coordinate of a box along y: its top edge, its middle, its
/// bottom edge.
pub open spec fn box_target_y(bounds: Bounds, k: int) -> i64 {
    if k == 0 {
        bounds[0].y
    } else if k == 1 {
        midpoint_int(bounds[0].y as int, bounds[1].y as int) as i64
    } else {
        bounds[1].y
    }
}

/// The x coordinates that the boxes offer for snapping: three for each box,
/// in the order of the boxes.
pub open spec fn box_targets_x(boxes: Seq<Bounds>) -> Seq<i64> {
    Seq::new(3 * boxes.len(), |i: int| box_target_x(boxes[i / 3], i % 3))
}

/// The y coordinates that the boxes offer for snapping.
pub open spec fn box_targets_y(boxes: Seq<Bounds>) -> Seq<i64> {
    Seq::new(3 * boxes.len(), |i: int| box_target_y(boxes[i / 3], i % 3))
}

/// The target nearest to `value`, the earliest among equally near ones;
/// `None` where there is no target.
pub open spec fn nearest(targets: Seq<i64>, value: i64) -> Option<i64>
    decreases targets.len(),
{
    if targets.len() == 0 {
        None
    } else {
        let last = targets.last();
        match nearest(targets.drop_last(), value) {
            Some(best) => if abs_int(best - value) <= abs_int(last - value) {
                Some(best)
            } else {
                Some(last)
            },
            None => Some(last),
        }
    }
}

/// The target that captures `value`: the nearest one, if it is no farther
/// than the snap tolerance.
pub open spec fn captured(targets: Seq<i64>, value: i64) -> Option<i64> {
    match nearest(targets, value) {
        Some(target) => if abs_int(target - value) <= SNAP_TOLERANCE {
            Some(target)
        } else {
            None
        },
        None => None,
    }
}

/// `value` after snapping: the capturing target, or `value` itself.
pub open spec fn snapped_axis(targets: Seq<i64>, value: i64) -> i64 {
    match captured(targets, value) {
        Some(target) => target,
        None => value,
    }
}

/// The nearest target is one of the targets, and no target is nearer.
pub proof fn lemma_nearest_is_closest(targets: Seq<i64>, value: i64)
    ensures
        nearest(targets, value) is None <==> targets.len() == 0,
        nearest(targets, value) matches Some(best) ==> targets.contains(best) && forall|i: int|
            0 <= i < targets.len() ==> abs_int(best - value) <= abs_int(#[trigger] targets[i] - value),
    decreases targets.len(),
{
    if targets.len() > 0 {
        let init = targets.drop_last();
        lemma_nearest_is_closest(init, value);
        let best = nearest(targets, value)->Some_0;
        assert(targets.last() == targets[targets.len() - 1]);
        match nearest(init, value) {
            Some(b) => {
                let k = choose|k: int| 0 <= k < init.len() && init[k] == b;
                assert(targets[k] == b);
            },
            None => {},
        }
        assert forall|i: int| 0 <= i < targets.len() implies abs_int(best - value) <= abs_int(
            #[trigger] targets[i] - value,
        ) by {
            if i < init.len() {
                assert(init[i] == targets[i]);
            }
        }
    }
}

/// Snapping moves a coordinate by no more than the tolerance, and only onto
/// a target that no other target beats.
pub proof fn lemma_snapped_axis(targets: Seq<i64>, value: i64)
    ensures
        abs_int(snapped_axis(targets, value) - value) <= SNAP_TOLERANCE,
        snapped_axis(targets, value) != value ==> targets.contains(snapped_axis(targets, value)),
        forall|i: int|
            0 <= i < targets.len() && abs_int(#[trigger] targets[i] - value) <= SNAP_TOLERANCE
                ==> abs_int(snapped_axis(targets, value) - value) <= abs_int(targets[i] - value),
{
    lemma_nearest_is_closest(targets, value);
}

/// The messages that remove the guide overlays, the newest first.
pub open spec fn removal_messages(paths: Seq<Seq<LayerId>>) -> Seq<MessageView> {
    Seq::new(paths.len(), |i: int| delete_overlay_message(paths[paths.len() - 1 - i]))
}

/// The message that adds a guide line from `start` to `end` at the path `[id]`.
pub open spec fn guide_message(id: LayerId, start: Point, end: Point) -> MessageView {
    overlay_message(
        OperationView::AddOverlayLine { path: seq![id], start, end, style: bounding_box_style() },
    )
}

/// The messages that show what a position snapped to: a vertical guide across
/// the viewport where x was captured, then a horizontal one where y was, each
/// under the next identifier of `ids`.
pub open spec fn guide_messages(
    capture_x: Option<i64>,
    capture_y: Option<i64>,
    viewport: Point,
    ids: UuidGenerator,
) -> Seq<MessageView> {
    let vertical = match capture_x {
        Some(x) => seq![
            guide_message(ids.nth(0), Point { x, y: 0 }, Point { x, y: viewport.y }),
        ],
        None => Seq::empty(),
    };
    let horizontal = match capture_y {
        Some(y) => seq![
            guide_message(
                ids.nth(vertical.len() as int),
                Point { x: 0, y },
                Point { x: viewport.x, y },
            ),
        ],
        None => Seq::empty(),
    };
    vertical + horizontal
}

/// The paths of the guides that `guide_messages` adds.
pub open spec fn guide_paths(capture_x: Option<i64>, capture_y: Option<i64>, ids: UuidGenerator) -> Seq<
    Seq<LayerId>,
> {
    let vertical = match capture_x {
        Some(_) => seq![seq![ids.nth(0)]],
        None => Seq::empty(),
    };
    let horizontal = match capture_y {
        Some(_) => seq![seq![ids.nth(vertical.len() as int)]],
        None => Seq::empty(),
    };
    vertical + horizontal
}

/// Every coordinate of the list is one the canvas can hold.
pub open spec fn coordinates_in_canvas(values: Seq<i64>) -> bool {
    forall|i: int|
        0 <= i < values.len() ==> -COORDINATE_LIMIT <= #[trigger] values[i] <= COORDINATE_LIMIT
}

impl SnapHandlerView {
    /// Every snap target is a coordinate the canvas can hold.
    pub open spec fn wf(self) -> bool {
        coordinates_in_canvas(self.targets_x()) && coordinates_in_canvas(self.targets_y())
    }

    /// The state once a drag has begun: where snapping is enabled, the targets
    /// are those of the boxes on each axis that is to snap.
    pub open spec fn started(
        self,
        enabled: bool,
        boxes: Seq<Bounds>,
        snap_x: bool,
        snap_y: bool,
    ) -> SnapHandlerView {
        if enabled {
            SnapHandlerView {
                snap_targets: Some(
                    (
                        if snap_x { box_targets_x(boxes) } else { Seq::empty() },
                        if snap_y { box_targets_y(boxes) } else { Seq::empty() },
                    ),
                ),
                overlay_paths: self.overlay_paths,
            }
        } else {
            self
        }
    }

    /// The state once `points` are targets too, each coordinate on its axis;
    /// unchanged where nothing is snapped.
    pub open spec fn with_points(self, enabled: bool, points: Seq<Point>) -> SnapHandlerView {
        if self.snaps(enabled) {
            SnapHandlerView {
                snap_targets: Some(
                    (
                        self.targets_x() + points.map_values(|p: Point| p.x),
                        self.targets_y() + points.map_values(|p: Point| p.y),
                    ),
                ),
                overlay_paths: self.overlay_paths,
            }
        } else {
            self
        }
    }

    /// The state after snapping `position`: the same targets, the guides of
    /// the new position.
    pub open spec fn after_snap(
        self,
        enabled: bool,
        position: Point,
        ids: UuidGenerator,
    ) -> SnapHandlerView {
        SnapHandlerView {
            snap_targets: self.snap_targets,
            overlay_paths: self.snap_overlays(enabled, position, ids),
        }
    }

    /// The targets along x; none while no drag is snapping.
    pub open spec fn targets_x(self) -> Seq<i64> {
        match self.snap_targets {
            Some((x, _)) => x,
            None => Seq::empty(),
        }
    }

    /// The targets along y; none while no drag is snapping.
    pub open spec fn targets_y(self) -> Seq<i64> {
        match self.snap_targets {
            Some((_, y)) => y,
            None => Seq::empty(),
        }
    }

    /// Whether positions are snapped at all.
    pub open spec fn snaps(self, enabled: bool) -> bool {
        enabled && self.snap_targets is Some
    }

    /// Where `position` snaps to: on each axis the capturing target, or the
    /// coordinate unchanged.
    pub open spec fn snapped(self, enabled: bool, position: Point) -> Point {
        if self.snaps(enabled) {
            Point {
                x: snapped_axis(self.targets_x(), position.x),
                y: snapped_axis(self.targets_y(), position.y),
            }
        } else {
            position
        }
    }

    /// The messages that snapping `position` emits: none where nothing is
    /// snapped; else the removal of the guides shown so far, then the guides
    /// of this position.
    pub open spec fn snap_messages(
        self,
        enabled: bool,
        position: Point,
        viewport: Point,
        ids: UuidGenerator,
    ) -> Seq<MessageView> {
        if self.snaps(enabled) {
            removal_messages(self.overlay_paths) + guide_messages(
                captured(self.targets_x(), position.x),
                captured(self.targets_y(), position.y),
                viewport,
                ids,
            )
        } else {
            Seq::empty()
        }
    }

    /// The guides on show after snapping `position`.
    pub open spec fn snap_overlays(self, enabled: bool, position: Point, ids: UuidGenerator) -> Seq<
        Seq<LayerId>,
    > {
        if self.snaps(enabled) {
            guide_paths(
                captured(self.targets_x(), position.x),
                captured(self.targets_y(), position.y),
                ids,
            )
        } else {
            self.overlay_paths
        }
    }

    /// How many guides snapping `position` adds: one for each captured axis.
    pub open spec fn guides_added(self, enabled: bool, position: Point) -> int {
        if self.snaps(enabled) {
            (if captured(self.targets_x(), position.x) is Some { 1int } else { 0int }) + (if captured(
                self.targets_y(),
                position.y,
            ) is Some { 1int } else { 0int })
        } else {
            0
        }
    }

    /// The state after a cleanup: no targets and no guides.
    pub open spec fn cleaned(self) -> SnapHandlerView {
        SnapHandlerView { snap_targets: None, overlay_paths: Seq::empty() }
    }

    /// The messages a cleanup emits: the removal of every guide on show.
    pub open spec fn cleanup_messages(self) -> Seq<MessageView> {
        removal_messages(self.overlay_paths)
    }
}

/// The snap coordinates of boxes on the canvas are on the canvas.
pub proof fn lemma_box_targets_in_canvas(boxes: Seq<Bounds>)
    requires
        boxes_in_canvas(boxes),
    ensures
        coordinates_in_canvas(box_targets_x(boxes)),
        coordinates_in_canvas(box_targets_y(boxes)),
{
    assert forall|i: int| 0 <= i < box_targets_x(boxes).len() implies -COORDINATE_LIMIT
        <= #[trigger] box_targets_x(boxes)[i] <= COORDINATE_LIMIT by {
        assert(bounds_in_canvas(boxes[i / 3]));
    }
    assert forall|i: int| 0 <= i < box_targets_y(boxes).len() implies -COORDINATE_LIMIT
        <= #[trigger] box_targets_y(boxes)[i] <= COORDINATE_LIMIT by {
        assert(bounds_in_canvas(boxes[i / 3]));
    }
}

/// A position on the canvas snaps to a position on the canvas.
pub proof fn lemma_snapped_in_canvas(handler: SnapHandlerView, enabled: bool, position: Point)
    requires
        handler.wf(),
        position.in_canvas(),
    ensures
        handler.snapped(enabled, position).in_canvas(),
{
    lemma_nearest_is_closest(handler.targets_x(), position.x);
    lemma_nearest_is_closest(handler.targets_y(), position.y);
}

/// A cleanup that follows a cleanup emits no message and changes nothing.
pub proof fn lemma_cleanup_is_idempotent(handler: SnapHandlerView)
    ensures
        handler.cleaned().cleanup_messages() == Seq::<MessageView>::empty(),
        handler.cleaned().cleaned() == handler.cleaned(),
{
    assert(handler.cleaned().cleanup_messages() =~= Seq::<MessageView>::empty());
}

/// The distance between two coordinates; it cannot overflow.
fn distance(a: i64, b: i64) -> (d: i128)
    ensures
        d == abs_int(a - b),
{
    let d: i128 = a as i128 - b as i128;
    if d < 0 { -d } else { d }
}

/// Finds the target nearest to `value`.
pub fn closest_target(targets: &Vec<i64>, value: i64) -> (closest: Option<i64>)
    ensures
        closest == nearest(targets@, value),
{
    let mut best: Option<i64> = None;
    let mut index: usize = 0;
    while index < targets.len()
        invariant
            index <= targets.len(),
            best == nearest(targets@.take(index as int), value),
        decreases targets.len() - index,
    {
        let target = targets[index];
        proof {
            assert(targets@.take(index + 1).drop_last() =~= targets@.take(index as int));
            assert(targets@.take(index + 1).last() == target);
        }
        best = match best {
            Some(b) => if distance(b, value) <= distance(target, value) {
                Some(b)
            } else {
                Some(target)
            },
            None => Some(target),
        };
        index = index + 1;
    }
    proof {
        assert(targets@.take(targets.len() as int) =~= targets@);
    }
    best
}

/// Finds the target that captures `value`, if any.
pub fn capturing_target(targets: &Vec<i64>, value: i64) -> (capture: Option<i64>)
    ensures
        capture == captured(targets@, value),
{
    match closest_target(targets, value) {
        Some(target) => if distance(target, value) <= SNAP_TOLERANCE as i128 {
            Some(target)
        } else {
            None
        },
        None => None,
    }
}

/// Removes every guide overlay, the newest first.
pub fn remove_unused_overlays(overlay_paths: &mut Vec<Vec<LayerId>>, responses: &mut VecDeque<Message>)
    ensures
        final(overlay_paths)@.len() == 0,
        views(final(responses)@) == views(old(responses)@) + removal_messages(
            path_views(old(overlay_paths)@),
        ),
{
    let ghost before = views(responses@);
    let ghost all = removal_messages(path_views(overlay_paths@));
    let ghost total = overlay_paths@.len();
    let ghost paths = path_views(overlay_paths@);
    while overlay_paths.len() > 0
        invariant
            overlay_paths@.len() <= total,
            all.len() == total,
            paths.len() == total,
            all == removal_messages(paths),
            path_views(overlay_paths@) == paths.take(overlay_paths@.len() as int),
            views(responses@) == before + all.take(total - overlay_paths@.len()),
        decreases overlay_paths.len(),
    {
        let ghost remaining = overlay_paths@.len();
        let ghost shown = path_views(overlay_paths@);
        let popped = overlay_paths.pop();
        match popped {
            Some(path) => {
                let message = overlay(Operation::DeleteLayer { path });
                proof {
                    lemma_views_push(responses@, message);
                    assert(shown[remaining - 1] == path@);
                    assert(paths[remaining - 1] == path@);
                    assert(all[total - remaining] == message@);
                    assert(all.take(total - remaining + 1) =~= all.take(total - remaining).push(
                        message@,
                    ));
                    assert(path_views(overlay_paths@) =~= paths.take(remaining - 1));
                }
                responses.push_back(message);
            },
            None => {},
        }
    }
    proof {
        assert(all.take(total as int) =~= all);
    }
}

impl SnapHandler {
    /// A handler that snaps nothing and shows no guide.
    pub fn new() -> (handler: SnapHandler)
        ensures
            handler@ == (SnapHandlerView { snap_targets: None, overlay_paths: Seq::empty() }),
    {
        let handler = SnapHandler { snap_targets: None, overlay_paths: Vec::new() };
        assert(handler@.overlay_paths =~= Seq::empty());
        handler
    }

    /// Collects the snap targets of a drag from the bounding boxes of the
    /// given layers; an axis that is not to snap gets no target. Where the
    /// document has snapping switched off nothing changes.
    pub fn start_snap(
        &mut self,
        document: &DocumentMessageHandler,
        bounding_boxes: &Vec<Bounds>,
        snap_x: bool,
        snap_y: bool,
    )
        ensures
            final(self)@ == old(self)@.started(
                document.snapping_enabled,
                bounding_boxes@,
                snap_x,
                snap_y,
            ),
            old(self)@.wf() && boxes_in_canvas(bounding_boxes@) ==> final(self)@.wf(),
    {
        if document.snapping_enabled {
            let mut xs: Vec<i64> = Vec::new();
            let mut ys: Vec<i64> = Vec::new();
            let mut index: usize = 0;
            while index < bounding_boxes.len()
                invariant
                    index <= bounding_boxes.len(),
                    xs@ == box_targets_x(bounding_boxes@.take(index as int)),
                    ys@ == box_targets_y(bounding_boxes@.take(index as int)),
                decreases bounding_boxes.len() - index,
            {
                let bounds = bounding_boxes[index];
                let ghost prefix = bounding_boxes@.take(index as int);
                let ghost longer = bounding_boxes@.take(index + 1);
                xs.push(bounds[0].x);
                xs.push(midpoint(bounds[0].x, bounds[1].x));
                xs.push(bounds[1].x);
                ys.push(bounds[0].y);
                ys.push(midpoint(bounds[0].y, bounds[1].y));
                ys.push(bounds[1].y);
                proof {
                    assert forall|i: int| 0 <= i < 3 * (index + 1) implies xs@[i] == box_targets_x(
                        longer,
                    )[i] by {
                        if i < 3 * index {
                            assert(xs@[i] == box_targets_x(prefix)[i]);
                            assert(prefix[i / 3] == longer[i / 3]);
                        } else {
                            assert(i / 3 == index);
                        }
                    }
                    assert forall|i: int| 0 <= i < 3 * (index + 1) implies ys@[i] == box_targets_y(
                        longer,
                    )[i] by {
                        if i < 3 * index {
                            assert(ys@[i] == box_targets_y(prefix)[i]);
                            assert(prefix[i / 3] == longer[i / 3]);
                        } else {
                            assert(i / 3 == index);
                        }
                    }
                    assert(xs@ =~= box_targets_x(longer));
                    assert(ys@ =~= box_targets_y(longer));
                }
                index = index + 1;
            }
            proof {
                assert(bounding_boxes@.take(bounding_boxes.len() as int) =~= bounding_boxes@);
            }
            let x = if snap_x { xs } else { Vec::new() };
            let y = if snap_y { ys } else { Vec::new() };
            self.snap_targets = Some(SnapTargets { x, y });
            proof {
                if boxes_in_canvas(bounding_boxes@) {
                    lemma_box_targets_in_canvas(bounding_boxes@);
                }
            }
        }
    }

    /// Adds the given points to the targets of the drag in progress, each
    /// point's coordinates to their axes. Where the document has snapping
    /// switched off, or no drag is snapping, nothing changes.
    pub fn add_snap_points(&mut self, document: &DocumentMessageHandler, snap_points: &Vec<Point>)
        ensures
            final(self)@ == old(self)@.with_points(document.snapping_enabled, snap_points@),
            old(self)@.wf() && points_in_canvas(snap_points@) ==> final(self)@.wf(),
    {
        if document.snapping_enabled {
            let taken = self.snap_targets.take();
            if let Some(targets) = taken {
                let ghost first_x = targets.x@;
                let ghost first_y = targets.y@;
                let SnapTargets { x, y } = targets;
                let mut x = x;
                let mut y = y;
                let mut index: usize = 0;
                while index < snap_points.len()
                    invariant
                        index <= snap_points.len(),
                        x@ == first_x + snap_points@.take(index as int).map_values(|p: Point| p.x),
                        y@ == first_y + snap_points@.take(index as int).map_values(|p: Point| p.y),
                    decreases snap_points.len() - index,
                {
                    let point = snap_points[index];
                    x.push(point.x);
                    y.push(point.y);
                    proof {
                        assert(x@ =~= first_x + snap_points@.take(index + 1).map_values(
                            |p: Point| p.x,
                        ));
                        assert(y@ =~= first_y + snap_points@.take(index + 1).map_values(
                            |p: Point| p.y,
                        ));
                    }
                    index = index + 1;
                }
                proof {
                    assert(snap_points@.take(snap_points.len() as int) =~= snap_points@);
                }
                self.snap_targets = Some(SnapTargets { x, y });
            }
        }
    }

    /// Snaps `position_viewport` on each axis to the target that captures it,
    /// and replaces the guides on show with those of the new position.
    pub fn snap_position(
        &mut self,
        responses: &mut VecDeque<Message>,
        viewport_bounds: Point,
        document: &DocumentMessageHandler,
        position_viewport: Point,
        ids: &mut UuidGenerator,
    ) -> (snapped: Point)
        ensures
            snapped == old(self)@.snapped(document.snapping_enabled, position_viewport),
            final(self)@ == old(self)@.after_snap(
                document.snapping_enabled,
                position_viewport,
                *old(ids),
            ),
            old(self)@.wf() && position_viewport.in_canvas() ==> snapped.in_canvas(),
            views(final(responses)@) == views(old(responses)@) + old(self)@.snap_messages(
                document.snapping_enabled,
                position_viewport,
                viewport_bounds,
                *old(ids),
            ),
            *final(ids) == old(ids).advanced(
                old(self)@.guides_added(document.snapping_enabled, position_viewport),
            ),
    {
        let ghost before = views(responses@);
        let ghost first = *ids;
        let ghost start = self@;
        proof {
            if start.wf() && position_viewport.in_canvas() {
                lemma_snapped_in_canvas(start, document.snapping_enabled, position_viewport);
            }
        }
        if !document.snapping_enabled {
            proof {
                assert(views(responses@) =~= before + Seq::<MessageView>::empty());
            }
            return position_viewport;
        }
        let (capture_x, capture_y) = match &self.snap_targets {
            Some(targets) => (
                capturing_target(&targets.x, position_viewport.x),
                capturing_target(&targets.y, position_viewport.y),
            ),
            None => {
                proof {
                    assert(views(responses@) =~= before + Seq::<MessageView>::empty());
                }
                return position_viewport;
            },
        };
        remove_unused_overlays(&mut self.overlay_paths, responses);
        let ghost removed = views(responses@);
        assert(path_views(self.overlay_paths@) =~= Seq::<Seq<LayerId>>::empty());
        let style = PathStyle { stroke: Some(Stroke { color: Color::accent(), weight: 1 }), fill: None };
        let mut x = position_viewport.x;
        let mut y = position_viewport.y;
        if let Some(target) = capture_x {
            x = target;
            let id = generate_uuid(ids);
            let mut path: Vec<LayerId> = Vec::new();
            path.push(id);
            let message = overlay(
                Operation::AddOverlayLine {
                    path: clone_path(&path),
                    start: Point { x: target, y: 0 },
                    end: Point { x: target, y: viewport_bounds.y },
                    style,
                },
            );
            proof {
                lemma_views_push(responses@, message);
                assert(path@ =~= seq![id]);
                assert(id == first.nth(0));
            }
            responses.push_back(message);
            self.overlay_paths.push(path);
        }
        if let Some(target) = capture_y {
            y = target;
            let ghost taken: int = if capture_x is Some { 1 } else { 0 };
            let id = generate_uuid(ids);
            let mut path: Vec<LayerId> = Vec::new();
            path.push(id);
            let message = overlay(
                Operation::AddOverlayLine {
                    path: clone_path(&path),
                    start: Point { x: 0, y: target },
                    end: Point { x: viewport_bounds.x, y: target },
                    style,
                },
            );
            proof {
                lemma_views_push(responses@, message);
                assert(path@ =~= seq![id]);
                assert(id == first.nth(taken));
            }
            responses.push_back(message);
            self.overlay_paths.push(path);
        }
        proof {
            let guides = guide_messages(capture_x, capture_y, viewport_bounds, first);
            assert(views(responses@) =~= removed + guides);
            assert(views(responses@) =~= before + (removal_messages(start.overlay_paths) + guides));
            assert(path_views(self.overlay_paths@) =~= guide_paths(capture_x, capture_y, first));
        }
        Point { x, y }
    }

    /// Removes snap target data and overlays. Call this when snapping is done.
    pub fn cleanup(&mut self, responses: &mut VecDeque<Message>)
        ensures
            final(self)@ == old(self)@.cleaned(),
            views(final(responses)@) == views(old(responses)@) + old(self)@.cleanup_messages(),
    {
        remove_unused_overlays(&mut self.overlay_paths, responses);
        self.snap_targets = None;
        assert(path_views(self.overlay_paths@) =~= Seq::<Seq<LayerId>>::empty());
    }
}

} // verus!
