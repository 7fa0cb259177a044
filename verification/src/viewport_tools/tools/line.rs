//! The line tool: draws a straight line by dragging.

use std::collections::VecDeque;
use vstd::prelude::*;
use crate::communication::message::{lemma_views_push, views, Message, MessageView};
use crate::communication::UuidGenerator;
use crate::consts::{
    ANGLE_UNITS_PER_DEGREE, DRAG_THRESHOLD, LINE_ROTATE_SNAP_ANGLE, LINE_ROTATE_SNAP_STEP,
};
use crate::document::{
    clone_path, DocumentMessage, DocumentMessageHandler, DocumentMessageHandlerView,
    DocumentMessageView, DocumentToolData, LayerId, Operation, OperationView, PathStyle, Stroke,
};
use crate::frontend::{cursor_message, hint_message, FrontendMessage, MouseCursorIcon};
use crate::geometry::Point;
use crate::input::{InputPreprocessorMessageHandler, Key, MouseMotion};
use crate::misc::{
    group_of_four, group_of_three, hint, hint_view, no_keys, one_key, HintData, HintGroup,
    HintInfoView,
};
use crate::viewport_tools::shape_manipulation::{is_within_distance, within_distance};
use crate::viewport_tools::snapping::{SnapHandler, SnapHandlerView};
use crate::viewport_tools::tool::{no_step, Fsm, ToolOutcome};
use crate::viewport_tools::tool_message::ToolMessage;
use crate::viewport_tools::tools::path::document_message;


verus! {

/// Changes to the options of the line tool.
#[derive(Clone, Copy, Debug, PartialEq, Eq, Hash, Structural)]
pub enum LineOptionsUpdate {
    LineWeight(u32),
}

/// The messages of the line tool.
#[derive(Clone, Copy, Debug, PartialEq, Eq, Hash, Structural)]
pub enum LineMessage {
    Abort,
    DragStart,
    DragStop,
    Redraw { center: Key, lock_angle: Key, snap_angle: Key },
    UpdateOptions(LineOptionsUpdate),
}

/// The kinds of message of the line tool.
#[derive(Clone, Copy, Debug, PartialEq, Eq, Hash, Structural)]
pub enum LineMessageDiscriminant {
    Abort,
    DragStart,
    DragStop,
    Redraw,
    UpdateOptions,
}

/// The options of the line tool.
#[derive(Clone, Copy, Debug, PartialEq, Eq, Structural)]
pub struct LineOptions {
    pub line_weight: u32,
}

impl Default for LineOptions {
    fn default() -> (options: LineOptions)
        ensures
            options.line_weight == 5,
    {
        LineOptions { line_weight: 5 }
    }
}

/// The states of the line tool.
#[derive(Clone, Copy, Debug, PartialEq, Eq, Structural)]
pub enum LineToolFsmState {
    Ready,
    Drawing,
}

impl Default for LineToolFsmState {
    fn default() -> (state: LineToolFsmState)
        ensures
            state == LineToolFsmState::Ready,
    {
        LineToolFsmState::Ready
    }
}

/// The working state of the line tool.
#[derive(Clone, Debug)]
pub struct LineToolData {
    pub drag_start: Point,
    pub drag_current: Point,
    pub weight: u32,
    pub path: Option<Vec<LayerId>>,
    pub snap_handler: SnapHandler,
}

/// The working state with its path as a sequence.
pub struct LineToolDataView {
    pub drag_start: Point,
    pub drag_current: Point,
    pub weight: u32,
    pub path: Option<Seq<LayerId>>,
    pub snap_handler: SnapHandlerView,
}

impl View for LineToolData {
    type V = LineToolDataView;

    open spec fn view(&self) -> LineToolDataView {
        LineToolDataView {
            drag_start: self.drag_start,
            drag_current: self.drag_current,
            weight: self.weight,
            path: match self.path {
                Some(path) => Some(path@),
                None => None,
            },
            snap_handler: self.snap_handler@,
        }
    }
}

/// The line tool: its state, its working data and its options.
pub struct Line {
    pub fsm_state: LineToolFsmState,
    pub data: LineToolData,
    pub options: LineOptions,
}

/// The tool, its data seen through its view.
pub struct LineView {
    pub fsm_state: LineToolFsmState,
    pub data: LineToolDataView,
    pub options: LineOptions,
}

impl View for Line {
    type V = LineView;

    open spec fn view(&self) -> LineView {
        LineView { fsm_state: self.fsm_state, data: self.data@, options: self.options }
    }
}

/// What one step of the line tool does.
pub type LineOutcome = ToolOutcome<LineToolFsmState, LineToolDataView>;

/// The message that applies `operation` to the document.
pub open spec fn operation_message(operation: OperationView) -> MessageView {
    document_message(DocumentMessageView::DispatchOperation(operation))
}

/// The message that adds a line of the given colour and weight at `path`, on
/// top of its siblings.
pub open spec fn add_line_message(
    path: Seq<LayerId>,
    tool_data: DocumentToolData,
    weight: u32,
) -> MessageView {
    operation_message(
        OperationView::AddLine {
            path,
            insert_index: -1isize,
            style: PathStyle {
                stroke: Some(Stroke { color: tool_data.primary_color, weight }),
                fill: None,
            },
        },
    )
}

/// The message that places the line at `path` between `start` and `end`,
/// under the given modifiers.
pub open spec fn redraw_message(
    path: Seq<LayerId>,
    start: Point,
    end: Point,
    lock_angle: bool,
    snap_angle: bool,
    center: bool,
) -> MessageView {
    operation_message(
        OperationView::SetLineInViewport { path, start, end, lock_angle, snap_angle, center },
    )
}

/// The hints of the line tool in `state`.
pub open spec fn line_hints(state: LineToolFsmState) -> Seq<Seq<HintInfoView>> {
    match state {
        LineToolFsmState::Ready => seq![
            seq![
                hint_view(Seq::empty(), Some(MouseMotion::LmbDrag), "Draw Line", false),
                hint_view(seq![seq![Key::KeyShift]], None, "Snap 15°", true),
                hint_view(seq![seq![Key::KeyAlt]], None, "From Center", true),
                hint_view(seq![seq![Key::KeyControl]], None, "Lock Angle", true),
            ],
        ],
        LineToolFsmState::Drawing => seq![
            seq![
                hint_view(seq![seq![Key::KeyShift]], None, "Snap 15°", false),
                hint_view(seq![seq![Key::KeyAlt]], None, "From Center", false),
                hint_view(seq![seq![Key::KeyControl]], None, "Lock Angle", false),
            ],
        ],
    }
}

impl LineToolDataView {
    /// The data fits the state: a line being drawn has its layer.
    pub open spec fn consistent(self, state: LineToolFsmState) -> bool {
        state == LineToolFsmState::Drawing ==> self.path is Some
    }

    /// A drag began: snapping starts on both axes, the snapped pointer is
    /// where the line starts, and a line of the current colour and weight is
    /// added in a new transaction, with nothing else selected.
    pub open spec fn drag_start(
        self,
        document: DocumentMessageHandlerView,
        tool_data: DocumentToolData,
        options: LineOptions,
        input: InputPreprocessorMessageHandler,
        ids: UuidGenerator,
    ) -> LineOutcome {
        let enabled = document.snapping_enabled;
        let position = input.mouse.position;
        let started = self.snap_handler.started(enabled, document.visible_layer_bounds, true, true);
        ToolOutcome {
            state: LineToolFsmState::Drawing,
            data: LineToolDataView {
                drag_start: started.snapped(enabled, position),
                weight: options.line_weight,
                path: Some(document.new_layer_path),
                snap_handler: started.after_snap(enabled, position, ids),
                ..self
            },
            front: Seq::empty(),
            back: started.snap_messages(enabled, position, input.viewport_size, ids) + seq![
                document_message(DocumentMessageView::StartTransaction),
                document_message(DocumentMessageView::DeselectAllLayers),
                add_line_message(document.new_layer_path, tool_data, options.line_weight),
            ],
            ids: ids.advanced(started.guides_added(enabled, position)),
        }
    }

    /// The pointer moved while drawing: the line is placed from where the
    /// drag began to the snapped pointer, under the modifiers held.
    pub open spec fn redraw(
        self,
        document: DocumentMessageHandlerView,
        input: InputPreprocessorMessageHandler,
        center: Key,
        lock_angle: Key,
        snap_angle: Key,
        ids: UuidGenerator,
    ) -> LineOutcome {
        let enabled = document.snapping_enabled;
        let position = input.mouse.position;
        let current = self.snap_handler.snapped(enabled, position);
        ToolOutcome {
            state: LineToolFsmState::Drawing,
            data: LineToolDataView {
                drag_current: current,
                snap_handler: self.snap_handler.after_snap(enabled, position, ids),
                ..self
            },
            front: Seq::empty(),
            back: self.snap_handler.snap_messages(enabled, position, input.viewport_size, ids) + seq![
                redraw_message(
                    self.path->Some_0,
                    self.drag_start,
                    current,
                    input.keyboard.is_down(lock_angle),
                    input.keyboard.is_down(snap_angle),
                    input.keyboard.is_down(center),
                ),
            ],
            ids: ids.advanced(self.snap_handler.guides_added(enabled, position)),
        }
    }

    /// The drag ended: snapping ends, and the transaction is committed, or
    /// aborted where the pointer is no farther from the start than the drag
    /// threshold.
    pub open spec fn drag_stop(
        self,
        document: DocumentMessageHandlerView,
        input: InputPreprocessorMessageHandler,
        ids: UuidGenerator,
    ) -> LineOutcome {
        let enabled = document.snapping_enabled;
        let position = input.mouse.position;
        let snapped = self.snap_handler.after_snap(enabled, position, ids);
        ToolOutcome {
            state: LineToolFsmState::Ready,
            data: LineToolDataView {
                drag_current: self.snap_handler.snapped(enabled, position),
                path: None,
                snap_handler: snapped.cleaned(),
                ..self
            },
            front: Seq::empty(),
            back: self.snap_handler.snap_messages(enabled, position, input.viewport_size, ids)
                + snapped.cleanup_messages() + seq![
                if within_distance(self.drag_start, position, DRAG_THRESHOLD as int) {
                    document_message(DocumentMessageView::AbortTransaction)
                } else {
                    document_message(DocumentMessageView::CommitTransaction)
                },
            ],
            ids: ids.advanced(self.snap_handler.guides_added(enabled, position)),
        }
    }

    /// The tool is aborted while drawing: snapping ends and the transaction
    /// is aborted.
    pub open spec fn abort(self, ids: UuidGenerator) -> LineOutcome {
        ToolOutcome {
            state: LineToolFsmState::Ready,
            data: LineToolDataView { path: None, snap_handler: self.snap_handler.cleaned(), ..self },
            front: Seq::empty(),
            back: self.snap_handler.cleanup_messages() + seq![
                document_message(DocumentMessageView::AbortTransaction),
            ],
            ids,
        }
    }
}

/// Aborting a drawing returns the tool to the ready state with no line in
/// progress, snapping ended and the transaction aborted.
pub proof fn lemma_line_abort_resets(
    document: DocumentMessageHandlerView,
    tool_data: DocumentToolData,
    data: LineToolDataView,
    options: LineOptions,
    input: InputPreprocessorMessageHandler,
    ids: UuidGenerator,
)
    ensures
        ({
            let outcome = LineToolFsmState::Drawing.step(
                ToolMessage::Line(LineMessage::Abort),
                document,
                tool_data,
                data,
                options,
                input,
                ids,
            );
            &&& outcome.state == LineToolFsmState::Ready
            &&& outcome.data.path is None
            &&& outcome.data.snap_handler == data.snap_handler.cleaned()
            &&& outcome.back.last() == document_message(DocumentMessageView::AbortTransaction)
        }),
{
}

/// Wraps a message for the document.
fn to_document(message: DocumentMessage) -> (wrapped: Message)
    ensures
        wrapped@ == document_message(message@),
{
    Message::Document(message)
}

/// Builds the message that places the line being drawn.
pub fn line_redraw_message(data: &LineToolData, lock: bool, snap: bool, center: bool) -> (message:
    Message)
    requires
        data.path is Some,
    ensures
        message@ == redraw_message(
            data@.path->Some_0,
            data.drag_start,
            data.drag_current,
            lock,
            snap,
            center,
        ),
{
    let path = match &data.path {
        Some(path) => clone_path(path),
        None => vstd::pervasive::unreached(),
    };
    to_document(
        DocumentMessage::DispatchOperation(
            Operation::SetLineInViewport {
                path,
                start: data.drag_start,
                end: data.drag_current,
                lock_angle: lock,
                snap_angle: snap,
                center,
            },
        ),
    )
}

/// Begins a line where the snapped pointer is.
fn on_drag_start(
    document: &DocumentMessageHandler,
    tool_data: &DocumentToolData,
    data: &mut LineToolData,
    tool_options: &LineOptions,
    input: &InputPreprocessorMessageHandler,
    responses: &mut VecDeque<Message>,
    ids: &mut UuidGenerator,
)
    ensures
        old(data)@.drag_start(document@, *tool_data, *tool_options, *input, *old(ids)).reached(
            LineToolFsmState::Drawing,
            final(data)@,
            views(old(responses)@),
            views(final(responses)@),
            *final(ids),
        ),
        final(data)@.consistent(LineToolFsmState::Drawing),
{
    let ghost before = views(responses@);
    let ghost first = *ids;
    let ghost start = data@;
    data.snap_handler.start_snap(document, &document.visible_layer_bounds, true, true);
    data.drag_start = data.snap_handler.snap_position(
        responses,
        input.viewport_size,
        document,
        input.mouse.position,
        ids,
    );
    let begin = to_document(DocumentMessage::StartTransaction);
    proof {
        lemma_views_push(responses@, begin);
    }
    responses.push_back(begin);
    data.path = Some(clone_path(&document.new_layer_path));
    let deselect = to_document(DocumentMessage::DeselectAllLayers);
    proof {
        lemma_views_push(responses@, deselect);
    }
    responses.push_back(deselect);
    data.weight = tool_options.line_weight;
    let add = to_document(
        DocumentMessage::DispatchOperation(
            Operation::AddLine {
                path: clone_path(&document.new_layer_path),
                insert_index: -1,
                style: PathStyle {
                    stroke: Some(Stroke { color: tool_data.primary_color, weight: data.weight }),
                    fill: None,
                },
            },
        ),
    );
    proof {
        lemma_views_push(responses@, add);
    }
    responses.push_back(add);
    proof {
        let outcome = start.drag_start(document@, *tool_data, *tool_options, *input, first);
        assert(views(responses@) =~= outcome.front + before + outcome.back);
    }
}

/// Places the line between the start of the drag and the snapped pointer.
fn on_redraw(
    document: &DocumentMessageHandler,
    data: &mut LineToolData,
    input: &InputPreprocessorMessageHandler,
    center: Key,
    lock_angle: Key,
    snap_angle: Key,
    responses: &mut VecDeque<Message>,
    ids: &mut UuidGenerator,
)
    requires
        old(data)@.consistent(LineToolFsmState::Drawing),
    ensures
        old(data)@.redraw(document@, *input, center, lock_angle, snap_angle, *old(ids)).reached(
            LineToolFsmState::Drawing,
            final(data)@,
            views(old(responses)@),
            views(final(responses)@),
            *final(ids),
        ),
        final(data)@.consistent(LineToolFsmState::Drawing),
{
    let ghost before = views(responses@);
    let ghost first = *ids;
    let ghost start = data@;
    data.drag_current = data.snap_handler.snap_position(
        responses,
        input.viewport_size,
        document,
        input.mouse.position,
        ids,
    );
    let lock = input.keyboard.get(lock_angle);
    let snap = input.keyboard.get(snap_angle);
    let from_center = input.keyboard.get(center);
    let message = line_redraw_message(data, lock, snap, from_center);
    proof {
        lemma_views_push(responses@, message);
    }
    responses.push_back(message);
    proof {
        let outcome = start.redraw(document@, *input, center, lock_angle, snap_angle, first);
        assert(views(responses@) =~= outcome.front + before + outcome.back);
    }
}

/// Ends the drag and commits the line, or aborts it after a mere click.
fn on_drag_stop(
    document: &DocumentMessageHandler,
    data: &mut LineToolData,
    input: &InputPreprocessorMessageHandler,
    responses: &mut VecDeque<Message>,
    ids: &mut UuidGenerator,
)
    ensures
        old(data)@.drag_stop(document@, *input, *old(ids)).reached(
            LineToolFsmState::Ready,
            final(data)@,
            views(old(responses)@),
            views(final(responses)@),
            *final(ids),
        ),
{
    let ghost before = views(responses@);
    let ghost first = *ids;
    let ghost start = data@;
    data.drag_current = data.snap_handler.snap_position(
        responses,
        input.viewport_size,
        document,
        input.mouse.position,
        ids,
    );
    data.snap_handler.cleanup(responses);
    let message = if is_within_distance(data.drag_start, input.mouse.position, DRAG_THRESHOLD) {
        to_document(DocumentMessage::AbortTransaction)
    } else {
        to_document(DocumentMessage::CommitTransaction)
    };
    proof {
        lemma_views_push(responses@, message);
    }
    responses.push_back(message);
    data.path = None;
    proof {
        let outcome = start.drag_stop(document@, *input, first);
        assert(views(responses@) =~= outcome.front + before + outcome.back);
    }
}

/// Gives the line up.
fn on_abort(data: &mut LineToolData, responses: &mut VecDeque<Message>, ids: &UuidGenerator)
    ensures
        old(data)@.abort(*ids).reached(
            LineToolFsmState::Ready,
            final(data)@,
            views(old(responses)@),
            views(final(responses)@),
            *ids,
        ),
{
    let ghost before = views(responses@);
    let ghost start = data@;
    data.snap_handler.cleanup(responses);
    let message = to_document(DocumentMessage::AbortTransaction);
    proof {
        lemma_views_push(responses@, message);
    }
    responses.push_back(message);
    data.path = None;
    proof {
        let outcome = start.abort(*ids);
        assert(views(responses@) =~= outcome.front + before + outcome.back);
    }
}

impl Fsm for LineToolFsmState {
    type ToolData = LineToolData;

    type ToolOptions = LineOptions;

    /// Whether the tool reacts to `event` in this state.
    open spec fn handles(self, event: ToolMessage) -> bool {
        match event {
            ToolMessage::Line(event) => match (self, event) {
                (LineToolFsmState::Ready, LineMessage::DragStart) => true,
                (LineToolFsmState::Drawing, LineMessage::Redraw { .. }) => true,
                (LineToolFsmState::Drawing, LineMessage::DragStop) => true,
                (LineToolFsmState::Drawing, LineMessage::Abort) => true,
                _ => false,
            },
            _ => false,
        }
    }

    /// The data fits the state: a line being drawn has its layer.
    open spec fn consistent(self, data: LineToolDataView) -> bool {
        data.consistent(self)
    }

    /// The line tool works with any document and any input.
    open spec fn accepts(
        document: DocumentMessageHandlerView,
        input: InputPreprocessorMessageHandler,
    ) -> bool {
        true
    }

    /// What `event` does to the tool in this state.
    open spec fn step(
        self,
        event: ToolMessage,
        document: DocumentMessageHandlerView,
        tool_data: DocumentToolData,
        data: LineToolDataView,
        options: LineOptions,
        input: InputPreprocessorMessageHandler,
        ids: UuidGenerator,
    ) -> LineOutcome {
        match event {
            ToolMessage::Line(event) => match (self, event) {
                (LineToolFsmState::Ready, LineMessage::DragStart) => data.drag_start(
                    document,
                    tool_data,
                    options,
                    input,
                    ids,
                ),
                (
                    LineToolFsmState::Drawing,
                    LineMessage::Redraw { center, lock_angle, snap_angle },
                ) => data.redraw(document, input, center, lock_angle, snap_angle, ids),
                (LineToolFsmState::Drawing, LineMessage::DragStop) => data.drag_stop(
                    document,
                    input,
                    ids,
                ),
                (LineToolFsmState::Drawing, LineMessage::Abort) => data.abort(ids),
                _ => no_step(self, data, ids),
            },
            _ => no_step(self, data, ids),
        }
    }

    proof fn unhandled_is_noop(
        self,
        event: ToolMessage,
        document: DocumentMessageHandlerView,
        tool_data: DocumentToolData,
        data: LineToolDataView,
        tool_options: LineOptions,
        input: InputPreprocessorMessageHandler,
        ids: UuidGenerator,
    ) {
    }

    /// Advances the tool by one event; every message it emits goes behind the
    /// messages already queued.
    fn transition(
        self,
        event: ToolMessage,
        document: &DocumentMessageHandler,
        tool_data: &DocumentToolData,
        data: &mut LineToolData,
        tool_options: &LineOptions,
        input: &InputPreprocessorMessageHandler,
        responses: &mut VecDeque<Message>,
        ids: &mut UuidGenerator,
    ) -> (next: Self) {
        let ghost before = views(responses@);
        proof {
            assert(Seq::<MessageView>::empty() + before + Seq::<MessageView>::empty() =~= before);
        }
        if let ToolMessage::Line(event) = event {
            match (self, event) {
                (LineToolFsmState::Ready, LineMessage::DragStart) => {
                    on_drag_start(document, tool_data, data, tool_options, input, responses, ids);
                    LineToolFsmState::Drawing
                },
                (LineToolFsmState::Drawing, LineMessage::Redraw { center, lock_angle, snap_angle }) => {
                    on_redraw(document, data, input, center, lock_angle, snap_angle, responses, ids);
                    LineToolFsmState::Drawing
                },
                (LineToolFsmState::Drawing, LineMessage::DragStop) => {
                    on_drag_stop(document, data, input, responses, ids);
                    LineToolFsmState::Ready
                },
                (LineToolFsmState::Drawing, LineMessage::Abort) => {
                    on_abort(data, responses, ids);
                    LineToolFsmState::Ready
                },
                _ => self,
            }
        } else {
            self
        }
    }

    /// The hints of the state.
    open spec fn hint_messages(self) -> Seq<MessageView> {
        seq![hint_message(line_hints(self))]
    }

    /// The line tool asks for the crosshair cursor in every state.
    open spec fn cursor_messages(self) -> Seq<MessageView> {
        seq![cursor_message(MouseCursorIcon::Crosshair)]
    }

    /// Shows the hints of the state.
    fn update_hints(&self, responses: &mut VecDeque<Message>) {
        let hint_data = match self {
            LineToolFsmState::Ready => {
                let mut groups: Vec<HintGroup> = Vec::new();
                groups.push(
                    group_of_four(
                        hint(no_keys(), Some(MouseMotion::LmbDrag), "Draw Line", false),
                        hint(one_key(Key::KeyShift), None, "Snap 15°", true),
                        hint(one_key(Key::KeyAlt), None, "From Center", true),
                        hint(one_key(Key::KeyControl), None, "Lock Angle", true),
                    ),
                );
                let data = HintData(groups);
                assert(data@ =~= line_hints(LineToolFsmState::Ready));
                data
            },
            LineToolFsmState::Drawing => {
                let mut groups: Vec<HintGroup> = Vec::new();
                groups.push(
                    group_of_three(
                        hint(one_key(Key::KeyShift), None, "Snap 15°", false),
                        hint(one_key(Key::KeyAlt), None, "From Center", false),
                        hint(one_key(Key::KeyControl), None, "Lock Angle", false),
                    ),
                );
                let data = HintData(groups);
                assert(data@ =~= line_hints(LineToolFsmState::Drawing));
                data
            },
        };
        let message = Message::Frontend(FrontendMessage::UpdateInputHints { hint_data });
        proof {
            lemma_views_push(responses@, message);
            assert(views(responses@).push(message@) =~= views(responses@) + seq![message@]);
        }
        responses.push_back(message);
    }

    /// Asks the frontend for the crosshair cursor.
    fn update_cursor(&self, responses: &mut VecDeque<Message>) {
        let message = Message::Frontend(
            FrontendMessage::UpdateMouseCursor { cursor: MouseCursorIcon::Crosshair },
        );
        proof {
            lemma_views_push(responses@, message);
            assert(views(responses@).push(message@) =~= views(responses@) + seq![message@]);
        }
        responses.push_back(message);
    }
}

/// The angle step that a drawn line snaps to, in angle units.
pub open spec fn snap_step() -> int {
    LINE_ROTATE_SNAP_STEP as int
}

/// Half a turn, in angle units: no direction is farther from zero.
pub open spec fn half_turn() -> int {
    180_000_000
}

/// `angle` is the angle of a direction: at most half a turn either way.
pub open spec fn is_direction(angle: int) -> bool {
    -half_turn() <= angle <= half_turn()
}

/// `angle` moved to the nearest multiple of the snap step, halves going away
/// from zero.
pub open spec fn snapped_angle(angle: int) -> int {
    let half = LINE_ROTATE_SNAP_STEP / 2;
    if angle >= 0 {
        (angle + half) - (angle + half) % (LINE_ROTATE_SNAP_STEP as int)
    } else {
        -((half - angle) - (half - angle) % (LINE_ROTATE_SNAP_STEP as int))
    }
}

/// The angle a line is drawn at: the angle it had before while the angle is
/// locked, else the measured one; snapped where snapping is on.
pub open spec fn resolved_angle(locked: int, measured: int, lock: bool, snap: bool) -> int {
    let angle = if lock { locked } else { measured };
    if snap {
        snapped_angle(angle)
    } else {
        angle
    }
}

/// The snap step is the snap angle in angle units, and half a turn is a
/// hundred and eighty degrees.
pub proof fn lemma_angle_units()
    ensures
        snap_step() == LINE_ROTATE_SNAP_ANGLE * ANGLE_UNITS_PER_DEGREE,
        half_turn() == 180 * ANGLE_UNITS_PER_DEGREE,
        half_turn() % snap_step() == 0,
{
}

/// A snapped angle is a multiple of the snap step, no farther than half a
/// step from the angle it came from, and no other multiple is nearer.
pub proof fn lemma_snapped_angle_is_nearest(angle: int, multiple: int)
    requires
        multiple % snap_step() == 0,
    ensures
        snapped_angle(angle) % snap_step() == 0,
        -snap_step() / 2 <= snapped_angle(angle) - angle <= snap_step() / 2,
        vstd::math::abs(snapped_angle(angle) - angle) <= vstd::math::abs(multiple - angle),
        is_direction(angle) ==> is_direction(snapped_angle(angle)),
{
    let gap = multiple - snapped_angle(angle);
    assert(snap_step() == 15_000_000);
    assert(multiple % 15_000_000 == 0);
    assert(snapped_angle(angle) % 15_000_000 == 0);
    assert(gap % 15_000_000 == 0);
    assert(gap == 0 || gap >= 15_000_000 || gap <= -15_000_000);
}

/// The angle of the line as last drawn, in angle units, which angle locking
/// holds on to.
#[derive(Clone, Copy, Debug, PartialEq, Eq, Structural)]
pub struct LineAngle {
    pub angle: i64,
}

impl LineAngle {
    /// A line along the x axis.
    pub fn new() -> (state: LineAngle)
        ensures
            state.angle == 0,
    {
        LineAngle { angle: 0 }
    }

    /// Decides the angle to draw the line at, from the angle measured between
    /// its ends and the modifiers held, and remembers it.
    pub fn resolve(&mut self, measured: i64, lock: bool, snap: bool) -> (angle: i64)
        requires
            is_direction(old(self).angle as int),
            is_direction(measured as int),
        ensures
            angle == resolved_angle(old(self).angle as int, measured as int, lock, snap),
            final(self).angle == angle,
            is_direction(angle as int),
    {
        let mut angle: i64 = if lock { self.angle } else { measured };
        if snap {
            proof {
                lemma_snapped_angle_is_nearest(angle as int, 0);
            }
            let half: i64 = LINE_ROTATE_SNAP_STEP / 2;
            angle = if angle >= 0 {
                (angle + half) - (angle + half) % LINE_ROTATE_SNAP_STEP
            } else {
                -((half - angle) - (half - angle) % LINE_ROTATE_SNAP_STEP)
            };
        }
        self.angle = angle;
        angle
    }
}

/// A number field of the options panel.
#[derive(Clone, Debug, PartialEq, Eq)]
pub struct NumberInput {
    pub unit: String,
    pub label: String,
    pub value: u32,
    pub is_integer: bool,
    pub min: Option<u32>,
}

impl LineView {
    /// The tool at rest: ready, with a line weight of 5, no line in progress
    /// and no snapping.
    pub open spec fn at_rest() -> LineView {
        LineView {
            fsm_state: LineToolFsmState::Ready,
            data: LineToolDataView {
                drag_start: Point { x: 0, y: 0 },
                drag_current: Point { x: 0, y: 0 },
                weight: 0,
                path: None,
                snap_handler: SnapHandlerView { snap_targets: None, overlay_paths: Seq::empty() },
            },
            options: LineOptions { line_weight: 5 },
        }
    }

    /// The tool's data fits its state.
    pub open spec fn wf(self) -> bool {
        self.data.consistent(self.fsm_state)
    }

    /// What `action` does to the state, the data and the queue. A request for
    /// hints or for the cursor emits them and changes nothing, and so does a
    /// change of options, which emits nothing; every other message is one
    /// step of the state machine, followed by the hints and the cursor of the
    /// new state where the state changed.
    pub open spec fn process(
        self,
        action: ToolMessage,
        document: DocumentMessageHandlerView,
        tool_data: DocumentToolData,
        input: InputPreprocessorMessageHandler,
        ids: UuidGenerator,
    ) -> LineOutcome {
        match action {
            ToolMessage::UpdateHints => no_step(self.fsm_state, self.data, ids).followed_by(
                seq![hint_message(line_hints(self.fsm_state))],
            ),
            ToolMessage::UpdateCursor => no_step(self.fsm_state, self.data, ids).followed_by(
                seq![cursor_message(MouseCursorIcon::Crosshair)],
            ),
            ToolMessage::Line(LineMessage::UpdateOptions(_)) => no_step(
                self.fsm_state,
                self.data,
                ids,
            ),
            _ => {
                let outcome = self.fsm_state.step(
                    action,
                    document,
                    tool_data,
                    self.data,
                    self.options,
                    input,
                    ids,
                );
                if outcome.state != self.fsm_state {
                    outcome.followed_by(
                        seq![
                            hint_message(line_hints(outcome.state)),
                            cursor_message(MouseCursorIcon::Crosshair),
                        ],
                    )
                } else {
                    outcome
                }
            },
        }
    }

    /// The options after `action`: a change of the line weight sets it, and
    /// nothing else touches the options.
    pub open spec fn options_after(self, action: ToolMessage) -> LineOptions {
        match action {
            ToolMessage::Line(
                LineMessage::UpdateOptions(LineOptionsUpdate::LineWeight(line_weight)),
            ) => LineOptions { line_weight },
            _ => self.options,
        }
    }
}

impl Default for Line {
    fn default() -> (tool: Line)
        ensures
            tool@.fsm_state == LineToolFsmState::Ready,
            tool@.options.line_weight == 5,
            tool@.wf(),
    {
        Line::new()
    }
}

impl Line {
    /// The tool at rest: ready, with the default options.
    pub fn new() -> (tool: Line)
        ensures
            tool@.fsm_state == LineToolFsmState::Ready,
            tool@.options.line_weight == 5,
            tool@.data.path is None,
            tool@.data.drag_start == (Point { x: 0, y: 0 }),
            tool@.data.drag_current == (Point { x: 0, y: 0 }),
            tool@.data.weight == 0,
            tool@.data.snap_handler == (SnapHandlerView {
                snap_targets: None,
                overlay_paths: Seq::empty(),
            }),
            tool@ == LineView::at_rest(),
            tool@.wf(),
    {
        Line {
            fsm_state: LineToolFsmState::Ready,
            data: LineToolData {
                drag_start: Point { x: 0, y: 0 },
                drag_current: Point { x: 0, y: 0 },
                weight: 0,
                path: None,
                snap_handler: SnapHandler::new(),
            },
            options: LineOptions { line_weight: 5 },
        }
    }

    /// The options panel of the tool: one whole-number field for the line
    /// weight, in pixels, that cannot go below zero.
    pub fn properties(&self) -> (input: NumberInput)
        ensures
            input.unit@ == " px"@,
            input.label@ == "Weight"@,
            input.value == self.options.line_weight,
            input.is_integer,
            input.min == Some(0u32),
    {
        NumberInput {
            unit: " px".to_owned(),
            label: "Weight".to_owned(),
            value: self.options.line_weight,
            is_integer: true,
            min: Some(0),
        }
    }

    /// The message the options panel sends when the weight field changes.
    pub fn weight_update(value: u32) -> (message: Message)
        ensures
            message@ == MessageView::Tool(
                ToolMessage::Line(LineMessage::UpdateOptions(LineOptionsUpdate::LineWeight(value))),
            ),
    {
        Message::Tool(
            ToolMessage::Line(LineMessage::UpdateOptions(LineOptionsUpdate::LineWeight(value))),
        )
    }

    /// Handles one message addressed to the tool.
    pub fn process_action(
        &mut self,
        action: ToolMessage,
        document: &DocumentMessageHandler,
        tool_data: &DocumentToolData,
        input: &InputPreprocessorMessageHandler,
        responses: &mut VecDeque<Message>,
        ids: &mut UuidGenerator,
    )
        requires
            old(self)@.wf(),
        ensures
            old(self)@.process(action, document@, *tool_data, *input, *old(ids)).reached(
                final(self)@.fsm_state,
                final(self)@.data,
                views(old(responses)@),
                views(final(responses)@),
                *final(ids),
            ),
            final(self)@.options == old(self)@.options_after(action),
            final(self)@.wf(),
    {
        let ghost before = views(responses@);
        let ghost start = self@;
        let ghost first = *ids;
        proof {
            assert(Seq::<MessageView>::empty() + before + Seq::<MessageView>::empty() =~= before);
        }
        match action {
            ToolMessage::UpdateHints => {
                self.fsm_state.update_hints(responses);
                proof {
                    let outcome = start.process(action, document@, *tool_data, *input, first);
                    assert(views(responses@) =~= outcome.front + before + outcome.back);
                }
                return ;
            },
            ToolMessage::UpdateCursor => {
                self.fsm_state.update_cursor(responses);
                proof {
                    let outcome = start.process(action, document@, *tool_data, *input, first);
                    assert(views(responses@) =~= outcome.front + before + outcome.back);
                }
                return ;
            },
            ToolMessage::Line(LineMessage::UpdateOptions(update)) => {
                match update {
                    LineOptionsUpdate::LineWeight(line_weight) => {
                        self.options.line_weight = line_weight;
                    },
                }
                return ;
            },
            _ => {},
        }
        let new_state = self.fsm_state.transition(
            action,
            document,
            tool_data,
            &mut self.data,
            &self.options,
            input,
            responses,
            ids,
        );
        if self.fsm_state != new_state {
            self.fsm_state = new_state;
            self.fsm_state.update_hints(responses);
            self.fsm_state.update_cursor(responses);
            proof {
                let outcome = start.process(action, document@, *tool_data, *input, first);
                assert(views(responses@) =~= outcome.front + before + outcome.back);
            }
        }
    }

    /// The kinds of message the tool accepts in its state.
    pub fn actions(&self) -> (list: Vec<LineMessageDiscriminant>)
        ensures
            list@ == match self.fsm_state {
                LineToolFsmState::Ready => seq![LineMessageDiscriminant::DragStart],
                LineToolFsmState::Drawing => seq![
                    LineMessageDiscriminant::DragStop,
                    LineMessageDiscriminant::Redraw,
                    LineMessageDiscriminant::Abort,
                ],
            },
    {
        let mut list: Vec<LineMessageDiscriminant> = Vec::new();
        match self.fsm_state {
            LineToolFsmState::Ready => {
                list.push(LineMessageDiscriminant::DragStart);
                assert(list@ =~= seq![LineMessageDiscriminant::DragStart]);
            },
            LineToolFsmState::Drawing => {
                list.push(LineMessageDiscriminant::DragStop);
                list.push(LineMessageDiscriminant::Redraw);
                list.push(LineMessageDiscriminant::Abort);
                assert(list@ =~= seq![
                    LineMessageDiscriminant::DragStop,
                    LineMessageDiscriminant::Redraw,
                    LineMessageDiscriminant::Abort,
                ]);
            },
        }
        list
    }
}

} // verus!
