//! The path tool: selects and drags the points of vector shapes.

use std::collections::VecDeque;
use vstd::prelude::*;
use crate::communication::message::{lemma_views_push, views, Message, MessageView};
use crate::communication::UuidGenerator;
use crate::consts::SELECTION_THRESHOLD;
use crate::document::{
    clone_paths, DocumentMessage, DocumentMessageHandler, DocumentMessageHandlerView,
    DocumentMessageView, DocumentToolData, LayerId,
};
use crate::frontend::{cursor_message, hint_message, FrontendMessage, MouseCursorIcon};
use crate::input::{InputPreprocessorMessageHandler, Key, MouseMotion};
use crate::misc::{
    four_keys, group_of_one, group_of_three, group_of_two, hint, hint_view, no_keys, one_key,
    HintData, HintGroup, HintInfoView,
};
use crate::viewport_tools::shape_manipulation::{
    all_anchors, clone_shapes, lemma_all_anchors_in_canvas, lemma_no_overlays_no_removals,
    near_point_from, overlay_removals, ManipulationHandler, ManipulationHandlerView,
};
use crate::viewport_tools::snapping::{lemma_cleanup_is_idempotent, SnapHandler, SnapHandlerView};
use crate::viewport_tools::tool::{no_step, Fsm, ToolOutcome};
use crate::viewport_tools::tool_message::ToolMessage;

verus! {

/// The messages of the path tool.
#[derive(Clone, Copy, Debug, PartialEq, Eq, Hash, Structural)]
pub enum PathMessage {
    Abort,
    DocumentIsDirty,
    SelectionChanged,
    DragStart { add_to_selection: Key },
    DragStop,
    PointerMove { alt_mirror_toggle: Key },
}

/// The kinds of message of the path tool.
#[derive(Clone, Copy, Debug, PartialEq, Eq, Hash, Structural)]
pub enum PathMessageDiscriminant {
    Abort,
    DocumentIsDirty,
    SelectionChanged,
    DragStart,
    DragStop,
    PointerMove,
}

/// The states of the path tool.
#[derive(Clone, Copy, Debug, PartialEq, Eq, Structural)]
pub enum PathToolFsmState {
    Ready,
    Dragging,
}

impl Default for PathToolFsmState {
    fn default() -> (state: PathToolFsmState)
        ensures
            state == PathToolFsmState::Ready,
    {
        PathToolFsmState::Ready
    }
}

/// The working state of the path tool.
#[derive(Clone, Debug)]
pub struct PathToolData {
    pub manipulation_handler: ManipulationHandler,
    pub snap_handler: SnapHandler,
}

/// The working state, each part seen through its view.
pub struct PathToolDataView {
    pub manipulation_handler: ManipulationHandlerView,
    pub snap_handler: SnapHandlerView,
}

impl View for PathToolData {
    type V = PathToolDataView;

    open spec fn view(&self) -> PathToolDataView {
        PathToolDataView {
            manipulation_handler: self.manipulation_handler@,
            snap_handler: self.snap_handler@,
        }
    }
}

/// The path tool: its state and its working data.
pub struct Path {
    pub fsm_state: PathToolFsmState,
    pub data: PathToolData,
}

/// The tool, its data seen through its view.
pub struct PathView {
    pub fsm_state: PathToolFsmState,
    pub data: PathToolDataView,
}

impl View for Path {
    type V = PathView;

    open spec fn view(&self) -> PathView {
        PathView { fsm_state: self.fsm_state, data: self.data@ }
    }
}

/// What one step of the path tool does.
pub type PathOutcome = ToolOutcome<PathToolFsmState, PathToolDataView>;

/// The message for the document itself.
pub open spec fn document_message(message: DocumentMessageView) -> MessageView {
    MessageView::Document(message)
}

/// The message that changes the selection to, or extends it by, `layers`.
pub open spec fn select_layers_message(layers: Seq<Seq<LayerId>>, add: bool) -> MessageView {
    if add {
        document_message(DocumentMessageView::AddSelectedLayers { additional_layers: layers })
    } else {
        document_message(
            DocumentMessageView::SetSelectedLayers { replacement_selected_layers: layers },
        )
    }
}

/// The hints of the path tool in `state`.
pub open spec fn path_hints(state: PathToolFsmState) -> Seq<Seq<HintInfoView>> {
    match state {
        PathToolFsmState::Ready => seq![
            seq![
                hint_view(Seq::empty(), Some(MouseMotion::Lmb), "Select Point", false),
                hint_view(seq![seq![Key::KeyShift]], None, "Add/Remove Point (coming soon)", true),
            ],
            seq![hint_view(Seq::empty(), Some(MouseMotion::LmbDrag), "Drag Selected", false)],
            seq![
                hint_view(
                    seq![
                        seq![Key::KeyArrowUp],
                        seq![Key::KeyArrowRight],
                        seq![Key::KeyArrowDown],
                        seq![Key::KeyArrowLeft],
                    ],
                    None,
                    "Nudge Selected (coming soon)",
                    false,
                ),
                hint_view(seq![seq![Key::KeyShift]], None, "Big Increment Nudge", true),
            ],
            seq![
                hint_view(seq![seq![Key::KeyG]], None, "Grab Selected (coming soon)", false),
                hint_view(seq![seq![Key::KeyR]], None, "Rotate Selected (coming soon)", false),
                hint_view(seq![seq![Key::KeyS]], None, "Scale Selected (coming soon)", false),
            ],
        ],
        PathToolFsmState::Dragging => seq![
            seq![hint_view(seq![seq![Key::KeyAlt]], None, "Handle Mirroring Toggle", false)],
        ],
    }
}

impl PathToolDataView {
    /// The selected shapes and the snap targets lie on the canvas, and a
    /// grabbed point exists.
    pub open spec fn consistent(self) -> bool {
        self.manipulation_handler.wf() && self.snap_handler.wf()
    }

    /// The selection changed: the overlays of the shapes selected so far go,
    /// and the shapes selected now take their place.
    pub open spec fn selection_changed(
        self,
        state: PathToolFsmState,
        document: DocumentMessageHandlerView,
        ids: UuidGenerator,
    ) -> PathOutcome {
        ToolOutcome {
            state,
            data: PathToolDataView {
                manipulation_handler: self.manipulation_handler.without_overlays().with_shapes(
                    document.selected_shapes,
                ),
                ..self
            },
            front: Seq::empty(),
            back: overlay_removals(self.manipulation_handler.selected_shapes),
            ids,
        }
    }

    /// The document changed: the selected shapes are read again.
    pub open spec fn document_is_dirty(
        self,
        state: PathToolFsmState,
        document: DocumentMessageHandlerView,
        ids: UuidGenerator,
    ) -> PathOutcome {
        ToolOutcome {
            state,
            data: PathToolDataView {
                manipulation_handler: self.manipulation_handler.refreshed(
                    document.selected_shapes,
                ),
                ..self
            },
            front: Seq::empty(),
            back: Seq::empty(),
            ids,
        }
    }

    /// The pointer went down. On a point of a selected shape it grabs the
    /// point and begins a drag in a new transaction, snapping to the visible
    /// layers and to the anchors of the selected shapes. Elsewhere it selects
    /// the layers under it, or adds them to the selection while the given key
    /// is held; on empty canvas it clears the selection unless the key is held.
    pub open spec fn drag_start(
        self,
        document: DocumentMessageHandlerView,
        input: InputPreprocessorMessageHandler,
        add_to_selection: Key,
        ids: UuidGenerator,
    ) -> PathOutcome {
        let released = if self.manipulation_handler.has_selection {
            self.manipulation_handler.with_selection_state(false)
        } else {
            self.manipulation_handler
        };
        let add = input.keyboard.is_down(add_to_selection);
        match near_point_from(
            released.selected_shapes,
            input.mouse.position,
            SELECTION_THRESHOLD as int,
            0,
        ) {
            Some(_) => ToolOutcome {
                state: PathToolFsmState::Dragging,
                data: PathToolDataView {
                    manipulation_handler: released.pressed(
                        input.mouse.position,
                        SELECTION_THRESHOLD as int,
                    ),
                    snap_handler: self.snap_handler.started(
                        document.snapping_enabled,
                        document.visible_layer_bounds,
                        true,
                        true,
                    ).with_points(document.snapping_enabled, all_anchors(released.selected_shapes)),
                },
                front: Seq::empty(),
                back: seq![document_message(DocumentMessageView::StartTransaction)],
                ids,
            },
            None => if document.layers_under_cursor.len() > 0 {
                ToolOutcome {
                    state: PathToolFsmState::Ready,
                    data: PathToolDataView {
                        manipulation_handler: released.without_overlays(),
                        ..self
                    },
                    front: Seq::empty(),
                    back: overlay_removals(released.selected_shapes) + seq![
                        select_layers_message(document.layers_under_cursor, add),
                    ],
                    ids,
                }
            } else {
                ToolOutcome {
                    state: PathToolFsmState::Ready,
                    data: PathToolDataView { manipulation_handler: released, ..self },
                    front: Seq::empty(),
                    back: if add {
                        Seq::empty()
                    } else {
                        seq![document_message(DocumentMessageView::DeselectAllLayers)]
                    },
                    ids,
                }
            },
        }
    }

    /// The pointer moved during a drag: the grabbed point follows the snapped
    /// pointer, mirroring its handles unless the given key is held.
    pub open spec fn pointer_move(
        self,
        document: DocumentMessageHandlerView,
        input: InputPreprocessorMessageHandler,
        alt_mirror_toggle: Key,
        ids: UuidGenerator,
    ) -> PathOutcome {
        let enabled = document.snapping_enabled;
        let position = input.mouse.position;
        let snapped = self.snap_handler.snapped(enabled, position);
        let mirror = !input.keyboard.is_down(alt_mirror_toggle);
        ToolOutcome {
            state: PathToolFsmState::Dragging,
            data: PathToolDataView {
                snap_handler: self.snap_handler.after_snap(enabled, position, ids),
                ..self
            },
            front: Seq::empty(),
            back: self.snap_handler.snap_messages(enabled, position, input.viewport_size, ids) + (
            match self.manipulation_handler.move_operation(snapped, mirror) {
                Some(operation) => seq![
                    document_message(DocumentMessageView::DispatchOperation(operation)),
                ],
                None => Seq::empty(),
            }),
            ids: ids.advanced(self.snap_handler.guides_added(enabled, position)),
        }
    }

    /// The drag ended: snapping ends and its guides go.
    pub open spec fn drag_stop(self, ids: UuidGenerator) -> PathOutcome {
        ToolOutcome {
            state: PathToolFsmState::Ready,
            data: PathToolDataView { snap_handler: self.snap_handler.cleaned(), ..self },
            front: Seq::empty(),
            back: self.snap_handler.cleanup_messages(),
            ids,
        }
    }

    /// The tool is aborted: the overlays of the selected shapes go, snapping
    /// ends and its guides go.
    pub open spec fn abort(self, ids: UuidGenerator) -> PathOutcome {
        ToolOutcome {
            state: PathToolFsmState::Ready,
            data: PathToolDataView {
                manipulation_handler: self.manipulation_handler.without_overlays(),
                snap_handler: self.snap_handler.cleaned(),
            },
            front: Seq::empty(),
            back: overlay_removals(self.manipulation_handler.selected_shapes)
                + self.snap_handler.cleanup_messages(),
            ids,
        }
    }
}

/// Aborting returns the tool to the ready state from every state, with no
/// shape overlay and no snap guide left: aborting again emits nothing.
pub proof fn lemma_path_abort_resets(
    state: PathToolFsmState,
    document: DocumentMessageHandlerView,
    tool_data: DocumentToolData,
    data: PathToolDataView,
    input: InputPreprocessorMessageHandler,
    ids: UuidGenerator,
)
    ensures
        ({
            let abort = ToolMessage::Path(PathMessage::Abort);
            let outcome = state.step(abort, document, tool_data, data, (), input, ids);
            let again = outcome.state.step(
                abort,
                document,
                tool_data,
                outcome.data,
                (),
                input,
                outcome.ids,
            );
            &&& outcome.state == PathToolFsmState::Ready
            &&& outcome.data.snap_handler == data.snap_handler.cleaned()
            &&& forall|i: int|
                0 <= i < outcome.data.manipulation_handler.selected_shapes.len()
                    ==> (#[trigger] outcome.data.manipulation_handler.selected_shapes[i]).overlay_path is None
            &&& again.back == Seq::<MessageView>::empty()
            &&& again.front == Seq::<MessageView>::empty()
            &&& again.state == PathToolFsmState::Ready
        }),
{
    let bare = data.manipulation_handler.without_overlays().selected_shapes;
    lemma_no_overlays_no_removals(bare);
    lemma_cleanup_is_idempotent(data.snap_handler);
    assert(overlay_removals(bare) + data.snap_handler.cleaned().cleanup_messages() =~= Seq::<
        MessageView,
    >::empty());
}

/// Wraps a message for the document.
fn to_document(message: DocumentMessage) -> (wrapped: Message)
    ensures
        wrapped@ == document_message(message@),
{
    Message::Document(message)
}

/// Grabs the point under the pointer, or selects the layers under it.
fn on_drag_start(
    document: &DocumentMessageHandler,
    data: &mut PathToolData,
    input: &InputPreprocessorMessageHandler,
    add_to_selection: Key,
    responses: &mut VecDeque<Message>,
    ids: &UuidGenerator,
) -> (next: PathToolFsmState)
    requires
        old(data)@.consistent(),
        document.wf(),
    ensures
        old(data)@.drag_start(document@, *input, add_to_selection, *ids).reached(
            next,
            final(data)@,
            views(old(responses)@),
            views(final(responses)@),
            *ids,
        ),
        final(data)@.consistent(),
{
    let ghost before = views(responses@);
    let ghost start = data@;
    if data.manipulation_handler.has_selection {
        data.manipulation_handler.set_selection_state(false);
    }
    let ghost released = data@.manipulation_handler;
    if data.manipulation_handler.select_manipulator(input.mouse.position, SELECTION_THRESHOLD) {
        let message = to_document(DocumentMessage::StartTransaction);
        proof {
            lemma_views_push(responses@, message);
        }
        responses.push_back(message);
        data.snap_handler.start_snap(document, &document.visible_layer_bounds, true, true);
        let snap_points = data.manipulation_handler.anchor_positions();
        proof {
            lemma_all_anchors_in_canvas(released.selected_shapes);
        }
        data.snap_handler.add_snap_points(document, &snap_points);
        proof {
            let outcome = start.drag_start(document@, *input, add_to_selection, *ids);
            assert(views(responses@) =~= outcome.front + before + outcome.back);
        }
        PathToolFsmState::Dragging
    } else {
        if document.layers_under_cursor.len() > 0 {
            data.manipulation_handler.remove_overlays(responses);
            let intersection = clone_paths(&document.layers_under_cursor);
            let message = if input.keyboard.get(add_to_selection) {
                to_document(DocumentMessage::AddSelectedLayers { additional_layers: intersection })
            } else {
                to_document(
                    DocumentMessage::SetSelectedLayers { replacement_selected_layers: intersection },
                )
            };
            proof {
                lemma_views_push(responses@, message);
            }
            responses.push_back(message);
        } else {
            if !input.keyboard.get(add_to_selection) {
                let message = to_document(DocumentMessage::DeselectAllLayers);
                proof {
                    lemma_views_push(responses@, message);
                }
                responses.push_back(message);
            }
        }
        proof {
            let outcome = start.drag_start(document@, *input, add_to_selection, *ids);
            assert(views(responses@) =~= outcome.front + before + outcome.back);
        }
        PathToolFsmState::Ready
    }
}

/// Moves the grabbed point to the snapped pointer.
fn on_pointer_move(
    document: &DocumentMessageHandler,
    data: &mut PathToolData,
    input: &InputPreprocessorMessageHandler,
    alt_mirror_toggle: Key,
    responses: &mut VecDeque<Message>,
    ids: &mut UuidGenerator,
)
    requires
        old(data)@.consistent(),
    ensures
        old(data)@.pointer_move(document@, *input, alt_mirror_toggle, *old(ids)).reached(
            PathToolFsmState::Dragging,
            final(data)@,
            views(old(responses)@),
            views(final(responses)@),
            *final(ids),
        ),
        final(data)@.consistent(),
{
    let ghost before = views(responses@);
    let ghost first = *ids;
    let ghost start = data@;
    let should_not_mirror = input.keyboard.get(alt_mirror_toggle);
    let snapped_position = data.snap_handler.snap_position(
        responses,
        input.viewport_size,
        document,
        input.mouse.position,
        ids,
    );
    let move_operation = data.manipulation_handler.move_selected_to(
        snapped_position,
        !should_not_mirror,
    );
    if let Some(operation) = move_operation {
        let message = to_document(DocumentMessage::DispatchOperation(operation));
        proof {
            lemma_views_push(responses@, message);
        }
        responses.push_back(message);
    }
    proof {
        let outcome = start.pointer_move(document@, *input, alt_mirror_toggle, first);
        assert(views(responses@) =~= outcome.front + before + outcome.back);
    }
}

impl Fsm for PathToolFsmState {
    type ToolData = PathToolData;

    type ToolOptions = ();

    /// Whether the tool reacts to `event` in this state.
    open spec fn handles(self, event: ToolMessage) -> bool {
        match event {
            ToolMessage::Path(PathMessage::PointerMove { .. }) => self == PathToolFsmState::Dragging,
            ToolMessage::Path(_) => true,
            _ => false,
        }
    }

    /// The selected shapes and the snap targets lie on the canvas, and a
    /// grabbed point exists.
    open spec fn consistent(self, data: PathToolDataView) -> bool {
        data.consistent()
    }

    /// The geometry of the document lies on the canvas.
    open spec fn accepts(
        document: DocumentMessageHandlerView,
        input: InputPreprocessorMessageHandler,
    ) -> bool {
        document.wf()
    }

    /// What `event` does to the tool in this state.
    open spec fn step(
        self,
        event: ToolMessage,
        document: DocumentMessageHandlerView,
        tool_data: DocumentToolData,
        data: PathToolDataView,
        tool_options: (),
        input: InputPreprocessorMessageHandler,
        ids: UuidGenerator,
    ) -> PathOutcome {
        match event {
            ToolMessage::Path(event) => match (self, event) {
                (_, PathMessage::SelectionChanged) => data.selection_changed(self, document, ids),
                (_, PathMessage::DocumentIsDirty) => data.document_is_dirty(self, document, ids),
                (_, PathMessage::DragStart { add_to_selection }) => data.drag_start(
                    document,
                    input,
                    add_to_selection,
                    ids,
                ),
                (PathToolFsmState::Dragging, PathMessage::PointerMove { alt_mirror_toggle }) => data.pointer_move(
                    document,
                    input,
                    alt_mirror_toggle,
                    ids,
                ),
                (_, PathMessage::DragStop) => data.drag_stop(ids),
                (_, PathMessage::Abort) => data.abort(ids),
                (_, PathMessage::PointerMove { .. }) => no_step(self, data, ids),
            },
            _ => no_step(self, data, ids),
        }
    }

    proof fn unhandled_is_noop(
        self,
        event: ToolMessage,
        document: DocumentMessageHandlerView,
        tool_data: DocumentToolData,
        data: PathToolDataView,
        tool_options: (),
        input: InputPreprocessorMessageHandler,
        ids: UuidGenerator,
    ) {
    }

    /// Advances the tool by one event; every message it emits goes behind the
    /// messages already queued.
    fn transition(
        self,
        event: ToolMessage,
        document: &DocumentMessageHandler,
        tool_data: &DocumentToolData,
        data: &mut PathToolData,
        _tool_options: &(),
        input: &InputPreprocessorMessageHandler,
        responses: &mut VecDeque<Message>,
        ids: &mut UuidGenerator,
    ) -> (next: Self) {
        let ghost before = views(responses@);
        proof {
            assert(Seq::<MessageView>::empty() + before + Seq::<MessageView>::empty() =~= before);
        }
        if let ToolMessage::Path(event) = event {
            match (self, event) {
                (_, PathMessage::SelectionChanged) => {
                    data.manipulation_handler.remove_overlays(responses);
                    data.manipulation_handler.set_selected_shapes(
                        clone_shapes(&document.selected_shapes),
                    );
                    proof {
                        let outcome = self.step(
                            ToolMessage::Path(event),
                            document@,
                            *tool_data,
                            old(data)@,
                            (),
                            *input,
                            *ids,
                        );
                        assert(views(responses@) =~= outcome.front + before + outcome.back);
                    }
                    self
                },
                (_, PathMessage::DocumentIsDirty) => {
                    data.manipulation_handler.update_shapes(&document.selected_shapes);
                    self
                },
                (_, PathMessage::DragStart { add_to_selection }) => on_drag_start(
                    document,
                    data,
                    input,
                    add_to_selection,
                    responses,
                    ids,
                ),
                (PathToolFsmState::Dragging, PathMessage::PointerMove { alt_mirror_toggle }) => {
                    on_pointer_move(document, data, input, alt_mirror_toggle, responses, ids);
                    PathToolFsmState::Dragging
                },
                (_, PathMessage::DragStop) => {
                    data.snap_handler.cleanup(responses);
                    proof {
                        let outcome = self.step(
                            ToolMessage::Path(event),
                            document@,
                            *tool_data,
                            old(data)@,
                            (),
                            *input,
                            *ids,
                        );
                        assert(views(responses@) =~= outcome.front + before + outcome.back);
                    }
                    PathToolFsmState::Ready
                },
                (_, PathMessage::Abort) => {
                    data.manipulation_handler.remove_overlays(responses);
                    data.snap_handler.cleanup(responses);
                    proof {
                        let outcome = self.step(
                            ToolMessage::Path(event),
                            document@,
                            *tool_data,
                            old(data)@,
                            (),
                            *input,
                            *ids,
                        );
                        assert(views(responses@) =~= outcome.front + before + outcome.back);
                    }
                    PathToolFsmState::Ready
                },
                (_, PathMessage::PointerMove { alt_mirror_toggle: _ }) => self,
            }
        } else {
            self
        }
    }

    /// The hints of the state.
    open spec fn hint_messages(self) -> Seq<MessageView> {
        seq![hint_message(path_hints(self))]
    }

    /// The path tool asks for the default cursor in every state.
    open spec fn cursor_messages(self) -> Seq<MessageView> {
        seq![cursor_message(MouseCursorIcon::Default)]
    }

    /// Shows the hints of the state.
    fn update_hints(&self, responses: &mut VecDeque<Message>) {
        let hint_data = match self {
            PathToolFsmState::Ready => {
                let mut groups: Vec<HintGroup> = Vec::new();
                groups.push(
                    group_of_two(
                        hint(no_keys(), Some(MouseMotion::Lmb), "Select Point", false),
                        hint(one_key(Key::KeyShift), None, "Add/Remove Point (coming soon)", true),
                    ),
                );
                groups.push(
                    group_of_one(hint(no_keys(), Some(MouseMotion::LmbDrag), "Drag Selected", false)),
                );
                groups.push(
                    group_of_two(
                        hint(
                            four_keys(
                                Key::KeyArrowUp,
                                Key::KeyArrowRight,
                                Key::KeyArrowDown,
                                Key::KeyArrowLeft,
                            ),
                            None,
                            "Nudge Selected (coming soon)",
                            false,
                        ),
                        hint(one_key(Key::KeyShift), None, "Big Increment Nudge", true),
                    ),
                );
                groups.push(
                    group_of_three(
                        hint(one_key(Key::KeyG), None, "Grab Selected (coming soon)", false),
                        hint(one_key(Key::KeyR), None, "Rotate Selected (coming soon)", false),
                        hint(one_key(Key::KeyS), None, "Scale Selected (coming soon)", false),
                    ),
                );
                let data = HintData(groups);
                assert(data@ =~= path_hints(PathToolFsmState::Ready));
                data
            },
            PathToolFsmState::Dragging => {
                let mut groups: Vec<HintGroup> = Vec::new();
                groups.push(
                    group_of_one(
                        hint(one_key(Key::KeyAlt), None, "Handle Mirroring Toggle", false),
                    ),
                );
                let data = HintData(groups);
                assert(data@ =~= path_hints(PathToolFsmState::Dragging));
                data
            },
        };
        let message = Message::Frontend(FrontendMessage::UpdateInputHints { hint_data });
        proof {
            lemma_views_push(responses@, message);
            assert(views(responses@).push(message@) =~= views(responses@) + seq![message@]);
        }
        responses.push_back(message);
    }

    /// Asks the frontend for the default cursor.
    fn update_cursor(&self, responses: &mut VecDeque<Message>) {
        let message = Message::Frontend(
            FrontendMessage::UpdateMouseCursor { cursor: MouseCursorIcon::Default },
        );
        proof {
            lemma_views_push(responses@, message);
            assert(views(responses@).push(message@) =~= views(responses@) + seq![message@]);
        }
        responses.push_back(message);
    }
}

impl PathView {
    /// The tool at rest: ready, with no shape selected, no point grabbed and
    /// no snapping.
    pub open spec fn at_rest() -> PathView {
        PathView {
            fsm_state: PathToolFsmState::Ready,
            data: PathToolDataView {
                manipulation_handler: ManipulationHandlerView {
                    selected_shapes: Seq::empty(),
                    has_selection: false,
                    selected_shape: 0,
                    selected_point: 0,
                },
                snap_handler: SnapHandlerView { snap_targets: None, overlay_paths: Seq::empty() },
            },
        }
    }

    /// The tool's data is consistent.
    pub open spec fn wf(self) -> bool {
        self.data.consistent()
    }

    /// What `action` does to the tool. A request for hints or for the cursor
    /// emits them and changes nothing; every other message is one step of the
    /// state machine, followed by the hints and the cursor of the new state
    /// where the state changed.
    pub open spec fn process(
        self,
        action: ToolMessage,
        document: DocumentMessageHandlerView,
        tool_data: DocumentToolData,
        input: InputPreprocessorMessageHandler,
        ids: UuidGenerator,
    ) -> PathOutcome {
        match action {
            ToolMessage::UpdateHints => no_step(self.fsm_state, self.data, ids).followed_by(
                seq![hint_message(path_hints(self.fsm_state))],
            ),
            ToolMessage::UpdateCursor => no_step(self.fsm_state, self.data, ids).followed_by(
                seq![cursor_message(MouseCursorIcon::Default)],
            ),
            _ => {
                let outcome = self.fsm_state.step(
                    action,
                    document,
                    tool_data,
                    self.data,
                    (),
                    input,
                    ids,
                );
                if outcome.state != self.fsm_state {
                    outcome.followed_by(
                        seq![
                            hint_message(path_hints(outcome.state)),
                            cursor_message(MouseCursorIcon::Default),
                        ],
                    )
                } else {
                    outcome
                }
            },
        }
    }
}

impl Default for Path {
    fn default() -> (tool: Path)
        ensures
            tool@.fsm_state == PathToolFsmState::Ready,
            tool@.wf(),
    {
        Path::new()
    }
}

impl Path {
    /// The tool at rest: ready, with no shape selected.
    pub fn new() -> (tool: Path)
        ensures
            tool@.fsm_state == PathToolFsmState::Ready,
            tool@.data.manipulation_handler == (ManipulationHandlerView {
                selected_shapes: Seq::empty(),
                has_selection: false,
                selected_shape: 0,
                selected_point: 0,
            }),
            tool@.data.snap_handler == (SnapHandlerView {
                snap_targets: None,
                overlay_paths: Seq::empty(),
            }),
            tool@ == PathView::at_rest(),
            tool@.wf(),
    {
        Path {
            fsm_state: PathToolFsmState::Ready,
            data: PathToolData {
                manipulation_handler: ManipulationHandler::new(),
                snap_handler: SnapHandler::new(),
            },
        }
    }

    /// Handles one message addressed to the tool.
    pub fn process_action(
        &mut self,
        action: ToolMessage,
        document: &DocumentMessageHandler,
        tool_data: &DocumentToolData,
        input: &InputPreprocessorMessageHandler,
        responses: &mut VecDeque<Message>,
        ids: &mut UuidGenerator,
    )
        requires
            old(self)@.wf(),
            document.wf(),
        ensures
            old(self)@.process(action, document@, *tool_data, *input, *old(ids)).reached(
                final(self)@.fsm_state,
                final(self)@.data,
                views(old(responses)@),
                views(final(responses)@),
                *final(ids),
            ),
            final(self)@.wf(),
    {
        let ghost before = views(responses@);
        let ghost start = self@;
        let ghost first = *ids;
        match action {
            ToolMessage::UpdateHints => {
                self.fsm_state.update_hints(responses);
                proof {
                    let outcome = start.process(action, document@, *tool_data, *input, first);
                    assert(views(responses@) =~= outcome.front + before + outcome.back);
                }
                return ;
            },
            ToolMessage::UpdateCursor => {
                self.fsm_state.update_cursor(responses);
                proof {
                    let outcome = start.process(action, document@, *tool_data, *input, first);
                    assert(views(responses@) =~= outcome.front + before + outcome.back);
                }
                return ;
            },
            _ => {},
        }
        let new_state = self.fsm_state.transition(
            action,
            document,
            tool_data,
            &mut self.data,
            &(),
            input,
            responses,
            ids,
        );
        if self.fsm_state != new_state {
            self.fsm_state = new_state;
            self.fsm_state.update_hints(responses);
            self.fsm_state.update_cursor(responses);
            proof {
                let outcome = start.process(action, document@, *tool_data, *input, first);
                assert(views(responses@) =~= outcome.front + before + outcome.back);
            }
        }
    }

    /// The kinds of message the tool accepts in its state.
    pub fn actions(&self) -> (list: Vec<PathMessageDiscriminant>)
        ensures
            list@ == match self.fsm_state {
                PathToolFsmState::Ready => seq![PathMessageDiscriminant::DragStart],
                PathToolFsmState::Dragging => seq![
                    PathMessageDiscriminant::DragStop,
                    PathMessageDiscriminant::PointerMove,
                ],
            },
    {
        let mut list: Vec<PathMessageDiscriminant> = Vec::new();
        match self.fsm_state {
            PathToolFsmState::Ready => {
                list.push(PathMessageDiscriminant::DragStart);
                assert(list@ =~= seq![PathMessageDiscriminant::DragStart]);
            },
            PathToolFsmState::Dragging => {
                list.push(PathMessageDiscriminant::DragStop);
                list.push(PathMessageDiscriminant::PointerMove);
                assert(list@ =~= seq![
                    PathMessageDiscriminant::DragStop,
                    PathMessageDiscriminant::PointerMove,
                ]);
            },
        }
        list
    }
}

} // verus!
