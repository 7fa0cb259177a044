//! The crop tool: draws artboards and resizes them by their edges.

use std::collections::VecDeque;
use vstd::prelude::*;
use crate::communication::message::{
    lemma_views_push, push_back_all, push_front_all, tool_message, views, Message, MessageView,
};
use crate::communication::{generate_uuid, UuidGenerator};
use crate::consts::BOUNDS_SELECT_THRESHOLD;
use crate::document::{
    artboard_bounds, clone_path, topmost, ArtboardMessage, ArtboardMessageView, DocumentMessage,
    DocumentMessageHandler, DocumentMessageHandlerView, DocumentMessageView, DocumentToolData,
    LayerId, OverlaysMessage, OverlaysMessageView,
};
use crate::frontend::{cursor_message, FrontendMessage, MouseCursorIcon};
use crate::geometry::{with_sign_of, Point};
use crate::input::{InputPreprocessorMessageHandler, Key};
use crate::viewport_tools::snapping::{lemma_cleanup_is_idempotent, SnapHandler, SnapHandlerView};
use crate::viewport_tools::tool::{no_step, Fsm, ToolOutcome};
use crate::viewport_tools::tool_message::ToolMessage;
use crate::viewport_tools::tools::shared::transformation_cage::{
    cursor_over, grabbed_edges, square_side, BoundingBoxOverlays, BoundingBoxOverlaysView,
    SelectedEdges,
};

verus! {

/// The messages of the crop tool.
#[derive(Clone, Copy, Debug, PartialEq, Eq, Hash, Structural)]
pub enum CropMessage {
    Abort,
    DocumentIsDirty,
    MouseDown,
    MouseMove { axis_align: Key, centre: Key },
    MouseUp,
}

/// The states of the crop tool.
#[derive(Clone, Copy, Debug, PartialEq, Eq, Structural)]
pub enum CropToolFsmState {
    Ready,
    Drawing,
    ResizingBounds,
}

impl Default for CropToolFsmState {
    fn default() -> (state: CropToolFsmState)
        ensures
            state == CropToolFsmState::Ready,
    {
        CropToolFsmState::Ready
    }
}

/// The working state of the crop tool.
#[derive(Clone, Debug)]
pub struct CropToolData {
    pub bounding_box_overlays: Option<BoundingBoxOverlays>,
    pub selected_board: Option<Vec<LayerId>>,
    pub snap_handler: SnapHandler,
    pub cursor: MouseCursorIcon,
    pub drag_start: Point,
}

/// The working state with its paths as sequences.
pub struct CropToolDataView {
    pub bounding_box_overlays: Option<BoundingBoxOverlaysView>,
    pub selected_board: Option<Seq<LayerId>>,
    pub snap_handler: SnapHandlerView,
    pub cursor: MouseCursorIcon,
    pub drag_start: Point,
}

impl View for CropToolData {
    type V = CropToolDataView;

    open spec fn view(&self) -> CropToolDataView {
        CropToolDataView {
            bounding_box_overlays: match self.bounding_box_overlays {
                Some(overlays) => Some(overlays@),
                None => None,
            },
            selected_board: match self.selected_board {
                Some(path) => Some(path@),
                None => None,
            },
            snap_handler: self.snap_handler@,
            cursor: self.cursor,
            drag_start: self.drag_start,
        }
    }
}

/// The crop tool: its state and its working data.
pub struct Crop {
    pub fsm_state: CropToolFsmState,
    pub data: CropToolData,
}

/// What one step of the crop tool does.
pub type CropOutcome = ToolOutcome<CropToolFsmState, CropToolDataView>;

/// The message that has the overlays drawn again.
pub open spec fn rerender_message() -> MessageView {
    MessageView::Document(DocumentMessageView::Overlays(OverlaysMessageView::Rerender))
}

/// The message that adds an empty artboard at the origin under `id`.
pub open spec fn add_artboard_message(id: LayerId) -> MessageView {
    MessageView::Document(
        DocumentMessageView::Artboard(
            ArtboardMessageView::AddArtboard {
                id: Some(id),
                position: Point { x: 0, y: 0 },
                size: Point { x: 0, y: 0 },
            },
        ),
    )
}

/// The message that gives the artboard at `artboard` a new corner and size.
pub open spec fn resize_artboard_message(
    artboard: Seq<LayerId>,
    position: Point,
    size: Point,
) -> MessageView {
    MessageView::Document(
        DocumentMessageView::Artboard(ArtboardMessageView::ResizeArtboard { artboard, position, size }),
    )
}

/// The corner and the size of the artboard drawn by a drag from `start` to
/// `end`. Constraining makes it square, each extent keeping its sign; drawing
/// from the centre mirrors it about `start`.
pub open spec fn drawn_box(
    start: Point,
    end: Point,
    constrain: bool,
    centre: bool,
) -> (Point, Point) {
    let width = end.x - start.x;
    let height = end.y - start.y;
    let side = square_side(width, height);
    let width = if constrain { with_sign_of(side, width) } else { width };
    let height = if constrain { with_sign_of(side, height) } else { height };
    if centre {
        (
            Point { x: (start.x - width) as i64, y: (start.y - height) as i64 },
            Point { x: (2 * width) as i64, y: (2 * height) as i64 },
        )
    } else {
        (start, Point { x: width as i64, y: height as i64 })
    }
}

impl CropToolDataView {
    /// The data fits the state: overlays on show are well formed and belong to
    /// a selected artboard, an artboard being drawn is selected, and all
    /// positions lie on the canvas.
    pub open spec fn consistent(self, state: CropToolFsmState) -> bool {
        &&& self.bounding_box_overlays matches Some(overlays) ==> overlays.wf()
            && self.selected_board is Some
        &&& state == CropToolFsmState::Drawing ==> self.selected_board is Some
        &&& self.snap_handler.wf()
        &&& self.drag_start.in_canvas()
    }

    /// Nothing happens.
    pub open spec fn unchanged(self, state: CropToolFsmState, ids: UuidGenerator) -> CropOutcome {
        no_step(state, self, ids)
    }

    /// The document changed: the overlays follow the selected artboard. They
    /// are removed where the artboard is gone, created where it is new, and
    /// placed on its box; all of that goes before the queued messages.
    pub open spec fn document_is_dirty(
        self,
        state: CropToolFsmState,
        document: DocumentMessageHandlerView,
        ids: UuidGenerator,
    ) -> CropOutcome {
        let board = match self.selected_board {
            Some(path) => artboard_bounds(document.artboards, path),
            None => None,
        };
        match (board, self.bounding_box_overlays) {
            (None, Some(overlays)) => CropOutcome {
                state,
                data: CropToolDataView { bounding_box_overlays: None, ..self },
                front: overlays.deletion_messages(),
                back: Seq::empty(),
                ids,
            },
            (Some(bounds), Some(overlays)) => {
                let placed = BoundingBoxOverlaysView { bounds, ..overlays };
                CropOutcome {
                    state,
                    data: CropToolDataView { bounding_box_overlays: Some(placed), ..self },
                    front: placed.transform_messages(),
                    back: seq![rerender_message()],
                    ids,
                }
            },
            (Some(bounds), None) => {
                let placed = BoundingBoxOverlaysView {
                    bounds,
                    ..BoundingBoxOverlaysView::created(ids)
                };
                CropOutcome {
                    state,
                    data: CropToolDataView { bounding_box_overlays: Some(placed), ..self },
                    front: BoundingBoxOverlaysView::creation_messages(ids)
                        + placed.transform_messages(),
                    back: seq![rerender_message()],
                    ids: ids.advanced(9),
                }
            },
            (None, None) => self.unchanged(state, ids),
        }
    }

    /// The edges of the overlays that a press at `position` grabs.
    pub open spec fn pressed_edges(self, position: Point) -> Option<(bool, bool, bool, bool)> {
        match self.bounding_box_overlays {
            Some(overlays) => grabbed_edges(overlays.bounds, position, BOUNDS_SELECT_THRESHOLD as int),
            None => None,
        }
    }

    /// The overlays after a press at `position`: they record the grabbed edges
    /// and, where an edge is grabbed, the pivot of the drag.
    pub open spec fn pressed_overlays(self, position: Point) -> Option<BoundingBoxOverlaysView> {
        match self.bounding_box_overlays {
            Some(overlays) => match self.pressed_edges(position) {
                Some((top, bottom, left, right)) => {
                    let edges = SelectedEdges { bounds: overlays.bounds, top, bottom, left, right };
                    Some(
                        BoundingBoxOverlaysView {
                            selected_edges: Some(edges),
                            pivot: edges.pivot(),
                            ..overlays
                        },
                    )
                },
                None => Some(BoundingBoxOverlaysView { selected_edges: None, ..overlays }),
            },
            None => None,
        }
    }

    /// The pointer went down in the ready state. On an edge of the overlays it
    /// begins a resize that snaps along the dragged axes. Elsewhere it selects
    /// the topmost artboard under it or, on empty canvas, adds an artboard
    /// under a fresh identifier and begins to draw it.
    pub open spec fn mouse_down(
        self,
        document: DocumentMessageHandlerView,
        input: InputPreprocessorMessageHandler,
        ids: UuidGenerator,
    ) -> CropOutcome {
        let position = input.mouse.position;
        let pressed = CropToolDataView {
            drag_start: position,
            bounding_box_overlays: self.pressed_overlays(position),
            ..self
        };
        match self.pressed_edges(position) {
            Some((top, bottom, left, right)) => CropOutcome {
                state: CropToolFsmState::ResizingBounds,
                data: CropToolDataView {
                    snap_handler: self.snap_handler.started(
                        document.snapping_enabled,
                        document.visible_layer_bounds,
                        left || right,
                        top || bottom,
                    ),
                    ..pressed
                },
                front: Seq::empty(),
                back: Seq::empty(),
                ids,
            },
            None => match topmost(document.artboards_under_cursor) {
                Some(path) => CropOutcome {
                    state: CropToolFsmState::Ready,
                    data: CropToolDataView { selected_board: Some(path), ..pressed },
                    front: Seq::empty(),
                    back: seq![tool_message(ToolMessage::DocumentIsDirty)],
                    ids,
                },
                None => CropOutcome {
                    state: CropToolFsmState::Drawing,
                    data: CropToolDataView {
                        selected_board: Some(seq![ids.nth(0)]),
                        snap_handler: self.snap_handler.started(
                            document.snapping_enabled,
                            document.visible_layer_bounds,
                            true,
                            true,
                        ),
                        ..pressed
                    },
                    front: Seq::empty(),
                    back: seq![
                        tool_message(ToolMessage::DocumentIsDirty),
                        add_artboard_message(ids.nth(0)),
                    ],
                    ids: ids.advanced(1),
                },
            },
        }
    }

    /// The state of the snap handler, the messages and the identifiers after
    /// the pointer position was snapped and `resize` was queued behind the
    /// snap guides, followed by the request to refresh the overlays.
    pub open spec fn resized_to(
        self,
        state: CropToolFsmState,
        document: DocumentMessageHandlerView,
        input: InputPreprocessorMessageHandler,
        ids: UuidGenerator,
        resize: MessageView,
    ) -> CropOutcome {
        let enabled = document.snapping_enabled;
        let position = input.mouse.position;
        CropOutcome {
            state,
            data: CropToolDataView {
                snap_handler: self.snap_handler.after_snap(enabled, position, ids),
                ..self
            },
            front: Seq::empty(),
            back: self.snap_handler.snap_messages(enabled, position, input.viewport_size, ids) + seq![
                resize,
                tool_message(ToolMessage::DocumentIsDirty),
            ],
            ids: ids.advanced(self.snap_handler.guides_added(enabled, position)),
        }
    }

    /// The pointer moved during a resize: the dragged edges follow the snapped
    /// pointer, and the selected artboard is given the resulting box. Without
    /// grabbed edges nothing happens.
    pub open spec fn resize_move(
        self,
        document: DocumentMessageHandlerView,
        input: InputPreprocessorMessageHandler,
        axis_align: Key,
        centre: Key,
        ids: UuidGenerator,
    ) -> CropOutcome {
        let state = CropToolFsmState::ResizingBounds;
        match self.bounding_box_overlays {
            Some(overlays) => match overlays.selected_edges {
                Some(movement) => {
                    let centre = input.keyboard.is_down(centre);
                    let constrain = input.keyboard.is_down(axis_align);
                    let snapped = self.snap_handler.snapped(
                        document.snapping_enabled,
                        input.mouse.position,
                    );
                    let size = Point {
                        x: movement.new_width(snapped, centre, constrain) as i64,
                        y: movement.new_height(snapped, centre, constrain) as i64,
                    };
                    let position = movement.centred(movement.dragged_min(snapped), size, centre);
                    self.resized_to(
                        state,
                        document,
                        input,
                        ids,
                        resize_artboard_message(self.selected_board->Some_0, position, size),
                    )
                },
                None => self.unchanged(state, ids),
            },
            None => self.unchanged(state, ids),
        }
    }

    /// The pointer moved while an artboard is drawn: the artboard is given the
    /// box dragged out from where the pointer went down to its snapped
    /// position.
    pub open spec fn draw_move(
        self,
        document: DocumentMessageHandlerView,
        input: InputPreprocessorMessageHandler,
        axis_align: Key,
        centre: Key,
        ids: UuidGenerator,
    ) -> CropOutcome {
        let snapped = self.snap_handler.snapped(document.snapping_enabled, input.mouse.position);
        let (position, size) = drawn_box(
            self.drag_start,
            snapped,
            input.keyboard.is_down(axis_align),
            input.keyboard.is_down(centre),
        );
        self.resized_to(
            CropToolFsmState::Drawing,
            document,
            input,
            ids,
            resize_artboard_message(self.selected_board->Some_0, position, size),
        )
    }

    /// The cursor the pointer of `input` calls for.
    pub open spec fn hover_cursor(self, input: InputPreprocessorMessageHandler) -> MouseCursorIcon {
        match self.bounding_box_overlays {
            Some(overlays) => cursor_over(overlays.bounds, input.mouse.position),
            None => MouseCursorIcon::Default,
        }
    }

    /// The pointer moved in the ready state: the cursor icon follows it, and
    /// the frontend is told when the icon changes.
    pub open spec fn hover_move(
        self,
        input: InputPreprocessorMessageHandler,
        ids: UuidGenerator,
    ) -> CropOutcome {
        let cursor = self.hover_cursor(input);
        if cursor != self.cursor {
            CropOutcome {
                state: CropToolFsmState::Ready,
                data: CropToolDataView { cursor, ..self },
                front: Seq::empty(),
                back: seq![cursor_message(cursor)],
                ids,
            }
        } else {
            self.unchanged(CropToolFsmState::Ready, ids)
        }
    }

    /// The overlays once the record of the layers' transforms is dropped.
    pub open spec fn forgetful_overlays(self) -> Option<BoundingBoxOverlaysView> {
        match self.bounding_box_overlays {
            Some(overlays) => Some(
                BoundingBoxOverlaysView { recorded_layers: Seq::empty(), ..overlays },
            ),
            None => None,
        }
    }

    /// The pointer went up: snapping ends and its guides go. After drawing,
    /// the overlays are asked to refresh.
    pub open spec fn mouse_up(self, state: CropToolFsmState, ids: UuidGenerator) -> CropOutcome {
        CropOutcome {
            state: CropToolFsmState::Ready,
            data: CropToolDataView {
                snap_handler: self.snap_handler.cleaned(),
                bounding_box_overlays: self.forgetful_overlays(),
                ..self
            },
            front: Seq::empty(),
            back: self.snap_handler.cleanup_messages() + (if state == CropToolFsmState::Drawing {
                seq![tool_message(ToolMessage::DocumentIsDirty)]
            } else {
                Seq::empty()
            }),
            ids,
        }
    }

    /// The tool is aborted: the overlays and the snap guides are removed.
    pub open spec fn abort(self, ids: UuidGenerator) -> CropOutcome {
        CropOutcome {
            state: CropToolFsmState::Ready,
            data: CropToolDataView {
                bounding_box_overlays: None,
                snap_handler: self.snap_handler.cleaned(),
                ..self
            },
            front: Seq::empty(),
            back: (match self.bounding_box_overlays {
                Some(overlays) => overlays.deletion_messages(),
                None => Seq::empty(),
            }) + self.snap_handler.cleanup_messages(),
            ids,
        }
    }
}

/// Aborting returns the tool to the ready state from every state, with no
/// overlays left and snapping ended: aborting again emits nothing.
pub proof fn lemma_crop_abort_resets(
    state: CropToolFsmState,
    document: DocumentMessageHandlerView,
    tool_data: DocumentToolData,
    data: CropToolDataView,
    input: InputPreprocessorMessageHandler,
    ids: UuidGenerator,
)
    ensures
        ({
            let abort = ToolMessage::Crop(CropMessage::Abort);
            let outcome = state.step(abort, document, tool_data, data, (), input, ids);
            let again = outcome.state.step(
                abort,
                document,
                tool_data,
                outcome.data,
                (),
                input,
                outcome.ids,
            );
            &&& outcome.state == CropToolFsmState::Ready
            &&& outcome.data.bounding_box_overlays is None
            &&& outcome.data.snap_handler == data.snap_handler.cleaned()
            &&& again.back == Seq::<MessageView>::empty()
            &&& again.front == Seq::<MessageView>::empty()
            &&& again.state == CropToolFsmState::Ready
            &&& again.data == outcome.data
        }),
{
    lemma_cleanup_is_idempotent(data.snap_handler);
    assert(Seq::<MessageView>::empty() + data.snap_handler.cleaned().cleanup_messages() =~= Seq::<
        MessageView,
    >::empty());
}

/// The overlays are never dropped silently: a step that leaves the tool
/// without the overlays it had emits the messages that remove them, before
/// anything else it emits.
pub proof fn lemma_crop_overlays_are_torn_down(
    state: CropToolFsmState,
    event: ToolMessage,
    document: DocumentMessageHandlerView,
    tool_data: DocumentToolData,
    data: CropToolDataView,
    input: InputPreprocessorMessageHandler,
    ids: UuidGenerator,
)
    requires
        data.bounding_box_overlays is Some,
        state.step(event, document, tool_data, data, (), input, ids).data.bounding_box_overlays is None,
    ensures
        ({
            let outcome = state.step(event, document, tool_data, data, (), input, ids);
            let removal = data.bounding_box_overlays->Some_0.deletion_messages();
            outcome.front == removal || (outcome.front.len() == 0 && removal.is_prefix_of(
                outcome.back,
            ))
        }),
{
    let outcome = state.step(event, document, tool_data, data, (), input, ids);
    let removal = data.bounding_box_overlays->Some_0.deletion_messages();
    if outcome.front != removal {
        assert(outcome.back == removal + data.snap_handler.cleanup_messages());
        assert(removal =~= outcome.back.subrange(0, removal.len() as int));
    }
}

/// Wraps a message for the tools.
fn to_tools(message: ToolMessage) -> (wrapped: Message)
    ensures
        wrapped@ == tool_message(message),
{
    Message::Tool(message)
}

/// Builds the message that gives an artboard a new corner and size.
fn resize_artboard(artboard: Vec<LayerId>, position: Point, size: Point) -> (message: Message)
    ensures
        message@ == resize_artboard_message(artboard@, position, size),
{
    Message::Document(
        DocumentMessage::Artboard(ArtboardMessage::ResizeArtboard { artboard, position, size }),
    )
}

/// A copy of the path of the selected artboard.
fn selected_board_path(data: &CropToolData) -> (path: Vec<LayerId>)
    requires
        data.selected_board is Some,
    ensures
        path@ == data@.selected_board->Some_0,
{
    match &data.selected_board {
        Some(path) => clone_path(path),
        None => vstd::pervasive::unreached(),
    }
}

/// Lets the overlays follow the selected artboard.
fn on_document_is_dirty(
    state: CropToolFsmState,
    document: &DocumentMessageHandler,
    data: &mut CropToolData,
    responses: &mut VecDeque<Message>,
    ids: &mut UuidGenerator,
)
    requires
        old(data)@.consistent(state),
        document.wf(),
    ensures
        old(data)@.document_is_dirty(state, document@, *old(ids)).reached(
            state,
            final(data)@,
            views(old(responses)@),
            views(final(responses)@),
            *final(ids),
        ),
        final(data)@.consistent(state),
{
    let ghost before = views(responses@);
    let ghost first = *ids;
    let ghost start = data@;
    let mut buffer: Vec<Message> = Vec::new();
    assert(views(buffer@) =~= Seq::<MessageView>::empty());
    let board = match &data.selected_board {
        Some(path) => document.artboard_bounding_box(path),
        None => None,
    };
    let taken = data.bounding_box_overlays.take();
    match (board, taken) {
        (None, Some(overlays)) => {
            overlays.delete(&mut buffer);
            push_front_all(responses, buffer);
            proof {
                let outcome = start.document_is_dirty(state, document@, first);
                assert(views(responses@) =~= outcome.front + before + outcome.back);
            }
        },
        (Some(bounds), paths) => {
            let mut overlays = match paths {
                Some(overlays) => overlays,
                None => BoundingBoxOverlays::new(&mut buffer, ids),
            };
            overlays.bounds = bounds;
            overlays.transform(&mut buffer);
            data.bounding_box_overlays = Some(overlays);
            let message = Message::Document(DocumentMessage::Overlays(OverlaysMessage::Rerender));
            proof {
                lemma_views_push(responses@, message);
            }
            responses.push_back(message);
            push_front_all(responses, buffer);
            proof {
                let outcome = start.document_is_dirty(state, document@, first);
                assert(views(responses@) =~= outcome.front + before + outcome.back);
            }
        },
        (None, None) => {
            proof {
                assert(views(responses@) =~= Seq::<MessageView>::empty() + before + Seq::<
                    MessageView,
                >::empty());
            }
        },
    }
}

/// Begins a resize, selects an artboard or begins to draw one.
fn on_mouse_down(
    document: &DocumentMessageHandler,
    data: &mut CropToolData,
    input: &InputPreprocessorMessageHandler,
    responses: &mut VecDeque<Message>,
    ids: &mut UuidGenerator,
) -> (next: CropToolFsmState)
    requires
        old(data)@.consistent(CropToolFsmState::Ready),
        document.wf(),
        input.mouse.position.in_canvas(),
    ensures
        old(data)@.mouse_down(document@, *input, *old(ids)).reached(
            next,
            final(data)@,
            views(old(responses)@),
            views(final(responses)@),
            *final(ids),
        ),
        final(data)@.consistent(next),
{
    let ghost before = views(responses@);
    let ghost first = *ids;
    let ghost start = data@;
    let position = input.mouse.position;
    data.drag_start = position;
    let taken = data.bounding_box_overlays.take();
    let dragging_bounds = match taken {
        Some(bounding_box) => {
            let mut bounding_box = bounding_box;
            let edges = bounding_box.check_selected_edges(position);
            match edges {
                Some((top, bottom, left, right)) => {
                    let selected = SelectedEdges::new(top, bottom, left, right, bounding_box.bounds);
                    bounding_box.pivot = selected.calculate_pivot();
                    bounding_box.selected_edges = Some(selected);
                },
                None => {
                    bounding_box.selected_edges = None;
                },
            }
            data.bounding_box_overlays = Some(bounding_box);
            edges
        },
        None => None,
    };
    if let Some(selected_edges) = dragging_bounds {
        let snap_x = selected_edges.2 || selected_edges.3;
        let snap_y = selected_edges.0 || selected_edges.1;
        data.snap_handler.start_snap(document, &document.visible_layer_bounds, snap_x, snap_y);
        proof {
            assert(views(responses@) =~= Seq::<MessageView>::empty() + before + Seq::<
                MessageView,
            >::empty());
        }
        CropToolFsmState::ResizingBounds
    } else {
        let dirty = to_tools(ToolMessage::DocumentIsDirty);
        proof {
            lemma_views_push(responses@, dirty);
        }
        responses.push_back(dirty);
        let hits = document.artboards_under_cursor.len();
        if hits > 0 {
            data.selected_board = Some(clone_path(&document.artboards_under_cursor[hits - 1]));
            proof {
                let outcome = start.mouse_down(document@, *input, first);
                assert(views(responses@) =~= outcome.front + before + outcome.back);
            }
            CropToolFsmState::Ready
        } else {
            let id = generate_uuid(ids);
            let mut path: Vec<LayerId> = Vec::new();
            path.push(id);
            assert(path@ =~= seq![id]);
            data.selected_board = Some(path);
            data.snap_handler.start_snap(document, &document.visible_layer_bounds, true, true);
            let message = Message::Document(
                DocumentMessage::Artboard(
                    ArtboardMessage::AddArtboard {
                        id: Some(id),
                        position: Point { x: 0, y: 0 },
                        size: Point { x: 0, y: 0 },
                    },
                ),
            );
            proof {
                lemma_views_push(responses@, message);
            }
            responses.push_back(message);
            proof {
                let outcome = start.mouse_down(document@, *input, first);
                assert(views(responses@) =~= outcome.front + before + outcome.back);
            }
            CropToolFsmState::Drawing
        }
    }
}

/// Resizes the selected artboard by its grabbed edges.
fn on_resize_move(
    document: &DocumentMessageHandler,
    data: &mut CropToolData,
    input: &InputPreprocessorMessageHandler,
    axis_align: Key,
    centre: Key,
    responses: &mut VecDeque<Message>,
    ids: &mut UuidGenerator,
)
    requires
        old(data)@.consistent(CropToolFsmState::ResizingBounds),
        input.mouse.position.in_canvas(),
    ensures
        old(data)@.resize_move(document@, *input, axis_align, centre, *old(ids)).reached(
            CropToolFsmState::ResizingBounds,
            final(data)@,
            views(old(responses)@),
            views(final(responses)@),
            *final(ids),
        ),
        final(data)@.consistent(CropToolFsmState::ResizingBounds),
{
    let ghost before = views(responses@);
    let ghost first = *ids;
    let ghost start = data@;
    let movement = match &data.bounding_box_overlays {
        Some(bounds) => bounds.selected_edges,
        None => None,
    };
    if let Some(movement) = movement {
        let centre_down = input.keyboard.get(centre);
        let constrain = input.keyboard.get(axis_align);
        let mouse_position = input.mouse.position;
        let snapped_mouse_position = data.snap_handler.snap_position(
            responses,
            input.viewport_size,
            document,
            mouse_position,
            ids,
        );
        let resized = movement.new_size(snapped_mouse_position, centre_down, constrain);
        let size = resized[1];
        let position = movement.centre_position(resized[0], size, centre_down);
        let message = resize_artboard(selected_board_path(data), position, size);
        let dirty = to_tools(ToolMessage::DocumentIsDirty);
        proof {
            lemma_views_push(responses@, message);
            lemma_views_push(responses@.push(message), dirty);
        }
        responses.push_back(message);
        responses.push_back(dirty);
        proof {
            let outcome = start.resize_move(document@, *input, axis_align, centre, first);
            assert(views(responses@) =~= outcome.front + before + outcome.back);
        }
    } else {
        proof {
            assert(views(responses@) =~= Seq::<MessageView>::empty() + before + Seq::<
                MessageView,
            >::empty());
        }
    }
}

/// Computes the corner and the size of the artboard drawn by a drag from
/// `start` to `end`.
pub fn drag_out_box(start: Point, end: Point, constrain: bool, centre: bool) -> (drawn: (Point, Point))
    requires
        start.in_canvas(),
        end.in_canvas(),
    ensures
        drawn == drawn_box(start, end, constrain, centre),
{
    let mut start_x: i64 = start.x;
    let mut start_y: i64 = start.y;
    let mut width: i64 = end.x - start_x;
    let mut height: i64 = end.y - start_y;
    if constrain {
        let abs_width: i64 = if width < 0 { -width } else { width };
        let abs_height: i64 = if height < 0 { -height } else { height };
        let side: i64 = if abs_width >= abs_height { abs_width } else { abs_height };
        width = if width < 0 { -side } else { side };
        height = if height < 0 { -side } else { side };
    }
    if centre {
        start_x = start_x - width;
        start_y = start_y - height;
        width = 2 * width;
        height = 2 * height;
    }
    (Point { x: start_x, y: start_y }, Point { x: width, y: height })
}

/// Gives the artboard being drawn the box dragged out so far.
fn on_draw_move(
    document: &DocumentMessageHandler,
    data: &mut CropToolData,
    input: &InputPreprocessorMessageHandler,
    axis_align: Key,
    centre: Key,
    responses: &mut VecDeque<Message>,
    ids: &mut UuidGenerator,
)
    requires
        old(data)@.consistent(CropToolFsmState::Drawing),
        input.mouse.position.in_canvas(),
    ensures
        old(data)@.draw_move(document@, *input, axis_align, centre, *old(ids)).reached(
            CropToolFsmState::Drawing,
            final(data)@,
            views(old(responses)@),
            views(final(responses)@),
            *final(ids),
        ),
        final(data)@.consistent(CropToolFsmState::Drawing),
{
    let ghost before = views(responses@);
    let ghost first = *ids;
    let ghost start = data@;
    let mouse_position = input.mouse.position;
    let snapped_mouse_position = data.snap_handler.snap_position(
        responses,
        input.viewport_size,
        document,
        mouse_position,
        ids,
    );
    let (position, size) = drag_out_box(
        data.drag_start,
        snapped_mouse_position,
        input.keyboard.get(axis_align),
        input.keyboard.get(centre),
    );
    let message = resize_artboard(selected_board_path(data), position, size);
    let dirty = to_tools(ToolMessage::DocumentIsDirty);
    proof {
        lemma_views_push(responses@, message);
        lemma_views_push(responses@.push(message), dirty);
    }
    responses.push_back(message);
    responses.push_back(dirty);
    proof {
        let outcome = start.draw_move(document@, *input, axis_align, centre, first);
        assert(views(responses@) =~= outcome.front + before + outcome.back);
    }
}

/// Lets the cursor icon follow the pointer.
fn on_hover_move(
    data: &mut CropToolData,
    input: &InputPreprocessorMessageHandler,
    responses: &mut VecDeque<Message>,
    ids: &UuidGenerator,
)
    requires
        old(data)@.consistent(CropToolFsmState::Ready),
    ensures
        old(data)@.hover_move(*input, *ids).reached(
            CropToolFsmState::Ready,
            final(data)@,
            views(old(responses)@),
            views(final(responses)@),
            *ids,
        ),
        final(data)@.consistent(CropToolFsmState::Ready),
{
    let ghost before = views(responses@);
    let cursor = match &data.bounding_box_overlays {
        Some(bounds) => bounds.get_cursor(input),
        None => MouseCursorIcon::Default,
    };
    if data.cursor != cursor {
        data.cursor = cursor;
        let message = Message::Frontend(FrontendMessage::UpdateMouseCursor { cursor });
        proof {
            lemma_views_push(responses@, message);
        }
        responses.push_back(message);
        proof {
            assert(views(responses@) =~= Seq::<MessageView>::empty() + before + seq![
                cursor_message(cursor),
            ]);
        }
    } else {
        proof {
            assert(views(responses@) =~= Seq::<MessageView>::empty() + before + Seq::<
                MessageView,
            >::empty());
        }
    }
}

/// Ends a drag.
fn on_mouse_up(
    state: CropToolFsmState,
    data: &mut CropToolData,
    responses: &mut VecDeque<Message>,
    ids: &UuidGenerator,
)
    requires
        old(data)@.consistent(state),
    ensures
        old(data)@.mouse_up(state, *ids).reached(
            CropToolFsmState::Ready,
            final(data)@,
            views(old(responses)@),
            views(final(responses)@),
            *ids,
        ),
        final(data)@.consistent(CropToolFsmState::Ready),
{
    let ghost before = views(responses@);
    let ghost start = data@;
    data.snap_handler.cleanup(responses);
    let taken = data.bounding_box_overlays.take();
    if let Some(bounds) = taken {
        let mut bounds = bounds;
        bounds.original_transforms.clear();
        assert(bounds@.recorded_layers =~= Seq::empty());
        data.bounding_box_overlays = Some(bounds);
    }
    match state {
        CropToolFsmState::Drawing => {
            let dirty = to_tools(ToolMessage::DocumentIsDirty);
            proof {
                lemma_views_push(responses@, dirty);
            }
            responses.push_back(dirty);
        },
        _ => {},
    }
    proof {
        let outcome = start.mouse_up(state, *ids);
        assert(views(responses@) =~= outcome.front + before + outcome.back);
    }
}

/// Removes the overlays and ends snapping.
fn on_abort(data: &mut CropToolData, responses: &mut VecDeque<Message>, ids: &UuidGenerator)
    requires
        old(data)@.snap_handler.wf(),
        old(data)@.drag_start.in_canvas(),
    ensures
        old(data)@.abort(*ids).reached(
            CropToolFsmState::Ready,
            final(data)@,
            views(old(responses)@),
            views(final(responses)@),
            *ids,
        ),
        final(data)@.consistent(CropToolFsmState::Ready),
{
    let ghost before = views(responses@);
    let ghost start = data@;
    let taken = data.bounding_box_overlays.take();
    if let Some(bounding_box_overlays) = taken {
        let mut buffer: Vec<Message> = Vec::new();
        assert(views(buffer@) =~= Seq::<MessageView>::empty());
        bounding_box_overlays.delete(&mut buffer);
        push_back_all(responses, buffer);
    }
    data.snap_handler.cleanup(responses);
    proof {
        let outcome = start.abort(*ids);
        assert(views(responses@) =~= outcome.front + before + outcome.back);
    }
}

impl Fsm for CropToolFsmState {
    type ToolData = CropToolData;

    type ToolOptions = ();

    /// Whether the tool reacts to `event` in this state.
    open spec fn handles(self, event: ToolMessage) -> bool {
        match event {
            ToolMessage::Crop(event) => match (self, event) {
                (CropToolFsmState::Ready, CropMessage::DocumentIsDirty) => true,
                (CropToolFsmState::ResizingBounds, CropMessage::DocumentIsDirty) => true,
                (CropToolFsmState::Ready, CropMessage::MouseDown) => true,
                (_, CropMessage::MouseMove { .. }) => true,
                (CropToolFsmState::ResizingBounds, CropMessage::MouseUp) => true,
                (CropToolFsmState::Drawing, CropMessage::MouseUp) => true,
                (_, CropMessage::Abort) => true,
                _ => false,
            },
            _ => false,
        }
    }

    /// The data fits the state: overlays on show are well formed and belong to
    /// a selected artboard, an artboard being drawn is selected, and all
    /// positions lie on the canvas.
    open spec fn consistent(self, data: CropToolDataView) -> bool {
        data.consistent(self)
    }

    /// The geometry of the document and the pointer lie on the canvas.
    open spec fn accepts(
        document: DocumentMessageHandlerView,
        input: InputPreprocessorMessageHandler,
    ) -> bool {
        document.wf() && input.mouse.position.in_canvas()
    }

    /// What `event` does to the tool in this state.
    open spec fn step(
        self,
        event: ToolMessage,
        document: DocumentMessageHandlerView,
        tool_data: DocumentToolData,
        data: CropToolDataView,
        tool_options: (),
        input: InputPreprocessorMessageHandler,
        ids: UuidGenerator,
    ) -> CropOutcome {
        match event {
            ToolMessage::Crop(event) => match (self, event) {
                (CropToolFsmState::Ready, CropMessage::DocumentIsDirty) => data.document_is_dirty(
                    self,
                    document,
                    ids,
                ),
                (
                    CropToolFsmState::ResizingBounds,
                    CropMessage::DocumentIsDirty,
                ) => data.document_is_dirty(self, document, ids),
                (CropToolFsmState::Ready, CropMessage::MouseDown) => data.mouse_down(
                    document,
                    input,
                    ids,
                ),
                (
                    CropToolFsmState::ResizingBounds,
                    CropMessage::MouseMove { axis_align, centre },
                ) => data.resize_move(document, input, axis_align, centre, ids),
                (CropToolFsmState::Drawing, CropMessage::MouseMove { axis_align, centre }) => data.draw_move(
                    document,
                    input,
                    axis_align,
                    centre,
                    ids,
                ),
                (CropToolFsmState::Ready, CropMessage::MouseMove { .. }) => data.hover_move(input, ids),
                (CropToolFsmState::ResizingBounds, CropMessage::MouseUp) => data.mouse_up(self, ids),
                (CropToolFsmState::Drawing, CropMessage::MouseUp) => data.mouse_up(self, ids),
                (_, CropMessage::Abort) => data.abort(ids),
                _ => data.unchanged(self, ids),
            },
            _ => data.unchanged(self, ids),
        }
    }

    proof fn unhandled_is_noop(
        self,
        event: ToolMessage,
        document: DocumentMessageHandlerView,
        tool_data: DocumentToolData,
        data: CropToolDataView,
        tool_options: (),
        input: InputPreprocessorMessageHandler,
        ids: UuidGenerator,
    ) {
    }

    /// Advances the tool by one event. The overlay messages of a refresh go
    /// before the messages already queued; everything else goes behind them.
    fn transition(
        self,
        event: ToolMessage,
        document: &DocumentMessageHandler,
        _tool_data: &DocumentToolData,
        data: &mut CropToolData,
        _tool_options: &(),
        input: &InputPreprocessorMessageHandler,
        responses: &mut VecDeque<Message>,
        ids: &mut UuidGenerator,
    ) -> (next: Self) {
        let ghost before = views(responses@);
        proof {
            assert(Seq::<MessageView>::empty() + before + Seq::<MessageView>::empty() =~= before);
        }
        if let ToolMessage::Crop(event) = event {
            match (self, event) {
                (CropToolFsmState::Ready, CropMessage::DocumentIsDirty) => {
                    on_document_is_dirty(self, document, data, responses, ids);
                    self
                },
                (CropToolFsmState::ResizingBounds, CropMessage::DocumentIsDirty) => {
                    on_document_is_dirty(self, document, data, responses, ids);
                    self
                },
                (CropToolFsmState::Ready, CropMessage::MouseDown) => on_mouse_down(
                    document,
                    data,
                    input,
                    responses,
                    ids,
                ),
                (CropToolFsmState::ResizingBounds, CropMessage::MouseMove { axis_align, centre }) => {
                    on_resize_move(document, data, input, axis_align, centre, responses, ids);
                    CropToolFsmState::ResizingBounds
                },
                (CropToolFsmState::Drawing, CropMessage::MouseMove { axis_align, centre }) => {
                    on_draw_move(document, data, input, axis_align, centre, responses, ids);
                    CropToolFsmState::Drawing
                },
                (CropToolFsmState::Ready, CropMessage::MouseMove { .. }) => {
                    on_hover_move(data, input, responses, ids);
                    CropToolFsmState::Ready
                },
                (CropToolFsmState::ResizingBounds, CropMessage::MouseUp) => {
                    on_mouse_up(self, data, responses, ids);
                    CropToolFsmState::Ready
                },
                (CropToolFsmState::Drawing, CropMessage::MouseUp) => {
                    on_mouse_up(self, data, responses, ids);
                    CropToolFsmState::Ready
                },
                (_, CropMessage::Abort) => {
                    on_abort(data, responses, ids);
                    CropToolFsmState::Ready
                },
                _ => self,
            }
        } else {
            self
        }
    }

    /// The crop tool shows no input hints.
    open spec fn hint_messages(self) -> Seq<MessageView> {
        Seq::empty()
    }

    /// The crop tool asks for the default cursor in every state.
    open spec fn cursor_messages(self) -> Seq<MessageView> {
        seq![cursor_message(MouseCursorIcon::Default)]
    }

    /// The crop tool shows no input hints: nothing is emitted.
    fn update_hints(&self, responses: &mut VecDeque<Message>) {
        assert(views(responses@) + Seq::<MessageView>::empty() =~= views(responses@));
    }

    /// Asks the frontend for the default cursor.
    fn update_cursor(&self, responses: &mut VecDeque<Message>) {
        let message = Message::Frontend(
            FrontendMessage::UpdateMouseCursor { cursor: MouseCursorIcon::Default },
        );
        proof {
            lemma_views_push(responses@, message);
            assert(views(responses@).push(message@) =~= views(responses@) + seq![message@]);
        }
        responses.push_back(message);
    }
}

/// The kinds of message of the crop tool.
#[derive(Clone, Copy, Debug, PartialEq, Eq, Hash, Structural)]
pub enum CropMessageDiscriminant {
    Abort,
    DocumentIsDirty,
    MouseDown,
    MouseMove,
    MouseUp,
}

/// The tool, its data seen through its view.
pub struct CropView {
    pub fsm_state: CropToolFsmState,
    pub data: CropToolDataView,
}

impl View for Crop {
    type V = CropView;

    open spec fn view(&self) -> CropView {
        CropView { fsm_state: self.fsm_state, data: self.data@ }
    }
}

impl CropView {
    /// The tool at rest: ready, with nothing selected, no overlays, no
    /// snapping, the default cursor and the drag start at the origin.
    pub open spec fn at_rest() -> CropView {
        CropView {
            fsm_state: CropToolFsmState::Ready,
            data: CropToolDataView {
                bounding_box_overlays: None,
                selected_board: None,
                snap_handler: SnapHandlerView { snap_targets: None, overlay_paths: Seq::empty() },
                cursor: MouseCursorIcon::Default,
                drag_start: Point { x: 0, y: 0 },
            },
        }
    }

    /// The tool's data fits its state.
    pub open spec fn wf(self) -> bool {
        self.data.consistent(self.fsm_state)
    }

    /// What `action` does to the tool. A request for hints emits nothing, a
    /// request for the cursor emits the default cursor, and neither changes
    /// the tool; every other message is one step of the state machine,
    /// followed by the hints and the cursor of the new state where the state
    /// changed.
    pub open spec fn process(
        self,
        action: ToolMessage,
        document: DocumentMessageHandlerView,
        tool_data: DocumentToolData,
        input: InputPreprocessorMessageHandler,
        ids: UuidGenerator,
    ) -> CropOutcome {
        match action {
            ToolMessage::UpdateHints => self.data.unchanged(self.fsm_state, ids),
            ToolMessage::UpdateCursor => CropOutcome {
                back: seq![cursor_message(MouseCursorIcon::Default)],
                ..self.data.unchanged(self.fsm_state, ids)
            },
            _ => {
                let outcome = self.fsm_state.step(
                    action,
                    document,
                    tool_data,
                    self.data,
                    (),
                    input,
                    ids,
                );
                if outcome.state != self.fsm_state {
                    outcome.followed_by(
                        outcome.state.hint_messages() + outcome.state.cursor_messages(),
                    )
                } else {
                    outcome
                }
            },
        }
    }
}

impl Default for Crop {
    fn default() -> (tool: Crop)
        ensures
            tool@.fsm_state == CropToolFsmState::Ready,
            tool@.wf(),
    {
        Crop::new()
    }
}

impl Crop {
    /// The tool at rest: ready, with nothing selected.
    pub fn new() -> (tool: Crop)
        ensures
            tool@.fsm_state == CropToolFsmState::Ready,
            tool@.data.bounding_box_overlays is None,
            tool@.data.selected_board is None,
            tool@.data.snap_handler == (SnapHandlerView {
                snap_targets: None,
                overlay_paths: Seq::empty(),
            }),
            tool@.data.cursor == MouseCursorIcon::Default,
            tool@.data.drag_start == (Point { x: 0, y: 0 }),
            tool@ == CropView::at_rest(),
            tool@.wf(),
    {
        Crop {
            fsm_state: CropToolFsmState::Ready,
            data: CropToolData {
                bounding_box_overlays: None,
                selected_board: None,
                snap_handler: SnapHandler::new(),
                cursor: MouseCursorIcon::Default,
                drag_start: Point { x: 0, y: 0 },
            },
        }
    }

    /// Handles one message addressed to the tool.
    pub fn process_action(
        &mut self,
        action: ToolMessage,
        document: &DocumentMessageHandler,
        tool_data: &DocumentToolData,
        input: &InputPreprocessorMessageHandler,
        responses: &mut VecDeque<Message>,
        ids: &mut UuidGenerator,
    )
        requires
            old(self)@.wf(),
            document.wf(),
            input.mouse.position.in_canvas(),
        ensures
            old(self)@.process(action, document@, *tool_data, *input, *old(ids)).reached(
                final(self)@.fsm_state,
                final(self)@.data,
                views(old(responses)@),
                views(final(responses)@),
                *final(ids),
            ),
            final(self)@.wf(),
    {
        let ghost before = views(responses@);
        let ghost start = self@;
        let ghost first = *ids;
        proof {
            assert(Seq::<MessageView>::empty() + before + Seq::<MessageView>::empty() =~= before);
        }
        match action {
            ToolMessage::UpdateHints => {
                self.fsm_state.update_hints(responses);
                return ;
            },
            ToolMessage::UpdateCursor => {
                self.fsm_state.update_cursor(responses);
                proof {
                    assert(views(responses@) =~= Seq::<MessageView>::empty() + before + seq![
                        cursor_message(MouseCursorIcon::Default),
                    ]);
                }
                return ;
            },
            _ => {},
        }
        let new_state = self.fsm_state.transition(
            action,
            document,
            tool_data,
            &mut self.data,
            &(),
            input,
            responses,
            ids,
        );
        if self.fsm_state != new_state {
            self.fsm_state = new_state;
            self.fsm_state.update_hints(responses);
            self.fsm_state.update_cursor(responses);
            proof {
                let outcome = start.process(action, document@, *tool_data, *input, first);
                assert(views(responses@) =~= outcome.front + before + outcome.back);
            }
        }
    }

    /// The kinds of message the tool accepts.
    pub fn actions(&self) -> (list: Vec<CropMessageDiscriminant>)
        ensures
            list@ == seq![
                CropMessageDiscriminant::MouseDown,
                CropMessageDiscriminant::MouseUp,
                CropMessageDiscriminant::MouseMove,
                CropMessageDiscriminant::Abort,
            ],
    {
        let mut list: Vec<CropMessageDiscriminant> = Vec::new();
        list.push(CropMessageDiscriminant::MouseDown);
        list.push(CropMessageDiscriminant::MouseUp);
        list.push(CropMessageDiscriminant::MouseMove);
        list.push(CropMessageDiscriminant::Abort);
        assert(list@ =~= seq![
            CropMessageDiscriminant::MouseDown,
            CropMessageDiscriminant::MouseUp,
            CropMessageDiscriminant::MouseMove,
            CropMessageDiscriminant::Abort,
        ]);
        list
    }
}

} // verus!
