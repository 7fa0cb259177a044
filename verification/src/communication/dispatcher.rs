//! The dispatcher: one queue of pending messages, drained to the end on
//! every request, each message routed to the one component that owns it.

use std::collections::VecDeque;
use vstd::prelude::*;
use crate::communication::message::{lemma_views_push, views, Message, MessageView};
use crate::communication::UuidGenerator;
use crate::consts::DISPATCH_ITERATION_LIMIT;
use crate::document::{
    DocumentMessage, DocumentMessageHandler, DocumentMessageHandlerView, DocumentMessageView,
};
use crate::frontend::{FrontendMessage, FrontendMessageView};
use crate::geometry::Point;
use crate::global::{requested_level, GlobalMessageHandler, LogLevel};
use crate::input::{InputPreprocessorMessageHandler, Key};
use crate::misc::EditorError;
use crate::viewport_tools::tool::ToolType;
use crate::viewport_tools::tool_message::ToolMessage;
use crate::viewport_tools::tool_message_handler::{ToolMessageHandler, ToolMessageHandlerView};

verus! {

/// What the document is asked to handle: a message, with the queue and the
/// identifier generator as they stand.
pub struct BackendRequest {
    pub message: DocumentMessageView,
    pub queue: Seq<MessageView>,
    pub ids: UuidGenerator,
}

/// What the document made of a request: itself, the queue and the
/// identifier generator as it left them.
pub struct BackendReply<D> {
    pub document: D,
    pub queue: Seq<MessageView>,
    pub ids: UuidGenerator,
}

/// The document as the dispatcher needs it: it takes the messages addressed to
/// it, which may queue further messages, and shows the tools what they may
/// read of it. Both are functions of the document's state and of what it is
/// given: `handled` and `shown` say which.
pub trait DocumentBackend: Sized {
    /// What `process_action` makes of a request.
    spec fn handled(&self, request: BackendRequest) -> BackendReply<Self>;

    /// What `snapshot` shows for the pointer of `input`.
    spec fn shown(&self, input: InputPreprocessorMessageHandler) -> DocumentMessageHandlerView;

    /// Applies `message` to the document.
    fn process_action(
        &mut self,
        message: DocumentMessage,
        responses: &mut VecDeque<Message>,
        ids: &mut UuidGenerator,
    )
        ensures
            old(self).handled(
                BackendRequest {
                    message: message@,
                    queue: views(old(responses)@),
                    ids: *old(ids),
                },
            ) == (BackendReply {
                document: *final(self),
                queue: views(final(responses)@),
                ids: *final(ids),
            }),
    ;

    /// What a tool may read of the document, hit tests made for the pointer
    /// of `input`.
    fn snapshot(&self, input: &InputPreprocessorMessageHandler) -> (record: DocumentMessageHandler)
        ensures
            record@ == self.shown(*input),
    ;
}

/// No document is open: messages for the document are dropped, and the tools
/// see an empty canvas with snapping switched off.
#[derive(Clone, Copy, Debug, PartialEq, Eq, Structural)]
pub struct NoDocument;

impl DocumentBackend for NoDocument {
    /// Nothing changes.
    open spec fn handled(&self, request: BackendRequest) -> BackendReply<Self> {
        BackendReply { document: NoDocument, queue: request.queue, ids: request.ids }
    }

    /// An empty document.
    open spec fn shown(&self, input: InputPreprocessorMessageHandler) -> DocumentMessageHandlerView {
        DocumentMessageHandlerView {
            snapping_enabled: false,
            artboards: Seq::empty(),
            visible_layer_bounds: Seq::empty(),
            artboards_under_cursor: Seq::empty(),
            layers_under_cursor: Seq::empty(),
            new_layer_path: Seq::empty(),
            selected_shapes: Seq::empty(),
        }
    }

    fn process_action(
        &mut self,
        message: DocumentMessage,
        responses: &mut VecDeque<Message>,
        ids: &mut UuidGenerator,
    ) {
    }

    fn snapshot(&self, input: &InputPreprocessorMessageHandler) -> (record: DocumentMessageHandler) {
        let record = DocumentMessageHandler {
            snapping_enabled: false,
            artboards: Vec::new(),
            visible_layer_bounds: Vec::new(),
            artboards_under_cursor: Vec::new(),
            layers_under_cursor: Vec::new(),
            new_layer_path: Vec::new(),
            selected_shapes: Vec::new(),
        };
        assert(record@ =~= self.shown(*input)) by {
            assert(record@.artboards =~= Seq::empty());
            assert(record@.visible_layer_bounds =~= Seq::empty());
            assert(record@.artboards_under_cursor =~= Seq::empty());
            assert(record@.layers_under_cursor =~= Seq::empty());
            assert(record@.new_layer_path =~= Seq::empty());
            assert(record@.selected_shapes =~= Seq::empty());
        }
        record
    }
}

/// The router of the editor, with the components it routes to.
pub struct Dispatcher<D: DocumentBackend> {
    pub message_queue: VecDeque<Message>,
    pub responses: Vec<FrontendMessage>,
    pub document: D,
    pub input: InputPreprocessorMessageHandler,
    pub global: GlobalMessageHandler,
    pub tools: ToolMessageHandler,
    pub ids: UuidGenerator,
    /// How many messages one request may process.
    pub iteration_limit: u64,
}

/// The views of the frontend messages of a list.
pub open spec fn frontend_views(messages: Seq<FrontendMessage>) -> Seq<FrontendMessageView> {
    messages.map_values(|m: FrontendMessage| m@)
}

/// The views of a list with one more message are the views of the list with
/// the view of that message behind them.
pub proof fn lemma_frontend_views_push(messages: Seq<FrontendMessage>, message: FrontendMessage)
    ensures
        frontend_views(messages.push(message)) == frontend_views(messages).push(message@),
{
    assert(frontend_views(messages.push(message)) =~= frontend_views(messages).push(message@));
}

/// The dispatcher with its queue, its frontend instructions and its tools
/// seen through their views.
pub struct DispatcherView<D> {
    pub queue: Seq<MessageView>,
    pub responses: Seq<FrontendMessageView>,
    pub document: D,
    pub input: InputPreprocessorMessageHandler,
    pub global: GlobalMessageHandler,
    pub tools: ToolMessageHandlerView,
    pub ids: UuidGenerator,
    pub iteration_limit: u64,
}

impl<D: DocumentBackend> View for Dispatcher<D> {
    type V = DispatcherView<D>;

    open spec fn view(&self) -> DispatcherView<D> {
        DispatcherView {
            queue: views(self.message_queue@),
            responses: frontend_views(self.responses@),
            document: self.document,
            input: self.input,
            global: self.global,
            tools: self.tools@,
            ids: self.ids,
            iteration_limit: self.iteration_limit,
        }
    }
}

/// Where handling messages led: the dispatcher as it was left, and whether
/// the run went through.
pub struct Handled<D> {
    pub state: DispatcherView<D>,
    pub result: Result<(), EditorError>,
}

impl<D: DocumentBackend> DispatcherView<D> {
    /// The data of every tool fits its state.
    pub open spec fn wf(self) -> bool {
        self.tools.wf()
    }

    /// The message went through and left `self`.
    pub open spec fn done(self) -> Handled<D> {
        Handled { state: self, result: Ok(()) }
    }

    /// The run was stopped by `error`: the queue is emptied, all else stays.
    pub open spec fn stopped(self, error: EditorError) -> Handled<D> {
        Handled { state: DispatcherView { queue: Seq::empty(), ..self }, result: Err(error) }
    }

    /// One message, taken off the queue, is routed to its owner.
    /// - A frontend message joins the instructions for the frontend.
    /// - An input event changes the input state; a global message sets the
    ///   log level; the empty message does nothing.
    /// - A document message goes to the document, which may change itself,
    ///   the queue and the identifiers.
    /// - A tool message goes to the tools, which read the document as it
    ///   shows itself for the pointer: what they emit for at once stands
    ///   before the queued messages, the rest behind them. Geometry off the
    ///   canvas, in the document or in the pointer, is refused, and nothing
    ///   changes.
    #[verifier::opaque]
    pub open spec fn step(self, message: MessageView) -> Handled<D> {
        match message {
            MessageView::NoOp => self.done(),
            MessageView::Frontend(frontend) => DispatcherView {
                responses: self.responses.push(frontend),
                ..self
            }.done(),
            MessageView::Global(global) => DispatcherView {
                global: GlobalMessageHandler { log_level: requested_level(global) },
                ..self
            }.done(),
            MessageView::InputPreprocessor(event) => DispatcherView {
                input: self.input.after(event),
                ..self
            }.done(),
            MessageView::Document(message) => {
                let reply = self.document.handled(
                    BackendRequest { message, queue: self.queue, ids: self.ids },
                );
                DispatcherView {
                    document: reply.document,
                    queue: reply.queue,
                    ids: reply.ids,
                    ..self
                }.done()
            },
            MessageView::Tool(message) => {
                let record = self.document.shown(self.input);
                if record.wf() && self.input.mouse.position.in_canvas() {
                    let outcome = self.tools.process(message, record, self.input, self.ids);
                    DispatcherView {
                        queue: outcome.front + self.queue + outcome.back,
                        tools: outcome.data,
                        ids: outcome.ids,
                        ..self
                    }.done()
                } else {
                    Handled { state: self, result: Err(EditorError::MalformedGeometry) }
                }
            },
        }
    }

    /// The queue is drained from the front, one step for each message, until
    /// it is empty. A step that fails stops the run, and so does a message
    /// that is still queued when `fuel` steps were made.
    pub open spec fn drain(self, fuel: nat) -> Handled<D>
        decreases fuel,
    {
        if self.queue.len() == 0 {
            self.done()
        } else if fuel == 0 {
            self.stopped(EditorError::DispatchLimit)
        } else {
            let handled = DispatcherView { queue: self.queue.drop_first(), ..self }.step(
                self.queue.first(),
            );
            match handled.result {
                Ok(()) => handled.state.drain((fuel - 1) as nat),
                Err(error) => handled.state.stopped(error),
            }
        }
    }

    /// `message` joins the queue at its back, and the queue is drained, with
    /// as many steps as the iteration limit allows.
    pub open spec fn handle(self, message: MessageView) -> Handled<D> {
        DispatcherView { queue: self.queue.push(message), ..self }.drain(
            self.iteration_limit as nat,
        )
    }
}

/// A drained dispatcher has an empty queue, whether the run went through or
/// was stopped, and the run is stopped at once where no step is allowed.
pub proof fn lemma_drain_empties_the_queue<D: DocumentBackend>(state: DispatcherView<D>, fuel: nat)
    ensures
        state.drain(fuel).state.queue.len() == 0,
        state.drain(fuel).state.iteration_limit == state.iteration_limit,
        fuel == 0 && state.queue.len() > 0 ==> state.drain(fuel).result == Err::<(), EditorError>(
            EditorError::DispatchLimit,
        ),
        state.queue.len() == 0 ==> state.drain(fuel) == state.done(),
    decreases fuel,
{
    reveal(DispatcherView::step);
    if state.queue.len() > 0 && fuel > 0 {
        let handled = DispatcherView { queue: state.queue.drop_first(), ..state }.step(
            state.queue.first(),
        );
        if handled.result is Ok {
            lemma_drain_empties_the_queue(handled.state, (fuel - 1) as nat);
        }
    }
}

/// A run is stopped for two reasons only: the iteration limit, or geometry
/// off the canvas that a tool was to read.
pub proof fn lemma_drain_stops_for_two_reasons<D: DocumentBackend>(
    state: DispatcherView<D>,
    fuel: nat,
)
    ensures
        state.drain(fuel).result matches Err(error) ==> error == EditorError::DispatchLimit || error
            == EditorError::MalformedGeometry,
    decreases fuel,
{
    reveal(DispatcherView::step);
    if state.queue.len() > 0 && fuel > 0 {
        let handled = DispatcherView { queue: state.queue.drop_first(), ..state }.step(
            state.queue.first(),
        );
        if handled.result is Ok {
            lemma_drain_stops_for_two_reasons(handled.state, (fuel - 1) as nat);
        }
    }
}

/// Draining never takes back an instruction for the frontend: those that
/// were pending stay, in their order, before those that the run adds.
pub proof fn lemma_drain_keeps_frontend_messages<D: DocumentBackend>(
    state: DispatcherView<D>,
    fuel: nat,
)
    ensures
        state.responses.is_prefix_of(state.drain(fuel).state.responses),
    decreases fuel,
{
    reveal(DispatcherView::step);
    if state.queue.len() > 0 && fuel > 0 {
        let handled = DispatcherView { queue: state.queue.drop_first(), ..state }.step(
            state.queue.first(),
        );
        assert(state.responses.is_prefix_of(handled.state.responses));
        if handled.result is Ok {
            lemma_drain_keeps_frontend_messages(handled.state, (fuel - 1) as nat);
            let last = handled.state.drain((fuel - 1) as nat).state.responses;
            assert(state.responses =~= last.subrange(0, state.responses.len() as int));
        }
    }
}

/// Messages are handled in the order of the queue, and what a tool emits for
/// at once runs before what was queued: after the step for the tool message
/// at the front, the queue holds the tool's front messages, then the
/// messages that were queued behind the tool message, then the tool's back
/// messages, and the run goes on from there.
pub proof fn lemma_cascade_runs_before_the_queued<D: DocumentBackend>(
    state: DispatcherView<D>,
    message: ToolMessage,
    queued: Seq<MessageView>,
    fuel: nat,
)
    requires
        state.queue == seq![MessageView::Tool(message)] + queued,
        state.document.shown(state.input).wf(),
        state.input.mouse.position.in_canvas(),
        fuel > 0,
    ensures
        ({
            let outcome = state.tools.process(
                message,
                state.document.shown(state.input),
                state.input,
                state.ids,
            );
            state.drain(fuel) == DispatcherView {
                queue: outcome.front + queued + outcome.back,
                tools: outcome.data,
                ids: outcome.ids,
                ..state
            }.drain((fuel - 1) as nat)
        }),
{
    reveal(DispatcherView::step);
    assert(state.queue.drop_first() =~= queued);
    assert(state.queue.first() == MessageView::Tool(message));
}

impl<D: DocumentBackend> Dispatcher<D> {
    /// The data of every tool fits its state.
    pub open spec fn wf(self) -> bool {
        self.tools@.wf()
    }

    /// Nothing but the tools, the queue and the identifiers differ between
    /// `self` and `other`.
    pub open spec fn same_but_tools(self, other: Self) -> bool {
        &&& self.responses == other.responses
        &&& self.input == other.input
        &&& self.global == other.global
        &&& self.document == other.document
        &&& self.iteration_limit == other.iteration_limit
    }

    /// A dispatcher with an empty queue, the crop tool active, and
    /// identifiers that start at `seed`.
    pub fn new(document: D, seed: u64) -> (dispatcher: Self)
        ensures
            dispatcher.wf(),
            dispatcher.message_queue@.len() == 0,
            dispatcher.responses@.len() == 0,
            dispatcher.document == document,
            dispatcher.ids.next == seed,
            dispatcher.tools@ == ToolMessageHandlerView::at_rest(ToolType::Crop),
            dispatcher.iteration_limit == DISPATCH_ITERATION_LIMIT,
            dispatcher.global.log_level == LogLevel::Info,
            dispatcher.input.mouse.position == (Point { x: 0, y: 0 }),
            dispatcher.input.viewport_size == (Point { x: 0, y: 0 }),
            forall|key: Key| !dispatcher.input.keyboard.is_down(key),
    {
        Dispatcher {
            message_queue: VecDeque::new(),
            responses: Vec::new(),
            document,
            input: InputPreprocessorMessageHandler::new(),
            global: GlobalMessageHandler::new(),
            tools: ToolMessageHandler::new(ToolType::Crop),
            ids: UuidGenerator::new(seed),
            iteration_limit: DISPATCH_ITERATION_LIMIT,
        }
    }

    /// Hands a tool message to the tools, which read the document through
    /// `snapshot`. Geometry off the canvas, in the snapshot or in the pointer
    /// position, is refused, and nothing changes.
    pub fn route_tool(&mut self, message: ToolMessage, snapshot: &DocumentMessageHandler) -> (result:
        Result<(), EditorError>)
        requires
            old(self).wf(),
        ensures
            final(self).wf(),
            old(self).same_but_tools(*final(self)),
            match result {
                Ok(()) => {
                    &&& snapshot.wf()
                    &&& old(self).input.mouse.position.in_canvas()
                    &&& old(self).tools@.process(
                        message,
                        snapshot@,
                        old(self).input,
                        old(self).ids,
                    ).reached(
                        final(self).tools@.active_tool_type,
                        final(self).tools@,
                        views(old(self).message_queue@),
                        views(final(self).message_queue@),
                        final(self).ids,
                    )
                },
                Err(error) => {
                    &&& error == EditorError::MalformedGeometry
                    &&& !(snapshot.wf() && old(self).input.mouse.position.in_canvas())
                    &&& *final(self) == *old(self)
                },
            },
    {
        if !snapshot.is_wf() || !self.input.mouse.position.is_in_canvas() {
            return Err(EditorError::MalformedGeometry);
        }
        self.tools.process_action(
            message,
            snapshot,
            &self.input,
            &mut self.message_queue,
            &mut self.ids,
        );
        Ok(())
    }

    /// Routes one message to the component that owns it.
    pub fn dispatch(&mut self, message: Message) -> (result: Result<(), EditorError>)
        requires
            old(self).wf(),
        ensures
            final(self).wf(),
            old(self)@.step(message@) == (Handled { state: final(self)@, result }),
            final(self).iteration_limit == old(self).iteration_limit,
    {
        let ghost start = self@;
        let ghost request = message@;
        let result = match message {
            Message::NoOp => {
                assert(self@ == start);
                Ok(())
            },
            Message::Frontend(instruction) => {
                proof {
                    lemma_frontend_views_push(self.responses@, instruction);
                }
                self.responses.push(instruction);
                assert(self@ == (DispatcherView {
                    responses: start.responses.push(instruction@),
                    ..start
                }));
                Ok(())
            },
            Message::Global(setting) => {
                self.global.process_action(setting);
                assert(self@ == (DispatcherView {
                    global: GlobalMessageHandler { log_level: requested_level(setting) },
                    ..start
                }));
                Ok(())
            },
            Message::InputPreprocessor(event) => {
                self.input.process_action(event);
                assert(self@ == (DispatcherView { input: start.input.after(event), ..start }));
                Ok(())
            },
            Message::Document(command) => {
                let ghost asked = BackendRequest {
                    message: command@,
                    queue: start.queue,
                    ids: start.ids,
                };
                self.document.process_action(command, &mut self.message_queue, &mut self.ids);
                proof {
                    let reply = start.document.handled(asked);
                    assert(self@ == (DispatcherView {
                        document: reply.document,
                        queue: reply.queue,
                        ids: reply.ids,
                        ..start
                    }));
                }
                Ok(())
            },
            Message::Tool(message) => {
                let snapshot = self.document.snapshot(&self.input);
                // Rebuilt from its parts, the result is one the prover can compare.
                let result = match self.route_tool(message, &snapshot) {
                    Ok(()) => Ok(()),
                    Err(error) => Err(error),
                };
                proof {
                    let record = start.document.shown(start.input);
                    assert(record == snapshot@);
                    if result is Ok {
                        let outcome = start.tools.process(message, record, start.input, start.ids);
                        assert(self@ == (DispatcherView {
                            queue: outcome.front + start.queue + outcome.back,
                            tools: outcome.data,
                            ids: outcome.ids,
                            ..start
                        }));
                    } else {
                        assert(self@ == start);
                    }
                }
                result
            },
        };
        proof {
            reveal(DispatcherView::step);
            assert(start.step(request) == (Handled { state: self@, result }));
        }
        result
    }

    /// Handles `message` and every message that follows from it: the message
    /// joins the queue, and the queue is drained from the front, each
    /// message routed to its owner, until it is empty. A run that would
    /// process more messages than the limit allows is stopped; a run that
    /// meets geometry off the canvas is stopped too. A stopped run leaves
    /// the queue empty.
    pub fn handle_message(&mut self, message: Message) -> (result: Result<(), EditorError>)
        requires
            old(self).wf(),
        ensures
            final(self).wf(),
            old(self)@.handle(message@) == (Handled { state: final(self)@, result }),
            final(self).message_queue@.len() == 0,
            final(self).iteration_limit == old(self).iteration_limit,
            frontend_views(old(self).responses@).is_prefix_of(frontend_views(final(self).responses@)),
            old(self).iteration_limit == 0 ==> result == Err::<(), EditorError>(
                EditorError::DispatchLimit,
            ),
    {
        let ghost goal = self@.handle(message@);
        let ghost pending = self@.responses;
        proof {
            lemma_views_push(self.message_queue@, message);
            let pushed = DispatcherView { queue: self@.queue.push(message@), ..self@ };
            lemma_drain_empties_the_queue(pushed, self.iteration_limit as nat);
            lemma_drain_keeps_frontend_messages(pushed, self.iteration_limit as nat);
        }
        self.message_queue.push_back(message);
        let mut iterations: u64 = 0;
        while self.message_queue.len() > 0
            invariant
                self.wf(),
                iterations <= self.iteration_limit,
                self.iteration_limit == old(self).iteration_limit,
                goal == old(self)@.handle(message@),
                pending == old(self)@.responses,
                goal.state.queue.len() == 0,
                pending.is_prefix_of(goal.state.responses),
                old(self).iteration_limit == 0 ==> goal.result == Err::<(), EditorError>(
                    EditorError::DispatchLimit,
                ),
                self@.drain((self.iteration_limit - iterations) as nat) == goal,
            decreases self.iteration_limit - iterations,
        {
            let ghost before = self@;
            if iterations >= self.iteration_limit {
                self.message_queue.clear();
                proof {
                    assert(views(self.message_queue@) =~= Seq::<MessageView>::empty());
                    assert(self@ == before.stopped(EditorError::DispatchLimit).state);
                }
                return Err(EditorError::DispatchLimit);
            }
            let next = self.message_queue.pop_front();
            if let Some(message) = next {
                proof {
                    assert(message@ == before.queue.first());
                    assert(views(self.message_queue@) =~= before.queue.drop_first());
                    assert(self@ == (DispatcherView { queue: before.queue.drop_first(), ..before }));
                }
                let routed = self.dispatch(message);
                if let Err(error) = routed {
                    let ghost failed = self@;
                    self.message_queue.clear();
                    proof {
                        assert(views(self.message_queue@) =~= Seq::<MessageView>::empty());
                        assert(self@ == failed.stopped(error).state);
                    }
                    return Err(error);
                }
            }
            iterations = iterations + 1;
        }
        Ok(())
    }
}

} // verus!
