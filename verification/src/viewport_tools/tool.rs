//! What every tool shares.

use std::collections::VecDeque;
use vstd::prelude::*;
use crate::communication::message::{views, Message, MessageView};
use crate::communication::UuidGenerator;
use crate::document::{DocumentMessageHandler, DocumentMessageHandlerView, DocumentToolData};
use crate::input::InputPreprocessorMessageHandler;
use crate::viewport_tools::tool_message::ToolMessage;

verus! {

/// The tools of the editor.
#[derive(Clone, Copy, Debug, PartialEq, Eq, Hash, Structural)]
pub enum ToolType {
    Crop,
    Line,
    Path,
}

/// What one step of a tool does: the state and data it leaves, the messages
/// it puts before and behind those already queued, and the identifier
/// generator as it leaves it.
pub struct ToolOutcome<S, D> {
    pub state: S,
    pub data: D,
    pub front: Seq<MessageView>,
    pub back: Seq<MessageView>,
    pub ids: UuidGenerator,
}

impl<S, D> ToolOutcome<S, D> {
    /// The step that left `state`, `data` and `ids`, and turned the queue
    /// `before` into `after`, is this one.
    pub open spec fn reached(
        self,
        state: S,
        data: D,
        before: Seq<MessageView>,
        after: Seq<MessageView>,
        ids: UuidGenerator,
    ) -> bool {
        &&& state == self.state
        &&& data == self.data
        &&& after == self.front + before + self.back
        &&& ids == self.ids
    }

    /// This step and then `next`: what `next` leaves, with the messages of
    /// both. The later step's front messages stand before the earlier one's,
    /// its back messages behind them.
    pub open spec fn and_then(self, next: ToolOutcome<S, D>) -> ToolOutcome<S, D> {
        ToolOutcome {
            state: next.state,
            data: next.data,
            front: next.front + self.front,
            back: self.back + next.back,
            ids: next.ids,
        }
    }

    /// The step after which `messages` are queued as well, behind all others.
    pub open spec fn followed_by(self, messages: Seq<MessageView>) -> ToolOutcome<S, D> {
        ToolOutcome { back: self.back + messages, ..self }
    }
}

/// The step that changes nothing and emits nothing.
pub open spec fn no_step<S, D>(state: S, data: D, ids: UuidGenerator) -> ToolOutcome<S, D> {
    ToolOutcome { state, data, front: Seq::empty(), back: Seq::empty(), ids }
}

/// The state machine of a tool. A state is advanced by one event at a time;
/// the transition alone writes the state, and it alone changes the tool's
/// working data while it runs.
pub trait Fsm: Sized {
    /// The working data of the tool.
    type ToolData: View;

    /// The options of the tool.
    type ToolOptions;

    /// Whether the tool reacts to `event` in this state.
    spec fn handles(self, event: ToolMessage) -> bool;

    /// The data fits the state.
    spec fn consistent(self, data: <Self::ToolData as View>::V) -> bool;

    /// The document and the input are such as the tool can work with.
    spec fn accepts(document: DocumentMessageHandlerView, input: InputPreprocessorMessageHandler) -> bool;

    /// What `event` does to the tool in this state.
    spec fn step(
        self,
        event: ToolMessage,
        document: DocumentMessageHandlerView,
        tool_data: DocumentToolData,
        data: <Self::ToolData as View>::V,
        tool_options: Self::ToolOptions,
        input: InputPreprocessorMessageHandler,
        ids: UuidGenerator,
    ) -> ToolOutcome<Self, <Self::ToolData as View>::V>;

    /// An event the tool does not react to in its state leaves the state,
    /// the data and the identifiers as they are and emits no message.
    proof fn unhandled_is_noop(
        self,
        event: ToolMessage,
        document: DocumentMessageHandlerView,
        tool_data: DocumentToolData,
        data: <Self::ToolData as View>::V,
        tool_options: Self::ToolOptions,
        input: InputPreprocessorMessageHandler,
        ids: UuidGenerator,
    )
        requires
            !self.handles(event),
        ensures
            self.step(event, document, tool_data, data, tool_options, input, ids) == no_step(
                self,
                data,
                ids,
            ),
    ;

    /// Advances the tool by one event.
    fn transition(
        self,
        event: ToolMessage,
        document: &DocumentMessageHandler,
        tool_data: &DocumentToolData,
        data: &mut Self::ToolData,
        tool_options: &Self::ToolOptions,
        input: &InputPreprocessorMessageHandler,
        responses: &mut VecDeque<Message>,
        ids: &mut UuidGenerator,
    ) -> (next: Self)
        requires
            self.consistent(old(data)@),
            Self::accepts(document@, *input),
        ensures
            self.step(
                event,
                document@,
                *tool_data,
                old(data)@,
                *tool_options,
                *input,
                *old(ids),
            ).reached(
                next,
                final(data)@,
                views(old(responses)@),
                views(final(responses)@),
                *final(ids),
            ),
            next.consistent(final(data)@),
    ;

    /// The messages that show the input hints of the state.
    spec fn hint_messages(self) -> Seq<MessageView>;

    /// The messages that set the cursor of the state.
    spec fn cursor_messages(self) -> Seq<MessageView>;

    /// Shows the input hints of the state.
    fn update_hints(&self, responses: &mut VecDeque<Message>)
        ensures
            views(final(responses)@) == views(old(responses)@) + self.hint_messages(),
    ;

    /// Sets the cursor of the state.
    fn update_cursor(&self, responses: &mut VecDeque<Message>)
        ensures
            views(final(responses)@) == views(old(responses)@) + self.cursor_messages(),
    ;
}

/// Two steps in a row are the one step that `and_then` makes of them: where
/// the first turns the queue `before` into `between` and the second turns
/// that into `after`, the two together turn `before` into `after`.
pub proof fn lemma_and_then_composes<S, D>(
    first: ToolOutcome<S, D>,
    second: ToolOutcome<S, D>,
    before: Seq<MessageView>,
    between: Seq<MessageView>,
    after: Seq<MessageView>,
)
    requires
        first.reached(first.state, first.data, before, between, first.ids),
        second.reached(second.state, second.data, between, after, second.ids),
    ensures
        first.and_then(second).reached(second.state, second.data, before, after, second.ids),
{
    assert(after =~= first.and_then(second).front + before + first.and_then(second).back);
}

} // verus!
