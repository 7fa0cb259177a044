//! The envelope every event travels in.

use std::collections::VecDeque;
use vstd::prelude::*;
use crate::document::{
    BoxTransform, DocumentMessage, DocumentMessageView, LayerId, Operation, OperationView,
    OverlaysMessage, OverlaysMessageView,
};
use crate::frontend::{FrontendMessage, FrontendMessageView};
use crate::input::InputPreprocessorMessage;
use crate::viewport_tools::tool_message::ToolMessage;

verus! {

/// Messages for the editor as a whole.
#[derive(Clone, Copy, Debug, PartialEq, Eq, Hash, Structural)]
pub enum GlobalMessage {
    LogDebug,
    LogInfo,
    LogTrace,
}

/// Any message the editor can carry; the variant names the component that
/// owns it.
#[derive(Clone, Debug, PartialEq, Eq)]
pub enum Message {
    Document(DocumentMessage),
    Frontend(FrontendMessage),
    Global(GlobalMessage),
    InputPreprocessor(InputPreprocessorMessage),
    NoOp,
    Tool(ToolMessage),
}

/// A message with its layer paths and texts as sequences.
pub enum MessageView {
    Document(DocumentMessageView),
    Frontend(FrontendMessageView),
    Global(GlobalMessage),
    InputPreprocessor(InputPreprocessorMessage),
    NoOp,
    Tool(ToolMessage),
}

impl View for Message {
    type V = MessageView;

    open spec fn view(&self) -> MessageView {
        match *self {
            Message::Document(message) => MessageView::Document(message@),
            Message::Frontend(message) => MessageView::Frontend(message@),
            Message::Global(message) => MessageView::Global(message),
            Message::InputPreprocessor(message) => MessageView::InputPreprocessor(message),
            Message::NoOp => MessageView::NoOp,
            Message::Tool(message) => MessageView::Tool(message),
        }
    }
}

/// The component that owns a message.
#[derive(Clone, Copy, Debug, PartialEq, Eq, Hash, Structural)]
pub enum HandlerCategory {
    Document,
    Frontend,
    Global,
    InputPreprocessor,
    Nobody,
    Tool,
}

impl MessageView {
    /// The one component that handles the message; its variant alone decides.
    pub open spec fn category(self) -> HandlerCategory {
        match self {
            MessageView::Document(_) => HandlerCategory::Document,
            MessageView::Frontend(_) => HandlerCategory::Frontend,
            MessageView::Global(_) => HandlerCategory::Global,
            MessageView::InputPreprocessor(_) => HandlerCategory::InputPreprocessor,
            MessageView::NoOp => HandlerCategory::Nobody,
            MessageView::Tool(_) => HandlerCategory::Tool,
        }
    }
}

impl Message {
    /// The component that handles the message.
    pub fn category(&self) -> (category: HandlerCategory)
        ensures
            category == self@.category(),
    {
        match self {
            Message::Document(_) => HandlerCategory::Document,
            Message::Frontend(_) => HandlerCategory::Frontend,
            Message::Global(_) => HandlerCategory::Global,
            Message::InputPreprocessor(_) => HandlerCategory::InputPreprocessor,
            Message::NoOp => HandlerCategory::Nobody,
            Message::Tool(_) => HandlerCategory::Tool,
        }
    }
}

/// The views of the messages of a queue, front first.
pub open spec fn views(messages: Seq<Message>) -> Seq<MessageView> {
    messages.map_values(|m: Message| m@)
}

/// The views of a queue with one more message at its back.
pub proof fn lemma_views_push(messages: Seq<Message>, message: Message)
    ensures
        views(messages.push(message)) == views(messages).push(message@),
{
    assert(views(messages.push(message)) =~= views(messages).push(message@));
}

/// The views of a queue with one more message at its front.
pub proof fn lemma_views_push_front(messages: Seq<Message>, message: Message)
    ensures
        views(seq![message] + messages) == seq![message@] + views(messages),
{
    assert(views(seq![message] + messages) =~= seq![message@] + views(messages));
}

/// Puts the messages of `buffer` at the front of the queue, in their order.
pub fn push_front_all(responses: &mut VecDeque<Message>, buffer: Vec<Message>)
    ensures
        views(final(responses)@) == views(buffer@) + views(old(responses)@),
{
    let ghost before = views(responses@);
    let ghost all = views(buffer@);
    let mut buffer = buffer;
    while buffer.len() > 0
        invariant
            buffer@.len() <= all.len(),
            views(buffer@) == all.take(buffer@.len() as int),
            views(responses@) == all.skip(buffer@.len() as int) + before,
        decreases buffer.len(),
    {
        let ghost remaining = buffer@.len();
        let ghost rest = buffer@;
        let popped = buffer.pop();
        match popped {
            Some(message) => {
                proof {
                    lemma_views_push_front(responses@, message);
                    assert(views(rest)[remaining - 1] == message@);
                    assert(views(buffer@) =~= all.take(remaining - 1));
                    assert(seq![message@] + (all.skip(remaining as int) + before) =~= all.skip(
                        remaining - 1,
                    ) + before);
                }
                responses.push_front(message);
            },
            None => {},
        }
    }
    proof {
        assert(all.skip(0) =~= all);
    }
}

/// Puts the messages of `buffer` at the back of the queue, in their order.
pub fn push_back_all(responses: &mut VecDeque<Message>, buffer: Vec<Message>)
    ensures
        views(final(responses)@) == views(old(responses)@) + views(buffer@),
{
    let ghost before = views(responses@);
    let ghost all = views(buffer@);
    let mut reversed: Vec<Message> = Vec::new();
    let mut buffer = buffer;
    while buffer.len() > 0
        invariant
            buffer@.len() <= all.len(),
            views(buffer@) == all.take(buffer@.len() as int),
            reversed@.len() == all.len() - buffer@.len(),
            forall|i: int|
                0 <= i < reversed@.len() ==> (#[trigger] reversed@[i])@ == all[all.len() - 1 - i],
        decreases buffer.len(),
    {
        let ghost remaining = buffer@.len();
        let ghost rest = buffer@;
        let popped = buffer.pop();
        match popped {
            Some(message) => {
                proof {
                    assert(views(rest)[remaining - 1] == message@);
                    assert(views(buffer@) =~= all.take(remaining - 1));
                }
                reversed.push(message);
            },
            None => {},
        }
    }
    while reversed.len() > 0
        invariant
            reversed@.len() <= all.len(),
            forall|i: int|
                0 <= i < reversed@.len() ==> (#[trigger] reversed@[i])@ == all[all.len() - 1 - i],
            views(responses@) == before + all.take(all.len() - reversed@.len()),
        decreases reversed.len(),
    {
        let ghost remaining = reversed@.len();
        let ghost rest = reversed@;
        let popped = reversed.pop();
        match popped {
            Some(message) => {
                proof {
                    lemma_views_push(responses@, message);
                    assert(rest[remaining - 1] == message);
                    assert(message@ == all[all.len() - remaining]);
                    assert(all.take(all.len() - remaining + 1) =~= all.take(
                        all.len() - remaining,
                    ).push(message@));
                }
                responses.push_back(message);
            },
            None => {},
        }
    }
    proof {
        assert(all.take(all.len() as int) =~= all);
    }
}

/// The message that applies `operation` to the overlays.
pub open spec fn overlay_message(operation: OperationView) -> MessageView {
    MessageView::Document(
        DocumentMessageView::Overlays(OverlaysMessageView::DispatchOperation(operation)),
    )
}

/// The message that removes the overlay at `path`.
pub open spec fn delete_overlay_message(path: Seq<LayerId>) -> MessageView {
    overlay_message(OperationView::DeleteLayer { path })
}

/// The message that places the overlay at `path`.
pub open spec fn place_overlay_message(path: Seq<LayerId>, transform: BoxTransform) -> MessageView {
    overlay_message(OperationView::SetLayerTransformInViewport { path, transform })
}

/// Wraps an overlay operation into a message.
pub fn overlay(operation: Operation) -> (message: Message)
    ensures
        message@ == overlay_message(operation@),
{
    Message::Document(DocumentMessage::Overlays(OverlaysMessage::DispatchOperation(operation)))
}

/// The message that hands `message` to the tools.
pub open spec fn tool_message(message: ToolMessage) -> MessageView {
    MessageView::Tool(message)
}

} // verus!
