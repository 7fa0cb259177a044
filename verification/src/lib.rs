//! Reactive core of a vector-graphics editor: message dispatch, tool state
//! machines, bounding-box interaction geometry and snapping.
//!
//! Canvas coordinates are whole units held in `i64`; every position the
//! library computes with lies within `consts::COORDINATE_LIMIT` of the origin.

pub mod communication;
pub mod consts;
pub mod document;
pub mod frontend;
pub mod geometry;
pub mod global;
pub mod input;
pub mod misc;
pub mod viewport_tools;

use vstd::prelude::*;
use crate::communication::dispatcher::{
    frontend_views, Dispatcher, DispatcherView, DocumentBackend, NoDocument,
};
use crate::communication::message::Message;
use crate::consts::DISPATCH_ITERATION_LIMIT;
use crate::frontend::{FrontendMessage, FrontendMessageView};
use crate::geometry::Point;
use crate::global::LogLevel;
use crate::input::Key;
use crate::misc::EditorError;
use crate::viewport_tools::tool::ToolType;
use crate::viewport_tools::tool_message_handler::ToolMessageHandlerView;

verus! {

/// An editor: the one entry point for messages, and what comes back for the
/// frontend.
pub struct Editor<D: DocumentBackend> {
    pub dispatcher: Dispatcher<D>,
}

impl Default for Editor<NoDocument> {
    /// An editor with no document open, whose layer identifiers start at 0.
    fn default() -> (editor: Self)
        ensures
            editor.wf(),
            editor.dispatcher.message_queue@.len() == 0,
            editor.dispatcher.ids.next == 0,
            editor.dispatcher.tools@ == ToolMessageHandlerView::at_rest(ToolType::Crop),
            editor.dispatcher.iteration_limit == DISPATCH_ITERATION_LIMIT,
            editor.dispatcher.global.log_level == LogLevel::Info,
            editor.dispatcher.input.mouse.position == (Point { x: 0, y: 0 }),
            editor.dispatcher.input.viewport_size == (Point { x: 0, y: 0 }),
            forall|key: Key| !editor.dispatcher.input.keyboard.is_down(key),
    {
        Editor::new(NoDocument, 0)
    }
}

impl<D: DocumentBackend> Editor<D> {
    /// The dispatcher holds nothing for the frontend, and the data of every
    /// tool fits its state.
    pub open spec fn wf(self) -> bool {
        &&& self.dispatcher.wf()
        &&& self.dispatcher.responses@.len() == 0
    }

    /// Construct a new editor instance on `document`, with layer identifiers
    /// that start at `seed`.
    pub fn new(document: D, seed: u64) -> (editor: Self)
        ensures
            editor.wf(),
            editor.dispatcher.message_queue@.len() == 0,
            editor.dispatcher.document == document,
            editor.dispatcher.ids.next == seed,
            editor.dispatcher.tools@ == ToolMessageHandlerView::at_rest(ToolType::Crop),
            editor.dispatcher.iteration_limit == DISPATCH_ITERATION_LIMIT,
            editor.dispatcher.global.log_level == LogLevel::Info,
            editor.dispatcher.input.mouse.position == (Point { x: 0, y: 0 }),
            editor.dispatcher.input.viewport_size == (Point { x: 0, y: 0 }),
            forall|key: Key| !editor.dispatcher.input.keyboard.is_down(key),
    {
        Editor { dispatcher: Dispatcher::new(document, seed) }
    }

    /// Handles `message` and all that follows from it, as the dispatcher's
    /// `handle` says, and returns the instructions for the frontend in the
    /// order in which they were emitted: those that were pending, then those
    /// of this run. The dispatcher keeps none of them. A run that is stopped
    /// returns the error that stopped it, and its instructions are dropped.
    pub fn handle_message(&mut self, message: Message) -> (result: Result<
        Vec<FrontendMessage>,
        EditorError,
    >)
        requires
            old(self).dispatcher.wf(),
        ensures
            final(self).wf(),
            ({
                let handled = old(self).dispatcher@.handle(message@);
                &&& final(self).dispatcher@ == (DispatcherView {
                    responses: Seq::<FrontendMessageView>::empty(),
                    ..handled.state
                })
                &&& match result {
                    Ok(responses) => handled.result is Ok && frontend_views(responses@)
                        == handled.state.responses,
                    Err(error) => handled.result == Err::<(), EditorError>(error),
                }
            }),
            final(self).dispatcher.message_queue@.len() == 0,
            old(self).dispatcher.iteration_limit == 0 ==> result == Err::<
                Vec<FrontendMessage>,
                EditorError,
            >(EditorError::DispatchLimit),
    {
        let handled = self.dispatcher.handle_message(message);
        let mut responses: Vec<FrontendMessage> = Vec::new();
        std::mem::swap(&mut responses, &mut self.dispatcher.responses);
        proof {
            assert(frontend_views(self.dispatcher.responses@) =~= Seq::<FrontendMessageView>::empty());
        }
        match handled {
            Ok(()) => Ok(responses),
            Err(error) => Err(error),
        }
    }
}

} // verus!
