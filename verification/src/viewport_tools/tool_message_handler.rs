//! The owner of the tools: it knows which tool is active and hands each tool
//! message to the tool it is for.

use std::collections::VecDeque;
use vstd::prelude::*;
use crate::communication::message::{lemma_views_push, views, Message, MessageView};
use crate::communication::UuidGenerator;
use crate::document::{Color, DocumentMessageHandler, DocumentMessageHandlerView, DocumentToolData};
use crate::frontend::{FrontendMessage, FrontendMessageView};
use crate::input::InputPreprocessorMessageHandler;
use crate::viewport_tools::tool::{no_step, ToolOutcome, ToolType};
use crate::viewport_tools::tool_message::ToolMessage;
use crate::viewport_tools::tools::crop::{Crop, CropMessage, CropToolFsmState, CropView};
use crate::viewport_tools::tools::line::{Line, LineMessage, LineToolFsmState, LineView};
use crate::viewport_tools::tools::path::{Path, PathMessage, PathToolFsmState, PathView};

verus! {

/// The tools, the active one among them, and the colours they draw with.
pub struct ToolMessageHandler {
    pub active_tool_type: ToolType,
    pub crop: Crop,
    pub line: Line,
    pub path: Path,
    pub document_tool_data: DocumentToolData,
}

/// The tools, each seen through its view.
pub struct ToolMessageHandlerView {
    pub active_tool_type: ToolType,
    pub crop: CropView,
    pub line: LineView,
    pub path: PathView,
    pub document_tool_data: DocumentToolData,
}

impl View for ToolMessageHandler {
    type V = ToolMessageHandlerView;

    open spec fn view(&self) -> ToolMessageHandlerView {
        ToolMessageHandlerView {
            active_tool_type: self.active_tool_type,
            crop: self.crop@,
            line: self.line@,
            path: self.path@,
            document_tool_data: self.document_tool_data,
        }
    }
}

/// What handling one tool message does to the tools and to the queue.
pub type ToolsOutcome = ToolOutcome<ToolType, ToolMessageHandlerView>;

/// The message that aborts `tool`.
pub open spec fn abort_message(tool: ToolType) -> ToolMessage {
    match tool {
        ToolType::Crop => ToolMessage::Crop(CropMessage::Abort),
        ToolType::Line => ToolMessage::Line(LineMessage::Abort),
        ToolType::Path => ToolMessage::Path(PathMessage::Abort),
    }
}

/// The tool a tool-specific message is for.
pub open spec fn addressee(message: ToolMessage) -> Option<ToolType> {
    match message {
        ToolMessage::Crop(_) => Some(ToolType::Crop),
        ToolMessage::Line(_) => Some(ToolType::Line),
        ToolMessage::Path(_) => Some(ToolType::Path),
        _ => None,
    }
}

/// The message that tells the frontend which tool is active.
pub open spec fn active_tool_message(tool_type: ToolType) -> MessageView {
    MessageView::Frontend(FrontendMessageView::UpdateActiveTool { tool_type })
}

impl ToolMessageHandlerView {
    /// The tools at rest, the given one active, drawing black on white.
    pub open spec fn at_rest(active_tool_type: ToolType) -> ToolMessageHandlerView {
        ToolMessageHandlerView {
            active_tool_type,
            crop: CropView::at_rest(),
            line: LineView::at_rest(),
            path: PathView::at_rest(),
            document_tool_data: DocumentToolData {
                primary_color: Color::black(),
                secondary_color: Color::white(),
            },
        }
    }

    /// The data of every tool fits its state.
    pub open spec fn wf(self) -> bool {
        self.crop.wf() && self.line.wf() && self.path.wf()
    }

    /// Nothing happens.
    pub open spec fn unchanged(self, ids: UuidGenerator) -> ToolsOutcome {
        no_step(self.active_tool_type, self, ids)
    }

    /// `message` is handed to `tool`.
    pub open spec fn deliver(
        self,
        tool: ToolType,
        message: ToolMessage,
        document: DocumentMessageHandlerView,
        input: InputPreprocessorMessageHandler,
        ids: UuidGenerator,
    ) -> ToolsOutcome {
        match tool {
            ToolType::Crop => {
                let outcome = self.crop.process(
                    message,
                    document,
                    self.document_tool_data,
                    input,
                    ids,
                );
                ToolOutcome {
                    state: self.active_tool_type,
                    data: ToolMessageHandlerView {
                        crop: CropView { fsm_state: outcome.state, data: outcome.data },
                        ..self
                    },
                    front: outcome.front,
                    back: outcome.back,
                    ids: outcome.ids,
                }
            },
            ToolType::Line => {
                let outcome = self.line.process(
                    message,
                    document,
                    self.document_tool_data,
                    input,
                    ids,
                );
                ToolOutcome {
                    state: self.active_tool_type,
                    data: ToolMessageHandlerView {
                        line: LineView {
                            fsm_state: outcome.state,
                            data: outcome.data,
                            options: self.line.options_after(message),
                        },
                        ..self
                    },
                    front: outcome.front,
                    back: outcome.back,
                    ids: outcome.ids,
                }
            },
            ToolType::Path => {
                let outcome = self.path.process(
                    message,
                    document,
                    self.document_tool_data,
                    input,
                    ids,
                );
                ToolOutcome {
                    state: self.active_tool_type,
                    data: ToolMessageHandlerView {
                        path: PathView { fsm_state: outcome.state, data: outcome.data },
                        ..self
                    },
                    front: outcome.front,
                    back: outcome.back,
                    ids: outcome.ids,
                }
            },
        }
    }

    /// Another tool becomes active: the active tool is aborted, the new one
    /// shows its hints and its cursor, and the frontend learns of the switch.
    /// Activating the active tool does nothing.
    pub open spec fn activate(
        self,
        tool_type: ToolType,
        document: DocumentMessageHandlerView,
        input: InputPreprocessorMessageHandler,
        ids: UuidGenerator,
    ) -> ToolsOutcome {
        if tool_type == self.active_tool_type {
            self.unchanged(ids)
        } else {
            let aborted = self.deliver(
                self.active_tool_type,
                abort_message(self.active_tool_type),
                document,
                input,
                ids,
            );
            let hinted = aborted.data.deliver(
                tool_type,
                ToolMessage::UpdateHints,
                document,
                input,
                aborted.ids,
            );
            let pointed = hinted.data.deliver(
                tool_type,
                ToolMessage::UpdateCursor,
                document,
                input,
                hinted.ids,
            );
            let all = aborted.and_then(hinted).and_then(pointed);
            ToolOutcome {
                state: tool_type,
                data: ToolMessageHandlerView { active_tool_type: tool_type, ..all.data },
                front: all.front,
                back: all.back + seq![active_tool_message(tool_type)],
                ids: all.ids,
            }
        }
    }

    /// The tools with the given colours.
    pub open spec fn with_colors(
        self,
        primary_color: Color,
        secondary_color: Color,
    ) -> ToolMessageHandlerView {
        ToolMessageHandlerView {
            document_tool_data: DocumentToolData { primary_color, secondary_color },
            ..self
        }
    }

    /// The message that tells the active tool that the document changed, for
    /// a tool that listens to it.
    pub open spec fn dirty_message(self) -> Option<ToolMessage> {
        match self.active_tool_type {
            ToolType::Crop => Some(ToolMessage::Crop(CropMessage::DocumentIsDirty)),
            ToolType::Line => None,
            ToolType::Path => Some(ToolMessage::Path(PathMessage::DocumentIsDirty)),
        }
    }

    /// The message that tells the active tool that the selection changed, for
    /// a tool that listens to it.
    pub open spec fn selection_message(self) -> Option<ToolMessage> {
        match self.active_tool_type {
            ToolType::Path => Some(ToolMessage::Path(PathMessage::SelectionChanged)),
            _ => None,
        }
    }

    /// What `message` does. A tool's own messages reach it only while it is
    /// active; requests for hints and cursor, and the news that the document
    /// or the selection changed, go to the active tool; colour messages set
    /// the colours.
    pub open spec fn process(
        self,
        message: ToolMessage,
        document: DocumentMessageHandlerView,
        input: InputPreprocessorMessageHandler,
        ids: UuidGenerator,
    ) -> ToolsOutcome {
        let colors = self.document_tool_data;
        match message {
            ToolMessage::ActivateTool { tool_type } => self.activate(tool_type, document, input, ids),
            ToolMessage::NoOp => self.unchanged(ids),
            ToolMessage::ResetColors => self.with_colors(Color::black(), Color::white()).unchanged(ids),
            ToolMessage::SelectPrimaryColor { color } => self.with_colors(
                color,
                colors.secondary_color,
            ).unchanged(ids),
            ToolMessage::SelectSecondaryColor { color } => self.with_colors(
                colors.primary_color,
                color,
            ).unchanged(ids),
            ToolMessage::SwapColors => self.with_colors(
                colors.secondary_color,
                colors.primary_color,
            ).unchanged(ids),
            ToolMessage::DocumentIsDirty => match self.dirty_message() {
                Some(message) => self.deliver(self.active_tool_type, message, document, input, ids),
                None => self.unchanged(ids),
            },
            ToolMessage::SelectionChanged => match self.selection_message() {
                Some(message) => self.deliver(self.active_tool_type, message, document, input, ids),
                None => self.unchanged(ids),
            },
            ToolMessage::UpdateCursor => self.deliver(
                self.active_tool_type,
                message,
                document,
                input,
                ids,
            ),
            ToolMessage::UpdateHints => self.deliver(
                self.active_tool_type,
                message,
                document,
                input,
                ids,
            ),
            _ => if addressee(message) == Some(self.active_tool_type) {
                self.deliver(self.active_tool_type, message, document, input, ids)
            } else {
                self.unchanged(ids)
            },
        }
    }
}

/// A message for a tool that is not active changes nothing and emits nothing.
pub proof fn lemma_inactive_tool_ignores(
    tools: ToolMessageHandlerView,
    message: ToolMessage,
    document: DocumentMessageHandlerView,
    input: InputPreprocessorMessageHandler,
    ids: UuidGenerator,
)
    requires
        addressee(message) matches Some(tool) && tool != tools.active_tool_type,
    ensures
        tools.process(message, document, input, ids) == no_step(tools.active_tool_type, tools, ids),
{
}

impl ToolMessageHandler {
    /// The tools at rest, the given one active, drawing black on white.
    pub fn new(active_tool_type: ToolType) -> (tools: ToolMessageHandler)
        ensures
            tools@.active_tool_type == active_tool_type,
            tools@.document_tool_data == (DocumentToolData {
                primary_color: Color::black(),
                secondary_color: Color::white(),
            }),
            tools@.crop.fsm_state == CropToolFsmState::Ready,
            tools@.crop.data.bounding_box_overlays is None,
            tools@.crop.data.selected_board is None,
            tools@.line.fsm_state == LineToolFsmState::Ready,
            tools@.line.options.line_weight == 5,
            tools@.path.fsm_state == PathToolFsmState::Ready,
            tools@.path.data.manipulation_handler.selected_shapes.len() == 0,
            tools@ == ToolMessageHandlerView::at_rest(active_tool_type),
            tools@.wf(),
    {
        ToolMessageHandler {
            active_tool_type,
            crop: Crop::new(),
            line: Line::new(),
            path: Path::new(),
            document_tool_data: DocumentToolData {
                primary_color: Color::black(),
                secondary_color: Color::white(),
            },
        }
    }

    /// Hands `message` to `tool`.
    pub fn deliver(
        &mut self,
        tool: ToolType,
        message: ToolMessage,
        document: &DocumentMessageHandler,
        input: &InputPreprocessorMessageHandler,
        responses: &mut VecDeque<Message>,
        ids: &mut UuidGenerator,
    )
        requires
            old(self)@.wf(),
            document.wf(),
            input.mouse.position.in_canvas(),
        ensures
            old(self)@.deliver(tool, message, document@, *input, *old(ids)).reached(
                final(self)@.active_tool_type,
                final(self)@,
                views(old(responses)@),
                views(final(responses)@),
                *final(ids),
            ),
            final(self)@.wf(),
    {
        match tool {
            ToolType::Crop => {
                self.crop.process_action(
                    message,
                    document,
                    &self.document_tool_data,
                    input,
                    responses,
                    ids,
                );
            },
            ToolType::Line => {
                self.line.process_action(
                    message,
                    document,
                    &self.document_tool_data,
                    input,
                    responses,
                    ids,
                );
            },
            ToolType::Path => {
                self.path.process_action(
                    message,
                    document,
                    &self.document_tool_data,
                    input,
                    responses,
                    ids,
                );
            },
        }
    }

    /// Handles one tool message.
    pub fn process_action(
        &mut self,
        message: ToolMessage,
        document: &DocumentMessageHandler,
        input: &InputPreprocessorMessageHandler,
        responses: &mut VecDeque<Message>,
        ids: &mut UuidGenerator,
    )
        requires
            old(self)@.wf(),
            document.wf(),
            input.mouse.position.in_canvas(),
        ensures
            old(self)@.process(message, document@, *input, *old(ids)).reached(
                final(self)@.active_tool_type,
                final(self)@,
                views(old(responses)@),
                views(final(responses)@),
                *final(ids),
            ),
            final(self)@.wf(),
    {
        let ghost before = views(responses@);
        let ghost start = self@;
        let ghost first = *ids;
        proof {
            assert(Seq::<MessageView>::empty() + before + Seq::<MessageView>::empty() =~= before);
        }
        let active = self.active_tool_type;
        match message {
            ToolMessage::ActivateTool { tool_type } => {
                if tool_type != active {
                    let abort = match active {
                        ToolType::Crop => ToolMessage::Crop(CropMessage::Abort),
                        ToolType::Line => ToolMessage::Line(LineMessage::Abort),
                        ToolType::Path => ToolMessage::Path(PathMessage::Abort),
                    };
                    self.deliver(active, abort, document, input, responses, ids);
                    self.deliver(tool_type, ToolMessage::UpdateHints, document, input, responses, ids);
                    self.deliver(tool_type, ToolMessage::UpdateCursor, document, input, responses, ids);
                    self.active_tool_type = tool_type;
                    let notice = Message::Frontend(FrontendMessage::UpdateActiveTool { tool_type });
                    proof {
                        lemma_views_push(responses@, notice);
                    }
                    responses.push_back(notice);
                    proof {
                        let outcome = start.process(message, document@, *input, first);
                        assert(views(responses@) =~= outcome.front + before + outcome.back);
                    }
                }
            },
            ToolMessage::NoOp => {},
            ToolMessage::ResetColors => {
                self.document_tool_data.primary_color = Color::black();
                self.document_tool_data.secondary_color = Color::white();
            },
            ToolMessage::SelectPrimaryColor { color } => {
                self.document_tool_data.primary_color = color;
            },
            ToolMessage::SelectSecondaryColor { color } => {
                self.document_tool_data.secondary_color = color;
            },
            ToolMessage::SwapColors => {
                let primary = self.document_tool_data.primary_color;
                self.document_tool_data.primary_color = self.document_tool_data.secondary_color;
                self.document_tool_data.secondary_color = primary;
            },
            ToolMessage::DocumentIsDirty => {
                match active {
                    ToolType::Crop => self.deliver(
                        active,
                        ToolMessage::Crop(CropMessage::DocumentIsDirty),
                        document,
                        input,
                        responses,
                        ids,
                    ),
                    ToolType::Line => {},
                    ToolType::Path => self.deliver(
                        active,
                        ToolMessage::Path(PathMessage::DocumentIsDirty),
                        document,
                        input,
                        responses,
                        ids,
                    ),
                }
            },
            ToolMessage::SelectionChanged => {
                match active {
                    ToolType::Path => self.deliver(
                        active,
                        ToolMessage::Path(PathMessage::SelectionChanged),
                        document,
                        input,
                        responses,
                        ids,
                    ),
                    _ => {},
                }
            },
            ToolMessage::UpdateCursor => {
                self.deliver(active, message, document, input, responses, ids);
            },
            ToolMessage::UpdateHints => {
                self.deliver(active, message, document, input, responses, ids);
            },
            ToolMessage::Crop(_) => {
                match active {
                    ToolType::Crop => self.deliver(active, message, document, input, responses, ids),
                    _ => {},
                }
            },
            ToolMessage::Line(_) => {
                match active {
                    ToolType::Line => self.deliver(active, message, document, input, responses, ids),
                    _ => {},
                }
            },
            ToolMessage::Path(_) => {
                match active {
                    ToolType::Path => self.deliver(active, message, document, input, responses, ids),
                    _ => {},
                }
            },
        }
    }
}

} // verus!
