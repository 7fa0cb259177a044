//! Instructions for the rendering frontend.

use vstd::prelude::*;
use crate::communication::message::MessageView;
use crate::misc::{HintData, HintInfoView};
use crate::viewport_tools::tool::ToolType;

verus! {

/// The cursor icons the frontend can show.
#[derive(Clone, Copy, Debug, PartialEq, Eq, Hash, Structural)]
pub enum MouseCursorIcon {
    Default,
    ZoomIn,
    ZoomOut,
    Grabbing,
    Crosshair,
    Text,
    NSResize,
    EWResize,
    NESWResize,
    NWSEResize,
}

impl Default for MouseCursorIcon {
    fn default() -> (icon: MouseCursorIcon)
        ensures
            icon == MouseCursorIcon::Default,
    {
        MouseCursorIcon::Default
    }
}

/// Instructions for the frontend, applied in the order in which they were
/// emitted.
#[derive(Clone, Debug, PartialEq, Eq)]
pub enum FrontendMessage {
    UpdateActiveTool { tool_type: ToolType },
    UpdateInputHints { hint_data: HintData },
    UpdateMouseCursor { cursor: MouseCursorIcon },
}

/// A frontend instruction with its hints as sequences.
pub enum FrontendMessageView {
    UpdateActiveTool { tool_type: ToolType },
    UpdateInputHints { hint_data: Seq<Seq<HintInfoView>> },
    UpdateMouseCursor { cursor: MouseCursorIcon },
}

impl View for FrontendMessage {
    type V = FrontendMessageView;

    open spec fn view(&self) -> FrontendMessageView {
        match *self {
            FrontendMessage::UpdateActiveTool { tool_type } => FrontendMessageView::UpdateActiveTool {
                tool_type,
            },
            FrontendMessage::UpdateInputHints { hint_data } => FrontendMessageView::UpdateInputHints {
                hint_data: hint_data@,
            },
            FrontendMessage::UpdateMouseCursor { cursor } => FrontendMessageView::UpdateMouseCursor {
                cursor,
            },
        }
    }
}

/// The message that sets the cursor icon.
pub open spec fn cursor_message(cursor: MouseCursorIcon) -> MessageView {
    MessageView::Frontend(FrontendMessageView::UpdateMouseCursor { cursor })
}

/// The message that shows the given input hints.
pub open spec fn hint_message(hint_data: Seq<Seq<HintInfoView>>) -> MessageView {
    MessageView::Frontend(FrontendMessageView::UpdateInputHints { hint_data })
}

} // verus!
