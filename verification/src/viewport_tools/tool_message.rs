//! Messages addressed to the tools.

use vstd::prelude::*;
use crate::document::Color;
use crate::viewport_tools::tool::ToolType;
use crate::viewport_tools::tools::crop::CropMessage;
use crate::viewport_tools::tools::line::LineMessage;
use crate::viewport_tools::tools::path::PathMessage;

verus! {

/// Messages for the tools: those of each tool, and those every tool shares.
#[derive(Clone, Copy, Debug, PartialEq, Eq, Hash, Structural)]
pub enum ToolMessage {
    ActivateTool { tool_type: ToolType },
    Crop(CropMessage),
    DocumentIsDirty,
    Line(LineMessage),
    NoOp,
    Path(PathMessage),
    ResetColors,
    SelectPrimaryColor { color: Color },
    SelectSecondaryColor { color: Color },
    SelectionChanged,
    SwapColors,
    UpdateCursor,
    UpdateHints,
}

} // verus!
