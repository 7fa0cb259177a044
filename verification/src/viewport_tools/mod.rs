//! The editing tools and what they share.

pub mod shape_manipulation;
pub mod snapping;
pub mod tool;
pub mod tool_message;
pub mod tool_message_handler;
pub mod tools;
