//! Rendering of chat-message bodies into styled, optionally clickable
//! spans: nickname colors, formatted runs, inline code and gutter markers.

pub mod color;
pub mod theme;
pub mod render;
pub mod laws;
