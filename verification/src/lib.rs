//! A small text/markdown editor library: loading file contents as text,
//! keeping an ordered list of open tabs with a selected index, and turning
//! a tab's markdown into HTML for an optional preview.

pub mod editor;
pub mod markdown;
pub mod tab;
pub mod text;
