//! What a page is made of.

pub mod content;
pub mod side_panel;
