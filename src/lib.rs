//! A page surface for a drawing notebook: the block layout that tiles a page
//! bitmap out of a spritesheet, the page entity with its selectable styles and
//! the geometry it hands to a renderer, and the text-input buffer.

pub mod style;
pub mod tiler;
pub mod page;
pub mod text_tool;
