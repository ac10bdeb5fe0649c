//! What the user interface shows and what it does when it is used.

pub mod buttons;
pub mod canvas;
pub mod import;
pub mod info;
pub mod maps;
pub mod tabs;
