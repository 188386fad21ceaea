//! Editing, input and layout decisions of a rich text editor and viewer,
//! stated over plain values and proved with Verus.
pub mod input;
pub mod tables;
pub mod editing;
pub mod events;
pub mod commands;
pub mod fonts;
pub mod render;
pub mod settings;
pub mod document;
pub mod session;
