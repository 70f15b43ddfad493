//! The map editor.
pub mod editor;
