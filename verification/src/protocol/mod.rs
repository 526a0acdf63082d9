//! Protocol building blocks.
pub mod buf;
