//! The functions that markup can call.

pub mod font;
pub mod image;
