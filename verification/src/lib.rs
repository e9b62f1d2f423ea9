//! Evaluation and layout core of a document typesetter.

pub mod args;
pub mod content;
pub mod env;
pub mod eval;
pub mod ext;
pub mod font;
pub mod geom;
pub mod layout;
pub mod library;
pub mod style;
pub mod template;
pub mod value;
pub mod views;
