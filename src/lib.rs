//! A command-line client's core: model aliases, prompt preparation, settings
//! resolution, generator selection and the decisions taken while a response
//! streams in.

pub mod error;
pub mod generator;
pub mod model_alias;
pub mod prompt;
pub mod provider;
pub mod settings;
pub mod stream;
pub mod text;
pub mod version;
