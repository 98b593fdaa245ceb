//! Clipboard history core: change detection, the ingestion filters,
//! self-copy suppression, retention and the media store's naming rules.

pub mod clipboard;
pub mod engine;
pub mod error;
pub mod hash;
pub mod media;
pub mod model;
pub mod retention;
pub mod text;
pub mod window;
