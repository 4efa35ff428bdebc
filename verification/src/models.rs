//! The data model: shared pronunciation and audio shapes, the two
//! source-specific definition documents, the audio document, and the
//! composite definition record.

pub mod audio;
pub mod definition;
pub mod oxford;
pub mod shared;
pub mod vocabulary;
