//! Marshaling and lifetime rules for a C-callable transcription client: the closed
//! error taxonomy and its status codes, owned boundary strings and lists with their
//! release operations, the checks on every call's arguments, the conversion of the
//! service's answers, and the phases of a live session.

pub mod decimal;
pub mod error;
pub mod kinds;
pub mod laws;
pub mod text;
pub mod transcribe_api;
pub mod transcribe_stream;
pub mod types_ffi;
pub mod utils;
