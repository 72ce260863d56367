//! Instrument protocols, codecs and validation rules for a process data-acquisition tool.

pub mod binary64;
pub mod bytes;
pub mod instrument;
pub mod presentation;
pub mod process_control;
pub mod process_recorder;
pub mod protocol;
pub mod sample_sink;
pub mod serial_connection;
pub mod text;
