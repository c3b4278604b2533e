//! Script synthesis pipeline: parsing dialogue scripts into speaker-resolved
//! lines, driving one speech-synthesis request per line in order, and
//! splicing the per-line WAV files into one.

pub mod text;
pub mod ids;
pub mod character;
pub mod script;
pub mod script_parser;
pub mod orchestrator;
pub mod wav_concat;
pub mod settings;
pub mod audio_processing;
pub mod api;
