//! A verified decoding core for FLAC audio streams.
//!
//! The crate recognises stream markers, metadata headers and compressed audio
//! frames inside a sequence of byte buffers, extracts the stream parameters
//! from the STREAMINFO metadata block, resolves a negotiated output format,
//! decodes audio frames through the claxon FLAC codec, and re-packs the
//! decoded samples into interleaved little-endian containers of the
//! negotiated width.

pub mod classify;
pub mod decode;
pub mod errors;
pub mod format;
pub mod layout;
pub mod repack;
pub mod state;
pub mod streaminfo;
