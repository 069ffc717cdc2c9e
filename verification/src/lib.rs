//! Decisions of a batch image resizer.
//!
//! The library decides which paths are images, how the inputs of a run
//! expand into image files, what a resize specification asks for, when an
//! existing file may be overwritten, where each result goes and how a run
//! proceeds from file to file. Reading directories, decoding and encoding
//! images and talking to the operator are left to the caller, who hands
//! over what it found as plain values.
//!
//! Three outside interfaces are called and taken on trust: the standard
//! library's reading of paths ([`paths`]), the `glob` crate's reading of
//! patterns ([`globbing`]) and the `image` crate's resampling
//! ([`resample`]).

pub mod error;
pub mod gate;
pub mod globbing;
pub mod inputs;
pub mod matcher;
pub mod paths;
pub mod pipeline;
pub mod resample;
pub mod resize_spec;
pub mod text;
