//! The faults that end a run.

use vstd::prelude::*;
use crate::globbing::GlobPatternError;
use crate::inputs::InputError;
use crate::resize_spec::ParseError;

verus! {

/// Why a run ended before its work was done.
#[derive(Debug, PartialEq, Eq)]
pub enum ResizeError {
    /// The inputs give nothing to work on.
    Input(InputError),
    /// An input is a glob pattern that is not well formed.
    Glob(GlobPatternError),
    /// The resize specification was rejected.
    Parse(ParseError),
    /// A source image could not be read or decoded; the text says why.
    Decode(String),
    /// A result could not be encoded or written; the text says why.
    Encode(String),
}

/// The words that name a fault, followed by the detail where there is one.
pub open spec fn message_spec(error: ResizeError) -> Seq<char> {
    match error {
        ResizeError::Input(InputError::NoInputs) => "no inputs"@,
        ResizeError::Input(InputError::NoImages) => "no valid images found"@,
        ResizeError::Glob(fault) => "invalid glob pattern: "@ + fault.reason@,
        ResizeError::Parse(ParseError::InvalidPercentage) => "invalid percentage"@,
        ResizeError::Parse(ParseError::BadFormat) => "bad format"@,
        ResizeError::Parse(ParseError::InvalidWidth) => "invalid width"@,
        ResizeError::Parse(ParseError::InvalidHeight) => "invalid height"@,
        ResizeError::Parse(ParseError::InvalidDimensions) => "invalid dimensions"@,
        ResizeError::Decode(cause) => "cannot decode image: "@ + cause@,
        ResizeError::Encode(cause) => "cannot encode image: "@ + cause@,
    }
}

impl ResizeError {
    /// What to tell the operator.
    pub fn message(&self) -> (r: String)
        ensures
            r@ == message_spec(*self),
    {
        match self {
            ResizeError::Input(e) => e.message(),
            ResizeError::Glob(e) => e.message(),
            ResizeError::Parse(e) => e.message(),
            ResizeError::Decode(cause) => {
                let mut text = String::from_str("cannot decode image: ");
                text.append(cause.as_str());
                text
            },
            ResizeError::Encode(cause) => {
                let mut text = String::from_str("cannot encode image: ");
                text.append(cause.as_str());
                text
            },
        }
    }
}

} // verus!
