//! Error taxonomy of a compression request. Only a failed encoder process
//! is recovered locally (by swapping encoders); everything else surfaces to
//! the caller with enough context to display.

use vstd::prelude::*;

use crate::text::{append_decimal, spec_decimal};

verus! {

/// Why a compression request failed.
#[derive(Debug, Clone)]
pub enum CompressionError {
    /// The input file was not found; fatal, never retried.
    InputNotFound { path: String },
    /// The metadata probe failed on the input; fatal, never retried.
    MetadataProbeFailed { message: String },
    /// One encoder attempt failed; retryable through the fallback chain.
    EncoderProcessFailed { message: String },
    /// The encoder exited cleanly but the output is missing or empty;
    /// treated like a process failure.
    OutputValidationFailed { message: String },
    /// No unused output name was found after exhausting every suffix.
    UniqueNameExhausted,
    /// The attempt cap was reached; carries the count and the last error.
    ExhaustedAttempts { attempts: u32, last_error: String },
}

/// The rendered text of each error.
pub open spec fn spec_error_message(e: CompressionError) -> Seq<char> {
    match e {
        CompressionError::InputNotFound { path } => "Input file does not exist: "@ + path@,
        CompressionError::MetadataProbeFailed { message } => "Failed to probe video metadata: "@
            + message@,
        CompressionError::EncoderProcessFailed { message } => "Encoder process failed: "@
            + message@,
        CompressionError::OutputValidationFailed { message } => "Output validation failed: "@
            + message@,
        CompressionError::UniqueNameExhausted => "Could not generate unique output filename"@,
        CompressionError::ExhaustedAttempts { attempts, last_error } => "Compression failed after "@
            + spec_decimal(attempts as int) + " attempts. Last error: "@ + last_error@,
    }
}

impl CompressionError {
    /// The user-facing message for this error.
    pub fn message(&self) -> (r: String)
        ensures
            r@ == spec_error_message(*self),
    {
        match self {
            CompressionError::InputNotFound { path } => {
                let mut s = String::from_str("Input file does not exist: ");
                s.append(path.as_str());
                s
            },
            CompressionError::MetadataProbeFailed { message } => {
                let mut s = String::from_str("Failed to probe video metadata: ");
                s.append(message.as_str());
                s
            },
            CompressionError::EncoderProcessFailed { message } => {
                let mut s = String::from_str("Encoder process failed: ");
                s.append(message.as_str());
                s
            },
            CompressionError::OutputValidationFailed { message } => {
                let mut s = String::from_str("Output validation failed: ");
                s.append(message.as_str());
                s
            },
            CompressionError::UniqueNameExhausted => {
                String::from_str("Could not generate unique output filename")
            },
            CompressionError::ExhaustedAttempts { attempts, last_error } => {
                let mut s = String::from_str("Compression failed after ");
                append_decimal(&mut s, *attempts as u64);
                s.append(" attempts. Last error: ");
                s.append(last_error.as_str());
                proof {
                    assert(s@ =~= spec_error_message(*self));
                }
                s
            },
        }
    }

    /// Whether the orchestrator may retry with another encoder after this
    /// error.
    pub fn is_retryable(&self) -> (r: bool)
        ensures
            r == (self matches CompressionError::EncoderProcessFailed { .. } || self
                matches CompressionError::OutputValidationFailed { .. }),
    {
        match self {
            CompressionError::EncoderProcessFailed { .. } => true,
            CompressionError::OutputValidationFailed { .. } => true,
            _ => false,
        }
    }
}

} // verus!
