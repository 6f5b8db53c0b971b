//! Error codes and error values of the plugin calling convention.

use vstd::prelude::*;

verus! {

/// Numeric code that signals success across the boundary.
pub const ERR_OK: u32 = 0;
pub const ERR_STATE_UNRECOVERABLE: u32 = 1;
pub const ERR_STATE_CORRUPTED: u32 = 2;
pub const ERR_OUT_OF_MEMORY: u32 = 3;
pub const ERR_FEATURE_UNSUPPORTED: u32 = 4;
pub const ERR_MISSING_HIDDEN_STATE: u32 = 5;
pub const ERR_INVALID_INPUT: u32 = 6;
pub const ERR_INVALID_PLAYER: u32 = 7;
pub const ERR_INVALID_MOVE: u32 = 8;
pub const ERR_INVALID_OPTIONS: u32 = 9;
pub const ERR_INVALID_LEGACY: u32 = 10;
pub const ERR_CUSTOM_ANY: u32 = 11;

/// Kinds of recoverable failure.
#[derive(Clone, Copy, Debug, PartialEq, Eq, Structural)]
pub enum ErrorCode {
    StateUnrecoverable,
    StateCorrupted,
    OutOfMemory,
    FeatureUnsupported,
    MissingHiddenState,
    InvalidInput,
    InvalidPlayer,
    InvalidMove,
    InvalidOptions,
    InvalidLegacy,
    CustomAny,
}

pub open spec fn spec_code_value(c: ErrorCode) -> u32 {
    match c {
        ErrorCode::StateUnrecoverable => ERR_STATE_UNRECOVERABLE,
        ErrorCode::StateCorrupted => ERR_STATE_CORRUPTED,
        ErrorCode::OutOfMemory => ERR_OUT_OF_MEMORY,
        ErrorCode::FeatureUnsupported => ERR_FEATURE_UNSUPPORTED,
        ErrorCode::MissingHiddenState => ERR_MISSING_HIDDEN_STATE,
        ErrorCode::InvalidInput => ERR_INVALID_INPUT,
        ErrorCode::InvalidPlayer => ERR_INVALID_PLAYER,
        ErrorCode::InvalidMove => ERR_INVALID_MOVE,
        ErrorCode::InvalidOptions => ERR_INVALID_OPTIONS,
        ErrorCode::InvalidLegacy => ERR_INVALID_LEGACY,
        ErrorCode::CustomAny => ERR_CUSTOM_ANY,
    }
}

impl ErrorCode {
    /// The numeric code handed to the host; never `ERR_OK`.
    pub fn value(self) -> (r: u32)
        ensures
            r == spec_code_value(self),
            r != ERR_OK,
    {
        match self {
            ErrorCode::StateUnrecoverable => ERR_STATE_UNRECOVERABLE,
            ErrorCode::StateCorrupted => ERR_STATE_CORRUPTED,
            ErrorCode::OutOfMemory => ERR_OUT_OF_MEMORY,
            ErrorCode::FeatureUnsupported => ERR_FEATURE_UNSUPPORTED,
            ErrorCode::MissingHiddenState => ERR_MISSING_HIDDEN_STATE,
            ErrorCode::InvalidInput => ERR_INVALID_INPUT,
            ErrorCode::InvalidPlayer => ERR_INVALID_PLAYER,
            ErrorCode::InvalidMove => ERR_INVALID_MOVE,
            ErrorCode::InvalidOptions => ERR_INVALID_OPTIONS,
            ErrorCode::InvalidLegacy => ERR_INVALID_LEGACY,
            ErrorCode::CustomAny => ERR_CUSTOM_ANY,
        }
    }
}

/// The numeric code of an outcome: `ERR_OK` for success, else the error's.
pub fn result_code(res: Result<(), ErrorCode>) -> (r: u32)
    ensures
        res is Ok ==> r == ERR_OK,
        res matches Err(c) ==> r == spec_code_value(c),
        (r == ERR_OK) <==> res is Ok,
{
    match res {
        Ok(()) => ERR_OK,
        Err(c) => c.value(),
    }
}

/// A failure: its kind and a human-readable, non-empty message.
pub struct Error {
    pub code: ErrorCode,
    pub message: String,
}

impl Error {
    /// A failure is well formed when its message is not empty.
    pub open spec fn wf(&self) -> bool {
        self.message@.len() > 0
    }

    /// A failure of kind `code`; an empty message is replaced by a generic
    /// one, so that the host always has something to show.
    pub fn new(code: ErrorCode, message: &str) -> (r: Error)
        ensures
            r.code == code,
            message@.len() > 0 ==> r.message@ == message@,
            r.wf(),
    {
        if message.is_empty() {
            proof {
                reveal_strlit("unspecified error");
            }
            Error { code, message: "unspecified error".to_owned() }
        } else {
            Error { code, message: message.to_owned() }
        }
    }

    /// A failure of kind `code` with an owned message, replaced by a generic
    /// one where it is empty.
    pub fn from_string(code: ErrorCode, message: String) -> (r: Error)
        ensures
            r.code == code,
            message@.len() > 0 ==> r.message@ == message@,
            r.wf(),
    {
        if message.as_str().is_empty() {
            Error::new(code, "")
        } else {
            Error { code, message }
        }
    }
}

} // verus!
