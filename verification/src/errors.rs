//! Error taxonomy of the ownership layer.
//!
//! Every condition here is local and recoverable: it is returned to the
//! immediate caller and never escalated to a panic.  A foreign null is
//! always surfaced as one of these values (or as `None`), never
//! dereferenced.

use vstd::prelude::*;

verus! {

/// Failure of a configuration operation.
#[derive(Clone, Copy, Debug, PartialEq, Eq, Structural)]
pub enum ConfigError {
    /// The key or the value holds an interior zero byte and cannot be
    /// represented in the engine's text encoding.
    Encoding,
}

/// Failure of a decode request.
#[derive(Clone, Copy, Debug, PartialEq, Eq, Structural)]
pub enum AnalysisError {
    /// The engine reported a non-positive decoded length: the bytes are not
    /// a valid encoding, or the buffer is too short.
    Decode,
}

/// Failure of a binary-file open request.
#[derive(Clone, Copy, Debug, PartialEq, Eq, Structural)]
pub enum OpenError {
    /// The path holds an interior zero byte and cannot be represented in
    /// the engine's text encoding.
    Encoding,
    /// The engine's open call returned null instead of a file handle.
    Null,
}

/// Failure when reading a decoded instruction record.
#[derive(Clone, Copy, Debug, PartialEq, Eq, Structural)]
pub enum DecodeError {
    /// The record's mnemonic pointer is null: the engine could not name the
    /// instruction.
    NullMnemonic,
}

/// Failure when building an abbreviation-table handle.
#[derive(Clone, Copy, Debug, PartialEq, Eq, Structural)]
pub enum AbbrevError {
    /// The foreign parser returned null instead of a table handle.
    Null,
}

} // verus!
