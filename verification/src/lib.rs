//! Safe ownership layer over an externally-managed analysis engine.
//!
//! The engine itself (instruction decoding, configuration storage, binary
//! loading) is an opaque collaborator reached through a narrow set of calls;
//! this crate's concern is that every handle to engine-owned memory is
//! acquired, exposed and released correctly exactly once.  Each wrapper type
//! owns exactly one underlying resource, surfaces foreign nulls as errors or
//! `None` (never as undefined behaviour), and transfers ownership only by
//! consuming the source value.

pub mod cursor;
pub mod engine;
pub mod errors;
pub mod list;
pub mod strbuf;
pub mod util;
pub mod vector;

pub use cursor::RzIterator;
pub use engine::{AnalysisOp, AnalysisOpMask, BinFile, Core, DwarfAbbrev};
pub use errors::{AbbrevError, AnalysisError, ConfigError, DecodeError, OpenError};
pub use list::{List, ListIter};
pub use strbuf::StrBuf;
pub use vector::{PVector, Vector};
