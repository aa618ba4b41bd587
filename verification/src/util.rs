//! The wrapper types under their engine-side names.
//!
//! The ownership layer grew up alongside the engine's own naming; these
//! re-exports keep the `Rz`-prefixed spellings available for callers that
//! use them.

pub use crate::cursor::RzIterator;
pub use crate::engine::Core as RzCore;
pub use crate::list::List as RzList;
pub use crate::list::ListIter as RzListIter;
pub use crate::strbuf::StrBuf as RzStrBuf;
pub use crate::vector::PVector as RzPVector;
pub use crate::vector::Vector as RzVector;
