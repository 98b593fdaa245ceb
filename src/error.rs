//! The library's error type.

use vstd::prelude::*;

use crate::clipboard::ClipboardError;

verus! {

/// A failure of one operation; faults of one clipboard change stay local to it.
#[derive(Debug, Clone, PartialEq, Eq)]
pub enum AppError {
    /// The structured store failed; the message says how.
    Db(String),
    Clipboard(ClipboardError),
    NotFound,
    Internal(String),
}

pub type AppResult<T> = Result<T, AppError>;

} // verus!
