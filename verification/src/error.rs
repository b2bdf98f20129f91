//! Error taxonomy shared by the whole crate.

use vstd::prelude::*;

verus! {

/// Outcome taxonomy for every fallible operation of the library.
///
/// `NotFound` deliberately covers both "no such story" and "caller lacks
/// write access", so that an unauthorized caller cannot learn whether a
/// story exists. `Message` wraps the faults that the record store itself
/// would report (a missing referenced row, an exhausted id counter).
#[derive(Debug)]
pub enum FictError {
    /// A storage-level fault, described in prose.
    Message(String),
    /// The story does not exist, or the caller may not write to it.
    NotFound,
    /// A pure status check found the story held by nobody.
    Unlocked,
    /// The fairness rule denied the acquisition.
    Cooldown,
    /// Someone else holds an unexpired lock.
    AlreadyLocked { username: String, expiration: i64 },
    /// A conditional release matched no row.
    ReleaseFailed,
}

/// Convenient alias for results that fail with [`FictError`].
pub type FictResult<T> = Result<T, FictError>;

/// Create a new `FictError` with the provided message.
pub fn fict_err(msg: &str) -> (r: FictError)
    ensures
        r is Message,
{
    FictError::Message(msg.to_owned())
}

} // verus!
