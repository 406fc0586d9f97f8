use vstd::prelude::*;

verus! {

/// Failure kinds of the commit path.
///
/// `IntegrityError` and `SizeError` report a payload that does not meet an
/// expectation the caller configured; `ConfigError` reports an invalid
/// builder state. All three are detected before either store is touched, so
/// a failed commit leaves the cache as it was.
#[derive(Clone, Copy, Debug, PartialEq, Eq, Structural)]
pub enum Error {
    /// The payload does not match the expected digest.
    IntegrityError,
    /// The payload's byte length does not match the expected size.
    SizeError,
    /// The builder was configured with an empty key.
    ConfigError,
}

} // verus!
