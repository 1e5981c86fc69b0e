use vstd::prelude::*;

verus! {

/// Why the credential store could not yield a token: the file was not
/// readable at all, or its contents did not carry the expected fields.
#[derive(Clone, Copy, Debug, PartialEq, Eq, Structural)]
pub enum CredentialError {
    Unreadable,
    Malformed,
}

/// Why the primary usage fetch failed: the request never completed, or the
/// upstream answered with a non-success status or an undecodable body.
#[derive(Clone, Copy, Debug, PartialEq, Eq, Structural)]
pub enum FetchError {
    RequestFailed,
    ResponseInvalid,
}

/// Raised when a snapshot is requested before any cycle has succeeded.
#[derive(Clone, Copy, Debug, PartialEq, Eq, Structural)]
pub enum SnapshotError {
    NotYetAvailable,
}

/// Raised by the polling directive when a proposed interval is rejected.
#[derive(Clone, Copy, Debug, PartialEq, Eq, Structural)]
pub enum IntervalError {
    OutOfRange,
}

/// Raised when a stored configuration value is unusable.
#[derive(Clone, Copy, Debug, PartialEq, Eq, Structural)]
pub enum ConfigError {
    InvalidMonthlyLimit,
}

/// Why a secondary snapshot could not be assembled from fetched items.
#[derive(Clone, Copy, Debug, PartialEq, Eq, Structural)]
pub enum SecondaryError {
    InvalidMonthlyLimit,
    ResetDateUnavailable,
}

/// Outcome of one fetch cycle, mirrored outward as the `token-status` event.
#[derive(Clone, Copy, Debug, PartialEq, Eq, Structural)]
pub enum TokenStatus {
    Valid,
    Error,
    Expired,
    FetchFailed,
}

impl TokenStatus {
    /// The payload emitted for this status on the `token-status` channel.
    pub fn label(&self) -> (r: &'static str)
        ensures
            *self == TokenStatus::Valid ==> r@ == "ok"@,
            *self == TokenStatus::Error ==> r@ == "error"@,
            *self == TokenStatus::Expired ==> r@ == "expired"@,
            *self == TokenStatus::FetchFailed ==> r@ == "fetch_error"@,
    {
        match self {
            TokenStatus::Valid => "ok",
            TokenStatus::Error => "error",
            TokenStatus::Expired => "expired",
            TokenStatus::FetchFailed => "fetch_error",
        }
    }
}

} // verus!
