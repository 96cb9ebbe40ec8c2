use vstd::prelude::*;

verus! {

/// Error kinds reported by the UWB core for a failed operation.
///
/// The four kinds that callers are expected to act on distinctly
/// (`BadParameters`, `MaxSessionsExceeded`, `CommandRetry`,
/// `RegulationUwbOff`) each map to their own status code; every other kind
/// is absorbed by the generic failure code.
#[derive(Clone, Copy, Debug, PartialEq, Eq, Structural)]
pub enum Error {
    /// The provided parameters are invalid, or the method is not supported.
    BadParameters,
    /// The maximum number of sessions has been reached.
    MaxSessionsExceeded,
    /// The maximum number of ranging round retries has been reached.
    MaxRrRetryReached,
    /// A response or notification was not received in time.
    Timeout,
    /// The command should be retried.
    CommandRetry,
    /// A session with the same identifier already exists.
    DuplicatedSessionId,
    /// Regulations require UWB to be off.
    RegulationUwbOff,
    /// An unspecified failure.
    Unknown,
}

impl Error {
    /// The diagnostic name of the error kind, as it appears in log lines.
    pub open spec fn spec_detail(self) -> Seq<char> {
        match self {
            Error::BadParameters => "BadParameters"@,
            Error::MaxSessionsExceeded => "MaxSessionsExceeded"@,
            Error::MaxRrRetryReached => "MaxRrRetryReached"@,
            Error::Timeout => "Timeout"@,
            Error::CommandRetry => "CommandRetry"@,
            Error::DuplicatedSessionId => "DuplicatedSessionId"@,
            Error::RegulationUwbOff => "RegulationUwbOff"@,
            Error::Unknown => "Unknown"@,
        }
    }

    /// The diagnostic name of the error kind.
    pub fn detail(&self) -> (s: &'static str)
        ensures
            s@ == self.spec_detail(),
    {
        match self {
            Error::BadParameters => "BadParameters",
            Error::MaxSessionsExceeded => "MaxSessionsExceeded",
            Error::MaxRrRetryReached => "MaxRrRetryReached",
            Error::Timeout => "Timeout",
            Error::CommandRetry => "CommandRetry",
            Error::DuplicatedSessionId => "DuplicatedSessionId",
            Error::RegulationUwbOff => "RegulationUwbOff",
            Error::Unknown => "Unknown",
        }
    }
}

} // verus!
