use vstd::prelude::*;

verus! {

/// Every failure the dashboard can surface.  The first two are fatal at
/// startup (before the event loop runs); the rest are reported to the
/// operator as a failed operation and leave the dashboard state unchanged.
#[derive(Clone, Copy, Debug, PartialEq, Eq, Structural)]
pub enum DashboardError {
    /// No configuration entry carries the requested name.
    ConfigNotFound,
    /// The configuration store could not be read or parsed.
    ConfigUnreadable,
    /// Loading the cluster metadata failed at the transport level.
    MetadataFetchFailed,
    /// A latest-offset query for one topic failed.
    OffsetFetchFailed,
    /// A consumer-group session could not be opened.
    SessionOpenFailed,
    /// A poll for one batch of messages failed.
    PollFailed,
    /// A message payload was not valid UTF-8.
    DecodeFailed,
    /// Committing consumed messages to the broker failed.
    CommitFailed,
}

} // verus!
