//! The failures that the session manager reports.

use crate::event::Event;
use crate::event::FailureKind;
use vstd::prelude::*;

verus! {

/// What is wrong with a session descriptor.
#[derive(Clone, Debug, PartialEq, Eq)]
pub enum ConfigFault {
    /// The descriptor file is missing or cannot be parsed; the text says why.
    Unreadable(String),
    /// The bundle at this position names no glob pattern.
    NoGlobs(usize),
    /// The source directory of the bundle at this position does not resolve
    /// to a place under the session directory.
    SourceDirEscapes(usize),
    /// There are more bundles than the counter of uploads can count.
    TooManyBundles,
}

/// A failure of a session operation.
#[derive(Clone, Debug, PartialEq, Eq)]
pub enum Error {
    /// The session descriptor is missing, malformed or unsafe.
    Config(ConfigFault),
    /// The remote assistant could be neither resolved nor created.
    Setup,
    /// The stored conversation names a thread that the remote store no longer
    /// knows; the text is the thread's identifier.
    ConversationInvalid(String),
    /// A file outside the session's private directory was about to be
    /// deleted; the text is its path. Nothing was deleted.
    UnsafeDeleteAttempted(String),
    /// An event was published while nobody was subscribed; it is handed back.
    BroadcastSend(Event),
    /// A local read or write failed.
    Io(String),
    /// The remote store failed.
    Remote(String),
}

impl Error {
    /// The kind under which this failure is announced on the event bus.
    pub open spec fn spec_kind(&self) -> FailureKind {
        match self {
            Error::Config(_) => FailureKind::Config,
            Error::Setup => FailureKind::Setup,
            Error::ConversationInvalid(_) => FailureKind::ConversationInvalid,
            Error::UnsafeDeleteAttempted(_) => FailureKind::UnsafeDelete,
            Error::BroadcastSend(_) => FailureKind::Bus,
            Error::Io(_) => FailureKind::Io,
            Error::Remote(_) => FailureKind::Remote,
        }
    }

    /// The kind under which this failure is announced on the event bus.
    #[verifier::when_used_as_spec(spec_kind)]
    pub fn kind(&self) -> (kind: FailureKind)
        ensures
            kind == self.spec_kind(),
    {
        match self {
            Error::Config(_) => FailureKind::Config,
            Error::Setup => FailureKind::Setup,
            Error::ConversationInvalid(_) => FailureKind::ConversationInvalid,
            Error::UnsafeDeleteAttempted(_) => FailureKind::UnsafeDelete,
            Error::BroadcastSend(_) => FailureKind::Bus,
            Error::Io(_) => FailureKind::Io,
            Error::Remote(_) => FailureKind::Remote,
        }
    }

    /// Whether the session must stop until an operator has looked at it. Only
    /// an attempted unsafe deletion is of that kind.
    pub fn is_fatal(&self) -> (fatal: bool)
        ensures
            fatal == (self is UnsafeDeleteAttempted),
    {
        match self {
            Error::UnsafeDeleteAttempted(_) => true,
            _ => false,
        }
    }
}

} // verus!
