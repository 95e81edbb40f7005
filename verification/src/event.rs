//! Lifecycle events and the bus that carries them to any number of observers.

use crate::error::Error;
use tokio::sync::broadcast::Receiver;
use tokio::sync::broadcast::Sender;
use vstd::prelude::*;

verus! {

/// The kind of a failure, as observers see it.
#[derive(Clone, Copy, Debug, PartialEq, Eq, Structural)]
pub enum FailureKind {
    Config,
    Setup,
    ConversationInvalid,
    UnsafeDelete,
    Bus,
    Io,
    Remote,
}

/// What a session announces.
#[derive(Clone, Debug, PartialEq, Eq)]
pub enum Event {
    InstructionsUploaded,
    EmbeddingsUploaded,
    ConversationLoaded,
    ConversationCreated,
    /// A bundle was uploaded; the text is the bundle's name.
    BundleUploaded(String),
    Failure(FailureKind),
}

/// The sending half of tokio's broadcast channel.
#[verifier::external_type_specification]
#[verifier::external_body]
#[verifier::reject_recursive_types(T)]
pub struct ExSender<T>(Sender<T>);

/// A receiving half of tokio's broadcast channel.
#[verifier::external_type_specification]
#[verifier::external_body]
#[verifier::reject_recursive_types(T)]
pub struct ExReceiver<T>(Receiver<T>);

/// The number of events that the bus keeps for a subscriber that has fallen
/// behind; older ones are dropped for it.
pub const BACKLOG: usize = 64;

/// Calls `tokio::sync::broadcast::Sender::new`, which makes a channel without
/// any receiver. It panics on a capacity of zero or above half of
/// `usize::MAX`; the precondition leaves those out.
#[verifier::external_body]
fn channel_open(capacity: usize) -> (tx: Sender<Event>)
    requires
        0 < capacity <= usize::MAX / 2,
{
    Sender::new(capacity)
}

/// Calls `tokio::sync::broadcast::Sender::send`. With no receiver the channel
/// hands the value back; otherwise it reports how many receivers there are,
/// at least one. Which of the two happens depends on who is subscribed at
/// that moment and is not stated.
#[verifier::external_body]
fn channel_send(tx: &Sender<Event>, event: Event) -> (sent: Result<usize, Event>)
    ensures
        sent matches Ok(receivers) ==> receivers >= 1,
        sent matches Err(back) ==> back == event,
{
    tx.send(event).map_err(|refused| refused.0)
}

/// Calls `tokio::sync::broadcast::Sender::subscribe`. Nothing is stated of the
/// receiver: it sees what is sent after this call. The call panics only at a
/// receiver count that no machine's memory can hold.
#[verifier::external_body]
fn channel_subscribe(tx: &Sender<Event>) -> (rx: Receiver<Event>) {
    tx.subscribe()
}

/// Calls `clone` on `tokio::sync::broadcast::Sender`, which gives a second
/// handle on the same channel.
#[verifier::external_body]
fn channel_share(tx: &Sender<Event>) -> (other: Sender<Event>) {
    tx.clone()
}

/// A broadcast channel for [`Event`]s, with a record of what was published
/// through this handle.
pub struct EventBus {
    tx: Sender<Event>,
    sent: Ghost<Seq<Event>>,
}

impl EventBus {
    /// The events that were handed to [`EventBus::send`] on this handle, oldest
    /// first, whether or not anybody was subscribed.
    pub closed spec fn published(&self) -> Seq<Event> {
        self.sent@
    }

    /// A bus with nobody subscribed and nothing published.
    pub fn new() -> (bus: EventBus)
        ensures
            bus.published() == Seq::<Event>::empty(),
    {
        EventBus { tx: channel_open(BACKLOG), sent: Ghost(Seq::empty()) }
    }

    /// A new, independent receiver. It sees only what is published after
    /// this call. Subscribing does not fail.
    pub fn subscribe(&self) -> (rx: Result<Receiver<Event>, Error>)
        ensures
            rx is Ok,
    {
        Ok(channel_subscribe(&self.tx))
    }

    /// Publishes `event` to the current subscribers without waiting for them.
    /// The only failure is that nobody was subscribed; the error then holds
    /// the event. Either way the event is recorded as published.
    pub fn send(&mut self, event: Event) -> (sent: Result<(), Error>)
        ensures
            final(self).published() == old(self).published().push(event),
            sent matches Err(e) ==> e == Error::BroadcastSend(event),
    {
        let ghost log = self.sent@.push(event);
        let outcome = channel_send(&self.tx, event);
        self.sent = Ghost(log);
        match outcome {
            Ok(_) => Ok(()),
            Err(back) => Err(Error::BroadcastSend(back)),
        }
    }

    /// A second handle on the same channel, for another publisher or for
    /// subscribing elsewhere. It starts with this handle's record.
    pub fn share(&self) -> (other: EventBus)
        ensures
            other.published() == self.published(),
    {
        EventBus { tx: channel_share(&self.tx), sent: Ghost(self.sent@) }
    }
}

} // verus!
