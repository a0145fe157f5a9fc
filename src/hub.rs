use tokio::sync::broadcast::{Receiver, Sender};
use vstd::prelude::*;

use crate::entry::LogEntry;

verus! {

#[verifier::external_type_specification]
#[verifier::external_body]
#[verifier::reject_recursive_types(T)]
pub struct ExSender<T>(Sender<T>);

#[verifier::external_type_specification]
#[verifier::external_body]
#[verifier::reject_recursive_types(T)]
pub struct ExReceiver<T>(Receiver<T>);

/// How many unreceived records the channel holds for each subscriber before
/// the oldest are dropped for that subscriber.
pub const HUB_CAPACITY: usize = 100;

/// `tokio::sync::broadcast::Sender::new` asserts a capacity above zero and at
/// most half of `usize::MAX`; the new sender has no receivers.
pub assume_specification<T>[ Sender::<T>::new ](capacity: usize) -> Sender<T>
    requires
        0 < capacity <= usize::MAX / 2,
;

/// `Sender::subscribe`: a receiver of the values sent after this call.
pub assume_specification<T>[ Sender::<T>::subscribe ](s: &Sender<T>) -> Receiver<T>;

/// `Sender::receiver_count`: the number of receivers at the moment of the call.
pub assume_specification<T>[ Sender::<T>::receiver_count ](s: &Sender<T>) -> usize;

/// Relies on `tokio::sync::broadcast::Sender::send`: it fails exactly when
/// no receiver exists, and otherwise returns how many receivers there are.
#[verifier::external_body]
fn send_to_receivers(s: &Sender<LogEntry>, entry: LogEntry) -> (r: Option<usize>)
    ensures
        r matches Some(n) ==> n > 0,
{
    s.send(entry).ok()
}

/// Whether a record is worth sending: only when someone listens.
pub fn should_publish(receivers: usize) -> (r: bool)
    ensures
        r == (receivers > 0),
{
    receivers > 0
}

/// The publish/subscribe point for new records; each subscriber sees the
/// records published after it subscribed, in publish order, and loses its
/// oldest unreceived records when it falls `HUB_CAPACITY` behind.
pub struct Hub {
    sender: Sender<LogEntry>,
}

impl Hub {
    /// A hub with no subscribers.
    pub fn new() -> (r: Hub) {
        Hub { sender: Sender::new(HUB_CAPACITY) }
    }

    /// A new receive handle that observes only later records.
    pub fn subscribe(&self) -> Receiver<LogEntry> {
        self.sender.subscribe()
    }

    /// The number of subscribers right now.
    pub fn subscriber_count(&self) -> usize {
        self.sender.receiver_count()
    }

    /// Hands the record to every current subscriber and returns how many
    /// there were; with none, nothing is sent and the result is zero.
    pub fn publish(&self, entry: LogEntry) -> (r: usize) {
        let receivers = self.sender.receiver_count();
        if !should_publish(receivers) {
            return 0;
        }
        match send_to_receivers(&self.sender, entry) {
            Some(n) => n,
            None => 0,
        }
    }
}

} // verus!
