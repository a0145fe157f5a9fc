use vstd::prelude::*;

verus! {

/// What a live relay has just observed.
#[derive(Clone, Copy, Debug, PartialEq, Eq)]
pub enum RelayEvent {
    /// A record arrived from the hub.
    Record,
    /// The relay fell behind and this many records were dropped for it.
    Lagged(u64),
    /// The hub is gone.
    HubClosed,
    /// A frame went out to the observer.
    Sent,
    /// Sending to the observer failed.
    SendFailed,
    /// The observer sent a frame; it carries no meaning.
    PeerFrame,
    /// The observer's side of the connection ended or failed.
    PeerGone,
}

/// What a live relay does next.
#[derive(Clone, Copy, Debug, PartialEq, Eq)]
pub enum RelayAction {
    /// Serialize the record just received and send it as one text frame.
    SendFrame,
    /// Wait for the next record or observer frame.
    Wait,
    /// End this relay for good.
    Stop,
}

/// The action that follows each event.
pub open spec fn relay_action(event: RelayEvent) -> RelayAction {
    match event {
        RelayEvent::Record => RelayAction::SendFrame,
        RelayEvent::Lagged(_) | RelayEvent::Sent | RelayEvent::PeerFrame => RelayAction::Wait,
        RelayEvent::HubClosed | RelayEvent::SendFailed | RelayEvent::PeerGone => RelayAction::Stop,
    }
}

/// The relay's decision for one event: records are sent on, a lag is
/// tolerated, observer frames are discarded, and a closed hub, a failed send
/// or a departed observer end the relay.
pub fn relay_step(event: RelayEvent) -> (r: RelayAction)
    ensures
        r == relay_action(event),
{
    match event {
        RelayEvent::Record => RelayAction::SendFrame,
        RelayEvent::Lagged(_) => RelayAction::Wait,
        RelayEvent::Sent => RelayAction::Wait,
        RelayEvent::PeerFrame => RelayAction::Wait,
        RelayEvent::HubClosed => RelayAction::Stop,
        RelayEvent::SendFailed => RelayAction::Stop,
        RelayEvent::PeerGone => RelayAction::Stop,
    }
}

} // verus!
