//! The per-device listener's decision core.
//!
//! One listener task runs per connected device; the task itself waits on
//! the transport's notification stream with a bounded wait and owns no
//! logic beyond calling in here. A quiet period — the bounded wait
//! elapsing with nothing received — keeps the listener alive; only the
//! stream ending stops it.

use vstd::prelude::*;
use crate::registry::{Registry, ToioV};
use crate::update::{decode_spec, decode_notification, Update};

verus! {

/// One outcome of waiting on a device's notification stream.
pub enum ListenerEvent {
    /// A notification arrived on the characteristic with this UUID.
    Notification { uuid: u128, value: Vec<u8> },
    /// The bounded wait elapsed with nothing received.
    QuietPeriod,
    /// The notification stream ended.
    StreamEnded,
}

/// What the listener does next.
#[derive(Clone, Copy, Debug, PartialEq, Eq, Structural)]
pub enum ListenerAction {
    /// Record the update's telemetry and forward it on the bus.
    Forward(Update),
    /// Keep waiting: nothing to forward.
    KeepListening,
    /// Terminate this listener.
    Stop,
}

/// What each listener event must lead to: decodable notifications are
/// forwarded, undecodable ones and quiet periods keep the listener
/// waiting, and only the end of the stream stops it.
pub open spec fn spec_listener_step(e: ListenerEvent) -> ListenerAction {
    match e {
        ListenerEvent::Notification { uuid, value } => match decode_spec(uuid, value@) {
            Some(u) => ListenerAction::Forward(u),
            None => ListenerAction::KeepListening,
        },
        ListenerEvent::QuietPeriod => ListenerAction::KeepListening,
        ListenerEvent::StreamEnded => ListenerAction::Stop,
    }
}

/// Decides the listener's next step for one wait outcome.
pub fn listener_step(event: &ListenerEvent) -> (r: ListenerAction)
    ensures
        r == spec_listener_step(*event),
{
    match event {
        ListenerEvent::Notification { uuid, value } => match decode_notification(*uuid, value) {
            Some(u) => ListenerAction::Forward(u),
            None => ListenerAction::KeepListening,
        },
        ListenerEvent::QuietPeriod => ListenerAction::KeepListening,
        ListenerEvent::StreamEnded => ListenerAction::Stop,
    }
}

/// Runs one notification through the codec and the session's telemetry:
/// a decodable payload refreshes the session at `index` (battery cached,
/// last-update stamped) and comes back for forwarding; anything else
/// leaves the registry untouched.
pub fn process_notification(
    registry: &mut Registry,
    index: usize,
    uuid: u128,
    value: &Vec<u8>,
    now: u64,
) -> (r: Option<Update>)
    requires
        index < old(registry)@.len(),
    ensures
        r == decode_spec(uuid, value@),
        (match r {
            Some(u) => {
                &&& final(registry)@.len() == old(registry)@.len()
                &&& final(registry)@[index as int] == (ToioV {
                    battery: match u {
                        Update::Battery { level } => Some(level),
                        _ => old(registry)@[index as int].battery,
                    },
                    last_update: Some(now),
                    ..old(registry)@[index as int]
                })
                &&& (forall|j: int|
                    0 <= j < old(registry)@.len() && j != index ==> final(registry)@[j] == old(
                        registry,
                    )@[j])
            },
            None => final(registry)@ == old(registry)@,
        }),
{
    match decode_notification(uuid, value) {
        Some(update) => {
            registry.update_telemetry(index, &update, now);
            Some(update)
        },
        None => None,
    }
}

} // verus!
