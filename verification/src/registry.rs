//! Per-device sessions and the connected-device registry.
//!
//! The registry is append-only: a session's position at insertion time is
//! its index for the lifetime of the process. A disconnect flips the
//! session's status but never removes the entry or renumbers any other,
//! so indices stay stable addresses on the message bus.

use vstd::prelude::*;
use crate::ident::{is_catalog_index, no_catalog_index, return_toio_id, str_eq};
use crate::update::Update;

verus! {

/// One connected cube's session. Timestamps are in milliseconds, on
/// whatever clock the caller samples for every call that takes one.
pub struct Toio {
    /// The identity the device was registered under: its trailing label.
    pub name: String,
    /// The catalog number resolved from `name`, when the label is on
    /// record.
    pub id: Option<usize>,
    /// The transport-level identifier of the live connection, used to
    /// correlate later disconnect signals.
    pub peripheral_id: String,
    /// Connection status. Flips to `false` once and never back: there is
    /// no re-acquisition after disconnect.
    pub connected: bool,
    /// The battery percentage most recently reported.
    pub battery: Option<u8>,
    /// When the last decoded notification arrived.
    pub last_update: Option<u64>,
    /// When the last command was dispatched (dispatch time, not
    /// acknowledgement time).
    pub last_command: Option<u64>,
}

/// Mathematical image of a session, strings as character sequences.
pub struct ToioV {
    pub name: Seq<char>,
    pub id: Option<usize>,
    pub peripheral_id: Seq<char>,
    pub connected: bool,
    pub battery: Option<u8>,
    pub last_update: Option<u64>,
    pub last_command: Option<u64>,
}

impl View for Toio {
    type V = ToioV;

    open spec fn view(&self) -> ToioV {
        ToioV {
            name: self.name@,
            id: self.id,
            peripheral_id: self.peripheral_id@,
            connected: self.connected,
            battery: self.battery,
            last_update: self.last_update,
            last_command: self.last_command,
        }
    }
}

impl Toio {
    /// A fresh session for a device that just connected: status
    /// connected, no telemetry yet, catalog number resolved from the
    /// identity.
    pub fn new(name: String, peripheral_id: String) -> (t: Toio)
        ensures
            t@.name == name@,
            t@.peripheral_id == peripheral_id@,
            t@.connected,
            t@.battery is None,
            t@.last_update is None,
            t@.last_command is None,
            match t@.id {
                Some(i) => is_catalog_index(name@, i as int),
                None => no_catalog_index(name@),
            },
    {
        let id = return_toio_id(name.as_str());
        Toio {
            name,
            id,
            peripheral_id,
            connected: true,
            battery: None,
            last_update: None,
            last_command: None,
        }
    }

    /// Marks the session disconnected. Every other field keeps its value;
    /// in particular the session keeps its place in the registry.
    pub fn disconnect(&mut self)
        ensures
            final(self)@ == (ToioV { connected: false, ..old(self)@ }),
    {
        self.connected = false;
    }

    /// The battery percentage most recently reported.
    pub fn get_battery(&self) -> (r: Option<u8>)
        ensures
            r == self@.battery,
    {
        self.battery
    }

    /// When the last decoded notification arrived.
    pub fn get_last_update(&self) -> (r: Option<u64>)
        ensures
            r == self@.last_update,
    {
        self.last_update
    }

    /// When the last command was dispatched.
    pub fn get_last_command(&self) -> (r: Option<u64>)
        ensures
            r == self@.last_command,
    {
        self.last_command
    }

    /// Whether the device is still connected.
    pub fn is_connected(&self) -> (r: bool)
        ensures
            r == self@.connected,
    {
        self.connected
    }
}

/// The append-only registry of sessions. A session's index is its
/// position; indices are never revised and entries are never removed.
pub struct Registry {
    sessions: Vec<Toio>,
}

impl View for Registry {
    type V = Seq<ToioV>;

    closed spec fn view(&self) -> Seq<ToioV> {
        self.sessions@.map_values(|t: Toio| t@)
    }
}

impl Registry {
    /// An empty registry.
    pub fn new() -> (r: Registry)
        ensures
            r@ == Seq::<ToioV>::empty(),
    {
        proof {
            assert(Seq::<Toio>::empty().map_values(|t: Toio| t@) =~= Seq::<ToioV>::empty());
        }
        Registry { sessions: Vec::new() }
    }

    /// How many sessions have ever been registered.
    pub fn len(&self) -> (r: usize)
        ensures
            r == self@.len(),
    {
        self.sessions.len()
    }

    /// The session at an index.
    pub fn get(&self, index: usize) -> (t: &Toio)
        requires
            index < self@.len(),
        ensures
            t@ == self@[index as int],
    {
        &self.sessions[index]
    }

    /// Appends a new session and hands back its permanent index: the
    /// registry's length at insertion time. No existing entry moves.
    pub fn register(&mut self, toio: Toio) -> (index: usize)
        ensures
            index == old(self)@.len(),
            final(self)@ == old(self)@.push(toio@),
    {
        let index = self.sessions.len();
        self.sessions.push(toio);
        proof {
            assert(self.sessions@.map_values(|t: Toio| t@) =~= old(self)@.push(
                self.sessions@.last()@,
            ));
        }
        index
    }

    /// Correlates a transport-level disconnect signal to a session: the
    /// first session whose transport identifier matches is marked
    /// disconnected and its index returned, so the caller can cancel that
    /// session's listener — and only that one. A signal with no matching
    /// session changes nothing at all. No entry is removed and no index
    /// shifts either way.
    pub fn mark_disconnected(&mut self, peripheral_id: &str) -> (r: Option<usize>)
        ensures
            final(self)@.len() == old(self)@.len(),
            match r {
                Some(index) => {
                    &&& index < old(self)@.len()
                    &&& old(self)@[index as int].peripheral_id == peripheral_id@
                    &&& forall|j: int|
                        0 <= j < index ==> old(self)@[j].peripheral_id != peripheral_id@
                    &&& final(self)@[index as int] == (ToioV {
                        connected: false,
                        ..old(self)@[index as int]
                    })
                    &&& forall|j: int|
                        0 <= j < old(self)@.len() && j != index ==> final(self)@[j] == old(
                            self,
                        )@[j]
                },
                None => {
                    &&& forall|j: int|
                        0 <= j < old(self)@.len() ==> old(self)@[j].peripheral_id
                            != peripheral_id@
                    &&& final(self)@ == old(self)@
                },
            },
    {
        let n = self.sessions.len();
        let mut i: usize = 0;
        while i < n
            invariant
                i <= n,
                n == self.sessions@.len(),
                *self == *old(self),
                forall|j: int| 0 <= j < i ==> self@[j].peripheral_id != peripheral_id@,
            decreases n - i,
        {
            if str_eq(self.sessions[i].peripheral_id.as_str(), peripheral_id) {
                let session = &mut self.sessions[i];
                session.connected = false;
                proof {
                    assert(self.sessions@.map_values(|t: Toio| t@) =~= old(self)@.update(
                        i as int,
                        self.sessions@[i as int]@,
                    ));
                }
                return Some(i);
            }
            i += 1;
        }
        None
    }

    /// Applies one decoded update to a session's telemetry: a battery
    /// report overwrites the cached percentage, and any update refreshes
    /// the last-update timestamp. Nothing else changes.
    pub fn update_telemetry(&mut self, index: usize, update: &Update, now: u64)
        requires
            index < old(self)@.len(),
        ensures
            final(self)@.len() == old(self)@.len(),
            final(self)@[index as int] == (ToioV {
                battery: match update {
                    Update::Battery { level } => Some(*level),
                    _ => old(self)@[index as int].battery,
                },
                last_update: Some(now),
                ..old(self)@[index as int]
            }),
            forall|j: int|
                0 <= j < old(self)@.len() && j != index ==> final(self)@[j] == old(self)@[j],
    {
        let session = &mut self.sessions[index];
        if let Update::Battery { level } = update {
            session.battery = Some(*level);
        }
        session.last_update = Some(now);
        proof {
            assert(self.sessions@.map_values(|t: Toio| t@) =~= old(self)@.update(
                index as int,
                self.sessions@[index as int]@,
            ));
        }
    }

    /// Accepts or drops an inbound bus command addressed to `index`: in
    /// range, the session's last-command timestamp is set to dispatch
    /// time and the command may go out; out of range, the command is
    /// dropped and no session — in particular no `last_command` — is
    /// touched.
    pub fn accept_command(&mut self, index: usize, now: u64) -> (r: bool)
        ensures
            r == (index < old(self)@.len()),
            r ==> final(self)@.len() == old(self)@.len() && final(self)@[index as int] == (ToioV {
                last_command: Some(now),
                ..old(self)@[index as int]
            }) && (forall|j: int|
                0 <= j < old(self)@.len() && j != index ==> final(self)@[j] == old(self)@[j]),
            !r ==> final(self)@ == old(self)@,
    {
        if index < self.sessions.len() {
            let session = &mut self.sessions[index];
            session.last_command = Some(now);
            proof {
                assert(self.sessions@.map_values(|t: Toio| t@) =~= old(self)@.update(
                    index as int,
                    self.sessions@[index as int]@,
                ));
            }
            true
        } else {
            false
        }
    }
}

} // verus!
