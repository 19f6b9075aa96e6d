//! The relay engine as a state machine. The program that runs it owns the
//! socket, the device channels and the clock: it hands each event to one of
//! the methods below and carries out what comes back.
use vstd::prelude::*;

use crate::codec::{data_payload, decode, encode, encoded, payload_of, DATA_TAG};
use crate::endpoint::Endpoint;
use crate::keepalive::{
    advance_deadline, beacon_bytes, keepalive_beacon, lemma_grid_step, next_deadline,
    KEEPALIVE_INTERVAL_MS,
};

verus! {

/// Who the other side is, by role.
#[derive(Clone, Copy, Debug, PartialEq, Eq, Structural)]
pub enum Session {
    /// A server learns its peer from the last datagram that came in.
    Server { peer: Option<Endpoint> },
    /// A client talks to the server it was given, and to no one else.
    Client { server: Endpoint },
}

/// The relay's state. Times are milliseconds since the loop started.
#[derive(Clone, Copy, Debug, PartialEq, Eq, Structural)]
pub struct Relay {
    pub session: Session,
    /// Time between two beacons of a client.
    pub interval_ms: u64,
    /// When a client's next beacon is due.
    pub next_keepalive_ms: u64,
}

/// A datagram to send.
pub struct Datagram {
    pub to: Endpoint,
    pub bytes: Vec<u8>,
}

impl View for Datagram {
    type V = (Endpoint, Seq<u8>);

    open spec fn view(&self) -> (Endpoint, Seq<u8>) {
        (self.to, self.bytes@)
    }
}

/// What becomes of a received datagram's payload.
pub enum Disposition {
    /// A data frame: the payload goes to the local device.
    Deliver(Vec<u8>),
    /// Any other datagram: the bytes after its first are only shown.
    Discard(Vec<u8>),
}

impl Disposition {
    /// What goes to the local device.
    pub open spec fn delivered(&self) -> Option<Seq<u8>> {
        match self {
            Disposition::Deliver(p) => Some(p@),
            Disposition::Discard(_) => None,
        }
    }

    /// The payload bytes, whichever the disposition.
    pub open spec fn content(&self) -> Seq<u8> {
        match self {
            Disposition::Deliver(p) => p@,
            Disposition::Discard(p) => p@,
        }
    }
}

/// The outcome of a received datagram.
pub struct Receipt {
    pub disposition: Disposition,
    /// The new peer, where the datagram changed it.
    pub connected: Option<Endpoint>,
}

/// Where outbound traffic goes, if anywhere.
pub open spec fn remote_of(session: Session) -> Option<Endpoint> {
    match session {
        Session::Server { peer } => peer,
        Session::Client { server } => Some(server),
    }
}

/// The session after a datagram from `from` came in: a server's peer is
/// the last sender, whoever sent before.
pub open spec fn after_datagram(session: Session, from: Endpoint) -> Session {
    match session {
        Session::Server { .. } => Session::Server { peer: Some(from) },
        Session::Client { server } => Session::Client { server },
    }
}

/// The peer that a datagram from `from` makes known anew.
pub open spec fn connection_change(session: Session, from: Endpoint) -> Option<Endpoint> {
    match session {
        Session::Server { peer } => if peer == Some(from) {
            None
        } else {
            Some(from)
        },
        Session::Client { .. } => None,
    }
}

/// The datagram that carries a local MIDI event, if anyone is there to
/// take it.
pub open spec fn outgoing(session: Session, midi: Seq<u8>) -> Option<(Endpoint, Seq<u8>)> {
    match remote_of(session) {
        Some(to) => Some((to, encoded(DATA_TAG, midi))),
        None => None,
    }
}

/// What is sent as the loop starts: a client's first beacon.
pub open spec fn announcement(session: Session) -> Option<(Endpoint, Seq<u8>)> {
    match session {
        Session::Server { .. } => None,
        Session::Client { server } => Some((server, beacon_bytes())),
    }
}

/// Whether a timer event at `now` sends a beacon.
pub open spec fn beacon_due(s: Relay, now: int) -> bool {
    s.session is Client && s.next_keepalive_ms <= now
}

/// The state after a timer event at `now`.
pub open spec fn after_tick(s: Relay, now: int) -> Relay {
    if beacon_due(s, now) {
        Relay {
            next_keepalive_ms: next_deadline(
                s.next_keepalive_ms as int,
                now,
                s.interval_ms as int,
            ) as u64,
            ..s
        }
    } else {
        s
    }
}

/// The beacon that a timer event at `now` sends.
pub open spec fn tick_output(s: Relay, now: int) -> Option<(Endpoint, Seq<u8>)> {
    if beacon_due(s, now) {
        announcement(s.session)
    } else {
        None
    }
}

impl Relay {
    /// A relay is sound when its keepalive interval is not zero.
    pub open spec fn wf(&self) -> bool {
        self.interval_ms > 0
    }

    /// A server that has heard from no one yet. It never sends a beacon.
    pub fn server() -> (r: Relay)
        ensures
            r.wf(),
            r == (Relay {
                session: Session::Server { peer: None },
                interval_ms: KEEPALIVE_INTERVAL_MS,
                next_keepalive_ms: KEEPALIVE_INTERVAL_MS,
            }),
    {
        Relay {
            session: Session::Server { peer: None },
            interval_ms: KEEPALIVE_INTERVAL_MS,
            next_keepalive_ms: KEEPALIVE_INTERVAL_MS,
        }
    }

    /// A client of `server`; after its first beacon, the next is due one
    /// interval after the loop starts.
    pub fn client(server: Endpoint, interval_ms: u64) -> (r: Relay)
        requires
            interval_ms > 0,
        ensures
            r.wf(),
            r == (Relay { session: Session::Client { server }, interval_ms, next_keepalive_ms: interval_ms }),
    {
        Relay { session: Session::Client { server }, interval_ms, next_keepalive_ms: interval_ms }
    }

    /// Where outbound traffic goes now.
    pub fn remote(&self) -> (r: Option<Endpoint>)
        ensures
            r == remote_of(self.session),
    {
        match self.session {
            Session::Server { peer } => peer,
            Session::Client { server } => Some(server),
        }
    }

    /// What to send before handling any event: a client's first beacon to
    /// its server; nothing for a server.
    pub fn start(&self) -> (r: Option<Datagram>)
        ensures
            r matches Some(d) ==> announcement(self.session) == Some(d@),
            r is None <==> announcement(self.session) is None,
    {
        match self.session {
            Session::Server { .. } => None,
            Session::Client { server } => Some(Datagram { to: server, bytes: keepalive_beacon() }),
        }
    }

    /// A MIDI event came from the local device: a data frame to the remote
    /// endpoint, or nothing where no endpoint is known yet.
    pub fn on_local_event(&self, midi: &[u8]) -> (r: Option<Datagram>)
        ensures
            r matches Some(d) ==> outgoing(self.session, midi@) == Some(d@),
            r is None <==> outgoing(self.session, midi@) is None,
    {
        match self.remote() {
            Some(to) => Some(Datagram { to, bytes: encode(DATA_TAG, midi) }),
            None => None,
        }
    }

    /// A datagram came in from `from`. A server takes the sender as its
    /// peer, whatever the datagram holds; the payload of a data frame goes
    /// to the local device, and any other datagram is discarded.
    pub fn on_datagram(&mut self, from: Endpoint, bytes: &[u8]) -> (r: Receipt)
        ensures
            final(self).session == after_datagram(old(self).session, from),
            final(self).interval_ms == old(self).interval_ms,
            final(self).next_keepalive_ms == old(self).next_keepalive_ms,
            r.connected == connection_change(old(self).session, from),
            r.disposition.delivered() == data_payload(bytes@),
            r.disposition.content() == payload_of(bytes@),
    {
        let connected = match self.session {
            Session::Server { peer } => {
                let changed = match peer {
                    Some(p) => p != from,
                    None => true,
                };
                self.session = Session::Server { peer: Some(from) };
                if changed {
                    Some(from)
                } else {
                    None
                }
            },
            Session::Client { .. } => None,
        };
        let disposition = match decode(bytes) {
            Some(frame) => {
                if frame.is_data() {
                    Disposition::Deliver(frame.payload)
                } else {
                    Disposition::Discard(frame.payload)
                }
            },
            None => Disposition::Discard(Vec::new()),
        };
        Receipt { disposition, connected }
    }

    /// The timer fired at `now`: a client whose beacon is due sends one and
    /// moves its deadline to the next point of its schedule after `now`.
    pub fn on_tick(&mut self, now: u64) -> (r: Option<Datagram>)
        requires
            old(self).wf(),
            now <= u64::MAX - old(self).interval_ms,
        ensures
            *final(self) == after_tick(*old(self), now as int),
            r matches Some(d) ==> tick_output(*old(self), now as int) == Some(d@),
            r is None <==> tick_output(*old(self), now as int) is None,
    {
        match self.session {
            Session::Client { server } => {
                if self.next_keepalive_ms <= now {
                    self.next_keepalive_ms =
                        advance_deadline(self.next_keepalive_ms, now, self.interval_ms);
                    Some(Datagram { to: server, bytes: keepalive_beacon() })
                } else {
                    None
                }
            },
            Session::Server { .. } => None,
        }
    }
}

/// A server's peer is the sender of the last datagram: after one from `a`
/// it is `a`, and after a later one from `b` it is `b`, with no trace of
/// `a`. Each change of peer is reported.
pub proof fn lemma_server_last_sender_wins(peer: Option<Endpoint>, a: Endpoint, b: Endpoint)
    ensures
        remote_of(after_datagram(Session::Server { peer }, a)) == Some(a),
        remote_of(after_datagram(after_datagram(Session::Server { peer }, a), b)) == Some(b),
        after_datagram(after_datagram(Session::Server { peer }, a), b) == after_datagram(
            Session::Server { peer: None },
            b,
        ),
        a != b ==> connection_change(after_datagram(Session::Server { peer }, a), b) == Some(b),
{
}

/// A server that has heard from no one drops local events: it sends
/// nothing.
pub proof fn lemma_server_without_peer_drops(midi: Seq<u8>)
    ensures
        outgoing(Session::Server { peer: None }, midi) is None,
{
}

/// A client starts by sending exactly one beacon, untagged, to its server,
/// and a server starts by sending nothing.
pub proof fn lemma_client_announces(server: Endpoint)
    ensures
        announcement(Session::Client { server }) == Some((server, beacon_bytes())),
        announcement(Session::Server { peer: None }) is None,
{
}

/// A client's beacons keep to a fixed grid: a timer event before the
/// deadline sends nothing; one at or after it sends exactly one beacon and
/// moves the deadline to the next grid point after `now`, no more than one
/// interval away; a second event at the same time sends nothing more. A
/// timer that fires right on each deadline sends one beacon per interval.
pub proof fn lemma_keepalive_schedule(s: Relay, now: u64)
    requires
        s.wf(),
        s.session is Client,
        now <= u64::MAX - s.interval_ms,
    ensures
        (tick_output(s, now as int) is Some) == (s.next_keepalive_ms <= now),
        now < s.next_keepalive_ms ==> after_tick(s, now as int) == s,
        s.next_keepalive_ms <= now ==> {
            let t = after_tick(s, now as int);
            &&& now < t.next_keepalive_ms <= now + s.interval_ms
            &&& (t.next_keepalive_ms - s.next_keepalive_ms) % (s.interval_ms as int) == 0
            &&& tick_output(t, now as int) is None
        },
        now == s.next_keepalive_ms ==> after_tick(s, now as int).next_keepalive_ms == now
            + s.interval_ms,
{
    if s.next_keepalive_ms <= now {
        lemma_grid_step(s.next_keepalive_ms as int, now as int, s.interval_ms as int);
        if now == s.next_keepalive_ms {
            assert((0int / (s.interval_ms as int)) == 0);
        }
    }
}

} // verus!
