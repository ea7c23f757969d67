//! One relayed connection: the pairing of the two opposing copy flows, and
//! the lifecycle that runs from an accepted client socket to both sockets
//! closed.
//!
//! `Relay` is the pair view of the two flows: each event touches exactly one
//! flow and leaves the other untouched, which is what makes the directions
//! independent. `Forwarder` is the lifecycle: look up the peer address, dial
//! the destination exactly once, relay until both flows are done, close both
//! sockets.

use vstd::prelude::*;

use crate::copy::CopyAction;
use crate::copy::CopyLoop;
use crate::copy::Flow;
use crate::copy::ReadEvent;

verus! {

/// The two opposing copy flows of one relayed connection, as a pair.
///
/// Every step touches one flow and carries the guarantee that the opposite
/// flow is left exactly as it was: an error or a half-close in one direction
/// cannot affect the other direction's ability to continue.
pub struct Relay {
    pub up: CopyLoop,
    pub down: CopyLoop,
}

impl Relay {
    pub open spec fn inv(self) -> bool {
        &&& self.up.inv()
        &&& self.down.inv()
        &&& self.up.flow is Up
        &&& self.down.flow is Down
    }

    /// Both flows have terminated: the connection has run its course.
    pub open spec fn complete(self) -> bool {
        self.up.done() && self.down.done()
    }

    /// A fresh pair: both flows ready, nothing received, nothing forwarded.
    pub fn new() -> (r: Relay)
        ensures
            r.inv(),
            !r.complete(),
            r.up.status is Ready,
            r.down.status is Ready,
            r.up.received@ == Seq::<u8>::empty(),
            r.up.forwarded@ == Seq::<u8>::empty(),
            r.down.received@ == Seq::<u8>::empty(),
            r.down.forwarded@ == Seq::<u8>::empty(),
    {
        Relay { up: CopyLoop::new(Flow::Up), down: CopyLoop::new(Flow::Down) }
    }

    /// A read on the client socket: an event for the up flow alone.
    pub fn up_read(&mut self, event: ReadEvent) -> (a: CopyAction)
        requires
            old(self).inv(),
            old(self).up.status is Ready,
        ensures
            final(self).inv(),
            final(self).down == old(self).down,
            call_read_step(old(self).up, final(self).up, event, a),
    {
        self.up.on_read(event)
    }

    /// The outcome of writing the up flow's pending chunk to the server.
    pub fn up_write_result(&mut self, ok: bool)
        requires
            old(self).inv(),
            old(self).up.status is Writing,
        ensures
            final(self).inv(),
            final(self).down == old(self).down,
            call_write_step(old(self).up, final(self).up, ok),
    {
        self.up.on_write_result(ok)
    }

    /// A read on the server socket: an event for the down flow alone.
    pub fn down_read(&mut self, event: ReadEvent) -> (a: CopyAction)
        requires
            old(self).inv(),
            old(self).down.status is Ready,
        ensures
            final(self).inv(),
            final(self).up == old(self).up,
            call_read_step(old(self).down, final(self).down, event, a),
    {
        self.down.on_read(event)
    }

    /// The outcome of writing the down flow's pending chunk to the client.
    pub fn down_write_result(&mut self, ok: bool)
        requires
            old(self).inv(),
            old(self).down.status is Writing,
        ensures
            final(self).inv(),
            final(self).up == old(self).up,
            call_write_step(old(self).down, final(self).down, ok),
    {
        self.down.on_write_result(ok)
    }
}

/// What `CopyLoop::on_read` guarantees, restated over a before and an after
/// state so the pair's methods can promise it of the flow they stepped.
pub open spec fn call_read_step(
    before: CopyLoop,
    after: CopyLoop,
    event: ReadEvent,
    a: CopyAction,
) -> bool {
    &&& after.flow == before.flow
    &&& after.forwarded@ == before.forwarded@
    &&& event matches ReadEvent::Data(chunk) ==> {
        &&& after.status is Writing
        &&& after.received@ == before.received@ + chunk@
        &&& after.pending@ == chunk@
        &&& a matches CopyAction::Forward(c) && c@ == chunk@
    }
    &&& event is Eof ==> {
        &&& after.status == crate::copy::CopyStatus::Done(crate::copy::Termination::SourceClosed)
        &&& after.received@ == before.received@
        &&& a is Stop
    }
    &&& event is ReadError ==> {
        &&& after.status == crate::copy::CopyStatus::Done(crate::copy::Termination::ReadFailed)
        &&& after.received@ == before.received@
        &&& a is Stop
    }
}

/// What `CopyLoop::on_write_result` guarantees, restated likewise.
pub open spec fn call_write_step(before: CopyLoop, after: CopyLoop, ok: bool) -> bool {
    &&& after.flow == before.flow
    &&& after.received@ == before.received@
    &&& ok ==> {
        &&& after.status is Ready
        &&& after.forwarded@ == before.forwarded@ + before.pending@
    }
    &&& !ok ==> {
        &&& after.status == crate::copy::CopyStatus::Done(crate::copy::Termination::WriteFailed)
        &&& after.forwarded@ == before.forwarded@
    }
}

/// Why a connection failed before any byte was forwarded.
#[derive(Clone, Copy, Debug, PartialEq, Eq, Structural)]
pub enum SetupError {
    /// The peer address of the accepted client could not be read.
    PeerAddrFailed,
    /// The outbound connection to the destination could not be established.
    DialFailed,
}

/// Where one connection stands in its life.
#[derive(Clone, Copy, Debug, PartialEq, Eq, Structural)]
pub enum ForwarderStatus {
    /// Accepted; the peer address has not been read yet.
    AwaitingPeer,
    /// Peer address known; the destination has not been dialed yet.
    AwaitingDial,
    /// Both sockets open; the two copy flows are running.
    Relaying,
    /// Both flows terminated; both sockets closed.
    Complete,
    /// Setup failed; whatever was open has been closed.
    Failed(SetupError),
}

/// The lifecycle of one relayed connection, from the moment a client socket
/// is accepted to the moment both sockets are closed. `client_open` and
/// `server_open` track the two sockets; `dials` counts the outbound connection
/// attempts made for this client.
pub struct Forwarder {
    pub status: ForwarderStatus,
    pub client_open: bool,
    pub server_open: bool,
    pub dials: Ghost<nat>,
}

impl Forwarder {
    pub open spec fn inv(self) -> bool {
        match self.status {
            ForwarderStatus::AwaitingPeer => {
                &&& self.client_open
                &&& !self.server_open
                &&& self.dials@ == 0
            },
            ForwarderStatus::AwaitingDial => {
                &&& self.client_open
                &&& !self.server_open
                &&& self.dials@ == 0
            },
            ForwarderStatus::Relaying => {
                &&& self.client_open
                &&& self.server_open
                &&& self.dials@ == 1
            },
            ForwarderStatus::Complete => {
                &&& !self.client_open
                &&& !self.server_open
                &&& self.dials@ == 1
            },
            ForwarderStatus::Failed(e) => {
                &&& !self.client_open
                &&& !self.server_open
                &&& self.dials@ == (if e is DialFailed {
                    1nat
                } else {
                    0nat
                })
            },
        }
    }

    /// The connection has run its course, well or badly.
    pub open spec fn terminal(self) -> bool {
        self.status is Complete || self.status is Failed
    }

    /// A connection was accepted: its client socket is open, nothing has
    /// been dialed yet.
    pub fn accept() -> (f: Forwarder)
        ensures
            f.inv(),
            f.status is AwaitingPeer,
            f.client_open,
            !f.server_open,
            f.dials@ == 0,
    {
        Forwarder {
            status: ForwarderStatus::AwaitingPeer,
            client_open: true,
            server_open: false,
            dials: Ghost(0),
        }
    }

    /// Record whether the client's peer address could be read. On failure the
    /// connection is abandoned before any dial, and the client socket closes.
    pub fn on_peer_addr(&mut self, ok: bool)
        requires
            old(self).inv(),
            old(self).status is AwaitingPeer,
        ensures
            final(self).inv(),
            final(self).dials@ == 0,
            ok ==> final(self).status is AwaitingDial && final(self).client_open,
            !ok ==> final(self).status == ForwarderStatus::Failed(SetupError::PeerAddrFailed)
                && !final(self).client_open,
    {
        if ok {
            self.status = ForwarderStatus::AwaitingDial;
        } else {
            self.status = ForwarderStatus::Failed(SetupError::PeerAddrFailed);
            self.client_open = false;
        }
    }

    /// Record the outcome of the one outbound dial. On success both sockets
    /// are open and a fresh pair of copy flows is handed out; on failure the
    /// client socket closes and no flow ever exists for this connection.
    pub fn on_dial(&mut self, ok: bool) -> (flows: Option<Relay>)
        requires
            old(self).inv(),
            old(self).status is AwaitingDial,
        ensures
            final(self).inv(),
            final(self).dials@ == old(self).dials@ + 1,
            ok ==> {
                &&& final(self).status is Relaying
                &&& final(self).client_open
                &&& final(self).server_open
                &&& flows matches Some(r) && r.inv() && r.up.status is Ready
                    && r.down.status is Ready && r.up.received@ == Seq::<u8>::empty()
                    && r.up.forwarded@ == Seq::<u8>::empty()
                    && r.down.received@ == Seq::<u8>::empty()
                    && r.down.forwarded@ == Seq::<u8>::empty()
            },
            !ok ==> {
                &&& final(self).status == ForwarderStatus::Failed(SetupError::DialFailed)
                &&& !final(self).client_open
                &&& !final(self).server_open
                &&& flows is None
            },
    {
        self.dials = Ghost(self.dials@ + 1);
        if ok {
            self.status = ForwarderStatus::Relaying;
            self.server_open = true;
            Some(Relay::new())
        } else {
            self.status = ForwarderStatus::Failed(SetupError::DialFailed);
            self.client_open = false;
            None
        }
    }

    /// Both flows have terminated: the connection is complete and both
    /// sockets are closed. This is the only way out of `Relaying`.
    pub fn finish(&mut self, flows: &Relay)
        requires
            old(self).inv(),
            old(self).status is Relaying,
            flows.inv(),
            flows.complete(),
        ensures
            final(self).inv(),
            final(self).status is Complete,
            !final(self).client_open,
            !final(self).server_open,
            final(self).dials@ == old(self).dials@,
    {
        self.status = ForwarderStatus::Complete;
        self.client_open = false;
        self.server_open = false;
    }
}

/// Pairing: a connection dials the destination exactly once if it ever got
/// as far as dialing — whether the dial succeeded or not — and never dials
/// again; one that failed before dialing never dials at all.
pub proof fn lemma_pairing(f: Forwarder)
    requires
        f.inv(),
    ensures
        f.dials@ <= 1,
        f.status is Relaying || f.status is Complete || f.status == ForwarderStatus::Failed(
            SetupError::DialFailed,
        ) ==> f.dials@ == 1,
        f.status is AwaitingPeer || f.status is AwaitingDial || f.status
            == ForwarderStatus::Failed(SetupError::PeerAddrFailed) ==> f.dials@ == 0,
{
}

/// Resource closure: once a connection has run its course — completed after
/// both flows terminated, or failed during setup — both the client and the
/// server socket are closed.
pub proof fn lemma_resource_closure(f: Forwarder)
    requires
        f.inv(),
        f.terminal(),
    ensures
        !f.client_open,
        !f.server_open,
{
}

} // verus!
