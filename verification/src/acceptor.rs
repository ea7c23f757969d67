//! The accept loop: bind once, then take accepted sockets one after another
//! and dispatch each to a forwarder of its own.
//!
//! The decisions are small but load-bearing: every accepted connection gets
//! exactly one forwarder, and a failed accept is logged and survived — the
//! loop has no state from which it could not take the next connection.

use vstd::prelude::*;

verus! {

/// The state of the accept loop. Two ghost counters record how many
/// connections were accepted and how many forwarders were dispatched.
pub struct Acceptor {
    pub accepted: Ghost<nat>,
    pub dispatched: Ghost<nat>,
}

impl Acceptor {
    /// Every accepted connection has been dispatched to exactly one
    /// forwarder: none dropped, none duplicated.
    pub open spec fn inv(self) -> bool {
        self.dispatched@ == self.accepted@
    }

    /// The outcome of binding the listening endpoint. Only a successful bind
    /// yields an acceptor; on failure there is nothing to run and the
    /// process exits with a diagnostic and a non-zero status.
    pub fn bind(ok: bool) -> (r: Option<Acceptor>)
        ensures
            r matches Some(a) ==> ok && a.inv() && a.accepted@ == 0 && a.dispatched@ == 0,
            r is None <==> !ok,
    {
        if ok {
            Some(Acceptor { accepted: Ghost(0), dispatched: Ghost(0) })
        } else {
            None
        }
    }

    /// Decide what one accept attempt means: a socket is dispatched to a new
    /// forwarder; a failed accept is logged and the loop goes on. There is no
    /// third outcome — a transient accept failure cannot stop the relay.
    pub fn on_accept(&mut self, ok: bool) -> (dispatch: bool)
        requires
            old(self).inv(),
        ensures
            final(self).inv(),
            dispatch == ok,
            ok ==> final(self).accepted@ == old(self).accepted@ + 1 && final(self).dispatched@
                == old(self).dispatched@ + 1,
            !ok ==> final(self).accepted@ == old(self).accepted@ && final(self).dispatched@
                == old(self).dispatched@,
    {
        if ok {
            self.accepted = Ghost(self.accepted@ + 1);
            self.dispatched = Ghost(self.dispatched@ + 1);
            true
        } else {
            false
        }
    }
}

/// One forwarder per accepted connection, at the acceptor's end: however the
/// loop has run, the dispatch count equals the accept count.
pub proof fn lemma_one_forwarder_each(a: Acceptor)
    requires
        a.inv(),
    ensures
        a.dispatched@ == a.accepted@,
{
}

} // verus!
