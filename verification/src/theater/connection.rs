//! The connection slot and the rule by which it is filled.
//!
//! A client owns at most one live transport handle. Before a request uses
//! it, the handle is probed; a dead or missing handle is replaced by dialing,
//! and a flag keeps two callers from dialing at the same time. The functions
//! here take each of those decisions; the caller performs the probe and the
//! dial and reports how they went.

use vstd::prelude::*;
use crate::theater::types::Fault;

verus! {

/// What a caller must do next to end up with a usable connection.
#[derive(Clone, Debug, PartialEq, Eq)]
pub enum Ensure {
    /// The slot holds a handle that passed its probe.
    Ready,
    /// Probe the held handle with a zero-length write and report the result.
    Probe,
    /// Dial the server and report the result; the reconnecting flag is held.
    Dial,
    /// No connection for this attempt.
    Failed(Fault),
}

/// The slot and the flag as plain values.
pub struct ConnectionModel<H> {
    /// The live handle, if there is one.
    pub slot: Option<H>,
    /// Whether some caller is dialing right now.
    pub reconnecting: bool,
}

impl<H> ConnectionModel<H> {
    /// A caller asks for a connection: a held handle is probed; an empty slot
    /// is dialed by the caller that finds the flag clear and sets it, and
    /// every other caller fails at once.
    pub open spec fn begin(self) -> (Self, Ensure) {
        if self.slot is Some {
            (self, Ensure::Probe)
        } else if self.reconnecting {
            (self, Ensure::Failed(Fault::ReconnectInProgress))
        } else {
            (ConnectionModel { slot: None, reconnecting: true }, Ensure::Dial)
        }
    }

    /// A probe has finished: a live handle is ready for use; a dead one is
    /// dropped, and the caller goes on as for an empty slot.
    pub open spec fn probed(self, alive: bool) -> (Self, Ensure) {
        if alive && self.slot is Some {
            (self, Ensure::Ready)
        } else {
            self.cleared().begin()
        }
    }

    /// A dial has finished: a new handle is stored, a failure leaves the slot
    /// as it was, and the flag is released either way.
    pub open spec fn dialed(self, outcome: Result<H, String>) -> (Self, Ensure) {
        match outcome {
            Ok(handle) => (ConnectionModel { slot: Some(handle), reconnecting: false }, Ensure::Ready),
            Err(detail) => (
                ConnectionModel { slot: self.slot, reconnecting: false },
                Ensure::Failed(Fault::Dial(detail)),
            ),
        }
    }

    /// The slot emptied after a failed write or read; the flag is untouched.
    pub open spec fn cleared(self) -> Self {
        ConnectionModel { slot: None, reconnecting: self.reconnecting }
    }
}

/// The connection slot of one client, generic in the transport handle.
///
/// All calls on one value must be serialised by its owner: a caller holds
/// the client's lock for as long as it uses the handle.
#[derive(Debug)]
pub struct Connection<H> {
    slot: Option<H>,
    reconnecting: bool,
}

impl<H> View for Connection<H> {
    type V = ConnectionModel<H>;

    closed spec fn view(&self) -> ConnectionModel<H> {
        ConnectionModel { slot: self.slot, reconnecting: self.reconnecting }
    }
}

impl<H> Connection<H> {
    /// A slot without a handle.
    pub fn empty() -> (conn: Self)
        ensures
            conn@ == (ConnectionModel::<H> { slot: None, reconnecting: false }),
    {
        Connection { slot: None, reconnecting: false }
    }

    /// A slot that holds the handle of a first, successful dial.
    pub fn with_handle(handle: H) -> (conn: Self)
        ensures
            conn@ == (ConnectionModel { slot: Some(handle), reconnecting: false }),
    {
        Connection { slot: Some(handle), reconnecting: false }
    }

    /// Whether the slot holds a handle.
    pub fn is_connected(&self) -> (b: bool)
        ensures
            b == (self@.slot is Some),
    {
        self.slot.is_some()
    }

    /// Whether some caller is dialing right now.
    pub fn is_reconnecting(&self) -> (b: bool)
        ensures
            b == self@.reconnecting,
    {
        self.reconnecting
    }

    /// The held handle, for the caller to write to and read from.
    pub fn handle_mut(&mut self) -> (handle: Option<&mut H>)
        ensures
            final(self)@.reconnecting == old(self)@.reconnecting,
            match old(self)@.slot {
                None => handle is None && final(self)@.slot is None,
                Some(h) => handle is Some && *handle.unwrap() == h && final(self)@.slot == Some(
                    *final(handle.unwrap()),
                ),
            },
    {
        self.slot.as_mut()
    }

    /// Empties the slot and hands out what it held, for the caller to close.
    pub fn clear(&mut self) -> (dropped: Option<H>)
        ensures
            final(self)@ == old(self)@.cleared(),
            dropped == old(self)@.slot,
    {
        self.slot.take()
    }

    /// First step of securing a connection.
    pub fn ensure_connected(&mut self) -> (step: Ensure)
        ensures
            (final(self)@, step) == old(self)@.begin(),
    {
        if self.slot.is_some() {
            Ensure::Probe
        } else if self.reconnecting {
            Ensure::Failed(Fault::ReconnectInProgress)
        } else {
            self.reconnecting = true;
            Ensure::Dial
        }
    }

    /// Reports the result of the probe that `ensure_connected` asked for.
    ///
    /// The second value is the dead handle, if one was dropped, for the
    /// caller to close.
    pub fn probe_finished(&mut self, alive: bool) -> (r: (Ensure, Option<H>))
        ensures
            (final(self)@, r.0) == old(self)@.probed(alive),
            r.1 == (if alive {
                None
            } else {
                old(self)@.slot
            }),
    {
        if alive && self.slot.is_some() {
            (Ensure::Ready, None)
        } else {
            let dropped: Option<H> = self.slot.take();
            let step: Ensure = self.ensure_connected();
            (step, dropped)
        }
    }

    /// Reports the result of the dial that `ensure_connected` or `probe_finished`
    /// asked for.
    pub fn dial_finished(&mut self, outcome: Result<H, String>) -> (step: Ensure)
        ensures
            (final(self)@, step) == old(self)@.dialed(outcome),
    {
        self.reconnecting = false;
        match outcome {
            Ok(handle) => {
                self.slot = Some(handle);
                Ensure::Ready
            },
            Err(detail) => Ensure::Failed(Fault::Dial(detail)),
        }
    }
}

/// One step of one caller, among several that share a connection.
pub enum RaceStep<H> {
    /// The caller asks for a connection.
    Begin(nat),
    /// The caller reports the result of its probe.
    Probed(nat, bool),
    /// The caller reports the result of its dial.
    Dialed(nat, Result<H, String>),
    /// The caller empties the slot after a failed write or read.
    Cleared(nat),
}

/// Several callers and the connection they share: the slot, the flag, and
/// the callers that are dialing at this moment.
pub struct Race<H> {
    pub conn: ConnectionModel<H>,
    pub dialing: Set<nat>,
}

impl<H> Race<H> {
    /// Nobody is dialing, and the flag is clear.
    pub open spec fn initial(slot: Option<H>) -> Self {
        Race { conn: ConnectionModel { slot, reconnecting: false }, dialing: Set::empty() }
    }

    /// Whether `step` can be the next step: only a caller that was told to
    /// dial reports a dial, and such a caller does nothing else before it.
    pub open spec fn enabled(self, step: RaceStep<H>) -> bool {
        match step {
            RaceStep::Begin(caller) => !self.dialing.contains(caller),
            RaceStep::Probed(caller, _) => !self.dialing.contains(caller),
            RaceStep::Dialed(caller, _) => self.dialing.contains(caller),
            RaceStep::Cleared(caller) => !self.dialing.contains(caller),
        }
    }

    /// The callers that are dialing once `caller` has been answered with `answer`.
    pub open spec fn dialing_after(self, caller: nat, answer: Ensure) -> Set<nat> {
        if answer is Dial {
            self.dialing.insert(caller)
        } else {
            self.dialing
        }
    }

    /// The race after `step`.
    pub open spec fn after(self, step: RaceStep<H>) -> Self {
        match step {
            RaceStep::Begin(caller) => Race {
                conn: self.conn.begin().0,
                dialing: self.dialing_after(caller, self.conn.begin().1),
            },
            RaceStep::Probed(caller, alive) => Race {
                conn: self.conn.probed(alive).0,
                dialing: self.dialing_after(caller, self.conn.probed(alive).1),
            },
            RaceStep::Dialed(caller, outcome) => Race {
                conn: self.conn.dialed(outcome).0,
                dialing: self.dialing.remove(caller),
            },
            RaceStep::Cleared(_) => Race { conn: self.conn.cleared(), dialing: self.dialing },
        }
    }

    /// The race after all of `steps`, in order.
    pub open spec fn run(self, steps: Seq<RaceStep<H>>) -> Self
        decreases steps.len(),
    {
        if steps.len() == 0 {
            self
        } else {
            self.run(steps.drop_last()).after(steps.last())
        }
    }

    /// Whether each of `steps` is enabled when its turn comes.
    pub open spec fn valid(self, steps: Seq<RaceStep<H>>) -> bool
        decreases steps.len(),
    {
        steps.len() == 0 || (self.valid(steps.drop_last()) && self.run(steps.drop_last()).enabled(
            steps.last(),
        ))
    }

    /// The flag is set exactly while one caller is dialing, and no second
    /// caller dials beside it.
    pub open spec fn single_dialer(self) -> bool {
        &&& self.conn.reconnecting ==> exists|caller: nat| self.dialing == set![caller]
        &&& !self.conn.reconnecting ==> self.dialing == Set::<nat>::empty()
    }
}

/// Where one caller at most is dialing, any two dialing callers are the same caller.
pub proof fn lemma_dialers_coincide<H>(race: Race<H>, a: nat, b: nat)
    requires
        race.single_dialer(),
        race.dialing.contains(a),
        race.dialing.contains(b),
    ensures
        a == b,
        race.conn.reconnecting,
{
    if race.conn.reconnecting {
        let caller = choose|caller: nat| race.dialing == set![caller];
        assert(set![caller].contains(a));
        assert(set![caller].contains(b));
    }
}

/// Every enabled step keeps the number of dialing callers at one or none.
pub proof fn lemma_step_keeps_single_dialer<H>(race: Race<H>, step: RaceStep<H>)
    requires
        race.single_dialer(),
        race.enabled(step),
    ensures
        race.after(step).single_dialer(),
{
    let next = race.after(step);
    match step {
        RaceStep::Begin(caller) => {
            if race.conn.begin().1 is Dial {
                assert(next.dialing =~= set![caller]);
            }
        },
        RaceStep::Probed(caller, alive) => {
            if race.conn.probed(alive).1 is Dial {
                assert(next.dialing =~= set![caller]);
            }
        },
        RaceStep::Dialed(caller, outcome) => {
            lemma_dialers_coincide(race, caller, caller);
            let only = choose|only: nat| race.dialing == set![only];
            assert(set![only].contains(caller));
            assert(next.dialing =~= Set::<nat>::empty());
        },
        RaceStep::Cleared(_) => {},
    }
}

/// However the steps of any number of callers interleave, starting with the
/// flag clear, no two callers are ever dialing at the same time.
pub proof fn lemma_single_dialer<H>(slot: Option<H>, steps: Seq<RaceStep<H>>)
    requires
        Race::initial(slot).valid(steps),
    ensures
        Race::initial(slot).run(steps).single_dialer(),
    decreases steps.len(),
{
    if steps.len() > 0 {
        lemma_single_dialer(slot, steps.drop_last());
        lemma_step_keeps_single_dialer(Race::initial(slot).run(steps.drop_last()), steps.last());
    }
}

/// Two callers find the slot empty: the first is told to dial, and the
/// second, asking before that dial has finished, fails at once and leaves
/// the connection as it found it.
pub proof fn lemma_second_caller_fails_fast<H>(conn: ConnectionModel<H>)
    requires
        conn.slot is None,
        !conn.reconnecting,
    ensures
        conn.begin().1 == Ensure::Dial,
        conn.begin().0.begin().1 == Ensure::Failed(Fault::ReconnectInProgress),
        conn.begin().0.begin().0 == conn.begin().0,
{
}

/// Once the dialing caller has stored its handle, the flag is clear again,
/// and the next caller is told to probe that handle, not to dial.
pub proof fn lemma_reconnect_is_shared<H>(conn: ConnectionModel<H>, handle: H)
    requires
        conn.slot is None,
        !conn.reconnecting,
    ensures
        conn.begin().0.dialed(Ok(handle)).1 == Ensure::Ready,
        conn.begin().0.dialed(Ok(handle)).0 == (ConnectionModel {
            slot: Some(handle),
            reconnecting: false,
        }),
        conn.begin().0.dialed(Ok(handle)).0.begin().1 == Ensure::Probe,
{
}

/// A failed dial releases the flag too, so that a later caller may dial again.
pub proof fn lemma_failed_dial_releases<H>(conn: ConnectionModel<H>, detail: String)
    requires
        conn.slot is None,
        !conn.reconnecting,
    ensures
        conn.begin().0.dialed(Err(detail)).1 == Ensure::Failed(Fault::Dial(detail)),
        conn.begin().0.dialed(Err(detail)).0 == conn,
        conn.begin().0.dialed(Err(detail)).0.begin().1 == Ensure::Dial,
{
}

} // verus!
