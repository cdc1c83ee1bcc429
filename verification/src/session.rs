//! The decisions of one robust Modbus command.
//!
//! A command is read from the device; when the transport fails, the client
//! reconnects (a few tries, a short pause between them) and then tries the
//! command again after a short pause, a bounded number of times. A reply of the
//! device, an exception reply included, ends the command at once.
//!
//! The waiting, the reading and the connecting are done by the caller: it
//! performs the [`Step`] that the session asks for and reports what came of it.
use vstd::prelude::*;
use crate::retry::{
    fixed_delays, FixedRetry, COMMAND_RETRIES, CONNECT_RETRIES, RETRY_INTERVAL_MILLIS,
};

verus! {

/// Where a command stands.
#[derive(Clone, Copy, Debug, PartialEq, Eq)]
pub enum Phase {
    /// A read of the command is due.
    Reading,
    /// The last read failed in transport; a connection attempt is due.
    Reconnecting,
    /// The command has its result.
    Finished,
}

/// What the caller is asked to do next.
#[derive(Debug)]
pub enum Step<V, E> {
    /// Try to connect now.
    Connect,
    /// Wait about this many milliseconds (randomly shortened), then read.
    ReadAfter(u64),
    /// Wait about this many milliseconds (randomly shortened), then try to connect.
    ConnectAfter(u64),
    /// The command is over, with this result.
    Finish(Result<V, E>),
}

/// How a reconnect ended.
#[derive(Clone, Copy, Debug, PartialEq, Eq)]
pub enum Reconnect {
    /// A connection attempt succeeded.
    Reconnected,
    /// Every connection attempt failed.
    GaveUp,
}

/// The abstract state of a command.
pub struct SessionState<E> {
    pub phase: Phase,
    /// Reads performed so far.
    pub reads: nat,
    /// Failed connection attempts in the current reconnect.
    pub connects: nat,
    /// Base delays left for retrying the command.
    pub command_delays: Seq<u64>,
    /// Base delays left for retrying the connection.
    pub connect_delays: Seq<u64>,
    /// The transport error of the read that started the current reconnect.
    pub pending: Option<E>,
}

impl<E> SessionState<E> {
    /// Every state of a command reachable from its start has this shape.
    pub open spec fn wf(self) -> bool {
        &&& forall|i: int|
            0 <= i < self.command_delays.len() ==> #[trigger] self.command_delays[i]
                == RETRY_INTERVAL_MILLIS
        &&& forall|i: int|
            0 <= i < self.connect_delays.len() ==> #[trigger] self.connect_delays[i]
                == RETRY_INTERVAL_MILLIS
        &&& self.connect_delays.len() <= CONNECT_RETRIES
        &&& match self.phase {
            Phase::Reading => {
                &&& self.reads + self.command_delays.len() == COMMAND_RETRIES
                &&& self.pending is None
            },
            Phase::Reconnecting => {
                &&& self.reads + self.command_delays.len() == COMMAND_RETRIES + 1
                &&& self.reads >= 1
                &&& self.connects + self.connect_delays.len() == CONNECT_RETRIES
                &&& self.pending is Some
            },
            Phase::Finished => self.reads <= COMMAND_RETRIES + 1,
        }
    }

    /// A bound on the number of events that the command can still take.
    pub open spec fn measure(self) -> int {
        match self.phase {
            Phase::Reading => (self.command_delays.len() * 5 + 5) as int,
            Phase::Reconnecting => self.command_delays.len() * 5 + 4 - self.connects,
            Phase::Finished => 0,
        }
    }

    /// The state of a command that has not read yet.
    pub open spec fn initial() -> Self {
        SessionState {
            phase: Phase::Reading,
            reads: 0,
            connects: 0,
            command_delays: fixed_delays(RETRY_INTERVAL_MILLIS, COMMAND_RETRIES as nat),
            connect_delays: Seq::empty(),
            pending: None,
        }
    }
}

/// Whatever the device and the network do, a command reads at most four times,
/// makes at most four connection attempts in each reconnect, and is over after
/// at most 20 reported events (every event lowers `measure`, which is never
/// negative and starts at 20).
pub proof fn lemma_attempts_bounded<E>(s: SessionState<E>)
    requires
        s.wf(),
    ensures
        s.reads <= COMMAND_RETRIES + 1,
        s.phase == Phase::Reading ==> s.reads < COMMAND_RETRIES + 1,
        s.phase == Phase::Reconnecting ==> s.connects < CONNECT_RETRIES + 1,
        0 <= s.measure() <= SessionState::<E>::initial().measure(),
        SessionState::<E>::initial().measure() == 20,
{
    assert(SessionState::<E>::initial().command_delays.len() == COMMAND_RETRIES);
}

/// What a reported read does: the next state of the command and the step that
/// it asks for. A reply ends the command with it; a transport failure starts a
/// reconnect with a fresh connect budget and keeps the error.
pub open spec fn read_next<V, E>(s: SessionState<E>, outcome: Result<V, E>) -> (
    SessionState<E>,
    Step<V, E>,
) {
    match outcome {
        Ok(v) => (
            SessionState { phase: Phase::Finished, reads: s.reads + 1, ..s },
            Step::Finish(Ok(v)),
        ),
        Err(e) => (
            SessionState {
                phase: Phase::Reconnecting,
                reads: s.reads + 1,
                connects: 0,
                connect_delays: fixed_delays(RETRY_INTERVAL_MILLIS, CONNECT_RETRIES as nat),
                pending: Some(e),
                ..s
            },
            Step::Connect,
        ),
    }
}

/// What a reported connection attempt does: the next state, the step asked for,
/// and, when the reconnect ends, how it ended. A failed attempt with budget left
/// is tried again after the next delay. Otherwise the reconnect ends, and the
/// command is read again after the next delay of its budget, or, with that
/// budget spent, ends with the error that started the reconnect.
pub open spec fn connect_next<V, E>(s: SessionState<E>, connected: bool) -> (
    SessionState<E>,
    Step<V, E>,
    Option<Reconnect>,
) {
    if !connected && s.connect_delays.len() > 0 {
        (
            SessionState {
                connects: s.connects + 1,
                connect_delays: s.connect_delays.drop_first(),
                ..s
            },
            Step::ConnectAfter(s.connect_delays[0]),
            None,
        )
    } else {
        let report = if connected {
            Reconnect::Reconnected
        } else {
            Reconnect::GaveUp
        };
        if s.command_delays.len() > 0 {
            (
                SessionState {
                    phase: Phase::Reading,
                    command_delays: s.command_delays.drop_first(),
                    pending: None,
                    ..s
                },
                Step::ReadAfter(s.command_delays[0]),
                Some(report),
            )
        } else {
            (
                SessionState { phase: Phase::Finished, pending: None, ..s },
                Step::Finish(Err(s.pending.unwrap())),
                Some(report),
            )
        }
    }
}

/// A reported read keeps a command well formed and lowers its measure.
pub proof fn lemma_read_next_wf<V, E>(s: SessionState<E>, outcome: Result<V, E>)
    requires
        s.wf(),
        s.phase == Phase::Reading,
    ensures
        read_next(s, outcome).0.wf(),
        read_next(s, outcome).0.measure() < s.measure(),
{
}

/// A reported connection attempt keeps a command well formed and lowers its
/// measure.
pub proof fn lemma_connect_next_wf<V, E>(s: SessionState<E>, connected: bool)
    requires
        s.wf(),
        s.phase == Phase::Reconnecting,
    ensures
        connect_next::<V, E>(s, connected).0.wf(),
        connect_next::<V, E>(s, connected).0.measure() < s.measure(),
{
    let t = connect_next::<V, E>(s, connected).0;
    if !connected && s.connect_delays.len() > 0 {
        assert forall|i: int| 0 <= i < t.connect_delays.len() implies #[trigger] t.connect_delays[i]
            == RETRY_INTERVAL_MILLIS by {
            assert(t.connect_delays[i] == s.connect_delays[i + 1]);
        }
    } else if s.command_delays.len() > 0 {
        assert forall|i: int| 0 <= i < t.command_delays.len() implies #[trigger] t.command_delays[i]
            == RETRY_INTERVAL_MILLIS by {
            assert(t.command_delays[i] == s.command_delays[i + 1]);
        }
    }
}

/// What the caller reports to a session.
pub enum Event<V, E> {
    /// The outcome of a read.
    Read(Result<V, E>),
    /// Whether a connection attempt succeeded.
    Connect(bool),
}

/// The result that a step carries, if it ends the command.
pub open spec fn finish_of<V, E>(step: Step<V, E>) -> Option<Result<V, E>> {
    match step {
        Step::Finish(r) => Some(r),
        _ => None,
    }
}

/// The event is one that the command in state `s` waits for.
pub open spec fn expects<V, E>(s: SessionState<E>, ev: Event<V, E>) -> bool {
    match ev {
        Event::Read(_) => s.phase == Phase::Reading,
        Event::Connect(_) => s.phase == Phase::Reconnecting,
    }
}

/// The state after an event, and the command's result if the event ends it.
pub open spec fn apply<V, E>(s: SessionState<E>, ev: Event<V, E>) -> (
    SessionState<E>,
    Option<Result<V, E>>,
) {
    match ev {
        Event::Read(o) => (read_next(s, o).0, finish_of(read_next(s, o).1)),
        Event::Connect(c) => (
            connect_next::<V, E>(s, c).0,
            finish_of(connect_next::<V, E>(s, c).1),
        ),
    }
}

/// A command from its start through the events `evs`: its state, and its result
/// if the last event ended it.
pub open spec fn run<V, E>(evs: Seq<Event<V, E>>) -> (SessionState<E>, Option<Result<V, E>>)
    decreases evs.len(),
{
    if evs.len() == 0 {
        (SessionState::initial(), None)
    } else {
        apply(run(evs.drop_last()).0, evs.last())
    }
}

/// Each event of `evs` is one that the command waited for when it came.
pub open spec fn follows_steps<V, E>(evs: Seq<Event<V, E>>) -> bool
    decreases evs.len(),
{
    evs.len() == 0 || (follows_steps(evs.drop_last()) && expects(run(evs.drop_last()).0, evs.last()))
}

/// How many reads `evs` report.
pub open spec fn read_count<V, E>(evs: Seq<Event<V, E>>) -> nat
    decreases evs.len(),
{
    if evs.len() == 0 {
        0
    } else {
        read_count(evs.drop_last()) + if evs.last() is Read {
            1nat
        } else {
            0nat
        }
    }
}

/// The outcome of the last read that `evs` report.
pub open spec fn last_read<V, E>(evs: Seq<Event<V, E>>) -> Option<Result<V, E>>
    decreases evs.len(),
{
    if evs.len() == 0 {
        None
    } else {
        match evs.last() {
            Event::Read(o) => Some(o),
            Event::Connect(_) => last_read(evs.drop_last()),
        }
    }
}

/// The event reports a reply of the device.
pub open spec fn is_reply<V, E>(ev: Event<V, E>) -> bool {
    match ev {
        Event::Read(Ok(_)) => true,
        _ => false,
    }
}

/// None of `evs` reports a reply of the device.
pub open spec fn no_reply<V, E>(evs: Seq<Event<V, E>>) -> bool {
    forall|i: int| 0 <= i < evs.len() ==> !is_reply(#[trigger] evs[i])
}

/// The result of a command, whatever the device and the network do: a command
/// that has a result got it from the last read it made; every read before that
/// one failed in transport; a command ends in error only after four reads, with
/// the error of the fourth; until the end, every state is well formed, the reads
/// made are the reads reported, and a reconnect keeps the error of the read that
/// failed last. Between two reads there is always a connection attempt. No
/// command takes more than 20 events.
pub proof fn lemma_command_result<V, E>(evs: Seq<Event<V, E>>)
    requires
        follows_steps(evs),
    ensures
        run(evs).0.wf(),
        run(evs).0.reads == read_count(evs),
        run(evs).0.measure() <= 20 - evs.len(),
        evs.len() <= 20,
        run(evs).1 is Some <==> run(evs).0.phase == Phase::Finished,
        forall|i: int|
            1 <= i < evs.len() && (#[trigger] evs[i] is Read) ==> evs[i - 1] is Connect,
        run(evs).0.phase != Phase::Finished ==> no_reply(evs),
        run(evs).0.phase == Phase::Reconnecting ==> last_read(evs) == Some(
            Err::<V, E>(run(evs).0.pending.unwrap()),
        ),
        run(evs).0.phase == Phase::Finished ==> {
            &&& run(evs).1 == last_read(evs)
            &&& no_reply(evs.drop_last())
            &&& (run(evs).1 matches Some(Err(_)) ==> read_count(evs) == COMMAND_RETRIES + 1)
        },
    decreases evs.len(),
{
    if evs.len() == 0 {
        lemma_attempts_bounded(SessionState::<E>::initial());
        assert(SessionState::<E>::initial().wf());
    } else {
        let p = evs.drop_last();
        let ev = evs.last();
        lemma_command_result(p);
        let s = run(p).0;
        lemma_attempts_bounded(s);
        assert forall|i: int| 0 <= i < p.len() implies p[i] == evs[i] by {}
        if p.len() > 0 && ev is Read {
            let q = p.drop_last();
            assert(run(p) == apply(run(q).0, p.last()));
            assert(p[p.len() - 1] == p.last());
        }
        match ev {
            Event::Read(o) => {
                lemma_read_next_wf(s, o);
            },
            Event::Connect(c) => {
                lemma_connect_next_wf::<V, E>(s, c);
            },
        }
        assert(no_reply(p) && !is_reply(ev) ==> no_reply(evs)) by {
            if no_reply(p) && !is_reply(ev) {
                assert forall|i: int| 0 <= i < evs.len() implies !is_reply(#[trigger] evs[i]) by {
                    if i < p.len() {
                        assert(evs[i] == p[i]);
                    }
                }
            }
        }
    }
}

/// The decision state of one command.
pub struct ReadSession<E> {
    phase: Phase,
    reads: u64,
    connects: u64,
    command: FixedRetry,
    connect: FixedRetry,
    pending: Option<E>,
}

impl<E> View for ReadSession<E> {
    type V = SessionState<E>;

    closed spec fn view(&self) -> SessionState<E> {
        SessionState {
            phase: self.phase,
            reads: self.reads as nat,
            connects: self.connects as nat,
            command_delays: self.command@,
            connect_delays: self.connect@,
            pending: self.pending,
        }
    }
}

impl<E> ReadSession<E> {
    /// The session is in a state reachable from its start.
    pub open spec fn wf(&self) -> bool {
        self@.wf()
    }

    /// A new command. Its first step is a read, at once.
    pub fn begin() -> (s: Self)
        ensures
            s.wf(),
            s@ == SessionState::<E>::initial(),
    {
        let s = ReadSession {
            phase: Phase::Reading,
            reads: 0,
            connects: 0,
            command: FixedRetry::for_command(),
            connect: FixedRetry::new(RETRY_INTERVAL_MILLIS, 0),
            pending: None,
        };
        proof {
            assert(s@.connect_delays =~= Seq::<u64>::empty());
        }
        s
    }

    /// Where the command stands.
    pub fn phase(&self) -> (p: Phase)
        ensures
            p == self@.phase,
    {
        self.phase
    }

    /// Reports the outcome of a read: `Ok` is a reply of the device (data or an
    /// exception), `Err` a failure of the transport.
    ///
    /// A reply ends the command with it. A transport failure starts a reconnect.
    pub fn on_read<V>(&mut self, outcome: Result<V, E>) -> (step: Step<V, E>)
        requires
            old(self).wf(),
            old(self)@.phase == Phase::Reading,
        ensures
            final(self)@ == read_next(old(self)@, outcome).0,
            step == read_next(old(self)@, outcome).1,
            final(self).wf(),
            final(self)@.measure() < old(self)@.measure(),
            final(self)@.reads == old(self)@.reads + 1,
            final(self)@.command_delays == old(self)@.command_delays,
            outcome is Ok ==> {
                &&& step == Step::<V, E>::Finish(outcome)
                &&& final(self)@.phase == Phase::Finished
            },
            outcome is Err ==> {
                &&& step == Step::<V, E>::Connect
                &&& final(self)@.phase == Phase::Reconnecting
                &&& final(self)@.connects == 0
                &&& final(self)@.connect_delays == fixed_delays(
                    RETRY_INTERVAL_MILLIS,
                    CONNECT_RETRIES as nat,
                )
                &&& final(self)@.pending == Some(outcome->Err_0)
            },
    {
        proof {
            lemma_read_next_wf(old(self)@, outcome);
        }
        self.reads = self.reads + 1;
        match outcome {
            Ok(v) => {
                self.phase = Phase::Finished;
                Step::Finish(Ok(v))
            },
            Err(e) => {
                self.phase = Phase::Reconnecting;
                self.connects = 0;
                self.connect = FixedRetry::for_connect();
                self.pending = Some(e);
                Step::Connect
            },
        }
    }

    /// Reports whether a connection attempt succeeded.
    ///
    /// A failed attempt is tried again after the next delay of the reconnect
    /// budget. When an attempt succeeds or the budget is spent, the reconnect
    /// ends (and says how); the command is then read again after the next delay
    /// of its budget, or, with that budget spent, ends with the error of the read
    /// that failed last.
    pub fn on_connect<V>(&mut self, connected: bool) -> (res: (Step<V, E>, Option<Reconnect>))
        requires
            old(self).wf(),
            old(self)@.phase == Phase::Reconnecting,
        ensures
            final(self)@ == connect_next::<V, E>(old(self)@, connected).0,
            res.0 == connect_next::<V, E>(old(self)@, connected).1,
            res.1 == connect_next::<V, E>(old(self)@, connected).2,
            final(self).wf(),
            final(self)@.measure() < old(self)@.measure(),
            connected ==> res.1 == Some(Reconnect::Reconnected),
            !connected && old(self)@.connect_delays.len() == 0 ==> res.1 == Some(
                Reconnect::GaveUp,
            ),
            !connected && old(self)@.connect_delays.len() > 0 ==> {
                &&& res.0 == Step::<V, E>::ConnectAfter(old(self)@.connect_delays[0])
                &&& res.1 is None
                &&& final(self)@ == SessionState {
                    connects: old(self)@.connects + 1,
                    connect_delays: old(self)@.connect_delays.drop_first(),
                    ..old(self)@
                }
            },
            res.1 is Some && old(self)@.command_delays.len() > 0 ==> {
                &&& res.0 == Step::<V, E>::ReadAfter(old(self)@.command_delays[0])
                &&& final(self)@.phase == Phase::Reading
            },
            res.1 is Some && old(self)@.command_delays.len() == 0 ==> {
                &&& res.0 == Step::<V, E>::Finish(Err(old(self)@.pending.unwrap()))
                &&& final(self)@.phase == Phase::Finished
                &&& final(self)@.reads == COMMAND_RETRIES + 1
            },
    {
        proof {
            lemma_connect_next_wf::<V, E>(old(self)@, connected);
        }
        if !connected {
            match self.connect.next_delay() {
                Some(d) => {
                    self.connects = self.connects + 1;
                    return (Step::ConnectAfter(d), None);
                },
                None => {},
            }
        }
        let report = if connected {
            Reconnect::Reconnected
        } else {
            Reconnect::GaveUp
        };
        match self.command.next_delay() {
            Some(d) => {
                self.phase = Phase::Reading;
                self.pending = None;
                (Step::ReadAfter(d), Some(report))
            },
            None => {
                self.phase = Phase::Finished;
                match self.pending.take() {
                    Some(e) => (Step::Finish(Err(e)), Some(report)),
                    None => {
                        proof {
                            assert(false);
                        }
                        (Step::Connect, Some(report))
                    },
                }
            },
        }
    }
}

} // verus!
