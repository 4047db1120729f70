use crate::channel::ChannelController;
use crate::level::{active_low_spec, Level};
use crate::sequencer::{restart_state, seed_state};
use crate::slot::SignalSlot;
use crate::sequencer::{StepSequencer, STEP_MS};
use vstd::prelude::*;

verus! {

/// One observed transition: at `time_ms`, channel `channel` (from 1) was set
/// to `state`, which put its line at `level`.
#[derive(Clone, Copy, Debug, PartialEq, Eq, Structural)]
pub struct Transition {
    pub time_ms: u64,
    pub channel: usize,
    pub state: bool,
    pub level: Level,
}

/// A channel that holds a state until its forwarding delay has passed.
#[derive(Clone, Copy, Debug, PartialEq, Eq, Structural)]
struct Hold {
    channel: usize,
    state: bool,
    until_ms: u64,
}

/// Where the single state of a running chain is. Channels are numbered from
/// 0 here.
pub enum Token {
    /// In the input slot of `channel`.
    Waiting { channel: nat, state: bool },
    /// Held by `channel` until `until`.
    Holding { channel: nat, state: bool, until: int },
    /// In the slot that the sequencer waits on.
    Returning { state: bool },
}

/// What one scheduling step of the chain did.
#[derive(Clone, Copy, Debug, PartialEq, Eq, Structural)]
pub enum ChaseEvent {
    /// A channel took its input and drove its output.
    Drive(Transition),
    /// Channel `from` (from 1) passed `state` on at `at_ms`.
    Forward { from: usize, state: bool, at_ms: u64 },
    /// The sequencer sent `state` into the first channel.
    Restart { state: bool },
}

/// The self-timed chain of three channels, run on a virtual clock: each
/// channel waits on its slot, the last one signals the sequencer's slot, and
/// the sequencer inverts the state into the first slot.
pub struct Chase {
    delays: [u16; 3],
    first: SignalSlot,
    second: SignalSlot,
    third: SignalSlot,
    terminal: SignalSlot,
    held: Option<Hold>,
    now: u64,
}

/// Exactly one of four slots holds a value.
pub open spec fn one_full(a: Option<bool>, b: Option<bool>, c: Option<bool>, d: Option<bool>) -> bool {
    ||| a is Some && b is None && c is None && d is None
    ||| a is None && b is Some && c is None && d is None
    ||| a is None && b is None && c is Some && d is None
    ||| a is None && b is None && c is None && d is Some
}

/// The state of the `k`-th transition (from 0) of a chain seeded with
/// `true`: three transitions on, three off, and so on.
pub open spec fn chase_state(k: nat) -> bool {
    (k / 3) % 2 == 0
}

/// The time of the `k`-th transition: each one comes the forwarding delay of
/// the channel before it after the previous one.
pub open spec fn chase_time(d: Seq<u16>, k: nat) -> int
    decreases k,
{
    if k == 0 {
        0
    } else {
        chase_time(d, (k - 1) as nat) + d[((k - 1) as nat % 3) as int]
    }
}

/// The `k`-th transition of a chain with forwarding delays `d`.
pub open spec fn chase_transition(d: Seq<u16>, k: nat) -> Transition {
    Transition {
        time_ms: chase_time(d, k) as u64,
        channel: (k % 3 + 1) as usize,
        state: chase_state(k),
        level: active_low_spec(chase_state(k)),
    }
}

/// The `k`-th transition of the externally timed pattern: one every 500 ms,
/// channels 1 to 3 on, then channels 1 to 3 off.
pub open spec fn baseline_transition(k: nat) -> Transition {
    Transition {
        time_ms: (500 * k) as u64,
        channel: (k % 3 + 1) as usize,
        state: k % 6 < 3,
        level: active_low_spec(k % 6 < 3),
    }
}

/// No transition of a chain comes later than the longest delay times its
/// index.
pub proof fn lemma_chase_time_bound(d: Seq<u16>, k: nat)
    requires
        d.len() == 3,
    ensures
        0 <= chase_time(d, k) <= k * 65535,
    decreases k,
{
    if k > 0 {
        lemma_chase_time_bound(d, (k - 1) as nat);
    }
}

/// Between a channel's transition and the next one lies exactly that
/// channel's forwarding delay.
pub proof fn lemma_delay_fidelity(d: Seq<u16>, k: nat)
    requires
        d.len() == 3,
    ensures
        chase_time(d, k + 1) - chase_time(d, k) == d[(k % 3) as int],
        chase_transition(d, k + 1).channel == (if k % 3 == 2 {
            1
        } else {
            chase_transition(d, k).channel + 1
        }),
{
}

/// The state passes from one channel to the next unchanged; it is inverted
/// only when it comes back from the last channel to the first.
pub proof fn lemma_only_sequencer_inverts(k: nat)
    ensures
        chase_state(k + 1) == (if k % 3 == 2 {
            !chase_state(k)
        } else {
            chase_state(k)
        }),
{
}

/// The chain repeats: three transitions later the same channel is set to the
/// opposite state, one sum of the delays later; six transitions later the
/// same channel is set to the same state.
pub proof fn lemma_chase_period(d: Seq<u16>, k: nat)
    requires
        d.len() == 3,
    ensures
        chase_time(d, k + 3) == chase_time(d, k) + d[0] + d[1] + d[2],
        chase_time(d, k + 6) == chase_time(d, k) + 2 * (d[0] + d[1] + d[2]),
        chase_transition(d, k + 3).channel == chase_transition(d, k).channel,
        chase_state(k + 3) == !chase_state(k),
        chase_state(k + 6) == chase_state(k),
        chase_transition(d, k + 6).channel == chase_transition(d, k).channel,
        chase_transition(d, k + 6).level == chase_transition(d, k).level,
{
    assert(chase_time(d, k + 1) == chase_time(d, k) + d[(k % 3) as int]);
    assert(chase_time(d, k + 2) == chase_time(d, k + 1) + d[((k + 1) % 3) as int]);
    assert(chase_time(d, k + 3) == chase_time(d, k + 2) + d[((k + 2) % 3) as int]);
    assert(chase_time(d, k + 4) == chase_time(d, k + 3) + d[((k + 3) % 3) as int]);
    assert(chase_time(d, k + 5) == chase_time(d, k + 4) + d[((k + 4) % 3) as int]);
    assert(chase_time(d, k + 6) == chase_time(d, k + 5) + d[((k + 5) % 3) as int]);
}

/// The externally timed pattern: transitions 500 ms apart, and after six of
/// them the same channel is set to the same state 3000 ms later.
pub proof fn lemma_baseline_period(k: nat)
    requires
        500 * (k + 6) <= u64::MAX,
    ensures
        baseline_transition(k + 1).time_ms == baseline_transition(k).time_ms + 500,
        baseline_transition(k + 6).time_ms == baseline_transition(k).time_ms + 3000,
        baseline_transition(k + 6).channel == baseline_transition(k).channel,
        baseline_transition(k + 6).state == baseline_transition(k).state,
        baseline_transition(k + 6).level == baseline_transition(k).level,
{
    assert((k + 6) % 6 == k % 6);
    assert((k + 6) % 3 == k % 3);
    assert(500 * (k + 1) == 500 * k + 500);
    assert(500 * (k + 6) == 500 * k + 3000);
}

impl Chase {
    /// The forwarding delays of the three channels.
    pub closed spec fn delays(&self) -> Seq<u16> {
        self.delays@
    }

    /// The virtual time in milliseconds.
    pub closed spec fn clock(&self) -> int {
        self.now as int
    }

    /// What the input slot of channel `c` (from 0) holds.
    pub closed spec fn input(&self, c: nat) -> Option<bool> {
        if c == 0 {
            self.first@
        } else if c == 1 {
            self.second@
        } else {
            self.third@
        }
    }

    /// What the sequencer's slot holds.
    pub closed spec fn returned(&self) -> Option<bool> {
        self.terminal@
    }

    /// The single state is held by a channel, or lies in exactly one slot.
    pub closed spec fn wf(&self) -> bool {
        match self.held {
            Some(h) => {
                &&& h.channel < 3
                &&& self.now <= h.until_ms
                &&& self.first@ is None
                &&& self.second@ is None
                &&& self.third@ is None
                &&& self.terminal@ is None
            },
            None => one_full(self.first@, self.second@, self.third@, self.terminal@),
        }
    }

    /// Where the state of a well-formed chain is.
    pub closed spec fn token(&self) -> Token {
        match self.held {
            Some(h) => Token::Holding { channel: h.channel as nat, state: h.state, until: h.until_ms as int },
            None => if self.first@ is Some {
                Token::Waiting { channel: 0, state: self.first@->0 }
            } else if self.second@ is Some {
                Token::Waiting { channel: 1, state: self.second@->0 }
            } else if self.third@ is Some {
                Token::Waiting { channel: 2, state: self.third@->0 }
            } else {
                Token::Returning { state: self.terminal@->0 }
            },
        }
    }

    /// A chain at rest at time 0, into whose first slot the sequencer has
    /// sent its seed.
    pub fn start(delays: [u16; 3]) -> (r: Chase)
        ensures
            r.wf(),
            r.delays() == delays@,
            r.clock() == 0,
            r.token() == (Token::Waiting { channel: 0, state: true }),
    {
        let mut first = SignalSlot::new();
        first.signal(seed_state());
        Chase {
            delays,
            first,
            second: SignalSlot::new(),
            third: SignalSlot::new(),
            terminal: SignalSlot::new(),
            held: None,
            now: 0,
        }
    }

    /// The virtual time in milliseconds.
    pub fn clock_ms(&self) -> (r: u64)
        ensures
            r == self.clock(),
    {
        self.now
    }

    /// The controller of channel `c` (from 0).
    fn controller(&self, c: usize) -> (r: ChannelController)
        requires
            c < 3,
        ensures
            r.channel == c + 1,
            r.delay_ms == self.delays@[c as int],
            r.forwards,
    {
        ChannelController::chained(c + 1, self.delays[c])
    }

    /// Runs the one task that can run: a channel that takes its input, a
    /// channel whose delay has passed, or the sequencer. Every state sent
    /// lands in an empty slot and is taken once; only the sequencer inverts.
    pub fn step(&mut self) -> (r: ChaseEvent)
        requires
            old(self).wf(),
            old(self).clock() + 65535 <= u64::MAX,
        ensures
            final(self).wf(),
            final(self).delays() == old(self).delays(),
            old(self).clock() <= final(self).clock(),
            match old(self).token() {
                Token::Waiting { channel, state } => {
                    &&& r == ChaseEvent::Drive(
                        Transition {
                            time_ms: old(self).clock() as u64,
                            channel: (channel + 1) as usize,
                            state,
                            level: active_low_spec(state),
                        },
                    )
                    &&& final(self).input(channel) is None
                    &&& final(self).clock() == old(self).clock()
                    &&& final(self).token() == (Token::Holding {
                        channel,
                        state,
                        until: old(self).clock() + old(self).delays()[channel as int],
                    })
                },
                Token::Holding { channel, state, until } => {
                    &&& r == (ChaseEvent::Forward { from: (channel + 1) as usize, state, at_ms: until as u64 })
                    &&& final(self).clock() == until
                    &&& channel < 2 ==> {
                        &&& old(self).input(channel + 1) is None
                        &&& final(self).input(channel + 1) == Some(state)
                        &&& final(self).token() == (Token::Waiting { channel: channel + 1, state })
                    }
                    &&& channel == 2 ==> {
                        &&& old(self).returned() is None
                        &&& final(self).returned() == Some(state)
                        &&& final(self).token() == (Token::Returning { state })
                    }
                },
                Token::Returning { state } => {
                    &&& r == (ChaseEvent::Restart { state: !state })
                    &&& final(self).clock() == old(self).clock()
                    &&& final(self).returned() is None
                    &&& old(self).input(0) is None
                    &&& final(self).input(0) == Some(!state)
                    &&& final(self).token() == (Token::Waiting { channel: 0, state: !state })
                },
            },
    {
        match self.held {
            Some(h) => {
                self.now = h.until_ms;
                self.held = None;
                if h.channel == 0 {
                    self.second.signal(h.state);
                } else if h.channel == 1 {
                    self.third.signal(h.state);
                } else {
                    self.terminal.signal(h.state);
                }
                ChaseEvent::Forward { from: h.channel + 1, state: h.state, at_ms: h.until_ms }
            },
            None => {
                let mut c: usize = 0;
                let mut taken = self.first.try_take();
                if taken.is_none() {
                    c = 1;
                    taken = self.second.try_take();
                }
                if taken.is_none() {
                    c = 2;
                    taken = self.third.try_take();
                }
                match taken {
                    Some(state) => {
                        let stage = self.controller(c).handle(state);
                        let until = self.now + stage.delay_ms as u64;
                        self.held = Some(Hold { channel: c, state: stage.state, until_ms: until });
                        ChaseEvent::Drive(
                            Transition {
                                time_ms: self.now,
                                channel: stage.channel,
                                state: stage.state,
                                level: stage.level,
                            },
                        )
                    },
                    None => {
                        let back = match self.terminal.try_take() {
                            Some(v) => v,
                            None => vstd::pervasive::unreached(),
                        };
                        let state = restart_state(back);
                        self.first.signal(state);
                        ChaseEvent::Restart { state }
                    },
                }
            },
        }
    }
    /// Runs the chain from one transition to the next: the `k`-th channel
    /// drives its output, holds, and passes the state on (through the
    /// sequencer after the last channel).
    fn next_transition(&mut self, Ghost(k): Ghost<nat>) -> (r: Transition)
        requires
            old(self).wf(),
            old(self).token() == (Token::Waiting { channel: k % 3, state: chase_state(k) }),
            old(self).clock() == chase_time(old(self).delays(), k),
            old(self).clock() + 2 * 65535 <= u64::MAX,
        ensures
            final(self).wf(),
            final(self).delays() == old(self).delays(),
            r == chase_transition(old(self).delays(), k),
            final(self).token() == (Token::Waiting { channel: (k + 1) % 3, state: chase_state(k + 1) }),
            final(self).clock() == chase_time(old(self).delays(), k + 1),
    {
        let d = Ghost(self.delays());
        let t = match self.step() {
            ChaseEvent::Drive(t) => t,
            _ => vstd::pervasive::unreached(),
        };
        self.step();
        if t.channel == 3 {
            self.step();
        }
        proof {
            lemma_only_sequencer_inverts(k);
            lemma_delay_fidelity(d@, k);
        }
        t
    }
}

/// The first `n` transitions of a chain of three channels with forwarding
/// delays `delays`, seeded with `true` at time 0.
pub fn chase_trace(delays: [u16; 3], n: usize) -> (r: Vec<Transition>)
    requires
        (n + 2) * 65535 <= u64::MAX,
    ensures
        r@.len() == n,
        forall|k: int| 0 <= k < n ==> r@[k] == chase_transition(delays@, k as nat),
{
    let mut chase = Chase::start(delays);
    let mut out: Vec<Transition> = Vec::new();
    let mut i: usize = 0;
    while i < n
        invariant
            i <= n,
            (n + 2) * 65535 <= u64::MAX,
            chase.wf(),
            chase.delays() == delays@,
            chase.token() == (Token::Waiting { channel: i as nat % 3, state: chase_state(i as nat) }),
            chase.clock() == chase_time(delays@, i as nat),
            out@.len() == i,
            forall|k: int| 0 <= k < i ==> out@[k] == chase_transition(delays@, k as nat),
        decreases n - i,
    {
        proof {
            lemma_chase_time_bound(delays@, i as nat);
            assert((i + 2) * 65535 <= (n + 2) * 65535) by (nonlinear_arith)
                requires i <= n;
        }
        let t = chase.next_transition(Ghost(i as nat));
        out.push(t);
        i = i + 1;
    }
    out
}

/// The first `n` transitions of the externally timed pattern: the step
/// sequencer signals one direct channel every 500 ms.
pub fn baseline_trace(n: usize) -> (r: Vec<Transition>)
    requires
        n * 500 <= u64::MAX,
    ensures
        r@.len() == n,
        forall|k: int| 0 <= k < n ==> r@[k] == baseline_transition(k as nat),
{
    let mut sequencer = StepSequencer::new();
    let mut out: Vec<Transition> = Vec::new();
    let mut i: usize = 0;
    while i < n
        invariant
            i <= n,
            n * 500 <= u64::MAX,
            sequencer.step() == i as nat % 6 + 1,
            out@.len() == i,
            forall|k: int| 0 <= k < i ==> out@[k] == baseline_transition(k as nat),
        decreases n - i,
    {
        let command = sequencer.advance();
        let stage = ChannelController::direct(command.channel).handle(command.state);
        proof {
            assert((i as nat % 6) % 3 == i as nat % 3);
            assert((i as nat + 1) % 6 == if i as nat % 6 == 5 { 0 } else { i as nat % 6 + 1 });
            assert(i * 500 <= n * 500) by (nonlinear_arith)
                requires i <= n;
        }
        let t = Transition {
            time_ms: i as u64 * STEP_MS,
            channel: stage.channel,
            state: stage.state,
            level: stage.level,
        };
        out.push(t);
        i = i + 1;
    }
    out
}

} // verus!
