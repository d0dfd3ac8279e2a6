//! The reconnecting connection manager.
//!
//! The manager is written as an explicit state machine. A driving task owns
//! the socket and the timers; after every suspension point it reports what
//! happened as an [`Event`], and the manager answers with the [`Action`] to
//! perform next. Everything that decides — when a payload is delivered, when
//! a retry is granted, how long the pause before it lasts, and when the run
//! gives up — is in [`TelnetClient::step`] and carries a contract.

use crate::config::LinkConfig;
use crate::filter::filter;
use crate::filter::filtered;
use crate::filter::state_after;
use crate::filter::FilterState;
use vstd::arithmetic::div_mod::lemma_fundamental_div_mod;
use vstd::prelude::*;

verus! {

/// Where the manager stands in its lifecycle.
#[derive(Clone, Copy, PartialEq, Eq, Structural, Debug)]
pub enum Phase {
    /// A connection attempt is owed.
    Connecting,
    /// Connected; reads are owed.
    Streaming,
    /// Waiting out the pause before the next attempt.
    Backoff,
    /// The retry budget is spent; the run has ended.
    GivenUp,
}

/// What the driver observed at its last suspension point.
#[derive(Debug)]
pub enum Event {
    /// The connection to host:port was established.
    ConnectSucceeded,
    /// The connection attempt failed.
    ConnectFailed,
    /// A read returned these bytes (at least one).
    ChunkRead(Vec<u8>),
    /// A read returned nothing: the remote end closed the connection.
    RemoteClosed,
    /// A read failed.
    ReadFailed,
    /// The backoff pause has been waited out.
    BackoffElapsed,
}

/// What the manager asks the driver to do next.
#[derive(Debug, PartialEq)]
pub enum Action {
    /// Open a connection to host:port and report how it went.
    Connect,
    /// Read the next chunk and report what came back.
    Read,
    /// Hand this payload to the consumer, then read on. A consumer failure
    /// is the consumer's affair: the driver reads on regardless.
    Deliver(Vec<u8>),
    /// Pause this many milliseconds, then report the pause as elapsed.
    Wait(u64),
    /// Stop: the retry budget is spent. The run ends with an error naming
    /// the attempts made.
    GiveUp,
}

/// Per-run state of the manager: the lifecycle phase, the retry counters and
/// the filter mode of the current connection.
pub struct ClientState {
    /// Where the run stands.
    pub phase: Phase,
    /// Reconnect attempts made since the last time traffic flowed.
    pub attempts: u32,
    /// The pause before the next reconnect attempt, in milliseconds.
    pub delay_ms: u64,
    /// Filter mode, reset whenever a connection is established.
    pub filter: FilterState,
}

/// The retry budget is spent: a cap is configured and as many retries have
/// been made since traffic last flowed.
pub open spec fn budget_exhausted(cfg: LinkConfig, attempts: u32) -> bool {
    cfg.max_reconnect_attempts > 0 && attempts >= cfg.max_reconnect_attempts
}

/// The pause that follows the next one: doubled, but never more than the
/// configured maximum.
pub open spec fn next_delay(cfg: LinkConfig, delay: u64) -> u64 {
    if 2 * delay > cfg.max_reconnect_delay_ms {
        cfg.max_reconnect_delay_ms
    } else {
        (2 * delay) as u64
    }
}

/// One more retry on the counter. The counter pegs at its top, so a run with
/// an unlimited budget cannot overflow it.
pub open spec fn bump_attempts(attempts: u32) -> u32 {
    if attempts == u32::MAX {
        attempts
    } else {
        (attempts + 1) as u32
    }
}

/// The state after a transport failure — a failed connect, a failed read or
/// a remote close: give up when the budget is spent, otherwise count the
/// retry, keep the current pause for waiting and double it for the next time.
pub open spec fn fail_step(cfg: LinkConfig, st: ClientState) -> ClientState {
    if budget_exhausted(cfg, st.attempts) {
        ClientState { phase: Phase::GivenUp, ..st }
    } else {
        ClientState {
            phase: Phase::Backoff,
            attempts: bump_attempts(st.attempts),
            delay_ms: next_delay(cfg, st.delay_ms),
            ..st
        }
    }
}

/// The state a fresh run starts in: ready to connect, a full budget, the
/// initial pause.
pub open spec fn spec_initial_state(cfg: LinkConfig) -> ClientState {
    ClientState {
        phase: Phase::Connecting,
        attempts: 0,
        delay_ms: cfg.initial_reconnect_delay_ms,
        filter: FilterState::Normal,
    }
}

/// Which events can reach the manager in which phase: connection outcomes
/// while connecting, read outcomes while streaming, the elapsed pause while
/// backing off. Nothing reaches a run that has given up.
pub open spec fn event_fits(phase: Phase, ev: Event) -> bool {
    match ev {
        Event::ConnectSucceeded => phase is Connecting,
        Event::ConnectFailed => phase is Connecting,
        Event::ChunkRead(data) => phase is Streaming,
        Event::RemoteClosed => phase is Streaming,
        Event::ReadFailed => phase is Streaming,
        Event::BackoffElapsed => phase is Backoff,
    }
}

/// The manager's transition function. Establishing a connection starts the
/// filter afresh; received traffic restores the full retry budget and the
/// initial pause; every transport failure goes through [`fail_step`].
pub open spec fn spec_step(cfg: LinkConfig, st: ClientState, ev: Event) -> ClientState {
    match ev {
        Event::ConnectSucceeded => ClientState {
            phase: Phase::Streaming,
            filter: FilterState::Normal,
            ..st
        },
        Event::ConnectFailed => fail_step(cfg, st),
        Event::ChunkRead(data) => ClientState {
            phase: Phase::Streaming,
            attempts: 0,
            delay_ms: cfg.initial_reconnect_delay_ms,
            filter: state_after(data@, st.filter),
        },
        Event::RemoteClosed => fail_step(cfg, st),
        Event::ReadFailed => fail_step(cfg, st),
        Event::BackoffElapsed => ClientState { phase: Phase::Connecting, ..st },
    }
}

/// The action owed after a transport failure: the backoff pause of the
/// current delay while the budget lasts, giving up once it is spent.
pub open spec fn fail_action_ok(cfg: LinkConfig, st: ClientState, a: Action) -> bool {
    if budget_exhausted(cfg, st.attempts) {
        a is GiveUp
    } else {
        a == Action::Wait(st.delay_ms)
    }
}

/// The action owed after an event. A chunk is delivered exactly when its
/// filtered payload is neither empty nor over the configured size limit;
/// otherwise the driver just reads on.
pub open spec fn action_ok(cfg: LinkConfig, st: ClientState, ev: Event, a: Action) -> bool {
    match ev {
        Event::ConnectSucceeded => a is Read,
        Event::ConnectFailed => fail_action_ok(cfg, st, a),
        Event::ChunkRead(data) => {
            let payload = filtered(data@, st.filter);
            if payload.len() == 0 || payload.len() > cfg.max_message_size {
                a is Read
            } else {
                a matches Action::Deliver(v) && v@ == payload
            }
        },
        Event::RemoteClosed => fail_action_ok(cfg, st, a),
        Event::ReadFailed => fail_action_ok(cfg, st, a),
        Event::BackoffElapsed => a is Connect,
    }
}

/// The reconnecting Telnet client: holds one link's configuration and
/// decides, event by event, what the driving task does next.
pub struct TelnetClient {
    /// The link this client serves.
    pub config: LinkConfig,
}

impl TelnetClient {
    /// Create a new Telnet client for one link.
    pub fn new(config: LinkConfig) -> (c: Self)
        ensures
            c.config == config,
    {
        TelnetClient { config }
    }

    /// The state a fresh run starts in.
    pub fn initial_state(&self) -> (st: ClientState)
        ensures
            st == spec_initial_state(self.config),
    {
        ClientState {
            phase: Phase::Connecting,
            attempts: 0,
            delay_ms: self.config.initial_reconnect_delay_ms,
            filter: FilterState::new(),
        }
    }

    /// Count a transport failure: give up when the budget is spent, else
    /// grant a retry, answer with the pause to wait, and double the pause
    /// for the next time, capped at the configured maximum.
    fn fail(&self, st: &mut ClientState) -> (a: Action)
        ensures
            *final(st) == fail_step(self.config, *old(st)),
            fail_action_ok(self.config, *old(st), a),
    {
        let max = self.config.max_reconnect_attempts;
        if max > 0 && st.attempts >= max {
            st.phase = Phase::GivenUp;
            Action::GiveUp
        } else {
            let wait = st.delay_ms;
            if st.attempts < u32::MAX {
                st.attempts = st.attempts + 1;
            }
            let cap = self.config.max_reconnect_delay_ms;
            proof {
                lemma_fundamental_div_mod(cap as int, 2);
            }
            st.delay_ms = if wait > cap / 2 {
                cap
            } else {
                wait * 2
            };
            st.phase = Phase::Backoff;
            Action::Wait(wait)
        }
    }

    /// Advance the manager by one observed event and say what to do next.
    /// The new state is exactly [`spec_step`] of the old one, and the action
    /// satisfies [`action_ok`]: a filtered payload is delivered exactly when
    /// it is neither empty nor over the size limit, a failure is answered
    /// with the backoff pause while the retry budget lasts and with giving
    /// up once it is spent, and received traffic restores the full budget.
    pub fn step(&self, st: &mut ClientState, event: Event) -> (a: Action)
        requires
            event_fits(old(st).phase, event),
        ensures
            *final(st) == spec_step(self.config, *old(st), event),
            action_ok(self.config, *old(st), event, a),
    {
        match event {
            Event::ConnectSucceeded => {
                st.phase = Phase::Streaming;
                st.filter = FilterState::new();
                Action::Read
            },
            Event::ConnectFailed => self.fail(st),
            Event::ChunkRead(data) => {
                let payload = filter(data.as_slice(), &mut st.filter);
                st.phase = Phase::Streaming;
                st.attempts = 0;
                st.delay_ms = self.config.initial_reconnect_delay_ms;
                if payload.len() == 0 {
                    Action::Read
                } else if payload.len() > self.config.max_message_size {
                    Action::Read
                } else {
                    Action::Deliver(payload)
                }
            },
            Event::RemoteClosed => self.fail(st),
            Event::ReadFailed => self.fail(st),
            Event::BackoffElapsed => {
                st.phase = Phase::Connecting;
                Action::Connect
            },
        }
    }
}

/// Two raised to the `k`.
pub open spec fn pow2(k: nat) -> nat
    decreases k,
{
    if k == 0 {
        1
    } else {
        2 * pow2((k - 1) as nat)
    }
}

/// The pause after `k` consecutive failures of a fresh run.
pub open spec fn delay_after_failures(cfg: LinkConfig, k: nat) -> u64
    decreases k,
{
    if k == 0 {
        cfg.initial_reconnect_delay_ms
    } else {
        next_delay(cfg, delay_after_failures(cfg, (k - 1) as nat))
    }
}

/// The run state after `k` failed connection attempts, each followed by its
/// backoff pause, starting from a fresh run.
pub open spec fn state_after_failures(cfg: LinkConfig, k: nat) -> ClientState
    decreases k,
{
    if k == 0 {
        spec_initial_state(cfg)
    } else {
        spec_step(
            cfg,
            spec_step(cfg, state_after_failures(cfg, (k - 1) as nat), Event::ConnectFailed),
            Event::BackoffElapsed,
        )
    }
}

/// With the starting pause within the cap, the pause doubles with every
/// failure until it pegs at the configured maximum: after `k` failures of a
/// fresh run it is two-to-the-`k` times the initial pause, capped.
pub proof fn lemma_backoff_doubles(cfg: LinkConfig, k: nat)
    requires
        cfg.initial_reconnect_delay_ms <= cfg.max_reconnect_delay_ms,
    ensures
        delay_after_failures(cfg, k) == if pow2(k) * cfg.initial_reconnect_delay_ms
            >= cfg.max_reconnect_delay_ms {
            cfg.max_reconnect_delay_ms as int
        } else {
            pow2(k) * cfg.initial_reconnect_delay_ms
        },
    decreases k,
{
    let i0 = cfg.initial_reconnect_delay_ms;
    let m = cfg.max_reconnect_delay_ms;
    if k == 0 {
        assert(pow2(0) == 1);
        assert(pow2(k) * i0 == i0);
    } else {
        lemma_backoff_doubles(cfg, (k - 1) as nat);
        let p = pow2((k - 1) as nat);
        let d = delay_after_failures(cfg, (k - 1) as nat);
        assert(pow2(k) == 2 * p);
        assert(pow2(k) * i0 == 2 * (p * i0)) by (nonlinear_arith)
            requires
                pow2(k) == 2 * p,
        ;
        assert(delay_after_failures(cfg, k) == next_delay(cfg, d));
        if p * i0 >= m {
            assert(d == m);
            assert(p * i0 >= 0);
            assert(pow2(k) * i0 >= m);
            assert(next_delay(cfg, d) == m);
        } else {
            assert(d == p * i0);
            if 2 * (p * i0) > m {
                assert(next_delay(cfg, d) == m);
            } else {
                assert(next_delay(cfg, d) == 2 * (p * i0));
            }
        }
    }
}

/// A capped run grants exactly `max_reconnect_attempts` retries: while the
/// budget lasts every failure is answered with a backoff pause of the
/// current delay, and the first failure after the last granted retry ends
/// the run.
pub proof fn lemma_retry_budget(cfg: LinkConfig, k: nat)
    requires
        0 < cfg.max_reconnect_attempts,
        k <= cfg.max_reconnect_attempts,
    ensures
        state_after_failures(cfg, k).attempts == k,
        state_after_failures(cfg, k).delay_ms == delay_after_failures(cfg, k),
        state_after_failures(cfg, k).phase is Connecting,
        k < cfg.max_reconnect_attempts ==> forall|a: Action|
            fail_action_ok(cfg, state_after_failures(cfg, k), a) ==> a == Action::Wait(
                delay_after_failures(cfg, k),
            ),
        k == cfg.max_reconnect_attempts ==> spec_step(
            cfg,
            state_after_failures(cfg, k),
            Event::ConnectFailed,
        ).phase is GivenUp,
        k == cfg.max_reconnect_attempts ==> forall|a: Action|
            fail_action_ok(cfg, state_after_failures(cfg, k), a) ==> a is GiveUp,
    decreases k,
{
    if k > 0 {
        lemma_retry_budget(cfg, (k - 1) as nat);
    }
}

/// Once traffic flows, the retry budget and the backoff pause start over:
/// whatever the failures before a received chunk had driven the counters to,
/// the failure that follows the chunk waits the initial pause again.
pub proof fn lemma_backoff_restarts_after_traffic(cfg: LinkConfig, st: ClientState, data: Vec<u8>)
    ensures
        spec_step(cfg, st, Event::ChunkRead(data)).attempts == 0,
        spec_step(cfg, st, Event::ChunkRead(data)).delay_ms == cfg.initial_reconnect_delay_ms,
        forall|a: Action|
            fail_action_ok(cfg, spec_step(cfg, st, Event::ChunkRead(data)), a) ==> a
                == Action::Wait(cfg.initial_reconnect_delay_ms),
{
}

} // verus!
