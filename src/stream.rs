//! The decisions of a self-healing event stream.
//!
//! The exchange closes idle connections, so a long-lived consumer reconnects
//! with exponential backoff. [`ReconnectingStream`] holds the state and
//! decides, for each event the driver observes (a connect attempt ended, an
//! item or error arrived, the stream ended, a delay elapsed), what to hand the
//! consumer and what to do next (connect, sleep, pull the next item, finish).
//! Delays are in milliseconds.

use vstd::prelude::*;
use crate::error::Error;

verus! {

/// `b^k`.
pub open spec fn power(b: int, k: nat) -> int
    decreases k,
{
    if k == 0 {
        1
    } else {
        b * power(b, (k - 1) as nat)
    }
}

/// The delay after `k` failures since the last reset: `min(initial * multiplier^k, max)`.
pub open spec fn backoff_delay(initial: u64, multiplier: u32, max: u64, k: nat) -> int {
    let d = initial * power(multiplier as int, k);
    if d <= max {
        d
    } else {
        max as int
    }
}

/// How reconnection behaves.
#[derive(Clone, Copy, Debug, PartialEq, Eq)]
pub struct ReconnectConfig {
    /// Delay before the first reconnection attempt.
    pub initial_delay_ms: u64,
    /// Largest delay between attempts.
    pub max_delay_ms: u64,
    /// Factor by which the delay grows after each failure.
    pub multiplier: u32,
    /// Attempts after which the stream gives up; `None` retries forever.
    pub max_attempts: Option<u32>,
}

impl ReconnectConfig {
    /// One second, doubling up to a minute, retrying forever.
    pub fn new() -> (r: ReconnectConfig)
        ensures
            r.initial_delay_ms == 1000,
            r.max_delay_ms == 60000,
            r.multiplier == 2,
            r.max_attempts is None,
    {
        ReconnectConfig { initial_delay_ms: 1000, max_delay_ms: 60000, multiplier: 2, max_attempts: None }
    }
}

impl Default for ReconnectConfig {
    fn default() -> (r: ReconnectConfig)
        ensures
            r.initial_delay_ms == 1000,
            r.max_delay_ms == 60000,
            r.multiplier == 2,
            r.max_attempts is None,
    {
        ReconnectConfig::new()
    }
}

/// Exponential backoff: each call of `next_delay` returns the current delay and
/// multiplies the next one, up to the maximum.
pub struct ExponentialBackoff {
    current_delay: u64,
    initial_delay: u64,
    max_delay: u64,
    multiplier: u32,
    /// Delays handed out since the last reset.
    steps: Ghost<nat>,
}

impl ExponentialBackoff {
    /// Delays handed out since the last reset.
    pub closed spec fn steps(&self) -> nat {
        self.steps@
    }

    pub closed spec fn initial(&self) -> u64 {
        self.initial_delay
    }

    pub closed spec fn max(&self) -> u64 {
        self.max_delay
    }

    pub closed spec fn factor(&self) -> u32 {
        self.multiplier
    }

    /// The delay the next call of `next_delay` returns.
    pub closed spec fn current(&self) -> int {
        self.current_delay as int
    }

    pub closed spec fn wf(&self) -> bool {
        self.current_delay as int == backoff_delay(self.initial_delay, self.multiplier, self.max_delay, self.steps@)
    }

    pub fn new(initial_delay: u64, max_delay: u64, multiplier: u32) -> (r: ExponentialBackoff)
        ensures
            r.wf(),
            r.initial() == initial_delay,
            r.max() == max_delay,
            r.factor() == multiplier,
            r.steps() == 0,
    {
        let current_delay = if initial_delay <= max_delay { initial_delay } else { max_delay };
        ExponentialBackoff {
            current_delay,
            initial_delay,
            max_delay,
            multiplier,
            steps: Ghost(0),
        }
    }

    /// The delay to wait now; the one after is `multiplier` times longer, capped.
    pub fn next_delay(&mut self) -> (r: u64)
        requires
            old(self).wf(),
        ensures
            final(self).wf(),
            r as int == backoff_delay(old(self).initial(), old(self).factor(), old(self).max(), old(self).steps()),
            final(self).steps() == old(self).steps() + 1,
            final(self).initial() == old(self).initial(),
            final(self).max() == old(self).max(),
            final(self).factor() == old(self).factor(),
    {
        let delay = self.current_delay;
        assert((delay as u128) * (self.multiplier as u128) <= u64::MAX as u128 * u32::MAX as u128) by (nonlinear_arith)
            requires
                delay <= u64::MAX,
                self.multiplier <= u32::MAX,
        ;
        let product: u128 = (delay as u128) * (self.multiplier as u128);
        let next = if product <= self.max_delay as u128 { product as u64 } else { self.max_delay };
        proof {
            lemma_backoff_step(self.initial_delay, self.multiplier, self.max_delay, self.steps@);
        }
        self.current_delay = next;
        self.steps = Ghost(self.steps@ + 1);
        delay
    }

    /// Starts over from the initial delay.
    pub fn reset(&mut self)
        requires
            old(self).wf(),
        ensures
            final(self).wf(),
            final(self).steps() == 0,
            final(self).initial() == old(self).initial(),
            final(self).max() == old(self).max(),
            final(self).factor() == old(self).factor(),
    {
        self.current_delay = if self.initial_delay <= self.max_delay { self.initial_delay } else { self.max_delay };
        self.steps = Ghost(0);
    }
}

/// One more step of the capped geometric sequence multiplies the capped value, capped again.
pub proof fn lemma_backoff_step(initial: u64, multiplier: u32, max: u64, k: nat)
    ensures
        ({
            let c = backoff_delay(initial, multiplier, max, k);
            let p = c * multiplier;
            backoff_delay(initial, multiplier, max, k + 1) == if p <= max { p } else { max as int }
        }),
        0 <= backoff_delay(initial, multiplier, max, k) <= max,
{
    let m = multiplier as int;
    let d = initial * power(m, k);
    assert(power(m, k + 1) == m * power(m, k));
    assert(initial * power(m, k + 1) == d * m) by (nonlinear_arith)
        requires
            power(m, k + 1) == m * power(m, k),
            d == initial * power(m, k),
    ;
    lemma_power_nonneg(m, k);
    assert(d >= 0) by (nonlinear_arith)
        requires
            d == initial * power(m, k),
            power(m, k) >= 0,
            initial >= 0,
    ;
    if d > max && m >= 1 {
        assert(d * m >= d) by (nonlinear_arith)
            requires
                m >= 1,
                d >= 0,
        ;
        assert(max * m >= max) by (nonlinear_arith)
            requires
                m >= 1,
                max >= 0,
        ;
    }
}

pub proof fn lemma_power_nonneg(b: int, k: nat)
    requires
        b >= 0,
    ensures
        power(b, k) >= 0,
    decreases k,
{
    if k > 0 {
        lemma_power_nonneg(b, (k - 1) as nat);
        assert(b * power(b, (k - 1) as nat) >= 0) by (nonlinear_arith)
            requires
                b >= 0,
                power(b, (k - 1) as nat) >= 0,
        ;
    }
}

/// Where the stream is in its life.
#[derive(Clone, Copy, Debug, PartialEq, Eq)]
pub enum StreamState {
    /// A connect attempt is due or running; `attempts` have failed before it.
    Connecting { attempts: u32 },
    /// Items are being pulled from a live connection.
    Connected,
    /// Waiting `delay_ms` before the next attempt.
    Reconnecting { attempts: u32, delay_ms: u64 },
    /// Finished for good.
    Terminated,
}

/// What the driver observed.
pub enum StreamEvent<T> {
    /// The connect operation produced a live stream.
    ConnectSucceeded,
    /// The connect operation failed.
    ConnectFailed(Error),
    /// The live stream yielded an item.
    Item(T),
    /// The live stream yielded an error.
    ItemError(Error),
    /// The live stream ended.
    Ended,
    /// The backoff delay elapsed.
    DelayElapsed,
}

/// What the driver does next.
#[derive(Clone, Copy, Debug, PartialEq, Eq)]
pub enum Directive {
    /// Run the connect operation.
    Connect,
    /// Pull the next item of the live stream.
    Pull,
    /// Drop the connection, if any, and wait this many milliseconds.
    Sleep(u64),
    /// End the stream: no further item.
    Finish,
}

/// The outcome of one event: an item for the consumer, if any, and what to do next.
pub struct Step<T> {
    /// The item or error for the consumer.
    pub emit: Option<Result<T, Error>>,
    /// The final `ReconnectFailed`, handed on after `emit` where the attempt
    /// budget is spent.
    pub gave_up: Option<Error>,
    pub next: Directive,
}

/// Errors of one message that leave the connection usable.
pub open spec fn is_message_error(e: Error) -> bool {
    e is Json
}

/// What the consumer is handed for one event.
pub enum Emission<T> {
    Nothing,
    Item(T),
    Failure(Error),
    /// The failure, then the final `ReconnectFailed` after this many attempts.
    FailureThenGaveUp(Error, u32),
    /// Only the final `ReconnectFailed` after this many attempts.
    GaveUp(u32),
}

/// The abstract state: the stream state and the backoff's count of failures.
pub struct Phase {
    pub state: StreamState,
    pub steps: nat,
}

pub open spec fn budget_spent(cfg: ReconnectConfig, attempts: u32) -> bool {
    match cfg.max_attempts {
        Some(m) => attempts >= m,
        None => false,
    }
}

pub open spec fn bump(a: u32) -> u32 {
    if a < u32::MAX {
        (a + 1) as u32
    } else {
        a
    }
}

/// A failure with `attempts` counted: give up, or wait the next backoff delay.
pub open spec fn after_failure(cfg: ReconnectConfig, steps: nat, attempts: u32) -> Phase {
    if budget_spent(cfg, attempts) {
        Phase { state: StreamState::Terminated, steps }
    } else {
        Phase {
            state: StreamState::Reconnecting {
                attempts,
                delay_ms: backoff_delay(cfg.initial_delay_ms, cfg.multiplier, cfg.max_delay_ms, steps) as u64,
            },
            steps: steps + 1,
        }
    }
}

/// The transition table.
pub open spec fn next_phase<T>(cfg: ReconnectConfig, p: Phase, event: StreamEvent<T>) -> Phase {
    match (p.state, event) {
        (StreamState::Connecting { attempts: _ }, StreamEvent::ConnectSucceeded) =>
            Phase { state: StreamState::Connected, steps: p.steps },
        (StreamState::Connecting { attempts }, StreamEvent::ConnectFailed(_)) =>
            after_failure(cfg, p.steps, bump(attempts)),
        (StreamState::Connected, StreamEvent::Item(_)) => Phase { state: StreamState::Connected, steps: 0 },
        (StreamState::Connected, StreamEvent::ItemError(e)) =>
            if is_message_error(e) {
                p
            } else {
                after_failure(cfg, p.steps, 1)
            },
        (StreamState::Connected, StreamEvent::Ended) => after_failure(cfg, p.steps, 1),
        (StreamState::Reconnecting { attempts, delay_ms: _ }, StreamEvent::DelayElapsed) =>
            Phase { state: StreamState::Connecting { attempts }, steps: p.steps },
        _ => p,
    }
}

/// What the consumer is handed on a transition.
pub open spec fn emission<T>(cfg: ReconnectConfig, p: Phase, event: StreamEvent<T>) -> Emission<T> {
    match (p.state, event) {
        (StreamState::Connecting { attempts }, StreamEvent::ConnectFailed(e)) =>
            if budget_spent(cfg, bump(attempts)) {
                Emission::FailureThenGaveUp(e, bump(attempts))
            } else {
                Emission::Failure(e)
            },
        (StreamState::Connected, StreamEvent::Item(x)) => Emission::Item(x),
        (StreamState::Connected, StreamEvent::ItemError(e)) =>
            if !is_message_error(e) && budget_spent(cfg, 1) {
                Emission::FailureThenGaveUp(e, 1)
            } else {
                Emission::Failure(e)
            },
        (StreamState::Connected, StreamEvent::Ended) =>
            if budget_spent(cfg, 1) {
                Emission::GaveUp(1)
            } else {
                Emission::Nothing
            },
        _ => Emission::Nothing,
    }
}

/// What the driver does in a state.
pub open spec fn directive_of(state: StreamState) -> Directive {
    match state {
        StreamState::Connecting { attempts: _ } => Directive::Connect,
        StreamState::Connected => Directive::Pull,
        StreamState::Reconnecting { attempts: _, delay_ms } => Directive::Sleep(delay_ms),
        StreamState::Terminated => Directive::Finish,
    }
}

/// The step handed back for an emission.
pub open spec fn emits<T>(e: Emission<T>, emit: Option<Result<T, Error>>, gave_up: Option<Error>) -> bool {
    match e {
        Emission::Nothing => emit is None && gave_up is None,
        Emission::Item(x) => emit == Some(Ok::<T, Error>(x)) && gave_up is None,
        Emission::Failure(err) => emit == Some(Err::<T, Error>(err)) && gave_up is None,
        Emission::FailureThenGaveUp(err, n) => emit == Some(Err::<T, Error>(err))
            && (gave_up matches Some(Error::ReconnectFailed { attempts, last_error: _ }) && attempts == n),
        Emission::GaveUp(n) => emit is None
            && (gave_up matches Some(Error::ReconnectFailed { attempts, last_error: _ }) && attempts == n),
    }
}

/// The final error of a stream whose attempt budget is spent.
fn reconnect_failed(attempts: u32) -> (r: Error)
    ensures
        r matches Error::ReconnectFailed { attempts: n, last_error: _ } && n == attempts,
{
    Error::ReconnectFailed { attempts, last_error: String::from_str("maximum reconnection attempts reached") }
}

/// The stream decisions: state, configuration and backoff.
pub struct ReconnectingStream {
    pub config: ReconnectConfig,
    pub state: StreamState,
    pub backoff: ExponentialBackoff,
}

impl ReconnectingStream {
    pub open spec fn wf(&self) -> bool {
        &&& self.backoff.wf()
        &&& self.backoff.initial() == self.config.initial_delay_ms
        &&& self.backoff.max() == self.config.max_delay_ms
        &&& self.backoff.factor() == self.config.multiplier
    }

    pub open spec fn phase(&self) -> Phase {
        Phase { state: self.state, steps: self.backoff.steps() }
    }

    /// A stream about to make its first connect attempt.
    pub fn new(config: ReconnectConfig) -> (r: ReconnectingStream)
        ensures
            r.wf(),
            r.config == config,
            r.state == (StreamState::Connecting { attempts: 0 }),
            r.backoff.steps() == 0,
    {
        let backoff = ExponentialBackoff::new(config.initial_delay_ms, config.max_delay_ms, config.multiplier);
        ReconnectingStream { config, state: StreamState::Connecting { attempts: 0 }, backoff }
    }

    /// What to do in the current state, before any event.
    pub fn directive(&self) -> (r: Directive)
        ensures
            r == directive_of(self.state),
    {
        match self.state {
            StreamState::Connecting { .. } => Directive::Connect,
            StreamState::Connected => Directive::Pull,
            StreamState::Reconnecting { attempts: _, delay_ms } => Directive::Sleep(delay_ms),
            StreamState::Terminated => Directive::Finish,
        }
    }

    fn fail(&mut self, attempts: u32) -> (gave_up: bool)
        requires
            old(self).wf(),
        ensures
            final(self).wf(),
            final(self).config == old(self).config,
            final(self).phase() == after_failure(old(self).config, old(self).backoff.steps(), attempts),
            gave_up == budget_spent(old(self).config, attempts),
    {
        let spent = match self.config.max_attempts {
            Some(m) => attempts >= m,
            None => false,
        };
        if spent {
            self.state = StreamState::Terminated;
            true
        } else {
            let delay_ms = self.backoff.next_delay();
            self.state = StreamState::Reconnecting { attempts, delay_ms };
            false
        }
    }

    /// Takes one observed event through the transition table and says what to
    /// hand the consumer and what to do next. An event that does not belong to
    /// the current state changes nothing.
    pub fn on_event<T>(&mut self, event: StreamEvent<T>) -> (r: Step<T>)
        requires
            old(self).wf(),
        ensures
            final(self).wf(),
            final(self).config == old(self).config,
            final(self).phase() == next_phase(old(self).config, old(self).phase(), event),
            emits(emission(old(self).config, old(self).phase(), event), r.emit, r.gave_up),
            r.next == directive_of(final(self).state),
    {
        let mut gave_up: Option<Error> = None;
        let emit: Option<Result<T, Error>> = match (self.state, event) {
            (StreamState::Connecting { .. }, StreamEvent::ConnectSucceeded) => {
                self.state = StreamState::Connected;
                None
            },
            (StreamState::Connecting { attempts }, StreamEvent::ConnectFailed(e)) => {
                let n = if attempts < u32::MAX { attempts + 1 } else { attempts };
                if self.fail(n) {
                    gave_up = Some(reconnect_failed(n));
                }
                Some(Err(e))
            },
            (StreamState::Connected, StreamEvent::Item(x)) => {
                self.backoff.reset();
                Some(Ok(x))
            },
            (StreamState::Connected, StreamEvent::ItemError(e)) => {
                if let Error::Json(_) = e {
                    Some(Err(e))
                } else {
                    if self.fail(1) {
                        gave_up = Some(reconnect_failed(1));
                    }
                    Some(Err(e))
                }
            },
            (StreamState::Connected, StreamEvent::Ended) => {
                if self.fail(1) {
                    gave_up = Some(reconnect_failed(1));
                }
                None
            },
            (StreamState::Reconnecting { attempts, .. }, StreamEvent::DelayElapsed) => {
                self.state = StreamState::Connecting { attempts };
                None
            },
            _ => None,
        };
        Step { emit, gave_up, next: self.directive() }
    }

    /// The consumer dropped the stream: release everything and finish.
    pub fn close(&mut self)
        requires
            old(self).wf(),
        ensures
            final(self).wf(),
            final(self).config == old(self).config,
            final(self).state == StreamState::Terminated,
    {
        self.state = StreamState::Terminated;
    }
}

/// The backoff delays after repeated failures grow geometrically from the
/// initial delay and stop at the maximum: the `k`-th delay since the last
/// item is `min(initial * multiplier^k, max)`.
pub proof fn lemma_failure_waits_backoff_delay<T>(cfg: ReconnectConfig, p: Phase, event: StreamEvent<T>)
    requires
        next_phase(cfg, p, event).state matches StreamState::Reconnecting { attempts: _, delay_ms: _ },
        !(p.state is Reconnecting),
    ensures
        next_phase(cfg, p, event).state->delay_ms as int
            == backoff_delay(cfg.initial_delay_ms, cfg.multiplier, cfg.max_delay_ms, p.steps),
        next_phase(cfg, p, event).steps == p.steps + 1,
{
    lemma_backoff_step(cfg.initial_delay_ms, cfg.multiplier, cfg.max_delay_ms, p.steps);
}

/// An item received resets the backoff: the next failure waits the initial
/// delay again (capped by the maximum).
pub proof fn lemma_item_resets_backoff<T>(cfg: ReconnectConfig, p: Phase, x: T, e: Error)
    requires
        p.state is Connected,
        !is_message_error(e),
        !budget_spent(cfg, 1),
    ensures
        ({
            let q = next_phase(cfg, p, StreamEvent::Item(x));
            &&& q.steps == 0
            &&& next_phase(cfg, q, StreamEvent::<T>::ItemError(e)).state->delay_ms as int
                == backoff_delay(cfg.initial_delay_ms, cfg.multiplier, cfg.max_delay_ms, 0)
        }),
        backoff_delay(cfg.initial_delay_ms, cfg.multiplier, cfg.max_delay_ms, 0)
            == if cfg.initial_delay_ms <= cfg.max_delay_ms { cfg.initial_delay_ms as int } else { cfg.max_delay_ms as int },
{
    lemma_backoff_step(cfg.initial_delay_ms, cfg.multiplier, cfg.max_delay_ms, 0);
}

/// With an attempt budget of `max`, a connect failure that brings the count
/// to `max` hands on its error and then ends the stream with one
/// `ReconnectFailed` for `max` attempts; failures before that hand on their
/// error and wait.
pub proof fn lemma_budget_ends_stream<T>(cfg: ReconnectConfig, attempts: u32, steps: nat, e: Error)
    requires
        cfg.max_attempts is Some,
        attempts < u32::MAX,
    ensures
        ({
            let p = Phase { state: StreamState::Connecting { attempts }, steps };
            let n = (attempts + 1) as u32;
            &&& n >= cfg.max_attempts->0 ==> {
                &&& next_phase(cfg, p, StreamEvent::<T>::ConnectFailed(e)).state is Terminated
                &&& emission(cfg, p, StreamEvent::<T>::ConnectFailed(e)) == Emission::<T>::FailureThenGaveUp(e, n)
            }
            &&& n < cfg.max_attempts->0 ==> {
                &&& next_phase(cfg, p, StreamEvent::<T>::ConnectFailed(e)).state
                    == (StreamState::Reconnecting { attempts: n, delay_ms: backoff_delay(cfg.initial_delay_ms, cfg.multiplier, cfg.max_delay_ms, steps) as u64 })
                &&& emission(cfg, p, StreamEvent::<T>::ConnectFailed(e)) == Emission::<T>::Failure(e)
            }
        }),
{
}

/// Every failure of a connect attempt or of a live stream, a closed
/// connection included, is handed to the consumer as that error before the
/// stream reconnects or gives up.
pub proof fn lemma_every_failure_is_surfaced<T>(cfg: ReconnectConfig, p: Phase, e: Error)
    ensures
        p.state is Connected ==> (emission(cfg, p, StreamEvent::<T>::ItemError(e)) == Emission::<T>::Failure(e)
            || emission(cfg, p, StreamEvent::<T>::ItemError(e)) == Emission::<T>::FailureThenGaveUp(e, 1)),
        p.state is Connecting ==> (emission(cfg, p, StreamEvent::<T>::ConnectFailed(e)) == Emission::<T>::Failure(e)
            || emission(cfg, p, StreamEvent::<T>::ConnectFailed(e)) == Emission::<T>::FailureThenGaveUp(e, bump(p.state->Connecting_attempts))),
{
}

/// A terminated stream stays terminated and hands the consumer nothing more,
/// whatever the driver observes; this is where dropping or an exhausted budget leads.
pub proof fn lemma_terminated_is_final<T>(cfg: ReconnectConfig, steps: nat, event: StreamEvent<T>)
    ensures
        ({
            let p = Phase { state: StreamState::Terminated, steps };
            &&& next_phase(cfg, p, event) == p
            &&& emission(cfg, p, event) == Emission::<T>::Nothing
            &&& directive_of(next_phase(cfg, p, event).state) == Directive::Finish
        }),
{
}

} // verus!
