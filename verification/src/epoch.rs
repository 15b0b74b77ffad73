//! Epoch-based cooperative preemption.
//!
//! One background ticker advances a global epoch counter at a fixed
//! interval; every in-flight sandbox is given a budget of epoch ticks at
//! creation. A sandbox only notices that its budget is spent at defined
//! checkpoints, so wall-clock overshoot is bounded by one tick, while the
//! one tick of slack in the budget guarantees a request is never expired
//! early.
use vstd::prelude::*;

verus! {

use vstd::arithmetic::div_mod::lemma_fundamental_div_mod;
use vstd::arithmetic::div_mod::lemma_mod_bound;
use crate::EPOCH_PRECISION;

/// Lifecycle of the background ticker. Ticks may happen only in
/// `Running`; teardown moves the ticker to `Stopped`, after which the
/// epoch can never advance again.
#[derive(PartialEq, Eq, Structural, Clone, Copy, Debug)]
pub enum TickerState {
    Idle,
    Running,
    Stopped,
}

/// The global epoch clock together with the state of the thread that
/// drives it. The counter is monotonic: nothing ever decreases it.
pub struct EpochTicker {
    state: TickerState,
    epoch: u64,
}

impl EpochTicker {
    /// The lifecycle state of the ticker.
    pub closed spec fn state(self) -> TickerState {
        self.state
    }

    /// The current global epoch.
    pub closed spec fn epoch(self) -> u64 {
        self.epoch
    }

    /// Reads the lifecycle state.
    pub fn current_state(&self) -> (s: TickerState)
        ensures
            s == self.state(),
    {
        self.state
    }

    /// Reads the global epoch, as every sandbox's checkpoint does.
    pub fn current_epoch(&self) -> (e: u64)
        ensures
            e == self.epoch(),
    {
        self.epoch
    }

    /// A ticker that has not been started; the epoch begins at zero.
    pub fn new() -> (t: EpochTicker)
        ensures
            t.state() == TickerState::Idle,
            t.epoch() == 0,
    {
        EpochTicker { state: TickerState::Idle, epoch: 0 }
    }

    /// Starts the background ticker. Only a ticker that was never started
    /// can start, and starting does not advance the epoch.
    pub fn start(&mut self)
        requires
            old(self).state() == TickerState::Idle,
        ensures
            final(self).state() == TickerState::Running,
            final(self).epoch() == old(self).epoch(),
    {
        self.state = TickerState::Running;
    }

    /// One tick of the background thread: the global epoch advances by
    /// one. Ticks happen only while the ticker runs, so no increment can
    /// follow teardown.
    pub fn tick(&mut self)
        requires
            old(self).state() == TickerState::Running,
            old(self).epoch() < u64::MAX,
        ensures
            final(self).state() == TickerState::Running,
            final(self).epoch() == old(self).epoch() + 1,
    {
        self.epoch = self.epoch + 1;
    }

    /// Structured teardown: once this returns, the ticker is stopped and
    /// the epoch holds its final value forever ([`Self::tick`] requires a
    /// running ticker).
    pub fn stop(&mut self)
        requires
            old(self).state() == TickerState::Running,
        ensures
            final(self).state() == TickerState::Stopped,
            final(self).epoch() == old(self).epoch(),
    {
        self.state = TickerState::Stopped;
    }

    /// The epoch budget a sandbox created now must be given: the deadline
    /// is the current epoch advanced by the precision factor plus one
    /// tick of slack.
    pub fn sandbox_deadline(&self) -> (d: u64)
        requires
            self.epoch() + EPOCH_PRECISION + 1 <= u64::MAX,
        ensures
            d == self.epoch() + EPOCH_PRECISION + 1,
    {
        self.epoch + EPOCH_PRECISION + 1
    }
}

/// Whether a sandbox holding `deadline` as its target epoch must be
/// interrupted when the global epoch stands at `current`.
pub open spec fn spec_expired(current: u64, deadline: u64) -> bool {
    current >= deadline
}

/// Checkpoint test run by the execution engine: a sandbox is interrupted
/// exactly when the global epoch has reached its deadline.
pub fn sandbox_expired(current: u64, deadline: u64) -> (e: bool)
    ensures
        e == spec_expired(current, deadline),
{
    current >= deadline
}

/// The epoch the global clock shows at wall-clock time `t`, when ticks
/// land at `interval`, `2 * interval`, and so on.
pub open spec fn epoch_at(interval: nat, t: nat) -> nat
    recommends
        interval > 0,
{
    t / interval
}

/// The wall-clock time at which a sandbox created at time `created` is
/// interrupted: the first instant the global epoch reaches the sandbox's
/// deadline of `precision + 1` ticks past the epoch seen at creation.
pub open spec fn expiry_time(interval: nat, precision: nat, created: nat) -> nat {
    (epoch_at(interval, created) + precision + 1) * interval
}

/// Law: budgeting `precision + 1` ticks bounds the worst-case overshoot
/// to one tick and never expires a request early. A sandbox created at an
/// arbitrary instant is interrupted strictly later than `precision`
/// intervals after creation and no later than `precision + 1` intervals
/// after creation.
pub proof fn lemma_deadline_bounds(interval: nat, precision: nat, created: nat)
    requires
        interval > 0,
    ensures
        created + precision * interval < expiry_time(interval, precision, created),
        expiry_time(interval, precision, created) <= created + (precision + 1) * interval,
{
    let q = created as int / interval as int;
    let r = created as int % interval as int;
    lemma_fundamental_div_mod(created as int, interval as int);
    lemma_mod_bound(created as int, interval as int);
    assert((q + precision + 1) * interval == q * interval + (precision + 1) * interval)
        by (nonlinear_arith);
    assert((precision + 1) * interval == precision * interval + interval) by (nonlinear_arith);
    assert(epoch_at(interval, created) == q);
}

/// Law: with a configured deadline `timeout` that the precision factor
/// divides evenly, a sandbox is interrupted no earlier than `timeout` and
/// no later than `timeout + timeout / precision` after its creation.
pub proof fn lemma_deadline_within_precision(timeout: nat, precision: nat, created: nat)
    requires
        precision > 0,
        timeout > 0,
        timeout % precision == 0,
        timeout / precision > 0,
    ensures
        created + timeout < expiry_time(timeout / precision, precision, created),
        expiry_time(timeout / precision, precision, created) <= created + timeout + timeout
            / precision,
{
    let interval = timeout / precision;
    lemma_deadline_bounds(interval, precision, created);
    lemma_fundamental_div_mod(timeout as int, precision as int);
    assert(precision * interval == timeout);
    assert((precision + 1) * interval == precision * interval + interval) by (nonlinear_arith);
}

} // verus!
