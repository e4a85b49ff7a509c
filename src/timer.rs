use vstd::prelude::*;
use vstd::arithmetic::div_mod::{lemma_mod_add_multiples_vanish, lemma_small_mod};

verus! {

/// The refresh period of the overlay: one second, in nanoseconds.
pub const UPDATE_INTERVAL_NANOS: u64 = 1_000_000_000;

/// The repeating refresh timer of the overlay, held as plain values.
///
/// `paused` is the overlay's enable switch: a paused timer hides the overlay.
/// `elapsed` counts the nanoseconds since the last refresh, and `interval` is
/// the refresh period.
pub struct RefreshTimer {
    pub interval: u64,
    pub elapsed: u64,
    pub paused: bool,
}

/// A tick of `delta` on a repeating timer of period `interval` completes a
/// period.
pub open spec fn due(elapsed: nat, delta: nat, interval: nat) -> bool {
    elapsed + delta >= interval
}

/// What a repeating timer of period `interval` has left over after a tick
/// of `delta`: completed periods are dropped.
pub open spec fn carried(elapsed: nat, delta: nat, interval: nat) -> nat {
    (elapsed + delta) % interval
}

/// The largest sum that bevy's timer takes in one tick: the total stays in
/// `u64` nanoseconds and the count of completed periods in `u32`.
pub open spec fn tick_fits(elapsed: nat, delta: nat, interval: nat) -> bool {
    &&& interval > 0
    &&& elapsed + delta <= u64::MAX
    &&& (elapsed + delta) / interval <= u32::MAX
}

/// Relies on bevy's `Timer` (`Timer::new` repeating, `Timer::set_elapsed`,
/// `Timer::tick`, `Timer::just_finished`, `Timer::elapsed`): a tick adds
/// `delta` to the elapsed time; when that reaches the duration, the timer
/// reports that it just finished and keeps the elapsed time modulo the
/// duration. The count of finished periods is kept in a `u32`, and a zero
/// duration divides by zero: `requires` leaves both out.
#[verifier::external_body]
fn bevy_timer_tick(interval: u64, elapsed: u64, delta: u64) -> (r: (bool, u64))
    requires
        tick_fits(elapsed as nat, delta as nat, interval as nat),
    ensures
        r.0 == due(elapsed as nat, delta as nat, interval as nat),
        r.1 == carried(elapsed as nat, delta as nat, interval as nat),
{
    let mut timer = bevy::core::Timer::new(std::time::Duration::from_nanos(interval), true);
    timer.set_elapsed(std::time::Duration::from_nanos(elapsed));
    let fired = timer.tick(std::time::Duration::from_nanos(delta)).just_finished();
    (fired, timer.elapsed().as_nanos() as u64)
}

/// The elapsed count after `n` ticks of `delta` each.
pub open spec fn elapsed_after(elapsed: nat, delta: nat, interval: nat, n: nat) -> nat
    decreases n,
{
    if n == 0 {
        elapsed
    } else {
        carried(elapsed_after(elapsed, delta, interval, (n - 1) as nat), delta, interval)
    }
}

/// The `n`-th of those ticks, counting from one, completes a period.
pub open spec fn fires_at(elapsed: nat, delta: nat, interval: nat, n: nat) -> bool {
    due(elapsed_after(elapsed, delta, interval, (n - 1) as nat), delta, interval)
}

proof fn lemma_no_wrap(elapsed: nat, delta: nat, interval: nat, m: nat)
    requires
        elapsed + m * delta < interval,
    ensures
        elapsed_after(elapsed, delta, interval, m) == elapsed + m * delta,
    decreases m,
{
    if m > 0 {
        let p = (m - 1) as nat;
        assert(elapsed + p * delta + delta == elapsed + m * delta) by (nonlinear_arith)
            requires
                p + 1 == m,
        ;
        lemma_no_wrap(elapsed, delta, interval, p);
        let total = elapsed + m * delta;
        lemma_small_mod(total, interval);
        assert(elapsed_after(elapsed, delta, interval, m) == carried(
            elapsed + p * delta,
            delta,
            interval,
        ));
        assert(carried(elapsed + p * delta, delta, interval) == total % interval);
    } else {
        assert(m * delta == 0) by (nonlinear_arith)
            requires
                m == 0,
        ;
    }
}

/// Throttling: once a tick has completed a period, none of the next `k`
/// ticks completes one, as long as `k + 1` ticks fit in a period. With a
/// period of a second and ticks of a tenth of a second, a refresh is
/// followed by at least nine ticks without one.
pub proof fn lemma_throttled(elapsed: nat, delta: nat, interval: nat, k: nat)
    requires
        elapsed < interval,
        due(elapsed, delta, interval),
        (k + 1) * delta <= interval,
    ensures
        forall|n: nat|
            1 <= n <= k ==> !#[trigger] fires_at(carried(elapsed, delta, interval), delta, interval, n),
{
    assert(delta <= interval) by (nonlinear_arith)
        requires
            (k + 1) * delta <= interval,
    ;
    let rest = (elapsed + delta - interval) as nat;
    lemma_mod_add_multiples_vanish(rest as int, interval as int);
    lemma_small_mod(rest, interval);
    let e1 = carried(elapsed, delta, interval);
    assert(e1 == rest);
    assert forall|n: nat| 1 <= n <= k implies !#[trigger] fires_at(e1, delta, interval, n) by {
        let m = (n - 1) as nat;
        assert(e1 + n * delta < interval) by (nonlinear_arith)
            requires
                e1 < delta,
                n <= k,
                (k + 1) * delta <= interval,
        ;
        assert(e1 + m * delta + delta == e1 + n * delta) by (nonlinear_arith)
            requires
                m + 1 == n,
        ;
        lemma_no_wrap(e1, delta, interval, m);
    }
}

impl RefreshTimer {
    /// The timer is usable: its period is not zero.
    pub open spec fn wf(&self) -> bool {
        self.interval > 0
    }

    /// A running timer with the overlay's refresh period.
    pub fn new() -> (r: Self)
        ensures
            r.wf(),
            r.interval == UPDATE_INTERVAL_NANOS,
            r.elapsed == 0,
            !r.paused,
    {
        RefreshTimer { interval: UPDATE_INTERVAL_NANOS, elapsed: 0, paused: false }
    }

    /// A running timer with the given period.
    pub fn with_interval(interval: u64) -> (r: Self)
        requires
            interval > 0,
        ensures
            r.wf(),
            r.interval == interval,
            r.elapsed == 0,
            !r.paused,
    {
        RefreshTimer { interval, elapsed: 0, paused: false }
    }

    /// Hides the overlay from the next tick on.
    pub fn pause(&mut self)
        ensures
            final(self).paused,
            final(self).interval == old(self).interval,
            final(self).elapsed == old(self).elapsed,
    {
        self.paused = true;
    }

    /// Shows the overlay again from the next tick on.
    pub fn unpause(&mut self)
        ensures
            !final(self).paused,
            final(self).interval == old(self).interval,
            final(self).elapsed == old(self).elapsed,
    {
        self.paused = false;
    }

    /// Whether the overlay is switched off.
    pub fn paused(&self) -> (r: bool)
        ensures
            r == self.paused,
    {
        self.paused
    }

    /// Advances a running timer by `delta` nanoseconds and says whether a
    /// period was completed. A paused timer does not move.
    pub fn tick(&mut self, delta: u64) -> (fired: bool)
        requires
            old(self).wf(),
            !old(self).paused ==> tick_fits(
                old(self).elapsed as nat,
                delta as nat,
                old(self).interval as nat,
            ),
        ensures
            final(self).wf(),
            final(self).interval == old(self).interval,
            final(self).paused == old(self).paused,
            old(self).paused ==> final(self).elapsed == old(self).elapsed && !fired,
            !old(self).paused ==> {
                &&& fired == due(old(self).elapsed as nat, delta as nat, old(self).interval as nat)
                &&& final(self).elapsed == carried(
                    old(self).elapsed as nat,
                    delta as nat,
                    old(self).interval as nat,
                )
            },
    {
        if self.paused {
            return false;
        }
        let (fired, rest) = bevy_timer_tick(self.interval, self.elapsed, delta);
        self.elapsed = rest;
        fired
    }
}

} // verus!
