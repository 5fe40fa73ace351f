use crate::dur::add_capped;
use crate::dur::sub_floor;
use crate::dur::Dur;
use crate::dur::MAX_DUR_NANOS;
use crate::epoch::Epoch;
use crate::time_source::monotonic_distance;
use std::sync::Arc;
use std::time::Instant;
use vstd::prelude::*;
use vstd::rwlock::RwLock;
use vstd::rwlock::RwLockPredicate;

verus! {

/// One stopwatch instance: a wall-clock anchor plus the monotonic readings
/// that delimit the current running interval.
///
/// All readings are spans measured from `base`, the instant the stopwatch
/// was created. The stopwatch is running exactly while `stop` is absent;
/// a present `stop` freezes the elapsed time at `stop - start`.
#[derive(Debug, Copy, Clone)]
pub struct InnerClock {
    /// The wall-clock anchor, captured at creation or at the last reset.
    pub epoch: Epoch,
    /// The monotonic reading every stored span is measured from.
    pub base: Instant,
    /// The reading at which the current running interval began.
    pub start: Dur,
    /// The reading at which the stopwatch was paused, where it is paused.
    pub stop: Option<Dur>,
}

impl InnerClock {
    /// True while the stopwatch is accumulating elapsed time.
    pub open spec fn ticking(self) -> bool {
        self.stop is None
    }

    /// Every stored span fits what the system time sources can report.
    pub open spec fn wf(self) -> bool {
        &&& self.epoch@ <= MAX_DUR_NANOS
        &&& self.start@ <= MAX_DUR_NANOS
        &&& (self.stop matches Some(s) ==> s@ <= MAX_DUR_NANOS)
    }

    /// The elapsed time read when the monotonic clock stands at `t`:
    /// frozen at `stop - start` while paused, `t - start` while running.
    pub open spec fn spec_now_at(self, t: int) -> int {
        match self.stop {
            Some(s) => sub_floor(s@, self.start@),
            None => sub_floor(t, self.start@),
        }
    }

    /// The state after `start` when the monotonic clock stands at `t`.
    pub open spec fn spec_started(self, t: Dur) -> InnerClock {
        InnerClock { start: t, stop: None, ..self }
    }

    /// The state after `stop` when the monotonic clock stands at `t`:
    /// only the first stop after entering the running state has effect.
    pub open spec fn spec_stopped(self, t: Dur) -> InnerClock {
        if self.stop is Some {
            self
        } else {
            InnerClock { stop: Some(t), ..self }
        }
    }

    /// The state after `resume`: the pause marker is cleared and nothing
    /// else moves — in particular the start reading is not rebased.
    pub open spec fn spec_resumed(self) -> InnerClock {
        InnerClock { stop: None, ..self }
    }

    /// The state after `reset` to epoch `e` when the monotonic clock
    /// stands at `t`.
    pub open spec fn spec_reset(self, e: Epoch, t: Dur) -> InnerClock {
        InnerClock { epoch: e, start: t, stop: None, ..self }
    }

    /// A fresh stopwatch: running, elapsed zero, anchored to the wall
    /// clock now.
    pub fn new() -> (c: InnerClock)
        ensures
            c.ticking(),
            c.start@ == 0,
            c.wf(),
    {
        InnerClock {
            epoch: Epoch::from_unix(),
            base: Instant::now(),
            start: Dur::zero(),
            stop: None,
        }
    }

    /// A fresh reading of the monotonic clock, as a span since `base`.
    fn read(&self) -> (t: Dur)
        ensures
            t@ <= MAX_DUR_NANOS,
    {
        let n = Instant::now();
        monotonic_distance(&n, &self.base)
    }

    /// The wall-clock anchor of this stopwatch.
    pub fn epoch(&self) -> (r: Epoch)
        ensures
            r == self.epoch,
    {
        self.epoch
    }

    /// The elapsed time at reading `t`, exactly [`Self::spec_now_at`].
    pub fn now_at(&self, t: Dur) -> (r: Dur)
        ensures
            r@ == self.spec_now_at(t@),
    {
        match self.stop {
            Some(s) => s.saturating_sub(&self.start),
            None => t.saturating_sub(&self.start),
        }
    }

    /// The transition `start` takes at reading `t`: rebase the running
    /// interval to begin at `t`, from either state. The epoch is untouched.
    pub fn start_at(&mut self, t: Dur)
        ensures
            *final(self) == old(self).spec_started(t),
    {
        self.start = t;
        self.stop = None;
    }

    /// The transition `stop` takes at reading `t`. Only the first stop
    /// after entering the running state records `t`; the returned span is
    /// the frozen elapsed time, whichever call recorded it.
    pub fn stop_at(&mut self, t: Dur) -> (r: Option<Dur>)
        ensures
            *final(self) == old(self).spec_stopped(t),
            old(self).stop is Some ==> *final(self) == *old(self),
            r matches Some(d) && d@ == final(self).spec_now_at(t@),
    {
        if self.stop.is_none() {
            self.stop = Some(t);
        }
        let s = self.stop.unwrap();
        Some(s.saturating_sub(&self.start))
    }

    /// The transition `resume` takes at reading `t`: clear the pause
    /// marker without rebasing the start reading, and return how long the
    /// stopwatch was paused — zero where it was already running.
    pub fn resume_at(&mut self, t: Dur) -> (r: Option<Dur>)
        ensures
            *final(self) == old(self).spec_resumed(),
            old(self).stop is None ==> (r matches Some(d) && d@ == 0),
            old(self).stop matches Some(s) ==> ((t@ >= s@ ==> (r matches Some(d) && d@ == t@
                - s@)) && (t@ < s@ ==> r is None)),
    {
        match self.stop {
            Some(s) => {
                self.stop = None;
                t.checked_sub(&s)
            },
            None => Some(Dur::zero()),
        }
    }

    /// The transition `reset` takes at reading `t` with a fresh epoch `e`:
    /// rebase the running interval and replace the wall-clock anchor.
    pub fn reset_at(&mut self, e: Epoch, t: Dur)
        ensures
            *final(self) == old(self).spec_reset(e, t),
    {
        self.epoch = e;
        self.start = t;
        self.stop = None;
    }

    /// Start the stopwatch: rebase the running interval to begin now.
    pub fn start(&mut self)
        ensures
            *final(self) == old(self).spec_started(final(self).start),
            final(self).start@ <= MAX_DUR_NANOS,
    {
        let t = self.read();
        self.start_at(t);
    }

    /// Stop the stopwatch if it is running; a stopwatch already paused is
    /// left untouched. Returns the frozen elapsed time.
    pub fn stop(&mut self) -> (r: Option<Dur>)
        ensures
            final(self).stop matches Some(s) && (*final(self) == old(self).spec_stopped(s)) && (
            r matches Some(d) && d@ == sub_floor(s@, old(self).start@)) && (old(self).stop is None
                ==> s@ <= MAX_DUR_NANOS),
            old(self).stop is Some ==> *final(self) == *old(self),
    {
        let t = self.read();
        self.stop_at(t)
    }

    /// Resume a paused stopwatch, returning how long it was paused; on a
    /// running stopwatch this is a no-op returning a zero span.
    pub fn resume(&mut self) -> (r: Option<Dur>)
        ensures
            *final(self) == old(self).spec_resumed(),
            old(self).stop is None ==> (r matches Some(d) && d@ == 0),
            r matches Some(d) ==> d@ <= MAX_DUR_NANOS,
    {
        let t = self.read();
        self.resume_at(t)
    }

    /// Reset the stopwatch: elapsed time starts over from zero and the
    /// epoch is recaptured from the wall clock.
    pub fn reset(&mut self)
        ensures
            *final(self) == old(self).spec_reset(final(self).epoch, final(self).start),
            final(self).epoch@ <= MAX_DUR_NANOS,
            final(self).start@ <= MAX_DUR_NANOS,
    {
        let e = Epoch::from_unix();
        let t = self.read();
        self.reset_at(e, t);
    }

    /// The elapsed time: frozen while paused, live while running — then the
    /// result comes from some bounded reading of the monotonic clock.
    pub fn now(&self) -> (r: Dur)
        ensures
            self.stop matches Some(s) ==> r@ == sub_floor(s@, self.start@),
            self.ticking() ==> (exists|t: int| 0 <= t <= MAX_DUR_NANOS && r@ == self.spec_now_at(
            t)),
            self.ticking() ==> r@ <= MAX_DUR_NANOS,
    {
        let t = self.read();
        self.now_at(t)
    }

    /// True while the stopwatch is running.
    pub fn is_ticking(&self) -> (r: bool)
        ensures
            r == self.ticking(),
    {
        self.stop.is_none()
    }

    /// The elapsed time plus the epoch: an absolute timestamp, capped only
    /// at the largest span a [`Dur`] can hold. While running, the result
    /// comes from some bounded reading of the monotonic clock.
    pub fn time(&self) -> (r: Dur)
        ensures
            self.stop matches Some(s) ==> r@ == add_capped(sub_floor(s@, self.start@), self.epoch@),
            self.ticking() ==> (exists|t: int|
                0 <= t <= MAX_DUR_NANOS && r@ == add_capped(self.spec_now_at(t), self.epoch@)),
            self.wf() ==> r@ <= MAX_DUR_NANOS + MAX_DUR_NANOS,
    {
        let n = self.now();
        n.saturating_add(&self.epoch.duration())
    }
}

/// Decides which values may sit behind a [`Clock`]'s lock: any
/// well-formed stopwatch state.
pub struct ClockPred {}

impl RwLockPredicate<InnerClock> for ClockPred {
    open spec fn inv(self, v: InnerClock) -> bool {
        v.wf()
    }
}

/// A cloneable, thread-safe stopwatch handle.
///
/// Every clone shares one underlying [`InnerClock`]: mutating calls
/// serialize through an exclusive writer lock, reads take a shared lock,
/// and no lock is held across calls.
pub struct Clock {
    inner: Arc<RwLock<InnerClock, ClockPred>>,
}

impl Clock {
    /// A new clock: captures the wall-clock epoch and starts running.
    pub fn new() -> Clock {
        Clock { inner: Arc::new(RwLock::new(InnerClock::new(), Ghost(ClockPred {}))) }
    }

    /// Rebase the running interval to begin now, from either state.
    pub fn start(&self) {
        let (mut v, handle) = self.inner.acquire_write();
        v.start();
        handle.release_write(v);
    }

    /// Stop the clock if it is running; a clock already stopped is left
    /// untouched. Returns the frozen elapsed time.
    pub fn stop(&self) -> (r: Option<Dur>)
        ensures
            r matches Some(d) && d@ <= MAX_DUR_NANOS,
    {
        let (mut v, handle) = self.inner.acquire_write();
        let r = v.stop();
        handle.release_write(v);
        r
    }

    /// Reset the clock: elapsed time starts over from zero and the epoch
    /// is recaptured from the wall clock.
    pub fn reset(&self) {
        let (mut v, handle) = self.inner.acquire_write();
        v.reset();
        handle.release_write(v);
    }

    /// Resume a paused clock, returning how long it was paused; on a
    /// running clock this is a no-op returning a zero span.
    pub fn resume(&self) -> (r: Option<Dur>)
        ensures
            r matches Some(d) ==> d@ <= MAX_DUR_NANOS,
    {
        let (mut v, handle) = self.inner.acquire_write();
        let r = v.resume();
        handle.release_write(v);
        r
    }

    /// The wall-clock anchor captured at creation or at the last reset.
    pub fn epoch(&self) -> (r: Epoch)
        ensures
            r@ <= MAX_DUR_NANOS,
    {
        let handle = self.inner.acquire_read();
        let r = handle.borrow().epoch();
        handle.release_read();
        r
    }

    /// The elapsed time: frozen while stopped, live while running.
    pub fn now(&self) -> (r: Dur)
        ensures
            r@ <= MAX_DUR_NANOS,
    {
        let handle = self.inner.acquire_read();
        let r = handle.borrow().now();
        handle.release_read();
        r
    }

    /// True while the clock is running.
    pub fn is_ticking(&self) -> bool {
        let handle = self.inner.acquire_read();
        let r = handle.borrow().is_ticking();
        handle.release_read();
        r
    }

    /// The elapsed time plus the epoch: an absolute timestamp.
    pub fn time(&self) -> (r: Dur)
        ensures
            r@ <= MAX_DUR_NANOS + MAX_DUR_NANOS,
    {
        let handle = self.inner.acquire_read();
        let r = handle.borrow().time();
        handle.release_read();
        r
    }
}

impl Default for InnerClock {
    /// A fresh stopwatch, like [`InnerClock::new`].
    fn default() -> (c: Self)
        ensures
            c.ticking(),
            c.start@ == 0,
            c.wf(),
    {
        InnerClock::new()
    }
}

impl Default for Clock {
    /// A fresh clock, like [`Clock::new`]. The state behind the shared
    /// handle is not observable here, so there is nothing to state.
    fn default() -> (c: Self) {
        Clock::new()
    }
}

impl Clone for Clock {
    /// Relies on `alloc::sync::Arc::clone`: the clone is a second handle
    /// to the same allocation, so it equals the clock it was cloned from
    /// and every duplicate observes the same underlying stopwatch.
    #[verifier::external_body]
    fn clone(&self) -> (r: Clock)
        ensures
            r == *self,
    {
        Clock { inner: Arc::clone(&self.inner) }
    }
}

/// Law: while the clock is running, elapsed time never decreases — of two
/// readings of the monotonic clock, the later one yields at least as large
/// a `now` value.
pub proof fn lemma_now_monotonic(c: InnerClock, t1: int, t2: int)
    requires
        c.ticking(),
        t1 <= t2,
    ensures
        c.spec_now_at(t1) <= c.spec_now_at(t2),
{
}

/// Law: a stopped clock is frozen — `now` reads the same value whatever
/// the monotonic clock says, until the stopwatch is resumed, started or
/// reset.
pub proof fn lemma_now_frozen(c: InnerClock, t1: int, t2: int)
    requires
        !c.ticking(),
    ensures
        c.spec_now_at(t1) == c.spec_now_at(t2),
{
}

/// Law: resuming does not excise the paused interval. A clock stopped at
/// elapsed time `E`, paused for a span `p` and then resumed reads at least
/// `E + p` on the next `now`: the start reading is not rebased, so the
/// pause stays counted as elapsed time.
pub proof fn lemma_resume_includes_pause(c: InnerClock, p: int, t: int)
    requires
        c.stop matches Some(s) && s@ >= c.start@ && t >= s@ + p,
        p >= 0,
    ensures
        c.spec_resumed().spec_now_at(t) >= c.spec_now_at(t) + p,
{
}

/// Law: stopping is idempotent — a second stop without an intervening
/// start, resume or reset leaves the state as it stands and returns the
/// same frozen duration as the first.
pub proof fn lemma_stop_idempotent(c: InnerClock, t1: Dur, t2: Dur)
    ensures
        c.spec_stopped(t1).spec_stopped(t2) == c.spec_stopped(t1),
        c.spec_stopped(t1).spec_now_at(t2@) == c.spec_stopped(t1).spec_now_at(t1@),
{
}

/// Law: resuming a running clock does not alter the state at all, so the
/// trajectory of `now` is unchanged; the zero return of that no-op is
/// stated on `resume_at` itself.
pub proof fn lemma_resume_running_noop(c: InnerClock)
    requires
        c.ticking(),
    ensures
        c.spec_resumed() == c,
{
}

/// Law: a reset clears both axes — the stopwatch runs again, its elapsed
/// time is zero at the reset reading, and the anchor is the freshly
/// captured epoch.
pub proof fn lemma_reset_clears(c: InnerClock, e: Epoch, t: Dur)
    ensures
        c.spec_reset(e, t).ticking(),
        c.spec_reset(e, t).spec_now_at(t@) == 0,
        c.spec_reset(e, t).epoch == e,
{
}

} // verus!
