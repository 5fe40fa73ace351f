use crate::dur::Dur;
use crate::dur::MAX_DUR_NANOS;
use crate::time_source::wall_clock_since_unix;
use vstd::prelude::*;

verus! {

/// A wall-clock anchor: a point in wall-clock time, expressed as the span
/// elapsed since the UNIX reference instant.
///
/// Values are immutable by replacement: every arithmetic operation returns
/// a new `Epoch`. The view of an `Epoch` is its nanosecond count as a
/// mathematical integer.
#[derive(Debug, Copy, Clone, PartialEq, Eq, Structural, PartialOrd, Ord, Hash)]
pub struct Epoch {
    pub dur: Dur,
}

impl View for Epoch {
    type V = int;

    open spec fn view(&self) -> int {
        self.dur@
    }
}

impl Epoch {
    /// Captures the wall clock now: the span since the UNIX reference
    /// instant. Aborts where the system clock reads before that instant.
    pub fn from_unix() -> (r: Self)
        ensures
            r@ <= MAX_DUR_NANOS,
    {
        Epoch { dur: wall_clock_since_unix() }
    }

    /// An epoch holding the given span directly.
    pub fn from(duration: Dur) -> (r: Self)
        ensures
            r@ == duration@,
    {
        Epoch { dur: duration }
    }

    /// The zero epoch: the UNIX reference instant itself.
    pub fn from_zero() -> (r: Self)
        ensures
            r@ == 0,
    {
        Epoch { dur: Dur::zero() }
    }

    /// The span this epoch lies after the UNIX reference instant.
    pub fn duration(&self) -> (r: Dur)
        ensures
            r@ == self@,
    {
        self.dur
    }

    /// `self + other`. The sum must fit in a `Dur`; a caller that cannot
    /// rule an overflow out checks the operands first.
    pub fn add(self, other: Epoch) -> (r: Self)
        requires
            self@ + other@ <= u128::MAX,
        ensures
            r@ == self@ + other@,
    {
        Epoch { dur: Dur { nanos: self.dur.nanos + other.dur.nanos } }
    }

    /// `self - other`. The right operand must be the smaller epoch; a
    /// caller that cannot rule an underflow out checks the operands first.
    pub fn sub(self, other: Epoch) -> (r: Self)
        requires
            self@ >= other@,
        ensures
            r@ == self@ - other@,
    {
        Epoch { dur: Dur { nanos: self.dur.nanos - other.dur.nanos } }
    }

    /// `self` shifted later by `other`. The sum must fit in a `Dur`.
    pub fn add_duration(self, other: Dur) -> (r: Self)
        requires
            self@ + other@ <= u128::MAX,
        ensures
            r@ == self@ + other@,
    {
        Epoch { dur: Dur { nanos: self.dur.nanos + other.nanos } }
    }

    /// `self` shifted earlier by `other`, which must not exceed `self`.
    pub fn sub_duration(self, other: Dur) -> (r: Self)
        requires
            self@ >= other@,
        ensures
            r@ == self@ - other@,
    {
        Epoch { dur: Dur { nanos: self.dur.nanos - other.nanos } }
    }

    /// In-place form of [`Epoch::add`].
    pub fn add_assign(&mut self, other: Epoch)
        requires
            old(self)@ + other@ <= u128::MAX,
        ensures
            final(self)@ == old(self)@ + other@,
    {
        self.dur.nanos = self.dur.nanos + other.dur.nanos;
    }

    /// In-place form of [`Epoch::sub`].
    pub fn sub_assign(&mut self, other: Epoch)
        requires
            old(self)@ >= other@,
        ensures
            final(self)@ == old(self)@ - other@,
    {
        self.dur.nanos = self.dur.nanos - other.dur.nanos;
    }

    /// In-place form of [`Epoch::add_duration`].
    pub fn add_duration_assign(&mut self, other: Dur)
        requires
            old(self)@ + other@ <= u128::MAX,
        ensures
            final(self)@ == old(self)@ + other@,
    {
        self.dur.nanos = self.dur.nanos + other.nanos;
    }

    /// In-place form of [`Epoch::sub_duration`].
    pub fn sub_duration_assign(&mut self, other: Dur)
        requires
            old(self)@ >= other@,
        ensures
            final(self)@ == old(self)@ - other@,
    {
        self.dur.nanos = self.dur.nanos - other.nanos;
    }
}

impl Default for Epoch {
    /// Captures the wall clock, like [`Epoch::from_unix`].
    fn default() -> (r: Self)
        ensures
            r@ <= MAX_DUR_NANOS,
    {
        Epoch::from_unix()
    }
}

} // verus!
