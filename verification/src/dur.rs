use vstd::prelude::*;

verus! {

/// Nanoseconds in one second.
pub const NANOS_PER_SEC: u128 = 1_000_000_000;

/// The largest span the system time sources can report: `u64::MAX` seconds
/// plus the largest sub-second remainder.
pub const MAX_DUR_NANOS: u128 = 0xFFFF_FFFF_FFFF_FFFF * 1_000_000_000 + 999_999_999;

/// A non-negative span of time, counted in whole nanoseconds.
///
/// The field is public so that specifications can speak about it directly;
/// the view of a `Dur` is its nanosecond count as a mathematical integer.
#[derive(Debug, Copy, Clone, PartialEq, Eq, Structural, PartialOrd, Ord, Hash)]
pub struct Dur {
    pub nanos: u128,
}

impl View for Dur {
    type V = int;

    open spec fn view(&self) -> int {
        self.nanos as int
    }
}

/// `a - b`, floored at zero.
pub open spec fn sub_floor(a: int, b: int) -> int {
    if a >= b {
        a - b
    } else {
        0
    }
}

/// `a + b`, capped at the largest nanosecond count a `Dur` can hold.
pub open spec fn add_capped(a: int, b: int) -> int {
    if a + b <= u128::MAX {
        a + b
    } else {
        u128::MAX as int
    }
}

impl Dur {
    /// The zero-length span.
    pub fn zero() -> (r: Self)
        ensures
            r@ == 0,
    {
        Dur { nanos: 0 }
    }

    /// A span of `n` nanoseconds.
    pub fn from_nanos(n: u128) -> (r: Self)
        ensures
            r@ == n,
    {
        Dur { nanos: n }
    }

    /// A span of `s` whole seconds.
    pub fn from_secs(s: u64) -> (r: Self)
        ensures
            r@ == s * NANOS_PER_SEC,
    {
        Dur { nanos: (s as u128) * NANOS_PER_SEC }
    }

    /// A span of `ms` whole milliseconds.
    pub fn from_millis(ms: u64) -> (r: Self)
        ensures
            r@ == ms * 1_000_000,
    {
        Dur { nanos: (ms as u128) * 1_000_000 }
    }

    /// The whole nanosecond count of this span.
    pub fn as_nanos(&self) -> (r: u128)
        ensures
            r == self@,
    {
        self.nanos
    }

    /// The whole seconds part of this span.
    pub fn as_secs(&self) -> (r: u128)
        ensures
            r == self@ / (NANOS_PER_SEC as int),
    {
        self.nanos / NANOS_PER_SEC
    }

    /// The sub-second remainder of this span, in nanoseconds.
    pub fn subsec_nanos(&self) -> (r: u32)
        ensures
            r == self@ % (NANOS_PER_SEC as int),
    {
        (self.nanos % NANOS_PER_SEC) as u32
    }

    /// True on the zero-length span.
    pub fn is_zero(&self) -> (r: bool)
        ensures
            r == (self@ == 0),
    {
        self.nanos == 0
    }

    /// `self + other`, or `None` where the sum does not fit in a `Dur`.
    pub fn checked_add(&self, other: &Dur) -> (r: Option<Dur>)
        ensures
            self@ + other@ <= u128::MAX ==> (r matches Some(c) && c@ == self@ + other@),
            self@ + other@ > u128::MAX ==> r is None,
    {
        match self.nanos.checked_add(other.nanos) {
            Some(n) => Some(Dur { nanos: n }),
            None => None,
        }
    }

    /// `self + other`, capped at the largest representable span.
    pub fn saturating_add(&self, other: &Dur) -> (r: Dur)
        ensures
            r@ == add_capped(self@, other@),
    {
        Dur { nanos: self.nanos.saturating_add(other.nanos) }
    }

    /// `self - other`, or `None` where `other` is the longer span.
    pub fn checked_sub(&self, other: &Dur) -> (r: Option<Dur>)
        ensures
            self@ >= other@ ==> (r matches Some(c) && c@ == self@ - other@),
            self@ < other@ ==> r is None,
    {
        match self.nanos.checked_sub(other.nanos) {
            Some(n) => Some(Dur { nanos: n }),
            None => None,
        }
    }

    /// `self - other`, floored at zero.
    pub fn saturating_sub(&self, other: &Dur) -> (r: Dur)
        ensures
            r@ == sub_floor(self@, other@),
    {
        Dur { nanos: self.nanos.saturating_sub(other.nanos) }
    }
}

} // verus!
