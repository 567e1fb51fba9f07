use vstd::prelude::*;

verus! {

/// Microseconds in one second: the unit in which instants travel to the store.
pub const MICROS_PER_SEC: i64 = 1000000;

/// Nanoseconds in one second.
pub const NANOS_PER_SEC: i32 = 1000000000;

/// A point in time: whole seconds since the epoch, and the nanoseconds within that second.
#[derive(Clone, Copy, Debug, PartialEq, Eq, Structural)]
pub struct Timespec {
    pub sec: i64,
    pub nsec: i32,
}

impl Timespec {
    /// Well-formed: the nanosecond part lies in one second.
    pub open spec fn wf(self) -> bool {
        0 <= self.nsec < NANOS_PER_SEC
    }

    /// Builds a timespec; the nanosecond part must lie within one second.
    pub fn new(sec: i64, nsec: i32) -> (t: Timespec)
        requires
            0 <= nsec < NANOS_PER_SEC,
        ensures
            t.sec == sec,
            t.nsec == nsec,
            t.wf(),
    {
        Timespec { sec, nsec }
    }
}

} // verus!

verus! {

/// Whether a count of seconds, taken in microseconds, still fits in an `i64`.
pub open spec fn micros_fit(sec: i64) -> bool {
    i64::MIN <= sec * 1000000 <= i64::MAX
}

/// The instant of a date in microseconds, as the store writes it: the nanoseconds
/// of the date are not part of it.
pub open spec fn micros_of(t: Timespec) -> int {
    t.sec * 1000000
}

/// Whether a count of seconds can be taken in microseconds without overflow.
pub fn fits_in_micros(sec: i64) -> (r: bool)
    ensures
        r == micros_fit(sec),
{
    assert(sec <= 9223372036854 ==> sec * 1000000 <= i64::MAX) by (nonlinear_arith);
    assert(sec > 9223372036854 ==> sec * 1000000 > i64::MAX) by (nonlinear_arith);
    assert(sec >= -9223372036854 ==> sec * 1000000 >= i64::MIN) by (nonlinear_arith);
    assert(sec < -9223372036854 ==> sec * 1000000 < i64::MIN) by (nonlinear_arith);
    -9223372036854 <= sec && sec <= 9223372036854
}

/// The microseconds of a date's whole seconds.
pub fn to_micros(t: Timespec) -> (m: i64)
    requires
        micros_fit(t.sec),
    ensures
        m == micros_of(t),
{
    t.sec * MICROS_PER_SEC
}

/// The date of an instant given in microseconds: whole seconds rounded down, and the
/// rest in nanoseconds.
pub open spec fn from_micros_spec(micros: i64) -> Timespec {
    Timespec {
        sec: (micros as int / 1000000) as i64,
        nsec: ((micros as int % 1000000) * 1000) as i32,
    }
}

/// Turns an instant in microseconds into a date.
pub fn from_micros(micros: i64) -> (t: Timespec)
    ensures
        t == from_micros_spec(micros),
        t.wf(),
{
    let q: i64 = micros / MICROS_PER_SEC;
    let r: i64 = micros % MICROS_PER_SEC;
    if r < 0 {
        assert(micros == q * 1000000 + r);
        Timespec { sec: q - 1, nsec: ((r + MICROS_PER_SEC) * 1000) as i32 }
    } else {
        Timespec { sec: q, nsec: (r * 1000) as i32 }
    }
}

/// Whether two optional dates are the same.
pub fn same_date(a: &Option<Timespec>, b: &Option<Timespec>) -> (r: bool)
    ensures
        r == (*a == *b),
{
    match (a, b) {
        (Some(x), Some(y)) => x.sec == y.sec && x.nsec == y.nsec,
        (None, None) => true,
        _ => false,
    }
}

} // verus!
