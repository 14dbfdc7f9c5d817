use vstd::prelude::*;

verus! {

/// A signed span of time with microsecond precision, backed by `i32`.
#[derive(Clone, Copy, PartialEq, Eq, Structural, Hash, Debug)]
pub struct Duration {
    micros: i32,
}

impl View for Duration {
    type V = int;

    closed spec fn view(&self) -> int {
        self.micros as int
    }
}

impl Duration {
    /// Construct a new `Duration` from the specified number of microseconds.
    pub fn from_micros(micros: i32) -> (d: Duration)
        ensures
            d@ == micros as int,
    {
        Duration { micros }
    }

    /// The number of whole microseconds in this span.
    pub fn as_micros(self) -> (r: i32)
        ensures
            r as int == self@,
    {
        self.micros
    }
}

/// What `Duration::from_micros` in `core` returns for the given number of
/// microseconds.
pub uninterp spec fn core_duration_of_micros(micros: u64) -> core::time::Duration;

/// Calls `core::time::Duration::from_micros`, which builds a span of
/// `micros` microseconds; the result is taken to be determined by `micros`
/// alone.
#[verifier::external_body]
fn core_duration_from_micros(micros: u64) -> (d: core::time::Duration)
    ensures
        d == core_duration_of_micros(micros),
{
    core::time::Duration::from_micros(micros)
}

/// The signed span `later - earlier` in microseconds, when it fits the
/// range of `Duration`.
pub open spec fn span_between(later: int, earlier: int) -> Option<int> {
    let d = later - earlier;
    if i32::MIN <= d <= i32::MAX {
        Some(d)
    } else {
        None
    }
}

/// Represents a timestamp used by the API surface of the Constance RTOS.
///
/// The origin is application-defined. `Time` is backed by `u64` and can
/// represent up to 213,503,982 days with microsecond precision.
#[derive(Clone, Copy, PartialEq, Eq, Structural, PartialOrd, Ord, Hash)]
pub struct Time {
    micros: u64,
}

impl View for Time {
    type V = int;

    /// The number of microseconds since the origin.
    closed spec fn view(&self) -> int {
        self.micros as int
    }
}

impl Default for Time {
    /// The origin.
    fn default() -> (t: Time)
        ensures
            t@ == 0,
    {
        Time::zero()
    }
}

impl Time {
    /// Zero (the origin).
    pub fn zero() -> (t: Time)
        ensures
            t@ == 0,
    {
        Time { micros: 0 }
    }

    /// The largest representable timestamp.
    pub fn max_value() -> (t: Time)
        ensures
            t@ == u64::MAX,
    {
        Time { micros: u64::MAX }
    }

    /// Construct a new `Time` from the specified number of microseconds.
    pub fn from_micros(micros: u64) -> (t: Time)
        ensures
            t@ == micros as int,
    {
        Time { micros }
    }

    /// Construct a new `Time` from the specified number of milliseconds.
    ///
    /// `millis` must not overflow the representable range of `Time`.
    pub fn from_millis(millis: u64) -> (t: Time)
        requires
            millis * 1000 <= u64::MAX,
        ensures
            t@ == millis * 1000,
    {
        match millis.checked_mul(1000) {
            Some(x) => Time::from_micros(x),
            None => vstd::pervasive::unreached(),
        }
    }

    /// Construct a new `Time` from the specified number of seconds.
    ///
    /// `secs` must not overflow the representable range of `Time`.
    pub fn from_secs(secs: u64) -> (t: Time)
        requires
            secs * 1_000_000 <= u64::MAX,
        ensures
            t@ == secs * 1_000_000,
    {
        match secs.checked_mul(1_000_000) {
            Some(x) => Time::from_micros(x),
            None => vstd::pervasive::unreached(),
        }
    }

    /// Get the total number of whole microseconds contained in the time
    /// span between this `Time` and `Time::ZERO`.
    pub fn as_micros(self) -> (r: u64)
        ensures
            r as int == self@,
    {
        self.micros
    }

    /// Get the total number of whole milliseconds contained in the time
    /// span between this `Time` and `Time::ZERO`.
    pub fn as_millis(self) -> (r: u64)
        ensures
            r as int == self@ / 1000,
    {
        self.micros / 1000
    }

    /// Get the total number of whole seconds contained in the time span
    /// between this `Time` and `Time::ZERO`.
    pub fn as_secs(self) -> (r: u64)
        ensures
            r as int == self@ / 1_000_000,
    {
        self.micros / 1_000_000
    }

    /// Get the duration since the origin as `core::time::Duration`.
    pub fn core_duration_since_origin(self) -> (d: core::time::Duration)
        ensures
            d == core_duration_of_micros(self@ as u64),
    {
        core_duration_from_micros(self.micros)
    }

    /// Get the duration since the specified timestamp as
    /// `core::time::Duration`. Returns `None` if `self` < `reference`.
    pub fn core_duration_since(self, reference: Time) -> (r: Option<core::time::Duration>)
        ensures
            self@ >= reference@ ==> r == Some(
                core_duration_of_micros((self@ - reference@) as u64),
            ),
            self@ < reference@ ==> r is None,
    {
        if self.micros >= reference.micros {
            Some(core_duration_from_micros(self.micros - reference.micros))
        } else {
            None
        }
    }

    /// Get the duration since the specified timestamp as `Duration`.
    /// Returns `None` if the result overflows the representable range of
    /// `Duration`.
    pub fn duration_since(self, reference: Time) -> (r: Option<Duration>)
        ensures
            r is Some <==> span_between(self@, reference@) is Some,
            r matches Some(d) ==> span_between(self@, reference@) == Some(d@),
    {
        if self.micros >= reference.micros {
            let diff: u64 = self.micros - reference.micros;
            if diff <= 0x7fff_ffff {
                Some(Duration::from_micros(diff as i32))
            } else {
                None
            }
        } else {
            let diff: u64 = reference.micros - self.micros;
            if diff <= 0x8000_0000 {
                let neg: i64 = 0i64 - (diff as i64);
                Some(Duration::from_micros(neg as i32))
            } else {
                None
            }
        }
    }
}

/// A timestamp built from a number of milliseconds reads back that number
/// of milliseconds: `Time::from_millis(m).as_millis() == m`.
pub proof fn lemma_from_millis_as_millis(millis: u64, t: Time)
    requires
        t@ == millis * 1000,
    ensures
        t@ / 1000 == millis,
{
}

/// A timestamp built from a number of seconds reads back that number of
/// seconds, and equals the timestamp built from the same span in
/// milliseconds: `Time::from_secs(s).as_secs() == s` and
/// `Time::from_secs(s) == Time::from_millis(s * 1000)`.
pub proof fn lemma_from_secs(secs: u64, t: Time)
    requires
        t@ == secs * 1_000_000,
    ensures
        t@ / 1_000_000 == secs,
        t@ == (secs * 1000) * 1000,
{
}

/// Whole seconds are whole milliseconds divided by a thousand:
/// `t.as_secs() == t.as_millis() / 1000`.
pub proof fn lemma_secs_of_millis(t: Time)
    ensures
        t@ / 1_000_000 == (t@ / 1000) / 1000,
{
    vstd::arithmetic::div_mod::lemma_div_denominator(t@, 1000, 1000);
}

/// The span from a timestamp to itself is zero:
/// `t.duration_since(t) == Some(Duration::from_micros(0))`.
pub proof fn lemma_duration_since_self(t: Time)
    ensures
        span_between(t@, t@) == Some(0int),
{
}

/// Swapping the two timestamps negates the span, whenever the negation is
/// representable: if `a.duration_since(b)` is `Some(d)` with `d` above
/// `i32::MIN`, then `b.duration_since(a)` is `Some(-d)`.
pub proof fn lemma_duration_since_swap(a: Time, b: Time, d: int)
    requires
        span_between(a@, b@) == Some(d),
        d > i32::MIN,
    ensures
        span_between(b@, a@) == Some(-d),
{
}

/// `core_duration_since` succeeds exactly when `duration_since` would not
/// give a negative span: for timestamps whose span fits `Duration`,
/// `a.core_duration_since(b)` is `Some` iff the span is non-negative.
pub proof fn lemma_core_duration_since_sign(a: Time, b: Time, d: int)
    requires
        span_between(a@, b@) == Some(d),
    ensures
        (a@ >= b@) <==> d >= 0,
{
}

/// Timestamps are equal exactly when their microsecond counts are, so
/// that, for example, `Time::from_secs(s) == Time::from_millis(s * 1000)`.
pub proof fn lemma_time_view_injective(a: Time, b: Time)
    requires
        a@ == b@,
    ensures
        a == b,
{
}

/// Durations are equal exactly when their microsecond counts are.
pub proof fn lemma_duration_view_injective(a: Duration, b: Duration)
    requires
        a@ == b@,
    ensures
        a == b,
{
}

} // verus!
