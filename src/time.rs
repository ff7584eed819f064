use crate::error::{Error, ErrorKind};
use crate::sequence_number::{fits_i64, HALF};
use core::cmp::Ordering;
use vstd::arithmetic::div_mod::lemma_fundamental_div_mod_converse;
use vstd::prelude::*;

verus! {

/// Nanoseconds in one second.
pub const NANOS_PER_SECOND: u64 = 1_000_000_000;

/// A timestamp or time difference in fixed point: whole seconds and
/// fractions of `1 / 2^32` of a second.
///
/// Counted from the Unix epoch when used as a timestamp. A negative whole
/// part marks the value invalid.
#[derive(Clone, Copy, Debug, PartialEq, Eq, Structural, Hash, Ord)]
pub struct Time {
    pub seconds: i32,
    pub fraction: u32,
}

/// Type used to hold time differences.
pub type Duration = Time;

/// The fraction units, truncated, that a count of nanoseconds makes.
pub open spec fn fraction_of_nanos(nanos: int) -> int {
    nanos * 0x1_0000_0000 / 1_000_000_000
}

/// The nanoseconds, truncated, that a count of fraction units makes.
pub open spec fn nanos_of_fraction(fraction: int) -> int {
    fraction * 1_000_000_000 / 0x1_0000_0000
}

impl Time {
    /// The value in fraction units.
    pub open spec fn value(self) -> int {
        self.seconds * 0x1_0000_0000 + self.fraction
    }

    /// The time whose value in fraction units is `v` (for `v` in the 64-bit range).
    pub open spec fn from_value(v: int) -> Time {
        Time { seconds: (v / 0x1_0000_0000) as i32, fraction: (v % 0x1_0000_0000) as u32 }
    }

    pub open spec fn spec_is_valid(self) -> bool {
        self.seconds >= 0
    }

    /// Sum of two times: absent when either is invalid or the sum overflows.
    pub open spec fn spec_checked_add(self, rhs: Time) -> Option<Time> {
        let sum = self.value() + rhs.value();
        if !self.spec_is_valid() || !rhs.spec_is_valid() || !fits_i64(sum) {
            None
        } else {
            Some(Time::from_value(sum))
        }
    }

    /// Difference of two times: absent when either is invalid or the
    /// difference is negative.
    pub open spec fn spec_checked_sub(self, rhs: Time) -> Option<Time> {
        let diff = self.value() - rhs.value();
        if !self.spec_is_valid() || !rhs.spec_is_valid() || diff < 0 {
            None
        } else {
            Some(Time::from_value(diff))
        }
    }

    /// Product by a scalar: absent when the time is invalid, the scalar
    /// negative, or the product overflows.
    pub open spec fn spec_checked_mul(self, rhs: i32) -> Option<Time> {
        let product = self.value() * rhs;
        if !self.spec_is_valid() || rhs < 0 || !fits_i64(product) {
            None
        } else {
            Some(Time::from_value(product))
        }
    }

    /// Quotient by a scalar: absent when the time is invalid or the scalar is
    /// not positive. The whole part is divided; its remainder, scaled to
    /// fraction units and divided, is added to the divided fraction.
    pub open spec fn spec_checked_div(self, rhs: i32) -> Option<Time> {
        if !self.spec_is_valid() || rhs <= 0 {
            None
        } else {
            Some(
                Time {
                    seconds: (self.seconds / rhs) as i32,
                    fraction: (self.fraction as int / rhs as int + (self.seconds % rhs) * 0x1_0000_0000
                        / rhs as int) as u32,
                },
            )
        }
    }

    /// Lexicographic order: whole seconds first, then fractions.
    pub open spec fn spec_cmp(self, rhs: Time) -> Ordering {
        if self.seconds < rhs.seconds {
            Ordering::Less
        } else if self.seconds > rhs.seconds {
            Ordering::Greater
        } else if self.fraction < rhs.fraction {
            Ordering::Less
        } else if self.fraction > rhs.fraction {
            Ordering::Greater
        } else {
            Ordering::Equal
        }
    }

    pub fn new(seconds: i32, fraction: u32) -> (r: Self)
        ensures
            r.seconds == seconds,
            r.fraction == fraction,
    {
        Time { seconds, fraction }
    }

    /// Whether the whole part is not negative.
    pub fn is_valid(&self) -> (r: bool)
        ensures
            r == self.spec_is_valid(),
    {
        self.seconds >= 0
    }

    pub fn infinite() -> (r: Self)
        ensures
            r.seconds == 0x7fff_ffff && r.fraction == 0xffff_ffff,
    {
        Self::new(0x7fff_ffff, 0xffff_ffff)
    }

    pub fn invalid() -> (r: Self)
        ensures
            r.seconds == -1 && r.fraction == 0xffff_ffff,
    {
        Self::new(-1, 0xffff_ffff)
    }

    pub fn zero() -> (r: Self)
        ensures
            r.seconds == 0 && r.fraction == 0,
    {
        Self::new(0, 0)
    }

    /// The current time read from the system clock, counted from the Unix epoch.
    ///
    /// Fails with `SystemTime` when the clock reads a moment before the epoch
    /// and with `TryFromInt` when its seconds do not fit 31 bits.
    pub fn now() -> (r: Result<Self, Error>)
        ensures
            r matches Ok(t) ==> t.spec_is_valid(),
            r matches Err(e) ==> e.kind == ErrorKind::SystemTime || e.kind == ErrorKind::TryFromInt,
    {
        match since_unix_epoch(clock_now()) {
            Some((secs, nanos)) => Self::try_from_duration(secs, nanos),
            None => Err(Error { kind: ErrorKind::SystemTime }),
        }
    }

    /// The time of a duration of `secs` seconds and `nanos` nanoseconds; the
    /// nanoseconds become fraction units, truncated.
    ///
    /// Fails with `TryFromInt` when `secs` does not fit 31 bits.
    pub fn try_from_duration(secs: u64, nanos: u32) -> (r: Result<Self, Error>)
        requires
            nanos < NANOS_PER_SECOND,
        ensures
            secs <= i32::MAX ==> r == Ok::<Time, Error>(
                Time { seconds: secs as i32, fraction: fraction_of_nanos(nanos as int) as u32 },
            ),
            secs > i32::MAX ==> r == Err::<Time, Error>(Error { kind: ErrorKind::TryFromInt }),
    {
        if secs > i32::MAX as u64 {
            return Err(Error { kind: ErrorKind::TryFromInt });
        }
        let scaled: u64 = nanos as u64 * HALF;
        let fraction: u64 = scaled / NANOS_PER_SECOND;
        assert(fraction < 0x1_0000_0000) by (nonlinear_arith)
            requires
                scaled == nanos * 0x1_0000_0000,
                nanos < 1_000_000_000,
                fraction == scaled / 1_000_000_000,
        ;
        Ok(Time { seconds: secs as i32, fraction: fraction as u32 })
    }

    /// The duration this time stands for, as whole seconds and nanoseconds;
    /// the fraction units become nanoseconds, truncated.
    ///
    /// Fails with `TryFromInt` when the time is invalid.
    pub fn try_into_duration(self) -> (r: Result<(u64, u32), Error>)
        ensures
            self.spec_is_valid() ==> r == Ok::<(u64, u32), Error>(
                (self.seconds as u64, nanos_of_fraction(self.fraction as int) as u32),
            ),
            !self.spec_is_valid() ==> r == Err::<(u64, u32), Error>(Error { kind: ErrorKind::TryFromInt }),
            r matches Ok((_, nanos)) ==> nanos < NANOS_PER_SECOND,
    {
        if self.seconds < 0 {
            return Err(Error { kind: ErrorKind::TryFromInt });
        }
        let scaled: u64 = self.fraction as u64 * NANOS_PER_SECOND;
        let nanos: u64 = scaled / HALF;
        assert(nanos < 1_000_000_000) by (nonlinear_arith)
            requires
                scaled == self.fraction * 1_000_000_000,
                self.fraction < 0x1_0000_0000,
                nanos == scaled / 0x1_0000_0000,
        ;
        Ok((self.seconds as u64, nanos as u32))
    }

    /// Adds two times, carrying from the fraction into the whole seconds.
    pub fn checked_add(self, rhs: Self) -> (r: Option<Self>)
        ensures
            r == self.spec_checked_add(rhs),
            r is Some ==> r->0.value() == self.value() + rhs.value(),
    {
        if !self.is_valid() || !rhs.is_valid() {
            return None;
        }
        let carry: i64 = if self.fraction as u64 + rhs.fraction as u64 >= HALF { 1 } else { 0 };
        let fraction = self.fraction.wrapping_add(rhs.fraction);
        let seconds: i64 = self.seconds as i64 + rhs.seconds as i64 + carry;
        if seconds > i32::MAX as i64 {
            return None;
        }
        let r = Time::new(seconds as i32, fraction);
        proof {
            lemma_time_value(r, self.value() + rhs.value());
        }
        Some(r)
    }

    /// Subtracts `rhs`, borrowing from the whole seconds into the fraction.
    pub fn checked_sub(self, rhs: Self) -> (r: Option<Self>)
        ensures
            r == self.spec_checked_sub(rhs),
            r is Some ==> r->0.value() == self.value() - rhs.value(),
    {
        if !self.is_valid() || !rhs.is_valid() {
            return None;
        }
        let borrow: i64 = if self.fraction < rhs.fraction { 1 } else { 0 };
        let fraction = self.fraction.wrapping_sub(rhs.fraction);
        let seconds: i64 = self.seconds as i64 - rhs.seconds as i64 - borrow;
        if seconds < 0 {
            return None;
        }
        let r = Time::new(seconds as i32, fraction);
        proof {
            lemma_time_value(r, self.value() - rhs.value());
        }
        Some(r)
    }

    /// Multiplies by a scalar: the fraction's product carries whole seconds
    /// into the product of the whole part.
    pub fn checked_mul(self, rhs: i32) -> (r: Option<Self>)
        ensures
            r == self.spec_checked_mul(rhs),
            r is Some ==> r->0.value() == self.value() * rhs,
    {
        if !self.is_valid() || rhs < 0 {
            return None;
        }
        assert(0 <= self.fraction * rhs < 0x8000_0000_0000_0000) by (nonlinear_arith)
            requires
                self.fraction < 0x1_0000_0000,
                0 <= rhs < 0x8000_0000,
        ;
        assert(0 <= self.seconds * rhs < 0x4000_0000_0000_0000) by (nonlinear_arith)
            requires
                0 <= self.seconds < 0x8000_0000,
                0 <= rhs < 0x8000_0000,
        ;
        let total_fraction: u64 = self.fraction as u64 * rhs as u64;
        let extra_seconds: u64 = total_fraction / HALF;
        let fraction: u32 = (total_fraction % HALF) as u32;
        assert(extra_seconds < 0x8000_0000) by (nonlinear_arith)
            requires
                total_fraction == self.fraction * rhs,
                self.fraction < 0x1_0000_0000,
                0 <= rhs < 0x8000_0000,
                extra_seconds == total_fraction / 0x1_0000_0000,
        ;
        let whole: i64 = self.seconds as i64 * rhs as i64;
        let seconds: i64 = whole + extra_seconds as i64;
        proof {
            let product = self.value() * rhs;
            assert(product == seconds * 0x1_0000_0000 + fraction) by (nonlinear_arith)
                requires
                    product == (self.seconds * 0x1_0000_0000 + self.fraction) * rhs,
                    total_fraction == self.fraction * rhs,
                    total_fraction == extra_seconds * 0x1_0000_0000 + fraction,
                    whole == self.seconds * rhs,
                    seconds == whole + extra_seconds,
            ;
        }
        if seconds > i32::MAX as i64 {
            return None;
        }
        let r = Time::new(seconds as i32, fraction);
        proof {
            lemma_time_value(r, self.value() * rhs);
        }
        Some(r)
    }

    /// Divides by a scalar: the whole part is divided and its remainder,
    /// scaled to fraction units and divided, joins the divided fraction.
    pub fn checked_div(self, rhs: i32) -> (r: Option<Self>)
        ensures
            r == self.spec_checked_div(rhs),
    {
        if !self.is_valid() || rhs <= 0 {
            return None;
        }
        let s = self.seconds as u64;
        let d = rhs as u64;
        let seconds: u64 = s / d;
        let carry: u64 = s % d;
        let extra_fraction: u64 = carry * HALF / d;
        let part: u32 = self.fraction / (rhs as u32);
        proof {
            lemma_div_fraction_bound(self.fraction as int, carry as int, d as int);
        }
        let fraction: u32 = part + extra_fraction as u32;
        Some(Time::new(seconds as i32, fraction))
    }
}

/// A time whose halves were computed from a value in range denotes that
/// value's halves.
proof fn lemma_time_value(t: Time, v: int)
    requires
        t.value() == v,
    ensures
        t == Time::from_value(v),
{
    lemma_fundamental_div_mod_converse(v, 0x1_0000_0000, t.seconds as int, t.fraction as int);
}

/// The fraction of a quotient fits 32 bits: `f / d + c * 2^32 / d < 2^32`
/// whenever `c < d`.
proof fn lemma_div_fraction_bound(f: int, c: int, d: int)
    requires
        0 <= f < 0x1_0000_0000,
        0 <= c < d,
    ensures
        c * 0x1_0000_0000 / d < 0x1_0000_0000,
        f / d + c * 0x1_0000_0000 / d < 0x1_0000_0000,
{
    let a = f / d;
    let b = c * 0x1_0000_0000 / d;
    vstd::arithmetic::div_mod::lemma_fundamental_div_mod(f, d);
    vstd::arithmetic::div_mod::lemma_fundamental_div_mod(c * 0x1_0000_0000, d);
    assert(a * d <= f);
    assert(b * d <= c * 0x1_0000_0000);
    assert((a + b) * d < d * 0x1_0000_0000) by (nonlinear_arith)
        requires
            a * d <= f,
            b * d <= c * 0x1_0000_0000,
            f < 0x1_0000_0000,
            c + 1 <= d,
    ;
    assert(a + b < 0x1_0000_0000) by (nonlinear_arith)
        requires
            (a + b) * d < d * 0x1_0000_0000,
            d > 0,
    ;
    assert(0 <= a) by (nonlinear_arith)
        requires
            a == f / d,
            f >= 0,
            d > 0,
    ;
}

/// A duration of `secs` seconds and `nanos` nanoseconds, turned into a time
/// and back, keeps its seconds exactly and its nanoseconds within one: the
/// truncations to fraction units and back lose less than one nanosecond each
/// way, and at most one in all.
pub proof fn lemma_duration_round_trip(secs: u64, nanos: u32)
    requires
        secs <= i32::MAX,
        nanos < NANOS_PER_SECOND,
    ensures
        ({
            let t = Time { seconds: secs as i32, fraction: fraction_of_nanos(nanos as int) as u32 };
            let back = (t.seconds as u64, nanos_of_fraction(t.fraction as int) as u32);
            &&& t.spec_is_valid()
            &&& t.fraction == fraction_of_nanos(nanos as int)
            &&& back.0 == secs
            &&& nanos - 1 <= back.1 <= nanos
        }),
{
    let n = nanos as int;
    let f = fraction_of_nanos(n);
    let m = nanos_of_fraction(f);
    vstd::arithmetic::div_mod::lemma_fundamental_div_mod(n * 0x1_0000_0000, 1_000_000_000);
    vstd::arithmetic::div_mod::lemma_fundamental_div_mod(f * 1_000_000_000, 0x1_0000_0000);
    let r1 = (n * 0x1_0000_0000) % 1_000_000_000;
    let r2 = (f * 1_000_000_000) % 0x1_0000_0000;
    assert(0 <= f < 0x1_0000_0000) by (nonlinear_arith)
        requires
            1_000_000_000 * f + r1 == n * 0x1_0000_0000,
            0 <= r1 < 1_000_000_000,
            0 <= n < 1_000_000_000,
    ;
    assert(n - 1 <= m <= n) by (nonlinear_arith)
        requires
            1_000_000_000 * f + r1 == n * 0x1_0000_0000,
            0 <= r1 < 1_000_000_000,
            0x1_0000_0000 * m + r2 == f * 1_000_000_000,
            0 <= r2 < 0x1_0000_0000,
    ;
}

#[verifier::external_type_specification]
#[verifier::external_body]
pub struct ExSystemTime(std::time::SystemTime);

/// Relies on `SystemTime::now`: reads the system clock. Nothing is known of
/// the moment it returns.
#[verifier::external_body]
fn clock_now() -> (r: std::time::SystemTime) {
    std::time::SystemTime::now()
}

/// Relies on `SystemTime::duration_since` with the Unix epoch: the time
/// elapsed since then as whole seconds (`Duration::as_secs`) and nanoseconds
/// (`Duration::subsec_nanos`, documented below one billion); `None` when the
/// moment is earlier than the epoch.
#[verifier::external_body]
fn since_unix_epoch(t: std::time::SystemTime) -> (r: Option<(u64, u32)>)
    ensures
        r matches Some((_, nanos)) ==> nanos < NANOS_PER_SECOND,
{
    match t.duration_since(std::time::UNIX_EPOCH) {
        Ok(d) => Some((d.as_secs(), d.subsec_nanos())),
        Err(_) => None,
    }
}

impl Default for Time {
    fn default() -> (r: Self)
        ensures
            r.seconds == 0 && r.fraction == 0,
    {
        Self::zero()
    }
}

impl PartialOrd for Time {
    fn partial_cmp(&self, other: &Self) -> (r: Option<Ordering>)
        ensures
            r == Some(self.spec_cmp(*other)),
    {
        if self.seconds < other.seconds {
            Some(Ordering::Less)
        } else if self.seconds > other.seconds {
            Some(Ordering::Greater)
        } else if self.fraction < other.fraction {
            Some(Ordering::Less)
        } else if self.fraction > other.fraction {
            Some(Ordering::Greater)
        } else {
            Some(Ordering::Equal)
        }
    }
}

impl vstd::std_specs::cmp::PartialOrdSpecImpl for Time {
    open spec fn obeys_partial_cmp_spec() -> bool {
        true
    }

    open spec fn partial_cmp_spec(&self, other: &Self) -> Option<Ordering> {
        Some(self.spec_cmp(*other))
    }
}

impl core::ops::Add for Time {
    type Output = Self;

    /// Adds two times; the sum must exist (see `checked_add`).
    fn add(self, rhs: Self) -> (r: Self) {
        self.checked_add(rhs).unwrap()
    }
}

impl vstd::std_specs::ops::AddSpecImpl for Time {
    open spec fn obeys_add_spec() -> bool {
        true
    }

    open spec fn add_req(self, rhs: Self) -> bool {
        self.spec_checked_add(rhs) is Some
    }

    open spec fn add_spec(self, rhs: Self) -> Self {
        self.spec_checked_add(rhs)->0
    }
}

impl core::ops::Sub for Time {
    type Output = Self;

    /// Subtracts two times; the difference must exist (see `checked_sub`).
    fn sub(self, rhs: Self) -> (r: Self) {
        self.checked_sub(rhs).unwrap()
    }
}

impl vstd::std_specs::ops::SubSpecImpl for Time {
    open spec fn obeys_sub_spec() -> bool {
        true
    }

    open spec fn sub_req(self, rhs: Self) -> bool {
        self.spec_checked_sub(rhs) is Some
    }

    open spec fn sub_spec(self, rhs: Self) -> Self {
        self.spec_checked_sub(rhs)->0
    }
}

impl core::ops::Mul<i32> for Time {
    type Output = Self;

    /// Multiplies by a scalar; the product must exist (see `checked_mul`).
    fn mul(self, rhs: i32) -> (r: Self) {
        self.checked_mul(rhs).unwrap()
    }
}

impl vstd::std_specs::ops::MulSpecImpl<i32> for Time {
    open spec fn obeys_mul_spec() -> bool {
        true
    }

    open spec fn mul_req(self, rhs: i32) -> bool {
        self.spec_checked_mul(rhs) is Some
    }

    open spec fn mul_spec(self, rhs: i32) -> Self {
        self.spec_checked_mul(rhs)->0
    }
}

impl core::ops::Div<i32> for Time {
    type Output = Self;

    /// Divides by a scalar; the quotient must exist (see `checked_div`).
    fn div(self, rhs: i32) -> (r: Self) {
        self.checked_div(rhs).unwrap()
    }
}

impl vstd::std_specs::ops::DivSpecImpl<i32> for Time {
    open spec fn obeys_div_spec() -> bool {
        true
    }

    open spec fn div_req(self, rhs: i32) -> bool {
        self.spec_checked_div(rhs) is Some
    }

    open spec fn div_spec(self, rhs: i32) -> Self {
        self.spec_checked_div(rhs)->0
    }
}

} // verus!
