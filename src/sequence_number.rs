use core::cmp::Ordering;
use vstd::prelude::*;

verus! {

/// Two to the power 32: the weight of the high half of a split 64-bit value
/// (sequence numbers; whole seconds of a time in fraction units).
pub const HALF: u64 = 0x1_0000_0000;

/// Whether an integer is representable as a 64-bit two's-complement value.
pub open spec fn fits_i64(v: int) -> bool {
    i64::MIN <= v <= i64::MAX
}

/// A 64-bit sequence counter kept as a signed high half and an unsigned low half.
///
/// The counter denotes `high * 2^32 + low`; the pair `(-1, 0)` is the
/// "unknown" sentinel.
#[derive(Clone, Copy, Debug, PartialEq, Eq, Structural, Hash, Ord)]
pub struct SequenceNumber {
    pub high: i32,
    pub low: u32,
}

impl SequenceNumber {
    /// The integer that the two halves denote.
    pub open spec fn value(self) -> int {
        self.high * 0x1_0000_0000 + self.low
    }

    /// The sequence number whose halves denote `v` (for `v` in the 64-bit range).
    pub open spec fn from_value(v: int) -> SequenceNumber {
        SequenceNumber { high: (v / 0x1_0000_0000) as i32, low: (v % 0x1_0000_0000) as u32 }
    }

    pub open spec fn is_unknown(self) -> bool {
        self.high == -1 && self.low == 0
    }

    /// Sum of two sequence numbers: absent when either is unknown or the sum
    /// leaves the 64-bit range.
    pub open spec fn spec_checked_add(self, rhs: SequenceNumber) -> Option<SequenceNumber> {
        let sum = self.value() + rhs.value();
        if self.is_unknown() || rhs.is_unknown() || !fits_i64(sum) {
            None
        } else {
            Some(SequenceNumber::from_value(sum))
        }
    }

    /// Difference of two sequence numbers: absent when either is unknown or
    /// the difference is negative or leaves the 64-bit range.
    pub open spec fn spec_checked_sub(self, rhs: SequenceNumber) -> Option<SequenceNumber> {
        let diff = self.value() - rhs.value();
        if self.is_unknown() || rhs.is_unknown() || diff < 0 || !fits_i64(diff) {
            None
        } else {
            Some(SequenceNumber::from_value(diff))
        }
    }

    /// Lexicographic order: high halves first, then low halves.
    pub open spec fn spec_cmp(self, rhs: SequenceNumber) -> Ordering {
        if self.high < rhs.high {
            Ordering::Less
        } else if self.high > rhs.high {
            Ordering::Greater
        } else if self.low < rhs.low {
            Ordering::Less
        } else if self.low > rhs.low {
            Ordering::Greater
        } else {
            Ordering::Equal
        }
    }

    pub fn new(high: i32, low: u32) -> (r: Self)
        ensures
            r.high == high,
            r.low == low,
    {
        SequenceNumber { high, low }
    }

    pub fn unknown() -> (r: Self)
        ensures
            r.is_unknown(),
            r.high == -1 && r.low == 0,
    {
        SequenceNumber::new(-1, 0)
    }

    pub fn zero() -> (r: Self)
        ensures
            r.high == 0 && r.low == 0,
            r.value() == 0,
    {
        SequenceNumber::new(0, 0)
    }

    /// The counter as a 64-bit integer.
    pub fn into_inner(self) -> (r: i64)
        ensures
            r == self.value(),
    {
        (self.high as i64) * (HALF as i64) + (self.low as i64)
    }

    /// The sequence number whose halves denote `v`.
    pub fn from_i64(v: i64) -> (r: Self)
        ensures
            r == SequenceNumber::from_value(v as int),
            r.value() == v,
    {
        let shifted: u64 = (v as i128 + 0x8000_0000_0000_0000i128) as u64;
        let low = (shifted % HALF) as u32;
        let high = ((shifted / HALF) as i64 - 0x8000_0000i64) as i32;
        proof {
            lemma_halves(v as int);
        }
        SequenceNumber { high, low }
    }

    /// Adds two sequence numbers, carrying from the low half into the high half.
    ///
    /// Returns `None` when either operand is unknown or the sum does not fit
    /// the 64-bit range.
    pub fn checked_add(self, rhs: Self) -> (r: Option<Self>)
        ensures
            r == self.spec_checked_add(rhs),
            r is Some ==> r->0.value() == self.value() + rhs.value(),
    {
        if self.is_unknown_exec() || rhs.is_unknown_exec() {
            return None;
        }
        let carry: i64 = if self.low as u64 + rhs.low as u64 >= HALF { 1 } else { 0 };
        let low = self.low.wrapping_add(rhs.low);
        let high: i64 = self.high as i64 + rhs.high as i64 + carry;
        if high < i32::MIN as i64 || high > i32::MAX as i64 {
            return None;
        }
        let r = SequenceNumber::new(high as i32, low);
        proof {
            let sum = self.value() + rhs.value();
            assert(r.value() == sum);
            lemma_halves(sum);
        }
        Some(r)
    }

    /// Subtracts `rhs`, borrowing from the high half into the low half.
    ///
    /// Returns `None` when either operand is unknown or the difference is
    /// negative.
    pub fn checked_sub(self, rhs: Self) -> (r: Option<Self>)
        ensures
            r == self.spec_checked_sub(rhs),
            r is Some ==> r->0.value() == self.value() - rhs.value(),
    {
        if self.is_unknown_exec() || rhs.is_unknown_exec() {
            return None;
        }
        let borrow: i64 = if self.low < rhs.low { 1 } else { 0 };
        let low = self.low.wrapping_sub(rhs.low);
        let high: i64 = self.high as i64 - rhs.high as i64 - borrow;
        if high < 0 || high > i32::MAX as i64 {
            return None;
        }
        let r = SequenceNumber::new(high as i32, low);
        proof {
            let diff = self.value() - rhs.value();
            assert(r.value() == diff);
            lemma_halves(diff);
        }
        Some(r)
    }

    fn is_unknown_exec(&self) -> (r: bool)
        ensures
            r == self.is_unknown(),
    {
        self.high == -1 && self.low == 0
    }
}

/// The halves of a 64-bit value denote it, and any pair denoting it is those halves.
proof fn lemma_halves(v: int)
    requires
        fits_i64(v),
    ensures
        SequenceNumber::from_value(v).value() == v,
        forall|s: SequenceNumber| #[trigger] s.value() == v ==> s == SequenceNumber::from_value(v),
{
    assert(i32::MIN <= v / 0x1_0000_0000 <= i32::MAX);
    assert forall|s: SequenceNumber| #[trigger] s.value() == v implies s == SequenceNumber::from_value(v) by {
        vstd::arithmetic::div_mod::lemma_fundamental_div_mod_converse(
            v,
            0x1_0000_0000,
            s.high as int,
            s.low as int,
        );
    }
}

/// Subtracting what was added gives the first operand back: for sequence
/// numbers that are not unknown and whose sum exists, `(a + b) - b == a`,
/// provided `a` is not negative and the sum is not the unknown sentinel itself.
pub proof fn lemma_add_then_sub(a: SequenceNumber, b: SequenceNumber)
    requires
        !a.is_unknown(),
        !b.is_unknown(),
        a.spec_checked_add(b) is Some,
        a.value() >= 0,
        !a.spec_checked_add(b)->0.is_unknown(),
    ensures
        a.spec_checked_add(b)->0.spec_checked_sub(b) == Some(a),
{
    lemma_halves(a.value() + b.value());
    lemma_halves(a.value());
}

/// The unknown sequence number yields no result when added to or subtracted
/// from anything, on either side.
pub proof fn lemma_unknown_absorbs(x: SequenceNumber)
    ensures
        (SequenceNumber { high: -1i32, low: 0u32 }).spec_checked_add(x) is None,
        x.spec_checked_add(SequenceNumber { high: -1i32, low: 0u32 }) is None,
        (SequenceNumber { high: -1i32, low: 0u32 }).spec_checked_sub(x) is None,
        x.spec_checked_sub(SequenceNumber { high: -1i32, low: 0u32 }) is None,
{
}

impl Default for SequenceNumber {
    /// The first valid sequence number, `(0, 1)`.
    fn default() -> (r: Self)
        ensures
            r.high == 0 && r.low == 1,
    {
        SequenceNumber::new(0, 1)
    }
}

impl From<i64> for SequenceNumber {
    fn from(v: i64) -> (r: Self)
        ensures
            r == SequenceNumber::from_value(v as int),
    {
        SequenceNumber::from_i64(v)
    }
}

impl vstd::std_specs::convert::FromSpecImpl<i64> for SequenceNumber {
    open spec fn obeys_from_spec() -> bool {
        true
    }

    open spec fn from_spec(v: i64) -> SequenceNumber {
        SequenceNumber::from_value(v as int)
    }
}

impl From<SequenceNumber> for i64 {
    fn from(n: SequenceNumber) -> (r: i64)
        ensures
            r == n.value(),
    {
        n.into_inner()
    }
}

impl vstd::std_specs::convert::FromSpecImpl<SequenceNumber> for i64 {
    open spec fn obeys_from_spec() -> bool {
        true
    }

    open spec fn from_spec(n: SequenceNumber) -> i64 {
        n.value() as i64
    }
}

impl PartialOrd for SequenceNumber {
    fn partial_cmp(&self, other: &Self) -> (r: Option<Ordering>)
        ensures
            r == Some(self.spec_cmp(*other)),
    {
        if self.high < other.high {
            Some(Ordering::Less)
        } else if self.high > other.high {
            Some(Ordering::Greater)
        } else if self.low < other.low {
            Some(Ordering::Less)
        } else if self.low > other.low {
            Some(Ordering::Greater)
        } else {
            Some(Ordering::Equal)
        }
    }
}

impl vstd::std_specs::cmp::PartialOrdSpecImpl for SequenceNumber {
    open spec fn obeys_partial_cmp_spec() -> bool {
        true
    }

    open spec fn partial_cmp_spec(&self, other: &Self) -> Option<Ordering> {
        Some(self.spec_cmp(*other))
    }
}

impl core::ops::Add for SequenceNumber {
    type Output = Self;

    /// Adds two sequence numbers; the sum must exist (see `checked_add`).
    fn add(self, rhs: Self) -> (r: Self) {
        self.checked_add(rhs).unwrap()
    }
}

impl vstd::std_specs::ops::AddSpecImpl for SequenceNumber {
    open spec fn obeys_add_spec() -> bool {
        true
    }

    open spec fn add_req(self, rhs: Self) -> bool {
        self.spec_checked_add(rhs) is Some
    }

    open spec fn add_spec(self, rhs: Self) -> Self {
        self.spec_checked_add(rhs)->0
    }
}

impl core::ops::Sub for SequenceNumber {
    type Output = Self;

    /// Subtracts two sequence numbers; the difference must exist (see `checked_sub`).
    fn sub(self, rhs: Self) -> (r: Self) {
        self.checked_sub(rhs).unwrap()
    }
}

impl vstd::std_specs::ops::SubSpecImpl for SequenceNumber {
    open spec fn obeys_sub_spec() -> bool {
        true
    }

    open spec fn sub_req(self, rhs: Self) -> bool {
        self.spec_checked_sub(rhs) is Some
    }

    open spec fn sub_spec(self, rhs: Self) -> Self {
        self.spec_checked_sub(rhs)->0
    }
}

} // verus!
