use crate::error::{Error, ErrorKind};
use crate::sequence_number::SequenceNumber;
use vstd::prelude::*;

verus! {

/// Type used to hold fragment numbers (1-indexed).
pub type FragmentNumber = u32;

/// The largest number of members, and of positions, that a range set can hold.
pub const MAX_BITS: usize = 256;

/// Bit `k` of a bitmap laid out as 32-bit words, least significant bit first.
pub open spec fn bit_at(words: Seq<u32>, k: int) -> bool {
    (words[k / 32] >> ((k % 32) as u32)) & 1u32 == 1u32
}

/// Whether `x` is the least member of `values`.
pub open spec fn is_least(values: Seq<int>, x: int) -> bool {
    values.contains(x) && forall|i: int| 0 <= i < values.len() ==> x <= #[trigger] values[i]
}

/// Whether `x` is the greatest member of `values`.
pub open spec fn is_greatest(values: Seq<int>, x: int) -> bool {
    values.contains(x) && forall|i: int| 0 <= i < values.len() ==> #[trigger] values[i] <= x
}

/// Whether two members of `values` lie more than 255 apart.
pub open spec fn spans_too_far(values: Seq<int>) -> bool {
    exists|i: int, j: int|
        0 <= i < values.len() && 0 <= j < values.len() && #[trigger] values[j] - #[trigger] values[i]
            > 255
}

/// The error, if any, that encoding `values` as a range set reports.
pub open spec fn range_set_error(values: Seq<int>) -> Option<ErrorKind> {
    if values.len() < 1 || values.len() > MAX_BITS {
        Some(ErrorKind::InvalidLength(values.len() as usize))
    } else if spans_too_far(values) {
        Some(ErrorKind::InvalidRange)
    } else if exists|i: int| 0 <= i < values.len() && #[trigger] values[i] < 1 {
        Some(ErrorKind::InvalidValue)
    } else {
        None
    }
}

/// The abstract content of a range set: its base, its bit count and its words.
pub ghost struct RangeSetView {
    pub base: int,
    pub num_bits: nat,
    pub bitmaps: Seq<u32>,
}

/// Whether `set` is the range-set encoding of the members `values`: the base is
/// the least member, the bit count reaches the greatest, the word count is the
/// least that holds that many bits, and bit `k` is set exactly when `base + k`
/// is a member.
pub open spec fn encodes(values: Seq<int>, set: RangeSetView) -> bool {
    &&& is_least(values, set.base)
    &&& is_greatest(values, set.base + set.num_bits - 1)
    &&& set.bitmaps.len() == (set.num_bits - 1) / 32 + 1
    &&& forall|k: int|
        0 <= k < 32 * set.bitmaps.len() ==> (#[trigger] bit_at(set.bitmaps, k) <==> values.contains(
            set.base + k,
        ))
}

/// The shape every range set has: 1 to 256 bits held in 1 to 8 words, the
/// first bit set and no bit set past the last.
pub open spec fn well_formed(set: RangeSetView) -> bool {
    &&& 1 <= set.num_bits <= MAX_BITS
    &&& set.bitmaps.len() == (set.num_bits - 1) / 32 + 1
    &&& 1 <= set.bitmaps.len() <= 8
    &&& bit_at(set.bitmaps, 0)
    &&& bit_at(set.bitmaps, set.num_bits - 1)
    &&& forall|k: int| set.num_bits <= k < 32 * set.bitmaps.len() ==> !#[trigger] bit_at(set.bitmaps, k)
}

/// Setting bit `s` of a word changes bit `s` alone.
proof fn lemma_set_bit(w: u32, s: u32, t: u32)
    requires
        s < 32,
        t < 32,
    ensures
        ((w | (1u32 << s)) >> t) & 1u32 == 1u32 <==> (t == s || (w >> t) & 1u32 == 1u32),
{
    assert(((w | (1u32 << s)) >> t) & 1u32 == 1u32 <==> (t == s || (w >> t) & 1u32 == 1u32))
        by (bit_vector)
        requires
            s < 32,
            t < 32,
    ;
}

/// No bit of a zero word is set.
proof fn lemma_zero_word(t: u32)
    requires
        t < 32,
    ensures
        (0u32 >> t) & 1u32 != 1u32,
{
    assert((0u32 >> t) & 1u32 != 1u32) by (bit_vector);
}

/// The members of `values` before position `j` include `x`.
spec fn seen(values: Seq<i64>, j: int, x: int) -> bool {
    exists|i: int| 0 <= i < j && values[i] == x
}

/// An encoding is well formed.
pub proof fn lemma_encoding_well_formed(values: Seq<int>, set: RangeSetView)
    requires
        range_set_error(values) is None,
        encodes(values, set),
    ensures
        well_formed(set),
{
    let last = set.base + set.num_bits - 1;
    let i = choose|i: int| 0 <= i < values.len() && values[i] == set.base;
    let j = choose|j: int| 0 <= j < values.len() && values[j] == last;
    if set.num_bits > MAX_BITS {
        assert(values[j] - values[i] > 255);
        assert(spans_too_far(values));
    }
    assert(values.contains(set.base + 0));
    assert(bit_at(set.bitmaps, 0));
    assert(values.contains(set.base + (set.num_bits - 1)));
    assert forall|k: int| set.num_bits <= k < 32 * set.bitmaps.len() implies !#[trigger] bit_at(
        set.bitmaps,
        k,
    ) by {
        if values.contains(set.base + k) {
            let m = choose|m: int| 0 <= m < values.len() && values[m] == set.base + k;
            assert(values[m] <= last);
        }
    }
}

/// Decoding an encoding gives back exactly the members encoded: a counter is
/// a member if and only if it lies within the bit count from the base and
/// its bit is set.
pub proof fn lemma_range_set_round_trip(values: Seq<int>, set: RangeSetView)
    requires
        encodes(values, set),
    ensures
        forall|x: int|
            values.contains(x) <==> (set.base <= x < set.base + set.num_bits && #[trigger] bit_at(
                set.bitmaps,
                x - set.base,
            )),
{
    assert(set.num_bits <= 32 * set.bitmaps.len());
    assert forall|x: int|
        values.contains(x) <==> (set.base <= x < set.base + set.num_bits && #[trigger] bit_at(
            set.bitmaps,
            x - set.base,
        )) by {
        if values.contains(x) {
            let m = choose|m: int| 0 <= m < values.len() && values[m] == x;
            assert(set.base <= values[m]);
            assert(values[m] <= set.base + set.num_bits - 1);
            assert(values.contains(set.base + (x - set.base)));
        }
        if set.base <= x < set.base + set.num_bits && bit_at(set.bitmaps, x - set.base) {
            assert(values.contains(set.base + (x - set.base)));
        }
    }
}

/// Encodes a collection of counters, widened to 64 bits, as a base, a bit count
/// and the least number of 32-bit words that hold one bit per position from the
/// least member to the greatest.
fn encode(values: &Vec<i64>) -> (r: Result<(i64, u32, Vec<u32>), ErrorKind>)
    ensures
        match r {
            Ok((base, num_bits, words)) => range_set_error(values@.map_values(|x: i64| x as int))
                is None && encodes(
                values@.map_values(|x: i64| x as int),
                RangeSetView { base: base as int, num_bits: num_bits as nat, bitmaps: words@ },
            ),
            Err(e) => range_set_error(values@.map_values(|x: i64| x as int)) == Some(e),
        },
{
    let ghost vals = values@.map_values(|x: i64| x as int);
    let n = values.len();
    if n < 1 || n > MAX_BITS {
        return Err(ErrorKind::InvalidLength(n));
    }
    let mut lo: i64 = values[0];
    let mut hi: i64 = values[0];
    let mut lo_at: usize = 0;
    let mut hi_at: usize = 0;
    let mut i: usize = 1;
    while i < n
        invariant
            n == values.len(),
            1 <= i <= n,
            lo_at < i,
            hi_at < i,
            values@[lo_at as int] == lo,
            values@[hi_at as int] == hi,
            forall|j: int| 0 <= j < i ==> lo <= #[trigger] values@[j] <= hi,
        decreases n - i,
    {
        let x = values[i];
        if x < lo {
            lo = x;
            lo_at = i;
        }
        if x > hi {
            hi = x;
            hi_at = i;
        }
        i = i + 1;
    }
    assert(vals[lo_at as int] == lo && vals[hi_at as int] == hi);
    if (hi as i128) - (lo as i128) > 255 {
        assert(vals[hi_at as int] - vals[lo_at as int] > 255);
        return Err(ErrorKind::InvalidRange);
    }
    assert(!spans_too_far(vals)) by {
        assert forall|a: int, b: int|
            0 <= a < vals.len() && 0 <= b < vals.len() implies #[trigger] vals[b] - #[trigger] vals[a]
            <= 255 by {
            assert(lo <= values@[a] && values@[b] <= hi);
        }
    }
    if lo < 1 {
        assert(vals[lo_at as int] < 1);
        return Err(ErrorKind::InvalidValue);
    }
    assert forall|a: int| 0 <= a < vals.len() implies !(#[trigger] vals[a] < 1) by {
        assert(lo <= values@[a]);
    }
    let range: u32 = (hi - lo) as u32;
    let nwords: usize = (range / 32 + 1) as usize;
    let mut words: Vec<u32> = Vec::new();
    while words.len() < nwords
        invariant
            nwords <= 8,
            words.len() <= nwords,
            forall|k: int| 0 <= k < words.len() ==> #[trigger] words@[k] == 0,
        decreases nwords - words.len(),
    {
        words.push(0);
    }
    assert forall|k: int| 0 <= k < 32 * nwords implies !#[trigger] bit_at(words@, k) by {
        lemma_zero_word((k % 32) as u32);
    }
    let mut j: usize = 0;
    while j < n
        invariant
            n == values.len(),
            0 <= j <= n,
            1 <= lo,
            range == hi - lo,
            range <= 255,
            nwords == range / 32 + 1,
            words.len() == nwords,
            forall|a: int| 0 <= a < n ==> lo <= #[trigger] values@[a] <= hi,
            forall|k: int|
                0 <= k < 32 * nwords ==> (#[trigger] bit_at(words@, k) <==> seen(
                    values@,
                    j as int,
                    lo + k,
                )),
        decreases n - j,
    {
        let x = values[j];
        assert(lo <= values@[j as int] <= hi);
        let off: u32 = (x - lo) as u32;
        let w: usize = (off / 32) as usize;
        let b: u32 = off % 32;
        let old_word = words[w];
        let ghost before = words@;
        words.set(w, old_word | (1u32 << b));
        assert forall|k: int| 0 <= k < 32 * nwords implies (#[trigger] bit_at(words@, k) <==> seen(
            values@,
            j + 1,
            lo + k,
        )) by {
            assert(bit_at(before, k) <==> seen(values@, j as int, lo + k));
            if k == off {
                lemma_set_bit(old_word, b, b);
                assert(values@[j as int] == lo + k);
            } else {
                if k / 32 == w {
                    lemma_set_bit(old_word, b, (k % 32) as u32);
                }
                if seen(values@, j + 1, lo + k) {
                    let m = choose|m: int| 0 <= m < j + 1 && values@[m] == lo + k;
                    assert(m != j);
                }
            }
        }
        j = j + 1;
    }
    let num_bits: u32 = range + 1;
    proof {
        let set = RangeSetView { base: lo as int, num_bits: num_bits as nat, bitmaps: words@ };
        assert(vals[lo_at as int] == lo);
        assert(vals[hi_at as int] == lo + num_bits - 1);
        assert forall|k: int| 0 <= k < 32 * words.len() implies (#[trigger] bit_at(words@, k)
            <==> vals.contains(lo + k)) by {
            if seen(values@, n as int, lo + k) {
                let m = choose|m: int| 0 <= m < n && values@[m] == lo + k;
                assert(vals[m] == lo + k);
            }
            if vals.contains(lo + k) {
                let m = choose|m: int| 0 <= m < vals.len() && vals[m] == lo + k;
                assert(values@[m] == lo + k);
            }
        }
        assert(is_least(vals, lo as int));
        assert(is_greatest(vals, lo + num_bits - 1));
        assert(encodes(vals, set));
    }
    Ok((lo, num_bits, words))
}

/// Copies a bitmap word by word.
fn copy_words(words: &Vec<u32>) -> (r: Vec<u32>)
    ensures
        r@ == words@,
{
    let mut r: Vec<u32> = Vec::new();
    let mut i: usize = 0;
    while i < words.len()
        invariant
            i <= words.len(),
            r@ == words@.subrange(0, i as int),
        decreases words.len() - i,
    {
        r.push(words[i]);
        i = i + 1;
    }
    assert(r@ =~= words@);
    r
}

/// The presence of individual sequence numbers within a range of at most 256.
#[derive(Debug)]
pub struct SequenceNumberSet {
    base: SequenceNumber,
    num_bits: u32,
    bitmaps: Vec<u32>,
}

impl View for SequenceNumberSet {
    type V = RangeSetView;

    closed spec fn view(&self) -> RangeSetView {
        RangeSetView {
            base: self.base.value(),
            num_bits: self.num_bits as nat,
            bitmaps: self.bitmaps@,
        }
    }
}

impl SequenceNumberSet {
    #[verifier::type_invariant]
    spec fn inv(self) -> bool {
        well_formed(self@)
    }

    /// Encodes the sequence numbers `v` (in any order, duplicates allowed).
    ///
    /// Fails with `InvalidLength` when `v` is empty or holds more than 256
    /// elements, with `InvalidRange` when its members span more than 256
    /// positions, and with `InvalidValue` when a member is below 1.
    pub fn try_from(v: Vec<SequenceNumber>) -> (r: Result<SequenceNumberSet, Error>)
        ensures
            match r {
                Ok(set) => range_set_error(v@.map_values(|s: SequenceNumber| s.value())) is None
                    && encodes(v@.map_values(|s: SequenceNumber| s.value()), set@),
                Err(e) => range_set_error(v@.map_values(|s: SequenceNumber| s.value())) == Some(
                    e.kind,
                ),
            },
    {
        let ghost members = v@.map_values(|s: SequenceNumber| s.value());
        let mut values: Vec<i64> = Vec::new();
        let mut i: usize = 0;
        while i < v.len()
            invariant
                i <= v.len(),
                values.len() == i,
                forall|k: int| 0 <= k < i ==> #[trigger] values@[k] == v@[k].value(),
            decreases v.len() - i,
        {
            values.push(v[i].into_inner());
            i = i + 1;
        }
        assert(values@.map_values(|x: i64| x as int) =~= members);
        match encode(&values) {
            Ok((base, num_bits, bitmaps)) => {
                let set = SequenceNumberSet { base: SequenceNumber::from_i64(base), num_bits, bitmaps };
                proof {
                    lemma_encoding_well_formed(members, set@);
                }
                Ok(set)
            },
            Err(kind) => Err(Error { kind }),
        }
    }

    /// The least member.
    pub fn base(&self) -> (r: SequenceNumber)
        ensures
            r.value() == self@.base,
    {
        self.base
    }

    /// The number of positions from the least member to the greatest.
    pub fn num_bits(&self) -> (r: u32)
        ensures
            r == self@.num_bits,
            1 <= r <= MAX_BITS,
    {
        proof {
            use_type_invariant(self);
        }
        self.num_bits
    }

    /// The presence bitmap, one bit per position, 32 positions a word.
    pub fn bitmaps(&self) -> (r: Vec<u32>)
        ensures
            r@ == self@.bitmaps,
            1 <= r.len() <= 8,
    {
        proof {
            use_type_invariant(self);
        }
        copy_words(&self.bitmaps)
    }
}

/// The presence of individual fragment numbers within a range of at most 256.
#[derive(Debug)]
pub struct FragmentNumberSet {
    base: FragmentNumber,
    num_bits: u32,
    bitmaps: Vec<u32>,
}

impl View for FragmentNumberSet {
    type V = RangeSetView;

    closed spec fn view(&self) -> RangeSetView {
        RangeSetView { base: self.base as int, num_bits: self.num_bits as nat, bitmaps: self.bitmaps@ }
    }
}

impl FragmentNumberSet {
    #[verifier::type_invariant]
    spec fn inv(self) -> bool {
        well_formed(self@)
    }

    /// Encodes the fragment numbers `v` (in any order, duplicates allowed).
    ///
    /// Fails with `InvalidLength` when `v` is empty or holds more than 256
    /// elements, with `InvalidRange` when its members span more than 256
    /// positions, and with `InvalidValue` when a member is 0.
    pub fn try_from(v: Vec<FragmentNumber>) -> (r: Result<FragmentNumberSet, Error>)
        ensures
            match r {
                Ok(set) => range_set_error(v@.map_values(|f: FragmentNumber| f as int)) is None
                    && encodes(v@.map_values(|f: FragmentNumber| f as int), set@),
                Err(e) => range_set_error(v@.map_values(|f: FragmentNumber| f as int)) == Some(
                    e.kind,
                ),
            },
    {
        let ghost members = v@.map_values(|f: FragmentNumber| f as int);
        let mut values: Vec<i64> = Vec::new();
        let mut i: usize = 0;
        while i < v.len()
            invariant
                i <= v.len(),
                values.len() == i,
                forall|k: int| 0 <= k < i ==> #[trigger] values@[k] == v@[k],
            decreases v.len() - i,
        {
            values.push(v[i] as i64);
            i = i + 1;
        }
        assert(values@.map_values(|x: i64| x as int) =~= members);
        match encode(&values) {
            Ok((base, num_bits, bitmaps)) => {
                proof {
                    let m = choose|m: int| 0 <= m < members.len() && members[m] == base;
                    assert(members[m] == v@[m]);
                }
                let set = FragmentNumberSet { base: base as u32, num_bits, bitmaps };
                proof {
                    lemma_encoding_well_formed(members, set@);
                }
                Ok(set)
            },
            Err(kind) => Err(Error { kind }),
        }
    }

    /// The least member.
    pub fn base(&self) -> (r: FragmentNumber)
        ensures
            r == self@.base,
    {
        self.base
    }

    /// The number of positions from the least member to the greatest.
    pub fn num_bits(&self) -> (r: u32)
        ensures
            r == self@.num_bits,
            1 <= r <= MAX_BITS,
    {
        proof {
            use_type_invariant(self);
        }
        self.num_bits
    }

    /// The presence bitmap, one bit per position, 32 positions a word.
    pub fn bitmaps(&self) -> (r: Vec<u32>)
        ensures
            r@ == self@.bitmaps,
            1 <= r.len() <= 8,
    {
        proof {
            use_type_invariant(self);
        }
        copy_words(&self.bitmaps)
    }
}

} // verus!
