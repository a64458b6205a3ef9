//! A compact, copyable index range holding a `start` (inclusive) and `end`
//! (exclusive), convenient for storing, hashing, ordering and slicing.
//!
//! Construction is unchecked: `start <= end` is not required, and every query
//! method gives the inverted case a well-defined meaning (an inverted range is
//! empty and has length zero).

use vstd::prelude::*;

verus! {

use vstd::std_specs::cmp::PartialOrdSpec;
use vstd::std_specs::convert::FromSpec;

/// A half-open index range `[start, end)` over `usize`.
///
/// A lightweight alternative to `core::ops::Range<usize>` that is `Copy`,
/// hashable and totally ordered (lexicographically on `(start, end)`).
#[derive(Debug, Clone, Copy, Eq, Ord, Hash)]
pub struct Range(pub usize, pub usize);

impl Range {
    /// The length of the range: `end - start`, or `0` when inverted.
    pub open spec fn spec_len(self) -> int {
        if self.1 >= self.0 {
            self.1 - self.0
        } else {
            0
        }
    }

    /// A range is empty when it holds no index, i.e. `start >= end`.
    pub open spec fn spec_is_empty(self) -> bool {
        self.0 >= self.1
    }

    /// Membership: `start <= index < end`.
    pub open spec fn spec_contains(self, index: usize) -> bool {
        self.0 <= index && index < self.1
    }

    /// Both bounds independently capped at `len`.
    pub open spec fn spec_clamp_to(self, len: usize) -> Range {
        Range(
            if self.0 < len {
                self.0
            } else {
                len
            },
            if self.1 < len {
                self.1
            } else {
                len
            },
        )
    }

    /// The overlap `[max(starts), min(ends))`, or `None` when that interval
    /// is not strictly non-empty (touching ranges do not intersect).
    pub open spec fn spec_intersect(self, other: Range) -> Option<Range> {
        let s = if self.0 > other.0 {
            self.0
        } else {
            other.0
        };
        let e = if self.1 < other.1 {
            self.1
        } else {
            other.1
        };
        if s < e {
            Some(Range(s, e))
        } else {
            None
        }
    }

    /// Start grown and end shrunk with saturating arithmetic; an inverted
    /// outcome is normalized to the empty range at the new start.
    pub open spec fn spec_shrink(self, start_shrink: usize, end_shrink: usize) -> Range {
        let s = if self.0 + start_shrink > usize::MAX {
            usize::MAX as int
        } else {
            self.0 + start_shrink
        };
        let e = if self.1 - end_shrink < 0 {
            0int
        } else {
            self.1 - end_shrink
        };
        if s >= e {
            Range(s as usize, s as usize)
        } else {
            Range(s as usize, e as usize)
        }
    }

    /// The range can index a sequence of length `len` without going out of
    /// bounds: it is not inverted and its end is within the sequence.
    pub open spec fn spec_in_bounds(self, len: nat) -> bool {
        self.0 <= self.1 && self.1 <= len
    }

    /// Construct a new `Range` from `start` (inclusive) and `end` (exclusive).
    ///
    /// The values are not validated; methods like `len` treat an inverted
    /// range as empty.
    #[must_use]
    #[inline]
    pub fn new(start: usize, end: usize) -> (r: Self)
        ensures
            r == Range(start, end),
    {
        Range(start, end)
    }

    /// Returns the start (inclusive) of the range.
    #[must_use]
    #[inline]
    pub fn start(&self) -> (r: usize)
        ensures
            r == self.0,
    {
        self.0
    }

    /// Returns the end (exclusive) of the range.
    #[must_use]
    #[inline]
    pub fn end(&self) -> (r: usize)
        ensures
            r == self.1,
    {
        self.1
    }

    /// Returns the length of the range, saturating at 0 if `end < start`.
    #[must_use]
    #[inline]
    pub fn len(&self) -> (r: usize)
        ensures
            r == self.spec_len(),
    {
        self.1.saturating_sub(self.0)
    }

    /// Returns `true` if the range contains no elements (i.e. `start >= end`).
    #[must_use]
    #[inline]
    pub fn is_empty(&self) -> (r: bool)
        ensures
            r == self.spec_is_empty(),
    {
        self.0 >= self.1
    }

    /// Returns `true` if the provided index is inside the range.
    #[must_use]
    #[inline]
    pub fn contains(&self, index: usize) -> (r: bool)
        ensures
            r == self.spec_contains(index),
    {
        index >= self.0 && index < self.1
    }

    /// Returns a new `Range` with both bounds clamped to the provided `len`,
    /// so that the result can index a slice of that length without panicking
    /// (provided the original range was not inverted).
    #[must_use]
    pub fn clamp_to(&self, len: usize) -> (r: Self)
        ensures
            r == self.spec_clamp_to(len),
    {
        let s = if self.0 < len {
            self.0
        } else {
            len
        };
        let e = if self.1 < len {
            self.1
        } else {
            len
        };
        Range(s, e)
    }

    /// Returns the intersection of `self` and `other`, or `None` if they
    /// don't overlap. Touching ranges (one's end equal to the other's start)
    /// yield `None`.
    #[must_use]
    pub fn intersect(&self, other: &Self) -> (r: Option<Self>)
        ensures
            r == self.spec_intersect(*other),
    {
        let s = if self.0 > other.0 {
            self.0
        } else {
            other.0
        };
        let e = if self.1 < other.1 {
            self.1
        } else {
            other.1
        };
        if s < e {
            Some(Range(s, e))
        } else {
            None
        }
    }

    /// Shift the range by `delta` (adds to both start and end).
    ///
    /// The additions are unchecked, so the caller must ensure they do not
    /// overflow.
    #[must_use]
    #[inline]
    pub fn offset(&self, delta: usize) -> (r: Self)
        requires
            self.0 + delta <= usize::MAX,
            self.1 + delta <= usize::MAX,
        ensures
            r == Range((self.0 + delta) as usize, (self.1 + delta) as usize),
    {
        Range(self.0 + delta, self.1 + delta)
    }

    /// Shrink the range from the start and/or end by the provided amounts,
    /// saturating instead of overflowing. A result that would be inverted is
    /// normalized to the empty range at the new start.
    #[must_use]
    pub fn shrink(&self, start_shrink: usize, end_shrink: usize) -> (r: Self)
        ensures
            r == self.spec_shrink(start_shrink, end_shrink),
    {
        let s = self.0.saturating_add(start_shrink);
        let e = self.1.saturating_sub(end_shrink);
        if s >= e {
            Range(s, s)
        } else {
            Range(s, e)
        }
    }
}

impl PartialEq for Range {
    fn eq(&self, other: &Self) -> (r: bool) {
        self.0 == other.0 && self.1 == other.1
    }
}

impl vstd::std_specs::cmp::PartialEqSpecImpl for Range {
    open spec fn obeys_eq_spec() -> bool {
        true
    }

    open spec fn eq_spec(&self, other: &Self) -> bool {
        self.0 == other.0 && self.1 == other.1
    }
}

impl PartialOrd for Range {
    fn partial_cmp(&self, other: &Self) -> (r: Option<core::cmp::Ordering>) {
        if self.0 < other.0 {
            Some(core::cmp::Ordering::Less)
        } else if self.0 > other.0 {
            Some(core::cmp::Ordering::Greater)
        } else if self.1 < other.1 {
            Some(core::cmp::Ordering::Less)
        } else if self.1 > other.1 {
            Some(core::cmp::Ordering::Greater)
        } else {
            Some(core::cmp::Ordering::Equal)
        }
    }
}

impl vstd::std_specs::cmp::PartialOrdSpecImpl for Range {
    open spec fn obeys_partial_cmp_spec() -> bool {
        true
    }

    open spec fn partial_cmp_spec(&self, other: &Self) -> Option<core::cmp::Ordering> {
        if self.0 < other.0 {
            Some(core::cmp::Ordering::Less)
        } else if self.0 > other.0 {
            Some(core::cmp::Ordering::Greater)
        } else if self.1 < other.1 {
            Some(core::cmp::Ordering::Less)
        } else if self.1 > other.1 {
            Some(core::cmp::Ordering::Greater)
        } else {
            Some(core::cmp::Ordering::Equal)
        }
    }
}

impl From<core::ops::Range<usize>> for Range {
    fn from(r: core::ops::Range<usize>) -> (ret: Self) {
        Range(r.start, r.end)
    }
}

impl vstd::std_specs::convert::FromSpecImpl<core::ops::Range<usize>> for Range {
    open spec fn obeys_from_spec() -> bool {
        true
    }

    open spec fn from_spec(v: core::ops::Range<usize>) -> Range {
        Range(v.start, v.end)
    }
}

impl From<Range> for core::ops::Range<usize> {
    fn from(r: Range) -> (ret: Self) {
        r.0..r.1
    }
}

impl vstd::std_specs::convert::FromSpecImpl<Range> for core::ops::Range<usize> {
    open spec fn obeys_from_spec() -> bool {
        true
    }

    open spec fn from_spec(v: Range) -> core::ops::Range<usize> {
        core::ops::Range { start: v.0, end: v.1 }
    }
}

impl From<(usize, usize)> for Range {
    fn from(t: (usize, usize)) -> (ret: Self) {
        Range(t.0, t.1)
    }
}

impl vstd::std_specs::convert::FromSpecImpl<(usize, usize)> for Range {
    open spec fn obeys_from_spec() -> bool {
        true
    }

    open spec fn from_spec(v: (usize, usize)) -> Range {
        Range(v.0, v.1)
    }
}

impl From<Range> for (usize, usize) {
    fn from(r: Range) -> (ret: (usize, usize)) {
        (r.0, r.1)
    }
}

impl vstd::std_specs::convert::FromSpecImpl<Range> for (usize, usize) {
    open spec fn obeys_from_spec() -> bool {
        true
    }

    open spec fn from_spec(v: Range) -> (usize, usize) {
        (v.0, v.1)
    }
}

/// Slice `s` down to the sub-slice selected by `r`, i.e. `s[r.start()..r.end()]`.
///
/// Out-of-bounds or inverted ranges are excluded by the precondition;
/// `clamp_to` is the way to establish it for an arbitrary range.
pub fn index<'a, T>(s: &'a [T], r: &Range) -> (out: &'a [T])
    requires
        r.spec_in_bounds(s@.len()),
    ensures
        out@ == s@.subrange(r.0 as int, r.1 as int),
{
    vstd::slice::slice_subrange(s, r.0, r.1)
}

/// A range `[a, b)` with `a <= b` has length `b - a`; an inverted range has
/// length `0` and is empty.
pub proof fn lemma_len_of_new(a: usize, b: usize)
    ensures
        a <= b ==> Range(a, b).spec_len() == b - a,
        a > b ==> Range(a, b).spec_len() == 0 && Range(a, b).spec_is_empty(),
{
}

/// `clamp_to` is idempotent: clamping a second time to the same length
/// changes nothing.
pub proof fn lemma_clamp_to_idempotent(r: Range, len: usize)
    ensures
        r.spec_clamp_to(len).spec_clamp_to(len) == r.spec_clamp_to(len),
{
}

/// `clamp_to(len)` caps both bounds at `len`; for a range that is not
/// inverted, the result can index a sequence of length `len` without going
/// out of bounds.
pub proof fn lemma_clamp_to_in_bounds(r: Range, len: usize)
    ensures
        r.spec_clamp_to(len).0 <= len,
        r.spec_clamp_to(len).1 <= len,
        r.0 <= r.1 ==> r.spec_clamp_to(len).spec_in_bounds(len as nat),
{
}

/// `intersect` is commutative.
pub proof fn lemma_intersect_commutative(a: Range, b: Range)
    ensures
        a.spec_intersect(b) == b.spec_intersect(a),
{
}

/// Abutting ranges, where one ends exactly where the other starts, do not
/// intersect.
pub proof fn lemma_abutting_ranges_do_not_intersect(a: Range, b: Range)
    requires
        a.1 == b.0,
    ensures
        a.spec_intersect(b) is None,
        b.spec_intersect(a) is None,
{
}

/// Shifting a range up by `delta` and then shrinking the end back by `delta`
/// advances the start by `delta` and restores the original end, provided the
/// range is not inverted, `delta` does not exceed its length, and the shift
/// does not overflow.
pub proof fn lemma_offset_then_shrink(r: Range, delta: usize)
    requires
        r.0 <= r.1,
        delta <= r.spec_len(),
        r.1 + delta <= usize::MAX,
    ensures
        Range((r.0 + delta) as usize, (r.1 + delta) as usize).spec_shrink(0, delta) == Range(
            (r.0 + delta) as usize,
            r.1,
        ),
{
}

/// Converting a native `core::ops::Range<usize>` to a `Range` and back is
/// the identity, and so is the round trip that starts from a `Range`.
pub proof fn lemma_native_range_roundtrip(r: core::ops::Range<usize>, q: Range)
    ensures
        <core::ops::Range<usize> as FromSpec<Range>>::from_spec(
            <Range as FromSpec<core::ops::Range<usize>>>::from_spec(r),
        ) == r,
        <Range as FromSpec<core::ops::Range<usize>>>::from_spec(
            <core::ops::Range<usize> as FromSpec<Range>>::from_spec(q),
        ) == q,
{
}

/// Converting a `(start, end)` pair to a `Range` and back is the identity,
/// and so is the round trip that starts from a `Range`.
pub proof fn lemma_tuple_roundtrip(t: (usize, usize), q: Range)
    ensures
        <(usize, usize) as FromSpec<Range>>::from_spec(
            <Range as FromSpec<(usize, usize)>>::from_spec(t),
        ) == t,
        <Range as FromSpec<(usize, usize)>>::from_spec(
            <(usize, usize) as FromSpec<Range>>::from_spec(q),
        ) == q,
{
}

/// The order on `Range` is lexicographic on `(start, end)`.
pub proof fn lemma_order_lexicographic(a: Range, b: Range)
    ensures
        (a.partial_cmp_spec(&b) == Some(core::cmp::Ordering::Less)) <==> (a.0 < b.0 || (a.0 == b.0
            && a.1 < b.1)),
        (a.partial_cmp_spec(&b) == Some(core::cmp::Ordering::Equal)) <==> a == b,
        (a.partial_cmp_spec(&b) == Some(core::cmp::Ordering::Greater)) <==> (a.0 > b.0 || (a.0
            == b.0 && a.1 > b.1)),
{
}

} // verus!
