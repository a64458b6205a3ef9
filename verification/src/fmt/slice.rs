//! Slice formatting utilities.
//!
//! [`FmtSlice`] wraps a borrowed slice and renders it as `[e0, e1, ..., eN]`:
//! the elements' own textual forms joined by `", "` and wrapped in brackets.
//! The rendered text is pinned down exactly: [`spec_rendered`] gives the shape
//! of the whole line, and [`spec_decimal`] the decimal form of each number.

use vstd::prelude::*;
use vstd::string::StringExecFns;

verus! {

/// A helper struct for formatting slices: it wraps a borrowed slice and
/// renders it as `[e0, e1, ..., eN]`.
#[derive(Debug, Clone, Copy, PartialEq, Eq, Hash, Default)]
pub struct FmtSlice<'a, T>(pub &'a [T]);

/// The decimal digit `d` as a character, for `0 <= d <= 9`.
pub open spec fn spec_digit_char(d: nat) -> char {
    if d == 0 {
        '0'
    } else if d == 1 {
        '1'
    } else if d == 2 {
        '2'
    } else if d == 3 {
        '3'
    } else if d == 4 {
        '4'
    } else if d == 5 {
        '5'
    } else if d == 6 {
        '6'
    } else if d == 7 {
        '7'
    } else if d == 8 {
        '8'
    } else {
        '9'
    }
}

/// The usual decimal rendering of `n`: most significant digit first, no
/// leading zeros (except for `n == 0` itself).
pub open spec fn spec_decimal(n: nat) -> Seq<char>
    decreases n,
{
    if n < 10 {
        seq![spec_digit_char(n)]
    } else {
        spec_decimal(n / 10).push(spec_digit_char(n % 10))
    }
}

/// The parts joined by `", "`.
pub open spec fn spec_joined(parts: Seq<Seq<char>>) -> Seq<char>
    decreases parts.len(),
{
    if parts.len() == 0 {
        Seq::empty()
    } else if parts.len() == 1 {
        parts[0]
    } else {
        spec_joined(parts.drop_last()) + seq![',', ' '] + parts.last()
    }
}

/// The full rendering: the parts joined by `", "`, wrapped in `[` and `]`.
pub open spec fn spec_rendered(parts: Seq<Seq<char>>) -> Seq<char> {
    seq!['['] + spec_joined(parts) + seq![']']
}

/// The views of a sequence of strings.
pub open spec fn spec_views_of(parts: Seq<String>) -> Seq<Seq<char>> {
    parts.map_values(|p: String| p@)
}

/// The decimal renderings of a sequence of numbers.
pub open spec fn spec_decimals_of(s: Seq<u64>) -> Seq<Seq<char>> {
    s.map_values(|n: u64| spec_decimal(n as nat))
}

/// The single decimal digit `d` as a string slice.
fn digit_str(d: u64) -> (r: &'static str)
    requires
        d < 10,
    ensures
        r@ == seq![spec_digit_char(d as nat)],
{
    proof {
        reveal_strlit("0");
        reveal_strlit("1");
        reveal_strlit("2");
        reveal_strlit("3");
        reveal_strlit("4");
        reveal_strlit("5");
        reveal_strlit("6");
        reveal_strlit("7");
        reveal_strlit("8");
        reveal_strlit("9");
    }
    let r = if d == 0 {
        "0"
    } else if d == 1 {
        "1"
    } else if d == 2 {
        "2"
    } else if d == 3 {
        "3"
    } else if d == 4 {
        "4"
    } else if d == 5 {
        "5"
    } else if d == 6 {
        "6"
    } else if d == 7 {
        "7"
    } else if d == 8 {
        "8"
    } else {
        "9"
    };
    proof {
        assert(r@ =~= seq![spec_digit_char(d as nat)]);
    }
    r
}

/// Render `n` in decimal, as [`spec_decimal`] describes.
pub fn u64_to_string(n: u64) -> (r: String)
    ensures
        r@ == spec_decimal(n as nat),
    decreases n,
{
    if n < 10 {
        String::from_str(digit_str(n))
    } else {
        let prefix = u64_to_string(n / 10);
        let r = prefix.concat(digit_str(n % 10));
        proof {
            assert(r@ =~= spec_decimal((n / 10) as nat).push(spec_digit_char((n % 10) as nat)));
        }
        r
    }
}

/// Join already-rendered parts with `", "` and wrap them in `[` and `]`,
/// as [`spec_rendered`] describes. An empty sequence of parts yields `"[]"`.
pub fn render_parts(parts: &Vec<String>) -> (r: String)
    ensures
        r@ == spec_rendered(spec_views_of(parts@)),
{
    let mut out = String::new();
    out.append("[");
    proof {
        reveal_strlit("[");
        assert(out@ =~= seq!['['] + spec_joined(spec_views_of(parts@.take(0))));
    }
    let mut i: usize = 0;
    while i < parts.len()
        invariant
            i <= parts@.len(),
            out@ == seq!['['] + spec_joined(spec_views_of(parts@.take(i as int))),
        decreases parts@.len() - i,
    {
        if i > 0 {
            out.append(", ");
            proof {
                reveal_strlit(", ");
            }
        }
        out.append(parts[i].as_str());
        proof {
            let prev = spec_views_of(parts@.take(i as int));
            let cur = spec_views_of(parts@.take(i + 1));
            assert(cur.drop_last() =~= prev);
            assert(cur.last() == parts@[i as int]@);
            if i == 0 {
                assert(out@ =~= seq!['['] + spec_joined(cur));
            } else {
                assert(out@ =~= seq!['['] + (spec_joined(prev) + seq![',', ' ']
                    + parts@[i as int]@));
                assert(out@ =~= seq!['['] + spec_joined(cur));
            }
        }
        i += 1;
    }
    out.append("]");
    proof {
        reveal_strlit("]");
        assert(parts@.take(parts@.len() as int) =~= parts@);
        assert(out@ =~= spec_rendered(spec_views_of(parts@)));
    }
    out
}

impl<'a, T> FmtSlice<'a, T> {
    /// Read-only access to the wrapped slice.
    pub fn as_slice(&self) -> (r: &'a [T])
        ensures
            r == self.0,
    {
        self.0
    }
}

impl<'a> FmtSlice<'a, u64> {
    /// Render the wrapped slice as `[e0, e1, ..., eN]`, each element in
    /// decimal.
    pub fn to_text(&self) -> (r: String)
        ensures
            r@ == spec_rendered(spec_decimals_of(self.0@)),
    {
        let s = self.0;
        let mut parts: Vec<String> = Vec::new();
        let mut i: usize = 0;
        while i < s.len()
            invariant
                i <= s@.len(),
                parts@.len() == i,
                forall|k: int| 0 <= k < i ==> parts@[k]@ == spec_decimal(s@[k] as nat),
            decreases s@.len() - i,
        {
            let part = u64_to_string(s[i]);
            parts.push(part);
            i += 1;
        }
        let r = render_parts(&parts);
        proof {
            assert(spec_views_of(parts@) =~= spec_decimals_of(s@));
        }
        r
    }
}

} // verus!
