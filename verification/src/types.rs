//! The value types of the validated-input protocol: an inclusive integer
//! range for menu and index selections, and the two-valued confirmation
//! gate.

use vstd::prelude::*;

use crate::text::{
    dec_rep, lower_seq, lowercase, parse_usize, render_usize, str_eq, trim, trim_spec,
    usize_of_text,
};

verus! {

/// Types whose valid values are enumerable, as the display form the reader
/// prints when an input is rejected.
pub trait EnumValues {
    /// The display form listing every legal value.
    spec fn valid_values_spec(&self) -> Seq<char>;

    /// Build a custom message representing valid values.
    fn valid_values(&self) -> (r: String)
        ensures
            r@ == self.valid_values_spec(),
    ;
}

/// Represents a number (`usize`) selection, whose valid values are within a
/// specific inclusive range.
pub struct RangeUsize {
    pub lo: usize,
    pub hi: usize,
}

/// The comma-separated decimal representations of `lo..=hi`.
pub open spec fn range_items(lo: nat, hi: nat) -> Seq<char>
    decreases hi - lo,
{
    if lo > hi {
        seq![]
    } else if lo == hi {
        dec_rep(lo)
    } else {
        dec_rep(lo) + ", "@ + range_items(lo + 1, hi)
    }
}

proof fn lemma_range_items_snoc(lo: nat, hi: nat)
    requires
        lo < hi,
    ensures
        range_items(lo, hi) == range_items(lo, (hi - 1) as nat) + ", "@ + dec_rep(hi),
    decreases hi - lo,
{
    if lo + 1 == hi {
        assert(range_items(lo, hi) == dec_rep(lo) + ", "@ + range_items(lo + 1, hi));
        assert(range_items(lo + 1, hi) == dec_rep(hi));
        assert(range_items(lo, (hi - 1) as nat) == dec_rep(lo));
        assert(range_items(lo, hi) =~= range_items(lo, (hi - 1) as nat) + ", "@ + dec_rep(hi));
    } else {
        lemma_range_items_snoc(lo + 1, hi);
        assert(range_items(lo, hi) =~= range_items(lo, (hi - 1) as nat) + ", "@ + dec_rep(hi));
    }
}

impl RangeUsize {
    pub fn new(lo: usize, hi: usize) -> (r: RangeUsize)
        ensures
            r.lo == lo,
            r.hi == hi,
    {
        RangeUsize { lo, hi }
    }

    /// Whether `n` is a legal selection for this range.
    pub open spec fn in_range(self, n: usize) -> bool {
        self.lo <= n <= self.hi
    }

    /// The selection a raw console line denotes for this range: its cleaned
    /// text read as an unsigned integer, if that integer lies within the
    /// range.
    pub open spec fn selection_of(self, line: Seq<char>) -> Option<usize> {
        match usize_of_text(trim_spec(line)) {
            Some(n) => if self.in_range(n) {
                Some(n)
            } else {
                None
            },
            None => None,
        }
    }

    /// Reads one raw console line as a selection, accepting exactly the
    /// in-range integers.
    pub fn parse_selection(&self, line: &str) -> (r: Option<usize>)
        ensures
            r == self.selection_of(line@),
    {
        let cleaned = trim(line);
        match parse_usize(cleaned.as_str()) {
            Some(n) => if self.lo <= n && n <= self.hi {
                Some(n)
            } else {
                None
            },
            None => None,
        }
    }
}

impl EnumValues for RangeUsize {
    open spec fn valid_values_spec(&self) -> Seq<char> {
        "["@ + range_items(self.lo as nat, self.hi as nat) + "]"@
    }

    fn valid_values(&self) -> (r: String)
        ensures
            r@ == self.valid_values_spec(),
    {
        let mut out = String::new();
        out.append("[");
        if self.lo <= self.hi {
            let mut i: usize = self.lo;
            while i < self.hi
                invariant
                    self.lo <= i <= self.hi,
                    out@ == if i == self.lo {
                        "["@
                    } else {
                        "["@ + range_items(self.lo as nat, (i - 1) as nat) + ", "@
                    },
                decreases self.hi - i,
            {
                let item = render_usize(i);
                out.append(item.as_str());
                out.append(", ");
                proof {
                    if i > self.lo {
                        lemma_range_items_snoc(self.lo as nat, i as nat);
                    }
                    assert(out@ =~= "["@ + range_items(self.lo as nat, i as nat) + ", "@);
                }
                i = i + 1;
            }
            let item = render_usize(self.hi);
            out.append(item.as_str());
            proof {
                if self.lo < self.hi {
                    lemma_range_items_snoc(self.lo as nat, self.hi as nat);
                }
                assert(out@ =~= "["@ + range_items(self.lo as nat, self.hi as nat));
            }
        } else {
            proof {
                assert(out@ =~= "["@ + range_items(self.lo as nat, self.hi as nat));
            }
        }
        out.append("]");
        proof {
            assert(out@ =~= self.valid_values_spec());
        }
        out
    }
}

/// Law: a line that is exactly the decimal numeral of an integer denotes
/// that integer, and the range reader accepts it exactly when the integer
/// lies within the inclusive bound; on every other integer the reader
/// rejects the line and keeps waiting.
pub proof fn lemma_selection_of_numeral(r: RangeUsize, n: usize)
    ensures
        r.selection_of(dec_rep(n as nat)) == if r.lo <= n <= r.hi {
            Some(n)
        } else {
            None::<usize>
        },
{
    let s = dec_rep(n as nat);
    crate::text::lemma_dec_round_trip(n as nat);
    assert(crate::text::is_digit_char(s[0]));
    assert(!crate::text::is_space_char(s[0]));
    assert(trim_spec(s) == s) by {
        assert(crate::text::trim_front_spec(s) == s);
        assert(!crate::text::is_space_char(s.last()));
        assert(crate::text::trim_back_spec(s) == s);
    }
    assert(crate::text::digits_part(s) == s);
    assert(usize_of_text(s) == Some(n));
}

/// Represents a confirmation message, with only two valid values:
/// `confirm`, `cancel`.
pub struct Confirmation {
    confirm: &'static str,
    cancel: &'static str,
}

/// The decision a raw console line denotes: cleaned and lower-cased, the
/// confirm token accepts, the cancel token declines, and anything else is
/// invalid.
pub open spec fn confirm_of_line(line: Seq<char>) -> Option<bool> {
    let t = lower_seq(trim_spec(line));
    if t == "yes"@ {
        Some(true)
    } else if t == "no"@ {
        Some(false)
    } else {
        None
    }
}

impl Confirmation {
    /// The token that confirms.
    pub closed spec fn confirm_spec(&self) -> Seq<char> {
        self.confirm@
    }

    /// The token that cancels.
    pub closed spec fn cancel_spec(&self) -> Seq<char> {
        self.cancel@
    }

    pub fn yes_or_no() -> (r: Confirmation)
        ensures
            r.confirm_spec() == "yes"@,
            r.cancel_spec() == "no"@,
    {
        Confirmation { confirm: "yes", cancel: "no" }
    }

    /// Reads one raw console line as a confirmation decision.
    pub fn parse_confirmation(line: &str) -> (r: Option<bool>)
        ensures
            r == confirm_of_line(line@),
    {
        let cleaned = trim(line);
        let lowered = lowercase(cleaned.as_str());
        if str_eq(lowered.as_str(), "yes") {
            Some(true)
        } else if str_eq(lowered.as_str(), "no") {
            Some(false)
        } else {
            None
        }
    }
}

impl EnumValues for Confirmation {
    open spec fn valid_values_spec(&self) -> Seq<char> {
        "["@ + self.confirm_spec() + ", "@ + self.cancel_spec() + "]"@
    }

    fn valid_values(&self) -> (r: String)
        ensures
            r@ == self.valid_values_spec(),
    {
        let mut out = String::new();
        out.append("[");
        out.append(self.confirm);
        out.append(", ");
        out.append(self.cancel);
        out.append("]");
        proof {
            assert(out@ =~= self.valid_values_spec());
        }
        out
    }
}

} // verus!
