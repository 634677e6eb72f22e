//! The validated-input protocol: each reader consumes console lines until
//! one denotes a legal value, and the readers for multi-line message bodies
//! and for message display.
//!
//! The interactive application feeds these functions the lines it reads; a
//! whole session of lines can equally be replayed as one call, which is how
//! the readers' contracts and tests state re-prompt-until-valid behaviour.
//! An exhausted script stands for a closed input stream, which cancels the
//! read.

use vstd::prelude::*;

use crate::text::{has_prefix, split_lines, split_lines_spec, trim, trim_back_spec, trim_end, trim_spec};
use crate::types::{Confirmation, RangeUsize};

verus! {

/// Reads the first line of `script` that denotes an in-range selection,
/// re-prompting past every line that does not; returns the consumed line
/// count beside the selection.
pub fn read_selection(script: &Vec<String>, range: &RangeUsize) -> (r: Option<(usize, usize)>)
    ensures
        match r {
            Some(iv) => {
                &&& iv.0 < script@.len()
                &&& range.selection_of(script@[iv.0 as int]@) == Some(iv.1)
                &&& forall|j: int| 0 <= j < iv.0 ==> range.selection_of(script@[j]@) is None
            },
            None => forall|j: int| 0 <= j < script@.len() ==> range.selection_of(script@[j]@) is None,
        },
{
    let len = script.len();
    let mut i: usize = 0;
    while i < len
        invariant
            0 <= i <= len,
            len == script@.len(),
            forall|j: int| 0 <= j < i ==> range.selection_of(script@[j]@) is None,
        decreases len - i,
    {
        match range.parse_selection(script[i].as_str()) {
            Some(v) => {
                return Some((i, v));
            },
            None => {
                i = i + 1;
            },
        }
    }
    None
}

/// Reads the first line of `script` that denotes a confirmation decision:
/// `true` to confirm sending, `false` to cancel it.
pub fn read_reconfirmation(script: &Vec<String>) -> (r: Option<(usize, bool)>)
    ensures
        match r {
            Some(iv) => {
                &&& iv.0 < script@.len()
                &&& crate::types::confirm_of_line(script@[iv.0 as int]@) == Some(iv.1)
                &&& forall|j: int| 0 <= j < iv.0 ==> crate::types::confirm_of_line(script@[j]@) is None
            },
            None => forall|j: int|
                0 <= j < script@.len() ==> crate::types::confirm_of_line(script@[j]@) is None,
        },
{
    let len = script.len();
    let mut i: usize = 0;
    while i < len
        invariant
            0 <= i <= len,
            len == script@.len(),
            forall|j: int| 0 <= j < i ==> crate::types::confirm_of_line(script@[j]@) is None,
        decreases len - i,
    {
        match Confirmation::parse_confirmation(script[i].as_str()) {
            Some(v) => {
                return Some((i, v));
            },
            None => {
                i = i + 1;
            },
        }
    }
    None
}

/// Accumulates a message body line by line.  Each line is cleaned and ended
/// with a newline; two consecutive empty lines complete the body, whose
/// trailing blank lines are then dropped.
pub struct BodyBuilder {
    /// The text accumulated so far, one newline-terminated piece per line.
    pub text: String,
    /// How many empty lines were seen in a row.
    pub empties: u8,
}

impl BodyBuilder {
    /// Whether editing is complete.
    pub open spec fn done(self) -> bool {
        self.empties >= 2
    }

    pub fn new() -> (b: BodyBuilder)
        ensures
            b.text@ == Seq::<char>::empty(),
            b.empties == 0,
    {
        BodyBuilder { text: String::new(), empties: 0 }
    }

    pub fn is_done(&self) -> (r: bool)
        ensures
            r == self.done(),
    {
        self.empties >= 2
    }

    /// Appends one console line to the body under construction.
    pub fn push_line(&mut self, line: &str)
        requires
            !old(self).done(),
        ensures
            final(self).text@ == old(self).text@ + trim_spec(line@) + "\n"@,
            final(self).empties == if trim_spec(line@).len() == 0 {
                old(self).empties + 1
            } else {
                0int
            },
    {
        let cleaned = trim(line);
        let empty = cleaned.as_str().unicode_len() == 0;
        self.text.append(cleaned.as_str());
        self.text.append("\n");
        if empty {
            self.empties = self.empties + 1;
        } else {
            self.empties = 0;
        }
    }

    /// The stored body: the accumulated text with its trailing blank lines
    /// trimmed away.
    pub fn finish(&self) -> (r: String)
        ensures
            r@ == trim_back_spec(self.text@),
    {
        trim_end(self.text.as_str())
    }
}

/// What feeding `lines` to a fresh body accumulator yields: the stored body
/// once two consecutive empty lines arrive, or nothing if the lines run out
/// first.
pub open spec fn body_scan(lines: Seq<Seq<char>>, acc: Seq<char>, empties: int) -> Option<
    Seq<char>,
>
    decreases lines.len(),
{
    if empties >= 2 {
        Some(trim_back_spec(acc))
    } else if lines.len() == 0 {
        None
    } else {
        let t = trim_spec(lines[0]);
        body_scan(
            lines.drop_first(),
            acc + t + "\n"@,
            if t.len() == 0 {
                empties + 1
            } else {
                0
            },
        )
    }
}

/// Reads a message body from `script`, consuming lines until two in a row
/// are empty.
pub fn read_body(script: &Vec<String>) -> (r: Option<String>)
    ensures
        match r {
            Some(b) => body_scan(script.deep_view(), Seq::empty(), 0) == Some(b@),
            None => body_scan(script.deep_view(), Seq::empty(), 0) is None,
        },
{
    let len = script.len();
    let mut b = BodyBuilder::new();
    let mut i: usize = 0;
    proof {
        assert(script.deep_view().skip(0) =~= script.deep_view());
    }
    while i < len && !(b.empties >= 2)
        invariant
            0 <= i <= len,
            len == script@.len(),
            b.empties <= 2,
            body_scan(script.deep_view(), Seq::empty(), 0) == body_scan(
                script.deep_view().skip(i as int),
                b.text@,
                b.empties as int,
            ),
        decreases len - i,
    {
        let ghost pre = script.deep_view().skip(i as int);
        proof {
            assert(pre[0] == script@[i as int]@);
            assert(pre.drop_first() =~= script.deep_view().skip(i + 1));
        }
        b.push_line(script[i].as_str());
        i = i + 1;
    }
    if b.is_done() {
        Some(b.finish())
    } else {
        proof {
            assert(script.deep_view().skip(i as int) =~= Seq::<Seq<char>>::empty());
        }
        None
    }
}

/// Whether a line opens the displayed part of a fetched message.
pub open spec fn is_from_line(l: Seq<char>) -> bool {
    has_prefix(l, "From: "@)
}

/// Whether a line is suppressed from display as an uninteresting header.
pub open spec fn is_hidden_line(l: Seq<char>) -> bool {
    has_prefix(l, "Content"@) || has_prefix(l, "To"@)
}

/// The lines of a fetched message that are displayed: display starts at the
/// first line bearing the sender-header marker, and header lines bearing the
/// content-type or recipient markers stay hidden even after that point.
pub open spec fn visible_from(lines: Seq<Seq<char>>, started: bool) -> Seq<Seq<char>>
    decreases lines.len(),
{
    if lines.len() == 0 {
        seq![]
    } else {
        let now = started || is_from_line(lines[0]);
        let rest = visible_from(lines.drop_first(), now);
        if now && !is_hidden_line(lines[0]) {
            seq![lines[0]] + rest
        } else {
            rest
        }
    }
}

/// The real body part of a fetched message, as the lines to print; useless
/// headers are left out.
pub fn body_display_lines(message: &str) -> (r: Vec<String>)
    ensures
        r.deep_view() == visible_from(split_lines_spec(message@), false),
{
    let lines = split_lines(message);
    let len = lines.len();
    let mut out: Vec<String> = Vec::new();
    let mut started = false;
    let mut i: usize = 0;
    proof {
        assert(lines.deep_view().skip(0) =~= lines.deep_view());
        assert(out.deep_view() + visible_from(lines.deep_view(), false) =~= visible_from(
            lines.deep_view(),
            false,
        ));
    }
    while i < len
        invariant
            0 <= i <= len,
            len == lines@.len(),
            lines.deep_view() == split_lines_spec(message@),
            out.deep_view() + visible_from(lines.deep_view().skip(i as int), started)
                == visible_from(lines.deep_view(), false),
        decreases len - i,
    {
        let ghost pre = lines.deep_view().skip(i as int);
        proof {
            assert(pre[0] == lines@[i as int]@);
            assert(pre.drop_first() =~= lines.deep_view().skip(i + 1));
        }
        let line = &lines[i];
        if crate::text::str_has_prefix(line.as_str(), "From: ") {
            started = true;
        }
        if started && !(crate::text::str_has_prefix(line.as_str(), "Content")
            || crate::text::str_has_prefix(line.as_str(), "To")) {
            out.push(line.clone());
            proof {
                assert(out.deep_view() + visible_from(lines.deep_view().skip(i + 1), started)
                    =~= visible_from(lines.deep_view(), false));
            }
        } else {
            proof {
                assert(out.deep_view() + visible_from(lines.deep_view().skip(i + 1), started)
                    =~= visible_from(lines.deep_view(), false));
            }
        }
        i = i + 1;
    }
    proof {
        assert(lines.deep_view().skip(len as int) =~= Seq::<Seq<char>>::empty());
        assert(out.deep_view() =~= visible_from(lines.deep_view(), false));
    }
    out
}

} // verus!
