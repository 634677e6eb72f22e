//! Verified text utilities: whitespace trimming, decimal numerals, prefix
//! tests and line splitting, used by the validated-input readers and the
//! message presentation code.

use vstd::prelude::*;

verus! {

/// The whitespace characters that input cleaning strips.
pub open spec fn is_space_char(c: char) -> bool {
    c == ' ' || c == '\t' || c == '\r' || c == '\n'
}

/// `s` with its leading whitespace removed.
pub open spec fn trim_front_spec(s: Seq<char>) -> Seq<char>
    decreases s.len(),
{
    if s.len() > 0 && is_space_char(s[0]) {
        trim_front_spec(s.drop_first())
    } else {
        s
    }
}

/// `s` with its trailing whitespace removed.
pub open spec fn trim_back_spec(s: Seq<char>) -> Seq<char>
    decreases s.len(),
{
    if s.len() > 0 && is_space_char(s.last()) {
        trim_back_spec(s.drop_last())
    } else {
        s
    }
}

/// `s` with leading and trailing whitespace removed.
pub open spec fn trim_spec(s: Seq<char>) -> Seq<char> {
    trim_back_spec(trim_front_spec(s))
}

proof fn lemma_trim_front_skip(s: Seq<char>, a: int)
    requires
        0 <= a <= s.len(),
        forall|k: int| 0 <= k < a ==> is_space_char(s[k]),
        a < s.len() ==> !is_space_char(s[a]),
    ensures
        trim_front_spec(s) == s.skip(a),
    decreases a,
{
    if a == 0 {
        if s.len() > 0 {
            assert(!is_space_char(s[0]));
        }
        assert(s.skip(0) =~= s);
    } else {
        assert(is_space_char(s[0]));
        let t = s.drop_first();
        assert(forall|k: int| 0 <= k < a - 1 ==> is_space_char(t[k]));
        lemma_trim_front_skip(t, a - 1);
        assert(t.skip(a - 1) =~= s.skip(a));
    }
}

proof fn lemma_trim_back_take(s: Seq<char>, b: int)
    requires
        0 <= b <= s.len(),
        forall|k: int| b <= k < s.len() ==> is_space_char(s[k]),
        b > 0 ==> !is_space_char(s[b - 1]),
    ensures
        trim_back_spec(s) == s.take(b),
    decreases s.len() - b,
{
    if b == s.len() {
        if s.len() > 0 {
            assert(!is_space_char(s.last()));
        }
        assert(s.take(b) =~= s);
    } else {
        assert(is_space_char(s.last()));
        let t = s.drop_last();
        lemma_trim_back_take(t, b);
        assert(t.take(b) =~= s.take(b));
    }
}

/// Whether `c` is whitespace, for executable code.
pub fn is_space(c: char) -> (r: bool)
    ensures
        r == is_space_char(c),
{
    c == ' ' || c == '\t' || c == '\r' || c == '\n'
}

/// Strips leading and trailing whitespace from a line, the cleaning every
/// console read performs before the line is interpreted.
pub fn trim(s: &str) -> (r: String)
    ensures
        r@ == trim_spec(s@),
{
    let len = s.unicode_len();
    let mut a: usize = 0;
    while a < len && is_space(s.get_char(a))
        invariant
            0 <= a <= len,
            len == s@.len(),
            forall|k: int| 0 <= k < a ==> is_space_char(s@[k]),
        decreases len - a,
    {
        a = a + 1;
    }
    proof {
        lemma_trim_front_skip(s@, a as int);
    }
    let mut b: usize = len;
    while b > a && is_space(s.get_char(b - 1))
        invariant
            a <= b <= len,
            len == s@.len(),
            forall|k: int| b <= k < len ==> is_space_char(s@[k]),
        decreases b,
    {
        b = b - 1;
    }
    let ghost f = s@.skip(a as int);
    proof {
        assert(forall|k: int| b - a <= k < f.len() ==> is_space_char(#[trigger] f[k]));
        lemma_trim_back_take(f, b - a);
        assert(f.take(b - a) =~= s@.subrange(a as int, b as int));
    }
    let piece = s.substring_char(a, b);
    String::from_str(piece)
}

/// Strips trailing whitespace only, the cleaning a finished message body
/// receives.
pub fn trim_end(s: &str) -> (r: String)
    ensures
        r@ == trim_back_spec(s@),
{
    let len = s.unicode_len();
    let mut b: usize = len;
    while b > 0 && is_space(s.get_char(b - 1))
        invariant
            0 <= b <= len,
            len == s@.len(),
            forall|k: int| b <= k < len ==> is_space_char(s@[k]),
        decreases b,
    {
        b = b - 1;
    }
    proof {
        lemma_trim_back_take(s@, b as int);
    }
    let piece = s.substring_char(0, b);
    proof {
        assert(piece@ =~= s@.take(b as int));
    }
    String::from_str(piece)
}

/// Whether `c` is a decimal digit.
pub open spec fn is_digit_char(c: char) -> bool {
    '0' <= c && c <= '9'
}

/// The numeric value of a digit character.
pub open spec fn digit_val(c: char) -> nat {
    (c as u32 - '0' as u32) as nat
}

/// The value of a string of digit characters, most significant first.
pub open spec fn dec_val(s: Seq<char>) -> nat
    decreases s.len(),
{
    if s.len() == 0 {
        0
    } else {
        dec_val(s.drop_last()) * 10 + digit_val(s.last())
    }
}

/// Whether every character of `s` is a decimal digit.
pub open spec fn all_digits(s: Seq<char>) -> bool {
    forall|i: int| 0 <= i < s.len() ==> is_digit_char(s[i])
}

/// The digits of an integer literal: an optional leading `+` sign is
/// dropped, as the standard unsigned parser drops it.
pub open spec fn digits_part(s: Seq<char>) -> Seq<char> {
    if s.len() > 0 && s[0] == '+' {
        s.drop_first()
    } else {
        s
    }
}

/// The number a cleaned line of text denotes, if it is a well-formed
/// unsigned integer literal whose value fits in `usize`.
pub open spec fn usize_of_text(s: Seq<char>) -> Option<usize> {
    let d = digits_part(s);
    if d.len() > 0 && all_digits(d) && dec_val(d) <= usize::MAX {
        Some(dec_val(d) as usize)
    } else {
        None
    }
}

proof fn lemma_dec_val_prefix_le(s: Seq<char>, i: int)
    requires
        0 <= i <= s.len(),
    ensures
        dec_val(s.take(i)) <= dec_val(s),
    decreases s.len() - i,
{
    if i == s.len() {
        assert(s.take(i) =~= s);
    } else {
        lemma_dec_val_prefix_le(s, i + 1);
        let t = s.take(i + 1);
        assert(t.drop_last() =~= s.take(i));
        assert(dec_val(t) == dec_val(s.take(i)) * 10 + digit_val(s[i]));
    }
}

/// Parses a cleaned line as an unsigned integer, exactly when
/// `usize_of_text` says it denotes one.
pub fn parse_usize(s: &str) -> (r: Option<usize>)
    ensures
        r == usize_of_text(s@),
{
    let len = s.unicode_len();
    let start: usize = if len > 0 && s.get_char(0) == '+' {
        1
    } else {
        0
    };
    proof {
        if start == 1 {
            assert(digits_part(s@) =~= s@.skip(1));
        } else {
            assert(digits_part(s@) =~= s@);
        }
    }
    let ghost d = digits_part(s@);
    if start == len {
        return None;
    }
    let mut i: usize = start;
    let mut acc: u128 = 0;
    while i < len
        invariant
            start <= i <= len,
            start <= 1,
            len == s@.len(),
            d == s@.skip(start as int),
            d == digits_part(s@),
            forall|k: int| start <= k < i ==> is_digit_char(s@[k]),
            acc == dec_val(s@.subrange(start as int, i as int)),
            acc <= usize::MAX,
        decreases len - i,
    {
        let c = s.get_char(i);
        if !('0' <= c && c <= '9') {
            proof {
                assert(d[i - start] == s@[i as int]);
                assert(!all_digits(d));
            }
            return None;
        }
        let dv: u32 = c as u32 - '0' as u32;
        proof {
            let t = s@.subrange(start as int, i + 1);
            assert(t.drop_last() =~= s@.subrange(start as int, i as int));
            assert(t.last() == s@[i as int]);
            assert(dec_val(t) == acc * 10 + dv);
        }
        let next: u128 = acc * 10 + dv as u128;
        if next > usize::MAX as u128 {
            proof {
                assert(s@.subrange(start as int, i + 1) =~= d.take(i + 1 - start));
                lemma_dec_val_prefix_le(d, i + 1 - start);
            }
            return None;
        }
        acc = next;
        i = i + 1;
    }
    proof {
        assert(s@.subrange(start as int, len as int) =~= d);
    }
    Some(acc as usize)
}

/// The digit character of a value below ten.
pub open spec fn dec_digit_char(d: nat) -> char {
    if d == 0 {
        '0'
    } else if d == 1 {
        '1'
    } else if d == 2 {
        '2'
    } else if d == 3 {
        '3'
    } else if d == 4 {
        '4'
    } else if d == 5 {
        '5'
    } else if d == 6 {
        '6'
    } else if d == 7 {
        '7'
    } else if d == 8 {
        '8'
    } else {
        '9'
    }
}

/// The decimal representation of `n`, without sign or leading zeros.
pub open spec fn dec_rep(n: nat) -> Seq<char>
    decreases n,
{
    if n < 10 {
        seq![dec_digit_char(n)]
    } else {
        dec_rep(n / 10).push(dec_digit_char(n % 10))
    }
}

fn digit_char(d: usize) -> (r: char)
    requires
        d < 10,
    ensures
        r == dec_digit_char(d as nat),
{
    if d == 0 {
        '0'
    } else if d == 1 {
        '1'
    } else if d == 2 {
        '2'
    } else if d == 3 {
        '3'
    } else if d == 4 {
        '4'
    } else if d == 5 {
        '5'
    } else if d == 6 {
        '6'
    } else if d == 7 {
        '7'
    } else if d == 8 {
        '8'
    } else {
        '9'
    }
}

/// Law: rendering never loses the number.  A decimal representation is
/// non-empty, consists of digits, and reads back as the number it renders.
pub proof fn lemma_dec_round_trip(n: nat)
    ensures
        dec_rep(n).len() > 0,
        all_digits(dec_rep(n)),
        dec_val(dec_rep(n)) == n,
    decreases n,
{
    if n < 10 {
        assert(dec_val(dec_rep(n)) == dec_val(dec_rep(n).drop_last()) * 10 + digit_val(
            dec_digit_char(n),
        ));
        assert(dec_rep(n).drop_last() =~= Seq::<char>::empty());
    } else {
        lemma_dec_round_trip(n / 10);
        let whole = dec_rep(n);
        assert(whole.drop_last() =~= dec_rep(n / 10));
        assert(whole.last() == dec_digit_char(n % 10));
        assert(digit_val(dec_digit_char(n % 10)) == n % 10);
        assert(forall|i: int|
            0 <= i < whole.len() - 1 ==> whole[i] == #[trigger] dec_rep(n / 10)[i]);
    }
}

/// Relies on `String::push` of std: appends the one character to the end of
/// the string.
#[verifier::external_body]
fn push_char(s: &mut String, c: char)
    ensures
        final(s)@ == old(s)@.push(c),
{
    s.push(c);
}

/// Renders `n` in decimal, the display form of indices and menu entries.
pub fn render_usize(n: usize) -> (r: String)
    ensures
        r@ == dec_rep(n as nat),
    decreases n,
{
    if n < 10 {
        let mut s = String::new();
        push_char(&mut s, digit_char(n));
        proof {
            assert(s@ =~= dec_rep(n as nat));
        }
        s
    } else {
        let mut s = render_usize(n / 10);
        push_char(&mut s, digit_char(n % 10));
        s
    }
}

/// Whether `p` is a prefix of `s`.
pub open spec fn has_prefix(s: Seq<char>, p: Seq<char>) -> bool {
    p.len() <= s.len() && s.take(p.len() as int) == p
}

/// Prefix test on string slices.
pub fn str_has_prefix(s: &str, p: &str) -> (r: bool)
    ensures
        r == has_prefix(s@, p@),
{
    let slen = s.unicode_len();
    let plen = p.unicode_len();
    if plen > slen {
        return false;
    }
    let mut i: usize = 0;
    while i < plen
        invariant
            0 <= i <= plen <= slen,
            slen == s@.len(),
            plen == p@.len(),
            forall|k: int| 0 <= k < i ==> s@[k] == p@[k],
        decreases plen - i,
    {
        if s.get_char(i) != p.get_char(i) {
            proof {
                assert(s@.take(plen as int)[i as int] != p@[i as int]);
            }
            return false;
        }
        i = i + 1;
    }
    proof {
        assert(s@.take(plen as int) =~= p@);
    }
    true
}

/// Character-for-character equality of two string slices.
pub fn str_eq(a: &str, b: &str) -> (r: bool)
    ensures
        r == (a@ == b@),
{
    let alen = a.unicode_len();
    let blen = b.unicode_len();
    if alen != blen {
        return false;
    }
    let mut i: usize = 0;
    while i < alen
        invariant
            0 <= i <= alen,
            alen == a@.len() == b@.len(),
            forall|k: int| 0 <= k < i ==> a@[k] == b@[k],
        decreases alen - i,
    {
        if a.get_char(i) != b.get_char(i) {
            return false;
        }
        i = i + 1;
    }
    proof {
        assert(a@ =~= b@);
    }
    true
}

/// Whether `c` occurs in `s`.
pub open spec fn contains_char(s: Seq<char>, c: char) -> bool {
    exists|i: int| 0 <= i < s.len() && s[i] == c
}

/// Occurrence test on string slices.
pub fn str_contains_char(s: &str, c: char) -> (r: bool)
    ensures
        r == contains_char(s@, c),
{
    let len = s.unicode_len();
    let mut i: usize = 0;
    while i < len
        invariant
            0 <= i <= len,
            len == s@.len(),
            forall|k: int| 0 <= k < i ==> s@[k] != c,
        decreases len - i,
    {
        if s.get_char(i) == c {
            return true;
        }
        i = i + 1;
    }
    false
}

/// An upper-case ASCII letter mapped to its lower-case form; every other
/// character is unchanged.
pub open spec fn lower_char(c: char) -> char {
    if 'A' <= c && c <= 'Z' {
        ((c as u32) + 32) as char
    } else {
        c
    }
}

/// `s` with every upper-case ASCII letter lowered.
pub open spec fn lower_seq(s: Seq<char>) -> Seq<char> {
    s.map_values(|c: char| lower_char(c))
}

fn to_lower(c: char) -> (r: char)
    ensures
        r == lower_char(c),
{
    if 'A' <= c && c <= 'Z' {
        (((c as u8) + 32) as char)
    } else {
        c
    }
}

/// Lower-cases a string, the case folding the confirmation reader applies.
pub fn lowercase(s: &str) -> (r: String)
    ensures
        r@ == lower_seq(s@),
{
    let len = s.unicode_len();
    let mut out = String::new();
    let mut i: usize = 0;
    while i < len
        invariant
            0 <= i <= len,
            len == s@.len(),
            out@ == lower_seq(s@.take(i as int)),
        decreases len - i,
    {
        push_char(&mut out, to_lower(s.get_char(i)));
        proof {
            assert(lower_seq(s@.take(i + 1)) =~= lower_seq(s@.take(i as int)).push(
                lower_char(s@[i as int]),
            ));
        }
        i = i + 1;
    }
    proof {
        assert(s@.take(len as int) =~= s@);
    }
    out
}

/// The index of the first occurrence of `c` in `s`, or `-1`.
pub open spec fn find_char(s: Seq<char>, c: char) -> int
    decreases s.len(),
{
    if s.len() == 0 {
        -1
    } else if s[0] == c {
        0
    } else {
        let r = find_char(s.drop_first(), c);
        if r == -1 {
            -1
        } else {
            r + 1
        }
    }
}

proof fn lemma_find_char(s: Seq<char>, c: char)
    ensures
        -1 <= find_char(s, c) < s.len(),
        find_char(s, c) >= 0 ==> s[find_char(s, c)] == c,
        forall|k: int| 0 <= k < find_char(s, c) ==> s[k] != c,
        find_char(s, c) == -1 ==> forall|k: int| 0 <= k < s.len() ==> s[k] != c,
    decreases s.len(),
{
    if s.len() > 0 && s[0] != c {
        lemma_find_char(s.drop_first(), c);
        assert(forall|k: int| 1 <= k < s.len() ==> s[k] == s.drop_first()[k - 1]);
    }
}

/// A line with a trailing carriage return removed, as the standard line
/// iterator removes it.
pub open spec fn strip_cr(s: Seq<char>) -> Seq<char> {
    if s.len() > 0 && s.last() == '\r' {
        s.drop_last()
    } else {
        s
    }
}

/// The lines of `s`: pieces between newline characters, each with a
/// trailing carriage return dropped, and no final empty piece when `s` ends
/// with a newline.
pub open spec fn split_lines_spec(s: Seq<char>) -> Seq<Seq<char>>
    decreases s.len(),
{
    if s.len() == 0 {
        seq![]
    } else {
        let i = find_char(s, '\n');
        if i < 0 || i + 1 > s.len() {
            seq![strip_cr(s)]
        } else {
            seq![strip_cr(s.take(i))] + split_lines_spec(s.skip(i + 1))
        }
    }
}

fn find_newline(s: &str) -> (r: Option<usize>)
    ensures
        match r {
            Some(i) => i == find_char(s@, '\n'),
            None => find_char(s@, '\n') == -1,
        },
{
    let len = s.unicode_len();
    let mut i: usize = 0;
    while i < len
        invariant
            0 <= i <= len,
            len == s@.len(),
            forall|k: int| 0 <= k < i ==> s@[k] != '\n',
        decreases len - i,
    {
        if s.get_char(i) == '\n' {
            proof {
                lemma_find_char(s@, '\n');
            }
            return Some(i);
        }
        i = i + 1;
    }
    proof {
        lemma_find_char(s@, '\n');
    }
    None
}

fn line_piece(s: &str, end: usize) -> (r: String)
    requires
        end <= s@.len(),
        forall|k: int| 0 <= k < end ==> s@[k] != '\n',
        end < s@.len() ==> s@[end as int] == '\n',
    ensures
        r@ == strip_cr(s@.take(end as int)),
{
    let piece = if end > 0 && s.get_char(end - 1) == '\r' {
        s.substring_char(0, end - 1)
    } else {
        s.substring_char(0, end)
    };
    proof {
        let t = s@.take(end as int);
        if end > 0 && s@[end - 1] == '\r' {
            assert(t.last() == '\r');
            assert(piece@ =~= t.drop_last());
        } else {
            if end > 0 {
                assert(t.last() == s@[end - 1]);
            }
            assert(piece@ =~= t);
        }
    }
    String::from_str(piece)
}

/// Splits text into its lines, matching `split_lines_spec`.
pub fn split_lines(s: &str) -> (r: Vec<String>)
    ensures
        r.deep_view() == split_lines_spec(s@),
    decreases s@.len(),
{
    let len = s.unicode_len();
    if len == 0 {
        let r: Vec<String> = Vec::new();
        proof {
            assert(r.deep_view() =~= split_lines_spec(s@));
        }
        return r;
    }
    proof {
        lemma_find_char(s@, '\n');
    }
    match find_newline(s) {
        None => {
            let mut r: Vec<String> = Vec::new();
            r.push(line_piece(s, len));
            proof {
                assert(s@.take(len as int) =~= s@);
                assert(r.deep_view() =~= split_lines_spec(s@));
            }
            r
        },
        Some(i) => {
            let first = line_piece(s, i);
            let rest = s.substring_char(i + 1, len);
            proof {
                assert(rest@ =~= s@.skip(i + 1));
            }
            let mut r: Vec<String> = Vec::new();
            r.push(first);
            let mut tail = split_lines(rest);
            r.append(&mut tail);
            proof {
                assert(r.deep_view() =~= split_lines_spec(s@));
            }
            r
        },
    }
}

} // verus!
