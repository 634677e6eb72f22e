use echo_unity_archivist::{
    read_body, read_reconfirmation, read_selection, trim, Confirmation, EnumValues, RangeUsize,
};
use echo_unity_archivist::text::{parse_usize, render_usize, split_lines, trim_end};

fn lines(v: &[&str]) -> Vec<String> {
    v.iter().map(|s| s.to_string()).collect()
}

#[test]
fn trim_strips_both_ends() {
    assert_eq!(trim("  hello \t\r\n"), "hello");
    assert_eq!(trim(""), "");
    assert_eq!(trim(" \t "), "");
    assert_eq!(trim("no-space"), "no-space");
    assert_eq!(trim_end(" lead kept  \n"), " lead kept");
}

#[test]
fn parse_usize_reads_decimal_literals() {
    assert_eq!(parse_usize("0"), Some(0));
    assert_eq!(parse_usize("42"), Some(42));
    assert_eq!(parse_usize("+7"), Some(7));
    assert_eq!(parse_usize(""), None);
    assert_eq!(parse_usize("+"), None);
    assert_eq!(parse_usize("4x"), None);
    assert_eq!(parse_usize("-1"), None);
    assert_eq!(parse_usize("999999999999999999999999999999"), None);
}

#[test]
fn render_usize_writes_decimal() {
    assert_eq!(render_usize(0), "0");
    assert_eq!(render_usize(9), "9");
    assert_eq!(render_usize(10), "10");
    assert_eq!(render_usize(305), "305");
}

#[test]
fn selection_accepts_exactly_the_range() {
    let range = RangeUsize::new(1, 3);
    for n in 1..=3usize {
        assert_eq!(range.parse_selection(&n.to_string()), Some(n));
    }
    assert_eq!(range.parse_selection("0"), None);
    assert_eq!(range.parse_selection("4"), None);
    assert_eq!(range.parse_selection(" 2 "), Some(2));
    assert_eq!(range.parse_selection("two"), None);
    assert_eq!(range.parse_selection(""), None);
}

#[test]
fn selection_reader_skips_invalid_lines() {
    let range = RangeUsize::new(1, 5);
    let script = lines(&["0", "9", "x", "3", "4"]);
    assert_eq!(read_selection(&script, &range), Some((3, 3)));
}

#[test]
fn selection_reader_never_returns_out_of_range() {
    let range = RangeUsize::new(2, 4);
    let script = lines(&["0", "1", "5", "100", "-3", ""]);
    assert_eq!(read_selection(&script, &range), None);
}

#[test]
fn range_valid_values_enumerates_all() {
    assert_eq!(RangeUsize::new(1, 3).valid_values(), "[1, 2, 3]");
    assert_eq!(RangeUsize::new(0, 2).valid_values(), "[0, 1, 2]");
    assert_eq!(RangeUsize::new(7, 7).valid_values(), "[7]");
    assert_eq!(RangeUsize::new(1, 0).valid_values(), "[]");
}

#[test]
fn confirmation_tokens_fold_case() {
    assert_eq!(Confirmation::parse_confirmation("YES"), Some(true));
    assert_eq!(Confirmation::parse_confirmation("Yes"), Some(true));
    assert_eq!(Confirmation::parse_confirmation("yes"), Some(true));
    assert_eq!(Confirmation::parse_confirmation("no"), Some(false));
    assert_eq!(Confirmation::parse_confirmation("NO"), Some(false));
    assert_eq!(Confirmation::parse_confirmation(" yes "), Some(true));
    assert_eq!(Confirmation::parse_confirmation("maybe"), None);
    assert_eq!(Confirmation::parse_confirmation(""), None);
}

#[test]
fn confirmation_reader_reprompts_on_other_tokens() {
    let script = lines(&["hmm", "yep", "YES"]);
    assert_eq!(read_reconfirmation(&script), Some((2, true)));
    let script = lines(&["", "No"]);
    assert_eq!(read_reconfirmation(&script), Some((1, false)));
    let script = lines(&["x", "y"]);
    assert_eq!(read_reconfirmation(&script), None);
}

#[test]
fn confirmation_valid_values_lists_both() {
    assert_eq!(Confirmation::yes_or_no().valid_values(), "[yes, no]");
}

#[test]
fn body_double_blank_terminates() {
    let script = lines(&["hello", "", ""]);
    assert_eq!(read_body(&script), Some("hello".to_string()));
}

#[test]
fn body_single_blank_is_preserved() {
    let script = lines(&["a", "", "b", "", ""]);
    assert_eq!(read_body(&script), Some("a\n\nb".to_string()));
}

#[test]
fn body_unfinished_script_yields_nothing() {
    let script = lines(&["only", "one blank", ""]);
    assert_eq!(read_body(&script), None);
}

#[test]
fn body_lines_are_cleaned_before_storing() {
    let script = lines(&["  padded  ", "\t", ""]);
    assert_eq!(read_body(&script), Some("padded".to_string()));
}

#[test]
fn split_lines_matches_line_iterator() {
    let text = "a\r\nb\nc";
    let pieces = split_lines(text);
    assert_eq!(pieces, vec!["a", "b", "c"]);
    assert_eq!(split_lines(""), Vec::<String>::new());
    assert_eq!(split_lines("\n"), vec![""]);
    assert_eq!(split_lines("x\n"), vec!["x"]);
    for (ours, std) in split_lines(text).iter().zip(text.lines()) {
        assert_eq!(ours, std);
    }
}
