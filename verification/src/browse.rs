//! The mailbox browse-and-fetch transaction: listing selectable mailboxes,
//! enumerating a chosen mailbox's messages by subject, and returning one
//! chosen message's raw text.
//!
//! The transaction is a state machine.  The surrounding application performs
//! each command (a network list, select or fetch, or a console prompt) and
//! feeds the result back as the next event.

use vstd::prelude::*;

use crate::text::{contains_char, has_prefix, split_lines, split_lines_spec, str_contains_char, str_has_prefix};
use crate::types::RangeUsize;

verus! {

/// The mailbox names kept for display: any name containing the unsupported
/// encoding marker `&` is filtered out; the server-supplied order is
/// preserved.
pub open spec fn mailbox_filter(names: Seq<Seq<char>>) -> Seq<Seq<char>> {
    names.filter(|n: Seq<char>| !contains_char(n, '&'))
}

/// Filters a mailbox listing down to its displayable names.
pub fn filter_mailboxes(names: &Vec<String>) -> (r: Vec<String>)
    ensures
        r.deep_view() == mailbox_filter(names.deep_view()),
{
    let len = names.len();
    let mut out: Vec<String> = Vec::new();
    let mut i: usize = 0;
    proof {
        reveal(Seq::filter);
        assert(out.deep_view() =~= mailbox_filter(names.deep_view().take(0)));
    }
    while i < len
        invariant
            0 <= i <= len,
            len == names@.len(),
            out.deep_view() == mailbox_filter(names.deep_view().take(i as int)),
        decreases len - i,
    {
        let ghost prefix = names.deep_view().take(i as int);
        let ghost grown = names.deep_view().take(i + 1);
        proof {
            reveal(Seq::filter);
            assert(grown.drop_last() =~= prefix);
            assert(grown.last() == names@[i as int]@);
        }
        if !str_contains_char(names[i].as_str(), '&') {
            out.push(names[i].clone());
            proof {
                assert(out.deep_view() =~= mailbox_filter(grown));
            }
        } else {
            proof {
                assert(out.deep_view() =~= mailbox_filter(grown));
            }
        }
        i = i + 1;
    }
    proof {
        assert(names.deep_view().take(len as int) =~= names.deep_view());
    }
    out
}

/// The text after the nine-character subject marker, or nothing when the
/// line is no longer than the marker itself.
pub open spec fn subject_text(l: Seq<char>) -> Seq<char> {
    if l.len() >= 9 {
        l.skip(9)
    } else {
        Seq::empty()
    }
}

/// The subject of a raw message: the first of its lines that bears the
/// subject marker, with the marker dropped.
pub open spec fn first_subject(lines: Seq<Seq<char>>) -> Option<Seq<char>>
    decreases lines.len(),
{
    if lines.len() == 0 {
        None
    } else if has_prefix(lines[0], "Subject:"@) {
        Some(subject_text(lines[0]))
    } else {
        first_subject(lines.drop_first())
    }
}

/// The subject a message is listed under: its extracted subject, or empty
/// text when it has none.
pub open spec fn subject_display(text: Seq<char>) -> Seq<char> {
    match first_subject(split_lines_spec(text)) {
        Some(s) => s,
        None => Seq::empty(),
    }
}

/// Extracts the subject line from a raw message's text.
pub fn extract_subject(text: &str) -> (r: Option<String>)
    ensures
        match r {
            Some(s) => first_subject(split_lines_spec(text@)) == Some(s@),
            None => first_subject(split_lines_spec(text@)) is None,
        },
{
    let lines = split_lines(text);
    let len = lines.len();
    let mut i: usize = 0;
    proof {
        assert(lines.deep_view().skip(0) =~= lines.deep_view());
    }
    while i < len
        invariant
            0 <= i <= len,
            len == lines@.len(),
            lines.deep_view() == split_lines_spec(text@),
            first_subject(lines.deep_view().skip(i as int)) == first_subject(
                split_lines_spec(text@),
            ),
        decreases len - i,
    {
        let ghost pre = lines.deep_view().skip(i as int);
        proof {
            assert(pre[0] == lines@[i as int]@);
            assert(pre.drop_first() =~= lines.deep_view().skip(i + 1));
        }
        let line = &lines[i];
        if str_has_prefix(line.as_str(), "Subject:") {
            let line_len = line.as_str().unicode_len();
            if line_len >= 9 {
                let rest = line.as_str().substring_char(9, line_len);
                proof {
                    assert(rest@ =~= subject_text(lines@[i as int]@));
                }
                return Some(String::from_str(rest));
            } else {
                let empty = String::new();
                proof {
                    assert(empty@ =~= subject_text(lines@[i as int]@));
                }
                return Some(empty);
            }
        }
        i = i + 1;
    }
    proof {
        assert(lines.deep_view().skip(len as int) =~= Seq::<Seq<char>>::empty());
    }
    None
}

/// How one browse-and-fetch transaction ended.
pub enum BrowseOutcome {
    /// No mailbox survived the encoding filter, so there was nothing to
    /// select; the operator was never prompted.
    NothingToSelect,
    /// The chosen mailbox holds no messages; no further fetch or selection
    /// prompt happened.
    EmptyMailbox { mailbox: String },
    /// The raw text of the chosen message.
    Body { text: String },
    /// The chosen message could not be re-fetched.
    MessageGone,
}

/// Where one browse-and-fetch transaction stands.
pub enum BrowseState {
    /// The filtered listing is displayed; reading a mailbox selection.
    ChoosingMailbox { boxes: Vec<String> },
    /// Enumerating the chosen mailbox: message `next` is being fetched, and
    /// the subjects of messages `1..next` are collected in order.
    Scanning { mailbox: String, next: usize, subjects: Vec<String> },
    /// The subject index is displayed; reading a message selection.
    ChoosingMessage { mailbox: String, subjects: Vec<String> },
    /// Re-fetching the chosen message.
    FetchingChosen { mailbox: String, chosen: usize, count: usize },
    /// The transaction is over.
    Done { outcome: BrowseOutcome },
}

/// What the application must do after a step.
pub enum BrowseCmd {
    /// Prompt for a mailbox selection.
    AskMailbox,
    /// The selection line was illegal: report the legal values, re-prompt.
    BadSelection,
    /// Select the state's mailbox on the server, then fetch the message the
    /// state points at.
    SelectAndFetch,
    /// Fetch the message the state points at.
    FetchNext,
    /// Prompt for a message selection.
    AskMessage,
    /// The transaction is over; do nothing further.
    Stop,
}

/// What the application feeds a step: an operator line, or the result of
/// the fetch it performed.
pub enum BrowseEvent {
    Line { line: String },
    Fetched { text: String },
    FetchedNone,
}

/// The states a step can still be fed an event in, with their invariants:
/// the listing offered for selection is never empty, message numbering is
/// one-based, and the collected subjects stay aligned with it.
pub open spec fn browse_state_wf(s: BrowseState) -> bool {
    match s {
        BrowseState::ChoosingMailbox { boxes } => boxes@.len() >= 1,
        BrowseState::Scanning { next, subjects, .. } => 1 <= next && subjects@.len() == next - 1,
        BrowseState::ChoosingMessage { subjects, .. } => subjects@.len() >= 1,
        BrowseState::FetchingChosen { chosen, count, .. } => 1 <= chosen <= count,
        BrowseState::Done { .. } => false,
    }
}

/// Whether the event is the kind the state awaits.
pub open spec fn browse_event_ok(s: BrowseState, e: BrowseEvent) -> bool {
    match s {
        BrowseState::ChoosingMailbox { .. } => e is Line,
        BrowseState::ChoosingMessage { .. } => e is Line,
        BrowseState::Scanning { .. } => e is Fetched || e is FetchedNone,
        BrowseState::FetchingChosen { .. } => e is Fetched || e is FetchedNone,
        BrowseState::Done { .. } => false,
    }
}

/// Starts a browse transaction from the server's mailbox listing: filters
/// it, and guards against an empty result before any prompt.
pub fn start_browse(names: &Vec<String>) -> (r: (BrowseState, BrowseCmd))
    ensures
        ({
            let kept = mailbox_filter(names.deep_view());
            if kept.len() == 0 {
                r.0 matches BrowseState::Done { outcome } && outcome is NothingToSelect && r.1
                    is Stop
            } else {
                &&& r.0 matches BrowseState::ChoosingMailbox { boxes } && boxes.deep_view()
                    == kept
                &&& r.1 is AskMailbox
                &&& browse_state_wf(r.0)
            }
        }),
{
    let boxes = filter_mailboxes(names);
    if boxes.len() == 0 {
        (BrowseState::Done { outcome: BrowseOutcome::NothingToSelect }, BrowseCmd::Stop)
    } else {
        (BrowseState::ChoosingMailbox { boxes }, BrowseCmd::AskMailbox)
    }
}

/// One step of the browse-and-fetch transaction.
///
/// The contract pins every transition; in particular the empty-mailbox
/// guard: when the very first fetch returns nothing, the transaction ends
/// at once, with no further fetch and no selection prompt.
pub fn browse_step(state: BrowseState, event: BrowseEvent) -> (r: (BrowseState, BrowseCmd))
    requires
        browse_state_wf(state),
        browse_event_ok(state, event),
        // machine limit: one more message must still be countable
        state matches BrowseState::Scanning { next, .. } ==> next < usize::MAX,
    ensures
        browse_state_wf(r.0) || r.0 is Done,
        match state {
            BrowseState::ChoosingMailbox { boxes } => {
                let sel = RangeUsize { lo: 1, hi: boxes@.len() as usize }.selection_of(
                    event->Line_line@,
                );
                match sel {
                    Some(k) => {
                        &&& r.0 matches BrowseState::Scanning { mailbox, next, subjects }
                            && mailbox@ == boxes@[k - 1]@ && next == 1 && subjects@.len() == 0
                        &&& r.1 is SelectAndFetch
                    },
                    None => r.0 matches BrowseState::ChoosingMailbox { boxes: b2 } && b2 == boxes
                        && r.1 is BadSelection,
                }
            },
            BrowseState::Scanning { mailbox, next, subjects } => {
                match event {
                    BrowseEvent::Fetched { text } => {
                        &&& r.0 matches BrowseState::Scanning {
                            mailbox: m2,
                            next: n2,
                            subjects: s2,
                        } && m2 == mailbox && n2 == next + 1 && s2.deep_view()
                            == subjects.deep_view().push(subject_display(text@))
                        &&& r.1 is FetchNext
                    },
                    BrowseEvent::FetchedNone => {
                        if next == 1 {
                            r.0 matches BrowseState::Done { outcome } && (outcome matches
                            BrowseOutcome::EmptyMailbox { mailbox: m2 } && m2 == mailbox) && r.1
                                is Stop
                        } else {
                            &&& r.0 matches BrowseState::ChoosingMessage {
                                mailbox: m2,
                                subjects: s2,
                            } && m2 == mailbox && s2 == subjects
                            &&& r.1 is AskMessage
                        }
                    },
                    BrowseEvent::Line { .. } => false,
                }
            },
            BrowseState::ChoosingMessage { mailbox, subjects } => {
                let sel = RangeUsize { lo: 1, hi: subjects@.len() as usize }.selection_of(
                    event->Line_line@,
                );
                match sel {
                    Some(k) => {
                        &&& r.0 matches BrowseState::FetchingChosen { mailbox: m2, chosen, count }
                            && m2 == mailbox && chosen == k && count == subjects@.len()
                        &&& r.1 is FetchNext
                    },
                    None => r.0 matches BrowseState::ChoosingMessage {
                        mailbox: m2,
                        subjects: s2,
                    } && m2 == mailbox && s2 == subjects && r.1 is BadSelection,
                }
            },
            BrowseState::FetchingChosen { .. } => {
                match event {
                    BrowseEvent::Fetched { text } => r.0 matches BrowseState::Done { outcome } && (
                    outcome matches BrowseOutcome::Body { text: t2 } && t2 == text) && r.1 is Stop,
                    BrowseEvent::FetchedNone => r.0 matches BrowseState::Done { outcome }
                        && outcome is MessageGone && r.1 is Stop,
                    BrowseEvent::Line { .. } => false,
                }
            },
            BrowseState::Done { .. } => false,
        },
{
    match state {
        BrowseState::ChoosingMailbox { boxes } => {
            match event {
                BrowseEvent::Line { line } => {
                    let range = RangeUsize::new(1, boxes.len());
                    match range.parse_selection(line.as_str()) {
                        Some(k) => {
                            let mailbox = boxes[k - 1].clone();
                            let subjects: Vec<String> = Vec::new();
                            (
                                BrowseState::Scanning { mailbox, next: 1, subjects },
                                BrowseCmd::SelectAndFetch,
                            )
                        },
                        None => (
                            BrowseState::ChoosingMailbox { boxes },
                            BrowseCmd::BadSelection,
                        ),
                    }
                },
                _ => (BrowseState::ChoosingMailbox { boxes }, BrowseCmd::Stop),
            }
        },
        BrowseState::Scanning { mailbox, next, subjects } => {
            match event {
                BrowseEvent::Fetched { text } => {
                    let subject = match extract_subject(text.as_str()) {
                        Some(s) => s,
                        None => String::new(),
                    };
                    let ghost before = subjects.deep_view();
                    let mut subjects = subjects;
                    subjects.push(subject);
                    proof {
                        assert(subjects.deep_view() =~= before.push(subject_display(text@)));
                    }
                    (
                        BrowseState::Scanning { mailbox, next: next + 1, subjects },
                        BrowseCmd::FetchNext,
                    )
                },
                BrowseEvent::FetchedNone => {
                    if next == 1 {
                        (
                            BrowseState::Done {
                                outcome: BrowseOutcome::EmptyMailbox { mailbox },
                            },
                            BrowseCmd::Stop,
                        )
                    } else {
                        (
                            BrowseState::ChoosingMessage { mailbox, subjects },
                            BrowseCmd::AskMessage,
                        )
                    }
                },
                BrowseEvent::Line { .. } => {
                    (BrowseState::Scanning { mailbox, next, subjects }, BrowseCmd::Stop)
                },
            }
        },
        BrowseState::ChoosingMessage { mailbox, subjects } => {
            match event {
                BrowseEvent::Line { line } => {
                    let range = RangeUsize::new(1, subjects.len());
                    match range.parse_selection(line.as_str()) {
                        Some(k) => {
                            let count = subjects.len();
                            (
                                BrowseState::FetchingChosen { mailbox, chosen: k, count },
                                BrowseCmd::FetchNext,
                            )
                        },
                        None => (
                            BrowseState::ChoosingMessage { mailbox, subjects },
                            BrowseCmd::BadSelection,
                        ),
                    }
                },
                _ => (BrowseState::ChoosingMessage { mailbox, subjects }, BrowseCmd::Stop),
            }
        },
        BrowseState::FetchingChosen { mailbox, chosen, count } => {
            match event {
                BrowseEvent::Fetched { text } => (
                    BrowseState::Done { outcome: BrowseOutcome::Body { text } },
                    BrowseCmd::Stop,
                ),
                BrowseEvent::FetchedNone => (
                    BrowseState::Done { outcome: BrowseOutcome::MessageGone },
                    BrowseCmd::Stop,
                ),
                BrowseEvent::Line { .. } => (
                    BrowseState::FetchingChosen { mailbox, chosen, count },
                    BrowseCmd::Stop,
                ),
            }
        },
        BrowseState::Done { outcome } => {
            (BrowseState::Done { outcome }, BrowseCmd::Stop)
        },
    }
}

} // verus!
