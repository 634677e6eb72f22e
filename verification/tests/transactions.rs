use echo_unity_archivist::browse::{
    extract_subject, filter_mailboxes, start_browse, browse_step, BrowseCmd, BrowseEvent,
    BrowseOutcome, BrowseState,
};
use echo_unity_archivist::compose::{compose_step, ComposeNote, ComposeOutcome, ComposeState};
use echo_unity_archivist::read::body_display_lines;
use echo_unity_archivist::user::{parse_email_line, User};

fn lines(v: &[&str]) -> Vec<String> {
    v.iter().map(|s| s.to_string()).collect()
}

fn test_user() -> User {
    let addr = parse_email_line("me@example.com").expect("valid address");
    User::build(addr, "secret".to_string())
}

/// Drives one compose transaction over a script; panics if lines run out.
fn run_compose(user: &User, script: &[&str]) -> ComposeOutcome {
    let mut state = ComposeState::AwaitingRecipient;
    for line in script {
        state = compose_step(user, state, line).0;
        if let ComposeState::Done { outcome } = state {
            return outcome;
        }
    }
    panic!("script exhausted before the transaction finished");
}

#[test]
fn compose_confirmed_yields_one_message() {
    let user = test_user();
    let outcome = run_compose(
        &user,
        &["friend@example.com", " Greetings ", "hello", "", "", "yes"],
    );
    match outcome {
        ComposeOutcome::Send { draft, message: _ } => {
            assert_eq!(draft.to.user, "friend");
            assert_eq!(draft.to.domain, "example.com");
            assert_eq!(draft.subject, "Greetings");
            assert_eq!(draft.body, "hello");
        }
        _ => panic!("confirmed transaction must end in a send"),
    }
}

#[test]
fn compose_canceled_sends_nothing() {
    let user = test_user();
    let outcome = run_compose(
        &user,
        &["friend@example.com", "subject", "body", "", "", "no"],
    );
    assert!(matches!(outcome, ComposeOutcome::Canceled));
}

#[test]
fn compose_reprompts_on_bad_address_and_confirmation() {
    let user = test_user();
    let mut state = ComposeState::AwaitingRecipient;
    let (next, note) = compose_step(&user, state, "not-an-address");
    assert!(matches!(note, ComposeNote::BadAddress));
    state = next;
    for line in ["friend@example.com", "s", "b", "", ""] {
        let (next, _) = compose_step(&user, state, line);
        state = next;
    }
    let (next, note) = compose_step(&user, state, "dunno");
    assert!(matches!(note, ComposeNote::BadConfirmation));
    let (done, _) = compose_step(&user, next, "YES");
    assert!(matches!(
        done,
        ComposeState::Done { outcome: ComposeOutcome::Send { .. } }
    ));
}

#[test]
fn compose_keeps_single_blank_line_in_body() {
    let user = test_user();
    let outcome = run_compose(
        &user,
        &["friend@example.com", "s", "a", "", "b", "", "", "yes"],
    );
    match outcome {
        ComposeOutcome::Send { draft, .. } => assert_eq!(draft.body, "a\n\nb"),
        _ => panic!("confirmed transaction must end in a send"),
    }
}

#[test]
fn mailbox_filter_drops_encoded_names() {
    let names = lines(&["INBOX", "Sent", "Drafts&Encoded"]);
    let kept = filter_mailboxes(&names);
    assert_eq!(kept, vec!["INBOX", "Sent"]);
    assert_eq!(kept.len(), 2);
}

#[test]
fn subject_extraction_takes_first_marker_line() {
    assert_eq!(extract_subject("From: x\nSubject: Hi\nbody"), Some("Hi".to_string()));
    assert_eq!(extract_subject("Subject: Re: Hi\r\nmore"), Some("Re: Hi".to_string()));
    assert_eq!(extract_subject("no headers here"), None);
    assert_eq!(extract_subject("Subject:"), Some("".to_string()));
}

#[test]
fn browse_with_no_displayable_mailbox_stops_before_prompting() {
    let names = lines(&["A&B", "C&D"]);
    let (state, cmd) = start_browse(&names);
    assert!(matches!(
        state,
        BrowseState::Done { outcome: BrowseOutcome::NothingToSelect }
    ));
    assert!(matches!(cmd, BrowseCmd::Stop));
}

#[test]
fn browse_empty_mailbox_reports_and_stops() {
    let names = lines(&["INBOX"]);
    let (state, cmd) = start_browse(&names);
    assert!(matches!(cmd, BrowseCmd::AskMailbox));
    let (state, cmd) = browse_step(state, BrowseEvent::Line { line: "1".to_string() });
    assert!(matches!(cmd, BrowseCmd::SelectAndFetch));
    // the very first fetch returns nothing: no further fetch, no prompt
    let (state, cmd) = browse_step(state, BrowseEvent::FetchedNone);
    match state {
        BrowseState::Done { outcome: BrowseOutcome::EmptyMailbox { mailbox } } => {
            assert_eq!(mailbox, "INBOX");
        }
        _ => panic!("empty mailbox must end the transaction"),
    }
    assert!(matches!(cmd, BrowseCmd::Stop));
}

#[test]
fn browse_rejects_out_of_range_mailbox_selection() {
    let names = lines(&["INBOX", "Sent"]);
    let (state, _) = start_browse(&names);
    let (state, cmd) = browse_step(state, BrowseEvent::Line { line: "3".to_string() });
    assert!(matches!(cmd, BrowseCmd::BadSelection));
    assert!(matches!(state, BrowseState::ChoosingMailbox { .. }));
}

#[test]
fn browse_end_to_end_returns_chosen_message() {
    let first = "From: a@example.com\nSubject: Hi\n\nhello";
    let second = "From: b@example.com\nSubject: Re: Hi\nContent-Type: text/plain\nTo: me\n\nsecond body";
    let names = lines(&["INBOX", "Sent", "Drafts&Encoded"]);

    let (state, _) = start_browse(&names);
    let (state, cmd) = browse_step(state, BrowseEvent::Line { line: "1".to_string() });
    assert!(matches!(cmd, BrowseCmd::SelectAndFetch));
    let (state, cmd) = browse_step(state, BrowseEvent::Fetched { text: first.to_string() });
    assert!(matches!(cmd, BrowseCmd::FetchNext));
    let (state, cmd) = browse_step(state, BrowseEvent::Fetched { text: second.to_string() });
    assert!(matches!(cmd, BrowseCmd::FetchNext));
    let (state, cmd) = browse_step(state, BrowseEvent::FetchedNone);
    assert!(matches!(cmd, BrowseCmd::AskMessage));
    match &state {
        BrowseState::ChoosingMessage { subjects, .. } => {
            assert_eq!(subjects, &vec!["Hi", "Re: Hi"]);
        }
        _ => panic!("scan must end in a message selection"),
    }
    let (state, cmd) = browse_step(state, BrowseEvent::Line { line: "2".to_string() });
    assert!(matches!(cmd, BrowseCmd::FetchNext));
    assert!(matches!(state, BrowseState::FetchingChosen { chosen: 2, .. }));
    let (state, cmd) = browse_step(state, BrowseEvent::Fetched { text: second.to_string() });
    assert!(matches!(cmd, BrowseCmd::Stop));
    let text = match state {
        BrowseState::Done { outcome: BrowseOutcome::Body { text } } => text,
        _ => panic!("a fetched message must end the transaction with its body"),
    };
    assert_eq!(text, second);

    // the presentation step: output starts at the sender header and hides
    // content-type and recipient headers
    let shown = body_display_lines(&text);
    assert_eq!(shown, vec!["From: b@example.com", "Subject: Re: Hi", "", "second body"]);
}

#[test]
fn browse_vanished_message_is_reported_not_fetched_again() {
    let names = lines(&["INBOX"]);
    let (state, _) = start_browse(&names);
    let (state, _) = browse_step(state, BrowseEvent::Line { line: "1".to_string() });
    let (state, _) = browse_step(state, BrowseEvent::Fetched { text: "Subject: Hi".to_string() });
    let (state, _) = browse_step(state, BrowseEvent::FetchedNone);
    let (state, _) = browse_step(state, BrowseEvent::Line { line: "1".to_string() });
    // the chosen message is gone on re-fetch
    let (state, cmd) = browse_step(state, BrowseEvent::FetchedNone);
    assert!(matches!(
        state,
        BrowseState::Done { outcome: BrowseOutcome::MessageGone }
    ));
    assert!(matches!(cmd, BrowseCmd::Stop));
}

#[test]
fn body_display_skips_preamble_and_hidden_headers() {
    let raw = "Received: relay\nTo: me@example.com\nFrom: you@example.com\nContent-Type: x\nbody line";
    assert_eq!(body_display_lines(raw), vec!["From: you@example.com", "body line"]);
    assert_eq!(body_display_lines("no sender marker"), Vec::<String>::new());
}
