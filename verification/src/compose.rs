//! The compose-and-send transaction: collecting a draft line by line and
//! gating transmission behind an explicit reconfirmation.
//!
//! The transaction is a state machine over console lines.  The surrounding
//! application feeds it one line at a time and performs what the outcome
//! asks: nothing on cancellation, exactly one transmission on confirmation.

use vstd::prelude::*;

use crate::read::BodyBuilder;
use crate::text::{contains_char, trim_back_spec, trim_spec};
use crate::types::confirm_of_line;
use crate::user::{addr_ok, parse_email_line, EmailAddr, User};

verus! {

/// An in-memory, unsent composed message: recipient, subject and body.  It
/// exists only for the duration of one compose-and-send transaction and is
/// never persisted.
pub struct Draft {
    pub to: EmailAddr,
    pub subject: String,
    pub body: String,
}

/// An address in the canonical shape the address parser hands out: local
/// part and domain both present, the domain free of `@`, and the serialized
/// form admitted by the address grammar.
pub open spec fn parsed_addr(a: EmailAddr) -> bool {
    &&& addr_ok(a.user@ + "@"@ + a.domain@)
    &&& a.user@.len() > 0
    &&& a.domain@.len() > 0
    &&& !contains_char(a.domain@, '@')
}

#[verifier::external_type_specification]
#[verifier::external_body]
/// A finished message of the mail library, opaque here; it is only carried
/// through to the transmission edge.
pub struct ExMessage(lettre::Message);

/// Relies on `lettre::Message::builder` with `lettre::Address::new`: the
/// builder assembles a plain-text message from one originator, one
/// recipient, a subject and a body, and succeeds whenever both addresses
/// pass the library's address checks; an address in the shape the parser
/// hands out passes them.  The message value itself is opaque here (it
/// carries a current-date header).
#[verifier::external_body]
fn build_message(from: &EmailAddr, to: &EmailAddr, subject: &String, body: &String) -> (r:
    Option<lettre::Message>)
    ensures
        parsed_addr(*from) && parsed_addr(*to) ==> r is Some,
{
    let from_addr = lettre::Address::new(from.user.as_str(), from.domain.as_str()).ok()?;
    let to_addr = lettre::Address::new(to.user.as_str(), to.domain.as_str()).ok()?;
    lettre::Message::builder()
        .from(lettre::message::Mailbox::new(None, from_addr))
        .to(lettre::message::Mailbox::new(None, to_addr))
        .subject(subject.clone())
        .header(lettre::message::header::ContentType::TEXT_PLAIN)
        .body(body.clone())
        .ok()
}

/// How one compose-and-send transaction ended.
pub enum ComposeOutcome {
    /// The operator canceled at the reconfirmation gate; nothing was or will
    /// be transmitted.
    Canceled,
    /// The operator confirmed: the one message to transmit, with the draft
    /// it was built from.
    Send { draft: Draft, message: lettre::Message },
    /// The operator confirmed but the mail library rejected the draft's
    /// addresses; nothing can be transmitted.
    Rejected { draft: Draft },
}

/// Where one compose-and-send transaction stands.
pub enum ComposeState {
    /// Reading the recipient address, re-prompting until it is well-formed.
    AwaitingRecipient,
    /// Reading the free-text subject line.
    AwaitingSubject { to: EmailAddr },
    /// Accumulating body lines until two in a row are empty.
    AwaitingBody { to: EmailAddr, subject: String, body: BodyBuilder },
    /// Reading the reconfirmation decision, re-prompting until it is a
    /// legal token.
    AwaitingConfirmation { draft: Draft },
    /// The transaction is over.
    Done { outcome: ComposeOutcome },
}

/// What the application should do after a step.
pub enum ComposeNote {
    /// Proceed: prompt for the next input the state awaits.
    Ask,
    /// The line was not a well-formed address: report and re-prompt.
    BadAddress,
    /// The line was neither confirmation token: report the legal values and
    /// re-prompt.
    BadConfirmation,
    /// The body just completed: announce that editing is finished.
    BodyDone,
}

/// States a step can still be fed a line in.
pub open spec fn compose_state_wf(s: ComposeState) -> bool {
    match s {
        ComposeState::AwaitingBody { body, .. } => !body.done(),
        ComposeState::Done { .. } => false,
        _ => true,
    }
}

/// One step of the compose-and-send transaction, on one console line.
///
/// The contract pins every transition; in particular the reconfirmation
/// gate: from the confirmation state, the cancel token ends the transaction
/// as `Canceled`, and only the confirm token can end it with a message to
/// send.
pub fn compose_step(user: &User, state: ComposeState, line: &str) -> (r: (
    ComposeState,
    ComposeNote,
))
    requires
        compose_state_wf(state),
    ensures
        compose_state_wf(r.0) || r.0 is Done,
        match state {
            ComposeState::AwaitingRecipient => {
                if addr_ok(trim_spec(line@)) {
                    &&& r.0 matches ComposeState::AwaitingSubject { to }
                        && to.user@ + "@"@ + to.domain@ == trim_spec(line@) && parsed_addr(to)
                    &&& r.1 is Ask
                } else {
                    r.0 is AwaitingRecipient && r.1 is BadAddress
                }
            },
            ComposeState::AwaitingSubject { to } => {
                &&& r.0 matches ComposeState::AwaitingBody { to: t, subject, body }
                    && t == to && subject@ == trim_spec(line@) && body.text@
                    == Seq::<char>::empty() && body.empties == 0
                &&& r.1 is Ask
            },
            ComposeState::AwaitingBody { to, subject, body } => {
                let t = trim_spec(line@);
                let grown = body.text@ + t + "\n"@;
                if t.len() == 0 && body.empties + 1 >= 2 {
                    &&& r.0 matches ComposeState::AwaitingConfirmation { draft }
                        && draft.to == to && draft.subject == subject && draft.body@
                        == trim_back_spec(grown)
                    &&& r.1 is BodyDone
                } else {
                    &&& r.0 matches ComposeState::AwaitingBody { to: t2, subject: s2, body: b2 }
                        && t2 == to && s2 == subject && b2.text@ == grown && b2.empties == (
                    if t.len() == 0 {
                        body.empties + 1
                    } else {
                        0int
                    })
                    &&& r.1 is Ask
                }
            },
            ComposeState::AwaitingConfirmation { draft } => {
                match confirm_of_line(line@) {
                    Some(true) => {
                        &&& (r.0 matches ComposeState::Done { outcome } && match outcome {
                            ComposeOutcome::Send { draft: d, .. } => d == draft,
                            ComposeOutcome::Rejected { draft: d } => d == draft,
                            ComposeOutcome::Canceled => false,
                        })
                        &&& (parsed_addr(user.email_addr) && parsed_addr(draft.to) ==> (
                        r.0 matches ComposeState::Done { outcome } && outcome is Send))
                        &&& r.1 is Ask
                    },
                    Some(false) => {
                        &&& r.0 matches ComposeState::Done { outcome } && outcome is Canceled
                        &&& r.1 is Ask
                    },
                    None => r.0 matches ComposeState::AwaitingConfirmation { draft: d } && d
                        == draft && r.1 is BadConfirmation,
                }
            },
            ComposeState::Done { .. } => false,
        },
{
    match state {
        ComposeState::AwaitingRecipient => {
            match parse_email_line(line) {
                Some(to) => (ComposeState::AwaitingSubject { to }, ComposeNote::Ask),
                None => (ComposeState::AwaitingRecipient, ComposeNote::BadAddress),
            }
        },
        ComposeState::AwaitingSubject { to } => {
            let subject = crate::text::trim(line);
            (
                ComposeState::AwaitingBody { to, subject, body: BodyBuilder::new() },
                ComposeNote::Ask,
            )
        },
        ComposeState::AwaitingBody { to, subject, mut body } => {
            body.push_line(line);
            if body.is_done() {
                let stored = body.finish();
                (
                    ComposeState::AwaitingConfirmation {
                        draft: Draft { to, subject, body: stored },
                    },
                    ComposeNote::BodyDone,
                )
            } else {
                (ComposeState::AwaitingBody { to, subject, body }, ComposeNote::Ask)
            }
        },
        ComposeState::AwaitingConfirmation { draft } => {
            match crate::types::Confirmation::parse_confirmation(line) {
                Some(true) => {
                    match build_message(&user.email_addr, &draft.to, &draft.subject, &draft.body) {
                        Some(message) => (
                            ComposeState::Done {
                                outcome: ComposeOutcome::Send { draft, message },
                            },
                            ComposeNote::Ask,
                        ),
                        None => (
                            ComposeState::Done { outcome: ComposeOutcome::Rejected { draft } },
                            ComposeNote::Ask,
                        ),
                    }
                },
                Some(false) => (
                    ComposeState::Done { outcome: ComposeOutcome::Canceled },
                    ComposeNote::Ask,
                ),
                None => (
                    ComposeState::AwaitingConfirmation { draft },
                    ComposeNote::BadConfirmation,
                ),
            }
        },
        ComposeState::Done { outcome } => {
            (ComposeState::Done { outcome }, ComposeNote::Ask)
        },
    }
}

} // verus!
