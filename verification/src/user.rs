//! The operator's credentials and the login retry state machine.
//!
//! A `User` is rebuilt wholesale from fresh console input on every failed
//! connection attempt, so a mistyped address or password can be corrected;
//! its two server hostnames are always derived from the address domain.

use vstd::prelude::*;

use crate::text::{contains_char, trim, trim_spec};

verus! {

/// An email address as the session logic reads it: the local part and the
/// domain of the canonical form `user@domain`.
pub struct EmailAddr {
    pub user: String,
    pub domain: String,
}

/// Whether the mail library's address parser accepts `s`.  Its exact extent
/// is the parser's RFC address grammar, which only the parser itself
/// decides.
pub uninterp spec fn addr_ok(s: Seq<char>) -> bool;

/// Relies on `lettre::Address::from_str` and the accessors
/// `lettre::Address::user` and `lettre::Address::domain`: parsing succeeds
/// exactly on the addresses the library's grammar admits, and then splits
/// the input at its last `@` into a non-empty local part and a non-empty
/// domain free of `@`.
#[verifier::external_body]
fn parse_address(s: &str) -> (r: Option<EmailAddr>)
    ensures
        (r is Some) == addr_ok(s@),
        match r {
            Some(a) => {
                &&& a.user@ + "@"@ + a.domain@ == s@
                &&& a.user@.len() > 0
                &&& a.domain@.len() > 0
                &&& !contains_char(a.domain@, '@')
            },
            None => true,
        },
{
    match s.parse::<lettre::Address>() {
        Ok(a) => {
            let user = a.user().to_string();
            let domain = a.domain().to_string();
            Some(EmailAddr { user, domain })
        },
        Err(_) => None,
    }
}

/// Reads one raw console line as an email address: the line is cleaned and
/// accepted exactly when the address grammar admits it.
pub fn parse_email_line(line: &str) -> (r: Option<EmailAddr>)
    ensures
        (r is Some) == addr_ok(trim_spec(line@)),
        match r {
            Some(a) => {
                &&& a.user@ + "@"@ + a.domain@ == trim_spec(line@)
                &&& a.user@.len() > 0
                &&& a.domain@.len() > 0
                &&& !contains_char(a.domain@, '@')
            },
            None => true,
        },
{
    let cleaned = trim(line);
    parse_address(cleaned.as_str())
}

/// Reads the first line of `script` that denotes a well-formed address,
/// re-prompting past every line that does not; returns the consumed line
/// count beside the address.
pub fn read_email(script: &Vec<String>) -> (r: Option<(usize, EmailAddr)>)
    ensures
        match r {
            Some(ia) => {
                &&& ia.0 < script@.len()
                &&& addr_ok(trim_spec(script@[ia.0 as int]@))
                &&& ia.1.user@ + "@"@ + ia.1.domain@ == trim_spec(script@[ia.0 as int]@)
                &&& forall|j: int| 0 <= j < ia.0 ==> !addr_ok(trim_spec(script@[j]@))
            },
            None => forall|j: int| 0 <= j < script@.len() ==> !addr_ok(trim_spec(script@[j]@)),
        },
{
    let len = script.len();
    let mut i: usize = 0;
    while i < len
        invariant
            0 <= i <= len,
            len == script@.len(),
            forall|j: int| 0 <= j < i ==> !addr_ok(trim_spec(script@[j]@)),
        decreases len - i,
    {
        match parse_email_line(script[i].as_str()) {
            Some(a) => {
                return Some((i, a));
            },
            None => {
                i = i + 1;
            },
        }
    }
    None
}

/// An opaque secret: held verbatim, never displayed, handed out only to the
/// connection edge that authenticates with it.
pub struct Secret {
    value: String,
}

impl Secret {
    /// What the secret holds.
    pub closed spec fn spec_value(&self) -> Seq<char> {
        self.value@
    }

    pub fn new(value: String) -> (r: Secret)
        ensures
            r.spec_value() == value@,
    {
        Secret { value }
    }

    /// The verbatim secret, for authenticating.
    pub fn get(&self) -> (r: &String)
        ensures
            r@ == self.spec_value(),
    {
        &self.value
    }
}

/// Represents a user: the operator's address, the secret the servers
/// authenticate, and the two server hostnames derived from the address
/// domain.
pub struct User {
    pub smtp_domain: String,
    pub imap_domain: String,
    pub email_addr: EmailAddr,
    pub password: Secret,
}

impl User {
    /// The hostnames are consistent with the address: fixed prefixes on its
    /// domain.
    pub open spec fn wf(self) -> bool {
        &&& self.smtp_domain@ == "smtp."@ + self.email_addr.domain@
        &&& self.imap_domain@ == "imap."@ + self.email_addr.domain@
    }

    /// Constructs a new `User` from one validated address and one verbatim
    /// password, deriving both server hostnames.
    pub fn build(email_addr: EmailAddr, password: String) -> (u: User)
        ensures
            u.wf(),
            u.email_addr == email_addr,
            u.password.spec_value() == password@,
    {
        let mut smtp_domain = String::from_str("smtp.");
        smtp_domain.append(email_addr.domain.as_str());
        let mut imap_domain = String::from_str("imap.");
        imap_domain.append(email_addr.domain.as_str());
        User { smtp_domain, imap_domain, email_addr, password: Secret::new(password) }
    }
}

/// The stages of the login state machine: connecting the message-submission
/// role, then the message-retrieval role, then done.
pub enum LoginStage {
    ConnectingSubmission,
    ConnectingRetrieval,
    Authenticated,
}

/// The stage after one connection attempt: success advances, failure stays
/// for a retry.
pub open spec fn login_next(stage: LoginStage, success: bool) -> LoginStage {
    if !success {
        stage
    } else {
        match stage {
            LoginStage::ConnectingSubmission => LoginStage::ConnectingRetrieval,
            LoginStage::ConnectingRetrieval => LoginStage::Authenticated,
            LoginStage::Authenticated => LoginStage::Authenticated,
        }
    }
}

/// Whether the attempt's outcome demands rebuilding the credentials: every
/// failure does, before the same stage is retried.
pub open spec fn login_rebuild(stage: LoginStage, success: bool) -> bool {
    !(stage is Authenticated) && !success
}

/// One transition of the login state machine.  `success` reports whether
/// the connection attempt at the current stage succeeded; the result is the
/// next stage and whether the credentials must be rebuilt from fresh
/// console input before the next attempt.
pub fn login_step(stage: LoginStage, success: bool) -> (r: (LoginStage, bool))
    ensures
        r.0 == login_next(stage, success),
        r.1 == login_rebuild(stage, success),
{
    match stage {
        LoginStage::ConnectingSubmission => if success {
            (LoginStage::ConnectingRetrieval, false)
        } else {
            (LoginStage::ConnectingSubmission, true)
        },
        LoginStage::ConnectingRetrieval => if success {
            (LoginStage::Authenticated, false)
        } else {
            (LoginStage::ConnectingRetrieval, true)
        },
        LoginStage::Authenticated => (LoginStage::Authenticated, false),
    }
}

/// What the login machine does on a script of attempt outcomes: the stage
/// it stops in, how many outcomes it consumes, and how many rebuilds it
/// demands.  It stops once authenticated, or when the outcomes run out.
pub open spec fn login_scan(stage: LoginStage, outcomes: Seq<bool>) -> (LoginStage, int, int)
    decreases outcomes.len(),
{
    if stage is Authenticated || outcomes.len() == 0 {
        (stage, 0, 0)
    } else {
        let rest = login_scan(login_next(stage, outcomes[0]), outcomes.drop_first());
        (
            rest.0,
            rest.1 + 1,
            rest.2 + if outcomes[0] {
                0int
            } else {
                1int
            },
        )
    }
}

/// Runs the login state machine from the unauthenticated start over a
/// script of attempt outcomes; returns the final stage, the attempts
/// consumed, and the rebuilds demanded.
pub fn login_replay(outcomes: &Vec<bool>) -> (r: (LoginStage, usize, usize))
    ensures
        ({
            let sc = login_scan(LoginStage::ConnectingSubmission, outcomes@);
            r.0 == sc.0 && r.1 as int == sc.1 && r.2 as int == sc.2
        }),
{
    let len = outcomes.len();
    let mut stage = LoginStage::ConnectingSubmission;
    let mut i: usize = 0;
    let mut rebuilds: usize = 0;
    proof {
        assert(outcomes@.skip(0) =~= outcomes@);
    }
    while i < len && !(matches!(stage, LoginStage::Authenticated))
        invariant
            0 <= i <= len,
            rebuilds <= i,
            len == outcomes@.len(),
            ({
                let whole = login_scan(LoginStage::ConnectingSubmission, outcomes@);
                let rest = login_scan(stage, outcomes@.skip(i as int));
                whole.0 == rest.0 && whole.1 == rest.1 + i && whole.2 == rest.2 + rebuilds
            }),
        decreases len - i,
    {
        let ghost pre = outcomes@.skip(i as int);
        proof {
            assert(pre[0] == outcomes@[i as int]);
            assert(pre.drop_first() =~= outcomes@.skip(i + 1));
        }
        let success = outcomes[i];
        let (next, rebuild) = login_step(stage, success);
        stage = next;
        if rebuild {
            rebuilds = rebuilds + 1;
        }
        i = i + 1;
    }
    proof {
        if i == len && !(stage is Authenticated) {
            assert(outcomes@.skip(len as int) =~= Seq::<bool>::empty());
        }
    }
    (stage, i, rebuilds)
}

/// What the authenticated session's action menu offers.
pub enum UserAction {
    /// Begin logout and tear the session down.
    Quit,
    /// Run one compose-and-send transaction.
    Compose,
    /// Run one browse-and-fetch transaction.
    Fetch,
}

/// The action a validated menu selection denotes.
pub fn select_action(n: usize) -> (r: UserAction)
    requires
        n <= 2,
    ensures
        (n == 0) == (r is Quit),
        (n == 1) == (r is Compose),
        (n == 2) == (r is Fetch),
{
    if n == 0 {
        UserAction::Quit
    } else if n == 1 {
        UserAction::Compose
    } else {
        UserAction::Fetch
    }
}

} // verus!
