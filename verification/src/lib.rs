//! An interactive command-line mail user agent: the session controller.
//!
//! The crate verifies the logic of the agent: validated console input,
//! credential and hostname derivation, the login retry state machine, the
//! compose-and-send transaction with its reconfirmation gate, and the
//! mailbox browse-and-fetch sequence.  Console and network I/O live in the
//! surrounding application, which feeds this library plain values.

pub mod browse;
pub mod compose;
pub mod prompts;
pub mod read;
pub mod text;
pub mod types;
pub mod user;

pub use browse::{BrowseCmd, BrowseEvent, BrowseOutcome, BrowseState};
pub use compose::{ComposeNote, ComposeOutcome, ComposeState, Draft};
pub use prompts::{get_prompts, Lang, Prompts};
pub use read::{body_display_lines, read_body, read_reconfirmation, read_selection};
pub use text::trim;
pub use types::{Confirmation, EnumValues, RangeUsize};
pub use user::{read_email, EmailAddr, LoginStage, User};
