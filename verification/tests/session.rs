use echo_unity_archivist::user::{
    login_replay, login_step, parse_email_line, read_email, select_action, LoginStage, User,
    UserAction,
};
use echo_unity_archivist::prompts::{get_prompts, lang_of_selection, Lang};

fn lines(v: &[&str]) -> Vec<String> {
    v.iter().map(|s| s.to_string()).collect()
}

#[test]
fn email_parse_accepts_canonical_address() {
    let addr = parse_email_line("user@example.com").expect("valid address");
    assert_eq!(addr.user, "user");
    assert_eq!(addr.domain, "example.com");
}

#[test]
fn email_parse_rejects_malformed_addresses() {
    assert!(parse_email_line("no-at-sign").is_none());
    assert!(parse_email_line("@nodomainuser").is_none());
    assert!(parse_email_line("user@").is_none());
    assert!(parse_email_line("").is_none());
}

#[test]
fn email_reader_reprompts_until_valid() {
    let script = lines(&["oops", "still bad", "user@example.com"]);
    let (consumed, addr) = read_email(&script).expect("a valid line exists");
    assert_eq!(consumed, 2);
    assert_eq!(addr.user, "user");
    assert_eq!(addr.domain, "example.com");
    assert!(read_email(&lines(&["oops"])).is_none());
}

#[test]
fn build_derives_both_hostnames() {
    let addr = parse_email_line(" user@example.com ").expect("valid address");
    let user = User::build(addr, "secret".to_string());
    assert_eq!(user.smtp_domain, "smtp.example.com");
    assert_eq!(user.imap_domain, "imap.example.com");
    assert_eq!(user.email_addr.user, "user");
    assert_eq!(user.password.get().as_str(), "secret");
}

#[test]
fn login_advances_only_on_success() {
    let (next, rebuild) = login_step(LoginStage::ConnectingSubmission, true);
    assert!(matches!(next, LoginStage::ConnectingRetrieval) && !rebuild);
    let (next, rebuild) = login_step(LoginStage::ConnectingSubmission, false);
    assert!(matches!(next, LoginStage::ConnectingSubmission) && rebuild);
    let (next, rebuild) = login_step(LoginStage::ConnectingRetrieval, true);
    assert!(matches!(next, LoginStage::Authenticated) && !rebuild);
    let (next, rebuild) = login_step(LoginStage::ConnectingRetrieval, false);
    assert!(matches!(next, LoginStage::ConnectingRetrieval) && rebuild);
}

#[test]
fn login_retry_rebuilds_credentials_once() {
    // first attempt fails, the rebuilt credentials then pass both stages
    let outcomes = vec![false, true, true];
    let (stage, consumed, rebuilds) = login_replay(&outcomes);
    assert!(matches!(stage, LoginStage::Authenticated));
    assert_eq!(consumed, 3);
    assert_eq!(rebuilds, 1);
}

#[test]
fn login_stops_at_authentication() {
    let outcomes = vec![true, true, false, false];
    let (stage, consumed, rebuilds) = login_replay(&outcomes);
    assert!(matches!(stage, LoginStage::Authenticated));
    assert_eq!(consumed, 2);
    assert_eq!(rebuilds, 0);
}

#[test]
fn login_without_success_never_authenticates() {
    let outcomes = vec![false, false, false];
    let (stage, consumed, rebuilds) = login_replay(&outcomes);
    assert!(matches!(stage, LoginStage::ConnectingSubmission));
    assert_eq!(consumed, 3);
    assert_eq!(rebuilds, 3);
}

#[test]
fn login_with_no_outcomes_stays_at_the_start() {
    let (stage, consumed, rebuilds) = login_replay(&Vec::new());
    assert!(matches!(stage, LoginStage::ConnectingSubmission));
    assert_eq!(consumed, 0);
    assert_eq!(rebuilds, 0);
}

#[test]
fn action_menu_dispatch() {
    assert!(matches!(select_action(0), UserAction::Quit));
    assert!(matches!(select_action(1), UserAction::Compose));
    assert!(matches!(select_action(2), UserAction::Fetch));
}

#[test]
fn prompt_tables_follow_language() {
    let en = get_prompts(&Lang::EN);
    assert_eq!(en.action_literal, "action");
    assert_eq!(en.fetch_mailbox_literal, "inbox");
    let zh = get_prompts(&Lang::ZH);
    assert_ne!(zh.action_literal, en.action_literal);
    assert!(matches!(lang_of_selection(1), Lang::ZH));
    assert!(matches!(lang_of_selection(2), Lang::EN));
}
