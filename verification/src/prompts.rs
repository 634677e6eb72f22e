//! The prompt catalogs.  The session logic references prompts only through
//! this table; which language variant is active never changes what is asked,
//! only how it is worded.

use vstd::prelude::*;

verus! {

/// Represents a natural language for the command-line interface.
pub enum Lang {
    EN,
    ZH,
}

/// Represents all prompts for getting user input.
pub struct Prompts {
    pub invalid_literal: &'static str,
    pub should_be_one_of_below_literal: &'static str,
    pub horizontal_start: &'static str,
    pub horizontal_end: &'static str,
    pub email_addr_invalid: &'static str,
    pub eua_welcome: &'static str,
    pub eua_logging_out: &'static str,
    pub eua_logout_succeed: &'static str,
    pub eua_logout_fail: &'static str,
    pub eua_exit: &'static str,
    pub login: &'static str,
    pub login_email_addr: &'static str,
    pub login_password: &'static str,
    pub login_connecting: &'static str,
    pub login_connect_succeed: &'static str,
    pub login_connect_fail: &'static str,
    pub login_succeed: &'static str,
    pub login_retry: &'static str,
    pub action_literal: &'static str,
    pub action_list: &'static str,
    pub action_selection: &'static str,
    pub compose_new_message: &'static str,
    pub compose_to: &'static str,
    pub compose_subject: &'static str,
    pub compose_content: &'static str,
    pub compose_editing_finish: &'static str,
    pub send_confirm_literal: &'static str,
    pub send_reconfirm_list: &'static str,
    pub send_reconfirm_selection: &'static str,
    pub send_sending: &'static str,
    pub send_succeed: &'static str,
    pub send_cancel: &'static str,
    pub send_fail: &'static str,
    pub fetch_mailbox_literal: &'static str,
    pub fetch_mailbox: &'static str,
    pub fetch_mailbox_selection: &'static str,
    pub fetch_mailbox_empty: &'static str,
    pub fetch_message_literal: &'static str,
    pub fetch_message_list: &'static str,
    pub fetch_message_selection: &'static str,
    pub fetch_message_fail: &'static str,
}

impl Prompts {
    /// Whether this is the English table, field for field.
    pub open spec fn is_english(self) -> bool {
        &&& self.invalid_literal@ == "! Invalid "@
        &&& self.should_be_one_of_below_literal@ == "should be one of below"@
        &&& self.horizontal_start@ == "  ----------------message starts----------------"@
        &&& self.horizontal_end@ == "  -----------------message ends-----------------"@
        &&& self.email_addr_invalid@ == "! Invalid email: please check and try again."@
        &&& self.eua_welcome@ == "> Echo Unity Archivist 0.8.5 - your \u{1f4e7} user agent."@
        &&& self.eua_logging_out@ == "> Logging out from "@
        &&& self.eua_logout_succeed@ == "\u{2713} Logged out."@
        &&& self.eua_logout_fail@ == "! Failed to logout: "@
        &&& self.eua_exit@ == "> Press `Enter` to exit..."@
        &&& self.login@ == "> Login is required before interacting with the SMTP/IMAP server."@
        &&& self.login_email_addr@ == "  Email address: "@
        &&& self.login_password@ == "  SMTP/IMAP password (not email password): "@
        &&& self.login_connecting@ == "> Connecting to "@
        &&& self.login_connect_succeed@ == "\u{2713} Connected to "@
        &&& self.login_connect_fail@ == "! Failed to connect "@
        &&& self.login_succeed@ == "> Welcome back, "@
        &&& self.login_retry@ == "> Retry login."@
        &&& self.action_literal@ == "action"@
        &&& self.action_list@ == "> Actions:\n  [0] Logout & quit\n  [1] Compose\n  [2] Fetch message"@
        &&& self.action_selection@ == "  Select an action: "@
        &&& self.compose_new_message@ == "> New message:"@
        &&& self.compose_to@ == "  To: "@
        &&& self.compose_subject@ == "  Subject: "@
        &&& self.compose_content@ == "  Content (enter 2 empty lines in a row to finish editing):"@
        &&& self.compose_editing_finish@ == "> You have finished editing."@
        &&& self.send_confirm_literal@ == "confirmation"@
        &&& self.send_reconfirm_list@ == "> Reconfirmation:\n  [yes] confirm sending\n  [no]  cancel"@
        &&& self.send_reconfirm_selection@ == "  Confirm: "@
        &&& self.send_sending@ == "> Sending..."@
        &&& self.send_succeed@ == "\u{2713} Your email has been sent to "@
        &&& self.send_cancel@ == "> Sending canceled."@
        &&& self.send_fail@ == "! Failed to send message: "@
        &&& self.fetch_mailbox_literal@ == "inbox"@
        &&& self.fetch_mailbox@ == "> Fetching mailboxes..."@
        &&& self.fetch_mailbox_selection@ == "  Select a mailbox: "@
        &&& self.fetch_mailbox_empty@ == " has no messages."@
        &&& self.fetch_message_literal@ == "message"@
        &&& self.fetch_message_list@ == "\u{2713} Fetched message:"@
        &&& self.fetch_message_selection@ == "  Select a message: "@
        &&& self.fetch_message_fail@ == "! Failed to read message: "@
    }

    /// Whether this is the Chinese table, field for field.
    pub open spec fn is_chinese(self) -> bool {
        &&& self.invalid_literal@ == "! \u{65e0}\u{6548} "@
        &&& self.should_be_one_of_below_literal@ == "\u{5e94}\u{4e3a}\u{4e0b}\u{5217}\u{503c}\u{4e4b}\u{4e00}"@
        &&& self.horizontal_start@ == "  ----------------\u{90ae}\u{4ef6}\u{5f00}\u{59cb}----------------"@
        &&& self.horizontal_end@ == "  ----------------\u{90ae}\u{4ef6}\u{7ed3}\u{675f}----------------"@
        &&& self.email_addr_invalid@ == "! \u{65e0}\u{6548}\u{90ae}\u{7bb1}\u{5730}\u{5740}: \u{8bf7}\u{68c0}\u{67e5}\u{5e76}\u{91cd}\u{65b0}\u{8f93}\u{5165}."@
        &&& self.eua_welcome@ == "> \u{8c10}\u{58f0}\u{6536}\u{85cf}\u{5bb6} 0.8.5 - \u{4f60}\u{7684} \u{1f4e7} \u{7528}\u{6237}\u{4ee3}\u{7406}."@
        &&& self.eua_logging_out@ == "> \u{6b63}\u{5728}\u{767b}\u{51fa} "@
        &&& self.eua_logout_succeed@ == "\u{2713} \u{5df2}\u{767b}\u{51fa}."@
        &&& self.eua_logout_fail@ == "! \u{767b}\u{51fa}\u{5931}\u{8d25}: "@
        &&& self.eua_exit@ == "> \u{6309}\u{4e0b} `Enter` \u{952e}\u{9000}\u{51fa}..."@
        &&& self.login@ == "> \u{5728}\u{4e0e} SMTP/IMAP \u{670d}\u{52a1}\u{5668}\u{4ea4}\u{4e92}\u{4e4b}\u{524d}, \u{5fc5}\u{987b}\u{767b}\u{5f55}."@
        &&& self.login_email_addr@ == "  \u{90ae}\u{7bb1}\u{5730}\u{5740}: "@
        &&& self.login_password@ == "  SMTP/IMAP \u{6388}\u{6743}\u{7801} (\u{4e0d}\u{662f}\u{90ae}\u{7bb1}\u{5bc6}\u{7801}): "@
        &&& self.login_connecting@ == "> \u{6b63}\u{5728}\u{8fde}\u{63a5} "@
        &&& self.login_connect_succeed@ == "\u{2713} \u{5df2}\u{8fde}\u{63a5}\u{5230} "@
        &&& self.login_connect_fail@ == "! \u{65e0}\u{6cd5}\u{8fde}\u{63a5} "@
        &&& self.login_succeed@ == "> \u{6b22}\u{8fce}\u{56de}\u{6765}, "@
        &&& self.login_retry@ == "> \u{91cd}\u{65b0}\u{5c1d}\u{8bd5}\u{767b}\u{5f55}."@
        &&& self.action_literal@ == "\u{64cd}\u{4f5c}"@
        &&& self.action_list@ == "> \u{64cd}\u{4f5c}:\n  [0] \u{767b}\u{51fa} & \u{5173}\u{95ed}\n  [1] \u{5199}\u{4fe1}\n  [2] \u{6536}\u{4fe1}"@
        &&& self.action_selection@ == "  \u{9009}\u{62e9}\u{64cd}\u{4f5c}: "@
        &&& self.compose_new_message@ == "> \u{65b0}\u{90ae}\u{4ef6}:"@
        &&& self.compose_to@ == "  \u{6536}\u{4ef6}\u{4eba}: "@
        &&& self.compose_subject@ == "  \u{4e3b}\u{9898}: "@
        &&& self.compose_content@ == "  \u{6b63}\u{6587} (\u{8fde}\u{7eed}\u{8f93}\u{5165} 2 \u{4e2a}\u{7a7a}\u{884c}\u{4ee5}\u{5b8c}\u{6210}\u{7f16}\u{8f91}):"@
        &&& self.compose_editing_finish@ == "> \u{4f60}\u{5df2}\u{5b8c}\u{6210}\u{7f16}\u{8f91}."@
        &&& self.send_confirm_literal@ == "\u{786e}\u{8ba4}"@
        &&& self.send_reconfirm_list@ == "> \u{518d}\u{6b21}\u{786e}\u{8ba4}:\n  [yes] \u{786e}\u{8ba4}\u{53d1}\u{9001}\n  [no]  \u{53d6}\u{6d88}\u{53d1}\u{9001}"@
        &&& self.send_reconfirm_selection@ == "  \u{786e}\u{8ba4}: "@
        &&& self.send_sending@ == "> \u{6b63}\u{5728}\u{53d1}\u{9001}..."@
        &&& self.send_succeed@ == "\u{2713} \u{4f60}\u{7684}\u{90ae}\u{4ef6}\u{5df2}\u{53d1}\u{81f3} "@
        &&& self.send_cancel@ == "> \u{53d1}\u{9001}\u{5df2}\u{53d6}\u{6d88}."@
        &&& self.send_fail@ == "! \u{53d1}\u{9001}\u{5931}\u{8d25}: "@
        &&& self.fetch_mailbox_literal@ == "\u{6536}\u{4ef6}\u{7bb1}"@
        &&& self.fetch_mailbox@ == "> \u{6b63}\u{5728}\u{83b7}\u{53d6}\u{6536}\u{4ef6}\u{7bb1}..."@
        &&& self.fetch_mailbox_selection@ == "  \u{9009}\u{62e9}\u{6536}\u{4ef6}\u{7bb1}: "@
        &&& self.fetch_mailbox_empty@ == " \u{91cc}\u{6ca1}\u{6709}\u{90ae}\u{4ef6}."@
        &&& self.fetch_message_literal@ == "\u{90ae}\u{4ef6}"@
        &&& self.fetch_message_list@ == "\u{2713} \u{6536}\u{5230}\u{90ae}\u{4ef6}:"@
        &&& self.fetch_message_selection@ == "  \u{9009}\u{62e9}\u{90ae}\u{4ef6}: "@
        &&& self.fetch_message_fail@ == "! \u{8bfb}\u{53d6}\u{5931}\u{8d25}: "@
    }
}

fn english_prompts() -> (r: Prompts)
    ensures
        r.is_english(),
{
    Prompts {
        invalid_literal: "! Invalid ",
        should_be_one_of_below_literal: "should be one of below",
        horizontal_start: "  ----------------message starts----------------",
        horizontal_end: "  -----------------message ends-----------------",
        email_addr_invalid: "! Invalid email: please check and try again.",
        eua_welcome: "> Echo Unity Archivist 0.8.5 - your \u{1f4e7} user agent.",
        eua_logging_out: "> Logging out from ",
        eua_logout_succeed: "\u{2713} Logged out.",
        eua_logout_fail: "! Failed to logout: ",
        eua_exit: "> Press `Enter` to exit...",
        login: "> Login is required before interacting with the SMTP/IMAP server.",
        login_email_addr: "  Email address: ",
        login_password: "  SMTP/IMAP password (not email password): ",
        login_connecting: "> Connecting to ",
        login_connect_succeed: "\u{2713} Connected to ",
        login_connect_fail: "! Failed to connect ",
        login_succeed: "> Welcome back, ",
        login_retry: "> Retry login.",
        action_literal: "action",
        action_list: "> Actions:\n  [0] Logout & quit\n  [1] Compose\n  [2] Fetch message",
        action_selection: "  Select an action: ",
        compose_new_message: "> New message:",
        compose_to: "  To: ",
        compose_subject: "  Subject: ",
        compose_content: "  Content (enter 2 empty lines in a row to finish editing):",
        compose_editing_finish: "> You have finished editing.",
        send_confirm_literal: "confirmation",
        send_reconfirm_list: "> Reconfirmation:\n  [yes] confirm sending\n  [no]  cancel",
        send_reconfirm_selection: "  Confirm: ",
        send_sending: "> Sending...",
        send_succeed: "\u{2713} Your email has been sent to ",
        send_cancel: "> Sending canceled.",
        send_fail: "! Failed to send message: ",
        fetch_mailbox_literal: "inbox",
        fetch_mailbox: "> Fetching mailboxes...",
        fetch_mailbox_selection: "  Select a mailbox: ",
        fetch_mailbox_empty: " has no messages.",
        fetch_message_literal: "message",
        fetch_message_list: "\u{2713} Fetched message:",
        fetch_message_selection: "  Select a message: ",
        fetch_message_fail: "! Failed to read message: ",
    }
}

fn chinese_prompts() -> (r: Prompts)
    ensures
        r.is_chinese(),
{
    Prompts {
        invalid_literal: "! \u{65e0}\u{6548} ",
        should_be_one_of_below_literal: "\u{5e94}\u{4e3a}\u{4e0b}\u{5217}\u{503c}\u{4e4b}\u{4e00}",
        horizontal_start: "  ----------------\u{90ae}\u{4ef6}\u{5f00}\u{59cb}----------------",
        horizontal_end: "  ----------------\u{90ae}\u{4ef6}\u{7ed3}\u{675f}----------------",
        email_addr_invalid: "! \u{65e0}\u{6548}\u{90ae}\u{7bb1}\u{5730}\u{5740}: \u{8bf7}\u{68c0}\u{67e5}\u{5e76}\u{91cd}\u{65b0}\u{8f93}\u{5165}.",
        eua_welcome: "> \u{8c10}\u{58f0}\u{6536}\u{85cf}\u{5bb6} 0.8.5 - \u{4f60}\u{7684} \u{1f4e7} \u{7528}\u{6237}\u{4ee3}\u{7406}.",
        eua_logging_out: "> \u{6b63}\u{5728}\u{767b}\u{51fa} ",
        eua_logout_succeed: "\u{2713} \u{5df2}\u{767b}\u{51fa}.",
        eua_logout_fail: "! \u{767b}\u{51fa}\u{5931}\u{8d25}: ",
        eua_exit: "> \u{6309}\u{4e0b} `Enter` \u{952e}\u{9000}\u{51fa}...",
        login: "> \u{5728}\u{4e0e} SMTP/IMAP \u{670d}\u{52a1}\u{5668}\u{4ea4}\u{4e92}\u{4e4b}\u{524d}, \u{5fc5}\u{987b}\u{767b}\u{5f55}.",
        login_email_addr: "  \u{90ae}\u{7bb1}\u{5730}\u{5740}: ",
        login_password: "  SMTP/IMAP \u{6388}\u{6743}\u{7801} (\u{4e0d}\u{662f}\u{90ae}\u{7bb1}\u{5bc6}\u{7801}): ",
        login_connecting: "> \u{6b63}\u{5728}\u{8fde}\u{63a5} ",
        login_connect_succeed: "\u{2713} \u{5df2}\u{8fde}\u{63a5}\u{5230} ",
        login_connect_fail: "! \u{65e0}\u{6cd5}\u{8fde}\u{63a5} ",
        login_succeed: "> \u{6b22}\u{8fce}\u{56de}\u{6765}, ",
        login_retry: "> \u{91cd}\u{65b0}\u{5c1d}\u{8bd5}\u{767b}\u{5f55}.",
        action_literal: "\u{64cd}\u{4f5c}",
        action_list: "> \u{64cd}\u{4f5c}:\n  [0] \u{767b}\u{51fa} & \u{5173}\u{95ed}\n  [1] \u{5199}\u{4fe1}\n  [2] \u{6536}\u{4fe1}",
        action_selection: "  \u{9009}\u{62e9}\u{64cd}\u{4f5c}: ",
        compose_new_message: "> \u{65b0}\u{90ae}\u{4ef6}:",
        compose_to: "  \u{6536}\u{4ef6}\u{4eba}: ",
        compose_subject: "  \u{4e3b}\u{9898}: ",
        compose_content: "  \u{6b63}\u{6587} (\u{8fde}\u{7eed}\u{8f93}\u{5165} 2 \u{4e2a}\u{7a7a}\u{884c}\u{4ee5}\u{5b8c}\u{6210}\u{7f16}\u{8f91}):",
        compose_editing_finish: "> \u{4f60}\u{5df2}\u{5b8c}\u{6210}\u{7f16}\u{8f91}.",
        send_confirm_literal: "\u{786e}\u{8ba4}",
        send_reconfirm_list: "> \u{518d}\u{6b21}\u{786e}\u{8ba4}:\n  [yes] \u{786e}\u{8ba4}\u{53d1}\u{9001}\n  [no]  \u{53d6}\u{6d88}\u{53d1}\u{9001}",
        send_reconfirm_selection: "  \u{786e}\u{8ba4}: ",
        send_sending: "> \u{6b63}\u{5728}\u{53d1}\u{9001}...",
        send_succeed: "\u{2713} \u{4f60}\u{7684}\u{90ae}\u{4ef6}\u{5df2}\u{53d1}\u{81f3} ",
        send_cancel: "> \u{53d1}\u{9001}\u{5df2}\u{53d6}\u{6d88}.",
        send_fail: "! \u{53d1}\u{9001}\u{5931}\u{8d25}: ",
        fetch_mailbox_literal: "\u{6536}\u{4ef6}\u{7bb1}",
        fetch_mailbox: "> \u{6b63}\u{5728}\u{83b7}\u{53d6}\u{6536}\u{4ef6}\u{7bb1}...",
        fetch_mailbox_selection: "  \u{9009}\u{62e9}\u{6536}\u{4ef6}\u{7bb1}: ",
        fetch_mailbox_empty: " \u{91cc}\u{6ca1}\u{6709}\u{90ae}\u{4ef6}.",
        fetch_message_literal: "\u{90ae}\u{4ef6}",
        fetch_message_list: "\u{2713} \u{6536}\u{5230}\u{90ae}\u{4ef6}:",
        fetch_message_selection: "  \u{9009}\u{62e9}\u{90ae}\u{4ef6}: ",
        fetch_message_fail: "! \u{8bfb}\u{53d6}\u{5931}\u{8d25}: ",
    }
}

/// The language a menu selection denotes.
pub fn lang_of_selection(n: usize) -> (r: Lang)
    requires
        1 <= n <= 2,
    ensures
        n == 1 ==> r is ZH,
        n == 2 ==> r is EN,
{
    if n == 1 {
        Lang::ZH
    } else {
        Lang::EN
    }
}

/// Returns the `Prompts` table corresponding to the specified `Lang`.
pub fn get_prompts(lang: &Lang) -> (r: Prompts)
    ensures
        match lang {
            Lang::EN => r.is_english(),
            Lang::ZH => r.is_chinese(),
        },
{
    match lang {
        Lang::EN => english_prompts(),
        Lang::ZH => chinese_prompts(),
    }
}

} // verus!
