//! Why an automation use case could not go on.

use vstd::prelude::*;

use crate::text::copy_str;

verus! {

#[derive(Debug, Clone, PartialEq, Eq)]
pub enum AutomationError {
    /// The rule uses the browser backend, which needs a web view this runtime
    /// does not have.
    BrowserBackendUnsupported { rule_name: String },
    /// No rule has this id.
    RuleNotFound(String),
    /// No memo of the workspace has this id.
    MemoNotFound(String),
    /// A cron expression could not be read.
    InvalidCron(String),
    /// A time could not be read as RFC 3339.
    InvalidTime(String),
    /// The chain's `seq` cannot grow any further.
    LedgerFull,
    /// A port failed.
    Port(String),
}

/// The message of an automation error; the browser case starts with
/// `browser_backend_unsupported` so callers can tell it apart.
pub open spec fn automation_message(e: AutomationError) -> Seq<char> {
    match e {
        AutomationError::BrowserBackendUnsupported { rule_name } => "browser_backend_unsupported"@ + ": ルール `"@
            + rule_name@ + "` はブラウザ方式です。fullos の自動化画面から実行してください"@,
        AutomationError::RuleNotFound(id) => "自動化ルールが見つかりません: "@ + id@,
        AutomationError::MemoNotFound(id) => "記録が見つかりません: "@ + id@,
        AutomationError::InvalidCron(expression) => "cron 式を解釈できません: "@ + expression@,
        AutomationError::InvalidTime(value) => "日時を解釈できません: "@ + value@,
        AutomationError::LedgerFull => "lineage の seq がこれ以上増やせません"@,
        AutomationError::Port(message) => message@,
    }
}

impl AutomationError {
    /// A message for people.
    pub fn message(&self) -> (m: String)
        ensures
            m@ == automation_message(*self),
            self is BrowserBackendUnsupported ==> crate::text::starts_with(
                m@,
                "browser_backend_unsupported"@,
            ),
    {
        match self {
            AutomationError::BrowserBackendUnsupported { rule_name } => {
                let mut m = copy_str("browser_backend_unsupported");
                m.append(": ルール `");
                m.append(rule_name.as_str());
                m.append("` はブラウザ方式です。fullos の自動化画面から実行してください");
                proof {
                    assert(m@.subrange(0, "browser_backend_unsupported"@.len() as int) =~= "browser_backend_unsupported"@);
                }
                m
            },
            AutomationError::RuleNotFound(id) => {
                let mut m = copy_str("自動化ルールが見つかりません: ");
                m.append(id.as_str());
                m
            },
            AutomationError::MemoNotFound(id) => {
                let mut m = copy_str("記録が見つかりません: ");
                m.append(id.as_str());
                m
            },
            AutomationError::InvalidCron(expression) => {
                let mut m = copy_str("cron 式を解釈できません: ");
                m.append(expression.as_str());
                m
            },
            AutomationError::InvalidTime(value) => {
                let mut m = copy_str("日時を解釈できません: ");
                m.append(value.as_str());
                m
            },
            AutomationError::LedgerFull => copy_str("lineage の seq がこれ以上増やせません"),
            AutomationError::Port(message) => copy_str(message.as_str()),
        }
    }
}

} // verus!
