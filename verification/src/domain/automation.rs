//! Automation rules and the rules for choosing targets and building prompts.
//!
//! An automation result is stored as a document of its own, linked to the memo
//! it was made from by a `derived_from` link, so generated output can always be
//! traced back to its source.

use vstd::prelude::*;

use crate::domain::meta::MetaAssignment;
use crate::text::{
    chars_of, contains_seq, copy_str, lemma_replace_absent, push_chars, replace_all, replace_chars,
    str_eq, string_from_chars,
};

verus! {

/// `document_type` of an automation result, kept apart from memos.
pub const DOCUMENT_TYPE_AUTOMATION_RESULT: &'static str = "automation_result";

/// Prefix of the lineage actor: `automation:<rule_id>` names the rule that acted.
pub const ACTOR_PREFIX: &'static str = "automation:";

/// Where inference runs.
#[derive(Debug, Clone, Copy, PartialEq, Eq, Structural)]
pub enum BackendKind {
    /// Calls the provider's HTTP API with a locally stored key.
    ApiKey,
    /// Pastes the prompt into an AI page in a browser view and reads the answer back.
    Browser,
}

impl BackendKind {
    pub open spec fn spec_as_str(self) -> Seq<char> {
        match self {
            BackendKind::ApiKey => "api_key"@,
            BackendKind::Browser => "browser"@,
        }
    }

    pub open spec fn spec_parse(s: Seq<char>) -> Option<BackendKind> {
        if s == "api_key"@ {
            Some(BackendKind::ApiKey)
        } else if s == "browser"@ {
            Some(BackendKind::Browser)
        } else {
            None
        }
    }

    pub fn as_str(self) -> (s: &'static str)
        ensures
            s@ == self.spec_as_str(),
    {
        match self {
            BackendKind::ApiKey => "api_key",
            BackendKind::Browser => "browser",
        }
    }

    pub fn parse(value: &str) -> (r: Option<BackendKind>)
        ensures
            r == BackendKind::spec_parse(value@),
    {
        if str_eq(value, "api_key") {
            Some(BackendKind::ApiKey)
        } else if str_eq(value, "browser") {
            Some(BackendKind::Browser)
        } else {
            None
        }
    }
}

/// What starts a rule.
#[derive(Debug, Clone, Copy, PartialEq, Eq, Structural)]
pub enum TriggerKind {
    /// Only when the user runs it explicitly.
    Manual,
    /// Whenever a record that meets the conditions appears.
    MetaMatch,
    /// At the times of a cron expression.
    Schedule,
}

impl TriggerKind {
    pub open spec fn spec_as_str(self) -> Seq<char> {
        match self {
            TriggerKind::Manual => "manual"@,
            TriggerKind::MetaMatch => "meta_match"@,
            TriggerKind::Schedule => "schedule"@,
        }
    }

    pub open spec fn spec_parse(s: Seq<char>) -> Option<TriggerKind> {
        if s == "manual"@ {
            Some(TriggerKind::Manual)
        } else if s == "meta_match"@ {
            Some(TriggerKind::MetaMatch)
        } else if s == "schedule"@ {
            Some(TriggerKind::Schedule)
        } else {
            None
        }
    }

    pub fn as_str(self) -> (s: &'static str)
        ensures
            s@ == self.spec_as_str(),
    {
        match self {
            TriggerKind::Manual => "manual",
            TriggerKind::MetaMatch => "meta_match",
            TriggerKind::Schedule => "schedule",
        }
    }

    pub fn parse(value: &str) -> (r: Option<TriggerKind>)
        ensures
            r == TriggerKind::spec_parse(value@),
    {
        if str_eq(value, "manual") {
            Some(TriggerKind::Manual)
        } else if str_eq(value, "meta_match") {
            Some(TriggerKind::MetaMatch)
        } else if str_eq(value, "schedule") {
            Some(TriggerKind::Schedule)
        } else {
            None
        }
    }
}

/// What starts a rule, unpacked from `trigger_config`.
#[derive(Debug, Clone, PartialEq, Eq, Default)]
pub struct Trigger {
    /// Conditions on the record's tags; empty means "every record".
    pub metas: Vec<MetaCondition>,
    /// The cron expression of a `Schedule` rule.
    pub cron: Option<String>,
}

/// One condition on a record's tags. Without a value only the label must match.
#[derive(Debug, Clone, PartialEq, Eq)]
pub struct MetaCondition {
    pub label: String,
    pub value: Option<String>,
}

/// The condition `c` holds for the tag `m`.
pub open spec fn condition_matches(c: MetaCondition, m: MetaAssignment) -> bool {
    &&& c.label@ == m.label@
    &&& match c.value {
        None => true,
        Some(expected) => m.value is Some && m.value->0@ == expected@,
    }
}

impl MetaCondition {
    /// A condition on the label alone.
    pub fn label(label: &str) -> (c: MetaCondition)
        ensures
            c.label@ == label@,
            c.value is None,
    {
        MetaCondition { label: copy_str(label), value: None }
    }

    /// Whether this condition holds for one tag of a record.
    fn matches_assignment(&self, meta: &MetaAssignment) -> (r: bool)
        ensures
            r == condition_matches(*self, *meta),
    {
        if !str_eq(self.label.as_str(), meta.label.as_str()) {
            return false;
        }
        match &self.value {
            None => true,
            Some(expected) => match &meta.value {
                Some(actual) => str_eq(actual.as_str(), expected.as_str()),
                None => false,
            },
        }
    }
}

/// One automation rule.
#[derive(Debug, Clone, PartialEq, Eq)]
pub struct AutomationRule {
    pub id: String,
    pub workspace_id: String,
    pub name: String,
    pub description: Option<String>,
    pub prompt: String,
    pub backend: BackendKind,
    pub backend_config: BackendConfig,
    pub trigger_kind: TriggerKind,
    pub trigger: Trigger,
    pub enabled: bool,
    pub created_at: String,
    pub updated_at: String,
}

/// Settings of the backend.
#[derive(Debug, Clone, PartialEq, Eq, Default)]
pub struct BackendConfig {
    /// The provider (also the account name in the credential store), e.g. `anthropic`.
    pub provider: String,
    /// The model, or the provider's default when absent.
    pub model: Option<String>,
    /// How hard the model should think (`low` … `max`).
    pub effort: Option<String>,
}

/// State of one run.
#[derive(Debug, Clone, Copy, PartialEq, Eq, Structural)]
pub enum RunStatus {
    Running,
    Succeeded,
    Failed,
    /// The model declined to answer for safety reasons; kept apart from failures.
    Refused,
}

impl RunStatus {
    pub open spec fn spec_as_str(self) -> Seq<char> {
        match self {
            RunStatus::Running => "running"@,
            RunStatus::Succeeded => "succeeded"@,
            RunStatus::Failed => "failed"@,
            RunStatus::Refused => "refused"@,
        }
    }

    pub open spec fn spec_parse(s: Seq<char>) -> Option<RunStatus> {
        if s == "running"@ {
            Some(RunStatus::Running)
        } else if s == "succeeded"@ {
            Some(RunStatus::Succeeded)
        } else if s == "failed"@ {
            Some(RunStatus::Failed)
        } else if s == "refused"@ {
            Some(RunStatus::Refused)
        } else {
            None
        }
    }

    pub fn as_str(self) -> (s: &'static str)
        ensures
            s@ == self.spec_as_str(),
    {
        match self {
            RunStatus::Running => "running",
            RunStatus::Succeeded => "succeeded",
            RunStatus::Failed => "failed",
            RunStatus::Refused => "refused",
        }
    }

    pub fn parse(value: &str) -> (r: Option<RunStatus>)
        ensures
            r == RunStatus::spec_parse(value@),
    {
        if str_eq(value, "running") {
            Some(RunStatus::Running)
        } else if str_eq(value, "succeeded") {
            Some(RunStatus::Succeeded)
        } else if str_eq(value, "failed") {
            Some(RunStatus::Failed)
        } else if str_eq(value, "refused") {
            Some(RunStatus::Refused)
        } else {
            None
        }
    }
}

/// Each backend kind reads back from its stored string, and no other string
/// reads back as it.
pub proof fn lemma_backend_kind_round_trip(kind: BackendKind, s: Seq<char>)
    ensures
        BackendKind::spec_parse(kind.spec_as_str()) == Some(kind),
        BackendKind::spec_parse(s) == Some(kind) ==> s == kind.spec_as_str(),
{
    reveal_strlit("api_key");
    reveal_strlit("browser");
    assert("api_key"@[0] != "browser"@[0]);
}

/// Each trigger kind reads back from its stored string, and no other string
/// reads back as it.
pub proof fn lemma_trigger_kind_round_trip(kind: TriggerKind, s: Seq<char>)
    ensures
        TriggerKind::spec_parse(kind.spec_as_str()) == Some(kind),
        TriggerKind::spec_parse(s) == Some(kind) ==> s == kind.spec_as_str(),
{
    reveal_strlit("manual");
    reveal_strlit("meta_match");
    reveal_strlit("schedule");
    assert("manual"@.len() != "meta_match"@.len());
    assert("manual"@.len() != "schedule"@.len());
    assert("meta_match"@.len() != "schedule"@.len());
}

/// Each run status reads back from its stored string, and no other string
/// reads back as it.
pub proof fn lemma_run_status_round_trip(status: RunStatus, s: Seq<char>)
    ensures
        RunStatus::spec_parse(status.spec_as_str()) == Some(status),
        RunStatus::spec_parse(s) == Some(status) ==> s == status.spec_as_str(),
{
    reveal_strlit("running");
    reveal_strlit("succeeded");
    reveal_strlit("failed");
    reveal_strlit("refused");
    assert("running"@.len() != "succeeded"@.len());
    assert("running"@[0] != "failed"@[0]);
    assert("running"@[1] != "refused"@[1]);
    assert("succeeded"@.len() != "failed"@.len());
    assert("succeeded"@.len() != "refused"@.len());
    assert("failed"@[0] != "refused"@[0]);
}

/// The record of one run.
#[derive(Debug, Clone, PartialEq, Eq)]
pub struct AutomationRun {
    pub id: String,
    pub workspace_id: String,
    pub rule_id: String,
    pub source_document_id: String,
    pub result_document_id: Option<String>,
    pub status: RunStatus,
    pub backend: BackendKind,
    pub error: Option<String>,
    pub started_at: String,
    pub finished_at: Option<String>,
}

/// What a prompt is built from: the record's text together with its tags.
#[derive(Debug, Clone, PartialEq, Eq)]
pub struct MemoSnapshot {
    pub id: String,
    pub title: String,
    pub body_text: String,
    pub metas: Vec<MetaAssignment>,
    pub created_at: String,
}

/// `#label` or `#label=value` for one tag.
pub open spec fn meta_token(m: MetaAssignment) -> Seq<char> {
    match m.value {
        Some(v) => seq!['#'] + m.label@ + seq!['='] + v@,
        None => seq!['#'] + m.label@,
    }
}

/// The tokens of `metas` joined by single spaces.
pub open spec fn join_meta_tokens(metas: Seq<MetaAssignment>) -> Seq<char>
    decreases metas.len(),
{
    if metas.len() == 0 {
        Seq::empty()
    } else if metas.len() == 1 {
        meta_token(metas[0])
    } else {
        join_meta_tokens(metas.drop_last()) + seq![' '] + meta_token(metas.last())
    }
}

impl MemoSnapshot {
    /// `#label` / `#label=value` of every tag, separated by spaces, for prompts.
    pub fn meta_text(&self) -> (text: String)
        ensures
            text@ == join_meta_tokens(self.metas@),
    {
        let mut out = String::new();
        let mut i: usize = 0;
        while i < self.metas.len()
            invariant
                i <= self.metas@.len(),
                out@ == join_meta_tokens(self.metas@.subrange(0, i as int)),
            decreases self.metas.len() - i,
        {
            let meta = &self.metas[i];
            let ghost before = out@;
            if i > 0 {
                push_chars(&mut out, &vec![' ']);
            }
            push_chars(&mut out, &vec!['#']);
            out.append(meta.label.as_str());
            match &meta.value {
                Some(value) => {
                    push_chars(&mut out, &vec!['=']);
                    out.append(value.as_str());
                },
                None => {},
            }
            proof {
                let s = self.metas@.subrange(0, i + 1);
                assert(s.drop_last() =~= self.metas@.subrange(0, i as int));
                assert(s.last() == self.metas@[i as int]);
                if i == 0 {
                    assert(out@ =~= meta_token(self.metas@[0]));
                } else {
                    assert(out@ =~= before + seq![' '] + meta_token(self.metas@[i as int]));
                }
            }
            i = i + 1;
        }
        assert(self.metas@.subrange(0, self.metas@.len() as int) =~= self.metas@);
        out
    }
}

/// One request to a generative model, independent of the backend.
#[derive(Debug, Clone, PartialEq, Eq)]
pub struct InferenceRequest {
    pub provider: String,
    pub prompt: String,
    pub model: Option<String>,
    pub effort: Option<String>,
}

/// The answer of a generative model.
#[derive(Debug, Clone, PartialEq, Eq)]
pub enum InferenceOutcome {
    /// A text came back.
    Completed(String),
    /// The model declined for safety reasons; retrying would not change that.
    Refused { category: Option<String> },
}

/// Some tag of the memo meets the condition.
pub open spec fn condition_met(c: MetaCondition, memo: MemoSnapshot) -> bool {
    exists|j: int| 0 <= j < memo.metas@.len() && condition_matches(c, #[trigger] memo.metas@[j])
}

/// Every condition of the rule is met by some tag of the memo, and the rule is enabled.
pub open spec fn spec_matches(rule: AutomationRule, memo: MemoSnapshot) -> bool {
    &&& rule.enabled
    &&& forall|i: int| 0 <= i < rule.trigger.metas@.len() ==> condition_met(#[trigger] rule.trigger.metas@[i], memo)
}

fn any_tag_matches(condition: &MetaCondition, memo: &MemoSnapshot) -> (r: bool)
    ensures
        r == condition_met(*condition, *memo),
{
    let mut j: usize = 0;
    while j < memo.metas.len()
        invariant
            j <= memo.metas@.len(),
            forall|k: int| 0 <= k < j ==> !condition_matches(*condition, #[trigger] memo.metas@[k]),
        decreases memo.metas.len() - j,
    {
        if condition.matches_assignment(&memo.metas[j]) {
            return true;
        }
        j = j + 1;
    }
    false
}

/// Whether the rule takes the memo as a target.
///
/// Conditions are combined with AND; no conditions means every record.
/// A disabled rule never matches.
pub fn matches(rule: &AutomationRule, memo: &MemoSnapshot) -> (r: bool)
    ensures
        r == spec_matches(*rule, *memo),
{
    if !rule.enabled {
        return false;
    }
    let mut i: usize = 0;
    while i < rule.trigger.metas.len()
        invariant
            rule.enabled,
            i <= rule.trigger.metas@.len(),
            forall|k: int| 0 <= k < i ==> condition_met(#[trigger] rule.trigger.metas@[k], *memo),
        decreases rule.trigger.metas.len() - i,
    {
        if !any_tag_matches(&rule.trigger.metas[i], memo) {
            return false;
        }
        i = i + 1;
    }
    true
}

/// A disabled rule matches nothing; an enabled rule without conditions
/// matches every memo.
pub proof fn lemma_matches_edge_cases(rule: AutomationRule, memo: MemoSnapshot)
    ensures
        !rule.enabled ==> !spec_matches(rule, memo),
        rule.enabled && rule.trigger.metas@.len() == 0 ==> spec_matches(rule, memo),
{
}

/// A condition with a value holds for a tag exactly when the tag has the
/// condition's label and carries exactly that value; a value that merely
/// begins with it, or a tag without a value, does not count.
pub proof fn lemma_value_condition_is_exact(c: MetaCondition, m: MetaAssignment)
    requires
        c.value is Some,
    ensures
        condition_matches(c, m) <==> (m.label@ == c.label@ && m.value is Some && m.value->0@ == c.value->0@),
{
}

/// A rule matches a memo only if, for each of its conditions with a value,
/// the memo has a tag with that label and exactly that value.
pub proof fn lemma_value_condition_needs_exact_tag(rule: AutomationRule, memo: MemoSnapshot, i: int)
    requires
        spec_matches(rule, memo),
        0 <= i < rule.trigger.metas@.len(),
        rule.trigger.metas@[i].value is Some,
    ensures
        exists|j: int|
            0 <= j < memo.metas@.len() && (#[trigger] memo.metas@[j]).label@ == rule.trigger.metas@[i].label@
                && memo.metas@[j].value is Some && memo.metas@[j].value->0@ == rule.trigger.metas@[i].value->0@,
{
    let c = rule.trigger.metas@[i];
    assert(condition_met(c, memo));
    let j = choose|j: int| 0 <= j < memo.metas@.len() && condition_matches(c, #[trigger] memo.metas@[j]);
    assert(memo.metas@[j].label@ == c.label@);
}

/// Conditions combine with AND: a rule whose conditions are those of `a`
/// followed by those of `b` matches exactly when both match.
pub proof fn lemma_matches_conjunction(a: AutomationRule, b: AutomationRule, ab: AutomationRule, memo: MemoSnapshot)
    requires
        a.enabled && b.enabled && ab.enabled,
        ab.trigger.metas@ == a.trigger.metas@ + b.trigger.metas@,
    ensures
        spec_matches(ab, memo) == (spec_matches(a, memo) && spec_matches(b, memo)),
{
    let n = a.trigger.metas@.len();
    if spec_matches(ab, memo) {
        assert forall|i: int| 0 <= i < a.trigger.metas@.len() implies condition_met(#[trigger] a.trigger.metas@[i], memo) by {
            assert(ab.trigger.metas@[i] == a.trigger.metas@[i]);
        }
        assert forall|i: int| 0 <= i < b.trigger.metas@.len() implies condition_met(#[trigger] b.trigger.metas@[i], memo) by {
            assert(ab.trigger.metas@[n + i] == b.trigger.metas@[i]);
        }
    }
    if spec_matches(a, memo) && spec_matches(b, memo) {
        assert forall|i: int| 0 <= i < ab.trigger.metas@.len() implies condition_met(#[trigger] ab.trigger.metas@[i], memo) by {
            if i < n {
                assert(ab.trigger.metas@[i] == a.trigger.metas@[i]);
            } else {
                assert(ab.trigger.metas@[i] == b.trigger.metas@[i - n]);
            }
        }
    }
}

/// The four placeholders a prompt template may use.
pub open spec fn placeholder_title() -> Seq<char> {
    "{{memo.title}}"@
}

pub open spec fn placeholder_body() -> Seq<char> {
    "{{memo.body}}"@
}

pub open spec fn placeholder_metas() -> Seq<char> {
    "{{memo.metas}}"@
}

pub open spec fn placeholder_now() -> Seq<char> {
    "{{now}}"@
}

/// The template with the placeholders filled in, one after the other:
/// title, body, tags, then time.
pub open spec fn spec_render_prompt(prompt: Seq<char>, memo: MemoSnapshot, now: Seq<char>) -> Seq<char> {
    replace_all(
        replace_all(
            replace_all(
                replace_all(prompt, placeholder_title(), memo.title@),
                placeholder_body(),
                memo.body_text@,
            ),
            placeholder_metas(),
            join_meta_tokens(memo.metas@),
        ),
        placeholder_now(),
        now,
    )
}

/// Fills the rule's prompt template with the memo.
///
/// Placeholders: `{{memo.title}}`, `{{memo.body}}`, `{{memo.metas}}` and
/// `{{now}}`. A template without any of them is used as it is.
pub fn render_prompt(rule: &AutomationRule, memo: &MemoSnapshot, now: &str) -> (prompt: String)
    ensures
        prompt@ == spec_render_prompt(rule.prompt@, *memo, now@),
{
    proof {
        reveal_strlit("{{memo.title}}");
        reveal_strlit("{{memo.body}}");
        reveal_strlit("{{memo.metas}}");
        reveal_strlit("{{now}}");
    }
    let text = chars_of(rule.prompt.as_str());
    let text = replace_chars(&text, &chars_of("{{memo.title}}"), &chars_of(memo.title.as_str()));
    let text = replace_chars(&text, &chars_of("{{memo.body}}"), &chars_of(memo.body_text.as_str()));
    let metas = memo.meta_text();
    let text = replace_chars(&text, &chars_of("{{memo.metas}}"), &chars_of(metas.as_str()));
    let text = replace_chars(&text, &chars_of("{{now}}"), &chars_of(now));
    string_from_chars(&text)
}

/// A template that contains none of the placeholders renders to itself.
pub proof fn lemma_render_without_placeholders(prompt: Seq<char>, memo: MemoSnapshot, now: Seq<char>)
    requires
        !contains_seq(prompt, placeholder_title()),
        !contains_seq(prompt, placeholder_body()),
        !contains_seq(prompt, placeholder_metas()),
        !contains_seq(prompt, placeholder_now()),
    ensures
        spec_render_prompt(prompt, memo, now) == prompt,
{
    lemma_replace_absent(prompt, placeholder_title(), memo.title@);
    lemma_replace_absent(prompt, placeholder_body(), memo.body_text@);
    lemma_replace_absent(prompt, placeholder_metas(), join_meta_tokens(memo.metas@));
    lemma_replace_absent(prompt, placeholder_now(), now);
}

/// `<rule name>: <memo title>`.
pub open spec fn spec_result_title(rule: AutomationRule, memo: MemoSnapshot) -> Seq<char> {
    rule.name@ + seq![':', ' '] + memo.title@
}

/// Title of an automation result: names both the rule and the memo it came from.
pub fn result_title(rule: &AutomationRule, memo: &MemoSnapshot) -> (title: String)
    ensures
        title@ == spec_result_title(*rule, *memo),
{
    let mut title = copy_str(rule.name.as_str());
    push_chars(&mut title, &vec![':', ' ']);
    title.append(memo.title.as_str());
    title
}

} // verus!
