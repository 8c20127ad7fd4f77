//! Running automation.
//!
//! Rule + record → prompt → model → result document + lineage. Which backend
//! runs the model is hidden behind `InferenceBackend`. The browser backend runs
//! in the desktop shell, so there is also a split entry: `record` after the
//! shell got the answer, `record_failure` when it did not.

use vstd::prelude::*;

use crate::domain::automation::{
    render_prompt, result_title, spec_matches, spec_render_prompt, spec_result_title, AutomationRule,
    AutomationRun, InferenceOutcome, InferenceRequest, MemoSnapshot, RunStatus, TriggerKind,
    ACTOR_PREFIX, DOCUMENT_TYPE_AUTOMATION_RESULT,
};
use crate::domain::capture::DocumentAsset;
use crate::domain::lineage::{appended_after, relation, LineageInput, LineageLedger, LineageRecord};
use crate::domain::ports::{
    AutomationRuleQuery, AutomationRunStore, AutomationStore, InferenceBackend, MemoQuery,
};
use crate::domain::shared::{Clock, Hasher, IdGenerator};
use crate::features::automation::error::AutomationError;
use crate::features::automation::schedule::{
    cron_next_after, parse_time, rfc3339_millis, schedule_fires, spec_due, CRON_LAST_START_MS,
};
use crate::text::copy_str;

verus! {

/// Kind of the source and target of an automation link.
pub const KIND_DOCUMENT: &'static str = "document";

/// Most memos that `pending` looks at per rule.
pub const PENDING_SCAN_LIMIT: usize = 200;

/// The automation use cases.
pub struct Automation<'a, S: AutomationStore> {
    pub rules: &'a dyn AutomationRuleQuery,
    pub runs: &'a dyn AutomationRunStore,
    pub memos: &'a dyn MemoQuery,
    pub store: &'a S,
    pub clock: &'a dyn Clock,
    pub ids: &'a dyn IdGenerator,
    pub hasher: &'a dyn Hasher,
}

/// The rules among `all` that take `memo`, in order.
pub open spec fn rules_matching(all: Seq<AutomationRule>, memo: MemoSnapshot) -> Seq<AutomationRule>
    decreases all.len(),
{
    if all.len() == 0 {
        Seq::empty()
    } else if spec_matches(all.last(), memo) {
        rules_matching(all.drop_last(), memo).push(all.last())
    } else {
        rules_matching(all.drop_last(), memo)
    }
}

/// The enabled tag-match rules among `all`, in order.
pub open spec fn meta_match_rules_of(all: Seq<AutomationRule>) -> Seq<AutomationRule>
    decreases all.len(),
{
    if all.len() == 0 {
        Seq::empty()
    } else if all.last().enabled && all.last().trigger_kind == TriggerKind::MetaMatch {
        meta_match_rules_of(all.drop_last()).push(all.last())
    } else {
        meta_match_rules_of(all.drop_last())
    }
}

/// The memos among `memos` that the rule takes, in order.
pub open spec fn memos_matching(memos: Seq<MemoSnapshot>, rule: AutomationRule) -> Seq<MemoSnapshot>
    decreases memos.len(),
{
    if memos.len() == 0 {
        Seq::empty()
    } else if spec_matches(rule, memos.last()) {
        memos_matching(memos.drop_last(), rule).push(memos.last())
    } else {
        memos_matching(memos.drop_last(), rule)
    }
}

/// The run was started for this rule and memo.
pub open spec fn run_of(run: AutomationRun, rule: AutomationRule, memo: MemoSnapshot) -> bool {
    &&& run.workspace_id@ == rule.workspace_id@
    &&& run.rule_id@ == rule.id@
    &&& run.source_document_id@ == memo.id@
    &&& run.backend == rule.backend
}

/// A finished run: never left `running`; a result document exactly when it
/// succeeded, and an error exactly when it did not.
pub open spec fn settled(run: AutomationRun) -> bool {
    &&& run.status != RunStatus::Running
    &&& run.finished_at is Some
    &&& (run.status == RunStatus::Succeeded) == (run.result_document_id is Some)
    &&& (run.status == RunStatus::Succeeded) == (run.error is None)
}

/// The same run, finished with this status (other fields unchanged).
pub open spec fn same_run(a: AutomationRun, b: AutomationRun) -> bool {
    &&& a.id@ == b.id@
    &&& a.workspace_id@ == b.workspace_id@
    &&& a.rule_id@ == b.rule_id@
    &&& a.source_document_id@ == b.source_document_id@
    &&& a.backend == b.backend
    &&& a.started_at@ == b.started_at@
}

/// The message of a refusal, with its category when the model gave one.
pub open spec fn refusal_message(category: Option<Seq<char>>) -> Seq<char> {
    match category {
        Some(c) => "応答が拒否されました（"@ + c + "）"@,
        None => "応答が拒否されました"@,
    }
}

/// The rules among `rules` that take `memo`, in order: what
/// [`Automation::matching_rules`] keeps of the workspace's rules.
pub fn keep_matching_rules(rules: Vec<AutomationRule>, memo: &MemoSnapshot) -> (out: Vec<AutomationRule>)
    ensures
        out@ == rules_matching(rules@, *memo),
{
    let ghost orig = rules@;
    let mut rules = rules;
    let mut out: Vec<AutomationRule> = Vec::new();
    let ghost mut k: int = 0;
    while rules.len() > 0
        invariant
            0 <= k <= orig.len(),
            rules@ == orig.subrange(k, orig.len() as int),
            out@ == rules_matching(orig.subrange(0, k), *memo),
        decreases rules.len(),
    {
        let rule = rules.remove(0);
        proof {
            assert(rule == orig[k]);
            assert(orig.subrange(0, k + 1).drop_last() =~= orig.subrange(0, k));
            assert(orig.subrange(0, k + 1).last() == orig[k]);
            assert(rules@ =~= orig.subrange(k + 1, orig.len() as int));
        }
        if crate::domain::automation::matches(&rule, memo) {
            out.push(rule);
        }
        proof {
            k = k + 1;
        }
    }
    assert(orig.subrange(0, k) =~= orig);
    out
}

/// The enabled tag-match rules among `rules`, in order: what
/// [`Automation::meta_match_rules`] keeps of the workspace's rules.
pub fn keep_meta_match_rules(rules: Vec<AutomationRule>) -> (out: Vec<AutomationRule>)
    ensures
        out@ == meta_match_rules_of(rules@),
{
    let ghost orig = rules@;
    let mut rules = rules;
    let mut out: Vec<AutomationRule> = Vec::new();
    let ghost mut k: int = 0;
    while rules.len() > 0
        invariant
            0 <= k <= orig.len(),
            rules@ == orig.subrange(k, orig.len() as int),
            out@ == meta_match_rules_of(orig.subrange(0, k)),
        decreases rules.len(),
    {
        let rule = rules.remove(0);
        proof {
            assert(rule == orig[k]);
            assert(orig.subrange(0, k + 1).drop_last() =~= orig.subrange(0, k));
            assert(orig.subrange(0, k + 1).last() == orig[k]);
            assert(rules@ =~= orig.subrange(k + 1, orig.len() as int));
        }
        if rule.enabled && rule.trigger_kind == TriggerKind::MetaMatch {
            out.push(rule);
        }
        proof {
            k = k + 1;
        }
    }
    assert(orig.subrange(0, k) =~= orig);
    out
}

/// The memos among `memos` that `rule` takes, in order: what
/// [`Automation::pending`] keeps of the unprocessed memos.
pub fn keep_matching_memos(memos: Vec<MemoSnapshot>, rule: &AutomationRule) -> (out: Vec<MemoSnapshot>)
    ensures
        out@ == memos_matching(memos@, *rule),
{
    let ghost orig = memos@;
    let mut memos = memos;
    let mut out: Vec<MemoSnapshot> = Vec::new();
    let ghost mut k: int = 0;
    while memos.len() > 0
        invariant
            0 <= k <= orig.len(),
            memos@ == orig.subrange(k, orig.len() as int),
            out@ == memos_matching(orig.subrange(0, k), *rule),
        decreases memos.len(),
    {
        let memo = memos.remove(0);
        proof {
            assert(memo == orig[k]);
            assert(orig.subrange(0, k + 1).drop_last() =~= orig.subrange(0, k));
            assert(orig.subrange(0, k + 1).last() == orig[k]);
            assert(memos@ =~= orig.subrange(k + 1, orig.len() as int));
        }
        if crate::domain::automation::matches(rule, &memo) {
            out.push(memo);
        }
        proof {
            k = k + 1;
        }
    }
    assert(orig.subrange(0, k) =~= orig);
    out
}

/// Every memo that `memos_matching` keeps is taken by the rule.
pub proof fn lemma_memos_matching_all_match(memos: Seq<MemoSnapshot>, rule: AutomationRule)
    ensures
        forall|i: int| 0 <= i < memos_matching(memos, rule).len() ==> spec_matches(rule, #[trigger] memos_matching(memos, rule)[i]),
    decreases memos.len(),
{
    if memos.len() > 0 {
        lemma_memos_matching_all_match(memos.drop_last(), rule);
        let prev = memos_matching(memos.drop_last(), rule);
        if spec_matches(rule, memos.last()) {
            assert forall|i: int| 0 <= i < prev.len() + 1 implies spec_matches(
                rule,
                #[trigger] prev.push(memos.last())[i],
            ) by {
                if i < prev.len() {
                    assert(prev.push(memos.last())[i] == prev[i]);
                }
            }
        }
    }
}

/// A disabled rule takes no memo at all.
pub proof fn lemma_disabled_rule_takes_nothing(memos: Seq<MemoSnapshot>, rule: AutomationRule)
    requires
        !rule.enabled,
    ensures
        memos_matching(memos, rule).len() == 0,
    decreases memos.len(),
{
    if memos.len() > 0 {
        lemma_disabled_rule_takes_nothing(memos.drop_last(), rule);
    }
}

/// The run recorded when a rule starts on a memo: `running`, for this
/// rule, memo and backend, with no result, error or finish yet.
pub open spec fn spec_running_run(rule: AutomationRule, memo: MemoSnapshot, id: Seq<char>, started_at: Seq<char>, run: AutomationRun) -> bool {
    &&& run.id@ == id
    &&& run_of(run, rule, memo)
    &&& run.status == RunStatus::Running
    &&& run.result_document_id is None
    &&& run.error is None
    &&& run.started_at@ == started_at
    &&& run.finished_at is None
}

/// The run a rule starts on a memo.
pub fn running_run(rule: &AutomationRule, memo: &MemoSnapshot, id: String, started_at: String) -> (run: AutomationRun)
    ensures
        spec_running_run(*rule, *memo, id@, started_at@, run),
{
    AutomationRun {
        id,
        workspace_id: copy_str(rule.workspace_id.as_str()),
        rule_id: copy_str(rule.id.as_str()),
        source_document_id: copy_str(memo.id.as_str()),
        result_document_id: None,
        status: RunStatus::Running,
        backend: rule.backend,
        error: None,
        started_at,
        finished_at: None,
    }
}

/// What is asked of the model for a rule and memo: the rule's provider,
/// model and effort, and its prompt rendered with the memo at `started_at`.
pub fn inference_request(rule: &AutomationRule, memo: &MemoSnapshot, started_at: &str) -> (req: InferenceRequest)
    ensures
        req.provider@ == rule.backend_config.provider@,
        req.prompt@ == spec_render_prompt(rule.prompt@, *memo, started_at@),
        req.model == rule.backend_config.model,
        req.effort == rule.backend_config.effort,
{
    InferenceRequest {
        provider: copy_str(rule.backend_config.provider.as_str()),
        prompt: render_prompt(rule, memo, started_at),
        model: copy_option(&rule.backend_config.model),
        effort: copy_option(&rule.backend_config.effort),
    }
}

/// The result document of a successful run: titled after the rule and the
/// memo, holding the model's text, of the automation-result type.
pub open spec fn spec_result_document(rule: AutomationRule, memo: MemoSnapshot, text: Seq<char>, now: Seq<char>, id: Seq<char>, d: DocumentAsset) -> bool {
    &&& d.id@ == id
    &&& d.workspace_id@ == rule.workspace_id@
    &&& d.title@ == spec_result_title(rule, memo)
    &&& d.body_text@ == text
    &&& d.blob_uri is None
    &&& d.document_type@ == DOCUMENT_TYPE_AUTOMATION_RESULT@
    &&& d.created_at@ == now
    &&& d.updated_at@ == now
}

/// The result document of a successful run.
pub fn result_document(rule: &AutomationRule, memo: &MemoSnapshot, text: &str, now: &str, id: String) -> (d: DocumentAsset)
    ensures
        spec_result_document(*rule, *memo, text@, now@, id@, d),
{
    DocumentAsset {
        id,
        workspace_id: copy_str(rule.workspace_id.as_str()),
        title: result_title(rule, memo),
        body_text: copy_str(text),
        blob_uri: None,
        document_type: copy_str(DOCUMENT_TYPE_AUTOMATION_RESULT),
        created_at: copy_str(now),
        updated_at: copy_str(now),
    }
}

/// The link of a successful run: the memo `derived_from` to the result,
/// made by `automation:<rule id>`.
pub open spec fn spec_result_link(rule: AutomationRule, memo: MemoSnapshot, result_id: Seq<char>, now: Seq<char>, i: LineageInput) -> bool {
    &&& i.workspace_id@ == rule.workspace_id@
    &&& i.source_kind@ == KIND_DOCUMENT@
    &&& i.source_id@ == memo.id@
    &&& i.target_kind@ == KIND_DOCUMENT@
    &&& i.target_id@ == result_id
    &&& i.relation_type@ == relation::DERIVED_FROM@
    &&& i.actor@ == ACTOR_PREFIX@ + rule.id@
    &&& i.created_at@ == now
}

/// The link of a successful run.
pub fn result_link(rule: &AutomationRule, memo: &MemoSnapshot, result_id: &str, now: &str) -> (i: LineageInput)
    ensures
        spec_result_link(*rule, *memo, result_id@, now@, i),
{
    let mut actor = copy_str(ACTOR_PREFIX);
    actor.append(rule.id.as_str());
    LineageInput {
        workspace_id: copy_str(rule.workspace_id.as_str()),
        source_kind: copy_str(KIND_DOCUMENT),
        source_id: copy_str(memo.id.as_str()),
        target_kind: copy_str(KIND_DOCUMENT),
        target_id: copy_str(result_id),
        relation_type: copy_str(relation::DERIVED_FROM),
        actor,
        created_at: copy_str(now),
    }
}

/// The link that follows the stored tail `prev` (none for an empty chain):
/// refused when the tail's `seq` cannot grow, otherwise one further with
/// the tail's hash as its previous hash.
pub fn next_link<H: Hasher + ?Sized>(ledger: &LineageLedger<'_, H>, prev: Option<LineageRecord>, id: String, input: LineageInput) -> (r: Result<LineageRecord, AutomationError>)
    ensures
        (r == Err::<LineageRecord, AutomationError>(AutomationError::LedgerFull)) <==> (prev matches Some(p) && p.seq == i64::MAX),
        r matches Ok(link) ==> appended_after(ledger.digest(), prev, id@, input, link),
        r matches Err(e) ==> e is LedgerFull,
{
    if let Some(p) = &prev {
        if p.seq == i64::MAX {
            return Err(AutomationError::LedgerFull);
        }
    }
    Ok(ledger.append_next(prev.as_ref(), id, input))
}

/// The run once finished: same run, with this status, result, error and
/// finishing time.
pub open spec fn spec_finished(run: AutomationRun, status: RunStatus, result: Option<Seq<char>>, error: Option<Seq<char>>, now: Seq<char>, done: AutomationRun) -> bool {
    &&& same_run(done, run)
    &&& done.status == status
    &&& match result {
        Some(id) => done.result_document_id is Some && done.result_document_id->0@ == id,
        None => done.result_document_id is None,
    }
    &&& match error {
        Some(e) => done.error is Some && done.error->0@ == e,
        None => done.error is None,
    }
    &&& done.finished_at is Some && done.finished_at->0@ == now
}

/// The run finished with a result document.
pub fn succeeded_run(run: AutomationRun, result_id: &str, now: String) -> (done: AutomationRun)
    ensures
        spec_finished(run, RunStatus::Succeeded, Some(result_id@), None, now@, done),
{
    AutomationRun {
        id: run.id,
        workspace_id: run.workspace_id,
        rule_id: run.rule_id,
        source_document_id: run.source_document_id,
        result_document_id: Some(copy_str(result_id)),
        status: RunStatus::Succeeded,
        backend: run.backend,
        error: None,
        started_at: run.started_at,
        finished_at: Some(now),
    }
}

/// The run finished without a result, with this status and error.
pub fn unsuccessful_run(run: AutomationRun, status: RunStatus, error: String, now: String) -> (done: AutomationRun)
    ensures
        spec_finished(run, status, None, Some(error@), now@, done),
{
    AutomationRun {
        id: run.id,
        workspace_id: run.workspace_id,
        rule_id: run.rule_id,
        source_document_id: run.source_document_id,
        result_document_id: None,
        status,
        backend: run.backend,
        error: Some(error),
        started_at: run.started_at,
        finished_at: Some(now),
    }
}

/// What a success commits, all made at `now`: the result document named
/// `result_id`, its link from the memo to that document, and the run
/// finished with that document as its result.
pub open spec fn spec_success_records(
    run: AutomationRun,
    rule: AutomationRule,
    memo: MemoSnapshot,
    text: Seq<char>,
    now: Seq<char>,
    result_id: Seq<char>,
    records: (DocumentAsset, LineageInput, AutomationRun),
) -> bool {
    &&& spec_result_document(rule, memo, text, now, result_id, records.0)
    &&& spec_result_link(rule, memo, result_id, now, records.1)
    &&& spec_finished(run, RunStatus::Succeeded, Some(result_id), None, now, records.2)
}

/// A run finished by committing `text` as the result of `rule` on `memo`:
/// it was built together with a result document holding the text and a
/// `derived_from` link from the memo to that document, and names that
/// document as its result.
pub open spec fn committed_success(
    run: AutomationRun,
    rule: AutomationRule,
    memo: MemoSnapshot,
    text: Seq<char>,
    done: AutomationRun,
) -> bool {
    exists|records: (DocumentAsset, LineageInput, AutomationRun), now: Seq<char>|
        #[trigger] spec_success_records(run, rule, memo, text, now, records.0.id@, records) && records.2 == done
}

/// What a success commits (see [`spec_success_records`]).
pub fn success_records(
    run: AutomationRun,
    rule: &AutomationRule,
    memo: &MemoSnapshot,
    text: &str,
    now: String,
    result_id: String,
) -> (records: (DocumentAsset, LineageInput, AutomationRun))
    ensures
        spec_success_records(run, *rule, *memo, text@, now@, result_id@, records),
{
    let result = result_document(rule, memo, text, now.as_str(), result_id);
    let link = result_link(rule, memo, result.id.as_str(), now.as_str());
    let finished = succeeded_run(run, result.id.as_str(), now);
    (result, link, finished)
}

/// The message of a refusal.
pub fn refusal_text(category: &Option<String>) -> (m: String)
    ensures
        m@ == refusal_message(
            match category {
                Some(c) => Some(c@),
                None => None,
            },
        ),
{
    match category {
        Some(c) => {
            let mut m = copy_str("応答が拒否されました（");
            m.append(c.as_str());
            m.append("）");
            m
        },
        None => copy_str("応答が拒否されました"),
    }
}

/// A rule looked up by id: the rule the store found, `RuleNotFound` when it
/// has none, or its error.
pub fn found_rule(found: Result<Option<AutomationRule>, String>, rule_id: &str) -> (r: Result<AutomationRule, AutomationError>)
    ensures
        match found {
            Ok(Some(rule)) => r == Ok::<AutomationRule, AutomationError>(rule),
            Ok(None) => r matches Err(AutomationError::RuleNotFound(id)) && id@ == rule_id@,
            Err(e) => r == Err::<AutomationRule, AutomationError>(AutomationError::Port(e)),
        },
{
    match found {
        Ok(Some(rule)) => Ok(rule),
        Ok(None) => Err(AutomationError::RuleNotFound(copy_str(rule_id))),
        Err(e) => Err(AutomationError::Port(e)),
    }
}

/// A memo looked up by id: the memo the store found, `MemoNotFound` when it
/// has none, or its error.
pub fn found_memo(found: Result<Option<MemoSnapshot>, String>, memo_id: &str) -> (r: Result<MemoSnapshot, AutomationError>)
    ensures
        match found {
            Ok(Some(memo)) => r == Ok::<MemoSnapshot, AutomationError>(memo),
            Ok(None) => r matches Err(AutomationError::MemoNotFound(id)) && id@ == memo_id@,
            Err(e) => r == Err::<MemoSnapshot, AutomationError>(AutomationError::Port(e)),
        },
{
    match found {
        Ok(Some(memo)) => Ok(memo),
        Ok(None) => Err(AutomationError::MemoNotFound(copy_str(memo_id))),
        Err(e) => Err(AutomationError::Port(e)),
    }
}

/// The rules that can run on a memo, from what the stores answered: the
/// memo lookup first (a missing memo or a failure ends it), then the
/// workspace's rules kept in order when they take the memo.
pub fn rules_for_memo(memo: Result<MemoSnapshot, AutomationError>, rules: Result<Vec<AutomationRule>, String>) -> (r: Result<Vec<AutomationRule>, AutomationError>)
    ensures
        match memo {
            Err(e) => r == Err::<Vec<AutomationRule>, AutomationError>(e),
            Ok(m) => match rules {
                Ok(all) => r matches Ok(v) && v@ == rules_matching(all@, m),
                Err(e) => r == Err::<Vec<AutomationRule>, AutomationError>(AutomationError::Port(e)),
            },
        },
{
    let m = memo?;
    match rules {
        Ok(all) => Ok(keep_matching_rules(all, &m)),
        Err(e) => Err(AutomationError::Port(e)),
    }
}

/// The tag-match rules from what the store answered: the enabled tag-match
/// rules in order, or the store's error.
pub fn meta_match_rules_from(rules: Result<Vec<AutomationRule>, String>) -> (r: Result<Vec<AutomationRule>, AutomationError>)
    ensures
        match rules {
            Ok(all) => r matches Ok(v) && v@ == meta_match_rules_of(all@),
            Err(e) => r == Err::<Vec<AutomationRule>, AutomationError>(AutomationError::Port(e)),
        },
{
    match rules {
        Ok(all) => Ok(keep_meta_match_rules(all)),
        Err(e) => Err(AutomationError::Port(e)),
    }
}

/// Why deciding which schedules are due failed: the store's error, a time
/// that cannot be used, or a cron expression that cannot be read.
pub enum DueFault {
    Port(Seq<char>),
    Time(Seq<char>),
    Cron(Seq<char>),
}

/// The error that stands for a fault.
pub open spec fn is_due_fault(e: AutomationError, f: DueFault) -> bool {
    match f {
        DueFault::Port(m) => e matches AutomationError::Port(x) && x@ == m,
        DueFault::Time(v) => e matches AutomationError::InvalidTime(x) && x@ == v,
        DueFault::Cron(c) => e matches AutomationError::InvalidCron(x) && x@ == c,
    }
}

/// A rule that a schedule can fire: enabled, a schedule, with a cron text.
pub open spec fn schedule_rule(rule: AutomationRule) -> bool {
    rule.enabled && rule.trigger_kind == TriggerKind::Schedule && rule.trigger.cron is Some
}

/// Whether the cron text fires after `last` (written `last_text`) and by
/// `now`, as [`schedule_fires`] decides.
pub open spec fn spec_fires(cron: Seq<char>, last: int, last_text: Seq<char>, now: int) -> Result<bool, DueFault> {
    if last > CRON_LAST_START_MS {
        Err(DueFault::Time(last_text))
    } else {
        match cron_next_after(cron, last) {
            Some(next) => Ok(spec_due(next, now)),
            None => Err(DueFault::Cron(cron)),
        }
    }
}

/// The decision on one rule, given what the store answered for its last
/// start: a rule that is not a schedule rule is not due; otherwise it is due
/// when its next firing after the last start (or, never having run, after
/// now) has come by now.
pub open spec fn rule_decision(
    rule: AutomationRule,
    last: Result<Option<Seq<char>>, Seq<char>>,
    now: int,
    now_text: Seq<char>,
) -> Result<bool, DueFault> {
    if !schedule_rule(rule) {
        Ok(false)
    } else {
        match last {
            Err(e) => Err(DueFault::Port(e)),
            Ok(Some(v)) => match rfc3339_millis(v) {
                Some(ms) => spec_fires(rule.trigger.cron->0@, ms, v, now),
                None => Err(DueFault::Time(v)),
            },
            Ok(None) => spec_fires(rule.trigger.cron->0@, now, now_text, now),
        }
    }
}

/// The due rules, in order, or the first fault met going through them.
pub open spec fn spec_due_rules(
    rules: Seq<AutomationRule>,
    lasts: Seq<Result<Option<Seq<char>>, Seq<char>>>,
    now: int,
    now_text: Seq<char>,
) -> Result<Seq<AutomationRule>, DueFault>
    decreases rules.len(),
{
    if rules.len() == 0 {
        Ok(Seq::empty())
    } else {
        match spec_due_rules(rules.drop_last(), lasts.take(rules.len() - 1), now, now_text) {
            Err(f) => Err(f),
            Ok(due) => match rule_decision(rules.last(), lasts[rules.len() - 1], now, now_text) {
                Err(f) => Err(f),
                Ok(fire) => Ok(
                    if fire {
                        due.push(rules.last())
                    } else {
                        due
                    },
                ),
            },
        }
    }
}

pub open spec fn last_view(last: Result<Option<String>, String>) -> Result<Option<Seq<char>>, Seq<char>> {
    match last {
        Ok(Some(v)) => Ok(Some(v@)),
        Ok(None) => Ok(None),
        Err(e) => Err(e@),
    }
}

pub open spec fn lasts_view(lasts: Seq<Result<Option<String>, String>>) -> Seq<Result<Option<Seq<char>>, Seq<char>>> {
    lasts.map_values(|l: Result<Option<String>, String>| last_view(l))
}

/// Every due rule is a schedule rule.
pub proof fn lemma_due_rules_are_schedule_rules(
    rules: Seq<AutomationRule>,
    lasts: Seq<Result<Option<Seq<char>>, Seq<char>>>,
    now: int,
    now_text: Seq<char>,
)
    ensures
        spec_due_rules(rules, lasts, now, now_text) matches Ok(due) ==> forall|i: int|
            0 <= i < due.len() ==> schedule_rule(#[trigger] due[i]),
    decreases rules.len(),
{
    if rules.len() > 0 {
        lemma_due_rules_are_schedule_rules(rules.drop_last(), lasts.take(rules.len() - 1), now, now_text);
        if let Ok(due) = spec_due_rules(rules, lasts, now, now_text) {
            let prev = spec_due_rules(rules.drop_last(), lasts.take(rules.len() - 1), now, now_text)->Ok_0;
            assert forall|i: int| 0 <= i < due.len() implies schedule_rule(#[trigger] due[i]) by {
                if i < prev.len() {
                    assert(due[i] == prev[i]);
                }
            }
        }
    }
}

/// Only a rule the user left switched on can be due: every rule reported
/// due is enabled, is a schedule rule, and has a cron expression.
pub proof fn lemma_due_rules_are_enabled_schedules(
    rules: Seq<AutomationRule>,
    lasts: Seq<Result<Option<Seq<char>>, Seq<char>>>,
    now: int,
    now_text: Seq<char>,
)
    ensures
        spec_due_rules(rules, lasts, now, now_text) matches Ok(due) ==> forall|i: int|
            0 <= i < due.len() ==> {
                &&& (#[trigger] due[i]).enabled
                &&& due[i].trigger_kind == TriggerKind::Schedule
                &&& due[i].trigger.cron is Some
            },
{
    lemma_due_rules_are_schedule_rules(rules, lasts, now, now_text);
}

/// A rule that is switched off, or is not a schedule rule, is never due,
/// whatever the store answered for its last start.
pub proof fn lemma_disabled_rule_never_due(
    rules: Seq<AutomationRule>,
    lasts: Seq<Result<Option<Seq<char>>, Seq<char>>>,
    now: int,
    now_text: Seq<char>,
    k: int,
)
    requires
        0 <= k < rules.len(),
        !rules[k].enabled || rules[k].trigger_kind != TriggerKind::Schedule,
    ensures
        spec_due_rules(rules, lasts, now, now_text) matches Ok(due) ==> !due.contains(rules[k]),
{
    lemma_due_rules_are_enabled_schedules(rules, lasts, now, now_text);
}

/// Once the rules up to `k` meet a fault, taking more rules meets the same.
proof fn lemma_due_fault_persists(
    rules: Seq<AutomationRule>,
    lasts: Seq<Result<Option<Seq<char>>, Seq<char>>>,
    k: int,
    m: int,
    now: int,
    now_text: Seq<char>,
)
    requires
        0 <= k <= m <= rules.len() == lasts.len(),
        spec_due_rules(rules.take(k), lasts.take(k), now, now_text) is Err,
    ensures
        spec_due_rules(rules.take(m), lasts.take(m), now, now_text) == spec_due_rules(
            rules.take(k),
            lasts.take(k),
            now,
            now_text,
        ),
    decreases m - k,
{
    if m > k {
        lemma_due_fault_persists(rules, lasts, k, m - 1, now, now_text);
        assert(rules.take(m).drop_last() =~= rules.take(m - 1));
        assert(lasts.take(m).take(m - 1) =~= lasts.take(m - 1));
    }
}

/// The schedule rules due now, from the rules and what the store answered
/// for each one's last start (`lasts[i]` for `rules[i]`; rules that are not
/// schedule rules are not looked at).
pub fn due_rules(
    rules: Vec<AutomationRule>,
    lasts: Vec<Result<Option<String>, String>>,
    now: i64,
    now_text: &str,
) -> (r: Result<Vec<AutomationRule>, AutomationError>)
    requires
        lasts.len() == rules.len(),
    ensures
        match spec_due_rules(rules@, lasts_view(lasts@), now as int, now_text@) {
            Ok(due) => r matches Ok(v) && v@ == due,
            Err(f) => r matches Err(e) && is_due_fault(e, f),
        },
        r matches Ok(v) ==> forall|i: int|
            0 <= i < v@.len() ==> (#[trigger] v@[i]).enabled && v@[i].trigger_kind == TriggerKind::Schedule,
{
    let ghost all = rules@;
    let ghost lv = lasts_view(lasts@);
    let mut due: Vec<AutomationRule> = Vec::new();
    let mut pending = rules;
    let mut i: usize = 0;
    while i < lasts.len()
        invariant
            i <= lasts.len() == all.len(),
            lv == lasts_view(lasts@),
            pending@ == all.skip(i as int),
            all == rules@,
            spec_due_rules(all.take(i as int), lv.take(i as int), now as int, now_text@) == Ok::<
                Seq<AutomationRule>,
                DueFault,
            >(due@),
        decreases lasts.len() - i,
    {
        let rule = pending.remove(0);
        proof {
            assert(rule == all[i as int]);
            assert(all.take(i + 1).drop_last() =~= all.take(i as int));
            assert(lv.take(i + 1).take(i as int) =~= lv.take(i as int));
            assert(all.take(i + 1).last() == all[i as int]);
            assert(lv.take(i + 1)[i as int] == lv[i as int]);
            assert(lv[i as int] == last_view(lasts@[i as int]));
            assert(pending@ =~= all.skip(i + 1));
        }
        let decision: Result<bool, AutomationError> = if !(rule.enabled && rule.trigger_kind
            == TriggerKind::Schedule) {
            Ok(false)
        } else {
            match &rule.trigger.cron {
                None => Ok(false),
                Some(expression) => match &lasts[i] {
                    Err(e) => Err(AutomationError::Port(copy_str(e.as_str()))),
                    Ok(Some(value)) => match parse_time(value.as_str()) {
                        Err(e) => Err(e),
                        Ok(last) => schedule_fires(expression.as_str(), last, value.as_str(), now),
                    },
                    Ok(None) => schedule_fires(expression.as_str(), now, now_text, now),
                },
            }
        };
        assert(match rule_decision(rule, lv[i as int], now as int, now_text@) {
            Ok(b) => decision == Ok::<bool, AutomationError>(b),
            Err(f) => decision matches Err(e) && is_due_fault(e, f),
        });
        let fire = match decision {
            Err(e) => {
                proof {
                    let f = rule_decision(rule, lv[i as int], now as int, now_text@)->Err_0;
                    assert(spec_due_rules(all.take(i + 1), lv.take(i + 1), now as int, now_text@) == Err::<
                        Seq<AutomationRule>,
                        DueFault,
                    >(f));
                    lemma_due_fault_persists(all, lv, (i + 1) as int, all.len() as int, now as int, now_text@);
                    assert(all.take(all.len() as int) =~= all);
                    assert(lv.take(all.len() as int) =~= lv);
                    assert(spec_due_rules(all, lv, now as int, now_text@) == Err::<Seq<AutomationRule>, DueFault>(f));
                    assert(is_due_fault(e, f));
                }
                return Err(e);
            },
            Ok(fire) => fire,
        };
        if fire {
            due.push(rule);
        }
        i = i + 1;
    }
    proof {
        assert(all.take(i as int) =~= all);
        assert(lv.take(i as int) =~= lv);
        lemma_due_rules_are_enabled_schedules(all, lv, now as int, now_text@);
    }
    Ok(due)
}

impl<'a, S: AutomationStore> Automation<'a, S> {
    /// The rules that can run on one memo (the "Action" button beside a
    /// memo). Disabled rules and rules whose conditions the memo does not meet
    /// are left out; schedule rules are kept so they can be run by hand.
    pub fn matching_rules(&self, workspace_id: &str, memo_id: &str) -> (r: Result<
        Vec<AutomationRule>,
        AutomationError,
    >)
        ensures
            r is Ok ==> exists|all: Seq<AutomationRule>, memo: MemoSnapshot|
                memo.id@ == memo_id@ && r->Ok_0@ == #[trigger] rules_matching(all, memo),
            r matches Err(AutomationError::MemoNotFound(id)) ==> id@ == memo_id@,
    {
        let memo = self.require_memo(workspace_id, memo_id);
        if memo.is_err() {
            return rules_for_memo(memo, Ok(Vec::new()));
        }
        let rules = self.rules.all(workspace_id);
        rules_for_memo(memo, rules)
    }

    /// The prompt that would be sent: the rule's template filled with the memo.
    pub fn prompt(&self, workspace_id: &str, rule_id: &str, memo_id: &str) -> (r: Result<
        String,
        AutomationError,
    >)
        ensures
            r is Ok ==> exists|rule: AutomationRule, memo: MemoSnapshot, now: Seq<char>|
                rule.id@ == rule_id@ && memo.id@ == memo_id@ && r->Ok_0@ == #[trigger] spec_render_prompt(
                    rule.prompt@,
                    memo,
                    now,
                ),
            r matches Err(AutomationError::RuleNotFound(id)) ==> id@ == rule_id@,
            r matches Err(AutomationError::MemoNotFound(id)) ==> id@ == memo_id@,
    {
        let rule = self.require_rule(rule_id)?;
        let memo = self.require_memo(workspace_id, memo_id)?;
        let now = self.clock.now_rfc3339();
        let prompt = render_prompt(&rule, &memo, now.as_str());
        Ok(prompt)
    }

    /// Runs one rule on one memo with an API-key backend and commits the outcome.
    pub fn run(
        &self,
        workspace_id: &str,
        rule_id: &str,
        memo_id: &str,
        backend: &dyn InferenceBackend,
    ) -> (r: Result<AutomationRun, AutomationError>)
        ensures
            r matches Ok(run) ==> {
                &&& settled(run)
                &&& run.rule_id@ == rule_id@
                &&& run.source_document_id@ == memo_id@
            },
    {
        let rule = self.require_rule(rule_id)?;
        let memo = self.require_memo(workspace_id, memo_id)?;
        self.run_rule(&rule, &memo, backend)
    }

    /// Runs a rule on a memo at hand. The run is recorded as running first and
    /// always finished afterwards, whatever the backend answers, so no run is
    /// left `running` (which would keep the memo from being picked up again).
    pub fn run_rule(
        &self,
        rule: &AutomationRule,
        memo: &MemoSnapshot,
        backend: &dyn InferenceBackend,
    ) -> (r: Result<AutomationRun, AutomationError>)
        ensures
            r is Ok ==> run_of(r->Ok_0, *rule, *memo) && settled(r->Ok_0),
    {
        let run = self.begin(rule, memo)?;
        let request = inference_request(rule, memo, run.started_at.as_str());
        let answer = backend.complete(&request);
        self.settle(run, rule, memo, answer)
    }

    /// Finishes a started run with what the model answered: a text becomes
    /// the result document (succeeded), a refusal is recorded as refused
    /// with its message, and an error as failed with the error's text.
    pub fn settle(
        &self,
        run: AutomationRun,
        rule: &AutomationRule,
        memo: &MemoSnapshot,
        answer: Result<InferenceOutcome, String>,
    ) -> (r: Result<AutomationRun, AutomationError>)
        ensures
            r matches Ok(done) ==> same_run(done, run) && done.status != RunStatus::Running && done.finished_at is Some,
            r matches Ok(done) ==> match answer {
                Ok(InferenceOutcome::Completed(text)) => {
                    &&& done.status == RunStatus::Succeeded
                    &&& done.result_document_id is Some
                    &&& done.error is None
                    &&& committed_success(run, *rule, *memo, text@, done)
                },
                Ok(InferenceOutcome::Refused { category }) => {
                    &&& done.status == RunStatus::Refused
                    &&& done.result_document_id is None
                    &&& done.error is Some && done.error->0@ == refusal_message(
                        match category {
                            Some(c) => Some(c@),
                            None => None,
                        },
                    )
                },
                Err(e) => {
                    &&& done.status == RunStatus::Failed
                    &&& done.result_document_id is None
                    &&& done.error is Some && done.error->0@ == e@
                },
            },
            r matches Err(e) ==> e is Port || e is LedgerFull,
    {
        match answer {
            Ok(InferenceOutcome::Completed(text)) => self.finish_success(run, rule, memo, text.as_str()),
            Ok(InferenceOutcome::Refused { category }) => self.finish_refused(run, category),
            Err(error) => self.finish_failure(run, error.as_str()),
        }
    }

    /// Commits a result obtained elsewhere (the browser backend).
    pub fn record(&self, workspace_id: &str, rule_id: &str, memo_id: &str, text: &str) -> (r:
        Result<AutomationRun, AutomationError>)
        ensures
            r matches Ok(run) ==> {
                &&& run.status == RunStatus::Succeeded
                &&& settled(run)
                &&& run.rule_id@ == rule_id@
                &&& run.source_document_id@ == memo_id@
                &&& exists|rule: AutomationRule, memo: MemoSnapshot, started: AutomationRun|
                    rule.id@ == rule_id@ && memo.id@ == memo_id@ && #[trigger] committed_success(
                        started,
                        rule,
                        memo,
                        text@,
                        run,
                    )
            },
    {
        let rule = self.require_rule(rule_id)?;
        let memo = self.require_memo(workspace_id, memo_id)?;
        let run = self.begin(&rule, &memo)?;
        self.finish_success(run, &rule, &memo, text)
    }

    /// Records that a run elsewhere failed (for example, the browser was closed).
    pub fn record_failure(&self, workspace_id: &str, rule_id: &str, memo_id: &str, error: &str) -> (r:
        Result<AutomationRun, AutomationError>)
        ensures
            r matches Ok(run) ==> {
                &&& run.status == RunStatus::Failed
                &&& settled(run)
                &&& run.error->0@ == error@
                &&& run.result_document_id is None
                &&& run.rule_id@ == rule_id@
                &&& run.source_document_id@ == memo_id@
            },
            r matches Err(AutomationError::RuleNotFound(id)) ==> id@ == rule_id@,
            r matches Err(AutomationError::MemoNotFound(id)) ==> id@ == memo_id@,
    {
        let rule = self.require_rule(rule_id)?;
        let memo = self.require_memo(workspace_id, memo_id)?;
        let run = self.begin(&rule, &memo)?;
        self.finish_failure(run, error)
    }

    /// The memos a tag-match rule has not processed yet and takes. A disabled
    /// rule has none, without asking the store.
    pub fn pending(&self, workspace_id: &str, rule: &AutomationRule) -> (r: Result<
        Vec<MemoSnapshot>,
        AutomationError,
    >)
        ensures
            !rule.enabled ==> (r matches Ok(v) && v@.len() == 0),
            r is Ok ==> exists|unprocessed: Seq<MemoSnapshot>| r->Ok_0@ == #[trigger] memos_matching(unprocessed, *rule),
            r is Ok ==> forall|i: int| 0 <= i < r->Ok_0@.len() ==> spec_matches(*rule, #[trigger] r->Ok_0@[i]),
    {
        if !rule.enabled {
            let none: Vec<MemoSnapshot> = Vec::new();
            assert(none@ =~= memos_matching(Seq::empty(), *rule));
            return Ok(none);
        }
        let memos = match self.runs.unprocessed_memos(workspace_id, rule.id.as_str(), PENDING_SCAN_LIMIT) {
            Ok(memos) => memos,
            Err(e) => return Err(AutomationError::Port(e)),
        };
        let kept = keep_matching_memos(memos, rule);
        proof {
            lemma_memos_matching_all_match(memos@, *rule);
        }
        Ok(kept)
    }

    /// The enabled tag-match rules.
    pub fn meta_match_rules(&self, workspace_id: &str) -> (r: Result<
        Vec<AutomationRule>,
        AutomationError,
    >)
        ensures
            r is Ok ==> exists|all: Seq<AutomationRule>| r->Ok_0@ == #[trigger] meta_match_rules_of(all),
    {
        meta_match_rules_from(self.rules.all(workspace_id))
    }

    /// The schedule rules that should fire now: enabled, with a cron
    /// expression that fires after the rule's last start and no later than now.
    /// A rule that never ran counts from now, so it waits for its next firing
    /// instead of catching up on the past.
    pub fn due_schedules(&self, workspace_id: &str) -> (r: Result<Vec<AutomationRule>, AutomationError>)
        ensures
            r is Ok ==> forall|i: int| 0 <= i < r->Ok_0@.len() ==> schedule_rule(#[trigger] r->Ok_0@[i]),
            r is Ok ==> forall|i: int|
                0 <= i < r->Ok_0@.len() ==> (#[trigger] r->Ok_0@[i]).enabled && r->Ok_0@[i].trigger_kind
                    == TriggerKind::Schedule && r->Ok_0@[i].trigger.cron is Some,
            r is Ok ==> exists|rules: Seq<AutomationRule>, lasts: Seq<Result<Option<Seq<char>>, Seq<char>>>, now: int, now_text: Seq<char>|
                #[trigger] spec_due_rules(rules, lasts, now, now_text) == Ok::<Seq<AutomationRule>, DueFault>(r->Ok_0@),
    {
        let now_text = self.clock.now_rfc3339();
        let now = parse_time(now_text.as_str())?;
        let all = match self.rules.all(workspace_id) {
            Ok(all) => all,
            Err(e) => return Err(AutomationError::Port(e)),
        };
        let mut lasts: Vec<Result<Option<String>, String>> = Vec::new();
        let mut i: usize = 0;
        while i < all.len()
            invariant
                i <= all.len(),
                lasts.len() == i,
            decreases all.len() - i,
        {
            let rule = &all[i];
            if rule.enabled && rule.trigger_kind == TriggerKind::Schedule && rule.trigger.cron.is_some() {
                lasts.push(self.runs.last_started_at(rule.id.as_str()));
            } else {
                lasts.push(Ok(None));
            }
            i = i + 1;
        }
        let ghost rules_seen = all@;
        let ghost lasts_seen = lasts_view(lasts@);
        let due = due_rules(all, lasts, now, now_text.as_str());
        proof {
            if due is Ok {
                lemma_due_rules_are_schedule_rules(rules_seen, lasts_seen, now as int, now_text@);
            }
        }
        due
    }

    /// Records the run as `running`.
    fn begin(&self, rule: &AutomationRule, memo: &MemoSnapshot) -> (r: Result<AutomationRun, AutomationError>)
        ensures
            r is Ok ==> {
                let run = r->Ok_0;
                &&& run_of(run, *rule, *memo)
                &&& run.status == RunStatus::Running
                &&& run.result_document_id is None
                &&& run.error is None
                &&& run.finished_at is None
            },
            r matches Err(e) ==> e is Port,
    {
        let id = self.ids.new_id();
        let run = running_run(rule, memo, id, self.clock.now_rfc3339());
        match self.runs.start(&run) {
            Ok(()) => Ok(run),
            Err(e) => Err(AutomationError::Port(e)),
        }
    }

    /// Commits the result document, its `derived_from` link from the memo,
    /// and the run's success in one transaction, so none of them can exist
    /// without the others.
    fn finish_success(&self, run: AutomationRun, rule: &AutomationRule, memo: &MemoSnapshot, text: &str) -> (r:
        Result<AutomationRun, AutomationError>)
        ensures
            r is Ok ==> {
                let done = r->Ok_0;
                &&& same_run(done, run)
                &&& done.status == RunStatus::Succeeded
                &&& done.result_document_id is Some
                &&& done.error is None
                &&& done.finished_at is Some
            },
            r matches Ok(done) ==> committed_success(run, *rule, *memo, text@, done),
            r matches Err(e) ==> e is Port || e is LedgerFull,
    {
        let ghost run0 = run;
        let now = self.clock.now_rfc3339();
        let result_id = self.ids.new_id();
        let ghost at = now@;
        let (result, lineage_input, finished) = success_records(run, rule, memo, text, now, result_id);
        let done = copy_run(&finished);
        proof {
            let records = (result, lineage_input, finished);
            assert(spec_success_records(run0, *rule, *memo, text@, at, records.0.id@, records));
            assert(committed_success(run0, *rule, *memo, text@, done));
        }
        self.open_transaction()?;
        match self.write_success(&result, lineage_input, &finished) {
            Ok(()) => {
                self.commit_transaction()?;
                Ok(done)
            },
            Err(e) => {
                self.store.rollback();
                Err(e)
            },
        }
    }

    /// Inside an open transaction: the result document, then its link at the
    /// tail of the chain, then the run's outcome.
    fn write_success(&self, result: &DocumentAsset, input: LineageInput, finished: &AutomationRun) -> (r:
        Result<(), AutomationError>)
        ensures
            r matches Err(e) ==> e is Port || e is LedgerFull,
    {
        if let Err(e) = self.store.insert_document(result) {
            return Err(AutomationError::Port(e));
        }
        let prev = match self.store.last_link(result.workspace_id.as_str()) {
            Ok(prev) => prev,
            Err(e) => return Err(AutomationError::Port(e)),
        };
        let ledger = LineageLedger::new(self.hasher);
        let link = next_link(&ledger, prev, self.ids.new_id(), input)?;
        if let Err(e) = self.store.append_link(&link) {
            return Err(AutomationError::Port(e));
        }
        match self.store.finish_run(finished) {
            Ok(()) => Ok(()),
            Err(e) => Err(AutomationError::Port(e)),
        }
    }

    fn open_transaction(&self) -> (r: Result<(), AutomationError>)
        ensures
            r matches Err(e) ==> e is Port,
    {
        match self.store.begin() {
            Ok(()) => Ok(()),
            Err(e) => Err(AutomationError::Port(e)),
        }
    }

    fn commit_transaction(&self) -> (r: Result<(), AutomationError>)
        ensures
            r matches Err(e) ==> e is Port,
    {
        match self.store.commit() {
            Ok(()) => Ok(()),
            Err(e) => Err(AutomationError::Port(e)),
        }
    }

    fn finish_failure(&self, run: AutomationRun, error: &str) -> (r: Result<AutomationRun, AutomationError>)
        ensures
            r is Ok ==> {
                let done = r->Ok_0;
                &&& same_run(done, run)
                &&& done.status == RunStatus::Failed
                &&& done.result_document_id is None
                &&& done.error is Some && done.error->0@ == error@
                &&& done.finished_at is Some
            },
            r matches Err(e) ==> e is Port,
    {
        let finished = unsuccessful_run(run, RunStatus::Failed, copy_str(error), self.clock.now_rfc3339());
        self.finish_without_result(finished)
    }

    fn finish_refused(&self, run: AutomationRun, category: Option<String>) -> (r: Result<
        AutomationRun,
        AutomationError,
    >)
        ensures
            r is Ok ==> {
                let done = r->Ok_0;
                &&& same_run(done, run)
                &&& done.status == RunStatus::Refused
                &&& done.result_document_id is None
                &&& done.error is Some && done.error->0@ == refusal_message(
                    match category {
                        Some(c) => Some(c@),
                        None => None,
                    },
                )
                &&& done.finished_at is Some
            },
            r matches Err(e) ==> e is Port,
    {
        let message = refusal_text(&category);
        let finished = unsuccessful_run(run, RunStatus::Refused, message, self.clock.now_rfc3339());
        self.finish_without_result(finished)
    }

    fn finish_without_result(&self, run: AutomationRun) -> (r: Result<AutomationRun, AutomationError>)
        ensures
            r is Ok ==> r->Ok_0 == run,
            r matches Err(e) ==> e is Port,
    {
        self.open_transaction()?;
        match self.store.finish_run(&run) {
            Ok(()) => {
                self.commit_transaction()?;
                Ok(run)
            },
            Err(e) => {
                self.store.rollback();
                Err(AutomationError::Port(e))
            },
        }
    }

    fn require_rule(&self, rule_id: &str) -> (r: Result<AutomationRule, AutomationError>)
        ensures
            r matches Ok(rule) ==> rule.id@ == rule_id@,
            r matches Err(e) ==> (e matches AutomationError::RuleNotFound(id) && id@ == rule_id@) || e is Port,
    {
        found_rule(self.rules.get(rule_id), rule_id)
    }

    fn require_memo(&self, workspace_id: &str, memo_id: &str) -> (r: Result<MemoSnapshot, AutomationError>)
        ensures
            r matches Ok(memo) ==> memo.id@ == memo_id@,
            r matches Err(e) ==> (e matches AutomationError::MemoNotFound(id) && id@ == memo_id@) || e is Port,
    {
        found_memo(self.memos.get(workspace_id, memo_id), memo_id)
    }
}

fn copy_option(s: &Option<String>) -> (r: Option<String>)
    ensures
        r == *s,
{
    match s {
        Some(v) => Some(v.clone()),
        None => None,
    }
}

fn copy_run(run: &AutomationRun) -> (r: AutomationRun)
    ensures
        r == *run,
{
    AutomationRun {
        id: run.id.clone(),
        workspace_id: run.workspace_id.clone(),
        rule_id: run.rule_id.clone(),
        source_document_id: run.source_document_id.clone(),
        result_document_id: copy_option(&run.result_document_id),
        status: run.status,
        backend: run.backend,
        error: copy_option(&run.error),
        started_at: run.started_at.clone(),
        finished_at: copy_option(&run.finished_at),
    }
}

} // verus!
