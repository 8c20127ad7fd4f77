use std::cell::RefCell;

use lineage_core::agentos::{
    count_failures, exit_code_for, poll, schedule_due, tick_exit_code, verify_exit_code,
    EXIT_NOT_SUCCEEDED,
};
use lineage_core::domain::automation::{
    AutomationRule, AutomationRun, BackendConfig, BackendKind, InferenceOutcome,
    MemoSnapshot, MetaCondition, RunStatus, Trigger, TriggerKind,
    DOCUMENT_TYPE_AUTOMATION_RESULT,
};
use lineage_core::domain::capture::DocumentAsset;
use lineage_core::domain::lineage::{relation, LineageLedger, LineageRecord, VerifyResult};
use lineage_core::domain::meta::MetaAssignment;
use lineage_core::domain::ports::{
    AutomationRuleQuery, AutomationRunStore, AutomationStore, AutomationTx,
    LedgerTx, LineageQuery, MemoQuery,
};
use lineage_core::features::automation::run::Automation;
use lineage_core::features::automation::schedule::{is_due, parse_time, schedule_fires, CRON_LAST_START_MS};
use lineage_core::features::automation::backend::{rule, StubBackend};
use lineage_core::features::automation::{reject_browser_backend, AutomationError};
use lineage_core::infra::clock::{FixedClock, SequentialIds};
use lineage_core::infra::crypto::Sha256Hasher;

#[derive(Clone, Default)]
struct State {
    memos: Vec<MemoSnapshot>,
    documents: Vec<DocumentAsset>,
    rules: Vec<AutomationRule>,
    runs: Vec<AutomationRun>,
    links: Vec<LineageRecord>,
}

#[derive(Default)]
struct MemoryDb {
    state: RefCell<State>,
    saved: RefCell<Option<State>>,
}

impl AutomationRuleQuery for MemoryDb {
    fn all(&self, workspace_id: &str) -> Result<Vec<AutomationRule>, String> {
        Ok(self
            .state
            .borrow()
            .rules
            .iter()
            .filter(|r| r.workspace_id == workspace_id)
            .cloned()
            .collect())
    }

    fn get(&self, id: &str) -> Result<Option<AutomationRule>, String> {
        Ok(self.state.borrow().rules.iter().find(|r| r.id == id).cloned())
    }
}

impl AutomationRunStore for MemoryDb {
    fn start(&self, run: &AutomationRun) -> Result<(), String> {
        self.state.borrow_mut().runs.push(run.clone());
        Ok(())
    }

    fn recent(&self, workspace_id: &str, limit: usize) -> Result<Vec<AutomationRun>, String> {
        Ok(self
            .state
            .borrow()
            .runs
            .iter()
            .rev()
            .filter(|r| r.workspace_id == workspace_id)
            .take(limit)
            .cloned()
            .collect())
    }

    fn unprocessed_memos(
        &self,
        _workspace_id: &str,
        rule_id: &str,
        scan_limit: usize,
    ) -> Result<Vec<MemoSnapshot>, String> {
        let state = self.state.borrow();
        Ok(state
            .memos
            .iter()
            .rev()
            .filter(|memo| {
                !state.runs.iter().any(|run| {
                    run.rule_id == rule_id
                        && run.source_document_id == memo.id
                        && matches!(run.status, RunStatus::Succeeded | RunStatus::Running)
                })
            })
            .take(scan_limit)
            .cloned()
            .collect())
    }

    fn last_started_at(&self, rule_id: &str) -> Result<Option<String>, String> {
        Ok(self
            .state
            .borrow()
            .runs
            .iter()
            .filter(|r| r.rule_id == rule_id)
            .map(|r| r.started_at.clone())
            .max())
    }
}

impl MemoQuery for MemoryDb {
    fn get(&self, _workspace_id: &str, document_id: &str) -> Result<Option<MemoSnapshot>, String> {
        Ok(self
            .state
            .borrow()
            .memos
            .iter()
            .find(|m| m.id == document_id)
            .cloned())
    }
}

impl LedgerTx for MemoryDb {
    fn insert_document(&self, document: &DocumentAsset) -> Result<(), String> {
        self.state.borrow_mut().documents.push(document.clone());
        Ok(())
    }

    fn last_link(&self, workspace_id: &str) -> Result<Option<LineageRecord>, String> {
        Ok(self
            .state
            .borrow()
            .links
            .iter()
            .filter(|l| l.workspace_id == workspace_id)
            .max_by_key(|l| l.seq)
            .cloned())
    }

    fn append_link(&self, link: &LineageRecord) -> Result<(), String> {
        self.state.borrow_mut().links.push(link.clone());
        Ok(())
    }
}

impl AutomationTx for MemoryDb {
    fn finish_run(&self, run: &AutomationRun) -> Result<(), String> {
        let mut state = self.state.borrow_mut();
        match state.runs.iter_mut().find(|r| r.id == run.id) {
            Some(stored) => {
                *stored = run.clone();
                Ok(())
            }
            None => Err(format!("no run {}", run.id)),
        }
    }
}

impl AutomationStore for MemoryDb {
    fn begin(&self) -> Result<(), String> {
        *self.saved.borrow_mut() = Some(self.state.borrow().clone());
        Ok(())
    }

    fn commit(&self) -> Result<(), String> {
        *self.saved.borrow_mut() = None;
        Ok(())
    }

    fn rollback(&self) {
        if let Some(saved) = self.saved.borrow_mut().take() {
            *self.state.borrow_mut() = saved;
        }
    }
}

impl LineageQuery for MemoryDb {
    fn list(&self, workspace_id: &str) -> Result<Vec<LineageRecord>, String> {
        Ok(self
            .state
            .borrow()
            .links
            .iter()
            .filter(|l| l.workspace_id == workspace_id)
            .cloned()
            .collect())
    }
}

struct Fixture {
    db: MemoryDb,
    clock: FixedClock,
    ids: SequentialIds,
    hasher: Sha256Hasher,
}

impl Fixture {
    fn new() -> Self {
        Self {
            db: MemoryDb::default(),
            clock: FixedClock::new("2026-08-13T09:00:00Z"),
            ids: SequentialIds::new(),
            hasher: Sha256Hasher,
        }
    }

    fn automation(&self) -> Automation<'_, MemoryDb> {
        Automation {
            rules: &self.db,
            runs: &self.db,
            memos: &self.db,
            store: &self.db,
            clock: &self.clock,
            ids: &self.ids,
            hasher: &self.hasher,
        }
    }

    fn write_memo(&self, id: &str, body: &str, metas: &[MetaAssignment]) {
        let document = DocumentAsset::memo(id, "ws", body, "2026-08-13T08:00:00Z");
        let mut state = self.db.state.borrow_mut();
        state.memos.push(MemoSnapshot {
            id: id.into(),
            title: document.title.clone(),
            body_text: document.body_text.clone(),
            metas: metas.to_vec(),
            created_at: document.created_at.clone(),
        });
        state.documents.push(document);
    }

    fn write_rule(&self, rule: &AutomationRule) {
        self.db.state.borrow_mut().rules.push(rule.clone());
    }
}


#[test]
fn a_successful_run_stores_the_result_and_extends_the_chain() {
    let f = Fixture::new();
    f.write_memo("doc-1", "SOXL 損切り\n理由は決算", &[]);
    f.write_rule(&rule("rule-1", TriggerKind::Manual, Trigger::default()));

    let backend = StubBackend(Ok(InferenceOutcome::Completed("3行の要約".into())));
    let run = f
        .automation()
        .run("ws", "rule-1", "doc-1", &backend)
        .unwrap();

    assert_eq!(run.status, RunStatus::Succeeded);
    let result_id = run.result_document_id.clone().unwrap();

    let state = f.db.state.borrow();
    let result = state.documents.iter().find(|d| d.id == result_id).unwrap();
    assert_eq!(result.title, "要約: SOXL 損切り");
    assert_eq!(result.body_text, "3行の要約");
    assert_eq!(result.document_type, DOCUMENT_TYPE_AUTOMATION_RESULT);
    drop(state);

    let records = LineageQuery::list(&f.db, "ws").unwrap();
    assert_eq!(records.len(), 1);
    assert_eq!(records[0].source_id, "doc-1");
    assert_eq!(records[0].target_id, result_id);
    assert_eq!(records[0].relation_type, relation::DERIVED_FROM);
    assert_eq!(records[0].actor, "automation:rule-1");
    assert_eq!(
        LineageLedger::new(&f.hasher).verify(&records),
        VerifyResult::Intact { checked: 1 }
    );
}

#[test]
fn a_backend_error_is_recorded_as_a_failed_run() {
    let f = Fixture::new();
    f.write_memo("doc-1", "メモ", &[]);
    f.write_rule(&rule("rule-1", TriggerKind::Manual, Trigger::default()));

    let backend = StubBackend(Err("鍵が未登録です"));
    let run = f
        .automation()
        .run("ws", "rule-1", "doc-1", &backend)
        .unwrap();

    assert_eq!(run.status, RunStatus::Failed);
    assert!(run.error.unwrap().contains("鍵が未登録"));
    assert!(run.result_document_id.is_none());
    assert!(LineageQuery::list(&f.db, "ws").unwrap().is_empty());
}

#[test]
fn a_refusal_is_recorded_separately_from_a_failure() {
    let f = Fixture::new();
    f.write_memo("doc-1", "メモ", &[]);
    f.write_rule(&rule("rule-1", TriggerKind::Manual, Trigger::default()));

    let backend = StubBackend(Ok(InferenceOutcome::Refused {
        category: Some("cyber".into()),
    }));
    let run = f
        .automation()
        .run("ws", "rule-1", "doc-1", &backend)
        .unwrap();

    assert_eq!(run.status, RunStatus::Refused);
    assert!(run.error.unwrap().contains("cyber"));
}

#[test]
fn pending_skips_memos_that_already_succeeded() {
    let f = Fixture::new();
    f.write_memo("doc-1", "メモ1", &[MetaAssignment::user("タスク", None)]);
    f.write_memo("doc-2", "メモ2", &[MetaAssignment::user("タスク", None)]);
    f.write_memo("doc-3", "メモ3", &[MetaAssignment::user("投資", None)]);

    let r = rule(
        "rule-1",
        TriggerKind::MetaMatch,
        Trigger {
            metas: vec![MetaCondition::label("タスク")],
            cron: None,
        },
    );
    f.write_rule(&r);
    let automation = f.automation();

    let pending = automation.pending("ws", &r).unwrap();
    assert_eq!(pending.len(), 2);

    let backend = StubBackend(Ok(InferenceOutcome::Completed("要約".into())));
    automation.run("ws", "rule-1", "doc-1", &backend).unwrap();

    let pending = automation.pending("ws", &r).unwrap();
    assert_eq!(pending.len(), 1);
    assert_eq!(pending[0].id, "doc-2");
}

#[test]
fn pending_returns_a_failed_memo_again_so_it_can_be_retried() {
    let f = Fixture::new();
    f.write_memo("doc-1", "メモ", &[]);
    let r = rule("rule-1", TriggerKind::MetaMatch, Trigger::default());
    f.write_rule(&r);
    let automation = f.automation();

    let backend = StubBackend(Err("通信できません"));
    automation.run("ws", "rule-1", "doc-1", &backend).unwrap();

    assert_eq!(automation.pending("ws", &r).unwrap().len(), 1);
}

#[test]
fn matching_rules_filters_by_the_memos_metadata() {
    let f = Fixture::new();
    f.write_memo("doc-1", "メモ", &[MetaAssignment::user("タスク", None)]);
    f.write_rule(&rule(
        "rule-task",
        TriggerKind::Manual,
        Trigger {
            metas: vec![MetaCondition::label("タスク")],
            cron: None,
        },
    ));
    f.write_rule(&rule(
        "rule-idea",
        TriggerKind::Manual,
        Trigger {
            metas: vec![MetaCondition::label("アイデア")],
            cron: None,
        },
    ));

    let found = f.automation().matching_rules("ws", "doc-1").unwrap();
    assert_eq!(
        found.iter().map(|r| r.id.as_str()).collect::<Vec<_>>(),
        vec!["rule-task"]
    );
}

#[test]
fn the_prompt_gets_the_memos_body_and_metadata() {
    let f = Fixture::new();
    f.write_memo("doc-1", "本文", &[MetaAssignment::user("タスク", None)]);
    let mut r = rule("rule-1", TriggerKind::Manual, Trigger::default());
    r.prompt = "{{memo.metas}} / {{memo.body}}".into();
    f.write_rule(&r);

    assert_eq!(
        f.automation().prompt("ws", "rule-1", "doc-1").unwrap(),
        "#タスク / 本文"
    );
}

#[test]
fn run_a_browser_rule_is_rejected_where_there_is_no_webview() {
    let mut r = rule("rule-1", TriggerKind::Manual, Trigger::default());
    r.backend = BackendKind::Browser;
    let error = reject_browser_backend(&r).unwrap_err();
    assert!(error.message().contains("browser_backend_unsupported"));

    r.backend = BackendKind::ApiKey;
    assert!(reject_browser_backend(&r).is_ok());
}

#[test]
fn an_unknown_rule_or_memo_is_reported_rather_than_silently_skipped() {
    let f = Fixture::new();
    let automation = f.automation();
    assert_eq!(
        automation.prompt("ws", "missing", "doc-1").unwrap_err(),
        AutomationError::RuleNotFound("missing".into())
    );

    f.write_rule(&rule("rule-1", TriggerKind::Manual, Trigger::default()));
    assert_eq!(
        automation.prompt("ws", "rule-1", "missing").unwrap_err(),
        AutomationError::MemoNotFound("missing".into())
    );
}

#[test]
fn run_a_schedule_fires_once_its_next_occurrence_has_passed() {
    let last = parse_time("2026-08-13T08:00:00Z").unwrap();
    let hourly = "0 0 * * * *";

    assert!(!is_due(hourly, last, parse_time("2026-08-13T08:30:00Z").unwrap()).unwrap());
    assert!(is_due(hourly, last, parse_time("2026-08-13T09:00:00Z").unwrap()).unwrap());
    assert!(is_due(hourly, last, parse_time("2026-08-13T09:30:00Z").unwrap()).unwrap());
}

#[test]
fn run_a_broken_cron_expression_is_reported() {
    let now = parse_time("2026-08-13T09:00:00Z").unwrap();
    assert!(is_due("まいにち", now, now).is_err());
}

#[test]
fn a_rule_that_never_ran_waits_for_its_next_occurrence() {
    let f = Fixture::new();
    let mut r = rule(
        "rule-1",
        TriggerKind::Schedule,
        Trigger {
            metas: Vec::new(),
            cron: Some("0 0 * * * *".into()),
        },
    );
    r.prompt = "定型".into();
    f.write_rule(&r);

    assert!(f.automation().due_schedules("ws").unwrap().is_empty());
}

#[test]
fn a_schedule_that_ran_an_hour_ago_is_due() {
    let f = Fixture::new();
    let r = rule(
        "rule-1",
        TriggerKind::Schedule,
        Trigger {
            metas: Vec::new(),
            cron: Some("0 0 * * * *".into()),
        },
    );
    f.write_rule(&r);
    f.write_memo("doc-1", "メモ", &[]);
    let backend = StubBackend(Ok(InferenceOutcome::Completed("結果".into())));
    let memo = f.db.state.borrow().memos[0].clone();
    let run = f.automation().run_rule(&r, &memo, &backend);
    assert!(run.is_ok());
    f.db.state.borrow_mut().runs[0].started_at = "2026-08-13T07:30:00Z".into();
    let due = f.automation().due_schedules("ws").unwrap();
    assert_eq!(due.len(), 1);
    assert_eq!(due[0].id, "rule-1");
}

#[test]
fn recording_a_browser_result_or_failure_finishes_the_run() {
    let f = Fixture::new();
    f.write_memo("doc-1", "SOXL", &[]);
    f.write_rule(&rule("rule-1", TriggerKind::Manual, Trigger::default()));
    let run = f.automation().record("ws", "rule-1", "doc-1", "外で得た答え").unwrap();
    assert_eq!(run.status, RunStatus::Succeeded);
    assert!(run.finished_at.is_some());
    let failed = f
        .automation()
        .record_failure("ws", "rule-1", "doc-1", "ウィンドウが閉じられました")
        .unwrap();
    assert_eq!(failed.status, RunStatus::Failed);
    assert_eq!(failed.error.as_deref(), Some("ウィンドウが閉じられました"));
    let stored = f.db.recent("ws", 10).unwrap();
    assert!(stored.iter().all(|r| r.status != RunStatus::Running));
}

#[test]
fn a_refusal_without_a_category_has_the_plain_message() {
    let f = Fixture::new();
    f.write_memo("doc-1", "メモ", &[]);
    f.write_rule(&rule("rule-1", TriggerKind::Manual, Trigger::default()));
    let backend = StubBackend(Ok(InferenceOutcome::Refused { category: None }));
    let run = f.automation().run("ws", "rule-1", "doc-1", &backend).unwrap();
    assert_eq!(run.error.as_deref(), Some("応答が拒否されました"));
    let backend = StubBackend(Ok(InferenceOutcome::Refused {
        category: Some("cyber".into()),
    }));
    let run = f.automation().run("ws", "rule-1", "doc-1", &backend).unwrap();
    assert_eq!(run.error.as_deref(), Some("応答が拒否されました（cyber）"));
}

fn run_with(status: RunStatus) -> AutomationRun {
    AutomationRun {
        id: "run-1".into(),
        workspace_id: "ws".into(),
        rule_id: "rule-1".into(),
        source_document_id: "doc-1".into(),
        result_document_id: None,
        status,
        backend: BackendKind::ApiKey,
        error: None,
        started_at: "2026-08-13T09:00:00Z".into(),
        finished_at: None,
    }
}

#[test]
fn a_failed_run_exits_with_its_own_code() {
    assert_eq!(exit_code_for(&run_with(RunStatus::Succeeded)), 0);
    assert_eq!(exit_code_for(&run_with(RunStatus::Failed)), EXIT_NOT_SUCCEEDED);
    assert_eq!(exit_code_for(&run_with(RunStatus::Refused)), EXIT_NOT_SUCCEEDED);
}

#[test]
fn a_tick_reports_the_worse_half_and_a_broken_chain_is_not_a_success() {
    assert_eq!(tick_exit_code(0, 2), 2);
    assert_eq!(tick_exit_code(2, 0), 2);
    assert_eq!(tick_exit_code(0, 0), 0);
    assert_eq!(verify_exit_code(&VerifyResult::Intact { checked: 3 }), 0);
    assert_eq!(
        verify_exit_code(&VerifyResult::Broken {
            broken_at: 2,
            reason: lineage_core::domain::lineage::BrokenReason::PrevHashMismatch,
        }),
        EXIT_NOT_SUCCEEDED
    );
    let runs = vec![
        run_with(RunStatus::Succeeded),
        run_with(RunStatus::Failed),
        run_with(RunStatus::Refused),
    ];
    assert_eq!(count_failures(&runs), 2);
}

#[test]
fn poll_runs_pending_memos_up_to_the_limit_and_skips_browser_rules() {
    let f = Fixture::new();
    for i in 0..3 {
        f.write_memo(&format!("doc-{i}"), "メモ", &[MetaAssignment::user("タスク", None)]);
    }
    let mut browser = rule(
        "rule-browser",
        TriggerKind::MetaMatch,
        Trigger {
            metas: vec![MetaCondition::label("タスク")],
            cron: None,
        },
    );
    browser.backend = BackendKind::Browser;
    browser.name = "ブラウザ要約".into();
    f.write_rule(&browser);
    f.write_rule(&rule(
        "rule-api",
        TriggerKind::MetaMatch,
        Trigger {
            metas: vec![MetaCondition::label("タスク")],
            cron: None,
        },
    ));
    let backend = StubBackend(Ok(InferenceOutcome::Completed("要約".into())));
    let batch = poll(&f.automation(), "ws", 2, &backend).unwrap();
    assert_eq!(batch.runs.len(), 2);
    assert_eq!(batch.skipped_rules, vec!["ブラウザ要約".to_string()]);
    assert!(batch.runs.iter().all(|r| r.status == RunStatus::Succeeded));
    let batch = poll(&f.automation(), "ws", 20, &backend).unwrap();
    assert_eq!(batch.runs.len(), 1);
    let batch = schedule_due(&f.automation(), "ws", &backend).unwrap();
    assert!(batch.runs.is_empty());
}

#[test]
fn a_start_past_what_cron_can_search_from_is_refused() {
    let now = parse_time("2026-08-13T09:00:00Z").unwrap();
    assert_eq!(
        schedule_fires("0 0 * * * *", i64::MAX, "far", now),
        Err(AutomationError::InvalidTime("far".to_string()))
    );
    assert_eq!(schedule_fires("0 0 * * * *", CRON_LAST_START_MS, "edge", now), Ok(false));
    assert_eq!(schedule_fires("0 0 * * * *", now - 3_600_000, "t", now), Ok(true));
}
