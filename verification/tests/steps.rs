use lineage_core::domain::automation::{
    AutomationRule, BackendConfig, BackendKind, InferenceOutcome, MemoSnapshot, MetaCondition, RunStatus, Trigger,
    TriggerKind,
};
use lineage_core::domain::lineage::{LineageInput, LineageLedger, LineageRecord, VerifyResult};
use lineage_core::domain::meta::MetaAssignment;
use lineage_core::features::automation::run::{
    found_memo, found_rule, inference_request, meta_match_rules_from, next_link, result_document, result_link,
    rules_for_memo, running_run, succeeded_run, unsuccessful_run,
};
use lineage_core::features::automation::AutomationError;
use lineage_core::features::capture::{chain_links, CaptureError};
use lineage_core::infra::anthropic::{api_key_of, decoded_outcome, ContentBlock, MessageResponse};
use lineage_core::infra::crypto::Sha256Hasher;
use lineage_core::infra::migrations::{plan_opening, MigrationError, OpeningPlan};

fn rule(id: &str, label: &str) -> AutomationRule {
    AutomationRule {
        id: id.into(),
        workspace_id: "ws".into(),
        name: "要約".into(),
        description: None,
        prompt: "{{memo.metas}} / {{memo.body}}".into(),
        backend: BackendKind::ApiKey,
        backend_config: BackendConfig { provider: "anthropic".into(), model: Some("m".into()), effort: None },
        trigger_kind: TriggerKind::MetaMatch,
        trigger: Trigger { metas: vec![MetaCondition::label(label)], cron: None },
        enabled: true,
        created_at: "2026-08-13T00:00:00Z".into(),
        updated_at: "2026-08-13T00:00:00Z".into(),
    }
}

fn memo() -> MemoSnapshot {
    MemoSnapshot {
        id: "doc-1".into(),
        title: "SOXL 損切り".into(),
        body_text: "本文".into(),
        metas: vec![MetaAssignment::user("タスク", None)],
        created_at: "2026-08-13T00:00:00Z".into(),
    }
}

fn input(target: &str) -> LineageInput {
    LineageInput {
        workspace_id: "ws".into(),
        source_kind: "document".into(),
        source_id: "doc-1".into(),
        target_kind: "document".into(),
        target_id: target.into(),
        relation_type: "derived_from".into(),
        actor: "local".into(),
        created_at: "2026-08-13T09:00:00Z".into(),
    }
}

#[test]
fn the_rules_for_a_memo_follow_what_the_stores_answered() {
    let rules = vec![rule("rule-task", "タスク"), rule("rule-idea", "アイデア")];
    let found = found_memo(Ok(Some(memo())), "doc-1");
    let ids: Vec<String> = rules_for_memo(found, Ok(rules.clone())).unwrap().into_iter().map(|r| r.id).collect();
    assert_eq!(ids, vec!["rule-task"]);
    assert_eq!(
        rules_for_memo(found_memo(Ok(None), "doc-9"), Ok(rules)),
        Err(AutomationError::MemoNotFound("doc-9".into()))
    );
    assert_eq!(
        rules_for_memo(found_memo(Ok(Some(memo())), "doc-1"), Err("db".into())),
        Err(AutomationError::Port("db".into()))
    );
    assert_eq!(found_rule(Ok(None), "rule-x"), Err(AutomationError::RuleNotFound("rule-x".into())));
    let mut disabled = rule("off", "タスク");
    disabled.enabled = false;
    let kept = meta_match_rules_from(Ok(vec![disabled, rule("on", "タスク")])).unwrap();
    assert_eq!(kept.len(), 1);
    assert_eq!(kept[0].id, "on");
}

#[test]
fn a_run_starts_asks_and_finishes_as_stated() {
    let r = rule("rule-1", "タスク");
    let m = memo();
    let run = running_run(&r, &m, "run-1".into(), "2026-08-13T09:00:00Z".into());
    assert_eq!(run.status, RunStatus::Running);
    assert_eq!(run.source_document_id, "doc-1");
    let request = inference_request(&r, &m, run.started_at.as_str());
    assert_eq!(request.prompt, "#タスク / 本文");
    assert_eq!(request.model, Some("m".into()));

    let doc = result_document(&r, &m, "3行の要約", "2026-08-13T09:00:05Z", "doc-2".into());
    assert_eq!(doc.title, "要約: SOXL 損切り");
    assert_eq!(doc.body_text, "3行の要約");
    assert_eq!(doc.document_type, "automation_result");
    let link = result_link(&r, &m, "doc-2", "2026-08-13T09:00:05Z");
    assert_eq!(link.actor, "automation:rule-1");
    assert_eq!((link.source_id.as_str(), link.target_id.as_str()), ("doc-1", "doc-2"));
    let done = succeeded_run(run.clone(), "doc-2", "2026-08-13T09:00:05Z".into());
    assert_eq!(done.result_document_id, Some("doc-2".into()));
    let failed = unsuccessful_run(run, RunStatus::Failed, "boom".into(), "t".into());
    assert_eq!((failed.status, failed.error, failed.result_document_id), (RunStatus::Failed, Some("boom".into()), None));
}

#[test]
fn new_links_follow_the_stored_tail() {
    let hasher = Sha256Hasher;
    let ledger = LineageLedger::new(&hasher);
    let first = next_link(&ledger, None, "l1".into(), input("doc-2")).unwrap();
    assert_eq!((first.seq, first.prev_hash.as_str()), (1, ""));
    let second = next_link(&ledger, Some(first.clone()), "l2".into(), input("doc-3")).unwrap();
    assert_eq!(second.seq, 2);
    assert_eq!(second.prev_hash, first.content_hash);
    assert_eq!(ledger.verify(&[first.clone(), second.clone()]), VerifyResult::Intact { checked: 2 });
    let mut full = second.clone();
    full.seq = i64::MAX;
    assert_eq!(next_link(&ledger, Some(full.clone()), "l3".into(), input("doc-4")), Err(AutomationError::LedgerFull));

    let links: Vec<LineageRecord> =
        chain_links(&ledger, Some(second.clone()), vec!["a".into(), "b".into()], &vec![input("x"), input("y")]).unwrap();
    assert_eq!((links[0].seq, links[1].seq), (3, 4));
    assert_eq!(links[0].prev_hash, second.content_hash);
    assert_eq!(links[1].prev_hash, links[0].content_hash);
    assert_eq!(
        chain_links(&ledger, Some(full), vec!["a".into()], &vec![input("x")]),
        Err(CaptureError::LedgerFull)
    );
}

#[test]
fn the_key_and_the_reply_read_as_stated() {
    assert_eq!(api_key_of(Ok(Some("sk".into()))), Ok("sk".to_string()));
    assert_eq!(
        api_key_of(Ok(None)),
        Err("anthropic の API キーが未登録です。設定画面で登録してください".to_string())
    );
    assert_eq!(api_key_of(Err("keyring".into())), Err("keyring".to_string()));
    let answer = MessageResponse {
        content: vec![ContentBlock { kind: "text".into(), text: Some("要約".into()) }],
        stop_reason: Some("end_turn".into()),
        refusal_category: None,
    };
    assert_eq!(decoded_outcome(Ok(answer)), Ok(InferenceOutcome::Completed("要約".into())));
    assert_eq!(decoded_outcome(Err("eof".into())), Err("応答を解釈できません: eof".to_string()));
}

#[test]
fn opening_refuses_newer_or_unknown_databases_and_upgrades_older_ones() {
    let empty = Vec::new();
    assert_eq!(plan_opening(99, &empty, Vec::new(), &empty), Err(MigrationError::NewerVersion { found: 99 }));
    let objects = vec![("view".to_string(), "v".to_string())];
    assert_eq!(plan_opening(0, &empty, objects.clone(), &empty), Err(MigrationError::UnexpectedObjects(objects)));
    assert_eq!(plan_opening(0, &empty, Vec::new(), &empty), Ok(OpeningPlan::Upgrade { adopt: false }));
    assert_eq!(plan_opening(1, &empty, Vec::new(), &empty), Ok(OpeningPlan::Current));
}
