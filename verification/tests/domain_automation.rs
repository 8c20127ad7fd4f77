use lineage_core::features::automation::run::{keep_matching_memos, keep_matching_rules, keep_meta_match_rules};
use lineage_core::domain::automation::{
    render_prompt, result_title, AutomationRule, BackendConfig, BackendKind, MemoSnapshot,
    MetaCondition, RunStatus, Trigger, TriggerKind,
};
use lineage_core::domain::meta::MetaAssignment;

fn memo(metas: Vec<MetaAssignment>) -> MemoSnapshot {
    MemoSnapshot {
        id: "doc-1".into(),
        title: "SOXL 損切り".into(),
        body_text: "SOXL 損切り\n理由は決算前のボラ".into(),
        metas,
        created_at: "2026-08-13T00:00:00Z".into(),
    }
}

fn rule(trigger: Trigger) -> AutomationRule {
    AutomationRule {
        id: "rule-1".into(),
        workspace_id: "ws".into(),
        name: "要約".into(),
        description: None,
        prompt: "次の記録を要約して:\n{{memo.body}}".into(),
        backend: BackendKind::ApiKey,
        backend_config: BackendConfig {
            provider: "anthropic".into(),
            model: None,
            effort: None,
        },
        trigger_kind: TriggerKind::MetaMatch,
        trigger,
        enabled: true,
        created_at: "2026-08-13T00:00:00Z".into(),
        updated_at: "2026-08-13T00:00:00Z".into(),
    }
}

fn takes(rule: &AutomationRule, memo: &MemoSnapshot) -> bool {
    lineage_core::domain::automation::matches(rule, memo)
}

#[test]
fn a_rule_without_conditions_takes_every_memo() {
    assert!(takes(&rule(Trigger::default()), &memo(Vec::new())));
}

#[test]
fn a_label_condition_ignores_the_value() {
    let r = rule(Trigger {
        metas: vec![MetaCondition::label("タスク")],
        cron: None,
    });
    assert!(takes(&r, &memo(vec![MetaAssignment::user("タスク", None)])));
    assert!(takes(
        &r,
        &memo(vec![MetaAssignment::user("タスク", Some("急ぎ".into()))])
    ));
    assert!(!takes(&r, &memo(vec![MetaAssignment::user("投資", None)])));
}

#[test]
fn a_value_condition_needs_an_exact_value() {
    let r = rule(Trigger {
        metas: vec![MetaCondition {
            label: "app".into(),
            value: Some("chrome.exe".into()),
        }],
        cron: None,
    });
    assert!(takes(&r, &memo(vec![MetaAssignment::auto("app", "chrome.exe")])));
    assert!(!takes(&r, &memo(vec![MetaAssignment::auto("app", "code.exe")])));
    assert!(!takes(&r, &memo(vec![MetaAssignment::user("app", None)])));
}

#[test]
fn conditions_are_combined_with_and() {
    let r = rule(Trigger {
        metas: vec![MetaCondition::label("タスク"), MetaCondition::label("投資")],
        cron: None,
    });
    assert!(!takes(&r, &memo(vec![MetaAssignment::user("タスク", None)])));
    assert!(takes(
        &r,
        &memo(vec![
            MetaAssignment::user("タスク", None),
            MetaAssignment::user("投資", None),
        ])
    ));
}

#[test]
fn a_disabled_rule_never_matches() {
    let mut r = rule(Trigger::default());
    r.enabled = false;
    assert!(!takes(&r, &memo(Vec::new())));
}

#[test]
fn renders_every_placeholder() {
    let mut r = rule(Trigger::default());
    r.prompt = "[{{memo.title}}] {{memo.metas}} @{{now}}\n{{memo.body}}".into();
    let m = memo(vec![
        MetaAssignment::user("タスク", None),
        MetaAssignment::auto("app", "chrome.exe"),
    ]);

    assert_eq!(
        render_prompt(&r, &m, "2026-08-13T09:00:00Z"),
        "[SOXL 損切り] #タスク #app=chrome.exe @2026-08-13T09:00:00Z\nSOXL 損切り\n理由は決算前のボラ"
    );
}

#[test]
fn a_template_without_placeholders_is_used_as_is() {
    let mut r = rule(Trigger::default());
    r.prompt = "今日のタスクを3行でまとめて".into();
    assert_eq!(
        render_prompt(&r, &memo(Vec::new()), "2026-08-13T09:00:00Z"),
        "今日のタスクを3行でまとめて"
    );
}

#[test]
fn the_result_title_names_both_the_rule_and_the_memo() {
    assert_eq!(
        result_title(&rule(Trigger::default()), &memo(Vec::new())),
        "要約: SOXL 損切り"
    );
}

#[test]
fn backend_and_trigger_round_trip_through_their_stored_strings() {
    for backend in [BackendKind::ApiKey, BackendKind::Browser] {
        assert_eq!(BackendKind::parse(backend.as_str()), Some(backend));
    }
    for trigger in [TriggerKind::Manual, TriggerKind::MetaMatch, TriggerKind::Schedule] {
        assert_eq!(TriggerKind::parse(trigger.as_str()), Some(trigger));
    }
    for status in [
        RunStatus::Running,
        RunStatus::Succeeded,
        RunStatus::Failed,
        RunStatus::Refused,
    ] {
        assert_eq!(RunStatus::parse(status.as_str()), Some(status));
    }
    assert_eq!(BackendKind::parse("なにか"), None);
}

#[test]
fn the_meta_text_joins_tags_with_single_spaces() {
    let m = memo(vec![
        MetaAssignment::user("タスク", None),
        MetaAssignment::auto("app", "chrome.exe"),
    ]);
    assert_eq!(m.meta_text(), "#タスク #app=chrome.exe");
    assert_eq!(memo(Vec::new()).meta_text(), "");
}

#[test]
fn a_value_condition_with_no_tags_takes_nothing() {
    let r = rule(Trigger {
        metas: vec![MetaCondition::label("タスク")],
        cron: None,
    });
    assert!(!takes(&r, &memo(Vec::new())));
}

#[test]
fn the_kept_rules_and_memos_are_those_that_match_in_order() {
    let mut task = rule(Trigger { metas: vec![MetaCondition::label("タスク")], cron: None });
    task.id = "task".into();
    let mut disabled = rule(Trigger::default());
    disabled.id = "disabled".into();
    disabled.enabled = false;
    let mut schedule = rule(Trigger::default());
    schedule.id = "schedule".into();
    schedule.trigger_kind = TriggerKind::Schedule;
    let mut any = rule(Trigger::default());
    any.id = "any".into();

    let tagged = memo(vec![MetaAssignment::user("タスク", None)]);
    let plain = memo(Vec::new());
    let ids = |rules: Vec<AutomationRule>| rules.into_iter().map(|r| r.id).collect::<Vec<_>>();

    let all = vec![task.clone(), disabled.clone(), schedule.clone(), any.clone()];
    assert_eq!(ids(keep_matching_rules(all.clone(), &tagged)), vec!["task", "schedule", "any"]);
    assert_eq!(ids(keep_matching_rules(all.clone(), &plain)), vec!["schedule", "any"]);
    assert_eq!(ids(keep_meta_match_rules(all)), vec!["task", "any"]);

    let mut second = memo(vec![MetaAssignment::user("タスク", None)]);
    second.id = "doc-2".into();
    let kept = keep_matching_memos(vec![tagged, plain, second], &task);
    assert_eq!(kept.into_iter().map(|m| m.id).collect::<Vec<_>>(), vec!["doc-1", "doc-2"]);
    assert!(keep_matching_memos(vec![memo(Vec::new())], &disabled).is_empty());
}
