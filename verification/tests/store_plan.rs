use lineage_core::domain::automation::{BackendConfig, BackendKind, Trigger, TriggerKind};
use lineage_core::domain::mutation::{
    plan_mutation, AutomationRuleInput, AutomationRulePatch, MemoStatePatch, MutationError, MutationOperation,
    MutationPlan, MutationRequest, MutationStatus, NullablePatch, RecordedMutation, TagPatch, TagRecipe,
};
use lineage_core::infra::sqlite::{plan_operation, target_lookup, StoreWrite, TargetFound, TargetLookup};

fn memo_request(operation_id: &str, base: i64, patch: MemoStatePatch) -> MutationRequest {
    MutationRequest {
        operation_id: operation_id.into(),
        workspace_id: "ws".into(),
        base_revision: Some(base),
        operation: MutationOperation::MemoStatePatch { memo_id: "memo-1".into(), patch },
    }
}

fn applied(payload: &str, created_at: &str) -> RecordedMutation {
    RecordedMutation {
        workspace_id: "ws".into(),
        entity_kind: "memo_state".into(),
        entity_id: "memo-1".into(),
        operation_kind: "memo_state_patch".into(),
        status: "applied".into(),
        payload_json: payload.into(),
        base_revision: Some(0),
        resulting_revision: 1,
        created_at: created_at.into(),
    }
}

#[test]
fn memo_state_delta_is_idempotent_and_preserves_untouched_fields() {
    let request = memo_request("op-memo", 0, MemoStatePatch { done: Some(true), ..Default::default() });
    assert_eq!(target_lookup(&request.operation), TargetLookup::Memo("memo-1".into()));
    assert_eq!(plan_mutation(&request, "{}", None, 0, "now").unwrap(), MutationPlan::Apply { revision: 1 });
    // Only `done` is written; the archive stamp is left as it was.
    assert_eq!(
        plan_operation(request.operation.clone(), &TargetFound::Memo { exists: true }, &"now".to_string()).unwrap(),
        vec![StoreWrite::MemoDone { memo_id: "memo-1".into(), done: true, done_at: Some("now".into()) }]
    );
    // Sent again: answered from the record, at the revision and time of the first.
    match plan_mutation(&request, "{}", Some(&applied("{}", "now")), 1, "later").unwrap() {
        MutationPlan::Replay(result) => {
            assert_eq!(result.status, MutationStatus::Duplicate);
            assert_eq!(result.revision, 1);
            assert_eq!(result.recorded_at, "now");
        },
        other => panic!("expected a replay, got {other:?}"),
    }
    // Based on a revision that is no longer current: a conflict, nothing written.
    let stale = memo_request("op-stale", 0, MemoStatePatch { archived: Some(false), ..Default::default() });
    match plan_mutation(&stale, "{}", None, 1, "later").unwrap() {
        MutationPlan::Conflict(result) => {
            assert_eq!(result.status, MutationStatus::Conflict);
            assert_eq!(result.revision, 1);
        },
        other => panic!("expected a conflict, got {other:?}"),
    }
    // The same operation id with other content is refused.
    let reused = memo_request("op-stale", 1, MemoStatePatch { archived: Some(false), ..Default::default() });
    assert_eq!(
        plan_mutation(&reused, "{\"other\":1}", Some(&applied("{}", "later")), 1, "much-later").unwrap_err(),
        MutationError::OperationIdReused
    );
    assert!(MutationError::OperationIdReused.message().contains("別の mutation"));
}

#[test]
fn memo_state_mutations_never_apply_to_non_memo_documents() {
    let request = memo_request("op-result", 0, MemoStatePatch { done: Some(true), ..Default::default() });
    // The store finds no memo with this id (an automation result is no memo).
    let error =
        plan_operation(request.operation, &TargetFound::Memo { exists: false }, &"now".to_string()).unwrap_err();
    assert_eq!(error, MutationError::MemoNotFound("memo-1".into()));
    assert!(error.message().contains("メモが見つかりません"));
}

#[test]
fn tag_delta_updates_only_supplied_fields_and_bindings_atomically() {
    let first = MutationOperation::TagPatch {
        tag_id: "tag-1".into(),
        patch: TagPatch { enabled: Some(false), shorthand: NullablePatch::Clear, ..Default::default() },
    };
    let user = TargetFound::Tag { kind: Some("user".into()) };
    assert_eq!(
        plan_operation(first, &user, &"one".to_string()).unwrap(),
        vec![
            StoreWrite::TagShorthand { tag_id: "tag-1".into(), shorthand: None },
            StoreWrite::TagEnabled { tag_id: "tag-1".into(), enabled: false },
            StoreWrite::TagTouched { tag_id: "tag-1".into() },
        ]
    );
    let second = MutationOperation::TagPatch {
        tag_id: "tag-1".into(),
        patch: TagPatch {
            view: NullablePatch::Clear,
            recipe: NullablePatch::SetTo(TagRecipe { name: "build".into(), managed: true }),
            ..Default::default()
        },
    };
    assert_eq!(
        plan_operation(second, &user, &"two".to_string()).unwrap(),
        vec![
            StoreWrite::TagView { tag_id: "tag-1".into(), view: None },
            StoreWrite::TagRecipe {
                tag_id: "tag-1".into(),
                recipe: Some(TagRecipe { name: "build".into(), managed: true }),
            },
            StoreWrite::TagTouched { tag_id: "tag-1".into() },
        ]
    );
    assert_eq!(lineage_core::infra::sqlite::ownership(true), "managed");
}

#[test]
fn automation_rule_patch_does_not_replace_the_whole_rule() {
    let create = MutationOperation::AutomationRuleCreate {
        rule_id: Some("rule-1".into()),
        input: AutomationRuleInput {
            name: "name".into(),
            description: Some("description".into()),
            prompt: "keep this prompt".into(),
            backend: BackendKind::ApiKey,
            backend_config: BackendConfig { provider: "anthropic".into(), ..Default::default() },
            trigger_kind: TriggerKind::Manual,
            trigger: Trigger::default(),
            enabled: true,
        },
    };
    let writes = plan_operation(create, &TargetFound::Nothing, &"created".to_string()).unwrap();
    assert!(matches!(&writes[..], [StoreWrite::RuleInsert { rule_id, .. }] if rule_id == "rule-1"));

    let patch = MutationOperation::AutomationRulePatch {
        rule_id: "rule-1".into(),
        patch: AutomationRulePatch { enabled: Some(false), ..Default::default() },
    };
    let stored = TargetFound::Rule {
        current: Some(lineage_core::infra::sqlite::StoredRule {
            trigger_kind: TriggerKind::Manual,
            trigger: Some(Trigger::default()),
        }),
    };
    // Only the switch and the stamp are written; name and prompt stay.
    assert_eq!(
        plan_operation(patch, &stored, &"patched".to_string()).unwrap(),
        vec![
            StoreWrite::RuleEnabled { rule_id: "rule-1".into(), enabled: false },
            StoreWrite::RuleTouched { rule_id: "rule-1".into() },
        ]
    );
}
