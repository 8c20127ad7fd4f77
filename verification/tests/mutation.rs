use std::cell::RefCell;

use lineage_core::domain::automation::{BackendConfig, BackendKind, Trigger, TriggerKind};
use lineage_core::domain::mutation::{
    AutomationRuleInput, AutomationRulePatch, MemoStatePatch, MutationError, MutationOperation,
    MutationPlan, MutationRequest, MutationResult, MutationStatus, NullablePatch,
    RecordedMutation, TagPatch, TagRecipe,
};
use lineage_core::domain::mutation::plan_mutation;
use lineage_core::domain::ports::MutationStore;
use lineage_core::domain::shared::Clock;
use lineage_core::features::mutation::ApplyMutation;

struct FixedClock;
impl Clock for FixedClock {
    fn now_rfc3339(&self) -> String {
        "2026-08-25T00:00:00Z".into()
    }
}

#[derive(Default)]
struct RecordingStore(RefCell<Vec<MutationRequest>>);
impl MutationStore for RecordingStore {
    fn apply_mutation(
        &self,
        request: &MutationRequest,
        recorded_at: &str,
    ) -> Result<MutationResult, MutationError> {
        self.0.borrow_mut().push(request.clone());
        Ok(MutationResult {
            operation_id: request.operation_id.clone(),
            status: MutationStatus::Applied,
            entity_kind: request.operation.entity_kind().into(),
            entity_id: request
                .operation
                .entity_id(&request.workspace_id)
                .unwrap()
                .into(),
            revision: 1,
            recorded_at: recorded_at.into(),
        })
    }
}

fn service(store: &RecordingStore) -> ApplyMutation<'_> {
    ApplyMutation {
        store,
        clock: &FixedClock,
    }
}

fn rule_input() -> AutomationRuleInput {
    AutomationRuleInput {
        name: "rule".into(),
        description: None,
        prompt: "prompt".into(),
        backend: BackendKind::ApiKey,
        backend_config: BackendConfig {
            provider: "anthropic".into(),
            ..Default::default()
        },
        trigger_kind: TriggerKind::Manual,
        trigger: Trigger::default(),
        enabled: true,
    }
}

#[test]
fn rust_generates_the_entity_id_for_rule_creation() {
    let store = RecordingStore::default();
    let request = MutationRequest {
        operation_id: "op-1".into(),
        workspace_id: "local".into(),
        base_revision: None,
        operation: MutationOperation::AutomationRuleCreate {
            rule_id: None,
            input: rule_input(),
        },
    };

    let result = service(&store).execute(request).unwrap();
    assert_eq!(result.entity_id, "op-1");
}

#[test]
fn empty_patches_are_rejected_before_storage() {
    let store = RecordingStore::default();
    let request = MutationRequest {
        operation_id: "op-1".into(),
        workspace_id: "local".into(),
        base_revision: None,
        operation: MutationOperation::TagPatch {
            tag_id: "tag-1".into(),
            patch: TagPatch::default(),
        },
    };

    assert!(service(&store).execute(request).is_err());
    assert!(store.0.borrow().is_empty());
}

#[test]
fn null_and_value_tag_changes_are_valid_deltas() {
    let store = RecordingStore::default();
    let request = MutationRequest {
        operation_id: "op-1".into(),
        workspace_id: "local".into(),
        base_revision: Some(3),
        operation: MutationOperation::TagPatch {
            tag_id: "tag-1".into(),
            patch: TagPatch {
                shorthand: NullablePatch::Clear,
                recipe: NullablePatch::SetTo(TagRecipe {
                    name: "build".into(),
                    managed: true,
                }),
                ..Default::default()
            },
        },
    };

    let result = service(&store).execute(request).unwrap();
    assert_eq!(result.revision, 1);
}

fn request(operation: MutationOperation) -> MutationRequest {
    MutationRequest {
        operation_id: "op-1".into(),
        workspace_id: "local".into(),
        base_revision: None,
        operation,
    }
}

#[test]
fn each_refusal_names_its_reason() {
    let cases = vec![
        (
            MutationRequest {
                operation_id: " ".into(),
                ..request(MutationOperation::TagDelete { tag_id: "t".into() })
            },
            MutationError::EmptyOperationId,
        ),
        (
            MutationRequest {
                workspace_id: "".into(),
                ..request(MutationOperation::TagDelete { tag_id: "t".into() })
            },
            MutationError::EmptyWorkspaceId,
        ),
        (
            MutationRequest {
                base_revision: Some(-1),
                ..request(MutationOperation::TagDelete { tag_id: "t".into() })
            },
            MutationError::NegativeBaseRevision,
        ),
        (
            request(MutationOperation::MemoStatePatch {
                memo_id: "m".into(),
                patch: MemoStatePatch::default(),
            }),
            MutationError::EmptyMemoStatePatch,
        ),
        (
            request(MutationOperation::ArchiveCompletedTasks { labels: Vec::new() }),
            MutationError::NoLabels,
        ),
        (
            request(MutationOperation::AutomationRulePatch {
                rule_id: "r".into(),
                patch: AutomationRulePatch::default(),
            }),
            MutationError::EmptyRulePatch,
        ),
        (
            request(MutationOperation::AutomationRuleCreate {
                rule_id: None,
                input: AutomationRuleInput {
                    trigger_kind: TriggerKind::Schedule,
                    ..rule_input()
                },
            }),
            MutationError::MissingCron,
        ),
    ];
    for (request, expected) in cases {
        let store = RecordingStore::default();
        assert_eq!(service(&store).execute(request).unwrap_err(), expected);
        assert!(store.0.borrow().is_empty());
    }
}

fn recorded(status: &str) -> RecordedMutation {
    RecordedMutation {
        workspace_id: "local".into(),
        entity_kind: "tag".into(),
        entity_id: "t".into(),
        operation_kind: "tag_delete".into(),
        status: status.into(),
        payload_json: "{}".into(),
        base_revision: None,
        resulting_revision: 4,
        created_at: "2026-08-24T00:00:00Z".into(),
    }
}

#[test]
fn a_resent_mutation_is_answered_from_its_record() {
    let req = request(MutationOperation::TagDelete { tag_id: "t".into() });
    let plan = plan_mutation(&req, "{}", Some(&recorded("applied")), 0, "2026-08-25T00:00:00Z").unwrap();
    assert!(matches!(plan, MutationPlan::Replay(_)));
    if let MutationPlan::Replay(result) = plan {
        assert_eq!(result.status, MutationStatus::Duplicate);
        assert_eq!(result.revision, 4);
    }
}

#[test]
fn a_reused_operation_id_or_an_unknown_status_is_refused() {
    let req = request(MutationOperation::TagDelete { tag_id: "t".into() });
    assert_eq!(
        plan_mutation(&req, "{\"other\":1}", Some(&recorded("applied")), 0, "now").unwrap_err(),
        MutationError::OperationIdReused
    );
    assert_eq!(
        plan_mutation(&req, "{}", Some(&recorded("pending")), 0, "now").unwrap_err(),
        MutationError::UnknownStatus("pending".into())
    );
    let conflict = plan_mutation(&req, "{}", Some(&recorded("conflict")), 0, "now").unwrap();
    assert!(matches!(conflict, MutationPlan::Replay(ref r) if r.status == MutationStatus::Conflict));
}

#[test]
fn a_stale_base_revision_is_a_conflict_and_a_fresh_one_applies() {
    let stale = MutationRequest {
        base_revision: Some(2),
        ..request(MutationOperation::TagDelete { tag_id: "t".into() })
    };
    match plan_mutation(&stale, "{}", None, 5, "2026-08-25T00:00:00Z").unwrap() {
        MutationPlan::Conflict(result) => {
            assert_eq!(result.status, MutationStatus::Conflict);
            assert_eq!(result.revision, 5);
            assert_eq!(result.entity_kind, "tag");
            assert_eq!(result.entity_id, "t");
            assert_eq!(result.recorded_at, "2026-08-25T00:00:00Z");
        }
        other => panic!("expected a conflict, got {other:?}"),
    }
    let fresh = MutationRequest {
        base_revision: Some(5),
        ..request(MutationOperation::TagDelete { tag_id: "t".into() })
    };
    assert_eq!(
        plan_mutation(&fresh, "{}", None, 5, "now").unwrap(),
        MutationPlan::Apply { revision: 6 }
    );
    let unversioned = request(MutationOperation::TagDelete { tag_id: "t".into() });
    assert_eq!(
        plan_mutation(&unversioned, "{}", None, 0, "now").unwrap(),
        MutationPlan::Apply { revision: 1 }
    );
}

#[test]
fn a_rule_to_create_without_an_id_has_no_entity() {
    let req = request(MutationOperation::AutomationRuleCreate {
        rule_id: None,
        input: rule_input(),
    });
    assert_eq!(
        plan_mutation(&req, "{}", None, 0, "now").unwrap_err(),
        MutationError::MissingEntityId
    );
}
