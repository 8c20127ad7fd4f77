//! The contract of the field-level mutations that the desktop shell sends to
//! local storage.
//!
//! Only changed fields travel; `operation_id` makes a resend idempotent and
//! `base_revision` detects a stale edit.

use vstd::prelude::*;

use crate::domain::automation::{BackendConfig, BackendKind, Trigger, TriggerKind};
use crate::text::{copy_str, str_eq};

verus! {

#[derive(Debug, Clone, PartialEq, Eq)]
pub struct MutationRequest {
    pub operation_id: String,
    pub workspace_id: String,
    pub base_revision: Option<i64>,
    pub operation: MutationOperation,
}

#[derive(Debug, Clone, PartialEq, Eq)]
pub enum MutationOperation {
    MemoStatePatch { memo_id: String, patch: MemoStatePatch },
    ArchiveCompletedTasks { labels: Vec<String> },
    TagPatch { tag_id: String, patch: TagPatch },
    TagDelete { tag_id: String },
    AutomationRuleCreate { rule_id: Option<String>, input: AutomationRuleInput },
    AutomationRulePatch { rule_id: String, patch: AutomationRulePatch },
    AutomationRuleDelete { rule_id: String },
    SettingSet { key: String, value: String },
}

/// The stored name of the operation.
pub open spec fn spec_operation_kind(op: MutationOperation) -> Seq<char> {
    match op {
        MutationOperation::MemoStatePatch { .. } => "memo_state_patch"@,
        MutationOperation::ArchiveCompletedTasks { .. } => "archive_completed_tasks"@,
        MutationOperation::TagPatch { .. } => "tag_patch"@,
        MutationOperation::TagDelete { .. } => "tag_delete"@,
        MutationOperation::AutomationRuleCreate { .. } => "automation_rule_create"@,
        MutationOperation::AutomationRulePatch { .. } => "automation_rule_patch"@,
        MutationOperation::AutomationRuleDelete { .. } => "automation_rule_delete"@,
        MutationOperation::SettingSet { .. } => "setting_set"@,
    }
}

/// The kind of entity that the operation changes.
pub open spec fn spec_entity_kind(op: MutationOperation) -> Seq<char> {
    match op {
        MutationOperation::MemoStatePatch { .. } => "memo_state"@,
        MutationOperation::ArchiveCompletedTasks { .. } => "workspace"@,
        MutationOperation::TagPatch { .. } => "tag"@,
        MutationOperation::TagDelete { .. } => "tag"@,
        MutationOperation::AutomationRuleCreate { .. } => "automation_rule"@,
        MutationOperation::AutomationRulePatch { .. } => "automation_rule"@,
        MutationOperation::AutomationRuleDelete { .. } => "automation_rule"@,
        MutationOperation::SettingSet { .. } => "setting"@,
    }
}

/// The id of the entity that the operation changes; a rule to be created may
/// not have one yet.
pub open spec fn spec_entity_id(op: MutationOperation, workspace_id: Seq<char>) -> Option<Seq<char>> {
    match op {
        MutationOperation::MemoStatePatch { memo_id, .. } => Some(memo_id@),
        MutationOperation::ArchiveCompletedTasks { .. } => Some(workspace_id),
        MutationOperation::TagPatch { tag_id, .. } => Some(tag_id@),
        MutationOperation::TagDelete { tag_id } => Some(tag_id@),
        MutationOperation::AutomationRuleCreate { rule_id, .. } => match rule_id {
            Some(id) => Some(id@),
            None => None,
        },
        MutationOperation::AutomationRulePatch { rule_id, .. } => Some(rule_id@),
        MutationOperation::AutomationRuleDelete { rule_id } => Some(rule_id@),
        MutationOperation::SettingSet { key, .. } => Some(key@),
    }
}

impl MutationOperation {
    pub fn operation_kind(&self) -> (kind: &'static str)
        ensures
            kind@ == spec_operation_kind(*self),
    {
        match self {
            MutationOperation::MemoStatePatch { .. } => "memo_state_patch",
            MutationOperation::ArchiveCompletedTasks { .. } => "archive_completed_tasks",
            MutationOperation::TagPatch { .. } => "tag_patch",
            MutationOperation::TagDelete { .. } => "tag_delete",
            MutationOperation::AutomationRuleCreate { .. } => "automation_rule_create",
            MutationOperation::AutomationRulePatch { .. } => "automation_rule_patch",
            MutationOperation::AutomationRuleDelete { .. } => "automation_rule_delete",
            MutationOperation::SettingSet { .. } => "setting_set",
        }
    }

    pub fn entity_kind(&self) -> (kind: &'static str)
        ensures
            kind@ == spec_entity_kind(*self),
    {
        match self {
            MutationOperation::MemoStatePatch { .. } => "memo_state",
            MutationOperation::ArchiveCompletedTasks { .. } => "workspace",
            MutationOperation::TagPatch { .. } => "tag",
            MutationOperation::TagDelete { .. } => "tag",
            MutationOperation::AutomationRuleCreate { .. } => "automation_rule",
            MutationOperation::AutomationRulePatch { .. } => "automation_rule",
            MutationOperation::AutomationRuleDelete { .. } => "automation_rule",
            MutationOperation::SettingSet { .. } => "setting",
        }
    }

    pub fn entity_id<'a>(&'a self, workspace_id: &'a str) -> (id: Option<&'a str>)
        ensures
            match id {
                Some(s) => spec_entity_id(*self, workspace_id@) == Some(s@),
                None => spec_entity_id(*self, workspace_id@) is None,
            },
    {
        match self {
            MutationOperation::MemoStatePatch { memo_id, .. } => Some(memo_id.as_str()),
            MutationOperation::ArchiveCompletedTasks { .. } => Some(workspace_id),
            MutationOperation::TagPatch { tag_id, .. } => Some(tag_id.as_str()),
            MutationOperation::TagDelete { tag_id } => Some(tag_id.as_str()),
            MutationOperation::AutomationRuleCreate { rule_id, .. } => match rule_id {
                Some(id) => Some(id.as_str()),
                None => None,
            },
            MutationOperation::AutomationRulePatch { rule_id, .. } => Some(rule_id.as_str()),
            MutationOperation::AutomationRuleDelete { rule_id } => Some(rule_id.as_str()),
            MutationOperation::SettingSet { key, .. } => Some(key.as_str()),
        }
    }
}

#[derive(Debug, Clone, Copy, PartialEq, Eq, Default, Structural)]
pub struct MemoStatePatch {
    pub done: Option<bool>,
    pub archived: Option<bool>,
    pub trashed: Option<bool>,
}

impl MemoStatePatch {
    pub open spec fn spec_is_empty(self) -> bool {
        self.done is None && self.archived is None && self.trashed is None
    }

    /// No field is changed.
    pub fn is_empty(&self) -> (r: bool)
        ensures
            r == self.spec_is_empty(),
    {
        self.done.is_none() && self.archived.is_none() && self.trashed.is_none()
    }
}

/// Tells "leave as is" (no key), "clear" (JSON null) and "set" apart.
#[derive(Debug, Clone, PartialEq, Eq, Default)]
pub enum NullablePatch<T> {
    #[default]
    Unchanged,
    Clear,
    SetTo(T),
}

impl<T> NullablePatch<T> {
    pub fn is_unchanged(&self) -> (r: bool)
        ensures
            r == (*self is Unchanged),
    {
        match self {
            NullablePatch::Unchanged => true,
            _ => false,
        }
    }
}

#[derive(Debug, Clone, PartialEq, Eq, Default)]
pub struct TagPatch {
    pub display_name: Option<String>,
    pub shorthand: NullablePatch<String>,
    pub enabled: Option<bool>,
    pub view: NullablePatch<String>,
    pub recipe: NullablePatch<TagRecipe>,
}

impl TagPatch {
    pub open spec fn spec_is_empty(self) -> bool {
        &&& self.display_name is None
        &&& self.shorthand is Unchanged
        &&& self.enabled is None
        &&& self.view is Unchanged
        &&& self.recipe is Unchanged
    }

    /// No field is changed.
    pub fn is_empty(&self) -> (r: bool)
        ensures
            r == self.spec_is_empty(),
    {
        self.display_name.is_none() && self.shorthand.is_unchanged() && self.enabled.is_none()
            && self.view.is_unchanged() && self.recipe.is_unchanged()
    }
}

#[derive(Debug, Clone, PartialEq, Eq)]
pub struct TagRecipe {
    pub name: String,
    pub managed: bool,
}

#[derive(Debug, Clone, PartialEq, Eq)]
pub struct AutomationRuleInput {
    pub name: String,
    pub description: Option<String>,
    pub prompt: String,
    pub backend: BackendKind,
    pub backend_config: BackendConfig,
    pub trigger_kind: TriggerKind,
    pub trigger: Trigger,
    pub enabled: bool,
}

#[derive(Debug, Clone, PartialEq, Eq, Default)]
pub struct AutomationRulePatch {
    pub name: Option<String>,
    pub description: NullablePatch<String>,
    pub prompt: Option<String>,
    pub backend: Option<BackendKind>,
    pub backend_config: Option<BackendConfig>,
    pub trigger_kind: Option<TriggerKind>,
    pub trigger: Option<Trigger>,
    pub enabled: Option<bool>,
}

impl AutomationRulePatch {
    pub open spec fn spec_is_empty(self) -> bool {
        &&& self.name is None
        &&& self.description is Unchanged
        &&& self.prompt is None
        &&& self.backend is None
        &&& self.backend_config is None
        &&& self.trigger_kind is None
        &&& self.trigger is None
        &&& self.enabled is None
    }

    /// No field is changed.
    pub fn is_empty(&self) -> (r: bool)
        ensures
            r == self.spec_is_empty(),
    {
        self.name.is_none() && self.description.is_unchanged() && self.prompt.is_none()
            && self.backend.is_none() && self.backend_config.is_none() && self.trigger_kind.is_none()
            && self.trigger.is_none() && self.enabled.is_none()
    }
}

#[derive(Debug, Clone, Copy, PartialEq, Eq, Structural)]
pub enum MutationStatus {
    Applied,
    Duplicate,
    Conflict,
}

#[derive(Debug, Clone, PartialEq, Eq)]
pub struct MutationResult {
    pub operation_id: String,
    pub status: MutationStatus,
    pub entity_kind: String,
    pub entity_id: String,
    pub revision: i64,
    pub recorded_at: String,
}

/// Why a mutation was refused.
#[derive(Debug, Clone, PartialEq, Eq)]
pub enum MutationError {
    /// `operationId` is blank.
    EmptyOperationId,
    /// `workspaceId` is blank.
    EmptyWorkspaceId,
    /// `baseRevision` is negative.
    NegativeBaseRevision,
    /// The named id field is blank.
    EmptyId { field: &'static str },
    /// A memo state patch changes nothing.
    EmptyMemoStatePatch,
    /// `labels` is empty.
    NoLabels,
    /// Some label is blank.
    BlankLabel,
    /// A tag patch changes nothing.
    EmptyTagPatch,
    /// `displayName` is set to a blank text.
    BlankDisplayName,
    /// `view` is set to a blank text (clearing takes null).
    BlankView,
    /// `recipe.name` is set to a blank text (clearing takes null).
    BlankRecipeName,
    /// A rule's `name` is blank.
    BlankName,
    /// A rule's `prompt` is blank.
    BlankPrompt,
    /// `backendConfig.provider` is blank.
    BlankProvider,
    /// A schedule rule has no usable `trigger.cron`.
    MissingCron,
    /// An automation rule patch changes nothing.
    EmptyRulePatch,
    /// The entity id could not be determined.
    MissingEntityId,
    /// The `operationId` was already used by a different mutation.
    OperationIdReused,
    /// A stored mutation has a status other than `applied` / `conflict`.
    UnknownStatus(String),
    /// No memo of the workspace has this id.
    MemoNotFound(String),
    /// No live tag of the workspace has this id.
    TagNotFound(String),
    /// No automation rule of the workspace has this id.
    RuleNotFound(String),
    /// A built-in tag's `displayName` cannot change.
    BuiltinTagRename,
    /// A built-in tag cannot be deleted.
    BuiltinTagDelete,
    /// The stored trigger of a rule could not be read.
    UnreadableTrigger,
    /// The store failed.
    Store(String),
}

fn joined_text(a: &str, b: &str) -> (m: String)
    ensures
        m@ == a@ + b@,
{
    let mut m = copy_str(a);
    m.append(b);
    m
}

/// The message of a mutation error.
pub open spec fn mutation_message(e: MutationError) -> Seq<char> {
    match e {
        MutationError::EmptyOperationId => "operationId は空にできません"@,
        MutationError::EmptyWorkspaceId => "workspaceId は空にできません"@,
        MutationError::NegativeBaseRevision => "baseRevision は0以上で指定してください"@,
        MutationError::EmptyId { field } => field@ + " は空にできません"@,
        MutationError::EmptyMemoStatePatch => "memo state patch が空です"@,
        MutationError::NoLabels => "labels は1件以上必要です"@,
        MutationError::BlankLabel => "labels に空文字は指定できません"@,
        MutationError::EmptyTagPatch => "tag patch が空です"@,
        MutationError::BlankDisplayName => "displayName は空にできません"@,
        MutationError::BlankView => "view は空文字ではなく null で解除してください"@,
        MutationError::BlankRecipeName => "recipe.name は空文字ではなく null で解除してください"@,
        MutationError::BlankName => "name は空にできません"@,
        MutationError::BlankPrompt => "prompt は空にできません"@,
        MutationError::BlankProvider => "backendConfig.provider は空にできません"@,
        MutationError::MissingCron => "schedule には trigger.cron が必要です"@,
        MutationError::EmptyRulePatch => "automation rule patch が空です"@,
        MutationError::MissingEntityId => "mutation の entity ID が確定していません"@,
        MutationError::OperationIdReused => "operationId は別の mutation ですでに使われています"@,
        MutationError::UnknownStatus(status) => "未知の mutation status です: "@ + status@,
        MutationError::MemoNotFound(id) => "メモが見つかりません: "@ + id@,
        MutationError::TagNotFound(id) => "タグが見つかりません: "@ + id@,
        MutationError::RuleNotFound(id) => "自動化ルールが見つかりません: "@ + id@,
        MutationError::BuiltinTagRename => "組み込みタグの displayName は変更できません"@,
        MutationError::BuiltinTagDelete => "組み込みタグは削除できません"@,
        MutationError::UnreadableTrigger => "trigger_config を解釈できません"@,
        MutationError::Store(e) => e@,
    }
}

impl MutationError {
    /// A message for people, naming the field or entity at fault.
    pub fn message(&self) -> (m: String)
        ensures
            m@ == mutation_message(*self),
    {
        match self {
            MutationError::EmptyOperationId => copy_str("operationId は空にできません"),
            MutationError::EmptyWorkspaceId => copy_str("workspaceId は空にできません"),
            MutationError::NegativeBaseRevision => copy_str("baseRevision は0以上で指定してください"),
            MutationError::EmptyId { field } => joined_text(field, " は空にできません"),
            MutationError::EmptyMemoStatePatch => copy_str("memo state patch が空です"),
            MutationError::NoLabels => copy_str("labels は1件以上必要です"),
            MutationError::BlankLabel => copy_str("labels に空文字は指定できません"),
            MutationError::EmptyTagPatch => copy_str("tag patch が空です"),
            MutationError::BlankDisplayName => copy_str("displayName は空にできません"),
            MutationError::BlankView => copy_str("view は空文字ではなく null で解除してください"),
            MutationError::BlankRecipeName => copy_str("recipe.name は空文字ではなく null で解除してください"),
            MutationError::BlankName => copy_str("name は空にできません"),
            MutationError::BlankPrompt => copy_str("prompt は空にできません"),
            MutationError::BlankProvider => copy_str("backendConfig.provider は空にできません"),
            MutationError::MissingCron => copy_str("schedule には trigger.cron が必要です"),
            MutationError::EmptyRulePatch => copy_str("automation rule patch が空です"),
            MutationError::MissingEntityId => copy_str("mutation の entity ID が確定していません"),
            MutationError::OperationIdReused => copy_str("operationId は別の mutation ですでに使われています"),
            MutationError::UnknownStatus(status) => joined_text("未知の mutation status です: ", status.as_str()),
            MutationError::MemoNotFound(id) => joined_text("メモが見つかりません: ", id.as_str()),
            MutationError::TagNotFound(id) => joined_text("タグが見つかりません: ", id.as_str()),
            MutationError::RuleNotFound(id) => joined_text("自動化ルールが見つかりません: ", id.as_str()),
            MutationError::BuiltinTagRename => copy_str("組み込みタグの displayName は変更できません"),
            MutationError::BuiltinTagDelete => copy_str("組み込みタグは削除できません"),
            MutationError::UnreadableTrigger => copy_str("trigger_config を解釈できません"),
            MutationError::Store(e) => copy_str(e.as_str()),
        }
    }
}

/// What the store has recorded for an operation id.
#[derive(Debug, Clone, PartialEq, Eq)]
pub struct RecordedMutation {
    pub workspace_id: String,
    pub entity_kind: String,
    pub entity_id: String,
    pub operation_kind: String,
    pub status: String,
    pub payload_json: String,
    pub base_revision: Option<i64>,
    pub resulting_revision: i64,
    pub created_at: String,
}

/// How the store answers a mutation.
#[derive(Debug, Clone, PartialEq, Eq)]
pub enum MutationPlan {
    /// The operation id was seen before with the same content: answer again.
    Replay(MutationResult),
    /// The edit was based on a stale revision: record the conflict, apply nothing.
    Conflict(MutationResult),
    /// Apply the change; the entity then has this revision.
    Apply { revision: i64 },
}

/// The prior record describes exactly this mutation.
pub open spec fn same_mutation(
    prior: RecordedMutation,
    request: MutationRequest,
    payload_json: Seq<char>,
) -> bool {
    &&& spec_entity_id(request.operation, request.workspace_id@) is Some
    &&& prior.workspace_id@ == request.workspace_id@
    &&& prior.entity_kind@ == spec_entity_kind(request.operation)
    &&& prior.entity_id@ == spec_entity_id(request.operation, request.workspace_id@)->0
    &&& prior.operation_kind@ == spec_operation_kind(request.operation)
    &&& prior.payload_json@ == payload_json
    &&& prior.base_revision == request.base_revision
}

/// The answer that the store owes for `request`, given what it recorded
/// for the operation id (if anything) and the entity's current revision.
pub open spec fn spec_plan(
    request: MutationRequest,
    payload_json: Seq<char>,
    prior: Option<RecordedMutation>,
    current_revision: i64,
    recorded_at: Seq<char>,
) -> Result<PlanView, MutationError> {
    match spec_entity_id(request.operation, request.workspace_id@) {
        None => Err(MutationError::MissingEntityId),
        Some(entity_id) => match prior {
            Some(p) => if !same_mutation(p, request, payload_json) {
                Err(MutationError::OperationIdReused)
            } else if p.status@ == "applied"@ {
                Ok(PlanView::Replay(MutationStatus::Duplicate, p.entity_kind@, p.entity_id@, p.resulting_revision as int, p.created_at@))
            } else if p.status@ == "conflict"@ {
                Ok(PlanView::Replay(MutationStatus::Conflict, p.entity_kind@, p.entity_id@, p.resulting_revision as int, p.created_at@))
            } else {
                Err(MutationError::UnknownStatus(p.status))
            },
            None => match request.base_revision {
                Some(base) if base != current_revision => Ok(
                    PlanView::Conflict(spec_entity_kind(request.operation), entity_id, current_revision as int, recorded_at),
                ),
                _ => Ok(PlanView::Apply(current_revision + 1)),
            },
        },
    }
}

/// The spec-level form of a [`MutationPlan`]: status, entity kind, entity
/// id, revision and time of the answer.
pub enum PlanView {
    Replay(MutationStatus, Seq<char>, Seq<char>, int, Seq<char>),
    Conflict(Seq<char>, Seq<char>, int, Seq<char>),
    Apply(int),
}

/// The view of an answer, with the operation id it is for.
pub open spec fn plan_view(plan: MutationPlan, operation_id: Seq<char>) -> PlanView {
    match plan {
        MutationPlan::Replay(r) => PlanView::Replay(r.status, r.entity_kind@, r.entity_id@, r.revision as int, r.recorded_at@),
        MutationPlan::Conflict(r) => PlanView::Conflict(r.entity_kind@, r.entity_id@, r.revision as int, r.recorded_at@),
        MutationPlan::Apply { revision } => PlanView::Apply(revision as int),
    }
}

/// Every result inside a plan answers the request's operation id, and a
/// conflict carries the `Conflict` status.
pub open spec fn plan_well_formed(plan: MutationPlan, operation_id: Seq<char>) -> bool {
    match plan {
        MutationPlan::Replay(r) => r.operation_id@ == operation_id,
        MutationPlan::Conflict(r) => r.operation_id@ == operation_id && r.status == MutationStatus::Conflict,
        MutationPlan::Apply { .. } => true,
    }
}

/// Decides how to answer a mutation: replay a known operation id, refuse a
/// reused one, record a conflict for a stale base revision, or apply it.
///
/// `payload_json` is the serialised operation that the store compares with
/// what it recorded; `prior` is its record for the operation id.
pub fn plan_mutation(
    request: &MutationRequest,
    payload_json: &str,
    prior: Option<&RecordedMutation>,
    current_revision: i64,
    recorded_at: &str,
) -> (r: Result<MutationPlan, MutationError>)
    requires
        current_revision < i64::MAX,
    ensures
        match (r, spec_plan(*request, payload_json@, match prior { Some(p) => Some(*p), None => None }, current_revision, recorded_at@)) {
            (Ok(plan), Ok(view)) => plan_view(plan, request.operation_id@) == view
                && plan_well_formed(plan, request.operation_id@),
            (Err(e), Err(f)) => e == f,
            _ => false,
        },
{
    proof {
        reveal_strlit("applied");
        reveal_strlit("conflict");
    }
    let entity_kind = request.operation.entity_kind();
    let entity_id = match request.operation.entity_id(request.workspace_id.as_str()) {
        Some(id) => id,
        None => return Err(MutationError::MissingEntityId),
    };
    let operation_kind = request.operation.operation_kind();
    match prior {
        Some(p) => {
            let same = str_eq(p.workspace_id.as_str(), request.workspace_id.as_str())
                && str_eq(p.entity_kind.as_str(), entity_kind)
                && str_eq(p.entity_id.as_str(), entity_id)
                && str_eq(p.operation_kind.as_str(), operation_kind)
                && str_eq(p.payload_json.as_str(), payload_json)
                && p.base_revision == request.base_revision;
            if !same {
                return Err(MutationError::OperationIdReused);
            }
            let status = if str_eq(p.status.as_str(), "applied") {
                MutationStatus::Duplicate
            } else if str_eq(p.status.as_str(), "conflict") {
                MutationStatus::Conflict
            } else {
                return Err(MutationError::UnknownStatus(p.status.clone()));
            };
            Ok(
                MutationPlan::Replay(
                    MutationResult {
                        operation_id: copy_str(request.operation_id.as_str()),
                        status,
                        entity_kind: copy_str(p.entity_kind.as_str()),
                        entity_id: copy_str(p.entity_id.as_str()),
                        revision: p.resulting_revision,
                        recorded_at: copy_str(p.created_at.as_str()),
                    },
                ),
            )
        },
        None => {
            match request.base_revision {
                Some(base) => {
                    if base != current_revision {
                        return Ok(
                            MutationPlan::Conflict(
                                MutationResult {
                                    operation_id: copy_str(request.operation_id.as_str()),
                                    status: MutationStatus::Conflict,
                                    entity_kind: copy_str(entity_kind),
                                    entity_id: copy_str(entity_id),
                                    revision: current_revision,
                                    recorded_at: copy_str(recorded_at),
                                },
                            ),
                        );
                    }
                },
                None => {},
            }
            Ok(MutationPlan::Apply { revision: current_revision + 1 })
        },
    }
}

/// The record that the store keeps after applying `request` at `revision`.
pub open spec fn applied_record(
    request: MutationRequest,
    payload_json: Seq<char>,
    revision: i64,
    recorded_at: Seq<char>,
    record: RecordedMutation,
) -> bool {
    &&& record.workspace_id@ == request.workspace_id@
    &&& record.entity_kind@ == spec_entity_kind(request.operation)
    &&& spec_entity_id(request.operation, request.workspace_id@) is Some
    &&& record.entity_id@ == spec_entity_id(request.operation, request.workspace_id@)->0
    &&& record.operation_kind@ == spec_operation_kind(request.operation)
    &&& record.status@ == "applied"@
    &&& record.payload_json@ == payload_json
    &&& record.base_revision == request.base_revision
    &&& record.resulting_revision == revision
    &&& record.created_at@ == recorded_at
}

/// Resending an applied mutation is answered as a duplicate with the same
/// entity, revision and time, whatever the entity's revision is now.
pub proof fn lemma_resend_is_duplicate(
    request: MutationRequest,
    payload_json: Seq<char>,
    revision: i64,
    recorded_at: Seq<char>,
    record: RecordedMutation,
    current_revision: i64,
    now: Seq<char>,
)
    requires
        applied_record(request, payload_json, revision, recorded_at, record),
    ensures
        spec_plan(request, payload_json, Some(record), current_revision, now) == Ok::<PlanView, MutationError>(
            PlanView::Replay(
                MutationStatus::Duplicate,
                spec_entity_kind(request.operation),
                spec_entity_id(request.operation, request.workspace_id@)->0,
                revision as int,
                recorded_at,
            ),
        ),
{
}

/// A new mutation based on a stale revision is answered with a conflict at
/// the current revision; one based on the current revision (or on none) is
/// applied at the next revision.
pub proof fn lemma_revision_rules(
    request: MutationRequest,
    payload_json: Seq<char>,
    current_revision: i64,
    now: Seq<char>,
)
    requires
        spec_entity_id(request.operation, request.workspace_id@) is Some,
    ensures
        request.base_revision is Some && request.base_revision->0 != current_revision ==> spec_plan(
            request,
            payload_json,
            None,
            current_revision,
            now,
        ) == Ok::<PlanView, MutationError>(
            PlanView::Conflict(
                spec_entity_kind(request.operation),
                spec_entity_id(request.operation, request.workspace_id@)->0,
                current_revision as int,
                now,
            ),
        ),
        (request.base_revision is None || request.base_revision->0 == current_revision) ==> spec_plan(
            request,
            payload_json,
            None,
            current_revision,
            now,
        ) == Ok::<PlanView, MutationError>(PlanView::Apply(current_revision + 1)),
{
}

} // verus!
