//! Checking field-level mutations and stamping them with the ids and times
//! that this side owns.

use vstd::prelude::*;

use crate::domain::automation::TriggerKind;
use crate::domain::mutation::{
    AutomationRuleInput, AutomationRulePatch, MutationError, MutationOperation, MutationRequest,
    MutationResult, NullablePatch, TagPatch,
};
use crate::domain::ports::MutationStore;
use crate::domain::shared::Clock;
use crate::text::{is_blank, is_blank_str};

verus! {

pub struct ApplyMutation<'a> {
    pub store: &'a dyn MutationStore,
    pub clock: &'a dyn Clock,
}

pub open spec fn blank(s: String) -> bool {
    is_blank(s@)
}

/// A schedule needs a cron expression that is not blank.
pub open spec fn has_cron(cron: Option<String>) -> bool {
    cron is Some && !blank(cron->0)
}

pub open spec fn spec_tag_patch_error(patch: TagPatch) -> Option<MutationError> {
    if patch.spec_is_empty() {
        Some(MutationError::EmptyTagPatch)
    } else if patch.display_name is Some && blank(patch.display_name->0) {
        Some(MutationError::BlankDisplayName)
    } else if patch.view is SetTo && blank(patch.view->SetTo_0) {
        Some(MutationError::BlankView)
    } else if patch.recipe is SetTo && blank(patch.recipe->SetTo_0.name) {
        Some(MutationError::BlankRecipeName)
    } else {
        None
    }
}

pub open spec fn spec_rule_input_error(input: AutomationRuleInput) -> Option<MutationError> {
    if blank(input.name) {
        Some(MutationError::BlankName)
    } else if blank(input.prompt) {
        Some(MutationError::BlankPrompt)
    } else if blank(input.backend_config.provider) {
        Some(MutationError::BlankProvider)
    } else if input.trigger_kind == TriggerKind::Schedule && !has_cron(input.trigger.cron) {
        Some(MutationError::MissingCron)
    } else {
        None
    }
}

pub open spec fn spec_rule_patch_error(patch: AutomationRulePatch) -> Option<MutationError> {
    if patch.spec_is_empty() {
        Some(MutationError::EmptyRulePatch)
    } else if patch.name is Some && blank(patch.name->0) {
        Some(MutationError::BlankName)
    } else if patch.prompt is Some && blank(patch.prompt->0) {
        Some(MutationError::BlankPrompt)
    } else if patch.backend_config is Some && blank(patch.backend_config->0.provider) {
        Some(MutationError::BlankProvider)
    } else if patch.trigger_kind == Some(TriggerKind::Schedule) && patch.trigger is Some && !has_cron(
        patch.trigger->0.cron,
    ) {
        Some(MutationError::MissingCron)
    } else {
        None
    }
}

/// The first thing wrong with an operation, if anything.
pub open spec fn spec_operation_error(op: MutationOperation) -> Option<MutationError> {
    match op {
        MutationOperation::MemoStatePatch { memo_id, patch } => if blank(memo_id) {
            Some(MutationError::EmptyId { field: "memoId" })
        } else if patch.spec_is_empty() {
            Some(MutationError::EmptyMemoStatePatch)
        } else {
            None
        },
        MutationOperation::ArchiveCompletedTasks { labels } => if labels@.len() == 0 {
            Some(MutationError::NoLabels)
        } else if exists|i: int| 0 <= i < labels@.len() && blank(#[trigger] labels@[i]) {
            Some(MutationError::BlankLabel)
        } else {
            None
        },
        MutationOperation::TagPatch { tag_id, patch } => if blank(tag_id) {
            Some(MutationError::EmptyId { field: "tagId" })
        } else {
            spec_tag_patch_error(patch)
        },
        MutationOperation::TagDelete { tag_id } => if blank(tag_id) {
            Some(MutationError::EmptyId { field: "tagId" })
        } else {
            None
        },
        MutationOperation::AutomationRuleCreate { rule_id, input } => if rule_id is None || blank(
            rule_id->0,
        ) {
            Some(MutationError::EmptyId { field: "ruleId" })
        } else {
            spec_rule_input_error(input)
        },
        MutationOperation::AutomationRulePatch { rule_id, patch } => if blank(rule_id) {
            Some(MutationError::EmptyId { field: "ruleId" })
        } else {
            spec_rule_patch_error(patch)
        },
        MutationOperation::AutomationRuleDelete { rule_id } => if blank(rule_id) {
            Some(MutationError::EmptyId { field: "ruleId" })
        } else {
            None
        },
        MutationOperation::SettingSet { key, .. } => if blank(key) {
            Some(MutationError::EmptyId { field: "key" })
        } else {
            None
        },
    }
}

/// A rule to be created without an id (or with an empty one) takes the
/// operation id as its id, so a retry creates the same entity.
pub open spec fn spec_normalize(request: MutationRequest) -> MutationRequest {
    match request.operation {
        MutationOperation::AutomationRuleCreate { rule_id, input } => if rule_id is None
            || rule_id->0@.len() == 0 {
            MutationRequest {
                operation: MutationOperation::AutomationRuleCreate {
                    rule_id: Some(request.operation_id),
                    input,
                },
                ..request
            }
        } else {
            request
        },
        _ => request,
    }
}

/// Why a request is refused before it reaches the store, if it is.
pub open spec fn spec_request_error(request: MutationRequest) -> Option<MutationError> {
    if blank(request.operation_id) {
        Some(MutationError::EmptyOperationId)
    } else if blank(request.workspace_id) {
        Some(MutationError::EmptyWorkspaceId)
    } else if request.base_revision is Some && request.base_revision->0 < 0 {
        Some(MutationError::NegativeBaseRevision)
    } else {
        spec_operation_error(spec_normalize(request).operation)
    }
}

impl<'a> ApplyMutation<'a> {
    /// Checks a request and fills in the rule id of a rule to be created.
    pub fn prepare(request: MutationRequest) -> (r: Result<MutationRequest, MutationError>)
        ensures
            match spec_request_error(request) {
                Some(e) => r == Err::<MutationRequest, MutationError>(e),
                None => r == Ok::<MutationRequest, MutationError>(spec_normalize(request)),
            },
    {
        if is_blank_str(request.operation_id.as_str()) {
            return Err(MutationError::EmptyOperationId);
        }
        if is_blank_str(request.workspace_id.as_str()) {
            return Err(MutationError::EmptyWorkspaceId);
        }
        match request.base_revision {
            Some(revision) => {
                if revision < 0 {
                    return Err(MutationError::NegativeBaseRevision);
                }
            },
            None => {},
        }
        let ghost given = request;
        let MutationRequest { operation_id, workspace_id, base_revision, operation } = request;
        let operation = match operation {
            MutationOperation::AutomationRuleCreate { rule_id, input } => {
                let rule_id = match rule_id {
                    Some(id) => if id.as_str().unicode_len() == 0 {
                        Some(operation_id.clone())
                    } else {
                        Some(id)
                    },
                    None => Some(operation_id.clone()),
                };
                MutationOperation::AutomationRuleCreate { rule_id, input }
            },
            other => other,
        };
        let request = MutationRequest { operation_id, workspace_id, base_revision, operation };
        assert(request == spec_normalize(given));
        match validate_operation(&request.operation) {
            Ok(()) => Ok(request),
            Err(e) => Err(e),
        }
    }

    /// Checks the request, then hands it to the store with the current time.
    ///
    /// An invalid request never reaches the store.
    pub fn execute(&self, request: MutationRequest) -> (r: Result<MutationResult, MutationError>)
        ensures
            spec_request_error(request) is Some ==> r == Err::<MutationResult, MutationError>(
                spec_request_error(request)->0,
            ),
    {
        let prepared = match ApplyMutation::prepare(request) {
            Ok(prepared) => prepared,
            Err(e) => return Err(e),
        };
        let now = self.clock.now_rfc3339();
        self.store.apply_mutation(&prepared, now.as_str())
    }
}

fn non_empty_id(name: &'static str, value: &str) -> (r: Result<(), MutationError>)
    ensures
        is_blank(value@) ==> r == Err::<(), MutationError>(MutationError::EmptyId { field: name }),
        !is_blank(value@) ==> r is Ok,
{
    if is_blank_str(value) {
        Err(MutationError::EmptyId { field: name })
    } else {
        Ok(())
    }
}

fn validate_operation(operation: &MutationOperation) -> (r: Result<(), MutationError>)
    ensures
        match spec_operation_error(*operation) {
            Some(e) => r == Err::<(), MutationError>(e),
            None => r is Ok,
        },
{
    match operation {
        MutationOperation::MemoStatePatch { memo_id, patch } => {
            non_empty_id("memoId", memo_id.as_str())?;
            if patch.is_empty() {
                return Err(MutationError::EmptyMemoStatePatch);
            }
        },
        MutationOperation::ArchiveCompletedTasks { labels } => {
            if labels.len() == 0 {
                return Err(MutationError::NoLabels);
            }
            let mut i: usize = 0;
            while i < labels.len()
                invariant
                    i <= labels@.len(),
                    labels@.len() > 0,
                    match *operation {
                        MutationOperation::ArchiveCompletedTasks { labels: l } => l == *labels,
                        _ => false,
                    },
                    forall|k: int| 0 <= k < i ==> !blank(#[trigger] labels@[k]),
                decreases labels.len() - i,
            {
                if is_blank_str(labels[i].as_str()) {
                    assert(blank(labels@[i as int]));
                    return Err(MutationError::BlankLabel);
                }
                i = i + 1;
            }
        },
        MutationOperation::TagPatch { tag_id, patch } => {
            non_empty_id("tagId", tag_id.as_str())?;
            validate_tag_patch(patch)?;
        },
        MutationOperation::TagDelete { tag_id } => non_empty_id("tagId", tag_id.as_str())?,
        MutationOperation::AutomationRuleCreate { rule_id, input } => {
            match rule_id {
                Some(id) => non_empty_id("ruleId", id.as_str())?,
                None => return Err(MutationError::EmptyId { field: "ruleId" }),
            }
            validate_rule_input(input)?;
        },
        MutationOperation::AutomationRulePatch { rule_id, patch } => {
            non_empty_id("ruleId", rule_id.as_str())?;
            validate_rule_patch(patch)?;
        },
        MutationOperation::AutomationRuleDelete { rule_id } => non_empty_id("ruleId", rule_id.as_str())?,
        MutationOperation::SettingSet { key, .. } => non_empty_id("key", key.as_str())?,
    }
    Ok(())
}

fn validate_tag_patch(patch: &TagPatch) -> (r: Result<(), MutationError>)
    ensures
        match spec_tag_patch_error(*patch) {
            Some(e) => r == Err::<(), MutationError>(e),
            None => r is Ok,
        },
{
    if patch.is_empty() {
        return Err(MutationError::EmptyTagPatch);
    }
    match &patch.display_name {
        Some(display_name) => {
            if is_blank_str(display_name.as_str()) {
                return Err(MutationError::BlankDisplayName);
            }
        },
        None => {},
    }
    match &patch.view {
        NullablePatch::SetTo(view) => {
            if is_blank_str(view.as_str()) {
                return Err(MutationError::BlankView);
            }
        },
        _ => {},
    }
    match &patch.recipe {
        NullablePatch::SetTo(recipe) => {
            if is_blank_str(recipe.name.as_str()) {
                return Err(MutationError::BlankRecipeName);
            }
        },
        _ => {},
    }
    Ok(())
}

fn cron_present(cron: &Option<String>) -> (r: bool)
    ensures
        r == has_cron(*cron),
{
    match cron {
        Some(c) => !is_blank_str(c.as_str()),
        None => false,
    }
}

fn validate_rule_input(input: &AutomationRuleInput) -> (r: Result<(), MutationError>)
    ensures
        match spec_rule_input_error(*input) {
            Some(e) => r == Err::<(), MutationError>(e),
            None => r is Ok,
        },
{
    if is_blank_str(input.name.as_str()) {
        return Err(MutationError::BlankName);
    }
    if is_blank_str(input.prompt.as_str()) {
        return Err(MutationError::BlankPrompt);
    }
    if is_blank_str(input.backend_config.provider.as_str()) {
        return Err(MutationError::BlankProvider);
    }
    if input.trigger_kind == TriggerKind::Schedule && !cron_present(&input.trigger.cron) {
        return Err(MutationError::MissingCron);
    }
    Ok(())
}

fn validate_rule_patch(patch: &AutomationRulePatch) -> (r: Result<(), MutationError>)
    ensures
        match spec_rule_patch_error(*patch) {
            Some(e) => r == Err::<(), MutationError>(e),
            None => r is Ok,
        },
{
    if patch.is_empty() {
        return Err(MutationError::EmptyRulePatch);
    }
    match &patch.name {
        Some(name) => {
            if is_blank_str(name.as_str()) {
                return Err(MutationError::BlankName);
            }
        },
        None => {},
    }
    match &patch.prompt {
        Some(prompt) => {
            if is_blank_str(prompt.as_str()) {
                return Err(MutationError::BlankPrompt);
            }
        },
        None => {},
    }
    match &patch.backend_config {
        Some(config) => {
            if is_blank_str(config.provider.as_str()) {
                return Err(MutationError::BlankProvider);
            }
        },
        None => {},
    }
    let schedule = match patch.trigger_kind {
        Some(kind) => kind == TriggerKind::Schedule,
        None => false,
    };
    if schedule {
        match &patch.trigger {
            Some(trigger) => {
                if !cron_present(&trigger.cron) {
                    return Err(MutationError::MissingCron);
                }
            },
            None => {},
        }
    }
    Ok(())
}

} // verus!
