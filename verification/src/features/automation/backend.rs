//! Which backends a runtime can serve.

use vstd::prelude::*;

use crate::domain::automation::{
    AutomationRule, BackendConfig, BackendKind, InferenceOutcome, InferenceRequest, Trigger, TriggerKind,
};
use crate::domain::ports::InferenceBackend;
use crate::features::automation::error::AutomationError;
use crate::text::copy_str;

verus! {

/// Refuses a browser rule where there is no web view to run it in, with an
/// error of its own so the caller can point to the desktop shell.
pub fn reject_browser_backend(rule: &AutomationRule) -> (r: Result<(), AutomationError>)
    ensures
        rule.backend == BackendKind::Browser ==> (r matches Err(AutomationError::BrowserBackendUnsupported {
            rule_name,
        }) && rule_name@ == rule.name@),
        rule.backend == BackendKind::ApiKey ==> r is Ok,
{
    if rule.backend == BackendKind::Browser {
        return Err(AutomationError::BrowserBackendUnsupported { rule_name: copy_str(rule.name.as_str()) });
    }
    Ok(())
}

/// A backend whose answer is fixed (for tests): the outcome it holds, or
/// an error with the message it holds.
pub struct StubBackend(pub Result<InferenceOutcome, &'static str>);

/// A copy of an outcome.
fn copy_outcome(outcome: &InferenceOutcome) -> (r: InferenceOutcome)
    ensures
        r == *outcome,
{
    match outcome {
        InferenceOutcome::Completed(text) => InferenceOutcome::Completed(text.clone()),
        InferenceOutcome::Refused { category } => InferenceOutcome::Refused {
            category: match category {
                Some(c) => Some(c.clone()),
                None => None,
            },
        },
    }
}

impl InferenceBackend for StubBackend {
    fn complete(&self, request: &InferenceRequest) -> (r: Result<InferenceOutcome, String>)
        ensures
            match self.0 {
                Ok(outcome) => r == Ok::<InferenceOutcome, String>(outcome),
                Err(message) => r matches Err(m) && m@ == message@,
            },
    {
        match &self.0 {
            Ok(outcome) => Ok(copy_outcome(outcome)),
            Err(message) => Err(copy_str(message)),
        }
    }
}

/// A summarising API-key rule of workspace `ws` (for tests): enabled, named
/// `要約`, asking for a summary of the memo's body, with this id, trigger
/// kind and trigger.
pub fn rule(id: &str, trigger_kind: TriggerKind, trigger: Trigger) -> (r: AutomationRule)
    ensures
        r.id@ == id@,
        r.workspace_id@ == "ws"@,
        r.name@ == "要約"@,
        r.description is None,
        r.prompt@ == "要約して: {{memo.body}}"@,
        r.backend == BackendKind::ApiKey,
        r.backend_config.provider@ == "anthropic"@,
        r.backend_config.model is None,
        r.backend_config.effort is None,
        r.trigger_kind == trigger_kind,
        r.trigger == trigger,
        r.enabled,
        r.created_at@ == "2026-08-13T00:00:00Z"@,
        r.updated_at@ == "2026-08-13T00:00:00Z"@,
{
    AutomationRule {
        id: copy_str(id),
        workspace_id: copy_str("ws"),
        name: copy_str("要約"),
        description: None,
        prompt: copy_str("要約して: {{memo.body}}"),
        backend: BackendKind::ApiKey,
        backend_config: BackendConfig { provider: copy_str("anthropic"), model: None, effort: None },
        trigger_kind,
        trigger,
        enabled: true,
        created_at: copy_str("2026-08-13T00:00:00Z"),
        updated_at: copy_str("2026-08-13T00:00:00Z"),
    }
}

} // verus!
