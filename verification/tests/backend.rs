use lineage_core::domain::automation::{
    AutomationRule, BackendConfig, BackendKind, Trigger, TriggerKind,
};
use lineage_core::features::automation::{reject_browser_backend, AutomationError};

fn rule(id: &str, trigger_kind: TriggerKind, trigger: Trigger) -> AutomationRule {
    AutomationRule {
        id: id.into(),
        workspace_id: "ws".into(),
        name: "要約".into(),
        description: None,
        prompt: "要約して:\n{{memo.body}}".into(),
        backend: BackendKind::ApiKey,
        backend_config: BackendConfig {
            provider: "anthropic".into(),
            model: None,
            effort: None,
        },
        trigger_kind,
        trigger,
        enabled: true,
        created_at: "2026-08-13T00:00:00Z".into(),
        updated_at: "2026-08-13T00:00:00Z".into(),
    }
}

#[test]
fn backend_a_browser_rule_is_rejected_where_there_is_no_webview() {
    let mut r = rule("rule-1", TriggerKind::Manual, Trigger::default());
    r.backend = BackendKind::Browser;
    let error = reject_browser_backend(&r).unwrap_err();
    assert!(error.message().contains("browser_backend_unsupported"));

    r.backend = BackendKind::ApiKey;
    assert!(reject_browser_backend(&r).is_ok());
}

#[test]
fn the_browser_refusal_names_the_rule() {
    let mut r = rule("rule-1", TriggerKind::Manual, Trigger::default());
    r.backend = BackendKind::Browser;
    assert_eq!(
        reject_browser_backend(&r).unwrap_err(),
        AutomationError::BrowserBackendUnsupported {
            rule_name: "要約".into()
        }
    );
}
