//! The ports through which the use cases reach storage, credentials and
//! models. Implementations live outside the domain (SQLite, the OS credential
//! store, HTTP); a failure is reported as a message.
//!
//! Nothing is promised of what a port returns: the use cases state what holds
//! whatever comes back.

use vstd::prelude::*;

use crate::domain::automation::{
    AutomationRule, AutomationRun, InferenceOutcome, InferenceRequest, MemoSnapshot,
};
use crate::domain::capture::DocumentAsset;
use crate::domain::lineage::LineageRecord;
use crate::domain::meta::{DocumentMetadata, MetaAssignment, MetaTag};
use crate::domain::mutation::{MutationError, MutationRequest, MutationResult};
use crate::domain::tag::{AutomationBinding, TagDefinition, ViewBinding};

verus! {

pub trait TagRepository {
    fn list(&self, workspace_id: &str, include_deleted: bool) -> Result<Vec<TagDefinition>, String>;

    fn get(&self, id: &str) -> Result<Option<TagDefinition>, String>;

    fn rename(&self, id: &str, display_name: &str, shorthand: Option<&str>, now: &str) -> Result<
        (),
        String,
    >;

    fn soft_delete(&self, id: &str, now: &str) -> Result<(), String>;

    fn set_enabled(&self, id: &str, enabled: bool, now: &str) -> Result<(), String>;

    fn set_view_binding(&self, binding: Option<&ViewBinding>, tag_id: &str, now: &str) -> Result<
        (),
        String,
    >;

    fn set_automation_binding(
        &self,
        binding: Option<&AutomationBinding>,
        tag_id: &str,
        now: &str,
    ) -> Result<(), String>;
}

/// What a transaction that writes documents and links must offer: both are
/// committed together, so the hash chain is never left half written.
pub trait LedgerTx {
    fn insert_document(&self, document: &DocumentAsset) -> Result<(), String>;

    /// The tail of the chain (largest `seq`).
    fn last_link(&self, workspace_id: &str) -> Result<Option<LineageRecord>, String>;

    /// Appends one link. The chain is append-only: there is no update or delete.
    fn append_link(&self, link: &LineageRecord) -> Result<(), String>;
}

/// What a capture transaction can do besides the ledger operations.
pub trait CaptureTx: LedgerTx {
    /// Creates the workspace unless it exists.
    fn ensure_workspace(&self, id: &str, name: &str, now: &str) -> Result<(), String>;

    /// Rewrites the title and body of an existing memo.
    fn update_document(&self, document: &DocumentAsset) -> Result<(), String>;

    /// Removes the tags of a document (before they are written again).
    fn clear_document_metas(&self, document_id: &str) -> Result<(), String>;

    fn insert_document_meta(
        &self,
        id: &str,
        document_id: &str,
        meta: &MetaAssignment,
        now: &str,
    ) -> Result<(), String>;

    fn insert_document_metadata(
        &self,
        id: &str,
        document_id: &str,
        metadata: &DocumentMetadata,
        now: &str,
    ) -> Result<(), String>;

    /// Learns a tag for completion: creates it or bumps its use count.
    fn learn_meta_tag(&self, id: &str, workspace_id: &str, label: &str, now: &str) -> Result<
        (),
        String,
    >;
}

/// The write boundary of capturing. Everything written between `begin` and
/// `commit` is one transaction; `rollback` discards it.
pub trait CaptureStore: CaptureTx {
    fn begin(&self) -> Result<(), String>;

    fn commit(&self) -> Result<(), String>;

    fn rollback(&self);
}

/// What an automation transaction can do besides the ledger operations.
pub trait AutomationTx: LedgerTx {
    /// Records the outcome of a run (status, result document, error).
    fn finish_run(&self, run: &AutomationRun) -> Result<(), String>;
}

/// The write boundary of automation results: the result document, its link
/// and the run's outcome are committed together, between `begin` and
/// `commit`; `rollback` discards them.
pub trait AutomationStore: AutomationTx {
    fn begin(&self) -> Result<(), String>;

    fn commit(&self) -> Result<(), String>;

    fn rollback(&self);
}

/// Reading automation rules.
pub trait AutomationRuleQuery {
    /// Every rule of the workspace, disabled ones included.
    fn all(&self, workspace_id: &str) -> Result<Vec<AutomationRule>, String>;

    /// The rule with this id, if there is one.
    fn get(&self, id: &str) -> (r: Result<Option<AutomationRule>, String>)
        ensures
            r matches Ok(Some(rule)) ==> rule.id@ == id@,
    ;
}

/// Run history.
pub trait AutomationRunStore {
    /// Records a run as `running`.
    fn start(&self, run: &AutomationRun) -> Result<(), String>;

    fn recent(&self, workspace_id: &str, limit: usize) -> Result<Vec<AutomationRun>, String>;

    /// Memos that the rule has not yet processed (no successful or running
    /// run), newest first. Filtering by tags is left to the caller.
    fn unprocessed_memos(&self, workspace_id: &str, rule_id: &str, scan_limit: usize) -> Result<
        Vec<MemoSnapshot>,
        String,
    >;

    /// When the rule last started a run.
    fn last_started_at(&self, rule_id: &str) -> Result<Option<String>, String>;
}

/// Reading one memo.
pub trait MemoQuery {
    /// The workspace's memo with this id, if there is one.
    fn get(&self, workspace_id: &str, document_id: &str) -> (r: Result<Option<MemoSnapshot>, String>)
        ensures
            r matches Ok(Some(memo)) ==> memo.id@ == document_id@,
    ;
}

/// Secrets such as API keys. A missing secret is `None`, not an error.
pub trait CredentialStore {
    fn secret(&self, provider: &str) -> Result<Option<String>, String>;
}

/// Calling a generative model.
pub trait InferenceBackend {
    fn complete(&self, request: &InferenceRequest) -> Result<InferenceOutcome, String>;
}

/// The pool of completion candidates.
pub trait MetaTagQuery {
    fn all(&self, workspace_id: &str, limit: usize) -> Result<Vec<MetaTag>, String>;
}

/// The ledger in `seq` order, for verification.
pub trait LineageQuery {
    fn list(&self, workspace_id: &str) -> Result<Vec<LineageRecord>, String>;
}

/// Reading and writing user settings.
pub trait SettingsRepository {
    fn all(&self, workspace_id: &str) -> Result<Vec<(String, String)>, String>;

    fn set(&self, workspace_id: &str, key: &str, value: &str, now: &str) -> Result<(), String>;
}

/// Applying a validated mutation to local storage.
pub trait MutationStore {
    fn apply_mutation(&self, request: &MutationRequest, recorded_at: &str) -> Result<
        MutationResult,
        MutationError,
    >;
}

} // verus!
