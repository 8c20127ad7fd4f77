//! Reading and saving settings. The capture tray and the settings screen of
//! the desktop shell save through the same `setting_set` mutation.

use vstd::prelude::*;

use crate::domain::mutation::{MutationOperation, MutationRequest};
use crate::domain::ports::{MutationStore, SettingsRepository};
use crate::domain::settings::{entries_view, spec_from_entries, Settings};
use crate::domain::shared::{Clock, IdGenerator};
use crate::features::mutation::ApplyMutation;
use crate::text::{copy_str, is_blank};

verus! {

pub struct LoadSettings<'a> {
    repository: &'a dyn SettingsRepository,
}

impl<'a> LoadSettings<'a> {
    pub fn new(repository: &'a dyn SettingsRepository) -> Self {
        LoadSettings { repository }
    }

    /// The settings that the stored entries describe.
    pub fn execute(&self, workspace_id: &str) -> (r: Result<Settings, String>)
        ensures
            r is Ok ==> exists|entries: Seq<(String, String)>|
                r->Ok_0 == spec_from_entries(entries_view(entries)),
    {
        let entries = self.repository.all(workspace_id)?;
        Ok(Settings::from_entries(entries.as_slice()))
    }
}

/// The mutation that saves one setting: a `setting_set` of `key` to
/// `value` in the workspace, based on no revision, under `operation_id`.
pub fn setting_request(workspace_id: &str, key: &str, value: &str, operation_id: String) -> (r: MutationRequest)
    ensures
        r.operation_id == operation_id,
        r.workspace_id@ == workspace_id@,
        r.base_revision is None,
        r.operation matches MutationOperation::SettingSet { key: k, value: v } && k@ == key@ && v@ == value@,
{
    MutationRequest {
        operation_id,
        workspace_id: copy_str(workspace_id),
        base_revision: None,
        operation: MutationOperation::SettingSet { key: copy_str(key), value: copy_str(value) },
    }
}

pub struct SaveSettings<'a> {
    store: &'a dyn MutationStore,
    clock: &'a dyn Clock,
    ids: &'a dyn IdGenerator,
}

impl<'a> SaveSettings<'a> {
    pub fn new(store: &'a dyn MutationStore, clock: &'a dyn Clock, ids: &'a dyn IdGenerator) -> Self {
        SaveSettings { store, clock, ids }
    }

    /// Saves every entry of the settings as one `setting_set` mutation each.
    /// A blank workspace is refused before anything is stored.
    pub fn execute(&self, workspace_id: &str, settings: Settings) -> (r: Result<(), crate::domain::mutation::MutationError>)
        ensures
            is_blank(workspace_id@) ==> r is Err,
    {
        let apply = ApplyMutation { store: self.store, clock: self.clock };
        let entries = settings.to_entries();
        let mut i: usize = 0;
        while i < entries.len()
            invariant
                entries@.len() == 1,
                is_blank(workspace_id@) ==> i == 0,
            decreases entries.len() - i,
        {
            let (key, value) = &entries[i];
            let request = setting_request(workspace_id, key, value.as_str(), self.ids.new_id());
            match apply.execute(request) {
                Ok(_) => {},
                Err(e) => return Err(e),
            }
            i = i + 1;
        }
        Ok(())
    }
}

} // verus!
