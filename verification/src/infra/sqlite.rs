//! What the SQLite store writes for a mutation, decided apart from the SQL.
//!
//! Applying an operation reads one thing about its target (does the memo
//! exist, what kind is the tag, what does the rule hold now), checks it, and
//! then issues one write per field that the operation carries. The store runs
//! the writes in order inside the mutation's transaction; a refusal rolls the
//! whole mutation back.

use vstd::prelude::*;

use crate::domain::automation::{BackendConfig, BackendKind, Trigger, TriggerKind};
use crate::domain::mutation::{
    AutomationRuleInput, AutomationRulePatch, MemoStatePatch, MutationError, MutationOperation,
    NullablePatch, TagPatch, TagRecipe,
};
use crate::text::{is_blank, is_blank_str, str_eq};

verus! {

/// What must be read about an operation's target before it is applied.
#[derive(Debug, Clone, PartialEq, Eq)]
pub enum TargetLookup {
    /// Nothing: the operation does not depend on what is stored.
    Nothing,
    /// Whether a memo of the workspace has this id.
    Memo(String),
    /// The kind of the live tag with this id.
    Tag(String),
    /// The trigger of the rule with this id.
    Rule(String),
}

/// A rule's trigger as stored.
#[derive(Debug, Clone, PartialEq, Eq)]
pub struct StoredRule {
    pub trigger_kind: TriggerKind,
    /// `None` when the stored trigger could not be read.
    pub trigger: Option<Trigger>,
}

/// What the store found for a [`TargetLookup`].
#[derive(Debug, Clone, PartialEq, Eq)]
pub enum TargetFound {
    Nothing,
    Memo { exists: bool },
    /// `None` when there is no live tag with the id.
    Tag { kind: Option<String> },
    /// `None` when there is no such rule.
    Rule { current: Option<StoredRule> },
}

/// One write of an applied operation.
#[derive(Debug, Clone, PartialEq, Eq)]
pub enum StoreWrite {
    /// `done`, and when it became done (cleared when undone).
    MemoDone { memo_id: String, done: bool, done_at: Option<String> },
    /// When the memo was archived, or `None` to restore it.
    MemoArchived { memo_id: String, archived_at: Option<String> },
    /// When the memo was trashed, or `None` to restore it.
    MemoTrashed { memo_id: String, deleted_at: Option<String> },
    /// Archives the done, live memos that carry one of these (lower-cased) labels.
    ArchiveCompletedMemos { labels: Vec<String> },
    TagDisplayName { tag_id: String, display_name: String },
    TagShorthand { tag_id: String, shorthand: Option<String> },
    TagEnabled { tag_id: String, enabled: bool },
    /// Binds the tag to a view, or removes the binding.
    TagView { tag_id: String, view: Option<String> },
    /// Binds the tag to a recipe, or removes the binding.
    TagRecipe { tag_id: String, recipe: Option<TagRecipe> },
    /// Stamps the tag's `updated_at`.
    TagTouched { tag_id: String },
    /// Marks a user tag deleted (and disabled); its assignments stay.
    TagSoftDelete { tag_id: String },
    RuleInsert { rule_id: String, input: AutomationRuleInput },
    RuleName { rule_id: String, name: String },
    RuleDescription { rule_id: String, description: Option<String> },
    RulePrompt { rule_id: String, prompt: String },
    RuleBackend { rule_id: String, backend: BackendKind },
    RuleBackendConfig { rule_id: String, config: BackendConfig },
    RuleTriggerKind { rule_id: String, kind: TriggerKind },
    RuleTrigger { rule_id: String, trigger: Trigger },
    RuleEnabled { rule_id: String, enabled: bool },
    /// Stamps the rule's `updated_at`.
    RuleTouched { rule_id: String },
    RuleDelete { rule_id: String },
    SettingUpsert { key: String, value: String },
}

/// The stored `ownership` of a recipe binding.
pub fn ownership(managed: bool) -> (s: &'static str)
    ensures
        s@ == (if managed {
            "managed"@
        } else {
            "external"@
        }),
{
    if managed {
        "managed"
    } else {
        "external"
    }
}

/// Which lookup an operation needs.
pub open spec fn spec_target_lookup(op: MutationOperation) -> TargetLookup {
    match op {
        MutationOperation::MemoStatePatch { memo_id, .. } => TargetLookup::Memo(memo_id),
        MutationOperation::TagPatch { tag_id, .. } => TargetLookup::Tag(tag_id),
        MutationOperation::TagDelete { tag_id } => TargetLookup::Tag(tag_id),
        MutationOperation::AutomationRulePatch { rule_id, .. } => TargetLookup::Rule(rule_id),
        MutationOperation::AutomationRuleDelete { rule_id } => TargetLookup::Rule(rule_id),
        _ => TargetLookup::Nothing,
    }
}

/// What was found answers the operation's lookup.
pub open spec fn found_fits(op: MutationOperation, found: TargetFound) -> bool {
    match spec_target_lookup(op) {
        TargetLookup::Nothing => found is Nothing,
        TargetLookup::Memo(_) => found is Memo,
        TargetLookup::Tag(_) => found is Tag,
        TargetLookup::Rule(_) => found is Rule,
    }
}

pub fn target_lookup(op: &MutationOperation) -> (r: TargetLookup)
    ensures
        r == spec_target_lookup(*op),
{
    match op {
        MutationOperation::MemoStatePatch { memo_id, .. } => TargetLookup::Memo(memo_id.clone()),
        MutationOperation::TagPatch { tag_id, .. } => TargetLookup::Tag(tag_id.clone()),
        MutationOperation::TagDelete { tag_id } => TargetLookup::Tag(tag_id.clone()),
        MutationOperation::AutomationRulePatch { rule_id, .. } => TargetLookup::Rule(rule_id.clone()),
        MutationOperation::AutomationRuleDelete { rule_id } => TargetLookup::Rule(rule_id.clone()),
        _ => TargetLookup::Nothing,
    }
}

/// A tag is a user tag (not built in).
pub open spec fn user_kind(kind: String) -> bool {
    kind@ == "user"@
}

/// The trigger kind and trigger a rule has once `patch` is applied; `None`
/// for the trigger when the stored one is kept but could not be read.
pub open spec fn patched_trigger(current: StoredRule, patch: AutomationRulePatch) -> (TriggerKind, Option<Trigger>) {
    (
        match patch.trigger_kind {
            Some(k) => k,
            None => current.trigger_kind,
        },
        match patch.trigger {
            Some(t) => Some(t),
            None => current.trigger,
        },
    )
}

/// Why applying the operation must stop, given what was found.
pub open spec fn spec_refusal(op: MutationOperation, found: TargetFound) -> Option<MutationError> {
    match op {
        MutationOperation::MemoStatePatch { memo_id, .. } => match found {
            TargetFound::Memo { exists } => if exists {
                None
            } else {
                Some(MutationError::MemoNotFound(memo_id))
            },
            _ => None,
        },
        MutationOperation::TagPatch { tag_id, patch } => match found {
            TargetFound::Tag { kind } => match kind {
                None => Some(MutationError::TagNotFound(tag_id)),
                Some(k) => if patch.display_name is Some && !user_kind(k) {
                    Some(MutationError::BuiltinTagRename)
                } else {
                    None
                },
            },
            _ => None,
        },
        MutationOperation::TagDelete { tag_id } => match found {
            TargetFound::Tag { kind } => match kind {
                None => Some(MutationError::TagNotFound(tag_id)),
                Some(k) => if user_kind(k) {
                    None
                } else {
                    Some(MutationError::BuiltinTagDelete)
                },
            },
            _ => None,
        },
        MutationOperation::AutomationRuleCreate { rule_id, .. } => if rule_id is None {
            Some(MutationError::MissingEntityId)
        } else {
            None
        },
        MutationOperation::AutomationRulePatch { rule_id, patch } => match found {
            TargetFound::Rule { current } => match current {
                None => Some(MutationError::RuleNotFound(rule_id)),
                Some(c) => {
                    let (kind, trigger) = patched_trigger(c, patch);
                    if kind != TriggerKind::Schedule {
                        None
                    } else {
                        match trigger {
                            None => Some(MutationError::UnreadableTrigger),
                            Some(t) => if t.cron is Some && !is_blank(t.cron->0@) {
                                None
                            } else {
                                Some(MutationError::MissingCron)
                            },
                        }
                    }
                },
            },
            _ => None,
        },
        MutationOperation::AutomationRuleDelete { rule_id } => match found {
            TargetFound::Rule { current } => if current is None {
                Some(MutationError::RuleNotFound(rule_id))
            } else {
                None
            },
            _ => None,
        },
        _ => None,
    }
}

/// `now` when `on`, otherwise `None`.
pub open spec fn stamp(on: bool, now: String) -> Option<String> {
    if on {
        Some(now)
    } else {
        None
    }
}

pub open spec fn memo_writes(memo_id: String, patch: MemoStatePatch, now: String) -> Seq<StoreWrite> {
    (match patch.done {
        Some(done) => seq![StoreWrite::MemoDone { memo_id, done, done_at: stamp(done, now) }],
        None => Seq::empty(),
    }) + (match patch.archived {
        Some(a) => seq![StoreWrite::MemoArchived { memo_id, archived_at: stamp(a, now) }],
        None => Seq::empty(),
    }) + (match patch.trashed {
        Some(t) => seq![StoreWrite::MemoTrashed { memo_id, deleted_at: stamp(t, now) }],
        None => Seq::empty(),
    })
}

/// `Some(v)` for a value, `None` for a clear; `None` overall when unchanged.
pub open spec fn nullable_value<T>(p: NullablePatch<T>) -> Option<Option<T>> {
    match p {
        NullablePatch::Unchanged => None,
        NullablePatch::Clear => Some(None),
        NullablePatch::SetTo(v) => Some(Some(v)),
    }
}

pub open spec fn tag_writes(tag_id: String, patch: TagPatch) -> Seq<StoreWrite> {
    (match patch.display_name {
        Some(n) => seq![StoreWrite::TagDisplayName { tag_id, display_name: n }],
        None => Seq::empty(),
    }) + (match nullable_value(patch.shorthand) {
        Some(v) => seq![StoreWrite::TagShorthand { tag_id, shorthand: v }],
        None => Seq::empty(),
    }) + (match patch.enabled {
        Some(e) => seq![StoreWrite::TagEnabled { tag_id, enabled: e }],
        None => Seq::empty(),
    }) + (match nullable_value(patch.view) {
        Some(v) => seq![StoreWrite::TagView { tag_id, view: v }],
        None => Seq::empty(),
    }) + (match nullable_value(patch.recipe) {
        Some(v) => seq![StoreWrite::TagRecipe { tag_id, recipe: v }],
        None => Seq::empty(),
    }) + seq![StoreWrite::TagTouched { tag_id }]
}

/// The writes of a rule's name, description, prompt and backend kind.
pub open spec fn rule_head_writes(
    rule_id: String,
    name: Option<String>,
    description: NullablePatch<String>,
    prompt: Option<String>,
    backend: Option<BackendKind>,
) -> Seq<StoreWrite> {
    (match name {
        Some(v) => seq![StoreWrite::RuleName { rule_id, name: v }],
        None => Seq::empty(),
    }) + (match nullable_value(description) {
        Some(v) => seq![StoreWrite::RuleDescription { rule_id, description: v }],
        None => Seq::empty(),
    }) + (match prompt {
        Some(v) => seq![StoreWrite::RulePrompt { rule_id, prompt: v }],
        None => Seq::empty(),
    }) + (match backend {
        Some(v) => seq![StoreWrite::RuleBackend { rule_id, backend: v }],
        None => Seq::empty(),
    })
}

/// The writes of a rule's backend settings, trigger and switch.
pub open spec fn rule_tail_writes(
    rule_id: String,
    backend_config: Option<BackendConfig>,
    trigger_kind: Option<TriggerKind>,
    trigger: Option<Trigger>,
    enabled: Option<bool>,
) -> Seq<StoreWrite> {
    (match backend_config {
        Some(v) => seq![StoreWrite::RuleBackendConfig { rule_id, config: v }],
        None => Seq::empty(),
    }) + (match trigger_kind {
        Some(v) => seq![StoreWrite::RuleTriggerKind { rule_id, kind: v }],
        None => Seq::empty(),
    }) + (match trigger {
        Some(v) => seq![StoreWrite::RuleTrigger { rule_id, trigger: v }],
        None => Seq::empty(),
    }) + (match enabled {
        Some(v) => seq![StoreWrite::RuleEnabled { rule_id, enabled: v }],
        None => Seq::empty(),
    })
}

/// One write per field the patch carries, in field order, then the stamp.
pub open spec fn rule_writes(rule_id: String, patch: AutomationRulePatch) -> Seq<StoreWrite> {
    rule_head_writes(rule_id, patch.name, patch.description, patch.prompt, patch.backend)
        + rule_tail_writes(rule_id, patch.backend_config, patch.trigger_kind, patch.trigger, patch.enabled)
        + seq![StoreWrite::RuleTouched { rule_id }]
}

/// The lower-case form of a label, as `str::to_lowercase` gives it.
pub uninterp spec fn lowercase(s: Seq<char>) -> Seq<char>;

/// The writes of an operation that was not refused, in order. Archiving
/// completed tasks is stated apart, by [`archive_labels`].
pub open spec fn spec_writes(op: MutationOperation, now: String) -> Seq<StoreWrite> {
    match op {
        MutationOperation::MemoStatePatch { memo_id, patch } => memo_writes(memo_id, patch, now),
        MutationOperation::ArchiveCompletedTasks { .. } => Seq::empty(),
        MutationOperation::TagPatch { tag_id, patch } => tag_writes(tag_id, patch),
        MutationOperation::TagDelete { tag_id } => seq![StoreWrite::TagSoftDelete { tag_id }],
        MutationOperation::AutomationRuleCreate { rule_id, input } => match rule_id {
            Some(id) => seq![StoreWrite::RuleInsert { rule_id: id, input }],
            None => Seq::empty(),
        },
        MutationOperation::AutomationRulePatch { rule_id, patch } => rule_writes(rule_id, patch),
        MutationOperation::AutomationRuleDelete { rule_id } => seq![StoreWrite::RuleDelete { rule_id }],
        MutationOperation::SettingSet { key, value } => seq![StoreWrite::SettingUpsert { key, value }],
    }
}

/// The single write that archives completed tasks, with every label lower-cased.
pub open spec fn archive_labels(labels: Seq<String>, writes: Seq<StoreWrite>) -> bool {
    &&& writes.len() == 1
    &&& writes[0] matches StoreWrite::ArchiveCompletedMemos { labels: out }
    &&& out@.len() == labels.len()
    &&& forall|i: int| 0 <= i < labels.len() ==> #[trigger] out@[i]@ == lowercase(labels[i]@)
}

#[verifier::external_body]
fn to_lowercase(s: &str) -> (r: String)
    ensures
        r@ == lowercase(s@),
{
    s.to_lowercase()
}

fn stamp_now(on: bool, now: &String) -> (r: Option<String>)
    ensures
        r == stamp(on, *now),
{
    if on {
        Some(now.clone())
    } else {
        None
    }
}

fn nullable_write<T>(p: NullablePatch<T>) -> (r: Option<Option<T>>)
    ensures
        r == nullable_value(p),
{
    match p {
        NullablePatch::Unchanged => None,
        NullablePatch::Clear => Some(None),
        NullablePatch::SetTo(v) => Some(Some(v)),
    }
}

fn plan_memo(memo_id: String, patch: MemoStatePatch, now: &String) -> (w: Vec<StoreWrite>)
    ensures
        w@ == memo_writes(memo_id, patch, *now),
{
    let mut w: Vec<StoreWrite> = Vec::new();
    if let Some(done) = patch.done {
        w.push(StoreWrite::MemoDone { memo_id: memo_id.clone(), done, done_at: stamp_now(done, now) });
    }
    let ghost first = w@;
    if let Some(archived) = patch.archived {
        w.push(StoreWrite::MemoArchived { memo_id: memo_id.clone(), archived_at: stamp_now(archived, now) });
    }
    let ghost second = w@;
    if let Some(trashed) = patch.trashed {
        w.push(StoreWrite::MemoTrashed { memo_id: memo_id.clone(), deleted_at: stamp_now(trashed, now) });
    }
    proof {
        let a = match patch.done {
            Some(done) => seq![StoreWrite::MemoDone { memo_id, done, done_at: stamp(done, *now) }],
            None => Seq::<StoreWrite>::empty(),
        };
        let b = match patch.archived {
            Some(x) => seq![StoreWrite::MemoArchived { memo_id, archived_at: stamp(x, *now) }],
            None => Seq::<StoreWrite>::empty(),
        };
        let c = match patch.trashed {
            Some(x) => seq![StoreWrite::MemoTrashed { memo_id, deleted_at: stamp(x, *now) }],
            None => Seq::<StoreWrite>::empty(),
        };
        assert(first =~= a);
        assert(second =~= a + b);
        assert(w@ =~= a + b + c);
    }
    w
}

fn plan_tag(tag_id: String, patch: TagPatch) -> (w: Vec<StoreWrite>)
    ensures
        w@ == tag_writes(tag_id, patch),
{
    let ghost p = patch;
    let TagPatch { display_name, shorthand, enabled, view, recipe } = patch;
    let mut w: Vec<StoreWrite> = Vec::new();
    if let Some(n) = display_name {
        w.push(StoreWrite::TagDisplayName { tag_id: tag_id.clone(), display_name: n });
    }
    let ghost s1 = w@;
    if let Some(v) = nullable_write(shorthand) {
        w.push(StoreWrite::TagShorthand { tag_id: tag_id.clone(), shorthand: v });
    }
    let ghost s2 = w@;
    if let Some(e) = enabled {
        w.push(StoreWrite::TagEnabled { tag_id: tag_id.clone(), enabled: e });
    }
    let ghost s3 = w@;
    if let Some(v) = nullable_write(view) {
        w.push(StoreWrite::TagView { tag_id: tag_id.clone(), view: v });
    }
    let ghost s4 = w@;
    if let Some(v) = nullable_write(recipe) {
        w.push(StoreWrite::TagRecipe { tag_id: tag_id.clone(), recipe: v });
    }
    let ghost s5 = w@;
    w.push(StoreWrite::TagTouched { tag_id: tag_id.clone() });
    proof {
        let a = match p.display_name {
            Some(n) => seq![StoreWrite::TagDisplayName { tag_id, display_name: n }],
            None => Seq::<StoreWrite>::empty(),
        };
        let b = match nullable_value(p.shorthand) {
            Some(v) => seq![StoreWrite::TagShorthand { tag_id, shorthand: v }],
            None => Seq::<StoreWrite>::empty(),
        };
        let c = match p.enabled {
            Some(e) => seq![StoreWrite::TagEnabled { tag_id, enabled: e }],
            None => Seq::<StoreWrite>::empty(),
        };
        let d = match nullable_value(p.view) {
            Some(v) => seq![StoreWrite::TagView { tag_id, view: v }],
            None => Seq::<StoreWrite>::empty(),
        };
        let e = match nullable_value(p.recipe) {
            Some(v) => seq![StoreWrite::TagRecipe { tag_id, recipe: v }],
            None => Seq::<StoreWrite>::empty(),
        };
        assert(s1 =~= a);
        assert(s2 =~= a + b);
        assert(s3 =~= a + b + c);
        assert(s4 =~= a + b + c + d);
        assert(s5 =~= a + b + c + d + e);
        assert(w@ =~= a + b + c + d + e + seq![StoreWrite::TagTouched { tag_id }]);
    }
    w
}

fn plan_rule_head(
    rule_id: &String,
    name: Option<String>,
    description: NullablePatch<String>,
    prompt: Option<String>,
    backend: Option<BackendKind>,
) -> (w: Vec<StoreWrite>)
    ensures
        w@ == rule_head_writes(*rule_id, name, description, prompt, backend),
{
    let ghost (gn, d, gp) = (name, description, prompt);
    let mut w: Vec<StoreWrite> = Vec::new();
    if let Some(v) = name {
        w.push(StoreWrite::RuleName { rule_id: rule_id.clone(), name: v });
    }
    let ghost s1 = w@;
    if let Some(v) = nullable_write(description) {
        w.push(StoreWrite::RuleDescription { rule_id: rule_id.clone(), description: v });
    }
    let ghost s2 = w@;
    if let Some(v) = prompt {
        w.push(StoreWrite::RulePrompt { rule_id: rule_id.clone(), prompt: v });
    }
    let ghost s3 = w@;
    if let Some(v) = backend {
        w.push(StoreWrite::RuleBackend { rule_id: rule_id.clone(), backend: v });
    }
    proof {
        let a = match gn {
            Some(v) => seq![StoreWrite::RuleName { rule_id: *rule_id, name: v }],
            None => Seq::<StoreWrite>::empty(),
        };
        let b = match nullable_value(d) {
            Some(v) => seq![StoreWrite::RuleDescription { rule_id: *rule_id, description: v }],
            None => Seq::<StoreWrite>::empty(),
        };
        let c = match gp {
            Some(v) => seq![StoreWrite::RulePrompt { rule_id: *rule_id, prompt: v }],
            None => Seq::<StoreWrite>::empty(),
        };
        let e = match backend {
            Some(v) => seq![StoreWrite::RuleBackend { rule_id: *rule_id, backend: v }],
            None => Seq::<StoreWrite>::empty(),
        };
        assert(s1 =~= a);
        assert(s2 =~= a + b);
        assert(s3 =~= a + b + c);
        assert(w@ =~= a + b + c + e);
    }
    w
}

fn plan_rule_tail(
    rule_id: &String,
    backend_config: Option<BackendConfig>,
    trigger_kind: Option<TriggerKind>,
    trigger: Option<Trigger>,
    enabled: Option<bool>,
) -> (w: Vec<StoreWrite>)
    ensures
        w@ == rule_tail_writes(*rule_id, backend_config, trigger_kind, trigger, enabled),
{
    let ghost (gc, gt) = (backend_config, trigger);
    let mut w: Vec<StoreWrite> = Vec::new();
    if let Some(v) = backend_config {
        w.push(StoreWrite::RuleBackendConfig { rule_id: rule_id.clone(), config: v });
    }
    let ghost s1 = w@;
    if let Some(v) = trigger_kind {
        w.push(StoreWrite::RuleTriggerKind { rule_id: rule_id.clone(), kind: v });
    }
    let ghost s2 = w@;
    if let Some(v) = trigger {
        w.push(StoreWrite::RuleTrigger { rule_id: rule_id.clone(), trigger: v });
    }
    let ghost s3 = w@;
    if let Some(v) = enabled {
        w.push(StoreWrite::RuleEnabled { rule_id: rule_id.clone(), enabled: v });
    }
    proof {
        let a = match gc {
            Some(v) => seq![StoreWrite::RuleBackendConfig { rule_id: *rule_id, config: v }],
            None => Seq::<StoreWrite>::empty(),
        };
        let b = match trigger_kind {
            Some(v) => seq![StoreWrite::RuleTriggerKind { rule_id: *rule_id, kind: v }],
            None => Seq::<StoreWrite>::empty(),
        };
        let c = match gt {
            Some(v) => seq![StoreWrite::RuleTrigger { rule_id: *rule_id, trigger: v }],
            None => Seq::<StoreWrite>::empty(),
        };
        let e = match enabled {
            Some(v) => seq![StoreWrite::RuleEnabled { rule_id: *rule_id, enabled: v }],
            None => Seq::<StoreWrite>::empty(),
        };
        assert(s1 =~= a);
        assert(s2 =~= a + b);
        assert(s3 =~= a + b + c);
        assert(w@ =~= a + b + c + e);
    }
    w
}

fn plan_rule(rule_id: String, patch: AutomationRulePatch) -> (w: Vec<StoreWrite>)
    ensures
        w@ == rule_writes(rule_id, patch),
{
    let AutomationRulePatch {
        name,
        description,
        prompt,
        backend,
        backend_config,
        trigger_kind,
        trigger,
        enabled,
    } = patch;
    let mut w = plan_rule_head(&rule_id, name, description, prompt, backend);
    let mut tail = plan_rule_tail(&rule_id, backend_config, trigger_kind, trigger, enabled);
    w.append(&mut tail);
    w.push(StoreWrite::RuleTouched { rule_id });
    w
}

fn plan_archive(labels: &Vec<String>) -> (w: Vec<StoreWrite>)
    ensures
        archive_labels(labels@, w@),
{
    let mut out: Vec<String> = Vec::new();
    let mut i: usize = 0;
    while i < labels.len()
        invariant
            i <= labels.len(),
            out.len() == i,
            forall|j: int| 0 <= j < i ==> #[trigger] out@[j]@ == lowercase(labels@[j]@),
        decreases labels.len() - i,
    {
        out.push(to_lowercase(labels[i].as_str()));
        i = i + 1;
    }
    let mut w: Vec<StoreWrite> = Vec::new();
    w.push(StoreWrite::ArchiveCompletedMemos { labels: out });
    w
}

/// Whether the rule, with the patch applied, may be stored: a schedule
/// needs a cron expression that is not blank.
fn check_patched_rule(current: &StoredRule, patch: &AutomationRulePatch) -> (r: Result<(), MutationError>)
    ensures
        ({
            let (kind, trigger) = patched_trigger(*current, *patch);
            match r {
                Ok(()) => kind != TriggerKind::Schedule || (trigger matches Some(t) && t.cron is Some
                    && !is_blank(t.cron->0@)),
                Err(e) => kind == TriggerKind::Schedule && (match trigger {
                    None => e == MutationError::UnreadableTrigger,
                    Some(t) => (t.cron is None || is_blank(t.cron->0@)) && e == MutationError::MissingCron,
                }),
            }
        }),
{
    let kind = match patch.trigger_kind {
        Some(k) => k,
        None => current.trigger_kind,
    };
    if kind != TriggerKind::Schedule {
        return Ok(());
    }
    let trigger = match &patch.trigger {
        Some(t) => t,
        None => match &current.trigger {
            Some(t) => t,
            None => return Err(MutationError::UnreadableTrigger),
        },
    };
    match &trigger.cron {
        Some(cron) => if is_blank_str(cron.as_str()) {
            Err(MutationError::MissingCron)
        } else {
            Ok(())
        },
        None => Err(MutationError::MissingCron),
    }
}

/// The writes that apply an operation, in order, or why it must not be
/// applied. A refusal comes before any write, so the caller can roll the
/// mutation back with nothing half done.
pub fn plan_operation(operation: MutationOperation, found: &TargetFound, now: &String) -> (r: Result<
    Vec<StoreWrite>,
    MutationError,
>)
    requires
        found_fits(operation, *found),
    ensures
        match spec_refusal(operation, *found) {
            Some(e) => r == Err::<Vec<StoreWrite>, MutationError>(e),
            None => r is Ok && match operation {
                MutationOperation::ArchiveCompletedTasks { labels } => archive_labels(labels@, r->Ok_0@),
                _ => r->Ok_0@ == spec_writes(operation, *now),
            },
        },
{
    match operation {
        MutationOperation::MemoStatePatch { memo_id, patch } => {
            match found {
                TargetFound::Memo { exists } => {
                    if !*exists {
                        return Err(MutationError::MemoNotFound(memo_id));
                    }
                },
                _ => {},
            }
            Ok(plan_memo(memo_id, patch, now))
        },
        MutationOperation::ArchiveCompletedTasks { labels } => Ok(plan_archive(&labels)),
        MutationOperation::TagPatch { tag_id, patch } => {
            match found {
                TargetFound::Tag { kind } => match kind {
                    None => return Err(MutationError::TagNotFound(tag_id)),
                    Some(k) => {
                        if patch.display_name.is_some() && !str_eq(k.as_str(), "user") {
                            return Err(MutationError::BuiltinTagRename);
                        }
                    },
                },
                _ => {},
            }
            Ok(plan_tag(tag_id, patch))
        },
        MutationOperation::TagDelete { tag_id } => {
            match found {
                TargetFound::Tag { kind } => match kind {
                    None => return Err(MutationError::TagNotFound(tag_id)),
                    Some(k) => {
                        if !str_eq(k.as_str(), "user") {
                            return Err(MutationError::BuiltinTagDelete);
                        }
                    },
                },
                _ => {},
            }
            let mut w: Vec<StoreWrite> = Vec::new();
            w.push(StoreWrite::TagSoftDelete { tag_id });
            Ok(w)
        },
        MutationOperation::AutomationRuleCreate { rule_id, input } => match rule_id {
            None => Err(MutationError::MissingEntityId),
            Some(id) => {
                let mut w: Vec<StoreWrite> = Vec::new();
                w.push(StoreWrite::RuleInsert { rule_id: id, input });
                Ok(w)
            },
        },
        MutationOperation::AutomationRulePatch { rule_id, patch } => {
            match found {
                TargetFound::Rule { current } => match current {
                    None => return Err(MutationError::RuleNotFound(rule_id)),
                    Some(c) => {
                        if let Err(e) = check_patched_rule(c, &patch) {
                            return Err(e);
                        }
                    },
                },
                _ => {},
            }
            Ok(plan_rule(rule_id, patch))
        },
        MutationOperation::AutomationRuleDelete { rule_id } => {
            match found {
                TargetFound::Rule { current } => {
                    if current.is_none() {
                        return Err(MutationError::RuleNotFound(rule_id));
                    }
                },
                _ => {},
            }
            let mut w: Vec<StoreWrite> = Vec::new();
            w.push(StoreWrite::RuleDelete { rule_id });
            Ok(w)
        },
        MutationOperation::SettingSet { key, value } => {
            let mut w: Vec<StoreWrite> = Vec::new();
            w.push(StoreWrite::SettingUpsert { key, value });
            Ok(w)
        },
    }
}

} // verus!
