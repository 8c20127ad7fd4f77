//! What the `agentos` command decides: which runs a batch makes, and the
//! exit code a script sees.
//!
//! `agentos` keeps no state and is started by the OS scheduler (`tick`) or
//! by the desktop shell. An exit code of 1 means the command itself failed;
//! 2 means it ran but the automation did not succeed.

use vstd::prelude::*;

use crate::domain::automation::{AutomationRun, BackendKind, RunStatus};
use crate::domain::lineage::VerifyResult;
use crate::domain::ports::{AutomationStore, InferenceBackend};
use crate::features::automation::run::{settled, Automation};
use crate::features::automation::{reject_browser_backend, AutomationError};

verus! {

/// The workspace that the quick-capture app writes to.
pub const DEFAULT_WORKSPACE_ID: &'static str = "local";

/// Exit code of a command that ran but whose automation did not succeed.
pub const EXIT_NOT_SUCCEEDED: i32 = 2;

/// Most runs that one `poll` or `tick` makes.
pub const DEFAULT_BATCH_LIMIT: usize = 20;

/// 0 for a successful run; otherwise [`EXIT_NOT_SUCCEEDED`] (a refusal is
/// not a success either, so scripts see it as a failure).
pub fn exit_code_for(run: &AutomationRun) -> (code: i32)
    ensures
        code == (if run.status == RunStatus::Succeeded {
            0
        } else {
            EXIT_NOT_SUCCEEDED
        }),
{
    if run.status == RunStatus::Succeeded {
        0
    } else {
        EXIT_NOT_SUCCEEDED
    }
}

/// 0 for an intact chain, [`EXIT_NOT_SUCCEEDED`] for a broken one.
pub fn verify_exit_code(result: &VerifyResult) -> (code: i32)
    ensures
        code == (if *result is Intact {
            0
        } else {
            EXIT_NOT_SUCCEEDED
        }),
{
    if result.is_ok() {
        0
    } else {
        EXIT_NOT_SUCCEEDED
    }
}

/// A `tick` reports the worse of its two halves.
pub fn tick_exit_code(polled: i32, due: i32) -> (code: i32)
    ensures
        code == (if polled >= due {
            polled
        } else {
            due
        }),
{
    if polled >= due {
        polled
    } else {
        due
    }
}

/// How many of the runs did not succeed.
pub open spec fn failures(runs: Seq<AutomationRun>) -> nat
    decreases runs.len(),
{
    if runs.len() == 0 {
        0
    } else {
        failures(runs.drop_last()) + if runs.last().status == RunStatus::Succeeded {
            0nat
        } else {
            1nat
        }
    }
}

pub fn count_failures(runs: &Vec<AutomationRun>) -> (n: usize)
    ensures
        n == failures(runs@),
{
    let mut n: usize = 0;
    let mut i: usize = 0;
    while i < runs.len()
        invariant
            i <= runs.len(),
            n == failures(runs@.take(i as int)),
            n <= i,
        decreases runs.len() - i,
    {
        proof {
            assert(runs@.take(i + 1).drop_last() =~= runs@.take(i as int));
        }
        if runs[i].status != RunStatus::Succeeded {
            n = n + 1;
        }
        i = i + 1;
    }
    assert(runs@.take(runs.len() as int) =~= runs@);
    n
}

/// What a batch did: its runs, in order, and the rules it left to the
/// desktop shell because they use the browser.
pub struct Batch {
    pub runs: Vec<AutomationRun>,
    pub skipped_rules: Vec<String>,
}

/// A run of a batch: finished, and made with an API key (browser rules are
/// never run here).
pub open spec fn batch_run(run: AutomationRun) -> bool {
    settled(run) && run.backend == BackendKind::ApiKey
}

/// Runs the tag-match rules over the memos they have not processed yet,
/// at most `limit` runs in all. Browser rules are skipped (named in the
/// batch) instead of failing, so that polling can run unattended.
pub fn poll<S: AutomationStore>(
    automation: &Automation<'_, S>,
    workspace_id: &str,
    limit: usize,
    backend: &dyn InferenceBackend,
) -> (r: Result<Batch, AutomationError>)
    ensures
        r matches Ok(batch) ==> {
            &&& batch.runs.len() <= limit
            &&& forall|i: int| 0 <= i < batch.runs.len() ==> batch_run(#[trigger] batch.runs@[i])
        },
{
    let rules = automation.meta_match_rules(workspace_id)?;
    let mut runs: Vec<AutomationRun> = Vec::new();
    let mut skipped_rules: Vec<String> = Vec::new();
    let mut k: usize = 0;
    while k < rules.len()
        invariant
            k <= rules.len(),
            runs.len() <= limit,
            forall|i: int| 0 <= i < runs.len() ==> batch_run(#[trigger] runs@[i]),
        decreases rules.len() - k,
    {
        if runs.len() >= limit {
            break;
        }
        let rule = &rules[k];
        if reject_browser_backend(rule).is_err() {
            skipped_rules.push(rule.name.clone());
        } else {
            let memos = automation.pending(workspace_id, rule)?;
            let mut m: usize = 0;
            while m < memos.len()
                invariant
                    m <= memos.len(),
                    rule.backend == BackendKind::ApiKey,
                    runs.len() <= limit,
                    forall|i: int| 0 <= i < runs.len() ==> batch_run(#[trigger] runs@[i]),
                decreases memos.len() - m,
            {
                if runs.len() >= limit {
                    break;
                }
                let run = automation.run_rule(rule, &memos[m], backend)?;
                runs.push(run);
                m = m + 1;
            }
        }
        k = k + 1;
    }
    Ok(Batch { runs, skipped_rules })
}

/// Runs the schedule rules whose time has come over the memos they have not
/// processed yet, so that a schedule never processes one memo twice.
/// Browser rules are skipped (named in the batch).
pub fn schedule_due<S: AutomationStore>(
    automation: &Automation<'_, S>,
    workspace_id: &str,
    backend: &dyn InferenceBackend,
) -> (r: Result<Batch, AutomationError>)
    ensures
        r matches Ok(batch) ==> forall|i: int| 0 <= i < batch.runs.len() ==> batch_run(#[trigger] batch.runs@[i]),
{
    let rules = automation.due_schedules(workspace_id)?;
    let mut runs: Vec<AutomationRun> = Vec::new();
    let mut skipped_rules: Vec<String> = Vec::new();
    let mut k: usize = 0;
    while k < rules.len()
        invariant
            k <= rules.len(),
            forall|i: int| 0 <= i < runs.len() ==> batch_run(#[trigger] runs@[i]),
        decreases rules.len() - k,
    {
        let rule = &rules[k];
        if reject_browser_backend(rule).is_err() {
            skipped_rules.push(rule.name.clone());
        } else {
            let memos = automation.pending(workspace_id, rule)?;
            let mut m: usize = 0;
            while m < memos.len()
                invariant
                    m <= memos.len(),
                    rule.backend == BackendKind::ApiKey,
                    forall|i: int| 0 <= i < runs.len() ==> batch_run(#[trigger] runs@[i]),
                decreases memos.len() - m,
            {
                let run = automation.run_rule(rule, &memos[m], backend)?;
                runs.push(run);
                m = m + 1;
            }
        }
        k = k + 1;
    }
    Ok(Batch { runs, skipped_rules })
}

} // verus!
