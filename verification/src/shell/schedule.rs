//! Registering `agentos tick` with the Windows task scheduler.
//!
//! `agentos` does not stay resident, so rules triggered by metadata or by a
//! schedule only run when something starts `agentos tick` now and then.
//! That job is handed to the operating system's scheduler, through
//! `schtasks`, and only when the user turns it on.

use vstd::prelude::*;

use crate::text::{contains_seq, contains_str, copy_str, decimal, trim, trim_str, u64_to_decimal, string_from_chars};

verus! {

/// The name of the scheduled task, as the user finds it in the scheduler.
pub const TASK_NAME: &'static str = "lineage-automation";

/// Minutes between two starts of `agentos tick`: short enough that a
/// metadata match does not feel slow, long enough not to open the
/// database for nothing.
pub const INTERVAL_MINUTES: u32 = 15;

/// What `schtasks /Delete` prints when there was no such task.
pub const TASK_NOT_FOUND: &'static str = "ERROR: The system cannot find the file specified";

pub open spec fn arg_views(args: Seq<String>) -> Seq<Seq<char>> {
    args.map_values(|a: String| a@)
}

/// Arguments that ask whether the task exists.
pub open spec fn spec_query_args() -> Seq<Seq<char>> {
    seq!["/Query"@, "/TN"@, TASK_NAME@]
}

/// The command line the task runs: the quoted `agentos` path and `tick`.
pub open spec fn task_command(agentos: Seq<char>) -> Seq<char> {
    "\""@ + agentos + "\" tick"@
}

/// Arguments that create the task, replacing one that already exists (so
/// that a changed interval or `agentos` location takes effect).
pub open spec fn spec_create_args(agentos: Seq<char>) -> Seq<Seq<char>> {
    seq![
        "/Create"@,
        "/TN"@,
        TASK_NAME@,
        "/TR"@,
        task_command(agentos),
        "/SC"@,
        "MINUTE"@,
        "/MO"@,
        decimal(INTERVAL_MINUTES as nat),
        "/F"@,
    ]
}

/// Arguments that delete the task.
pub open spec fn spec_delete_args() -> Seq<Seq<char>> {
    seq!["/Delete"@, "/TN"@, TASK_NAME@, "/F"@]
}

/// `schtasks` arguments that ask whether the task is registered (a missing
/// task makes the query exit with a failure).
pub fn query_args() -> (r: Vec<String>)
    ensures
        arg_views(r@) == spec_query_args(),
{
    let mut r: Vec<String> = Vec::new();
    r.push(copy_str("/Query"));
    r.push(copy_str("/TN"));
    r.push(copy_str(TASK_NAME));
    assert(arg_views(r@) =~= spec_query_args());
    r
}

/// `schtasks` arguments that register `agentos tick` every
/// [`INTERVAL_MINUTES`] minutes.
pub fn create_args(agentos: &str) -> (r: Vec<String>)
    ensures
        arg_views(r@) == spec_create_args(agentos@),
{
    let mut command = copy_str("\"");
    command.append(agentos);
    command.append("\" tick");
    let minutes = string_from_chars(&u64_to_decimal(INTERVAL_MINUTES as u64));
    let mut r: Vec<String> = Vec::new();
    r.push(copy_str("/Create"));
    r.push(copy_str("/TN"));
    r.push(copy_str(TASK_NAME));
    r.push(copy_str("/TR"));
    r.push(command);
    r.push(copy_str("/SC"));
    r.push(copy_str("MINUTE"));
    r.push(copy_str("/MO"));
    r.push(minutes);
    r.push(copy_str("/F"));
    assert(arg_views(r@) =~= spec_create_args(agentos@));
    r
}

/// `schtasks` arguments that remove the task.
pub fn delete_args() -> (r: Vec<String>)
    ensures
        arg_views(r@) == spec_delete_args(),
{
    let mut r: Vec<String> = Vec::new();
    r.push(copy_str("/Delete"));
    r.push(copy_str("/TN"));
    r.push(copy_str(TASK_NAME));
    r.push(copy_str("/F"));
    assert(arg_views(r@) =~= spec_delete_args());
    r
}

/// What `schtasks` printed: its standard output then its error output,
/// trimmed.
pub fn command_output(stdout: &str, stderr: &str) -> (r: String)
    ensures
        r@ == trim(stdout@ + stderr@),
{
    let mut all = copy_str(stdout);
    all.append(stderr);
    trim_str(all.as_str())
}

/// The outcome of registering: success exactly when `schtasks` succeeded,
/// else what it printed.
pub fn register_result(succeeded: bool, output: &str) -> (r: Result<(), String>)
    ensures
        r is Ok <==> succeeded,
        r matches Err(m) ==> m@ == "定期実行を登録できませんでした: "@ + output@,
{
    if succeeded {
        Ok(())
    } else {
        let mut m = copy_str("定期実行を登録できませんでした: ");
        m.append(output);
        Err(m)
    }
}

/// The outcome of removing: removing a task that is not there ends as
/// removing one that is, so `schtasks` saying it found no such task is a
/// success too.
pub fn unregister_result(succeeded: bool, output: &str) -> (r: Result<(), String>)
    ensures
        r is Ok <==> succeeded || contains_seq(output@, TASK_NOT_FOUND@),
        r matches Err(m) ==> m@ == "定期実行を解除できませんでした: "@ + output@,
{
    if succeeded || contains_str(output, TASK_NOT_FOUND) {
        Ok(())
    } else {
        let mut m = copy_str("定期実行を解除できませんでした: ");
        m.append(output);
        Err(m)
    }
}

} // verus!
