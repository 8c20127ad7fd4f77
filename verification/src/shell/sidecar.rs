//! Finding and reading the `agentos` sidecar.
//!
//! Paths are texts with `/` between their parts.

use vstd::prelude::*;

use crate::text::{chars_of, copy_str, i64_to_text, is_blank, signed_decimal, string_from_range, trim, trim_bounds};

verus! {

/// `base` and `part` joined by one `/`.
pub open spec fn join_path(base: Seq<char>, part: Seq<char>) -> Seq<char> {
    if base.len() == 0 {
        part
    } else if base.last() == '/' {
        base + part
    } else {
        base + "/"@ + part
    }
}

/// Appends one part to a path.
pub fn push_part(path: &mut String, part: &str)
    ensures
        final(path)@ == join_path(old(path)@, part@),
{
    let v = chars_of(path.as_str());
    if v.len() == 0 {
        path.append(part);
    } else if v[v.len() - 1] == '/' {
        path.append(part);
    } else {
        path.append("/");
        path.append(part);
    }
}

/// Which exits of `agentos` give a result.
#[derive(Debug, Clone, Copy, PartialEq, Eq, Structural)]
pub enum ExitCodePolicy {
    /// Only a successful exit.
    SuccessOnly,
    /// Also exit code 2, when a machine-readable result is on stdout.
    ReportedOutcome,
}

pub open spec fn build_path(root: Seq<char>, profile: Seq<char>, exe: Seq<char>) -> Seq<char> {
    join_path(join_path(join_path(root, "target"@), profile), exe)
}

/// Where to look for `agentos`, in order. In a debug build a known
/// workspace's own debug build comes first and alone (no stale bundled copy
/// as fallback); otherwise the bundled copy, then the workspace's release build.
pub open spec fn spec_candidates(
    workspace_root: Option<Seq<char>>,
    resource_dir: Option<Seq<char>>,
    debug_build: bool,
    exe: Seq<char>,
) -> Seq<Seq<char>> {
    if debug_build {
        match workspace_root {
            Some(root) => seq![build_path(root, "debug"@, exe)],
            None => match resource_dir {
                Some(dir) => seq![join_path(dir, exe)],
                None => Seq::empty(),
            },
        }
    } else {
        let bundled: Seq<Seq<char>> = match resource_dir {
            Some(dir) => seq![join_path(dir, exe)],
            None => Seq::empty(),
        };
        match workspace_root {
            Some(root) => if bundled.contains(build_path(root, "release"@, exe)) {
                bundled
            } else {
                bundled.push(build_path(root, "release"@, exe))
            },
            None => bundled,
        }
    }
}

pub open spec fn opt_view(s: Option<&str>) -> Option<Seq<char>> {
    match s {
        Some(x) => Some(x@),
        None => None,
    }
}

fn path_of(root: &str, profile: &str, exe: &str) -> (p: String)
    ensures
        p@ == build_path(root@, profile@, exe@),
{
    let mut p = copy_str(root);
    push_part(&mut p, "target");
    push_part(&mut p, profile);
    push_part(&mut p, exe);
    p
}

pub fn agentos_candidates(
    workspace_root: Option<&str>,
    resource_dir: Option<&str>,
    debug_build: bool,
    exe: &str,
) -> (r: Vec<String>)
    ensures
        r@.map_values(|p: String| p@) == spec_candidates(
            opt_view(workspace_root),
            opt_view(resource_dir),
            debug_build,
            exe@,
        ),
{
    let mut candidates: Vec<String> = Vec::new();
    if debug_build {
        match workspace_root {
            Some(root) => {
                candidates.push(path_of(root, "debug", exe));
            },
            None => {
                if let Some(dir) = resource_dir {
                    let mut p = copy_str(dir);
                    push_part(&mut p, exe);
                    candidates.push(p);
                }
            },
        }
        proof {
            assert(candidates@.map_values(|p: String| p@) =~= spec_candidates(
                opt_view(workspace_root),
                opt_view(resource_dir),
                debug_build,
                exe@,
            ));
        }
    } else {
        if let Some(dir) = resource_dir {
            let mut p = copy_str(dir);
            push_part(&mut p, exe);
            candidates.push(p);
        }
        let ghost bundled = candidates@.map_values(|p: String| p@);
        assert(bundled =~= match opt_view(resource_dir) {
            Some(dir) => seq![join_path(dir, exe@)],
            None => Seq::<Seq<char>>::empty(),
        });
        if let Some(root) = workspace_root {
            let candidate = path_of(root, "release", exe);
            let present = candidates.len() == 1 && crate::text::str_eq(candidates[0].as_str(), candidate.as_str());
            proof {
                if bundled.contains(candidate@) {
                    let i = choose|i: int| 0 <= i < bundled.len() && bundled[i] == candidate@;
                    assert(i == 0);
                }
                if present {
                    assert(bundled[0] == candidate@);
                }
            }
            if !present {
                candidates.push(candidate);
                assert(candidates@.map_values(|p: String| p@) =~= bundled.push(candidate@));
            }
        }
    }
    candidates
}

/// The index of the first candidate, from `i` on, that is present, or the
/// number of candidates when none is.
pub open spec fn first_present(candidates: Seq<(String, bool)>, i: int) -> int
    decreases candidates.len() - i,
{
    if i < 0 || i >= candidates.len() {
        candidates.len() as int
    } else if candidates[i].1 {
        i
    } else {
        first_present(candidates, i + 1)
    }
}

/// The message when no candidate `agentos` exists.
pub open spec fn sidecar_missing(exe: Seq<char>) -> Seq<char> {
    exe + " が見つかりません。`cargo build -p agentos` を実行してください"@
}

/// The `agentos` to run: the first candidate, in order, found to be a file.
pub fn pick_sidecar(candidates: &Vec<(String, bool)>, exe: &str) -> (r: Result<String, String>)
    ensures
        match r {
            Ok(p) => first_present(candidates@, 0) < candidates.len() && p == candidates@[first_present(
                candidates@,
                0,
            )].0,
            Err(m) => first_present(candidates@, 0) == candidates.len() && m@ == sidecar_missing(exe@),
        },
{
    let mut i: usize = 0;
    while i < candidates.len()
        invariant
            i <= candidates.len(),
            first_present(candidates@, 0) == first_present(candidates@, i as int),
        decreases candidates.len() - i,
    {
        if candidates[i].1 {
            return Ok(candidates[i].0.clone());
        }
        i = i + 1;
    }
    let mut m = copy_str(exe);
    m.append(" が見つかりません。`cargo build -p agentos` を実行してください");
    Err(m)
}

/// `text` is one JSON value that `serde_json` reads: it refuses, besides
/// text that is not JSON, values nested deeper than its recursion limit.
pub uninterp spec fn valid_json(text: Seq<char>) -> bool;

/// `serde_json::from_str::<serde_json::Value>` succeeds on `text`; whether
/// it does depends on the text alone.
#[verifier::external_body]
fn is_json(text: &str) -> (r: bool)
    ensures
        r == valid_json(text@),
{
    serde_json::from_str::<serde_json::Value>(text).is_ok()
}

/// The message when `agentos` failed without saying why on stderr.
pub open spec fn silent_failure(code: Option<i32>) -> Seq<char> {
    match code {
        Some(c) => "agentos の実行に失敗しました (終了コード: "@ + signed_decimal(c as int) + ")"@,
        None => "agentos の実行に失敗しました (シグナルにより終了)"@,
    }
}

/// Reads how `agentos` ended. Exit 0 gives stdout. Exit 2 also gives stdout
/// for a reported-outcome command when stdout holds JSON (a run that did not
/// succeed still reports it); a command-line error exits 2 too, but prints
/// no JSON, and must not pass. Anything else is an error: trimmed stderr, or
/// a message naming the exit when stderr is blank.
pub fn resolve_output(code: Option<i32>, stdout: String, stderr: &str, policy: ExitCodePolicy) -> (r:
    Result<String, String>)
    ensures
        code == Some(0i32) ==> r == Ok::<String, String>(stdout),
        code == Some(2i32) && policy == ExitCodePolicy::ReportedOutcome && !is_blank(stdout@) && valid_json(
            stdout@,
        ) ==> r == Ok::<String, String>(stdout),
        !(code == Some(0i32)) && !(code == Some(2i32) && policy == ExitCodePolicy::ReportedOutcome && !is_blank(
            stdout@,
        ) && valid_json(stdout@)) ==> (r matches Err(m) && m@ == if trim(stderr@).len() == 0 {
            silent_failure(code)
        } else {
            trim(stderr@)
        }),
{
    if code == Some(0i32) {
        return Ok(stdout);
    }
    if code == Some(2i32) && policy == ExitCodePolicy::ReportedOutcome && !crate::text::is_blank_str(
        stdout.as_str(),
    ) && is_json(stdout.as_str()) {
        return Ok(stdout);
    }
    let v = chars_of(stderr);
    let (a, b) = trim_bounds(&v, 0, v.len());
    assert(v@.subrange(0, v.len() as int) =~= stderr@);
    if a == b {
        match code {
            Some(c) => {
                let mut m = copy_str("agentos の実行に失敗しました (終了コード: ");
                let n = i64_to_text(c as i64);
                m.append(n.as_str());
                m.append(")");
                Err(m)
            },
            None => Err(copy_str("agentos の実行に失敗しました (シグナルにより終了)")),
        }
    } else {
        Err(string_from_range(&v, a, b))
    }
}

/// The error when `agentos` printed nothing where JSON was expected.
pub fn require_output(stdout: &str) -> (r: Result<(), String>)
    ensures
        r is Ok <==> !is_blank(stdout@),
{
    if crate::text::is_blank_str(stdout) {
        Err(copy_str("agentos が JSON を出力しませんでした"))
    } else {
        Ok(())
    }
}

} // verus!
