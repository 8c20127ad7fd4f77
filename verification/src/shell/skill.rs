//! Where agent skill files may be written.
//!
//! The relative paths come from the web view. A part that is empty, `.`,
//! `..`, or holds a separator or `:` (a Windows drive or data stream) would
//! let a write escape the home directory, so such parts are refused here,
//! where no caller can go around the check.

use vstd::prelude::*;

use crate::shell::sidecar::{join_path, push_part};
use crate::text::{chars_of, copy_str, starts_with, str_eq};

verus! {

/// The file that records the installed skill's version.
pub const VERSION_FILE: &'static str = "version.json";

/// One part of a relative path names a single directory or file.
pub open spec fn valid_part(part: Seq<char>) -> bool {
    &&& part.len() > 0
    &&& part != "."@
    &&& part != ".."@
    &&& !part.contains('/')
    &&& !part.contains('\\')
    &&& !part.contains(':')
}

/// The parts joined under `base`, one after the other.
pub open spec fn joined(base: Seq<char>, parts: Seq<Seq<char>>) -> Seq<char>
    decreases parts.len(),
{
    if parts.len() == 0 {
        base
    } else {
        join_path(joined(base, parts.drop_last()), parts.last())
    }
}

/// Index of the first invalid part, or the number of parts.
pub open spec fn first_invalid(parts: Seq<Seq<char>>, i: int) -> int
    decreases parts.len() - i,
{
    if i < 0 || i >= parts.len() {
        parts.len() as int
    } else if !valid_part(parts[i]) {
        i
    } else {
        first_invalid(parts, i + 1)
    }
}

pub open spec fn part_views(parts: Seq<String>) -> Seq<Seq<char>> {
    parts.map_values(|p: String| p@)
}

/// The path the segments name under `base`: none when there are no
/// segments or one of them is not a single name.
pub open spec fn resolved(base: Seq<char>, segments: Seq<String>) -> Option<Seq<char>> {
    let parts = part_views(segments);
    if parts.len() == 0 || first_invalid(parts, 0) < parts.len() {
        None
    } else {
        Some(joined(base, parts))
    }
}

/// Why the segments name no path: there are none, or the first one that
/// is not a single name.
pub open spec fn resolve_error(segments: Seq<String>) -> Seq<char> {
    let parts = part_views(segments);
    if parts.len() == 0 {
        "配置先が指定されていません"@
    } else {
        "配置先として扱えない名前です: "@ + parts[first_invalid(parts, 0)]
    }
}

proof fn lemma_first_invalid_all_valid(parts: Seq<Seq<char>>, i: int)
    requires
        0 <= i,
        first_invalid(parts, i) >= parts.len(),
    ensures
        forall|k: int| i <= k < parts.len() ==> valid_part(#[trigger] parts[k]),
    decreases parts.len() - i,
{
    if i < parts.len() {
        lemma_first_invalid_all_valid(parts, i + 1);
    }
}

proof fn lemma_joined_extends_base(base: Seq<char>, parts: Seq<Seq<char>>)
    ensures
        starts_with(joined(base, parts), base),
    decreases parts.len(),
{
    if parts.len() > 0 {
        let before = joined(base, parts.drop_last());
        lemma_joined_extends_base(base, parts.drop_last());
        let after = join_path(before, parts.last());
        assert(after.subrange(0, before.len() as int) =~= before);
        assert(after.subrange(0, base.len() as int) =~= before.subrange(0, base.len() as int));
    } else {
        assert(base.subrange(0, base.len() as int) =~= base);
    }
}

/// A path that the segments resolve to lies under the base: it starts with
/// the base, and every part joined to it is a single name (never empty,
/// `.`, `..`, nor holding a separator or `:`), so no part can climb out of
/// the base or name another drive.
pub proof fn lemma_resolved_stays_under_base(base: Seq<char>, segments: Seq<String>)
    requires
        resolved(base, segments) is Some,
    ensures
        starts_with(resolved(base, segments)->0, base),
        resolved(base, segments)->0 == joined(base, part_views(segments)),
        forall|k: int| 0 <= k < segments.len() ==> valid_part(#[trigger] part_views(segments)[k]),
{
    lemma_joined_extends_base(base, part_views(segments));
    lemma_first_invalid_all_valid(part_views(segments), 0);
}

fn has_char(v: &Vec<char>, c: char) -> (r: bool)
    ensures
        r == v@.contains(c),
{
    let mut i: usize = 0;
    while i < v.len()
        invariant
            i <= v.len(),
            forall|k: int| 0 <= k < i ==> v@[k] != c,
        decreases v.len() - i,
    {
        if v[i] == c {
            return true;
        }
        i = i + 1;
    }
    false
}

/// Whether a part is a single name.
pub fn is_valid_part(part: &str) -> (r: bool)
    ensures
        r == valid_part(part@),
{
    let v = chars_of(part);
    v.len() > 0 && !str_eq(part, ".") && !str_eq(part, "..") && !has_char(&v, '/') && !has_char(&v, '\\')
        && !has_char(&v, ':')
}

/// `base` with the parts joined under it, or why not: no parts at all, or
/// the first part that is not a single name.
pub fn resolve(base: &str, segments: &Vec<String>) -> (r: Result<String, String>)
    ensures
        match r {
            Ok(p) => resolved(base@, segments@) == Some(p@),
            Err(e) => resolved(base@, segments@) is None && e@ == resolve_error(segments@),
        },
{
    if segments.len() == 0 {
        return Err(copy_str("配置先が指定されていません"));
    }
    let ghost parts = part_views(segments@);
    let mut path = copy_str(base);
    let mut i: usize = 0;
    while i < segments.len()
        invariant
            i <= segments.len(),
            parts == part_views(segments@),
            first_invalid(parts, 0) == first_invalid(parts, i as int),
            path@ == joined(base@, parts.take(i as int)),
        decreases segments.len() - i,
    {
        let segment = &segments[i];
        assert(parts[i as int] == segment@);
        if !is_valid_part(segment.as_str()) {
            assert(first_invalid(parts, i as int) == i);
            let mut m = copy_str("配置先として扱えない名前です: ");
            m.append(segment.as_str());
            return Err(m);
        }
        proof {
            assert(parts.take(i + 1).drop_last() =~= parts.take(i as int));
        }
        push_part(&mut path, segment.as_str());
        i = i + 1;
    }
    assert(parts.take(i as int) =~= parts);
    Ok(path)
}

/// One place to look at: where an agent keeps skills, and a file or
/// directory whose presence means the agent is installed. Both paths are
/// relative to the home directory.
pub struct SkillLocation {
    pub id: String,
    pub directory: Vec<String>,
    pub marker: Vec<String>,
}

/// What was found at one location.
#[derive(Debug, Clone, PartialEq, Eq)]
pub struct SkillScan {
    pub id: String,
    pub agent_present: bool,
    pub installed_version: Option<String>,
    pub path: String,
}

/// One file to write.
pub struct SkillFile {
    pub name: String,
    pub content: String,
}

/// One agent's skill to write: its directory, relative to the home
/// directory, and the files in it.
pub struct SkillInstall {
    pub id: String,
    pub directory: Vec<String>,
    pub files: Vec<SkillFile>,
}

/// The string under `version` when `text` is JSON and that field is a
/// string.
pub uninterp spec fn json_version_field(text: Seq<char>) -> Option<Seq<char>>;

/// `serde_json::from_str::<serde_json::Value>`, then `get("version")` and
/// `as_str()`: the string under `version`, or `None` when the text is not
/// JSON or the field is missing or not a string. What it gives depends on
/// the text alone.
#[verifier::external_body]
fn version_field(text: &str) -> (r: Option<String>)
    ensures
        match r {
            Some(v) => json_version_field(text@) == Some(v@),
            None => json_version_field(text@) is None,
        },
{
    let value: serde_json::Value = serde_json::from_str(text).ok()?;
    value.get("version")?.as_str().map(str::to_owned)
}

pub open spec fn opt_string_view(s: Option<String>) -> Option<Seq<char>> {
    match s {
        Some(x) => Some(x@),
        None => None,
    }
}

/// The installed version as recorded in a skill directory's `version.json`.
pub open spec fn spec_installed_version(version_text: Option<String>) -> Option<Seq<char>> {
    match version_text {
        Some(t) => json_version_field(t@),
        None => None,
    }
}

/// Where a skill directory records its version.
pub fn version_path(directory: &str) -> (r: String)
    ensures
        r@ == join_path(directory@, VERSION_FILE@),
{
    let mut r = copy_str(directory);
    push_part(&mut r, VERSION_FILE);
    r
}

/// The version recorded in `version.json`, given that file's text (`None`
/// when there is no such file). A file that is not JSON, or whose
/// `version` is not a string, gives no version either: callers treat that
/// as not installed and write the skill again.
pub fn installed_version(version_text: &Option<String>) -> (r: Option<String>)
    ensures
        opt_string_view(r) == spec_installed_version(*version_text),
{
    match version_text {
        Some(t) => version_field(t.as_str()),
        None => None,
    }
}

/// Where a location's skill directory and agent marker are, under `home`;
/// the directory's error first when both are refused.
pub fn scan_targets(home: &str, location: &SkillLocation) -> (r: Result<(String, String), String>)
    ensures
        match r {
            Ok((d, m)) => resolved(home@, location.directory@) == Some(d@) && resolved(home@, location.marker@)
                == Some(m@),
            Err(e) => if resolved(home@, location.directory@) is None {
                e@ == resolve_error(location.directory@)
            } else {
                resolved(home@, location.marker@) is None && e@ == resolve_error(location.marker@)
            },
        },
{
    let directory = resolve(home, &location.directory)?;
    let marker = resolve(home, &location.marker)?;
    Ok((directory, marker))
}

/// The report for one location, from what was found on disk: whether the
/// marker exists, and the text of `version.json` if there is one.
pub fn scan_report(id: String, directory: String, agent_present: bool, version_text: &Option<String>) -> (r:
    SkillScan)
    ensures
        r.id == id,
        r.path == directory,
        r.agent_present == agent_present,
        opt_string_view(r.installed_version) == spec_installed_version(*version_text),
{
    SkillScan { id, agent_present, installed_version: installed_version(version_text), path: directory }
}

/// Where an install writes: its directory under `home`, and for each file,
/// in order, its path in that directory or why the name is refused. The
/// caller creates the directory, then writes the files one by one and stops
/// at the first refused name.
pub fn install_targets(home: &str, install: &SkillInstall) -> (r: Result<(String, Vec<Result<String, String>>), String>)
    ensures
        match r {
            Ok((d, files)) => {
                &&& resolved(home@, install.directory@) == Some(d@)
                &&& files.len() == install.files.len()
                &&& forall|i: int| 0 <= i < files.len() ==> match #[trigger] files[i] {
                    Ok(p) => resolved(d@, seq![install.files[i].name]) == Some(p@),
                    Err(e) => resolved(d@, seq![install.files[i].name]) is None && e@ == resolve_error(
                        seq![install.files[i].name],
                    ),
                }
            },
            Err(e) => resolved(home@, install.directory@) is None && e@ == resolve_error(install.directory@),
        },
{
    let directory = resolve(home, &install.directory)?;
    let mut targets: Vec<Result<String, String>> = Vec::new();
    let mut i: usize = 0;
    while i < install.files.len()
        invariant
            i <= install.files.len(),
            targets.len() == i,
            forall|k: int| 0 <= k < i ==> match #[trigger] targets[k] {
                Ok(p) => resolved(directory@, seq![install.files[k].name]) == Some(p@),
                Err(e) => resolved(directory@, seq![install.files[k].name]) is None && e@ == resolve_error(
                    seq![install.files[k].name],
                ),
            },
        decreases install.files.len() - i,
    {
        let mut name: Vec<String> = Vec::new();
        name.push(install.files[i].name.clone());
        assert(name@ =~= seq![install.files[i as int].name]);
        targets.push(resolve(directory.as_str(), &name));
        i = i + 1;
    }
    Ok((directory, targets))
}

} // verus!
