//! User settings.
//!
//! They are stored as `(key, value)` strings; which keys exist, their defaults
//! and how a value is read are decided here.

pub mod key;

use vstd::prelude::*;

use crate::text::{chars_of, copy_str, str_eq, string_from_range, trim, trim_bounds};

verus! {

#[derive(Debug, Clone, Copy, PartialEq, Eq, Structural)]
pub struct Settings {
    /// Pull the foreground application's selection in on every summon.
    pub auto_pull_foreground_text: bool,
}

impl Default for Settings {
    fn default() -> (s: Settings)
        ensures
            s == spec_default_settings(),
    {
        Settings { auto_pull_foreground_text: true }
    }
}

/// The defaults: pulling the selection is on.
pub open spec fn spec_default_settings() -> Settings {
    Settings { auto_pull_foreground_text: true }
}

/// `true`/`1` and `false`/`0`, ignoring surrounding white space.
pub open spec fn spec_parse_bool(value: Seq<char>) -> Option<bool> {
    let t = trim(value);
    if t == "true"@ || t == "1"@ {
        Some(true)
    } else if t == "false"@ || t == "0"@ {
        Some(false)
    } else {
        None
    }
}

pub open spec fn spec_format_bool(value: bool) -> Seq<char> {
    if value {
        "true"@
    } else {
        "false"@
    }
}

/// The settings after reading the first `n` stored entries in order: an
/// entry with the known key and a readable value replaces the current value;
/// anything else is ignored.
pub open spec fn settings_after(entries: Seq<(Seq<char>, Seq<char>)>, n: nat) -> Settings
    decreases n,
{
    if n == 0 || n > entries.len() {
        spec_default_settings()
    } else {
        let before = settings_after(entries, (n - 1) as nat);
        let entry = entries[n - 1];
        if entry.0 == key::AUTO_PULL_FOREGROUND_TEXT@ && spec_parse_bool(entry.1) is Some {
            Settings { auto_pull_foreground_text: spec_parse_bool(entry.1)->0 }
        } else {
            before
        }
    }
}

/// The settings that the stored entries describe.
pub open spec fn spec_from_entries(entries: Seq<(Seq<char>, Seq<char>)>) -> Settings {
    settings_after(entries, entries.len())
}

pub open spec fn entries_view(entries: Seq<(String, String)>) -> Seq<(Seq<char>, Seq<char>)> {
    entries.map_values(|e: (String, String)| (e.0@, e.1@))
}

impl Settings {
    /// Builds the settings from stored `(key, value)` pairs. Unknown keys and
    /// unreadable values leave the default in place.
    pub fn from_entries(entries: &[(String, String)]) -> (s: Settings)
        ensures
            s == spec_from_entries(entries_view(entries@)),
    {
        let ghost view = entries_view(entries@);
        let mut settings = Settings::default();
        let mut i: usize = 0;
        while i < entries.len()
            invariant
                i <= entries@.len(),
                view == entries_view(entries@),
                settings == settings_after(view, i as nat),
            decreases entries.len() - i,
        {
            let (key, value) = &entries[i];
            assert(view[i as int] == (key@, value@));
            if str_eq(key.as_str(), key::AUTO_PULL_FOREGROUND_TEXT) {
                match parse_bool(value.as_str()) {
                    Some(parsed) => {
                        settings.auto_pull_foreground_text = parsed;
                    },
                    None => {},
                }
            }
            i = i + 1;
        }
        settings
    }

    /// The `(key, value)` pairs to store.
    pub fn to_entries(self) -> (entries: Vec<(&'static str, String)>)
        ensures
            entries@.len() == 1,
            entries@[0].0@ == key::AUTO_PULL_FOREGROUND_TEXT@,
            entries@[0].1@ == spec_format_bool(self.auto_pull_foreground_text),
    {
        let mut entries: Vec<(&'static str, String)> = Vec::new();
        entries.push((key::AUTO_PULL_FOREGROUND_TEXT, format_bool(self.auto_pull_foreground_text)));
        entries
    }
}

/// Stored settings read back unchanged.
pub proof fn lemma_settings_round_trip(settings: Settings)
    ensures
        spec_from_entries(
            seq![(key::AUTO_PULL_FOREGROUND_TEXT@, spec_format_bool(settings.auto_pull_foreground_text))],
        ) == settings,
{
    reveal_strlit("true");
    reveal_strlit("false");
    reveal_strlit("1");
    reveal_strlit("0");
    let v = spec_format_bool(settings.auto_pull_foreground_text);
    crate::text::lemma_trim_start_from(v, 0);
    crate::text::lemma_trim_end_to(v, v.len() as int);
    assert(v.skip(0) =~= v);
    assert(v.take(v.len() as int) =~= v);
    assert(trim(v) == v);
    assert("true"@.len() != "false"@.len());
    assert("true"@.len() != "1"@.len());
    assert("true"@.len() != "0"@.len());
    assert("false"@.len() != "1"@.len());
    assert("false"@.len() != "0"@.len());
    let entries = seq![(key::AUTO_PULL_FOREGROUND_TEXT@, v)];
    assert(settings_after(entries, 0) == spec_default_settings());
}

fn parse_bool(value: &str) -> (r: Option<bool>)
    ensures
        r == spec_parse_bool(value@),
{
    let v = chars_of(value);
    let (a, b) = trim_bounds(&v, 0, v.len());
    assert(v@.subrange(0, v@.len() as int) =~= value@);
    let trimmed = string_from_range(&v, a, b);
    if str_eq(trimmed.as_str(), "true") || str_eq(trimmed.as_str(), "1") {
        Some(true)
    } else if str_eq(trimmed.as_str(), "false") || str_eq(trimmed.as_str(), "0") {
        Some(false)
    } else {
        None
    }
}

fn format_bool(value: bool) -> (s: String)
    ensures
        s@ == spec_format_bool(value),
{
    if value {
        copy_str("true")
    } else {
        copy_str("false")
    }
}

} // verus!
