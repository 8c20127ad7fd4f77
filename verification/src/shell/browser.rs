//! The browser backend's side of its exchange with an AI web page.
//!
//! The page runs in a separate web view that gets no IPC at all: commands of
//! the application would otherwise be callable from a third party's script.
//! The only channel back is the window title, which any page may already
//! set. The page reports with three markers:
//!
//! - `lineage-ready:<count>`: the answer has been read, in `count` chunks;
//! - `lineage-chunk:<index>:<base64>`: the chunk asked for with `emit(index)`;
//! - `lineage-error:<base64>`: the page failed (no input field, ...).
//!
//! Titles are limited in length, so the answer comes base64-encoded and cut
//! into chunks. What is decided on each title is here; opening the window,
//! reading its title and waiting between reads is the shell's.

use base64::Engine;
use vstd::prelude::*;

use crate::text::{
    after_prefix, copy_str, decimal, is_ascii_digit, lemma_after_prefix_of_concat,
    lemma_decimal_reads_back, parse_usize, starts_with, strip_prefix_str, string_from_chars, u64_to_decimal,
    unsigned_text_value,
};

verus! {

/// The label of the web view the AI page is opened in; it is reused so that
/// the login cookie stays.
pub const WINDOW_LABEL: &'static str = "ai-browser";

/// Milliseconds between two reads of the title.
pub const POLL_INTERVAL_MS: u64 = 120;

/// Milliseconds a chunk may take to appear once asked for.
pub const CHUNK_TIMEOUT_MS: u64 = 10000;

/// Milliseconds of slack added to the page's own time limits.
pub const WAIT_SLACK_MS: u64 = 10000;

pub const READY: &'static str = "lineage-ready:";
pub const CHUNK: &'static str = "lineage-chunk:";
pub const ERROR: &'static str = "lineage-error:";

/// Which page to open and where on it to act. The defaults live in the
/// settings screen: sites change their markup, so the selectors are passed
/// in, not built in.
pub struct BrowserProfile {
    /// The URL to open.
    pub url: String,
    /// The input field the prompt is written into.
    pub composer: String,
    /// The send button; without one, Enter is sent in the input field.
    pub send: String,
    /// One answer element; the last one is read as the answer.
    pub answer: String,
    /// The answer counts as finished once it has not changed for this long.
    pub quiet_ms: u64,
    /// How long to wait for the input field (the first time, for a login).
    pub login_timeout_ms: u64,
    /// How long to wait for the answer.
    pub answer_timeout_ms: u64,
}

/// What a title says while the answer is awaited.
#[derive(Debug, Clone, PartialEq, Eq)]
pub enum ReadySignal {
    /// The answer is ready, in this many chunks.
    Ready(usize),
    /// The exchange failed, for this reason.
    Failed(String),
    /// Nothing yet: read the title again.
    Pending,
}

/// The bytes standard base64 (with padding) decodes `text` to, if it is
/// such base64.
pub uninterp spec fn base64_decoded(text: Seq<char>) -> Option<Seq<u8>>;

/// The text `bytes` encode in UTF-8, if they are UTF-8.
pub uninterp spec fn utf8_decoded(bytes: Seq<u8>) -> Option<Seq<char>>;

/// A lower-case hexadecimal digit of a value below 16.
pub open spec fn lower_hex_digit(d: int) -> char {
    if d < 10 {
        (('0' as int) + d) as char
    } else {
        (('a' as int) + d - 10) as char
    }
}

/// How `serde_json` writes one character inside a string: a quote and a
/// backslash escaped, the five short escapes for backspace, tab, line feed,
/// form feed and carriage return, `\u00XX` (lower-case hex) for the other
/// control characters below U+0020, and every other character as it is.
pub open spec fn json_escaped_char(c: char) -> Seq<char> {
    if c == '"' {
        seq!['\\', '"']
    } else if c == '\\' {
        seq!['\\', '\\']
    } else if c == '\u{8}' {
        seq!['\\', 'b']
    } else if c == '\t' {
        seq!['\\', 't']
    } else if c == '\n' {
        seq!['\\', 'n']
    } else if c == '\u{c}' {
        seq!['\\', 'f']
    } else if c == '\r' {
        seq!['\\', 'r']
    } else if (c as int) < 0x20 {
        seq!['\\', 'u', '0', '0', lower_hex_digit((c as int) / 16), lower_hex_digit((c as int) % 16)]
    } else {
        seq![c]
    }
}

/// The characters of `text`, each written as in a JSON string.
pub open spec fn json_escaped(text: Seq<char>) -> Seq<char>
    decreases text.len(),
{
    if text.len() == 0 {
        Seq::empty()
    } else {
        json_escaped(text.drop_last()) + json_escaped_char(text.last())
    }
}

/// `text` written as a JSON string literal, quotes and escapes included.
pub open spec fn json_string_literal(text: Seq<char>) -> Seq<char> {
    seq!['"'] + json_escaped(text) + seq!['"']
}

/// `base64::engine::general_purpose::STANDARD.decode`: the decoded bytes,
/// or `None` when the text is not standard padded base64. The result
/// depends on the text alone.
#[verifier::external_body]
fn base64_decode(text: &str) -> (r: Option<Vec<u8>>)
    ensures
        match r {
            Some(b) => base64_decoded(text@) == Some(b@),
            None => base64_decoded(text@) is None,
        },
{
    base64::engine::general_purpose::STANDARD.decode(text).ok()
}

/// `String::from_utf8`: the text, or `None` when the bytes are not UTF-8.
#[verifier::external_body]
fn utf8_text(bytes: Vec<u8>) -> (r: Option<String>)
    ensures
        match r {
            Some(t) => utf8_decoded(bytes@) == Some(t@),
            None => utf8_decoded(bytes@) is None,
        },
{
    String::from_utf8(bytes).ok()
}

/// `serde_json::Value::String(text).to_string()`: the text as a JSON
/// string literal, escaped by `serde_json`'s table as
/// [`json_escaped_char`] states.
#[verifier::external_body]
fn json_quoted(text: &str) -> (r: String)
    ensures
        r@ == json_string_literal(text@),
{
    serde_json::Value::String(text.to_owned()).to_string()
}

/// The text a page's base64 stands for: decoded, then read as UTF-8.
pub open spec fn decoded_text(encoded: Seq<char>) -> Option<Seq<char>> {
    match base64_decoded(encoded) {
        Some(bytes) => utf8_decoded(bytes),
        None => None,
    }
}

/// The text that `encoded` stands for, if it decodes.
pub fn decode(encoded: &str) -> (r: Option<String>)
    ensures
        match r {
            Some(t) => decoded_text(encoded@) == Some(t@),
            None => decoded_text(encoded@) is None,
        },
{
    match base64_decode(encoded) {
        Some(bytes) => utf8_text(bytes),
        None => None,
    }
}

/// The reason a page gave, or a general one when it does not decode.
pub open spec fn page_failure(encoded: Seq<char>) -> Seq<char> {
    match decoded_text(encoded) {
        Some(t) => t,
        None => "ページ側で失敗しました"@,
    }
}

/// The chunk count a `ready` title gives, when it is a number that fits.
pub open spec fn ready_count(rest: Seq<char>) -> Option<usize> {
    match unsigned_text_value(rest) {
        Some(n) => if n <= usize::MAX {
            Some(n as usize)
        } else {
            None
        },
        None => None,
    }
}

/// Reads the title while the answer is awaited.
pub fn read_ready(title: &str) -> (r: ReadySignal)
    ensures
        after_prefix(title@, READY@) matches Some(rest) ==> match ready_count(rest) {
            Some(n) => r == ReadySignal::Ready(n),
            None => r matches ReadySignal::Failed(m) && m@ == "応答の件数を解釈できません: "@ + rest,
        },
        after_prefix(title@, READY@) is None ==> (after_prefix(title@, ERROR@) matches Some(rest) ==> (
        r matches ReadySignal::Failed(m) && m@ == page_failure(rest))),
        after_prefix(title@, READY@) is None && after_prefix(title@, ERROR@) is None ==> r == ReadySignal::Pending,
{
    if let Some(rest) = strip_prefix_str(title, READY) {
        return match parse_usize(rest.as_str()) {
            Some(n) => ReadySignal::Ready(n),
            None => {
                let mut m = copy_str("応答の件数を解釈できません: ");
                m.append(rest.as_str());
                ReadySignal::Failed(m)
            },
        };
    }
    if let Some(rest) = strip_prefix_str(title, ERROR) {
        return match decode(rest.as_str()) {
            Some(reason) => ReadySignal::Failed(reason),
            None => ReadySignal::Failed(copy_str("ページ側で失敗しました")),
        };
    }
    ReadySignal::Pending
}

/// The title prefix that carries chunk `index`.
pub open spec fn chunk_prefix(index: nat) -> Seq<char> {
    CHUNK@ + decimal(index) + ":"@
}

/// The script that asks the page for chunk `index`.
pub open spec fn spec_emit_script(index: nat) -> Seq<char> {
    "window.__lineage.emit("@ + decimal(index) + ")"@
}

/// The script that asks the page to put chunk `index` in its title.
pub fn emit_script(index: usize) -> (r: String)
    ensures
        r@ == spec_emit_script(index as nat),
{
    let mut r = copy_str("window.__lineage.emit(");
    r.append(string_from_chars(&u64_to_decimal(index as u64)).as_str());
    r.append(")");
    r
}

/// Chunk `index` if the title carries it, else `None` (read again).
pub fn read_chunk(title: &str, index: usize) -> (r: Option<String>)
    ensures
        match r {
            Some(c) => after_prefix(title@, chunk_prefix(index as nat)) == Some(c@),
            None => after_prefix(title@, chunk_prefix(index as nat)) is None,
        },
{
    let mut prefix = copy_str(CHUNK);
    prefix.append(string_from_chars(&u64_to_decimal(index as u64)).as_str());
    prefix.append(":");
    strip_prefix_str(title, prefix.as_str())
}

/// The answer, from its chunks put back together.
pub fn decode_answer(encoded: &str) -> (r: Result<String, String>)
    ensures
        match r {
            Ok(t) => decoded_text(encoded@) == Some(t@),
            Err(m) => decoded_text(encoded@) is None && m@ == "応答を復号できませんでした"@,
        },
{
    match decode(encoded) {
        Some(t) => Ok(t),
        None => Err(copy_str("応答を復号できませんでした")),
    }
}

/// How long the answer may take in all, in milliseconds: the wait for the
/// input field, the wait for the answer, and some slack.
pub fn wait_budget_ms(profile: &BrowserProfile) -> (r: u128)
    requires
        profile.login_timeout_ms + profile.answer_timeout_ms <= u64::MAX,
    ensures
        r == profile.login_timeout_ms + profile.answer_timeout_ms + WAIT_SLACK_MS,
{
    (profile.login_timeout_ms + profile.answer_timeout_ms) as u128 + WAIT_SLACK_MS as u128
}

/// The instructions handed to the page, as a JSON object with its keys in
/// order (which is how `serde_json` writes an object).
pub open spec fn run_payload(profile: BrowserProfile, prompt: Seq<char>) -> Seq<char> {
    "{\"answer\":"@ + json_string_literal(profile.answer@) + ",\"answerTimeoutMs\":"@ + decimal(
        profile.answer_timeout_ms as nat,
    ) + ",\"composer\":"@ + json_string_literal(profile.composer@) + ",\"loginTimeoutMs\":"@ + decimal(
        profile.login_timeout_ms as nat,
    ) + ",\"prompt\":"@ + json_string_literal(prompt) + ",\"quietMs\":"@ + decimal(profile.quiet_ms as nat)
        + ",\"send\":"@ + json_string_literal(profile.send@) + "}"@
}

/// The script that starts one exchange on the page. Its arguments travel as
/// JSON, since a prompt holds quotes and line breaks.
pub fn send_script(profile: &BrowserProfile, prompt: &str) -> (r: String)
    ensures
        r@ == "window.__lineage.run("@ + run_payload(*profile, prompt@) + ")"@,
{
    let mut p = copy_str("{\"answer\":");
    p.append(json_quoted(profile.answer.as_str()).as_str());
    p.append(",\"answerTimeoutMs\":");
    p.append(string_from_chars(&u64_to_decimal(profile.answer_timeout_ms)).as_str());
    p.append(",\"composer\":");
    p.append(json_quoted(profile.composer.as_str()).as_str());
    p.append(",\"loginTimeoutMs\":");
    p.append(string_from_chars(&u64_to_decimal(profile.login_timeout_ms)).as_str());
    p.append(",\"prompt\":");
    p.append(json_quoted(prompt).as_str());
    p.append(",\"quietMs\":");
    p.append(string_from_chars(&u64_to_decimal(profile.quiet_ms)).as_str());
    p.append(",\"send\":");
    p.append(json_quoted(profile.send.as_str()).as_str());
    p.append("}");
    assert(p@ =~= run_payload(*profile, prompt@));
    let mut r = copy_str("window.__lineage.run(");
    r.append(p.as_str());
    r.append(")");
    r
}

/// What the page writes once the answer is ready, `lineage-ready:` and the
/// chunk count, is read back as that count.
pub proof fn lemma_ready_title_reads_back(count: usize)
    ensures
        after_prefix(READY@ + decimal(count as nat), READY@) == Some(decimal(count as nat)),
        ready_count(decimal(count as nat)) == Some(count),
{
    lemma_after_prefix_of_concat(READY@, decimal(count as nat));
    lemma_decimal_reads_back(count as nat);
}

/// The title the page writes for chunk `index` gives that chunk back when
/// read for `index`, and nothing when read for any other index: a chunk is
/// never taken for another.
pub proof fn lemma_chunk_title_reads_back(index: usize, other: usize, data: Seq<char>)
    ensures
        after_prefix(chunk_prefix(index as nat) + data, chunk_prefix(index as nat)) == Some(data),
        other != index ==> after_prefix(chunk_prefix(index as nat) + data, chunk_prefix(other as nat)) is None,
{
    lemma_after_prefix_of_concat(chunk_prefix(index as nat), data);
    reveal_strlit(":");
    if other != index {
        let title = chunk_prefix(index as nat) + data;
        let di = decimal(index as nat);
        let a: int = di.len() as int;
        let dj = decimal(other as nat);
        let b: int = dj.len() as int;
        lemma_decimal_reads_back(index as nat);
        lemma_decimal_reads_back(other as nat);
        let k: int = CHUNK@.len() as int;
        if starts_with(title, chunk_prefix(other as nat)) {
            let pj = chunk_prefix(other as nat);
            assert(title[k + b] == ':') by {
                assert(pj[k + b] == ':');
                assert(title.subrange(0, pj.len() as int)[k + b] == pj[k + b]);
            }
            if dj.len() < di.len() {
                assert(title[k + b] == di[b]);
                assert(is_ascii_digit(di[b]));
            } else if dj.len() > di.len() {
                assert(title[k + a] == ':');
                assert(title[k + a] == pj[k + a]) by {
                    assert(title.subrange(0, pj.len() as int)[k + a] == pj[k + a]);
                }
                assert(pj[k + a] == dj[a]);
                assert(is_ascii_digit(dj[a]));
            } else {
                assert forall|m: int| 0 <= m < di.len() implies di[m] == dj[m] by {
                    assert(title[k + m] == di[m]);
                    assert(title.subrange(0, pj.len() as int)[k + m] == pj[k + m]);
                    assert(pj[k + m] == dj[m]);
                }
                assert(di =~= dj);
            }
        }
    }
}

} // verus!
