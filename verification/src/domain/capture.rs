//! One captured input: a document asset.
//!
//! To the user it is a memo; internally it is stored as a document.

use vstd::prelude::*;

use crate::domain::meta::DocumentMetadata;
use crate::text::{
    chars_of, copy_str, is_blank, lemma_trim_start_from, push_char,
    skip_white_space, string_from_range, trim, trim_bounds, trim_start,
};

verus! {

/// `document_type` of a memo.
pub const DOCUMENT_TYPE_MEMO: &'static str = "memo";

/// `document_type` of an image attached to a memo.
pub const DOCUMENT_TYPE_IMAGE: &'static str = "image";

/// An image attached to a memo; `blob_uri` is where the image was saved.
#[derive(Debug, Clone, PartialEq, Eq)]
pub struct ImageAttachment {
    pub name: String,
    pub blob_uri: String,
}

/// A stored record.
#[derive(Debug, Clone, PartialEq, Eq)]
pub struct DocumentAsset {
    pub id: String,
    pub workspace_id: String,
    pub title: String,
    pub body_text: String,
    pub blob_uri: Option<String>,
    pub document_type: String,
    pub created_at: String,
    pub updated_at: String,
}

/// Most characters of a title taken from the body.
pub const TITLE_MAX_CHARS: usize = 60;

/// The index just past the line that starts at or contains position `k`:
/// the next `'\n'` at or after `k`, or the end of the text.
pub open spec fn line_end(s: Seq<char>, k: int) -> int
    decreases s.len() - k,
{
    if k >= s.len() || k < 0 {
        s.len() as int
    } else if s[k] == '\n' {
        k
    } else {
        line_end(s, k + 1)
    }
}

/// The first line that is not blank, trimmed (empty if every line is blank).
///
/// That line is the one holding the first character that is not white space,
/// since `'\n'` is white space itself.
pub open spec fn first_line_text(s: Seq<char>) -> Seq<char> {
    let k = s.len() - trim_start(s).len();
    trim(s.subrange(k, line_end(s, k)))
}

/// The title derived from a body: its first non-blank line, trimmed, cut to
/// 60 characters with `…` appended when longer, or `memo` when there is none.
pub open spec fn spec_derive_title(body: Seq<char>) -> Seq<char> {
    let line = first_line_text(body);
    if line.len() == 0 {
        "memo"@
    } else if line.len() > TITLE_MAX_CHARS {
        line.take(TITLE_MAX_CHARS as int).push('…')
    } else {
        line
    }
}

fn find_line_end(v: &Vec<char>, k: usize) -> (e: usize)
    requires
        k <= v.len(),
    ensures
        e == line_end(v@, k as int),
        k <= e <= v.len(),
{
    let mut e = k;
    while e < v.len() && v[e] != '\n'
        invariant
            k <= e <= v.len(),
            line_end(v@, k as int) == line_end(v@, e as int),
        decreases v.len() - e,
    {
        e = e + 1;
    }
    e
}

proof fn lemma_line_end_bounds(s: Seq<char>, k: int)
    requires
        0 <= k <= s.len(),
    ensures
        k <= line_end(s, k) <= s.len(),
    decreases s.len() - k,
{
    if k < s.len() && s[k] != '\n' {
        lemma_line_end_bounds(s, k + 1);
    }
}

/// The title of a memo, taken from its body so the user never has to type one.
pub fn derive_title(body: &str) -> (title: String)
    ensures
        title@ == spec_derive_title(body@),
{
    proof {
        reveal_strlit("memo");
    }
    let v = chars_of(body);
    let k = skip_white_space(&v, 0, v.len());
    proof {
        assert forall|i: int| 0 <= i < k implies crate::text::is_white_space(#[trigger] v@[i]) by {}
        lemma_trim_start_from(v@, k as int);
        assert(v@.skip(k as int).len() == v@.len() - k);
    }
    let e = find_line_end(&v, k);
    let (a, b) = trim_bounds(&v, k, e);
    if a == b {
        return copy_str("memo");
    }
    if b - a > TITLE_MAX_CHARS {
        let mut title = string_from_range(&v, a, a + TITLE_MAX_CHARS);
        push_char(&mut title, '…');
        assert(v@.subrange(a as int, b as int).take(TITLE_MAX_CHARS as int) =~= v@.subrange(
            a as int,
            a + TITLE_MAX_CHARS,
        ));
        title
    } else {
        string_from_range(&v, a, b)
    }
}

/// A derived title is never empty and never longer than 61 characters.
pub proof fn lemma_title_is_short(body: Seq<char>)
    ensures
        1 <= spec_derive_title(body).len() <= TITLE_MAX_CHARS + 1,
{
    reveal_strlit("memo");
}

impl DocumentAsset {
    /// A memo whose title comes from its first line.
    pub fn memo(id: &str, workspace_id: &str, body_text: &str, now: &str) -> (doc: DocumentAsset)
        ensures
            doc.id@ == id@,
            doc.workspace_id@ == workspace_id@,
            doc.title@ == spec_derive_title(body_text@),
            doc.body_text@ == body_text@,
            doc.blob_uri is None,
            doc.document_type@ == DOCUMENT_TYPE_MEMO@,
            doc.created_at@ == now@,
            doc.updated_at@ == now@,
    {
        DocumentAsset {
            id: copy_str(id),
            workspace_id: copy_str(workspace_id),
            title: derive_title(body_text),
            body_text: copy_str(body_text),
            blob_uri: None,
            document_type: copy_str(DOCUMENT_TYPE_MEMO),
            created_at: copy_str(now),
            updated_at: copy_str(now),
        }
    }

    /// An image document, titled with the attachment's name.
    pub fn image(id: &str, workspace_id: &str, attachment: ImageAttachment, now: &str) -> (doc:
        DocumentAsset)
        ensures
            doc.id@ == id@,
            doc.workspace_id@ == workspace_id@,
            doc.title == attachment.name,
            doc.body_text@ == Seq::<char>::empty(),
            doc.blob_uri == Some(attachment.blob_uri),
            doc.document_type@ == DOCUMENT_TYPE_IMAGE@,
            doc.created_at@ == now@,
            doc.updated_at@ == now@,
    {
        DocumentAsset {
            id: copy_str(id),
            workspace_id: copy_str(workspace_id),
            title: attachment.name,
            body_text: String::new(),
            blob_uri: Some(attachment.blob_uri),
            document_type: copy_str(DOCUMENT_TYPE_IMAGE),
            created_at: copy_str(now),
            updated_at: copy_str(now),
        }
    }
}

/// What the capture side observed: the application that was in front.
#[derive(Debug, Clone, PartialEq, Eq)]
pub struct CaptureContext {
    /// Executable name of that application (e.g. `chrome.exe`).
    pub process_name: String,
    /// Its window title.
    pub window_title: String,
}

/// `application` always, then `window` when the window title is not blank;
/// both with source `auto`.
pub open spec fn spec_context_metadata(
    process_name: Seq<char>,
    window_title: Seq<char>,
    metas: Seq<DocumentMetadata>,
) -> bool {
    &&& metas.len() == (if is_blank(window_title) { 1int } else { 2int })
    &&& metas[0].key@ == "application"@
    &&& metas[0].value@ == process_name
    &&& metas[0].source@ == "auto"@
    &&& metas.len() == 2 ==> {
        &&& metas[1].key@ == "window"@
        &&& metas[1].value@ == window_title
        &&& metas[1].source@ == "auto"@
    }
}

impl CaptureContext {
    /// The metadata that the context attaches to a record by itself.
    pub fn metadata(&self) -> (metas: Vec<DocumentMetadata>)
        ensures
            spec_context_metadata(self.process_name@, self.window_title@, metas@),
    {
        let mut metas: Vec<DocumentMetadata> = Vec::new();
        metas.push(
            DocumentMetadata {
                key: copy_str("application"),
                value: copy_str(self.process_name.as_str()),
                source: copy_str("auto"),
            },
        );
        let v = chars_of(self.window_title.as_str());
        let k = skip_white_space(&v, 0, v.len());
        if k < v.len() {
            metas.push(
                DocumentMetadata {
                    key: copy_str("window"),
                    value: copy_str(self.window_title.as_str()),
                    source: copy_str("auto"),
                },
            );
        }
        metas
    }
}

} // verus!
