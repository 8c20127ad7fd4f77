//! The stable tag registry and its view / recipe bindings.

use vstd::prelude::*;

use crate::text::str_eq;

verus! {

#[derive(Debug, Clone, Copy, PartialEq, Eq, Structural)]
pub enum TagKind {
    User,
    Builtin,
    Metadata,
}

impl TagKind {
    pub open spec fn spec_as_str(self) -> Seq<char> {
        match self {
            TagKind::User => "user"@,
            TagKind::Builtin => "builtin"@,
            TagKind::Metadata => "metadata"@,
        }
    }

    /// Stored form; anything unknown reads back as `User`.
    pub open spec fn spec_parse(s: Seq<char>) -> TagKind {
        if s == "builtin"@ {
            TagKind::Builtin
        } else if s == "metadata"@ {
            TagKind::Metadata
        } else {
            TagKind::User
        }
    }

    pub fn as_str(self) -> (s: &'static str)
        ensures
            s@ == self.spec_as_str(),
    {
        match self {
            TagKind::User => "user",
            TagKind::Builtin => "builtin",
            TagKind::Metadata => "metadata",
        }
    }

    pub fn parse(value: &str) -> (r: TagKind)
        ensures
            r == TagKind::spec_parse(value@),
    {
        if str_eq(value, "builtin") {
            TagKind::Builtin
        } else if str_eq(value, "metadata") {
            TagKind::Metadata
        } else {
            TagKind::User
        }
    }
}

/// Each tag kind reads back from its stored string.
pub proof fn lemma_tag_kind_round_trip(kind: TagKind)
    ensures
        TagKind::spec_parse(kind.spec_as_str()) == kind,
{
    reveal_strlit("user");
    reveal_strlit("builtin");
    reveal_strlit("metadata");
    assert("user"@.len() != "builtin"@.len());
    assert("user"@.len() != "metadata"@.len());
    assert("builtin"@.len() != "metadata"@.len());
}

#[derive(Debug, Clone, Copy, PartialEq, Eq, Structural)]
pub enum TagAssignmentSource {
    User,
    Derived,
    Imported,
}

#[derive(Debug, Clone, PartialEq, Eq)]
pub struct ViewBinding {
    pub tag_id: String,
    pub view_id: String,
}

#[derive(Debug, Clone, PartialEq, Eq)]
pub struct AutomationBinding {
    pub tag_id: String,
    pub recipe_name: String,
    pub managed: bool,
    pub enabled: bool,
}

#[derive(Debug, Clone, PartialEq, Eq)]
pub struct TagDefinition {
    pub id: String,
    pub workspace_id: String,
    pub kind: TagKind,
    pub display_name: String,
    pub shorthand: Option<String>,
    pub usage_count: i64,
    pub last_used_at: Option<String>,
    pub enabled: bool,
    pub managed: bool,
    pub deleted_at: Option<String>,
    pub view: Option<ViewBinding>,
    pub automation: Option<AutomationBinding>,
}

} // verus!
