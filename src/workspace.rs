//! Workspace kinds and creation requests.

use vstd::prelude::*;

verus! {

/// How long a workspace lives.
#[derive(Clone, Copy, Debug, PartialEq, Eq, Structural)]
pub enum WorkspaceType {
    /// Kept until deleted.
    Persistent,
    /// Cleaned up automatically.
    Temporary,
}

/// The stored name of a workspace type.
pub open spec fn workspace_type_name(t: WorkspaceType) -> Seq<char> {
    match t {
        WorkspaceType::Persistent => "persistent"@,
        WorkspaceType::Temporary => "temporary"@,
    }
}

/// The type a stored name denotes: "temporary", or persistent for anything else.
pub open spec fn workspace_type_of(s: Seq<char>) -> WorkspaceType {
    if s == "temporary"@ {
        WorkspaceType::Temporary
    } else {
        WorkspaceType::Persistent
    }
}

impl WorkspaceType {
    pub fn as_str(&self) -> (r: &'static str)
        ensures
            r@ == workspace_type_name(*self),
    {
        match self {
            WorkspaceType::Persistent => "persistent",
            WorkspaceType::Temporary => "temporary",
        }
    }

    pub fn from_str(s: &str) -> (r: WorkspaceType)
        ensures
            r == workspace_type_of(s@),
    {
        let given = String::from_str(s);
        let temporary = String::from_str("temporary");
        if given == temporary {
            WorkspaceType::Temporary
        } else {
            WorkspaceType::Persistent
        }
    }
}

impl Default for WorkspaceType {
    fn default() -> (r: WorkspaceType)
        ensures
            r == WorkspaceType::Persistent,
    {
        WorkspaceType::Persistent
    }
}

/// A request to create a workspace.
pub struct WorkspaceCreateRequest {
    pub name: String,
    pub root_path: String,
    pub workspace_type: WorkspaceType,
}

} // verus!
