//! The value objects decoded from the two API responses: repository
//! metadata and the recursive tree listing. All are immutable values
//! built once from a decoded response and consumed by the renderer.

use vstd::prelude::*;
use crate::errors::AppError;

verus! {

/// One file-system node of the fetched tree.
pub struct TreeEntry {
    /// Slash-separated path, relative to the repository root.
    pub path: String,
    /// File mode, e.g. `"040000"` for directories.
    pub mode: String,
    /// Entry kind: `"tree"` for directories, `"blob"` for files.
    pub type_field: String,
    /// Content hash of the entry.
    pub sha: String,
    /// Size in bytes; absent for directories.
    pub size: Option<u64>,
    /// Access URL of the entry; present for files only.
    pub url: Option<String>,
}

/// The mathematical value of a `TreeEntry`.
pub ghost struct TreeEntryView {
    pub path: Seq<char>,
    pub mode: Seq<char>,
    pub type_field: Seq<char>,
    pub sha: Seq<char>,
    pub size: Option<u64>,
    pub url: Option<Seq<char>>,
}

impl View for TreeEntry {
    type V = TreeEntryView;

    open spec fn view(&self) -> TreeEntryView {
        TreeEntryView {
            path: self.path@,
            mode: self.mode@,
            type_field: self.type_field@,
            sha: self.sha@,
            size: self.size,
            url: self.url.deep_view(),
        }
    }
}

impl DeepView for TreeEntry {
    type V = TreeEntryView;

    open spec fn deep_view(&self) -> TreeEntryView {
        self.view()
    }
}

/// The recursive tree listing of one branch.
pub struct GitTreeResponse {
    /// Content hash of the tree itself.
    pub sha: String,
    /// URL to access the tree.
    pub url: String,
    /// Whether the service capped the listing.
    pub truncated: bool,
    /// The entries, in the order the service reported them.
    pub tree: Vec<TreeEntry>,
}

/// Repository metadata: what the tool reads of it.
pub struct RepoInfo {
    /// The primary line of development, when the service reports one.
    pub default_branch: Option<String>,
}

impl RepoInfo {
    /// The default branch, or `MissingDefaultBranch` when the metadata
    /// carries none.
    pub fn default_branch_or_err(self) -> (res: Result<String, AppError>)
        ensures
            match res {
                Ok(branch) => self.default_branch matches Some(b) && branch == b,
                Err(e) => e == AppError::MissingDefaultBranch && self.default_branch is None,
            },
            res is Ok <==> self.default_branch is Some,
    {
        match self.default_branch {
            Some(branch) => Ok(branch),
            None => Err(AppError::MissingDefaultBranch),
        }
    }
}

} // verus!
