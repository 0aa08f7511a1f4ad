//! Project nodes: the typed tree model of discovered checkouts. A node is
//! identified by its absolute path and classified as one of four kinds;
//! only container repositories and directory groups carry children.

use vstd::prelude::*;

verus! {

/// The closed set of project kinds.
#[derive(Debug, Clone, Copy, PartialEq, Eq, Structural)]
pub enum ProjectItemType {
    /// An ordinary repository checkout with no worktree structure.
    StandaloneRepo,
    /// A repository kept in bare form, hosting worktree checkouts.
    WorktreeContainerRepo,
    /// One worktree of a container repository.
    WorktreeCheckout,
    /// A configured directory whose subdirectories are scanned and
    /// classified.
    ProjectDirectoryGroup,
}

/// What a tree entry knows about itself: its absolute path and its kind.
#[derive(Debug)]
pub struct ProjectItem {
    pub path: String,
    pub project_type: ProjectItemType,
    pub dirty: bool,
}

impl ProjectItem {
    pub fn new(path: String, project_type: ProjectItemType) -> (r: Self)
        ensures
            r.path == path,
            r.project_type == project_type,
            !r.dirty,
    {
        Self { path, project_type, dirty: false }
    }
}

impl Clone for ProjectItem {
    fn clone(&self) -> (r: Self)
        ensures
            r == *self,
    {
        Self {
            path: self.path.clone(),
            project_type: self.project_type,
            dirty: self.dirty,
        }
    }
}

/// One tree of the forest: an item and its ordered children.
#[derive(Debug)]
pub struct ProjectNode {
    pub item: ProjectItem,
    pub children: Vec<ProjectNode>,
}

/// A childless node with the given path and kind.
pub open spec fn is_leaf(n: ProjectNode, path: Seq<char>, kind: ProjectItemType) -> bool {
    &&& n.item.path@ == path
    &&& n.item.project_type == kind
    &&& !n.item.dirty
    &&& n.children@.len() == 0
}

/// The same path, kind and freshness on both items.
pub open spec fn same_item(a: ProjectItem, b: ProjectItem) -> bool {
    &&& a.path@ == b.path@
    &&& a.project_type == b.project_type
    &&& a.dirty == b.dirty
}

} // verus!
