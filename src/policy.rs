use vstd::prelude::*;
use crate::model::{Commit, EntryKind};

verus! {

/// Who may read an entry of a given type.
#[derive(Clone, Copy, Debug, PartialEq, Eq)]
pub enum Sharing {
    Public,
    Private,
}

/// What must be fetched before a candidate entry can be judged.
#[derive(Clone, Copy, Debug, PartialEq, Eq)]
pub enum ValidationPackage {
    /// The candidate entry alone.
    Entry,
    /// The author's whole source chain: guards against partial-history attacks.
    ChainFull,
}

/// How an entry type is declared to the store.
#[derive(Clone, Debug, PartialEq, Eq)]
pub struct EntryDefinition {
    pub name: String,
    pub description: String,
    pub sharing: Sharing,
    pub validation_package: ValidationPackage,
}

/// The declaration of the commit entry type: public, and judged with the
/// author's full chain at hand.
pub fn definition() -> (r: EntryDefinition)
    ensures
        r.name@ == "commit"@,
        r.description@ == "a commit object"@,
        r.sharing == Sharing::Public,
        r.validation_package == ValidationPackage::ChainFull,
{
    EntryDefinition {
        name: "commit".to_owned(),
        description: "a commit object".to_owned(),
        sharing: Sharing::Public,
        validation_package: ValidationPackage::ChainFull,
    }
}

/// What the caller fetched before publishing a commit: the kind of the entry
/// at its content address and at each parent address, in order (`None` where
/// nothing is stored).
#[derive(Clone, Debug, PartialEq, Eq)]
pub struct ValidationContext {
    pub content: Option<EntryKind>,
    pub parents: Vec<Option<EntryKind>>,
}

/// True when every address that `c` points to resolves to an entry of the
/// right kind: a blob or a tree for the content, a commit for each parent.
pub open spec fn links_resolve(c: Commit, ctx: ValidationContext) -> bool {
    &&& (ctx.content == Some(EntryKind::Blob) || ctx.content == Some(EntryKind::Tree))
    &&& ctx.parents@.len() == c.parent_commits_addresses@.len()
    &&& forall|i: int| 0 <= i < ctx.parents@.len() ==> ctx.parents@[i] == Some(EntryKind::Commit)
}

/// The publication policy for commits. The permissive policy accepts every
/// well-formed commit; the linked policy also asks that its links resolve.
#[derive(Clone, Copy, Debug, PartialEq, Eq)]
pub struct Policy {
    pub check_links: bool,
}

impl Policy {
    pub fn permissive() -> (r: Policy)
        ensures
            !r.check_links,
    {
        Policy { check_links: false }
    }

    pub fn linked() -> (r: Policy)
        ensures
            r.check_links,
    {
        Policy { check_links: true }
    }

    /// What must be fetched before a commit is judged under this policy.
    pub fn required_context(&self) -> (r: ValidationPackage)
        ensures
            r == ValidationPackage::ChainFull,
    {
        ValidationPackage::ChainFull
    }

    pub open spec fn accepts_spec(self, c: Commit, ctx: ValidationContext) -> bool {
        !self.check_links || links_resolve(c, ctx)
    }

    /// Whether `c` may be published, given what was fetched for it.
    pub fn accepts(&self, c: &Commit, ctx: &ValidationContext) -> (r: bool)
        ensures
            r == self.accepts_spec(*c, *ctx),
    {
        if !self.check_links {
            return true;
        }
        let content_ok = match ctx.content {
            Some(EntryKind::Blob) | Some(EntryKind::Tree) => true,
            _ => false,
        };
        if !content_ok || ctx.parents.len() != c.parent_commits_addresses.len() {
            return false;
        }
        let mut i: usize = 0;
        while i < ctx.parents.len()
            invariant
                i <= ctx.parents@.len(),
                self.check_links,
                ctx.parents@.len() == c.parent_commits_addresses@.len(),
                forall|k: int| 0 <= k < i ==> ctx.parents@[k] == Some(EntryKind::Commit),
            decreases ctx.parents@.len() - i,
        {
            match ctx.parents[i] {
                Some(EntryKind::Commit) => {},
                _ => {
                    assert(ctx.parents@[i as int] != Some(EntryKind::Commit));
                    return false;
                },
            }
            i = i + 1;
        }
        true
    }
}

} // verus!
