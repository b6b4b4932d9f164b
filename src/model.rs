use vstd::prelude::*;

verus! {

/// Content-derived identifier of a stored entry, kept in its encoded string form.
#[derive(Clone, Debug, PartialEq, Eq, Hash)]
pub struct Address {
    pub hash: String,
}

impl Address {
    pub fn new(hash: String) -> (r: Address)
        ensures
            r == (Address { hash }),
    {
        Address { hash }
    }

    pub fn as_str(&self) -> (r: &str)
        ensures
            r@ == self.hash@,
    {
        self.hash.as_str()
    }
}

impl View for Address {
    type V = Seq<char>;

    open spec fn view(&self) -> Seq<char> {
        self.hash@
    }
}

/// Leaf entry: a raw payload.
#[derive(Clone, Debug, PartialEq, Eq)]
pub struct Blob {
    pub content: Vec<u8>,
}

impl Blob {
    pub fn new(content: Vec<u8>) -> (r: Blob)
        ensures
            r.content == content,
    {
        Blob { content }
    }
}

/// What a child of a tree is.
#[derive(Clone, Copy, Debug, PartialEq, Eq)]
pub enum ChildKind {
    Blob,
    Tree,
}

/// One named child of a tree.
#[derive(Clone, Debug, PartialEq, Eq)]
pub struct TreeEntry {
    pub name: String,
    pub address: Address,
    pub kind: ChildKind,
}

/// True when no two entries of `s` share a name.
pub open spec fn names_unique(s: Seq<TreeEntry>) -> bool {
    forall|i: int, j: int| 0 <= i < j < s.len() ==> s[i].name@ != s[j].name@
}

/// True when `s` holds an entry named `name`.
pub open spec fn has_name(s: Seq<TreeEntry>, name: Seq<char>) -> bool {
    exists|i: int| 0 <= i < s.len() && s[i].name@ == name
}

/// A directory-like snapshot: named children, in order, each name at most once.
#[derive(Clone, Debug, PartialEq, Eq)]
pub struct Tree {
    entries: Vec<TreeEntry>,
}

impl View for Tree {
    type V = Seq<TreeEntry>;

    closed spec fn view(&self) -> Seq<TreeEntry> {
        self.entries@
    }
}

impl Tree {
    /// Every tree that this type lets a caller build has unique names.
    pub open spec fn wf(&self) -> bool {
        names_unique(self@)
    }

    /// The tree with no children.
    pub fn new() -> (r: Tree)
        ensures
            r@ == Seq::<TreeEntry>::empty(),
            r.wf(),
    {
        Tree { entries: Vec::new() }
    }

    /// Builds a tree from its children in order; refused when a name repeats.
    pub fn from_entries(entries: Vec<TreeEntry>) -> (r: Result<Tree, VcError>)
        ensures
            names_unique(entries@) ==> (r matches Ok(t) && t@ == entries@ && t.wf()),
            !names_unique(entries@) ==> r == Err::<Tree, VcError>(VcError::DuplicateName),
    {
        let n = entries.len();
        let mut i: usize = 0;
        while i < n
            invariant
                n == entries@.len(),
                i <= n,
                forall|a: int, b: int| 0 <= a < b < n && a < i ==> entries@[a].name@ != entries@[b].name@,
            decreases n - i,
        {
            let mut j: usize = i + 1;
            while j < n
                invariant
                    n == entries@.len(),
                    i < n,
                    i < j <= n,
                    forall|b: int| i < b < j ==> entries@[i as int].name@ != entries@[b].name@,
                decreases n - j,
            {
                if entries[i].name == entries[j].name {
                    return Err(VcError::DuplicateName);
                }
                j = j + 1;
            }
            i = i + 1;
        }
        Ok(Tree { entries })
    }

    /// The children in order.
    pub fn entries(&self) -> (r: &Vec<TreeEntry>)
        ensures
            r@ == self@,
    {
        &self.entries
    }

    /// The child with the given name, if any.
    pub fn get(&self, name: &String) -> (r: Option<&TreeEntry>)
        ensures
            r matches Some(e) ==> e.name@ == name@ && self@.contains(*e),
            r is None <==> !has_name(self@, name@),
    {
        let mut i: usize = 0;
        while i < self.entries.len()
            invariant
                i <= self@.len(),
                forall|k: int| 0 <= k < i ==> self@[k].name@ != name@,
            decreases self@.len() - i,
        {
            if self.entries[i].name == *name {
                return Some(&self.entries[i]);
            }
            i = i + 1;
        }
        None
    }
}

/// A point of history: who wrote what snapshot, in which context, after which commits.
#[derive(Clone, Debug, PartialEq, Eq)]
pub struct Commit {
    pub context_address: Address,
    pub author_address: Address,
    pub message: String,
    pub content_address: Address,
    pub parent_commits_addresses: Vec<Address>,
}

impl Commit {
    pub fn new(
        context_address: Address,
        author_address: Address,
        message: String,
        content_address: Address,
        parent_commits_addresses: Vec<Address>,
    ) -> (r: Commit)
        ensures
            r == (Commit {
                context_address,
                author_address,
                message,
                content_address,
                parent_commits_addresses,
            }),
    {
        Commit {
            context_address,
            author_address,
            message,
            content_address,
            parent_commits_addresses,
        }
    }
}

/// What a commit's content address resolves to.
#[derive(Clone, Debug, PartialEq, Eq)]
pub enum CommitContent {
    ContentBlob(Blob),
    ContentTree(Tree),
}

/// The kind tag of a stored entry.
#[derive(Clone, Copy, Debug, PartialEq, Eq)]
pub enum EntryKind {
    Blob,
    Tree,
    Commit,
}

/// A stored entry: its kind tag together with its payload.
#[derive(Clone, Debug, PartialEq, Eq)]
pub enum Entry {
    Blob(Blob),
    Tree(Tree),
    Commit(Commit),
}

impl Entry {
    pub open spec fn kind_spec(&self) -> EntryKind {
        match self {
            Entry::Blob(_) => EntryKind::Blob,
            Entry::Tree(_) => EntryKind::Tree,
            Entry::Commit(_) => EntryKind::Commit,
        }
    }

    #[verifier::when_used_as_spec(kind_spec)]
    pub fn kind(&self) -> (r: EntryKind)
        ensures
            r == self.kind_spec(),
    {
        match self {
            Entry::Blob(_) => EntryKind::Blob,
            Entry::Tree(_) => EntryKind::Tree,
            Entry::Commit(_) => EntryKind::Commit,
        }
    }
}

/// The errors of this crate.
#[derive(Clone, Copy, Debug, PartialEq, Eq)]
pub enum VcError {
    /// The publication policy refused the entry.
    Validation,
    /// A stored entry exists but is not of the kind that was asked for.
    Serialization,
    /// No caller identity was available to stand as the author.
    Identity,
    /// Two children of a tree share a name.
    DuplicateName,
}

} // verus!
