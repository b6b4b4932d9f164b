use vstd::prelude::*;
use crate::model::{Address, Blob, Entry};

verus! {

/// A snapshot read out of the store down to its leaves.
#[derive(Debug, PartialEq, Eq)]
pub enum Materialized {
    /// A blob.
    File(Blob),
    /// A tree, each child read in turn, in the tree's order.
    Dir(Vec<MaterializedChild>),
    /// Nothing is stored at the address.
    Missing,
    /// A commit is stored where content was expected.
    NotContent,
    /// The depth bound was reached before this address was read.
    Truncated,
}

/// One named child of a materialized tree.
#[derive(Debug, PartialEq, Eq)]
pub struct MaterializedChild {
    pub name: String,
    pub node: Materialized,
}

/// `m` is what reading `a` through `get` down to `depth` levels can give: the
/// entry at `a` is one that `get` may return, and each child of a tree is
/// read the same way one level less deep.
pub open spec fn materializes<F: Fn(&Address) -> Option<Entry>>(
    get: F,
    a: Address,
    depth: nat,
    m: Materialized,
) -> bool
    decreases depth,
{
    if depth == 0 {
        m == Materialized::Truncated
    } else {
        exists|e: Option<Entry>|
            #[trigger] get.ensures((&a,), e) && match e {
                None => m == Materialized::Missing,
                Some(Entry::Blob(b)) => m == Materialized::File(b),
                Some(Entry::Commit(_)) => m == Materialized::NotContent,
                Some(Entry::Tree(t)) => m matches Materialized::Dir(cs) && cs@.len() == t@.len()
                    && forall|i: int|
                    0 <= i < cs@.len() ==> cs@[i].name == t@[i].name && materializes(
                        get,
                        t@[i].address,
                        (depth - 1) as nat,
                        #[trigger] cs@[i].node,
                    ),
            }
    }
}

/// Reads the blob or tree at `a` through `get` and, for a tree, each of its
/// children in turn, down to `depth` levels. Unlike content resolution, this
/// walks the whole snapshot, so its cost grows with the snapshot's size.
pub fn resolve_tree<F: Fn(&Address) -> Option<Entry>>(get: &F, a: &Address, depth: usize) -> (m:
    Materialized)
    requires
        forall|x: &Address| get.requires((x,)),
    ensures
        materializes(*get, *a, depth as nat, m),
    decreases depth,
{
    if depth == 0 {
        return Materialized::Truncated;
    }
    let e = get(a);
    let ghost fetched = e;
    match e {
        None => Materialized::Missing,
        Some(Entry::Blob(b)) => Materialized::File(b),
        Some(Entry::Commit(_)) => Materialized::NotContent,
        Some(Entry::Tree(t)) => {
            let entries = t.entries();
            let mut cs: Vec<MaterializedChild> = Vec::new();
            let mut i: usize = 0;
            while i < entries.len()
                invariant
                    entries@ == t@,
                    forall|x: &Address| get.requires((x,)),
                    depth > 0,
                    i <= entries@.len(),
                    cs@.len() == i,
                    forall|j: int|
                        0 <= j < i ==> cs@[j].name == t@[j].name && materializes(
                            *get,
                            t@[j].address,
                            (depth - 1) as nat,
                            #[trigger] cs@[j].node,
                        ),
                decreases entries@.len() - i,
            {
                let node = resolve_tree(get, &entries[i].address, depth - 1);
                cs.push(MaterializedChild { name: entries[i].name.clone(), node });
                i = i + 1;
            }
            let m = Materialized::Dir(cs);
            assert(get.ensures((a,), fetched));
            m
        },
    }
}

} // verus!
