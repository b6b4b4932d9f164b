use vstd::prelude::*;
use crate::model::{Address, Commit, CommitContent, Entry, EntryKind, VcError};
use crate::policy::{Policy, ValidationContext};
use crate::graph::{
    commit_info_spec, content_lookup_spec, content_spec, create_commit_spec, ContentLookup,
};

verus! {

/// What a content-addressed store, seen as a map from address to entry,
/// returns for `a`.
pub open spec fn stored(store: Map<Seq<char>, Entry>, a: Address) -> Option<Entry> {
    if store.contains_key(a@) {
        Some(store[a@])
    } else {
        None
    }
}

/// Both hops of content resolution run against `store`.
pub open spec fn resolve_commit_content(store: Map<Seq<char>, Entry>, a: Address) -> Result<
    Option<CommitContent>,
    VcError,
> {
    match content_lookup_spec(stored(store, a)) {
        ContentLookup::Fetch(c) => content_spec(stored(store, c)),
        ContentLookup::Done(r) => r,
    }
}

/// An entry stored under its address reads back as itself: a commit through
/// `handle_get_commit_info`, a blob or a tree through `finish_commit_content`.
pub proof fn lemma_read_back(store: Map<Seq<char>, Entry>, a: Address, x: Entry)
    ensures
        stored(store.insert(a@, x), a) == Some(x),
        x matches Entry::Commit(c) ==> commit_info_spec(stored(store.insert(a@, x), a)) == Ok::<
            _,
            VcError,
        >(Some(c)),
        x matches Entry::Blob(b) ==> content_spec(stored(store.insert(a@, x), a)) == Ok::<
            _,
            VcError,
        >(Some(CommitContent::ContentBlob(b))),
        x matches Entry::Tree(t) ==> content_spec(stored(store.insert(a@, x), a)) == Ok::<
            _,
            VcError,
        >(Some(CommitContent::ContentTree(t))),
{
}

/// Publishing the same tuple of context, author, message, content and parents
/// twice yields the same entry, so a content-addressed store gives both the
/// same address.
pub proof fn lemma_commit_deterministic(
    author: Option<Address>,
    policy: Policy,
    fetched: ValidationContext,
    context_address: Address,
    message: String,
    content_address: Address,
    parent_commits: Vec<Address>,
    author2: Option<Address>,
    context_address2: Address,
    message2: String,
    content_address2: Address,
    parent_commits2: Vec<Address>,
)
    requires
        author == author2,
        context_address == context_address2,
        message == message2,
        content_address == content_address2,
        parent_commits == parent_commits2,
    ensures
        create_commit_spec(
            author,
            policy,
            fetched,
            context_address,
            message,
            content_address,
            parent_commits,
        ) == create_commit_spec(
            author2,
            policy,
            fetched,
            context_address2,
            message2,
            content_address2,
            parent_commits2,
        ),
{
}

/// A published commit reads back with exactly the parents it was created
/// with, in order, and with the other fields it was given.
pub proof fn lemma_parents_read_back(
    author: Option<Address>,
    policy: Policy,
    fetched: ValidationContext,
    context_address: Address,
    message: String,
    content_address: Address,
    parent_commits: Vec<Address>,
)
    requires
        create_commit_spec(
            author,
            policy,
            fetched,
            context_address,
            message,
            content_address,
            parent_commits,
        ) is Ok,
    ensures
        ({
            let e = create_commit_spec(
                author,
                policy,
                fetched,
                context_address,
                message,
                content_address,
                parent_commits,
            )->Ok_0;
            &&& commit_info_spec(Some(e)) matches Ok(Some(c))
            &&& c.parent_commits_addresses@ == parent_commits@
            &&& c.context_address == context_address
            &&& c.message == message
            &&& c.content_address == content_address
            &&& Some(c.author_address) == author
        }),
{
}

/// Resolving a commit's content gives the blob or tree stored at the commit's
/// content address, and nothing when no entry is stored at the commit's own
/// address.
pub proof fn lemma_content_resolution(store: Map<Seq<char>, Entry>, a: Address)
    ensures
        !store.contains_key(a@) ==> resolve_commit_content(store, a) == Ok::<
            Option<CommitContent>,
            VcError,
        >(None),
        store.contains_key(a@) && store[a@] is Commit ==> {
            let c = store[a@]->Commit_0;
            &&& resolve_commit_content(store, a) == content_spec(stored(store, c.content_address))
            &&& stored(store, c.content_address) matches Some(Entry::Blob(b))
                ==> resolve_commit_content(store, a) == Ok::<_, VcError>(
                Some(CommitContent::ContentBlob(b)),
            )
            &&& stored(store, c.content_address) matches Some(Entry::Tree(t))
                ==> resolve_commit_content(store, a) == Ok::<_, VcError>(
                Some(CommitContent::ContentTree(t)),
            )
            &&& stored(store, c.content_address) is None ==> resolve_commit_content(store, a)
                == Ok::<Option<CommitContent>, VcError>(None)
        },
{
}

/// The kind of the entry that `store` holds at `a`, if any.
pub open spec fn kind_at(store: Map<Seq<char>, Entry>, a: Address) -> Option<EntryKind> {
    if store.contains_key(a@) {
        Some(store[a@].kind_spec())
    } else {
        None
    }
}

/// Under the linked policy, a commit that is new to the store cannot name its
/// own address as a parent: each parent was found stored before the commit
/// was accepted, while the commit's own address was not.
pub proof fn lemma_no_self_parent(
    store: Map<Seq<char>, Entry>,
    a: Address,
    c: Commit,
    fetched: ValidationContext,
)
    requires
        (Policy { check_links: true }).accepts_spec(c, fetched),
        forall|i: int|
            0 <= i < fetched.parents@.len() ==> fetched.parents@[i] == kind_at(
                store,
                c.parent_commits_addresses@[i],
            ),
        !store.contains_key(a@),
    ensures
        forall|i: int|
            0 <= i < c.parent_commits_addresses@.len() ==> c.parent_commits_addresses@[i]@ != a@,
{
    assert forall|i: int| 0 <= i < c.parent_commits_addresses@.len() implies c.parent_commits_addresses@[i]@ != a@ by {
        assert(fetched.parents@[i] == Some(EntryKind::Commit));
    }
}

/// `rank` orders the entries of `store`: every stored commit's parents are
/// stored commits of strictly lower rank. A store filled one commit at a time
/// under the linked policy carries the order of publication as such a rank.
pub open spec fn ranked(store: Map<Seq<char>, Entry>, rank: Map<Seq<char>, nat>) -> bool {
    &&& rank.dom() == store.dom()
    &&& forall|a: Seq<char>, i: int|
        store.contains_key(a) && store[a] is Commit && 0 <= i
            < store[a]->Commit_0.parent_commits_addresses@.len() ==> {
            let p = (#[trigger] store[a]->Commit_0.parent_commits_addresses@[i])@;
            &&& store.contains_key(p)
            &&& store[p] is Commit
            &&& rank[p] < rank[a]
        }
}

/// `path` follows parent links through `store`: each step goes from a
/// stored commit to one of its parents.
pub open spec fn is_parent_path(store: Map<Seq<char>, Entry>, path: Seq<Seq<char>>) -> bool {
    forall|k: int|
        0 <= k < path.len() - 1 ==> {
            &&& store.contains_key(path[k])
            &&& store[path[k]] is Commit
            &&& exists|i: int|
                0 <= i < store[path[k]]->Commit_0.parent_commits_addresses@.len() && (
                #[trigger] store[path[k]]->Commit_0.parent_commits_addresses@[i])@ == path[k
                    + 1]
        }
}

/// Publishing a commit under the linked policy at an address new to the store,
/// with a rank above all present ones, keeps the store ranked.
pub proof fn lemma_publish_keeps_rank(
    store: Map<Seq<char>, Entry>,
    rank: Map<Seq<char>, nat>,
    a: Address,
    c: Commit,
    fetched: ValidationContext,
    n: nat,
)
    requires
        ranked(store, rank),
        (Policy { check_links: true }).accepts_spec(c, fetched),
        forall|i: int|
            0 <= i < fetched.parents@.len() ==> fetched.parents@[i] == kind_at(
                store,
                c.parent_commits_addresses@[i],
            ),
        !store.contains_key(a@),
        forall|k: Seq<char>| rank.contains_key(k) ==> rank[k] < n,
    ensures
        ranked(store.insert(a@, Entry::Commit(c)), rank.insert(a@, n)),
{
    let s2 = store.insert(a@, Entry::Commit(c));
    let r2 = rank.insert(a@, n);
    assert(r2.dom() =~= s2.dom());
    assert forall|b: Seq<char>, i: int|
        s2.contains_key(b) && s2[b] is Commit && 0 <= i
            < s2[b]->Commit_0.parent_commits_addresses@.len() implies {
        let p = (#[trigger] s2[b]->Commit_0.parent_commits_addresses@[i])@;
        &&& s2.contains_key(p)
        &&& s2[p] is Commit
        &&& r2[p] < r2[b]
    } by {
        if b == a@ {
            assert(fetched.parents@[i] == Some(EntryKind::Commit));
            let p = c.parent_commits_addresses@[i]@;
            assert(store.contains_key(p));
            assert(p != a@);
        } else {
            let p = store[b]->Commit_0.parent_commits_addresses@[i]@;
            assert(store.contains_key(p));
        }
    }
}

/// Ranks fall strictly along a parent path.
proof fn lemma_rank_falls(
    store: Map<Seq<char>, Entry>,
    rank: Map<Seq<char>, nat>,
    path: Seq<Seq<char>>,
    k: int,
)
    requires
        ranked(store, rank),
        is_parent_path(store, path),
        1 <= k < path.len(),
    ensures
        store.contains_key(path[k]),
        rank[path[k]] < rank[path[0]],
    decreases k,
{
    assert(store.contains_key(path[k - 1]));
    let i = choose|i: int|
        0 <= i < store[path[k - 1]]->Commit_0.parent_commits_addresses@.len() && (
        #[trigger] store[path[k - 1]]->Commit_0.parent_commits_addresses@[i])@ == path[k];
    if k > 1 {
        lemma_rank_falls(store, rank, path, k - 1);
    }
}

/// In a ranked store no commit is its own ancestor: a path of one or more
/// parent links never ends where it began.
pub proof fn lemma_no_cycle(
    store: Map<Seq<char>, Entry>,
    rank: Map<Seq<char>, nat>,
    path: Seq<Seq<char>>,
)
    requires
        ranked(store, rank),
        is_parent_path(store, path),
        path.len() >= 2,
    ensures
        path[path.len() - 1] != path[0],
{
    lemma_rank_falls(store, rank, path, path.len() - 1);
}

} // verus!
