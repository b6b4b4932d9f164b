use std::collections::HashMap;

use vc_commit::graph::{
    create_commit, finish_commit_content, handle_get_commit_content, handle_get_commit_info,
    ContentLookup,
};
use vc_commit::model::{
    Address, Blob, ChildKind, Commit, CommitContent, Entry, EntryKind, Tree, TreeEntry, VcError,
};
use vc_commit::policy::{definition, Policy, Sharing, ValidationContext, ValidationPackage};
use vc_commit::resolve::{resolve_tree, Materialized, MaterializedChild};

/// A content-addressed store for the tests: the address of an entry is its
/// debug rendering, so equal entries share an address.
struct Store {
    entries: HashMap<Address, Entry>,
}

impl Store {
    fn new() -> Store {
        Store { entries: HashMap::new() }
    }

    fn put(&mut self, e: Entry) -> Address {
        let a = Address::new(format!("{:?}", e));
        self.entries.insert(a.clone(), e);
        a
    }

    fn get(&self, a: &Address) -> Option<Entry> {
        self.entries.get(a).cloned()
    }

    fn commit_content(&self, a: &Address) -> Result<Option<CommitContent>, VcError> {
        match handle_get_commit_content(self.get(a)) {
            ContentLookup::Fetch(c) => finish_commit_content(self.get(&c)),
            ContentLookup::Done(r) => r,
        }
    }
}

fn addr(s: &str) -> Address {
    Address::new(s.to_string())
}

fn no_context() -> ValidationContext {
    ValidationContext { content: None, parents: vec![] }
}

fn commit_in(
    store: &mut Store,
    message: &str,
    content: &Address,
    parents: Vec<Address>,
) -> Address {
    let e = create_commit(
        Some(addr("agent")),
        &Policy::permissive(),
        &no_context(),
        addr("C"),
        message.to_string(),
        content.clone(),
        parents,
    )
    .unwrap();
    store.put(e)
}

#[test]
fn scenario_init_commit_resolves_to_blob() {
    let mut store = Store::new();
    let b1 = store.put(Entry::Blob(Blob::new(b"hello".to_vec())));
    let a1 = commit_in(&mut store, "init", &b1, vec![]);
    assert_eq!(
        store.commit_content(&a1),
        Ok(Some(CommitContent::ContentBlob(Blob { content: b"hello".to_vec() })))
    );
}

#[test]
fn scenario_second_commit_has_first_as_parent() {
    let mut store = Store::new();
    let b1 = store.put(Entry::Blob(Blob::new(b"hello".to_vec())));
    let a1 = commit_in(&mut store, "init", &b1, vec![]);
    let a2 = commit_in(&mut store, "second", &b1, vec![a1.clone()]);
    assert_ne!(a1, a2);
    let info = handle_get_commit_info(store.get(&a2)).unwrap().unwrap();
    assert_eq!(info.parent_commits_addresses, vec![a1]);
    assert_eq!(info.message, "second");
    assert_eq!(info.author_address, addr("agent"));
    assert_eq!(info.context_address, addr("C"));
    assert_eq!(info.content_address, b1);
}

#[test]
fn scenario_unused_address_has_no_commit() {
    let mut store = Store::new();
    let b1 = store.put(Entry::Blob(Blob::new(b"hello".to_vec())));
    commit_in(&mut store, "init", &b1, vec![]);
    assert_eq!(handle_get_commit_info(store.get(&addr("Qm-unused"))), Ok(None));
    assert_eq!(store.commit_content(&addr("Qm-unused")), Ok(None));
}

#[test]
fn stored_entries_read_back_unchanged() {
    let mut store = Store::new();
    let blob = Entry::Blob(Blob::new(vec![0, 1, 255]));
    let a = store.put(blob.clone());
    assert_eq!(store.get(&a), Some(blob));
    let tree = Tree::from_entries(vec![TreeEntry {
        name: "a.txt".to_string(),
        address: a.clone(),
        kind: ChildKind::Blob,
    }])
    .unwrap();
    let t = store.put(Entry::Tree(tree.clone()));
    assert_eq!(finish_commit_content(store.get(&t)), Ok(Some(CommitContent::ContentTree(tree))));
    let c = commit_in(&mut store, "m", &t, vec![]);
    let info = handle_get_commit_info(store.get(&c)).unwrap().unwrap();
    assert_eq!(Entry::Commit(info), store.get(&c).unwrap());
}

#[test]
fn putting_twice_keeps_one_copy() {
    let mut store = Store::new();
    let b = Entry::Blob(Blob::new(b"x".to_vec()));
    let a1 = store.put(b.clone());
    let a2 = store.put(b);
    assert_eq!(a1, a2);
    assert_eq!(store.entries.len(), 1);
}

#[test]
fn identical_tuples_give_identical_commits() {
    let mut store = Store::new();
    let b1 = store.put(Entry::Blob(Blob::new(b"hello".to_vec())));
    let p = commit_in(&mut store, "init", &b1, vec![]);
    let x = commit_in(&mut store, "same", &b1, vec![p.clone()]);
    let y = commit_in(&mut store, "same", &b1, vec![p.clone()]);
    assert_eq!(x, y);
    let z = commit_in(&mut store, "other", &b1, vec![p]);
    assert_ne!(x, z);
}

#[test]
fn merge_commit_keeps_parent_order() {
    let mut store = Store::new();
    let b1 = store.put(Entry::Blob(Blob::new(b"hello".to_vec())));
    let left = commit_in(&mut store, "left", &b1, vec![]);
    let right = commit_in(&mut store, "right", &b1, vec![]);
    let m = commit_in(&mut store, "merge", &b1, vec![right.clone(), left.clone()]);
    let info = handle_get_commit_info(store.get(&m)).unwrap().unwrap();
    assert_eq!(info.parent_commits_addresses, vec![right, left]);
}

#[test]
fn commit_without_identity_is_refused() {
    let r = create_commit(
        None,
        &Policy::permissive(),
        &no_context(),
        addr("C"),
        "init".to_string(),
        addr("B1"),
        vec![],
    );
    assert_eq!(r, Err(VcError::Identity));
}

#[test]
fn permissive_policy_accepts_dangling_links() {
    let r = create_commit(
        Some(addr("agent")),
        &Policy::permissive(),
        &no_context(),
        addr("C"),
        "init".to_string(),
        addr("missing"),
        vec![addr("also-missing")],
    );
    assert_eq!(
        r,
        Ok(Entry::Commit(Commit::new(
            addr("C"),
            addr("agent"),
            "init".to_string(),
            addr("missing"),
            vec![addr("also-missing")]
        )))
    );
}

#[test]
fn linked_policy_refuses_missing_content() {
    let r = create_commit(
        Some(addr("agent")),
        &Policy::linked(),
        &no_context(),
        addr("C"),
        "init".to_string(),
        addr("missing"),
        vec![],
    );
    assert_eq!(r, Err(VcError::Validation));
}

#[test]
fn linked_policy_refuses_parent_that_is_not_a_commit() {
    let ctx = ValidationContext {
        content: Some(EntryKind::Tree),
        parents: vec![Some(EntryKind::Commit), Some(EntryKind::Blob)],
    };
    let c = Commit::new(addr("C"), addr("agent"), "m".to_string(), addr("T"), vec![addr("parent-a"), addr("parent-b")]);
    assert!(!Policy::linked().accepts(&c, &ctx));
    assert!(Policy::permissive().accepts(&c, &ctx));
    let short = ValidationContext { content: Some(EntryKind::Tree), parents: vec![Some(EntryKind::Commit)] };
    assert!(!Policy::linked().accepts(&c, &short));
}

#[test]
fn linked_policy_accepts_resolved_links() {
    let ctx = ValidationContext {
        content: Some(EntryKind::Blob),
        parents: vec![Some(EntryKind::Commit)],
    };
    let r = create_commit(
        Some(addr("agent")),
        &Policy::linked(),
        &ctx,
        addr("C"),
        "second".to_string(),
        addr("B1"),
        vec![addr("A1")],
    );
    assert!(matches!(r, Ok(Entry::Commit(_))));
    assert_eq!(Policy::linked().required_context(), ValidationPackage::ChainFull);
}

#[test]
fn commit_info_of_a_blob_is_a_decode_error() {
    let r = handle_get_commit_info(Some(Entry::Blob(Blob::new(vec![1]))));
    assert_eq!(r, Err(VcError::Serialization));
    assert_eq!(
        handle_get_commit_content(Some(Entry::Tree(Tree::new()))),
        ContentLookup::Done(Err(VcError::Serialization))
    );
}

#[test]
fn content_that_is_a_commit_is_a_decode_error() {
    let c = Commit::new(addr("C"), addr("agent"), "m".to_string(), addr("B"), vec![]);
    assert_eq!(finish_commit_content(Some(Entry::Commit(c))), Err(VcError::Serialization));
}

#[test]
fn missing_content_resolves_to_nothing() {
    let mut store = Store::new();
    let a = commit_in(&mut store, "dangling", &addr("nowhere"), vec![]);
    assert_eq!(
        handle_get_commit_content(store.get(&a)),
        ContentLookup::Fetch(addr("nowhere"))
    );
    assert_eq!(store.commit_content(&a), Ok(None));
}

#[test]
fn tree_with_repeated_name_is_refused() {
    let e = TreeEntry { name: "f".to_string(), address: addr("x"), kind: ChildKind::Blob };
    let g = TreeEntry { name: "g".to_string(), address: addr("y"), kind: ChildKind::Tree };
    assert_eq!(
        Tree::from_entries(vec![e.clone(), g.clone(), e.clone()]),
        Err(VcError::DuplicateName)
    );
    let t = Tree::from_entries(vec![g.clone(), e.clone()]).unwrap();
    assert_eq!(t.entries(), &vec![g.clone(), e.clone()]);
    assert_eq!(t.get(&"f".to_string()), Some(&e));
    assert_eq!(t.get(&"h".to_string()), None);
    assert!(Tree::new().entries().is_empty());
}

#[test]
fn commit_entry_definition() {
    let d = definition();
    assert_eq!(d.name, "commit");
    assert_eq!(d.description, "a commit object");
    assert_eq!(d.sharing, Sharing::Public);
    assert_eq!(d.validation_package, ValidationPackage::ChainFull);
}

#[test]
fn address_keeps_its_text() {
    let a = addr("QmXyz");
    assert_eq!(a.as_str(), "QmXyz");
    assert_eq!(Entry::Commit(Commit::new(a.clone(), a.clone(), String::new(), a.clone(), vec![])).kind(), EntryKind::Commit);
    assert_eq!(Entry::Blob(Blob::new(vec![])).kind(), EntryKind::Blob);
}

#[test]
fn resolve_tree_reads_the_whole_snapshot() {
    let mut store = Store::new();
    let readme = store.put(Entry::Blob(Blob::new(b"read me".to_vec())));
    let inner = Tree::from_entries(vec![TreeEntry {
        name: "lib.rs".to_string(),
        address: store.put(Entry::Blob(Blob::new(b"fn f() {}".to_vec()))),
        kind: ChildKind::Blob,
    }])
    .unwrap();
    let src = store.put(Entry::Tree(inner));
    let root = Tree::from_entries(vec![
        TreeEntry { name: "README".to_string(), address: readme, kind: ChildKind::Blob },
        TreeEntry { name: "src".to_string(), address: src, kind: ChildKind::Tree },
        TreeEntry { name: "gone".to_string(), address: addr("nowhere"), kind: ChildKind::Blob },
    ])
    .unwrap();
    let r = store.put(Entry::Tree(root));
    let get = |a: &Address| store.get(a);
    let expected = Materialized::Dir(vec![
        MaterializedChild { name: "README".to_string(), node: Materialized::File(Blob::new(b"read me".to_vec())) },
        MaterializedChild {
            name: "src".to_string(),
            node: Materialized::Dir(vec![MaterializedChild {
                name: "lib.rs".to_string(),
                node: Materialized::File(Blob::new(b"fn f() {}".to_vec())),
            }]),
        },
        MaterializedChild { name: "gone".to_string(), node: Materialized::Missing },
    ]);
    assert_eq!(resolve_tree(&get, &r, 10), expected);
    let shallow = resolve_tree(&get, &r, 2);
    match shallow {
        Materialized::Dir(cs) => {
            assert_eq!(cs[1].node, Materialized::Dir(vec![MaterializedChild {
                name: "lib.rs".to_string(),
                node: Materialized::Truncated,
            }]));
        }
        other => panic!("expected a tree, got {:?}", other),
    }
    assert_eq!(resolve_tree(&get, &r, 0), Materialized::Truncated);
}

#[test]
fn resolve_tree_marks_a_commit_in_content_position() {
    let mut store = Store::new();
    let b = store.put(Entry::Blob(Blob::new(b"hello".to_vec())));
    let a = commit_in(&mut store, "init", &b, vec![]);
    let get = |x: &Address| store.get(x);
    assert_eq!(resolve_tree(&get, &a, 5), Materialized::NotContent);
    assert_eq!(resolve_tree(&get, &addr("nowhere"), 5), Materialized::Missing);
}

#[test]
fn linked_policy_refuses_unstored_parent() {
    let mut store = Store::new();
    let b1 = store.put(Entry::Blob(Blob::new(b"hello".to_vec())));
    let a1 = commit_in(&mut store, "init", &b1, vec![]);
    let kind_at = |a: &Address| store.get(a).map(|e| e.kind());
    let future = addr("not-yet-published");
    let ctx = ValidationContext { content: kind_at(&b1), parents: vec![kind_at(&a1), kind_at(&future)] };
    let r = create_commit(
        Some(addr("agent")),
        &Policy::linked(),
        &ctx,
        addr("C"),
        "second".to_string(),
        b1.clone(),
        vec![a1.clone(), future],
    );
    assert_eq!(r, Err(VcError::Validation));
    let ok_ctx = ValidationContext { content: kind_at(&b1), parents: vec![kind_at(&a1)] };
    let r = create_commit(
        Some(addr("agent")),
        &Policy::linked(),
        &ok_ctx,
        addr("C"),
        "second".to_string(),
        b1,
        vec![a1],
    );
    assert!(r.is_ok());
}
