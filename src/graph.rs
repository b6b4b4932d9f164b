use vstd::prelude::*;
use crate::model::{Address, Commit, CommitContent, Entry, VcError};
use crate::policy::{Policy, ValidationContext};

verus! {

/// The entry that publishing a commit stores, or why nothing is stored.
pub open spec fn create_commit_spec(
    author: Option<Address>,
    policy: Policy,
    fetched: ValidationContext,
    context_address: Address,
    message: String,
    content_address: Address,
    parent_commits: Vec<Address>,
) -> Result<Entry, VcError> {
    match author {
        None => Err(VcError::Identity),
        Some(author_address) => {
            let c = Commit {
                context_address,
                author_address,
                message,
                content_address,
                parent_commits_addresses: parent_commits,
            };
            if policy.accepts_spec(c, fetched) {
                Ok(Entry::Commit(c))
            } else {
                Err(VcError::Validation)
            }
        },
    }
}

/// Builds the commit entry to publish in `context_address`, authored by the
/// calling identity `author`, and submits it to `policy` with what was
/// fetched for it. The caller stores the returned entry; the store gives
/// back its address.
pub fn create_commit(
    author: Option<Address>,
    policy: &Policy,
    fetched: &ValidationContext,
    context_address: Address,
    message: String,
    content_address: Address,
    parent_commits: Vec<Address>,
) -> (r: Result<Entry, VcError>)
    ensures
        r == create_commit_spec(
            author,
            *policy,
            *fetched,
            context_address,
            message,
            content_address,
            parent_commits,
        ),
{
    let author_address = match author {
        Some(a) => a,
        None => {
            return Err(VcError::Identity);
        },
    };
    let c = Commit::new(context_address, author_address, message, content_address, parent_commits);
    if policy.accepts(&c, fetched) {
        Ok(Entry::Commit(c))
    } else {
        Err(VcError::Validation)
    }
}

/// A commit's metadata, from what the store returned for its address.
pub open spec fn commit_info_spec(fetched: Option<Entry>) -> Result<Option<Commit>, VcError> {
    match fetched {
        None => Ok(None),
        Some(Entry::Commit(c)) => Ok(Some(c)),
        Some(_) => Err(VcError::Serialization),
    }
}

/// Reads a commit's metadata out of what the store returned for its address:
/// nothing when nothing is stored there, an error when the entry there is not
/// a commit.
pub fn handle_get_commit_info(fetched: Option<Entry>) -> (r: Result<Option<Commit>, VcError>)
    ensures
        r == commit_info_spec(fetched),
{
    match fetched {
        None => Ok(None),
        Some(Entry::Commit(c)) => Ok(Some(c)),
        Some(_) => Err(VcError::Serialization),
    }
}

/// The state of resolving a commit's content: the next address to look up,
/// or the answer.
#[derive(Debug, PartialEq, Eq)]
pub enum ContentLookup {
    Fetch(Address),
    Done(Result<Option<CommitContent>, VcError>),
}

/// The first hop of content resolution.
pub open spec fn content_lookup_spec(commit_entry: Option<Entry>) -> ContentLookup {
    match commit_info_spec(commit_entry) {
        Ok(Some(c)) => ContentLookup::Fetch(c.content_address),
        Ok(None) => ContentLookup::Done(Ok(None)),
        Err(e) => ContentLookup::Done(Err(e)),
    }
}

/// First hop of resolving a commit's content, from what the store returned
/// for the commit's address: the content address to look up next, or the
/// answer when there is no commit there.
pub fn handle_get_commit_content(commit_entry: Option<Entry>) -> (r: ContentLookup)
    ensures
        r == content_lookup_spec(commit_entry),
{
    match handle_get_commit_info(commit_entry) {
        Ok(Some(c)) => ContentLookup::Fetch(c.content_address),
        Ok(None) => ContentLookup::Done(Ok(None)),
        Err(e) => ContentLookup::Done(Err(e)),
    }
}

/// The second hop of content resolution.
pub open spec fn content_spec(content_entry: Option<Entry>) -> Result<Option<CommitContent>, VcError> {
    match content_entry {
        None => Ok(None),
        Some(Entry::Blob(b)) => Ok(Some(CommitContent::ContentBlob(b))),
        Some(Entry::Tree(t)) => Ok(Some(CommitContent::ContentTree(t))),
        Some(Entry::Commit(_)) => Err(VcError::Serialization),
    }
}

/// Second hop of resolving a commit's content, from what the store returned
/// for the content address: the blob or tree stored there, nothing when
/// nothing is, an error when a commit is. A tree's children are not visited.
pub fn finish_commit_content(content_entry: Option<Entry>) -> (r: Result<Option<CommitContent>, VcError>)
    ensures
        r == content_spec(content_entry),
{
    match content_entry {
        None => Ok(None),
        Some(Entry::Blob(b)) => Ok(Some(CommitContent::ContentBlob(b))),
        Some(Entry::Tree(t)) => Ok(Some(CommitContent::ContentTree(t))),
        Some(Entry::Commit(_)) => Err(VcError::Serialization),
    }
}

} // verus!
