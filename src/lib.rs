//! Object model and commit-graph logic of a content-addressed version-control
//! history: blobs, trees and commits, the publication policy that gates
//! commits, and the decisions behind creating and resolving commits.
//!
//! The content store itself is not part of this crate: callers perform the
//! `put` / `get` round trips and hand the results to the functions here, or,
//! for reading a whole snapshot, hand over the `get` operation itself.

pub mod model;
pub mod policy;
pub mod graph;
pub mod laws;
pub mod resolve;
