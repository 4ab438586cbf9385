//! Checks how dated the dependencies pinned in an Ivy manifest are.
//!
//! The crate holds the rules of the check: how manifest entries become
//! dependencies, how registry documents become versions, how the registry is
//! queried, and how a pinned version is judged against the latest one.
//! Reading files and talking to the registry is left to the caller.

pub mod order;
pub mod parse;
pub mod resolve;
pub mod run;
pub mod text;
pub mod verdict;
