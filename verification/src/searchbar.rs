//! The messages of the search bar that sits in the header of each page.
use vstd::prelude::*;

use std::path::PathBuf;

verus! {

/// What the search bar reports to its page.
#[derive(Debug)]
pub enum SearchBarOutput {
    /// The user asked to search the folder at this path.
    StartSearch(PathBuf),
    /// The user asked to stop the running search.
    StopSearch,
    /// A notice to show, with its timeout in seconds.
    Notify(String, u32),
}

/// What a page tells the search bar.
#[derive(Debug, PartialEq, Eq, Structural)]
pub enum SearchBarInput {
    /// The search it started has finished.
    SearchCompleted,
}

} // verus!
