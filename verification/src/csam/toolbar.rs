//! The messages of the toolbar above the media grid.
use vstd::prelude::*;

verus! {

/// What the toolbar reports to the page.
#[derive(Debug)]
pub enum ToolbarOutput {
    ZoomIn,
    ZoomOut,
    /// Tick or untick the media of the grid.
    SelectAll(bool),
    /// The text of the name query.
    SearchEntry(String),
    SizeFilter0KB(bool),
    SizeFilter30KB(bool),
    SizeFilter100KB(bool),
    SizeFilter500KB(bool),
    SizeFilterGreater500KB(bool),
}

} // verus!
