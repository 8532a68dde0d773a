//! The values that the views show: a media file and the filter over the media list.
use vstd::prelude::*;

verus! {

/// Edge, in pixels, of a thumbnail at the smallest zoom; also the size every
/// media item starts with.
pub const THUMBNAIL_SIZE: i32 = 160;

/// How many pixels one zoom step adds to or takes from a thumbnail's edge.
pub const ZOOM_SIZE: i32 = 40;

/// Zooming in is possible only while the thumbnail edge is below this size.
pub const ZOOM_LIMIT: i32 = 320;

/// A media file found by a search.
#[derive(Clone, Debug)]
pub struct Media {
    /// File name, shown under the thumbnail and matched by the search entry.
    pub name: String,
    /// Size of the file, in kilobytes.
    pub size: u64,
    /// Edge of the thumbnail, in pixels.
    pub thumbnail_size: i32,
    /// Whether the user ticked this media.
    pub is_selected: bool,
}

/// The filter that the toolbar edits: an optional name query and one switch per
/// size class, each saying whether media of that class are shown.
#[derive(Clone, Debug)]
pub struct MediaFilter {
    pub search_entry: Option<String>,
    /// Empty files.
    pub size_0: bool,
    /// Above 0 and up to 30 KB.
    pub size_30: bool,
    /// Above 30 and up to 100 KB.
    pub size_100: bool,
    /// Above 100 and up to 500 KB.
    pub size_500: bool,
    /// Above 500 KB.
    pub size_greater_500: bool,
}

/// The filter a model starts with: no query and every size class switched off.
pub open spec fn default_filter() -> MediaFilter {
    MediaFilter {
        search_entry: None,
        size_0: false,
        size_30: false,
        size_100: false,
        size_500: false,
        size_greater_500: false,
    }
}

impl Default for MediaFilter {
    fn default() -> (f: MediaFilter)
        ensures
            f == default_filter(),
    {
        MediaFilter {
            search_entry: None,
            size_0: false,
            size_30: false,
            size_100: false,
            size_500: false,
            size_greater_500: false,
        }
    }
}

} // verus!
