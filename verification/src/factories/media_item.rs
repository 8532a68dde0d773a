//! An entry of the media grid.
use vstd::prelude::*;

use crate::models::Media;

verus! {

/// A media in the grid, with the check state and thumbnail edge its cell shows.
#[derive(Clone, Debug)]
pub struct MediaItem {
    pub media: Media,
    /// Whether the cell's check button is ticked.
    pub active: bool,
    /// Edge, in pixels, of the cell's thumbnail.
    pub thumbnail_size: i32,
}

/// The grid entry for a media that was just found.
pub open spec fn new_item(media: Media) -> MediaItem {
    MediaItem { media, active: media.is_selected, thumbnail_size: media.thumbnail_size }
}

impl MediaItem {
    /// A grid entry showing `media` as it is: ticked if the media is selected,
    /// at the media's thumbnail edge.
    pub fn new(media: Media) -> (item: MediaItem)
        ensures
            item == new_item(media),
    {
        let active = media.is_selected;
        let thumbnail_size = media.thumbnail_size;
        MediaItem { media, active, thumbnail_size }
    }
}

} // verus!
