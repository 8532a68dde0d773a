//! A cell of the media flow box: it shows one media and reports its check button.
use vstd::prelude::*;

use crate::models::{Media, THUMBNAIL_SIZE};

verus! {

/// Extra height, in pixels, that the placeholder of a loading cell takes below
/// the thumbnail, for the name label.
pub const LABEL_HEIGHT: i32 = 14;

/// The state of a cell.
pub struct MediaModel {
    pub media: Media,
    /// Position of the cell in its flow box.
    pub index: usize,
}

/// A message to a cell.
#[derive(Debug, PartialEq, Eq, Structural)]
pub enum MediaInput {
    /// The check button was toggled to this state.
    Selected(bool),
    /// Show the thumbnail at this edge.
    ZoomIn(i32),
    /// Show the thumbnail at this edge.
    ZoomOut(i32),
}

/// What a cell reports to its parent.
#[derive(Debug, PartialEq, Eq, Structural)]
pub enum MediaOutput {
    Selected(bool),
}

impl MediaModel {
    /// Width and height of the placeholder shown while a cell loads.
    pub fn init_loading_widgets() -> (size: (i32, i32))
        ensures
            size.0 == THUMBNAIL_SIZE,
            size.1 == THUMBNAIL_SIZE + LABEL_HEIGHT,
    {
        (THUMBNAIL_SIZE, THUMBNAIL_SIZE + LABEL_HEIGHT)
    }

    /// The cell for `media` at position `index`.
    pub fn init_model(media: Media, index: usize) -> (model: MediaModel)
        ensures
            model.media == media,
            model.index == index,
    {
        MediaModel { media, index }
    }

    /// Handles a message: a toggle records the new state and is reported to the
    /// parent; a zoom sets the thumbnail edge. Nothing else changes.
    pub fn update(&mut self, message: MediaInput) -> (output: Option<MediaOutput>)
        ensures
            final(self).index == old(self).index,
            final(self).media.name == old(self).media.name,
            final(self).media.size == old(self).media.size,
            match message {
                MediaInput::Selected(is_selected) => {
                    &&& final(self).media.is_selected == is_selected
                    &&& final(self).media.thumbnail_size == old(self).media.thumbnail_size
                    &&& output == Some(MediaOutput::Selected(is_selected))
                },
                MediaInput::ZoomIn(size) | MediaInput::ZoomOut(size) => {
                    &&& final(self).media.is_selected == old(self).media.is_selected
                    &&& final(self).media.thumbnail_size == size
                    &&& output == None::<MediaOutput>
                },
            },
    {
        match message {
            MediaInput::Selected(is_selected) => {
                self.media.is_selected = is_selected;
                Some(MediaOutput::Selected(is_selected))
            },
            MediaInput::ZoomIn(size) => {
                self.media.thumbnail_size = size;
                None
            },
            MediaInput::ZoomOut(size) => {
                self.media.thumbnail_size = size;
                None
            },
        }
    }
}

} // verus!
