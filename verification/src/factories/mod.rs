pub mod media;
pub mod media_item;
