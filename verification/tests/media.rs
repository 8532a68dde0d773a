use chasam::factories::media::{MediaInput, MediaModel, MediaOutput, LABEL_HEIGHT};
use chasam::factories::media_item::MediaItem;
use chasam::models::{Media, THUMBNAIL_SIZE};

fn media() -> Media {
    Media { name: "clip.mp4".to_string(), size: 42, thumbnail_size: THUMBNAIL_SIZE, is_selected: false }
}

#[test]
fn media_cell_updates() {
    let mut cell = MediaModel::init_model(media(), 3);
    assert_eq!(cell.index, 3);
    assert_eq!(cell.update(MediaInput::Selected(true)), Some(MediaOutput::Selected(true)));
    assert!(cell.media.is_selected);
    assert_eq!(cell.update(MediaInput::ZoomIn(200)), None);
    assert_eq!(cell.media.thumbnail_size, 200);
    assert!(cell.media.is_selected);
    assert_eq!(cell.update(MediaInput::ZoomOut(160)), None);
    assert_eq!(cell.media.thumbnail_size, 160);
    assert_eq!(cell.update(MediaInput::Selected(false)), Some(MediaOutput::Selected(false)));
    assert!(!cell.media.is_selected);
    assert_eq!(cell.media.name, "clip.mp4");
}

#[test]
fn loading_placeholder_size() {
    assert_eq!(MediaModel::init_loading_widgets(), (THUMBNAIL_SIZE, THUMBNAIL_SIZE + LABEL_HEIGHT));
}

#[test]
fn media_item_follows_media() {
    let mut m = media();
    m.is_selected = true;
    m.thumbnail_size = 240;
    let item = MediaItem::new(m);
    assert!(item.active);
    assert_eq!(item.thumbnail_size, 240);
}
