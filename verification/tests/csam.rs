use std::path::PathBuf;

use chasam::csam::filter::on_filter;
use chasam::csam::toolbar::ToolbarOutput;
use chasam::csam::zoom::next_thumbnail_size;
use chasam::csam::{
    search_output, searchbar_input, toolbar_input, CsamAction, CsamCommandOutput, CsamInput,
    CsamModel, SearchState, SELECT_ALL_COUNT,
};
use chasam::models::{Media, MediaFilter, THUMBNAIL_SIZE, ZOOM_LIMIT, ZOOM_SIZE};
use chasam::searchbar::SearchBarOutput;

fn media(name: &str, size: u64) -> Media {
    Media { name: name.to_string(), size, thumbnail_size: THUMBNAIL_SIZE, is_selected: false }
}

fn all_sizes() -> MediaFilter {
    MediaFilter {
        search_entry: None,
        size_0: true,
        size_30: true,
        size_100: true,
        size_500: true,
        size_greater_500: true,
    }
}

fn add(model: &mut CsamModel, m: Media) {
    let action = model.update_cmd(CsamCommandOutput::AddMedia(Ok(m)));
    assert!(matches!(action, CsamAction::AppendMedia));
}

#[test]
fn filter_query_ignores_case() {
    let mut f = all_sizes();
    f.search_entry = Some("CAT".to_string());
    assert!(on_filter(&f, &media("my_cat.png", 10)));
    assert!(on_filter(&f, &media("Cats.JPG", 10)));
    assert!(!on_filter(&f, &media("dog.png", 10)));
}

#[test]
fn filter_query_unicode_case() {
    let mut f = all_sizes();
    f.search_entry = Some("ÉTÉ".to_string());
    assert!(on_filter(&f, &media("photo_été.jpg", 10)));
    assert!(!on_filter(&f, &media("photo_ete.jpg", 10)));
}

#[test]
fn filter_empty_query_shows_all_names() {
    let mut f = all_sizes();
    f.search_entry = Some(String::new());
    assert!(on_filter(&f, &media("anything", 10)));
}

#[test]
fn filter_size_class_boundaries() {
    let cases: [(u64, usize); 8] =
        [(0, 0), (1, 1), (30, 1), (31, 2), (100, 2), (101, 3), (500, 3), (501, 4)];
    for (size, class) in cases {
        for off in 0..5usize {
            let mut f = all_sizes();
            match off {
                0 => f.size_0 = false,
                1 => f.size_30 = false,
                2 => f.size_100 = false,
                3 => f.size_500 = false,
                _ => f.size_greater_500 = false,
            }
            assert_eq!(on_filter(&f, &media("m", size)), off != class, "size {} off {}", size, off);
        }
    }
}

#[test]
fn filter_size_hides_even_when_name_matches() {
    let mut f = all_sizes();
    f.search_entry = Some("m".to_string());
    f.size_100 = false;
    assert!(!on_filter(&f, &media("m", 50)));
    assert!(on_filter(&f, &media("m", 20)));
}

#[test]
fn default_filter_hides_everything() {
    let f = MediaFilter::default();
    assert!(f.search_entry.is_none());
    for size in [0u64, 10, 50, 200, 1000] {
        assert!(!on_filter(&f, &media("m", size)));
    }
}

#[test]
fn zoom_steps() {
    assert_eq!(next_thumbnail_size(THUMBNAIL_SIZE, true), THUMBNAIL_SIZE + ZOOM_SIZE);
    assert_eq!(next_thumbnail_size(THUMBNAIL_SIZE, false), THUMBNAIL_SIZE);
    assert_eq!(next_thumbnail_size(ZOOM_LIMIT, true), ZOOM_LIMIT);
    assert_eq!(next_thumbnail_size(ZOOM_LIMIT - 1, true), ZOOM_LIMIT - 1 + ZOOM_SIZE);
    assert_eq!(next_thumbnail_size(THUMBNAIL_SIZE + 1, false), THUMBNAIL_SIZE);
    assert_eq!(next_thumbnail_size(200, false), 160);
    assert_eq!(next_thumbnail_size(200, true), 240);
}

#[test]
fn zoom_in_then_out_restores() {
    let mut size = THUMBNAIL_SIZE;
    while size < ZOOM_LIMIT {
        assert_eq!(next_thumbnail_size(next_thumbnail_size(size, true), false), size);
        size = next_thumbnail_size(size, true);
    }
    assert_eq!(size, ZOOM_LIMIT);
}

#[test]
fn new_model_is_empty_and_unfiltered() {
    let model = CsamModel::new();
    assert_eq!(model.len(), 0);
    assert!(!model.is_filter_active());
    assert_eq!(model.thumbnail_size(), THUMBNAIL_SIZE);
    assert!(model.get(0).is_none());
}

#[test]
fn zoom_resizes_every_cell() {
    let mut model = CsamModel::new();
    add(&mut model, media("a", 1));
    add(&mut model, media("b", 2));
    let action = model.update_with_view(CsamInput::ZoomIn);
    assert!(matches!(action, CsamAction::ResizeThumbnails(200)));
    assert_eq!(model.thumbnail_size(), 200);
    assert_eq!(model.get(0).unwrap().thumbnail_size, 200);
    assert_eq!(model.get(1).unwrap().thumbnail_size, 200);
    let action = model.update_with_view(CsamInput::ZoomOut);
    assert!(matches!(action, CsamAction::ResizeThumbnails(160)));
    assert_eq!(model.get(1).unwrap().thumbnail_size, 160);
    let action = model.update_with_view(CsamInput::ZoomOut);
    assert!(matches!(action, CsamAction::ResizeThumbnails(160)));
    assert_eq!(model.thumbnail_size(), 160);
}

#[test]
fn zoom_stops_at_limit() {
    let mut model = CsamModel::new();
    for _ in 0..10 {
        model.update_with_view(CsamInput::ZoomIn);
    }
    assert_eq!(model.thumbnail_size(), ZOOM_LIMIT);
}

#[test]
fn start_search_clears_grid() {
    let mut model = CsamModel::new();
    add(&mut model, media("a", 1));
    let action = model.update_with_view(CsamInput::StartSearch(PathBuf::from("/photos")));
    match action {
        CsamAction::Search(path) => assert_eq!(path, PathBuf::from("/photos")),
        other => panic!("unexpected {:?}", other),
    }
    assert_eq!(model.len(), 0);
}

#[test]
fn added_media_keeps_its_own_edge_and_tick() {
    let mut model = CsamModel::new();
    model.update_with_view(CsamInput::ZoomIn);
    let mut m = media("a", 1);
    m.is_selected = true;
    add(&mut model, m);
    let item = model.get(0).unwrap();
    assert_eq!(item.thumbnail_size, THUMBNAIL_SIZE);
    assert!(item.active);
    assert_eq!(item.media.name, "a");
}

#[test]
fn search_error_is_reported() {
    let mut model = CsamModel::new();
    let action = model.update_cmd(CsamCommandOutput::AddMedia(Err(anyhow::Error::msg("boom"))));
    match action {
        CsamAction::ReportError(e) => assert_eq!(e.to_string(), "boom"),
        other => panic!("unexpected {:?}", other),
    }
    assert_eq!(model.len(), 0);
}

#[test]
fn search_reports_are_shown() {
    let mut model = CsamModel::new();
    assert!(matches!(model.update_cmd(CsamCommandOutput::SearchCompleted), CsamAction::ShowSearchCompleted));
    assert!(matches!(model.update_cmd(CsamCommandOutput::MediaFound(7)), CsamAction::ShowMediaFound(7)));
    assert!(matches!(model.update_with_view(CsamInput::SearchCompleted(3)), CsamAction::ShowSearchCount(3)));
}

#[test]
fn filter_messages_edit_filter_and_activate_it() {
    let mut model = CsamModel::new();
    assert!(matches!(model.update_with_view(CsamInput::SizeFilter30KB(true)), CsamAction::Refilter));
    assert!(model.is_filter_active());
    assert!(model.media_filter().size_30);
    assert!(!model.media_filter().size_0);
    model.update_with_view(CsamInput::SizeFilter0KB(true));
    model.update_with_view(CsamInput::SizeFilter100KB(true));
    model.update_with_view(CsamInput::SizeFilter500KB(true));
    model.update_with_view(CsamInput::SizeFilterA500KB(true));
    model.update_with_view(CsamInput::SizeFilter30KB(false));
    let f = model.media_filter();
    assert!(f.size_0 && !f.size_30 && f.size_100 && f.size_500 && f.size_greater_500);
    model.update_with_view(CsamInput::SearchEntry("x".to_string()));
    assert_eq!(model.media_filter().search_entry.as_deref(), Some("x"));
}

#[test]
fn select_media_shows_name_or_nothing() {
    let mut model = CsamModel::new();
    add(&mut model, media("first", 1));
    match model.update_with_view(CsamInput::MediaListSelect(0)) {
        CsamAction::ShowSelected(name) => assert_eq!(name, "first"),
        other => panic!("unexpected {:?}", other),
    }
    assert!(matches!(model.update_with_view(CsamInput::MediaListSelect(1)), CsamAction::Idle));
}

#[test]
fn notify_is_shown() {
    let mut model = CsamModel::new();
    match model.update_with_view(CsamInput::Notify("hi".to_string(), 3)) {
        CsamAction::ShowNotice(msg, t) => {
            assert_eq!(msg, "hi");
            assert_eq!(t, 3);
        }
        other => panic!("unexpected {:?}", other),
    }
}

#[test]
fn select_all_ticks_first_entries() {
    let mut model = CsamModel::new();
    let n = SELECT_ALL_COUNT as usize + 2;
    for i in 0..n {
        add(&mut model, media(&format!("m{}", i), 1));
    }
    assert!(matches!(model.update_with_view(CsamInput::SelectAllMedias(true)), CsamAction::SelectMedias(true)));
    for i in 0..n {
        assert_eq!(model.get(i as u32).unwrap().active, i < SELECT_ALL_COUNT as usize);
    }
    model.update_with_view(CsamInput::SelectAllMedias(false));
    assert!(!model.get(0).unwrap().active);
}

#[test]
fn outputs_map_to_inputs() {
    assert!(matches!(toolbar_input(ToolbarOutput::ZoomIn), CsamInput::ZoomIn));
    assert!(matches!(toolbar_input(ToolbarOutput::ZoomOut), CsamInput::ZoomOut));
    assert!(matches!(toolbar_input(ToolbarOutput::SelectAll(true)), CsamInput::SelectAllMedias(true)));
    assert!(matches!(toolbar_input(ToolbarOutput::SizeFilterGreater500KB(false)), CsamInput::SizeFilterA500KB(false)));
    assert!(matches!(toolbar_input(ToolbarOutput::SizeFilter0KB(true)), CsamInput::SizeFilter0KB(true)));
    match toolbar_input(ToolbarOutput::SearchEntry("q".to_string())) {
        CsamInput::SearchEntry(q) => assert_eq!(q, "q"),
        other => panic!("unexpected {:?}", other),
    }
    assert!(searchbar_input(SearchBarOutput::StopSearch).is_none());
    assert!(matches!(searchbar_input(SearchBarOutput::StartSearch(PathBuf::from("/p"))), Some(CsamInput::StartSearch(_))));
    assert!(matches!(searchbar_input(SearchBarOutput::Notify("n".to_string(), 2)), Some(CsamInput::Notify(_, 2))));
}

#[test]
fn search_states_map_to_reports() {
    assert!(matches!(search_output(SearchState::Completed), CsamCommandOutput::SearchCompleted));
    assert!(matches!(search_output(SearchState::Found(4)), CsamCommandOutput::MediaFound(4)));
    assert!(matches!(search_output(SearchState::Read(media("a", 1))), CsamCommandOutput::AddMedia(Ok(_))));
    assert!(matches!(
        search_output(SearchState::Failed(anyhow::Error::msg("e"))),
        CsamCommandOutput::AddMedia(Err(_))
    ));
}

#[test]
fn grid_holds_read_media_in_order() {
    let mut model = CsamModel::new();
    add(&mut model, media("old", 1));
    model.update_with_view(CsamInput::StartSearch(PathBuf::from("/photos")));
    add(&mut model, media("one", 1));
    model.update_with_view(CsamInput::ZoomIn);
    model.update_cmd(CsamCommandOutput::AddMedia(Err(anyhow::Error::msg("unreadable"))));
    add(&mut model, media("two", 2));
    model.update_with_view(CsamInput::SizeFilter30KB(true));
    model.update_cmd(CsamCommandOutput::MediaFound(2));
    add(&mut model, media("three", 3));
    let names: Vec<String> = (0..model.len() as u32).map(|i| model.get(i).unwrap().media.name.clone()).collect();
    assert_eq!(names, vec!["one", "two", "three"]);
}
