//! The page that searches a folder for media and shows them in a filtered,
//! zoomable grid: its state, and what it does with each message.
use vstd::prelude::*;

use std::path::PathBuf;

pub mod filter;
pub mod toolbar;
pub mod zoom;

use crate::factories::media_item::{new_item, MediaItem};
use crate::models::{default_filter, Media, MediaFilter, THUMBNAIL_SIZE};
use crate::searchbar::SearchBarOutput;
use filter::{with_class, SizeClass};
use toolbar::ToolbarOutput;
use zoom::{next_thumbnail_size, size_in_range, zoomed};

verus! {

/// How many grid entries "select all" ticks or unticks, from the first one on.
pub const SELECT_ALL_COUNT: u32 = 160;

/// A message to the page.
#[derive(Debug)]
pub enum CsamInput {
    /// Search the folder at this path.
    StartSearch(PathBuf),
    SearchCompleted(usize),
    ZoomIn,
    ZoomOut,
    SelectAllMedias(bool),
    SizeFilter0KB(bool),
    SizeFilter30KB(bool),
    SizeFilter100KB(bool),
    SizeFilter500KB(bool),
    SizeFilterA500KB(bool),
    SearchEntry(String),
    /// The grid entry at this position was activated.
    MediaListSelect(u32),
    /// A notice to show, with its timeout in seconds.
    Notify(String, u32),
}

/// A report of the running search.
#[derive(Debug)]
pub enum CsamCommandOutput {
    SearchCompleted,
    /// A media was read, or reading one failed.
    AddMedia(Result<Media, anyhow::Error>),
    /// How many media the search has found so far.
    MediaFound(usize),
}

/// What the search service sends while it walks a folder.
#[derive(Debug)]
pub enum SearchState {
    Completed,
    Found(usize),
    /// A media that was read.
    Read(Media),
    /// Reading a media failed.
    Failed(anyhow::Error),
}

/// What the page asks of the widgets and of the search service after a message.
#[derive(Debug)]
pub enum CsamAction {
    /// Nothing to do.
    Idle,
    /// The grid was emptied; start the search service on this folder.
    Search(PathBuf),
    /// Set every grid cell's thumbnail to this edge.
    ResizeThumbnails(i32),
    /// Tick (or untick) the first `SELECT_ALL_COUNT` cells.
    SelectMedias(bool),
    /// The filter changed: switch it off and on, so the grid shows what it lets through.
    Refilter,
    /// Print the count that a finished search reported.
    ShowSearchCount(usize),
    /// Print the name of the media that was activated.
    ShowSelected(String),
    /// Print a notice and its timeout.
    ShowNotice(String, u32),
    /// Print that the search has finished.
    ShowSearchCompleted,
    /// Print how many media were found.
    ShowMediaFound(usize),
    /// Add the model's last entry to the grid.
    AppendMedia,
    /// Log this error of the search.
    ReportError(anyhow::Error),
}

/// The state of the page as the contracts see it.
#[verifier::ext_equal]
pub struct CsamView {
    /// Every entry of the grid, shown or not, in order.
    pub items: Seq<MediaItem>,
    pub filter: MediaFilter,
    /// Whether the grid applies `filter`; until then it shows every entry.
    pub filter_active: bool,
    /// The edge of the thumbnails at the current zoom.
    pub thumbnail_size: int,
}

/// The state of the page.
pub struct CsamModel {
    media_list: Vec<MediaItem>,
    media_list_filter: MediaFilter,
    filter_active: bool,
    thumbnail_size: i32,
}

impl View for CsamModel {
    type V = CsamView;

    closed spec fn view(&self) -> CsamView {
        CsamView {
            items: self.media_list@,
            filter: self.media_list_filter,
            filter_active: self.filter_active,
            thumbnail_size: self.thumbnail_size as int,
        }
    }
}

/// `items` with every thumbnail at edge `size`.
pub open spec fn resized(items: Seq<MediaItem>, size: i32) -> Seq<MediaItem> {
    Seq::new(items.len(), |i: int| MediaItem { thumbnail_size: size, ..items[i] })
}

/// `items` with the first `count` entries ticked (`on`) or unticked.
pub open spec fn selected_first(items: Seq<MediaItem>, count: int, on: bool) -> Seq<MediaItem> {
    Seq::new(items.len(), |i: int| if i < count { MediaItem { active: on, ..items[i] } } else { items[i] })
}

/// One zoom step: every thumbnail takes the new edge.
pub open spec fn zoom_step(v: CsamView, is_zoom_in: bool) -> (CsamView, CsamAction) {
    let size = zoomed(v.thumbnail_size, is_zoom_in);
    (
        CsamView { items: resized(v.items, size as i32), thumbnail_size: size, ..v },
        CsamAction::ResizeThumbnails(size as i32),
    )
}

/// A filter edit: the grid takes `filter` and applies it from now on.
pub open spec fn filter_step(v: CsamView, filter: MediaFilter) -> (CsamView, CsamAction) {
    (CsamView { filter, filter_active: true, ..v }, CsamAction::Refilter)
}

/// What the page does with an input: its next state and the action it asks for.
pub open spec fn input_step(v: CsamView, msg: CsamInput) -> (CsamView, CsamAction) {
    match msg {
        CsamInput::ZoomIn => zoom_step(v, true),
        CsamInput::ZoomOut => zoom_step(v, false),
        CsamInput::StartSearch(path) => (CsamView { items: Seq::empty(), ..v }, CsamAction::Search(path)),
        CsamInput::SearchCompleted(count) => (v, CsamAction::ShowSearchCount(count)),
        CsamInput::SelectAllMedias(on) => (
            CsamView { items: selected_first(v.items, SELECT_ALL_COUNT as int, on), ..v },
            CsamAction::SelectMedias(on),
        ),
        CsamInput::SearchEntry(query) => filter_step(v, MediaFilter { search_entry: Some(query), ..v.filter }),
        CsamInput::SizeFilter0KB(on) => filter_step(v, with_class(v.filter, SizeClass::Empty, on)),
        CsamInput::SizeFilter30KB(on) => filter_step(v, with_class(v.filter, SizeClass::UpTo30, on)),
        CsamInput::SizeFilter100KB(on) => filter_step(v, with_class(v.filter, SizeClass::UpTo100, on)),
        CsamInput::SizeFilter500KB(on) => filter_step(v, with_class(v.filter, SizeClass::UpTo500, on)),
        CsamInput::SizeFilterA500KB(on) => filter_step(v, with_class(v.filter, SizeClass::Over500, on)),
        CsamInput::MediaListSelect(position) => (
            v,
            if position < v.items.len() {
                CsamAction::ShowSelected(v.items[position as int].media.name)
            } else {
                CsamAction::Idle
            },
        ),
        CsamInput::Notify(msg, timeout) => (v, CsamAction::ShowNotice(msg, timeout)),
    }
}

/// What the page does with a report of the search.
pub open spec fn command_step(v: CsamView, msg: CsamCommandOutput) -> (CsamView, CsamAction) {
    match msg {
        CsamCommandOutput::SearchCompleted => (v, CsamAction::ShowSearchCompleted),
        CsamCommandOutput::MediaFound(count) => (v, CsamAction::ShowMediaFound(count)),
        CsamCommandOutput::AddMedia(Ok(media)) => (
            CsamView { items: v.items.push(new_item(media)), ..v },
            CsamAction::AppendMedia,
        ),
        CsamCommandOutput::AddMedia(Err(error)) => (v, CsamAction::ReportError(error)),
    }
}

/// The page's input, if any, for a report of the search bar. The page has no
/// input for a stop request.
pub open spec fn searchbar_message(output: SearchBarOutput) -> Option<CsamInput> {
    match output {
        SearchBarOutput::StartSearch(path) => Some(CsamInput::StartSearch(path)),
        SearchBarOutput::StopSearch => None,
        SearchBarOutput::Notify(msg, timeout) => Some(CsamInput::Notify(msg, timeout)),
    }
}

/// The page's input for a report of the toolbar.
pub open spec fn toolbar_message(output: ToolbarOutput) -> CsamInput {
    match output {
        ToolbarOutput::ZoomIn => CsamInput::ZoomIn,
        ToolbarOutput::ZoomOut => CsamInput::ZoomOut,
        ToolbarOutput::SelectAll(on) => CsamInput::SelectAllMedias(on),
        ToolbarOutput::SearchEntry(query) => CsamInput::SearchEntry(query),
        ToolbarOutput::SizeFilter0KB(on) => CsamInput::SizeFilter0KB(on),
        ToolbarOutput::SizeFilter30KB(on) => CsamInput::SizeFilter30KB(on),
        ToolbarOutput::SizeFilter100KB(on) => CsamInput::SizeFilter100KB(on),
        ToolbarOutput::SizeFilter500KB(on) => CsamInput::SizeFilter500KB(on),
        ToolbarOutput::SizeFilterGreater500KB(on) => CsamInput::SizeFilterA500KB(on),
    }
}

/// The report of the page for a message of the search service.
pub open spec fn search_report(state: SearchState) -> CsamCommandOutput {
    match state {
        SearchState::Completed => CsamCommandOutput::SearchCompleted,
        SearchState::Found(count) => CsamCommandOutput::MediaFound(count),
        SearchState::Read(media) => CsamCommandOutput::AddMedia(Ok(media)),
        SearchState::Failed(error) => CsamCommandOutput::AddMedia(Err(error)),
    }
}

/// The page's input for a report of the search bar.
pub fn searchbar_input(output: SearchBarOutput) -> (msg: Option<CsamInput>)
    ensures
        msg == searchbar_message(output),
{
    match output {
        SearchBarOutput::StartSearch(path) => Some(CsamInput::StartSearch(path)),
        SearchBarOutput::StopSearch => None,
        SearchBarOutput::Notify(msg, timeout) => Some(CsamInput::Notify(msg, timeout)),
    }
}

/// The page's input for a report of the toolbar.
pub fn toolbar_input(output: ToolbarOutput) -> (msg: CsamInput)
    ensures
        msg == toolbar_message(output),
{
    match output {
        ToolbarOutput::ZoomIn => CsamInput::ZoomIn,
        ToolbarOutput::ZoomOut => CsamInput::ZoomOut,
        ToolbarOutput::SelectAll(is_selected) => CsamInput::SelectAllMedias(is_selected),
        ToolbarOutput::SearchEntry(query) => CsamInput::SearchEntry(query),
        ToolbarOutput::SizeFilter0KB(is_active) => CsamInput::SizeFilter0KB(is_active),
        ToolbarOutput::SizeFilter30KB(is_active) => CsamInput::SizeFilter30KB(is_active),
        ToolbarOutput::SizeFilter100KB(is_active) => CsamInput::SizeFilter100KB(is_active),
        ToolbarOutput::SizeFilter500KB(is_active) => CsamInput::SizeFilter500KB(is_active),
        ToolbarOutput::SizeFilterGreater500KB(is_active) => CsamInput::SizeFilterA500KB(is_active),
    }
}

/// The report of the page for a message of the search service.
pub fn search_output(state: SearchState) -> (out: CsamCommandOutput)
    ensures
        out == search_report(state),
{
    match state {
        SearchState::Completed => CsamCommandOutput::SearchCompleted,
        SearchState::Found(count) => CsamCommandOutput::MediaFound(count),
        SearchState::Read(media) => CsamCommandOutput::AddMedia(Ok(media)),
        SearchState::Failed(error) => CsamCommandOutput::AddMedia(Err(error)),
    }
}

impl CsamModel {
    /// An empty grid at the smallest zoom, with the default filter switched off.
    pub fn new() -> (model: CsamModel)
        ensures
            model@.items == Seq::<MediaItem>::empty(),
            model@.filter == default_filter(),
            !model@.filter_active,
            model@.thumbnail_size == THUMBNAIL_SIZE,
    {
        CsamModel {
            media_list: Vec::new(),
            media_list_filter: MediaFilter::default(),
            filter_active: false,
            thumbnail_size: THUMBNAIL_SIZE,
        }
    }
}

impl CsamModel {
    /// How many entries the grid holds, shown or not.
    pub fn len(&self) -> (n: usize)
        ensures
            n == self@.items.len(),
    {
        self.media_list.len()
    }

    /// The entry at `position` among all entries, if there is one.
    pub fn get(&self, position: u32) -> (item: Option<&MediaItem>)
        ensures
            match item {
                Some(it) => position < self@.items.len() && *it == self@.items[position as int],
                None => position >= self@.items.len(),
            },
    {
        if (position as usize) < self.media_list.len() {
            Some(&self.media_list[position as usize])
        } else {
            None
        }
    }

    /// The filter the toolbar has set.
    pub fn media_filter(&self) -> (filter: &MediaFilter)
        ensures
            *filter == self@.filter,
    {
        &self.media_list_filter
    }

    /// Whether the grid applies the filter.
    pub fn is_filter_active(&self) -> (active: bool)
        ensures
            active == self@.filter_active,
    {
        self.filter_active
    }

    /// The thumbnail edge at the current zoom.
    pub fn thumbnail_size(&self) -> (size: i32)
        ensures
            size == self@.thumbnail_size,
    {
        self.thumbnail_size
    }
}

impl CsamModel {
    /// One zoom step; every grid entry takes the new thumbnail edge, which is
    /// returned.
    fn apply_media_zoom(&mut self, is_zoom_in: bool) -> (size: i32)
        ensures
            (final(self)@, CsamAction::ResizeThumbnails(size)) == zoom_step(old(self)@, is_zoom_in),
    {
        let size = next_thumbnail_size(self.thumbnail_size, is_zoom_in);
        self.thumbnail_size = size;
        let len = self.media_list.len();
        let mut position: usize = 0;
        while position < len
            invariant
                len == self.media_list@.len(),
                len == old(self).media_list@.len(),
                position <= len,
                self.thumbnail_size == size,
                self.media_list_filter == old(self).media_list_filter,
                self.filter_active == old(self).filter_active,
                forall|j: int|
                    0 <= j < len ==> #[trigger] self.media_list@[j] == if j < position {
                        MediaItem { thumbnail_size: size, ..old(self).media_list@[j] }
                    } else {
                        old(self).media_list@[j]
                    },
            decreases len - position,
        {
            self.media_list[position].thumbnail_size = size;
            position = position + 1;
        }
        assert(self.media_list@ =~= resized(old(self).media_list@, size));
        size
    }

    /// Ticks (`is_selected`) or unticks the first `SELECT_ALL_COUNT` entries.
    fn on_select_all_medias(&mut self, is_selected: bool)
        requires
            old(self).media_list@.len() >= SELECT_ALL_COUNT,
        ensures
            final(self)@ == (CsamView {
                items: selected_first(old(self)@.items, SELECT_ALL_COUNT as int, is_selected),
                ..old(self)@
            }),
    {
        let ghost len = self.media_list@.len();
        let mut position: u32 = 0;
        while position < SELECT_ALL_COUNT
            invariant
                len == self.media_list@.len(),
                len == old(self).media_list@.len(),
                len >= SELECT_ALL_COUNT,
                position <= SELECT_ALL_COUNT,
                self.thumbnail_size == old(self).thumbnail_size,
                self.media_list_filter == old(self).media_list_filter,
                self.filter_active == old(self).filter_active,
                forall|j: int|
                    0 <= j < len ==> #[trigger] self.media_list@[j] == if j < position {
                        MediaItem { active: is_selected, ..old(self).media_list@[j] }
                    } else {
                        old(self).media_list@[j]
                    },
            decreases SELECT_ALL_COUNT - position,
        {
            self.media_list[position as usize].active = is_selected;
            position = position + 1;
        }
        assert(self.media_list@ =~= selected_first(
            old(self).media_list@,
            SELECT_ALL_COUNT as int,
            is_selected,
        ));
    }

    /// Makes the grid apply the current filter.
    fn apply_media_filters(&mut self)
        ensures
            final(self)@ == (CsamView { filter_active: true, ..old(self)@ }),
    {
        self.filter_active = true;
    }

    /// Handles an input: changes the state as `input_step` says and returns the
    /// action it names. Selecting all needs at least `SELECT_ALL_COUNT` entries.
    pub fn update_with_view(&mut self, message: CsamInput) -> (action: CsamAction)
        requires
            message is SelectAllMedias ==> old(self)@.items.len() >= SELECT_ALL_COUNT,
        ensures
            (final(self)@, action) == input_step(old(self)@, message),
            size_in_range(old(self)@.thumbnail_size) ==> size_in_range(final(self)@.thumbnail_size),
    {
        let action = match message {
            CsamInput::ZoomIn => {
                let size = self.apply_media_zoom(true);
                CsamAction::ResizeThumbnails(size)
            },
            CsamInput::ZoomOut => {
                let size = self.apply_media_zoom(false);
                CsamAction::ResizeThumbnails(size)
            },
            CsamInput::StartSearch(path) => {
                self.media_list.clear();
                CsamAction::Search(path)
            },
            CsamInput::SearchCompleted(count) => CsamAction::ShowSearchCount(count),
            CsamInput::SelectAllMedias(is_selected) => {
                self.on_select_all_medias(is_selected);
                CsamAction::SelectMedias(is_selected)
            },
            CsamInput::SearchEntry(query) => {
                self.media_list_filter.search_entry = Some(query);
                self.apply_media_filters();
                CsamAction::Refilter
            },
            CsamInput::SizeFilter0KB(is_active) => {
                self.media_list_filter.size_0 = is_active;
                self.apply_media_filters();
                CsamAction::Refilter
            },
            CsamInput::SizeFilter30KB(is_active) => {
                self.media_list_filter.size_30 = is_active;
                self.apply_media_filters();
                CsamAction::Refilter
            },
            CsamInput::SizeFilter100KB(is_active) => {
                self.media_list_filter.size_100 = is_active;
                self.apply_media_filters();
                CsamAction::Refilter
            },
            CsamInput::SizeFilter500KB(is_active) => {
                self.media_list_filter.size_500 = is_active;
                self.apply_media_filters();
                CsamAction::Refilter
            },
            CsamInput::SizeFilterA500KB(is_active) => {
                self.media_list_filter.size_greater_500 = is_active;
                self.apply_media_filters();
                CsamAction::Refilter
            },
            CsamInput::MediaListSelect(position) => {
                if (position as usize) < self.media_list.len() {
                    CsamAction::ShowSelected(self.media_list[position as usize].media.name.clone())
                } else {
                    CsamAction::Idle
                }
            },
            CsamInput::Notify(msg, timeout) => CsamAction::ShowNotice(msg, timeout),
        };
        action
    }

    /// Handles a report of the search: a media read is added at the end of the
    /// grid, at its own thumbnail edge; the rest is passed on to be shown or logged.
    pub fn update_cmd(&mut self, message: CsamCommandOutput) -> (action: CsamAction)
        ensures
            (final(self)@, action) == command_step(old(self)@, message),
            size_in_range(old(self)@.thumbnail_size) ==> size_in_range(final(self)@.thumbnail_size),
    {
        let action = match message {
            CsamCommandOutput::SearchCompleted => CsamAction::ShowSearchCompleted,
            CsamCommandOutput::MediaFound(count) => CsamAction::ShowMediaFound(count),
            CsamCommandOutput::AddMedia(result) => {
                match result {
                    Ok(media) => {
                        self.media_list.push(MediaItem::new(media));
                        CsamAction::AppendMedia
                    },
                    Err(error) => CsamAction::ReportError(error),
                }
            },
        };
        action
    }
}

/// Every grid entry shows the page's current thumbnail edge.
pub open spec fn cells_follow_zoom(v: CsamView) -> bool {
    forall|i: int| 0 <= i < v.items.len() ==> #[trigger] v.items[i].thumbnail_size == v.thumbnail_size
}

/// The size class, and the state it is switched to, of a size switch message.
pub open spec fn size_switch(message: CsamInput) -> Option<(SizeClass, bool)> {
    match message {
        CsamInput::SizeFilter0KB(on) => Some((SizeClass::Empty, on)),
        CsamInput::SizeFilter30KB(on) => Some((SizeClass::UpTo30, on)),
        CsamInput::SizeFilter100KB(on) => Some((SizeClass::UpTo100, on)),
        CsamInput::SizeFilter500KB(on) => Some((SizeClass::UpTo500, on)),
        CsamInput::SizeFilterA500KB(on) => Some((SizeClass::Over500, on)),
        _ => None,
    }
}

/// After a zoom step, every grid entry shows the page's new thumbnail edge, and
/// the entries, their media and their ticks are those of before.
pub proof fn law_zoom_aligns_cells(v: CsamView, is_zoom_in: bool)
    requires
        size_in_range(v.thumbnail_size),
    ensures
        cells_follow_zoom(zoom_step(v, is_zoom_in).0),
        zoom_step(v, is_zoom_in).0.items.len() == v.items.len(),
        forall|i: int|
            0 <= i < v.items.len() ==> {
                &&& (#[trigger] zoom_step(v, is_zoom_in).0.items[i]).media == v.items[i].media
                &&& zoom_step(v, is_zoom_in).0.items[i].active == v.items[i].active
            },
{
}

/// Zooming in and then out gives back the page one started from, wherever
/// zooming in was possible and the entries already showed the current edge.
pub proof fn law_zoom_in_then_out_restores(v: CsamView)
    requires
        THUMBNAIL_SIZE <= v.thumbnail_size < crate::models::ZOOM_LIMIT,
        cells_follow_zoom(v),
    ensures
        zoom_step(zoom_step(v, true).0, false).0 == v,
        zoom_step(zoom_step(v, true).0, false).1 == CsamAction::ResizeThumbnails(v.thumbnail_size as i32),
{
    let size = v.thumbnail_size;
    zoom::law_zoom_out_undoes_zoom_in(size);
    let u = zoom_step(v, true).0;
    let w = zoom_step(u, false).0;
    assert(w.thumbnail_size == size);
    assert forall|i: int| 0 <= i < v.items.len() implies w.items[i] == v.items[i] by {
        assert(v.items[i].thumbnail_size == size);
        assert(w.items[i].thumbnail_size == (size as i32));
    }
    assert(w.items =~= v.items);
}

/// A size switch message changes what the grid shows only for media of its
/// class; the grid then applies the filter.
pub proof fn law_size_message_only_touches_its_class(v: CsamView, message: CsamInput, media: Media)
    requires
        size_switch(message) matches Some((class, on)) && filter::size_class(media.size) != class,
    ensures
        filter::media_shown(input_step(v, message).0.filter, media) == filter::media_shown(v.filter, media),
        input_step(v, message).0.filter_active,
        input_step(v, message).0.items == v.items,
{
}

/// The messages that only ask for something to be shown leave the page as it is.
pub proof fn law_display_messages_keep_state(v: CsamView, message: CsamInput)
    requires
        message is SearchCompleted || message is MediaListSelect || message is Notify,
    ensures
        input_step(v, message).0 == v,
{
}

/// A search report other than a media read leaves the page as it is; a media
/// read adds one entry at the end and keeps all others in place.
pub proof fn law_search_reports_only_append(v: CsamView, message: CsamCommandOutput)
    ensures
        match message {
            CsamCommandOutput::AddMedia(Ok(media)) => {
                &&& command_step(v, message).0.items.len() == v.items.len() + 1
                &&& command_step(v, message).0.items.last() == new_item(media)
                &&& command_step(v, message).0.items.drop_last() == v.items
            },
            _ => command_step(v, message).0 == v,
        },
{
    match message {
        CsamCommandOutput::AddMedia(Ok(media)) => {
            assert(command_step(v, message).0.items.drop_last() =~= v.items);
        },
        _ => {},
    }
}

/// A message the page handles: an input, or a report of the search.
pub enum PageMessage {
    Input(CsamInput),
    Report(CsamCommandOutput),
}

/// What the page does with a message.
pub open spec fn page_step(v: CsamView, message: PageMessage) -> CsamView {
    match message {
        PageMessage::Input(input) => input_step(v, input).0,
        PageMessage::Report(report) => command_step(v, report).0,
    }
}

/// The state after handling `messages` in order, from `v`.
pub open spec fn run(v: CsamView, messages: Seq<PageMessage>) -> CsamView
    decreases messages.len(),
{
    if messages.len() == 0 {
        v
    } else {
        page_step(run(v, messages.drop_last()), messages.last())
    }
}

/// The media that the reports among `messages` say were read, in order.
pub open spec fn read_media(messages: Seq<PageMessage>) -> Seq<Media>
    decreases messages.len(),
{
    if messages.len() == 0 {
        Seq::empty()
    } else {
        let earlier = read_media(messages.drop_last());
        match messages.last() {
            PageMessage::Report(CsamCommandOutput::AddMedia(Ok(media))) => earlier.push(media),
            _ => earlier,
        }
    }
}

/// The message starts a new search.
pub open spec fn is_new_search(message: PageMessage) -> bool {
    message matches PageMessage::Input(CsamInput::StartSearch(_))
}

/// The media of the grid's entries, in order.
pub open spec fn media_of(items: Seq<MediaItem>) -> Seq<Media> {
    items.map_values(|item: MediaItem| item.media)
}

/// One message other than a new search keeps the media of the earlier entries
/// and adds the media it reports read, if any.
proof fn lemma_step_media(v: CsamView, message: PageMessage)
    requires
        !is_new_search(message),
    ensures
        media_of(page_step(v, message).items) == media_of(v.items) + read_media(seq![message]),
{
    let one = seq![message];
    assert(one.drop_last() =~= Seq::<PageMessage>::empty());
    assert(one.last() == message);
    assert(read_media(Seq::<PageMessage>::empty()) == Seq::<Media>::empty());
    assert(read_media(one.drop_last()) == Seq::<Media>::empty());
    let w = page_step(v, message);
    match message {
        PageMessage::Input(input) => {
            assert(read_media(one) =~= Seq::<Media>::empty());
            assert(w.items.len() == v.items.len());
            assert forall|i: int| 0 <= i < v.items.len() implies #[trigger] w.items[i].media == v.items[i].media by {
                match input {
                    CsamInput::ZoomIn => {},
                    CsamInput::ZoomOut => {},
                    CsamInput::SelectAllMedias(on) => {},
                    _ => {},
                }
            }
            assert(media_of(w.items) =~= media_of(v.items));
            assert(media_of(v.items) + read_media(one) =~= media_of(v.items));
        },
        PageMessage::Report(report) => {
            match report {
                CsamCommandOutput::AddMedia(Ok(media)) => {
                    assert(read_media(one) =~= seq![media]);
                    assert(media_of(w.items) =~= media_of(v.items).push(media));
                    assert(media_of(v.items) + read_media(one) =~= media_of(v.items).push(media));
                },
                _ => {
                    assert(read_media(one) =~= Seq::<Media>::empty());
                    assert(media_of(w.items) =~= media_of(v.items));
                    assert(media_of(v.items) + read_media(one) =~= media_of(v.items));
                },
            }
        },
    }
}

/// Handling messages that start no new search keeps the media of the entries
/// one had and adds, after them, the media the reports say were read, in order.
pub proof fn law_messages_append_read_media(v: CsamView, messages: Seq<PageMessage>)
    requires
        forall|i: int| 0 <= i < messages.len() ==> !is_new_search(#[trigger] messages[i]),
    ensures
        media_of(run(v, messages).items) == media_of(v.items) + read_media(messages),
    decreases messages.len(),
{
    if messages.len() == 0 {
        assert(media_of(v.items) + read_media(messages) =~= media_of(v.items));
    } else {
        let earlier = messages.drop_last();
        assert forall|i: int| 0 <= i < earlier.len() implies !is_new_search(#[trigger] earlier[i]) by {
            assert(earlier[i] == messages[i]);
        }
        law_messages_append_read_media(v, earlier);
        let last = messages.last();
        assert(!is_new_search(messages[messages.len() - 1]));
        lemma_step_media(run(v, earlier), last);
        let one = seq![last];
        assert(one.drop_last() =~= Seq::<PageMessage>::empty());
        assert(one.last() == last);
        assert(media_of(v.items) + read_media(messages) =~= media_of(v.items) + read_media(earlier)
            + read_media(one));
    }
}

/// After a new search, and any messages that start no other one, the grid holds
/// exactly the media that the reports say were read, in the order they came:
/// none lost, doubled or moved.
pub proof fn law_search_grid_holds_read_media(v: CsamView, path: PathBuf, messages: Seq<PageMessage>)
    requires
        forall|i: int| 0 <= i < messages.len() ==> !is_new_search(#[trigger] messages[i]),
    ensures
        media_of(run(input_step(v, CsamInput::StartSearch(path)).0, messages).items)
            == read_media(messages),
        run(input_step(v, CsamInput::StartSearch(path)).0, messages).items.len()
            == read_media(messages).len(),
{
    let start = input_step(v, CsamInput::StartSearch(path)).0;
    law_messages_append_read_media(start, messages);
    assert(media_of(start.items) =~= Seq::<Media>::empty());
    assert(media_of(start.items) + read_media(messages) =~= read_media(messages));
    assert(run(start, messages).items.len() == media_of(run(start, messages).items).len());
}

/// Each toolbar size toggle reaches the page as the switch of the sizes its
/// label names: after it, a media in that size range is shown exactly when the
/// toggle is on and its name passes the query; a media of any other size is
/// shown as before; the grid applies the filter, and its entries stay.
pub proof fn law_toolbar_size_toggles(v: CsamView, on: bool, media: Media)
    ensures
        ({
            let w = input_step(v, toolbar_message(ToolbarOutput::SizeFilter0KB(on)));
            &&& w.0.filter_active && w.0.items == v.items && w.1 == CsamAction::Refilter
            &&& media.size == 0 ==> filter::media_shown(w.0.filter, media) == (on && filter::name_shown(v.filter, media.name@))
            &&& media.size != 0 ==> filter::media_shown(w.0.filter, media) == filter::media_shown(v.filter, media)
        }),
        ({
            let w = input_step(v, toolbar_message(ToolbarOutput::SizeFilter30KB(on)));
            &&& w.0.filter_active && w.0.items == v.items && w.1 == CsamAction::Refilter
            &&& 0 < media.size <= 30 ==> filter::media_shown(w.0.filter, media) == (on && filter::name_shown(v.filter, media.name@))
            &&& !(0 < media.size <= 30) ==> filter::media_shown(w.0.filter, media) == filter::media_shown(v.filter, media)
        }),
        ({
            let w = input_step(v, toolbar_message(ToolbarOutput::SizeFilter100KB(on)));
            &&& w.0.filter_active && w.0.items == v.items && w.1 == CsamAction::Refilter
            &&& 30 < media.size <= 100 ==> filter::media_shown(w.0.filter, media) == (on && filter::name_shown(v.filter, media.name@))
            &&& !(30 < media.size <= 100) ==> filter::media_shown(w.0.filter, media) == filter::media_shown(v.filter, media)
        }),
        ({
            let w = input_step(v, toolbar_message(ToolbarOutput::SizeFilter500KB(on)));
            &&& w.0.filter_active && w.0.items == v.items && w.1 == CsamAction::Refilter
            &&& 100 < media.size <= 500 ==> filter::media_shown(w.0.filter, media) == (on && filter::name_shown(v.filter, media.name@))
            &&& !(100 < media.size <= 500) ==> filter::media_shown(w.0.filter, media) == filter::media_shown(v.filter, media)
        }),
        ({
            let w = input_step(v, toolbar_message(ToolbarOutput::SizeFilterGreater500KB(on)));
            &&& w.0.filter_active && w.0.items == v.items && w.1 == CsamAction::Refilter
            &&& 500 < media.size ==> filter::media_shown(w.0.filter, media) == (on && filter::name_shown(v.filter, media.name@))
            &&& media.size <= 500 ==> filter::media_shown(w.0.filter, media) == filter::media_shown(v.filter, media)
        }),
{
}

/// The toolbar's other outputs reach the page as the input of the same name,
/// carrying the same value.
pub proof fn law_toolbar_other_outputs(on: bool, query: String)
    ensures
        toolbar_message(ToolbarOutput::ZoomIn) == CsamInput::ZoomIn,
        toolbar_message(ToolbarOutput::ZoomOut) == CsamInput::ZoomOut,
        toolbar_message(ToolbarOutput::SelectAll(on)) == CsamInput::SelectAllMedias(on),
        toolbar_message(ToolbarOutput::SearchEntry(query)) == CsamInput::SearchEntry(query),
{
}

/// The search bar's requests reach the page unchanged; the page has no input for
/// a stop request.
pub proof fn law_searchbar_outputs(path: PathBuf, msg: String, timeout: u32)
    ensures
        searchbar_message(SearchBarOutput::StartSearch(path)) == Some(CsamInput::StartSearch(path)),
        searchbar_message(SearchBarOutput::Notify(msg, timeout)) == Some(CsamInput::Notify(msg, timeout)),
        searchbar_message(SearchBarOutput::StopSearch) is None,
{
}

/// Every filter edit stores what it edits, keeps the rest of the filter, the
/// entries and the zoom, and leaves the grid applying the filter.
pub proof fn law_filter_edits_apply_filter(v: CsamView, query: String, on: bool)
    ensures
        input_step(v, CsamInput::SearchEntry(query)) == (
            CsamView { filter: MediaFilter { search_entry: Some(query), ..v.filter }, filter_active: true, ..v },
            CsamAction::Refilter,
        ),
        input_step(v, CsamInput::SizeFilter0KB(on)) == (
            CsamView { filter: MediaFilter { size_0: on, ..v.filter }, filter_active: true, ..v },
            CsamAction::Refilter,
        ),
        input_step(v, CsamInput::SizeFilter30KB(on)) == (
            CsamView { filter: MediaFilter { size_30: on, ..v.filter }, filter_active: true, ..v },
            CsamAction::Refilter,
        ),
        input_step(v, CsamInput::SizeFilter100KB(on)) == (
            CsamView { filter: MediaFilter { size_100: on, ..v.filter }, filter_active: true, ..v },
            CsamAction::Refilter,
        ),
        input_step(v, CsamInput::SizeFilter500KB(on)) == (
            CsamView { filter: MediaFilter { size_500: on, ..v.filter }, filter_active: true, ..v },
            CsamAction::Refilter,
        ),
        input_step(v, CsamInput::SizeFilterA500KB(on)) == (
            CsamView { filter: MediaFilter { size_greater_500: on, ..v.filter }, filter_active: true, ..v },
            CsamAction::Refilter,
        ),
{
}

/// Activating a position shows the name of the entry at that very position (the
/// one `get` returns), and nothing past the last entry; the state stays.
pub proof fn law_select_shows_activated_entry(v: CsamView, position: u32)
    ensures
        input_step(v, CsamInput::MediaListSelect(position)).0 == v,
        position < v.items.len() ==> input_step(v, CsamInput::MediaListSelect(position)).1
            == CsamAction::ShowSelected(v.items[position as int].media.name),
        position >= v.items.len() ==> input_step(v, CsamInput::MediaListSelect(position)).1 == CsamAction::Idle,
{
}

} // verus!
