//! Which media the list shows under a filter.
use vstd::prelude::*;

use crate::models::{Media, MediaFilter};
use crate::text::{contains_ignoring_case, contains_seq, lowercase};

verus! {

/// The size classes that the toolbar switches on and off.
#[derive(Clone, Copy, Debug, PartialEq, Eq, Structural)]
pub enum SizeClass {
    /// Empty files.
    Empty,
    /// Above 0 and up to 30 KB.
    UpTo30,
    /// Above 30 and up to 100 KB.
    UpTo100,
    /// Above 100 and up to 500 KB.
    UpTo500,
    /// Above 500 KB.
    Over500,
}

/// The size class of a file of `size` kilobytes.
pub open spec fn size_class(size: u64) -> SizeClass {
    if size == 0 {
        SizeClass::Empty
    } else if size <= 30 {
        SizeClass::UpTo30
    } else if size <= 100 {
        SizeClass::UpTo100
    } else if size <= 500 {
        SizeClass::UpTo500
    } else {
        SizeClass::Over500
    }
}

/// The switch of `filter` for the size class `class`.
pub open spec fn class_shown(filter: MediaFilter, class: SizeClass) -> bool {
    match class {
        SizeClass::Empty => filter.size_0,
        SizeClass::UpTo30 => filter.size_30,
        SizeClass::UpTo100 => filter.size_100,
        SizeClass::UpTo500 => filter.size_500,
        SizeClass::Over500 => filter.size_greater_500,
    }
}

/// `filter` with the switch of `class` set to `on`, all else kept.
pub open spec fn with_class(filter: MediaFilter, class: SizeClass, on: bool) -> MediaFilter {
    match class {
        SizeClass::Empty => MediaFilter { size_0: on, ..filter },
        SizeClass::UpTo30 => MediaFilter { size_30: on, ..filter },
        SizeClass::UpTo100 => MediaFilter { size_100: on, ..filter },
        SizeClass::UpTo500 => MediaFilter { size_500: on, ..filter },
        SizeClass::Over500 => MediaFilter { size_greater_500: on, ..filter },
    }
}

/// The name passes the query: no query, or the query occurs in the name when
/// both are lowercased.
pub open spec fn name_shown(filter: MediaFilter, name: Seq<char>) -> bool {
    match filter.search_entry {
        Some(query) => contains_seq(lowercase(name), lowercase(query@)),
        None => true,
    }
}

/// A media is shown when its name passes the query and its size class is
/// switched on.
pub open spec fn media_shown(filter: MediaFilter, media: Media) -> bool {
    name_shown(filter, media.name@) && class_shown(filter, size_class(media.size))
}

/// Whether `media` stays visible under `filter`.
pub fn on_filter(filter: &MediaFilter, media: &Media) -> (is_visible: bool)
    ensures
        is_visible == media_shown(*filter, *media),
{
    let mut is_visible = true;

    if let Some(query) = &filter.search_entry {
        is_visible = contains_ignoring_case(media.name.as_str(), query.as_str());
    }

    if !filter.size_0 && media.size == 0 {
        is_visible = false;
    } else if !filter.size_30 && (media.size > 0 && media.size <= 30) {
        is_visible = false;
    } else if !filter.size_100 && (media.size > 30 && media.size <= 100) {
        is_visible = false;
    } else if !filter.size_500 && (media.size > 100 && media.size <= 500) {
        is_visible = false;
    } else if !filter.size_greater_500 && media.size > 500 {
        is_visible = false;
    }

    is_visible
}

/// Switching one size class on or off changes nothing for a media of another
/// class.
pub proof fn law_size_switch_is_local(filter: MediaFilter, class: SizeClass, on: bool, media: Media)
    requires
        size_class(media.size) != class,
    ensures
        media_shown(with_class(filter, class, on), media) == media_shown(filter, media),
{
}

/// For a media of the switched class, the switch decides: switched off it is
/// hidden, switched on it is shown exactly when its name passes the query.
pub proof fn law_size_switch_decides_its_class(filter: MediaFilter, class: SizeClass, on: bool, media: Media)
    requires
        size_class(media.size) == class,
    ensures
        media_shown(with_class(filter, class, on), media) == (on && name_shown(filter, media.name@)),
{
}

/// Switching a size class on never hides a media.
pub proof fn law_switching_on_never_hides(filter: MediaFilter, class: SizeClass, media: Media)
    requires
        media_shown(filter, media),
    ensures
        media_shown(with_class(filter, class, true), media),
{
}

/// Every media belongs to exactly one size class: its own.
pub proof fn law_size_classes_partition(size: u64, class: SizeClass)
    ensures
        (size_class(size) == class) <==> match class {
            SizeClass::Empty => size == 0,
            SizeClass::UpTo30 => 0 < size <= 30,
            SizeClass::UpTo100 => 30 < size <= 100,
            SizeClass::UpTo500 => 100 < size <= 500,
            SizeClass::Over500 => 500 < size,
        },
{
}

/// The query is matched without regard to case: two queries with the same
/// lowercase form show the same media.
pub proof fn law_query_ignores_case(filter: MediaFilter, q1: String, q2: String, media: Media)
    requires
        lowercase(q1@) == lowercase(q2@),
    ensures
        media_shown(MediaFilter { search_entry: Some(q1), ..filter }, media)
            == media_shown(MediaFilter { search_entry: Some(q2), ..filter }, media),
{
}

/// Without a query, only the size class decides.
pub proof fn law_no_query_size_decides(filter: MediaFilter, media: Media)
    requires
        filter.search_entry is None,
    ensures
        media_shown(filter, media) == class_shown(filter, size_class(media.size)),
{
}

/// Names are matched without regard to case: two media whose names have the
/// same lowercase form, and that are otherwise alike, are shown alike.
pub proof fn law_name_ignores_case(filter: MediaFilter, media: Media, other_name: String)
    requires
        lowercase(media.name@) == lowercase(other_name@),
    ensures
        media_shown(filter, media) == media_shown(filter, Media { name: other_name, ..media }),
{
}

} // verus!
