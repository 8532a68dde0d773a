//! The thumbnail edge that the zoom buttons step through.
use vstd::prelude::*;

use crate::models::{THUMBNAIL_SIZE, ZOOM_LIMIT, ZOOM_SIZE};

verus! {

/// The edges a model can be at: from the smallest thumbnail up to one zoom step
/// past the zoom limit, that step excluded.
pub open spec fn size_in_range(size: int) -> bool {
    THUMBNAIL_SIZE <= size < ZOOM_LIMIT + ZOOM_SIZE
}

/// The edge after one zoom in: one step larger while below the limit.
pub open spec fn zoomed_in(size: int) -> int {
    if size < ZOOM_LIMIT {
        size + ZOOM_SIZE
    } else {
        size
    }
}

/// The edge after one zoom out: one step smaller, never below the smallest
/// thumbnail; unchanged at or below it.
pub open spec fn zoomed_out(size: int) -> int {
    if size > THUMBNAIL_SIZE {
        if size - ZOOM_SIZE < THUMBNAIL_SIZE {
            THUMBNAIL_SIZE as int
        } else {
            size - ZOOM_SIZE
        }
    } else {
        size
    }
}

/// The edge after one zoom step in the given direction.
pub open spec fn zoomed(size: int, is_zoom_in: bool) -> int {
    if is_zoom_in {
        zoomed_in(size)
    } else {
        zoomed_out(size)
    }
}

/// The thumbnail edge after one zoom in (`is_zoom_in`) or out from `size`.
pub fn next_thumbnail_size(size: i32, is_zoom_in: bool) -> (next: i32)
    ensures
        next == zoomed(size as int, is_zoom_in),
        size_in_range(size as int) ==> size_in_range(next as int),
        is_zoom_in && size < ZOOM_LIMIT ==> next == size + ZOOM_SIZE,
        is_zoom_in && size >= ZOOM_LIMIT ==> next == size,
        !is_zoom_in && size > THUMBNAIL_SIZE + ZOOM_SIZE ==> next == size - ZOOM_SIZE,
        !is_zoom_in && THUMBNAIL_SIZE < size <= THUMBNAIL_SIZE + ZOOM_SIZE ==> next == THUMBNAIL_SIZE,
        !is_zoom_in && size <= THUMBNAIL_SIZE ==> next == size,
{
    let mut thumbnail_size = size;
    if is_zoom_in {
        if thumbnail_size < ZOOM_LIMIT {
            thumbnail_size += ZOOM_SIZE;
        }
    } else {
        if thumbnail_size > THUMBNAIL_SIZE {
            let mut thumb_size = thumbnail_size - ZOOM_SIZE;
            if thumb_size < THUMBNAIL_SIZE {
                thumb_size = THUMBNAIL_SIZE;
            }
            thumbnail_size = thumb_size;
        }
    }
    thumbnail_size
}

/// Zooming out right after zooming in gives back the edge one started from,
/// wherever zooming in was possible.
pub proof fn law_zoom_out_undoes_zoom_in(size: int)
    requires
        THUMBNAIL_SIZE <= size < ZOOM_LIMIT,
    ensures
        zoomed_out(zoomed_in(size)) == size,
{
}

/// Zooming in right after zooming out gives back the edge one started from,
/// wherever a whole step out was possible.
pub proof fn law_zoom_in_undoes_zoom_out(size: int)
    requires
        THUMBNAIL_SIZE + ZOOM_SIZE <= size < ZOOM_LIMIT + ZOOM_SIZE,
    ensures
        zoomed_in(zoomed_out(size)) == size,
{
}

/// Any zoom step keeps the edge in range.
pub proof fn law_zoom_keeps_range(size: int, is_zoom_in: bool)
    requires
        size_in_range(size),
    ensures
        size_in_range(zoomed(size, is_zoom_in)),
{
}

/// Zooming out at the smallest edge, or in at the limit or above it, changes
/// nothing.
pub proof fn law_zoom_saturates(size: int)
    ensures
        size <= THUMBNAIL_SIZE ==> zoomed_out(size) == size,
        size >= ZOOM_LIMIT ==> zoomed_in(size) == size,
{
}

/// Zooming in never shrinks and zooming out never grows the edge.
pub proof fn law_zoom_is_monotone(size: int)
    ensures
        zoomed_in(size) >= size,
        zoomed_out(size) <= size,
{
}

/// One zoom step moves the edge by exactly one step: in, by `ZOOM_SIZE` while
/// below the limit; out, by `ZOOM_SIZE` but never below the smallest edge.
pub proof fn law_zoom_moves_one_step(size: int)
    ensures
        size < ZOOM_LIMIT ==> zoomed_in(size) == size + ZOOM_SIZE,
        size >= ZOOM_LIMIT ==> zoomed_in(size) == size,
        size > THUMBNAIL_SIZE ==> zoomed_out(size) == if size - ZOOM_SIZE >= THUMBNAIL_SIZE {
            size - ZOOM_SIZE
        } else {
            THUMBNAIL_SIZE as int
        },
        size <= THUMBNAIL_SIZE ==> zoomed_out(size) == size,
{
}

/// From the smallest edge, `n` zoom steps in reach the edge `n` steps larger, as
/// long as that does not pass the limit: no step is skipped.
pub proof fn law_zoom_in_visits_every_step(n: nat)
    requires
        THUMBNAIL_SIZE + n * ZOOM_SIZE <= ZOOM_LIMIT,
    ensures
        zoom_in_times(THUMBNAIL_SIZE as int, n) == THUMBNAIL_SIZE + n * ZOOM_SIZE,
    decreases n,
{
    if n > 0 {
        law_zoom_in_visits_every_step((n - 1) as nat);
    }
}

/// The edge after `n` zoom steps in from `size`.
pub open spec fn zoom_in_times(size: int, n: nat) -> int
    decreases n,
{
    if n == 0 {
        size
    } else {
        zoomed_in(zoom_in_times(size, (n - 1) as nat))
    }
}

} // verus!
