//! Which sprite frame follows which.
//!
//! The walking figure has a pair of frames for each direction and shows them
//! in turn; the pickup runs through all of its frames and starts over.

use vstd::prelude::*;
use crate::input::Direction;

verus! {

/// Number of frames on the walking figure's sheet.
pub const SUBJECT_FRAMES: usize = 8;

/// Number of frames on the pickup's sheet.
pub const COLLECTIBLE_FRAMES: usize = 11;

/// The two frames shown in turn while `held` is the held direction; with no
/// direction held, the pair of the downward walk is used.
pub open spec fn frame_pair(held: Option<Direction>) -> (usize, usize) {
    match held {
        Some(Direction::Up) => (6, 7),
        Some(Direction::Down) => (0, 1),
        Some(Direction::Left) => (4, 5),
        Some(Direction::Right) => (2, 3),
        None => (0, 1),
    }
}

/// The frame that follows `current` when the interval elapses: the other
/// frame of the pair if `current` is the pair's first, else the pair's first.
pub open spec fn toggled(current: usize, held: Option<Direction>) -> usize {
    if current == frame_pair(held).0 {
        frame_pair(held).1
    } else {
        frame_pair(held).0
    }
}

/// The pickup's frame after `current`, wrapping to the first after the last.
pub open spec fn cycled(current: usize) -> usize {
    if current + 1 >= COLLECTIBLE_FRAMES {
        0
    } else {
        (current + 1) as usize
    }
}

/// Looks up the pair of frames for a held direction.
pub fn pair_for(held: Option<Direction>) -> (p: (usize, usize))
    ensures
        p == frame_pair(held),
{
    match held {
        Some(Direction::Up) => (6, 7),
        Some(Direction::Down) => (0, 1),
        Some(Direction::Left) => (4, 5),
        Some(Direction::Right) => (2, 3),
        None => (0, 1),
    }
}

/// The walking figure's next frame.
pub fn next_subject_frame(current: usize, held: Option<Direction>) -> (next: usize)
    ensures
        next == toggled(current, held),
{
    let pair: (usize, usize) = pair_for(held);
    if current == pair.0 {
        pair.1
    } else {
        pair.0
    }
}

/// The pickup's next frame.
pub fn next_collectible_frame(current: usize) -> (next: usize)
    ensures
        next == cycled(current),
{
    if current >= COLLECTIBLE_FRAMES - 1 {
        0
    } else {
        current + 1
    }
}

/// Whatever frame was shown before, the next frame is one of the two frames
/// of the held direction, and lies on the sheet.
pub proof fn lemma_toggled_in_pair(current: usize, held: Option<Direction>)
    ensures
        toggled(current, held) == frame_pair(held).0 || toggled(current, held) == frame_pair(held).1,
        toggled(current, held) < SUBJECT_FRAMES,
{
}

/// While the held direction stays the same, each elapse changes the frame:
/// from the second elapse on the two frames of the pair alternate, none is
/// shown twice in a row and none is skipped.
pub proof fn lemma_toggled_alternates(current: usize, held: Option<Direction>)
    ensures
        frame_pair(held).0 != frame_pair(held).1,
        current == frame_pair(held).0 ==> toggled(current, held) == frame_pair(held).1,
        current == frame_pair(held).1 ==> toggled(current, held) == frame_pair(held).0,
        toggled(toggled(current, held), held) != toggled(current, held),
        toggled(toggled(toggled(current, held), held), held) == toggled(current, held),
{
}

/// The pickup's frames stay on the sheet and come round again after a full
/// turn of the sheet's length.
pub proof fn lemma_cycled_in_range(current: usize)
    ensures
        cycled(current) < COLLECTIBLE_FRAMES,
        current < COLLECTIBLE_FRAMES ==> cycled(current) == (current + 1) % (COLLECTIBLE_FRAMES as int),
{
}

} // verus!
