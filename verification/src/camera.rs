//! The viewpoint's pursuit of the figure: it stays where it is until the
//! figure has got too far away, and then jumps onto it.

use vstd::prelude::*;
use crate::geometry::{distance_squared, exceeds, farther_than, Position};
use crate::input::Keys;

verus! {

/// World units by which the figure may come short of the edge of the view
/// before the viewpoint follows.
pub const FOLLOW_MARGIN: i64 = 10;

/// The view shows `VIEW_SCALE_NUMERATOR / VIEW_SCALE_DENOMINATOR` world
/// units for each unit of the window.
pub const VIEW_SCALE_NUMERATOR: i64 = 2;

pub const VIEW_SCALE_DENOMINATOR: i64 = 5;

/// Width and height of the window, in its own units.
#[derive(Clone, Copy, Debug, PartialEq, Eq, Structural)]
pub struct Viewport {
    pub width: u32,
    pub height: u32,
}

/// Whether a distance with the given square is greater than half the window
/// extent, taken in world units, less the margin:
/// `d > extent / 2 * numerator / denominator - margin`, with both sides
/// multiplied by twice the denominator so that only whole numbers occur.
pub open spec fn out_of_view(squared: int, extent: int) -> bool {
    exceeds(
        squared,
        2 * VIEW_SCALE_DENOMINATOR,
        VIEW_SCALE_NUMERATOR * extent - 2 * VIEW_SCALE_DENOMINATOR * FOLLOW_MARGIN,
    )
}

/// The viewpoint after following with a fixed threshold: the figure's
/// position if the distance between them is greater than `threshold`, else
/// the viewpoint as it was.
pub open spec fn pursued(viewpoint: Position, subject: Position, threshold: int) -> Position {
    if exceeds(distance_squared(subject, viewpoint), 1, threshold) {
        subject
    } else {
        viewpoint
    }
}

/// The viewpoint after following within the window. The distance is held
/// against the window's height while a vertical key is held and against its
/// width while a horizontal key is held; if either test finds the figure out
/// of view, the viewpoint takes the figure's position.
pub open spec fn followed(
    viewpoint: Position,
    subject: Position,
    keys: Keys,
    viewport: Viewport,
) -> Position {
    let squared: int = distance_squared(subject, viewpoint);
    if (keys.up || keys.down) && out_of_view(squared, viewport.height as int) {
        subject
    } else if (keys.left || keys.right) && out_of_view(squared, viewport.width as int) {
        subject
    } else {
        viewpoint
    }
}

/// Follows the figure with a fixed threshold, in world units.
pub fn track(viewpoint: Position, subject: Position, threshold: u32) -> (r: Position)
    ensures
        r == pursued(viewpoint, subject, threshold as int),
        distance_squared(subject, viewpoint) <= threshold * threshold ==> r == viewpoint,
        distance_squared(subject, viewpoint) > threshold * threshold ==> r == subject,
{
    let ghost squared: int = distance_squared(subject, viewpoint);
    assert(1 * 1 * squared == squared) by (nonlinear_arith);
    if farther_than(subject, viewpoint, 1, threshold as i64) {
        subject
    } else {
        viewpoint
    }
}

/// Decides whether the figure is out of view along a window extent.
fn beyond_view(viewpoint: Position, subject: Position, extent: u32) -> (r: bool)
    ensures
        r == out_of_view(distance_squared(subject, viewpoint), extent as int),
{
    let reach: i64 = VIEW_SCALE_NUMERATOR * (extent as i64) - 2 * VIEW_SCALE_DENOMINATOR
        * FOLLOW_MARGIN;
    let scale: u8 = (2 * VIEW_SCALE_DENOMINATOR) as u8;
    farther_than(subject, viewpoint, scale, reach)
}

/// Follows the figure within the window.
pub fn follow(
    viewpoint: Position,
    subject: Position,
    keys: &Keys,
    viewport: &Viewport,
) -> (r: Position)
    ensures
        r == followed(viewpoint, subject, *keys, *viewport),
{
    let mut at: Position = viewpoint;
    if (keys.up || keys.down) && beyond_view(at, subject, viewport.height) {
        at = subject;
    }
    if (keys.left || keys.right) && beyond_view(at, subject, viewport.width) {
        at = subject;
    }
    at
}

/// With a fixed threshold the viewpoint keeps its place while the figure is
/// no further away than the threshold, and stands exactly on the figure as
/// soon as it is.
pub proof fn lemma_pursued(viewpoint: Position, subject: Position, threshold: nat)
    ensures
        distance_squared(subject, viewpoint) <= threshold * threshold ==> pursued(
            viewpoint,
            subject,
            threshold as int,
        ) == viewpoint,
        distance_squared(subject, viewpoint) > threshold * threshold ==> pursued(
            viewpoint,
            subject,
            threshold as int,
        ) == subject,
{
    let squared: int = distance_squared(subject, viewpoint);
    assert(1 * 1 * squared == squared) by (nonlinear_arith);
}

/// Within the window the viewpoint ends on its old place or on the figure,
/// and it keeps its place whenever no direction key is held or the figure is
/// in view along both extents.
pub proof fn lemma_followed(viewpoint: Position, subject: Position, keys: Keys, viewport: Viewport)
    ensures
        followed(viewpoint, subject, keys, viewport) == viewpoint || followed(
            viewpoint,
            subject,
            keys,
            viewport,
        ) == subject,
        keys.held() is None ==> followed(viewpoint, subject, keys, viewport) == viewpoint,
        !out_of_view(distance_squared(subject, viewpoint), viewport.height as int) && !out_of_view(
            distance_squared(subject, viewpoint),
            viewport.width as int,
        ) ==> followed(viewpoint, subject, keys, viewport) == viewpoint,
        (keys.up || keys.down) && out_of_view(
            distance_squared(subject, viewpoint),
            viewport.height as int,
        ) ==> followed(viewpoint, subject, keys, viewport) == subject,
        (keys.left || keys.right) && out_of_view(
            distance_squared(subject, viewpoint),
            viewport.width as int,
        ) ==> followed(viewpoint, subject, keys, viewport) == subject,
{
}

/// For a window extent of at least fifty units, the figure is out of view
/// exactly when five times its distance is more than the extent less fifty:
/// the threshold is a fifth of the extent, less ten world units.
pub proof fn lemma_out_of_view_threshold(squared: int, extent: int)
    requires
        squared >= 0,
        extent >= 50,
    ensures
        out_of_view(squared, extent) <==> 25 * squared > (extent - 50) * (extent - 50),
{
    assert(10 * 10 * squared == 4 * (25 * squared)) by (nonlinear_arith);
    assert((2 * extent - 100) * (2 * extent - 100) == 4 * ((extent - 50) * (extent - 50)))
        by (nonlinear_arith);
}

} // verus!
