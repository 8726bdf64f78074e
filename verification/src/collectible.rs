//! The pickup: where it lies, where it may be moved to, and when the figure
//! touches it.

use vstd::prelude::*;
use crate::animation::{cycled, next_collectible_frame, COLLECTIBLE_FRAMES};
use crate::geometry::{boxes_meet, overlap, point, Position, Size};
use crate::subject::ANIMATION_INTERVAL_NS;
use crate::ticker::{Ticker, TickerState};

verus! {

/// Number of places the pickup can be moved to.
pub const LOCATIONS: usize = 10;

/// Side of the square box that stands for the figure and for the pickup
/// when contact is tested, in world units.
pub const BOX_SIDE: u32 = 16;

/// The place with the given number.
pub open spec fn spot(index: int) -> Position {
    if index == 0 {
        point(0, -72)
    } else if index == 1 {
        point(126, -206)
    } else if index == 2 {
        point(366, 294)
    } else if index == 3 {
        point(400, -49)
    } else if index == 4 {
        point(-532, -30)
    } else if index == 5 {
        point(-64, -226)
    } else if index == 6 {
        point(262, 20)
    } else if index == 7 {
        point(-158, 242)
    } else if index == 8 {
        point(-26, -138)
    } else {
        point(-92, 284)
    }
}

/// Whether `p` is one of the places the pickup can be moved to.
pub open spec fn is_spot(p: Position) -> bool {
    exists|index: int| 0 <= index < LOCATIONS && p == #[trigger] spot(index)
}

/// Whether the boxes of the figure and of the pickup overlap.
pub open spec fn touching(subject: Position, collectible: Position) -> bool {
    boxes_meet(
        subject,
        Size { width: BOX_SIDE, height: BOX_SIDE },
        collectible,
        Size { width: BOX_SIDE, height: BOX_SIDE },
    )
}

/// Looks up the place with the given number.
pub fn location(index: usize) -> (p: Position)
    requires
        index < LOCATIONS,
    ensures
        p == spot(index as int),
        is_spot(p),
{
    let table: [Position; 10] = [
        Position { x: 0, y: -72 },
        Position { x: 126, y: -206 },
        Position { x: 366, y: 294 },
        Position { x: 400, y: -49 },
        Position { x: -532, y: -30 },
        Position { x: -64, y: -226 },
        Position { x: 262, y: 20 },
        Position { x: -158, y: 242 },
        Position { x: -26, y: -138 },
        Position { x: -92, y: 284 },
    ];
    table[index]
}

/// Tests whether a figure at `subject` touches a pickup at `collectible`.
pub fn touches(subject: Position, collectible: Position) -> (r: bool)
    ensures
        r == touching(subject, collectible),
        r == (-BOX_SIDE < subject.x - collectible.x < BOX_SIDE && -BOX_SIDE < subject.y
            - collectible.y < BOX_SIDE),
{
    let size: Size = Size { width: BOX_SIDE, height: BOX_SIDE };
    overlap(subject, size, collectible, size)
}

/// The pickup.
#[derive(Debug)]
pub struct Collectible {
    position: Position,
    visible: bool,
    collected_once: bool,
    frame: usize,
    ticker: Ticker,
}

/// The model of a [`Collectible`].
pub struct CollectibleState {
    pub position: Position,
    /// Whether the pickup is to be drawn.
    pub visible: bool,
    /// Whether the pickup has been collected at least once.
    pub collected_once: bool,
    /// The frame of the sheet that is shown.
    pub frame: usize,
    /// The timer that paces the animation.
    pub ticker: TickerState,
}

impl CollectibleState {
    /// The frame lies on the sheet and the animation timer is valid.
    pub open spec fn valid(self) -> bool {
        self.frame < COLLECTIBLE_FRAMES && self.ticker.valid()
    }

    /// The state a pickup starts in: at the origin, visible, never
    /// collected, showing the first frame.
    pub open spec fn initial() -> CollectibleState {
        CollectibleState {
            position: point(0, 0),
            visible: true,
            collected_once: false,
            frame: 0,
            ticker: TickerState { interval: ANIMATION_INTERVAL_NS as nat, elapsed: 0 },
        }
    }

    /// The state after `delta` nanoseconds of animation: the timer counts
    /// them, and if the interval came due the next frame is shown.
    pub open spec fn animated(self, delta: nat) -> CollectibleState {
        CollectibleState {
            frame: if self.ticker.comes_due(delta) {
                cycled(self.frame)
            } else {
                self.frame
            },
            ticker: self.ticker.after(delta),
            ..self
        }
    }

    /// The state after the pickup is moved to the place numbered `index`.
    pub open spec fn relocated(self, index: int) -> CollectibleState {
        CollectibleState { position: spot(index), ..self }
    }

    /// The state after a collection is recorded.
    pub open spec fn marked(self) -> CollectibleState {
        CollectibleState { collected_once: true, ..self }
    }
}

impl View for Collectible {
    type V = CollectibleState;

    closed spec fn view(&self) -> CollectibleState {
        CollectibleState {
            position: self.position,
            visible: self.visible,
            collected_once: self.collected_once,
            frame: self.frame,
            ticker: self.ticker@,
        }
    }
}

impl Collectible {
    /// The animation timer is well formed and the model is valid.
    pub closed spec fn wf(&self) -> bool {
        self.ticker.wf() && self@.valid()
    }

    /// A well-formed pickup has a valid model.
    pub proof fn lemma_wf_valid(&self)
        requires
            self.wf(),
        ensures
            self@.valid(),
    {
    }

    /// A pickup in its starting state.
    pub fn new() -> (c: Collectible)
        ensures
            c.wf(),
            c@ == CollectibleState::initial(),
    {
        Collectible {
            position: Position { x: 0, y: 0 },
            visible: true,
            collected_once: false,
            frame: 0,
            ticker: Ticker::new(ANIMATION_INTERVAL_NS),
        }
    }

    /// Where the pickup lies.
    pub fn position(&self) -> (p: Position)
        ensures
            p == self@.position,
    {
        self.position
    }

    /// Whether the pickup is to be drawn.
    pub fn is_visible(&self) -> (v: bool)
        ensures
            v == self@.visible,
    {
        self.visible
    }

    /// Whether the pickup has been collected at least once.
    pub fn collected_once(&self) -> (c: bool)
        ensures
            c == self@.collected_once,
    {
        self.collected_once
    }

    /// The frame of the sheet that is shown.
    pub fn frame(&self) -> (f: usize)
        ensures
            f == self@.frame,
    {
        self.frame
    }

    /// Counts `delta_ns` nanoseconds of animation and, if the interval came
    /// due, shows the next frame. Returns whether the frame was replaced.
    pub fn animate(&mut self, delta_ns: u64) -> (due: bool)
        requires
            old(self).wf(),
        ensures
            final(self).wf(),
            final(self)@ == old(self)@.animated(delta_ns as nat),
            due == old(self)@.ticker.comes_due(delta_ns as nat),
    {
        let due: bool = self.ticker.tick(delta_ns);
        if due {
            self.frame = next_collectible_frame(self.frame);
        }
        due
    }

    /// Moves the pickup to the place numbered `index`.
    pub fn relocate(&mut self, index: usize)
        requires
            old(self).wf(),
            index < LOCATIONS,
        ensures
            final(self).wf(),
            final(self)@ == old(self)@.relocated(index as int),
            is_spot(final(self)@.position),
    {
        self.position = location(index);
    }

    /// Records that the pickup has been collected.
    pub fn mark_collected(&mut self)
        requires
            old(self).wf(),
        ensures
            final(self).wf(),
            final(self)@ == old(self)@.marked(),
    {
        self.collected_once = true;
    }
}

/// Contact is overlap on both axes: the boxes of the figure and of the
/// pickup meet exactly when their centres are less than a box side apart
/// horizontally and vertically.
pub proof fn lemma_touching_both_axes(subject: Position, collectible: Position)
    ensures
        touching(subject, collectible) <==> (-BOX_SIDE < subject.x - collectible.x < BOX_SIDE
            && -BOX_SIDE < subject.y - collectible.y < BOX_SIDE),
        touching(subject, collectible) == touching(collectible, subject),
        touching(subject, subject),
{
}

/// The pickup's frame changes only when its animation interval comes due,
/// and then to the next frame of the sheet.
pub proof fn lemma_collectible_frame(s: CollectibleState, delta: nat)
    requires
        s.valid(),
    ensures
        !s.ticker.comes_due(delta) ==> s.animated(delta).frame == s.frame,
        s.ticker.comes_due(delta) ==> s.animated(delta).frame == (s.frame + 1) % (
        COLLECTIBLE_FRAMES as int),
        s.animated(delta).valid(),
{
    vstd::arithmetic::div_mod::lemma_mod_bound(
        (s.ticker.elapsed + delta) as int,
        s.ticker.interval as int,
    );
}

} // verus!
