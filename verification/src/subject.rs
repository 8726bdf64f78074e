//! The walking figure: where it stands, which way it may move, and which
//! frame of its sheet it shows.

use vstd::prelude::*;
use crate::animation::{next_subject_frame, toggled, SUBJECT_FRAMES};
use crate::geometry::Position;
use crate::input::Keys;
use crate::ticker::{Ticker, TickerState};

verus! {

/// World units covered on an axis by one frame of movement.
pub const STEP: i32 = 2;

/// Nanoseconds between two frames of an animation.
pub const ANIMATION_INTERVAL_NS: u64 = 300_000_000;

/// For each direction, whether the figure may move that way.
#[derive(Clone, Copy, Debug, PartialEq, Eq, Structural)]
pub struct Permissions {
    pub up: bool,
    pub down: bool,
    pub left: bool,
    pub right: bool,
}

/// The side the figure last moved towards.
#[derive(Clone, Copy, Debug, PartialEq, Eq, Structural)]
pub enum Facing {
    Left,
    Right,
}

/// The rectangle the figure is meant to stay in.
#[derive(Clone, Copy, Debug, PartialEq, Eq, Structural)]
pub struct Bounds {
    pub left: i32,
    pub right: i32,
    pub bottom: i32,
    pub top: i32,
}

impl Permissions {
    /// Every direction permitted.
    pub open spec fn all() -> Permissions {
        Permissions { up: true, down: true, left: true, right: true }
    }

    /// No direction permitted.
    pub open spec fn none() -> Permissions {
        Permissions { up: false, down: false, left: false, right: false }
    }

    /// Permits every direction.
    pub fn granted() -> (p: Permissions)
        ensures
            p == Permissions::all(),
    {
        Permissions { up: true, down: true, left: true, right: true }
    }

    /// Permits no direction.
    pub fn denied() -> (p: Permissions)
        ensures
            p == Permissions::none(),
    {
        Permissions { up: false, down: false, left: false, right: false }
    }
}

impl Bounds {
    /// The permissions that the bounds leave a figure standing at `p`.
    pub open spec fn permitted(self, p: Position) -> Permissions {
        Permissions {
            up: p.y <= self.top,
            down: p.y >= self.bottom,
            left: p.x >= self.left,
            right: p.x <= self.right,
        }
    }

    /// Derives the permissions from a position: a direction is refused
    /// exactly when the position lies beyond the bound on that side.
    pub fn permits(&self, p: Position) -> (r: Permissions)
        ensures
            r == self.permitted(p),
            r.right == !(p.x > self.right),
            r.left == !(p.x < self.left),
            r.up == !(p.y > self.top),
            r.down == !(p.y < self.bottom),
    {
        Permissions {
            up: p.y <= self.top,
            down: p.y >= self.bottom,
            left: p.x >= self.left,
            right: p.x <= self.right,
        }
    }
}

/// The coordinate one step further in the positive direction. Where less
/// than a step is left of the coordinate range, the step ends on the
/// range's last coordinate.
pub open spec fn stepped_up(v: i32) -> i32 {
    if v > i32::MAX - STEP {
        i32::MAX
    } else {
        (v + STEP) as i32
    }
}

/// The coordinate one step further in the negative direction. Where less
/// than a step is left of the coordinate range, the step ends on the
/// range's first coordinate.
pub open spec fn stepped_down(v: i32) -> i32 {
    if v < i32::MIN + STEP {
        i32::MIN
    } else {
        (v - STEP) as i32
    }
}

/// Steps a coordinate in the positive direction.
pub fn step_up(v: i32) -> (r: i32)
    ensures
        r == stepped_up(v),
{
    if v > i32::MAX - STEP {
        i32::MAX
    } else {
        v + STEP
    }
}

/// Steps a coordinate in the negative direction.
pub fn step_down(v: i32) -> (r: i32)
    ensures
        r == stepped_down(v),
{
    if v < i32::MIN + STEP {
        i32::MIN
    } else {
        v - STEP
    }
}

/// The walking figure.
#[derive(Debug)]
pub struct Subject {
    position: Position,
    facing: Facing,
    permissions: Permissions,
    frame: usize,
    ticker: Ticker,
}

/// The model of a [`Subject`].
pub struct SubjectState {
    pub position: Position,
    pub facing: Facing,
    pub permissions: Permissions,
    /// The frame of the sheet that is shown.
    pub frame: usize,
    /// The timer that paces the animation.
    pub ticker: TickerState,
}

impl SubjectState {
    /// The frame lies on the sheet and the animation timer is valid.
    pub open spec fn valid(self) -> bool {
        self.frame < SUBJECT_FRAMES && self.ticker.valid()
    }

    /// The state a figure placed at `position` starts in: free to move,
    /// facing right, showing the first frame.
    pub open spec fn initial(position: Position) -> SubjectState {
        SubjectState {
            position,
            facing: Facing::Right,
            permissions: Permissions::all(),
            frame: 0,
            ticker: TickerState { interval: ANIMATION_INTERVAL_NS as nat, elapsed: 0 },
        }
    }

    /// Whether the figure moves left this frame: the key is held and the
    /// direction permitted. Likewise for the other three.
    pub open spec fn goes_left(self, keys: Keys) -> bool {
        keys.left && self.permissions.left
    }

    pub open spec fn goes_right(self, keys: Keys) -> bool {
        keys.right && self.permissions.right
    }

    pub open spec fn goes_down(self, keys: Keys) -> bool {
        keys.down && self.permissions.down
    }

    pub open spec fn goes_up(self, keys: Keys) -> bool {
        keys.up && self.permissions.up
    }

    /// The state after one frame of movement. Each held and permitted
    /// direction moves the figure one step, left before right and down
    /// before up, so that opposite steps cancel; the figure faces the side
    /// of its last horizontal step.
    ///
    /// The two axes are stepped independently and the step is not scaled
    /// down when both move: a diagonal move covers a full step on each axis
    /// and so is longer than a straight one, by a factor of the square root
    /// of two. This is chosen, for the sake of whole coordinates, not
    /// overlooked.
    pub open spec fn moved(self, keys: Keys) -> SubjectState {
        let x1: i32 = if self.goes_left(keys) {
            stepped_down(self.position.x)
        } else {
            self.position.x
        };
        let x2: i32 = if self.goes_right(keys) {
            stepped_up(x1)
        } else {
            x1
        };
        let y1: i32 = if self.goes_down(keys) {
            stepped_down(self.position.y)
        } else {
            self.position.y
        };
        let y2: i32 = if self.goes_up(keys) {
            stepped_up(y1)
        } else {
            y1
        };
        SubjectState {
            position: Position { x: x2, y: y2 },
            facing: if self.goes_right(keys) {
                Facing::Right
            } else if self.goes_left(keys) {
                Facing::Left
            } else {
                self.facing
            },
            ..self
        }
    }

    /// The state after the permissions are derived anew from the position.
    pub open spec fn constrained(self, bounds: Bounds) -> SubjectState {
        SubjectState { permissions: bounds.permitted(self.position), ..self }
    }

    /// The state after every permission is withdrawn.
    pub open spec fn frozen(self) -> SubjectState {
        SubjectState { permissions: Permissions::none(), ..self }
    }

    /// The state after `delta` nanoseconds of animation: the timer counts
    /// them, and if the interval came due the frame gives way to the next
    /// frame of the held direction's pair.
    pub open spec fn animated(self, keys: Keys, delta: nat) -> SubjectState {
        SubjectState {
            frame: if self.ticker.comes_due(delta) {
                toggled(self.frame, keys.held())
            } else {
                self.frame
            },
            ticker: self.ticker.after(delta),
            ..self
        }
    }
}

impl View for Subject {
    type V = SubjectState;

    closed spec fn view(&self) -> SubjectState {
        SubjectState {
            position: self.position,
            facing: self.facing,
            permissions: self.permissions,
            frame: self.frame,
            ticker: self.ticker@,
        }
    }
}

impl Subject {
    /// The animation timer is well formed and the model is valid.
    pub closed spec fn wf(&self) -> bool {
        self.ticker.wf() && self@.valid()
    }

    /// A well-formed figure has a valid model.
    pub proof fn lemma_wf_valid(&self)
        requires
            self.wf(),
        ensures
            self@.valid(),
    {
    }

    /// A figure standing at `position`, free to move in every direction.
    pub fn new(position: Position) -> (s: Subject)
        ensures
            s.wf(),
            s@ == SubjectState::initial(position),
    {
        Subject {
            position,
            facing: Facing::Right,
            permissions: Permissions::granted(),
            frame: 0,
            ticker: Ticker::new(ANIMATION_INTERVAL_NS),
        }
    }

    /// Where the figure stands.
    pub fn position(&self) -> (p: Position)
        ensures
            p == self@.position,
    {
        self.position
    }

    /// The side the figure faces.
    pub fn facing(&self) -> (f: Facing)
        ensures
            f == self@.facing,
    {
        self.facing
    }

    /// Which directions the figure may move in.
    pub fn permissions(&self) -> (p: Permissions)
        ensures
            p == self@.permissions,
    {
        self.permissions
    }

    /// The frame of the sheet that is shown.
    pub fn frame(&self) -> (f: usize)
        ensures
            f == self@.frame,
    {
        self.frame
    }

    /// Moves the figure one step in each held and permitted direction.
    pub fn step(&mut self, keys: &Keys)
        requires
            old(self).wf(),
        ensures
            final(self).wf(),
            final(self)@ == old(self)@.moved(*keys),
    {
        if keys.left && self.permissions.left {
            self.position.x = step_down(self.position.x);
            self.facing = Facing::Left;
        }
        if keys.right && self.permissions.right {
            self.position.x = step_up(self.position.x);
            self.facing = Facing::Right;
        }
        if keys.down && self.permissions.down {
            self.position.y = step_down(self.position.y);
        }
        if keys.up && self.permissions.up {
            self.position.y = step_up(self.position.y);
        }
    }

    /// Derives the permissions anew from the position and the bounds.
    pub fn constrain(&mut self, bounds: &Bounds)
        requires
            old(self).wf(),
        ensures
            final(self).wf(),
            final(self)@ == old(self)@.constrained(*bounds),
    {
        self.permissions = bounds.permits(self.position);
    }

    /// Withdraws every permission.
    pub fn freeze(&mut self)
        requires
            old(self).wf(),
        ensures
            final(self).wf(),
            final(self)@ == old(self)@.frozen(),
    {
        self.permissions = Permissions::denied();
    }

    /// Counts `delta_ns` nanoseconds of animation and, if the interval came
    /// due, shows the next frame for the held direction. Returns whether the
    /// frame was replaced.
    pub fn animate(&mut self, keys: &Keys, delta_ns: u64) -> (due: bool)
        requires
            old(self).wf(),
        ensures
            final(self).wf(),
            final(self)@ == old(self)@.animated(*keys, delta_ns as nat),
            due == old(self)@.ticker.comes_due(delta_ns as nat),
    {
        let due: bool = self.ticker.tick(delta_ns);
        if due {
            self.frame = next_subject_frame(self.frame, keys.held_direction());
        }
        due
    }
}

/// Movement never takes the figure in a direction whose permission is
/// withdrawn, nor in one whose key is not held; with both permissions of an
/// axis withdrawn the figure keeps its place on that axis.
pub proof fn lemma_moves_only_where_permitted(s: SubjectState, keys: Keys)
    ensures
        !(keys.left && s.permissions.left) ==> s.moved(keys).position.x >= s.position.x,
        !(keys.right && s.permissions.right) ==> s.moved(keys).position.x <= s.position.x,
        !(keys.down && s.permissions.down) ==> s.moved(keys).position.y >= s.position.y,
        !(keys.up && s.permissions.up) ==> s.moved(keys).position.y <= s.position.y,
        !s.permissions.left && !s.permissions.right ==> s.moved(keys).position.x == s.position.x,
        !s.permissions.up && !s.permissions.down ==> s.moved(keys).position.y == s.position.y,
        s.permissions == Permissions::none() ==> s.moved(keys) == s,
{
}

/// A single held and permitted direction moves the figure by exactly one
/// step on that axis, as long as the coordinate has room for it.
pub proof fn lemma_single_step(s: SubjectState, keys: Keys)
    ensures
        s.goes_right(keys) && !s.goes_left(keys) && s.position.x <= i32::MAX - STEP
            ==> s.moved(keys).position.x == s.position.x + STEP,
        s.goes_left(keys) && !s.goes_right(keys) && s.position.x >= i32::MIN + STEP
            ==> s.moved(keys).position.x == s.position.x - STEP,
        s.goes_up(keys) && !s.goes_down(keys) && s.position.y <= i32::MAX - STEP
            ==> s.moved(keys).position.y == s.position.y + STEP,
        s.goes_down(keys) && !s.goes_up(keys) && s.position.y >= i32::MIN + STEP
            ==> s.moved(keys).position.y == s.position.y - STEP,
{
}

/// After the permissions are derived from the bounds, a direction is refused
/// exactly when the figure stands beyond the bound on that side, whatever
/// the permissions were before.
pub proof fn lemma_constrained_by_bounds(s: SubjectState, bounds: Bounds)
    ensures
        s.constrained(bounds).permissions.right <==> !(s.position.x > bounds.right),
        s.constrained(bounds).permissions.left <==> !(s.position.x < bounds.left),
        s.constrained(bounds).permissions.up <==> !(s.position.y > bounds.top),
        s.constrained(bounds).permissions.down <==> !(s.position.y < bounds.bottom),
        s.constrained(bounds).position == s.position,
{
}

/// A figure that starts within the bounds and has its permissions derived
/// before every movement never gets further than one step beyond them.
pub proof fn lemma_bounded_walk(s: SubjectState, bounds: Bounds, keys: Keys)
    requires
        bounds.left - STEP <= s.position.x <= bounds.right + STEP,
        bounds.bottom - STEP <= s.position.y <= bounds.top + STEP,
        bounds.left <= bounds.right,
        bounds.bottom <= bounds.top,
    ensures
        bounds.left - STEP <= s.constrained(bounds).moved(keys).position.x <= bounds.right + STEP,
        bounds.bottom - STEP <= s.constrained(bounds).moved(keys).position.y <= bounds.top + STEP,
{
}

/// The frame changes only when the animation interval comes due, and then
/// to the next frame of the held direction's pair; movement and the
/// withdrawal of permissions leave the frame alone.
pub proof fn lemma_frame_changes_on_elapse(s: SubjectState, keys: Keys, delta: nat)
    requires
        s.valid(),
    ensures
        !s.ticker.comes_due(delta) ==> s.animated(keys, delta).frame == s.frame,
        s.ticker.comes_due(delta) ==> s.animated(keys, delta).frame == toggled(s.frame, keys.held()),
        s.animated(keys, delta).valid(),
        s.moved(keys).frame == s.frame,
        s.frozen().frame == s.frame,
{
    vstd::arithmetic::div_mod::lemma_mod_bound((s.ticker.elapsed + delta) as int, s.ticker.interval as int);
}

} // verus!
