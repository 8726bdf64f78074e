//! One running game: the figure, the viewpoint, the pickup and the
//! countdown, and the rules that one frame applies to them.
//!
//! The rules run in a fixed order: movement, animation, the viewpoint's
//! pursuit, collection, and last the countdown. Permissions follow one
//! policy: they are left alone until the countdown runs out and are
//! withdrawn for good from then on. Bounds are not consulted.

use vstd::prelude::*;
use rand::rngs::ThreadRng;
use crate::camera::{follow, followed, Viewport};
use crate::chance::draw;
use crate::clock::NANOS_PER_SEC;
use crate::collectible::{
    is_spot, spot, touches, touching, Collectible, CollectibleState, LOCATIONS,
};
use crate::countdown::{Countdown, CountdownState};
use crate::geometry::{point, Position};
use crate::input::Keys;
use crate::subject::{Permissions, Subject, SubjectState};
use crate::ticker::{Ticker, TickerState};

verus! {

/// Length of the countdown, in nanoseconds.
pub const COUNTDOWN_NS: u64 = 120_000_000_000;

/// Nanoseconds between two moves of the pickup made without a collection.
pub const RELOCATION_INTERVAL_NS: u64 = 60_000_000_000;

/// Nanoseconds after which the music is to be started again.
pub const MUSIC_INTERVAL_NS: u64 = 65_000_000_000;

/// Seconds by which the countdown is set back each time the pickup moves
/// without a collection.
pub const REWIND_SECS: u64 = 30;

/// What a frame asks of the surroundings.
#[derive(Clone, Copy, Debug, PartialEq, Eq, Structural)]
pub struct FrameReport {
    /// Whether the music is to be started again.
    pub music_due: bool,
    /// The whole seconds left on the countdown.
    pub remaining_secs: u64,
}

/// One running game.
#[derive(Debug)]
pub struct Session {
    subject: Subject,
    viewpoint: Position,
    collectible: Collectible,
    relocation: Ticker,
    music: Ticker,
    countdown: Countdown,
    game_over: bool,
}

/// What one frame is given: the keys held, the time passed in nanoseconds,
/// the window, and the numbers of the places the pickup goes to if it moves.
pub struct FrameInput {
    pub keys: Keys,
    pub delta: nat,
    pub viewport: Viewport,
    pub first: int,
    pub second: int,
}

/// The model of a [`Session`].
pub struct SessionState {
    pub subject: SubjectState,
    pub viewpoint: Position,
    pub collectible: CollectibleState,
    /// The timer that moves the pickup without a collection.
    pub relocation: TickerState,
    /// The timer that starts the music again.
    pub music: TickerState,
    pub countdown: CountdownState,
    pub game_over: bool,
}

impl SessionState {
    /// Every part is valid; the game is over exactly when the countdown has
    /// finished, and then the figure has no permission left; the countdown
    /// waits, with nothing counted, exactly until the first collection.
    pub open spec fn valid(self) -> bool {
        &&& self.subject.valid()
        &&& self.collectible.valid()
        &&& self.relocation.valid()
        &&& self.music.valid()
        &&& self.countdown.valid()
        &&& self.game_over == self.countdown.finished
        &&& self.game_over ==> self.subject.permissions == Permissions::none()
        &&& self.countdown.paused == !self.collectible.collected_once
        &&& self.countdown.paused ==> self.countdown.elapsed == 0
    }

    /// The state a session starts in: figure, viewpoint and pickup at the
    /// origin, the countdown waiting, the game not over.
    pub open spec fn initial() -> SessionState {
        SessionState {
            subject: SubjectState::initial(point(0, 0)),
            viewpoint: point(0, 0),
            collectible: CollectibleState::initial(),
            relocation: TickerState { interval: RELOCATION_INTERVAL_NS as nat, elapsed: 0 },
            music: TickerState { interval: MUSIC_INTERVAL_NS as nat, elapsed: 0 },
            countdown: CountdownState::initial(COUNTDOWN_NS as nat),
            game_over: false,
        }
    }

    /// Movement: the figure steps as the keys and its permissions allow.
    pub open spec fn moved(self, keys: Keys) -> SessionState {
        SessionState { subject: self.subject.moved(keys), ..self }
    }

    /// Animation: figure and pickup count the time and change frames when
    /// their intervals come due.
    pub open spec fn animated(self, keys: Keys, delta: nat) -> SessionState {
        SessionState {
            subject: self.subject.animated(keys, delta),
            collectible: self.collectible.animated(delta),
            ..self
        }
    }

    /// Pursuit: the viewpoint follows the figure within the window.
    pub open spec fn followed(self, keys: Keys, viewport: Viewport) -> SessionState {
        SessionState {
            viewpoint: followed(self.viewpoint, self.subject.position, keys, viewport),
            ..self
        }
    }

    /// Whether the pickup moves this frame without being collected: its
    /// timer comes due and the game is not over.
    pub open spec fn relocation_due(self, delta: nat) -> bool {
        self.relocation.comes_due(delta) && !self.game_over
    }

    /// The first half of collection: if a move without collection is due,
    /// the pickup goes to the place numbered `index` and the countdown is
    /// set back.
    pub open spec fn shifted(self, delta: nat, index: int) -> SessionState {
        if self.relocation_due(delta) {
            SessionState {
                collectible: self.collectible.relocated(index),
                countdown: self.countdown.rewound(REWIND_SECS as nat),
                ..self
            }
        } else {
            self
        }
    }

    /// Whether the figure collects the pickup: their boxes overlap while the
    /// activate key is held.
    pub open spec fn collects(self, keys: Keys) -> bool {
        touching(self.subject.position, self.collectible.position) && keys.activate
    }

    /// The second half of collection: if the figure collects the pickup, the
    /// pickup goes to the place numbered `index`; if the countdown was still
    /// waiting, it is started and the collection recorded as the first.
    pub open spec fn picked(self, keys: Keys, index: int) -> SessionState {
        if !self.collects(keys) {
            self
        } else if self.countdown.paused {
            SessionState {
                collectible: self.collectible.relocated(index).marked(),
                countdown: self.countdown.started(),
                ..self
            }
        } else {
            SessionState { collectible: self.collectible.relocated(index), ..self }
        }
    }

    /// Collection: the two timers count the time, then the pickup is moved
    /// if that is due, then it is collected if the figure touches it where
    /// it then lies. `first` and `second` number the places it goes to.
    pub open spec fn collected(
        self,
        keys: Keys,
        delta: nat,
        first: int,
        second: int,
    ) -> SessionState {
        let s: SessionState = self.shifted(delta, first).picked(keys, second);
        SessionState {
            relocation: self.relocation.after(delta),
            music: self.music.after(delta),
            ..s
        }
    }

    /// Countdown: the countdown counts the time; once it has finished, the
    /// game is over and the figure loses every permission.
    pub open spec fn counted(self, delta: nat) -> SessionState {
        if self.countdown.after(delta).finished {
            SessionState {
                subject: self.subject.frozen(),
                countdown: self.countdown.after(delta),
                game_over: true,
                ..self
            }
        } else {
            SessionState { countdown: self.countdown.after(delta), ..self }
        }
    }

    /// One frame: all rules in their fixed order.
    pub open spec fn frame(
        self,
        keys: Keys,
        delta: nat,
        viewport: Viewport,
        first: int,
        second: int,
    ) -> SessionState {
        self.moved(keys).animated(keys, delta).followed(keys, viewport).collected(
            keys,
            delta,
            first,
            second,
        ).counted(delta)
    }

    /// The state after a run of frames, one for each input in turn.
    pub open spec fn run(self, inputs: Seq<FrameInput>) -> SessionState
        decreases inputs.len(),
    {
        if inputs.len() == 0 {
            self
        } else {
            self.frame(
                inputs[0].keys,
                inputs[0].delta,
                inputs[0].viewport,
                inputs[0].first,
                inputs[0].second,
            ).run(inputs.drop_first())
        }
    }

    /// What the frame that leads from `self` asks of the surroundings, given
    /// the state it leads to.
    pub open spec fn report(self, delta: nat, after: SessionState) -> FrameReport {
        FrameReport {
            music_due: self.music.comes_due(delta),
            remaining_secs: after.countdown.remaining_secs() as u64,
        }
    }
}

impl View for Session {
    type V = SessionState;

    closed spec fn view(&self) -> SessionState {
        SessionState {
            subject: self.subject@,
            viewpoint: self.viewpoint,
            collectible: self.collectible@,
            relocation: self.relocation@,
            music: self.music@,
            countdown: self.countdown@,
            game_over: self.game_over,
        }
    }
}

impl Session {
    /// Every part is well formed and the model is valid.
    pub closed spec fn wf(&self) -> bool {
        &&& self.subject.wf()
        &&& self.collectible.wf()
        &&& self.relocation.wf()
        &&& self.music.wf()
        &&& self.countdown.wf()
        &&& self@.valid()
    }

    /// A well-formed session has a valid model.
    pub proof fn lemma_wf_valid(&self)
        requires
            self.wf(),
        ensures
            self@.valid(),
    {
    }

    /// A session in its starting state.
    pub fn new() -> (s: Session)
        ensures
            s.wf(),
            s@ == SessionState::initial(),
    {
        let origin: Position = Position { x: 0, y: 0 };
        let subject: Subject = Subject::new(origin);
        let collectible: Collectible = Collectible::new();
        let relocation: Ticker = Ticker::new(RELOCATION_INTERVAL_NS);
        let music: Ticker = Ticker::new(MUSIC_INTERVAL_NS);
        let countdown: Countdown = Countdown::new(COUNTDOWN_NS);
        proof {
            subject.lemma_wf_valid();
            collectible.lemma_wf_valid();
            relocation.lemma_wf_valid();
            music.lemma_wf_valid();
            countdown.lemma_wf_valid();
        }
        Session {
            subject,
            viewpoint: origin,
            collectible,
            relocation,
            music,
            countdown,
            game_over: false,
        }
    }

    /// The figure.
    pub fn subject(&self) -> (s: &Subject)
        ensures
            s@ == self@.subject,
            self.wf() ==> s.wf(),
    {
        &self.subject
    }

    /// Where the viewpoint stands.
    pub fn viewpoint(&self) -> (p: Position)
        ensures
            p == self@.viewpoint,
    {
        self.viewpoint
    }

    /// The pickup.
    pub fn collectible(&self) -> (c: &Collectible)
        ensures
            c@ == self@.collectible,
            self.wf() ==> c.wf(),
    {
        &self.collectible
    }

    /// The countdown.
    pub fn countdown(&self) -> (c: &Countdown)
        ensures
            c@ == self@.countdown,
            self.wf() ==> c.wf(),
    {
        &self.countdown
    }

    /// Whether the game is over.
    pub fn is_game_over(&self) -> (over: bool)
        ensures
            over == self@.game_over,
    {
        self.game_over
    }

    /// Applies the movement rule.
    pub fn movement(&mut self, keys: &Keys)
        requires
            old(self).wf(),
        ensures
            final(self).wf(),
            final(self)@ == old(self)@.moved(*keys),
    {
        proof {
            lemma_moved_valid(self@, *keys);
        }
        self.subject.step(keys);
    }

    /// Applies the animation rule to the figure and to the pickup.
    pub fn animation(&mut self, keys: &Keys, delta_ns: u64)
        requires
            old(self).wf(),
        ensures
            final(self).wf(),
            final(self)@ == old(self)@.animated(*keys, delta_ns as nat),
    {
        proof {
            lemma_animated_valid(self@, *keys, delta_ns as nat);
        }
        self.collectible.animate(delta_ns);
        self.subject.animate(keys, delta_ns);
    }

    /// Applies the pursuit rule to the viewpoint.
    pub fn follow_player(&mut self, keys: &Keys, viewport: &Viewport)
        requires
            old(self).wf(),
        ensures
            final(self).wf(),
            final(self)@ == old(self)@.followed(*keys, *viewport),
    {
        self.viewpoint = follow(self.viewpoint, self.subject.position(), keys, viewport);
    }

    /// Applies the collection rule with the given choice of places: `first`
    /// for a move without collection, `second` for a collection. Returns
    /// whether the music is to be started again.
    pub fn collect_with(
        &mut self,
        keys: &Keys,
        delta_ns: u64,
        first: usize,
        second: usize,
    ) -> (music_due: bool)
        requires
            old(self).wf(),
            first < LOCATIONS,
            second < LOCATIONS,
        ensures
            final(self).wf(),
            final(self)@ == old(self)@.collected(
                *keys,
                delta_ns as nat,
                first as int,
                second as int,
            ),
            music_due == old(self)@.music.comes_due(delta_ns as nat),
    {
        proof {
            lemma_collected_valid(self@, *keys, delta_ns as nat, first as int, second as int);
        }
        let music_due: bool = self.music.tick(delta_ns);
        let due: bool = self.relocation.tick(delta_ns);
        if due && !self.game_over {
            self.collectible.relocate(first);
            self.countdown.rewind(REWIND_SECS);
        }
        if touches(self.subject.position(), self.collectible.position()) && keys.activate {
            self.collectible.relocate(second);
            if self.countdown.is_paused() {
                self.countdown.start();
                self.collectible.mark_collected();
            }
        }
        music_due
    }

    /// Applies the collection rule, choosing the places at random. Whatever
    /// is drawn, the outcome is that of [`Session::collect_with`] for two of
    /// the places.
    pub fn collect(&mut self, keys: &Keys, delta_ns: u64) -> (music_due: bool)
        requires
            old(self).wf(),
        ensures
            final(self).wf(),
            exists|first: int, second: int|
                0 <= first < LOCATIONS && 0 <= second < LOCATIONS && final(self)@ == #[trigger] old(
                    self,
                )@.collected(*keys, delta_ns as nat, first, second),
            music_due == old(self)@.music.comes_due(delta_ns as nat),
    {
        let mut rng: ThreadRng = rand::thread_rng();
        let first: usize = draw(&mut rng, LOCATIONS);
        let second: usize = draw(&mut rng, LOCATIONS);
        self.collect_with(keys, delta_ns, first, second)
    }

    /// Applies the countdown rule and returns the whole seconds left.
    pub fn game_over(&mut self, delta_ns: u64) -> (remaining_secs: u64)
        requires
            old(self).wf(),
        ensures
            final(self).wf(),
            final(self)@ == old(self)@.counted(delta_ns as nat),
            remaining_secs == final(self)@.countdown.remaining_secs(),
    {
        proof {
            lemma_counted_valid(self@, delta_ns as nat);
        }
        if self.countdown.tick(delta_ns) {
            self.game_over = true;
            self.subject.freeze();
        }
        self.countdown.remaining_secs()
    }

    /// Runs one frame with the given choice of places.
    pub fn frame_with(
        &mut self,
        keys: &Keys,
        delta_ns: u64,
        viewport: &Viewport,
        first: usize,
        second: usize,
    ) -> (report: FrameReport)
        requires
            old(self).wf(),
            first < LOCATIONS,
            second < LOCATIONS,
        ensures
            final(self).wf(),
            final(self)@ == old(self)@.frame(
                *keys,
                delta_ns as nat,
                *viewport,
                first as int,
                second as int,
            ),
            report == old(self)@.report(delta_ns as nat, final(self)@),
    {
        self.movement(keys);
        self.animation(keys, delta_ns);
        self.follow_player(keys, viewport);
        let music_due: bool = self.collect_with(keys, delta_ns, first, second);
        let remaining_secs: u64 = self.game_over(delta_ns);
        FrameReport { music_due, remaining_secs }
    }

    /// Runs one frame, choosing the places at random. Whatever is drawn, the
    /// outcome is that of [`Session::frame_with`] for two of the places.
    pub fn frame(
        &mut self,
        keys: &Keys,
        delta_ns: u64,
        viewport: &Viewport,
    ) -> (report: FrameReport)
        requires
            old(self).wf(),
        ensures
            final(self).wf(),
            exists|first: int, second: int|
                0 <= first < LOCATIONS && 0 <= second < LOCATIONS && final(self)@ == #[trigger] old(
                    self,
                )@.frame(*keys, delta_ns as nat, *viewport, first, second),
            report == old(self)@.report(delta_ns as nat, final(self)@),
    {
        let mut rng: ThreadRng = rand::thread_rng();
        let first: usize = draw(&mut rng, LOCATIONS);
        let second: usize = draw(&mut rng, LOCATIONS);
        self.frame_with(keys, delta_ns, viewport, first, second)
    }
}

/// Movement leads from a valid state to a valid state.
proof fn lemma_moved_valid(s: SessionState, keys: Keys)
    requires
        s.valid(),
    ensures
        s.moved(keys).valid(),
{
}

/// Animation leads from a valid state to a valid state.
proof fn lemma_animated_valid(s: SessionState, keys: Keys, delta: nat)
    requires
        s.valid(),
    ensures
        s.animated(keys, delta).valid(),
{
    crate::subject::lemma_frame_changes_on_elapse(s.subject, keys, delta);
    crate::collectible::lemma_collectible_frame(s.collectible, delta);
}

/// Collection leads from a valid state to a valid state.
proof fn lemma_collected_valid(s: SessionState, keys: Keys, delta: nat, first: int, second: int)
    requires
        s.valid(),
    ensures
        s.shifted(delta, first).valid(),
        s.collected(keys, delta, first, second).valid(),
{
    crate::countdown::lemma_valid_preserved(s.countdown, delta, REWIND_SECS as nat);
    vstd::arithmetic::div_mod::lemma_mod_bound(
        (s.relocation.elapsed + delta) as int,
        s.relocation.interval as int,
    );
    vstd::arithmetic::div_mod::lemma_mod_bound(
        (s.music.elapsed + delta) as int,
        s.music.interval as int,
    );
    assert(s.shifted(delta, first).picked(keys, second).valid());
}

/// The countdown rule leads from a valid state to a valid state.
proof fn lemma_counted_valid(s: SessionState, delta: nat)
    requires
        s.valid(),
    ensures
        s.counted(delta).valid(),
{
    crate::countdown::lemma_valid_preserved(s.countdown, delta, REWIND_SECS as nat);
}

/// The starting state is valid, and every frame leads from a valid state to
/// a valid state, whatever the keys, the time and the places chosen.
pub proof fn lemma_frame_valid(
    s: SessionState,
    keys: Keys,
    delta: nat,
    viewport: Viewport,
    first: int,
    second: int,
)
    requires
        s.valid(),
    ensures
        SessionState::initial().valid(),
        s.frame(keys, delta, viewport, first, second).valid(),
{
    lemma_moved_valid(s, keys);
    let a: SessionState = s.moved(keys);
    lemma_animated_valid(a, keys, delta);
    let b: SessionState = a.animated(keys, delta).followed(keys, viewport);
    lemma_collected_valid(b, keys, delta, first, second);
    lemma_counted_valid(b.collected(keys, delta, first, second), delta);
}

/// Within a frame only the movement rule moves the figure, so a frame never
/// takes it in a direction whose permission is withdrawn or whose key is
/// not held, and once the game is over the figure stays where it is.
pub proof fn lemma_frame_moves_only_where_permitted(
    s: SessionState,
    keys: Keys,
    delta: nat,
    viewport: Viewport,
    first: int,
    second: int,
)
    requires
        s.valid(),
    ensures
        s.frame(keys, delta, viewport, first, second).subject.position == s.subject.moved(
            keys,
        ).position,
        !(keys.left && s.subject.permissions.left) ==> s.frame(
            keys,
            delta,
            viewport,
            first,
            second,
        ).subject.position.x >= s.subject.position.x,
        !(keys.right && s.subject.permissions.right) ==> s.frame(
            keys,
            delta,
            viewport,
            first,
            second,
        ).subject.position.x <= s.subject.position.x,
        !(keys.down && s.subject.permissions.down) ==> s.frame(
            keys,
            delta,
            viewport,
            first,
            second,
        ).subject.position.y >= s.subject.position.y,
        !(keys.up && s.subject.permissions.up) ==> s.frame(
            keys,
            delta,
            viewport,
            first,
            second,
        ).subject.position.y <= s.subject.position.y,
        s.game_over ==> s.frame(keys, delta, viewport, first, second).subject.position
            == s.subject.position,
{
    crate::subject::lemma_moves_only_where_permitted(s.subject, keys);
}

/// The pickup changes place only when a move without collection is due or
/// when the figure touches it while the activate key is held; the first
/// collection is recorded, and the countdown started, only in the latter
/// case. A collection puts the pickup on one of the ten places.
pub proof fn lemma_collection_needs_contact_and_key(
    s: SessionState,
    keys: Keys,
    delta: nat,
    first: int,
    second: int,
)
    requires
        s.valid(),
        0 <= first < LOCATIONS,
        0 <= second < LOCATIONS,
    ensures
        !s.collects(keys) ==> s.picked(keys, second) == s,
        !keys.activate ==> s.picked(keys, second) == s,
        !touching(s.subject.position, s.collectible.position) ==> s.picked(keys, second) == s,
        s.collects(keys) ==> s.picked(keys, second).collectible.position == spot(second)
            && s.picked(keys, second).collectible.collected_once && !s.picked(
            keys,
            second,
        ).countdown.paused,
        !s.relocation_due(delta) && !s.collects(keys) ==> s.collected(
            keys,
            delta,
            first,
            second,
        ).collectible == s.collectible,
        !keys.activate ==> s.collected(keys, delta, first, second).collectible.collected_once
            == s.collectible.collected_once && s.collected(
            keys,
            delta,
            first,
            second,
        ).countdown.paused == s.countdown.paused,
        s.collected(keys, delta, first, second).collectible.position == s.collectible.position
            || is_spot(s.collected(keys, delta, first, second).collectible.position),
{
    assert(is_spot(spot(first)));
    assert(is_spot(spot(second)));
}

/// A move of the pickup without collection takes thirty seconds off the
/// countdown's counted time, to the nanosecond, wherever that much has been
/// counted, and leaves nothing counted where less has been; when no such
/// move is due, or the game is over, the countdown is left as it stands.
pub proof fn lemma_relocation_sets_back(s: SessionState, delta: nat, index: int)
    requires
        s.valid(),
    ensures
        s.relocation_due(delta) && s.countdown.elapsed >= REWIND_SECS * NANOS_PER_SEC
            ==> s.shifted(delta, index).countdown.elapsed == s.countdown.elapsed - REWIND_SECS
            * NANOS_PER_SEC,
        s.relocation_due(delta) && s.countdown.elapsed < REWIND_SECS * NANOS_PER_SEC
            ==> s.shifted(delta, index).countdown.elapsed == 0,
        s.relocation_due(delta) ==> s.shifted(delta, index).collectible.position == spot(index),
        !s.relocation_due(delta) ==> s.shifted(delta, index) == s,
        s.game_over ==> s.shifted(delta, index) == s,
{
}

/// While the countdown waits, no rule advances its counted time: the
/// countdown rule leaves the whole state as it is, and a frame that ends
/// with the countdown still waiting ends with the countdown unchanged.
pub proof fn lemma_paused_countdown_waits(
    s: SessionState,
    keys: Keys,
    delta: nat,
    viewport: Viewport,
    first: int,
    second: int,
)
    requires
        s.valid(),
        s.countdown.paused,
    ensures
        s.counted(delta) == s,
        s.shifted(delta, first).countdown == s.countdown,
        s.frame(keys, delta, viewport, first, second).countdown.paused ==> s.frame(
            keys,
            delta,
            viewport,
            first,
            second,
        ).countdown == s.countdown,
{
}

/// The countdown rule ends the game on exactly the frame in which the
/// running countdown reaches its length, and in that same frame the figure
/// loses all four permissions at once.
pub proof fn lemma_game_over_on_reaching(s: SessionState, delta: nat)
    requires
        s.valid(),
        !s.game_over,
    ensures
        s.counted(delta).game_over <==> !s.countdown.paused && s.countdown.elapsed + delta
            >= s.countdown.duration,
        s.counted(delta).game_over ==> s.counted(delta).subject.permissions
            == Permissions::none(),
        !s.counted(delta).game_over ==> s.counted(delta).subject == s.subject,
{
}

/// Once the game is over it stays over: every later frame leaves the game
/// over, the permissions withdrawn, the countdown as it stands and the
/// figure where it is.
pub proof fn lemma_game_over_is_final(
    s: SessionState,
    keys: Keys,
    delta: nat,
    viewport: Viewport,
    first: int,
    second: int,
)
    requires
        s.valid(),
        s.game_over,
    ensures
        s.frame(keys, delta, viewport, first, second).game_over,
        s.frame(keys, delta, viewport, first, second).subject.permissions == Permissions::none(),
        s.frame(keys, delta, viewport, first, second).subject.position == s.subject.position,
        s.frame(keys, delta, viewport, first, second).countdown == s.countdown,
{
    lemma_moved_valid(s, keys);
    lemma_animated_valid(s.moved(keys), keys, delta);
    lemma_collected_valid(
        s.moved(keys).animated(keys, delta).followed(keys, viewport),
        keys,
        delta,
        first,
        second,
    );
}

/// From the frame that ends the game onward, through any number of frames
/// with any input, the game stays over, the permissions stay withdrawn, the
/// countdown stays as it stands and the figure stays where it is.
pub proof fn lemma_game_over_forever(s: SessionState, inputs: Seq<FrameInput>)
    requires
        s.valid(),
        s.game_over,
    ensures
        s.run(inputs).valid(),
        s.run(inputs).game_over,
        s.run(inputs).subject.permissions == Permissions::none(),
        s.run(inputs).subject.position == s.subject.position,
        s.run(inputs).countdown == s.countdown,
    decreases inputs.len(),
{
    if inputs.len() > 0 {
        let i: FrameInput = inputs[0];
        lemma_frame_valid(s, i.keys, i.delta, i.viewport, i.first, i.second);
        lemma_game_over_is_final(s, i.keys, i.delta, i.viewport, i.first, i.second);
        lemma_game_over_forever(
            s.frame(i.keys, i.delta, i.viewport, i.first, i.second),
            inputs.drop_first(),
        );
    }
}

/// Any number of frames leads from a valid state to a valid state; the game
/// is never over while the countdown waits, and once over it is never
/// resumed.
pub proof fn lemma_run_valid(s: SessionState, inputs: Seq<FrameInput>)
    requires
        s.valid(),
    ensures
        s.run(inputs).valid(),
        s.run(inputs).countdown.paused ==> !s.run(inputs).game_over,
        s.game_over ==> s.run(inputs).game_over,
    decreases inputs.len(),
{
    if inputs.len() > 0 {
        let i: FrameInput = inputs[0];
        lemma_frame_valid(s, i.keys, i.delta, i.viewport, i.first, i.second);
        lemma_run_valid(
            s.frame(i.keys, i.delta, i.viewport, i.first, i.second),
            inputs.drop_first(),
        );
        if s.game_over {
            lemma_game_over_forever(s, inputs);
        }
    }
}

} // verus!
