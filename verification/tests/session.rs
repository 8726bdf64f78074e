use souler_power::camera::Viewport;
use souler_power::collectible::{location, LOCATIONS};
use souler_power::geometry::Position;
use souler_power::input::Keys;
use souler_power::session::{
    FrameReport, Session, COUNTDOWN_NS, MUSIC_INTERVAL_NS, RELOCATION_INTERVAL_NS, REWIND_SECS,
};
use souler_power::subject::Permissions;

const SECOND: u64 = 1_000_000_000;
const TICK: u64 = 16_000_000;

fn at(x: i32, y: i32) -> Position {
    Position { x, y }
}

fn window() -> Viewport {
    Viewport { width: 1280, height: 720 }
}

fn idle() -> Keys {
    Keys::none()
}

fn activate() -> Keys {
    Keys { up: false, down: false, left: false, right: false, activate: true }
}

fn right() -> Keys {
    Keys { up: false, down: false, left: false, right: true, activate: false }
}

fn is_a_location(p: Position) -> bool {
    (0..LOCATIONS).any(|index| location(index) == p)
}

#[test]
fn session_constants() {
    assert_eq!(COUNTDOWN_NS, 120 * SECOND);
    assert_eq!(RELOCATION_INTERVAL_NS, 60 * SECOND);
    assert_eq!(MUSIC_INTERVAL_NS, 65 * SECOND);
    assert_eq!(REWIND_SECS, 30);
}

#[test]
fn session_starts_waiting() {
    let session = Session::new();
    assert_eq!(session.subject().position(), at(0, 0));
    assert_eq!(session.subject().permissions(), Permissions::granted());
    assert_eq!(session.viewpoint(), at(0, 0));
    assert_eq!(session.collectible().position(), at(0, 0));
    assert!(!session.collectible().collected_once());
    assert!(session.countdown().is_paused());
    assert!(!session.countdown().is_finished());
    assert_eq!(session.countdown().remaining_secs(), 120);
    assert!(!session.is_game_over());
}

#[test]
fn first_collection_starts_the_countdown() {
    let mut session = Session::new();
    assert!(session.countdown().is_paused());
    assert!(!session.collectible().collected_once());
    let report = session.frame(&activate(), TICK, &window());
    assert!(!session.countdown().is_paused());
    assert!(session.collectible().collected_once());
    assert!(is_a_location(session.collectible().position()));
    assert!(!session.is_game_over());
    assert!(!report.music_due);
    assert_eq!(report.remaining_secs, 119);
}

#[test]
fn random_collections_land_on_the_ten_places() {
    for _ in 0..200 {
        let mut session = Session::new();
        session.collect(&activate(), TICK);
        assert!(is_a_location(session.collectible().position()));
        assert!(session.collectible().collected_once());
    }
}

#[test]
fn random_relocations_land_on_the_ten_places() {
    for _ in 0..200 {
        let mut session = Session::new();
        session.frame(&idle(), RELOCATION_INTERVAL_NS, &window());
        assert!(is_a_location(session.collectible().position()));
        assert!(!session.collectible().collected_once());
        assert!(session.countdown().is_paused());
    }
}

#[test]
fn first_collection_with_chosen_places() {
    let mut session = Session::new();
    let report = session.frame_with(&activate(), TICK, &window(), 2, 7);
    assert_eq!(session.collectible().position(), at(-158, 242));
    assert!(session.collectible().collected_once());
    assert!(!session.countdown().is_paused());
    assert_eq!(report, FrameReport { music_due: false, remaining_secs: 119 });
    assert_eq!(session.subject().position(), at(0, 0));
}

#[test]
fn no_collection_without_the_key() {
    let mut session = Session::new();
    session.frame_with(&idle(), TICK, &window(), 2, 7);
    session.frame_with(&right(), TICK, &window(), 2, 7);
    assert_eq!(session.collectible().position(), at(0, 0));
    assert!(!session.collectible().collected_once());
    assert!(session.countdown().is_paused());
}

#[test]
fn no_collection_without_contact() {
    let mut session = Session::new();
    for _ in 0..8 {
        session.frame_with(&right(), TICK, &window(), 2, 7);
    }
    assert_eq!(session.subject().position(), at(16, 0));
    session.frame_with(&activate(), TICK, &window(), 2, 7);
    assert_eq!(session.collectible().position(), at(0, 0));
    assert!(!session.collectible().collected_once());
    assert!(session.countdown().is_paused());
    // one step back and the boxes overlap again
    let back = Keys { up: false, down: false, left: true, right: false, activate: true };
    session.frame_with(&back, TICK, &window(), 2, 7);
    assert_eq!(session.subject().position(), at(14, 0));
    assert_eq!(session.collectible().position(), at(-158, 242));
    assert!(session.collectible().collected_once());
}

#[test]
fn paused_countdown_does_not_advance() {
    let mut session = Session::new();
    for _ in 0..50 {
        let report = session.frame_with(&right(), SECOND, &window(), 0, 0);
        assert_eq!(report.remaining_secs, 120);
    }
    assert_eq!(session.countdown().elapsed_secs(), 0);
    assert!(session.countdown().is_paused());
    assert!(!session.is_game_over());
}

#[test]
fn relocation_moves_the_pickup_and_rewinds() {
    let mut session = Session::new();
    // collect at once, then let 59 seconds pass
    session.frame_with(&activate(), SECOND, &window(), 1, 4);
    assert_eq!(session.collectible().position(), at(-532, -30));
    session.frame_with(&idle(), 58 * SECOND, &window(), 1, 4);
    assert_eq!(session.countdown().elapsed_secs(), 59);
    assert_eq!(session.collectible().position(), at(-532, -30));
    // the relocation timer comes due at 60 seconds
    let report = session.frame_with(&idle(), SECOND + SECOND / 2, &window(), 1, 4);
    assert_eq!(session.collectible().position(), at(126, -206));
    // 59 seconds less 30, then this frame's one and a half
    assert_eq!(session.countdown().elapsed_secs(), 30);
    assert_eq!(report.remaining_secs, 89);
    assert!(!report.music_due);
}

#[test]
fn relocation_takes_thirty_seconds_off_to_the_nanosecond() {
    let mut session = Session::new();
    session.frame_with(&idle(), 14 * SECOND + SECOND / 2, &window(), 1, 4);
    session.frame_with(&activate(), 0, &window(), 1, 0);
    assert_eq!(session.collectible().position(), at(0, -72));
    session.frame_with(&idle(), 45 * SECOND + SECOND / 4, &window(), 1, 4);
    assert_eq!(session.countdown().elapsed_secs(), 45);
    // the relocation finds 45.25 s counted and leaves 15.25 s; the frame adds its quarter
    let report = session.frame_with(&idle(), SECOND / 4, &window(), 1, 4);
    assert_eq!(session.collectible().position(), at(126, -206));
    assert_eq!(session.countdown().elapsed_secs(), 15);
    assert_eq!(report.remaining_secs, 104);
    // half a second more completes the sixteenth second: the fraction was kept
    let report = session.frame_with(&idle(), SECOND / 2, &window(), 1, 4);
    assert_eq!(session.countdown().elapsed_secs(), 16);
    assert_eq!(report.remaining_secs, 104);
}

#[test]
fn relocation_before_the_first_collection_leaves_the_countdown_waiting() {
    let mut session = Session::new();
    session.frame_with(&idle(), 60 * SECOND, &window(), 5, 4);
    assert_eq!(session.collectible().position(), at(-64, -226));
    assert!(session.countdown().is_paused());
    assert_eq!(session.countdown().elapsed_secs(), 0);
    assert!(!session.collectible().collected_once());
}

#[test]
fn relocation_under_the_figure_is_collected_in_the_same_frame() {
    let mut session = Session::new();
    // walk to the first place: (0, -72)
    let down = Keys { up: false, down: true, left: false, right: false, activate: false };
    for _ in 0..36 {
        session.frame_with(&down, TICK, &window(), 0, 3);
    }
    assert_eq!(session.subject().position(), at(0, -72));
    assert_eq!(session.collectible().position(), at(0, 0));
    // the pickup arrives under the figure while the key is held
    session.frame_with(&activate(), 60 * SECOND, &window(), 0, 3);
    assert_eq!(session.collectible().position(), at(400, -49));
    assert!(session.collectible().collected_once());
    assert!(!session.countdown().is_paused());
}

#[test]
fn music_comes_due_every_sixty_five_seconds() {
    let mut session = Session::new();
    let report = session.frame_with(&idle(), 64 * SECOND, &window(), 0, 0);
    assert!(!report.music_due);
    let report = session.frame_with(&idle(), SECOND, &window(), 0, 0);
    assert!(report.music_due);
    let report = session.frame_with(&idle(), SECOND, &window(), 0, 0);
    assert!(!report.music_due);
    let report = session.frame(&idle(), 64 * SECOND, &window());
    assert!(report.music_due);
}

#[test]
fn game_over_freezes_the_figure_for_good() {
    let mut session = Session::new();
    session.frame_with(&activate(), TICK, &window(), 8, 8);
    session.frame_with(&right(), 59 * SECOND, &window(), 8, 8);
    assert_eq!(session.subject().position(), at(2, 0));
    assert!(!session.is_game_over());
    // each relocation, a minute apart, sets the countdown back by 30 s
    session.frame_with(&right(), SECOND, &window(), 8, 8);
    assert_eq!(session.countdown().elapsed_secs(), 30);
    // the 16 ms of the first frame stay on the clock through every setback
    let report = session.frame_with(&right(), 59 * SECOND, &window(), 8, 8);
    assert_eq!(report.remaining_secs, 30);
    session.frame_with(&right(), SECOND, &window(), 8, 8);
    assert_eq!(session.countdown().elapsed_secs(), 60);
    let report = session.frame_with(&right(), 59 * SECOND, &window(), 8, 8);
    assert_eq!(report.remaining_secs, 0);
    assert!(!session.is_game_over());
    let report = session.frame_with(&right(), SECOND, &window(), 8, 8);
    assert_eq!(report.remaining_secs, 29);
    assert!(!session.is_game_over());
    assert_eq!(session.subject().position(), at(12, 0));
    assert_eq!(session.subject().permissions(), Permissions::granted());
    let report = session.frame_with(&right(), 30 * SECOND, &window(), 8, 8);
    assert_eq!(report.remaining_secs, 0);
    assert!(session.is_game_over());
    assert!(session.countdown().is_finished());
    assert_eq!(session.subject().permissions(), Permissions::denied());
    // the step of the frame that ended the game was still taken
    assert_eq!(session.subject().position(), at(14, 0));
    let all = Keys { up: true, down: true, left: true, right: true, activate: true };
    for _ in 0..100 {
        session.frame(&right(), SECOND, &window());
        session.frame(&all, 61 * SECOND, &window());
        assert!(session.is_game_over());
        assert_eq!(session.subject().permissions(), Permissions::denied());
        assert_eq!(session.subject().position(), at(14, 0));
        assert_eq!(session.countdown().elapsed_secs(), 120);
    }
}

#[test]
fn game_over_in_one_long_frame() {
    let mut session = Session::new();
    session.frame_with(&activate(), TICK, &window(), 0, 0);
    // the relocation falls into the same frame and finds nothing to set back
    let report = session.frame_with(&right(), 120 * SECOND, &window(), 3, 0);
    assert_eq!(session.collectible().position(), at(400, -49));
    assert_eq!(report.remaining_secs, 0);
    assert!(session.is_game_over());
    assert_eq!(session.subject().permissions(), Permissions::denied());
}

#[test]
fn game_over_stops_the_relocation() {
    let mut session = Session::new();
    session.frame_with(&activate(), TICK, &window(), 6, 6);
    assert_eq!(session.collectible().position(), at(262, 20));
    session.frame_with(&idle(), 59 * SECOND, &window(), 6, 6);
    session.frame_with(&idle(), SECOND, &window(), 2, 6);
    assert_eq!(session.collectible().position(), at(366, 294));
    session.frame_with(&idle(), 59 * SECOND, &window(), 6, 6);
    session.frame_with(&idle(), SECOND, &window(), 3, 6);
    assert_eq!(session.collectible().position(), at(400, -49));
    session.frame_with(&idle(), 59 * SECOND, &window(), 6, 6);
    session.frame_with(&idle(), SECOND, &window(), 5, 6);
    assert_eq!(session.collectible().position(), at(-64, -226));
    assert_eq!(session.countdown().elapsed_secs(), 90);
    assert!(!session.is_game_over());
    session.frame_with(&idle(), 30 * SECOND, &window(), 6, 6);
    assert!(session.is_game_over());
    session.frame_with(&idle(), 60 * SECOND, &window(), 9, 9);
    session.frame_with(&idle(), 60 * SECOND, &window(), 9, 9);
    assert_eq!(session.collectible().position(), at(-64, -226));
    assert_eq!(session.countdown().elapsed_secs(), 120);
}

#[test]
fn collection_goes_on_after_the_game_is_over() {
    let mut session = Session::new();
    session.frame_with(&activate(), TICK, &window(), 0, 0);
    assert_eq!(session.collectible().position(), at(0, -72));
    let down = Keys { up: false, down: true, left: false, right: false, activate: false };
    for _ in 0..29 {
        session.frame_with(&down, TICK, &window(), 0, 0);
    }
    assert_eq!(session.subject().position(), at(0, -58));
    session.frame_with(&idle(), 120 * SECOND, &window(), 0, 0);
    assert!(session.is_game_over());
    assert_eq!(session.collectible().position(), at(0, -72));
    session.frame_with(&activate(), TICK, &window(), 1, 7);
    assert_eq!(session.collectible().position(), at(-158, 242));
    assert!(session.is_game_over());
    assert_eq!(session.countdown().elapsed_secs(), 120);
}

#[test]
fn viewpoint_follows_beyond_the_threshold() {
    let mut session = Session::new();
    // width 1280: the viewpoint holds up to 246 units
    for _ in 0..123 {
        session.frame_with(&right(), TICK, &window(), 0, 0);
        assert_eq!(session.viewpoint(), at(0, 0));
    }
    assert_eq!(session.subject().position(), at(246, 0));
    session.frame_with(&right(), TICK, &window(), 0, 0);
    assert_eq!(session.subject().position(), at(248, 0));
    assert_eq!(session.viewpoint(), at(248, 0));
    session.frame_with(&right(), TICK, &window(), 0, 0);
    assert_eq!(session.viewpoint(), at(248, 0));
}

#[test]
fn frames_animate_both_sheets() {
    let mut session = Session::new();
    session.frame_with(&right(), 300_000_000, &window(), 0, 0);
    assert_eq!(session.subject().frame(), 2);
    assert_eq!(session.collectible().frame(), 1);
    session.animation(&right(), 300_000_000);
    assert_eq!(session.subject().frame(), 3);
    assert_eq!(session.collectible().frame(), 2);
    session.animation(&right(), 100_000_000);
    assert_eq!(session.subject().frame(), 3);
    assert_eq!(session.collectible().frame(), 2);
}

#[test]
fn rules_one_by_one() {
    let mut session = Session::new();
    session.movement(&right());
    assert_eq!(session.subject().position(), at(2, 0));
    session.follow_player(&right(), &Viewport { width: 55, height: 55 });
    assert_eq!(session.viewpoint(), at(2, 0));
    assert!(!session.collect_with(&activate(), TICK, 0, 1));
    assert_eq!(session.collectible().position(), at(126, -206));
    assert_eq!(session.game_over(119 * SECOND), 1);
    assert!(!session.is_game_over());
    assert_eq!(session.game_over(SECOND), 0);
    assert!(session.is_game_over());
    session.movement(&right());
    assert_eq!(session.subject().position(), at(2, 0));
}
