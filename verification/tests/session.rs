use bird_rescue::collision_system::{collision_detection_system, CollisionEvent, LLAabb3d};
use bird_rescue::game::{Direction, Game, Level, LogSequence, BIRD_Y};
use bird_rescue::resolution::{
    collect_bodies, increment_bevy, player_check_for_bird, player_collision_handling_system,
    player_end_handling_system, player_wins_trigger, setup_game_environment, update_aabb_system,
    update_win_timer,
};
use bird_rescue::session::{admit_logs, PlayerInput, Session, TickReport};
use bird_rescue::states::{AppState, GameEvent, GameObjectType, GameState};
use bird_rescue::timer::ActionTimer;
use bird_rescue::turn::{
    handle_player_input, toggle_debug_skip_player_action, toggle_pause, DebugSkipPlayerAction,
    Log, LogRoll, Player, PlayerAction, PlayerActionTracker, PlayerEnd, PlayerMove, PlayerWin,
    PrevState,
};
use bird_rescue::vector::{IVec2, IVec3, Vec3};

fn keys(action: Option<PlayerAction>) -> PlayerInput {
    PlayerInput {
        action,
        pause_toggle: false,
        toggle_skip_player_action: false,
        toggle_skip_player_collision: false,
    }
}

fn nothing() -> PlayerInput {
    keys(None)
}

fn pause_key() -> PlayerInput {
    PlayerInput { pause_toggle: true, ..nothing() }
}

/// What happened in a tick, apart from changes of phase: the collisions, the
/// end of the game, the rescued bird.
fn happenings(report: TickReport) -> (usize, Option<GameEvent>, Option<u64>) {
    (report.collisions, report.game_event, report.rescued)
}

fn quiet() -> (usize, Option<GameEvent>, Option<u64>) {
    (0, None, None)
}

fn silent() -> TickReport {
    TickReport {
        collisions: 0,
        game_event: None,
        rescued: None,
        entered_app_state: None,
        entered_game_state: None,
    }
}

fn log_body(id: u64, x: i64, z: i64) -> Log {
    let position = Vec3::new(x, 250, z);
    Log { id, position, aabb: LLAabb3d::new(position, Vec3::new(2000, 250, 250)), roll: None }
}

fn player_body(x: i64, y: i64, z: i64) -> Player {
    let position = Vec3::new(x, y, z);
    Player {
        position,
        aabb: LLAabb3d::new(position, Vec3::new(250, 550, 250)),
        motion: None,
        end: None,
        win: None,
    }
}

/// A game without lanes whose only level holds the given birds.
fn game_with_birds(birds: &[((i32, i32, i32), u64)]) -> Game {
    let mut level = Level::new(Vec::new());
    for (cell, bird) in birds {
        level.insert_bird(*cell, *bird);
    }
    Game {
        board_size_x: 12,
        board_size_y: 12,
        start: IVec2::new(3, 0),
        player_pos: IVec3::new(3, 0, 0),
        current_step: 0,
        current_level: 0,
        levels: vec![level],
        bevy_count: 0,
    }
}

/// A session in the idle phase with the player at the given place.
fn session_with_player_at(game: Game, x: i64, z: i64) -> Session {
    let mut session = Session::new(game);
    session.begin();
    session.player = Some(player_body(x, 500, z));
    session
}

#[test]
fn a_session_waits_until_it_begins() {
    let mut session = Session::new(Game::default());
    assert_eq!(session.app_state, AppState::AssetLoading);
    assert_eq!(session.tick(&keys(Some(PlayerAction::JumpStart)), 1_000_000), silent());
    assert_eq!(session.app_state, AppState::AssetLoading);
    assert_eq!(session.player, None);
    assert!(session.logs.is_empty());
    assert_eq!(session.action_timer, ActionTimer::from_micros(1_000_000));

    session.begin();
    assert_eq!(session.app_state, AppState::InGame);
    assert_eq!(session.game_state, GameState::PlayerIdle);
    assert_eq!(session.player, Some(player_body(6_000, 500, 0)));
    assert_eq!(session.logs, vec![log_body(0, 1_500, 12_000), log_body(1, 9_500, 12_000)]);
    assert_eq!(session.next_log_id, 2);
    assert_eq!(session.game.current_step, 0);
}

#[test]
fn a_move_runs_through_the_phases_of_a_turn() {
    let mut session = Session::new(Game::default());
    session.begin();

    assert_eq!(happenings(session.tick(&nothing(), 16_000)), quiet());
    assert_eq!(session.game_state, GameState::PlayerIdle);

    session.tick(&keys(Some(PlayerAction::Move(Direction::North))), 16_000);
    assert_eq!(session.game_state, GameState::PlayerActionInProgress);
    assert_eq!(
        session.player_action_tracker,
        PlayerActionTracker { is_moving: Direction::North, is_jumping: false }
    );
    assert_eq!(session.action_timer, ActionTimer::from_micros(440_000));
    let player = session.player.unwrap();
    assert_eq!(
        player.motion,
        Some(PlayerMove {
            start_position: Vec3::new(6_000, 500, 0),
            target_position: Vec3::new(6_000, 500, 1_000),
        })
    );
    assert_eq!(player.position, Vec3::new(6_000, 500, 0));

    session.tick(&nothing(), 110_000);
    assert_eq!(session.player.unwrap().position, Vec3::new(6_000, 500, 62));
    session.tick(&nothing(), 110_000);
    assert_eq!(session.player.unwrap().position, Vec3::new(6_000, 500, 500));
    assert_eq!(session.player.unwrap().aabb.center(), Vec3::new(6_000, 500, 500));
    assert_eq!(session.game_state, GameState::PlayerActionInProgress);

    session.tick(&nothing(), 220_000);
    assert_eq!(session.game_state, GameState::GameTurnInProgress);
    assert_eq!(session.player.unwrap().position, Vec3::new(6_000, 500, 1_000));
    assert_eq!(session.player.unwrap().motion, None);
    assert_eq!(session.game.player_pos, IVec3::new(3, 0, 0));
    assert_eq!(session.action_timer, ActionTimer::from_micros(470_000));
    assert_eq!(
        session.logs[0].roll,
        Some(LogRoll {
            start_position: Vec3::new(1_500, 250, 12_000),
            target_position: Vec3::new(1_500, 250, 10_000),
        })
    );
    assert_eq!(session.game.current_step, 0);

    assert_eq!(happenings(session.tick(&nothing(), 235_000)), quiet());
    assert_eq!(session.logs[0].position, Vec3::new(1_500, 250, 11_000));
    assert_eq!(session.logs[1].position, Vec3::new(9_500, 250, 11_000));
    assert_eq!(session.logs[0].aabb.center(), Vec3::new(1_500, 250, 11_000));

    session.tick(&nothing(), 235_000);
    assert_eq!(session.game_state, GameState::PlayerIdle);
    assert_eq!(session.game.current_step, 1);
    assert_eq!(
        session.logs,
        vec![log_body(0, 1_500, 10_000), log_body(1, 9_500, 10_000), log_body(2, 6_500, 12_000)]
    );
    assert_eq!(session.game.levels[0].seq[1].sequence_index, 1);
    assert_eq!(session.next_log_id, 3);
}

#[test]
fn a_jump_goes_up_waits_for_the_logs_and_lands() {
    let mut session = Session::new(Game::default());
    session.begin();
    session.tick(&keys(Some(PlayerAction::Move(Direction::West))), 0);
    session.tick(&nothing(), 440_000);
    session.tick(&nothing(), 470_000);
    assert_eq!(session.game_state, GameState::PlayerIdle);
    assert_eq!(session.player.unwrap().position, Vec3::new(5_000, 500, 0));

    session.tick(&keys(Some(PlayerAction::JumpStart)), 0);
    assert_eq!(session.game_state, GameState::PlayerActionInProgress);
    assert_eq!(
        session.player_action_tracker,
        PlayerActionTracker { is_moving: Direction::West, is_jumping: true }
    );
    assert_eq!(session.action_timer, ActionTimer::from_micros(390_000));
    assert_eq!(session.player.unwrap().motion.unwrap().target_position, Vec3::new(5_000, 1_500, 0));

    session.tick(&nothing(), 390_000);
    assert_eq!(session.game_state, GameState::GameTurnInProgress);
    assert_eq!(session.player.unwrap().position, Vec3::new(5_000, 1_500, 0));
    assert_eq!(session.game.player_pos, IVec3::new(5, 1, 0));

    session.tick(&nothing(), 470_000);
    assert_eq!(session.game_state, GameState::PlayerFinishingJump);
    assert_eq!(session.game.current_step, 2);
    assert_eq!(session.action_timer, ActionTimer::from_micros(420_000));
    assert_eq!(
        session.player.unwrap().motion,
        Some(PlayerMove {
            start_position: Vec3::new(5_000, 1_500, 0),
            target_position: Vec3::new(5_000, 500, 0),
        })
    );
    assert!(session.player_action_tracker.is_jumping);

    session.tick(&nothing(), 84_000);
    assert_eq!(session.player.unwrap().position, Vec3::new(5_000, 1_198, 0));

    session.tick(&nothing(), 336_000);
    assert_eq!(session.game_state, GameState::PlayerIdle);
    assert_eq!(session.player.unwrap().position, Vec3::new(5_000, 500, 0));
    assert!(!session.player_action_tracker.is_jumping);
    assert_eq!(session.logs.len(), 2 + 1 + 3);
}

#[test]
fn a_jump_onto_the_bird_cell_rescues_it_and_wins_in_the_same_tick() {
    let mut session = session_with_player_at(game_with_birds(&[((7, 2, 2), 99)]), 7_000, 2_000);
    session.tick(&keys(Some(PlayerAction::JumpStart)), 0);
    assert_eq!(happenings(session.tick(&nothing(), 389_999)), quiet());
    assert_eq!(session.game.levels[0].bird_map.len(), 1);

    let report = session.tick(&nothing(), 1);
    assert_eq!(
        report,
        TickReport {
            collisions: 0,
            game_event: Some(GameEvent::Win),
            rescued: Some(99),
            entered_app_state: Some(AppState::WinGame),
            entered_game_state: None,
        }
    );
    assert!(session.game.levels[0].bird_map.is_empty());
    assert_eq!(session.game.bevy_count, 1);
    assert_eq!(session.app_state, AppState::WinGame);
    assert_eq!(
        session.player.unwrap().win,
        Some(PlayerWin(ActionTimer::from_micros(2_600_000)))
    );
}

#[test]
fn a_jump_one_tile_off_rescues_nothing() {
    for (x, z) in [(8_000, 2_000), (6_000, 2_000), (7_000, 3_000), (7_000, 1_000), (6_999, 2_000)] {
        let mut session = session_with_player_at(game_with_birds(&[((7, 2, 2), 99)]), x, z);
        session.tick(&keys(Some(PlayerAction::JumpStart)), 0);
        assert_eq!(happenings(session.tick(&nothing(), 390_000)), quiet());
        assert_eq!(session.game.levels[0].bird_map.len(), 1);
        assert_eq!(session.game.bird_at((7, BIRD_Y, 2)), Some(99));
        assert_eq!(session.game.bevy_count, 0);
        assert_eq!(session.app_state, AppState::InGame);
        assert_eq!(session.game_state, GameState::GameTurnInProgress);
    }
}

#[test]
fn a_move_onto_the_bird_cell_rescues_nothing() {
    let mut session = session_with_player_at(game_with_birds(&[((7, 2, 2), 99)]), 6_000, 2_000);
    session.tick(&keys(Some(PlayerAction::Move(Direction::East))), 0);
    assert_eq!(happenings(session.tick(&nothing(), 440_000)), quiet());
    assert_eq!(session.player.unwrap().position, Vec3::new(7_000, 500, 2_000));
    assert_eq!(session.game.levels[0].bird_map.len(), 1);
    assert_eq!(session.app_state, AppState::InGame);
}

#[test]
fn a_rescue_that_leaves_birds_goes_on_with_the_turn() {
    let game = game_with_birds(&[((7, 2, 2), 99), ((1, 2, 1), 98)]);
    let mut session = session_with_player_at(game, 7_999, 2_500);
    session.game.bevy_count = 4;
    session.tick(&keys(Some(PlayerAction::JumpStart)), 0);
    let report = session.tick(&nothing(), 400_000);
    assert_eq!(
        report,
        TickReport {
            collisions: 0,
            game_event: None,
            rescued: Some(99),
            entered_app_state: None,
            entered_game_state: Some(GameState::GameTurnInProgress),
        }
    );
    assert_eq!(session.game.bevy_count, 5);
    assert_eq!(session.game.bird_at((7, BIRD_Y, 2)), None);
    assert_eq!(session.game.bird_at((1, BIRD_Y, 1)), Some(98));
    assert_eq!(session.app_state, AppState::InGame);
    assert_eq!(session.game_state, GameState::GameTurnInProgress);
    assert_eq!(session.player.unwrap().win, None);
}

#[test]
fn a_won_game_lingers_and_then_begins_anew() {
    let mut session = session_with_player_at(game_with_birds(&[((7, 2, 2), 99)]), 7_000, 2_000);
    session.debug.skip_player_collision = true;
    session.tick(&keys(Some(PlayerAction::JumpStart)), 0);
    session.tick(&nothing(), 390_000);
    assert_eq!(session.app_state, AppState::WinGame);

    assert_eq!(happenings(session.tick(&keys(Some(PlayerAction::JumpStart)), 2_599_999)), quiet());
    assert_eq!(session.app_state, AppState::WinGame);
    assert_eq!(session.player.unwrap().win.unwrap().0.elapsed, 2_599_999);
    assert_eq!(session.game.bevy_count, 1);

    assert_eq!(happenings(session.tick(&nothing(), 1)), quiet());
    assert_eq!(session.app_state, AppState::InGame);
    assert_eq!(session.game_state, GameState::PlayerIdle);
    assert_eq!(session.game.bevy_count, 0);
    assert_eq!(session.game.levels[0].bird_map.len(), 3);
    assert_eq!(session.player, Some(player_body(6_000, 500, 0)));
    assert_eq!(session.logs, vec![log_body(0, 1_500, 12_000), log_body(1, 9_500, 12_000)]);
    assert!(session.debug.skip_player_collision);
}

/// A session whose turn is idle, with one log on top of the player.
fn session_with_a_log_on_the_player() -> Session {
    let mut session = Session::new(game_with_birds(&[((7, 2, 2), 99)]));
    session.begin();
    session.logs = vec![log_body(7, 6_000, 0)];
    session
}

#[test]
fn a_collision_with_a_log_ends_the_game_once() {
    let mut session = session_with_a_log_on_the_player();
    let mut reports = Vec::new();
    reports.push(session.tick(&nothing(), 10_000));
    assert_eq!(
        reports[0],
        TickReport {
            collisions: 1,
            game_event: Some(GameEvent::Over),
            rescued: None,
            entered_app_state: Some(AppState::EndGame),
            entered_game_state: None,
        }
    );
    assert_eq!(session.app_state, AppState::EndGame);
    assert_eq!(
        session.player.unwrap().end,
        Some(PlayerEnd(ActionTimer::from_micros(1_600_000)))
    );
    assert!(session.player.unwrap().aabb.intersects(&session.logs[0].aabb));

    for _ in 0..15 {
        reports.push(session.tick(&keys(Some(PlayerAction::JumpStart)), 100_000));
        assert_eq!(reports.last(), Some(&silent()));
        assert_eq!(session.app_state, AppState::EndGame);
    }
    assert_eq!(session.player.unwrap().end.unwrap().0.elapsed, 1_500_000);
    assert!(session.player.unwrap().aabb.intersects(&session.logs[0].aabb));
    let ends = reports.iter().filter(|r| r.game_event == Some(GameEvent::Over)).count();
    assert_eq!(ends, 1);
    assert_eq!(session.game.current_step, 0);

    assert_eq!(
        session.tick(&nothing(), 100_000),
        TickReport { entered_app_state: Some(AppState::InGame), ..silent() }
    );
    assert_eq!(session.app_state, AppState::InGame);
    assert_eq!(session.game_state, GameState::PlayerIdle);
    assert_eq!(session.player, Some(player_body(6_000, 500, 0)));
    assert_eq!(session.game.levels[0].bird_map.len(), 3);
    assert_eq!(session.logs, vec![log_body(0, 1_500, 12_000), log_body(1, 9_500, 12_000)]);
}

#[test]
fn a_falling_player_does_not_end_the_game_again() {
    let mut session = session_with_a_log_on_the_player();
    let mut fall = ActionTimer::from_micros(1_600_000);
    fall.tick(700_000);
    session.player.as_mut().unwrap().end = Some(PlayerEnd(fall));
    for _ in 0..4 {
        let report = session.tick(&nothing(), 10_000);
        assert_eq!(report, TickReport { collisions: 1, ..silent() });
        assert_eq!(session.app_state, AppState::InGame);
        assert_eq!(session.player.unwrap().end, Some(PlayerEnd(fall)));
    }
}

#[test]
fn a_collision_is_not_fatal_while_collisions_are_switched_off() {
    let mut session = session_with_a_log_on_the_player();
    let switch = PlayerInput { toggle_skip_player_collision: true, ..nothing() };
    let report = session.tick(&switch, 10_000);
    assert_eq!(report, TickReport { collisions: 1, ..silent() });
    assert_eq!(session.app_state, AppState::InGame);
    assert_eq!(session.player.unwrap().end, None);
    assert!(session.debug.skip_player_collision);

    let report = session.tick(&switch, 10_000);
    assert_eq!(report.game_event, Some(GameEvent::Over));
    assert_eq!(session.app_state, AppState::EndGame);
}

#[test]
fn a_jumping_player_clears_the_log_below() {
    let mut session = Session::new(game_with_birds(&[((0, 2, 0), 1)]));
    session.begin();
    session.logs = vec![log_body(7, 6_000, 2_000)];
    session.tick(&keys(Some(PlayerAction::JumpStart)), 0);
    session.tick(&nothing(), 390_000);
    assert_eq!(session.game_state, GameState::GameTurnInProgress);
    for _ in 0..47 {
        assert_eq!(happenings(session.tick(&nothing(), 10_000)), quiet());
    }
    assert_eq!(session.game_state, GameState::PlayerFinishingJump);
    assert_eq!(session.logs[0].position, Vec3::new(6_000, 250, 0));
    assert_eq!(session.app_state, AppState::InGame);

    // The landing brings the player down onto the log.
    assert_eq!(happenings(session.tick(&nothing(), 42_000)), quiet());
    assert_eq!(session.player.unwrap().position, Vec3::new(6_000, 1_425, 0));
    let report = session.tick(&nothing(), 126_000);
    assert_eq!(session.player.unwrap().position, Vec3::new(6_000, 590, 0));
    assert_eq!(happenings(report), (1, Some(GameEvent::Over), None));
    assert_eq!(session.app_state, AppState::EndGame);
}

#[test]
fn the_scan_reports_the_player_against_other_kinds_only() {
    let at = |x: i64| LLAabb3d::new(Vec3::new(x, 0, 0), Vec3::new(500, 500, 500));
    let none: Vec<CollisionEvent> = Vec::new();
    assert_eq!(collision_detection_system(&Vec::new()), none);
    assert_eq!(collision_detection_system(&vec![(GameObjectType::Player, at(0))]), none);
    assert_eq!(
        collision_detection_system(&vec![
            (GameObjectType::Player, at(0)),
            (GameObjectType::Log, at(1_000)),
        ]),
        vec![CollisionEvent::PlayerLog]
    );
    assert_eq!(
        collision_detection_system(&vec![
            (GameObjectType::Log, at(1_000)),
            (GameObjectType::Player, at(0)),
        ]),
        vec![CollisionEvent::PlayerLog]
    );
    assert_eq!(
        collision_detection_system(&vec![
            (GameObjectType::Player, at(0)),
            (GameObjectType::Log, at(1_001)),
        ]),
        none
    );
    assert_eq!(
        collision_detection_system(&vec![
            (GameObjectType::Log, at(0)),
            (GameObjectType::Rock, at(0)),
            (GameObjectType::Log, at(500)),
        ]),
        none
    );
    assert_eq!(
        collision_detection_system(&vec![
            (GameObjectType::Player, at(0)),
            (GameObjectType::Player, at(0)),
        ]),
        none
    );
    assert_eq!(
        collision_detection_system(&vec![
            (GameObjectType::Log, at(-900)),
            (GameObjectType::Rock, at(3_000)),
            (GameObjectType::Player, at(0)),
            (GameObjectType::Log, at(900)),
            (GameObjectType::Rock, at(100)),
        ]),
        vec![CollisionEvent::PlayerLog; 3]
    );
}

#[test]
fn a_log_that_rolls_off_the_board_is_removed_in_the_last_tenth() {
    let mut session = Session::new(game_with_birds(&[((0, 2, 0), 1)]));
    session.begin();
    session.player = None;
    session.logs = vec![log_body(1, 1_500, 0), log_body(2, 1_500, 2_000), log_body(3, 500, 4_000)];
    session.game_state = GameState::PlayerActionInProgress;
    session.resolve(GameState::GameTurnInProgress);
    assert_eq!(session.game_state, GameState::GameTurnInProgress);

    session.tick(&nothing(), 423_000);
    assert_eq!(session.logs.len(), 3);
    assert_eq!(session.logs[0].position, Vec3::new(1_500, 250, -1_800));
    assert_eq!(session.logs[2].position, Vec3::new(500, 250, 2_200));

    session.tick(&nothing(), 1);
    assert_eq!(session.logs.len(), 1);
    assert_eq!(session.logs[0].id, 2);
    assert_eq!(session.logs[0].position, Vec3::new(1_500, 250, 200));

    session.tick(&nothing(), 46_999);
    assert_eq!(session.logs, vec![log_body(2, 1_500, 0)]);
    assert_eq!(session.game_state, GameState::PlayerIdle);
}

#[test]
fn a_pause_stops_the_turn_and_resumes_it_where_it_was() {
    let mut session = Session::new(Game::default());
    session.begin();
    session.tick(&keys(Some(PlayerAction::Move(Direction::East))), 0);
    session.tick(&nothing(), 440_000);
    session.tick(&nothing(), 100_000);
    assert_eq!(session.game_state, GameState::GameTurnInProgress);
    let timer = session.action_timer;
    let logs = session.logs.clone();

    assert_eq!(
        session.tick(&pause_key(), 50_000),
        TickReport { entered_game_state: Some(GameState::Paused), ..silent() }
    );
    assert_eq!(session.game_state, GameState::Paused);
    assert_eq!(session.prev_state, PrevState(Some(GameState::GameTurnInProgress)));
    for _ in 0..5 {
        assert_eq!(session.tick(&keys(Some(PlayerAction::JumpStart)), 1_000_000), silent());
    }
    assert_eq!(session.game_state, GameState::Paused);
    assert_eq!(session.action_timer, timer);
    assert_eq!(session.logs, logs);
    assert_eq!(
        session.player_action_tracker,
        PlayerActionTracker { is_moving: Direction::East, is_jumping: false }
    );

    session.tick(&pause_key(), 100_000);
    assert_eq!(session.game_state, GameState::GameTurnInProgress);
    assert_eq!(session.prev_state, PrevState(None));
    assert_eq!(session.action_timer.elapsed, 200_000);
}

#[test]
fn the_pause_key_toggles_between_a_phase_and_the_pause() {
    for phase in [
        GameState::PlayerIdle,
        GameState::PlayerActionInProgress,
        GameState::GameTurnInProgress,
        GameState::PlayerFinishingJump,
    ] {
        let mut memo = PrevState::default();
        assert_eq!(toggle_pause(phase, &mut memo), GameState::Paused);
        assert_eq!(memo, PrevState(Some(phase)));
        assert_eq!(toggle_pause(GameState::Paused, &mut memo), phase);
        assert_eq!(memo, PrevState(None));
    }
    let mut memo = PrevState(None);
    assert_eq!(toggle_pause(GameState::Paused, &mut memo), GameState::PlayerIdle);
    assert_eq!(memo, PrevState(None));
}

#[test]
fn input_is_taken_as_the_tracker_records_it() {
    let game = Game::default();
    let player = Some(player_body(3_000, 500, 0));
    let debug = DebugSkipPlayerAction::default();
    let mut tracker = PlayerActionTracker::default();
    assert_eq!(handle_player_input(None, &mut tracker, &debug, &game, &player), None);
    assert_eq!(tracker, PlayerActionTracker { is_moving: Direction::Nowhere, is_jumping: false });
    assert_eq!(
        handle_player_input(Some(PlayerAction::JumpStart), &mut tracker, &debug, &game, &player),
        Some(GameState::PlayerActionInProgress)
    );
    assert!(tracker.is_jumping);
    let north = Some(PlayerAction::Move(Direction::North));
    assert_eq!(
        handle_player_input(north, &mut tracker, &debug, &game, &player),
        Some(GameState::PlayerActionInProgress)
    );
    assert_eq!(tracker, PlayerActionTracker { is_moving: Direction::North, is_jumping: false });

    let mut debug = debug;
    toggle_debug_skip_player_action(true, false, &mut debug);
    assert_eq!(
        debug,
        DebugSkipPlayerAction { skip_player_action: true, skip_player_collision: false }
    );
    assert_eq!(
        handle_player_input(None, &mut tracker, &debug, &game, &player),
        Some(GameState::PlayerActionInProgress)
    );
    assert_eq!(tracker, PlayerActionTracker { is_moving: Direction::North, is_jumping: false });
    toggle_debug_skip_player_action(true, true, &mut debug);
    assert_eq!(
        debug,
        DebugSkipPlayerAction { skip_player_action: false, skip_player_collision: true }
    );
}

#[test]
fn a_move_off_the_board_is_rejected() {
    let game = Game::default();
    let debug = DebugSkipPlayerAction::default();
    let before = PlayerActionTracker { is_moving: Direction::East, is_jumping: true };
    let cases = [
        (3_000, 0, Direction::South, false),
        (3_000, 0, Direction::North, true),
        (3_999, 999, Direction::South, false),
        (3_000, 1_000, Direction::South, true),
        (0, 5_000, Direction::West, false),
        (0, 5_000, Direction::East, true),
        (11_000, 11_000, Direction::East, false),
        (11_000, 11_000, Direction::North, false),
        (11_000, 11_000, Direction::West, true),
        (11_000, 11_000, Direction::Nowhere, true),
        (12_000, 11_000, Direction::Nowhere, false),
        (12_000, 11_000, Direction::West, true),
    ];
    for (x, z, direction, accepted) in cases {
        let mut tracker = before;
        let player = Some(player_body(x, 500, z));
        let action = Some(PlayerAction::Move(direction));
        let next = handle_player_input(action, &mut tracker, &debug, &game, &player);
        if accepted {
            assert_eq!(next, Some(GameState::PlayerActionInProgress), "{x} {z} {direction:?}");
            assert_eq!(tracker, PlayerActionTracker { is_moving: direction, is_jumping: false });
        } else {
            assert_eq!(next, None, "{x} {z} {direction:?}");
            assert_eq!(tracker, before);
        }
    }
    let mut tracker = before;
    let south = Some(PlayerAction::Move(Direction::South));
    assert_eq!(
        handle_player_input(south, &mut tracker, &debug, &game, &None),
        Some(GameState::PlayerActionInProgress)
    );
}

#[test]
fn a_rejected_move_leaves_the_session_idle() {
    let mut session = session_with_player_at(Game::default(), 3_000, 0);
    session.logs.clear();
    let before = session.player;
    for _ in 0..3 {
        let report = session.tick(&keys(Some(PlayerAction::Move(Direction::South))), 16_000);
        assert_eq!(report, silent());
        assert_eq!(session.game_state, GameState::PlayerIdle);
        assert_eq!(session.player, before);
        assert_eq!(session.player_action_tracker, PlayerActionTracker::default());
    }
    let report = session.tick(&keys(Some(PlayerAction::Move(Direction::North))), 16_000);
    assert_eq!(
        report,
        TickReport { entered_game_state: Some(GameState::PlayerActionInProgress), ..silent() }
    );
}

#[test]
fn the_turn_counter_and_the_log_identifiers_wrap() {
    let mut game = Game::default();
    game.current_step = u32::MAX;
    let mut session = Session::new(game);
    session.next_log_id = u64::MAX;
    session.begin();
    assert_eq!(session.logs, vec![log_body(u64::MAX, 9_500, 12_000)]);
    assert_eq!(session.next_log_id, 0);
    session.tick(&keys(Some(PlayerAction::Move(Direction::Nowhere))), 0);
    session.tick(&nothing(), 440_000);
    session.tick(&nothing(), 470_000);
    assert_eq!(session.game.current_step, 0);
    assert_eq!(session.logs.len(), 3);
    assert_eq!(session.logs[1].id, 0);
    assert_eq!(session.logs[2].id, 1);
    assert_eq!(session.next_log_id, 2);

    let mut logs = Vec::new();
    let spawned = bird_rescue::logs::spawn_logs(&mut session.game);
    assert_eq!(admit_logs(&mut logs, &spawned, u64::MAX - 1), 0);
    assert_eq!(logs[0].id, u64::MAX - 1);
    assert_eq!(logs[1].id, u64::MAX);
}

#[test]
fn a_turn_without_a_player_waits_in_the_action_phase() {
    let mut session = Session::new(Game::default());
    session.begin();
    session.player = None;
    session.tick(&keys(Some(PlayerAction::JumpStart)), 0);
    assert_eq!(session.game_state, GameState::PlayerActionInProgress);
    for _ in 0..3 {
        assert_eq!(happenings(session.tick(&nothing(), 390_000)), quiet());
    }
    assert_eq!(session.game_state, GameState::PlayerActionInProgress);
    assert!(session.action_timer.finished());
    assert_eq!(session.game.player_pos, IVec3::new(3, 0, 0));
}

#[test]
fn the_parts_of_the_resolution_on_their_own() {
    let mut game = game_with_birds(&[((7, 2, 2), 99), ((7, 2, 3), 98)]);
    let jumping = PlayerActionTracker { is_moving: Direction::Nowhere, is_jumping: true };
    let walking = PlayerActionTracker { is_moving: Direction::Nowhere, is_jumping: false };
    let player = Some(player_body(7_400, 1_500, 2_900));
    assert_eq!(player_check_for_bird(&player, &mut game, &walking), None);
    assert_eq!(player_check_for_bird(&None, &mut game, &jumping), None);
    assert_eq!(player_check_for_bird(&player, &mut game, &jumping), Some(99));
    assert_eq!(player_check_for_bird(&player, &mut game, &jumping), None);
    assert!(!increment_bevy(&mut game));
    assert_eq!(game.bevy_count, 1);
    let player = Some(player_body(7_000, 9_999, 3_000));
    assert_eq!(player_check_for_bird(&player, &mut game, &jumping), Some(98));
    game.bevy_count = u32::MAX;
    assert!(increment_bevy(&mut game));
    assert_eq!(game.bevy_count, u32::MAX);

    let mut player = Some(player_body(0, 0, 0));
    assert_eq!(player_wins_trigger(GameEvent::Over, &mut player), None);
    assert_eq!(player, Some(player_body(0, 0, 0)));
    assert_eq!(player_wins_trigger(GameEvent::Win, &mut None), None);
    assert_eq!(player_wins_trigger(GameEvent::Win, &mut player), Some(AppState::WinGame));
    assert_eq!(update_win_timer(600_000, &mut player, &mut game), None);
    assert_eq!(player_wins_trigger(GameEvent::Win, &mut player), Some(AppState::WinGame));
    assert_eq!(player.unwrap().win.unwrap().0.elapsed, 600_000);
    assert_eq!(game.bevy_count, u32::MAX);
    assert_eq!(update_win_timer(2_000_000, &mut player, &mut game), Some(AppState::InGame));
    assert_eq!(game.bevy_count, 0);

    let hits = vec![CollisionEvent::PlayerLog];
    let on = DebugSkipPlayerAction::default();
    let off = DebugSkipPlayerAction { skip_player_action: false, skip_player_collision: true };
    let mut player = Some(player_body(0, 0, 0));
    assert_eq!(player_collision_handling_system(&Vec::new(), &mut player, &on), None);
    assert_eq!(player_collision_handling_system(&hits, &mut player, &off), None);
    assert_eq!(player_collision_handling_system(&hits, &mut None, &on), None);
    assert_eq!(player, Some(player_body(0, 0, 0)));
    assert_eq!(player_end_handling_system(1, &mut player), None);
    let many = vec![CollisionEvent::PlayerLog; 3];
    assert_eq!(player_collision_handling_system(&many, &mut player, &on), Some(AppState::EndGame));
    assert_eq!(player.unwrap().end, Some(PlayerEnd(ActionTimer::from_micros(1_600_000))));
    assert_eq!(player_collision_handling_system(&many, &mut player, &on), None);
    assert_eq!(player.unwrap().end, Some(PlayerEnd(ActionTimer::from_micros(1_600_000))));
    assert_eq!(player_end_handling_system(1_000_000, &mut player), None);
    let falling = player;
    assert_eq!(player_collision_handling_system(&hits, &mut player, &on), None);
    assert_eq!(player_collision_handling_system(&many, &mut player, &off), None);
    assert_eq!(player, falling);
    assert_eq!(player.unwrap().end.unwrap().0.elapsed, 1_000_000);
    assert_eq!(player_end_handling_system(600_000, &mut player), Some(AppState::InGame));
    assert_eq!(player, None);

    assert_eq!(setup_game_environment(&mut player), GameState::PlayerIdle);
    assert_eq!(player, Some(player_body(6_000, 500, 0)));
    assert_eq!(player.unwrap().aabb.min, Vec3::new(5_750, -50, -250));
    assert_eq!(player.unwrap().aabb.max, Vec3::new(6_250, 1_050, 250));

    let mut logs = vec![log_body(1, 0, 0), log_body(2, 5, 5)];
    logs[1].position = Vec3::new(100, 200, 300);
    player.as_mut().unwrap().position = Vec3::new(-1_000, 0, 0);
    update_aabb_system(&mut player, &mut logs);
    assert_eq!(logs[0], log_body(1, 0, 0));
    assert_eq!(logs[1].aabb, LLAabb3d::new(Vec3::new(100, 200, 300), Vec3::new(2000, 250, 250)));
    assert_eq!(
        collect_bodies(&player, &logs),
        vec![
            (GameObjectType::Player, LLAabb3d::new(Vec3::new(-1_000, 0, 0), Vec3::new(250, 550, 250))),
            (GameObjectType::Log, logs[0].aabb),
            (GameObjectType::Log, logs[1].aabb),
        ]
    );
    assert_eq!(collect_bodies(&None, &logs).len(), 2);
}

#[test]
fn the_messages_of_the_two_endings() {
    assert_eq!(GameEvent::Over.text(), "GAME OVER");
    assert_eq!(GameEvent::Win.text(), "ALL BIRDS RESCUED");
    assert_eq!(AppState::default(), AppState::AssetLoading);
    assert_eq!(GameState::default(), GameState::PlayerIdle);
}

#[test]
fn an_empty_lane_table_never_spawns() {
    let mut game = game_with_birds(&[((0, 2, 0), 1)]);
    game.levels[0].seq.push(LogSequence::default());
    let mut session = Session::new(game);
    session.begin();
    for _ in 0..20 {
        session.tick(&keys(Some(PlayerAction::Move(Direction::Nowhere))), 0);
        session.tick(&nothing(), 440_000);
        session.tick(&nothing(), 470_000);
    }
    assert_eq!(session.game.current_step, 20);
    assert!(session.logs.is_empty());
    assert_eq!(session.next_log_id, 0);
}
