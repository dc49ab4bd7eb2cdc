use crate::collision_system::{collision_detection_system, hits_among};
use crate::easing::{bounce_out, cubic_in_out};
use crate::bird_map::Cell;
use crate::game::{opening_game, Direction, Game, GameView};
use crate::logs::{lanes_after, spawn_logs, spawns, LogSpawn};
use crate::resolution::{
    birds_after_rescue, bodies_of, cleanup_game, collect_bodies, collision_is_fatal,
    count_after_rescue, fall_is_over, fresh_player, increment_bevy, logs_boxed, no_birds,
    player_after_fall, player_after_win_tick, player_boxed, player_check_for_bird,
    player_collision_handling_system, player_end_handling_system, player_falling,
    player_winning, player_wins_trigger, rescue_cell, rescued_bird, setup_game_environment,
    update_aabb_system, update_win_timer, win_is_over,
};
use crate::states::{AppState, GameEvent, GameState};
use crate::timer::{
    ActionTimer, GAME_MOVE_ANIMATION_DURATION, PLAYER_JUMP_LAND_ANIMATION_DURATION,
};
use crate::turn::{
    accepted_action, action_duration, advance_game_turn, debug_after_keys, handle_player_input,
    input_starts_action, logs_rolled, logs_tagged, logs_wf, memo_after_pause_key,
    phase_after_pause_key, phase_after_turn, player_action_target, player_animated,
    player_arrives, player_heading, player_landing_target, player_wf, process_game_turn,
    process_player_action, process_player_finishing_jump, recorded_cell,
    setup_game_turn_timer, setup_player_action_timer, setup_player_jump_land_timer,
    toggle_debug_skip_player_action, toggle_pause, tracker_after_input, tracker_after_landing,
    DebugSkipPlayerAction, Log, Player, PlayerAction, PlayerActionTracker, PrevState,
};
use vstd::prelude::*;

verus! {

/// What the player's keys ask for in one tick.
#[derive(Clone, Copy, Debug, PartialEq, Eq, Structural)]
pub struct PlayerInput {
    /// The action asked for, if any.
    pub action: Option<PlayerAction>,
    /// The pause key was pressed.
    pub pause_toggle: bool,
    /// The key that switches the wait for the player was pressed.
    pub toggle_skip_player_action: bool,
    /// The key that switches the player's collisions was pressed.
    pub toggle_skip_player_collision: bool,
}

/// What a tick lets the outside know.
#[derive(Clone, Copy, Debug, PartialEq, Eq, Structural)]
pub struct TickReport {
    /// How many collisions of the player the scan reported.
    pub collisions: usize,
    /// The game ended in this tick, and how.
    pub game_event: Option<GameEvent>,
    /// The handle of the bird that was rescued in this tick.
    pub rescued: Option<u64>,
    /// The phase of the application after this tick, if the tick changed it.
    pub entered_app_state: Option<AppState>,
    /// The phase of the turn after this tick, if the tick changed it.
    pub entered_game_state: Option<GameState>,
}

/// A game session: the phases, the game, and the bodies on the board.
pub struct Session {
    pub app_state: AppState,
    /// The phase of the turn. It has a meaning only while the application
    /// is in a game.
    pub game_state: GameState,
    pub prev_state: PrevState,
    pub game: Game,
    pub player_action_tracker: PlayerActionTracker,
    pub action_timer: ActionTimer,
    pub debug: DebugSkipPlayerAction,
    pub player: Option<Player>,
    pub logs: Vec<Log>,
    /// The identifier that the next log gets.
    pub next_log_id: u64,
}

/// A session as the contracts see it.
pub struct SessionView {
    pub app_state: AppState,
    pub game_state: GameState,
    pub prev_state: PrevState,
    pub game: GameView,
    pub player_action_tracker: PlayerActionTracker,
    pub action_timer: ActionTimer,
    pub debug: DebugSkipPlayerAction,
    pub player: Option<Player>,
    pub logs: Seq<Log>,
    pub next_log_id: u64,
}

impl View for Session {
    type V = SessionView;

    open spec fn view(&self) -> SessionView {
        SessionView {
            app_state: self.app_state,
            game_state: self.game_state,
            prev_state: self.prev_state,
            game: self.game@,
            player_action_tracker: self.player_action_tracker,
            action_timer: self.action_timer,
            debug: self.debug,
            player: self.player,
            logs: self.logs@,
            next_log_id: self.next_log_id,
        }
    }
}

/// The identifier `count` logs after `first`; past the largest value the
/// identifiers start again at zero.
pub open spec fn id_after(first: u64, count: int) -> u64 {
    ((first + count) % 0x1_0000_0000_0000_0000) as u64
}

/// The logs that enter the board for the given spawns, at rest where they
/// were spawned, with consecutive identifiers from `first_id`.
pub open spec fn logs_entering(spawned: Seq<LogSpawn>, first_id: u64) -> Seq<Log> {
    Seq::new(
        spawned.len(),
        |k: int|
            Log {
                id: id_after(first_id, k),
                position: spawned[k].center,
                aabb: spawned[k].aabb,
                roll: None,
            },
    )
}

/// The turn counter after one more turn; past its largest value it starts
/// again at zero.
pub open spec fn step_after(step: u32) -> u32 {
    if step == u32::MAX {
        0
    } else {
        (step + 1) as u32
    }
}

impl SessionView {
    /// The game has its level, and the bodies and countdowns are well
    /// formed.
    pub open spec fn wf(self) -> bool {
        &&& self.game.wf()
        &&& player_wf(self.player)
        &&& logs_wf(self.logs)
        &&& self.action_timer.wf()
    }

    /// The session after the debug keys and the pause key of a tick.
    pub open spec fn after_keys(self, input: PlayerInput) -> SessionView {
        SessionView {
            debug: debug_after_keys(
                self.debug,
                input.toggle_skip_player_action,
                input.toggle_skip_player_collision,
            ),
            game_state: if input.pause_toggle {
                phase_after_pause_key(self.game_state, self.prev_state)
            } else {
                self.game_state
            },
            prev_state: if input.pause_toggle {
                memo_after_pause_key(self.game_state, self.prev_state)
            } else {
                self.prev_state
            },
            ..self
        }
    }

    /// The request that the turn takes up.
    pub open spec fn accepted(self, action: Option<PlayerAction>) -> Option<PlayerAction> {
        accepted_action(action, self.game.board_size_x, self.game.board_size_y, self.player)
    }

    /// The session after the work of its phase for one tick.
    pub open spec fn stepped(self, action: Option<PlayerAction>, delta: u64) -> SessionView {
        let timer = self.action_timer.spec_ticked(delta);
        match self.game_state {
            GameState::PlayerIdle => SessionView {
                player_action_tracker: tracker_after_input(
                    self.player_action_tracker,
                    self.accepted(action),
                ),
                ..self
            },
            GameState::PlayerActionInProgress => SessionView {
                action_timer: timer,
                player: player_animated(self.player, timer, cubic_in_out(timer.spec_fraction())),
                game: GameView {
                    player_pos: recorded_cell(
                        self.game,
                        self.player_action_tracker,
                        self.player,
                        timer,
                    ),
                    ..self.game
                },
                ..self
            },
            GameState::GameTurnInProgress => SessionView {
                action_timer: timer,
                logs: logs_rolled(
                    self.logs,
                    timer,
                    self.game.board_size_x,
                    self.game.board_size_y,
                ),
                ..self
            },
            GameState::PlayerFinishingJump => SessionView {
                action_timer: timer,
                player: player_animated(self.player, timer, bounce_out(timer.spec_fraction())),
                player_action_tracker: tracker_after_landing(
                    self.player_action_tracker,
                    self.player,
                    timer,
                ),
                ..self
            },
            GameState::Paused => self,
        }
    }

    /// The phase that the work of a tick asks for, if it asks for one.
    pub open spec fn requested(self, action: Option<PlayerAction>, delta: u64) -> Option<
        GameState,
    > {
        let timer = self.action_timer.spec_ticked(delta);
        match self.game_state {
            GameState::PlayerIdle => if input_starts_action(self.accepted(action), self.debug) {
                Some(GameState::PlayerActionInProgress)
            } else {
                None
            },
            GameState::PlayerActionInProgress => if player_arrives(self.player, timer) {
                Some(GameState::GameTurnInProgress)
            } else {
                None
            },
            GameState::GameTurnInProgress => if timer.just_finished {
                Some(phase_after_turn(self.player_action_tracker))
            } else {
                None
            },
            GameState::PlayerFinishingJump => if player_arrives(self.player, timer) {
                Some(GameState::PlayerIdle)
            } else {
                None
            },
            GameState::Paused => None,
        }
    }

    /// How many collisions of the player a scan of the bodies reports, with
    /// every box around its body.
    pub open spec fn hits(self) -> nat {
        let bodies = bodies_of(player_boxed(self.player), logs_boxed(self.logs));
        hits_among(bodies, bodies.len() as int)
    }

    /// The collisions of this tick end the game.
    pub open spec fn fatal(self) -> bool {
        collision_is_fatal(self.hits(), self.player, self.debug)
    }

    /// The session after the boxes have followed their bodies and the
    /// collisions were handled: a fatal one starts the player's fall and the
    /// losing phase.
    pub open spec fn after_collisions(self) -> SessionView {
        SessionView {
            player: if self.fatal() {
                player_falling(player_boxed(self.player))
            } else {
                player_boxed(self.player)
            },
            logs: logs_boxed(self.logs),
            app_state: if self.fatal() {
                AppState::EndGame
            } else {
                self.app_state
            },
            ..self
        }
    }

    /// The bird that leaving the current phase rescues: leaving the
    /// player's action lets a jumping player take the bird of its cell.
    pub open spec fn rescue(self) -> Option<u64> {
        if self.game_state == GameState::PlayerActionInProgress {
            rescued_bird(self.game.current().birds, self.player, self.player_action_tracker)
        } else {
            None
        }
    }

    /// Leaving the current phase wins the game: it rescues a bird, and that
    /// bird was the last one.
    pub open spec fn wins(self) -> bool {
        self.rescue() is Some && no_birds(
            birds_after_rescue(
                self.game.current().birds,
                self.player,
                self.player_action_tracker,
            ),
        )
    }

    /// The session after leaving its phase. Leaving the player's action
    /// takes the rescued bird off the board and counts it, and the last bird
    /// starts the winning phase. Leaving the logs' turn advances the turn
    /// counter.
    pub open spec fn left(self) -> SessionView {
        match self.game_state {
            GameState::PlayerActionInProgress => {
                let birds = birds_after_rescue(
                    self.game.current().birds,
                    self.player,
                    self.player_action_tracker,
                );
                let game = self.game.with_birds(birds);
                if self.rescue() is Some {
                    SessionView {
                        game: GameView {
                            bevy_count: count_after_rescue(self.game.bevy_count),
                            ..game
                        },
                        player: if self.wins() {
                            player_winning(self.player)
                        } else {
                            self.player
                        },
                        app_state: if self.wins() {
                            AppState::WinGame
                        } else {
                            self.app_state
                        },
                        ..self
                    }
                } else {
                    SessionView { game, ..self }
                }
            },
            GameState::GameTurnInProgress => SessionView {
                game: GameView { current_step: step_after(self.game.current_step), ..self.game },
                ..self
            },
            _ => self,
        }
    }

    /// The session after entering a phase. The idle phase runs the log
    /// scheduler and lets the spawned logs enter; the other phases start
    /// their countdown and set the player or the logs on their way.
    pub open spec fn entered(self, next: GameState) -> SessionView {
        match next {
            GameState::PlayerIdle => {
                let spawned = spawns(
                    self.game.current().seq,
                    self.game.current_step,
                    self.game.board_size_y,
                );
                SessionView {
                    game_state: next,
                    game: self.game.with_lanes(
                        lanes_after(self.game.current().seq, self.game.current_step),
                    ),
                    logs: self.logs + logs_entering(spawned, self.next_log_id),
                    next_log_id: id_after(self.next_log_id, spawned.len() as int),
                    ..self
                }
            },
            GameState::PlayerActionInProgress => SessionView {
                game_state: next,
                action_timer: ActionTimer::spec_from_micros(
                    action_duration(self.player_action_tracker),
                ),
                player: player_heading(
                    self.player,
                    player_action_target(self.player_action_tracker, self.player),
                ),
                ..self
            },
            GameState::GameTurnInProgress => SessionView {
                game_state: next,
                action_timer: ActionTimer::spec_from_micros(GAME_MOVE_ANIMATION_DURATION),
                logs: logs_tagged(self.logs),
                ..self
            },
            GameState::PlayerFinishingJump => SessionView {
                game_state: next,
                action_timer: ActionTimer::spec_from_micros(PLAYER_JUMP_LAND_ANIMATION_DURATION),
                player: player_heading(self.player, player_landing_target(self.player)),
                ..self
            },
            GameState::Paused => SessionView { game_state: next, ..self },
        }
    }

    /// The session after the change from its phase to `next`: the old phase
    /// is left, and unless that has won the game the new one is entered.
    pub open spec fn resolved(self, next: GameState) -> SessionView {
        if self.left().app_state == AppState::InGame {
            self.left().entered(next)
        } else {
            self.left()
        }
    }

    /// The session as a game begins: in the game, the player on the board,
    /// and the idle phase entered.
    pub open spec fn begun(self) -> SessionView {
        (SessionView {
            app_state: AppState::InGame,
            player: Some(fresh_player()),
            ..self
        }).entered(GameState::PlayerIdle)
    }

    /// The session as a new game begins after one has ended: the board
    /// cleared, the opening game set up, and the game begun.
    pub open spec fn restarted(self) -> SessionView {
        (SessionView { game: opening_game(), logs: Seq::empty(), player: None, ..self }).begun()
    }

    /// The session after a tick in a game: the keys, and unless the game is
    /// paused the work of the phase, the collisions, and then the change of
    /// phase that the work asked for, unless a collision has ended the game.
    pub open spec fn ticked_in_game(self, input: PlayerInput, delta: u64) -> SessionView {
        let keyed = self.after_keys(input);
        let worked = keyed.stepped(input.action, delta).after_collisions();
        if keyed.game_state == GameState::Paused {
            keyed
        } else {
            match keyed.requested(input.action, delta) {
                Some(next) => if worked.app_state == AppState::InGame {
                    worked.resolved(next)
                } else {
                    worked
                },
                None => worked,
            }
        }
    }

    /// The session after a tick.
    pub open spec fn ticked(self, input: PlayerInput, delta: u64) -> SessionView {
        match self.app_state {
            AppState::AssetLoading => self,
            AppState::InGame => self.ticked_in_game(input, delta),
            AppState::EndGame => if fall_is_over(self.player, delta) {
                self.restarted()
            } else {
                SessionView { player: player_after_fall(self.player, delta), ..self }
            },
            AppState::WinGame => if win_is_over(self.player, delta) {
                self.restarted()
            } else {
                SessionView { player: player_after_win_tick(self.player, delta), ..self }
            },
        }
    }

    /// What a tick reports: the collisions that the scan found, the end of
    /// the game if the tick brought it, the bird that was rescued, and the
    /// phases that the tick changed.
    pub open spec fn report(self, input: PlayerInput, delta: u64) -> TickReport {
        let keyed = self.after_keys(input);
        let moved = keyed.stepped(input.action, delta);
        let worked = moved.after_collisions();
        let running = self.app_state == AppState::InGame && keyed.game_state != GameState::Paused;
        let changes = running && keyed.requested(input.action, delta) is Some && worked.app_state
            == AppState::InGame;
        let after = self.ticked(input, delta);
        TickReport {
            collisions: if running {
                moved.hits() as usize
            } else {
                0
            },
            game_event: if running && moved.fatal() {
                Some(GameEvent::Over)
            } else if changes && worked.wins() {
                Some(GameEvent::Win)
            } else {
                None
            },
            rescued: if changes {
                worked.rescue()
            } else {
                None
            },
            entered_app_state: if after.app_state != self.app_state {
                Some(after.app_state)
            } else {
                None
            },
            entered_game_state: if after.game_state != self.game_state {
                Some(after.game_state)
            } else {
                None
            },
        }
    }
}

/// Lets the spawned logs enter the board, at rest where they were spawned,
/// with consecutive identifiers from `first_id`. Returns the identifier
/// after the last one used.
pub fn admit_logs(logs: &mut Vec<Log>, spawned: &Vec<LogSpawn>, first_id: u64) -> (next_id: u64)
    requires
        logs_wf(old(logs)@),
        forall|k: int|
            0 <= k < spawned@.len() ==> (#[trigger] spawned@[k]).aabb.wf()
                && spawned@[k].center.bounded(),
    ensures
        final(logs)@ == old(logs)@ + logs_entering(spawned@, first_id),
        next_id == id_after(first_id, spawned@.len() as int),
        logs_wf(final(logs)@),
{
    let count: usize = spawned.len();
    let mut next_id: u64 = first_id;
    let mut k: usize = 0;
    while k < count
        invariant
            k <= count,
            count == spawned@.len(),
            logs@ == old(logs)@ + logs_entering(spawned@, first_id).take(k as int),
            next_id == id_after(first_id, k as int),
            logs_wf(logs@),
            forall|j: int|
                0 <= j < spawned@.len() ==> (#[trigger] spawned@[j]).aabb.wf()
                    && spawned@[j].center.bounded(),
        decreases count - k,
    {
        let spawn = spawned[k];
        let log = Log { id: next_id, position: spawn.center, aabb: spawn.aabb, roll: None };
        proof {
            assert(spawned@[k as int].aabb.wf());
            assert(log.wf());
            assert(log == logs_entering(spawned@, first_id)[k as int]);
        }
        let ghost before = logs@;
        logs.push(log);
        proof {
            assert(logs@ =~= old(logs)@ + logs_entering(spawned@, first_id).take(k as int + 1));
            assert forall|j: int| 0 <= j < logs@.len() implies (#[trigger] logs@[j]).wf() by {
                if j < before.len() {
                    assert(before[j].wf());
                }
            }
        }
        next_id = if next_id == u64::MAX {
            0
        } else {
            next_id + 1
        };
        k += 1;
    }
    proof {
        assert(logs_entering(spawned@, first_id).take(count as int) =~= logs_entering(
            spawned@,
            first_id,
        ));
    }
    next_id
}

impl Session {
    /// The game has its level, and the bodies and countdowns are well
    /// formed.
    pub open spec fn wf(self) -> bool {
        self@.wf()
    }

    /// Whether the session is well formed.
    pub fn is_wf(&self) -> (ok: bool)
        ensures
            ok == self.wf(),
    {
        let player_ok: bool = match self.player {
            Some(p) => p.is_wf(),
            None => true,
        };
        if !(self.game.is_wf() && player_ok && self.action_timer.is_wf()) {
            return false;
        }
        let count: usize = self.logs.len();
        let mut i: usize = 0;
        while i < count
            invariant
                i <= count,
                count == self.logs@.len(),
                forall|k: int| 0 <= k < i ==> (#[trigger] self.logs@[k]).wf(),
            decreases count - i,
        {
            if !self.logs[i].is_wf() {
                return false;
            }
            i += 1;
        }
        true
    }

    /// A session that waits for its game to begin.
    pub open spec fn spec_new(game: GameView) -> SessionView {
        SessionView {
            app_state: AppState::AssetLoading,
            game_state: GameState::PlayerIdle,
            prev_state: PrevState(None),
            game,
            player_action_tracker: PlayerActionTracker {
                is_moving: Direction::Nowhere,
                is_jumping: false,
            },
            action_timer: ActionTimer::spec_from_micros(1_000_000),
            debug: DebugSkipPlayerAction {
                skip_player_action: false,
                skip_player_collision: false,
            },
            player: None,
            logs: Seq::empty(),
            next_log_id: 0,
        }
    }

    /// Makes a session around a game. The session waits, with an empty
    /// board, until `begin` is called.
    pub fn new(game: Game) -> (session: Session)
        ensures
            session@ == Self::spec_new(game@),
            game.wf() ==> session.wf(),
    {
        let session = Session {
            app_state: AppState::AssetLoading,
            game_state: GameState::PlayerIdle,
            prev_state: PrevState(None),
            game,
            player_action_tracker: PlayerActionTracker::default(),
            action_timer: ActionTimer::from_micros(1_000_000),
            debug: DebugSkipPlayerAction::default(),
            player: None,
            logs: Vec::new(),
            next_log_id: 0,
        };
        session
    }

    /// Handles the debug keys and the pause key of a tick.
    pub fn apply_keys(&mut self, input: &PlayerInput)
        ensures
            final(self)@ == old(self)@.after_keys(*input),
            old(self).wf() ==> final(self).wf(),
    {
        toggle_debug_skip_player_action(
            input.toggle_skip_player_action,
            input.toggle_skip_player_collision,
            &mut self.debug,
        );
        if input.pause_toggle {
            let next = toggle_pause(self.game_state, &mut self.prev_state);
            self.game_state = next;
        }
    }

    /// Does the work of the current phase for one tick. Returns the phase
    /// that the work asks for, if it asks for one.
    pub fn step_phase(&mut self, action: Option<PlayerAction>, delta: u64) -> (next: Option<
        GameState,
    >)
        requires
            old(self).wf(),
        ensures
            final(self)@ == old(self)@.stepped(action, delta),
            next == old(self)@.requested(action, delta),
            final(self).wf(),
    {
        match self.game_state {
            GameState::PlayerIdle => handle_player_input(
                action,
                &mut self.player_action_tracker,
                &self.debug,
                &self.game,
                &self.player,
            ),
            GameState::PlayerActionInProgress => process_player_action(
                delta,
                &mut self.action_timer,
                &self.player_action_tracker,
                &mut self.player,
                &mut self.game,
            ),
            GameState::GameTurnInProgress => process_game_turn(
                delta,
                &mut self.action_timer,
                &self.player_action_tracker,
                &mut self.logs,
                &self.game,
            ),
            GameState::PlayerFinishingJump => process_player_finishing_jump(
                delta,
                &mut self.action_timer,
                &mut self.player_action_tracker,
                &mut self.player,
            ),
            GameState::Paused => None,
        }
    }

    /// Moves every box to its body, scans for collisions and handles them.
    /// Returns how many collisions the scan reported and whether they end
    /// the game.
    pub fn resolve_collisions(&mut self) -> (found: (usize, bool))
        requires
            old(self).wf(),
        ensures
            final(self)@ == old(self)@.after_collisions(),
            found.0 == old(self)@.hits(),
            found.1 == old(self)@.fatal(),
            final(self).wf(),
    {
        update_aabb_system(&mut self.player, &mut self.logs);
        let bodies = collect_bodies(&self.player, &self.logs);
        let events = collision_detection_system(&bodies);
        let next = player_collision_handling_system(&events, &mut self.player, &self.debug);
        match next {
            Some(state) => {
                self.app_state = state;
                (events.len(), true)
            },
            None => (events.len(), false),
        }
    }

    /// Leaves the current phase. Returns the bird that this rescued, if
    /// any, and whether that has won the game.
    pub fn leave_phase(&mut self) -> (outcome: (Option<u64>, bool))
        requires
            old(self).wf(),
        ensures
            final(self)@ == old(self)@.left(),
            outcome.0 == old(self)@.rescue(),
            outcome.1 == old(self)@.wins(),
            final(self).wf(),
    {
        match self.game_state {
            GameState::PlayerActionInProgress => {
                let bird = player_check_for_bird(
                    &self.player,
                    &mut self.game,
                    &self.player_action_tracker,
                );
                match bird {
                    Some(_) => {
                        let won: bool = increment_bevy(&mut self.game);
                        if won {
                            let next = player_wins_trigger(GameEvent::Win, &mut self.player);
                            match next {
                                Some(state) => {
                                    self.app_state = state;
                                },
                                None => {},
                            }
                        }
                        (bird, won)
                    },
                    None => (bird, false),
                }
            },
            GameState::GameTurnInProgress => {
                advance_game_turn(&mut self.game);
                (None, false)
            },
            _ => (None, false),
        }
    }

    /// Enters a phase.
    pub fn enter_phase(&mut self, next: GameState)
        requires
            old(self).wf(),
        ensures
            final(self)@ == old(self)@.entered(next),
            final(self).wf(),
    {
        match next {
            GameState::PlayerIdle => {
                let spawned = spawn_logs(&mut self.game);
                let next_id = admit_logs(&mut self.logs, &spawned, self.next_log_id);
                self.next_log_id = next_id;
            },
            GameState::PlayerActionInProgress => {
                setup_player_action_timer(
                    &mut self.action_timer,
                    &self.player_action_tracker,
                    &mut self.player,
                );
            },
            GameState::GameTurnInProgress => {
                setup_game_turn_timer(&mut self.action_timer, &mut self.logs);
            },
            GameState::PlayerFinishingJump => {
                setup_player_jump_land_timer(&mut self.action_timer, &mut self.player);
            },
            GameState::Paused => {},
        }
        self.game_state = next;
    }

    /// Changes from the current phase to `next`: leaves the one and, unless
    /// that has won the game, enters the other. Returns what leaving
    /// returned.
    pub fn resolve(&mut self, next: GameState) -> (outcome: (Option<u64>, bool))
        requires
            old(self).wf(),
        ensures
            final(self)@ == old(self)@.resolved(next),
            outcome.0 == old(self)@.rescue(),
            outcome.1 == old(self)@.wins(),
            final(self).wf(),
    {
        let outcome = self.leave_phase();
        if self.app_state == AppState::InGame {
            self.enter_phase(next);
        }
        outcome
    }

    /// Begins the game: the player comes onto the board and the turn is
    /// idle, with the logs of the first step spawned.
    pub fn begin(&mut self)
        requires
            old(self).wf(),
        ensures
            final(self)@ == old(self)@.begun(),
            final(self).wf(),
    {
        self.app_state = AppState::InGame;
        let next = setup_game_environment(&mut self.player);
        self.enter_phase(next);
    }

    /// Begins a new game after one has ended.
    pub fn restart(&mut self)
        requires
            old(self).wf(),
        ensures
            final(self)@ == old(self)@.restarted(),
            final(self).wf(),
    {
        cleanup_game(&mut self.player, &mut self.logs, &mut self.game);
        self.begin();
    }

    /// Runs one tick of `delta` microseconds.
    ///
    /// In a game the tick handles the keys and, unless the game is paused,
    /// does the work of the turn's phase, moves the boxes to their bodies,
    /// scans for collisions, and then changes the phase if the work asked
    /// for it. A fatal collision starts the losing phase at once and the
    /// change of phase is dropped. A rescue that takes the last bird starts
    /// the winning phase in the same tick. In the losing and the winning
    /// phase the tick runs the phase's countdown and begins a new game when
    /// it is over. While the game has not begun a tick does nothing.
    pub fn tick(&mut self, input: &PlayerInput, delta: u64) -> (report: TickReport)
        requires
            old(self).wf(),
        ensures
            final(self)@ == old(self)@.ticked(*input, delta),
            report == old(self)@.report(*input, delta),
            final(self).wf(),
    {
        let app_state_before = self.app_state;
        let game_state_before = self.game_state;
        let mut report = TickReport {
            collisions: 0,
            game_event: None,
            rescued: None,
            entered_app_state: None,
            entered_game_state: None,
        };
        match self.app_state {
            AppState::AssetLoading => {},
            AppState::InGame => {
                self.apply_keys(input);
                if self.game_state != GameState::Paused {
                    let wanted = self.step_phase(input.action, delta);
                    let found = self.resolve_collisions();
                    report.collisions = found.0;
                    if found.1 {
                        report.game_event = Some(GameEvent::Over);
                    }
                    match wanted {
                        Some(next) => {
                            if self.app_state == AppState::InGame {
                                let outcome = self.resolve(next);
                                report.rescued = outcome.0;
                                if outcome.1 {
                                    report.game_event = Some(GameEvent::Win);
                                }
                            }
                        },
                        None => {},
                    }
                }
            },
            AppState::EndGame => {
                let next = player_end_handling_system(delta, &mut self.player);
                match next {
                    Some(_) => {
                        self.restart();
                    },
                    None => {},
                }
            },
            AppState::WinGame => {
                let next = update_win_timer(delta, &mut self.player, &mut self.game);
                match next {
                    Some(_) => {
                        self.restart();
                    },
                    None => {},
                }
            },
        }
        if self.app_state != app_state_before {
            report.entered_app_state = Some(self.app_state);
        }
        if self.game_state != game_state_before {
            report.entered_game_state = Some(self.game_state);
        }
        report
    }
}

/// A tick reports the end of a game in the tick in which the session
/// changes to the losing or the winning phase, and in no other: a rescue of
/// the last bird wins in the very tick of the rescue, and a session that has
/// ended reports no further end.
pub proof fn law_game_ends_in_the_tick_that_reports_it(
    s: SessionView,
    input: PlayerInput,
    delta: u64,
)
    ensures
        s.report(input, delta).game_event == Some(GameEvent::Over) <==> s.app_state
            == AppState::InGame && s.ticked(input, delta).app_state == AppState::EndGame,
        s.report(input, delta).game_event == Some(GameEvent::Win) <==> s.app_state
            == AppState::InGame && s.ticked(input, delta).app_state == AppState::WinGame,
        s.app_state != AppState::InGame ==> s.report(input, delta).game_event is None,
{
}

/// While the turn changes phase, a rescue that leaves no bird on the board
/// is reported as a win together with the rescued bird.
pub proof fn law_last_rescue_wins_at_once(s: SessionView, input: PlayerInput, delta: u64)
    requires
        s.app_state == AppState::InGame,
        s.report(input, delta).rescued is Some,
        no_birds(s.ticked(input, delta).game.current().birds),
        s.game.wf(),
    ensures
        s.ticked(input, delta).app_state == AppState::WinGame,
        s.report(input, delta).game_event == Some(GameEvent::Win),
{
    let keyed = s.after_keys(input);
    let worked = keyed.stepped(input.action, delta).after_collisions();
    let birds = birds_after_rescue(
        worked.game.current().birds,
        worked.player,
        worked.player_action_tracker,
    );
    assert(worked.left().game.current().birds == birds);
    assert(s.ticked(input, delta) == worked.left());
}

/// A session whose player is falling is not ended again: a tick of a
/// running game with such a player reports no lost game, does not change
/// to the losing phase, and leaves the countdown of the fall as it is.
pub proof fn law_game_is_lost_once(s: SessionView, input: PlayerInput, delta: u64)
    requires
        s.app_state == AppState::InGame,
        s.player matches Some(p) && p.end is Some,
    ensures
        s.report(input, delta).game_event != Some(GameEvent::Over),
        s.ticked(input, delta).app_state != AppState::EndGame,
        s.ticked(input, delta).player matches Some(p) && p.end == s.player.unwrap().end,
{
}

/// Once a game is lost, no later tick reports it as lost again: the ticks
/// of the losing phase report nothing at all.
pub proof fn law_losing_phase_is_silent(s: SessionView, input: PlayerInput, delta: u64)
    requires
        s.app_state == AppState::EndGame,
    ensures
        s.report(input, delta).game_event is None,
        s.report(input, delta).collisions == 0,
        s.report(input, delta).rescued is None,
{
}

/// A paused game stands still: a tick without the pause key changes nothing
/// but the debug switches.
pub proof fn law_paused_game_stands_still(s: SessionView, input: PlayerInput, delta: u64)
    requires
        s.app_state == AppState::InGame,
        s.game_state == GameState::Paused,
        !input.pause_toggle,
    ensures
        s.ticked(input, delta) == (SessionView {
            debug: debug_after_keys(
                s.debug,
                input.toggle_skip_player_action,
                input.toggle_skip_player_collision,
            ),
            ..s
        }),
        s.report(input, delta) == (TickReport {
            collisions: 0,
            game_event: None,
            rescued: None,
            entered_app_state: None,
            entered_game_state: None,
        }),
{
}

/// The pause key stops a running game where it is and remembers its phase;
/// pressed again with nothing else, it restores that phase before the tick
/// goes on.
pub proof fn law_pause_key_keeps_the_phase(s: SessionView, input: PlayerInput, delta: u64)
    requires
        s.app_state == AppState::InGame,
        s.game_state != GameState::Paused,
        input.pause_toggle,
        !input.toggle_skip_player_action,
        !input.toggle_skip_player_collision,
    ensures
        s.ticked(input, delta) == (SessionView {
            game_state: GameState::Paused,
            prev_state: PrevState(Some(s.game_state)),
            ..s
        }),
        s.ticked(input, delta).after_keys(input) == (SessionView {
            prev_state: PrevState(None),
            ..s
        }),
{
}

/// Only one phase change happens in a tick, and it is the one that the
/// work of the phase asked for: the turn goes from idle to the player's
/// action, from there to the logs' turn, from there to the landing or to
/// idle, and from the landing to idle.
pub proof fn law_turn_order(s: SessionView, action: Option<PlayerAction>, delta: u64)
    ensures
        s.requested(action, delta) matches Some(next) ==> match s.game_state {
            GameState::PlayerIdle => next == GameState::PlayerActionInProgress,
            GameState::PlayerActionInProgress => next == GameState::GameTurnInProgress,
            GameState::GameTurnInProgress => next == GameState::PlayerFinishingJump || next
                == GameState::PlayerIdle,
            GameState::PlayerFinishingJump => next == GameState::PlayerIdle,
            GameState::Paused => false,
        },
{
}

/// A tick of a running game puts no bird on the board and takes no rescue
/// back: every bird on the board after the tick was there before, bound to
/// the same handle, and the count of rescues has not gone down; it has gone
/// up exactly when a bird was rescued, unless it was full.
pub proof fn law_tick_only_takes_birds(s: SessionView, input: PlayerInput, delta: u64)
    requires
        s.app_state == AppState::InGame,
        s.game.wf(),
    ensures
        forall|cell: Cell| #[trigger]
            s.ticked(input, delta).game.current().birds.contains_key(cell)
                ==> s.game.current().birds.contains_key(cell) && s.ticked(
                input,
                delta,
            ).game.current().birds[cell] == s.game.current().birds[cell],
        s.ticked(input, delta).game.bevy_count >= s.game.bevy_count,
        s.ticked(input, delta).game.bevy_count == (if s.report(input, delta).rescued is Some {
            count_after_rescue(s.game.bevy_count)
        } else {
            s.game.bevy_count
        }),
        s.report(input, delta).rescued matches Some(bird) ==> exists|cell: Cell|
            s.game.current().birds.contains_key(cell) && s.game.current().birds[cell] == bird
                && !s.ticked(input, delta).game.current().birds.contains_key(cell),
{
    let keyed = s.after_keys(input);
    let worked = keyed.stepped(input.action, delta).after_collisions();
    assert(worked.game.current().birds == s.game.current().birds);
    if s.report(input, delta).rescued is Some {
        let cell = rescue_cell(worked.player, worked.player_action_tracker).unwrap();
        assert(s.game.current().birds.contains_key(cell));
        assert(!s.ticked(input, delta).game.current().birds.contains_key(cell));
    }
}

/// The turn counter moves only when the logs' turn ends, and then by one.
pub proof fn law_turn_counter_steps_by_one(s: SessionView, input: PlayerInput, delta: u64)
    requires
        s.app_state == AppState::InGame,
        s.game.wf(),
    ensures
        s.ticked(input, delta).game.current_step == s.game.current_step || (s.after_keys(
            input,
        ).game_state == GameState::GameTurnInProgress && s.ticked(input, delta).game.current_step
            == step_after(s.game.current_step)),
{
}

} // verus!
