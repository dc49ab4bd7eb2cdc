use crate::easing::{bounce_out, cubic_in_out, ease_in_out_cubic, easeoutbounce, FULL};
use crate::collision_system::LLAabb3d;
use crate::game::{stays_on_board, stays_on_tiles, Direction, Game, GameView};
use crate::states::GameState;
use crate::timer::{
    lerp_part, spec_lerp_part, ActionTimer, GAME_MOVE_ANIMATION_DURATION,
    PLAYER_ACTION_ANIMATION_DURATION, PLAYER_JUMP_ANIMATION_DURATION,
    PLAYER_JUMP_LAND_ANIMATION_DURATION,
};
use crate::vector::{IVec3, Vec3};
use vstd::prelude::*;

verus! {

/// What the player asks for in a turn.
#[derive(Clone, Copy, Debug, PartialEq, Eq, Structural)]
pub enum PlayerAction {
    Move(Direction),
    JumpStart,
}

/// What kind of action the player is taking.
#[derive(Clone, Copy, Debug, PartialEq, Eq, Structural)]
pub struct PlayerActionTracker {
    pub is_moving: Direction,
    pub is_jumping: bool,
}

impl Default for PlayerActionTracker {
    fn default() -> (t: PlayerActionTracker)
        ensures
            t == (PlayerActionTracker { is_moving: Direction::Nowhere, is_jumping: false }),
    {
        PlayerActionTracker { is_moving: Direction::Nowhere, is_jumping: false }
    }
}

/// Switches that suppress parts of a turn while developing.
#[derive(Clone, Copy, Debug, PartialEq, Eq, Structural)]
pub struct DebugSkipPlayerAction {
    /// The turn goes on without waiting for the player.
    pub skip_player_action: bool,
    /// Collisions of the player do not end the game.
    pub skip_player_collision: bool,
}

impl Default for DebugSkipPlayerAction {
    fn default() -> (d: DebugSkipPlayerAction)
        ensures
            d == (DebugSkipPlayerAction { skip_player_action: false, skip_player_collision: false }),
    {
        DebugSkipPlayerAction { skip_player_action: false, skip_player_collision: false }
    }
}

/// The phase that a pause interrupted, kept until the game resumes.
#[derive(Clone, Copy, Debug, PartialEq, Eq, Structural)]
pub struct PrevState(pub Option<GameState>);

impl Default for PrevState {
    fn default() -> (p: PrevState)
        ensures
            p == PrevState(None),
    {
        PrevState(None)
    }
}

/// The way the player's body is going.
#[derive(Clone, Copy, Debug, PartialEq, Eq, Structural)]
pub struct PlayerMove {
    pub start_position: Vec3,
    pub target_position: Vec3,
}

/// The way a rolling log is going.
#[derive(Clone, Copy, Debug, PartialEq, Eq, Structural)]
pub struct LogRoll {
    pub start_position: Vec3,
    pub target_position: Vec3,
}

/// The countdown of the fall that follows a fatal collision.
#[derive(Clone, Copy, Debug, PartialEq, Eq, Structural)]
pub struct PlayerEnd(pub ActionTimer);

/// The countdown that follows the last rescue.
#[derive(Clone, Copy, Debug, PartialEq, Eq, Structural)]
pub struct PlayerWin(pub ActionTimer);

/// The player's body.
#[derive(Clone, Copy, Debug, PartialEq, Eq, Structural)]
pub struct Player {
    pub position: Vec3,
    pub aabb: LLAabb3d,
    pub motion: Option<PlayerMove>,
    /// Set once a collision has ended the game.
    pub end: Option<PlayerEnd>,
    /// Set once the last bird is rescued.
    pub win: Option<PlayerWin>,
}

/// A log on the board.
#[derive(Clone, Copy, Debug, PartialEq, Eq, Structural)]
pub struct Log {
    /// Tells this log from every other log of the session.
    pub id: u64,
    pub position: Vec3,
    pub aabb: LLAabb3d,
    pub roll: Option<LogRoll>,
}

impl Player {
    /// Positions are within the coordinate limit, the box is well formed,
    /// and so are the countdowns.
    pub open spec fn wf(self) -> bool {
        &&& self.position.bounded()
        &&& self.aabb.wf()
        &&& (self.motion matches Some(m) ==> m.start_position.bounded()
            && m.target_position.bounded())
        &&& (self.end matches Some(e) ==> e.0.wf())
        &&& (self.win matches Some(w) ==> w.0.wf())
    }
}

impl Log {
    /// Positions are within the coordinate limit and the box is well formed.
    pub open spec fn wf(self) -> bool {
        &&& self.position.bounded()
        &&& self.aabb.wf()
        &&& (self.roll matches Some(r) ==> r.start_position.bounded()
            && r.target_position.bounded())
    }
}

impl Player {
    /// Whether the player is well formed.
    pub fn is_wf(&self) -> (ok: bool)
        ensures
            ok == self.wf(),
    {
        let motion_ok: bool = match self.motion {
            Some(m) => m.start_position.is_bounded() && m.target_position.is_bounded(),
            None => true,
        };
        let end_ok: bool = match self.end {
            Some(e) => e.0.is_wf(),
            None => true,
        };
        let win_ok: bool = match self.win {
            Some(w) => w.0.is_wf(),
            None => true,
        };
        self.position.is_bounded() && self.aabb.is_wf() && motion_ok && end_ok && win_ok
    }
}

impl Log {
    /// Whether the log is well formed.
    pub fn is_wf(&self) -> (ok: bool)
        ensures
            ok == self.wf(),
    {
        let roll_ok: bool = match self.roll {
            Some(r) => r.start_position.is_bounded() && r.target_position.is_bounded(),
            None => true,
        };
        self.position.is_bounded() && self.aabb.is_wf() && roll_ok
    }
}

/// Every log of the sequence is well formed.
pub open spec fn logs_wf(logs: Seq<Log>) -> bool {
    forall|i: int| 0 <= i < logs.len() ==> (#[trigger] logs[i]).wf()
}

/// The player, if there is one, is well formed.
pub open spec fn player_wf(player: Option<Player>) -> bool {
    player matches Some(p) ==> p.wf()
}

/// One tile up.
pub open spec fn one_up() -> Vec3 {
    Vec3 { x: 0, y: 1000, z: 0 }
}

/// One tile down.
pub open spec fn one_down() -> Vec3 {
    Vec3 { x: 0, y: -1000i64, z: 0 }
}

/// The way a log rolls in one turn: two tiles toward the near edge.
pub open spec fn log_step() -> Vec3 {
    Vec3 { x: 0, y: 0, z: -2000i64 }
}

/// The request that the turn takes up. A jump is always taken up. A move is
/// taken up if it leaves the player on a tile of the board, counted from the
/// cell in which the player's body is, or if there is no player. A move that
/// would leave the board is dropped.
pub open spec fn accepted_action(
    action: Option<PlayerAction>,
    size_x: u32,
    size_y: u32,
    player: Option<Player>,
) -> Option<PlayerAction> {
    match action {
        Some(PlayerAction::Move(direction)) => match player {
            Some(p) => if stays_on_tiles(size_x, size_y, p.position.spec_as_ivec3(), direction) {
                action
            } else {
                None
            },
            None => action,
        },
        _ => action,
    }
}

/// The tracker after a request that was taken up: a move records its
/// direction and is no jump, a jump keeps the direction of the last move.
pub open spec fn tracker_after_input(
    tracker: PlayerActionTracker,
    action: Option<PlayerAction>,
) -> PlayerActionTracker {
    match action {
        Some(PlayerAction::Move(direction)) => PlayerActionTracker {
            is_moving: direction,
            is_jumping: false,
        },
        Some(PlayerAction::JumpStart) => PlayerActionTracker { is_jumping: true, ..tracker },
        None => tracker,
    }
}

/// The turn leaves the idle phase: a request was taken up, or the wait for
/// the player is switched off.
pub open spec fn input_starts_action(
    action: Option<PlayerAction>,
    debug: DebugSkipPlayerAction,
) -> bool {
    action is Some || debug.skip_player_action
}

/// Takes the player's request while the turn is idle. A move that would
/// take the player off the tiles of the board is rejected: it leaves the
/// tracker as it is and does not start the turn. Returns the phase to enter,
/// if the turn moves on.
pub fn handle_player_input(
    action: Option<PlayerAction>,
    tracker: &mut PlayerActionTracker,
    debug: &DebugSkipPlayerAction,
    game: &Game,
    player: &Option<Player>,
) -> (next: Option<GameState>)
    ensures
        *final(tracker) == tracker_after_input(
            *old(tracker),
            accepted_action(action, game.board_size_x, game.board_size_y, *player),
        ),
        next == (if input_starts_action(
            accepted_action(action, game.board_size_x, game.board_size_y, *player),
            *debug,
        ) {
            Some(GameState::PlayerActionInProgress)
        } else {
            None
        }),
{
    let mut moving: bool = false;
    let mut jump: bool = false;
    match action {
        Some(PlayerAction::Move(direction)) => {
            let valid: bool = match *player {
                Some(p) => game.is_valid_player_step(p.position.as_ivec3(), &direction),
                None => true,
            };
            if valid {
                moving = true;
                tracker.is_moving = direction;
            }
        },
        Some(PlayerAction::JumpStart) => {
            jump = true;
            tracker.is_jumping = true;
        },
        None => {},
    }
    if moving {
        tracker.is_jumping = false;
    }
    if moving || jump || debug.skip_player_action {
        Some(GameState::PlayerActionInProgress)
    } else {
        None
    }
}

/// A request that is taken up is the request as it was made, and a move
/// that is taken up keeps a player that stands on the tiles on the tiles.
pub proof fn law_accepted_move_stays_on_tiles(
    action: Option<PlayerAction>,
    size_x: u32,
    size_y: u32,
    player: Player,
)
    ensures
        accepted_action(action, size_x, size_y, Some(player)) is Some ==> accepted_action(
            action,
            size_x,
            size_y,
            Some(player),
        ) == action,
        accepted_action(action, size_x, size_y, Some(player)) matches Some(
            PlayerAction::Move(direction),
        ) ==> stays_on_tiles(size_x, size_y, player.position.spec_as_ivec3(), direction),
        action == Some(PlayerAction::JumpStart) ==> accepted_action(
            action,
            size_x,
            size_y,
            Some(player),
        ) == action,
{
}

/// How long the player's action plays.
pub open spec fn action_duration(tracker: PlayerActionTracker) -> u64 {
    if tracker.is_jumping {
        PLAYER_JUMP_ANIMATION_DURATION
    } else {
        PLAYER_ACTION_ANIMATION_DURATION
    }
}

/// Where the player's action ends: one tile up for a jump, one tile along
/// the direction for a move.
pub open spec fn action_target(tracker: PlayerActionTracker, at: Vec3) -> Vec3 {
    if tracker.is_jumping {
        at.spec_shifted(one_up())
    } else {
        at.spec_shifted(tracker.is_moving.spec_value().spec_as_vec3())
    }
}

/// The player set on the way from where it stands to `target`.
pub open spec fn player_heading(player: Option<Player>, target: Vec3) -> Option<Player> {
    match player {
        Some(p) => Some(
            Player {
                motion: Some(PlayerMove { start_position: p.position, target_position: target }),
                ..p
            },
        ),
        None => None,
    }
}

/// Where the player's action ends, from where the player stands now.
pub open spec fn player_action_target(
    tracker: PlayerActionTracker,
    player: Option<Player>,
) -> Vec3 {
    match player {
        Some(p) => action_target(tracker, p.position),
        None => Vec3 { x: 0, y: 0, z: 0 },
    }
}

/// Where a landing ends, from where the player stands now: one tile down.
pub open spec fn player_landing_target(player: Option<Player>) -> Vec3 {
    match player {
        Some(p) => p.position.spec_shifted(one_down()),
        None => Vec3 { x: 0, y: 0, z: 0 },
    }
}

/// Enters the action phase: starts the countdown of the move or of the jump
/// and sets the player on its way.
pub fn setup_player_action_timer(
    action_timer: &mut ActionTimer,
    tracker: &PlayerActionTracker,
    player: &mut Option<Player>,
)
    requires
        player_wf(*old(player)),
    ensures
        *final(action_timer) == ActionTimer::spec_from_micros(action_duration(*tracker)),
        *final(player) == player_heading(*old(player), player_action_target(*tracker, *old(player))),
        player_wf(*final(player)),
        final(action_timer).wf(),
{
    *action_timer = if tracker.is_jumping {
        ActionTimer::from_micros(PLAYER_JUMP_ANIMATION_DURATION)
    } else {
        ActionTimer::from_micros(PLAYER_ACTION_ANIMATION_DURATION)
    };
    action_timer.reset();
    match *player {
        Some(p) => {
            let start_position = p.position;
            let target_position = if tracker.is_jumping {
                start_position.shifted(Vec3::new(0, 1000, 0))
            } else {
                start_position.shifted(tracker.is_moving.value().as_vec3())
            };
            *player = Some(
                Player { motion: Some(PlayerMove { start_position, target_position }), ..p },
            );
        },
        None => {},
    }
}

/// The player during an animation whose countdown has just been ticked: on
/// its way at the eased share of the distance, or, once the countdown has
/// finished, at the target and at rest. A player that is not on its way
/// stays as it is.
pub open spec fn player_animated(player: Option<Player>, timer: ActionTimer, eased: int) -> Option<
    Player,
> {
    match player {
        Some(p) => match p.motion {
            Some(m) => if timer.just_finished {
                Some(Player { position: m.target_position, motion: None, ..p })
            } else {
                Some(
                    Player {
                        position: spec_lerp_part(
                            m.start_position,
                            m.target_position,
                            eased as u64,
                            FULL,
                        ),
                        ..p
                    },
                )
            },
            None => Some(p),
        },
        None => None,
    }
}

/// The animation ends with this tick: the countdown has just finished and
/// there is a player on its way.
pub open spec fn player_arrives(player: Option<Player>, timer: ActionTimer) -> bool {
    timer.just_finished && (player matches Some(p) && p.motion is Some)
}

/// The cell that the game records for the player after the action: the
/// cell of the target when a jump has just been completed, the recorded cell
/// otherwise.
pub open spec fn recorded_cell(
    game: GameView,
    tracker: PlayerActionTracker,
    player: Option<Player>,
    timer: ActionTimer,
) -> IVec3 {
    if player_arrives(player, timer) && tracker.is_jumping {
        player.unwrap().motion.unwrap().target_position.spec_as_ivec3()
    } else {
        game.player_pos
    }
}

/// Plays the player's action for `delta` microseconds. The player follows a
/// cubic ease from start to target. When the countdown finishes, the player
/// stands on the target, a jump records the player's cell in the game, and
/// the logs' turn is next.
pub fn process_player_action(
    delta: u64,
    action_timer: &mut ActionTimer,
    tracker: &PlayerActionTracker,
    player: &mut Option<Player>,
    game: &mut Game,
) -> (next: Option<GameState>)
    requires
        old(action_timer).wf(),
        player_wf(*old(player)),
    ensures
        *final(action_timer) == old(action_timer).spec_ticked(delta),
        *final(player) == player_animated(
            *old(player),
            *final(action_timer),
            cubic_in_out(final(action_timer).spec_fraction()),
        ),
        final(game)@ == (GameView {
            player_pos: recorded_cell(old(game)@, *tracker, *old(player), *final(action_timer)),
            ..old(game)@
        }),
        next == (if player_arrives(*old(player), *final(action_timer)) {
            Some(GameState::GameTurnInProgress)
        } else {
            None
        }),
        final(action_timer).wf(),
        player_wf(*final(player)),
        final(game).wf() == old(game).wf(),
{
    action_timer.tick(delta);
    let eased: u64 = ease_in_out_cubic(action_timer.fraction());
    let mut next: Option<GameState> = None;
    match *player {
        Some(p) => match p.motion {
            Some(m) => {
                if action_timer.just_finished() {
                    *player = Some(Player { position: m.target_position, motion: None, ..p });
                    if tracker.is_jumping {
                        game.player_pos = m.target_position.as_ivec3();
                    }
                    next = Some(GameState::GameTurnInProgress);
                } else {
                    let at = lerp_part(m.start_position, m.target_position, eased, FULL);
                    *player = Some(Player { position: at, ..p });
                }
            },
            None => {},
        },
        None => {},
    }
    proof {
        assert(game@.levels =~= old(game)@.levels);
    }
    next
}

/// A log set rolling from where it lies.
pub open spec fn log_tagged(log: Log) -> Log {
    Log {
        roll: Some(
            LogRoll {
                start_position: log.position,
                target_position: log.position.spec_shifted(log_step()),
            },
        ),
        ..log
    }
}

/// The logs, each set rolling.
pub open spec fn logs_tagged(logs: Seq<Log>) -> Seq<Log> {
    Seq::new(logs.len(), |i: int| log_tagged(logs[i]))
}

/// Enters the logs' turn: starts its countdown and sets every log rolling
/// two tiles toward the near edge.
pub fn setup_game_turn_timer(action_timer: &mut ActionTimer, logs: &mut Vec<Log>)
    requires
        logs_wf(old(logs)@),
    ensures
        *final(action_timer) == ActionTimer::spec_from_micros(GAME_MOVE_ANIMATION_DURATION),
        final(logs)@ == logs_tagged(old(logs)@),
        logs_wf(final(logs)@),
        final(action_timer).wf(),
{
    *action_timer = ActionTimer::from_micros(GAME_MOVE_ANIMATION_DURATION);
    action_timer.reset();
    let count: usize = logs.len();
    let mut i: usize = 0;
    while i < count
        invariant
            i <= count,
            count == logs@.len(),
            count == old(logs)@.len(),
            logs_wf(old(logs)@),
            forall|k: int| 0 <= k < i ==> logs@[k] == log_tagged(old(logs)@[k]),
            forall|k: int| i <= k < count ==> logs@[k] == old(logs)@[k],
        decreases count - i,
    {
        let log = logs[i];
        assert(log.wf());
        let start_position = log.position;
        let target_position = start_position.shifted(Vec3::new(0, 0, -2000));
        logs[i] = Log { roll: Some(LogRoll { start_position, target_position }), ..log };
        i += 1;
    }
    proof {
        assert(logs@ =~= logs_tagged(old(logs)@));
        assert forall|k: int| 0 <= k < logs@.len() implies (#[trigger] logs@[k]).wf() by {
            assert(old(logs)@[k].wf());
        }
    }
}

/// A log after a tick of the logs' turn: a rolling log lies as far along
/// its way as the countdown is, or, once the countdown has finished, on its
/// target and at rest. A log that is not rolling stays as it is.
pub open spec fn log_rolled(log: Log, timer: ActionTimer) -> Log {
    match log.roll {
        Some(r) => if timer.just_finished {
            Log { position: r.target_position, roll: None, ..log }
        } else {
            Log { position: timer.spec_lerp(r.start_position, r.target_position), ..log }
        },
        None => log,
    }
}

/// A rolling log leaves the board with this tick: the countdown is past
/// nine tenths, and a step west from the cell where the log lies now does
/// not stay on the board.
pub open spec fn log_leaves(log: Log, timer: ActionTimer, size_x: u32, size_y: u32) -> bool {
    match log.roll {
        Some(r) => timer.spec_nearly_done() && !stays_on_board(
            size_x,
            size_y,
            timer.spec_lerp(r.start_position, r.target_position).spec_as_ivec3(),
            Direction::West,
        ),
        None => false,
    }
}

/// The logs after a tick of their turn, in order: those that leave the
/// board are gone, the others are as `log_rolled` says.
pub open spec fn logs_rolled(logs: Seq<Log>, timer: ActionTimer, size_x: u32, size_y: u32) -> Seq<
    Log,
>
    decreases logs.len(),
{
    if logs.len() == 0 {
        Seq::empty()
    } else {
        let before = logs_rolled(logs.drop_last(), timer, size_x, size_y);
        if log_leaves(logs.last(), timer, size_x, size_y) {
            before
        } else {
            before.push(log_rolled(logs.last(), timer))
        }
    }
}

/// The phase after the logs' turn: the landing if the player is in the air,
/// the idle phase if not.
pub open spec fn phase_after_turn(tracker: PlayerActionTracker) -> GameState {
    if tracker.is_jumping {
        GameState::PlayerFinishingJump
    } else {
        GameState::PlayerIdle
    }
}

/// Plays the logs' turn for `delta` microseconds. Every rolling log moves
/// in a straight line, at even speed, from its start to its target. In the
/// last tenth of the countdown a log that has rolled off the board is
/// removed. When the countdown finishes, the logs lie on their targets and
/// the turn moves on.
pub fn process_game_turn(
    delta: u64,
    action_timer: &mut ActionTimer,
    tracker: &PlayerActionTracker,
    logs: &mut Vec<Log>,
    game: &Game,
) -> (next: Option<GameState>)
    requires
        old(action_timer).wf(),
        logs_wf(old(logs)@),
    ensures
        *final(action_timer) == old(action_timer).spec_ticked(delta),
        final(logs)@ == logs_rolled(
            old(logs)@,
            *final(action_timer),
            game.board_size_x,
            game.board_size_y,
        ),
        next == (if final(action_timer).just_finished {
            Some(phase_after_turn(*tracker))
        } else {
            None
        }),
        final(action_timer).wf(),
        logs_wf(final(logs)@),
{
    action_timer.tick(delta);
    let near_end: bool = action_timer.nearly_done();
    let done: bool = action_timer.just_finished();
    let count: usize = logs.len();
    let mut kept: Vec<Log> = Vec::new();
    let mut i: usize = 0;
    while i < count
        invariant
            i <= count,
            count == logs@.len(),
            logs@ == old(logs)@,
            logs_wf(logs@),
            action_timer.wf(),
            near_end == action_timer.spec_nearly_done(),
            done == action_timer.just_finished,
            kept@ == logs_rolled(
                logs@.take(i as int),
                *action_timer,
                game.board_size_x,
                game.board_size_y,
            ),
            logs_wf(kept@),
        decreases count - i,
    {
        let log = logs[i];
        proof {
            assert(log.wf());
            assert(logs@.take(i as int + 1).drop_last() =~= logs@.take(i as int));
            assert(logs@.take(i as int + 1).last() == log);
        }
        match log.roll {
            Some(r) => {
                let at = action_timer.lerp(r.start_position, r.target_position);
                let leaves: bool = near_end && !game.is_valid_board_pos(
                    at.as_ivec3(),
                    &Direction::West,
                );
                if !leaves {
                    if done {
                        kept.push(Log { position: r.target_position, roll: None, ..log });
                    } else {
                        kept.push(Log { position: at, ..log });
                    }
                }
            },
            None => {
                kept.push(log);
            },
        }
        i += 1;
    }
    proof {
        assert(logs@.take(count as int) =~= logs@);
    }
    *logs = kept;
    if done {
        if tracker.is_jumping {
            Some(GameState::PlayerFinishingJump)
        } else {
            Some(GameState::PlayerIdle)
        }
    } else {
        None
    }
}

/// Ends the logs' turn: the turn counter goes up by one, and past its
/// largest value it starts again at zero.
pub fn advance_game_turn(game: &mut Game)
    ensures
        final(game)@ == (GameView {
            current_step: (if old(game).current_step == u32::MAX {
                0u32
            } else {
                (old(game).current_step + 1) as u32
            }),
            ..old(game)@
        }),
        final(game).wf() == old(game).wf(),
{
    game.current_step = if game.current_step == u32::MAX {
        0
    } else {
        game.current_step + 1
    };
    proof {
        assert(game@.levels =~= old(game)@.levels);
    }
}

/// Enters the landing: starts its countdown and sets the player on its way
/// one tile down.
pub fn setup_player_jump_land_timer(action_timer: &mut ActionTimer, player: &mut Option<Player>)
    requires
        player_wf(*old(player)),
    ensures
        *final(action_timer) == ActionTimer::spec_from_micros(PLAYER_JUMP_LAND_ANIMATION_DURATION),
        *final(player) == player_heading(*old(player), player_landing_target(*old(player))),
        player_wf(*final(player)),
        final(action_timer).wf(),
{
    *action_timer = ActionTimer::from_micros(PLAYER_JUMP_LAND_ANIMATION_DURATION);
    action_timer.reset();
    match *player {
        Some(p) => {
            let start_position = p.position;
            let target_position = start_position.shifted(Vec3::new(0, -1000, 0));
            *player = Some(
                Player { motion: Some(PlayerMove { start_position, target_position }), ..p },
            );
        },
        None => {},
    }
}

/// The tracker after a tick of the landing: once the player has landed it
/// is no longer jumping.
pub open spec fn tracker_after_landing(
    tracker: PlayerActionTracker,
    player: Option<Player>,
    timer: ActionTimer,
) -> PlayerActionTracker {
    if player_arrives(player, timer) {
        PlayerActionTracker { is_jumping: false, ..tracker }
    } else {
        tracker
    }
}

/// Plays the landing for `delta` microseconds. The player follows a
/// bouncing ease from start to target. When the countdown finishes, the
/// player stands on the target, is no longer jumping, and the turn is idle
/// again.
pub fn process_player_finishing_jump(
    delta: u64,
    action_timer: &mut ActionTimer,
    tracker: &mut PlayerActionTracker,
    player: &mut Option<Player>,
) -> (next: Option<GameState>)
    requires
        old(action_timer).wf(),
        player_wf(*old(player)),
    ensures
        *final(action_timer) == old(action_timer).spec_ticked(delta),
        *final(player) == player_animated(
            *old(player),
            *final(action_timer),
            bounce_out(final(action_timer).spec_fraction()),
        ),
        *final(tracker) == tracker_after_landing(*old(tracker), *old(player), *final(action_timer)),
        next == (if player_arrives(*old(player), *final(action_timer)) {
            Some(GameState::PlayerIdle)
        } else {
            None
        }),
        final(action_timer).wf(),
        player_wf(*final(player)),
{
    action_timer.tick(delta);
    let eased: u64 = easeoutbounce(action_timer.fraction());
    let mut next: Option<GameState> = None;
    match *player {
        Some(p) => match p.motion {
            Some(m) => {
                if action_timer.just_finished() {
                    *player = Some(Player { position: m.target_position, motion: None, ..p });
                    tracker.is_jumping = false;
                    next = Some(GameState::PlayerIdle);
                } else {
                    let at = lerp_part(m.start_position, m.target_position, eased, FULL);
                    *player = Some(Player { position: at, ..p });
                }
            },
            None => {},
        },
        None => {},
    }
    next
}

/// The phase after the pause key: a running game pauses, a paused game goes
/// back to the phase that the pause interrupted, or to the idle phase if
/// none is remembered.
pub open spec fn phase_after_pause_key(current: GameState, prev_state: PrevState) -> GameState {
    match current {
        GameState::Paused => match prev_state.0 {
            Some(previous) => previous,
            None => GameState::PlayerIdle,
        },
        _ => GameState::Paused,
    }
}

/// What is remembered after the pause key: the interrupted phase while
/// paused, nothing once resumed.
pub open spec fn memo_after_pause_key(current: GameState, prev_state: PrevState) -> PrevState {
    match current {
        GameState::Paused => PrevState(None),
        _ => PrevState(Some(current)),
    }
}

/// Handles the pause key. Returns the phase to enter.
pub fn toggle_pause(current: GameState, prev_state: &mut PrevState) -> (next: GameState)
    ensures
        next == phase_after_pause_key(current, *old(prev_state)),
        *final(prev_state) == memo_after_pause_key(current, *old(prev_state)),
{
    match current {
        GameState::Paused => {
            let remembered = prev_state.0;
            prev_state.0 = None;
            match remembered {
                Some(previous) => previous,
                None => GameState::PlayerIdle,
            }
        },
        other => {
            prev_state.0 = Some(other);
            GameState::Paused
        },
    }
}

/// Pausing a running game and resuming it leads back to the phase that was
/// interrupted, with nothing left in the memo.
pub proof fn law_pause_then_resume(current: GameState, prev_state: PrevState)
    requires
        current != GameState::Paused,
    ensures
        phase_after_pause_key(current, prev_state) == GameState::Paused,
        phase_after_pause_key(GameState::Paused, memo_after_pause_key(current, prev_state))
            == current,
        memo_after_pause_key(GameState::Paused, memo_after_pause_key(current, prev_state))
            == PrevState(None),
{
}

/// The switches after the debug keys: each key flips its switch.
pub open spec fn debug_after_keys(
    debug: DebugSkipPlayerAction,
    toggle_action: bool,
    toggle_collision: bool,
) -> DebugSkipPlayerAction {
    DebugSkipPlayerAction {
        skip_player_action: debug.skip_player_action != toggle_action,
        skip_player_collision: debug.skip_player_collision != toggle_collision,
    }
}

/// Handles the two debug keys.
pub fn toggle_debug_skip_player_action(
    toggle_action: bool,
    toggle_collision: bool,
    debug_skip_player_action: &mut DebugSkipPlayerAction,
)
    ensures
        *final(debug_skip_player_action) == debug_after_keys(
            *old(debug_skip_player_action),
            toggle_action,
            toggle_collision,
        ),
{
    if toggle_action {
        debug_skip_player_action.skip_player_action = !debug_skip_player_action.skip_player_action;
    }
    if toggle_collision {
        debug_skip_player_action.skip_player_collision =
        !debug_skip_player_action.skip_player_collision;
    }
}

} // verus!
