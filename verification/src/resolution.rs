use crate::bird_map::{cells_is_empty, cells_remove, Cell};
use crate::collision_system::{Body, CollisionEvent, LLAabb3d};
use crate::game::{lemma_view_with_current, opening_game, Game, GameView, BIRD_Y};
use crate::states::{AppState, GameEvent, GameObjectType, GameState};
use crate::timer::{ActionTimer, PLAYER_END_DURATION, PLAYER_WIN_DURATION};
use crate::turn::{logs_wf, player_wf, Log, Player, PlayerActionTracker, PlayerEnd, PlayerWin};
use crate::turn::DebugSkipPlayerAction;
use crate::vector::Vec3;
use vstd::prelude::*;

verus! {

/// The cell of the bird layer above or below a point.
pub open spec fn bird_cell(at: Vec3) -> Cell {
    (at.spec_as_ivec3().x, BIRD_Y, at.spec_as_ivec3().z)
}

/// The cell in which a rescue is tried: the bird cell over the player, while
/// the player is jumping.
pub open spec fn rescue_cell(player: Option<Player>, tracker: PlayerActionTracker) -> Option<Cell> {
    match player {
        Some(p) => if tracker.is_jumping {
            Some(bird_cell(p.position))
        } else {
            None
        },
        None => None,
    }
}

/// The bird that a rescue takes: the one in the rescue cell, if there is
/// such a cell and a bird in it.
pub open spec fn rescued_bird(
    birds: Map<Cell, u64>,
    player: Option<Player>,
    tracker: PlayerActionTracker,
) -> Option<u64> {
    match rescue_cell(player, tracker) {
        Some(cell) => if birds.contains_key(cell) {
            Some(birds[cell])
        } else {
            None
        },
        None => None,
    }
}

/// The birds left after a rescue: all but the one in the rescue cell.
pub open spec fn birds_after_rescue(
    birds: Map<Cell, u64>,
    player: Option<Player>,
    tracker: PlayerActionTracker,
) -> Map<Cell, u64> {
    match rescue_cell(player, tracker) {
        Some(cell) => birds.remove(cell),
        None => birds,
    }
}

/// No bird is left.
pub open spec fn no_birds(birds: Map<Cell, u64>) -> bool {
    forall|cell: Cell| !birds.contains_key(cell)
}

/// Looks for a bird where a jumping player is. The bird in the cell of the
/// bird layer that matches the player's place is taken off the board and
/// returned. Without a jump, a player or a bird there, nothing changes.
pub fn player_check_for_bird(
    player: &Option<Player>,
    game: &mut Game,
    player_action: &PlayerActionTracker,
) -> (bird: Option<u64>)
    requires
        old(game).wf(),
    ensures
        bird == rescued_bird(old(game)@.current().birds, *player, *player_action),
        final(game)@ == old(game)@.with_birds(
            birds_after_rescue(old(game)@.current().birds, *player, *player_action),
        ),
        final(game).wf(),
{
    let mut bird: Option<u64> = None;
    if player_action.is_jumping {
        match *player {
            Some(p) => {
                let cell = p.position.as_ivec3();
                let level: usize = game.current_level;
                bird = cells_remove(&mut game.levels[level].bird_map, (cell.x, BIRD_Y, cell.z));
            },
            None => {},
        }
    }
    proof {
        lemma_view_with_current(*old(game), *game);
        assert(game@.levels =~= old(game)@.with_birds(
            birds_after_rescue(old(game)@.current().birds, *player, *player_action),
        ).levels);
    }
    bird
}

/// The count of rescued birds after one more rescue. The count stops at the
/// largest value it can hold.
pub open spec fn count_after_rescue(count: u32) -> u32 {
    if count == u32::MAX {
        count
    } else {
        (count + 1) as u32
    }
}

/// Counts a rescue. Returns whether the game is won: no bird is left on
/// the level in play.
pub fn increment_bevy(game: &mut Game) -> (won: bool)
    requires
        old(game).wf(),
    ensures
        final(game)@ == (GameView {
            bevy_count: count_after_rescue(old(game).bevy_count),
            ..old(game)@
        }),
        won == no_birds(old(game)@.current().birds),
        final(game).wf(),
{
    if game.bevy_count < u32::MAX {
        game.bevy_count = game.bevy_count + 1;
    }
    proof {
        assert(game@.levels =~= old(game)@.levels);
    }
    cells_is_empty(&game.levels[game.current_level].bird_map)
}

/// The player with the countdown of a won game, unless it has one already.
pub open spec fn player_winning(player: Option<Player>) -> Option<Player> {
    match player {
        Some(p) => Some(
            Player {
                win: if p.win is Some {
                    p.win
                } else {
                    Some(PlayerWin(ActionTimer::spec_from_micros(PLAYER_WIN_DURATION)))
                },
                ..p
            },
        ),
        None => None,
    }
}

/// Reacts to the end of a game. A win, while there is a player, starts the
/// player's winning countdown once and asks for the winning phase. Nothing
/// else has an effect.
pub fn player_wins_trigger(event: GameEvent, player: &mut Option<Player>) -> (next: Option<
    AppState,
>)
    requires
        player_wf(*old(player)),
    ensures
        *final(player) == (if event == GameEvent::Win {
            player_winning(*old(player))
        } else {
            *old(player)
        }),
        next == (if event == GameEvent::Win && (*old(player)) is Some {
            Some(AppState::WinGame)
        } else {
            None
        }),
        player_wf(*final(player)),
{
    match event {
        GameEvent::Win => match *player {
            Some(p) => {
                if p.win.is_none() {
                    *player = Some(
                        Player {
                            win: Some(PlayerWin(ActionTimer::from_micros(PLAYER_WIN_DURATION))),
                            ..p
                        },
                    );
                }
                Some(AppState::WinGame)
            },
            None => None,
        },
        GameEvent::Over => None,
    }
}

/// A collision ends the game: collisions are not switched off, at least one
/// was reported, and there is a player that is not falling yet. A player
/// that is falling has ended the game already, and no collision ends it
/// again.
pub open spec fn collision_is_fatal(
    reported: nat,
    player: Option<Player>,
    debug: DebugSkipPlayerAction,
) -> bool {
    !debug.skip_player_collision && reported > 0 && (player matches Some(p) && p.end is None)
}

/// The player at the start of its fall: with a fresh countdown of the fall.
pub open spec fn player_falling(player: Option<Player>) -> Option<Player> {
    match player {
        Some(p) => Some(
            Player {
                end: Some(PlayerEnd(ActionTimer::spec_from_micros(PLAYER_END_DURATION))),
                ..p
            },
        ),
        None => None,
    }
}

/// Reacts to the collisions of a tick. If a collision is fatal, the
/// player's fall starts and the losing phase is asked for. However many
/// collisions are reported, in this tick or in later ones, this happens
/// once: for a player that is falling already nothing changes and nothing is
/// asked for.
pub fn player_collision_handling_system(
    collision_event: &Vec<CollisionEvent>,
    player: &mut Option<Player>,
    debug: &DebugSkipPlayerAction,
) -> (next: Option<AppState>)
    requires
        player_wf(*old(player)),
    ensures
        *final(player) == (if collision_is_fatal(collision_event@.len(), *old(player), *debug) {
            player_falling(*old(player))
        } else {
            *old(player)
        }),
        next == (if collision_is_fatal(collision_event@.len(), *old(player), *debug) {
            Some(AppState::EndGame)
        } else {
            None
        }),
        player_wf(*final(player)),
{
    if debug.skip_player_collision || collision_event.len() == 0 {
        return None;
    }
    match *player {
        Some(p) => {
            if p.end.is_none() {
                *player = Some(
                    Player {
                        end: Some(PlayerEnd(ActionTimer::from_micros(PLAYER_END_DURATION))),
                        ..p
                    },
                );
                Some(AppState::EndGame)
            } else {
                None
            }
        },
        None => None,
    }
}

/// The game ends once: for a player that is falling, collisions change
/// nothing and end nothing, whatever their number and whatever the debug
/// switches; and the player whose fall a fatal collision has started is such
/// a player, with the countdown that the collision gave it.
pub proof fn law_fall_starts_once(
    reported: nat,
    later: nat,
    player: Option<Player>,
    debug: DebugSkipPlayerAction,
    later_debug: DebugSkipPlayerAction,
)
    ensures
        player matches Some(p) && p.end is Some ==> !collision_is_fatal(reported, player, debug),
        collision_is_fatal(reported, player, debug) ==> !collision_is_fatal(
            later,
            player_falling(player),
            later_debug,
        ),
        collision_is_fatal(reported, player, debug) ==> player_falling(player).unwrap().end
            == Some(PlayerEnd(ActionTimer::spec_from_micros(PLAYER_END_DURATION))),
{
}

/// The fall is over after this tick: the player is falling and its
/// countdown is finished once `delta` more microseconds have passed.
pub open spec fn fall_is_over(player: Option<Player>, delta: u64) -> bool {
    player matches Some(p) && (p.end matches Some(e) && e.0.spec_ticked(delta).finished)
}

/// The player after a tick of its fall: gone once the fall is over, with
/// its countdown advanced before that.
pub open spec fn player_after_fall(player: Option<Player>, delta: u64) -> Option<Player> {
    match player {
        Some(p) => match p.end {
            Some(e) => if e.0.spec_ticked(delta).finished {
                None
            } else {
                Some(Player { end: Some(PlayerEnd(e.0.spec_ticked(delta))), ..p })
            },
            None => Some(p),
        },
        None => None,
    }
}

/// Plays the fall of a lost game for `delta` microseconds. When the fall is
/// over the player is gone and a new game is asked for.
pub fn player_end_handling_system(delta: u64, player: &mut Option<Player>) -> (next: Option<
    AppState,
>)
    requires
        player_wf(*old(player)),
    ensures
        *final(player) == player_after_fall(*old(player), delta),
        next == (if fall_is_over(*old(player), delta) {
            Some(AppState::InGame)
        } else {
            None
        }),
        player_wf(*final(player)),
{
    match *player {
        Some(p) => match p.end {
            Some(e) => {
                let mut timer = e.0;
                timer.tick(delta);
                if timer.finished() {
                    *player = None;
                    Some(AppState::InGame)
                } else {
                    *player = Some(Player { end: Some(PlayerEnd(timer)), ..p });
                    None
                }
            },
            None => None,
        },
        None => None,
    }
}

/// The winning countdown is over after this tick.
pub open spec fn win_is_over(player: Option<Player>, delta: u64) -> bool {
    player matches Some(p) && (p.win matches Some(w) && w.0.spec_ticked(delta).finished)
}

/// The player after a tick of the winning countdown.
pub open spec fn player_after_win_tick(player: Option<Player>, delta: u64) -> Option<Player> {
    match player {
        Some(p) => match p.win {
            Some(w) => Some(Player { win: Some(PlayerWin(w.0.spec_ticked(delta))), ..p }),
            None => Some(p),
        },
        None => None,
    }
}

/// Plays the lingering of a won game for `delta` microseconds. When it is
/// over the game is the opening game again and a new game is asked for.
pub fn update_win_timer(delta: u64, player: &mut Option<Player>, game: &mut Game) -> (next:
    Option<AppState>)
    requires
        player_wf(*old(player)),
    ensures
        *final(player) == player_after_win_tick(*old(player), delta),
        final(game)@ == (if win_is_over(*old(player), delta) {
            opening_game()
        } else {
            old(game)@
        }),
        next == (if win_is_over(*old(player), delta) {
            Some(AppState::InGame)
        } else {
            None
        }),
        player_wf(*final(player)),
        win_is_over(*old(player), delta) || old(game).wf() ==> final(game).wf(),
{
    match *player {
        Some(p) => match p.win {
            Some(w) => {
                let mut timer = w.0;
                timer.tick(delta);
                *player = Some(Player { win: Some(PlayerWin(timer)), ..p });
                if timer.finished() {
                    *game = Game::default();
                    Some(AppState::InGame)
                } else {
                    None
                }
            },
            None => None,
        },
        None => None,
    }
}

/// Clears the board after a game: no player, no logs, and the opening game.
pub fn cleanup_game(player: &mut Option<Player>, logs: &mut Vec<Log>, game: &mut Game)
    ensures
        *final(player) == None::<Player>,
        final(logs)@ == Seq::<Log>::empty(),
        final(game)@ == opening_game(),
        final(game).wf(),
{
    *player = None;
    *logs = Vec::new();
    *game = Game::default();
}

/// Where the player stands when a game begins.
pub open spec fn player_spawn_position() -> Vec3 {
    Vec3 { x: 6000, y: 500, z: 0 }
}

/// Half the size of the player's box.
pub open spec fn player_half_extents() -> Vec3 {
    Vec3 { x: 250, y: 550, z: 250 }
}

/// The player as a game begins: at rest at its spawn position, in its box.
pub open spec fn fresh_player() -> Player {
    Player {
        position: player_spawn_position(),
        aabb: LLAabb3d::spec_new(player_spawn_position(), player_half_extents()),
        motion: None,
        end: None,
        win: None,
    }
}

/// Begins a game: puts the player on the board. Returns the phase in which
/// the game begins.
pub fn setup_game_environment(player: &mut Option<Player>) -> (next: GameState)
    ensures
        *final(player) == Some(fresh_player()),
        next == GameState::PlayerIdle,
        player_wf(*final(player)),
{
    let position = Vec3::new(6000, 500, 0);
    *player = Some(
        Player {
            position,
            aabb: LLAabb3d::new(position, Vec3::new(250, 550, 250)),
            motion: None,
            end: None,
            win: None,
        },
    );
    GameState::PlayerIdle
}

/// The player with its box around its position.
pub open spec fn player_boxed(player: Option<Player>) -> Option<Player> {
    match player {
        Some(p) => Some(Player { aabb: p.aabb.spec_recentered(p.position), ..p }),
        None => None,
    }
}

/// A log with its box around its position.
pub open spec fn log_boxed(log: Log) -> Log {
    Log { aabb: log.aabb.spec_recentered(log.position), ..log }
}

/// The logs, each with its box around its position.
pub open spec fn logs_boxed(logs: Seq<Log>) -> Seq<Log> {
    Seq::new(logs.len(), |i: int| log_boxed(logs[i]))
}

/// Moves the box of every body to where the body is, keeping its size.
pub fn update_aabb_system(player: &mut Option<Player>, logs: &mut Vec<Log>)
    requires
        player_wf(*old(player)),
        logs_wf(old(logs)@),
    ensures
        *final(player) == player_boxed(*old(player)),
        final(logs)@ == logs_boxed(old(logs)@),
        player_wf(*final(player)),
        logs_wf(final(logs)@),
{
    match *player {
        Some(p) => {
            let mut aabb = p.aabb;
            aabb.update_center(p.position);
            *player = Some(Player { aabb, ..p });
        },
        None => {},
    }
    let count: usize = logs.len();
    let mut i: usize = 0;
    while i < count
        invariant
            i <= count,
            count == logs@.len(),
            count == old(logs)@.len(),
            logs_wf(old(logs)@),
            forall|k: int| 0 <= k < i ==> logs@[k] == log_boxed(old(logs)@[k]),
            forall|k: int| i <= k < count ==> logs@[k] == old(logs)@[k],
        decreases count - i,
    {
        let log = logs[i];
        assert(log.wf());
        let mut aabb = log.aabb;
        aabb.update_center(log.position);
        logs[i] = Log { aabb, ..log };
        i += 1;
    }
    proof {
        assert(logs@ =~= logs_boxed(old(logs)@));
        assert forall|k: int| 0 <= k < logs@.len() implies (#[trigger] logs@[k]).wf() by {
            assert(old(logs)@[k].wf());
        }
    }
}

/// The bodies that the collision scan sees: the player first, if there is
/// one, then the logs in order.
pub open spec fn bodies_of(player: Option<Player>, logs: Seq<Log>) -> Seq<Body> {
    let first = match player {
        Some(p) => seq![(GameObjectType::Player, p.aabb)],
        None => Seq::<Body>::empty(),
    };
    first + Seq::new(logs.len(), |i: int| (GameObjectType::Log, logs[i].aabb))
}

/// Lists the bodies for the collision scan.
pub fn collect_bodies(player: &Option<Player>, logs: &Vec<Log>) -> (bodies: Vec<Body>)
    ensures
        bodies@ == bodies_of(*player, logs@),
{
    let mut bodies: Vec<Body> = Vec::new();
    match *player {
        Some(p) => {
            bodies.push((GameObjectType::Player, p.aabb));
        },
        None => {},
    }
    let ghost first = bodies@;
    let count: usize = logs.len();
    let mut i: usize = 0;
    while i < count
        invariant
            i <= count,
            count == logs@.len(),
            bodies@ == first + Seq::new(i as nat, |k: int| (GameObjectType::Log, logs@[k].aabb)),
        decreases count - i,
    {
        bodies.push((GameObjectType::Log, logs[i].aabb));
        proof {
            assert(bodies@ =~= first + Seq::new(
                (i + 1) as nat,
                |k: int| (GameObjectType::Log, logs@[k].aabb),
            ));
        }
        i += 1;
    }
    proof {
        assert(bodies@ =~= bodies_of(*player, logs@));
    }
    bodies
}

} // verus!
