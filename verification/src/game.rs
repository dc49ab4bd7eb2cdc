use crate::bird_map::{bird_cells, cells_get, cells_insert, cells_new, BirdMap, Cell};
use crate::vector::{IVec2, IVec3, UVec2, Vec3, UNITS_PER_TILE};
use vstd::prelude::*;

verus! {

/// Number of slots in each table of a log sequence.
pub const SEQUENCE_LENGTH: usize = 8;

/// Elevation of the layer on which the birds stand.
pub const BIRD_Y: i32 = 2;

/// The handle bound to a bird that has no body yet: the engine's placeholder
/// entity, as its 64 bits.
pub const PLACEHOLDER_BIRD: u64 = 0x1_FFFF_FFFF;

/// A step on the board.
#[derive(Clone, Copy, Debug, PartialEq, Eq, Structural)]
pub enum Direction {
    /// No step at all.
    Nowhere,
    North,
    East,
    South,
    West,
}

impl Default for Direction {
    fn default() -> (d: Direction)
        ensures
            d == Direction::Nowhere,
    {
        Direction::Nowhere
    }
}

impl Direction {
    /// The displacement of one step: a unit along x or z, or nothing.
    pub open spec fn spec_value(self) -> IVec3 {
        match self {
            Direction::North => IVec3 { x: 0, y: 0, z: 1 },
            Direction::East => IVec3 { x: 1, y: 0, z: 0 },
            Direction::South => IVec3 { x: 0, y: 0, z: -1i32 },
            Direction::West => IVec3 { x: -1i32, y: 0, z: 0 },
            Direction::Nowhere => IVec3 { x: 0, y: 0, z: 0 },
        }
    }

    pub fn value(&self) -> (v: IVec3)
        ensures
            v == self.spec_value(),
    {
        match self {
            Direction::North => IVec3::new(0, 0, 1),
            Direction::East => IVec3::new(1, 0, 0),
            Direction::South => IVec3::new(0, 0, -1),
            Direction::West => IVec3::new(-1, 0, 0),
            Direction::Nowhere => IVec3::new(0, 0, 0),
        }
    }
}

/// The cells in which the player may stand: the tiles of the board.
pub open spec fn in_player_range(x: int, z: int, size_x: int, size_z: int) -> bool {
    0 <= x < size_x && 0 <= z < size_z
}

/// The cells in which a log is still on the board: the tiles and one more
/// row and column past the far edges.
pub open spec fn in_board_range(x: int, z: int, size_x: int, size_z: int) -> bool {
    -1 < x <= size_x && -1 < z <= size_z
}

/// A step in `dir` from `pos` ends on a board of the given size or on its
/// one-tile rim.
pub open spec fn stays_on_board(size_x: u32, size_y: u32, pos: IVec3, dir: Direction) -> bool {
    in_board_range(
        pos.x + dir.spec_value().x,
        pos.z + dir.spec_value().z,
        size_x as int,
        size_y as int,
    )
}

/// A step in `dir` from `pos` ends on a tile of a board of the given size.
pub open spec fn stays_on_tiles(size_x: u32, size_y: u32, pos: IVec3, dir: Direction) -> bool {
    in_player_range(
        pos.x + dir.spec_value().x,
        pos.z + dir.spec_value().z,
        size_x as int,
        size_y as int,
    )
}

/// The schedule of one lane of logs: for each of the eight slots that a turn
/// counter selects, whether a log enters and where.
#[derive(Clone, Copy, Debug)]
pub struct LogSequence {
    /// A slot with a value above zero spawns a log.
    pub log_sequence_nth_step: [u32; 8],
    /// For how many steps the sequence spawns.
    pub log_sequence_step_length: u32,
    pub spawn_offset_x: [i32; 8],
    pub spawn_offset_z: [i32; 8],
    pub spawn_offset_x_base: i32,
    /// The slot of the latest spawn.
    pub sequence_index: usize,
    pub sequence_step_counter: u32,
}

/// The slot that a turn counter selects.
pub open spec fn slot_of(step: u32) -> int {
    step as int % 8
}

impl Default for LogSequence {
    fn default() -> (s: LogSequence)
        ensures
            s.log_sequence_nth_step@ == Seq::new(8, |i: int| 0u32),
            s.spawn_offset_x@ == Seq::new(8, |i: int| 0i32),
            s.spawn_offset_z@ == Seq::new(8, |i: int| 0i32),
            s.log_sequence_step_length == 0,
            s.spawn_offset_x_base == 0,
            s.sequence_index == 0,
            s.sequence_step_counter == 0,
    {
        let s = LogSequence {
            log_sequence_nth_step: [0, 0, 0, 0, 0, 0, 0, 0],
            log_sequence_step_length: 0,
            spawn_offset_x: [0, 0, 0, 0, 0, 0, 0, 0],
            spawn_offset_z: [0, 0, 0, 0, 0, 0, 0, 0],
            spawn_offset_x_base: 0,
            sequence_index: 0,
            sequence_step_counter: 0,
        };
        assert(s.log_sequence_nth_step@ =~= Seq::new(8, |i: int| 0u32));
        assert(s.spawn_offset_x@ =~= Seq::new(8, |i: int| 0i32));
        assert(s.spawn_offset_z@ =~= Seq::new(8, |i: int| 0i32));
        s
    }
}

impl LogSequence {
    /// The sequence spawns a log on this step.
    pub open spec fn triggers(self, step: u32) -> bool {
        self.log_sequence_nth_step[slot_of(step)] > 0
    }

    /// The slot of the tables that a turn counter selects: the counter
    /// modulo the length of the tables.
    pub fn seq_idx(&self, step: u32) -> (idx: usize)
        ensures
            idx as int == slot_of(step),
            idx < SEQUENCE_LENGTH,
    {
        (step % 8) as usize
    }

    /// Whether the step leaves the remainder `mod_val` when divided by the
    /// entry of its slot.
    pub fn check_seq(&self, step: u32, mod_val: u32) -> (hit: bool)
        requires
            self.log_sequence_nth_step[slot_of(step)] != 0,
        ensures
            hit == (step as int % self.log_sequence_nth_step[slot_of(step)] as int == mod_val as int),
    {
        let idx: usize = self.seq_idx(step);
        step % self.log_sequence_nth_step[idx] == mod_val
    }

    pub fn get_nth_step(&self) -> (n: u32)
        requires
            self.sequence_index < SEQUENCE_LENGTH,
        ensures
            n == self.log_sequence_nth_step[self.sequence_index as int],
    {
        self.log_sequence_nth_step[self.sequence_index]
    }

    pub fn get_step_length(&self) -> (n: u32)
        ensures
            n == self.log_sequence_step_length,
    {
        self.log_sequence_step_length
    }

    /// The lane's x offset at the current slot: the base plus the slot's own
    /// offset.
    pub fn get_spawn_offset_x(&self) -> (x: i32)
        requires
            self.sequence_index < SEQUENCE_LENGTH,
            i32::MIN <= self.spawn_offset_x_base + self.spawn_offset_x[self.sequence_index as int]
                <= i32::MAX,
        ensures
            x == self.spawn_offset_x_base + self.spawn_offset_x[self.sequence_index as int],
    {
        self.spawn_offset_x_base + self.spawn_offset_x[self.sequence_index]
    }

    pub fn get_spawn_offset_z(&self) -> (z: i32)
        requires
            self.sequence_index < SEQUENCE_LENGTH,
        ensures
            z == self.spawn_offset_z[self.sequence_index as int],
    {
        self.spawn_offset_z[self.sequence_index]
    }
}

/// The slot of a turn counter is a valid index into the tables, for every
/// counter.
pub proof fn law_slot_in_range(step: u32)
    ensures
        0 <= slot_of(step) < SEQUENCE_LENGTH,
{
}

/// The slot depends on the counter modulo eight only: counters eight apart
/// select the same slot.
pub proof fn law_slot_periodic(step: u32)
    requires
        step as int + 8 <= u32::MAX,
    ensures
        slot_of((step + 8) as u32) == slot_of(step),
{
}

/// One level: its lanes of logs and the birds still to be rescued.
pub struct Level {
    pub seq: Vec<LogSequence>,
    /// The cells that hold a bird. A rescued bird's entry is removed.
    pub bird_map: BirdMap,
}

/// A level as the contracts see it: its lanes in order, and its birds by
/// cell.
pub struct LevelView {
    pub seq: Seq<LogSequence>,
    pub birds: Map<Cell, u64>,
}

impl View for Level {
    type V = LevelView;

    open spec fn view(&self) -> LevelView {
        LevelView { seq: self.seq@, birds: bird_cells(self.bird_map) }
    }
}

impl Level {
    /// A level with the given lanes and no bird.
    pub fn new(seq: Vec<LogSequence>) -> (level: Level)
        ensures
            level@ == (LevelView { seq: seq@, birds: Map::<Cell, u64>::empty() }),
    {
        Level { seq, bird_map: cells_new() }
    }

    /// Puts a bird on `cell`, in place of the bird that stood there, if one
    /// did. Returns the bird that stood there.
    pub fn insert_bird(&mut self, cell: Cell, bird: u64) -> (before: Option<u64>)
        ensures
            final(self)@ == (LevelView { birds: old(self)@.birds.insert(cell, bird), ..old(self)@ }),
            before == (if old(self)@.birds.contains_key(cell) {
                Some(old(self)@.birds[cell])
            } else {
                None
            }),
    {
        cells_insert(&mut self.bird_map, cell, bird)
    }
}

/// The board, the player's place on it, the turn counter and the levels.
pub struct Game {
    pub board_size_x: u32,
    pub board_size_y: u32,
    pub start: IVec2,
    pub player_pos: IVec3,
    pub current_step: u32,
    pub current_level: usize,
    pub levels: Vec<Level>,
    /// How many birds were rescued in this game.
    pub bevy_count: u32,
}

/// The tables of a lane: spawn slots, z offsets, x offsets.
pub type LaneTables = ([u32; 8], [i32; 8], [i32; 8]);

/// The tables of the first lane of the opening level.
pub open spec fn opening_lane_1() -> LaneTables {
    ([1u32, 0, 1, 1, 1, 0, 0, 0], [0i32, 1, 0, 0, 0, 0, 0, 0], [0i32, 1, 0, 0, 1, 0, 0, 0])
}

/// The tables of the second lane of the opening level.
pub open spec fn opening_lane_2() -> LaneTables {
    ([0u32, 1, 1, 0, 1, 0, 0, 0], [0i32, 0, 0, 0, 0, 0, 0, 0], [0i32, 1, 0, 0, 1, 0, 0, 0])
}

/// The tables of the third lane of the opening level.
pub open spec fn opening_lane_3() -> LaneTables {
    ([1u32, 0, 1, 1, 0, 1, 0, 1], [0i32, 0, 1, 0, 0, 0, 0, 0], [0i32, 0, 0, 0, 0, 0, 0, 0])
}

/// A lane of the opening level: the given tables and base, a step length of
/// two, and no spawn yet.
pub open spec fn opening_lane(tables: LaneTables, base: i32) -> LogSequence {
    LogSequence {
        log_sequence_nth_step: tables.0,
        log_sequence_step_length: 2,
        spawn_offset_x: tables.2,
        spawn_offset_z: tables.1,
        spawn_offset_x_base: base,
        sequence_index: 0,
        sequence_step_counter: 0,
    }
}

/// The birds of the opening level: three cells on the bird layer, none with
/// a body yet.
pub open spec fn opening_birds() -> Map<Cell, u64> {
    Map::<Cell, u64>::empty().insert((7, 2, 2), PLACEHOLDER_BIRD).insert(
        (8, 2, 7),
        PLACEHOLDER_BIRD,
    ).insert((3, 2, 5), PLACEHOLDER_BIRD)
}

/// A game as the contracts see it.
pub struct GameView {
    pub board_size_x: u32,
    pub board_size_y: u32,
    pub start: IVec2,
    pub player_pos: IVec3,
    pub current_step: u32,
    pub current_level: usize,
    pub levels: Seq<LevelView>,
    pub bevy_count: u32,
}

impl GameView {
    /// The game has the level that it is playing.
    pub open spec fn wf(self) -> bool {
        self.current_level < self.levels.len()
    }

    /// The level in play.
    pub open spec fn current(self) -> LevelView
        recommends
            self.wf(),
    {
        self.levels[self.current_level as int]
    }

    /// The game with the level in play replaced.
    pub open spec fn with_current(self, level: LevelView) -> GameView
        recommends
            self.wf(),
    {
        GameView { levels: self.levels.update(self.current_level as int, level), ..self }
    }

    /// The game with other birds on the level in play.
    pub open spec fn with_birds(self, birds: Map<Cell, u64>) -> GameView
        recommends
            self.wf(),
    {
        self.with_current(LevelView { birds, ..self.current() })
    }

    /// The game with other lanes on the level in play.
    pub open spec fn with_lanes(self, seq: Seq<LogSequence>) -> GameView
        recommends
            self.wf(),
    {
        self.with_current(LevelView { seq, ..self.current() })
    }
}

impl View for Game {
    type V = GameView;

    open spec fn view(&self) -> GameView {
        GameView {
            board_size_x: self.board_size_x,
            board_size_y: self.board_size_y,
            start: self.start,
            player_pos: self.player_pos,
            current_step: self.current_step,
            current_level: self.current_level,
            levels: Seq::new(self.levels.len() as nat, |i: int| self.levels[i]@),
            bevy_count: self.bevy_count,
        }
    }
}

/// The opening game: a board of twelve by twelve tiles, the player at its
/// start cell, no turn taken, no bird rescued, and one level of three lanes
/// and three birds.
pub open spec fn opening_game() -> GameView {
    GameView {
        board_size_x: 12,
        board_size_y: 12,
        start: IVec2 { x: 3, y: 0 },
        player_pos: IVec3 { x: 3, y: 0, z: 0 },
        current_step: 0,
        current_level: 0,
        levels: seq![
            LevelView {
                seq: seq![
                    opening_lane(opening_lane_1(), 2),
                    opening_lane(opening_lane_2(), 6),
                    opening_lane(opening_lane_3(), 10),
                ],
                birds: opening_birds(),
            },
        ],
        bevy_count: 0,
    }
}

fn make_opening_lane(nth: [u32; 8], offset_z: [i32; 8], offset_x: [i32; 8], base: i32) -> (s:
    LogSequence)
    ensures
        s == opening_lane((nth, offset_z, offset_x), base),
{
    LogSequence {
        log_sequence_step_length: 2,
        log_sequence_nth_step: nth,
        spawn_offset_z: offset_z,
        spawn_offset_x: offset_x,
        spawn_offset_x_base: base,
        sequence_index: 0,
        sequence_step_counter: 0,
    }
}

impl Default for Game {
    /// The opening game.
    fn default() -> (g: Game)
        ensures
            g@ == opening_game(),
            g.wf(),
    {
        let lane_1 = make_opening_lane(
            [1, 0, 1, 1, 1, 0, 0, 0],
            [0, 1, 0, 0, 0, 0, 0, 0],
            [0, 1, 0, 0, 1, 0, 0, 0],
            2,
        );
        let lane_2 = make_opening_lane(
            [0, 1, 1, 0, 1, 0, 0, 0],
            [0, 0, 0, 0, 0, 0, 0, 0],
            [0, 1, 0, 0, 1, 0, 0, 0],
            6,
        );
        let lane_3 = make_opening_lane(
            [1, 0, 1, 1, 0, 1, 0, 1],
            [0, 0, 1, 0, 0, 0, 0, 0],
            [0, 0, 0, 0, 0, 0, 0, 0],
            10,
        );
        let mut seq: Vec<LogSequence> = Vec::new();
        seq.push(lane_1);
        seq.push(lane_2);
        seq.push(lane_3);
        let mut bird_map = cells_new();
        cells_insert(&mut bird_map, (7, BIRD_Y, 2), PLACEHOLDER_BIRD);
        cells_insert(&mut bird_map, (8, BIRD_Y, 7), PLACEHOLDER_BIRD);
        cells_insert(&mut bird_map, (3, BIRD_Y, 5), PLACEHOLDER_BIRD);
        let mut levels: Vec<Level> = Vec::new();
        levels.push(Level { seq, bird_map });
        let g = Game {
            board_size_x: 12,
            board_size_y: 12,
            start: IVec2::new(3, 0),
            current_step: 0,
            player_pos: IVec3::new(3, 0, 0),
            current_level: 0,
            bevy_count: 0,
            levels,
        };
        proof {
            assert(g.levels[0]@.seq =~= opening_game().levels[0].seq);
            assert(g@.levels =~= opening_game().levels);
        }
        g
    }
}

impl Game {
    /// The game has the level that it is playing.
    pub open spec fn wf(self) -> bool {
        self.current_level < self.levels.len()
    }

    /// The level in play.
    pub open spec fn spec_current_level(self) -> Level
        recommends
            self.wf(),
    {
        self.levels[self.current_level as int]
    }

    /// The player stays on a tile of the board after a step in `dir` from
    /// the cell that the game records for it.
    pub open spec fn spec_is_valid_player_move(self, dir: Direction) -> bool {
        stays_on_tiles(self.board_size_x, self.board_size_y, self.player_pos, dir)
    }

    /// A step in `dir` from `pos` ends on the board or on its one-tile rim.
    pub open spec fn spec_is_valid_board_pos(self, pos: IVec3, dir: Direction) -> bool {
        stays_on_board(self.board_size_x, self.board_size_y, pos, dir)
    }

    /// Whether the game has the level that it is playing.
    pub fn is_wf(&self) -> (ok: bool)
        ensures
            ok == self.wf(),
    {
        self.current_level < self.levels.len()
    }

    /// The board's size as a world position: its far corner on the ground.
    pub fn board_size_as_vec3(&self) -> (v: Vec3)
        ensures
            v.x == self.board_size_x as int * UNITS_PER_TILE,
            v.y == 0,
            v.z == self.board_size_y as int * UNITS_PER_TILE,
            v.bounded(),
    {
        Vec3::new(self.board_size_x as i64 * UNITS_PER_TILE, 0, self.board_size_y as i64 * UNITS_PER_TILE)
    }

    pub fn board_size_as_ivec2(&self) -> (v: UVec2)
        ensures
            v.x == self.board_size_x,
            v.y == self.board_size_y,
    {
        UVec2::new(self.board_size_x, self.board_size_y)
    }

    /// Whether the player may step in `dir` from the cell that the game
    /// records for it: the cell reached must be a tile of the board,
    /// `0 <= x < board_size_x` and `0 <= z < board_size_y`.
    pub fn is_valid_player_move(&self, dir: &Direction) -> (valid: bool)
        ensures
            valid == self.spec_is_valid_player_move(*dir),
    {
        self.is_valid_player_step(self.player_pos, dir)
    }

    /// Whether a step in `dir` from `pos` ends on a tile of the board.
    pub fn is_valid_player_step(&self, pos: IVec3, dir: &Direction) -> (valid: bool)
        ensures
            valid == stays_on_tiles(self.board_size_x, self.board_size_y, pos, *dir),
    {
        let step = dir.value();
        let x: i64 = pos.x as i64 + step.x as i64;
        let z: i64 = pos.z as i64 + step.z as i64;
        x >= 0 && x < self.board_size_x as i64 && z >= 0 && z < self.board_size_y as i64
    }

    /// Whether a log that steps in `dir` from `pos` is still on the board.
    /// The far bounds are inclusive: a log travels one tile further than the
    /// player may go.
    pub fn is_valid_board_pos(&self, pos: IVec3, dir: &Direction) -> (valid: bool)
        ensures
            valid == self.spec_is_valid_board_pos(pos, *dir),
    {
        let step = dir.value();
        let x: i64 = pos.x as i64 + step.x as i64;
        let z: i64 = pos.z as i64 + step.z as i64;
        x > -1 && x <= self.board_size_x as i64 && z > -1 && z <= self.board_size_y as i64
    }

    pub fn current_level_mut(&mut self) -> (level: &mut Level)
        requires
            old(self).wf(),
        ensures
            *level == old(self).spec_current_level(),
            final(self).levels@ == old(self).levels@.update(
                old(self).current_level as int,
                *final(level),
            ),
            final(self).board_size_x == old(self).board_size_x,
            final(self).board_size_y == old(self).board_size_y,
            final(self).start == old(self).start,
            final(self).player_pos == old(self).player_pos,
            final(self).current_step == old(self).current_step,
            final(self).current_level == old(self).current_level,
            final(self).bevy_count == old(self).bevy_count,
    {
        let i: usize = self.current_level;
        &mut self.levels[i]
    }

    /// Binds the bird that stands on `cell` to a handle. A cell without a
    /// bird stays without one. Returns whether the cell holds a bird.
    pub fn bind_bird(&mut self, cell: Cell, bird: u64) -> (bound: bool)
        requires
            old(self).wf(),
        ensures
            bound == old(self)@.current().birds.contains_key(cell),
            bound ==> final(self)@ == old(self)@.with_birds(
                old(self)@.current().birds.insert(cell, bird),
            ),
            !bound ==> final(self)@ == old(self)@,
            final(self).wf(),
    {
        let i: usize = self.current_level;
        let held = cells_get(&self.levels[i].bird_map, cell);
        match held {
            Some(_) => {
                cells_insert(&mut self.levels[i].bird_map, cell, bird);
                proof {
                    lemma_view_with_current(*old(self), *self);
                }
                true
            },
            None => {
                proof {
                    assert(self@.levels =~= old(self)@.levels);
                }
                false
            },
        }
    }

    /// The handle of the bird that stands on `cell`, if one does.
    pub fn bird_at(&self, cell: Cell) -> (bird: Option<u64>)
        requires
            self.wf(),
        ensures
            bird == (if self@.current().birds.contains_key(cell) {
                Some(self@.current().birds[cell])
            } else {
                None
            }),
    {
        cells_get(&self.levels[self.current_level].bird_map, cell)
    }

    pub fn current_level(&self) -> (level: &Level)
        requires
            self.wf(),
        ensures
            *level == self.spec_current_level(),
    {
        &self.levels[self.current_level]
    }
}

/// Two games that agree on everything but the level in play have views that
/// differ in that level only.
pub proof fn lemma_view_with_current(before: Game, after: Game)
    requires
        before.wf(),
        after.board_size_x == before.board_size_x,
        after.board_size_y == before.board_size_y,
        after.start == before.start,
        after.player_pos == before.player_pos,
        after.current_step == before.current_step,
        after.current_level == before.current_level,
        after.bevy_count == before.bevy_count,
        after.levels.len() == before.levels.len(),
        forall|j: int|
            0 <= j < before.levels.len() && j != before.current_level ==> after.levels[j]@
                == before.levels[j]@,
    ensures
        after@ == before@.with_current(after.spec_current_level()@),
        after.wf(),
{
    assert(after@.levels =~= before@.levels.update(
        before.current_level as int,
        after.spec_current_level()@,
    ));
}

/// The player's range lies inside the logs' range, which is wider by one
/// tile along x and along z and by nothing else.
pub proof fn law_board_range_one_tile_wider(x: int, z: int, size_x: int, size_z: int)
    ensures
        in_player_range(x, z, size_x, size_z) ==> in_board_range(x, z, size_x, size_z),
        in_board_range(x, z, size_x, size_z) <==> in_player_range(x, z, size_x + 1, size_z + 1),
        in_player_range(x, z, size_x, size_z) <==> (0 <= x && x < size_x && 0 <= z && z < size_z),
        in_board_range(x, z, size_x, size_z) <==> (0 <= x && x <= size_x && 0 <= z && z <= size_z),
{
}

} // verus!
