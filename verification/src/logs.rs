use crate::collision_system::LLAabb3d;
use crate::game::{lemma_view_with_current, slot_of, Game, LogSequence};
use crate::states::GameObjectType;
use crate::vector::Vec3;
use vstd::prelude::*;

verus! {

/// Half the size of a log's box: two tiles to each side along x, a quarter
/// tile up and down and along z.
pub open spec fn log_half_extents() -> Vec3 {
    Vec3 { x: 2000, y: 250, z: 250 }
}

/// A log that the scheduler puts on the board.
#[derive(Clone, Copy, Debug, PartialEq, Eq, Structural)]
pub struct LogSpawn {
    /// The lane that spawned it, as its index among the level's sequences.
    pub lane: usize,
    /// Where the log appears.
    pub center: Vec3,
    /// Its bounding box, around `center`.
    pub aabb: LLAabb3d,
    pub kind: GameObjectType,
}

/// Where a lane's log appears when the given slot spawns: half a tile short
/// of the lane's x offset, a quarter tile above the ground, and the slot's z
/// offset short of the far edge of the board.
pub open spec fn spawn_center(lane: LogSequence, slot: int, board_size_y: u32) -> Vec3 {
    Vec3 {
        x: ((lane.spawn_offset_x_base + lane.spawn_offset_x[slot]) * 1000 - 500) as i64,
        y: 250,
        z: ((board_size_y - lane.spawn_offset_z[slot]) * 1000) as i64,
    }
}

/// The log that a lane spawns on a step on which it triggers.
pub open spec fn spawn_of(lane: LogSequence, index: int, step: u32, board_size_y: u32) -> LogSpawn {
    let center = spawn_center(lane, slot_of(step), board_size_y);
    LogSpawn {
        lane: index as usize,
        center,
        aabb: LLAabb3d::spec_new(center, log_half_extents()),
        kind: GameObjectType::Log,
    }
}

/// The logs that the lanes spawn on a step, in the order of the lanes: one
/// for each lane whose slot for the step holds a value above zero.
pub open spec fn spawns(lanes: Seq<LogSequence>, step: u32, board_size_y: u32) -> Seq<LogSpawn>
    decreases lanes.len(),
{
    if lanes.len() == 0 {
        Seq::empty()
    } else {
        let last = lanes.len() - 1;
        let before = spawns(lanes.drop_last(), step, board_size_y);
        if lanes[last].triggers(step) {
            before.push(spawn_of(lanes[last], last, step, board_size_y))
        } else {
            before
        }
    }
}

/// A lane after a step: its current slot is the step's slot if it spawned,
/// and nothing changed if it did not.
pub open spec fn lane_after(lane: LogSequence, step: u32) -> LogSequence {
    if lane.triggers(step) {
        LogSequence { sequence_index: slot_of(step) as usize, ..lane }
    } else {
        lane
    }
}

/// The lanes after a step, each as `lane_after` leaves it.
pub open spec fn lanes_after(lanes: Seq<LogSequence>, step: u32) -> Seq<LogSequence> {
    Seq::new(lanes.len(), |i: int| lane_after(lanes[i], step))
}

fn spawn_at(lane: &LogSequence, index: usize, step: u32, board_size_y: u32) -> (spawn: LogSpawn)
    requires
        lane.triggers(step),
    ensures
        spawn == spawn_of(*lane, index as int, step, board_size_y),
        spawn.aabb.wf(),
        spawn.center.bounded(),
{
    let slot: usize = lane.seq_idx(step);
    let offset_x: i64 = lane.spawn_offset_x_base as i64 + lane.spawn_offset_x[slot] as i64;
    let offset_z: i64 = board_size_y as i64 - lane.spawn_offset_z[slot] as i64;
    let center = Vec3::new(offset_x * 1000 - 500, 250, offset_z * 1000);
    LogSpawn {
        lane: index,
        center,
        aabb: LLAabb3d::new(center, Vec3::new(2000, 250, 250)),
        kind: GameObjectType::Log,
    }
}

/// Runs the scheduler for the game's current step. Every lane of the level
/// in play whose slot for the step holds a value above zero spawns one log
/// and records the slot as its current one; the other lanes stay as they
/// are. Returns the logs to put on the board, in the order of the lanes.
pub fn spawn_logs(game: &mut Game) -> (spawned: Vec<LogSpawn>)
    requires
        old(game).wf(),
    ensures
        spawned@ == spawns(
            old(game)@.current().seq,
            old(game).current_step,
            old(game).board_size_y,
        ),
        final(game)@ == old(game)@.with_lanes(
            lanes_after(old(game)@.current().seq, old(game).current_step),
        ),
        final(game).wf(),
        forall|k: int|
            0 <= k < spawned@.len() ==> (#[trigger] spawned@[k]).aabb.wf()
                && spawned@[k].center.bounded(),
{
    let current_level: usize = game.current_level;
    let current_step: u32 = game.current_step;
    let board_size_y: u32 = game.board_size_y;
    let count: usize = game.levels[current_level].seq.len();
    let ghost lanes = game.levels[current_level as int].seq@;
    let mut spawned: Vec<LogSpawn> = Vec::new();
    let mut i: usize = 0;
    while i < count
        invariant
            i <= count,
            count == lanes.len(),
            current_level == old(game).current_level,
            current_step == old(game).current_step,
            board_size_y == old(game).board_size_y,
            lanes == old(game).spec_current_level().seq@,
            old(game).wf(),
            game.board_size_x == old(game).board_size_x,
            game.board_size_y == old(game).board_size_y,
            game.start == old(game).start,
            game.player_pos == old(game).player_pos,
            game.current_step == old(game).current_step,
            game.current_level == old(game).current_level,
            game.bevy_count == old(game).bevy_count,
            game.levels.len() == old(game).levels.len(),
            forall|j: int|
                0 <= j < old(game).levels.len() && j != current_level ==> game.levels[j]@ == old(
                    game,
                ).levels[j]@,
            game.spec_current_level().bird_map == old(game).spec_current_level().bird_map,
            game.spec_current_level().seq.len() == count,
            forall|k: int|
                0 <= k < i ==> game.spec_current_level().seq[k] == lane_after(
                    lanes[k],
                    current_step,
                ),
            forall|k: int| i <= k < count ==> game.spec_current_level().seq[k] == lanes[k],
            spawned@ == spawns(lanes.take(i as int), current_step, board_size_y),
            forall|k: int|
                0 <= k < spawned@.len() ==> (#[trigger] spawned@[k]).aabb.wf()
                    && spawned@[k].center.bounded(),
        decreases count - i,
    {
        let lane = game.levels[current_level].seq[i];
        let slot: usize = lane.seq_idx(current_step);
        proof {
            assert(lanes.take(i as int + 1).drop_last() =~= lanes.take(i as int));
        }
        if lane.log_sequence_nth_step[slot] > 0 {
            game.levels[current_level].seq[i].sequence_index = slot;
            let spawn = spawn_at(&lane, i, current_step, board_size_y);
            spawned.push(spawn);
        }
        i += 1;
    }
    proof {
        assert(lanes.take(count as int) =~= lanes);
        lemma_view_with_current(*old(game), *game);
        assert(game.spec_current_level()@.seq =~= lanes_after(lanes, current_step));
    }
    spawned
}

/// A step on which no lane triggers spawns nothing.
pub proof fn law_no_trigger_no_spawn(lanes: Seq<LogSequence>, step: u32, board_size_y: u32)
    requires
        forall|i: int| 0 <= i < lanes.len() ==> !lanes[i].triggers(step),
    ensures
        spawns(lanes, step, board_size_y).len() == 0,
    decreases lanes.len(),
{
    if lanes.len() > 0 {
        law_no_trigger_no_spawn(lanes.drop_last(), step, board_size_y);
    }
}

/// Each spawned log comes from a lane that triggers on the step, stands
/// where that lane's tables put it, and the lanes of the logs ascend.
pub proof fn law_spawns_come_from_triggering_lanes(
    lanes: Seq<LogSequence>,
    step: u32,
    board_size_y: u32,
)
    requires
        lanes.len() <= usize::MAX,
    ensures
        spawns(lanes, step, board_size_y).len() <= lanes.len(),
        forall|k: int|
            0 <= k < spawns(lanes, step, board_size_y).len() ==> {
                let s = #[trigger] spawns(lanes, step, board_size_y)[k];
                &&& 0 <= s.lane < lanes.len()
                &&& lanes[s.lane as int].triggers(step)
                &&& s == spawn_of(lanes[s.lane as int], s.lane as int, step, board_size_y)
            },
        forall|j: int, k: int|
            0 <= j < k < spawns(lanes, step, board_size_y).len() ==> spawns(
                lanes,
                step,
                board_size_y,
            )[j].lane < spawns(lanes, step, board_size_y)[k].lane,
    decreases lanes.len(),
{
    if lanes.len() > 0 {
        law_spawns_come_from_triggering_lanes(lanes.drop_last(), step, board_size_y);
    }
}

} // verus!
