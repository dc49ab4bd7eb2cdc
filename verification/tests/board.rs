use bird_rescue::game::{Direction, Game, Level, LogSequence, BIRD_Y, PLACEHOLDER_BIRD};
use bird_rescue::vector::{IVec2, IVec3, UVec2, Vec3};

fn game_at(x: i32, z: i32, size_x: u32, size_y: u32) -> Game {
    Game {
        board_size_x: size_x,
        board_size_y: size_y,
        start: IVec2::new(x, z),
        player_pos: IVec3::new(x, 0, z),
        current_step: 0,
        current_level: 0,
        levels: vec![Level::new(Vec::new())],
        bevy_count: 0,
    }
}

#[test]
fn move_south_from_the_near_edge_is_rejected() {
    let game = game_at(3, 0, 12, 12);
    assert!(!game.is_valid_player_move(&Direction::South));
    assert!(game.is_valid_player_move(&Direction::North));
    assert!(game.is_valid_player_move(&Direction::East));
    assert!(game.is_valid_player_move(&Direction::West));
    assert!(game.is_valid_player_move(&Direction::Nowhere));
}

#[test]
fn player_moves_stay_in_the_half_open_range() {
    for x in -2..15 {
        for z in -2..15 {
            let game = game_at(x, z, 12, 12);
            let inside = 0 <= x && x < 12 && 0 <= z && z < 12;
            assert_eq!(game.is_valid_player_move(&Direction::Nowhere), inside, "{x} {z}");
            let east = 0 <= x + 1 && x + 1 < 12 && 0 <= z && z < 12;
            assert_eq!(game.is_valid_player_move(&Direction::East), east, "{x} {z}");
            let south = 0 <= x && x < 12 && 0 <= z - 1 && z - 1 < 12;
            assert_eq!(game.is_valid_player_move(&Direction::South), south, "{x} {z}");
        }
    }
}

#[test]
fn board_positions_reach_one_tile_further() {
    let game = game_at(0, 0, 12, 7);
    for x in -2..15 {
        for z in -2..10 {
            let inside = 0 <= x && x <= 12 && 0 <= z && z <= 7;
            assert_eq!(
                game.is_valid_board_pos(IVec3::new(x, 0, z), &Direction::Nowhere),
                inside,
                "{x} {z}"
            );
            let west = 0 <= x - 1 && x - 1 <= 12 && 0 <= z && z <= 7;
            assert_eq!(
                game.is_valid_board_pos(IVec3::new(x, 5, z), &Direction::West),
                west,
                "{x} {z}"
            );
        }
    }
    assert!(game.is_valid_board_pos(IVec3::new(12, 0, 7), &Direction::Nowhere));
    let player_there = game_at(12, 7, 12, 7);
    assert!(!player_there.is_valid_player_move(&Direction::Nowhere));
}

#[test]
fn board_rules_do_not_overflow_at_the_ends_of_the_range() {
    let game = game_at(i32::MAX, i32::MIN, u32::MAX, u32::MAX);
    assert!(!game.is_valid_player_move(&Direction::East));
    assert!(!game.is_valid_player_move(&Direction::South));
    assert!(game.is_valid_board_pos(IVec3::new(i32::MAX, 0, i32::MAX), &Direction::East));
    assert!(game.is_valid_board_pos(IVec3::new(i32::MAX, 0, i32::MAX), &Direction::North));
    assert!(!game.is_valid_board_pos(IVec3::new(i32::MIN, 0, 0), &Direction::West));
}

#[test]
fn directions_are_unit_steps() {
    assert_eq!(Direction::North.value(), IVec3::new(0, 0, 1));
    assert_eq!(Direction::East.value(), IVec3::new(1, 0, 0));
    assert_eq!(Direction::South.value(), IVec3::new(0, 0, -1));
    assert_eq!(Direction::West.value(), IVec3::new(-1, 0, 0));
    assert_eq!(Direction::Nowhere.value(), IVec3::new(0, 0, 0));
    assert_eq!(Direction::default(), Direction::Nowhere);
}

#[test]
fn opening_game_has_its_board_lanes_and_birds() {
    let game = Game::default();
    assert_eq!(game.board_size_x, 12);
    assert_eq!(game.board_size_y, 12);
    assert_eq!(game.start, IVec2::new(3, 0));
    assert_eq!(game.player_pos, IVec3::new(3, 0, 0));
    assert_eq!(game.current_step, 0);
    assert_eq!(game.current_level, 0);
    assert_eq!(game.bevy_count, 0);
    assert_eq!(game.levels.len(), 1);
    let level = game.current_level();
    assert_eq!(level.seq.len(), 3);
    assert_eq!(level.seq[0].log_sequence_nth_step, [1, 0, 1, 1, 1, 0, 0, 0]);
    assert_eq!(level.seq[0].spawn_offset_z, [0, 1, 0, 0, 0, 0, 0, 0]);
    assert_eq!(level.seq[0].spawn_offset_x, [0, 1, 0, 0, 1, 0, 0, 0]);
    assert_eq!(level.seq[0].spawn_offset_x_base, 2);
    assert_eq!(level.seq[1].log_sequence_nth_step, [0, 1, 1, 0, 1, 0, 0, 0]);
    assert_eq!(level.seq[1].spawn_offset_z, [0, 0, 0, 0, 0, 0, 0, 0]);
    assert_eq!(level.seq[1].spawn_offset_x, [0, 1, 0, 0, 1, 0, 0, 0]);
    assert_eq!(level.seq[1].spawn_offset_x_base, 6);
    assert_eq!(level.seq[2].log_sequence_nth_step, [1, 0, 1, 1, 0, 1, 0, 1]);
    assert_eq!(level.seq[2].spawn_offset_z, [0, 0, 1, 0, 0, 0, 0, 0]);
    assert_eq!(level.seq[2].spawn_offset_x, [0, 0, 0, 0, 0, 0, 0, 0]);
    assert_eq!(level.seq[2].spawn_offset_x_base, 10);
    for lane in level.seq.iter() {
        assert_eq!(lane.get_step_length(), 2);
        assert_eq!(lane.sequence_index, 0);
        assert_eq!(lane.sequence_step_counter, 0);
    }
    assert_eq!(level.bird_map.len(), 3);
    assert_eq!(game.bird_at((7, BIRD_Y, 2)), Some(PLACEHOLDER_BIRD));
    assert_eq!(game.bird_at((8, BIRD_Y, 7)), Some(PLACEHOLDER_BIRD));
    assert_eq!(game.bird_at((3, BIRD_Y, 5)), Some(PLACEHOLDER_BIRD));
    assert_eq!(game.bird_at((7, 0, 2)), None);
    assert_eq!(PLACEHOLDER_BIRD, bevy::prelude::Entity::PLACEHOLDER.to_bits());
}

#[test]
fn board_size_in_both_forms() {
    let game = game_at(0, 0, 12, 9);
    assert_eq!(game.board_size_as_vec3(), Vec3::new(12_000, 0, 9_000));
    assert_eq!(game.board_size_as_ivec2(), UVec2::new(12, 9));
}

#[test]
fn binding_a_bird_needs_a_bird_on_the_cell() {
    let mut game = Game::default();
    assert!(game.bind_bird((7, BIRD_Y, 2), 41));
    assert_eq!(game.bird_at((7, BIRD_Y, 2)), Some(41));
    assert!(!game.bind_bird((7, BIRD_Y, 3), 42));
    assert_eq!(game.bird_at((7, BIRD_Y, 3)), None);
    assert_eq!(game.current_level().bird_map.len(), 3);
}

#[test]
fn level_birds_are_inserted_and_replaced() {
    let mut level = Level::new(vec![LogSequence::default()]);
    assert!(level.bird_map.is_empty());
    assert_eq!(level.insert_bird((1, 2, 3), 10), None);
    assert_eq!(level.insert_bird((1, 2, 3), 11), Some(10));
    assert_eq!(level.insert_bird((3, 2, 1), 12), None);
    assert_eq!(level.bird_map.len(), 2);
    assert_eq!(level.bird_map.get(&(1, 2, 3)), Some(&11));
}

#[test]
fn current_level_mut_reaches_the_level_in_play() {
    let mut game = Game::default();
    game.current_level_mut().seq[1].spawn_offset_x_base = 77;
    assert_eq!(game.levels[0].seq[1].spawn_offset_x_base, 77);
}

#[test]
fn world_points_fall_into_cells_toward_zero() {
    assert_eq!(Vec3::new(6_999, 500, -999).as_ivec3(), IVec3::new(6, 0, 0));
    assert_eq!(Vec3::new(7_000, 1_500, -1_000).as_ivec3(), IVec3::new(7, 1, -1));
    assert_eq!(Vec3::new(-1_800, -2_000, 0).as_ivec3(), IVec3::new(-1, -2, 0));
    assert_eq!(
        Vec3::new(i64::MAX, i64::MIN, 2_147_483_648_000).as_ivec3(),
        IVec3::new(i32::MAX, i32::MIN, i32::MAX)
    );
    assert_eq!(IVec3::new(7, 2, -3).as_vec3(), Vec3::new(7_000, 2_000, -3_000));
    assert_eq!(IVec3::new(7, 2, -3).as_vec3().as_ivec3(), IVec3::new(7, 2, -3));
}

#[test]
fn shifts_stop_at_the_coordinate_limit() {
    let limit = bird_rescue::vector::COORD_LIMIT;
    assert_eq!(Vec3::new(1, 2, 3).shifted(Vec3::new(10, -20, 30)), Vec3::new(11, -18, 33));
    assert_eq!(
        Vec3::new(limit, -limit, i64::MAX).shifted(Vec3::new(1, -1, i64::MAX)),
        Vec3::new(limit, -limit, limit)
    );
    assert_eq!(Vec3::new(-5, 0, 5).abs(), Vec3::new(5, 0, 5));
}
