use physics_tetris::board::Board;
use physics_tetris::game::{BlockForce, Controls, Game, MOVEMENT_FORCE, TORQUE};
use physics_tetris::settle::BlockObs;
use physics_tetris::shape::TetrominoKind;
use physics_tetris::stats::Stats;

fn resting(id: u64, y: i64) -> BlockObs {
    BlockObs { id, y, resting: true }
}

fn falling(id: u64, y: i64) -> BlockObs {
    BlockObs { id, y, resting: false }
}

fn no_keys() -> Controls {
    Controls { left: false, right: false, rotate_ccw: false, rotate_cw: false }
}

#[test]
fn new_game_has_no_piece() {
    let game = Game::new();
    assert_eq!((game.board.n_lanes, game.board.n_rows), (10, 20));
    assert_eq!(game.stats, Stats::new());
    assert!(game.active_blocks.is_empty());
    assert!(game.active_joints.is_empty());
}

#[test]
fn spawn_places_four_blocks_at_the_top_centre() {
    let mut game = Game::new();
    let piece = game.spawn_piece(TetrominoKind::I);
    assert_eq!(piece.kind, TetrominoKind::I);
    assert_eq!(piece.blocks.len(), 4);
    let cells: Vec<(i64, i64)> = piece.blocks.iter().map(|b| (b.lane, b.row)).collect();
    assert_eq!(cells, vec![(5, 20), (5, 19), (5, 18), (5, 17)]);
    assert_eq!((piece.blocks[0].x, piece.blocks[0].y), (500, 10_500));
    assert_eq!((piece.blocks[3].x, piece.blocks[3].y), (500, 7_500));
    assert!(piece.blocks.iter().all(|b| b.kind == TetrominoKind::I));
    assert_eq!(game.stats.generated_blocks, 4);
    let ids: Vec<u64> = piece.blocks.iter().map(|b| b.id).collect();
    assert_eq!(game.active_blocks, ids);
}

#[test]
fn spawn_joins_blocks_per_catalog() {
    let mut game = Game::new();
    let piece = game.spawn_piece(TetrominoKind::T);
    let ids: Vec<u64> = piece.blocks.iter().map(|b| b.id).collect();
    let links: Vec<(u64, u64)> = piece.joints.iter().map(|j| (j.first, j.second)).collect();
    assert_eq!(links, vec![(ids[0], ids[1]), (ids[1], ids[2]), (ids[1], ids[3])]);
    // anchors point from the first block to the middle of the shared edge
    assert_eq!((piece.joints[0].anchor_x, piece.joints[0].anchor_y), (500, 0));
    assert_eq!((piece.joints[2].anchor_x, piece.joints[2].anchor_y), (0, -500));
    let joint_ids: Vec<u64> = piece.joints.iter().map(|j| j.id).collect();
    assert_eq!(game.active_joints, joint_ids);
    assert!(joint_ids.iter().all(|j| !ids.contains(j)));
}

#[test]
fn consecutive_spawns_use_fresh_handles() {
    let mut game = Game::new();
    let first = game.spawn_piece(TetrominoKind::O);
    let second = game.spawn_piece(TetrominoKind::S);
    assert_eq!(game.stats.generated_blocks, 8);
    for b in &second.blocks {
        assert!(first.blocks.iter().all(|a| a.id != b.id));
        assert!(first.joints.iter().all(|j| j.id != b.id));
    }
    assert_eq!(first.joints.len(), 4);
    assert_eq!(second.joints.len(), 3);
}

#[test]
fn random_spawn_counts_four_blocks() {
    let mut game = Game::new();
    let piece = game.spawn_tetromino();
    assert_eq!(piece.blocks.len(), 4);
    assert_eq!(piece.joints.len(), piece.kind.layout().joints.len());
    assert_eq!(game.stats.generated_blocks, 4);
}

#[test]
fn leftward_input_pushes_every_block_alike() {
    let mut game = Game::with_board(Board::new(10, 20));
    game.spawn_piece(TetrominoKind::L);
    let controls = Controls { left: true, ..no_keys() };
    for _ in 0..3 {
        let forces = game.movement_forces(controls);
        assert_eq!(forces.len(), 4);
        for (f, id) in forces.iter().zip(game.active_blocks.iter()) {
            assert_eq!(*f, BlockForce { block: *id, force_x: -MOVEMENT_FORCE, torque: 0 });
        }
        assert_eq!(forces[0].force_x, -80);
    }
}

#[test]
fn rotation_and_opposed_keys() {
    let mut game = Game::new();
    game.spawn_piece(TetrominoKind::J);
    let ccw = game.movement_forces(Controls { rotate_ccw: true, ..no_keys() });
    assert!(ccw.iter().all(|f| f.force_x == 0 && f.torque == TORQUE && TORQUE == 110));
    let cw = game.movement_forces(Controls { rotate_cw: true, right: true, ..no_keys() });
    assert!(cw.iter().all(|f| f.force_x == 80 && f.torque == -110));
    let both = game.movement_forces(Controls { left: true, right: true, rotate_ccw: true, rotate_cw: true });
    assert!(both.iter().all(|f| f.force_x == 0 && f.torque == 0));
}

#[test]
fn no_piece_no_forces() {
    let game = Game::new();
    assert!(game.movement_forces(Controls { left: true, ..no_keys() }).is_empty());
}

#[test]
fn one_falling_block_prevents_settling() {
    let mut game = Game::with_board(Board::new(4, 20));
    game.spawn_piece(TetrominoKind::O);
    let ids = game.active_blocks.clone();
    let joints = game.active_joints.clone();
    let obs = vec![
        resting(ids[0], -9_500),
        resting(ids[1], -9_500),
        resting(ids[2], -9_500),
        falling(ids[3], -9_500),
    ];
    let out = game.settle_with_kind(&obs, TetrominoKind::I);
    assert!(!out.settled);
    assert!(out.removed_joints.is_empty());
    assert!(out.cleared_blocks.is_empty());
    assert!(out.spawned.is_none());
    assert_eq!(game.active_blocks, ids);
    assert_eq!(game.active_joints, joints);
    assert_eq!(game.stats.cleared_blocks, 0);
    assert_eq!(game.stats.generated_blocks, 4);
}

#[test]
fn unreported_block_counts_as_moving() {
    let mut game = Game::with_board(Board::new(4, 20));
    game.spawn_piece(TetrominoKind::Z);
    let ids = game.active_blocks.clone();
    let obs: Vec<BlockObs> = ids[..3].iter().map(|id| resting(*id, -9_500)).collect();
    assert!(!game.piece_at_rest(&obs));
    assert!(!game.settle_with_kind(&obs, TetrominoKind::I).settled);
}

#[test]
fn settle_without_a_piece_does_nothing() {
    let mut game = Game::with_board(Board::new(4, 20));
    let obs = vec![resting(100, -9_500), resting(101, -9_500), resting(102, -9_500), resting(103, -9_500)];
    let out = game.settle_with_kind(&obs, TetrominoKind::I);
    assert!(!out.settled);
    assert!(out.cleared_blocks.is_empty());
    assert_eq!(game.stats.cleared_blocks, 0);
}

#[test]
fn o_piece_filling_a_row_clears_and_respawns() {
    let mut game = Game::with_board(Board::new(4, 20));
    let piece = game.spawn_piece(TetrominoKind::O);
    let ids = game.active_blocks.clone();
    let joints = game.active_joints.clone();
    let obs: Vec<BlockObs> = ids.iter().map(|id| resting(*id, -9_500)).collect();
    let out = game.settle_with_kind(&obs, TetrominoKind::L);
    assert!(out.settled);
    assert_eq!(out.removed_joints, joints);
    assert_eq!(out.cleared_blocks, ids);
    assert_eq!(game.stats.cleared_blocks, 4);
    let next = out.spawned.expect("health is above zero");
    assert_eq!(next.kind, TetrominoKind::L);
    assert_eq!(game.stats.generated_blocks, 8);
    let next_ids: Vec<u64> = next.blocks.iter().map(|b| b.id).collect();
    assert_eq!(game.active_blocks, next_ids);
    assert!(next_ids.iter().all(|id| !ids.contains(id)));
    assert_eq!(piece.joints.len(), 4);
}

#[test]
fn settle_clears_rows_of_earlier_blocks_too() {
    let mut game = Game::with_board(Board::new(4, 20));
    game.spawn_piece(TetrominoKind::I);
    let ids = game.active_blocks.clone();
    // the piece rests upright in lane 0; lanes 1..4 of row 0 hold older blocks
    let mut obs: Vec<BlockObs> = ids
        .iter()
        .enumerate()
        .map(|(k, id)| resting(*id, -9_500 + 1_000 * k as i64))
        .collect();
    obs.push(resting(900, -9_500));
    obs.push(resting(901, -9_950));
    obs.push(resting(902, -9_020));
    obs.push(falling(903, -9_000));
    let out = game.settle_with_kind(&obs, TetrominoKind::O);
    assert!(out.settled);
    assert_eq!(out.cleared_blocks, vec![ids[0], 900, 901, 902]);
    assert_eq!(game.stats.cleared_blocks, 4);
    assert!(out.spawned.is_some());
}

#[test]
fn row_with_one_block_short_is_kept() {
    let mut game = Game::with_board(Board::new(4, 20));
    let three: Vec<BlockObs> = (0..3).map(|k| resting(50 + k, -9_500)).collect();
    assert!(game.clear_filled_rows(&three).is_empty());
    assert_eq!(game.stats.cleared_blocks, 0);
    let four: Vec<BlockObs> = (0..4).map(|k| resting(50 + k, -9_500)).collect();
    assert_eq!(game.clear_filled_rows(&four), vec![50, 51, 52, 53]);
    assert_eq!(game.stats.cleared_blocks, 4);
}

#[test]
fn falling_and_off_board_blocks_do_not_fill_rows() {
    let mut game = Game::with_board(Board::new(2, 3));
    let obs = vec![
        resting(1, -1_000),
        falling(2, -1_000),
        resting(3, 1_500),
        resting(4, 1_600),
        resting(5, -500),
        resting(6, -400),
    ];
    // row 0 has one resting block, rows past the top are ignored, row 1 is full
    assert_eq!(game.clear_filled_rows(&obs), vec![5, 6]);
    assert_eq!(game.stats.cleared_blocks, 2);
}

#[test]
fn several_full_rows_clear_in_one_pass() {
    let mut game = Game::with_board(Board::new(2, 20));
    let obs = vec![
        resting(1, -9_500),
        resting(2, -8_500),
        resting(3, -9_500),
        resting(4, -8_500),
        resting(5, -7_500),
    ];
    assert_eq!(game.clear_filled_rows(&obs), vec![1, 2, 3, 4]);
    assert_eq!(game.stats.cleared_blocks, 4);
}

#[test]
fn overfull_row_is_not_cleared() {
    let mut game = Game::with_board(Board::new(2, 20));
    let obs = vec![resting(1, -9_500), resting(2, -9_500), resting(3, -9_500)];
    assert!(game.clear_filled_rows(&obs).is_empty());
}

#[test]
fn no_spawn_when_health_is_gone() {
    let mut game = Game::with_board(Board::new(4, 20));
    game.spawn_piece(TetrominoKind::O);
    game.stats.lost_blocks = 2;
    let ids = game.active_blocks.clone();
    let obs = vec![
        resting(ids[0], -8_000),
        resting(ids[1], -8_000),
        resting(ids[2], -9_000),
        resting(ids[3], -9_000),
    ];
    let out = game.settle_with_kind(&obs, TetrominoKind::I);
    assert!(out.settled);
    assert!(out.cleared_blocks.is_empty());
    assert!(out.spawned.is_none());
    assert!(game.active_blocks.is_empty());
    assert!(game.active_joints.is_empty());
}

#[test]
fn loss_limit_boundary() {
    let mut game = Game::with_board(Board::new(4, 20));
    // the view ends at -13_500; the loss limit is two blocks lower
    let obs = vec![resting(7, -15_500), falling(8, -16_500), falling(9, -15_501)];
    let lost = game.detect_lost_blocks(&obs, -13_500);
    assert_eq!(lost, vec![8, 9]);
    assert_eq!(game.stats.lost_blocks, 2);
    assert!(!game.stats.is_game_over());
}

#[test]
fn losing_a_placed_block_is_no_game_over() {
    let mut game = Game::with_board(Board::new(4, 20));
    game.spawn_piece(TetrominoKind::I);
    let lost = game.detect_lost_blocks(&vec![falling(1_000, -20_000)], -13_500);
    assert_eq!(lost, vec![1_000]);
    assert_eq!(game.stats.game_over_duration, None);
    assert_eq!(game.advance_game_over_with_kind(5_000_000, TetrominoKind::O).is_none(), true);
}

#[test]
fn losing_the_active_piece_restarts_after_grace() {
    let mut game = Game::with_board(Board::new(4, 20));
    game.spawn_piece(TetrominoKind::S);
    let ids = game.active_blocks.clone();
    game.stats.cleared_blocks = 8;
    let obs = vec![falling(ids[2], -16_000), resting(ids[0], 0)];
    assert_eq!(game.detect_lost_blocks(&obs, -13_500), vec![ids[2]]);
    assert_eq!(game.stats.game_over_duration, Some(0));
    assert_eq!(game.health().num, 0);
    assert!(game.advance_game_over_with_kind(1_000_000, TetrominoKind::I).is_none());
    assert!(game.advance_game_over_with_kind(2_000_000, TetrominoKind::I).is_none());
    assert_eq!(game.stats.game_over_duration, Some(3_000_000));
    // losing another block of the piece keeps the timer running
    game.detect_lost_blocks(&vec![falling(ids[0], -16_000)], -13_500);
    assert_eq!(game.stats.game_over_duration, Some(3_000_000));
    let piece = game.advance_game_over_with_kind(1, TetrominoKind::T).expect("grace period is over");
    assert_eq!(piece.kind, TetrominoKind::T);
    assert_eq!(
        game.stats,
        Stats { generated_blocks: 4, cleared_blocks: 0, lost_blocks: 0, game_over_duration: None }
    );
    let new_ids: Vec<u64> = piece.blocks.iter().map(|b| b.id).collect();
    assert_eq!(game.active_blocks, new_ids);
    assert!(new_ids.iter().all(|id| !ids.contains(id)));
}

#[test]
fn huge_tick_restarts_at_once() {
    let mut game = Game::new();
    game.spawn_piece(TetrominoKind::I);
    let id = game.active_blocks[0];
    game.detect_lost_blocks(&vec![falling(id, -100_000)], -13_500);
    assert!(game.advance_game_over_with_kind(u64::MAX, TetrominoKind::O).is_some());
    assert_eq!(game.stats.generated_blocks, 4);
}

#[test]
fn lost_piece_never_settles() {
    let mut game = Game::with_board(Board::new(4, 20));
    game.spawn_piece(TetrominoKind::O);
    let ids = game.active_blocks.clone();
    game.detect_lost_blocks(&vec![falling(ids[1], -20_000)], -13_500);
    let obs = vec![resting(ids[0], -9_500), resting(ids[2], -9_500), resting(ids[3], -9_500)];
    assert!(!game.settle_with_kind(&obs, TetrominoKind::I).settled);
}

#[test]
fn room_checks() {
    let mut game = Game::new();
    assert!(game.has_spawn_room());
    assert!(game.has_settle_room(100));
    game.next_id = u64::MAX - 7;
    assert!(!game.has_spawn_room());
    game.next_id = 0;
    game.stats.cleared_blocks = u64::MAX - 5;
    assert!(game.has_settle_room(5));
    assert!(!game.has_settle_room(6));
}

#[test]
fn resting_piece_is_detected() {
    let mut game = Game::with_board(Board::new(4, 20));
    game.spawn_piece(TetrominoKind::J);
    let ids = game.active_blocks.clone();
    let mut obs: Vec<BlockObs> = ids.iter().map(|id| resting(*id, -9_000)).collect();
    obs.insert(1, falling(77, 3_000));
    assert!(game.piece_at_rest(&obs));
}

#[test]
fn random_settle_spawns_the_next_piece() {
    let mut game = Game::with_board(Board::new(4, 20));
    game.spawn_piece(TetrominoKind::O);
    let ids = game.active_blocks.clone();
    let obs = vec![
        resting(ids[0], -9_000),
        resting(ids[1], -9_000),
        resting(ids[2], -9_500),
        resting(ids[3], -9_500),
    ];
    let out = game.settle(&obs);
    assert!(out.settled);
    assert!(out.cleared_blocks.is_empty());
    let next = out.spawned.expect("nothing was lost");
    assert_eq!(next.blocks.len(), 4);
    assert_eq!(game.stats.generated_blocks, 8);
    assert_eq!(game.active_blocks, next.blocks.iter().map(|b| b.id).collect::<Vec<u64>>());
}

#[test]
fn random_restart_after_grace() {
    let mut game = Game::new();
    game.spawn_piece(TetrominoKind::I);
    let id = game.active_blocks[3];
    game.detect_lost_blocks(&vec![falling(id, -30_000)], -13_500);
    assert!(game.advance_game_over(3_000_000).is_none());
    let piece = game.advance_game_over(1).expect("grace period is over");
    assert_eq!(piece.blocks.len(), 4);
    assert_eq!(game.stats.generated_blocks, 4);
    assert!(!game.stats.is_game_over());
    assert!(game.has_loss_room(10));
}

#[test]
fn blocks_within_one_band_share_a_row() {
    let mut game = Game::with_board(Board::new(2, 20));
    let floor_y = game.board.floor_y();
    let obs = vec![resting(1, floor_y + 400), resting(2, floor_y + 600)];
    assert_eq!(game.clear_filled_rows(&obs), vec![1, 2]);
    assert_eq!(game.stats.cleared_blocks, 2);
}

#[test]
fn blocks_in_neighbouring_bands_fill_no_row() {
    let mut game = Game::with_board(Board::new(2, 20));
    let floor_y = game.board.floor_y();
    let obs = vec![resting(1, floor_y + 600), resting(2, floor_y + 1_400)];
    assert!(game.clear_filled_rows(&obs).is_empty());
    assert_eq!(game.stats.cleared_blocks, 0);
}

#[test]
fn waiting_out_part_of_the_grace_keeps_the_piece() {
    let mut game = Game::with_board(Board::new(4, 20));
    game.spawn_piece(TetrominoKind::T);
    let ids = game.active_blocks.clone();
    let joints = game.active_joints.clone();
    game.detect_lost_blocks(&vec![falling(ids[0], -20_000)], -13_500);
    assert!(game.advance_game_over(1_500_000).is_none());
    assert_eq!(game.stats.game_over_duration, Some(1_500_000));
    assert_eq!(game.active_blocks, ids);
    assert_eq!(game.active_joints, joints);
    assert_eq!(game.stats.generated_blocks, 4);
    assert_eq!(game.health().num, 0);
}

#[test]
fn moving_piece_needs_no_headroom() {
    let mut game = Game::with_board(Board::new(4, 20));
    game.spawn_piece(TetrominoKind::O);
    game.next_id = u64::MAX - 1;
    let ids = game.active_blocks.clone();
    let obs: Vec<BlockObs> = ids.iter().map(|id| falling(*id, -9_500)).collect();
    assert!(!game.has_settle_room(obs.len()));
    assert!(!game.settle(&obs).settled);
    assert_eq!(game.next_id, u64::MAX - 1);
}
