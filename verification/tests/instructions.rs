use dark_dominion::circuits::{resolve_attack, AttackInput, CommitBoardOutput, RevealOutput};
use dark_dominion::computation::{AttackDelivery, Circuit, ComputationArgument};
use dark_dominion::instructions::{
    attack, commit_board, commit_board_callback, create_game, declare_victory, join_game,
    resolve_attack_callback, reveal_board, reveal_board_callback,
};
use dark_dominion::state::{DarkDominionError, GameAccount, GameState, Pubkey};

fn key(byte: u8) -> Pubkey {
    Pubkey::new_from_array([byte; 32])
}

fn cts() -> [[u8; 32]; 25] {
    let mut blocks = [[0u8; 32]; 25];
    for (i, block) in blocks.iter_mut().enumerate() {
        block[0] = i as u8 + 100;
    }
    blocks
}

fn created() -> GameAccount {
    let mut game = GameAccount::default();
    create_game(&mut game, 42, key(1), 1_700_000_000);
    game
}

fn joined() -> GameAccount {
    let mut game = created();
    join_game(&mut game, key(2)).unwrap();
    game
}

fn commit_output(valid: u8, hash: u64, player_index: u8) -> Option<CommitBoardOutput> {
    Some(CommitBoardOutput { valid, board_hash: hash, player_index })
}

fn in_progress() -> GameAccount {
    let mut game = joined();
    commit_board_callback(&mut game, commit_output(1, 11, 0)).unwrap();
    commit_board_callback(&mut game, commit_output(1, 22, 1)).unwrap();
    game
}

fn attack_output(x: u8, y: u8) -> Option<AttackDelivery> {
    Some(AttackDelivery {
        hit_ciphertext: [7u8; 32],
        remaining_ciphertext: [9u8; 32],
        attacked_x: x,
        attacked_y: y,
    })
}

fn reveal_output(integrity: u8, troops: u8, player_index: u8) -> Option<RevealOutput> {
    let mut cells = [0u8; 25];
    cells[0] = 1;
    cells[1] = 7;
    cells[2] = 3;
    Some(RevealOutput {
        revealed_cells: cells,
        integrity_valid: integrity,
        initial_troop_count: troops,
        player_index,
    })
}

#[test]
fn create_game_sets_up_waiting_game() {
    let mut game = GameAccount::default();
    game.last_attack_x = 3;
    let event = create_game(&mut game, 42, key(1), 1_700_000_000);
    assert_eq!(event.game_id, 42);
    assert_eq!(event.player_a, key(1));
    assert_eq!(game.game_id, 42);
    assert_eq!(game.player_a, key(1));
    assert_eq!(game.player_b, Pubkey::default());
    assert_eq!(game.state, GameState::WaitingForPlayerB);
    assert_eq!(game.turn, 0);
    assert_eq!(game.player_a_troops_remaining, 5);
    assert_eq!(game.player_b_troops_remaining, 5);
    assert!(!game.player_a_committed && !game.player_b_committed);
    assert_eq!(game.winner, Pubkey::default());
    assert_eq!(game.created_at, 1_700_000_000);
    assert_eq!(game.last_attack_x, 3);
}

#[test]
fn join_game_admits_second_player() {
    let mut game = created();
    let event = join_game(&mut game, key(2)).unwrap();
    assert_eq!(event.game_id, 42);
    assert_eq!(event.player_b, key(2));
    assert_eq!(game.player_b, key(2));
    assert_eq!(game.state, GameState::WaitingForCommits);
}

#[test]
fn join_game_refuses_creator() {
    let mut game = created();
    let before = game;
    assert_eq!(join_game(&mut game, key(1)), Err(DarkDominionError::CannotPlayYourself));
    assert_eq!(game, before);
}

#[test]
fn join_game_refuses_full_game() {
    let mut game = joined();
    let before = game;
    assert_eq!(join_game(&mut game, key(3)), Err(DarkDominionError::GameNotOpen));
    assert_eq!(game, before);
}

#[test]
fn commit_board_queues_commitment() {
    let game = joined();
    let queued = commit_board(&game, key(2), 77, cts(), [5u8; 32], 123, 1).unwrap();
    assert_eq!(queued.circuit, Circuit::CommitBoard);
    assert_eq!(queued.computation_offset, 77);
    assert_eq!(queued.arguments.len(), 28);
    assert_eq!(queued.arguments[0], ComputationArgument::X25519Pubkey([5u8; 32]));
    assert_eq!(queued.arguments[1], ComputationArgument::PlaintextU128(123));
    assert_eq!(queued.arguments[2], ComputationArgument::PlaintextU8(1));
    for i in 0..25 {
        assert_eq!(queued.arguments[3 + i], ComputationArgument::EncryptedU8(cts()[i]));
    }
}

#[test]
fn commit_board_refuses_outsider_and_wrong_state() {
    let game = joined();
    assert_eq!(commit_board(&game, key(9), 1, cts(), [0u8; 32], 0, 0), Err(DarkDominionError::NotAPlayer));
    let game = created();
    assert_eq!(commit_board(&game, key(1), 1, cts(), [0u8; 32], 0, 0), Err(DarkDominionError::WrongGameState));
    let game = in_progress();
    assert_eq!(commit_board(&game, key(1), 1, cts(), [0u8; 32], 0, 0), Err(DarkDominionError::WrongGameState));
}

#[test]
fn commit_callback_records_hashes_and_starts_game() {
    let mut game = joined();
    let event = commit_board_callback(&mut game, commit_output(1, 0x0102_0304_0506_0708, 0)).unwrap();
    assert_eq!(event.game_id, 42);
    assert_eq!(event.player_index, 0);
    assert_eq!(event.board_hash, 0x0102_0304_0506_0708);
    assert_eq!(game.player_a_board_hash, 0x0102_0304_0506_0708);
    assert!(game.player_a_committed);
    assert!(!game.player_b_committed);
    assert_eq!(game.state, GameState::WaitingForCommits);
    let event = commit_board_callback(&mut game, commit_output(1, u64::MAX, 7)).unwrap();
    assert_eq!(event.player_index, 7);
    assert_eq!(game.player_b_board_hash, u64::MAX);
    assert!(game.player_b_committed);
    assert_eq!(game.state, GameState::InProgress);
    assert_eq!(game.turn, 0);
}

#[test]
fn commit_callback_refuses_invalid_board_and_aborted_output() {
    let mut game = joined();
    let before = game;
    assert_eq!(commit_board_callback(&mut game, commit_output(0, 5, 0)), Err(DarkDominionError::InvalidBoard));
    assert_eq!(commit_board_callback(&mut game, commit_output(2, 5, 0)), Err(DarkDominionError::InvalidBoard));
    assert_eq!(commit_board_callback(&mut game, None), Err(DarkDominionError::AbortedComputation));
    assert_eq!(game, before);
}

#[test]
fn attack_queues_resolution_against_defender() {
    let game = in_progress();
    let queued = attack(&game, key(1), 5, 3, 4, cts(), [8u8; 32], 99).unwrap();
    assert_eq!(queued.circuit, Circuit::ResolveAttack);
    assert_eq!(queued.computation_offset, 5);
    assert_eq!(queued.arguments.len(), 30);
    assert_eq!(queued.arguments[0], ComputationArgument::X25519Pubkey([8u8; 32]));
    assert_eq!(queued.arguments[1], ComputationArgument::PlaintextU128(99));
    assert_eq!(queued.arguments[2], ComputationArgument::PlaintextU8(3));
    assert_eq!(queued.arguments[3], ComputationArgument::PlaintextU8(4));
    assert_eq!(queued.arguments[4], ComputationArgument::PlaintextU8(1));
    assert_eq!(queued.arguments[29], ComputationArgument::EncryptedU8(cts()[24]));
}

#[test]
fn attack_refusals() {
    let game = joined();
    assert_eq!(attack(&game, key(1), 0, 0, 0, cts(), [0u8; 32], 0), Err(DarkDominionError::WrongGameState));
    let game = in_progress();
    assert_eq!(attack(&game, key(2), 0, 0, 0, cts(), [0u8; 32], 0), Err(DarkDominionError::NotYourTurn));
    assert_eq!(attack(&game, key(1), 0, 5, 0, cts(), [0u8; 32], 0), Err(DarkDominionError::InvalidCoordinate));
    assert_eq!(attack(&game, key(1), 0, 0, 5, cts(), [0u8; 32], 0), Err(DarkDominionError::InvalidCoordinate));
}

#[test]
fn turns_alternate_between_players() {
    let mut game = in_progress();
    let event = resolve_attack_callback(&mut game, attack_output(3, 4)).unwrap();
    assert_eq!(event.attacker, key(1));
    assert_eq!(event.turn, 0);
    assert_eq!(event.attacked_x, 3);
    assert_eq!(event.attacked_y, 4);
    assert_eq!(event.hit_ciphertext, [7u8; 32]);
    assert_eq!(event.remaining_ciphertext, [9u8; 32]);
    assert_eq!(game.turn, 1);
    assert_eq!(game.last_attack_x, 3);
    assert_eq!(game.last_attack_y, 4);
    assert_eq!(game.last_hit_ciphertext, [7u8; 32]);
    assert_eq!(game.last_remaining_ciphertext, [9u8; 32]);
    assert_eq!(attack(&game, key(1), 0, 0, 0, cts(), [0u8; 32], 0), Err(DarkDominionError::NotYourTurn));
    let queued = attack(&game, key(2), 0, 0, 0, cts(), [0u8; 32], 0).unwrap();
    assert_eq!(queued.arguments[4], ComputationArgument::PlaintextU8(0));
    let event = resolve_attack_callback(&mut game, attack_output(0, 0)).unwrap();
    assert_eq!(event.attacker, key(2));
    assert_eq!(event.turn, 1);
    assert_eq!(game.turn, 2);
}

#[test]
fn aborted_attack_changes_nothing() {
    let mut game = in_progress();
    let before = game;
    assert_eq!(resolve_attack_callback(&mut game, None), Err(DarkDominionError::AbortedComputation));
    assert_eq!(game, before);
}

#[test]
fn declare_victory_ends_game() {
    let mut game = in_progress();
    resolve_attack_callback(&mut game, attack_output(0, 0)).unwrap();
    let event = declare_victory(&mut game, key(2)).unwrap();
    assert_eq!(event.game_id, 42);
    assert_eq!(event.winner, key(2));
    assert_eq!(event.total_turns, 1);
    assert_eq!(game.state, GameState::Finished);
    assert_eq!(game.winner, key(2));
}

#[test]
fn declare_victory_refusals() {
    let mut game = joined();
    assert_eq!(declare_victory(&mut game, key(1)), Err(DarkDominionError::WrongGameState));
    let mut game = in_progress();
    let before = game;
    assert_eq!(declare_victory(&mut game, key(3)), Err(DarkDominionError::NotAPlayer));
    assert_eq!(game, before);
}

#[test]
fn reveal_board_queues_after_game_ends() {
    let mut game = in_progress();
    assert_eq!(
        reveal_board(&game, 1, cts(), 11, 0, [0u8; 32], 0),
        Err(DarkDominionError::WrongGameState)
    );
    declare_victory(&mut game, key(1)).unwrap();
    assert_eq!(
        reveal_board(&game, 6, cts(), 22, 0, [4u8; 32], 17),
        Err(DarkDominionError::CommitmentMismatch)
    );
    assert_eq!(
        reveal_board(&game, 6, cts(), 11, 1, [4u8; 32], 17),
        Err(DarkDominionError::CommitmentMismatch)
    );
    assert!(reveal_board(&game, 6, cts(), 22, 1, [4u8; 32], 17).is_ok());
    let queued = reveal_board(&game, 6, cts(), 11, 0, [4u8; 32], 17).unwrap();
    assert_eq!(queued.circuit, Circuit::RevealBoard);
    assert_eq!(queued.computation_offset, 6);
    assert_eq!(queued.arguments.len(), 29);
    assert_eq!(queued.arguments[0], ComputationArgument::X25519Pubkey([4u8; 32]));
    assert_eq!(queued.arguments[1], ComputationArgument::PlaintextU128(17));
    assert_eq!(queued.arguments[2], ComputationArgument::PlaintextU64(11));
    assert_eq!(queued.arguments[3], ComputationArgument::PlaintextU8(0));
    assert_eq!(queued.arguments[4], ComputationArgument::EncryptedU8(cts()[0]));
}

#[test]
fn reveal_callback_records_integrity() {
    let mut game = in_progress();
    declare_victory(&mut game, key(1)).unwrap();
    let event = reveal_board_callback(&mut game, reveal_output(1, 5, 0)).unwrap();
    assert_eq!(event.game_id, 42);
    assert_eq!(event.player_index, 0);
    assert_eq!(event.integrity_valid, 1);
    assert_eq!(event.initial_troop_count, 5);
    assert!(game.player_a_integrity_valid);
    assert!(!game.player_b_integrity_valid);
    reveal_board_callback(&mut game, reveal_output(0, 4, 1)).unwrap();
    assert!(!game.player_b_integrity_valid);
    reveal_board_callback(&mut game, reveal_output(1, 5, 1)).unwrap();
    assert!(game.player_b_integrity_valid);
    assert_eq!(reveal_board_callback(&mut game, None), Err(DarkDominionError::AbortedComputation));
}

#[test]
fn late_commitment_reopens_finished_game() {
    let mut game = in_progress();
    declare_victory(&mut game, key(1)).unwrap();
    commit_board_callback(&mut game, commit_output(1, 3, 0)).unwrap();
    assert_eq!(game.state, GameState::InProgress);
    assert_eq!(game.turn, 0);
}

#[test]
fn full_game_keeps_commitments_before_play() {
    let mut game = joined();
    assert!(!(game.state == GameState::InProgress));
    commit_board_callback(&mut game, commit_output(1, 1, 1)).unwrap();
    assert_eq!(game.state, GameState::WaitingForCommits);
    commit_board_callback(&mut game, commit_output(1, 2, 0)).unwrap();
    assert_eq!(game.state, GameState::InProgress);
    assert!(game.player_a_committed && game.player_b_committed);
    assert_ne!(game.player_a, game.player_b);
    for turn in 0..4u32 {
        let attacker = if turn % 2 == 0 { key(1) } else { key(2) };
        attack(&game, attacker, 0, 1, 1, cts(), [0u8; 32], 0).unwrap();
        let event = resolve_attack_callback(&mut game, attack_output(1, 1)).unwrap();
        assert_eq!(event.attacker, attacker);
    }
    declare_victory(&mut game, key(2)).unwrap();
    assert!(game.winner == game.player_a || game.winner == game.player_b);
}

#[test]
fn accepted_attack_resolves_on_single_troop_board() {
    let game = in_progress();
    for (x, y) in [(0u8, 0u8), (4, 4), (2, 3)] {
        assert!(attack(&game, key(1), 0, x, y, cts(), [0u8; 32], 0).is_ok());
        let (result, defender) = resolve_attack(AttackInput {
            attack_x: x,
            attack_y: y,
            defender_index: 1,
            defender_board: [1u8; 25],
        });
        assert_eq!(result.hit, 1);
        assert_eq!(defender.defender_remaining, 24);
    }
}

#[test]
fn honest_reveal_through_the_program() {
    let mut cells = [0u8; 25];
    for i in [0usize, 6, 12, 18, 24] {
        cells[i] = 1;
    }
    let mut game = joined();
    let committed = dark_dominion::circuits::commit_board(dark_dominion::circuits::BoardInput { cells, player_index: 1 });
    commit_board_callback(&mut game, Some(committed)).unwrap();
    commit_board_callback(&mut game, commit_output(1, 5, 0)).unwrap();
    resolve_attack_callback(&mut game, attack_output(0, 0)).unwrap();
    declare_victory(&mut game, key(2)).unwrap();
    assert_eq!(game.player_b_board_hash, committed.board_hash);
    assert!(reveal_board(&game, 1, cts(), committed.board_hash, 1, [0u8; 32], 0).is_ok());
    let revealed = dark_dominion::circuits::reveal_board(dark_dominion::circuits::RevealInput {
        original_board: cells,
        committed_hash: committed.board_hash,
        player_index: 1,
    });
    assert_eq!(revealed.integrity_valid, 1);
    reveal_board_callback(&mut game, Some(revealed)).unwrap();
    assert!(game.player_b_integrity_valid);
}
