//! The instructions of the game program as transitions of the game account.
//!
//! An instruction that is refused returns its error and leaves the account
//! as it was. Instructions that start a confidential computation return the
//! computation to queue; the matching callbacks take the verified output of
//! that computation (`None` when the output could not be verified): the
//! commitment and reveal outcomes in plaintext, the attack outcome as the
//! attacked cell with the ciphertexts of the hit flag and troop count.
use vstd::prelude::*;
use crate::board::{GRID_SIDE, TROOPS_PER_PLAYER};
use crate::circuits::{CommitBoardOutput, RevealOutput};
use crate::computation::{
    encrypted_arguments, push_encrypted_cells, AttackDelivery, Circuit, ComputationArgument,
    QueuedComputation,
};
use crate::state::{
    default_key, AttackResolvedEvent, BoardCommittedEvent, BoardRevealedEvent, DarkDominionError,
    GameAccount, GameCreatedEvent, GameEndedEvent, GameState, PlayerJoinedEvent, Pubkey,
};

verus! {

// ---------------------------------------------------------------------------
// Specifications of the transitions

/// The account of a newly created game.
pub open spec fn created_game(game: GameAccount, game_id: u32, creator: Pubkey, created_at: i64) -> GameAccount {
    GameAccount {
        game_id,
        player_a: creator,
        player_b: default_key(),
        state: GameState::WaitingForPlayerB,
        turn: 0,
        player_a_troops_remaining: TROOPS_PER_PLAYER,
        player_b_troops_remaining: TROOPS_PER_PLAYER,
        player_a_board_hash: 0,
        player_b_board_hash: 0,
        player_a_committed: false,
        player_b_committed: false,
        winner: default_key(),
        created_at,
        ..game
    }
}

/// Why a player may not join, if anything.
pub open spec fn join_game_error(game: GameAccount, player_b: Pubkey) -> Option<DarkDominionError> {
    if game.state != GameState::WaitingForPlayerB {
        Some(DarkDominionError::GameNotOpen)
    } else if game.player_a == player_b {
        Some(DarkDominionError::CannotPlayYourself)
    } else {
        None
    }
}

/// The account once the second player has joined.
pub open spec fn joined_game(game: GameAccount, player_b: Pubkey) -> GameAccount {
    GameAccount { player_b, state: GameState::WaitingForCommits, ..game }
}

/// Whether an address is one of the two players.
pub open spec fn is_player(game: GameAccount, key: Pubkey) -> bool {
    key == game.player_a || key == game.player_b
}

/// Why a board commitment may not be started, if anything.
pub open spec fn commit_board_error(game: GameAccount, player: Pubkey) -> Option<DarkDominionError> {
    if !is_player(game, player) {
        Some(DarkDominionError::NotAPlayer)
    } else if game.state != GameState::WaitingForCommits {
        Some(DarkDominionError::WrongGameState)
    } else {
        None
    }
}

/// The arguments of the commitment circuit.
pub open spec fn commit_board_arguments(
    pub_key: [u8; 32],
    nonce: u128,
    player_index: u8,
    cell_ciphertexts: Seq<[u8; 32]>,
) -> Seq<ComputationArgument> {
    seq![
        ComputationArgument::X25519Pubkey(pub_key),
        ComputationArgument::PlaintextU128(nonce),
        ComputationArgument::PlaintextU8(player_index),
    ] + encrypted_arguments(cell_ciphertexts)
}

/// The account once a commitment of `board_hash` by the player with
/// `player_index` has been recorded: index zero is player A, any other
/// index player B; once both have committed the game starts at turn zero.
pub open spec fn committed_game(game: GameAccount, player_index: u8, board_hash: u64) -> GameAccount {
    let recorded = if player_index == 0 {
        GameAccount { player_a_board_hash: board_hash, player_a_committed: true, ..game }
    } else {
        GameAccount { player_b_board_hash: board_hash, player_b_committed: true, ..game }
    };
    if recorded.player_a_committed && recorded.player_b_committed {
        GameAccount { state: GameState::InProgress, turn: 0, ..recorded }
    } else {
        recorded
    }
}

/// The player whose turn it is: player A on even turns, player B on odd ones.
pub open spec fn current_attacker(game: GameAccount) -> Pubkey {
    if game.turn % 2 == 0 {
        game.player_a
    } else {
        game.player_b
    }
}

/// The index of the player under attack: the one whose turn it is not.
pub open spec fn defender_index(game: GameAccount) -> u8 {
    if game.turn % 2 == 0 {
        1
    } else {
        0
    }
}

/// Why an attack may not be started, if anything.
pub open spec fn attack_error(game: GameAccount, attacker: Pubkey, attack_x: u8, attack_y: u8) -> Option<
    DarkDominionError,
> {
    if game.state != GameState::InProgress {
        Some(DarkDominionError::WrongGameState)
    } else if attacker != current_attacker(game) {
        Some(DarkDominionError::NotYourTurn)
    } else if !(attack_x < 5 && attack_y < 5) {
        Some(DarkDominionError::InvalidCoordinate)
    } else {
        None
    }
}

/// The arguments of the attack circuit.
pub open spec fn attack_arguments(
    game: GameAccount,
    attack_x: u8,
    attack_y: u8,
    board_ciphertexts: Seq<[u8; 32]>,
    pub_key: [u8; 32],
    nonce: u128,
) -> Seq<ComputationArgument> {
    seq![
        ComputationArgument::X25519Pubkey(pub_key),
        ComputationArgument::PlaintextU128(nonce),
        ComputationArgument::PlaintextU8(attack_x),
        ComputationArgument::PlaintextU8(attack_y),
        ComputationArgument::PlaintextU8(defender_index(game)),
    ] + encrypted_arguments(board_ciphertexts)
}

/// The account once an attack has been resolved: the turn advances and the
/// attacked cell and the encrypted hit flag and troop count are recorded.
pub open spec fn attack_resolved_game(game: GameAccount, delivery: AttackDelivery) -> GameAccount {
    GameAccount {
        turn: (game.turn + 1) as u32,
        last_attack_x: delivery.attacked_x,
        last_attack_y: delivery.attacked_y,
        last_hit_ciphertext: delivery.hit_ciphertext,
        last_remaining_ciphertext: delivery.remaining_ciphertext,
        ..game
    }
}

/// Why a claim of victory is refused, if it is.
pub open spec fn declare_victory_error(game: GameAccount, claimant: Pubkey) -> Option<DarkDominionError> {
    if game.state != GameState::InProgress {
        Some(DarkDominionError::WrongGameState)
    } else if !is_player(game, claimant) {
        Some(DarkDominionError::NotAPlayer)
    } else {
        None
    }
}

/// The account once `claimant` has won.
pub open spec fn finished_game(game: GameAccount, claimant: Pubkey) -> GameAccount {
    GameAccount { state: GameState::Finished, winner: claimant, ..game }
}

/// The board hash recorded as the commitment of the player with
/// `player_index` (zero for player A, any other for player B).
pub open spec fn stored_commitment(game: GameAccount, player_index: u8) -> u64 {
    if player_index == 0 {
        game.player_a_board_hash
    } else {
        game.player_b_board_hash
    }
}

/// Why a reveal may not be started, if anything: the game must be finished,
/// and the hash to check against must be the one the player committed.
pub open spec fn reveal_board_error(game: GameAccount, committed_hash: u64, player_index: u8) -> Option<
    DarkDominionError,
> {
    if game.state != GameState::Finished {
        Some(DarkDominionError::WrongGameState)
    } else if committed_hash != stored_commitment(game, player_index) {
        Some(DarkDominionError::CommitmentMismatch)
    } else {
        None
    }
}

/// The arguments of the reveal circuit.
pub open spec fn reveal_board_arguments(
    board_ciphertexts: Seq<[u8; 32]>,
    committed_hash: u64,
    player_index: u8,
    pub_key: [u8; 32],
    nonce: u128,
) -> Seq<ComputationArgument> {
    seq![
        ComputationArgument::X25519Pubkey(pub_key),
        ComputationArgument::PlaintextU128(nonce),
        ComputationArgument::PlaintextU64(committed_hash),
        ComputationArgument::PlaintextU8(player_index),
    ] + encrypted_arguments(board_ciphertexts)
}

/// The account once a reveal's integrity flag has been recorded for the
/// player with `player_index` (zero for player A, any other for player B).
pub open spec fn revealed_game(game: GameAccount, player_index: u8, integrity: u8) -> GameAccount {
    if player_index == 0 {
        GameAccount { player_a_integrity_valid: integrity == 1, ..game }
    } else {
        GameAccount { player_b_integrity_valid: integrity == 1, ..game }
    }
}

// ---------------------------------------------------------------------------
// Instructions

/// Sets up a new game created by `creator` at time `created_at`; the
/// creator is player A and the game waits for a second player.
pub fn create_game(game: &mut GameAccount, game_id: u32, creator: Pubkey, created_at: i64) -> (event:
    GameCreatedEvent)
    ensures
        *final(game) == created_game(*old(game), game_id, creator, created_at),
        event == (GameCreatedEvent { game_id, player_a: creator }),
{
    game.game_id = game_id;
    game.player_a = creator;
    game.player_b = Pubkey { bytes: [0u8; 32] };
    game.state = GameState::WaitingForPlayerB;
    game.turn = 0;
    game.player_a_troops_remaining = TROOPS_PER_PLAYER;
    game.player_b_troops_remaining = TROOPS_PER_PLAYER;
    game.player_a_board_hash = 0;
    game.player_b_board_hash = 0;
    game.player_a_committed = false;
    game.player_b_committed = false;
    game.winner = Pubkey { bytes: [0u8; 32] };
    game.created_at = created_at;
    GameCreatedEvent { game_id, player_a: creator }
}

/// Lets `player_b` join a game that is waiting for a second player.
pub fn join_game(game: &mut GameAccount, player_b: Pubkey) -> (result: Result<
    PlayerJoinedEvent,
    DarkDominionError,
>)
    ensures
        (match join_game_error(*old(game), player_b) {
            Some(error) => result == Err::<PlayerJoinedEvent, DarkDominionError>(error) && *final(game)
                == *old(game),
            None => result == Ok::<PlayerJoinedEvent, DarkDominionError>(
                PlayerJoinedEvent { game_id: old(game).game_id, player_b },
            ) && *final(game) == joined_game(*old(game), player_b),
        }),
        old(game).state != GameState::WaitingForPlayerB ==> result == Err::<
            PlayerJoinedEvent,
            DarkDominionError,
        >(DarkDominionError::GameNotOpen),
        result is Ok ==> old(game).state == GameState::WaitingForPlayerB && old(game).player_a
            != player_b && final(game).player_b == player_b && final(game).state
            == GameState::WaitingForCommits && final(game).player_a == old(game).player_a,
{
    if game.state != GameState::WaitingForPlayerB {
        return Err(DarkDominionError::GameNotOpen);
    }
    if game.player_a.same_key(&player_b) {
        return Err(DarkDominionError::CannotPlayYourself);
    }
    game.player_b = player_b;
    game.state = GameState::WaitingForCommits;
    Ok(PlayerJoinedEvent { game_id: game.game_id, player_b })
}

/// Starts the commitment of `player`'s encrypted board: the player must be
/// one of the two, and the game must be waiting for commitments.
pub fn commit_board(
    game: &GameAccount,
    player: Pubkey,
    computation_offset: u64,
    cell_ciphertexts: [[u8; 32]; 25],
    pub_key: [u8; 32],
    nonce: u128,
    player_index: u8,
) -> (result: Result<QueuedComputation, DarkDominionError>)
    ensures
        (match commit_board_error(*game, player) {
            Some(error) => result == Err::<QueuedComputation, DarkDominionError>(error),
            None => result matches Ok(queued) && queued.circuit == Circuit::CommitBoard
                && queued.computation_offset == computation_offset && queued.arguments@
                == commit_board_arguments(pub_key, nonce, player_index, cell_ciphertexts@),
        }),
        player != game.player_a && player != game.player_b ==> result == Err::<
            QueuedComputation,
            DarkDominionError,
        >(DarkDominionError::NotAPlayer),
        (player == game.player_a || player == game.player_b) && game.state
            != GameState::WaitingForCommits ==> result == Err::<QueuedComputation, DarkDominionError>(
            DarkDominionError::WrongGameState,
        ),
        result is Ok ==> game.state == GameState::WaitingForCommits && (player == game.player_a
            || player == game.player_b),
{
    if !(player.same_key(&game.player_a) || player.same_key(&game.player_b)) {
        return Err(DarkDominionError::NotAPlayer);
    }
    if game.state != GameState::WaitingForCommits {
        return Err(DarkDominionError::WrongGameState);
    }
    let mut arguments: Vec<ComputationArgument> = Vec::new();
    arguments.push(ComputationArgument::X25519Pubkey(pub_key));
    arguments.push(ComputationArgument::PlaintextU128(nonce));
    arguments.push(ComputationArgument::PlaintextU8(player_index));
    push_encrypted_cells(&mut arguments, &cell_ciphertexts);
    assert(arguments@ =~= commit_board_arguments(pub_key, nonce, player_index, cell_ciphertexts@));
    Ok(QueuedComputation { circuit: Circuit::CommitBoard, computation_offset, arguments })
}

/// Records the outcome of a board commitment, which the commitment circuit
/// reveals in plaintext: a board that is not valid is refused; otherwise its
/// hash becomes the commitment of the player with the reported index.
pub fn commit_board_callback(game: &mut GameAccount, output: Option<CommitBoardOutput>) -> (result: Result<
    BoardCommittedEvent,
    DarkDominionError,
>)
    ensures
        (match output {
            None => result == Err::<BoardCommittedEvent, DarkDominionError>(
                DarkDominionError::AbortedComputation,
            ) && *final(game) == *old(game),
            Some(committed) => if committed.valid != 1 {
                result == Err::<BoardCommittedEvent, DarkDominionError>(DarkDominionError::InvalidBoard)
                    && *final(game) == *old(game)
            } else {
                &&& result == Ok::<BoardCommittedEvent, DarkDominionError>(
                    BoardCommittedEvent {
                        game_id: old(game).game_id,
                        player_index: committed.player_index,
                        board_hash: committed.board_hash,
                    },
                )
                &&& *final(game) == committed_game(
                    *old(game),
                    committed.player_index,
                    committed.board_hash,
                )
            },
        }),
        (match output {
            Some(c) => if c.valid != 1 {
                result == Err::<BoardCommittedEvent, DarkDominionError>(DarkDominionError::InvalidBoard)
                    && *final(game) == *old(game)
            } else {
                &&& result is Ok
                &&& c.player_index == 0 ==> final(game).player_a_board_hash == c.board_hash
                    && final(game).player_a_committed && final(game).player_b_board_hash
                    == old(game).player_b_board_hash && final(game).player_b_committed
                    == old(game).player_b_committed
                &&& c.player_index != 0 ==> final(game).player_b_board_hash == c.board_hash
                    && final(game).player_b_committed && final(game).player_a_board_hash
                    == old(game).player_a_board_hash && final(game).player_a_committed
                    == old(game).player_a_committed
                &&& final(game).player_a_committed && final(game).player_b_committed
                    ==> final(game).state == GameState::InProgress && final(game).turn == 0
                &&& !(final(game).player_a_committed && final(game).player_b_committed)
                    ==> final(game).state == old(game).state && final(game).turn == old(game).turn
            },
            None => true,
        }),
{
    let committed = match output {
        Some(committed) => committed,
        None => return Err(DarkDominionError::AbortedComputation),
    };
    if committed.valid != 1 {
        return Err(DarkDominionError::InvalidBoard);
    }
    let hash_val = committed.board_hash;
    let player_index = committed.player_index;
    if player_index == 0 {
        game.player_a_board_hash = hash_val;
        game.player_a_committed = true;
    } else {
        game.player_b_board_hash = hash_val;
        game.player_b_committed = true;
    }
    if game.player_a_committed && game.player_b_committed {
        game.state = GameState::InProgress;
        game.turn = 0;
    }
    Ok(BoardCommittedEvent { game_id: game.game_id, player_index, board_hash: hash_val })
}

/// Starts an attack by `attacker` on cell `(attack_x, attack_y)` of the
/// other player's board: the game must be in progress, it must be the
/// attacker's turn, and the cell must be on the grid.
pub fn attack(
    game: &GameAccount,
    attacker: Pubkey,
    computation_offset: u64,
    attack_x: u8,
    attack_y: u8,
    defender_board_ciphertexts: [[u8; 32]; 25],
    pub_key: [u8; 32],
    nonce: u128,
) -> (result: Result<QueuedComputation, DarkDominionError>)
    ensures
        (match attack_error(*game, attacker, attack_x, attack_y) {
            Some(error) => result == Err::<QueuedComputation, DarkDominionError>(error),
            None => result matches Ok(queued) && queued.circuit == Circuit::ResolveAttack
                && queued.computation_offset == computation_offset && queued.arguments@
                == attack_arguments(
                *game,
                attack_x,
                attack_y,
                defender_board_ciphertexts@,
                pub_key,
                nonce,
            ),
        }),
        game.state != GameState::InProgress ==> result == Err::<QueuedComputation, DarkDominionError>(
            DarkDominionError::WrongGameState,
        ),
        result is Ok ==> {
            &&& game.state == GameState::InProgress
            &&& attack_x < 5 && attack_y < 5
            &&& game.turn % 2 == 0 ==> attacker == game.player_a
            &&& game.turn % 2 != 0 ==> attacker == game.player_b
        },
        result matches Ok(queued) ==> queued.arguments@[4] == ComputationArgument::PlaintextU8(
            if game.turn % 2 == 0 {
                1u8
            } else {
                0u8
            },
        ),
{
    if game.state != GameState::InProgress {
        return Err(DarkDominionError::WrongGameState);
    }
    let is_player_a_turn = game.turn % 2 == 0;
    if is_player_a_turn {
        if !attacker.same_key(&game.player_a) {
            return Err(DarkDominionError::NotYourTurn);
        }
    } else {
        if !attacker.same_key(&game.player_b) {
            return Err(DarkDominionError::NotYourTurn);
        }
    }
    if !(attack_x < GRID_SIDE && attack_y < GRID_SIDE) {
        return Err(DarkDominionError::InvalidCoordinate);
    }
    let defender_index: u8 = if is_player_a_turn { 1 } else { 0 };
    let mut arguments: Vec<ComputationArgument> = Vec::new();
    arguments.push(ComputationArgument::X25519Pubkey(pub_key));
    arguments.push(ComputationArgument::PlaintextU128(nonce));
    arguments.push(ComputationArgument::PlaintextU8(attack_x));
    arguments.push(ComputationArgument::PlaintextU8(attack_y));
    arguments.push(ComputationArgument::PlaintextU8(defender_index));
    push_encrypted_cells(&mut arguments, &defender_board_ciphertexts);
    assert(arguments@ =~= attack_arguments(
        *game,
        attack_x,
        attack_y,
        defender_board_ciphertexts@,
        pub_key,
        nonce,
    ));
    Ok(QueuedComputation { circuit: Circuit::ResolveAttack, computation_offset, arguments })
}

/// Records the outcome of an attack and passes the turn: the attacked cell
/// and the two ciphertexts that the attack circuit delivers (the hit flag
/// for the attacker, the remaining troop count for the defender's side).
pub fn resolve_attack_callback(game: &mut GameAccount, output: Option<AttackDelivery>) -> (result:
    Result<AttackResolvedEvent, DarkDominionError>)
    requires
        output is Some ==> old(game).turn < u32::MAX,
    ensures
        (match output {
            None => result == Err::<AttackResolvedEvent, DarkDominionError>(
                DarkDominionError::AbortedComputation,
            ) && *final(game) == *old(game),
            Some(delivery) => {
                &&& result == Ok::<AttackResolvedEvent, DarkDominionError>(
                    AttackResolvedEvent {
                        game_id: old(game).game_id,
                        attacker: current_attacker(*old(game)),
                        attacked_x: delivery.attacked_x,
                        attacked_y: delivery.attacked_y,
                        hit_ciphertext: delivery.hit_ciphertext,
                        remaining_ciphertext: delivery.remaining_ciphertext,
                        turn: old(game).turn,
                    },
                )
                &&& *final(game) == attack_resolved_game(*old(game), delivery)
            },
        }),
        output is Some ==> {
            &&& final(game).turn == old(game).turn + 1
            &&& result matches Ok(event) && event.attacker == (if old(game).turn % 2 == 0 {
                old(game).player_a
            } else {
                old(game).player_b
            })
        },
{
    let delivery = match output {
        Some(delivery) => delivery,
        None => return Err(DarkDominionError::AbortedComputation),
    };
    let attacking_a = game.turn % 2 == 0;
    game.turn = game.turn + 1;
    game.last_attack_x = delivery.attacked_x;
    game.last_attack_y = delivery.attacked_y;
    game.last_hit_ciphertext = delivery.hit_ciphertext;
    game.last_remaining_ciphertext = delivery.remaining_ciphertext;
    let attacker = if attacking_a { game.player_a } else { game.player_b };
    Ok(AttackResolvedEvent {
        game_id: game.game_id,
        attacker,
        attacked_x: delivery.attacked_x,
        attacked_y: delivery.attacked_y,
        hit_ciphertext: delivery.hit_ciphertext,
        remaining_ciphertext: delivery.remaining_ciphertext,
        turn: game.turn - 1,
    })
}

/// Ends a game in progress with `claimant`, one of the two players, as
/// the winner.
pub fn declare_victory(game: &mut GameAccount, claimant: Pubkey) -> (result: Result<
    GameEndedEvent,
    DarkDominionError,
>)
    ensures
        (match declare_victory_error(*old(game), claimant) {
            Some(error) => result == Err::<GameEndedEvent, DarkDominionError>(error) && *final(game)
                == *old(game),
            None => result == Ok::<GameEndedEvent, DarkDominionError>(
                GameEndedEvent {
                    game_id: old(game).game_id,
                    winner: claimant,
                    total_turns: old(game).turn,
                },
            ) && *final(game) == finished_game(*old(game), claimant),
        }),
        old(game).state != GameState::InProgress ==> result == Err::<GameEndedEvent, DarkDominionError>(
            DarkDominionError::WrongGameState,
        ),
        result is Ok ==> old(game).state == GameState::InProgress && (claimant == old(game).player_a
            || claimant == old(game).player_b) && final(game).state == GameState::Finished && final(game).winner == claimant,
{
    if game.state != GameState::InProgress {
        return Err(DarkDominionError::WrongGameState);
    }
    if !(claimant.same_key(&game.player_a) || claimant.same_key(&game.player_b)) {
        return Err(DarkDominionError::NotAPlayer);
    }
    game.state = GameState::Finished;
    game.winner = claimant;
    Ok(GameEndedEvent { game_id: game.game_id, winner: claimant, total_turns: game.turn })
}

/// Starts the reveal of a board once the game is finished. The hash to check
/// the board against must be the commitment recorded for the player with
/// `player_index`.
pub fn reveal_board(
    game: &GameAccount,
    computation_offset: u64,
    original_board_ciphertexts: [[u8; 32]; 25],
    committed_hash: u64,
    player_index: u8,
    pub_key: [u8; 32],
    nonce: u128,
) -> (result: Result<QueuedComputation, DarkDominionError>)
    ensures
        (match reveal_board_error(*game, committed_hash, player_index) {
            Some(error) => result == Err::<QueuedComputation, DarkDominionError>(error),
            None => result matches Ok(queued) && queued.circuit == Circuit::RevealBoard
                && queued.computation_offset == computation_offset && queued.arguments@
                == reveal_board_arguments(
                original_board_ciphertexts@,
                committed_hash,
                player_index,
                pub_key,
                nonce,
            ),
        }),
        game.state != GameState::Finished ==> result == Err::<QueuedComputation, DarkDominionError>(
            DarkDominionError::WrongGameState,
        ),
        result is Ok ==> game.state == GameState::Finished && committed_hash == (if player_index
            == 0 {
            game.player_a_board_hash
        } else {
            game.player_b_board_hash
        }),
{
    if game.state != GameState::Finished {
        return Err(DarkDominionError::WrongGameState);
    }
    let stored = if player_index == 0 { game.player_a_board_hash } else { game.player_b_board_hash };
    if committed_hash != stored {
        return Err(DarkDominionError::CommitmentMismatch);
    }
    let mut arguments: Vec<ComputationArgument> = Vec::new();
    arguments.push(ComputationArgument::X25519Pubkey(pub_key));
    arguments.push(ComputationArgument::PlaintextU128(nonce));
    arguments.push(ComputationArgument::PlaintextU64(committed_hash));
    arguments.push(ComputationArgument::PlaintextU8(player_index));
    push_encrypted_cells(&mut arguments, &original_board_ciphertexts);
    assert(arguments@ =~= reveal_board_arguments(
        original_board_ciphertexts@,
        committed_hash,
        player_index,
        pub_key,
        nonce,
    ));
    Ok(QueuedComputation { circuit: Circuit::RevealBoard, computation_offset, arguments })
}

/// Records the outcome of a reveal, which the reveal circuit delivers in
/// plaintext: the integrity verdict of the player with the reported index.
pub fn reveal_board_callback(game: &mut GameAccount, output: Option<RevealOutput>) -> (result: Result<
    BoardRevealedEvent,
    DarkDominionError,
>)
    ensures
        (match output {
            None => result == Err::<BoardRevealedEvent, DarkDominionError>(
                DarkDominionError::AbortedComputation,
            ) && *final(game) == *old(game),
            Some(revealed) => {
                &&& result == Ok::<BoardRevealedEvent, DarkDominionError>(
                    BoardRevealedEvent {
                        game_id: old(game).game_id,
                        player_index: revealed.player_index,
                        integrity_valid: revealed.integrity_valid,
                        initial_troop_count: revealed.initial_troop_count,
                    },
                )
                &&& *final(game) == revealed_game(
                    *old(game),
                    revealed.player_index,
                    revealed.integrity_valid,
                )
            },
        }),
        (match output {
            Some(r) => {
                &&& r.player_index == 0 ==> final(game).player_a_integrity_valid == (r.integrity_valid
                    == 1) && final(game).player_b_integrity_valid == old(game).player_b_integrity_valid
                &&& r.player_index != 0 ==> final(game).player_b_integrity_valid == (r.integrity_valid
                    == 1) && final(game).player_a_integrity_valid == old(game).player_a_integrity_valid
            },
            None => true,
        }),
{
    let revealed = match output {
        Some(revealed) => revealed,
        None => return Err(DarkDominionError::AbortedComputation),
    };
    let integrity = revealed.integrity_valid;
    let player_index = revealed.player_index;
    if player_index == 0 {
        game.player_a_integrity_valid = integrity == 1;
    } else {
        game.player_b_integrity_valid = integrity == 1;
    }
    Ok(BoardRevealedEvent {
        game_id: game.game_id,
        player_index,
        integrity_valid: integrity,
        initial_troop_count: revealed.initial_troop_count,
    })
}

} // verus!
