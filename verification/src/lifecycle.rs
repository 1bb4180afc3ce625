//! Properties of the game's lifecycle that hold across instructions.
//!
//! Each instruction either is refused and leaves the account unchanged, or
//! moves it to the account that its transition function describes
//! (`created_game`, `joined_game`, `committed_game`, `attack_resolved_game`,
//! `finished_game`, `revealed_game`). The laws below speak of those
//! transition functions.
use vstd::prelude::*;
use crate::instructions::{
    attack_arguments, attack_error, attack_resolved_game, commit_board_arguments, committed_game,
    reveal_board_arguments, created_game, current_attacker, declare_victory_error,
    commit_board_error, defender_index, finished_game, is_player, join_game_error, joined_game,
    reveal_board_error, revealed_game, stored_commitment,
};
use crate::state::DarkDominionError;
use crate::board::board_hash_of;
use crate::circuits::{
    attack_in_range, law_single_troop_boards_stay_single, reveal_integrity, target_index, AttackInput,
};
use crate::computation::{AttackDelivery, ComputationArgument};
use crate::state::{state_rank, GameAccount, GameState, Pubkey};

verus! {

/// A game is played only once both boards are committed.
pub open spec fn commitments_precede_play(game: GameAccount) -> bool {
    (game.state == GameState::InProgress || game.state == GameState::Finished)
        ==> game.player_a_committed && game.player_b_committed
}

/// Once a second player has joined, the two players are different.
pub open spec fn players_distinct(game: GameAccount) -> bool {
    game.state != GameState::WaitingForPlayerB ==> game.player_a != game.player_b
}

/// Law: no game is in progress or finished unless both players have
/// committed their boards. Creating a game establishes this, and every
/// other instruction keeps it.
pub proof fn law_commitments_precede_play(
    game: GameAccount,
    game_id: u32,
    creator: Pubkey,
    created_at: i64,
    player_b: Pubkey,
    player_index: u8,
    board_hash: u64,
    attack_output: AttackDelivery,
    claimant: Pubkey,
    integrity: u8,
)
    ensures
        commitments_precede_play(created_game(game, game_id, creator, created_at)),
        commitments_precede_play(game) ==> commitments_precede_play(joined_game(game, player_b)),
        commitments_precede_play(game) ==> commitments_precede_play(
            committed_game(game, player_index, board_hash),
        ),
        commitments_precede_play(game) ==> commitments_precede_play(
            attack_resolved_game(game, attack_output),
        ),
        commitments_precede_play(game) && declare_victory_error(game, claimant) is None
            ==> commitments_precede_play(finished_game(game, claimant)),
        commitments_precede_play(game) ==> commitments_precede_play(
            revealed_game(game, player_index, integrity),
        ),
{
}

/// Law: the two players of a game that has left the waiting room are
/// different addresses. Joining establishes it, and the other instructions
/// keep it, except a commitment recorded while the game still waits for its
/// second player that starts a game whose creator is the zero address.
pub proof fn law_players_distinct(
    game: GameAccount,
    game_id: u32,
    creator: Pubkey,
    created_at: i64,
    player_b: Pubkey,
    player_index: u8,
    board_hash: u64,
    attack_output: AttackDelivery,
    claimant: Pubkey,
    integrity: u8,
)
    ensures
        players_distinct(created_game(game, game_id, creator, created_at)),
        join_game_error(game, player_b) is None ==> players_distinct(joined_game(game, player_b)),
        players_distinct(game) && !(game.state == GameState::WaitingForPlayerB && game.player_a
            == game.player_b && committed_game(game, player_index, board_hash).state
            == GameState::InProgress) ==> players_distinct(
            committed_game(game, player_index, board_hash),
        ),
        players_distinct(game) ==> players_distinct(attack_resolved_game(game, attack_output)),
        players_distinct(game) && declare_victory_error(game, claimant) is None ==> players_distinct(
            finished_game(game, claimant),
        ),
        players_distinct(game) ==> players_distinct(revealed_game(game, player_index, integrity)),
{
}

/// Law: the lifecycle only moves forward (waiting for player B, waiting for
/// commitments, in progress, finished) under every instruction after
/// creation, except a commitment recorded after the game has finished,
/// which puts the game back in progress.
pub proof fn law_lifecycle_moves_forward(
    game: GameAccount,
    player_b: Pubkey,
    player_index: u8,
    board_hash: u64,
    attack_output: AttackDelivery,
    claimant: Pubkey,
    integrity: u8,
)
    ensures
        join_game_error(game, player_b) is None ==> state_rank(joined_game(game, player_b).state)
            > state_rank(game.state),
        game.state != GameState::Finished ==> state_rank(
            committed_game(game, player_index, board_hash).state,
        ) >= state_rank(game.state),
        attack_resolved_game(game, attack_output).state == game.state,
        declare_victory_error(game, claimant) is None ==> state_rank(
            finished_game(game, claimant).state,
        ) > state_rank(game.state),
        revealed_game(game, player_index, integrity).state == game.state,
{
}

/// Law: the players take turns. After an attack is resolved, the attack
/// right passes to the other player and the other board becomes the one
/// under attack.
pub proof fn law_turns_alternate(game: GameAccount, attack_output: AttackDelivery)
    requires
        game.turn < u32::MAX,
    ensures
        current_attacker(game) == (if game.turn % 2 == 0 {
            game.player_a
        } else {
            game.player_b
        }),
        current_attacker(attack_resolved_game(game, attack_output)) == (if game.turn % 2 == 0 {
            game.player_b
        } else {
            game.player_a
        }),
        defender_index(attack_resolved_game(game, attack_output)) == 1 - defender_index(game),
        attack_resolved_game(game, attack_output).turn == game.turn + 1,
{
}

/// Law: a finished game's winner is one of its two players.
pub proof fn law_winner_is_a_player(game: GameAccount, claimant: Pubkey)
    requires
        declare_victory_error(game, claimant) is None,
    ensures
        finished_game(game, claimant).state == GameState::Finished,
        is_player(finished_game(game, claimant), finished_game(game, claimant).winner),
{
}

/// Law: every attack that the program accepts targets a cell on the grid,
/// and against a board whose cells hold at most one troop each, the attack
/// circuit resolves it within its arithmetic range.
pub proof fn law_accepted_attacks_resolve(
    game: GameAccount,
    attacker: Pubkey,
    attack_x: u8,
    attack_y: u8,
    defender_board: [u8; 25],
)
    requires
        attack_error(game, attacker, attack_x, attack_y) is None,
        forall|i: int| 0 <= i < 25 ==> #[trigger] defender_board@[i] <= 1,
    ensures
        0 <= target_index(attack_x, attack_y) < 25,
        attack_in_range(
            AttackInput {
                attack_x,
                attack_y,
                defender_index: defender_index(game),
                defender_board,
            },
        ),
{
    law_single_troop_boards_stay_single(defender_board@, target_index(attack_x, attack_y));
}

/// Law: a player's commitment, once recorded, stays as it was. Joining,
/// attacks, the end of the game, reveals and the other player's commitment
/// leave it unchanged.
pub proof fn law_commitment_is_kept(
    game: GameAccount,
    player_index: u8,
    player_b: Pubkey,
    other_index: u8,
    other_hash: u64,
    attack_output: AttackDelivery,
    claimant: Pubkey,
    revealed_index: u8,
    integrity: u8,
)
    requires
        (player_index == 0) != (other_index == 0),
    ensures
        stored_commitment(joined_game(game, player_b), player_index) == stored_commitment(
            game,
            player_index,
        ),
        stored_commitment(committed_game(game, other_index, other_hash), player_index)
            == stored_commitment(game, player_index),
        stored_commitment(attack_resolved_game(game, attack_output), player_index)
            == stored_commitment(game, player_index),
        stored_commitment(finished_game(game, claimant), player_index) == stored_commitment(
            game,
            player_index,
        ),
        stored_commitment(revealed_game(game, revealed_index, integrity), player_index)
            == stored_commitment(game, player_index),
{
}

/// Law: an honest reveal passes. Committing a board records its hash as the
/// player's commitment; once the game is finished, revealing against that
/// commitment is accepted, and the reveal circuit finds the board intact.
pub proof fn law_honest_reveal_passes(game: GameAccount, cells: Seq<u8>, player_index: u8)
    ensures
        stored_commitment(committed_game(game, player_index, board_hash_of(cells)), player_index)
            == board_hash_of(cells),
        game.state == GameState::Finished && stored_commitment(game, player_index) == board_hash_of(
            cells,
        ) ==> reveal_board_error(game, board_hash_of(cells), player_index) is None,
        reveal_integrity(cells, board_hash_of(cells)) == 1,
{
}

/// Law: a reveal against any hash other than the player's commitment is
/// refused.
pub proof fn law_reveal_checks_the_commitment(game: GameAccount, committed_hash: u64, player_index: u8)
    requires
        committed_hash != stored_commitment(game, player_index),
    ensures
        reveal_board_error(game, committed_hash, player_index) is Some,
{
}

/// Law: an attack is started only in a game in progress, only by player A on
/// even turns and player B on odd turns, and only on a cell of the 5x5 grid;
/// the board under attack is the other player's. In any other state,
/// finished games included, it is refused as being in the wrong state.
pub proof fn law_attack_only_in_turn_while_in_progress(
    game: GameAccount,
    attacker: Pubkey,
    attack_x: u8,
    attack_y: u8,
)
    ensures
        game.state != GameState::InProgress ==> attack_error(game, attacker, attack_x, attack_y)
            == Some(DarkDominionError::WrongGameState),
        attack_error(game, attacker, attack_x, attack_y) is None ==> {
            &&& game.state == GameState::InProgress
            &&& attack_x < 5 && attack_y < 5
            &&& game.turn % 2 == 0 ==> attacker == game.player_a
            &&& game.turn % 2 != 0 ==> attacker == game.player_b
        },
        game.state == GameState::InProgress && (attack_x >= 5 || attack_y >= 5) ==> attack_error(
            game,
            attacker,
            attack_x,
            attack_y,
        ) is Some,
        game.turn % 2 == 0 ==> defender_index(game) == 1,
        game.turn % 2 != 0 ==> defender_index(game) == 0,
{
}

/// Law: a board commitment is started only by one of the two players and
/// only while the game waits for commitments; a player in any other state,
/// finished games included, is refused as being in the wrong state.
pub proof fn law_commit_only_while_waiting(game: GameAccount, player: Pubkey)
    ensures
        player != game.player_a && player != game.player_b ==> commit_board_error(game, player)
            == Some(DarkDominionError::NotAPlayer),
        (player == game.player_a || player == game.player_b) && game.state
            != GameState::WaitingForCommits ==> commit_board_error(game, player) == Some(
            DarkDominionError::WrongGameState,
        ),
        commit_board_error(game, player) is None ==> game.state == GameState::WaitingForCommits && (
        player == game.player_a || player == game.player_b),
{
}

/// Law: a recorded commitment goes to the reporting player: index zero sets
/// player A's hash and flag and leaves player B's alone, any other index the
/// reverse; the game starts, at turn zero, exactly when both have committed.
pub proof fn law_commitment_goes_to_the_player(game: GameAccount, player_index: u8, board_hash: u64)
    ensures
        player_index == 0 ==> {
            let after = committed_game(game, player_index, board_hash);
            &&& after.player_a_board_hash == board_hash && after.player_a_committed
            &&& after.player_b_board_hash == game.player_b_board_hash
            &&& after.player_b_committed == game.player_b_committed
        },
        player_index != 0 ==> {
            let after = committed_game(game, player_index, board_hash);
            &&& after.player_b_board_hash == board_hash && after.player_b_committed
            &&& after.player_a_board_hash == game.player_a_board_hash
            &&& after.player_a_committed == game.player_a_committed
        },
        ({
            let after = committed_game(game, player_index, board_hash);
            after.player_a_committed && after.player_b_committed ==> after.state
                == GameState::InProgress && after.turn == 0
        }),
        ({
            let after = committed_game(game, player_index, board_hash);
            !(after.player_a_committed && after.player_b_committed) ==> after.state == game.state
                && after.turn == game.turn
        }),
{
}

/// Law: a reveal's verdict is recorded for the reporting player as passed
/// exactly when the integrity flag is 1; a flag of 0, or any other value,
/// records a failure. The other player's verdict and the rest of the game
/// are left as they were.
pub proof fn law_reveal_records_the_verdict(game: GameAccount, player_index: u8, integrity: u8)
    ensures
        player_index == 0 ==> (revealed_game(game, player_index, integrity).player_a_integrity_valid
            <==> integrity == 1),
        player_index == 0 ==> revealed_game(game, player_index, integrity).player_b_integrity_valid
            == game.player_b_integrity_valid,
        player_index != 0 ==> (revealed_game(game, player_index, integrity).player_b_integrity_valid
            <==> integrity == 1),
        player_index != 0 ==> revealed_game(game, player_index, integrity).player_a_integrity_valid
            == game.player_a_integrity_valid,
        integrity == 0 && player_index == 0 ==> !revealed_game(
            game,
            player_index,
            integrity,
        ).player_a_integrity_valid,
        revealed_game(game, player_index, integrity).state == game.state,
        revealed_game(game, player_index, integrity).player_a_board_hash == game.player_a_board_hash,
        revealed_game(game, player_index, integrity).player_b_board_hash == game.player_b_board_hash,
        revealed_game(game, player_index, integrity).winner == game.winner,
{
}

/// Law: a reveal is started only once the game is finished, and only against
/// the hash that the named player committed (player A for index zero,
/// player B otherwise).
pub proof fn law_reveal_only_after_finish(game: GameAccount, committed_hash: u64, player_index: u8)
    ensures
        game.state != GameState::Finished ==> reveal_board_error(game, committed_hash, player_index)
            == Some(DarkDominionError::WrongGameState),
        reveal_board_error(game, committed_hash, player_index) is None ==> game.state
            == GameState::Finished && committed_hash == (if player_index == 0 {
            game.player_a_board_hash
        } else {
            game.player_b_board_hash
        }),
{
}

/// Law: a second player joins only a game waiting for one, and never as its
/// creator; after joining the game waits for commitments with both players
/// set.
pub proof fn law_join_only_open_games(game: GameAccount, player_b: Pubkey)
    ensures
        game.state != GameState::WaitingForPlayerB ==> join_game_error(game, player_b) == Some(
            DarkDominionError::GameNotOpen,
        ),
        game.state == GameState::WaitingForPlayerB && player_b == game.player_a ==> join_game_error(
            game,
            player_b,
        ) == Some(DarkDominionError::CannotPlayYourself),
        join_game_error(game, player_b) is None ==> {
            let after = joined_game(game, player_b);
            &&& game.state == GameState::WaitingForPlayerB && player_b != game.player_a
            &&& after.player_a == game.player_a && after.player_b == player_b
            &&& after.state == GameState::WaitingForCommits
        },
{
}

/// Law: victory is declared only in a game in progress and only by one of
/// its players, who becomes the winner of the now finished game.
pub proof fn law_victory_only_in_progress(game: GameAccount, claimant: Pubkey)
    ensures
        game.state != GameState::InProgress ==> declare_victory_error(game, claimant) == Some(
            DarkDominionError::WrongGameState,
        ),
        game.state == GameState::InProgress && claimant != game.player_a && claimant
            != game.player_b ==> declare_victory_error(game, claimant) == Some(
            DarkDominionError::NotAPlayer,
        ),
        declare_victory_error(game, claimant) is None ==> {
            let after = finished_game(game, claimant);
            &&& game.state == GameState::InProgress
            &&& after.state == GameState::Finished && after.winner == claimant
            &&& after.turn == game.turn
        },
{
}

/// Law: resolving an attack advances the turn by exactly one and records the
/// delivered cell and ciphertexts, touching nothing else of the game.
pub proof fn law_resolution_advances_one_turn(game: GameAccount, delivery: AttackDelivery)
    requires
        game.turn < u32::MAX,
    ensures
        attack_resolved_game(game, delivery).turn == game.turn + 1,
        attack_resolved_game(game, delivery).last_attack_x == delivery.attacked_x,
        attack_resolved_game(game, delivery).last_attack_y == delivery.attacked_y,
        attack_resolved_game(game, delivery).last_hit_ciphertext == delivery.hit_ciphertext,
        attack_resolved_game(game, delivery).last_remaining_ciphertext == delivery.remaining_ciphertext,
        attack_resolved_game(game, delivery).state == game.state,
        attack_resolved_game(game, delivery).player_a == game.player_a,
        attack_resolved_game(game, delivery).player_b == game.player_b,
{
}

/// Law: a new game has the creator as player A, nobody as player B, five
/// troops a side, no commitments, turn zero and no winner, and waits for a
/// second player.
pub proof fn law_new_game_waits_for_player_b(
    game: GameAccount,
    game_id: u32,
    creator: Pubkey,
    created_at: i64,
)
    ensures
        ({
            let g = created_game(game, game_id, creator, created_at);
            &&& g.game_id == game_id && g.player_a == creator && g.created_at == created_at
            &&& g.player_b.bytes@ == Seq::new(32, |i: int| 0u8)
            &&& g.winner.bytes@ == Seq::new(32, |i: int| 0u8)
            &&& g.state == GameState::WaitingForPlayerB && g.turn == 0
            &&& g.player_a_troops_remaining == 5 && g.player_b_troops_remaining == 5
            &&& !g.player_a_committed && !g.player_b_committed
            &&& g.player_a_board_hash == 0 && g.player_b_board_hash == 0
        }),
{
    let g = created_game(game, game_id, creator, created_at);
    assert(g.player_b.bytes@ =~= Seq::new(32, |i: int| 0u8));
    assert(g.winner.bytes@ =~= Seq::new(32, |i: int| 0u8));
}

/// Law: the commitment circuit reads, in order, the submitter's key, the
/// nonce, the player index and then the 25 encrypted cells, cell `i` at
/// position `3 + i`.
pub proof fn law_commit_arguments_layout(
    pub_key: [u8; 32],
    nonce: u128,
    player_index: u8,
    cells: Seq<[u8; 32]>,
)
    requires
        cells.len() == 25,
    ensures
        ({
            let args = commit_board_arguments(pub_key, nonce, player_index, cells);
            &&& args.len() == 28
            &&& args[0] == ComputationArgument::X25519Pubkey(pub_key)
            &&& args[1] == ComputationArgument::PlaintextU128(nonce)
            &&& args[2] == ComputationArgument::PlaintextU8(player_index)
            &&& forall|i: int| 0 <= i < 25 ==> #[trigger] args[3 + i] == ComputationArgument::EncryptedU8(cells[i])
        }),
{
}

/// Law: the attack circuit reads, in order, the submitter's key, the nonce,
/// the column, the row, the index of the player under attack (1 on even
/// turns, 0 on odd ones) and then the 25 encrypted cells of that board.
pub proof fn law_attack_arguments_layout(
    game: GameAccount,
    attack_x: u8,
    attack_y: u8,
    cells: Seq<[u8; 32]>,
    pub_key: [u8; 32],
    nonce: u128,
)
    requires
        cells.len() == 25,
    ensures
        ({
            let args = attack_arguments(game, attack_x, attack_y, cells, pub_key, nonce);
            &&& args.len() == 30
            &&& args[0] == ComputationArgument::X25519Pubkey(pub_key)
            &&& args[1] == ComputationArgument::PlaintextU128(nonce)
            &&& args[2] == ComputationArgument::PlaintextU8(attack_x)
            &&& args[3] == ComputationArgument::PlaintextU8(attack_y)
            &&& args[4] == ComputationArgument::PlaintextU8(if game.turn % 2 == 0 { 1u8 } else { 0u8 })
            &&& forall|i: int| 0 <= i < 25 ==> #[trigger] args[5 + i] == ComputationArgument::EncryptedU8(cells[i])
        }),
{
}

/// Law: the reveal circuit reads, in order, the submitter's key, the nonce,
/// the committed hash, the player index and then the 25 encrypted cells.
pub proof fn law_reveal_arguments_layout(
    cells: Seq<[u8; 32]>,
    committed_hash: u64,
    player_index: u8,
    pub_key: [u8; 32],
    nonce: u128,
)
    requires
        cells.len() == 25,
    ensures
        ({
            let args = reveal_board_arguments(cells, committed_hash, player_index, pub_key, nonce);
            &&& args.len() == 29
            &&& args[0] == ComputationArgument::X25519Pubkey(pub_key)
            &&& args[1] == ComputationArgument::PlaintextU128(nonce)
            &&& args[2] == ComputationArgument::PlaintextU64(committed_hash)
            &&& args[3] == ComputationArgument::PlaintextU8(player_index)
            &&& forall|i: int| 0 <= i < 25 ==> #[trigger] args[4 + i] == ComputationArgument::EncryptedU8(cells[i])
        }),
{
}

} // verus!
