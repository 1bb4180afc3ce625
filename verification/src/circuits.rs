//! The confidential computations of the game, over plain values: committing
//! to a board, resolving an attack against a board, and revealing a board at
//! the end of the game. The encryption around them is not part of this crate;
//! each output type says to whom its values are delivered.
use vstd::prelude::*;
use crate::board::{
    board_hash, board_hash_of, lemma_hash_roll, troop_count, troop_total,
    TROOPS_PER_PLAYER, GRID_SIDE,
};

verus! {

/// A player's board as submitted for commitment.
#[derive(Clone, Copy, Debug, PartialEq, Eq)]
pub struct BoardInput {
    pub cells: [u8; 25],
    pub player_index: u8,
}

/// What committing to a board yields: whether it holds exactly the
/// required number of troops, and its hash. All three values are revealed
/// in plaintext to the program, which decides on `valid` and records the
/// hash as the player's commitment.
#[derive(Clone, Copy, Debug, PartialEq, Eq)]
pub struct CommitBoardOutput {
    pub valid: u8,
    pub board_hash: u64,
    pub player_index: u8,
}

/// An attack on cell `(attack_x, attack_y)` of the defender's board.
#[derive(Clone, Copy, Debug, PartialEq, Eq)]
pub struct AttackInput {
    pub attack_x: u8,
    pub attack_y: u8,
    pub defender_index: u8,
    pub defender_board: [u8; 25],
}

/// What the attacker learns from an attack: whether it hit, and the cell
/// attacked. The hit flag is delivered encrypted to the attacker; the
/// coordinates are public.
#[derive(Clone, Copy, Debug, PartialEq, Eq)]
pub struct AttackResult {
    pub hit: u8,
    pub attacked_x: u8,
    pub attacked_y: u8,
}

/// The defender's board after an attack and its remaining troops. These
/// stay encrypted for the computation cluster; no player receives them.
#[derive(Clone, Copy, Debug, PartialEq, Eq)]
pub struct DefenderBoardUpdate {
    pub defender_remaining: u8,
    pub updated_board: [u8; 25],
}

/// A board revealed at the end of the game, with the hash committed earlier.
#[derive(Clone, Copy, Debug, PartialEq, Eq)]
pub struct RevealInput {
    pub original_board: [u8; 25],
    pub committed_hash: u64,
    pub player_index: u8,
}

/// The outcome of a reveal: the board, whether it matches the commitment,
/// and its troop total, all revealed in plaintext at the end of the game.
#[derive(Clone, Copy, Debug, PartialEq, Eq)]
pub struct RevealOutput {
    pub revealed_cells: [u8; 25],
    pub integrity_valid: u8,
    pub initial_troop_count: u8,
    pub player_index: u8,
}

/// Row-major index of the cell `(x, y)`.
pub open spec fn target_index(x: u8, y: u8) -> int {
    y * 5 + x
}

/// Whether an attack on the cell with index `target` strikes a troop.
pub open spec fn strikes(board: Seq<u8>, target: int) -> bool {
    0 <= target < board.len() && board[target] == 1
}

/// The defender's board after an attack on the cell with index `target`:
/// that cell is emptied; an index off the board changes nothing.
pub open spec fn attacked_board(board: Seq<u8>, target: int) -> Seq<u8> {
    if 0 <= target < board.len() {
        board.update(target, 0)
    } else {
        board
    }
}

/// The validity flag of a commitment: one exactly when the board holds
/// the required number of troops.
pub open spec fn commit_validity(cells: Seq<u8>) -> u8 {
    if troop_total(cells) == TROOPS_PER_PLAYER { 1 } else { 0 }
}

/// The integrity flag of a reveal: one exactly when the revealed board
/// hashes to the committed value.
pub open spec fn reveal_integrity(cells: Seq<u8>, committed_hash: u64) -> u8 {
    if board_hash_of(cells) == committed_hash { 1 } else { 0 }
}

/// The hit flag of an attack on the cell with index `target`.
pub open spec fn attack_hit(board: Seq<u8>, target: int) -> u8 {
    if strikes(board, target) { 1 } else { 0 }
}

/// What an attack tells the attacker: the hit flag and the coordinates.
pub open spec fn attacker_report(input: AttackInput) -> AttackResult {
    AttackResult {
        hit: attack_hit(input.defender_board@, target_index(input.attack_x, input.attack_y)),
        attacked_x: input.attack_x,
        attacked_y: input.attack_y,
    }
}

/// The conditions under which resolving an attack stays within `u8`
/// arithmetic: the target index fits in a byte, the attacked cell holds at
/// most one troop, and the troops left fit in a byte.
pub open spec fn attack_in_range(input: AttackInput) -> bool {
    let t = target_index(input.attack_x, input.attack_y);
    &&& t <= 255
    &&& (0 <= t < 25 ==> input.defender_board@[t] <= 1)
    &&& troop_total(attacked_board(input.defender_board@, t)) <= 255
}

/// Changing one cell changes the troop total by the difference.
pub proof fn lemma_troop_total_update(board: Seq<u8>, i: int, v: u8)
    requires
        0 <= i < board.len(),
    ensures
        troop_total(board.update(i, v)) == troop_total(board) - board[i] + v,
    decreases board.len(),
{
    let updated = board.update(i, v);
    if i == board.len() - 1 {
        assert(updated.drop_last() =~= board.drop_last());
    } else {
        lemma_troop_total_update(board.drop_last(), i, v);
        assert(updated.drop_last() =~= board.drop_last().update(i, v));
    }
}

/// Validates a board and commits to it: the board is valid when its troops
/// add up to exactly five, and the commitment is its rolling hash.
pub fn commit_board(input: BoardInput) -> (output: CommitBoardOutput)
    ensures
        output.valid == commit_validity(input.cells@),
        output.valid == 1 <==> troop_total(input.cells@) == 5,
        output.valid == 0 <==> troop_total(input.cells@) != 5,
        output.board_hash == board_hash_of(input.cells@),
        output.player_index == input.player_index,
{
    let total = troop_count(&input.cells);
    let valid: u8 = if total == TROOPS_PER_PLAYER as u16 { 1 } else { 0 };
    let hash = board_hash(&input.cells);
    CommitBoardOutput { valid, board_hash: hash, player_index: input.player_index }
}

/// Resolves an attack. The first part of the outcome is the attacker's
/// report (whether the targeted cell held a troop, and the cell); the second
/// part, the defender's board with the targeted cell emptied and the count
/// of the defender's remaining troops, stays with the computation cluster.
pub fn resolve_attack(input: AttackInput) -> (outcome: (AttackResult, DefenderBoardUpdate))
    requires
        attack_in_range(input),
    ensures
        outcome.0 == attacker_report(input),
        outcome.1.updated_board@ == attacked_board(
            input.defender_board@,
            target_index(input.attack_x, input.attack_y),
        ),
        outcome.1.defender_remaining == troop_total(outcome.1.updated_board@),
        outcome.1.defender_remaining == troop_total(input.defender_board@) - outcome.0.hit,
        outcome.0.attacked_x == input.attack_x,
        outcome.0.attacked_y == input.attack_y,
        input.attack_x < 5 && input.attack_y < 5 ==> (outcome.0.hit == 1 <==> input.defender_board@[input.attack_y
            * 5 + input.attack_x] == 1),
        input.attack_x < 5 && input.attack_y < 5 ==> (outcome.0.hit == 0 <==> input.defender_board@[input.attack_y
            * 5 + input.attack_x] != 1),
        input.attack_x < 5 && input.attack_y < 5 ==> outcome.1.updated_board@
            == input.defender_board@.update(input.attack_y * 5 + input.attack_x, 0),
{
    let target: u8 = input.attack_y * GRID_SIDE + input.attack_x;
    let ghost t = target as int;
    let ghost board = input.defender_board@;
    let mut hit: u8 = 0;
    let mut updated_board: [u8; 25] = input.defender_board;
    let mut i: usize = 0;
    while i < 25
        invariant
            i <= 25,
            board == input.defender_board@,
            board.len() == 25,
            t == target,
            t == target_index(input.attack_x, input.attack_y),
            0 <= t < 25 ==> board[t] <= 1,
            updated_board@.len() == 25,
            forall|j: int| 0 <= j < i ==> updated_board@[j] == attacked_board(board, t)[j],
            forall|j: int| i <= j < 25 ==> updated_board@[j] == board[j],
            hit == (if t < i { attack_hit(board, t) } else { 0u8 }),
        decreases 25 - i,
    {
        let is_target: u8 = if i as u8 == target { 1 } else { 0 };
        let cell = input.defender_board[i];
        assert(is_target == 1 <==> i == t);
        let was_hit = is_target * cell;
        assert(was_hit == (if is_target == 1 { cell } else { 0u8 })) by (nonlinear_arith)
            requires
                is_target == 0 || is_target == 1,
                was_hit == is_target * cell,
        ;
        hit = if was_hit == 1 { 1 } else { hit };
        assert(was_hit <= 1);
        assert(cell * (1 - was_hit) <= 255) by (nonlinear_arith)
            requires
                was_hit <= 1,
                cell <= 255,
        ;
        let kept = cell * (1 - was_hit);
        assert(kept == (if is_target == 1 { 0u8 } else { cell })) by (nonlinear_arith)
            requires
                is_target == 0 || is_target == 1,
                is_target == 1 ==> cell <= 1,
                was_hit == (if is_target == 1 { cell } else { 0u8 }),
                kept == cell * (1 - was_hit),
        ;
        updated_board[i] = kept;
        i = i + 1;
    }
    assert(updated_board@ =~= attacked_board(board, t));
    let remaining = troop_count(&updated_board);
    proof {
        if 0 <= t < 25 {
            lemma_troop_total_update(board, t, 0);
        }
    }
    (
        AttackResult { hit, attacked_x: input.attack_x, attacked_y: input.attack_y },
        DefenderBoardUpdate { defender_remaining: remaining as u8, updated_board },
    )
}

/// Reveals a board: recomputes its hash, compares it with the committed
/// one, and counts its troops.
pub fn reveal_board(input: RevealInput) -> (output: RevealOutput)
    requires
        troop_total(input.original_board@) <= 255,
    ensures
        output.revealed_cells == input.original_board,
        output.integrity_valid == reveal_integrity(input.original_board@, input.committed_hash),
        output.integrity_valid == 1 <==> board_hash_of(input.original_board@) == input.committed_hash,
        output.integrity_valid == 0 <==> board_hash_of(input.original_board@) != input.committed_hash,
        output.initial_troop_count == troop_total(input.original_board@),
        output.player_index == input.player_index,
{
    let recomputed_hash = board_hash(&input.original_board);
    let integrity_valid: u8 = if recomputed_hash == input.committed_hash { 1 } else { 0 };
    let total = troop_count(&input.original_board);
    RevealOutput {
        revealed_cells: input.original_board,
        integrity_valid,
        initial_troop_count: total as u8,
        player_index: input.player_index,
    }
}

/// Law: the attacker learns nothing about the defender's board but the
/// targeted cell. Two attacks on the same cell of boards that agree on that
/// cell give the attacker the same report, whatever the other cells hold.
pub proof fn law_attack_reveals_only_the_target(first: AttackInput, second: AttackInput)
    requires
        first.attack_x == second.attack_x,
        first.attack_y == second.attack_y,
        0 <= target_index(first.attack_x, first.attack_y) < 25 ==> first.defender_board@[target_index(
            first.attack_x,
            first.attack_y,
        )] == second.defender_board@[target_index(first.attack_x, first.attack_y)],
    ensures
        attacker_report(first) == attacker_report(second),
{
}

/// Law: an attack reports at most one hit, removes exactly the troops it
/// reports, and never adds a troop to any cell.
pub proof fn law_attack_removes_what_it_hits(board: Seq<u8>, target: int)
    requires
        board.len() == 25,
        0 <= target < 25 ==> board[target] <= 1,
    ensures
        attack_hit(board, target) <= 1,
        troop_total(attacked_board(board, target)) == troop_total(board) - attack_hit(board, target),
        attacked_board(board, target).len() == board.len(),
        forall|i: int| 0 <= i < 25 ==> #[trigger] attacked_board(board, target)[i] <= board[i],
{
    if 0 <= target < 25 {
        lemma_troop_total_update(board, target, 0);
    }
}

/// Law: attacking a cell that was already attacked is a miss and leaves the
/// board as it is.
pub proof fn law_repeated_attack_misses(board: Seq<u8>, target: int)
    ensures
        attack_hit(attacked_board(board, target), target) == 0,
        attacked_board(attacked_board(board, target), target) == attacked_board(board, target),
{
    if 0 <= target < board.len() {
        assert(attacked_board(attacked_board(board, target), target) =~= attacked_board(board, target));
    }
}

/// Law: on a board where no cell holds more than one troop, every attack is
/// within range of the circuit and the board keeps that shape afterwards.
pub proof fn law_single_troop_boards_stay_single(board: Seq<u8>, target: int)
    requires
        board.len() == 25,
        forall|i: int| 0 <= i < 25 ==> #[trigger] board[i] <= 1,
    ensures
        0 <= target < 25 ==> board[target] <= 1,
        troop_total(attacked_board(board, target)) <= 25,
        forall|i: int| 0 <= i < 25 ==> #[trigger] attacked_board(board, target)[i] <= 1,
{
    law_attack_removes_what_it_hits(board, target);
    lemma_single_troop_total(board);
}

/// A board of cells holding at most one troop each holds at most one troop
/// per cell in total.
proof fn lemma_single_troop_total(board: Seq<u8>)
    requires
        forall|i: int| 0 <= i < board.len() ==> #[trigger] board[i] <= 1,
    ensures
        troop_total(board) <= board.len(),
    decreases board.len(),
{
    if board.len() > 0 {
        let rest = board.drop_last();
        assert forall|i: int| 0 <= i < rest.len() implies #[trigger] rest[i] <= 1 by {
            assert(rest[i] == board[i]);
        }
        lemma_single_troop_total(rest);
    }
}

/// Law: the attacked cell is the row-major cell of `(x, y)`. For a cell on
/// the grid, the attacker's report says "hit" exactly when the defender's
/// cell at index `5 * y + x` holds one troop, and the defender's board
/// afterwards is the input board with that one cell emptied and every other
/// cell untouched.
pub proof fn law_attack_strikes_row_major_cell(input: AttackInput)
    requires
        input.attack_x < 5,
        input.attack_y < 5,
    ensures
        attacker_report(input).hit == 1 <==> input.defender_board@[input.attack_y * 5 + input.attack_x] == 1,
        attacker_report(input).hit == 0 <==> input.defender_board@[input.attack_y * 5 + input.attack_x] != 1,
        attacker_report(input).attacked_x == input.attack_x,
        attacker_report(input).attacked_y == input.attack_y,
        attacked_board(input.defender_board@, target_index(input.attack_x, input.attack_y))
            == input.defender_board@.update(input.attack_y * 5 + input.attack_x, 0),
        forall|i: int|
            0 <= i < 25 && i != input.attack_y * 5 + input.attack_x ==> #[trigger] attacked_board(
                input.defender_board@,
                target_index(input.attack_x, input.attack_y),
            )[i] == input.defender_board@[i],
{
}

/// Law: a commitment is valid exactly when the board holds five troops in
/// total; every other total, larger or smaller, is refused.
pub proof fn law_commit_accepts_exactly_five(cells: Seq<u8>)
    ensures
        commit_validity(cells) == 1 <==> troop_total(cells) == 5,
        commit_validity(cells) == 0 <==> troop_total(cells) != 5,
{
}

/// Law: the troop total is the sum of the cells: zero for no cells, and
/// appending a cell adds its troops.
pub proof fn law_troop_total_is_the_sum(cells: Seq<u8>, cell: u8)
    ensures
        troop_total(Seq::<u8>::empty()) == 0,
        troop_total(cells.push(cell)) == troop_total(cells) + cell,
{
    assert(cells.push(cell).drop_last() =~= cells);
}

/// Law: the board hash is the rolling hash starting from zero, each cell
/// taking the hash `h` to `(31 * h + cell + 1) mod 2^64`.
pub proof fn law_board_hash_rolls(cells: Seq<u8>, cell: u8)
    ensures
        board_hash_of(Seq::<u8>::empty()) == 0,
        board_hash_of(cells.push(cell)) as int == (31 * board_hash_of(cells) as int + cell + 1)
            % 0x1_0000_0000_0000_0000,
{
    lemma_hash_roll(cells, cell);
}

} // verus!
