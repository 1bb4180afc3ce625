//! The board: twenty-five cells, each holding a number of troops, with the
//! troop total and the rolling hash that a player commits to.
use vstd::prelude::*;
use vstd::arithmetic::div_mod::{lemma_add_mod_noop, lemma_mul_mod_noop_left, lemma_small_mod};

verus! {

/// Number of cells along each side of the square grid.
pub const GRID_SIDE: u8 = 5;

/// Number of troops each player deploys.
pub const TROOPS_PER_PLAYER: u8 = 5;

/// Multiplier of the rolling board hash.
pub const HASH_MULTIPLIER: u64 = 31;

/// Modulus of `u64` arithmetic.
pub open spec fn word_modulus() -> int {
    0x1_0000_0000_0000_0000
}

/// Sum of the troops over all cells.
pub open spec fn troop_total(cells: Seq<u8>) -> int
    decreases cells.len(),
{
    if cells.len() == 0 {
        0
    } else {
        troop_total(cells.drop_last()) + cells.last()
    }
}

/// The rolling hash over the integers, before reduction:
/// the polynomial `sum (cells[k] + 1) * 31^(n - 1 - k)`.
pub open spec fn hash_polynomial(cells: Seq<u8>) -> int
    decreases cells.len(),
{
    if cells.len() == 0 {
        0
    } else {
        hash_polynomial(cells.drop_last()) * 31 + cells.last() + 1
    }
}

/// The board hash: the rolling polynomial reduced modulo `2^64`.
pub open spec fn board_hash_of(cells: Seq<u8>) -> u64 {
    (hash_polynomial(cells) % word_modulus()) as u64
}

/// The hash polynomial is never negative.
pub proof fn lemma_hash_polynomial_nonnegative(cells: Seq<u8>)
    ensures
        hash_polynomial(cells) >= 0,
    decreases cells.len(),
{
    if cells.len() > 0 {
        lemma_hash_polynomial_nonnegative(cells.drop_last());
    }
}

/// One step of the rolling hash in `u64` wrapping arithmetic extends the
/// hash of a prefix by one more cell.
proof fn lemma_hash_step(prefix: Seq<u8>, cell: u8)
    ensures
        ((board_hash_of(prefix) as int * 31) % word_modulus() + cell + 1) % word_modulus()
            == board_hash_of(prefix.push(cell)) as int,
{
    let m = word_modulus();
    let p = hash_polynomial(prefix);
    lemma_hash_polynomial_nonnegative(prefix);
    assert(prefix.push(cell).drop_last() =~= prefix);
    assert(hash_polynomial(prefix.push(cell)) == p * 31 + cell + 1);
    lemma_mul_mod_noop_left(p, 31, m);
    lemma_small_mod((cell + 1) as nat, m as nat);
    lemma_add_mod_noop(p * 31, cell + 1, m);
}

/// The board hash of one more cell, from the board hash of the prefix.
pub proof fn lemma_hash_roll(prefix: Seq<u8>, cell: u8)
    ensures
        board_hash_of(prefix.push(cell)) as int == (board_hash_of(prefix) as int * 31 + cell + 1)
            % word_modulus(),
{
    let m = word_modulus();
    lemma_hash_step(prefix, cell);
    lemma_mul_mod_noop_left(board_hash_of(prefix) as int, 31, m);
    lemma_small_mod((cell + 1) as nat, m as nat);
    lemma_add_mod_noop(board_hash_of(prefix) as int * 31, cell + 1, m);
}

/// Sums the troops of a board.
pub fn troop_count(cells: &[u8; 25]) -> (total: u16)
    ensures
        total == troop_total(cells@),
{
    let mut total: u16 = 0;
    let mut i: usize = 0;
    while i < 25
        invariant
            i <= 25,
            cells@.len() == 25,
            total == troop_total(cells@.take(i as int)),
            total <= 255 * i,
        decreases 25 - i,
    {
        assert(cells@.take(i + 1).drop_last() =~= cells@.take(i as int));
        total = total + cells[i] as u16;
        i = i + 1;
    }
    assert(cells@.take(25) =~= cells@);
    total
}

/// Computes the rolling hash `h = h * 31 + (cell + 1)` over the cells in
/// order, in wrapping `u64` arithmetic, starting from zero.
pub fn board_hash(cells: &[u8; 25]) -> (hash: u64)
    ensures
        hash == board_hash_of(cells@),
{
    let mut hash: u64 = 0;
    let mut i: usize = 0;
    assert(cells@.take(0) =~= Seq::<u8>::empty());
    while i < 25
        invariant
            i <= 25,
            cells@.len() == 25,
            hash == board_hash_of(cells@.take(i as int)),
        decreases 25 - i,
    {
        let cell = cells[i];
        proof {
            lemma_hash_step(cells@.take(i as int), cell);
            assert(cells@.take(i as int).push(cell) =~= cells@.take(i + 1));
        }
        hash = hash.wrapping_mul(HASH_MULTIPLIER).wrapping_add(cell as u64 + 1);
        i = i + 1;
    }
    assert(cells@.take(25) =~= cells@);
    hash
}

} // verus!
