//! The confidential computations that the program queues: which circuit
//! runs, where its definition lives, and the arguments handed to it.
use vstd::prelude::*;

verus! {

/// The circuits of the game.
#[derive(Clone, Copy, Debug, PartialEq, Eq, Structural)]
pub enum Circuit {
    CommitBoard,
    ResolveAttack,
    RevealBoard,
}

/// The name under which each circuit is registered.
pub open spec fn circuit_name(circuit: Circuit) -> Seq<char> {
    match circuit {
        Circuit::CommitBoard => "commit_board"@,
        Circuit::ResolveAttack => "resolve_attack"@,
        Circuit::RevealBoard => "reveal_board"@,
    }
}

/// The offset of the computation definition registered under a circuit
/// name, as `arcium_anchor::comp_def_offset` derives it from the name.
pub uninterp spec fn computation_definition_offset(name: Seq<char>) -> u32;

/// Calls `arcium_anchor::comp_def_offset`, which derives the offset of a
/// computation definition from the circuit's name (the first four bytes of
/// the name's SHA-256 digest, read little-endian). The contract claims only
/// that the result is a function of the name.
#[verifier::external_body]
fn comp_def_offset(name: &str) -> (offset: u32)
    ensures
        offset == computation_definition_offset(name@),
{
    arcium_anchor::comp_def_offset(name)
}

impl Circuit {
    /// The name under which the circuit is registered.
    pub fn name(&self) -> (name: &'static str)
        ensures
            name@ == circuit_name(*self),
    {
        match self {
            Circuit::CommitBoard => "commit_board",
            Circuit::ResolveAttack => "resolve_attack",
            Circuit::RevealBoard => "reveal_board",
        }
    }

    /// The offset of the circuit's computation definition.
    pub fn definition_offset(&self) -> (offset: u32)
        ensures
            offset == computation_definition_offset(circuit_name(*self)),
    {
        let name = self.name();
        comp_def_offset(name)
    }
}

/// One argument of a queued computation, in the order the circuit reads them.
#[derive(Clone, Copy, Debug, PartialEq, Eq)]
pub enum ComputationArgument {
    /// The submitter's x25519 public key for the shared encryption.
    X25519Pubkey([u8; 32]),
    PlaintextU8(u8),
    PlaintextU64(u64),
    PlaintextU128(u128),
    /// A ciphertext of one encrypted byte.
    EncryptedU8([u8; 32]),
}

/// A computation to queue: the circuit, the caller-chosen offset of the
/// computation, and its arguments.
#[derive(Debug, PartialEq, Eq)]
pub struct QueuedComputation {
    pub circuit: Circuit,
    pub computation_offset: u64,
    pub arguments: Vec<ComputationArgument>,
}

/// What the program receives from the attack circuit: the hit flag
/// encrypted to the attacker, the defender's remaining troop count
/// encrypted for the defender's side, and the attacked cell in plaintext.
#[derive(Clone, Copy, Debug, PartialEq, Eq)]
pub struct AttackDelivery {
    pub hit_ciphertext: [u8; 32],
    pub remaining_ciphertext: [u8; 32],
    pub attacked_x: u8,
    pub attacked_y: u8,
}

/// The arguments that carry a sequence of encrypted bytes, in order.
pub open spec fn encrypted_arguments(ciphertexts: Seq<[u8; 32]>) -> Seq<ComputationArgument> {
    ciphertexts.map_values(|ciphertext: [u8; 32]| ComputationArgument::EncryptedU8(ciphertext))
}

/// Appends one encrypted-byte argument per ciphertext, in order.
pub fn push_encrypted_cells(arguments: &mut Vec<ComputationArgument>, ciphertexts: &[[u8; 32]; 25])
    ensures
        final(arguments)@ == old(arguments)@ + encrypted_arguments(ciphertexts@),
{
    let ghost start = arguments@;
    let mut i: usize = 0;
    while i < 25
        invariant
            i <= 25,
            ciphertexts@.len() == 25,
            arguments@ == start + encrypted_arguments(ciphertexts@.take(i as int)),
        decreases 25 - i,
    {
        arguments.push(ComputationArgument::EncryptedU8(ciphertexts[i]));
        i = i + 1;
        assert(encrypted_arguments(ciphertexts@.take(i as int)) =~= encrypted_arguments(
            ciphertexts@.take(i - 1),
        ).push(ComputationArgument::EncryptedU8(ciphertexts@[i - 1])));
    }
    assert(ciphertexts@.take(25) =~= ciphertexts@);
}

} // verus!
