//! The game account, its lifecycle states, the events the program emits and
//! the errors it returns.
use vstd::prelude::*;

verus! {

/// A 32-byte account address.
#[derive(Clone, Copy, Debug, PartialEq, Eq)]
pub struct Pubkey {
    pub bytes: [u8; 32],
}

/// Thirty-two zero bytes.
pub open spec fn zero_bytes() -> [u8; 32] {
    vstd::array::spec_array_fill_for_copy_type::<u8, 32>(0u8)
}

/// The all-zero address, which stands for "nobody".
pub open spec fn default_key() -> Pubkey {
    Pubkey { bytes: zero_bytes() }
}

impl Pubkey {
    /// Wraps 32 bytes as an address.
    pub fn new_from_array(bytes: [u8; 32]) -> (key: Pubkey)
        ensures
            key.bytes == bytes,
    {
        Pubkey { bytes }
    }

    /// Compares two addresses byte by byte.
    pub fn same_key(&self, other: &Pubkey) -> (same: bool)
        ensures
            same == (*self == *other),
    {
        let mut i: usize = 0;
        while i < 32
            invariant
                i <= 32,
                forall|j: int| 0 <= j < i ==> self.bytes@[j] == other.bytes@[j],
            decreases 32 - i,
        {
            if self.bytes[i] != other.bytes[i] {
                return false;
            }
            i = i + 1;
        }
        assert(self.bytes =~= other.bytes);
        true
    }
}

impl Default for Pubkey {
    fn default() -> (key: Pubkey)
        ensures
            key == default_key(),
    {
        Pubkey { bytes: [0u8; 32] }
    }
}

/// The lifecycle of a game.
#[derive(Clone, Copy, Debug, PartialEq, Eq, Structural)]
pub enum GameState {
    WaitingForPlayerB,
    WaitingForCommits,
    InProgress,
    Finished,
}

impl Default for GameState {
    fn default() -> (state: GameState)
        ensures
            state == GameState::WaitingForPlayerB,
    {
        GameState::WaitingForPlayerB
    }
}

/// Position of a state in the lifecycle.
pub open spec fn state_rank(state: GameState) -> int {
    match state {
        GameState::WaitingForPlayerB => 0,
        GameState::WaitingForCommits => 1,
        GameState::InProgress => 2,
        GameState::Finished => 3,
    }
}

/// The on-chain record of one game.
#[derive(Clone, Copy, Debug, PartialEq, Eq)]
pub struct GameAccount {
    pub game_id: u32,
    pub player_a: Pubkey,
    pub player_b: Pubkey,
    pub state: GameState,
    pub turn: u32,
    pub player_a_troops_remaining: u8,
    pub player_b_troops_remaining: u8,
    pub player_a_board_hash: u64,
    pub player_b_board_hash: u64,
    pub player_a_committed: bool,
    pub player_b_committed: bool,
    pub player_a_integrity_valid: bool,
    pub player_b_integrity_valid: bool,
    pub winner: Pubkey,
    pub last_attack_x: u8,
    pub last_attack_y: u8,
    pub last_hit_ciphertext: [u8; 32],
    pub last_remaining_ciphertext: [u8; 32],
    pub created_at: i64,
}

/// A freshly allocated game account: every field zero, empty or false.
pub open spec fn blank_game() -> GameAccount {
    GameAccount {
        game_id: 0,
        player_a: default_key(),
        player_b: default_key(),
        state: GameState::WaitingForPlayerB,
        turn: 0,
        player_a_troops_remaining: 0,
        player_b_troops_remaining: 0,
        player_a_board_hash: 0,
        player_b_board_hash: 0,
        player_a_committed: false,
        player_b_committed: false,
        player_a_integrity_valid: false,
        player_b_integrity_valid: false,
        winner: default_key(),
        last_attack_x: 0,
        last_attack_y: 0,
        last_hit_ciphertext: zero_bytes(),
        last_remaining_ciphertext: zero_bytes(),
        created_at: 0,
    }
}

impl Default for GameAccount {
    fn default() -> (game: GameAccount)
        ensures
            game == blank_game(),
    {
        GameAccount {
            game_id: 0,
            player_a: Pubkey { bytes: [0u8; 32] },
            player_b: Pubkey { bytes: [0u8; 32] },
            state: GameState::WaitingForPlayerB,
            turn: 0,
            player_a_troops_remaining: 0,
            player_b_troops_remaining: 0,
            player_a_board_hash: 0,
            player_b_board_hash: 0,
            player_a_committed: false,
            player_b_committed: false,
            player_a_integrity_valid: false,
            player_b_integrity_valid: false,
            winner: Pubkey { bytes: [0u8; 32] },
            last_attack_x: 0,
            last_attack_y: 0,
            last_hit_ciphertext: [0u8; 32],
            last_remaining_ciphertext: [0u8; 32],
            created_at: 0,
        }
    }
}

/// Emitted when a game is created.
#[derive(Clone, Copy, Debug, PartialEq, Eq)]
pub struct GameCreatedEvent {
    pub game_id: u32,
    pub player_a: Pubkey,
}

/// Emitted when the second player joins.
#[derive(Clone, Copy, Debug, PartialEq, Eq)]
pub struct PlayerJoinedEvent {
    pub game_id: u32,
    pub player_b: Pubkey,
}

/// Emitted when a board commitment is recorded.
#[derive(Clone, Copy, Debug, PartialEq, Eq)]
pub struct BoardCommittedEvent {
    pub game_id: u32,
    pub player_index: u8,
    pub board_hash: u64,
}

/// Emitted when an attack has been resolved.
#[derive(Clone, Copy, Debug, PartialEq, Eq)]
pub struct AttackResolvedEvent {
    pub game_id: u32,
    pub attacker: Pubkey,
    pub attacked_x: u8,
    pub attacked_y: u8,
    pub hit_ciphertext: [u8; 32],
    pub remaining_ciphertext: [u8; 32],
    pub turn: u32,
}

/// Emitted when a player declares victory.
#[derive(Clone, Copy, Debug, PartialEq, Eq)]
pub struct GameEndedEvent {
    pub game_id: u32,
    pub winner: Pubkey,
    pub total_turns: u32,
}

/// Emitted when a revealed board has been checked.
#[derive(Clone, Copy, Debug, PartialEq, Eq)]
pub struct BoardRevealedEvent {
    pub game_id: u32,
    pub player_index: u8,
    pub integrity_valid: u8,
    pub initial_troop_count: u8,
}

/// The reasons an instruction is refused.
#[derive(Clone, Copy, Debug, PartialEq, Eq, Structural)]
pub enum DarkDominionError {
    GameNotOpen,
    CannotPlayYourself,
    NotAPlayer,
    WrongGameState,
    InvalidBoard,
    NotYourTurn,
    InvalidCoordinate,
    AbortedComputation,
    ClusterNotSet,
    CommitmentMismatch,
}

/// The program's error type under its conventional name.
pub type ErrorCode = DarkDominionError;

/// The message attached to each error.
pub open spec fn error_message(error: DarkDominionError) -> Seq<char> {
    match error {
        DarkDominionError::GameNotOpen => "Game is not open"@,
        DarkDominionError::CannotPlayYourself => "Cannot play yourself"@,
        DarkDominionError::NotAPlayer => "Not a player in this game"@,
        DarkDominionError::WrongGameState => "Wrong game state"@,
        DarkDominionError::InvalidBoard => "Invalid board: place exactly 5 troops"@,
        DarkDominionError::NotYourTurn => "Not your turn"@,
        DarkDominionError::InvalidCoordinate => "Invalid coordinate"@,
        DarkDominionError::AbortedComputation => "Computation aborted"@,
        DarkDominionError::ClusterNotSet => "Cluster not set"@,
        DarkDominionError::CommitmentMismatch => "Revealed hash does not match the commitment"@,
    }
}

impl DarkDominionError {
    /// The human-readable message of the error.
    pub fn message(&self) -> (text: &'static str)
        ensures
            text@ == error_message(*self),
    {
        match self {
            DarkDominionError::GameNotOpen => "Game is not open",
            DarkDominionError::CannotPlayYourself => "Cannot play yourself",
            DarkDominionError::NotAPlayer => "Not a player in this game",
            DarkDominionError::WrongGameState => "Wrong game state",
            DarkDominionError::InvalidBoard => "Invalid board: place exactly 5 troops",
            DarkDominionError::NotYourTurn => "Not your turn",
            DarkDominionError::InvalidCoordinate => "Invalid coordinate",
            DarkDominionError::AbortedComputation => "Computation aborted",
            DarkDominionError::ClusterNotSet => "Cluster not set",
            DarkDominionError::CommitmentMismatch => "Revealed hash does not match the commitment",
        }
    }
}

} // verus!
