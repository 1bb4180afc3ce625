use dark_dominion::computation::Circuit;
use dark_dominion::state::{DarkDominionError, ErrorCode, GameAccount, GameState, Pubkey};

#[test]
fn default_account_is_blank() {
    let game = GameAccount::default();
    assert_eq!(game.state, GameState::WaitingForPlayerB);
    assert_eq!(game.player_a, Pubkey::default());
    assert_eq!(game.player_a.bytes, [0u8; 32]);
    assert_eq!(game.turn, 0);
    assert_eq!(GameState::default(), GameState::WaitingForPlayerB);
}

#[test]
fn same_key_compares_every_byte() {
    let a = Pubkey::new_from_array([3u8; 32]);
    let mut bytes = [3u8; 32];
    assert!(a.same_key(&Pubkey::new_from_array(bytes)));
    bytes[31] = 4;
    assert!(!a.same_key(&Pubkey::new_from_array(bytes)));
    bytes[31] = 3;
    bytes[0] = 0;
    assert!(!a.same_key(&Pubkey::new_from_array(bytes)));
}

#[test]
fn error_messages() {
    assert_eq!(DarkDominionError::GameNotOpen.message(), "Game is not open");
    assert_eq!(DarkDominionError::CannotPlayYourself.message(), "Cannot play yourself");
    assert_eq!(DarkDominionError::NotAPlayer.message(), "Not a player in this game");
    assert_eq!(DarkDominionError::WrongGameState.message(), "Wrong game state");
    assert_eq!(DarkDominionError::InvalidBoard.message(), "Invalid board: place exactly 5 troops");
    assert_eq!(DarkDominionError::NotYourTurn.message(), "Not your turn");
    assert_eq!(DarkDominionError::InvalidCoordinate.message(), "Invalid coordinate");
    assert_eq!(DarkDominionError::AbortedComputation.message(), "Computation aborted");
    let code: ErrorCode = DarkDominionError::ClusterNotSet;
    assert_eq!(code.message(), "Cluster not set");
    assert_eq!(
        DarkDominionError::CommitmentMismatch.message(),
        "Revealed hash does not match the commitment"
    );
}

#[test]
fn circuit_names_and_definition_offsets() {
    assert_eq!(Circuit::CommitBoard.name(), "commit_board");
    assert_eq!(Circuit::ResolveAttack.name(), "resolve_attack");
    assert_eq!(Circuit::RevealBoard.name(), "reveal_board");
    assert_eq!(Circuit::CommitBoard.definition_offset(), 3723923198);
    assert_eq!(Circuit::ResolveAttack.definition_offset(), 758504585);
    assert_eq!(Circuit::RevealBoard.definition_offset(), 1515204174);
}
