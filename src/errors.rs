use vstd::prelude::*;

verus! {

/// Every way an operation of the game can fail. Each aborts the enclosing
/// transaction as a whole.
#[derive(Clone, Copy, Debug, PartialEq, Eq, Structural)]
pub enum TicTacToeError {
    /// The target square lies outside the 3x3 board.
    SquareOffBoard,
    /// The target square already holds a mark.
    SquareAlreadySet,
    /// The game is not in the `Active` state.
    GameNotActive,
    /// The caller is not the player whose turn it is.
    NotYourTurn,
    /// The game was already joined.
    GameAlreadyStarted,
    /// The creator of a game tried to join it as the opponent.
    SelfJoinNotAllowed,
    /// A player record for this identity already exists.
    AlreadyExists,
    /// The sequence state was already created.
    AlreadyInitialized,
    /// The requested game id is not the next id of the sequence.
    GameIdMismatch,
    /// The sequence has no further game id to hand out.
    GameIdExhausted,
    /// The caller has no player record, or the record given belongs to
    /// someone else.
    PlayerRecordMismatch,
    /// This player already claimed a reward.
    RewardAlreadyClaimed,
    /// The caller is not the winner of the game.
    NotWinner,
    /// The game has not ended with a winner.
    GameNotWon,
    /// A statistics counter is already at its largest value.
    StatOverflow,
}

} // verus!
