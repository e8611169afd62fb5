use vstd::prelude::*;
use crate::errors::TicTacToeError;
use crate::identity::Identity;
use crate::instructions::{
    after_allocation, claim_error, create_game_error, create_player_result, registered,
};
use crate::state::game::{
    has_winning_line, is_full, outcome, player_index_of, Game, GameState, Grid, Square,
};
use crate::state::player::Player;
use crate::state::program_state::ProgramState;

verus! {

/// Registering the same identity a second time, over the record that the
/// first registration stored, fails with `AlreadyExists`.
pub proof fn lemma_register_once(player: Identity, bump: u8, second_bump: u8)
    ensures
        create_player_result(None, player, bump) == Ok::<_, TicTacToeError>(registered(player, bump)),
        create_player_result(Some(registered(player, bump)), player, second_bump) == Err::<
            Player,
            _,
        >(TicTacToeError::AlreadyExists),
{
}

/// Each successful game creation hands out the sequence's next id and moves
/// the sequence on by exactly one, so a later creation gets the following id
/// and a second request for the same id fails: of two creations that ask for
/// one id, only the first succeeds.
pub proof fn lemma_ids_increase(
    program_state: ProgramState,
    player_record: Player,
    caller: Identity,
    game_id: u64,
)
    requires
        create_game_error(program_state, Some(player_record), caller, game_id) is None,
    ensures
        game_id == program_state.current_game_id,
        after_allocation(program_state).current_game_id == game_id + 1,
        create_game_error(after_allocation(program_state), Some(player_record), caller, game_id)
            == Some(TicTacToeError::GameIdMismatch),
{
}

/// The player to move alternates with each turn, starting with the creator
/// at turn 1: in a running game the creator moves exactly on odd turns.
pub proof fn lemma_turn_alternation(game: Game)
    requires
        game.wf(),
        game.state == GameState::Active,
    ensures
        player_index_of(1) == 1,
        player_index_of(game.turn as int) == 1 || player_index_of(game.turn as int) == 2,
        player_index_of(game.turn as int + 1) != player_index_of(game.turn as int),
        (game.current_player_spec() == game.player_x) <==> (game.turn % 2 == 1),
{
}

/// A move ends the game in a tie exactly when it fills the board without
/// completing a line.
pub proof fn lemma_tie_exact(board: Grid)
    ensures
        (outcome(board) == GameState::Tie) <==> (is_full(board) && !has_winning_line(board)),
        (outcome(board) == GameState::Won) <==> has_winning_line(board),
{
}

/// A finished game refuses every further move with `GameNotActive`.
pub proof fn lemma_finished_game_is_frozen(game: Game, square: Square, player: Player, other: Player)
    requires
        game.state == GameState::Won || game.state == GameState::Tie,
    ensures
        game.play_error(square, player, other) == Some(TicTacToeError::GameNotActive),
{
}

/// After a successful claim, a second claim by the same player fails with
/// `RewardAlreadyClaimed`, for this game and any other.
pub proof fn lemma_reward_once(game: Game, other_game: Game, caller: Identity, player_record: Player)
    requires
        claim_error(game, caller, player_record) is None,
        other_game.state == GameState::Won,
        other_game.winner == Some(caller),
    ensures
        claim_error(game, caller, Player { reward_claimed: true, ..player_record }) == Some(
            TicTacToeError::RewardAlreadyClaimed,
        ),
        claim_error(other_game, caller, Player { reward_claimed: true, ..player_record }) == Some(
            TicTacToeError::RewardAlreadyClaimed,
        ),
{
}

} // verus!
