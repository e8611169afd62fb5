use vstd::prelude::*;
use crate::errors::TicTacToeError;
use crate::identity::Identity;
use crate::state::game::{cell, board_extends, Game, GameState, Square};
use crate::state::player::{Player, Record};
use crate::state::program_state::ProgramState;

verus! {

/// Tokens granted to a newly registered player.
pub const STARTER_GRANT: u64 = 10;

/// Tokens burned from the creator of a game.
pub const PLAY_FEE: u64 = 1;

pub open spec fn some_of<T>(o: Option<&T>) -> Option<T> {
    match o {
        Some(t) => Some(*t),
        None => None,
    }
}

/// Creates the sequence state, whose first game id is 1. Fails if it exists
/// already.
pub fn init(existing: Option<&ProgramState>, bump: u8) -> (r: Result<ProgramState, TicTacToeError>)
    ensures
        existing is Some ==> r == Err::<ProgramState, _>(TicTacToeError::AlreadyInitialized),
        existing is None ==> r == Ok::<_, TicTacToeError>(
            ProgramState { current_version: 1, current_game_id: 1, bump },
        ),
{
    if existing.is_some() {
        return Err(TicTacToeError::AlreadyInitialized);
    }
    let mut program_state = ProgramState { current_version: 0, current_game_id: 0, bump: 0 };
    program_state.init(bump);
    Ok(program_state)
}

/// The record that registering `player` yields: zero counters, the starter
/// grant marked as received, no reward claimed.
pub open spec fn registered(player: Identity, bump: u8) -> Player {
    Player {
        auth: player,
        record: Record { wins: 0, losses: 0, ties: 0 },
        airdrop_received: true,
        reward_claimed: false,
        bump,
    }
}

pub open spec fn create_player_result(existing: Option<Player>, player: Identity, bump: u8) -> Result<
    Player,
    TicTacToeError,
> {
    if existing is Some {
        Err(TicTacToeError::AlreadyExists)
    } else {
        Ok(registered(player, bump))
    }
}

/// Registers `player`, whose starter grant of `STARTER_GRANT` tokens is
/// minted alongside. `existing` is the record already stored for `player`,
/// if any: then registration fails.
pub fn create_player(existing: Option<&Player>, player: Identity, bump: u8) -> (r: Result<
    Player,
    TicTacToeError,
>)
    ensures
        r == create_player_result(some_of(existing), player, bump),
{
    if existing.is_some() {
        return Err(TicTacToeError::AlreadyExists);
    }
    let mut new_player = Player::new(player, bump);
    new_player.airdrop_received = true;
    Ok(new_player)
}

/// Why creating a game fails, or `None` when it succeeds: the caller must
/// have a player record, ask for the next id of the sequence, and that id
/// must have a successor.
pub open spec fn create_game_error(
    program_state: ProgramState,
    player_record: Option<Player>,
    caller: Identity,
    game_id: u64,
) -> Option<TicTacToeError> {
    if player_record is None || player_record->Some_0.auth != caller {
        Some(TicTacToeError::PlayerRecordMismatch)
    } else if game_id != program_state.current_game_id {
        Some(TicTacToeError::GameIdMismatch)
    } else if program_state.current_game_id == u64::MAX {
        Some(TicTacToeError::GameIdExhausted)
    } else {
        None
    }
}

/// The sequence once a game took its next id.
pub open spec fn after_allocation(program_state: ProgramState) -> ProgramState {
    ProgramState { current_game_id: (program_state.current_game_id + 1) as u64, ..program_state }
}

/// A game just created by `creator` under `id`: unjoined, empty board.
pub open spec fn is_new_game(game: Game, creator: Identity, bump: u8, id: u64) -> bool {
    &&& game.wf()
    &&& game.id == id
    &&& game.player_x == creator
    &&& game.player_o == creator
    &&& forall|r: int, c: int| 0 <= r < 3 && 0 <= c < 3 ==> (#[trigger] cell(game.grid(), r, c)) is None
    &&& game.state == GameState::NotStarted
    &&& game.turn == 0
    &&& game.bump == bump
    &&& game.winner is None
}

/// Creates game `game_id` for `caller`, whose entry fee of `PLAY_FEE` is
/// burned alongside: the game takes the next id of the sequence, which moves
/// on by one.
pub fn create_game(
    program_state: &mut ProgramState,
    player_record: Option<&Player>,
    caller: Identity,
    game_id: u64,
    bump: u8,
) -> (r: Result<Game, TicTacToeError>)
    ensures
        match create_game_error(*old(program_state), some_of(player_record), caller, game_id) {
            Some(e) => r == Err::<Game, _>(e) && *final(program_state) == *old(program_state),
            None => {
                &&& r is Ok
                &&& is_new_game(r->Ok_0, caller, bump, old(program_state).current_game_id)
                &&& *final(program_state) == after_allocation(*old(program_state))
            },
        },
{
    match player_record {
        None => {
            return Err(TicTacToeError::PlayerRecordMismatch);
        },
        Some(record) => {
            if record.auth != caller {
                return Err(TicTacToeError::PlayerRecordMismatch);
            }
        },
    }
    if game_id != program_state.current_game_id {
        return Err(TicTacToeError::GameIdMismatch);
    }
    if program_state.current_game_id == u64::MAX {
        return Err(TicTacToeError::GameIdExhausted);
    }
    let mut game = Game {
        id: 0,
        player_x: caller,
        player_o: caller,
        board: [[None, None, None], [None, None, None], [None, None, None]],
        state: GameState::NotStarted,
        turn: 0,
        bump: 0,
        winner: None,
    };
    game.create(caller, bump, program_state.current_game_id);
    program_state.increment_game_id();
    Ok(game)
}

/// `joiner` joins `game` as its second player.
pub fn join_game(game: &mut Game, joiner: Identity) -> (r: Result<(), TicTacToeError>)
    requires
        old(game).wf(),
    ensures
        final(game).wf(),
        old(game).state != GameState::NotStarted ==> r == Err::<(), _>(
            TicTacToeError::GameAlreadyStarted,
        ),
        old(game).state == GameState::NotStarted && joiner == old(game).player_x ==> r == Err::<
            (),
            _,
        >(TicTacToeError::SelfJoinNotAllowed),
        old(game).state == GameState::NotStarted && joiner != old(game).player_x ==> r is Ok,
        r is Err ==> *final(game) == *old(game),
        r is Ok ==> *final(game) == (Game {
            player_o: joiner,
            state: GameState::Active,
            turn: 1,
            ..*old(game)
        }),
{
    game.start(joiner)
}

/// Why `caller` may not move in `game` with these records, before the move
/// itself is judged: the game must run, it must be the caller's turn, and
/// the records must be the caller's and the opponent's.
pub open spec fn turn_error(game: Game, caller: Identity, player_record: Player, other_player_record: Player) -> Option<
    TicTacToeError,
> {
    if game.state != GameState::Active {
        Some(TicTacToeError::GameNotActive)
    } else if caller != game.current_player_spec() {
        Some(TicTacToeError::NotYourTurn)
    } else if player_record.auth != caller || other_player_record.auth
        != game.other_player_spec() {
        Some(TicTacToeError::PlayerRecordMismatch)
    } else {
        None
    }
}

/// `caller` marks `square` in `game`; the two records are the caller's and
/// the opponent's, and take the outcome of the move.
pub fn play(
    game: &mut Game,
    caller: Identity,
    square: &Square,
    player_record: &mut Player,
    other_player_record: &mut Player,
) -> (r: Result<(), TicTacToeError>)
    requires
        old(game).wf(),
    ensures
        final(game).wf(),
        board_extends(old(game).grid(), final(game).grid()),
        match turn_error(*old(game), caller, *old(player_record), *old(other_player_record)) {
            Some(e) => {
                &&& r == Err::<(), _>(e)
                &&& *final(game) == *old(game)
                &&& *final(player_record) == *old(player_record)
                &&& *final(other_player_record) == *old(other_player_record)
            },
            None => old(game).played(
                *final(game),
                *square,
                *old(player_record),
                *old(other_player_record),
                *final(player_record),
                *final(other_player_record),
                r,
            ),
        },
        r is Ok && final(game).state == GameState::Won ==> final(game).winner == Some(caller),
{
    if !game.is_active() {
        return Err(TicTacToeError::GameNotActive);
    }
    let mover = game.current_player();
    if caller != mover {
        return Err(TicTacToeError::NotYourTurn);
    }
    let other = if game.current_player_index() == 1 {
        game.player_o
    } else {
        game.player_x
    };
    if player_record.auth != caller || other_player_record.auth != other {
        return Err(TicTacToeError::PlayerRecordMismatch);
    }
    game.play(square, player_record, other_player_record)
}

/// Why `caller` may not claim a reward for `game`, or `None` when the claim
/// succeeds: the game must be won, by the caller, whose record it is and who
/// has not claimed a reward before.
pub open spec fn claim_error(game: Game, caller: Identity, player_record: Player) -> Option<TicTacToeError> {
    if game.state != GameState::Won {
        Some(TicTacToeError::GameNotWon)
    } else if game.winner != Some(caller) {
        Some(TicTacToeError::NotWinner)
    } else if player_record.auth != caller {
        Some(TicTacToeError::PlayerRecordMismatch)
    } else if player_record.reward_claimed {
        Some(TicTacToeError::RewardAlreadyClaimed)
    } else {
        None
    }
}

/// The winner `caller` claims the reward of `game`, minted alongside; a
/// player may claim one reward only, over all games.
pub fn claim_reward(game: &Game, caller: Identity, player_record: &mut Player) -> (r: Result<
    (),
    TicTacToeError,
>)
    ensures
        match claim_error(*game, caller, *old(player_record)) {
            Some(e) => r == Err::<(), _>(e) && *final(player_record) == *old(player_record),
            None => r is Ok && *final(player_record) == (Player {
                reward_claimed: true,
                ..*old(player_record)
            }),
        },
{
    if game.state != GameState::Won {
        return Err(TicTacToeError::GameNotWon);
    }
    match game.winner {
        Some(winner) => {
            if winner != caller {
                return Err(TicTacToeError::NotWinner);
            }
        },
        None => {
            return Err(TicTacToeError::NotWinner);
        },
    }
    if player_record.auth != caller {
        return Err(TicTacToeError::PlayerRecordMismatch);
    }
    player_record.claim_reward()
}

} // verus!
