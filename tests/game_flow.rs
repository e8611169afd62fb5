use quick_tac_toe::errors::TicTacToeError;
use quick_tac_toe::identity::Identity;
use quick_tac_toe::instructions::{PLAY_FEE, STARTER_GRANT};
use quick_tac_toe::state::game::{Game, GameState, Sign, Square};
use quick_tac_toe::state::player::{Player, Record};
use quick_tac_toe::state::program_state::ProgramState;
use quick_tac_toe::{claim_reward, create_game, create_player, init, join_game, play};

fn alice() -> Identity {
    Identity::new([1u8; 32])
}

fn bob() -> Identity {
    Identity::new([2u8; 32])
}

fn started_game() -> (ProgramState, Game, Player, Player) {
    let mut state = init(None, 7).unwrap();
    let a = create_player(None, alice(), 1).unwrap();
    let b = create_player(None, bob(), 2).unwrap();
    let mut game = create_game(&mut state, Some(&a), alice(), 1, 3).unwrap();
    join_game(&mut game, bob()).unwrap();
    (state, game, a, b)
}

fn mv(game: &mut Game, who: &mut Player, other: &mut Player, row: u8, column: u8) -> Result<(), TicTacToeError> {
    let caller = who.auth();
    play(game, caller, &Square::new(row, column), who, other)
}

#[test]
fn initialize_starts_ids_at_one() {
    let state = init(None, 9).unwrap();
    assert_eq!(state.current_game_id, 1);
    assert_eq!(state.current_version, 1);
    assert_eq!(state.bump, 9);
    assert_eq!(init(Some(&state), 9).unwrap_err(), TicTacToeError::AlreadyInitialized);
}

#[test]
fn register_player_gives_fresh_record() {
    let a = create_player(None, alice(), 4).unwrap();
    assert_eq!(a.auth(), alice());
    assert_eq!((a.record.wins, a.record.losses, a.record.ties), (0, 0, 0));
    assert!(a.airdrop_received);
    assert!(!a.reward_claimed);
    assert_eq!(STARTER_GRANT, 10);
}

#[test]
fn register_twice_fails() {
    let a = create_player(None, alice(), 4).unwrap();
    assert_eq!(create_player(Some(&a), alice(), 4).unwrap_err(), TicTacToeError::AlreadyExists);
}

#[test]
fn create_game_takes_next_id() {
    let mut state = init(None, 0).unwrap();
    let a = create_player(None, alice(), 1).unwrap();
    let game = create_game(&mut state, Some(&a), alice(), 1, 5).unwrap();
    assert_eq!(PLAY_FEE, 1);
    assert_eq!(game.id, 1);
    assert_eq!(game.state, GameState::NotStarted);
    assert_eq!(game.player_x, alice());
    assert_eq!(game.player_o, alice());
    assert_eq!(game.turn, 0);
    assert_eq!(game.bump, 5);
    assert!(game.winner.is_none());
    assert_eq!(state.current_game_id, 2);
}

#[test]
fn ids_increase_by_one_and_same_id_fails() {
    let mut state = init(None, 0).unwrap();
    let a = create_player(None, alice(), 1).unwrap();
    let first = create_game(&mut state, Some(&a), alice(), 1, 0).unwrap();
    assert_eq!(create_game(&mut state, Some(&a), alice(), 1, 0).unwrap_err(), TicTacToeError::GameIdMismatch);
    let second = create_game(&mut state, Some(&a), alice(), 2, 0).unwrap();
    assert_eq!(first.id + 1, second.id);
    assert_eq!(state.current_game_id, 3);
}

#[test]
fn create_game_needs_player_record() {
    let mut state = init(None, 0).unwrap();
    let b = create_player(None, bob(), 1).unwrap();
    assert_eq!(create_game(&mut state, None, alice(), 1, 0).unwrap_err(), TicTacToeError::PlayerRecordMismatch);
    assert_eq!(create_game(&mut state, Some(&b), alice(), 1, 0).unwrap_err(), TicTacToeError::PlayerRecordMismatch);
    assert_eq!(state.current_game_id, 1);
}

#[test]
fn create_game_at_last_id_fails() {
    let mut state = ProgramState { current_version: 1, current_game_id: u64::MAX, bump: 0 };
    let a = create_player(None, alice(), 1).unwrap();
    assert_eq!(create_game(&mut state, Some(&a), alice(), u64::MAX, 0).unwrap_err(), TicTacToeError::GameIdExhausted);
    assert_eq!(state.current_game_id, u64::MAX);
}

#[test]
fn join_activates_game() {
    let (_, game, _, _) = started_game();
    assert_eq!(game.state, GameState::Active);
    assert_eq!(game.turn, 1);
    assert_eq!(game.player_o, bob());
    assert_eq!(game.player_x, alice());
}

#[test]
fn join_twice_or_self_join_fails() {
    let mut state = init(None, 0).unwrap();
    let a = create_player(None, alice(), 1).unwrap();
    let mut game = create_game(&mut state, Some(&a), alice(), 1, 0).unwrap();
    assert_eq!(join_game(&mut game, alice()).unwrap_err(), TicTacToeError::SelfJoinNotAllowed);
    assert_eq!(game.state, GameState::NotStarted);
    join_game(&mut game, bob()).unwrap();
    assert_eq!(join_game(&mut game, Identity::new([3u8; 32])).unwrap_err(), TicTacToeError::GameAlreadyStarted);
    assert_eq!(game.player_o, bob());
}

#[test]
fn row_win_then_single_reward() {
    let (_, mut game, mut a, mut b) = started_game();
    mv(&mut game, &mut a, &mut b, 0, 0).unwrap();
    assert_eq!(game.turn, 2);
    mv(&mut game, &mut b, &mut a, 1, 0).unwrap();
    assert_eq!(game.turn, 3);
    mv(&mut game, &mut a, &mut b, 0, 1).unwrap();
    assert_eq!(game.turn, 4);
    mv(&mut game, &mut b, &mut a, 1, 1).unwrap();
    assert_eq!(game.turn, 5);
    mv(&mut game, &mut a, &mut b, 0, 2).unwrap();
    assert_eq!(game.state, GameState::Won);
    assert_eq!(game.winner, Some(alice()));
    assert_eq!(game.turn, 5);
    assert_eq!(a.record.wins, 1);
    assert_eq!(b.record.losses, 1);
    assert_eq!(game.board[0], [Some(Sign::X), Some(Sign::X), Some(Sign::X)]);
    assert_eq!(game.board[1], [Some(Sign::O), Some(Sign::O), None]);

    assert_eq!(claim_reward(&game, bob(), &mut b).unwrap_err(), TicTacToeError::NotWinner);
    claim_reward(&game, alice(), &mut a).unwrap();
    assert!(a.reward_claimed);
    assert_eq!(claim_reward(&game, alice(), &mut a).unwrap_err(), TicTacToeError::RewardAlreadyClaimed);
}

#[test]
fn tie_sequence() {
    let (_, mut game, mut a, mut b) = started_game();
    let moves = [(0, 0), (0, 1), (0, 2), (1, 1), (1, 0), (1, 2), (2, 1), (2, 0), (2, 2)];
    for (k, (row, column)) in moves.iter().enumerate() {
        assert_eq!(game.state, GameState::Active);
        if k % 2 == 0 {
            mv(&mut game, &mut a, &mut b, *row, *column).unwrap();
        } else {
            mv(&mut game, &mut b, &mut a, *row, *column).unwrap();
        }
    }
    assert_eq!(game.state, GameState::Tie);
    assert!(game.winner.is_none());
    assert_eq!(a.record.ties, 1);
    assert_eq!(b.record.ties, 1);
    assert_eq!(a.record.wins + a.record.losses + b.record.wins + b.record.losses, 0);
}

#[test]
fn finished_game_refuses_moves() {
    let (_, mut game, mut a, mut b) = started_game();
    for (row, column, x) in [(0, 0, true), (1, 0, false), (0, 1, true), (1, 1, false), (0, 2, true)] {
        if x {
            mv(&mut game, &mut a, &mut b, row, column).unwrap();
        } else {
            mv(&mut game, &mut b, &mut a, row, column).unwrap();
        }
    }
    let before = game;
    assert_eq!(mv(&mut game, &mut b, &mut a, 2, 2).unwrap_err(), TicTacToeError::GameNotActive);
    assert_eq!(game.board, before.board);
    assert_eq!(game.state, GameState::Won);
    assert_eq!(game.turn, before.turn);
}

#[test]
fn claim_without_win_fails() {
    let (_, game, mut a, _) = started_game();
    assert_eq!(claim_reward(&game, alice(), &mut a).unwrap_err(), TicTacToeError::GameNotWon);
    assert!(!a.reward_claimed);
}

#[test]
fn move_errors() {
    let (_, mut game, mut a, mut b) = started_game();
    assert_eq!(mv(&mut game, &mut b, &mut a, 0, 0).unwrap_err(), TicTacToeError::NotYourTurn);
    assert_eq!(mv(&mut game, &mut a, &mut b, 3, 0).unwrap_err(), TicTacToeError::SquareOffBoard);
    assert_eq!(mv(&mut game, &mut a, &mut b, 0, 3).unwrap_err(), TicTacToeError::SquareOffBoard);
    mv(&mut game, &mut a, &mut b, 1, 1).unwrap();
    assert_eq!(mv(&mut game, &mut b, &mut a, 1, 1).unwrap_err(), TicTacToeError::SquareAlreadySet);
    assert_eq!(game.turn, 2);
    assert_eq!(game.board[1][1], Some(Sign::X));
    let mut stranger = create_player(None, Identity::new([9u8; 32]), 0).unwrap();
    assert_eq!(play(&mut game, bob(), &Square::new(0, 0), &mut b, &mut stranger).unwrap_err(), TicTacToeError::PlayerRecordMismatch);
}

#[test]
fn move_before_join_fails() {
    let mut state = init(None, 0).unwrap();
    let mut a = create_player(None, alice(), 1).unwrap();
    let mut a2 = a;
    let mut game = create_game(&mut state, Some(&a), alice(), 1, 0).unwrap();
    assert_eq!(play(&mut game, alice(), &Square::new(0, 0), &mut a, &mut a2).unwrap_err(), TicTacToeError::GameNotActive);
}

#[test]
fn full_win_counter_refuses_winning_move() {
    let (_, mut game, mut a, mut b) = started_game();
    a.record.wins = 255;
    mv(&mut game, &mut a, &mut b, 0, 0).unwrap();
    mv(&mut game, &mut b, &mut a, 1, 0).unwrap();
    mv(&mut game, &mut a, &mut b, 0, 1).unwrap();
    mv(&mut game, &mut b, &mut a, 1, 1).unwrap();
    let before = game;
    assert_eq!(mv(&mut game, &mut a, &mut b, 0, 2).unwrap_err(), TicTacToeError::StatOverflow);
    assert_eq!(game.board, before.board);
    assert_eq!(game.state, GameState::Active);
    assert_eq!(b.record.losses, 0);
}

#[test]
fn current_player_alternates() {
    let (_, mut game, mut a, mut b) = started_game();
    assert_eq!(game.current_player_index(), 1);
    assert_eq!(game.current_player(), alice());
    assert_eq!(game.current_player_sign(), Sign::X);
    mv(&mut game, &mut a, &mut b, 2, 2).unwrap();
    assert_eq!(game.current_player_index(), 2);
    assert_eq!(game.current_player(), bob());
    assert_eq!(game.current_player_sign(), Sign::O);
    mv(&mut game, &mut b, &mut a, 0, 0).unwrap();
    assert_eq!(game.current_player_index(), 1);
    assert!(game.is_active());
}

#[test]
fn player_counters() {
    let mut p = Player::new(alice(), 0);
    p.record_win().unwrap();
    p.record_lose().unwrap();
    p.record_tie().unwrap();
    p.record_tie().unwrap();
    assert_eq!((p.record.wins, p.record.losses, p.record.ties), (1, 1, 2));
    p.record.ties = 255;
    assert_eq!(p.record_tie().unwrap_err(), TicTacToeError::StatOverflow);
    assert_eq!(p.record.ties, 255);
    let r = Record::default();
    assert_eq!((r.wins, r.losses, r.ties), (0, 0, 0));
    p.init(bob(), 3);
    assert_eq!(p.auth(), bob());
    assert_eq!(p.record.ties, 0);
}

#[test]
fn account_sizes() {
    assert_eq!(Record::calculate_account_space(), 3);
    assert_eq!(Player::calculate_account_space(), 46);
    assert_eq!(Game::calculate_account_space(), 165);
}

#[test]
fn sequence_counters() {
    let mut s = ProgramState { current_version: 0, current_game_id: 0, bump: 0 };
    s.init(4);
    s.increment_game_id();
    s.increment_version();
    assert_eq!((s.current_version, s.current_game_id, s.bump), (2, 2, 4));
}

#[test]
fn other_player_address_is_derived_and_depends_on_player() {
    let (_, mut game, mut a, mut b) = started_game();
    let program = Identity::new([7u8; 32]);
    let at_x = game.other_player_pda(&program).unwrap();
    assert_ne!(at_x, bob());
    mv(&mut game, &mut a, &mut b, 0, 0).unwrap();
    let at_o = game.other_player_pda(&program).unwrap();
    assert_ne!(at_x, at_o);
    assert_eq!(game.other_player_pda(&program).unwrap(), at_o);
}

#[test]
fn well_formedness_of_records() {
    let (_, mut game, mut a, mut b) = started_game();
    assert!(game.is_well_formed());
    mv(&mut game, &mut a, &mut b, 0, 0).unwrap();
    assert!(game.is_well_formed());
    let mut skipped_turn = game;
    skipped_turn.turn = 5;
    assert!(!skipped_turn.is_well_formed());
    let mut self_play = game;
    self_play.player_o = alice();
    assert!(!self_play.is_well_formed());
    let mut fake_win = game;
    fake_win.state = GameState::Won;
    fake_win.winner = Some(alice());
    assert!(!fake_win.is_well_formed());
}
