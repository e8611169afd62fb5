use vstd::prelude::*;
use crate::address::{player_record_address, player_record_address_spec};
use crate::errors::TicTacToeError;
use crate::identity::Identity;
use crate::state::player::{Player, STAT_MAX};

verus! {

#[derive(Clone, Copy, Debug, PartialEq, Eq, Structural)]
pub enum GameState {
    NotStarted,
    Active,
    Tie,
    Won,
}

/// The mark a participant places on a cell.
#[derive(Clone, Copy, Debug, PartialEq, Eq, Structural)]
pub enum Sign {
    X,  // the creator, who moves on odd turns
    O,  // the joiner, who moves on even turns
}

/// A cell of the board, named by row and column.
#[derive(Clone, Copy, Debug)]
pub struct Square {
    pub row: u8,
    pub column: u8,
}

impl Square {
    pub fn new(row: u8, column: u8) -> (r: Square)
        ensures
            r.row == row,
            r.column == column,
    {
        Square { row, column }
    }
}

pub type Board = [[Option<Sign>; 3]; 3];

/// The board as a sequence of rows.
pub type Grid = Seq<Seq<Option<Sign>>>;

pub open spec fn grid_of(b: Board) -> Grid {
    Seq::new(3, |r: int| b[r]@)
}

pub open spec fn cell(g: Grid, r: int, c: int) -> Option<Sign> {
    g[r][c]
}

/// `g` with the mark `s` placed at row `r`, column `c`.
pub open spec fn mark(g: Grid, r: int, c: int, s: Sign) -> Grid {
    g.update(r, g[r].update(c, Some(s)))
}

/// Three cells that are all marked, all with the same mark.
pub open spec fn trio_wins(g: Grid, a: (int, int), b: (int, int), c: (int, int)) -> bool {
    &&& cell(g, a.0, a.1) is Some
    &&& cell(g, b.0, b.1) == cell(g, a.0, a.1)
    &&& cell(g, c.0, c.1) == cell(g, a.0, a.1)
}

pub open spec fn row_wins(g: Grid, i: int) -> bool {
    trio_wins(g, (i, 0), (i, 1), (i, 2))
}

pub open spec fn column_wins(g: Grid, i: int) -> bool {
    trio_wins(g, (0, i), (1, i), (2, i))
}

pub open spec fn diagonal_wins(g: Grid) -> bool {
    trio_wins(g, (0, 0), (1, 1), (2, 2)) || trio_wins(g, (0, 2), (1, 1), (2, 0))
}

/// One of the eight lines (three rows, three columns, two diagonals) is
/// uniformly marked.
pub open spec fn has_winning_line(g: Grid) -> bool {
    ||| row_wins(g, 0)
    ||| row_wins(g, 1)
    ||| row_wins(g, 2)
    ||| column_wins(g, 0)
    ||| column_wins(g, 1)
    ||| column_wins(g, 2)
    ||| diagonal_wins(g)
}

pub open spec fn is_full(g: Grid) -> bool {
    forall|r: int, c: int| 0 <= r < 3 && 0 <= c < 3 ==> (#[trigger] cell(g, r, c)) is Some
}

pub open spec fn filled(o: Option<Sign>) -> int {
    if o is Some {
        1
    } else {
        0
    }
}

pub open spec fn filled_in_row(g: Grid, r: int) -> int {
    filled(cell(g, r, 0)) + filled(cell(g, r, 1)) + filled(cell(g, r, 2))
}

/// How many of the nine cells hold a mark.
pub open spec fn filled_count(g: Grid) -> int {
    filled_in_row(g, 0) + filled_in_row(g, 1) + filled_in_row(g, 2)
}

/// Every mark of `before` stands unchanged in `after`.
pub open spec fn board_extends(before: Grid, after: Grid) -> bool {
    forall|r: int, c: int|
        0 <= r < 3 && 0 <= c < 3 && (#[trigger] cell(before, r, c)) is Some ==> cell(after, r, c)
            == cell(before, r, c)
}

/// The state a game reaches once its board is `g`, starting from `Active`.
pub open spec fn outcome(g: Grid) -> GameState {
    if has_winning_line(g) {
        GameState::Won
    } else if is_full(g) {
        GameState::Tie
    } else {
        GameState::Active
    }
}

/// 1 on odd turns (the creator's), 2 on even turns (the joiner's).
pub open spec fn player_index_of(turn: int) -> int {
    ((turn - 1) % 2) + 1
}

/// Marking a free cell fills exactly one more cell and keeps every other mark.
proof fn lemma_mark_free_cell(g: Grid, r: int, c: int, s: Sign)
    requires
        g.len() == 3,
        forall|i: int| 0 <= i < 3 ==> (#[trigger] g[i]).len() == 3,
        0 <= r < 3,
        0 <= c < 3,
        cell(g, r, c) is None,
    ensures
        filled_count(mark(g, r, c, s)) == filled_count(g) + 1,
        board_extends(g, mark(g, r, c, s)),
{
    let m = mark(g, r, c, s);
    assert(g[r].len() == 3);
    if r == 0 {
        assert(filled_in_row(m, 1) == filled_in_row(g, 1));
        assert(filled_in_row(m, 2) == filled_in_row(g, 2));
    } else if r == 1 {
        assert(filled_in_row(m, 0) == filled_in_row(g, 0));
        assert(filled_in_row(m, 2) == filled_in_row(g, 2));
    } else {
        assert(filled_in_row(m, 0) == filled_in_row(g, 0));
        assert(filled_in_row(m, 1) == filled_in_row(g, 1));
    }
}

fn same_mark(a: Option<Sign>, b: Option<Sign>) -> (r: bool)
    ensures
        r == (a == b),
{
    match (a, b) {
        (None, None) => true,
        (Some(x), Some(y)) => x == y,
        _ => false,
    }
}

/// The persistent record of one game.
#[derive(Clone, Copy, Debug)]
pub struct Game {
    pub id: u64,
    pub player_x: Identity,
    /// Equal to `player_x` until a second participant joins.
    pub player_o: Identity,
    pub board: Board,
    pub state: GameState,
    /// 1-based move counter while the game runs; 0 before it starts.
    pub turn: u8,
    pub bump: u8,
    pub winner: Option<Identity>,
}

impl Game {
    pub open spec fn grid(&self) -> Grid {
        grid_of(self.board)
    }

    pub open spec fn current_player_spec(&self) -> Identity {
        if player_index_of(self.turn as int) == 1 {
            self.player_x
        } else {
            self.player_o
        }
    }

    pub open spec fn current_sign_spec(&self) -> Sign {
        if self.current_player_spec() == self.player_x {
            Sign::X
        } else {
            Sign::O
        }
    }

    pub open spec fn other_player_spec(&self) -> Identity {
        if player_index_of(self.turn as int) == 1 {
            self.player_o
        } else {
            self.player_x
        }
    }

    /// What holds of a game in each state: the turn counts the marks, a
    /// running game has no completed line and a free cell, and a winner is
    /// recorded exactly when the game is won.
    pub open spec fn wf(&self) -> bool {
        match self.state {
            GameState::NotStarted => {
                &&& self.turn == 0
                &&& filled_count(self.grid()) == 0
                &&& self.player_o == self.player_x
                &&& self.winner is None
            },
            GameState::Active => {
                &&& self.player_x != self.player_o
                &&& self.turn >= 1
                &&& self.turn == filled_count(self.grid()) + 1
                &&& !has_winning_line(self.grid())
                &&& !is_full(self.grid())
                &&& self.winner is None
            },
            GameState::Tie => {
                &&& self.player_x != self.player_o
                &&& is_full(self.grid())
                &&& !has_winning_line(self.grid())
                &&& self.winner is None
            },
            GameState::Won => {
                &&& self.player_x != self.player_o
                &&& has_winning_line(self.grid())
                &&& (self.winner == Some(self.player_x) || self.winner == Some(self.player_o))
            },
        }
    }

    /// Bytes taken by a stored game record, its 8-byte tag included.
    pub fn calculate_account_space() -> (r: usize)
        ensures
            r == 8 + 8 + 32 + 32 + 18 + 33 + 1 + 1 + 32,
    {
        8 +     // discriminator
        8 +     // id
        32 +    // player_x
        32 +    // player_o
        18 +    // board
        33 +    // game state
        1 +     // turn
        1 +     // bump
        32      // winner
    }

    /// Makes this record a new, unjoined game `id` created by `player_x`.
    pub fn create(&mut self, player_x: Identity, bump: u8, id: u64)
        ensures
            final(self).wf(),
            final(self).id == id,
            final(self).player_x == player_x,
            final(self).player_o == player_x,
            forall|r: int, c: int|
                0 <= r < 3 && 0 <= c < 3 ==> (#[trigger] cell(final(self).grid(), r, c)) is None,
            final(self).state == GameState::NotStarted,
            final(self).turn == 0,
            final(self).bump == bump,
            final(self).winner is None,
    {
        self.id = id;
        self.player_x = player_x;
        self.player_o = player_x;  // placeholder until someone joins
        self.board = [[None, None, None], [None, None, None], [None, None, None]];
        self.state = GameState::NotStarted;
        self.turn = 0;
        self.bump = bump;
        self.winner = None;
    }

    /// Lets `player_o` join: the game becomes active at turn 1. Fails if the
    /// game was joined before, or if the creator tries to join it.
    pub fn start(&mut self, player_o: Identity) -> (r: Result<(), TicTacToeError>)
        requires
            old(self).wf(),
        ensures
            final(self).wf(),
            old(self).state != GameState::NotStarted ==> r == Err::<(), _>(
                TicTacToeError::GameAlreadyStarted,
            ),
            old(self).state == GameState::NotStarted && player_o == old(self).player_x ==> r
                == Err::<(), _>(TicTacToeError::SelfJoinNotAllowed),
            old(self).state == GameState::NotStarted && player_o != old(self).player_x ==> r is Ok,
            r is Err ==> *final(self) == *old(self),
            r is Ok ==> *final(self) == (Game {
                player_o,
                state: GameState::Active,
                turn: 1,
                ..*old(self)
            }),
    {
        if self.state != GameState::NotStarted {
            return Err(TicTacToeError::GameAlreadyStarted);
        }
        if player_o == self.player_x {
            return Err(TicTacToeError::SelfJoinNotAllowed);
        }
        self.player_o = player_o;
        self.state = GameState::Active;
        self.turn = 1;
        Ok(())
    }

    pub fn is_active(&self) -> (r: bool)
        ensures
            r == (self.state == GameState::Active),
    {
        self.state == GameState::Active
    }

    pub fn current_player_index(&self) -> (r: u8)
        requires
            self.turn >= 1,
        ensures
            r == player_index_of(self.turn as int),
    {
        ((self.turn - 1) % 2) + 1
    }

    /// The identity whose turn it is.
    pub fn current_player(&self) -> (r: Identity)
        requires
            self.turn >= 1,
        ensures
            r == self.current_player_spec(),
    {
        if self.current_player_index() == 1 {
            self.player_x
        } else {
            self.player_o
        }
    }

    /// The mark of the player whose turn it is.
    pub fn current_player_sign(&self) -> (r: Sign)
        requires
            self.turn >= 1,
        ensures
            r == self.current_sign_spec(),
    {
        if self.current_player() == self.player_x {
            Sign::X
        } else {
            Sign::O
        }
    }

    /// The address of the player record of the participant who is not to
    /// move, under the program `program_id`; `None` when no address can be
    /// derived.
    pub fn other_player_pda(&self, program_id: &Identity) -> (r: Option<Identity>)
        requires
            self.turn >= 1,
        ensures
            match r {
                Some(address) => player_record_address_spec(self.other_player_spec(), *program_id)
                    == Some(address.bytes@),
                None => player_record_address_spec(self.other_player_spec(), *program_id) is None,
            },
    {
        let other_player = if self.current_player_index() == 1 {
            self.player_o
        } else {
            self.player_x
        };
        player_record_address(&other_player, program_id)
    }

    /// The board after the player to move marks `square`.
    pub open spec fn board_after(&self, square: Square) -> Grid {
        mark(self.grid(), square.row as int, square.column as int, self.current_sign_spec())
    }

    /// Why `play` refuses `square` with these two records, or `None` when the
    /// move is accepted: the game must be running, the square on the board
    /// and free, and the counters that the outcome raises below their limit.
    pub open spec fn play_error(&self, square: Square, player: Player, other: Player) -> Option<
        TicTacToeError,
    > {
        if self.state != GameState::Active {
            Some(TicTacToeError::GameNotActive)
        } else if square.row > 2 || square.column > 2 {
            Some(TicTacToeError::SquareOffBoard)
        } else if cell(self.grid(), square.row as int, square.column as int) is Some {
            Some(TicTacToeError::SquareAlreadySet)
        } else if outcome(self.board_after(square)) == GameState::Won && (player.record.wins
            == STAT_MAX || other.record.losses == STAT_MAX) {
            Some(TicTacToeError::StatOverflow)
        } else if outcome(self.board_after(square)) == GameState::Tie && (player.record.ties
            == STAT_MAX || other.record.ties == STAT_MAX) {
            Some(TicTacToeError::StatOverflow)
        } else {
            None
        }
    }

    /// How a move on `square` relates this game and the two records before it
    /// to `after` and the records after it, given what `play` returned: on an
    /// error nothing changes; otherwise the mark is placed and the outcome
    /// settled, the winner being the player who moved.
    pub open spec fn played(
        self,
        after: Game,
        square: Square,
        player: Player,
        other: Player,
        player_after: Player,
        other_after: Player,
        r: Result<(), TicTacToeError>,
    ) -> bool {
        match self.play_error(square, player, other) {
            Some(e) => {
                &&& r == Err::<(), _>(e)
                &&& after == self
                &&& player_after == player
                &&& other_after == other
            },
            None => {
                &&& r is Ok
                &&& after.grid() == self.board_after(square)
                &&& after.state == outcome(self.board_after(square))
                &&& after.id == self.id
                &&& after.player_x == self.player_x
                &&& after.player_o == self.player_o
                &&& after.bump == self.bump
                &&& after.state == GameState::Won ==> {
                    &&& after.winner == Some(self.current_player_spec())
                    &&& after.turn == self.turn
                    &&& player_after == player.after_win()
                    &&& other_after == other.after_loss()
                }
                &&& after.state == GameState::Tie ==> {
                    &&& after.winner is None
                    &&& after.turn == self.turn
                    &&& player_after == player.after_tie()
                    &&& other_after == other.after_tie()
                }
                &&& after.state == GameState::Active ==> {
                    &&& after.winner is None
                    &&& after.turn == self.turn + 1
                    &&& player_after == player
                    &&& other_after == other
                }
            },
        }
    }

    /// Places the mark of the player to move on `square` and settles the
    /// game: on a completed line the mover wins (`player_record` counts a
    /// win, `other_player_record` a loss), on a full board both count a tie,
    /// otherwise the turn passes. On any error nothing changes.
    pub fn play(
        &mut self,
        square: &Square,
        player_record: &mut Player,
        other_player_record: &mut Player,
    ) -> (r: Result<(), TicTacToeError>)
        requires
            old(self).wf(),
        ensures
            final(self).wf(),
            board_extends(old(self).grid(), final(self).grid()),
            old(self).played(
                *final(self),
                *square,
                *old(player_record),
                *old(other_player_record),
                *final(player_record),
                *final(other_player_record),
                r,
            ),
    {
        if self.state != GameState::Active {
            return Err(TicTacToeError::GameNotActive);
        }
        if square.row > 2 || square.column > 2 {
            return Err(TicTacToeError::SquareOffBoard);
        }
        let row = square.row as usize;
        let column = square.column as usize;
        if self.board[row][column].is_some() {
            return Err(TicTacToeError::SquareAlreadySet);
        }
        let sign = self.current_player_sign();
        let saved = *self;
        let mut line = self.board[row];
        line[column] = Some(sign);
        self.board[row] = line;
        assert(self.grid() =~~= saved.board_after(*square));
        proof {
            lemma_mark_free_cell(saved.grid(), row as int, column as int, sign);
        }

        // Check for Win & Tie.
        self.update_state();

        // Update Record.
        if self.state == GameState::Won {
            if player_record.record.wins == STAT_MAX || other_player_record.record.losses
                == STAT_MAX {
                *self = saved;
                return Err(TicTacToeError::StatOverflow);
            }
            let _ = player_record.record_win();
            let _ = other_player_record.record_lose();
        } else if self.state == GameState::Tie {
            if player_record.record.ties == STAT_MAX || other_player_record.record.ties
                == STAT_MAX {
                *self = saved;
                return Err(TicTacToeError::StatOverflow);
            }
            let _ = player_record.record_tie();
            let _ = other_player_record.record_tie();
        } else {
            self.turn = self.turn + 1;
        }
        Ok(())
    }

    fn is_winning_trio(&self, first: (usize, usize), second: (usize, usize), third: (usize, usize)) -> (r: bool)
        requires
            first.0 < 3 && first.1 < 3,
            second.0 < 3 && second.1 < 3,
            third.0 < 3 && third.1 < 3,
        ensures
            r == trio_wins(
                self.grid(),
                (first.0 as int, first.1 as int),
                (second.0 as int, second.1 as int),
                (third.0 as int, third.1 as int),
            ),
    {
        let a = self.board[first.0][first.1];
        a.is_some() && same_mark(a, self.board[second.0][second.1]) && same_mark(
            a,
            self.board[third.0][third.1],
        )
    }

    fn filled_at(&self, r: usize, c: usize) -> (n: u8)
        requires
            r < 3 && c < 3,
        ensures
            n == filled(cell(self.grid(), r as int, c as int)),
    {
        if self.board[r][c].is_some() {
            1
        } else {
            0
        }
    }

    fn count_filled(&self) -> (n: u8)
        ensures
            n == filled_count(self.grid()),
    {
        self.filled_at(0, 0) + self.filled_at(0, 1) + self.filled_at(0, 2) + self.filled_at(1, 0)
            + self.filled_at(1, 1) + self.filled_at(1, 2) + self.filled_at(2, 0) + self.filled_at(2, 1)
            + self.filled_at(2, 2)
    }

    fn has_line(&self) -> (r: bool)
        ensures
            r == has_winning_line(self.grid()),
    {
        self.is_winning_trio((0, 0), (0, 1), (0, 2)) || self.is_winning_trio((1, 0), (1, 1), (1, 2))
            || self.is_winning_trio((2, 0), (2, 1), (2, 2)) || self.is_winning_trio(
            (0, 0),
            (1, 0),
            (2, 0),
        ) || self.is_winning_trio((0, 1), (1, 1), (2, 1)) || self.is_winning_trio(
            (0, 2),
            (1, 2),
            (2, 2),
        ) || self.is_winning_trio((0, 0), (1, 1), (2, 2)) || self.is_winning_trio(
            (0, 2),
            (1, 1),
            (2, 0),
        )
    }

    /// Whether this record is one that the operations of the game can
    /// produce; a record loaded from storage is checked with it before use.
    pub fn is_well_formed(&self) -> (r: bool)
        ensures
            r == self.wf(),
    {
        let count = self.count_filled();
        let won = self.has_line();
        let full = count == 9;
        assert(full == is_full(self.grid())) by {
            if count == 9 {
                assert forall|r: int, c: int| 0 <= r < 3 && 0 <= c < 3 implies (#[trigger] cell(
                    self.grid(),
                    r,
                    c,
                )) is Some by {
                    if r == 0 {
                        assert(c == 0 || c == 1 || c == 2);
                    } else if r == 1 {
                        assert(c == 0 || c == 1 || c == 2);
                    } else {
                        assert(c == 0 || c == 1 || c == 2);
                    }
                }
            }
        }
        let two_players = self.player_x != self.player_o;
        match self.state {
            GameState::NotStarted => self.turn == 0 && count == 0 && !two_players
                && self.winner.is_none(),
            GameState::Active => two_players && self.turn >= 1 && self.turn as u16 == count as u16
                + 1 && !won && !full && self.winner.is_none(),
            GameState::Tie => two_players && full && !won && self.winner.is_none(),
            GameState::Won => two_players && won && match self.winner {
                Some(w) => w == self.player_x || w == self.player_o,
                None => false,
            },
        }
    }

    /// Settles the game after a mark was placed: won if a line is complete
    /// (the winner is the player who just moved), tied if the board is full,
    /// otherwise still running.
    fn update_state(&mut self)
        requires
            old(self).state == GameState::Active,
            old(self).turn >= 1,
        ensures
            final(self).state == outcome(old(self).grid()),
            final(self).winner == (if has_winning_line(old(self).grid()) {
                Some(old(self).current_player_spec())
            } else {
                old(self).winner
            }),
            final(self).board == old(self).board,
            final(self).turn == old(self).turn,
            final(self).id == old(self).id,
            final(self).player_x == old(self).player_x,
            final(self).player_o == old(self).player_o,
            final(self).bump == old(self).bump,
    {
        let mover = self.current_player();
        let mut i: usize = 0;
        while i < 3
            invariant
                0 <= i <= 3,
                *self == *old(self),
                mover == old(self).current_player_spec(),
                forall|k: int| 0 <= k < i ==> !(#[trigger] row_wins(self.grid(), k)),
                forall|k: int| 0 <= k < i ==> !(#[trigger] column_wins(self.grid(), k)),
            decreases 3 - i,
        {
            // three of the same in one row
            if self.is_winning_trio((i, 0), (i, 1), (i, 2)) {
                self.state = GameState::Won;
                self.winner = Some(mover);
                return;
            }
            // three of the same in one column
            if self.is_winning_trio((0, i), (1, i), (2, i)) {
                self.state = GameState::Won;
                self.winner = Some(mover);
                return;
            }
            i = i + 1;
        }
        // three of the same in one diagonal
        if self.is_winning_trio((0, 0), (1, 1), (2, 2)) || self.is_winning_trio(
            (0, 2),
            (1, 1),
            (2, 0),
        ) {
            self.state = GameState::Won;
            self.winner = Some(mover);
            return;
        }
        assert(!has_winning_line(self.grid())) by {
            assert(!row_wins(self.grid(), 0) && !row_wins(self.grid(), 1) && !row_wins(self.grid(), 2));
            assert(!column_wins(self.grid(), 0) && !column_wins(self.grid(), 1) && !column_wins(self.grid(), 2));
        }
        // no line is complete: the game goes on while a cell is free
        let mut row: usize = 0;
        while row < 3
            invariant
                0 <= row <= 3,
                *self == *old(self),
                self.state == GameState::Active,
                !has_winning_line(self.grid()),
                forall|r: int, c: int|
                    0 <= r < row && 0 <= c < 3 ==> (#[trigger] cell(self.grid(), r, c)) is Some,
            decreases 3 - row,
        {
            let mut column: usize = 0;
            while column < 3
                invariant
                    0 <= row < 3,
                    0 <= column <= 3,
                    *self == *old(self),
                    self.state == GameState::Active,
                    !has_winning_line(self.grid()),
                    forall|r: int, c: int|
                        0 <= r < row && 0 <= c < 3 ==> (#[trigger] cell(self.grid(), r, c)) is Some,
                    forall|c: int| 0 <= c < column ==> (#[trigger] cell(self.grid(), row as int, c)) is Some,
                decreases 3 - column,
            {
                if self.board[row][column].is_none() {
                    assert(cell(self.grid(), row as int, column as int) is None);
                    return;
                }
                column = column + 1;
            }
            row = row + 1;
        }
        // no line is complete and no cell is free
        self.state = GameState::Tie;
    }
}

} // verus!
