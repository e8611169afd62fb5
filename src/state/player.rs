use vstd::prelude::*;
use crate::errors::TicTacToeError;
use crate::identity::Identity;

verus! {

/// The largest value a statistics counter can hold.
pub const STAT_MAX: u8 = 255;

/// A player's tally of finished games.
#[derive(Clone, Copy, Debug)]
pub struct Record {
    pub wins: u8,
    pub losses: u8,
    pub ties: u8,
}

impl Record {
    /// Bytes taken by a stored record: one per counter.
    pub fn calculate_account_space() -> (r: usize)
        ensures
            r == 3,
    {
        1 + // wins
        1 + // losses
        1 // ties
    }

    pub fn default() -> (r: Record)
        ensures
            r.wins == 0,
            r.losses == 0,
            r.ties == 0,
    {
        Record { wins: 0, losses: 0, ties: 0 }
    }
}

/// The persistent statistics record of one participant.
#[derive(Clone, Copy, Debug)]
pub struct Player {
    pub auth: Identity,
    pub record: Record,
    pub airdrop_received: bool,
    pub reward_claimed: bool,
    pub bump: u8,
}

impl Player {
    /// Bytes taken by a stored player record, its 8-byte tag included.
    pub fn calculate_account_space() -> (r: usize)
        ensures
            r == 8 + 32 + 3 + 1 + 1 + 1,
    {
        8 +                                     // discriminator
        32 +                                    // key
        Record::calculate_account_space() +     // record
        1 +                                     // airdrop received
        1 +                                     // reward_claimed
        1                                       // bump
    }

    /// A fresh record for `player`: all counters zero, both flags unset.
    pub fn new(player: Identity, bump: u8) -> (r: Player)
        ensures
            r.auth == player,
            r.record == (Record { wins: 0, losses: 0, ties: 0 }),
            !r.airdrop_received,
            !r.reward_claimed,
            r.bump == bump,
    {
        Player {
            auth: player,
            record: Record::default(),
            airdrop_received: false,
            reward_claimed: false,
            bump,
        }
    }

    /// Resets this record to a fresh one for `player`.
    pub fn init(&mut self, player: Identity, bump: u8)
        ensures
            *final(self) == (Player::new_spec(player, bump)),
    {
        *self = Player::new(player, bump);
    }

    pub open spec fn new_spec(player: Identity, bump: u8) -> Player {
        Player {
            auth: player,
            record: Record { wins: 0, losses: 0, ties: 0 },
            airdrop_received: false,
            reward_claimed: false,
            bump,
        }
    }

    pub open spec fn after_win(self) -> Player {
        Player { record: Record { wins: (self.record.wins + 1) as u8, ..self.record }, ..self }
    }

    pub open spec fn after_loss(self) -> Player {
        Player { record: Record { losses: (self.record.losses + 1) as u8, ..self.record }, ..self }
    }

    pub open spec fn after_tie(self) -> Player {
        Player { record: Record { ties: (self.record.ties + 1) as u8, ..self.record }, ..self }
    }

    pub fn auth(&self) -> (r: Identity)
        ensures
            r == self.auth,
    {
        self.auth
    }

    /// Counts one more win; fails, changing nothing, if the counter is full.
    pub fn record_win(&mut self) -> (r: Result<(), TicTacToeError>)
        ensures
            old(self).record.wins == STAT_MAX ==> r == Err::<(), _>(TicTacToeError::StatOverflow)
                && *final(self) == *old(self),
            old(self).record.wins < STAT_MAX ==> r is Ok && *final(self) == old(self).after_win(),
    {
        if self.record.wins == STAT_MAX {
            return Err(TicTacToeError::StatOverflow);
        }
        self.record.wins = self.record.wins + 1;
        Ok(())
    }

    /// Counts one more loss; fails, changing nothing, if the counter is full.
    pub fn record_lose(&mut self) -> (r: Result<(), TicTacToeError>)
        ensures
            old(self).record.losses == STAT_MAX ==> r == Err::<(), _>(TicTacToeError::StatOverflow)
                && *final(self) == *old(self),
            old(self).record.losses < STAT_MAX ==> r is Ok && *final(self) == old(self).after_loss(),
    {
        if self.record.losses == STAT_MAX {
            return Err(TicTacToeError::StatOverflow);
        }
        self.record.losses = self.record.losses + 1;
        Ok(())
    }

    /// Counts one more tie; fails, changing nothing, if the counter is full.
    pub fn record_tie(&mut self) -> (r: Result<(), TicTacToeError>)
        ensures
            old(self).record.ties == STAT_MAX ==> r == Err::<(), _>(TicTacToeError::StatOverflow)
                && *final(self) == *old(self),
            old(self).record.ties < STAT_MAX ==> r is Ok && *final(self) == old(self).after_tie(),
    {
        if self.record.ties == STAT_MAX {
            return Err(TicTacToeError::StatOverflow);
        }
        self.record.ties = self.record.ties + 1;
        Ok(())
    }

    /// Marks the one reward this player may ever claim as taken; fails,
    /// changing nothing, if it was taken before.
    pub fn claim_reward(&mut self) -> (r: Result<(), TicTacToeError>)
        ensures
            old(self).reward_claimed ==> r == Err::<(), _>(TicTacToeError::RewardAlreadyClaimed)
                && *final(self) == *old(self),
            !old(self).reward_claimed ==> r is Ok && *final(self) == (Player {
                reward_claimed: true,
                ..*old(self)
            }),
    {
        if self.reward_claimed {
            return Err(TicTacToeError::RewardAlreadyClaimed);
        }
        self.reward_claimed = true;
        Ok(())
    }
}

} // verus!
