use vstd::prelude::*;

verus! {

/// The process-wide sequence record: the version tag and the id that the next
/// created game receives.
#[derive(Clone, Copy, Debug)]
pub struct ProgramState {
    pub current_version: u64,
    /// The id of the next game to be created; it only ever increases.
    pub current_game_id: u64,
    pub bump: u8,
}

impl ProgramState {
    /// Sets the sequence to its starting point: version 1, next game id 1.
    pub fn init(&mut self, bump: u8)
        ensures
            final(self).current_version == 1,
            final(self).current_game_id == 1,
            final(self).bump == bump,
    {
        self.current_version = 1;
        self.current_game_id = 1;
        self.bump = bump;
    }

    pub fn increment_version(&mut self)
        requires
            old(self).current_version < u64::MAX,
        ensures
            final(self).current_version == old(self).current_version + 1,
            final(self).current_game_id == old(self).current_game_id,
            final(self).bump == old(self).bump,
    {
        self.current_version = self.current_version + 1;
    }

    pub fn increment_game_id(&mut self)
        requires
            old(self).current_game_id < u64::MAX,
        ensures
            final(self).current_game_id == old(self).current_game_id + 1,
            final(self).current_version == old(self).current_version,
            final(self).bump == old(self).bump,
    {
        self.current_game_id = self.current_game_id + 1;
    }
}

} // verus!
