use vstd::prelude::*;

verus! {

/// A player's record: how many bets they are in, and how those ended.
#[derive(Clone, Copy, Debug, PartialEq, Eq, Structural)]
pub struct User {
    pub total_bets: u64,
    pub total_winnings: u64,
    pub total_losses: u64,
    pub total_draws: u64,
    pub bump: u8,
}

/// Bytes that a user record takes on chain, discriminator included: the sum
/// of its fields' encoded sizes.
pub const USER_INIT_SPACE: usize = 8 + (8 * 4) + 1;

/// A record that no bet has touched yet: every counter is zero.
pub open spec fn is_fresh(u: User) -> bool {
    u.total_bets == 0 && u.total_winnings == 0 && u.total_losses == 0 && u.total_draws == 0
}

/// The record after an instruction has claimed it with `bump`: a fresh record
/// takes the bump, any other stays as it was.
pub open spec fn claimed(u: User, bump: u8) -> User {
    if is_fresh(u) {
        User { bump, ..u }
    } else {
        u
    }
}

impl User {
    /// Sets up a record on its first use, as both bet instructions do.
    pub fn claim(&mut self, bump: u8)
        ensures
            *final(self) == claimed(*old(self), bump),
    {
        if self.total_bets == 0 && self.total_winnings == 0 && self.total_losses == 0
            && self.total_draws == 0 {
            self.total_bets = 0;
            self.total_winnings = 0;
            self.total_losses = 0;
            self.total_draws = 0;
            self.bump = bump;
        }
    }

    pub fn increase_bets(&mut self)
        requires
            old(self).total_bets < u64::MAX,
        ensures
            *final(self) == (User { total_bets: (old(self).total_bets + 1) as u64, ..*old(self) }),
    {
        self.total_bets += 1;
    }

    pub fn increase_winnigs(&mut self)
        requires
            old(self).total_winnings < u64::MAX,
        ensures
            *final(self) == (User {
                total_winnings: (old(self).total_winnings + 1) as u64,
                ..*old(self)
            }),
    {
        self.total_winnings += 1;
    }

    pub fn increase_losses(&mut self)
        requires
            old(self).total_losses < u64::MAX,
        ensures
            *final(self) == (User { total_losses: (old(self).total_losses + 1) as u64, ..*old(self) }),
    {
        self.total_losses += 1;
    }

    pub fn increase_draws(&mut self)
        requires
            old(self).total_draws < u64::MAX,
        ensures
            *final(self) == (User { total_draws: (old(self).total_draws + 1) as u64, ..*old(self) }),
    {
        self.total_draws += 1;
    }

    pub fn decrease_bets(&mut self)
        requires
            old(self).total_bets > 0,
        ensures
            *final(self) == (User { total_bets: (old(self).total_bets - 1) as u64, ..*old(self) }),
    {
        self.total_bets -= 1;
    }
}

} // verus!
