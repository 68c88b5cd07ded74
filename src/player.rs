use vstd::prelude::*;

verus! {

/// Currency credited for each enemy defeated.
pub const KILL_REWARD: u32 = 1;

/// The balance after `kills` defeated enemies are credited to `funds`,
/// stopping at the first credit that would overflow.
pub open spec fn funds_after_kills(funds: nat, kills: nat) -> nat {
    if funds + kills * (KILL_REWARD as nat) <= u32::MAX {
        funds + kills * (KILL_REWARD as nat)
    } else {
        u32::MAX as nat
    }
}

/// Without overflow, a player's currency after `kills` kills is the starting
/// currency plus one unit per kill.
pub proof fn lemma_currency_after_kills(start: nat, kills: nat)
    requires
        start + kills <= u32::MAX,
    ensures
        funds_after_kills(start, kills) == start + kills,
{
}

/// Kills credited over two frames give the same balance as the same kills
/// credited at once.
pub proof fn lemma_kills_credited_in_parts(start: nat, first: nat, second: nat)
    requires
        start <= u32::MAX,
    ensures
        funds_after_kills(funds_after_kills(start, first), second) == funds_after_kills(
            start,
            first + second,
        ),
{
}

/// The player's purse and remaining lives.
#[derive(Default)]
pub struct Player {
    money: u32,
    lives: u32,
}

impl Player {
    /// The currency balance.
    pub closed spec fn funds(&self) -> nat {
        self.money as nat
    }

    /// The remaining lives.
    pub closed spec fn life_count(&self) -> nat {
        self.lives as nat
    }

    /// Funds and lives each fit in a `u32`.
    pub proof fn lemma_bounds(&self)
        ensures
            self.funds() <= u32::MAX,
            self.life_count() <= u32::MAX,
    {
    }

    pub fn new(money: u32, lives: u32) -> (r: Player)
        ensures
            r.funds() == money,
            r.life_count() == lives,
    {
        Player { money, lives }
    }

    pub fn get_funds(&self) -> (r: u32)
        ensures
            r == self.funds(),
    {
        self.money
    }

    pub fn get_lives(&self) -> (r: u32)
        ensures
            r == self.life_count(),
    {
        self.lives
    }

    /// Debits `amount` when the balance covers it; otherwise nothing changes.
    pub fn spend_funds(&mut self, amount: u32) -> (r: Option<u32>)
        ensures
            final(self).life_count() == old(self).life_count(),
            old(self).funds() >= amount ==> r == Some((old(self).funds() - amount) as u32)
                && final(self).funds() == old(self).funds() - amount,
            old(self).funds() < amount ==> r.is_none() && final(self).funds() == old(self).funds(),
    {
        if amount <= self.money {
            self.money = self.money - amount;
            return Some(self.money);
        }
        None
    }

    pub fn set_funds(&mut self, amount: u32) -> (r: u32)
        ensures
            r == amount,
            final(self).funds() == amount,
            final(self).life_count() == old(self).life_count(),
    {
        self.money = amount;
        self.money
    }

    pub fn set_lives(&mut self, amount: u32) -> (r: u32)
        ensures
            r == amount,
            final(self).life_count() == amount,
            final(self).funds() == old(self).funds(),
    {
        self.lives = amount;
        self.lives
    }

    /// Credits `amount` unless the balance would overflow; on overflow nothing changes.
    pub fn add_funds(&mut self, amount: u32) -> (r: Option<u32>)
        ensures
            final(self).life_count() == old(self).life_count(),
            old(self).funds() + amount <= u32::MAX ==> r == Some((old(self).funds() + amount) as u32)
                && final(self).funds() == old(self).funds() + amount,
            old(self).funds() + amount > u32::MAX ==> r.is_none() && final(self).funds()
                == old(self).funds(),
    {
        if amount <= u32::MAX - self.money {
            self.money = self.money + amount;
            return Some(self.money);
        }
        None
    }

    /// Takes `amount` lives, stopping at zero. Returns the lives left while
    /// the player is still alive, and `None` once they reach zero.
    pub fn damage(&mut self, amount: u32) -> (r: Option<u32>)
        ensures
            final(self).funds() == old(self).funds(),
            old(self).life_count() >= amount ==> final(self).life_count() == old(self).life_count()
                - amount,
            old(self).life_count() < amount ==> final(self).life_count() == 0,
            r == (if old(self).life_count() > amount {
                Some((old(self).life_count() - amount) as u32)
            } else {
                None
            }),
    {
        if amount <= self.lives {
            self.lives = self.lives - amount;
            if self.lives == 0 {
                return None;
            }
            return Some(self.lives);
        }
        self.lives = 0;
        None
    }

    /// Whether the player has no lives left: the match is lost.
    pub fn is_defeated(&self) -> (r: bool)
        ensures
            r == (self.life_count() == 0),
    {
        self.lives == 0
    }

    /// Credits `KILL_REWARD` for each of `kills` defeated enemies. Stops at the
    /// first credit that would overflow the balance and then returns `false`.
    pub fn give_money_on_kill(&mut self, kills: usize) -> (r: bool)
        ensures
            final(self).life_count() == old(self).life_count(),
            r == (old(self).funds() + kills <= u32::MAX),
            final(self).funds() == funds_after_kills(old(self).funds(), kills as nat),
    {
        let mut i: usize = 0;
        while i < kills
            invariant
                i <= kills,
                self.funds() == old(self).funds() + i,
                self.life_count() == old(self).life_count(),
            decreases kills - i,
        {
            if self.add_funds(KILL_REWARD).is_none() {
                return false;
            }
            i = i + 1;
        }
        true
    }
}

} // verus!
