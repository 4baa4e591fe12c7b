//! The bet model: a bet's category with its covered numbers or selector,
//! the wager placed on it, the settled result, and the errors a round of
//! validation can report.

use vstd::prelude::*;

verus! {

/// A bet category together with the numbers or selector it covers.
///
/// Number arrays are expected in ascending order; the geometry validator
/// rejects any other arrangement, it never fails on one.
#[derive(Debug, Copy, Clone, PartialEq, Eq)]
pub enum RouletteBetType {
    /// Single number for the bet
    Straight(u8),

    /// Numbers from 2 adjacent spots
    Split([u8; 2]),

    /// Numbers for the row chosen
    Street([u8; 3]),

    /// Numbers covering either 0,1,2 or 0,2,3
    Basket([u8; 3]),

    /// Numbers covering 0, 1, 2, 3
    Topline([u8; 4]),

    /// Numbers of 4 adjacent spots
    Corner([u8; 4]),

    /// Numbers covering 2 adjacent lines
    Doubleline([u8; 6]),

    /// 1 for 1-12, 2 for 13-24, 3 for 25-36
    Dozens(u8),

    /// Indicate the column based on the lowest number in that column (1, 2 or 3)
    Columns(u8),

    /// 0 for even, 1 for odd
    EvenOdd(u8),

    /// 0 for 1-18, 1 for 19-36
    Highlow(u8),

    /// 0 for red, 1 for black
    Redblack(u8),
}

/// The fixed payout multiplier of a category: a function of the category
/// alone, never of its parameters.
pub open spec fn spec_multiplier(bet_type: RouletteBetType) -> u64 {
    match bet_type {
        RouletteBetType::Straight(_) => 36,
        RouletteBetType::Split(_) => 18,
        RouletteBetType::Street(_) => 12,
        RouletteBetType::Basket(_) => 12,
        RouletteBetType::Topline(_) => 9,
        RouletteBetType::Corner(_) => 9,
        RouletteBetType::Doubleline(_) => 6,
        RouletteBetType::Dozens(_) => 3,
        RouletteBetType::Columns(_) => 3,
        RouletteBetType::EvenOdd(_) => 2,
        RouletteBetType::Highlow(_) => 2,
        RouletteBetType::Redblack(_) => 2,
    }
}

/// A placed bet: a category and a wager in the smallest currency unit.
/// Construction performs no validation; legality is the validator's concern.
#[derive(Debug, Clone, Copy, PartialEq, Eq)]
pub struct RouletteBet {
    bet_type: RouletteBetType,
    wager: u64,
}

impl RouletteBet {
    pub closed spec fn spec_bet_type(&self) -> RouletteBetType {
        self.bet_type
    }

    pub closed spec fn spec_wager(&self) -> u64 {
        self.wager
    }

    pub fn new(bet_type: RouletteBetType, wager: u64) -> (bet: Self)
        ensures
            bet.spec_bet_type() == bet_type,
            bet.spec_wager() == wager,
    {
        Self { bet_type, wager }
    }

    /// The amount returned if this bet wins: the wager times the category's
    /// fixed multiplier.
    pub fn win_value(&self) -> (value: u64)
        requires
            self.spec_wager() * spec_multiplier(self.spec_bet_type()) <= u64::MAX,
        ensures
            value == self.spec_wager() * spec_multiplier(self.spec_bet_type()),
    {
        self.wager * match self.bet_type {
            RouletteBetType::Straight(_) => 36,
            RouletteBetType::Split(_) => 18,
            RouletteBetType::Street(_) => 12,
            RouletteBetType::Basket(_) => 12,
            RouletteBetType::Topline(_) => 9,
            RouletteBetType::Corner(_) => 9,
            RouletteBetType::Doubleline(_) => 6,
            RouletteBetType::Dozens(_) => 3,
            RouletteBetType::Columns(_) => 3,
            RouletteBetType::EvenOdd(_) => 2,
            RouletteBetType::Highlow(_) => 2,
            RouletteBetType::Redblack(_) => 2,
        }
    }

    pub fn bet_type(&self) -> (bet_type: RouletteBetType)
        ensures
            bet_type == self.spec_bet_type(),
    {
        self.bet_type
    }

    pub fn wager(&self) -> (wager: u64)
        ensures
            wager == self.spec_wager(),
    {
        self.wager
    }
}

/// The settled outcome of one bet: the originating bet and the amount it won
/// (zero on a loss).
#[derive(Debug, Clone, Copy, PartialEq, Eq)]
pub struct RouletteBetResult {
    bet: RouletteBet,
    win: u64,
}

impl RouletteBetResult {
    pub closed spec fn spec_bet(&self) -> RouletteBet {
        self.bet
    }

    pub closed spec fn spec_win(&self) -> u64 {
        self.win
    }

    pub fn new(bet: RouletteBet, win: u64) -> (result: Self)
        ensures
            result.spec_bet() == bet,
            result.spec_win() == win,
    {
        Self { bet, win }
    }

    pub fn bet(&self) -> (bet: RouletteBet)
        ensures
            bet == self.spec_bet(),
    {
        self.bet
    }

    pub fn win(&self) -> (win: u64)
        ensures
            win == self.spec_win(),
    {
        self.win
    }
}

/// Why a bet was refused by a round of validation: its geometry matches no
/// position on the table, or its wager falls outside the table's limits.
#[derive(Debug, Copy, Clone, PartialEq, Eq)]
pub enum PlaceBetError {
    InvalidBetOption(RouletteBet),
    MaxBetOnOption(RouletteBet, u64),
    MinBetNotSatisfied(RouletteBet, u64),
}

/// The sum of the wagers of a sequence of bets.
pub open spec fn spec_total_wager(bets: Seq<RouletteBet>) -> int
    decreases bets.len(),
{
    if bets.len() == 0 {
        0
    } else {
        spec_total_wager(bets.drop_last()) + bets.last().spec_wager()
    }
}

/// Every prefix sum of wagers is bounded by the whole sum, wagers being
/// non-negative.
proof fn lemma_total_wager_prefix(bets: Seq<RouletteBet>, i: int)
    requires
        0 <= i <= bets.len(),
    ensures
        spec_total_wager(bets.subrange(0, i)) <= spec_total_wager(bets),
    decreases bets.len(),
{
    if i == bets.len() {
        assert(bets.subrange(0, i) =~= bets);
    } else {
        assert(bets.drop_last().subrange(0, i) =~= bets.subrange(0, i));
        lemma_total_wager_prefix(bets.drop_last(), i);
    }
}

/// The total amount staked across a batch of bets.
pub fn calculate_total_bet(bets: &Vec<RouletteBet>) -> (total: u64)
    requires
        spec_total_wager(bets@) <= u64::MAX,
    ensures
        total == spec_total_wager(bets@),
{
    let mut total: u64 = 0;
    let mut idx: usize = 0;
    while idx < bets.len()
        invariant
            idx <= bets@.len(),
            total == spec_total_wager(bets@.subrange(0, idx as int)),
            spec_total_wager(bets@) <= u64::MAX,
        decreases bets@.len() - idx,
    {
        proof {
            lemma_total_wager_prefix(bets@, idx + 1);
            assert(bets@.subrange(0, idx + 1).drop_last() =~= bets@.subrange(0, idx as int));
            assert(bets@.subrange(0, idx + 1).last() == bets@[idx as int]);
        }
        total = total + bets[idx].wager();
        idx = idx + 1;
    }
    proof {
        assert(bets@.subrange(0, idx as int) =~= bets@);
    }
    total
}

} // verus!
