//! The payout evaluator: given the winning number and its colour, decide for
//! each bet whether it wins and what it returns. Pure functions of their
//! arguments; all arithmetic is exact integer arithmetic.

use vstd::prelude::*;
use crate::bets::RouletteBet;
use crate::bets::RouletteBetResult;
use crate::bets::RouletteBetType;
use crate::bets::spec_multiplier;
use vstd::arithmetic::mul::lemma_mul_nonnegative;

verus! {

/// The eighteen red numbers of the table; every other number from 1 to 36 is
/// black, and zero has no colour.
pub open spec fn spec_is_red(n: u8) -> bool {
    n == 1 || n == 3 || n == 5 || n == 7 || n == 9 || n == 12 || n == 14 || n == 16
        || n == 18 || n == 19 || n == 21 || n == 23 || n == 25 || n == 27 || n == 30
        || n == 32 || n == 34 || n == 36
}

/// The colour code of a number from 1 to 36: 0 for red, 1 for black. Zero has
/// no colour; the evaluator never consults this value for a winning zero.
pub open spec fn spec_colour(n: u8) -> u8 {
    if spec_is_red(n) {
        0
    } else {
        1
    }
}

/// Whether a bet of the given category wins on the given winning number and
/// colour. Zero is a house number: it is neither even nor odd, neither high
/// nor low, and has no colour, so it loses every even-money bet.
pub open spec fn spec_wins(winning_number: u8, colour: u8, bet_type: RouletteBetType) -> bool {
    match bet_type {
        RouletteBetType::Straight(v) => v == winning_number,
        RouletteBetType::Split(v) => v[0] == winning_number || v[1] == winning_number,
        RouletteBetType::Street(v) => v[0] == winning_number || v[1] == winning_number
            || v[2] == winning_number,
        RouletteBetType::Basket(v) => v[0] == winning_number || v[1] == winning_number
            || v[2] == winning_number,
        RouletteBetType::Topline(v) => v[0] == winning_number || v[1] == winning_number
            || v[2] == winning_number || v[3] == winning_number,
        RouletteBetType::Corner(v) => v[0] == winning_number || v[1] == winning_number
            || v[2] == winning_number || v[3] == winning_number,
        RouletteBetType::Doubleline(v) => v[0] == winning_number || v[1] == winning_number
            || v[2] == winning_number || v[3] == winning_number || v[4] == winning_number
            || v[5] == winning_number,
        RouletteBetType::Dozens(g) => 1 <= g && (g - 1) * 12 + 1 <= winning_number
            && winning_number <= g * 12,
        RouletteBetType::Columns(c) => 1 <= winning_number <= 36 && c <= winning_number
            && (winning_number - c) % 3 == 0,
        RouletteBetType::EvenOdd(p) => winning_number != 0 && winning_number % 2 == p,
        RouletteBetType::Highlow(h) => (h == 0 && 1 <= winning_number <= 18)
            || (h == 1 && 19 <= winning_number <= 36),
        RouletteBetType::Redblack(col) => winning_number != 0 && col == colour,
    }
}

/// What a bet pays on the given outcome: the wager times the category's fixed
/// multiplier on a win, nothing on a loss.
pub open spec fn spec_payout(winning_number: u8, colour: u8, bet: RouletteBet) -> int {
    if spec_wins(winning_number, colour, bet.spec_bet_type()) {
        bet.spec_wager() * spec_multiplier(bet.spec_bet_type())
    } else {
        0
    }
}

/// A payout is never negative and never anything between its two possible
/// values: the wager times the fixed category multiplier on a win, zero on a
/// loss.
pub proof fn lemma_payout_amount(winning_number: u8, colour: u8, bet: RouletteBet)
    ensures
        spec_wins(winning_number, colour, bet.spec_bet_type()) ==> spec_payout(
            winning_number,
            colour,
            bet,
        ) == bet.spec_wager() * spec_multiplier(bet.spec_bet_type()),
        !spec_wins(winning_number, colour, bet.spec_bet_type()) ==> spec_payout(
            winning_number,
            colour,
            bet,
        ) == 0,
        spec_payout(winning_number, colour, bet) >= 0,
{
    lemma_mul_nonnegative(bet.spec_wager() as int, spec_multiplier(bet.spec_bet_type()) as int);
}

/// The sum of the won amounts of a sequence of settled bets.
pub open spec fn spec_total_win(results: Seq<RouletteBetResult>) -> int
    decreases results.len(),
{
    if results.len() == 0 {
        0
    } else {
        spec_total_win(results.drop_last()) + results.last().spec_win()
    }
}

/// Total-payout conservation: two settlements of the same bets against the
/// same winning number and colour pay the same amounts bet for bet, so their
/// totals agree. Evaluation depends on nothing but its inputs.
pub proof fn lemma_total_payout_deterministic(
    winning_number: u8,
    colour: u8,
    bets: Seq<RouletteBet>,
    r1: Seq<RouletteBetResult>,
    r2: Seq<RouletteBetResult>,
)
    requires
        r1.len() == bets.len(),
        r2.len() == bets.len(),
        forall|i: int|
            0 <= i < bets.len() ==> (#[trigger] r1[i]).spec_win() == spec_payout(
                winning_number,
                colour,
                bets[i],
            ),
        forall|i: int|
            0 <= i < bets.len() ==> (#[trigger] r2[i]).spec_win() == spec_payout(
                winning_number,
                colour,
                bets[i],
            ),
    ensures
        spec_total_win(r1) == spec_total_win(r2),
    decreases bets.len(),
{
    if bets.len() > 0 {
        assert(r1.last().spec_win() == r2.last().spec_win());
        lemma_total_payout_deterministic(
            winning_number,
            colour,
            bets.drop_last(),
            r1.drop_last(),
            r2.drop_last(),
        );
    }
}

/// The payout evaluator.
pub struct RouletteEvaluator;

impl RouletteEvaluator {
    /// Settle a batch of bets against a winning number and its colour: one
    /// result per bet, in the bets' order, each paying the wager times the
    /// category multiplier on a win and zero on a loss.
    pub fn calculate_winnings(
        winning_number: u8,
        colour: u8,
        bets: &Vec<RouletteBet>,
    ) -> (results: Vec<RouletteBetResult>)
        requires
            forall|i: int|
                0 <= i < bets@.len() ==> (#[trigger] bets@[i]).spec_wager() * spec_multiplier(
                    bets@[i].spec_bet_type(),
                ) <= u64::MAX,
        ensures
            results@.len() == bets@.len(),
            forall|i: int|
                0 <= i < bets@.len() ==> (#[trigger] results@[i]).spec_bet() == bets@[i]
                    && results@[i].spec_win() == spec_payout(winning_number, colour, bets@[i]),
    {
        let mut results: Vec<RouletteBetResult> = Vec::new();
        let mut idx: usize = 0;
        while idx < bets.len()
            invariant
                idx <= bets@.len(),
                results@.len() == idx,
                forall|i: int|
                    0 <= i < bets@.len() ==> (#[trigger] bets@[i]).spec_wager() * spec_multiplier(
                        bets@[i].spec_bet_type(),
                    ) <= u64::MAX,
                forall|i: int|
                    0 <= i < idx ==> (#[trigger] results@[i]).spec_bet() == bets@[i]
                        && results@[i].spec_win() == spec_payout(winning_number, colour, bets@[i]),
            decreases bets@.len() - idx,
        {
            let bet = &bets[idx];
            let wins: bool = match bet.bet_type() {
                RouletteBetType::Straight(v) => v == winning_number,
                RouletteBetType::Split(v) => v[0] == winning_number || v[1] == winning_number,
                RouletteBetType::Street(v) => v[0] == winning_number || v[1] == winning_number
                    || v[2] == winning_number,
                RouletteBetType::Basket(v) => v[0] == winning_number || v[1] == winning_number
                    || v[2] == winning_number,
                RouletteBetType::Topline(v) => v[0] == winning_number || v[1] == winning_number
                    || v[2] == winning_number || v[3] == winning_number,
                RouletteBetType::Corner(v) => v[0] == winning_number || v[1] == winning_number
                    || v[2] == winning_number || v[3] == winning_number,
                RouletteBetType::Doubleline(v) => v[0] == winning_number || v[1] == winning_number
                    || v[2] == winning_number || v[3] == winning_number || v[4] == winning_number
                    || v[5] == winning_number,
                RouletteBetType::Dozens(g) => g >= 1 && (g as u16 - 1) * 12 + 1
                    <= winning_number as u16 && winning_number as u16 <= g as u16 * 12,
                RouletteBetType::Columns(c) => winning_number >= 1 && winning_number <= 36
                    && c <= winning_number && (winning_number - c) % 3 == 0,
                RouletteBetType::EvenOdd(p) => winning_number != 0 && winning_number % 2 == p,
                RouletteBetType::Highlow(h) => (h == 0 && winning_number >= 1 && winning_number
                    <= 18) || (h == 1 && winning_number >= 19 && winning_number <= 36),
                RouletteBetType::Redblack(col) => winning_number != 0 && col == colour,
            };
            let win_amount: u64 = if wins {
                bet.win_value()
            } else {
                0
            };
            results.push(RouletteBetResult::new(*bet, win_amount));
            idx = idx + 1;
        }
        results
    }
}

} // verus!
