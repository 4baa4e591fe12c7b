//! The spin engine: validates a batch of bets against table geometry and the
//! minimum-wager policy, draws a winning number, and settles the round. The
//! draw is the only effectful step; validation failure leaves the engine
//! untouched.

use vstd::prelude::*;
use crate::bets::PlaceBetError;
use crate::bets::RouletteBet;
use crate::bets::RouletteBetResult;
use crate::bets::spec_multiplier;
use crate::bets::RouletteBetType;
use crate::geometry::spec_bet_option_valid;
use crate::geometry::spec_street_valid;
use crate::payout::RouletteEvaluator;
use crate::payout::spec_colour;
use crate::payout::spec_payout;

verus! {

/// The per-category minimum-wager multiplier. A first-class policy table,
/// though today it is uniformly 1 for every category.
pub open spec fn spec_min_multiplier(bet_type: RouletteBetType) -> u64 {
    match bet_type {
        RouletteBetType::Straight(_) => 1,
        RouletteBetType::Split(_) => 1,
        RouletteBetType::Street(_) => 1,
        RouletteBetType::Basket(_) => 1,
        RouletteBetType::Topline(_) => 1,
        RouletteBetType::Corner(_) => 1,
        RouletteBetType::Doubleline(_) => 1,
        RouletteBetType::Dozens(_) => 1,
        RouletteBetType::Columns(_) => 1,
        RouletteBetType::EvenOdd(_) => 1,
        RouletteBetType::Highlow(_) => 1,
        RouletteBetType::Redblack(_) => 1,
    }
}

/// The effective minimum wager of a category: the engine's global floor times
/// the category's multiplier.
pub open spec fn spec_effective_min(min_bet_size: u64, bet_type: RouletteBetType) -> int {
    min_bet_size * spec_min_multiplier(bet_type)
}

/// The validation verdict on a single bet: illegal geometry first, then the
/// wager floor; a bet that passes both yields no error.
pub open spec fn spec_bet_error(min_bet_size: u64, bet: RouletteBet) -> Option<PlaceBetError> {
    if !spec_bet_option_valid(bet.spec_bet_type()) {
        Some(PlaceBetError::InvalidBetOption(bet))
    } else if bet.spec_wager() < spec_effective_min(min_bet_size, bet.spec_bet_type()) {
        Some(
            PlaceBetError::MinBetNotSatisfied(
                bet,
                spec_effective_min(min_bet_size, bet.spec_bet_type()) as u64,
            ),
        )
    } else {
        None
    }
}

/// All validation errors of a batch, in bet order: the errors of every
/// offending bet are collected, not just the first.
pub open spec fn spec_validation_errors(min_bet_size: u64, bets: Seq<RouletteBet>) -> Seq<
    PlaceBetError,
>
    decreases bets.len(),
{
    if bets.len() == 0 {
        Seq::empty()
    } else {
        spec_validation_errors(min_bet_size, bets.drop_last()) + match spec_bet_error(
            min_bet_size,
            bets.last(),
        ) {
            Some(e) => seq![e],
            None => Seq::empty(),
        }
    }
}

/// Relies on rand: `random_range` on the inclusive range 0..=36 returns a
/// uniformly distributed value inside that range, drawn from the thread-local
/// generator. Nothing more can be promised of a random value.
#[verifier::external_body]
fn draw_winning_number() -> (number: u8)
    ensures
        number <= 36,
{
    rand::random_range(0u8..=36u8)
}

/// One roulette table: a minimum-wager floor and an append-only history of
/// past winning numbers.
#[derive(Debug, Clone)]
pub struct Roulette {
    history: Vec<u8>,
    min_bet_size: u64,
}

impl Roulette {
    pub closed spec fn spec_history(&self) -> Seq<u8> {
        self.history@
    }

    pub closed spec fn spec_min_bet_size(&self) -> u64 {
        self.min_bet_size
    }

    /// A fresh table with an empty history and the default wager floor of 1.
    pub fn new() -> (engine: Self)
        ensures
            engine.spec_history() == Seq::<u8>::empty(),
            engine.spec_min_bet_size() == 1,
    {
        Self { history: Vec::new(), min_bet_size: 1 }
    }

    /// A fresh table with an empty history and the given wager floor, the
    /// engine's sole runtime-tunable parameter.
    pub fn with_min_bet(min_bet_size: u64) -> (engine: Self)
        ensures
            engine.spec_history() == Seq::<u8>::empty(),
            engine.spec_min_bet_size() == min_bet_size,
    {
        Self { history: Vec::new(), min_bet_size }
    }

    /// The winning numbers of past successful spins, oldest first.
    pub fn history(&self) -> (history: &Vec<u8>)
        ensures
            history@ == self.spec_history(),
    {
        &self.history
    }

    /// The engine's global minimum-wager floor.
    pub fn min_bet_size(&self) -> (min: u64)
        ensures
            min == self.spec_min_bet_size(),
    {
        self.min_bet_size
    }

    /// Play one round: validate every bet, and either report all validation
    /// errors (no draw happens, the history is untouched) or draw a winning
    /// number, append it to the history, and settle every bet against it.
    pub fn spin(&mut self, bets: &Vec<RouletteBet>) -> (outcome: Result<
        (u8, Vec<RouletteBetResult>),
        Vec<PlaceBetError>,
    >)
        requires
            forall|i: int|
                0 <= i < bets@.len() ==> (#[trigger] bets@[i]).spec_wager() * spec_multiplier(
                    bets@[i].spec_bet_type(),
                ) <= u64::MAX,
        ensures
            final(self).spec_min_bet_size() == old(self).spec_min_bet_size(),
            outcome is Err <==> spec_validation_errors(
                old(self).spec_min_bet_size(),
                bets@,
            ).len() > 0,
            outcome matches Err(errors) ==> errors@ == spec_validation_errors(
                old(self).spec_min_bet_size(),
                bets@,
            ) && *final(self) == *old(self),
            outcome matches Ok((number, results)) ==> {
                &&& number <= 36
                &&& final(self).spec_history() == old(self).spec_history().push(number)
                &&& results@.len() == bets@.len()
                &&& forall|i: int|
                    0 <= i < bets@.len() ==> (#[trigger] results@[i]).spec_bet() == bets@[i]
                        && results@[i].spec_win() == spec_payout(
                        number,
                        spec_colour(number),
                        bets@[i],
                    )
            },
    {
        match self.validate_bets(bets) {
            Err(errors) => Err(errors),
            Ok(()) => {
                let number = draw_winning_number();
                self.history.push(number);
                let colour = Self::get_number_colour(number);
                let results = RouletteEvaluator::calculate_winnings(number, colour, bets);
                Ok((number, results))
            },
        }
    }

    /// Validate a batch: collect the error of every offending bet, in bet
    /// order, and succeed only when there is none.
    pub fn validate_bets(&self, bets: &Vec<RouletteBet>) -> (verdict: Result<
        (),
        Vec<PlaceBetError>,
    >)
        ensures
            verdict is Ok <==> spec_validation_errors(self.spec_min_bet_size(), bets@).len() == 0,
            verdict matches Err(errors) ==> errors@ == spec_validation_errors(
                self.spec_min_bet_size(),
                bets@,
            ),
    {
        let mut errors: Vec<PlaceBetError> = Vec::new();
        let mut idx: usize = 0;
        while idx < bets.len()
            invariant
                idx <= bets@.len(),
                errors@ == spec_validation_errors(
                    self.spec_min_bet_size(),
                    bets@.subrange(0, idx as int),
                ),
            decreases bets@.len() - idx,
        {
            proof {
                assert(bets@.subrange(0, idx + 1).drop_last() =~= bets@.subrange(0, idx as int));
                assert(bets@.subrange(0, idx + 1).last() == bets@[idx as int]);
            }
            let bet = &bets[idx];
            if !Self::validate_bet_option(bet.bet_type()) {
                errors.push(PlaceBetError::InvalidBetOption(*bet));
            } else if !self.validate_bet_size(bet) {
                errors.push(
                    PlaceBetError::MinBetNotSatisfied(
                        *bet,
                        self.min_bet_size * Self::min_bet_for_option(bet.bet_type()),
                    ),
                );
            }
            idx = idx + 1;
        }
        proof {
            assert(bets@.subrange(0, idx as int) =~= bets@);
        }
        if errors.len() == 0 {
            Ok(())
        } else {
            Err(errors)
        }
    }

    /// The minimum-wager multiplier of a category; see `spec_min_multiplier`.
    pub fn min_bet_for_option(bet_type: RouletteBetType) -> (multiplier: u64)
        ensures
            multiplier == spec_min_multiplier(bet_type),
    {
        match bet_type {
            RouletteBetType::Straight(_) => 1,
            RouletteBetType::Split(_) => 1,
            RouletteBetType::Street(_) => 1,
            RouletteBetType::Basket(_) => 1,
            RouletteBetType::Topline(_) => 1,
            RouletteBetType::Corner(_) => 1,
            RouletteBetType::Doubleline(_) => 1,
            RouletteBetType::Dozens(_) => 1,
            RouletteBetType::Columns(_) => 1,
            RouletteBetType::EvenOdd(_) => 1,
            RouletteBetType::Highlow(_) => 1,
            RouletteBetType::Redblack(_) => 1,
        }
    }

    /// Whether a `RouletteBetType` names a legal placement on the table
    /// layout. Total: it decides every input and never fails, whatever the
    /// order or range of the numbers given.
    pub fn validate_bet_option(bet_type: RouletteBetType) -> (valid: bool)
        ensures
            valid == spec_bet_option_valid(bet_type),
    {
        match bet_type {
            RouletteBetType::Straight(v) => v <= 36,
            RouletteBetType::Split(v) => {
                (v[0] < v[1] && v[1] <= 36) && (
                // splits with zero
                (v[0] == 0 && (v[1] == 1 || v[1] == 2 || v[1] == 3))
                // horizontally adjacent, away from the right column
                || (v[0] >= 1 && v[0] % 3 != 0 && v[1] as u16 == v[0] as u16 + 1)
                // vertically adjacent
                || (v[0] >= 1 && v[1] as u16 == v[0] as u16 + 3))
            },
            RouletteBetType::Street(v) => Self::check_street(v[0], v[1], v[2]),
            RouletteBetType::Basket(v) => v[0] == 0 && ((v[1] == 1 && v[2] == 2) || (v[1] == 2
                && v[2] == 3)),
            RouletteBetType::Topline(v) => v[0] == 0 && v[1] == 1 && v[2] == 2 && v[3] == 3,
            RouletteBetType::Corner(v) => v[0] >= 1 && v[0] <= 32 && v[0] % 3 != 0 && v[1] as u16
                == v[0] as u16 + 1 && v[2] as u16 == v[0] as u16 + 3 && v[3] as u16 == v[0] as u16
                + 4,
            RouletteBetType::Doubleline(v) => Self::check_street(v[0], v[1], v[2])
                && Self::check_street(v[3], v[4], v[5]) && v[3] as u16 == v[0] as u16 + 3,
            RouletteBetType::Dozens(v) => v >= 1 && v <= 3,
            RouletteBetType::Columns(v) => v >= 1 && v <= 3,
            RouletteBetType::EvenOdd(v) => v <= 1,
            RouletteBetType::Highlow(v) => v <= 1,
            RouletteBetType::Redblack(v) => v <= 1,
        }
    }

    /// Whether three numbers form a legal street: a row's three consecutive
    /// numbers.
    fn check_street(a: u8, b: u8, c: u8) -> (valid: bool)
        ensures
            valid == spec_street_valid(a, b, c),
    {
        a >= 1 && a <= 34 && (a - 1) % 3 == 0 && b as u16 == a as u16 + 1 && c as u16 == a as u16
            + 2
    }

    /// Whether a bet's wager meets the effective minimum of its category.
    fn validate_bet_size(&self, bet: &RouletteBet) -> (ok: bool)
        ensures
            ok == (bet.spec_wager() >= spec_effective_min(
                self.spec_min_bet_size(),
                bet.spec_bet_type(),
            )),
    {
        let multiplier = Self::min_bet_for_option(bet.bet_type());
        multiplier * self.min_bet_size <= bet.wager()
    }

    /// The colour code of a winning number: 0 for red, 1 otherwise. Zero has
    /// no colour; the value returned for it is immaterial, since evaluation
    /// ignores the colour whenever the winning number is zero.
    pub fn get_number_colour(number: u8) -> (colour: u8)
        ensures
            colour == spec_colour(number),
    {
        if number == 1 || number == 3 || number == 5 || number == 7 || number == 9 || number == 12
            || number == 14 || number == 16 || number == 18 || number == 19 || number == 21
            || number == 23 || number == 25 || number == 27 || number == 30 || number == 32
            || number == 34 || number == 36 {
            0
        } else {
            1
        }
    }
}

} // verus!
