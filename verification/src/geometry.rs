//! Table geometry: which combinations of numbers or selectors constitute a
//! legal placement on the 3-row by 12-column layout (numbers 1-36) with its
//! zero field. Legality is closed-form arithmetic on the raw numbers, not a
//! table lookup.

use vstd::prelude::*;
use crate::bets::RouletteBetType;

verus! {

/// A straight bet covers any single number on the wheel, zero included.
pub open spec fn spec_straight_valid(n: u8) -> bool {
    n <= 36
}

/// One of the three fixed splits that touch the zero field.
pub open spec fn spec_zero_split(a: u8, b: u8) -> bool {
    a == 0 && (b == 1 || b == 2 || b == 3)
}

/// Two horizontally adjacent numbers: consecutive, with the lower one not in
/// the right column (a multiple of 3 ends its row).
pub open spec fn spec_horizontal_split(a: u8, b: u8) -> bool {
    1 <= a && a % 3 != 0 && b == a + 1
}

/// Two vertically adjacent numbers: one directly above the other, three apart.
pub open spec fn spec_vertical_split(a: u8, b: u8) -> bool {
    1 <= a && b == a + 3
}

/// A split covers two strictly ascending numbers on the table that are
/// adjacent horizontally or vertically, or one of the zero splits.
pub open spec fn spec_split_valid(a: u8, b: u8) -> bool {
    a < b && b <= 36 && (spec_zero_split(a, b) || spec_horizontal_split(a, b)
        || spec_vertical_split(a, b))
}

/// A street covers three consecutive numbers starting a row: n, n+1, n+2 with
/// (n - 1) divisible by 3 and n at most 34.
pub open spec fn spec_street_valid(a: u8, b: u8, c: u8) -> bool {
    1 <= a <= 34 && (a - 1) % 3 == 0 && b == a + 1 && c == a + 2
}

/// A basket is one of the two zero-adjacent corners: {0,1,2} or {0,2,3}.
pub open spec fn spec_basket_valid(a: u8, b: u8, c: u8) -> bool {
    a == 0 && ((b == 1 && c == 2) || (b == 2 && c == 3))
}

/// The topline is exactly {0,1,2,3}.
pub open spec fn spec_topline_valid(a: u8, b: u8, c: u8, d: u8) -> bool {
    a == 0 && b == 1 && c == 2 && d == 3
}

/// A corner covers a 2-by-2 block on the table: n, n+1, n+3, n+4 with n at
/// least 1, not in the right column, and n+4 still at most 36.
pub open spec fn spec_corner_valid(a: u8, b: u8, c: u8, d: u8) -> bool {
    1 <= a <= 32 && a % 3 != 0 && b == a + 1 && c == a + 3 && d == a + 4
}

/// A double line covers two adjacent streets back to back: six contiguous
/// numbers forming two valid streets.
pub open spec fn spec_doubleline_valid(v: [u8; 6]) -> bool {
    spec_street_valid(v[0], v[1], v[2]) && spec_street_valid(v[3], v[4], v[5])
        && v[3] == v[0] + 3
}

/// A dozens or columns selector picks one of three groups.
pub open spec fn spec_group_selector_valid(g: u8) -> bool {
    1 <= g <= 3
}

/// An even/odd, high/low or red/black selector picks one of two outcomes.
pub open spec fn spec_binary_selector_valid(v: u8) -> bool {
    v <= 1
}

/// Whether a bet's category and parameters name a legal placement on the
/// table layout. Total: every combination yields a definite answer.
pub open spec fn spec_bet_option_valid(bet_type: RouletteBetType) -> bool {
    match bet_type {
        RouletteBetType::Straight(v) => spec_straight_valid(v),
        RouletteBetType::Split(v) => spec_split_valid(v[0], v[1]),
        RouletteBetType::Street(v) => spec_street_valid(v[0], v[1], v[2]),
        RouletteBetType::Basket(v) => spec_basket_valid(v[0], v[1], v[2]),
        RouletteBetType::Topline(v) => spec_topline_valid(v[0], v[1], v[2], v[3]),
        RouletteBetType::Corner(v) => spec_corner_valid(v[0], v[1], v[2], v[3]),
        RouletteBetType::Doubleline(v) => spec_doubleline_valid(v),
        RouletteBetType::Dozens(v) => spec_group_selector_valid(v),
        RouletteBetType::Columns(v) => spec_group_selector_valid(v),
        RouletteBetType::EvenOdd(v) => spec_binary_selector_valid(v),
        RouletteBetType::Highlow(v) => spec_binary_selector_valid(v),
        RouletteBetType::Redblack(v) => spec_binary_selector_valid(v),
    }
}

/// Legality is a pure function of the bet's category and parameters: any two
/// results that meet the validator's contract for the same input are equal.
pub proof fn lemma_validity_deterministic(bet_type: RouletteBetType, r1: bool, r2: bool)
    requires
        r1 == spec_bet_option_valid(bet_type),
        r2 == spec_bet_option_valid(bet_type),
    ensures
        r1 == r2,
{
}

/// Street exhaustiveness: a triple of consecutive numbers starting at n with
/// 1 <= n <= 34 is a legal street exactly when (n - 1) is divisible by 3.
pub proof fn lemma_street_exhaustive(v: [u8; 3])
    requires
        1 <= v[0] <= 34,
        v[1] == v[0] + 1,
        v[2] == v[0] + 2,
    ensures
        spec_bet_option_valid(RouletteBetType::Street(v)) <==> (v[0] - 1) % 3 == 0,
{
}

} // verus!
