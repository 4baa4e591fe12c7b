//! Payout evaluator tests: win decisions and exact amounts per category.

use roulette::Roulette;
use roulette::RouletteBet;
use roulette::RouletteBetResult;
use roulette::RouletteBetType;
use roulette::RouletteEvaluator;

#[test]
fn roulettebet_win_value() {
    for i in 1..100 {
        let rbs = RouletteBet::new(RouletteBetType::Straight(1), i);
        let rbc = RouletteBet::new(RouletteBetType::Corner([2, 3, 5, 6]), i);

        assert_eq!(rbs.win_value(), i * 36);
        assert_eq!(rbc.win_value(), i * 9)
    }
}

#[test]
fn rouletteeval_calc_winnings() {
    let wager = 10;
    let bets = vec![
        RouletteBet::new(RouletteBetType::Straight(1), wager),
        RouletteBet::new(RouletteBetType::Split([1, 2]), wager),
        RouletteBet::new(RouletteBetType::Street([1, 2, 3]), wager),
        RouletteBet::new(RouletteBetType::Basket([0, 1, 2]), wager),
        RouletteBet::new(RouletteBetType::Topline([0, 1, 2, 3]), wager),
        RouletteBet::new(RouletteBetType::Corner([1, 2, 4, 5]), wager),
        RouletteBet::new(RouletteBetType::Doubleline([1, 2, 3, 4, 5, 6]), wager),
        RouletteBet::new(RouletteBetType::Dozens(1), wager),
        RouletteBet::new(RouletteBetType::Columns(1), wager),
        RouletteBet::new(RouletteBetType::EvenOdd(0), wager),
        RouletteBet::new(RouletteBetType::Highlow(0), wager),
        RouletteBet::new(RouletteBetType::Redblack(0), wager),
    ];

    let results = RouletteEvaluator::calculate_winnings(2, 0, &bets);
    let mut winnings = 0;

    for res in results {
        match res.bet().bet_type() {
            RouletteBetType::Straight(_) => assert_eq!(res.win(), 0),
            RouletteBetType::Split(_) => assert_eq!(res.win(), 180),
            RouletteBetType::Street(_) => assert_eq!(res.win(), 120),
            RouletteBetType::Basket(_) => assert_eq!(res.win(), 120),
            RouletteBetType::Topline(_) => assert_eq!(res.win(), 90),
            RouletteBetType::Corner(_) => assert_eq!(res.win(), 90),
            RouletteBetType::Doubleline(_) => assert_eq!(res.win(), 60),
            RouletteBetType::Dozens(_) => assert_eq!(res.win(), 30),
            RouletteBetType::Columns(_) => assert_eq!(res.win(), 0),
            RouletteBetType::EvenOdd(_) => assert_eq!(res.win(), 20),
            RouletteBetType::Highlow(_) => assert_eq!(res.win(), 20),
            RouletteBetType::Redblack(_) => assert_eq!(res.win(), 20),
        }
        winnings += res.win();
    }

    assert_eq!(winnings, 750);
}

#[test]
fn straight_payout_scenario() {
    let bets = vec![
        RouletteBet::new(RouletteBetType::Straight(1), 10),
        RouletteBet::new(RouletteBetType::Straight(2), 10),
    ];
    let results = RouletteEvaluator::calculate_winnings(1, 0, &bets);
    assert_eq!(results[0].win(), 360);
    assert_eq!(results[1].win(), 0);
}

#[test]
fn dozens_payout_boundary() {
    let bets = vec![RouletteBet::new(RouletteBetType::Dozens(1), 10)];
    let on_12 = RouletteEvaluator::calculate_winnings(12, Roulette::get_number_colour(12), &bets);
    assert_eq!(on_12[0].win(), 30);
    let on_13 = RouletteEvaluator::calculate_winnings(13, Roulette::get_number_colour(13), &bets);
    assert_eq!(on_13[0].win(), 0);
}

#[test]
fn columns_payout_boundary() {
    let bets = vec![RouletteBet::new(RouletteBetType::Columns(2), 10)];
    let on_11 = RouletteEvaluator::calculate_winnings(11, Roulette::get_number_colour(11), &bets);
    assert_eq!(on_11[0].win(), 30);
    let on_10 = RouletteEvaluator::calculate_winnings(10, Roulette::get_number_colour(10), &bets);
    assert_eq!(on_10[0].win(), 0);
}

#[test]
fn zero_loses_even_money_bets() {
    let bets = vec![
        RouletteBet::new(RouletteBetType::EvenOdd(0), 10),
        RouletteBet::new(RouletteBetType::EvenOdd(1), 10),
        RouletteBet::new(RouletteBetType::Highlow(0), 10),
        RouletteBet::new(RouletteBetType::Highlow(1), 10),
        RouletteBet::new(RouletteBetType::Redblack(0), 10),
        RouletteBet::new(RouletteBetType::Redblack(1), 10),
        RouletteBet::new(RouletteBetType::Straight(0), 10),
    ];
    let results = RouletteEvaluator::calculate_winnings(0, Roulette::get_number_colour(0), &bets);
    for res in results.iter().take(6) {
        assert_eq!(res.win(), 0);
    }
    // zero itself still pays a straight bet
    assert_eq!(results[6].win(), 360);
}

#[test]
fn colour_of_numbers() {
    // the eighteen red numbers of the table
    let reds = [1, 3, 5, 7, 9, 12, 14, 16, 18, 19, 21, 23, 25, 27, 30, 32, 34, 36];
    let mut red_count = 0;
    for n in 1..=36u8 {
        if reds.contains(&n) {
            assert_eq!(Roulette::get_number_colour(n), 0);
            red_count += 1;
        } else {
            assert_eq!(Roulette::get_number_colour(n), 1);
        }
    }
    assert_eq!(red_count, 18);
}

#[test]
fn redblack_follows_colour() {
    let bets = vec![
        RouletteBet::new(RouletteBetType::Redblack(0), 10),
        RouletteBet::new(RouletteBetType::Redblack(1), 10),
    ];
    // 32 is red
    let on_red = RouletteEvaluator::calculate_winnings(32, Roulette::get_number_colour(32), &bets);
    assert_eq!(on_red[0].win(), 20);
    assert_eq!(on_red[1].win(), 0);
    // 26 is black
    let on_black = RouletteEvaluator::calculate_winnings(26, Roulette::get_number_colour(26), &bets);
    assert_eq!(on_black[0].win(), 0);
    assert_eq!(on_black[1].win(), 20);
}

#[test]
fn totals_repeat_across_calls() {
    let bets = vec![
        RouletteBet::new(RouletteBetType::Straight(17), 25),
        RouletteBet::new(RouletteBetType::Split([16, 17]), 10),
        RouletteBet::new(RouletteBetType::Dozens(2), 40),
        RouletteBet::new(RouletteBetType::Redblack(1), 15),
    ];
    let total = |results: Vec<RouletteBetResult>| -> u64 {
        results.iter().map(|r| r.win()).sum()
    };
    let first = total(RouletteEvaluator::calculate_winnings(
        17,
        Roulette::get_number_colour(17),
        &bets,
    ));
    let second = total(RouletteEvaluator::calculate_winnings(
        17,
        Roulette::get_number_colour(17),
        &bets,
    ));
    assert_eq!(first, second);
    // 17 is black: 25*36 + 10*18 + 40*3 + 15*2 = 1230
    assert_eq!(first, 1230);
}
