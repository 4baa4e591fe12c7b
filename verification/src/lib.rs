//! A single round of European roulette: a bet model, a table-geometry
//! validator, a payout evaluator, and a spin engine that draws a winning
//! number and settles a batch of bets.

pub mod bets;
pub mod engine;
pub mod geometry;
pub mod payout;

pub use bets::PlaceBetError;
pub use bets::RouletteBet;
pub use bets::RouletteBetResult;
pub use bets::RouletteBetType;
pub use bets::calculate_total_bet;
pub use engine::Roulette;
pub use payout::RouletteEvaluator;
