//! A pachislo (Japanese ball-based slot machine) game engine.
//!
//! The library holds the game's state machine, the lottery that decides each
//! draw, the renderer that turns a lottery result into three reel symbols, and
//! the ball ledger. Probabilities are fixed-point integers: a probability `p`
//! is written as `p * PROBABILITY_SCALE`.
pub mod alias;
pub mod game;
pub mod laws;
pub mod ledger;
pub mod lottery;
pub mod slot;

pub use alias::{
    BallsConfig, Config, GameState, Lose, LotteryResult, Probability, SlotProbability,
    Transition, Win,
};
pub use game::{convert_string_to_command, parse_command, Command, ControlFlow, Draws, Event, Game, Machine};
pub use alias::GameError;
pub use lottery::PROBABILITY_SCALE;
pub use slot::{ReelDraw, Reels};
