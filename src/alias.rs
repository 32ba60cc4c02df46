//! The game's data: states, transitions, lottery results and configuration.
use vstd::prelude::*;

verus! {

/// The state of a game session.
///
/// * `Uninitialized`: no session started yet.
/// * `Normal { balls }`: standard mode, `balls` is the player's remaining ball count.
/// * `Rush { balls, rush_balls, n }`: bonus mode; `rush_balls` are the balls earned
///   during the rush and `n` counts the continuations granted so far.
#[derive(Clone, Copy, Debug, PartialEq, Eq, Structural)]
pub enum GameState {
    Uninitialized,
    Normal { balls: usize },
    Rush { balls: usize, rush_balls: usize, n: usize },
}

/// A change of state: the state before the command (`None` for the very first
/// transition of a session) and the state after it.
#[derive(Clone, Copy, Debug, PartialEq, Eq, Structural)]
pub struct Transition {
    pub before: Option<GameState>,
    pub after: GameState,
}

/// The kinds of winning draws.
#[derive(Clone, Copy, Debug, PartialEq, Eq, Structural)]
pub enum Win {
    /// A plain win.
    Default,
    /// A win that is first presented as a loss.
    FakeWin,
}

/// The kinds of losing draws.
#[derive(Clone, Copy, Debug, PartialEq, Eq, Structural)]
pub enum Lose {
    /// A plain loss.
    Default,
    /// A loss that is presented as a near miss.
    FakeLose,
}

/// The result of one lottery draw.
#[derive(Clone, Copy, Debug, PartialEq, Eq, Structural)]
pub enum LotteryResult {
    Win(Win),
    Lose(Lose),
}

impl LotteryResult {
    pub open spec fn is_win_spec(self) -> bool {
        self is Win
    }

    /// Whether the result is a win of either kind.
    pub fn is_win(&self) -> (r: bool)
        ensures
            r == self.is_win_spec(),
            r <==> (*self == LotteryResult::Win(Win::Default) || *self == LotteryResult::Win(
                Win::FakeWin,
            )),
            !r <==> (*self == LotteryResult::Lose(Lose::Default) || *self == LotteryResult::Lose(
                Lose::FakeLose,
            )),
    {
        match self {
            LotteryResult::Win(_) => true,
            LotteryResult::Lose(_) => false,
        }
    }
}

/// Ball economy of a session: the balls a session starts with, the balls
/// credited for a win in normal mode, and the rush balls granted on entering or
/// continuing a rush.
#[derive(Clone, Copy, Debug, PartialEq, Eq, Structural)]
pub struct BallsConfig {
    pub init_balls: usize,
    pub incremental_balls: usize,
    pub incremental_rush: usize,
}

impl BallsConfig {
    pub fn new(init_balls: usize, incremental_balls: usize, incremental_rush: usize) -> (r: Self)
        ensures
            r.init_balls == init_balls,
            r.incremental_balls == incremental_balls,
            r.incremental_rush == incremental_rush,
    {
        BallsConfig { init_balls, incremental_balls, incremental_rush }
    }
}

/// Thresholds of one lottery table, each a fixed-point probability
/// (`PROBABILITY_SCALE` stands for 1). They are read as a cumulative scan in the
/// order win, fake_win, fake_lose; their sum need not be 1.
#[derive(Clone, Copy, Debug, PartialEq, Eq, Structural)]
pub struct SlotProbability {
    pub win: u64,
    pub fake_win: u64,
    pub fake_lose: u64,
}

impl SlotProbability {
    pub fn new(win: u64, fake_win: u64, fake_lose: u64) -> (r: Self)
        ensures
            r.win == win,
            r.fake_win == fake_win,
            r.fake_lose == fake_lose,
    {
        SlotProbability { win, fake_win, fake_lose }
    }

    /// Each threshold lies in `[0, 1]`.
    pub open spec fn wf(self) -> bool {
        &&& self.win <= crate::lottery::PROBABILITY_SCALE
        &&& self.fake_win <= crate::lottery::PROBABILITY_SCALE
        &&& self.fake_lose <= crate::lottery::PROBABILITY_SCALE
    }
}

/// The lottery tables of a session: `normal` for draws in normal mode, `rush`
/// for the rush-entry draw that follows a normal win, and `rush_continue` for
/// the draws that decide a rush continuation.
#[derive(Clone, Copy, Debug, PartialEq, Eq, Structural)]
pub struct Probability {
    pub normal: SlotProbability,
    pub rush: SlotProbability,
    pub rush_continue: SlotProbability,
}

impl Probability {
    pub fn new(normal: SlotProbability, rush: SlotProbability, rush_continue: SlotProbability) -> (r:
        Self)
        ensures
            r.normal == normal,
            r.rush == rush,
            r.rush_continue == rush_continue,
    {
        Probability { normal, rush, rush_continue }
    }

    pub open spec fn wf(self) -> bool {
        self.normal.wf() && self.rush.wf() && self.rush_continue.wf()
    }
}

/// The full configuration of a session.
#[derive(Clone, Copy, Debug, PartialEq, Eq, Structural)]
pub struct Config {
    pub balls: BallsConfig,
    pub probability: Probability,
}

impl Config {
    pub fn new(balls: BallsConfig, probability: Probability) -> (r: Self)
        ensures
            r.balls == balls,
            r.probability == probability,
    {
        Config { balls, probability }
    }

    /// A session can be started from this configuration: it starts with at
    /// least one ball and every threshold lies in `[0, 1]`.
    pub open spec fn wf(self) -> bool {
        self.balls.init_balls >= 1 && self.probability.wf()
    }
}


/// Errors the engine reports.
#[derive(Clone, Copy, Debug, PartialEq, Eq, Structural)]
pub enum GameError {
    /// A command name that maps to no command.
    UnrecognizedCommand,
    /// A configuration that no session can start from.
    InvalidConfiguration,
    /// A debit larger than the balance.
    InsufficientBalls,
}

} // verus!
