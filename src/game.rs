//! The game state machine: commands, the events a command emits, and the
//! session that applies commands with draws from its own random source.
use crate::alias::{Config, GameError, GameState, Lose, LotteryResult, Transition};
use crate::ledger::{credit, credit_spec, debit};
use crate::lottery::{draw, draw_spec, sample_below, seeded_rng, PROBABILITY_SCALE};
use crate::slot::{render, render_spec, ReelDraw, Reels};
use rand::rngs::StdRng;
use vstd::prelude::*;

verus! {

/// A command to the state machine. `FinishGame` also stands for the `Finish`
/// alias of the command surface.
#[derive(Clone, Copy, Debug, PartialEq, Eq, Structural)]
pub enum Command {
    StartGame,
    LaunchBall,
    CauseLottery,
    FinishGame,
}

/// Whether the caller should go on sending commands.
#[derive(Clone, Copy, Debug, PartialEq, Eq, Structural)]
pub enum ControlFlow {
    Continue,
    Break,
}

/// What a command emits to the output boundary, in the order it happens.
#[derive(Clone, Copy, Debug, PartialEq, Eq, Structural)]
pub enum Event {
    /// Emitted once for every accepted command.
    Transition(Transition),
    /// Emitted when the session ends, with its final state.
    Finish(GameState),
    /// A draw in normal mode and its reels.
    LotteryNormal(LotteryResult, Reels),
    /// The rush-entry draw that follows a win in normal mode, and its reels.
    LotteryRush(LotteryResult, Reels),
    /// The draw that decides a rush continuation, and its reels.
    LotteryRushContinue(LotteryResult, Reels),
}

/// The command that the name `s` stands for, if any.
pub open spec fn command_named(s: Seq<char>) -> Option<Command> {
    if s == "LaunchBall"@ {
        Some(Command::LaunchBall)
    } else if s == "CauseLottery"@ {
        Some(Command::CauseLottery)
    } else if s == "StartGame"@ {
        Some(Command::StartGame)
    } else if s == "FinishGame"@ || s == "Finish"@ {
        Some(Command::FinishGame)
    } else {
        None
    }
}

/// Reads a command name: `LaunchBall`, `CauseLottery`, `StartGame`,
/// `FinishGame`, or `Finish` (the same as `FinishGame`).
pub fn convert_string_to_command(input: &str) -> (r: Option<Command>)
    ensures
        r == command_named(input@),
{
    let s = input.to_owned();
    if s.eq(&"LaunchBall".to_owned()) {
        Some(Command::LaunchBall)
    } else if s.eq(&"CauseLottery".to_owned()) {
        Some(Command::CauseLottery)
    } else if s.eq(&"StartGame".to_owned()) {
        Some(Command::StartGame)
    } else if s.eq(&"FinishGame".to_owned()) || s.eq(&"Finish".to_owned()) {
        Some(Command::FinishGame)
    } else {
        None
    }
}

/// Reads a command name, reporting a name that maps to no command.
pub fn parse_command(input: &str) -> (r: Result<Command, GameError>)
    ensures
        command_named(input@) is Some ==> r == Ok::<Command, GameError>(
            command_named(input@).unwrap(),
        ),
        command_named(input@) is None ==> r == Err::<Command, GameError>(
            GameError::UnrecognizedCommand,
        ),
{
    match convert_string_to_command(input) {
        Some(c) => Ok(c),
        None => Err(GameError::UnrecognizedCommand),
    }
}

/// The random samples one command may consume. `first`, `second` and `eligibility`
/// are uniform samples of `[0, PROBABILITY_SCALE)`; the reel draws choose the
/// symbols shown for the first and the second lottery of the command.
#[derive(Clone, Copy, Debug, PartialEq, Eq, Structural)]
pub struct Draws {
    pub first: u64,
    pub second: u64,
    pub eligibility: u64,
    pub first_reels: ReelDraw,
    pub second_reels: ReelDraw,
}

impl Draws {
    pub open spec fn wf(self) -> bool {
        &&& self.first < PROBABILITY_SCALE
        &&& self.second < PROBABILITY_SCALE
        &&& self.eligibility < PROBABILITY_SCALE
    }
}

/// The state of a session as the state machine sees it: the current game
/// state, the state before the next command (`None` until the first command),
/// and whether the session has ended.
#[derive(Clone, Copy, Debug, PartialEq, Eq, Structural)]
pub struct Machine {
    pub state: GameState,
    pub before: Option<GameState>,
    pub finished: bool,
}

/// A `LaunchBall` that finds no ball to spend: it ends the session.
pub open spec fn out_of_balls(s: GameState) -> bool {
    match s {
        GameState::Normal { balls } => balls == 0,
        GameState::Rush { balls, rush_balls, .. } => balls == 0 && rush_balls == 0,
        GameState::Uninitialized => false,
    }
}

/// Whether `cmd` ends a session that is in state `s`.
pub open spec fn ends_session(s: GameState, cmd: Command) -> bool {
    cmd == Command::FinishGame || (cmd == Command::LaunchBall && out_of_balls(s))
}

/// The rush-continuation result: when the eligibility sample falls under
/// `continue_value` (the rush-continuation function at the current count) the
/// `rush_continue` table is drawn, otherwise the continuation is a plain loss.
pub open spec fn continuation_spec(cfg: Config, continue_value: u64, d: Draws) -> LotteryResult {
    if d.eligibility < continue_value {
        draw_spec(cfg.probability.rush_continue, d.first)
    } else {
        LotteryResult::Lose(Lose::Default)
    }
}

/// The state after spending one ball: a rush spends its rush balls first.
pub open spec fn launched(s: GameState) -> GameState {
    match s {
        GameState::Normal { balls } => GameState::Normal { balls: (balls - 1) as usize },
        GameState::Rush { balls, rush_balls, n } => if rush_balls > 0 {
            GameState::Rush { balls, rush_balls: (rush_balls - 1) as usize, n }
        } else {
            GameState::Rush { balls: (balls - 1) as usize, rush_balls, n }
        },
        GameState::Uninitialized => s,
    }
}

/// The state after a command that does not end the session.
pub open spec fn next_state(
    s: GameState,
    cmd: Command,
    cfg: Config,
    continue_value: u64,
    d: Draws,
) -> GameState {
    match cmd {
        Command::StartGame => match s {
            GameState::Uninitialized => GameState::Normal { balls: cfg.balls.init_balls },
            _ => s,
        },
        Command::LaunchBall => launched(s),
        Command::CauseLottery => match s {
            GameState::Normal { balls } => if draw_spec(
                cfg.probability.normal,
                d.first,
            ).is_win_spec() {
                let credited = credit_spec(balls, cfg.balls.incremental_balls);
                if draw_spec(cfg.probability.rush, d.second).is_win_spec() {
                    GameState::Rush {
                        balls: credited,
                        rush_balls: cfg.balls.incremental_rush,
                        n: 0,
                    }
                } else {
                    GameState::Normal { balls: credited }
                }
            } else {
                s
            },
            GameState::Rush { balls, rush_balls, n } => if continuation_spec(
                cfg,
                continue_value,
                d,
            ).is_win_spec() {
                GameState::Rush {
                    balls,
                    rush_balls: credit_spec(rush_balls, cfg.balls.incremental_rush),
                    n: credit_spec(n, 1),
                }
            } else {
                GameState::Normal { balls }
            },
            GameState::Uninitialized => s,
        },
        Command::FinishGame => s,
    }
}

/// The lottery events of a command in state `s`, before its transition.
pub open spec fn lottery_events(
    s: GameState,
    cmd: Command,
    cfg: Config,
    continue_value: u64,
    d: Draws,
) -> Seq<Event> {
    if cmd != Command::CauseLottery {
        seq![]
    } else {
        match s {
            GameState::Normal { .. } => {
                let r1 = draw_spec(cfg.probability.normal, d.first);
                let e1 = Event::LotteryNormal(r1, render_spec(r1, d.first_reels));
                if r1.is_win_spec() {
                    let r2 = draw_spec(cfg.probability.rush, d.second);
                    seq![e1, Event::LotteryRush(r2, render_spec(r2, d.second_reels))]
                } else {
                    seq![e1]
                }
            },
            GameState::Rush { .. } => {
                let r = continuation_spec(cfg, continue_value, d);
                seq![Event::LotteryRushContinue(r, render_spec(r, d.first_reels))]
            },
            GameState::Uninitialized => seq![],
        }
    }
}

/// One step of the state machine. A finished session ignores every command. An
/// accepted command emits its lottery events, then exactly one transition, then
/// a finish event if it ends the session.
pub open spec fn step_spec(
    m: Machine,
    cmd: Command,
    cfg: Config,
    continue_value: u64,
    d: Draws,
) -> (Machine, ControlFlow, Seq<Event>) {
    if m.finished {
        (m, ControlFlow::Break, seq![])
    } else {
        let ends = ends_session(m.state, cmd);
        let next = if ends {
            m.state
        } else {
            next_state(m.state, cmd, cfg, continue_value, d)
        };
        let transition = Event::Transition(Transition { before: m.before, after: next });
        let tail = if ends {
            seq![transition, Event::Finish(next)]
        } else {
            seq![transition]
        };
        (
            Machine { state: next, before: Some(next), finished: ends },
            if ends {
                ControlFlow::Break
            } else {
                ControlFlow::Continue
            },
            lottery_events(m.state, cmd, cfg, continue_value, d) + tail,
        )
    }
}

impl Machine {
    /// A machine before its first command.
    pub fn new() -> (r: Machine)
        ensures
            r == (Machine { state: GameState::Uninitialized, before: None, finished: false }),
    {
        Machine { state: GameState::Uninitialized, before: None, finished: false }
    }

    fn launch_ball(s: GameState) -> (r: GameState)
        requires
            !out_of_balls(s),
        ensures
            r == launched(s),
    {
        match s {
            GameState::Normal { balls } => match debit(balls, 1) {
                Ok(left) => GameState::Normal { balls: left },
                Err(_) => s,
            },
            GameState::Rush { balls, rush_balls, n } => match debit(rush_balls, 1) {
                Ok(left) => GameState::Rush { balls, rush_balls: left, n },
                Err(_) => match debit(balls, 1) {
                    Ok(left) => GameState::Rush { balls: left, rush_balls, n },
                    Err(_) => s,
                },
            },
            GameState::Uninitialized => s,
        }
    }

    fn cause_lottery(
        s: GameState,
        cfg: &Config,
        continue_value: u64,
        d: &Draws,
        events: &mut Vec<Event>,
    ) -> (r: GameState)
        ensures
            r == next_state(s, Command::CauseLottery, *cfg, continue_value, *d),
            final(events)@ == old(events)@ + lottery_events(
                s,
                Command::CauseLottery,
                *cfg,
                continue_value,
                *d,
            ),
    {
        match s {
            GameState::Normal { balls } => {
                let r1 = draw(&cfg.probability.normal, d.first);
                events.push(Event::LotteryNormal(r1, render(r1, d.first_reels)));
                if r1.is_win() {
                    let credited = credit(balls, cfg.balls.incremental_balls);
                    let r2 = draw(&cfg.probability.rush, d.second);
                    events.push(Event::LotteryRush(r2, render(r2, d.second_reels)));
                    if r2.is_win() {
                        GameState::Rush {
                            balls: credited,
                            rush_balls: cfg.balls.incremental_rush,
                            n: 0,
                        }
                    } else {
                        GameState::Normal { balls: credited }
                    }
                } else {
                    s
                }
            },
            GameState::Rush { balls, rush_balls, n } => {
                let r = if d.eligibility < continue_value {
                    draw(&cfg.probability.rush_continue, d.first)
                } else {
                    LotteryResult::Lose(Lose::Default)
                };
                events.push(Event::LotteryRushContinue(r, render(r, d.first_reels)));
                if r.is_win() {
                    GameState::Rush {
                        balls,
                        rush_balls: credit(rush_balls, cfg.balls.incremental_rush),
                        n: credit(n, 1),
                    }
                } else {
                    GameState::Normal { balls }
                }
            },
            GameState::Uninitialized => s,
        }
    }

    /// Applies `cmd` with configuration `cfg`, the value `continue_value` of the
    /// rush-continuation function at the current continuation count, and the
    /// samples `d`. Returns the next machine, whether to go on, and the events
    /// in the order they happen.
    pub fn step(&self, cmd: Command, cfg: &Config, continue_value: u64, d: &Draws) -> (r: (
        Machine,
        ControlFlow,
        Vec<Event>,
    ))
        ensures
            (r.0, r.1, r.2@) == step_spec(*self, cmd, *cfg, continue_value, *d),
    {
        let mut events: Vec<Event> = Vec::new();
        if self.finished {
            return (*self, ControlFlow::Break, events);
        }
        let s = self.state;
        let ends = match cmd {
            Command::FinishGame => true,
            Command::LaunchBall => match s {
                GameState::Normal { balls } => balls == 0,
                GameState::Rush { balls, rush_balls, .. } => balls == 0 && rush_balls == 0,
                GameState::Uninitialized => false,
            },
            _ => false,
        };
        let next = if ends {
            s
        } else {
            match cmd {
                Command::StartGame => match s {
                    GameState::Uninitialized => GameState::Normal { balls: cfg.balls.init_balls },
                    _ => s,
                },
                Command::LaunchBall => Machine::launch_ball(s),
                Command::CauseLottery => Machine::cause_lottery(
                    s,
                    cfg,
                    continue_value,
                    d,
                    &mut events,
                ),
                Command::FinishGame => s,
            }
        };
        proof {
            if cmd != Command::CauseLottery || ends {
                assert(events@ =~= lottery_events(s, cmd, *cfg, continue_value, *d));
            }
        }
        events.push(Event::Transition(Transition { before: self.before, after: next }));
        if ends {
            events.push(Event::Finish(next));
        }
        let flow = if ends {
            ControlFlow::Break
        } else {
            ControlFlow::Continue
        };
        let m = Machine { state: next, before: Some(next), finished: ends };
        proof {
            let spec = step_spec(*self, cmd, *cfg, continue_value, *d);
            assert(events@ =~= spec.2);
        }
        (m, flow, events)
    }
}

/// The bound of the reel draws: a multiple of every modulus the renderer
/// reduces a draw by, so each reduced choice is uniform.
const REEL_DRAW_BOUND: u64 = 420;

/// A game session: the state machine, its configuration, and the random
/// source that supplies every draw.
pub struct Game {
    machine: Machine,
    config: Config,
    rng: StdRng,
}

impl Game {
    /// The state machine of the session.
    pub closed spec fn machine_spec(&self) -> Machine {
        self.machine
    }

    /// The configuration of the session.
    pub closed spec fn config_spec(&self) -> Config {
        self.config
    }

    /// Starts a session from `config`, with a random source seeded by `seed`.
    /// A configuration with no initial ball, or with a threshold above 1, is
    /// refused.
    pub fn new(config: Config, seed: u64) -> (r: Result<Game, GameError>)
        ensures
            config.wf() <==> r is Ok,
            !config.wf() ==> r == Err::<Game, GameError>(GameError::InvalidConfiguration),
            r is Ok ==> r->Ok_0.config_spec() == config,
            r is Ok ==> r->Ok_0.machine_spec() == (Machine {
                state: GameState::Uninitialized,
                before: None,
                finished: false,
            }),
    {
        let p = config.probability;
        let valid = config.balls.init_balls >= 1 && p.normal.win <= PROBABILITY_SCALE
            && p.normal.fake_win <= PROBABILITY_SCALE && p.normal.fake_lose <= PROBABILITY_SCALE
            && p.rush.win <= PROBABILITY_SCALE && p.rush.fake_win <= PROBABILITY_SCALE
            && p.rush.fake_lose <= PROBABILITY_SCALE && p.rush_continue.win <= PROBABILITY_SCALE
            && p.rush_continue.fake_win <= PROBABILITY_SCALE && p.rush_continue.fake_lose
            <= PROBABILITY_SCALE;
        if !valid {
            return Err(GameError::InvalidConfiguration);
        }
        Ok(Game { machine: Machine::new(), config, rng: seeded_rng(seed) })
    }

    /// The current game state.
    pub fn state(&self) -> (r: GameState)
        ensures
            r == self.machine_spec().state,
    {
        self.machine.state
    }

    /// Whether the session has ended.
    pub fn is_finished(&self) -> (r: bool)
        ensures
            r == self.machine_spec().finished,
    {
        self.machine.finished
    }

    fn reel_draw(&mut self) -> (r: ReelDraw)
        ensures
            final(self).machine_spec() == old(self).machine_spec(),
            final(self).config_spec() == old(self).config_spec(),
    {
        let symbol = sample_below(&mut self.rng, REEL_DRAW_BOUND);
        let offset = sample_below(&mut self.rng, REEL_DRAW_BOUND);
        let position = sample_below(&mut self.rng, REEL_DRAW_BOUND);
        ReelDraw { symbol, offset, position }
    }

    fn draws(&mut self) -> (r: Draws)
        ensures
            r.wf(),
            final(self).machine_spec() == old(self).machine_spec(),
            final(self).config_spec() == old(self).config_spec(),
    {
        let first = sample_below(&mut self.rng, PROBABILITY_SCALE);
        let second = sample_below(&mut self.rng, PROBABILITY_SCALE);
        let eligibility = sample_below(&mut self.rng, PROBABILITY_SCALE);
        let first_reels = self.reel_draw();
        let second_reels = self.reel_draw();
        Draws { first, second, eligibility, first_reels, second_reels }
    }

    /// Applies one command. `continue_value` is the rush-continuation function
    /// evaluated at the current continuation count, as a fixed-point
    /// probability; it is read only when a rush continuation is decided. The
    /// session draws its samples, whatever they are, and steps its state
    /// machine with them.
    pub fn run_step_with_command(&mut self, command: Command, continue_value: u64) -> (r: (
        ControlFlow,
        Vec<Event>,
    ))
        ensures
            final(self).config_spec() == old(self).config_spec(),
            exists|d: Draws|
                #![trigger step_spec(old(self).machine_spec(), command, old(self).config_spec(), continue_value, d)]
                d.wf() && (final(self).machine_spec(), r.0, r.1@) == step_spec(
                    old(self).machine_spec(),
                    command,
                    old(self).config_spec(),
                    continue_value,
                    d,
                ),
            // Launching with no ball in normal mode ends the session untouched.
            !old(self).machine_spec().finished && old(self).machine_spec().state == (GameState::Normal {
                balls: 0,
            }) && command == Command::LaunchBall ==> {
                &&& final(self).machine_spec().finished
                &&& final(self).machine_spec().state == (GameState::Normal { balls: 0 })
                &&& r.0 == ControlFlow::Break
                &&& r.1@.last() == Event::Finish(GameState::Normal { balls: 0 })
            },
            // A rush continuation raises the count by exactly one, or leaves the rush.
            !old(self).machine_spec().finished && old(self).machine_spec().state is Rush
                && old(self).machine_spec().state->Rush_n < usize::MAX && command
                == Command::CauseLottery ==> {
                &&& final(self).machine_spec().state is Rush ==> final(self).machine_spec().state->Rush_n
                    == old(self).machine_spec().state->Rush_n + 1
                &&& !(final(self).machine_spec().state is Rush) ==> final(self).machine_spec().state
                    == (GameState::Normal { balls: old(self).machine_spec().state->Rush_balls })
                &&& r.0 == ControlFlow::Continue
            },
            // A normal table whose win threshold is 1 always draws a plain win.
            !old(self).machine_spec().finished && old(self).machine_spec().state is Normal
                && old(self).config_spec().probability.normal.win == PROBABILITY_SCALE && command
                == Command::CauseLottery ==> r.1@[0] is LotteryNormal && r.1@[0]->LotteryNormal_0
                == LotteryResult::Win(crate::alias::Win::Default),
    {
        let ghost m0 = self.machine;
        let ghost cfg = self.config;
        let d = self.draws();
        let (m, flow, events) = self.machine.step(command, &self.config, continue_value, &d);
        proof {
            if !m0.finished && m0.state == (GameState::Normal { balls: 0 }) && command
                == Command::LaunchBall {
                crate::laws::lemma_launch_on_empty_normal_finishes(m0, cfg, continue_value, d);
            }
            if !m0.finished && m0.state is Rush && m0.state->Rush_n < usize::MAX {
                crate::laws::lemma_rush_count_steps_by_one(m0, command, cfg, continue_value, d);
            }
            if !m0.finished && m0.state is Normal && cfg.probability.normal.win == PROBABILITY_SCALE {
                crate::laws::lemma_certain_normal_win(m0, cfg, continue_value, d);
            }
        }
        self.machine = m;
        (flow, events)
    }

    /// Applies the command named `name`. A name that maps to no command is
    /// refused and leaves the session exactly as it was.
    pub fn run_step_with_name(&mut self, name: &str, continue_value: u64) -> (r: Result<
        (ControlFlow, Vec<Event>),
        GameError,
    >)
        ensures
            final(self).config_spec() == old(self).config_spec(),
            command_named(name@) is None <==> r is Err,
            command_named(name@) is None ==> r == Err::<(ControlFlow, Vec<Event>), GameError>(
                GameError::UnrecognizedCommand,
            ) && final(self).machine_spec() == old(self).machine_spec(),
            command_named(name@) is Some ==> exists|d: Draws|
                #![trigger step_spec(old(self).machine_spec(), command_named(name@).unwrap(), old(self).config_spec(), continue_value, d)]
                d.wf() && (final(self).machine_spec(), r->Ok_0.0, r->Ok_0.1@) == step_spec(
                    old(self).machine_spec(),
                    command_named(name@).unwrap(),
                    old(self).config_spec(),
                    continue_value,
                    d,
                ),
    {
        match convert_string_to_command(name) {
            Some(command) => Ok(self.run_step_with_command(command, continue_value)),
            None => Err(GameError::UnrecognizedCommand),
        }
    }
}

} // verus!
