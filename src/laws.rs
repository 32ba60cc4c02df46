//! Properties of the state machine that hold for every state, command and draw.
use crate::alias::{Config, GameState, Lose, LotteryResult, SlotProbability, Win};
use crate::game::{continuation_spec, out_of_balls, step_spec, Command, ControlFlow, Draws, Event, Machine};
use crate::lottery::{draw_spec, PROBABILITY_SCALE};
use crate::slot::{render_spec, ReelDraw};
use vstd::prelude::*;

verus! {

/// All balls a state holds, rush balls included.
pub open spec fn pool(s: GameState) -> int {
    match s {
        GameState::Uninitialized => 0,
        GameState::Normal { balls } => balls as int,
        GameState::Rush { balls, rush_balls, .. } => balls + rush_balls,
    }
}

/// Launching a ball spends exactly one ball when there is one, and ends the
/// session without touching the ledger when there is none: no count ever goes
/// below zero.
pub proof fn lemma_launch_never_overdraws(m: Machine, cfg: Config, continue_value: u64, d: Draws)
    requires
        !m.finished,
        !(m.state is Uninitialized),
    ensures
        ({
            let (m2, flow, _) = step_spec(m, Command::LaunchBall, cfg, continue_value, d);
            &&& out_of_balls(m.state) ==> m2.state == m.state && m2.finished && flow
                == ControlFlow::Break
            &&& !out_of_balls(m.state) ==> pool(m.state) >= 1 && pool(m2.state) == pool(m.state)
                - 1 && !m2.finished
            &&& pool(m2.state) >= 0
        }),
{
}

/// `LaunchBall` on a normal state with no ball ends the session with a finish
/// event and leaves the ball count at zero.
pub proof fn lemma_launch_on_empty_normal_finishes(
    m: Machine,
    cfg: Config,
    continue_value: u64,
    d: Draws,
)
    requires
        !m.finished,
        m.state == (GameState::Normal { balls: 0 }),
    ensures
        ({
            let (m2, flow, events) = step_spec(m, Command::LaunchBall, cfg, continue_value, d);
            &&& m2.finished
            &&& flow == ControlFlow::Break
            &&& m2.state == (GameState::Normal { balls: 0 })
            &&& events.len() == 2
            &&& events.last() == Event::Finish(GameState::Normal { balls: 0 })
        }),
{
}

/// An ended session ignores every command: nothing changes and nothing is
/// emitted.
pub proof fn lemma_finished_session_ignores_commands(
    m: Machine,
    cmd: Command,
    cfg: Config,
    continue_value: u64,
    d: Draws,
)
    requires
        m.finished,
    ensures
        step_spec(m, cmd, cfg, continue_value, d) == (m, ControlFlow::Break, Seq::<Event>::empty()),
{
}

/// In a rush, a granted continuation raises the continuation count by exactly
/// one and a denied one returns to normal mode; the other commands keep the
/// count.
pub proof fn lemma_rush_count_steps_by_one(
    m: Machine,
    cmd: Command,
    cfg: Config,
    continue_value: u64,
    d: Draws,
)
    requires
        !m.finished,
        m.state is Rush,
        m.state->Rush_n < usize::MAX,
    ensures
        ({
            let (m2, _, _) = step_spec(m, cmd, cfg, continue_value, d);
            &&& cmd == Command::CauseLottery ==> {
                &&& m2.state is Rush <==> continuation_spec(
                    cfg,
                    continue_value,
                    d,
                ).is_win_spec()
                &&& m2.state is Rush ==> m2.state->Rush_n == m.state->Rush_n + 1
                &&& !(m2.state is Rush) ==> m2.state == (GameState::Normal {
                    balls: m.state->Rush_balls,
                })
            }
            &&& cmd != Command::CauseLottery ==> m2.state is Rush && m2.state->Rush_n
                == m.state->Rush_n
        }),
{
}

/// A rush entered from normal mode starts with a continuation count of zero.
pub proof fn lemma_rush_entry_resets_count(
    m: Machine,
    cmd: Command,
    cfg: Config,
    continue_value: u64,
    d: Draws,
)
    requires
        !(m.state is Rush),
    ensures
        ({
            let (m2, _, _) = step_spec(m, cmd, cfg, continue_value, d);
            m2.state is Rush ==> m2.state->Rush_n == 0
        }),
{
}

/// A table whose win threshold is 1 always draws a plain win; a table of
/// zeros always draws a plain loss.
pub proof fn lemma_certain_and_impossible_draws(p: SlotProbability, u: u64)
    ensures
        p.win == PROBABILITY_SCALE && u < PROBABILITY_SCALE ==> draw_spec(p, u)
            == LotteryResult::Win(Win::Default),
        p.win == 0 && p.fake_win == 0 && p.fake_lose == 0 ==> draw_spec(p, u)
            == LotteryResult::Lose(Lose::Default),
{
}

/// With a normal table whose win threshold is 1, every `CauseLottery` in
/// normal mode draws a plain win.
pub proof fn lemma_certain_normal_win(m: Machine, cfg: Config, continue_value: u64, d: Draws)
    requires
        !m.finished,
        m.state is Normal,
        cfg.probability.normal.win == PROBABILITY_SCALE,
        d.wf(),
    ensures
        ({
            let (_, _, events) = step_spec(m, Command::CauseLottery, cfg, continue_value, d);
            events[0] == Event::LotteryNormal(
                LotteryResult::Win(Win::Default),
                render_spec(LotteryResult::Win(Win::Default), d.first_reels),
            )
        }),
{
}

/// The table of zeros.
pub open spec fn zero_table() -> SlotProbability {
    SlotProbability { win: 0, fake_win: 0, fake_lose: 0 }
}

/// With every table at zero, no command outside a rush ever enters one, and
/// each `CauseLottery` in normal mode draws a plain loss and changes nothing.
pub proof fn lemma_zero_tables_never_rush(
    m: Machine,
    cmd: Command,
    cfg: Config,
    continue_value: u64,
    d: Draws,
)
    requires
        !(m.state is Rush),
        cfg.probability.normal == zero_table(),
        cfg.probability.rush == zero_table(),
        cfg.probability.rush_continue == zero_table(),
    ensures
        ({
            let (m2, _, events) = step_spec(m, cmd, cfg, continue_value, d);
            &&& !(m2.state is Rush)
            &&& (!m.finished && m.state is Normal && cmd == Command::CauseLottery) ==> {
                &&& m2.state == m.state
                &&& events.len() == 2
                &&& events[0] == Event::LotteryNormal(
                    LotteryResult::Lose(Lose::Default),
                    render_spec(LotteryResult::Lose(Lose::Default), d.first_reels),
                )
            }
        }),
{
}

/// The reels of a rendering always agree with the result they show.
pub proof fn lemma_rendering_shows_result(result: LotteryResult, d: ReelDraw)
    ensures
        render_spec(result, d).in_range(),
        render_spec(result, d).shows(result),
        render_spec(result, d).is_matching() == result.is_win_spec(),
{
}

/// Every lottery event of a step carries reels that agree with its result.
pub proof fn lemma_step_reels_show_results(
    m: Machine,
    cmd: Command,
    cfg: Config,
    continue_value: u64,
    d: Draws,
)
    ensures
        ({
            let (_, _, events) = step_spec(m, cmd, cfg, continue_value, d);
            forall|i: int|
                0 <= i < events.len() ==> match #[trigger] events[i] {
                    Event::LotteryNormal(r, reels) => reels.shows(r),
                    Event::LotteryRush(r, reels) => reels.shows(r),
                    Event::LotteryRushContinue(r, reels) => reels.shows(r),
                    _ => true,
                }
        }),
{
    lemma_rendering_shows_result(draw_spec(cfg.probability.normal, d.first), d.first_reels);
    lemma_rendering_shows_result(draw_spec(cfg.probability.rush, d.second), d.second_reels);
    lemma_rendering_shows_result(continuation_spec(cfg, continue_value, d), d.first_reels);
}

} // verus!
