//! The lottery: turning a uniform sample into a result against a table of
//! cumulative thresholds, and the random source that supplies the samples.
use crate::alias::{Lose, LotteryResult, SlotProbability, Win};
use rand::rngs::StdRng;
use rand::{RngExt, SeedableRng};
use vstd::prelude::*;

verus! {

/// The fixed-point value that stands for probability 1: samples are drawn
/// uniformly from `[0, PROBABILITY_SCALE)`.
pub const PROBABILITY_SCALE: u64 = 1_000_000;

/// The result of a draw with sample `u` against `p`. The thresholds are
/// cumulative and scanned in the order win, fake_win, fake_lose.
pub open spec fn draw_spec(p: SlotProbability, u: u64) -> LotteryResult {
    if u < p.win {
        LotteryResult::Win(Win::Default)
    } else if u < p.win + p.fake_win {
        LotteryResult::Win(Win::FakeWin)
    } else if u < p.win + p.fake_win + p.fake_lose {
        LotteryResult::Lose(Lose::FakeLose)
    } else {
        LotteryResult::Lose(Lose::Default)
    }
}

/// Draws a result from table `p` with the uniform sample `u`.
pub fn draw(p: &SlotProbability, u: u64) -> (r: LotteryResult)
    ensures
        r == draw_spec(*p, u),
{
    if u < p.win {
        LotteryResult::Win(Win::Default)
    } else {
        let rest = u - p.win;
        if rest < p.fake_win {
            LotteryResult::Win(Win::FakeWin)
        } else {
            let rest = rest - p.fake_win;
            if rest < p.fake_lose {
                LotteryResult::Lose(Lose::FakeLose)
            } else {
                LotteryResult::Lose(Lose::Default)
            }
        }
    }
}

#[verifier::external_type_specification]
#[verifier::external_body]
pub struct ExStdRng(StdRng);

/// Relies on rand's `SeedableRng::seed_from_u64` for `StdRng`: a generator
/// whose stream is fixed by the seed.
#[verifier::external_body]
pub(crate) fn seeded_rng(seed: u64) -> StdRng {
    StdRng::seed_from_u64(seed)
}

/// Relies on rand's `RngExt::random_range`: a value of the half-open range
/// `0..bound`, which must not be empty.
#[verifier::external_body]
pub(crate) fn sample_below(rng: &mut StdRng, bound: u64) -> (r: u64)
    requires
        bound > 0,
    ensures
        r < bound,
{
    rng.random_range(0..bound)
}

} // verus!
