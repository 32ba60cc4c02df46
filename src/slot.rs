//! The slot renderer: three reels showing symbols `1..=7`, drawn so that what
//! they show agrees with the lottery result.
use crate::alias::{Lose, LotteryResult};
use vstd::prelude::*;

verus! {

/// The number of distinct reel symbols; symbols are `1..=SYMBOL_COUNT`.
pub const SYMBOL_COUNT: u8 = 7;

/// The three reels on the pay line.
#[derive(Clone, Copy, Debug, PartialEq, Eq, Structural)]
pub struct Reels {
    pub left: u8,
    pub center: u8,
    pub right: u8,
}

/// The random choices behind one rendering: which symbol, which offset, and
/// which position. Any values are valid; they are reduced modulo the range they
/// choose from.
#[derive(Clone, Copy, Debug, PartialEq, Eq, Structural)]
pub struct ReelDraw {
    pub symbol: u64,
    pub offset: u64,
    pub position: u64,
}

impl Reels {
    /// Every reel shows a symbol of `1..=SYMBOL_COUNT`.
    pub open spec fn in_range(self) -> bool {
        &&& 1 <= self.left <= SYMBOL_COUNT
        &&& 1 <= self.center <= SYMBOL_COUNT
        &&& 1 <= self.right <= SYMBOL_COUNT
    }

    /// All three reels match on the pay line.
    pub open spec fn is_matching(self) -> bool {
        self.left == self.center && self.center == self.right
    }

    /// No two reels match.
    pub open spec fn is_scattered(self) -> bool {
        self.left != self.center && self.center != self.right && self.left != self.right
    }

    /// Two reels match and the third shows a symbol next to theirs.
    pub open spec fn is_near_miss(self) -> bool {
        ||| (self.left == self.center && adjacent(self.center, self.right))
        ||| (self.left == self.right && adjacent(self.left, self.center))
        ||| (self.center == self.right && adjacent(self.center, self.left))
    }

    /// What the reels show is consistent with `result`: a win of either kind
    /// matches on the pay line, a plain loss shows three different symbols, and
    /// a fake loss is a near miss.
    pub open spec fn shows(self, result: LotteryResult) -> bool {
        match result {
            LotteryResult::Win(_) => self.is_matching(),
            LotteryResult::Lose(Lose::Default) => self.is_scattered(),
            LotteryResult::Lose(Lose::FakeLose) => self.is_near_miss(),
        }
    }
}

/// Two symbols that differ by exactly one.
pub open spec fn adjacent(a: u8, b: u8) -> bool {
    a + 1 == b || b + 1 == a
}

/// `v` taken around the symbol cycle, for `v < 2 * SYMBOL_COUNT`.
pub open spec fn wrap(v: int) -> int {
    if v >= SYMBOL_COUNT {
        v - SYMBOL_COUNT
    } else {
        v
    }
}

/// The symbol index (`0..SYMBOL_COUNT`) that a draw picks first.
pub open spec fn base_index(d: ReelDraw) -> int {
    (d.symbol % (SYMBOL_COUNT as u64)) as int
}

/// The index of the symbol next to `x` that a near miss shows.
pub open spec fn neighbour_index(x: int, d: ReelDraw) -> int {
    if x == SYMBOL_COUNT - 1 || (x > 0 && d.offset % 2 == 0) {
        x - 1
    } else {
        x + 1
    }
}

/// The distances around the cycle of the second and third symbols of a
/// plain loss: two different values of `1..SYMBOL_COUNT`.
pub open spec fn scatter_steps(d: ReelDraw) -> (int, int) {
    let first = 1 + (d.offset % 6) as int;
    let second0 = 1 + (d.position % 5) as int;
    let second = if second0 >= first {
        second0 + 1
    } else {
        second0
    };
    (first, second)
}

/// The reels rendered for `result` from the random choices `d`.
pub open spec fn render_spec(result: LotteryResult, d: ReelDraw) -> Reels {
    let x = base_index(d);
    match result {
        LotteryResult::Win(_) => Reels {
            left: (x + 1) as u8,
            center: (x + 1) as u8,
            right: (x + 1) as u8,
        },
        LotteryResult::Lose(Lose::Default) => {
            let (s, t) = scatter_steps(d);
            Reels {
                left: (x + 1) as u8,
                center: (wrap(x + s) + 1) as u8,
                right: (wrap(x + t) + 1) as u8,
            }
        },
        LotteryResult::Lose(Lose::FakeLose) => {
            let pair = (x + 1) as u8;
            let odd = (neighbour_index(x, d) + 1) as u8;
            let p = d.position % 3;
            if p == 0 {
                Reels { left: odd, center: pair, right: pair }
            } else if p == 1 {
                Reels { left: pair, center: odd, right: pair }
            } else {
                Reels { left: pair, center: pair, right: odd }
            }
        },
    }
}

fn wrap_index(v: u8) -> (r: u8)
    requires
        v < 2 * SYMBOL_COUNT,
    ensures
        r == wrap(v as int),
{
    if v >= SYMBOL_COUNT {
        v - SYMBOL_COUNT
    } else {
        v
    }
}

/// Renders the reels for `result` from the random choices `d`. The reels
/// always agree with the result: matching for a win, three different symbols
/// for a plain loss, a near miss for a fake loss.
pub fn render(result: LotteryResult, d: ReelDraw) -> (r: Reels)
    ensures
        r == render_spec(result, d),
        r.in_range(),
        r.shows(result),
        r.is_matching() == result.is_win_spec(),
{
    let x = (d.symbol % (SYMBOL_COUNT as u64)) as u8;
    match result {
        LotteryResult::Win(_) => Reels { left: x + 1, center: x + 1, right: x + 1 },
        LotteryResult::Lose(Lose::Default) => {
            let first = 1 + (d.offset % 6) as u8;
            let second0 = 1 + (d.position % 5) as u8;
            let second = if second0 >= first {
                second0 + 1
            } else {
                second0
            };
            Reels { left: x + 1, center: wrap_index(x + first) + 1, right: wrap_index(x + second) + 1 }
        },
        LotteryResult::Lose(Lose::FakeLose) => {
            let pair = x + 1;
            let odd = if x == SYMBOL_COUNT - 1 || (x > 0 && d.offset % 2 == 0) {
                x
            } else {
                x + 2
            };
            let p = d.position % 3;
            if p == 0 {
                Reels { left: odd, center: pair, right: pair }
            } else if p == 1 {
                Reels { left: pair, center: odd, right: pair }
            } else {
                Reels { left: pair, center: pair, right: odd }
            }
        },
    }
}

} // verus!
