//! A shirt giveaway: a user's stated preference wins; without one, the
//! company gives away the colour it has the most of.

use vstd::prelude::*;

verus! {

/// The colours a shirt comes in.
#[derive(Debug, PartialEq, Eq, Structural, Copy, Clone)]
pub enum ShirtColor {
    Red,
    Blue,
}

/// How many shirts of colour `c` the sequence `s` holds.
pub open spec fn count_color(s: Seq<ShirtColor>, c: ShirtColor) -> int
    decreases s.len(),
{
    if s.len() == 0 {
        0
    } else {
        count_color(s.drop_last(), c) + if s.last() == c {
            1int
        } else {
            0int
        }
    }
}

/// The colour with the most shirts in stock; on a tie, blue.
pub open spec fn most_stocked_color(s: Seq<ShirtColor>) -> ShirtColor {
    if count_color(s, ShirtColor::Red) > count_color(s, ShirtColor::Blue) {
        ShirtColor::Red
    } else {
        ShirtColor::Blue
    }
}

/// The shirts a company has in stock, in no particular order.
pub struct Inventory {
    pub shirts: Vec<ShirtColor>,
}

impl Inventory {
    /// Picks the shirt to give away: the user's preference when one was
    /// stated, and otherwise the colour with the most shirts in stock.
    pub fn giveaway(&self, user_preference: Option<ShirtColor>) -> (c: ShirtColor)
        ensures
            c == match user_preference {
                Some(p) => p,
                None => most_stocked_color(self.shirts@),
            },
    {
        match user_preference {
            Some(p) => p,
            None => self.most_stocked(),
        }
    }

    /// Counts the stock of each colour and returns the larger one; on a
    /// tie, blue.
    fn most_stocked(&self) -> (c: ShirtColor)
        ensures
            c == most_stocked_color(self.shirts@),
    {
        let mut num_red: usize = 0;
        let mut num_blue: usize = 0;
        let n = self.shirts.len();
        let mut idx: usize = 0;
        while idx < n
            invariant
                n == self.shirts@.len(),
                idx <= n,
                num_red == count_color(self.shirts@.take(idx as int), ShirtColor::Red),
                num_blue == count_color(self.shirts@.take(idx as int), ShirtColor::Blue),
                num_red + num_blue == idx,
            decreases n - idx,
        {
            proof {
                assert(self.shirts@.take(idx + 1).drop_last() =~= self.shirts@.take(idx as int));
                assert(self.shirts@.take(idx + 1).last() == self.shirts@[idx as int]);
            }
            match self.shirts[idx] {
                ShirtColor::Red => {
                    num_red = num_red + 1;
                },
                ShirtColor::Blue => {
                    num_blue = num_blue + 1;
                },
            }
            idx += 1;
        }
        proof {
            assert(self.shirts@.take(n as int) =~= self.shirts@);
        }
        if num_red > num_blue {
            ShirtColor::Red
        } else {
            ShirtColor::Blue
        }
    }
}

} // verus!
