//! A shirt giveaway: a user with a preference gets it; anyone else gets
//! the colour the inventory holds most of.

use vstd::prelude::*;

verus! {

#[derive(Debug, PartialEq, Eq, Structural, Copy, Clone)]
pub enum ShirtColor {
    Red,
    Blue,
}

/// How many of the shirts are red.
pub open spec fn red_count(shirts: Seq<ShirtColor>) -> nat
    decreases shirts.len(),
{
    if shirts.len() == 0 {
        0
    } else {
        red_count(shirts.drop_last()) + if shirts.last() is Red {
            1nat
        } else {
            0nat
        }
    }
}

/// How many of the shirts are blue.
pub open spec fn blue_count(shirts: Seq<ShirtColor>) -> nat
    decreases shirts.len(),
{
    if shirts.len() == 0 {
        0
    } else {
        blue_count(shirts.drop_last()) + if shirts.last() is Blue {
            1nat
        } else {
            0nat
        }
    }
}

pub struct Inventory {
    pub shirts: Vec<ShirtColor>,
}

impl Inventory {
    /// The colour with the larger stock; blue wins a tie.
    pub open spec fn spec_most_stocked(&self) -> ShirtColor {
        if red_count(self.shirts@) > blue_count(self.shirts@) {
            ShirtColor::Red
        } else {
            ShirtColor::Blue
        }
    }

    /// The preferred colour if the user named one, the best-stocked
    /// colour otherwise.
    pub fn giveaway(&self, user_preference: Option<ShirtColor>) -> (c: ShirtColor)
        ensures
            user_preference is Some ==> c == user_preference->0,
            user_preference is None ==> c == self.spec_most_stocked(),
    {
        match user_preference {
            Some(color) => color,
            None => self.most_stocked(),
        }
    }

    /// Count the stock and answer the colour with more; blue on a tie.
    pub fn most_stocked(&self) -> (c: ShirtColor)
        ensures
            c == self.spec_most_stocked(),
    {
        let mut num_red: usize = 0;
        let mut num_blue: usize = 0;
        let mut i: usize = 0;

        while i < self.shirts.len()
            invariant
                i <= self.shirts@.len(),
                num_red == red_count(self.shirts@.subrange(0, i as int)),
                num_blue == blue_count(self.shirts@.subrange(0, i as int)),
                num_red + num_blue == i,
            decreases self.shirts@.len() - i,
        {
            let ghost prefix = self.shirts@.subrange(0, i as int);
            match self.shirts[i] {
                ShirtColor::Red => {
                    num_red += 1;
                },
                ShirtColor::Blue => {
                    num_blue += 1;
                },
            }
            i += 1;
            proof {
                let grown = self.shirts@.subrange(0, i as int);
                assert(grown.drop_last() =~= prefix);
            }
        }
        proof {
            assert(self.shirts@.subrange(0, self.shirts@.len() as int) =~= self.shirts@);
        }
        if num_red > num_blue {
            ShirtColor::Red
        } else {
            ShirtColor::Blue
        }
    }
}

} // verus!
