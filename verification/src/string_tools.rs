//! Small helpers that build strings of repeated layout characters.
use crate::text::push_char;
use vstd::prelude::*;

verus! {

fn quick_maker(amount: usize, character: char) -> (r: String)
    ensures
        r@ == Seq::new(amount as nat, |i: int| character),
{
    let mut s = String::new();
    let mut i: usize = 0;
    while i < amount
        invariant
            i <= amount,
            s@ == Seq::new(i as nat, |j: int| character),
        decreases amount - i,
    {
        push_char(&mut s, character);
        proof {
            assert(s@ =~= Seq::new((i + 1) as nat, |j: int| character));
        }
        i = i + 1;
    }
    s
}

/// A string of `amount` newlines.
pub fn newliner(amount: usize) -> (r: String)
    ensures
        r@ == Seq::new(amount as nat, |i: int| '\n'),
{
    quick_maker(amount, '\n')
}

/// A string of `amount` tabs.
pub fn tabber(amount: usize) -> (r: String)
    ensures
        r@ == Seq::new(amount as nat, |i: int| '\t'),
{
    quick_maker(amount, '\t')
}

} // verus!
