//! Picking the shoes of one size out of a heap of shoes.

use vstd::prelude::*;

verus! {

/// A shoe: its size and the name of its style.
#[derive(PartialEq, Debug)]
pub struct Shoe {
    pub size: u32,
    pub style: String,
}

/// The shoes of `shoes` that have size `shoe_size`, in the order in which
/// they lay in `shoes`.
pub open spec fn fitting(shoes: Seq<Shoe>, shoe_size: u32) -> Seq<Shoe> {
    shoes.filter(|shoe: Shoe| shoe.size == shoe_size)
}

/// Keeps the shoes of size `shoe_size` and drops the others. The shoes that
/// stay keep their order.
pub fn shoes_in_my_size(shoes: Vec<Shoe>, shoe_size: u32) -> (mine: Vec<Shoe>)
    ensures
        mine@ == fitting(shoes@, shoe_size),
{
    let mut mine: Vec<Shoe> = Vec::new();
    for shoe in it: shoes.into_iter()
        invariant
            it.seq() == shoes@,
            mine@ == fitting(shoes@.take(it.index() as int), shoe_size),
    {
        proof {
            assert(shoes@.take(it.index() + 1).drop_last() == shoes@.take(it.index() as int));
            reveal(Seq::filter);
        }
        if shoe.size == shoe_size {
            mine.push(shoe);
        }
    }
    proof {
        assert(shoes@.take(shoes@.len() as int) == shoes@);
    }
    mine
}

} // verus!
