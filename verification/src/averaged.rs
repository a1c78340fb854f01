//! A collection of numbers that keeps their total up to date, so that their
//! average is one division away.

use vstd::prelude::*;

verus! {

/// The sum of `items`.
pub open spec fn sum(items: Seq<i32>) -> int
    decreases items.len(),
{
    if items.len() == 0 {
        0
    } else {
        sum(items.drop_last()) + items.last()
    }
}

/// A sum of numbers of 32 bits is at most that many times the greatest
/// such number away from zero.
pub proof fn lemma_sum_bounds(items: Seq<i32>)
    ensures
        -0x8000_0000 * items.len() <= sum(items) <= 0x7fff_ffff * items.len(),
    decreases items.len(),
{
    if items.len() > 0 {
        lemma_sum_bounds(items.drop_last());
    }
}

/// The sum of as many numbers of 32 bits as a vector holds is far from the
/// ends of 128 bits.
pub proof fn lemma_sum_fits(items: Seq<i32>)
    requires
        items.len() <= usize::MAX,
    ensures
        -0x8000_0000_0000_0000_0000_0000 <= sum(items) <= 0x8000_0000_0000_0000_0000_0000,
{
    lemma_sum_bounds(items);
    let n = items.len() as int;
    assert(0x7fff_ffff * n <= 0x7fff_ffff * 0xffff_ffff_ffff_ffff) by (nonlinear_arith)
        requires
            0 <= n <= 0xffff_ffff_ffff_ffff,
    ;
    assert(-0x8000_0000 * n >= -0x8000_0000 * 0xffff_ffff_ffff_ffff) by (nonlinear_arith)
        requires
            0 <= n <= 0xffff_ffff_ffff_ffff,
    ;
}

/// Numbers in the order in which they were added, with their total. The
/// average of the numbers is the total divided by their count; the
/// collection leaves that division to whoever wants the average.
pub struct AveragedCollection {
    collection: Vec<i32>,
    total: i128,
}

impl View for AveragedCollection {
    type V = Seq<i32>;

    /// The numbers, in the order in which they were added.
    closed spec fn view(&self) -> Seq<i32> {
        self.collection@
    }
}

impl AveragedCollection {
    /// The invariant: the total that is kept is the sum of the numbers.
    pub closed spec fn wf(&self) -> bool {
        self.total == sum(self.collection@)
    }

    /// The collection without numbers.
    pub fn new() -> (empty: AveragedCollection)
        ensures
            empty.wf(),
            empty@ == Seq::<i32>::empty(),
    {
        AveragedCollection { collection: Vec::new(), total: 0 }
    }

    /// Adds `value` behind the numbers that are there.
    pub fn add(&mut self, value: i32)
        requires
            old(self).wf(),
        ensures
            final(self).wf(),
            final(self)@ == old(self)@.push(value),
    {
        proof {
            assert(self.collection@.len() == self.collection.len());
            lemma_sum_fits(self.collection@);
            assert(self.collection@.push(value).drop_last() =~= self.collection@);
        }
        self.collection.push(value);
        self.total = self.total + (value as i128);
    }

    /// Takes the number that was added last out of the collection and
    /// returns it; `None` where the collection is empty.
    pub fn remove(&mut self) -> (removed: Option<i32>)
        requires
            old(self).wf(),
        ensures
            final(self).wf(),
            match removed {
                Some(value) => old(self)@.len() > 0 && value == old(self)@.last() && final(self)@
                    == old(self)@.drop_last(),
                None => old(self)@.len() == 0 && final(self)@ == old(self)@,
            },
    {
        proof {
            assert(self.collection@.len() == self.collection.len());
            lemma_sum_fits(self.collection@);
        }
        let pop_result = self.collection.pop();
        match pop_result {
            Some(value) => {
                self.total = self.total - (value as i128);
                Some(value)
            },
            None => None,
        }
    }

    /// The sum of the numbers.
    pub fn total(&self) -> (total: i128)
        requires
            self.wf(),
        ensures
            total == sum(self@),
    {
        self.total
    }

    /// How many numbers there are.
    pub fn len(&self) -> (len: usize)
        ensures
            len == self@.len(),
    {
        self.collection.len()
    }
}

} // verus!
