//! A small restaurant: the front of house seats guests, the back of house
//! cooks for them.

use vstd::prelude::*;
use vstd::string::StringExecFns;

pub mod back_of_house;
pub mod front_of_house;

use back_of_house::{Appetizer, Breakfast};
use front_of_house::hosting;

verus! {

/// The sentence a guest says when ordering `toast`.
pub open spec fn order_line(toast: Seq<char>) -> Seq<char> {
    "I'd like a "@ + toast + " toast please"@
}

/// Brings a finished order to the table.
pub(crate) fn serve_order() {
}

/// One visit: the guest is put on the waiting list, orders the summer
/// breakfast with multigrain toast, changes their mind to wheat, and picks
/// between the two appetizers. Returns what the guest says to the waiter.
pub fn eat_at_restaurant() -> (line: String)
    ensures
        line@ == order_line("Wheat"@),
{
    hosting::add_to_waitlist();
    hosting::add_to_waitlist();

    let mut meal = Breakfast::summer("Multigrain");
    meal.set_toast("Wheat");
    let mut line = "I'd like a ".to_owned();
    line.append(meal.toast());
    line.append(" toast please");

    let _order1 = Appetizer::Soup;
    let _order2 = Appetizer::Salad;

    hosting::add_to_waitlist();
    line
}

} // verus!
