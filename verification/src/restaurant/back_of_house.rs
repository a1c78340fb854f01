use vstd::prelude::*;

verus! {

/// A breakfast order. The guest chooses the toast; the fruit is whatever is
/// in season and is decided by the kitchen.
pub struct Breakfast {
    pub toast: String,
    seasonal_fruit: String,
}

/// What can be had before the meal.
pub enum Appetizer {
    Soup,
    Salad,
}

impl Breakfast {
    /// The fruit that comes with this breakfast.
    pub closed spec fn fruit(&self) -> Seq<char> {
        self.seasonal_fruit@
    }

    /// The toast that was ordered.
    pub closed spec fn bread(&self) -> Seq<char> {
        self.toast@
    }

    /// The summer breakfast: the toast asked for, with peaches.
    pub fn summer(toast: &str) -> (meal: Breakfast)
        ensures
            meal.bread() == toast@,
            meal.fruit() == "peaches"@,
    {
        Breakfast { toast: toast.to_owned(), seasonal_fruit: "peaches".to_owned() }
    }

    /// Changes the toast of this order; the fruit stays as the kitchen chose.
    pub fn set_toast(&mut self, toast: &str)
        ensures
            final(self).bread() == toast@,
            final(self).fruit() == old(self).fruit(),
    {
        self.toast = toast.to_owned();
    }

    /// The toast that was ordered.
    pub fn toast(&self) -> (toast: &str)
        ensures
            toast@ == self.bread(),
    {
        self.toast.as_str()
    }

    /// The fruit that comes with this breakfast.
    pub fn seasonal_fruit(&self) -> (fruit: &str)
        ensures
            fruit@ == self.fruit(),
    {
        self.seasonal_fruit.as_str()
    }
}

/// Sends a wrong order back through the kitchen and out again.
pub fn fix_incorrect_order() {
    cook_order();
    super::serve_order();
}

/// Cooks the order that is up next.
fn cook_order() {
}

} // verus!
