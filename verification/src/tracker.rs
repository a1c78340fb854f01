//! A value with a limit, and the notice that goes out whenever the value is
//! set: one notice for each call, chosen by comparing the new value with the
//! limit.

use vstd::prelude::*;

verus! {

/// Something that can deliver a notice. The tracker asks no more of it, so
/// that a real channel and a stand-in that only keeps what it is given serve
/// alike.
pub trait Messenger {
    fn send_message(&mut self, message: &str);
}

/// A messenger that is lent delivers through the one that lent it, and
/// stays the one that was lent: what it has become when the loan ends is
/// what the lender finds.
impl<'a, M: Messenger> Messenger for &'a mut M {
    fn send_message(&mut self, message: &str)
        ensures
            exists|m: &mut M|
                *m == **old(self) && *final(m) == **final(self) && #[trigger] call_ensures(
                    M::send_message,
                    (m, message),
                    (),
                ),
            *final(*final(self)) == *final(*old(self)),
    {
        (**self).send_message(message);
    }
}

/// Where a value stands against its limit.
#[derive(Clone, Copy, Debug, PartialEq, Eq, Structural)]
pub enum Standing {
    /// The value is at most the limit.
    WithinLimit,
    /// The value is above the limit.
    OverLimit,
}

impl Standing {
    /// Where `value` stands against the limit `max`.
    pub open spec fn spec_of(value: u32, max: u32) -> Standing {
        if value > max {
            Standing::OverLimit
        } else {
            Standing::WithinLimit
        }
    }

    /// Where `value` stands against the limit `max`.
    #[verifier::when_used_as_spec(spec_of)]
    pub fn of(value: u32, max: u32) -> (standing: Standing)
        ensures
            standing == Standing::spec_of(value, max),
    {
        if value > max {
            Standing::OverLimit
        } else {
            Standing::WithinLimit
        }
    }

    /// The text of the notice for this standing.
    pub open spec fn text(self) -> Seq<char> {
        match self {
            Standing::WithinLimit => "within-limit"@,
            Standing::OverLimit => "over-limit"@,
        }
    }

    /// The notice for this standing.
    pub fn notice(&self) -> (notice: &'static str)
        ensures
            notice@ == self.text(),
    {
        match self {
            Standing::WithinLimit => "within-limit",
            Standing::OverLimit => "over-limit",
        }
    }
}

/// What a tracker holds.
pub struct TrackerState<T> {
    /// The messenger through which notices go out.
    pub messenger: T,
    /// The value that was set last; zero before any was set.
    pub value: u32,
    /// The limit, fixed when the tracker is made.
    pub max: u32,
}

/// Tracks a value against a limit and sends a notice through its messenger
/// whenever the value is set. To keep the messenger, lend it: a `&mut` to a
/// messenger is a messenger.
pub struct LimitTracker<T: Messenger> {
    messenger: T,
    value: u32,
    max: u32,
}

impl<T: Messenger> View for LimitTracker<T> {
    type V = TrackerState<T>;

    closed spec fn view(&self) -> TrackerState<T> {
        TrackerState { messenger: self.messenger, value: self.value, max: self.max }
    }
}

impl<T: Messenger> LimitTracker<T> {
    /// A tracker with the limit `max` that sends its notices through
    /// `messenger`. Its value is zero, and nothing has been sent.
    pub fn new(messenger: T, max: u32) -> (tracker: Self)
        ensures
            tracker@ == (TrackerState { messenger, value: 0, max }),
    {
        LimitTracker { messenger, value: 0, max }
    }

    /// Stores `value` and sends one notice: that the value is over the limit
    /// where it is greater than the limit, and that it is within the limit
    /// otherwise. The messenger is left as one call of `send_message` with
    /// that notice leaves it.
    pub fn set_value(&mut self, value: u32)
        ensures
            final(self)@.value == value,
            final(self)@.max == old(self)@.max,
            exists|m: &mut T, notice: &str|
                *m == old(self)@.messenger && *final(m) == final(self)@.messenger && notice@
                    == Standing::of(value, old(self)@.max).text() && #[trigger] call_ensures(
                    T::send_message,
                    (m, notice),
                    (),
                ),
    {
        self.value = value;
        let standing = Standing::of(self.value, self.max);
        self.messenger.send_message(standing.notice());
    }

    /// The value that was set last.
    pub fn value(&self) -> (value: u32)
        ensures
            value == self@.value,
    {
        self.value
    }

    /// The limit.
    pub fn max(&self) -> (max: u32)
        ensures
            max == self@.max,
    {
        self.max
    }

    /// The messenger, to look at.
    pub fn messenger(&self) -> (messenger: &T)
        ensures
            *messenger == self@.messenger,
    {
        &self.messenger
    }

    /// Ends the tracker and hands its messenger back.
    pub fn into_messenger(self) -> (messenger: T)
        ensures
            messenger == self@.messenger,
    {
        self.messenger
    }
}

/// A messenger that delivers nothing and keeps every notice it is given, in
/// the order in which they came.
pub struct Recorder {
    messages: Vec<String>,
}

impl View for Recorder {
    type V = Seq<Seq<char>>;

    /// The notices received so far, oldest first.
    closed spec fn view(&self) -> Seq<Seq<char>> {
        self.messages@.map_values(|message: String| message@)
    }
}

impl Recorder {
    /// A recorder that has received nothing.
    pub fn new() -> (recorder: Recorder)
        ensures
            recorder@ == Seq::<Seq<char>>::empty(),
    {
        Recorder { messages: Vec::new() }
    }

    /// How many notices have been received.
    pub fn len(&self) -> (len: usize)
        ensures
            len == self@.len(),
    {
        self.messages.len()
    }

    /// The notice that was received as number `index`, counted from zero, if
    /// that many have been received.
    pub fn get(&self, index: usize) -> (message: Option<&str>)
        ensures
            match message {
                Some(text) => index < self@.len() && text@ == self@[index as int],
                None => index >= self@.len(),
            },
    {
        if index < self.messages.len() {
            Some(self.messages[index].as_str())
        } else {
            None
        }
    }
}

impl Messenger for Recorder {
    fn send_message(&mut self, message: &str)
        ensures
            final(self)@ == old(self)@.push(message@),
    {
        self.messages.push(message.to_owned());
    }
}

} // verus!
