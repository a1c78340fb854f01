//! Small helpers on text.

use vstd::prelude::*;
use vstd::string::StringExecFns;

verus! {

/// The longer of two texts, by their length in bytes; the second where
/// neither is longer.
pub fn longest<'a>(x: &'a str, y: &'a str) -> (longer: &'a str)
    ensures
        longer == if x.len() > y.len() {
            x
        } else {
            y
        },
{
    if x.len() > y.len() {
        x
    } else {
        y
    }
}

/// The greeting for `name`.
pub open spec fn greeting(name: Seq<char>) -> Seq<char> {
    "Hello, "@ + name
}

/// Greets `name`: returns the line to say.
pub fn hello(name: &str) -> (line: String)
    ensures
        line@ == greeting(name@),
{
    let mut line = "Hello, ".to_owned();
    line.append(name);
    line
}

} // verus!
