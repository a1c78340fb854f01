//! Things that can be summed up in a line, and the news that is made of the
//! line.

use vstd::prelude::*;
use vstd::string::StringExecFns;

verus! {

/// Something that can be summed up in a line of text.
pub trait Summary {
    /// The line. Where a type has nothing better, it invites to read on.
    fn summarize(&self) -> (line: String)
        default_ensures
            line@ == "Read more..."@,
    {
        "Read more...".to_owned()
    }
}

/// A short public message.
pub struct Tweet {
    pub username: String,
    pub content: String,
    pub reply: bool,
    pub retweet: bool,
}

impl Summary for Tweet {
    /// Who tweeted what.
    fn summarize(&self) -> (line: String)
        ensures
            line@ == self.username@ + " tweeted "@ + self.content@,
    {
        let mut line = self.username.clone();
        line.append(" tweeted ");
        line.append(self.content.as_str());
        line
    }
}

/// An article in a newspaper.
pub struct NewsArticle {
    pub headline: String,
    pub location: String,
    pub author: String,
    pub content: String,
}

impl Summary for NewsArticle {
    /// The headline and who wrote under it.
    fn summarize(&self) -> (line: String)
        ensures
            line@ == self.headline@ + ", by "@ + self.author@,
    {
        let mut line = self.headline.clone();
        line.append(", by ");
        line.append(self.author.as_str());
        line
    }
}

/// The breaking news that is made of the summary `line`.
pub open spec fn breaking(line: Seq<char>) -> Seq<char> {
    "Breaking news! "@ + line
}

/// The breaking news about `item`: its summary, announced.
pub fn notify<T: Summary>(item: &T) -> (news: String)
    ensures
        exists|line: String| #[trigger]
            call_ensures(T::summarize, (item,), line) && news@ == breaking(line@),
{
    let line = item.summarize();
    let mut news = "Breaking news! ".to_owned();
    news.append(line.as_str());
    news
}

/// The tweet that greets the world.
pub fn return_basic_tweet() -> (tweet: Tweet)
    ensures
        tweet.username@ == "discoding"@,
        tweet.content@ == "Hello World"@,
        !tweet.reply,
        !tweet.retweet,
{
    Tweet {
        username: "discoding".to_owned(),
        content: "Hello World".to_owned(),
        reply: false,
        retweet: false,
    }
}

/// Takes two items of one kind that can be summed up and shown, and leaves
/// them as they are.
#[allow(unused_variables)]
pub fn notify_multiple<T: Summary + std::fmt::Display>(item1: &T, item2: &T) {
}

/// Takes something that can be shown and copied and something that can be
/// copied and inspected, and leaves both as they are.
#[allow(unused_variables)]
pub fn some_function<T, U>(t: &T, u: &U) where T: std::fmt::Display + Clone, U: Clone + std::fmt::Debug {
}

} // verus!
