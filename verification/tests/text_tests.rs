use primer::my_box::MyBox;
use primer::points::{MultiPoint, Point};
use primer::summary::{notify, return_basic_tweet, NewsArticle, Summary, Tweet};
use primer::text::{hello, longest};

#[test]
fn the_longer_text_is_found() {
    let str1: String = String::from("abcd");
    let str2: &str = "xyz";
    assert_eq!(longest(str1.as_str(), str2), "abcd");
    assert_eq!(longest("xyz", "abcd"), "abcd");
}

#[test]
fn of_texts_of_one_length_the_second_is_found() {
    assert_eq!(longest("abc", "xyz"), "xyz");
    assert_eq!(longest("", ""), "");
}

#[test]
fn length_is_counted_in_bytes() {
    assert_eq!(longest("\u{e9}", "ab"), "ab");
    assert_eq!(longest("\u{e9}a", "ab"), "\u{e9}a");
}

#[test]
fn hello_greets_by_name() {
    assert_eq!(hello("Express Gradient"), "Hello, Express Gradient");
    assert_eq!(hello(""), "Hello, ");
}

#[test]
fn a_box_gives_what_it_holds() {
    let x: u32 = 5;
    let my_box_y: MyBox<u32> = MyBox::new(x);
    assert_eq!(x, *my_box_y);
    let m: MyBox<String> = MyBox::new(String::from("Express Gradient"));
    assert_eq!(hello(&m), "Hello, Express Gradient");
}

#[test]
fn a_point_gives_its_first_coordinate() {
    let integer: Point<i32> = Point { x: 2, y: 3 };
    assert_eq!(*integer.x(), 2);
    let text = Point { x: "left", y: "right" };
    assert_eq!(*text.x(), "left");
}

#[test]
fn mixed_points_take_one_coordinate_from_each() {
    let first: MultiPoint<i32, f32> = MultiPoint { x: 2, y: 3.0 };
    let second = MultiPoint { x: "Hello", y: 'c' };
    let mixed = first.mix(second);
    assert_eq!(mixed.x, 2);
    assert_eq!(mixed.y, 'c');
}

#[test]
fn a_tweet_says_who_tweeted_what() {
    let tweet: Tweet = Tweet {
        username: String::from("Express Gradient"),
        content: String::from("Hello World"),
        reply: false,
        retweet: false,
    };
    assert_eq!(tweet.summarize(), "Express Gradient tweeted Hello World");
}

#[test]
fn an_article_gives_headline_and_author() {
    let news_article: NewsArticle = NewsArticle {
        headline: String::from("Elon Musk becomes the richest person on the planet"),
        content: String::from("This happened because of sudden increase in Tesla shares by 4.8%"),
        author: String::from("Express Gradient"),
        location: String::from("Remote"),
    };
    assert_eq!(
        news_article.summarize(),
        "Elon Musk becomes the richest person on the planet, by Express Gradient"
    );
    assert_eq!(
        notify(&news_article),
        "Breaking news! Elon Musk becomes the richest person on the planet, by Express Gradient"
    );
}

struct Note;

impl Summary for Note {}

#[test]
fn a_type_without_a_summary_of_its_own_invites_to_read_on() {
    assert_eq!(Note.summarize(), "Read more...");
    assert_eq!(notify(&Note), "Breaking news! Read more...");
}

#[test]
fn the_basic_tweet() {
    let tweet = return_basic_tweet();
    assert_eq!(tweet.username, "discoding");
    assert_eq!(tweet.content, "Hello World");
    assert!(!tweet.reply);
    assert!(!tweet.retweet);
    assert_eq!(tweet.summarize(), "discoding tweeted Hello World");
}
