//! A trait for media items that can be summarised in one line, a tweet that
//! implements it, and a second trait whose summary has a default
//! implementation.

use vstd::prelude::*;
use vstd::string::StringExecFns;

verus! {

/// Behaviour shared by items that can be summarised in one line.
pub trait Summary {
    /// The summary text, as a sequence of characters.
    spec fn summary(&self) -> Seq<char>;

    /// Produces the one-line summary.
    fn summarize(&self) -> (r: String)
        ensures
            r@ == self.summary(),
    ;
}

/// A short public message.
pub struct Tweet {
    pub username: String,
    pub content: String,
    pub reply: bool,
    pub retweet: bool,
}

impl Summary for Tweet {
    /// A tweet is summarised by its content alone.
    open spec fn summary(&self) -> Seq<char> {
        self.content@
    }

    fn summarize(&self) -> (r: String) {
        self.content.clone()
    }
}

/// A fixed example tweet, handed out as "some type that implements
/// `Summary`".
pub fn returns_summarizable() -> (t: Tweet)
    ensures
        t.summary() == "of course, as you probably already know, people"@,
        !t.reply,
        !t.retweet,
{
    Tweet {
        username: "horse_ebooks".to_owned(),
        content: "of course, as you probably already know, people".to_owned(),
        reply: false,
        retweet: false,
    }
}

/// Like `Summary`, but only the author needs to be given: the summary itself
/// has a default implementation that refers the reader to the author.
pub trait SummaryWithDefaultImplementation {
    /// The author's name, as a sequence of characters.
    spec fn author_name(&self) -> Seq<char>;

    /// The author tag: an `@` followed by the author's name.
    fn summarize_author(&self) -> (r: String)
        ensures
            r@ == "@"@ + self.author_name(),
    ;

    /// Refers the reader to the author.
    fn summarize(&self) -> (r: String)
        ensures
            r@ == "(Read more from "@ + ("@"@ + self.author_name()) + "...)"@,
    {
        let author_tag = self.summarize_author();
        let text = "(Read more from ".to_owned();
        let text = text.concat(author_tag.as_str());
        let text = text.concat("...)");
        text
    }
}

/// A news story with a headline, where it happened, who wrote it, and the
/// text itself.
pub struct NewsArticle {
    pub headline: String,
    pub location: String,
    pub author: String,
    pub content: String,
}

impl SummaryWithDefaultImplementation for NewsArticle {
    /// An article's author field names its author.
    open spec fn author_name(&self) -> Seq<char> {
        self.author@
    }

    fn summarize_author(&self) -> (r: String) {
        let tag = "@".to_owned();
        let tag = tag.concat(self.author.as_str());
        tag
    }
}

} // verus!
