//! A second take on the summary trait, with both a news article and a tweet
//! implementing it directly.

use vstd::prelude::*;
use vstd::string::StringExecFns;

verus! {

/// Behaviour shared by items that can be summarised in one line.
pub trait Summary {
    /// The summary text, as a sequence of characters.
    spec fn summary(&self) -> Seq<char>;

    /// Produces the one-line summary.
    fn summarize(&self) -> (r: String)
        ensures
            r@ == self.summary(),
    ;
}

/// A news story with a headline, where it happened, who wrote it, and the
/// text itself.
pub struct NewsArticle {
    pub headline: String,
    pub location: String,
    pub author: String,
    pub content: String,
}

impl Summary for NewsArticle {
    /// An article is summarised as `headline, by author (location)`.
    open spec fn summary(&self) -> Seq<char> {
        self.headline@ + ", by "@ + self.author@ + " ("@ + self.location@ + ")"@
    }

    fn summarize(&self) -> (r: String) {
        let text = self.headline.clone();
        let text = text.concat(", by ");
        let text = text.concat(self.author.as_str());
        let text = text.concat(" (");
        let text = text.concat(self.location.as_str());
        let text = text.concat(")");
        text
    }
}

/// A short public message.
pub struct Tweet {
    pub username: String,
    pub content: String,
    pub reply: bool,
    pub retweet: bool,
}

impl Summary for Tweet {
    /// A tweet is summarised as `username: content`.
    open spec fn summary(&self) -> Seq<char> {
        self.username@ + ": "@ + self.content@
    }

    fn summarize(&self) -> (r: String) {
        let text = self.username.clone();
        let text = text.concat(": ");
        let text = text.concat(self.content.as_str());
        text
    }
}

} // verus!
