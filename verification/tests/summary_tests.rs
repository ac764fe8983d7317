use the_book::articles;
use the_book::articles::Summary as ArticleSummary;
use the_book::generics::{largest, some_function, some_function_with_where_clause};
use the_book::tweets;
use the_book::tweets::{returns_summarizable, Summary, SummaryWithDefaultImplementation};

#[test]
fn largest_of_numbers_and_chars() {
    let number_list = vec![34, 50, 25, 100, 65];
    assert_eq!(largest(&number_list), 100);

    let char_list = vec!['y', 'm', 'a', 'q'];
    assert_eq!(largest(&char_list), 'y');
}

#[test]
fn where_clause_functions_return_one() {
    assert_eq!(some_function(&"a", &1), 1);
    assert_eq!(some_function_with_where_clause(&"a", &1), 1);
}

#[test]
fn tweet_summary_is_its_content() {
    let tweet = tweets::Tweet {
        username: String::from("horse_ebooks"),
        content: String::from("of course, as you probably already know, people"),
        reply: false,
        retweet: false,
    };
    assert_eq!(
        tweet.summarize(),
        "of course, as you probably already know, people"
    );
}

#[test]
fn summarizable_tweet_comes_back() {
    let tweet = returns_summarizable();
    assert_eq!(tweet.username, "horse_ebooks");
    assert_eq!(
        tweet.summarize(),
        "of course, as you probably already know, people"
    );
}

#[test]
fn default_summary_refers_to_the_author() {
    let article = tweets::NewsArticle {
        headline: String::from("Penguins win the Stanley Cup Championship!"),
        location: String::from("Pittsburgh, PA, USA"),
        author: String::from("Iceburgh"),
        content: String::from(
            "The Pittsburgh Penguins once again are the best hockey team in the NHL.",
        ),
    };
    assert_eq!(article.summarize_author(), "@Iceburgh");
    assert_eq!(article.summarize(), "(Read more from @Iceburgh...)");
}

#[test]
fn article_summary_names_author_and_location() {
    let article = articles::NewsArticle {
        headline: String::from("Penguins win the Stanley Cup Championship!"),
        location: String::from("Pittsburgh, PA, USA"),
        author: String::from("Iceburgh"),
        content: String::from(
            "The Pittsburgh Penguins once again are the best hockey team in the NHL.",
        ),
    };
    assert_eq!(
        article.summarize(),
        "Penguins win the Stanley Cup Championship!, by Iceburgh (Pittsburgh, PA, USA)"
    );
}

#[test]
fn tweet_summary_names_the_author() {
    let tweet = articles::Tweet {
        username: String::from("horse_ebooks"),
        content: String::from("of course, as you probably already know, people"),
        reply: false,
        retweet: false,
    };
    assert_eq!(
        tweet.summarize(),
        "horse_ebooks: of course, as you probably already know, people"
    );
}
