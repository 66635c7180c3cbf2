//! Articles, the envelope in which the service sends them, and the lines
//! that show them on a terminal.

use vstd::prelude::*;
use vstd::string::*;
use crate::error::option_text;

verus! {

/// One headline as the service describes it.
#[derive(Debug, Clone, PartialEq, Eq)]
pub struct Article {
    pub title: String,
    pub url: String,
    pub description: Option<String>,
}

/// An `Article` with its texts as sequences of characters.
pub struct ArticleView {
    pub title: Seq<char>,
    pub url: Seq<char>,
    pub description: Option<Seq<char>>,
}

impl View for Article {
    type V = ArticleView;

    open spec fn view(&self) -> ArticleView {
        ArticleView {
            title: self.title@,
            url: self.url@,
            description: option_text(self.description),
        }
    }
}

/// The articles of a list, each by its view, in the order of the list.
pub open spec fn article_views(articles: Seq<Article>) -> Seq<ArticleView> {
    Seq::new(articles.len(), |i: int| articles[i]@)
}

/// The top-level object of a reply: a status, an error code that counts
/// only when the status is not `ok`, and the articles.
#[derive(Debug, Clone, PartialEq, Eq)]
pub struct NewsAPIResponse {
    pub status: String,
    pub code: Option<String>,
    pub articles: Vec<Article>,
}

/// A `NewsAPIResponse` with its texts as sequences of characters.
pub struct Envelope {
    pub status: Seq<char>,
    pub code: Option<Seq<char>>,
    pub articles: Seq<ArticleView>,
}

impl Envelope {
    /// Whether the service reports success.
    pub open spec fn is_ok(self) -> bool {
        self.status == "ok"@
    }
}

impl View for NewsAPIResponse {
    type V = Envelope;

    open spec fn view(&self) -> Envelope {
        Envelope {
            status: self.status@,
            code: option_text(self.code),
            articles: article_views(self.articles@),
        }
    }
}

impl NewsAPIResponse {
    /// The envelope that holds these three parts.
    pub fn new(status: String, code: Option<String>, articles: Vec<Article>) -> (envelope: Self)
        ensures
            envelope == (NewsAPIResponse { status, code, articles }),
    {
        NewsAPIResponse { status, code, articles }
    }

    /// Whether the service reports success.
    pub fn is_ok(&self) -> (ok: bool)
        ensures
            ok == self@.is_ok(),
    {
        self.status == "ok".to_owned()
    }

    /// The lines that show the articles of this envelope, in order.
    pub fn render(&self) -> (lines: Vec<Listing>)
        ensures
            listing_views(lines@) == listings_of(self@.articles),
    {
        render(&self.articles)
    }
}

/// The two lines that show one article on a terminal.
#[derive(Debug, Clone, PartialEq, Eq)]
pub struct Listing {
    /// The title, set off by an empty line and a mark.
    pub heading: String,
    /// The address, followed by an empty line.
    pub link: String,
}

/// A `Listing` with its lines as sequences of characters.
pub struct ListingView {
    pub heading: Seq<char>,
    pub link: Seq<char>,
}

impl View for Listing {
    type V = ListingView;

    open spec fn view(&self) -> ListingView {
        ListingView { heading: self.heading@, link: self.link@ }
    }
}

/// The listings of a list, each by its view, in the order of the list.
pub open spec fn listing_views(lines: Seq<Listing>) -> Seq<ListingView> {
    Seq::new(lines.len(), |i: int| lines[i]@)
}

/// The lines that show one article.
pub open spec fn listing_of(article: ArticleView) -> ListingView {
    ListingView {
        heading: "\n> "@ + article.title + "\n"@,
        link: "- "@ + article.url + "\n\n"@,
    }
}

/// The lines that show a list of articles: one listing for each, in order.
pub open spec fn listings_of(articles: Seq<ArticleView>) -> Seq<ListingView> {
    Seq::new(articles.len(), |i: int| listing_of(articles[i]))
}

/// The lines that show `articles` on a terminal, in order.
pub fn render(articles: &Vec<Article>) -> (lines: Vec<Listing>)
    ensures
        listing_views(lines@) == listings_of(article_views(articles@)),
{
    let mut lines: Vec<Listing> = Vec::new();
    let mut i: usize = 0;
    while i < articles.len()
        invariant
            i <= articles.len(),
            lines.len() == i,
            forall|k: int| 0 <= k < i ==> lines[k]@ == listing_of(#[trigger] articles[k]@),
        decreases articles.len() - i,
    {
        let article = &articles[i];
        let heading = "\n> ".to_owned().concat(article.title.as_str()).concat("\n");
        let link = "- ".to_owned().concat(article.url.as_str()).concat("\n\n");
        lines.push(Listing { heading, link });
        i += 1;
    }
    assert(listing_views(lines@) =~= listings_of(article_views(articles@)));
    lines
}

} // verus!
