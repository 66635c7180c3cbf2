//! The address of a request, assembled with the `url` crate and held to
//! the form of the service's addresses.

use vstd::prelude::*;
use vstd::string::*;
use url::{ParseError, Url};
use crate::error::{Failure, NewsApiError};
use crate::query::{Country, Endpoint};

verus! {

/// The address under which every endpoint of the service lies.
pub const BASE_URL: &'static str = "https://newsapi.org/v2/";

/// `url::Url`, a parsed URL. Nothing of its inside is known here.
#[verifier::external_type_specification]
#[verifier::external_body]
pub struct ExUrl(Url);

/// `url::ParseError`, the reason for which the `url` crate rejects a text.
#[verifier::external_type_specification]
#[verifier::external_body]
pub struct ExParseError(ParseError);

/// The serialisation of a URL: what `Url::as_str` returns for it.
pub uninterp spec fn url_text(url: Url) -> Seq<char>;

/// What `Url::parse` makes of a text: the serialisation of the URL that it
/// returns, or its error.
pub uninterp spec fn url_parsed(input: Seq<char>) -> Result<Seq<char>, ParseError>;

/// The serialisation after `PathSegmentsMut::pop_if_empty` on the URL with
/// the serialisation `text`; `None` where that URL cannot be a base and so
/// has no path segments.
pub uninterp spec fn empty_segment_dropped(text: Seq<char>) -> Option<Seq<char>>;

/// The serialisation after `PathSegmentsMut::push` of `segment` on the URL
/// with the serialisation `text`; `None` where that URL cannot be a base.
pub uninterp spec fn segment_pushed(text: Seq<char>, segment: Seq<char>) -> Option<Seq<char>>;

/// The serialisation after `Url::set_query` with `Some(query)` on the URL
/// with the serialisation `text`.
pub uninterp spec fn query_set(text: Seq<char>, query: Seq<char>) -> Seq<char>;

/// The sentence that `ParseError`'s `Display` writes for an error.
pub uninterp spec fn parse_error_text(error: ParseError) -> Seq<char>;

/// The length under which a serialisation and what is added to it must
/// stay, so that the result stays under the 4 GB that the `url` crate can
/// index: its setters panic beyond that.
pub const MAX_TEXT: usize = 0x0800_0000;

/// Calls `Url::parse`. Trusted: the call is a function of the text alone,
/// and hands back either a URL or an error.
#[verifier::external_body]
fn parse_url(input: &str) -> (parsed: Result<Url, ParseError>)
    ensures
        match parsed {
            Ok(url) => url_parsed(input@) == Ok::<Seq<char>, ParseError>(url_text(url)),
            Err(error) => url_parsed(input@) == Err::<Seq<char>, ParseError>(error),
        },
{
    Url::parse(input)
}

/// Calls `Url::as_str`. Trusted: the string is the serialisation.
#[verifier::external_body]
fn url_string(url: &Url) -> (text: String)
    ensures
        text@ == url_text(*url),
{
    url.as_str().to_owned()
}

/// Calls `PathSegmentsMut::pop_if_empty` on the handle that
/// `Url::path_segments_mut` gives. Trusted: the new serialisation is a
/// function of the old one, and a URL that cannot be a base, for which
/// there is no handle, is left as it was.
#[verifier::external_body]
fn drop_empty_segment(url: &mut Url) -> (done: bool)
    requires
        url_text(*old(url)).len() < MAX_TEXT,
    ensures
        match empty_segment_dropped(url_text(*old(url))) {
            Some(text) => done && url_text(*final(url)) == text,
            None => !done && *final(url) == *old(url),
        },
{
    match url.path_segments_mut() {
        Ok(mut path) => {
            path.pop_if_empty();
            true
        },
        Err(()) => false,
    }
}

/// Calls `PathSegmentsMut::push` on the handle that `Url::path_segments_mut`
/// gives. Trusted: the new serialisation is a function of the old one and
/// of the segment, and a URL that cannot be a base is left as it was.
#[verifier::external_body]
fn push_segment(url: &mut Url, segment: &str) -> (done: bool)
    requires
        url_text(*old(url)).len() < MAX_TEXT,
        segment@.len() < MAX_TEXT,
    ensures
        match segment_pushed(url_text(*old(url)), segment@) {
            Some(text) => done && url_text(*final(url)) == text,
            None => !done && *final(url) == *old(url),
        },
{
    match url.path_segments_mut() {
        Ok(mut path) => {
            path.push(segment);
            true
        },
        Err(()) => false,
    }
}

/// Calls `Url::set_query` with `Some(query)`. Trusted: the new
/// serialisation is a function of the old one and of the query.
#[verifier::external_body]
fn set_query(url: &mut Url, query: &str)
    requires
        url_text(*old(url)).len() < MAX_TEXT,
        query@.len() < MAX_TEXT,
    ensures
        url_text(*final(url)) == query_set(url_text(*old(url)), query@),
{
    url.set_query(Some(query))
}

/// Calls `ParseError`'s `Display`. Trusted: the sentence depends on the
/// error alone.
#[verifier::external_body]
fn describe(error: &ParseError) -> (text: String)
    ensures
        text@ == parse_error_text(*error),
{
    error.to_string()
}

/// The form of the address for a query under a base:
/// `{base}{endpoint}?country={country}`.
pub open spec fn address_for(base: Seq<char>, endpoint: Endpoint, country: Country) -> Seq<char> {
    base + endpoint.text() + "?country="@ + country.text()
}

/// The form of the address for a query under the base of the service.
pub open spec fn request_url(endpoint: Endpoint, country: Country) -> Seq<char> {
    address_for(BASE_URL@, endpoint, country)
}

/// A serialisation that may go into another step of the assembly, or the
/// reason why the assembly ends here.
pub open spec fn in_reach(text: Seq<char>) -> Result<Seq<char>, Seq<char>> {
    if text.len() < MAX_TEXT {
        Ok(text)
    } else {
        Err(text)
    }
}

/// What a step of the assembly leaves: the serialisation that it gave,
/// or, where the URL cannot be a base, the one `before` it as the reason
/// why the assembly ends here.
pub open spec fn after_step(got: Option<Seq<char>>, before: Seq<char>) -> Result<
    Seq<char>,
    Seq<char>,
> {
    match got {
        Some(text) => in_reach(text),
        None => Err(before),
    }
}

/// What the assembly comes to, step by step as `assemble` takes them: the
/// base is parsed, its empty last segment is dropped, the endpoint is
/// pushed as a segment, the country is set as the query, and the outcome
/// is held to the form `address_for`. `Ok` with the address, or `Err` with
/// the description of the error: the sentence of the `url` crate where it
/// rejects the base, else the serialisation at which the assembly ended.
pub open spec fn assembled(base: Seq<char>, endpoint: Endpoint, country: Country) -> Result<
    Seq<char>,
    Seq<char>,
> {
    let query = "country="@ + country.text();
    match url_parsed(base) {
        Err(error) => Err(parse_error_text(error)),
        Ok(parsed) => match in_reach(parsed) {
            Err(why) => Err(why),
            Ok(whole) => match after_step(empty_segment_dropped(whole), whole) {
                Err(why) => Err(why),
                Ok(stem) => match after_step(segment_pushed(stem, endpoint.text()), stem) {
                    Err(why) => Err(why),
                    Ok(path) => held_to(query_set(path, query), address_for(base, endpoint, country)),
                },
            },
        },
    }
}

/// A text held to a form: itself where it is the form to the letter, else
/// the reason for an error.
pub open spec fn held_to(text: Seq<char>, form: Seq<char>) -> Result<Seq<char>, Seq<char>> {
    if text == form {
        Ok(text)
    } else {
        Err(text)
    }
}

/// Holds an address that was assembled to the form that it must have. An
/// address that differs is the description of the error.
pub fn hold_to(text: String, form: &str) -> (r: Result<String, NewsApiError>)
    ensures
        r == if held_to(text@, form@) is Ok {
            Ok::<String, NewsApiError>(text)
        } else {
            Err::<String, NewsApiError>(NewsApiError::UrlParsing(text))
        },
{
    if text == form.to_owned() {
        Ok(text)
    } else {
        Err(NewsApiError::UrlParsing(text))
    }
}

/// Tells whether the serialisation of a URL is short enough for another
/// step of the assembly.
fn reach(url: &Url) -> (r: Result<(), NewsApiError>)
    ensures
        match in_reach(url_text(*url)) {
            Ok(_) => r is Ok,
            Err(why) => r matches Err(e) && e@ == Failure::UrlParsing(why),
        },
{
    let text = url_string(url);
    if text.as_str().unicode_len() < MAX_TEXT {
        Ok(())
    } else {
        Err(NewsApiError::UrlParsing(text))
    }
}

/// Assembles under `base` the address of the request for a query. The
/// `url` crate does the work; the outcome is held to the form, so an
/// address that comes back is `address_for` to the letter.
pub fn assemble(base: &str, endpoint: Endpoint, country: Country) -> (r: Result<
    String,
    NewsApiError,
>)
    ensures
        match assembled(base@, endpoint, country) {
            Ok(address) => r matches Ok(text) && text@ == address,
            Err(why) => r matches Err(e) && e@ == Failure::UrlParsing(why),
        },
        r matches Ok(text) ==> text@ == address_for(base@, endpoint, country),
        r matches Err(e) ==> e is UrlParsing,
{
    proof {
        reveal_strlit("top-headlines");
        reveal_strlit("country=");
        reveal_strlit("?country=");
        reveal_strlit("?");
        reveal_strlit("us");
        reveal_strlit("fr");
    }
    let mut url = match parse_url(base) {
        Ok(url) => url,
        Err(error) => {
            return Err(NewsApiError::UrlParsing(describe(&error)));
        },
    };
    reach(&url)?;
    if !drop_empty_segment(&mut url) {
        return Err(NewsApiError::UrlParsing(url_string(&url)));
    }
    reach(&url)?;
    let segment = endpoint.to_string();
    if !push_segment(&mut url, segment.as_str()) {
        return Err(NewsApiError::UrlParsing(url_string(&url)));
    }
    reach(&url)?;
    let query = "country=".to_owned().concat(country.to_string().as_str());
    set_query(&mut url, query.as_str());
    let form = base.to_owned().concat(segment.as_str()).concat("?").concat(query.as_str());
    assert(form@ =~= address_for(base@, endpoint, country));
    hold_to(url_string(&url), form.as_str())
}

/// Assembles the address of the request for a query under the base of the
/// service.
pub fn prepare(endpoint: Endpoint, country: Country) -> (r: Result<String, NewsApiError>)
    ensures
        match assembled(BASE_URL@, endpoint, country) {
            Ok(address) => r matches Ok(text) && text@ == address,
            Err(why) => r matches Err(e) && e@ == Failure::UrlParsing(why),
        },
        r matches Ok(text) ==> text@ == request_url(endpoint, country),
        r matches Err(e) ==> e is UrlParsing,
{
    assemble(BASE_URL, endpoint, country)
}

/// The form of the address ends in the code of the country that was asked
/// for, which it holds once: the address is as long as its parts, its last
/// two characters are the code, and two queries that differ in the country
/// differ in their addresses.
pub proof fn address_tells_country(
    base: Seq<char>,
    endpoint: Endpoint,
    first: Country,
    second: Country,
)
    ensures
        address_for(base, endpoint, first).len() == base.len() + endpoint.text().len() + 11,
        address_for(base, endpoint, first).skip(
            (base.len() + endpoint.text().len() + 9) as int,
        ) == first.text(),
        first != second ==> address_for(base, endpoint, first) != address_for(
            base,
            endpoint,
            second,
        ),
{
    reveal_strlit("?country=");
    reveal_strlit("us");
    reveal_strlit("fr");
    let a = address_for(base, endpoint, first);
    let b = address_for(base, endpoint, second);
    let n = base.len() + endpoint.text().len() + 9;
    assert(a.skip(n as int) =~= first.text());
    assert(b.skip(n as int) =~= second.text());
    if first != second {
        assert(first.text()[0] != second.text()[0]);
        assert(a[n as int] != b[n as int]);
    }
}

} // verus!
