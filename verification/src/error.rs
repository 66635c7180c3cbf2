//! The ways in which fetching headlines fails.

use vstd::prelude::*;
use vstd::string::*;

verus! {

/// Why no headlines came back. Every kind carries a description of its cause.
#[derive(Debug, Clone, PartialEq, Eq)]
pub enum NewsApiError {
    /// The request could not be carried out: no connection, or a status
    /// other than success.
    RequestFailed(String),
    /// The body of the reply could not be read as text.
    ConvertStringFailed(String),
    /// The body was read and is not the JSON of an envelope.
    FormatFailed(String),
    /// The address of the request could not be assembled.
    UrlParsing(String),
    /// The service answered with a status other than `ok`.
    BadRequest(String),
    /// The request could not be carried out on the non-blocking path.
    AsyncRequestFailed(String),
}

/// A `NewsApiError` with its description as a sequence of characters.
pub enum Failure {
    RequestFailed(Seq<char>),
    ConvertStringFailed(Seq<char>),
    FormatFailed(Seq<char>),
    UrlParsing(Seq<char>),
    BadRequest(Seq<char>),
    AsyncRequestFailed(Seq<char>),
}

impl View for NewsApiError {
    type V = Failure;

    open spec fn view(&self) -> Failure {
        match *self {
            NewsApiError::RequestFailed(why) => Failure::RequestFailed(why@),
            NewsApiError::ConvertStringFailed(why) => Failure::ConvertStringFailed(why@),
            NewsApiError::FormatFailed(why) => Failure::FormatFailed(why@),
            NewsApiError::UrlParsing(why) => Failure::UrlParsing(why@),
            NewsApiError::BadRequest(why) => Failure::BadRequest(why@),
            NewsApiError::AsyncRequestFailed(why) => Failure::AsyncRequestFailed(why@),
        }
    }
}

impl Failure {
    /// The description that the failure carries.
    pub open spec fn detail(self) -> Seq<char> {
        match self {
            Failure::RequestFailed(why) => why,
            Failure::ConvertStringFailed(why) => why,
            Failure::FormatFailed(why) => why,
            Failure::UrlParsing(why) => why,
            Failure::BadRequest(why) => why,
            Failure::AsyncRequestFailed(why) => why,
        }
    }

    /// The line that announces the failure to a reader.
    pub open spec fn message(self) -> Seq<char> {
        match self {
            Failure::RequestFailed(_) => "Failed to fetch data from url"@,
            Failure::ConvertStringFailed(_) => "Failed to convert response to string"@,
            Failure::FormatFailed(_) => "Failed to format JSON"@,
            Failure::UrlParsing(_) => "Url error"@,
            Failure::BadRequest(why) => "Request failed: "@ + why,
            Failure::AsyncRequestFailed(_) => "Async request failed"@,
        }
    }
}

impl NewsApiError {
    /// The description that the error carries.
    pub fn detail(&self) -> (why: &String)
        ensures
            why@ == self@.detail(),
    {
        match self {
            NewsApiError::RequestFailed(why) => why,
            NewsApiError::ConvertStringFailed(why) => why,
            NewsApiError::FormatFailed(why) => why,
            NewsApiError::UrlParsing(why) => why,
            NewsApiError::BadRequest(why) => why,
            NewsApiError::AsyncRequestFailed(why) => why,
        }
    }

    /// The line that announces the error to a reader.
    pub fn to_string(&self) -> (line: String)
        ensures
            line@ == self@.message(),
    {
        match self {
            NewsApiError::RequestFailed(_) => "Failed to fetch data from url".to_owned(),
            NewsApiError::ConvertStringFailed(_) => "Failed to convert response to string".to_owned(),
            NewsApiError::FormatFailed(_) => "Failed to format JSON".to_owned(),
            NewsApiError::UrlParsing(_) => "Url error".to_owned(),
            NewsApiError::BadRequest(why) => "Request failed: ".to_owned().concat(why.as_str()),
            NewsApiError::AsyncRequestFailed(_) => "Async request failed".to_owned(),
        }
    }
}

/// The reason that stands for a vendor error code: the one code that is
/// known, and a common reason for every other code and for none.
pub open spec fn response_err_reason(code: Option<Seq<char>>) -> Seq<char> {
    if code == Some("apiKeyDisabled"@) {
        "API key disabled"@
    } else {
        "Unknown error"@
    }
}

/// The characters of an optional string.
pub open spec fn option_text(text: Option<String>) -> Option<Seq<char>> {
    match text {
        Some(t) => Some(t@),
        None => None,
    }
}

/// The error that `fetch` returns for the error code of an envelope.
pub fn map_response_err(code: Option<String>) -> (e: NewsApiError)
    ensures
        e@ == Failure::BadRequest(response_err_reason(option_text(code))),
{
    let known = match &code {
        Some(c) => *c == "apiKeyDisabled".to_owned(),
        None => false,
    };
    if known {
        NewsApiError::BadRequest("API key disabled".to_owned())
    } else {
        NewsApiError::BadRequest("Unknown error".to_owned())
    }
}

} // verus!
