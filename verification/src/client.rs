//! The client: which request to send for a query, and what a reply to it
//! means.

use vstd::prelude::*;
use vstd::string::*;
use crate::address::{assembled, prepare, request_url, BASE_URL};
use crate::article::NewsAPIResponse;
use crate::error::{map_response_err, response_err_reason, Failure, NewsApiError};
use crate::query::{Country, Endpoint};

verus! {

/// The name of the header that carries the key.
pub const AUTHORIZATION: &'static str = "Authorization";

/// A key for the service together with the query that it is used for.
#[derive(Debug, Clone, PartialEq, Eq)]
pub struct NewsAPI {
    api_key: String,
    endpoint: Endpoint,
    country: Country,
}

/// A `NewsAPI` with its key as a sequence of characters.
pub struct Query {
    pub api_key: Seq<char>,
    pub endpoint: Endpoint,
    pub country: Country,
}

impl View for NewsAPI {
    type V = Query;

    closed spec fn view(&self) -> Query {
        Query { api_key: self.api_key@, endpoint: self.endpoint, country: self.country }
    }
}

/// One request to the service: a `GET` of `url` with the key in the
/// header `Authorization`.
#[derive(Debug, Clone, PartialEq, Eq)]
pub struct Request {
    pub url: String,
    pub authorization: String,
}

/// What one round trip to the service came to.
#[derive(Debug, Clone, PartialEq, Eq)]
pub enum Reply {
    /// The request could not be carried out; the text says why.
    Unreached(String),
    /// A reply came and its body could not be read as text.
    Unreadable(String),
    /// The body was read and is not the JSON of an envelope.
    Malformed(String),
    /// The body was read and decoded.
    Decoded(NewsAPIResponse),
}

impl NewsAPI {
    /// A client with this key, for the top headlines of the United States.
    /// The key is taken as it is.
    pub fn new(api_key: &str) -> (api: NewsAPI)
        ensures
            api@ == (Query {
                api_key: api_key@,
                endpoint: Endpoint::TopHeadLines,
                country: Country::Us,
            }),
    {
        NewsAPI { api_key: api_key.to_owned(), endpoint: Endpoint::TopHeadLines, country: Country::Us }
    }

    /// Selects the endpoint. The client that comes back is this one.
    pub fn endpoint(&mut self, endpoint: Endpoint) -> (api: &mut NewsAPI)
        ensures
            api@ == (Query { endpoint, ..old(self)@ }),
            *final(self) == *final(api),
    {
        self.endpoint = endpoint;
        self
    }

    /// Selects the country. The client that comes back is this one.
    pub fn country(&mut self, country: Country) -> (api: &mut NewsAPI)
        ensures
            api@ == (Query { country, ..old(self)@ }),
            *final(self) == *final(api),
    {
        self.country = country;
        self
    }

    /// The address of the request for the query of this client.
    pub fn prepare_url(&self) -> (r: Result<String, NewsApiError>)
        ensures
            match assembled(BASE_URL@, self@.endpoint, self@.country) {
                Ok(address) => r matches Ok(text) && text@ == address,
                Err(why) => r matches Err(e) && e@ == Failure::UrlParsing(why),
            },
            r matches Ok(text) ==> text@ == request_url(self@.endpoint, self@.country),
    {
        prepare(self.endpoint, self.country)
    }

    /// The one request that a fetch sends.
    pub fn request(&self) -> (r: Result<Request, NewsApiError>)
        ensures
            match assembled(BASE_URL@, self@.endpoint, self@.country) {
                Ok(address) => r matches Ok(request) && request.url@ == address
                    && request.authorization@ == self@.api_key,
                Err(why) => r matches Err(e) && e@ == Failure::UrlParsing(why),
            },
            r matches Ok(request) ==> request.url@ == request_url(self@.endpoint, self@.country),
    {
        match self.prepare_url() {
            Ok(url) => Ok(Request { url, authorization: self.api_key.clone() }),
            Err(e) => Err(e),
        }
    }

    /// What the reply to the request of this client means: the envelope
    /// as it came where the service reports `ok`, the error for its code
    /// where it reports anything else, and the failure of the round trip
    /// where there is no envelope. Nothing is sent again.
    pub fn fetch(&self, reply: Reply) -> (r: Result<NewsAPIResponse, NewsApiError>)
        ensures
            match reply {
                Reply::Unreached(why) => r == Err::<NewsAPIResponse, NewsApiError>(
                    NewsApiError::RequestFailed(why),
                ),
                Reply::Unreadable(why) => r == Err::<NewsAPIResponse, NewsApiError>(
                    NewsApiError::ConvertStringFailed(why),
                ),
                Reply::Malformed(why) => r == Err::<NewsAPIResponse, NewsApiError>(
                    NewsApiError::FormatFailed(why),
                ),
                Reply::Decoded(envelope) => if envelope@.is_ok() {
                    r == Ok::<NewsAPIResponse, NewsApiError>(envelope)
                } else {
                    r matches Err(e) && e@ == Failure::BadRequest(
                        response_err_reason(envelope@.code),
                    )
                },
            },
    {
        match reply {
            Reply::Unreached(why) => Err(NewsApiError::RequestFailed(why)),
            Reply::Unreadable(why) => Err(NewsApiError::ConvertStringFailed(why)),
            Reply::Malformed(why) => Err(NewsApiError::FormatFailed(why)),
            Reply::Decoded(envelope) => settle(envelope),
        }
    }

    /// What the reply means where the request went out on the
    /// non-blocking path: as `fetch`, but that a request that could not be
    /// carried out is the error of that path.
    pub fn async_fetch(&self, reply: Reply) -> (r: Result<NewsAPIResponse, NewsApiError>)
        ensures
            match reply {
                Reply::Unreached(why) => r == Err::<NewsAPIResponse, NewsApiError>(
                    NewsApiError::AsyncRequestFailed(why),
                ),
                Reply::Unreadable(why) => r == Err::<NewsAPIResponse, NewsApiError>(
                    NewsApiError::ConvertStringFailed(why),
                ),
                Reply::Malformed(why) => r == Err::<NewsAPIResponse, NewsApiError>(
                    NewsApiError::FormatFailed(why),
                ),
                Reply::Decoded(envelope) => if envelope@.is_ok() {
                    r == Ok::<NewsAPIResponse, NewsApiError>(envelope)
                } else {
                    r matches Err(e) && e@ == Failure::BadRequest(
                        response_err_reason(envelope@.code),
                    )
                },
            },
    {
        match reply {
            Reply::Unreached(why) => Err(NewsApiError::AsyncRequestFailed(why)),
            Reply::Unreadable(why) => Err(NewsApiError::ConvertStringFailed(why)),
            Reply::Malformed(why) => Err(NewsApiError::FormatFailed(why)),
            Reply::Decoded(envelope) => settle(envelope),
        }
    }
}

/// What a decoded envelope means: itself where the service reports `ok`,
/// else the error for its code.
pub fn settle(envelope: NewsAPIResponse) -> (r: Result<NewsAPIResponse, NewsApiError>)
    ensures
        if envelope@.is_ok() {
            r == Ok::<NewsAPIResponse, NewsApiError>(envelope)
        } else {
            r matches Err(e) && e@ == Failure::BadRequest(response_err_reason(envelope@.code))
        },
{
    if envelope.is_ok() {
        Ok(envelope)
    } else {
        Err(map_response_err(envelope.code))
    }
}

} // verus!
