//! A client for the News API and the state of a headlines reader built on it.
//!
//! The client never touches the network itself: it says which request to
//! send and decides what a reply means.

pub mod address;
pub mod article;
pub mod client;
pub mod error;
pub mod headlines;
pub mod query;

pub use address::{assemble, hold_to, prepare, BASE_URL};
pub use article::{render, Article, ArticleView, Envelope, Listing, ListingView, NewsAPIResponse};
pub use client::{settle, NewsAPI, Query, Reply, Request, AUTHORIZATION};
pub use error::{map_response_err, Failure, NewsApiError};
pub use headlines::{
    fetch_news, Face, FaceView, HeadlineConfig, Headlines, Ink, NewCardData, Reader, Screen,
    Settings,
};
pub use query::{Country, Endpoint};
