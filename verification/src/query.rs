//! What a query selects: the resource and the country.

use vstd::prelude::*;
use vstd::string::*;

verus! {

/// The resource of the service that a query addresses.
#[derive(Clone, Copy, Debug, PartialEq, Eq, Structural)]
pub enum Endpoint {
    TopHeadLines,
}

/// The country whose headlines a query asks for.
#[derive(Clone, Copy, Debug, PartialEq, Eq, Structural)]
pub enum Country {
    Us,
    Fr,
}

impl Endpoint {
    /// The path segment that names this endpoint.
    pub open spec fn text(self) -> Seq<char> {
        match self {
            Endpoint::TopHeadLines => "top-headlines"@,
        }
    }

    /// The path segment that names this endpoint.
    pub fn to_string(&self) -> (s: String)
        ensures
            s@ == self.text(),
    {
        match self {
            Endpoint::TopHeadLines => "top-headlines".to_owned(),
        }
    }
}

impl Country {
    /// The two-letter code of this country, in lower case.
    pub open spec fn text(self) -> Seq<char> {
        match self {
            Country::Us => "us"@,
            Country::Fr => "fr"@,
        }
    }

    /// The two-letter code of this country, in lower case.
    pub fn to_string(&self) -> (s: String)
        ensures
            s@ == self.text(),
    {
        match self {
            Country::Us => "us".to_owned(),
            Country::Fr => "fr".to_owned(),
        }
    }
}

} // verus!
