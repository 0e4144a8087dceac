//! The error taxonomy of the service and the single point that maps each
//! error to an HTTP status code and a response message.

use vstd::prelude::*;

verus! {

/// Every failure a request can surface, from the malformed body rejected at
/// the parsing boundary to a database-layer fault.
#[derive(Clone, Copy, Debug, PartialEq, Eq, Structural)]
pub enum Error {
    /// The request body was not valid JSON of the expected shape.
    BodyParse,
    /// An update or delete named an id that no row has.
    NotFound,
    /// A connection could not be checked out of the pool.
    Pool,
    /// The database rejected or failed a statement.
    Query,
    /// No route matched the request path.
    RouteNotFound,
    /// A route matched the path but not the method.
    MethodNotAllowed,
}

/// The HTTP status code owed to each error.
pub open spec fn spec_status(e: Error) -> u16 {
    match e {
        Error::BodyParse => 400,
        Error::NotFound => 404,
        Error::Pool => 500,
        Error::Query => 500,
        Error::RouteNotFound => 404,
        Error::MethodNotAllowed => 405,
    }
}

/// The body message owed to each error.
pub open spec fn spec_message(e: Error) -> Seq<char> {
    match e {
        Error::BodyParse => "Invalid Body"@,
        Error::NotFound => "Not Found"@,
        Error::Pool => "Internal Server Error"@,
        Error::Query => "Internal Server Error"@,
        Error::RouteNotFound => "Not Found"@,
        Error::MethodNotAllowed => "Method Not Allowed"@,
    }
}

impl Error {
    /// The status code this error maps to: 400 for a malformed body, 404 for
    /// a missing row or route, 405 for a wrong method, 500 otherwise.
    pub fn status_code(&self) -> (s: u16)
        ensures
            s == spec_status(*self),
    {
        match self {
            Error::BodyParse => 400,
            Error::NotFound => 404,
            Error::Pool => 500,
            Error::Query => 500,
            Error::RouteNotFound => 404,
            Error::MethodNotAllowed => 405,
        }
    }

    /// The message placed in the JSON error body for this error.
    pub fn message(&self) -> (m: String)
        ensures
            m@ == spec_message(*self),
    {
        match self {
            Error::BodyParse => "Invalid Body".to_owned(),
            Error::NotFound => "Not Found".to_owned(),
            Error::Pool => "Internal Server Error".to_owned(),
            Error::Query => "Internal Server Error".to_owned(),
            Error::RouteNotFound => "Not Found".to_owned(),
            Error::MethodNotAllowed => "Method Not Allowed".to_owned(),
        }
    }
}

} // verus!
