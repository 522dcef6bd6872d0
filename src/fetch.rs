use vstd::prelude::*;

use crate::json::{number_at, Json};
use crate::quote::{ExtractionError, Quote, QuoteSource};

verus! {

/// Why one round trip to an endpoint gave no quote.
#[derive(Debug, Clone, PartialEq, Eq)]
pub enum FetchError {
    /// The endpoint could not be reached (name lookup, connection, TLS).
    Network(String),
    /// The endpoint answered with a status other than 200.
    UnexpectedStatus(u16),
    /// The body could not be read or is not JSON.
    MalformedBody(String),
    /// The body is JSON, but holds no price where the source says it is.
    Extraction(ExtractionError),
}

/// Decides on a response's status before its body is read: 200 goes on,
/// anything else is `UnexpectedStatus`.
pub fn check_status(status: u16) -> (r: Result<(), FetchError>)
    ensures
        status == 200 ==> r is Ok,
        status != 200 ==> r == Err::<(), FetchError>(FetchError::UnexpectedStatus(status)),
{
    if status == 200 {
        Ok(())
    } else {
        Err(FetchError::UnexpectedStatus(status))
    }
}

/// Turns the body of a 200 response into a quote: a body that is no JSON
/// document gives `MalformedBody` with its cause, a document without a price
/// at the source's path gives `Extraction`.
pub fn read_quote(source: &QuoteSource, body: Result<Json, String>) -> (r: Result<Quote, FetchError>)
    ensures
        match body {
            Err(cause) => r == Err::<Quote, FetchError>(FetchError::MalformedBody(cause)),
            Ok(doc) => match number_at(doc, source.steps()) {
                Some(t) => r matches Ok(q) && q.price@ == t && q.instrument@ == source.instrument@,
                None => r == Err::<Quote, FetchError>(
                    FetchError::Extraction(ExtractionError::PathMissing),
                ),
            },
        },
{
    match body {
        Err(cause) => Err(FetchError::MalformedBody(cause)),
        Ok(doc) => match source.extract(&doc) {
            Ok(q) => Ok(q),
            Err(e) => Err(FetchError::Extraction(e)),
        },
    }
}

} // verus!
