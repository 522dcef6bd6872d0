use vstd::prelude::*;
use vstd::string::StringExecFns;

use crate::json::{follow, number_at, path_view, Json, PathStep, Segment};

verus! {

/// One observation: the instrument it belongs to and its price, held as the
/// decimal text that the instrument's log receives.
#[derive(Debug, Clone, PartialEq, Eq)]
pub struct Quote {
    pub instrument: String,
    pub price: String,
}

/// Why a response document gave no price.
#[derive(Debug, Clone, Copy, PartialEq, Eq)]
pub enum ExtractionError {
    /// A step of the path does not fit the document, or it ends on a value
    /// that is not a number.
    PathMissing,
}

/// Everything fixed about one instrument: its name, the endpoint that quotes
/// it, where the price sits in the endpoint's response, and its log.
#[derive(Debug)]
pub struct QuoteSource {
    pub instrument: String,
    pub url: String,
    pub path: Vec<Segment>,
    pub log_name: String,
}

impl QuoteSource {
    /// The steps of the extraction path, as the contracts speak of them.
    pub open spec fn steps(&self) -> Seq<PathStep> {
        path_view(self.path@)
    }

    /// The quote that `doc` holds for this instrument: the number at the end of
    /// the path, or `PathMissing`.
    pub fn extract(&self, doc: &Json) -> (r: Result<Quote, ExtractionError>)
        ensures
            match number_at(*doc, self.steps()) {
                Some(t) => r matches Ok(q) && q.price@ == t && q.instrument@ == self.instrument@,
                None => r == Err::<Quote, ExtractionError>(ExtractionError::PathMissing),
            },
    {
        match follow(doc, &self.path) {
            Some(Json::Number(t)) => Ok(Quote { instrument: self.instrument.clone(), price: t.clone() }),
            _ => Err(ExtractionError::PathMissing),
        }
    }
}

/// The first cryptocurrency pair: the price of bitcoin in US dollars.
pub struct Bitcoin;

impl Bitcoin {
    /// The bitcoin endpoint: `bpi`, then `USD`, then `rate_float`.
    pub fn source() -> (r: QuoteSource)
        ensures
            r.instrument@ == "bitcoin-usd"@,
            r.url@ == "https://api.coindesk.com/v1/bpi/currentprice.json"@,
            r.steps() == seq![
                PathStep::Key("bpi"@),
                PathStep::Key("USD"@),
                PathStep::Key("rate_float"@),
            ],
            r.log_name@ == "bitcoin.txt"@,
    {
        let path = vec![
            Segment::Key(String::from_str("bpi")),
            Segment::Key(String::from_str("USD")),
            Segment::Key(String::from_str("rate_float")),
        ];
        let r = QuoteSource {
            instrument: String::from_str("bitcoin-usd"),
            url: String::from_str("https://api.coindesk.com/v1/bpi/currentprice.json"),
            path,
            log_name: String::from_str("bitcoin.txt"),
        };
        assert(r.steps() =~= seq![
            PathStep::Key("bpi"@),
            PathStep::Key("USD"@),
            PathStep::Key("rate_float"@),
        ]);
        r
    }
}

/// The second cryptocurrency pair: the second entry of the market listing.
pub struct Ethereum;

impl Ethereum {
    /// The market listing, entry 1, `current_price`. The entry is picked by
    /// its place in the listing, so it moves when the listing's order does.
    pub fn source() -> (r: QuoteSource)
        ensures
            r.instrument@ == "ethereum-usd"@,
            r.url@ == "https://api.coingecko.com/api/v3/coins/markets?vs_currency=usd"@,
            r.steps() == seq![PathStep::Index(1), PathStep::Key("current_price"@)],
            r.log_name@ == "ethereum.txt"@,
    {
        let path = vec![Segment::Index(1), Segment::Key(String::from_str("current_price"))];
        let r = QuoteSource {
            instrument: String::from_str("ethereum-usd"),
            url: String::from_str("https://api.coingecko.com/api/v3/coins/markets?vs_currency=usd"),
            path,
            log_name: String::from_str("ethereum.txt"),
        };
        assert(r.steps() =~= seq![PathStep::Index(1), PathStep::Key("current_price"@)]);
        r
    }
}

/// The equity index, read from the fourth entry of the same market listing.
pub struct SP500;

impl SP500 {
    /// The market listing, entry 3, `current_price`; as fragile as the
    /// ethereum source, for the same reason.
    pub fn source() -> (r: QuoteSource)
        ensures
            r.instrument@ == "sp500"@,
            r.url@ == "https://api.coingecko.com/api/v3/coins/markets?vs_currency=usd"@,
            r.steps() == seq![PathStep::Index(3), PathStep::Key("current_price"@)],
            r.log_name@ == "sp500.txt"@,
    {
        let path = vec![Segment::Index(3), Segment::Key(String::from_str("current_price"))];
        let r = QuoteSource {
            instrument: String::from_str("sp500"),
            url: String::from_str("https://api.coingecko.com/api/v3/coins/markets?vs_currency=usd"),
            path,
            log_name: String::from_str("sp500.txt"),
        };
        assert(r.steps() =~= seq![PathStep::Index(3), PathStep::Key("current_price"@)]);
        r
    }
}

} // verus!
