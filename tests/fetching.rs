use price_poller::fetch::{check_status, read_quote, FetchError};
use price_poller::json::Json;
use price_poller::quote::{Bitcoin, ExtractionError, Quote};

fn bitcoin_doc(price: &str) -> Json {
    Json::Object(vec![(
        "bpi".to_string(),
        Json::Object(vec![(
            "USD".to_string(),
            Json::Object(vec![("rate_float".to_string(), Json::Number(price.to_string()))]),
        )]),
    )])
}

#[test]
fn status_500_is_unexpected() {
    assert_eq!(check_status(500), Err(FetchError::UnexpectedStatus(500)));
}

#[test]
fn other_statuses_than_200_are_unexpected() {
    assert_eq!(check_status(204), Err(FetchError::UnexpectedStatus(204)));
    assert_eq!(check_status(404), Err(FetchError::UnexpectedStatus(404)));
    assert_eq!(check_status(0), Err(FetchError::UnexpectedStatus(0)));
}

#[test]
fn status_200_goes_on() {
    assert_eq!(check_status(200), Ok(()));
}

#[test]
fn body_with_price_gives_quote() {
    let r = read_quote(&Bitcoin::source(), Ok(bitcoin_doc("50000.12")));
    assert_eq!(r, Ok(Quote { instrument: "bitcoin-usd".to_string(), price: "50000.12".to_string() }));
}

#[test]
fn malformed_body_keeps_its_cause() {
    let r = read_quote(&Bitcoin::source(), Err("expected value at line 1".to_string()));
    assert_eq!(r, Err(FetchError::MalformedBody("expected value at line 1".to_string())));
}

#[test]
fn body_without_price_is_extraction_error() {
    let r = read_quote(&Bitcoin::source(), Ok(Json::Array(Vec::new())));
    assert_eq!(r, Err(FetchError::Extraction(ExtractionError::PathMissing)));
}
