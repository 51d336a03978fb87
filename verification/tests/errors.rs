use exchange_rates::error::{ClientError, ExchangeRequestError};

#[test]
fn a_refusal_is_reported_with_status_and_message() {
    let error = ExchangeRequestError::new(429, "too many requests".to_string());
    assert_eq!(error.status_code, 429);
    assert_eq!(error.error_message, "too many requests");
    assert_eq!(
        error.to_string(),
        "Received an error in exchange rate request, got status 429: too many requests"
    );
}

#[test]
fn a_refusal_with_an_empty_message() {
    let error = ExchangeRequestError::new(500, String::new());
    assert_eq!(
        error.to_string(),
        "Received an error in exchange rate request, got status 500: "
    );
}

#[test]
fn a_refusal_with_an_unusual_status() {
    assert_eq!(
        ExchangeRequestError::new(0, "x".to_string()).to_string(),
        "Received an error in exchange rate request, got status 0: x"
    );
    assert_eq!(
        ExchangeRequestError::new(65535, "y: z".to_string()).to_string(),
        "Received an error in exchange rate request, got status 65535: y: z"
    );
}

#[test]
fn a_cloned_refusal_reads_the_same() {
    let error = ExchangeRequestError::new(404, "not found".to_string());
    let copy = error.clone();
    assert_eq!(copy.status_code, 404);
    assert_eq!(copy.error_message, "not found");
    assert_eq!(copy.to_string(), error.to_string());
}

#[test]
fn each_failure_has_its_line() {
    assert_eq!(
        ClientError::Transport("connection refused".to_string()).to_string(),
        "connection refused"
    );
    assert_eq!(
        ClientError::Decode("missing field `rates`".to_string()).to_string(),
        "missing field `rates`"
    );
    assert_eq!(
        ClientError::Api(ExchangeRequestError::new(400, "bad base".to_string())).to_string(),
        "Received an error in exchange rate request, got status 400: bad base"
    );
    assert_eq!(
        ClientError::EmptyRates.to_string(),
        "The exchange rate response lists no rates"
    );
}
