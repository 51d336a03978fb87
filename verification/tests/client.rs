use exchange_rates::error::ClientError;
use exchange_rates::exchange_rate_api::{ApiClient, ExchangeRate};
use exchange_rates::ip_api::{get_my_ip, ip_request};
use exchange_rates::transport::{status_is_success, Body, Expect, Reply, Shape};

fn snapshot(base: &str, rates: &[(&str, f64)]) -> ExchangeRate {
    let entries = rates.iter().map(|(code, value)| (code.to_string(), value.to_bits())).collect();
    ExchangeRate::from_entries(base.to_string(), "2020-05-04".to_string(), entries)
        .expect("every rate is a number")
}

fn received(status: u16, base: &str, rates: &[(&str, f64)]) -> Reply {
    Reply::Received { status, body: Body::Snapshot(snapshot(base, rates)) }
}

fn refused(status: u16, message: &str) -> Reply {
    Reply::Received { status, body: Body::Refusal(message.to_string()) }
}

fn malformed(status: u16, detail: &str) -> Reply {
    Reply::Received { status, body: Body::Malformed(detail.to_string()) }
}

fn unreachable_reply(detail: &str) -> Reply {
    Reply::Unreachable(detail.to_string())
}

fn listed(snapshot: &ExchangeRate) -> Vec<(String, f64)> {
    snapshot.rates().iter().map(|(code, rate)| (code.clone(), f64::from_bits(rate.to_bits()))).collect()
}

fn decode_text(error: ClientError) -> String {
    match error {
        ClientError::Decode(detail) => detail,
        other => panic!("not a decode failure: {:?}", other),
    }
}

fn transport_text(error: ClientError) -> String {
    match error {
        ClientError::Transport(detail) => detail,
        other => panic!("not a transport failure: {:?}", other),
    }
}

const UNEXPECTED: &str = "The response body has an unexpected shape";

#[test]
fn the_latest_rates_are_asked_without_parameters() {
    let request = ApiClient::new().latest_request();
    assert_eq!(request.url, "https://api.exchangeratesapi.io/latest");
    assert!(request.query.is_empty());
    assert_eq!(request.expects, Expect::Snapshot);
}

#[test]
fn the_rates_of_a_currency_are_asked_with_the_base_parameter() {
    let request = ApiClient::new().rates_request("USD");
    assert_eq!(request.url, "https://api.exchangeratesapi.io/latest");
    assert_eq!(request.query, vec![("base".to_string(), "USD".to_string())]);
    assert_eq!(request.expects, Expect::SnapshotOrRefusal);
}

#[test]
fn the_address_is_asked_of_the_echo_service() {
    let request = ip_request();
    assert_eq!(request.url, "http://httpbin.org/ip");
    assert!(request.query.is_empty());
    assert_eq!(request.expects, Expect::Origin);
}

#[test]
fn success_is_a_status_from_200_to_299() {
    for status in 0..=u16::MAX {
        assert_eq!(status_is_success(status), (200..300).contains(&status), "{}", status);
    }
}

#[test]
fn the_rates_of_a_currency_come_as_a_snapshot_on_success_and_as_a_refusal_otherwise() {
    let request = ApiClient::new().rates_request("USD");
    assert_eq!(request.shape_for(200), Shape::Snapshot);
    assert_eq!(request.shape_for(204), Shape::Snapshot);
    assert_eq!(request.shape_for(299), Shape::Snapshot);
    assert_eq!(request.shape_for(199), Shape::Refusal);
    assert_eq!(request.shape_for(300), Shape::Refusal);
    assert_eq!(request.shape_for(400), Shape::Refusal);
    assert_eq!(request.shape_for(429), Shape::Refusal);
    assert_eq!(request.shape_for(500), Shape::Refusal);
}

#[test]
fn the_latest_rates_and_the_address_come_in_one_shape_whatever_the_status() {
    let latest = ApiClient::new().latest_request();
    let address = ip_request();
    for status in [100u16, 200, 299, 300, 404, 429, 500, 999] {
        assert_eq!(latest.shape_for(status), Shape::Snapshot);
        assert_eq!(address.shape_for(status), Shape::Origin);
    }
}

#[test]
fn get_currencies_holds_the_base_and_every_listed_currency() {
    let set = ApiClient::new()
        .get_currencies(received(200, "EUR", &[("USD", 1.2), ("GBP", 0.9), ("JPY", 130.0)]))
        .expect("a snapshot");
    assert!(set.contains("EUR"));
    assert!(set.contains("USD"));
    assert!(set.contains("GBP"));
    assert!(set.contains("JPY"));
    assert!(!set.contains("CHF"));
    assert_eq!(set.len(), 4);
    assert_eq!(
        set.to_vec(),
        vec!["USD".to_string(), "GBP".to_string(), "JPY".to_string(), "EUR".to_string()]
    );
}

#[test]
fn get_currencies_has_no_duplicates() {
    let set = ApiClient::new()
        .get_currencies(received(200, "EUR", &[("USD", 1.2), ("EUR", 1.0)]))
        .expect("a snapshot");
    let mut codes = set.to_vec();
    assert_eq!(codes.len(), 2);
    codes.sort();
    codes.dedup();
    assert_eq!(codes, vec!["EUR".to_string(), "USD".to_string()]);
}

#[test]
fn get_currencies_does_not_look_at_the_status() {
    let set = ApiClient::new().get_currencies(received(503, "EUR", &[("USD", 1.2)])).expect("a snapshot");
    assert_eq!(set.to_vec(), vec!["USD".to_string(), "EUR".to_string()]);
}

#[test]
fn get_currencies_fails_with_the_transport() {
    let error = ApiClient::new().get_currencies(unreachable_reply("connection refused")).unwrap_err();
    assert_eq!(transport_text(error), "connection refused");
}

#[test]
fn a_body_that_does_not_decode_is_a_decode_failure() {
    let client = ApiClient::new();
    let detail = "missing field `rates` at line 1 column 36";
    assert_eq!(decode_text(client.get_currencies(malformed(200, detail)).unwrap_err()), detail);
    assert_eq!(
        decode_text(client.get_currency_exchange_rates("USD", malformed(200, detail)).unwrap_err()),
        detail
    );
    assert_eq!(
        decode_text(client.get_highest_value_currency(malformed(200, detail)).unwrap_err()),
        detail
    );
    assert_eq!(
        decode_text(client.get_lowest_value_currency(malformed(200, detail)).unwrap_err()),
        detail
    );
}

#[test]
fn a_body_of_another_shape_is_a_decode_failure() {
    let client = ApiClient::new();
    assert_eq!(decode_text(client.get_currencies(refused(200, "no")).unwrap_err()), UNEXPECTED);
    assert_eq!(
        decode_text(
            client
                .get_currencies(Reply::Received { status: 200, body: Body::Origin("1.2.3.4".to_string()) })
                .unwrap_err()
        ),
        UNEXPECTED
    );
    assert_eq!(
        decode_text(client.get_highest_value_currency(refused(400, "no")).unwrap_err()),
        UNEXPECTED
    );
    assert_eq!(
        decode_text(client.get_lowest_value_currency(refused(400, "no")).unwrap_err()),
        UNEXPECTED
    );
    assert_eq!(
        decode_text(client.get_currency_exchange_rates("USD", refused(200, "no")).unwrap_err()),
        UNEXPECTED
    );
    assert_eq!(
        decode_text(
            client.get_currency_exchange_rates("USD", received(400, "USD", &[("EUR", 0.9)])).unwrap_err()
        ),
        UNEXPECTED
    );
    assert_eq!(
        decode_text(
            client
                .get_currency_exchange_rates(
                    "USD",
                    Reply::Received { status: 200, body: Body::Origin("1.2.3.4".to_string()) }
                )
                .unwrap_err()
        ),
        UNEXPECTED
    );
}

#[test]
fn get_rates_never_lists_the_requested_currency() {
    let client = ApiClient::new();
    let rates = client
        .get_currency_exchange_rates("USD", received(200, "USD", &[("EUR", 0.9), ("USD", 1.0), ("GBP", 0.8)]))
        .expect("a snapshot");
    assert_eq!(rates.base(), "USD");
    assert_eq!(rates.date(), "2020-05-04");
    assert_eq!(listed(&rates), vec![("EUR".to_string(), 0.9), ("GBP".to_string(), 0.8)]);
    assert!(rates.rate_of("USD").is_none());
    assert!(rates.rates().iter().all(|(code, _)| code != "USD"));
}

#[test]
fn get_rates_keeps_a_snapshot_that_does_not_list_the_currency() {
    let rates = ApiClient::new()
        .get_currency_exchange_rates("USD", received(200, "USD", &[("EUR", 0.9), ("GBP", 0.8)]))
        .expect("a snapshot");
    assert_eq!(listed(&rates), vec![("EUR".to_string(), 0.9), ("GBP".to_string(), 0.8)]);
}

#[test]
fn get_rates_takes_out_the_requested_currency_not_the_reported_base() {
    let rates = ApiClient::new()
        .get_currency_exchange_rates("USD", received(200, "EUR", &[("EUR", 1.0), ("USD", 1.1)]))
        .expect("a snapshot");
    assert_eq!(rates.base(), "EUR");
    assert_eq!(listed(&rates), vec![("EUR".to_string(), 1.0)]);
}

#[test]
fn too_many_requests_is_an_api_error() {
    let error = ApiClient::new()
        .get_currency_exchange_rates("USD", refused(429, "too many requests"))
        .unwrap_err();
    match error {
        ClientError::Api(refusal) => {
            assert_eq!(refusal.status_code, 429);
            assert_eq!(refusal.error_message, "too many requests");
            assert_eq!(
                refusal.to_string(),
                "Received an error in exchange rate request, got status 429: too many requests"
            );
        }
        other => panic!("not a refusal: {:?}", other),
    }
}

#[test]
fn a_refusal_is_reported_through_the_failure() {
    let error = ApiClient::new()
        .get_currency_exchange_rates("XXX", refused(400, "Base 'XXX' is not supported."))
        .unwrap_err();
    assert_eq!(
        error.to_string(),
        "Received an error in exchange rate request, got status 400: Base 'XXX' is not supported."
    );
}

#[test]
fn a_refusal_that_does_not_decode_is_a_decode_failure() {
    let error = ApiClient::new()
        .get_currency_exchange_rates("USD", malformed(500, "expected value at line 1 column 1"))
        .unwrap_err();
    assert_eq!(decode_text(error), "expected value at line 1 column 1");
}

#[test]
fn get_rates_fails_with_the_transport() {
    let error = ApiClient::new()
        .get_currency_exchange_rates("USD", unreachable_reply("dns error"))
        .unwrap_err();
    assert_eq!(transport_text(error), "dns error");
}

#[test]
fn euro_example_through_the_client() {
    let client = ApiClient::new();
    assert_eq!(
        client.get_highest_value_currency(received(200, "EUR", &[("USD", 1.2), ("GBP", 0.9)])).unwrap(),
        "GBP"
    );
    assert_eq!(
        client.get_lowest_value_currency(received(200, "EUR", &[("USD", 1.2), ("GBP", 0.9)])).unwrap(),
        "USD"
    );
}

#[test]
fn the_base_is_named_when_no_other_currency_is_stronger_or_weaker() {
    let client = ApiClient::new();
    assert_eq!(
        client.get_highest_value_currency(received(200, "KWD", &[("USD", 3.3), ("EUR", 3.0)])).unwrap(),
        "KWD"
    );
    assert_eq!(
        client.get_lowest_value_currency(received(200, "IDR", &[("USD", 0.0001), ("EUR", 0.00006)])).unwrap(),
        "IDR"
    );
}

#[test]
fn an_empty_snapshot_has_no_highest_or_lowest() {
    let client = ApiClient::new();
    assert!(matches!(
        client.get_highest_value_currency(received(200, "EUR", &[])),
        Err(ClientError::EmptyRates)
    ));
    assert!(matches!(
        client.get_lowest_value_currency(received(200, "EUR", &[])),
        Err(ClientError::EmptyRates)
    ));
}

#[test]
fn highest_and_lowest_fail_with_the_transport() {
    let client = ApiClient::new();
    assert_eq!(
        transport_text(client.get_highest_value_currency(unreachable_reply("timed out")).unwrap_err()),
        "timed out"
    );
    assert_eq!(
        transport_text(client.get_lowest_value_currency(unreachable_reply("timed out")).unwrap_err()),
        "timed out"
    );
}

fn some(text: &str) -> Option<String> {
    Some(text.to_string())
}

fn usd_and_gbp() -> Option<Vec<(String, u64)>> {
    Some(vec![("USD".to_string(), 1.2f64.to_bits()), ("GBP".to_string(), 0.9f64.to_bits())])
}

#[test]
fn a_body_that_omits_rates_is_a_decode_failure_for_every_operation() {
    let client = ApiClient::new();
    let reply = || Reply::Received { status: 200, body: Body::of_snapshot(some("EUR"), some("2020-05-04"), None) };
    let detail = "The response body has no field rates";
    assert_eq!(decode_text(client.get_currencies(reply()).unwrap_err()), detail);
    assert_eq!(decode_text(client.get_currency_exchange_rates("USD", reply()).unwrap_err()), detail);
    assert_eq!(decode_text(client.get_highest_value_currency(reply()).unwrap_err()), detail);
    assert_eq!(decode_text(client.get_lowest_value_currency(reply()).unwrap_err()), detail);
}

#[test]
fn the_first_lacking_field_of_a_snapshot_is_reported() {
    let text = |body: Body| match body {
        Body::Malformed(detail) => detail,
        other => panic!("not malformed: {:?}", other),
    };
    assert_eq!(text(Body::of_snapshot(None, None, None)), "The response body has no field base");
    assert_eq!(text(Body::of_snapshot(None, some("2020-05-04"), usd_and_gbp())), "The response body has no field base");
    assert_eq!(text(Body::of_snapshot(some("EUR"), None, None)), "The response body has no field date");
    assert_eq!(text(Body::of_snapshot(some("EUR"), None, usd_and_gbp())), "The response body has no field date");
    assert_eq!(text(Body::of_snapshot(some("EUR"), some("2020-05-04"), None)), "The response body has no field rates");
}

#[test]
fn a_decoded_snapshot_with_a_nan_is_malformed() {
    let body = Body::of_snapshot(
        some("EUR"),
        some("2020-05-04"),
        Some(vec![("USD".to_string(), f64::NAN.to_bits())]),
    );
    let error = ApiClient::new().get_currencies(Reply::Received { status: 200, body }).unwrap_err();
    assert_eq!(decode_text(error), "A rate in the response body is not a number");
}

#[test]
fn a_decoded_snapshot_of_numbers_is_a_snapshot() {
    match Body::of_snapshot(some("EUR"), some("2020-05-04"), usd_and_gbp()) {
        Body::Snapshot(s) => {
            assert_eq!(s.base(), "EUR");
            assert_eq!(s.date(), "2020-05-04");
            assert_eq!(listed(&s), vec![("USD".to_string(), 1.2), ("GBP".to_string(), 0.9)]);
        }
        other => panic!("not a snapshot: {:?}", other),
    }
}

#[test]
fn a_decoded_snapshot_may_list_nothing() {
    match Body::of_snapshot(some("EUR"), some("2020-05-04"), Some(Vec::new())) {
        Body::Snapshot(s) => assert!(s.rates().is_empty()),
        other => panic!("not a snapshot: {:?}", other),
    }
}

#[test]
fn a_refusal_body_needs_its_error_field() {
    match Body::of_refusal(some("too many requests")) {
        Body::Refusal(message) => assert_eq!(message, "too many requests"),
        other => panic!("not a refusal: {:?}", other),
    }
    let reply = Reply::Received { status: 429, body: Body::of_refusal(None) };
    let error = ApiClient::new().get_currency_exchange_rates("USD", reply).unwrap_err();
    assert_eq!(decode_text(error), "The response body has no field error");
}

#[test]
fn an_origin_body_needs_its_origin_field() {
    match Body::of_origin(some("203.0.113.7")) {
        Body::Origin(address) => assert_eq!(address, "203.0.113.7"),
        other => panic!("not an origin: {:?}", other),
    }
    let reply = Reply::Received { status: 200, body: Body::of_origin(None) };
    assert_eq!(decode_text(get_my_ip(reply).unwrap_err()), "The response body has no field origin");
}

#[test]
fn my_ip_is_the_origin() {
    let reply = Reply::Received { status: 200, body: Body::Origin("203.0.113.7".to_string()) };
    assert_eq!(get_my_ip(reply).unwrap(), "203.0.113.7");
}

#[test]
fn my_ip_does_not_look_at_the_status() {
    let reply = Reply::Received { status: 500, body: Body::Origin("203.0.113.7".to_string()) };
    assert_eq!(get_my_ip(reply).unwrap(), "203.0.113.7");
}

#[test]
fn my_ip_fails_with_the_transport_or_the_body() {
    assert_eq!(transport_text(get_my_ip(unreachable_reply("no route to host")).unwrap_err()), "no route to host");
    assert_eq!(
        decode_text(get_my_ip(malformed(200, "missing field `origin`")).unwrap_err()),
        "missing field `origin`"
    );
    assert_eq!(decode_text(get_my_ip(refused(200, "no")).unwrap_err()), UNEXPECTED);
    assert_eq!(decode_text(get_my_ip(received(200, "EUR", &[])).unwrap_err()), UNEXPECTED);
}
