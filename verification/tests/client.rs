use coinpaprika_api::client::{
    Client, Response, API_URL, API_URL_PRO, DEFAULT_USER_AGENT, MAX_RETRIES,
};
use coinpaprika_api::coins::CoinDetails;
use coinpaprika_api::error::{Error, TransportFailure};
use coinpaprika_api::request::Request;
use serde_json::Value;

fn pair(name: &str, value: &str) -> (String, String) {
    (String::from(name), String::from(value))
}

fn has_header(request: &Request, name: &str) -> bool {
    request.headers.iter().any(|h| h.0 == name)
}

#[test]
fn free_client_addresses_the_free_tier() {
    assert_eq!(Client::new().api_url(), "https://api.coinpaprika.com/v1/");
    assert_eq!(API_URL, "https://api.coinpaprika.com/v1/");
}

#[test]
fn keyed_client_addresses_the_keyed_tier() {
    assert_eq!(Client::with_key("secret").api_url(), "https://api-pro.coinpaprika.com/v1/");
    assert_eq!(API_URL_PRO, "https://api-pro.coinpaprika.com/v1/");
}

#[test]
fn default_client_is_the_free_client() {
    let client = Client::default();
    assert_eq!(client.api_url(), API_URL);
    assert!(!has_header(&client.coins().request(), "Authorization"));
}

#[test]
fn user_agent_is_fixed() {
    assert_eq!(DEFAULT_USER_AGENT, "coinpaprika-api-rust-client");
}

#[test]
fn retries_are_capped_at_three() {
    assert_eq!(MAX_RETRIES, 3);
}

#[test]
fn request_without_key_carries_only_the_user_agent() {
    let client = Client::new();
    let request = client.request(String::from("u"), vec![pair("a", "b")]);
    assert_eq!(request.url, "u");
    assert_eq!(request.query, vec![pair("a", "b")]);
    assert_eq!(request.headers, vec![pair("User-Agent", "coinpaprika-api-rust-client")]);
}

#[test]
fn request_with_key_carries_user_agent_and_authorization() {
    let client = Client::with_key("my-key");
    let request = client.request(String::from("u"), Vec::new());
    assert_eq!(
        request.headers,
        vec![pair("User-Agent", "coinpaprika-api-rust-client"), pair("Authorization", "my-key")]
    );
}

#[test]
fn authorization_holds_the_raw_key() {
    let client = Client::with_key("  Bearer: ünï/code %20 ");
    let request = client.global().request();
    assert_eq!(request.headers[1], pair("Authorization", "  Bearer: ünï/code %20 "));
}

#[test]
fn empty_key_is_still_a_key() {
    let client = Client::with_key("");
    assert_eq!(client.api_url(), API_URL_PRO);
    let request = client.global().request();
    assert_eq!(request.headers.len(), 2);
    assert_eq!(request.headers[1], pair("Authorization", ""));
}

#[test]
fn every_endpoint_of_a_free_client_sends_the_user_agent_and_no_key() {
    let client = Client::new();
    let requests = vec![
        client.key_info().request(),
        client.global().request(),
        client.coins().request(),
        client.coin("btc-bitcoin").request(),
        client.twitter("btc-bitcoin").request(),
        client.coin_events("btc-bitcoin").request(),
        client.coin_exchanges("btc-bitcoin").request(),
        client.coin_markets("btc-bitcoin").request(),
        client.coin_ohlc_last_full_day("btc-bitcoin").request(),
        client.coin_ohlc_historical("btc-bitcoin").request(),
        client.coin_ohlc_today("btc-bitcoin").request(),
        client.person("vitalik-buterin").request(),
        client.tags().request(),
        client.tag("blockchain-service").request(),
        client.tickers().request(),
        client.ticker("btc-bitcoin").request(),
        client.historical_ticks("btc-bitcoin").request(),
        client.exchanges().request(),
        client.exchange("binance").request(),
        client.exchange_markets("binance").request(),
        client.search("btc").request(),
        client.price_convert("btc-bitcoin", "eth-ethereum").request(),
        client.contract_platforms().request(),
        client.contracts("eth-ethereum").request(),
        client.changelog(1).request(),
    ];
    assert_eq!(requests.len(), 25);
    for request in &requests {
        assert_eq!(request.headers, vec![pair("User-Agent", DEFAULT_USER_AGENT)]);
        assert!(request.url.starts_with("https://api.coinpaprika.com/v1//"));
    }
}

#[test]
fn every_endpoint_of_a_keyed_client_sends_the_user_agent_and_the_key() {
    let client = Client::with_key("k-1");
    let requests = vec![
        client.key_info().request(),
        client.global().request(),
        client.coins().request(),
        client.coin("btc-bitcoin").request(),
        client.twitter("btc-bitcoin").request(),
        client.coin_events("btc-bitcoin").request(),
        client.coin_exchanges("btc-bitcoin").request(),
        client.coin_markets("btc-bitcoin").request(),
        client.coin_ohlc_last_full_day("btc-bitcoin").request(),
        client.coin_ohlc_historical("btc-bitcoin").request(),
        client.coin_ohlc_today("btc-bitcoin").request(),
        client.person("vitalik-buterin").request(),
        client.tags().request(),
        client.tag("blockchain-service").request(),
        client.tickers().request(),
        client.ticker("btc-bitcoin").request(),
        client.historical_ticks("btc-bitcoin").request(),
        client.exchanges().request(),
        client.exchange("binance").request(),
        client.exchange_markets("binance").request(),
        client.search("btc").request(),
        client.price_convert("btc-bitcoin", "eth-ethereum").request(),
        client.contract_platforms().request(),
        client.contracts("eth-ethereum").request(),
        client.changelog(1).request(),
    ];
    for request in &requests {
        assert_eq!(
            request.headers,
            vec![pair("User-Agent", DEFAULT_USER_AGENT), pair("Authorization", "k-1")]
        );
        assert!(request.url.starts_with("https://api-pro.coinpaprika.com/v1//"));
    }
}

#[test]
fn listed_statuses_are_answered_with_their_error() {
    let table = [
        (400u16, Error::InvalidRequestError),
        (402, Error::InsufficientPlan),
        (403, Error::InvalidApiKey),
        (404, Error::InvalidParameter),
        (429, Error::RateLimitError),
        (500, Error::InternalServerError),
    ];
    for (status, expected) in table {
        let request = Client::new().coins().request();
        let answer = Client::response(request, Ok((status, "not even JSON")));
        assert_eq!(answer.err(), Some(expected));
    }
}

#[test]
fn other_statuses_hand_the_response_on() {
    for status in [200u16, 201, 202, 204, 206, 301, 302, 304, 307, 308, 401, 418, 502, 503] {
        let request = Client::new().coins().request();
        let echo = Client::new().coins().request();
        let answer = Client::response(request, Ok((status, vec![1u8, 2, 3])));
        match answer {
            Ok(Response { status: seen, response, request }) => {
                assert_eq!(seen, status);
                assert_eq!(response, vec![1u8, 2, 3]);
                assert_eq!(request, echo);
            }
            Err(e) => panic!("status {} gave {:?}", status, e),
        }
    }
}

#[test]
fn failed_request_is_answered_with_the_error_of_its_failure() {
    let request = Client::new().coins().request();
    let answer = Client::response::<()>(request, Err(TransportFailure::Middleware));
    assert_eq!(answer.err(), Some(Error::ApiConnectionError));

    let request = Client::new().coins().request();
    let failure = TransportFailure::Reqwest {
        connect: false,
        timeout: false,
        message: String::from("body error"),
    };
    let answer = Client::response::<()>(request, Err(failure));
    assert_eq!(answer.err(), Some(Error::Reqwest(String::from("body error"))));
}

#[test]
fn connection_failures_that_outlast_the_retries_are_connection_errors() {
    let request = Client::new().ticker("btc-bitcoin").request();
    let failure = TransportFailure::Reqwest {
        connect: true,
        timeout: false,
        message: String::from("tcp connect error"),
    };
    let answer = Client::response::<()>(request, Err(failure));
    assert_eq!(answer.err(), Some(Error::ApiConnectionError));
}

fn text(value: &Value, field: &str) -> String {
    String::from(value[field].as_str().unwrap())
}

fn optional_text(value: &Value, field: &str) -> Option<String> {
    value[field].as_str().map(String::from)
}

fn flag(value: &Value, field: &str) -> bool {
    value[field].as_bool().unwrap()
}

fn coin_details(value: &Value) -> CoinDetails {
    CoinDetails {
        id: text(value, "id"),
        name: text(value, "name"),
        symbol: text(value, "symbol"),
        parent: None,
        rank: value["rank"].as_i64().unwrap() as isize,
        is_new: flag(value, "is_new"),
        is_active: flag(value, "is_active"),
        coin_type: text(value, "type"),
        logo: text(value, "logo"),
        tags: Vec::new(),
        team: Vec::new(),
        description: optional_text(value, "description"),
        message: text(value, "message"),
        open_source: flag(value, "open_source"),
        hardware_wallet: flag(value, "hardware_wallet"),
        started_at: optional_text(value, "started_at"),
        development_status: optional_text(value, "development_status"),
        proof_type: optional_text(value, "proof_type"),
        org_structure: optional_text(value, "org_structure"),
        hash_algorithm: optional_text(value, "hash_algorithm"),
        contract: optional_text(value, "contract"),
        platform: optional_text(value, "platform"),
        contracts: None,
        links: value["links"].clone(),
        links_extended: value["links_extended"].clone(),
        whitepaper: value["whitepaper"].clone(),
        first_data_at: text(value, "first_data_at"),
        last_data_at: text(value, "last_data_at"),
    }
}

const MINIMAL_COIN: &str = "{\"id\":\"btc-bitcoin\",\"name\":\"Bitcoin\",\"symbol\":\"BTC\",\
\"rank\":1,\"is_new\":false,\"is_active\":true,\"type\":\"coin\",\"logo\":\"\",\"tags\":[],\
\"team\":[],\"message\":\"\",\"open_source\":true,\"hardware_wallet\":true,\
\"proof_type\":\"Proof of Work\",\"links\":{\"explorer\":[]},\"links_extended\":[],\
\"whitepaper\":{\"link\":\"\",\"thumbnail\":\"\"},\
\"first_data_at\":\"2010-07-17T00:00:00Z\",\"last_data_at\":\"2024-01-05T00:00:00Z\"}";

#[test]
fn coin_details_come_back_from_a_200() {
    let client = Client::new();
    let request = client.coin("btc-bitcoin").request();
    assert_eq!(request.url, "https://api.coinpaprika.com/v1//coins/btc-bitcoin");
    assert!(request.query.is_empty());
    assert!(!has_header(&request, "Authorization"));

    let accepted = Client::response(request, Ok((200, MINIMAL_COIN))).unwrap();
    assert_eq!(accepted.status, 200);
    assert_eq!(accepted.response, MINIMAL_COIN);
    assert_eq!(accepted.request.url, "https://api.coinpaprika.com/v1//coins/btc-bitcoin");

    let parsed = serde_json::from_str::<Value>(accepted.response);
    let details = Error::decoded(parsed.map(|value| coin_details(&value)).map_err(|e| e.to_string()))
        .unwrap();
    assert_eq!(details.id, "btc-bitcoin");
    assert_eq!(details.name, "Bitcoin");
    assert_eq!(details.coin_type, "coin");
    assert_eq!(details.rank, 1);
    assert_eq!(details.proof_type, Some(String::from("Proof of Work")));
    assert_eq!(details.description, None);
    assert_eq!(details.whitepaper["link"], "");
}

#[test]
fn ticker_of_an_unknown_quote_is_an_invalid_parameter() {
    let client = Client::new();
    let mut ticker = client.ticker("btc-bitcoin");
    let request = ticker.quotes(vec!["PLN"]).request();
    assert_eq!(request.url, "https://api.coinpaprika.com/v1//tickers/btc-bitcoin");
    assert_eq!(request.query, vec![pair("quotes", "PLN")]);

    let answer = Client::response(request, Ok((404, "{\"error\":\"id not found\"}")));
    assert!(matches!(answer, Err(Error::InvalidParameter)));
}
