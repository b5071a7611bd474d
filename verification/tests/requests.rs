use coinpaprika_api::changelog::GetChangelogRequest;
use coinpaprika_api::client::Client;
use coinpaprika_api::coins::{GetCoinOHLCHistoricalRequest, GetCoinsRequest};
use coinpaprika_api::contracts::{GetContractPlatformsRequest, GetContractsRequest};
use coinpaprika_api::date::Date;
use coinpaprika_api::request::{push_list, push_optional, push_param};
use coinpaprika_api::tickers::GetHistoricalTicksRequest;

const FREE: &str = "https://api.coinpaprika.com/v1/";

fn pair(name: &str, value: &str) -> (String, String) {
    (String::from(name), String::from(value))
}

fn url(path: &str) -> String {
    format!("{}{}", FREE, path)
}

fn is_date(text: &str) -> bool {
    let bytes = text.as_bytes();
    bytes.len() == 10
        && bytes[4] == b'-'
        && bytes[7] == b'-'
        && [0usize, 1, 2, 3, 5, 6, 8, 9].iter().all(|&i| bytes[i].is_ascii_digit())
}

#[test]
fn push_param_appends_one_pair() {
    let mut query = vec![pair("a", "1")];
    push_param(&mut query, "b", "2");
    assert_eq!(query, vec![pair("a", "1"), pair("b", "2")]);
    push_param(&mut query, "", "");
    assert_eq!(query, vec![pair("a", "1"), pair("b", "2"), pair("", "")]);
}

#[test]
fn push_list_of_nothing_appends_nothing() {
    let mut query = vec![pair("a", "1")];
    push_list(&mut query, "quotes", &Vec::new());
    assert_eq!(query, vec![pair("a", "1")]);
}

#[test]
fn push_list_appends_one_comma_joined_pair() {
    let mut query = Vec::new();
    push_list(&mut query, "quotes", &vec![String::from("BTC"), String::from("USD")]);
    assert_eq!(query, vec![pair("quotes", "BTC,USD")]);
}

#[test]
fn push_optional_appends_only_what_is_set() {
    let mut query = Vec::new();
    push_optional(&mut query, "quote", &None);
    assert!(query.is_empty());
    push_optional(&mut query, "quote", &Some(String::from("usd")));
    assert_eq!(query, vec![pair("quote", "usd")]);
}

#[test]
fn endpoint_puts_base_and_path_together() {
    let client = Client::new();
    assert_eq!(
        client.endpoint("/coins/", "btc-bitcoin", "/markets"),
        url("/coins/btc-bitcoin/markets")
    );
    assert_eq!(client.endpoint("/global", "", ""), url("/global"));
    let keyed = Client::with_key("k");
    assert_eq!(
        keyed.endpoint("/tickers/", "eth-ethereum", ""),
        "https://api-pro.coinpaprika.com/v1//tickers/eth-ethereum"
    );
}

#[test]
fn key_info_request() {
    let request = Client::with_key("k").key_info().request();
    assert_eq!(request.url, "https://api-pro.coinpaprika.com/v1//key/info");
    assert!(request.query.is_empty());
}

#[test]
fn global_request() {
    let request = Client::new().global().request();
    assert_eq!(request.url, url("/global"));
    assert!(request.query.is_empty());
}

#[test]
fn coins_request() {
    let client = Client::new();
    let request = client.coins().request();
    assert_eq!(request.url, url("/coins"));
    assert!(request.query.is_empty());
    assert_eq!(GetCoinsRequest::new(&client).request(), request);
}

#[test]
fn coin_request() {
    let request = Client::new().coin("btc-bitcoin").request();
    assert_eq!(request.url, url("/coins/btc-bitcoin"));
    assert!(request.query.is_empty());
}

#[test]
fn twitter_request() {
    let request = Client::new().twitter("btc-bitcoin").request();
    assert_eq!(request.url, url("/coins/btc-bitcoin/twitter"));
    assert!(request.query.is_empty());
}

#[test]
fn coin_events_request() {
    let request = Client::new().coin_events("btc-bitcoin").request();
    assert_eq!(request.url, url("/coins/btc-bitcoin/events"));
    assert!(request.query.is_empty());
}

#[test]
fn coin_exchanges_request() {
    let request = Client::new().coin_exchanges("btc-bitcoin").request();
    assert_eq!(request.url, url("/coins/btc-bitcoin/exchanges"));
    assert!(request.query.is_empty());
}

#[test]
fn coin_markets_request_without_quotes() {
    let request = Client::new().coin_markets("btc-bitcoin").request();
    assert_eq!(request.url, url("/coins/btc-bitcoin/markets"));
    assert!(request.query.is_empty());
}

#[test]
fn coin_markets_request_with_quotes() {
    let client = Client::new();
    let mut markets = client.coin_markets("btc-bitcoin");
    let request = markets.quotes(vec!["PLN", "CZK"]).request();
    assert_eq!(request.url, url("/coins/btc-bitcoin/markets"));
    assert_eq!(request.query, vec![pair("quotes", "PLN,CZK")]);
}

#[test]
fn coin_ohlc_last_full_day_request() {
    let client = Client::new();
    let mut ohlc = client.coin_ohlc_last_full_day("btc-bitcoin");
    assert_eq!(ohlc.request().url, url("/coins/btc-bitcoin/ohlcv/latest"));
    assert!(ohlc.request().query.is_empty());
    assert_eq!(ohlc.quote("usd").request().query, vec![pair("quote", "usd")]);
}

#[test]
fn coin_ohlc_today_request() {
    let client = Client::new();
    let mut ohlc = client.coin_ohlc_today("btc-bitcoin");
    assert_eq!(ohlc.request().url, url("/coins/btc-bitcoin/ohlcv/today"));
    assert!(ohlc.request().query.is_empty());
    assert_eq!(ohlc.quote("btc").request().query, vec![pair("quote", "btc")]);
    assert_eq!(ohlc.quote("usd").request().query, vec![pair("quote", "usd")]);
}

#[test]
fn coin_ohlc_historical_request_with_every_filter() {
    let client = Client::new();
    let mut ohlc = client.coin_ohlc_historical("btc-bitcoin");
    let request = ohlc.start("2022-10-18").end("2022-10-18").limit(2).quote("btc").request();
    assert_eq!(request.url, url("/coins/btc-bitcoin/ohlcv/historical"));
    assert_eq!(
        request.query,
        vec![
            pair("start", "2022-10-18"),
            pair("end", "2022-10-18"),
            pair("limit", "2"),
            pair("quote", "btc"),
        ]
    );
}

#[test]
fn coin_ohlc_historical_request_starts_on_the_given_day() {
    let client = Client::new();
    let day = Date { year: 2024, month: 1, day: 5 };
    let request = GetCoinOHLCHistoricalRequest::starting(&client, "btc-bitcoin", day).request();
    assert_eq!(request.query, vec![pair("start", "2024-01-05")]);
}

#[test]
fn coin_ohlc_historical_request_starts_today_by_default() {
    let before = chrono::Utc::now().format("%Y-%m-%d").to_string();
    let request = Client::new().coin_ohlc_historical("btc-bitcoin").request();
    let after = chrono::Utc::now().format("%Y-%m-%d").to_string();
    assert_eq!(request.query.len(), 1);
    assert_eq!(request.query[0].0, "start");
    assert!(is_date(&request.query[0].1));
    assert!(request.query[0].1 == before || request.query[0].1 == after);
}

#[test]
fn historical_ticks_request_starts_today_by_default() {
    let before = chrono::Utc::now().format("%Y-%m-%d").to_string();
    let request = Client::new().historical_ticks("btc-bitcoin").request();
    let after = chrono::Utc::now().format("%Y-%m-%d").to_string();
    assert_eq!(request.url, url("/tickers/btc-bitcoin/historical"));
    assert_eq!(request.query.len(), 1);
    assert_eq!(request.query[0].0, "start");
    assert!(is_date(&request.query[0].1));
    assert!(request.query[0].1 == before || request.query[0].1 == after);
}

#[test]
fn historical_ticks_request_starts_on_the_given_day() {
    let client = Client::new();
    let day = Date { year: 2023, month: 12, day: 9 };
    let request = GetHistoricalTicksRequest::starting(&client, "btc-bitcoin", day).request();
    assert_eq!(request.query, vec![pair("start", "2023-12-09")]);
}

#[test]
fn historical_ticks_request_with_every_filter() {
    let client = Client::new();
    let mut ticks = client.historical_ticks("btc-bitcoin");
    let request = ticks
        .start("2018-02-15T05:15:00Z")
        .end("1518671700")
        .limit(5000)
        .quote("usd")
        .interval("1d")
        .request();
    assert_eq!(
        request.query,
        vec![
            pair("start", "2018-02-15T05:15:00Z"),
            pair("end", "1518671700"),
            pair("limit", "5000"),
            pair("quote", "usd"),
            pair("interval", "1d"),
        ]
    );
}

#[test]
fn historical_ticks_request_with_some_filters() {
    let client = Client::new();
    let mut ticks = client.historical_ticks("eth-ethereum");
    let request = ticks.start("2018-02-15").interval("7d").request();
    assert_eq!(request.url, url("/tickers/eth-ethereum/historical"));
    assert_eq!(request.query, vec![pair("start", "2018-02-15"), pair("interval", "7d")]);
}

#[test]
fn dates_are_passed_on_as_given() {
    let client = Client::new();
    let mut ticks = client.historical_ticks("btc-bitcoin");
    let request = ticks.start("not a date").end("").request();
    assert_eq!(request.query, vec![pair("start", "not a date"), pair("end", "")]);
}

#[test]
fn later_setting_replaces_the_earlier() {
    let client = Client::new();
    let mut ticks = client.historical_ticks("btc-bitcoin");
    let request = ticks.start("2020-01-01").limit(1).limit(-7).start("2021-01-01").request();
    assert_eq!(request.query, vec![pair("start", "2021-01-01"), pair("limit", "-7")]);
}

#[test]
fn person_request() {
    let request = Client::new().person("vitalik-buterin").request();
    assert_eq!(request.url, url("/people/vitalik-buterin"));
    assert!(request.query.is_empty());
}

#[test]
fn tags_request() {
    let client = Client::new();
    let mut tags = client.tags();
    assert_eq!(tags.request().url, url("/tags"));
    assert!(tags.request().query.is_empty());
    let request = tags.additional_fields(vec!["coins", "icos"]).request();
    assert_eq!(request.query, vec![pair("additional_fields", "coins,icos")]);
}

#[test]
fn tag_request() {
    let client = Client::new();
    let mut tag = client.tag("blockchain-service");
    assert_eq!(tag.request().url, url("/tags/blockchain-service"));
    assert!(tag.request().query.is_empty());
    let request = tag.additional_fields(vec!["coins"]).request();
    assert_eq!(request.query, vec![pair("additional_fields", "coins")]);
}

#[test]
fn tickers_request_without_quotes_has_no_parameters() {
    let request = Client::new().tickers().request();
    assert_eq!(request.url, url("/tickers"));
    assert!(request.query.is_empty());
}

#[test]
fn tickers_request_with_explicitly_empty_quotes_has_no_parameters() {
    let client = Client::new();
    let mut tickers = client.tickers();
    let unset = client.tickers().request();
    assert_eq!(tickers.quotes(Vec::new()).request(), unset);
    assert_eq!(tickers.quotes(vec!["BTC"]).quotes(Vec::new()).request(), unset);
}

#[test]
fn tickers_request_with_quotes_has_one_comma_joined_parameter() {
    let client = Client::new();
    let mut tickers = client.tickers();
    let request = tickers.quotes(vec!["BTC", "USD"]).request();
    assert_eq!(request.query, vec![pair("quotes", "BTC,USD")]);
}

#[test]
fn quotes_are_sent_as_one_value_on_the_wire() {
    let client = Client::new();
    let mut tickers = client.tickers();
    let request = tickers.quotes(vec!["BTC", "USD"]).request();
    let wire = reqwest::Url::parse_with_params(&request.url, &request.query).unwrap();
    let sent: Vec<(String, String)> = wire.query_pairs().into_owned().collect();
    assert_eq!(sent, vec![pair("quotes", "BTC,USD")]);
}

#[test]
fn ticker_request() {
    let client = Client::new();
    let mut ticker = client.ticker("btc-bitcoin");
    assert_eq!(ticker.request().url, url("/tickers/btc-bitcoin"));
    assert!(ticker.request().query.is_empty());
    let request = ticker.quotes(vec!["PLN"]).request();
    assert_eq!(request.query, vec![pair("quotes", "PLN")]);
}

#[test]
fn exchanges_request() {
    let client = Client::new();
    let mut exchanges = client.exchanges();
    assert_eq!(exchanges.request().url, url("/exchanges"));
    assert!(exchanges.request().query.is_empty());
    let request = exchanges.quotes(vec!["USD", "BTC", "ETH"]).request();
    assert_eq!(request.query, vec![pair("quotes", "USD,BTC,ETH")]);
}

#[test]
fn exchange_request() {
    let client = Client::new();
    let mut exchange = client.exchange("binance");
    assert_eq!(exchange.request().url, url("/exchanges/binance"));
    assert!(exchange.request().query.is_empty());
    let request = exchange.quotes(vec!["USD"]).request();
    assert_eq!(request.query, vec![pair("quotes", "USD")]);
}

#[test]
fn exchange_markets_request() {
    let client = Client::new();
    let mut markets = client.exchange_markets("binance");
    assert_eq!(markets.request().url, url("/exchanges/binance/markets"));
    assert!(markets.request().query.is_empty());
    let request = markets.quotes(vec!["USD", "PLN"]).request();
    assert_eq!(request.query, vec![pair("quotes", "USD,PLN")]);
}

#[test]
fn search_request_with_the_phrase_only() {
    let request = Client::new().search("btc").request();
    assert_eq!(request.url, url("/search"));
    assert_eq!(request.query, vec![pair("q", "btc")]);
}

#[test]
fn search_request_with_every_filter() {
    let client = Client::new();
    let mut search = client.search("btc");
    let request = search
        .c(vec!["currencies", "icos", "people"])
        .modifier("symbol_search")
        .limit(3)
        .request();
    assert_eq!(
        request.query,
        vec![
            pair("q", "btc"),
            pair("c", "currencies,icos,people"),
            pair("modifier", "symbol_search"),
            pair("limit", "3"),
        ]
    );
}

#[test]
fn search_request_with_explicitly_empty_categories() {
    let client = Client::new();
    let mut search = client.search("btc");
    let request = search.c(Vec::new()).limit(250).request();
    assert_eq!(request.query, vec![pair("q", "btc"), pair("limit", "250")]);
}

#[test]
fn price_conversion_request_converts_nothing_by_default() {
    let request = Client::new().price_convert("btc-bitcoin", "eth-ethereum").request();
    assert_eq!(request.url, url("/price-converter"));
    assert_eq!(
        request.query,
        vec![
            pair("base_currency_id", "btc-bitcoin"),
            pair("quote_currency_id", "eth-ethereum"),
            pair("amount", "0"),
        ]
    );
}

#[test]
fn price_conversion_request_with_an_amount() {
    let client = Client::new();
    let mut conversion = client.price_convert("btc-bitcoin", "eth-ethereum");
    let request = conversion.amount(100).request();
    assert_eq!(request.query.len(), 3);
    assert!(request.query.contains(&pair("amount", "100")));
    assert!(request.query.contains(&pair("base_currency_id", "btc-bitcoin")));
    assert!(request.query.contains(&pair("quote_currency_id", "eth-ethereum")));
}

#[test]
fn price_conversion_request_on_the_wire() {
    let client = Client::new();
    let mut conversion = client.price_convert("btc-bitcoin", "eth-ethereum");
    let request = conversion.amount(100).request();
    let wire = reqwest::Url::parse_with_params(&request.url, &request.query).unwrap();
    let mut sent: Vec<&str> = wire.query().unwrap().split('&').collect();
    sent.sort();
    assert_eq!(
        sent,
        vec!["amount=100", "base_currency_id=btc-bitcoin", "quote_currency_id=eth-ethereum"]
    );
}

#[test]
fn contract_platforms_request() {
    let client = Client::new();
    let request = GetContractPlatformsRequest::new(&client).request();
    assert_eq!(request.url, url("/contracts"));
    assert!(request.query.is_empty());
    assert_eq!(client.contract_platforms().request(), request);
}

#[test]
fn contracts_request() {
    let client = Client::new();
    let request = GetContractsRequest::new(&client, "eth-ethereum").request();
    assert_eq!(request.url, url("/contracts/eth-ethereum"));
    assert!(request.query.is_empty());
    assert_eq!(client.contracts("eth-ethereum").request(), request);
}

#[test]
fn changelog_request() {
    let client = Client::with_key("k");
    let request = GetChangelogRequest::new(&client, 1).request();
    assert_eq!(request.url, "https://api-pro.coinpaprika.com/v1//changelog/ids");
    assert_eq!(request.query, vec![pair("page", "1")]);
    let request = GetChangelogRequest::new(&client, 12).request();
    assert_eq!(request.query, vec![pair("page", "12")]);
    assert_eq!(client.changelog(12).request(), request);
}

#[test]
fn identifiers_are_put_into_the_path_as_given() {
    let request = Client::new().coin("").request();
    assert_eq!(request.url, url("/coins/"));
    let request = Client::new().coin("a b/ć").request();
    assert_eq!(request.url, url("/coins/a b/ć"));
}
