use crate::changelog::GetChangelogRequest;
use crate::coins::{
    GetCoinEventsRequest, GetCoinExchangesRequest, GetCoinMarketsRequest,
    GetCoinOHLCHistoricalRequest, GetCoinOHLCLastFullDayRequest, GetCoinOHLCTodayRequest,
    GetCoinRequest, GetCoinsRequest, GetTwitterRequest,
};
use crate::contracts::{GetContractPlatformsRequest, GetContractsRequest};
use crate::date::Date;
use crate::error::{failure_error, status_error, Error, TransportFailure};
use crate::exchanges::{GetExchangeMarketsRequest, GetExchangeRequest, GetExchangesRequest};
use crate::global::GetGlobalRequest;
use crate::key::GetKeyInfoRequest;
use crate::people::GetPersonRequest;
use crate::request::{pairs, Pair, Request, RequestView};
use crate::tags::{GetTagRequest, GetTagsRequest};
use crate::text::int_text;
use crate::tickers::{GetHistoricalTicksRequest, GetTickerRequest, GetTickersRequest};
use crate::tools::{GetPriceConversionRequest, GetSearchRequest};
use vstd::prelude::*;
use vstd::string::StringExecFns;

verus! {

/// The value of the `User-Agent` header of every request.
pub const DEFAULT_USER_AGENT: &'static str = "coinpaprika-api-rust-client";

/// Where the API is served to callers without a key.
pub const API_URL: &'static str = "https://api.coinpaprika.com/v1/";

/// Where the API is served to callers with a key.
pub const API_URL_PRO: &'static str = "https://api-pro.coinpaprika.com/v1/";

/// How often the transport tries a request again after a transient failure.
pub const MAX_RETRIES: u32 = 3;

/// A response that was accepted, still undecoded, beside the request that
/// brought it.
#[derive(Debug)]
pub struct Response<R> {
    /// The status code that the response came with.
    pub status: u16,
    /// The response as the transport handed it over.
    pub response: R,
    /// The request as it was issued.
    pub request: Request,
}

/// The configuration that every request is issued with: which tier of the
/// API is addressed, the key of the caller if there is one, and the name
/// under which the library announces itself. It is fixed when the client is
/// made.
#[derive(Debug)]
pub struct Client {
    api_url: &'static str,
    api_key: Option<String>,
    user_agent: &'static str,
}

impl Client {
    #[verifier::type_invariant]
    spec fn well_formed(&self) -> bool {
        &&& self.user_agent@ == DEFAULT_USER_AGENT@
        &&& self.api_key is None ==> self.api_url@ == API_URL@
        &&& self.api_key is Some ==> self.api_url@ == API_URL_PRO@
    }

    /// The key that the client was made with.
    pub closed spec fn key(&self) -> Option<Seq<char>> {
        match self.api_key {
            None => None,
            Some(k) => Some(k@),
        }
    }

    /// The URL below which the endpoints of the client's tier lie.
    pub open spec fn base(&self) -> Seq<char> {
        match self.key() {
            None => API_URL@,
            Some(_) => API_URL_PRO@,
        }
    }

    /// The headers of every request of this client: the library's name, and
    /// the key where there is one.
    pub open spec fn headers(&self) -> Seq<Pair> {
        match self.key() {
            None => seq![("User-Agent"@, DEFAULT_USER_AGENT@)],
            Some(k) => seq![("User-Agent"@, DEFAULT_USER_AGENT@), ("Authorization"@, k)],
        }
    }

    /// The request for an endpoint of this client's tier.
    pub open spec fn get(&self, path: Seq<char>, query: Seq<Pair>) -> RequestView {
        RequestView { url: self.base() + path, query, headers: self.headers() }
    }

    /// A client of the free tier, without a key.
    pub fn new() -> (r: Client)
        ensures
            r.key() is None,
    {
        Client { api_url: API_URL, api_key: None, user_agent: DEFAULT_USER_AGENT }
    }

    /// A client of the keyed tier, which sends `key` with every request.
    pub fn with_key(key: &str) -> (r: Client)
        ensures
            r.key() == Some(key@),
    {
        Client {
            api_url: API_URL_PRO,
            api_key: Some(String::from_str(key)),
            user_agent: DEFAULT_USER_AGENT,
        }
    }

    /// The URL below which the endpoints of the client's tier lie.
    pub fn api_url(&self) -> (r: &'static str)
        ensures
            r@ == self.base(),
    {
        proof {
            use_type_invariant(self);
        }
        self.api_url
    }

    /// The URL of an endpoint: the base URL of the tier, then the three parts
    /// of the path in order.
    pub fn endpoint(&self, before: &str, id: &str, after: &str) -> (r: String)
        ensures
            r@ == self.base() + (before@ + id@ + after@),
    {
        let mut url = String::from_str(self.api_url());
        url.append(before);
        url.append(id);
        url.append(after);
        assert(url@ =~= self.base() + (before@ + id@ + after@));
        url
    }

    /// Completes a request for `url`: whatever the endpoint, it carries the
    /// `User-Agent` header with the library's name first, and after it the
    /// `Authorization` header with the key as it was given, if and only if
    /// the client has one.
    pub fn request(&self, url: String, query: Vec<(String, String)>) -> (r: Request)
        ensures
            r@ == (RequestView { url: url@, query: pairs(query@), headers: self.headers() }),
    {
        proof {
            use_type_invariant(self);
        }
        let mut headers: Vec<(String, String)> = Vec::new();
        headers.push((String::from_str("User-Agent"), String::from_str(self.user_agent)));
        if let Some(key) = &self.api_key {
            headers.push((String::from_str("Authorization"), key.clone()));
        }
        assert(pairs(headers@) =~= self.headers());
        Request { url, query, headers }
    }

    /// Asks for information about the key of the client: `/key/info`.
    pub fn key_info(&self) -> (r: GetKeyInfoRequest<'_>)
        ensures
            r.spec_client() == *self,
    {
        GetKeyInfoRequest::new(self)
    }

    /// Asks for the overview of the whole market: `/global`.
    pub fn global(&self) -> (r: GetGlobalRequest<'_>)
        ensures
            r.spec_client() == *self,
    {
        GetGlobalRequest::new(self)
    }

    /// Asks for the list of coins: `/coins`.
    pub fn coins(&self) -> (r: GetCoinsRequest<'_>)
        ensures
            r.spec_client() == *self,
    {
        GetCoinsRequest::new(self)
    }

    /// Asks for the details of one coin: `/coins/{coin_id}`.
    pub fn coin(&self, coin_id: &str) -> (r: GetCoinRequest<'_>)
        ensures
            r.spec_client() == *self,
            r.spec_coin_id() == coin_id@,
    {
        GetCoinRequest::new(self, coin_id)
    }

    /// Asks for the latest tweets about one coin: `/coins/{coin_id}/twitter`.
    pub fn twitter(&self, coin_id: &str) -> (r: GetTwitterRequest<'_>)
        ensures
            r.spec_client() == *self,
            r.spec_coin_id() == coin_id@,
    {
        GetTwitterRequest::new(self, coin_id)
    }

    /// Asks for the events around one coin: `/coins/{coin_id}/events`.
    pub fn coin_events(&self, coin_id: &str) -> (r: GetCoinEventsRequest<'_>)
        ensures
            r.spec_client() == *self,
            r.spec_coin_id() == coin_id@,
    {
        GetCoinEventsRequest::new(self, coin_id)
    }

    /// Asks for the exchanges of one coin: `/coins/{coin_id}/exchanges`.
    pub fn coin_exchanges(&self, coin_id: &str) -> (r: GetCoinExchangesRequest<'_>)
        ensures
            r.spec_client() == *self,
            r.spec_coin_id() == coin_id@,
    {
        GetCoinExchangesRequest::new(self, coin_id)
    }

    /// Asks for the markets of one coin: `/coins/{coin_id}/markets`.
    pub fn coin_markets(&self, coin_id: &str) -> (r: GetCoinMarketsRequest<'_>)
        ensures
            r.spec_client() == *self,
            r.spec_coin_id() == coin_id@,
            r.spec_quotes() == Seq::<Seq<char>>::empty(),
    {
        GetCoinMarketsRequest::new(self, coin_id)
    }

    /// Asks for the values of the last full day of one coin:
    /// `/coins/{coin_id}/ohlcv/latest`.
    pub fn coin_ohlc_last_full_day(&self, coin_id: &str) -> (r: GetCoinOHLCLastFullDayRequest<'_>)
        ensures
            r.spec_client() == *self,
            r.spec_coin_id() == coin_id@,
            r.spec_quote() is None,
    {
        GetCoinOHLCLastFullDayRequest::new(self, coin_id)
    }

    /// Asks for the values of a range of days of one coin, starting today:
    /// `/coins/{coin_id}/ohlcv/historical`.
    pub fn coin_ohlc_historical(&self, coin_id: &str) -> (r: GetCoinOHLCHistoricalRequest<'_>)
        ensures
            r.spec_client() == *self,
            r.spec_coin_id() == coin_id@,
            exists|day: Date| day.in_calendar() && r.spec_start() == #[trigger] day.text(),
            r.spec_end() is None,
            r.spec_limit() is None,
            r.spec_quote() is None,
    {
        GetCoinOHLCHistoricalRequest::new(self, coin_id)
    }

    /// Asks for the values of the current day of one coin:
    /// `/coins/{coin_id}/ohlcv/today`.
    pub fn coin_ohlc_today(&self, coin_id: &str) -> (r: GetCoinOHLCTodayRequest<'_>)
        ensures
            r.spec_client() == *self,
            r.spec_coin_id() == coin_id@,
            r.spec_quote() is None,
    {
        GetCoinOHLCTodayRequest::new(self, coin_id)
    }

    /// Asks for one person: `/people/{person_id}`.
    pub fn person(&self, person_id: &str) -> (r: GetPersonRequest<'_>)
        ensures
            r.spec_client() == *self,
            r.spec_person_id() == person_id@,
    {
        GetPersonRequest::new(self, person_id)
    }

    /// Asks for the list of tags: `/tags`.
    pub fn tags(&self) -> (r: GetTagsRequest<'_>)
        ensures
            r.spec_client() == *self,
            r.spec_additional_fields() == Seq::<Seq<char>>::empty(),
    {
        GetTagsRequest::new(self)
    }

    /// Asks for one tag: `/tags/{tag_id}`.
    pub fn tag(&self, tag_id: &str) -> (r: GetTagRequest<'_>)
        ensures
            r.spec_client() == *self,
            r.spec_tag_id() == tag_id@,
            r.spec_additional_fields() == Seq::<Seq<char>>::empty(),
    {
        GetTagRequest::new(self, tag_id)
    }

    /// Asks for the price data of all active coins: `/tickers`.
    pub fn tickers(&self) -> (r: GetTickersRequest<'_>)
        ensures
            r.spec_client() == *self,
            r.spec_quotes() == Seq::<Seq<char>>::empty(),
    {
        GetTickersRequest::new(self)
    }

    /// Asks for the price data of one coin: `/tickers/{coin_id}`.
    pub fn ticker(&self, coin_id: &str) -> (r: GetTickerRequest<'_>)
        ensures
            r.spec_client() == *self,
            r.spec_coin_id() == coin_id@,
            r.spec_quotes() == Seq::<Seq<char>>::empty(),
    {
        GetTickerRequest::new(self, coin_id)
    }

    /// Asks for the historical ticks of one coin, starting today:
    /// `/tickers/{coin_id}/historical`.
    pub fn historical_ticks(&self, coin_id: &str) -> (r: GetHistoricalTicksRequest<'_>)
        ensures
            r.spec_client() == *self,
            r.spec_coin_id() == coin_id@,
            exists|day: Date| day.in_calendar() && r.spec_start() == #[trigger] day.text(),
            r.spec_end() is None,
            r.spec_limit() is None,
            r.spec_quote() is None,
            r.spec_interval() is None,
    {
        GetHistoricalTicksRequest::new(self, coin_id)
    }

    /// Asks for the list of exchanges: `/exchanges`.
    pub fn exchanges(&self) -> (r: GetExchangesRequest<'_>)
        ensures
            r.spec_client() == *self,
            r.spec_quotes() == Seq::<Seq<char>>::empty(),
    {
        GetExchangesRequest::new(self)
    }

    /// Asks for one exchange: `/exchanges/{exchange_id}`.
    pub fn exchange(&self, exchange_id: &str) -> (r: GetExchangeRequest<'_>)
        ensures
            r.spec_client() == *self,
            r.spec_exchange_id() == exchange_id@,
            r.spec_quotes() == Seq::<Seq<char>>::empty(),
    {
        GetExchangeRequest::new(self, exchange_id)
    }

    /// Asks for the markets of one exchange: `/exchanges/{exchange_id}/markets`.
    pub fn exchange_markets(&self, exchange_id: &str) -> (r: GetExchangeMarketsRequest<'_>)
        ensures
            r.spec_client() == *self,
            r.spec_exchange_id() == exchange_id@,
            r.spec_quotes() == Seq::<Seq<char>>::empty(),
    {
        GetExchangeMarketsRequest::new(self, exchange_id)
    }

    /// Searches for `q` among coins, exchanges, ICOs, people and tags:
    /// `/search`.
    pub fn search(&self, q: &str) -> (r: GetSearchRequest<'_>)
        ensures
            r.spec_client() == *self,
            r.spec_q() == q@,
            r.spec_c() == Seq::<Seq<char>>::empty(),
            r.spec_modifier() is None,
            r.spec_limit() is None,
    {
        GetSearchRequest::new(self, q)
    }

    /// Asks for the price of an amount of one currency in another, the
    /// amount being 0 until it is set: `/price-converter`.
    pub fn price_convert(&self, base_currency_id: &str, quote_currency_id: &str) -> (r:
        GetPriceConversionRequest<'_>)
        ensures
            r.spec_client() == *self,
            r.spec_base_currency_id() == base_currency_id@,
            r.spec_quote_currency_id() == quote_currency_id@,
            r.spec_amount() == int_text(0),
    {
        GetPriceConversionRequest::new(self, base_currency_id, quote_currency_id)
    }

    /// Asks for the list of contract platforms: `/contracts`.
    pub fn contract_platforms(&self) -> (r: GetContractPlatformsRequest<'_>)
        ensures
            r.spec_client() == *self,
    {
        GetContractPlatformsRequest::new(self)
    }

    /// Asks for the contracts of one platform: `/contracts/{platform_id}`.
    pub fn contracts(&self, platform_id: &str) -> (r: GetContractsRequest<'_>)
        ensures
            r.spec_client() == *self,
            r.spec_platform_id() == platform_id@,
    {
        GetContractsRequest::new(self, platform_id)
    }

    /// Asks for one page of the changes of coin identifiers:
    /// `/changelog/ids`.
    pub fn changelog(&self, page: i32) -> (r: GetChangelogRequest<'_>)
        ensures
            r.spec_client() == *self,
            r.spec_page() == page,
    {
        GetChangelogRequest::new(self, page)
    }

    /// Decides what a finished request is answered with. A status code of
    /// the API's error table gives its error kind and the response is
    /// dropped unread; with any other status the response is handed on as
    /// it came, beside its status and the request. A request that brought
    /// no response gives the error kind of its failure.
    pub fn response<R>(request: Request, outcome: Result<(u16, R), TransportFailure>) -> (r: Result<
        Response<R>,
        Error,
    >)
        ensures
            r == Client::answer(request, outcome),
    {
        match outcome {
            Ok((status, response)) => match Error::from_status(status) {
                Some(e) => Err(e),
                None => Ok(Response { status, response, request }),
            },
            Err(failure) => Err(Error::from_failure(failure)),
        }
    }

    /// What [`Client::response`] returns.
    pub open spec fn answer<R>(
        request: Request,
        outcome: Result<(u16, R), TransportFailure>,
    ) -> Result<Response<R>, Error> {
        match outcome {
            Ok((status, response)) => match status_error(status) {
                Some(e) => Err(e),
                None => Ok(Response { status, response, request }),
            },
            Err(failure) => Err(failure_error(failure)),
        }
    }
}

/// Every request carries the `User-Agent` header with the library's name.
/// It carries an `Authorization` header if and only if the client was made
/// with a key, and the value of that header is the key.
pub proof fn headers_carry_agent_and_key(client: Client)
    ensures
        client.headers().contains(("User-Agent"@, DEFAULT_USER_AGENT@)),
        (exists|i: int|
            0 <= i < client.headers().len() && (#[trigger] client.headers()[i]).0
                == "Authorization"@) <==> client.key() is Some,
        forall|k: Seq<char>|
            client.key() == Some(k) ==> client.headers().contains(("Authorization"@, k)),
{
    reveal_strlit("User-Agent");
    reveal_strlit("Authorization");
    let headers = client.headers();
    assert(headers[0] == ("User-Agent"@, DEFAULT_USER_AGENT@));
    assert("User-Agent"@.len() != "Authorization"@.len());
    match client.key() {
        None => {},
        Some(k) => {
            assert(headers[1] == ("Authorization"@, k));
        },
    }
}

/// Each status code of the API's error table is answered with its error
/// kind, whatever the response holds.
pub proof fn listed_status_gives_its_error<R>(request: Request, response: R)
    ensures
        Client::answer(request, Ok((400u16, response))) == Err::<Response<R>, Error>(
            Error::InvalidRequestError,
        ),
        Client::answer(request, Ok((402u16, response))) == Err::<Response<R>, Error>(
            Error::InsufficientPlan,
        ),
        Client::answer(request, Ok((403u16, response))) == Err::<Response<R>, Error>(
            Error::InvalidApiKey,
        ),
        Client::answer(request, Ok((404u16, response))) == Err::<Response<R>, Error>(
            Error::InvalidParameter,
        ),
        Client::answer(request, Ok((429u16, response))) == Err::<Response<R>, Error>(
            Error::RateLimitError,
        ),
        Client::answer(request, Ok((500u16, response))) == Err::<Response<R>, Error>(
            Error::InternalServerError,
        ),
{
}

/// A response with any other status code is handed on unchanged, beside
/// its status and the request that brought it.
pub proof fn other_status_hands_response_on<R>(request: Request, status: u16, response: R)
    requires
        status != 400 && status != 402 && status != 403 && status != 404 && status != 429
            && status != 500,
    ensures
        Client::answer(request, Ok((status, response))) == Ok::<Response<R>, Error>(
            Response { status, response, request },
        ),
{
}

impl Default for Client {
    fn default() -> (r: Client)
        ensures
            r.key() is None,
    {
        Client::new()
    }
}

} // verus!
