use crate::client::Client;
use crate::date::{today, Date};
use crate::request::{
    list_param, optional_param, optional_text, pairs, push_list, push_optional, push_param, Pair,
    Request,
};
use crate::text::{decimal, int_text, owned, slices, texts};
use vstd::prelude::*;
use vstd::string::StringExecFns;

verus! {

/// Basic information about a coin.
#[derive(Debug)]
pub struct Coin {
    pub id: String,
    pub name: String,
    pub symbol: String,
    /// The rank of the coin; 0 while the coin is not active.
    pub rank: isize,
    /// Whether the coin was added within the last five days.
    pub is_new: bool,
    /// Whether price and volume of the coin are being calculated.
    pub is_active: bool,
    /// `coin` or `token`; the field `type` of the API.
    pub coin_type: String,
}

/// The coin that a token is built on.
#[derive(Debug)]
pub struct Parent {
    pub id: String,
    pub name: String,
    pub symbol: String,
}

/// A tag assigned to a coin.
#[derive(Debug)]
pub struct CoinTag {
    pub id: String,
    pub name: String,
    /// How many coins carry the tag.
    pub coin_counter: i32,
    /// How many ICO projects carry the tag.
    pub ico_counter: i32,
}

/// A member of the team behind a coin.
#[derive(Debug)]
pub struct Team {
    pub id: String,
    pub name: String,
    pub position: String,
}

/// A contract of a coin.
#[derive(Debug)]
pub struct Contract {
    /// The identifier of the contract, usually its address.
    pub contract: String,
    /// The platform of the contract, such as `eth-ethereum`.
    pub platform: String,
    /// The kind of contract; the field `type` of the API.
    pub contract_type: String,
}

/// The whitepaper of a coin.
#[derive(Debug)]
pub struct Whitepaper {
    pub link: String,
    pub thumbnail: String,
}

/// Descriptive information about one coin, without price or volume.
#[derive(Debug)]
pub struct CoinDetails {
    pub id: String,
    pub name: String,
    pub symbol: String,
    pub parent: Option<Parent>,
    pub rank: isize,
    pub is_new: bool,
    pub is_active: bool,
    /// `coin` or `token`; the field `type` of the API.
    pub coin_type: String,
    pub logo: String,
    pub tags: Vec<CoinTag>,
    pub team: Vec<Team>,
    pub description: Option<String>,
    pub message: String,
    pub open_source: bool,
    pub hardware_wallet: bool,
    pub started_at: Option<String>,
    pub development_status: Option<String>,
    pub proof_type: Option<String>,
    pub org_structure: Option<String>,
    pub hash_algorithm: Option<String>,
    pub contract: Option<String>,
    pub platform: Option<String>,
    pub contracts: Option<Vec<Contract>>,
    /// Social media links, in the shape in which the API sends them.
    pub links: serde_json::Value,
    /// The links with their statistics, in the shape of the API.
    pub links_extended: serde_json::Value,
    /// The whitepaper, in the shape of the API.
    pub whitepaper: serde_json::Value,
    pub first_data_at: String,
    pub last_data_at: String,
}

/// A tweet of the official profile of a coin.
#[derive(Debug)]
pub struct Tweet {
    pub date: String,
    pub user_name: String,
    pub user_image_link: String,
    pub status: String,
    pub is_retweet: bool,
    pub retweet_count: i32,
    pub like_count: i32,
    pub status_link: String,
    pub status_id: String,
    pub media_link: Option<String>,
    pub youtube_link: Option<String>,
}

/// An event around a coin.
#[derive(Debug)]
pub struct CoinEvent {
    pub id: String,
    pub date: String,
    pub date_to: Option<String>,
    pub name: String,
    pub description: String,
    pub is_conference: bool,
    pub link: Option<String>,
    pub proof_image_link: Option<String>,
}

/// Request for the list of coins: `/coins`.
pub struct GetCoinsRequest<'a> {
    client: &'a Client,
}

impl<'a> GetCoinsRequest<'a> {
    /// The client that the request is issued with.
    pub closed spec fn spec_client(&self) -> Client {
        *self.client
    }

    /// A request issued with `client`.
    pub fn new(client: &'a Client) -> (r: Self)
        ensures
            r.spec_client() == *client,
    {
        Self { client }
    }

    /// The request for `/coins`, which has no parameters.
    pub fn request(&self) -> (r: Request)
        ensures
            r@ == self.spec_client().get("/coins"@, Seq::empty()),
    {
        proof {
            reveal_strlit("");
        }
        let url = self.client.endpoint("/coins", "", "");
        assert(url@ =~= self.spec_client().base() + "/coins"@);
        let r = self.client.request(url, Vec::new());
        assert(r@.query =~= Seq::<Pair>::empty());
        r
    }
}

/// Request for the details of one coin: `/coins/{coin_id}`.
pub struct GetCoinRequest<'a> {
    client: &'a Client,
    coin_id: String,
}

impl<'a> GetCoinRequest<'a> {
    /// The client that the request is issued with.
    pub closed spec fn spec_client(&self) -> Client {
        *self.client
    }

    /// The coin asked about.
    pub closed spec fn spec_coin_id(&self) -> Seq<char> {
        self.coin_id@
    }

    /// A request about `coin_id`.
    pub fn new(client: &'a Client, coin_id: &str) -> (r: Self)
        ensures
            r.spec_client() == *client,
            r.spec_coin_id() == coin_id@,
    {
        Self { client, coin_id: String::from_str(coin_id) }
    }

    /// The request for `/coins/{coin_id}`, which has no parameters.
    pub fn request(&self) -> (r: Request)
        ensures
            r@ == self.spec_client().get("/coins/"@ + self.spec_coin_id(), Seq::empty()),
    {
        proof {
            reveal_strlit("");
        }
        let url = self.client.endpoint("/coins/", self.coin_id.as_str(), "");
        assert(url@ =~= self.spec_client().base() + ("/coins/"@ + self.spec_coin_id()));
        let r = self.client.request(url, Vec::new());
        assert(r@.query =~= Seq::<Pair>::empty());
        r
    }
}

/// Request for the latest tweets of the official profile of one coin: `/coins/{coin_id}/twitter`.
pub struct GetTwitterRequest<'a> {
    client: &'a Client,
    coin_id: String,
}

impl<'a> GetTwitterRequest<'a> {
    /// The client that the request is issued with.
    pub closed spec fn spec_client(&self) -> Client {
        *self.client
    }

    /// The coin asked about.
    pub closed spec fn spec_coin_id(&self) -> Seq<char> {
        self.coin_id@
    }

    /// A request about `coin_id`.
    pub fn new(client: &'a Client, coin_id: &str) -> (r: Self)
        ensures
            r.spec_client() == *client,
            r.spec_coin_id() == coin_id@,
    {
        Self { client, coin_id: String::from_str(coin_id) }
    }

    /// The request for `/coins/{coin_id}/twitter`, which has no parameters.
    pub fn request(&self) -> (r: Request)
        ensures
            r@ == self.spec_client().get(
                "/coins/"@ + self.spec_coin_id() + "/twitter"@,
                Seq::empty(),
            ),
    {
        let url = self.client.endpoint("/coins/", self.coin_id.as_str(), "/twitter");
        let r = self.client.request(url, Vec::new());
        assert(r@.query =~= Seq::<Pair>::empty());
        r
    }
}

/// Request for the events around one coin: `/coins/{coin_id}/events`.
pub struct GetCoinEventsRequest<'a> {
    client: &'a Client,
    coin_id: String,
}

impl<'a> GetCoinEventsRequest<'a> {
    /// The client that the request is issued with.
    pub closed spec fn spec_client(&self) -> Client {
        *self.client
    }

    /// The coin asked about.
    pub closed spec fn spec_coin_id(&self) -> Seq<char> {
        self.coin_id@
    }

    /// A request about `coin_id`.
    pub fn new(client: &'a Client, coin_id: &str) -> (r: Self)
        ensures
            r.spec_client() == *client,
            r.spec_coin_id() == coin_id@,
    {
        Self { client, coin_id: String::from_str(coin_id) }
    }

    /// The request for `/coins/{coin_id}/events`, which has no parameters.
    pub fn request(&self) -> (r: Request)
        ensures
            r@ == self.spec_client().get(
                "/coins/"@ + self.spec_coin_id() + "/events"@,
                Seq::empty(),
            ),
    {
        let url = self.client.endpoint("/coins/", self.coin_id.as_str(), "/events");
        let r = self.client.request(url, Vec::new());
        assert(r@.query =~= Seq::<Pair>::empty());
        r
    }
}

/// Request for the exchanges on which one coin is traded: `/coins/{coin_id}/exchanges`.
pub struct GetCoinExchangesRequest<'a> {
    client: &'a Client,
    coin_id: String,
}

impl<'a> GetCoinExchangesRequest<'a> {
    /// The client that the request is issued with.
    pub closed spec fn spec_client(&self) -> Client {
        *self.client
    }

    /// The coin asked about.
    pub closed spec fn spec_coin_id(&self) -> Seq<char> {
        self.coin_id@
    }

    /// A request about `coin_id`.
    pub fn new(client: &'a Client, coin_id: &str) -> (r: Self)
        ensures
            r.spec_client() == *client,
            r.spec_coin_id() == coin_id@,
    {
        Self { client, coin_id: String::from_str(coin_id) }
    }

    /// The request for `/coins/{coin_id}/exchanges`, which has no parameters.
    pub fn request(&self) -> (r: Request)
        ensures
            r@ == self.spec_client().get(
                "/coins/"@ + self.spec_coin_id() + "/exchanges"@,
                Seq::empty(),
            ),
    {
        let url = self.client.endpoint("/coins/", self.coin_id.as_str(), "/exchanges");
        let r = self.client.request(url, Vec::new());
        assert(r@.query =~= Seq::<Pair>::empty());
        r
    }
}

/// Request for the markets of one coin: `/coins/{coin_id}/markets`.
pub struct GetCoinMarketsRequest<'a> {
    client: &'a Client,
    coin_id: String,
    quotes: Vec<String>,
}

impl<'a> GetCoinMarketsRequest<'a> {
    /// The client that the request is issued with.
    pub closed spec fn spec_client(&self) -> Client {
        *self.client
    }

    /// The coin asked about.
    pub closed spec fn spec_coin_id(&self) -> Seq<char> {
        self.coin_id@
    }

    /// The quote currencies asked for.
    pub closed spec fn spec_quotes(&self) -> Seq<Seq<char>> {
        texts(self.quotes@)
    }

    /// A request about `coin_id` that names no quote currency.
    pub fn new(client: &'a Client, coin_id: &str) -> (r: Self)
        ensures
            r.spec_client() == *client,
            r.spec_coin_id() == coin_id@,
            r.spec_quotes() == Seq::<Seq<char>>::empty(),
    {
        let r = Self { client, coin_id: String::from_str(coin_id), quotes: Vec::new() };
        assert(r.spec_quotes() =~= Seq::<Seq<char>>::empty());
        r
    }

    /// Sets the quote currencies to return, in place of those set before.
    pub fn quotes(&mut self, quotes: Vec<&str>) -> (r: &mut Self)
        ensures
            r.spec_client() == old(self).spec_client(),
            r.spec_coin_id() == old(self).spec_coin_id(),
            r.spec_quotes() == slices(quotes@),
            *final(self) == *final(r),
    {
        self.quotes = owned(&quotes);
        self
    }

    /// The request for `/coins/{coin_id}/markets`: without a `quotes`
    /// parameter while no quote currency is set, else with one that lists
    /// them all.
    pub fn request(&self) -> (r: Request)
        ensures
            r@ == self.spec_client().get(
                "/coins/"@ + self.spec_coin_id() + "/markets"@,
                list_param("quotes"@, self.spec_quotes()),
            ),
    {
        let url = self.client.endpoint("/coins/", self.coin_id.as_str(), "/markets");
        let mut query: Vec<(String, String)> = Vec::new();
        push_list(&mut query, "quotes", &self.quotes);
        self.client.request(url, query)
    }
}

/// Request for the open, high, low and close values of the last full day:
/// `/coins/{coin_id}/ohlcv/latest`.
pub struct GetCoinOHLCLastFullDayRequest<'a> {
    client: &'a Client,
    coin_id: String,
    quote: Option<String>,
}

impl<'a> GetCoinOHLCLastFullDayRequest<'a> {
    /// The client that the request is issued with.
    pub closed spec fn spec_client(&self) -> Client {
        *self.client
    }

    /// The coin asked about.
    pub closed spec fn spec_coin_id(&self) -> Seq<char> {
        self.coin_id@
    }

    /// The quote currency asked for, if that was set.
    pub closed spec fn spec_quote(&self) -> Option<Seq<char>> {
        optional_text(self.quote)
    }

    /// A request about `coin_id` that leaves the quote currency to the
    /// server.
    pub fn new(client: &'a Client, coin_id: &str) -> (r: Self)
        ensures
            r.spec_client() == *client,
            r.spec_coin_id() == coin_id@,
            r.spec_quote() is None,
    {
        Self { client, coin_id: String::from_str(coin_id), quote: None }
    }

    /// Sets the quote currency of the returned values.
    pub fn quote(&mut self, quote: &str) -> (r: &mut Self)
        ensures
            r.spec_client() == old(self).spec_client(),
            r.spec_coin_id() == old(self).spec_coin_id(),
            r.spec_quote() == Some(quote@),
            *final(self) == *final(r),
    {
        self.quote = Some(String::from_str(quote));
        self
    }

    /// The request for `/coins/{coin_id}/ohlcv/latest`: with a `quote`
    /// parameter if and only if a quote currency was set.
    pub fn request(&self) -> (r: Request)
        ensures
            r@ == self.spec_client().get(
                "/coins/"@ + self.spec_coin_id() + "/ohlcv/latest"@,
                optional_param("quote"@, self.spec_quote()),
            ),
    {
        let url = self.client.endpoint("/coins/", self.coin_id.as_str(), "/ohlcv/latest");
        let mut query: Vec<(String, String)> = Vec::new();
        push_optional(&mut query, "quote", &self.quote);
        self.client.request(url, query)
    }
}

/// Request for the open, high, low and close values of a range of days:
/// `/coins/{coin_id}/ohlcv/historical`.
pub struct GetCoinOHLCHistoricalRequest<'a> {
    client: &'a Client,
    coin_id: String,
    start: String,
    end: Option<String>,
    limit: Option<String>,
    quote: Option<String>,
}

impl<'a> GetCoinOHLCHistoricalRequest<'a> {
    /// The client that the request is issued with.
    pub closed spec fn spec_client(&self) -> Client {
        *self.client
    }

    /// The coin asked about.
    pub closed spec fn spec_coin_id(&self) -> Seq<char> {
        self.coin_id@
    }

    /// Where the range asked for starts.
    pub closed spec fn spec_start(&self) -> Seq<char> {
        self.start@
    }

    /// Where the range asked for ends, if that was set.
    pub closed spec fn spec_end(&self) -> Option<Seq<char>> {
        optional_text(self.end)
    }

    /// The greatest number of rows asked for, in decimal, if that was set.
    pub closed spec fn spec_limit(&self) -> Option<Seq<char>> {
        optional_text(self.limit)
    }

    /// The quote currency asked for, if that was set.
    pub closed spec fn spec_quote(&self) -> Option<Seq<char>> {
        optional_text(self.quote)
    }

    /// The parameters of the request: `start` always, then each of `end`,
    /// `limit` and `quote` that was set.
    pub open spec fn spec_query(&self) -> Seq<Pair> {
        seq![("start"@, self.spec_start())] + optional_param("end"@, self.spec_end())
            + optional_param("limit"@, self.spec_limit()) + optional_param(
            "quote"@,
            self.spec_quote(),
        )
    }

    /// While no filter but `start` is set, `start` is the only parameter.
    pub proof fn unset_filters_add_nothing(self)
        requires
            self.spec_end() is None,
            self.spec_limit() is None,
            self.spec_quote() is None,
        ensures
            self.spec_query() == seq![("start"@, self.spec_start())],
    {
        assert(self.spec_query() =~= seq![("start"@, self.spec_start())]);
    }

    /// A request whose range starts on `start` and which leaves every other
    /// filter to the server.
    pub fn starting(client: &'a Client, coin_id: &str, start: Date) -> (r: Self)
        ensures
            r.spec_client() == *client,
            r.spec_coin_id() == coin_id@,
            r.spec_start() == start.text(),
            r.spec_end() is None,
            r.spec_limit() is None,
            r.spec_quote() is None,
    {
        Self {
            client,
            coin_id: String::from_str(coin_id),
            start: start.to_text(),
            end: None,
            limit: None,
            quote: None,
        }
    }

    /// A request whose range starts on the day on which it is made, by the
    /// calendar of UTC, and which leaves every other filter to the server.
    pub fn new(client: &'a Client, coin_id: &str) -> (r: Self)
        ensures
            r.spec_client() == *client,
            r.spec_coin_id() == coin_id@,
            exists|day: Date| day.in_calendar() && r.spec_start() == #[trigger] day.text(),
            r.spec_end() is None,
            r.spec_limit() is None,
            r.spec_quote() is None,
    {
        Self::starting(client, coin_id, today())
    }

    /// Sets where the range starts: a timestamp, a calendar date or the
    /// seconds of a Unix time, passed on as it is given.
    pub fn start(&mut self, start: &str) -> (r: &mut Self)
        ensures
            r.spec_client() == old(self).spec_client(),
            r.spec_coin_id() == old(self).spec_coin_id(),
            r.spec_start() == start@,
            r.spec_end() == old(self).spec_end(),
            r.spec_limit() == old(self).spec_limit(),
            r.spec_quote() == old(self).spec_quote(),
            *final(self) == *final(r),
    {
        self.start = String::from_str(start);
        self
    }

    /// Sets where the range ends, in one of the forms of `start`.
    pub fn end(&mut self, end: &str) -> (r: &mut Self)
        ensures
            r.spec_client() == old(self).spec_client(),
            r.spec_coin_id() == old(self).spec_coin_id(),
            r.spec_start() == old(self).spec_start(),
            r.spec_end() == Some(end@),
            r.spec_limit() == old(self).spec_limit(),
            r.spec_quote() == old(self).spec_quote(),
            *final(self) == *final(r),
    {
        self.end = Some(String::from_str(end));
        self
    }

    /// Sets the greatest number of rows to return.
    pub fn limit(&mut self, limit: i32) -> (r: &mut Self)
        ensures
            r.spec_client() == old(self).spec_client(),
            r.spec_coin_id() == old(self).spec_coin_id(),
            r.spec_start() == old(self).spec_start(),
            r.spec_end() == old(self).spec_end(),
            r.spec_limit() == Some(int_text(limit as int)),
            r.spec_quote() == old(self).spec_quote(),
            *final(self) == *final(r),
    {
        self.limit = Some(decimal(limit));
        self
    }

    /// Sets the quote currency of the returned values.
    pub fn quote(&mut self, quote: &str) -> (r: &mut Self)
        ensures
            r.spec_client() == old(self).spec_client(),
            r.spec_coin_id() == old(self).spec_coin_id(),
            r.spec_start() == old(self).spec_start(),
            r.spec_end() == old(self).spec_end(),
            r.spec_limit() == old(self).spec_limit(),
            r.spec_quote() == Some(quote@),
            *final(self) == *final(r),
    {
        self.quote = Some(String::from_str(quote));
        self
    }

    /// The request for `/coins/{coin_id}/ohlcv/historical`, with `start` and
    /// with each other filter that was set, and none that was not.
    pub fn request(&self) -> (r: Request)
        ensures
            r@ == self.spec_client().get(
                "/coins/"@ + self.spec_coin_id() + "/ohlcv/historical"@,
                self.spec_query(),
            ),
    {
        let url = self.client.endpoint("/coins/", self.coin_id.as_str(), "/ohlcv/historical");
        let mut query: Vec<(String, String)> = Vec::new();
        push_param(&mut query, "start", self.start.as_str());
        push_optional(&mut query, "end", &self.end);
        push_optional(&mut query, "limit", &self.limit);
        push_optional(&mut query, "quote", &self.quote);
        assert(pairs(query@) =~= self.spec_query());
        self.client.request(url, query)
    }
}

/// Request for the open, high, low and close values of the current day:
/// `/coins/{coin_id}/ohlcv/today`.
pub struct GetCoinOHLCTodayRequest<'a> {
    client: &'a Client,
    coin_id: String,
    quote: Option<String>,
}

impl<'a> GetCoinOHLCTodayRequest<'a> {
    /// The client that the request is issued with.
    pub closed spec fn spec_client(&self) -> Client {
        *self.client
    }

    /// The coin asked about.
    pub closed spec fn spec_coin_id(&self) -> Seq<char> {
        self.coin_id@
    }

    /// The quote currency asked for, if that was set.
    pub closed spec fn spec_quote(&self) -> Option<Seq<char>> {
        optional_text(self.quote)
    }

    /// A request about `coin_id` that leaves the quote currency to the
    /// server.
    pub fn new(client: &'a Client, coin_id: &str) -> (r: Self)
        ensures
            r.spec_client() == *client,
            r.spec_coin_id() == coin_id@,
            r.spec_quote() is None,
    {
        Self { client, coin_id: String::from_str(coin_id), quote: None }
    }

    /// Sets the quote currency of the returned values.
    pub fn quote(&mut self, quote: &str) -> (r: &mut Self)
        ensures
            r.spec_client() == old(self).spec_client(),
            r.spec_coin_id() == old(self).spec_coin_id(),
            r.spec_quote() == Some(quote@),
            *final(self) == *final(r),
    {
        self.quote = Some(String::from_str(quote));
        self
    }

    /// The request for `/coins/{coin_id}/ohlcv/today`: with a `quote`
    /// parameter if and only if a quote currency was set.
    pub fn request(&self) -> (r: Request)
        ensures
            r@ == self.spec_client().get(
                "/coins/"@ + self.spec_coin_id() + "/ohlcv/today"@,
                optional_param("quote"@, self.spec_quote()),
            ),
    {
        let url = self.client.endpoint("/coins/", self.coin_id.as_str(), "/ohlcv/today");
        let mut query: Vec<(String, String)> = Vec::new();
        push_optional(&mut query, "quote", &self.quote);
        self.client.request(url, query)
    }
}

} // verus!
