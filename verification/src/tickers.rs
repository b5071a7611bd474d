use crate::client::Client;
use crate::date::{today, Date};
use crate::request::{
    list_param, optional_param, optional_text, push_list, push_optional, push_param, Pair,
    Request,
};
use crate::text::{decimal, int_text, owned, slices, texts};
use vstd::prelude::*;
use vstd::string::StringExecFns;

verus! {

/// Request for the price data of all active coins: `/tickers`.
pub struct GetTickersRequest<'a> {
    client: &'a Client,
    quotes: Vec<String>,
}

impl<'a> GetTickersRequest<'a> {
    /// The client that the request is issued with.
    pub closed spec fn spec_client(&self) -> Client {
        *self.client
    }

    /// The quote currencies asked for.
    pub closed spec fn spec_quotes(&self) -> Seq<Seq<char>> {
        texts(self.quotes@)
    }

    /// A request that names no quote currency.
    pub fn new(client: &'a Client) -> (r: Self)
        ensures
            r.spec_client() == *client,
            r.spec_quotes() == Seq::<Seq<char>>::empty(),
    {
        let r = Self { client, quotes: Vec::new() };
        assert(r.spec_quotes() =~= Seq::<Seq<char>>::empty());
        r
    }

    /// Sets the quote currencies to return, in place of those set before.
    pub fn quotes(&mut self, quotes: Vec<&str>) -> (r: &mut Self)
        ensures
            r.spec_client() == old(self).spec_client(),
            r.spec_quotes() == slices(quotes@),
            *final(self) == *final(r),
    {
        self.quotes = owned(&quotes);
        self
    }

    /// The request for `/tickers`: without a `quotes` parameter while no
    /// quote currency is set, else with one that lists them all.
    pub fn request(&self) -> (r: Request)
        ensures
            r@ == self.spec_client().get("/tickers"@, list_param("quotes"@, self.spec_quotes())),
    {
        proof {
            reveal_strlit("");
        }
        let url = self.client.endpoint("/tickers", "", "");
        let mut query: Vec<(String, String)> = Vec::new();
        push_list(&mut query, "quotes", &self.quotes);
        assert(url@ =~= self.spec_client().base() + "/tickers"@);
        self.client.request(url, query)
    }
}

/// Request for the price data of one coin: `/tickers/{coin_id}`.
pub struct GetTickerRequest<'a> {
    client: &'a Client,
    coin_id: String,
    quotes: Vec<String>,
}

impl<'a> GetTickerRequest<'a> {
    /// The client that the request is issued with.
    pub closed spec fn spec_client(&self) -> Client {
        *self.client
    }

    /// The coin asked about.
    pub closed spec fn spec_coin_id(&self) -> Seq<char> {
        self.coin_id@
    }

    /// The quote currencies asked for.
    pub closed spec fn spec_quotes(&self) -> Seq<Seq<char>> {
        texts(self.quotes@)
    }

    /// A request about `coin_id` that names no quote currency.
    pub fn new(client: &'a Client, coin_id: &str) -> (r: Self)
        ensures
            r.spec_client() == *client,
            r.spec_coin_id() == coin_id@,
            r.spec_quotes() == Seq::<Seq<char>>::empty(),
    {
        let r = Self { client, coin_id: String::from_str(coin_id), quotes: Vec::new() };
        assert(r.spec_quotes() =~= Seq::<Seq<char>>::empty());
        r
    }

    /// Sets the quote currencies to return, in place of those set before.
    pub fn quotes(&mut self, quotes: Vec<&str>) -> (r: &mut Self)
        ensures
            r.spec_client() == old(self).spec_client(),
            r.spec_coin_id() == old(self).spec_coin_id(),
            r.spec_quotes() == slices(quotes@),
            *final(self) == *final(r),
    {
        self.quotes = owned(&quotes);
        self
    }

    /// The request for `/tickers/{coin_id}`: without a `quotes` parameter
    /// while no quote currency is set, else with one that lists them all.
    pub fn request(&self) -> (r: Request)
        ensures
            r@ == self.spec_client().get(
                "/tickers/"@ + self.spec_coin_id(),
                list_param("quotes"@, self.spec_quotes()),
            ),
    {
        proof {
            reveal_strlit("");
        }
        let url = self.client.endpoint("/tickers/", self.coin_id.as_str(), "");
        let mut query: Vec<(String, String)> = Vec::new();
        push_list(&mut query, "quotes", &self.quotes);
        assert(url@ =~= self.spec_client().base() + ("/tickers/"@ + self.spec_coin_id()));
        self.client.request(url, query)
    }
}

/// Request for the historical ticks of one coin:
/// `/tickers/{coin_id}/historical`.
pub struct GetHistoricalTicksRequest<'a> {
    client: &'a Client,
    coin_id: String,
    start: String,
    end: Option<String>,
    limit: Option<String>,
    quote: Option<String>,
    interval: Option<String>,
}

impl<'a> GetHistoricalTicksRequest<'a> {
    /// The client that the request is issued with.
    pub closed spec fn spec_client(&self) -> Client {
        *self.client
    }

    /// The coin asked about.
    pub closed spec fn spec_coin_id(&self) -> Seq<char> {
        self.coin_id@
    }

    /// Where the history asked for starts.
    pub closed spec fn spec_start(&self) -> Seq<char> {
        self.start@
    }

    /// Where the history asked for ends, if that was set.
    pub closed spec fn spec_end(&self) -> Option<Seq<char>> {
        optional_text(self.end)
    }

    /// The greatest number of ticks asked for, in decimal, if that was set.
    pub closed spec fn spec_limit(&self) -> Option<Seq<char>> {
        optional_text(self.limit)
    }

    /// The quote currency asked for, if that was set.
    pub closed spec fn spec_quote(&self) -> Option<Seq<char>> {
        optional_text(self.quote)
    }

    /// The distance between two ticks, if that was set.
    pub closed spec fn spec_interval(&self) -> Option<Seq<char>> {
        optional_text(self.interval)
    }

    /// The parameters of the request: `start` always, then each of `end`,
    /// `limit`, `quote` and `interval` that was set.
    pub open spec fn spec_query(&self) -> Seq<Pair> {
        seq![("start"@, self.spec_start())] + optional_param("end"@, self.spec_end())
            + optional_param("limit"@, self.spec_limit()) + optional_param(
            "quote"@,
            self.spec_quote(),
        ) + optional_param("interval"@, self.spec_interval())
    }

    /// While no filter but `start` is set, `start` is the only parameter.
    pub proof fn unset_filters_add_nothing(self)
        requires
            self.spec_end() is None,
            self.spec_limit() is None,
            self.spec_quote() is None,
            self.spec_interval() is None,
        ensures
            self.spec_query() == seq![("start"@, self.spec_start())],
    {
        assert(self.spec_query() =~= seq![("start"@, self.spec_start())]);
    }

    /// A request whose history starts on `start` and which leaves every
    /// other filter to the server.
    pub fn starting(client: &'a Client, coin_id: &str, start: Date) -> (r: Self)
        ensures
            r.spec_client() == *client,
            r.spec_coin_id() == coin_id@,
            r.spec_start() == start.text(),
            r.spec_end() is None,
            r.spec_limit() is None,
            r.spec_quote() is None,
            r.spec_interval() is None,
    {
        Self {
            client,
            coin_id: String::from_str(coin_id),
            start: start.to_text(),
            end: None,
            limit: None,
            quote: None,
            interval: None,
        }
    }

    /// A request whose history starts on the day on which it is made, by the
    /// calendar of UTC, and which leaves every other filter to the server.
    pub fn new(client: &'a Client, coin_id: &str) -> (r: Self)
        ensures
            r.spec_client() == *client,
            r.spec_coin_id() == coin_id@,
            exists|day: Date| day.in_calendar() && r.spec_start() == #[trigger] day.text(),
            r.spec_end() is None,
            r.spec_limit() is None,
            r.spec_quote() is None,
            r.spec_interval() is None,
    {
        Self::starting(client, coin_id, today())
    }

    /// Sets where the history starts: a timestamp, a calendar date or the
    /// seconds of a Unix time, passed on as it is given.
    pub fn start(&mut self, start: &str) -> (r: &mut Self)
        ensures
            r.spec_client() == old(self).spec_client(),
            r.spec_coin_id() == old(self).spec_coin_id(),
            r.spec_start() == start@,
            r.spec_end() == old(self).spec_end(),
            r.spec_limit() == old(self).spec_limit(),
            r.spec_quote() == old(self).spec_quote(),
            r.spec_interval() == old(self).spec_interval(),
            *final(self) == *final(r),
    {
        self.start = String::from_str(start);
        self
    }

    /// Sets where the history ends, in one of the forms of `start`.
    pub fn end(&mut self, end: &str) -> (r: &mut Self)
        ensures
            r.spec_client() == old(self).spec_client(),
            r.spec_coin_id() == old(self).spec_coin_id(),
            r.spec_start() == old(self).spec_start(),
            r.spec_end() == Some(end@),
            r.spec_limit() == old(self).spec_limit(),
            r.spec_quote() == old(self).spec_quote(),
            r.spec_interval() == old(self).spec_interval(),
            *final(self) == *final(r),
    {
        self.end = Some(String::from_str(end));
        self
    }

    /// Sets the greatest number of ticks to return.
    pub fn limit(&mut self, limit: i32) -> (r: &mut Self)
        ensures
            r.spec_client() == old(self).spec_client(),
            r.spec_coin_id() == old(self).spec_coin_id(),
            r.spec_start() == old(self).spec_start(),
            r.spec_end() == old(self).spec_end(),
            r.spec_limit() == Some(int_text(limit as int)),
            r.spec_quote() == old(self).spec_quote(),
            r.spec_interval() == old(self).spec_interval(),
            *final(self) == *final(r),
    {
        self.limit = Some(decimal(limit));
        self
    }

    /// Sets the quote currency of the returned prices.
    pub fn quote(&mut self, quote: &str) -> (r: &mut Self)
        ensures
            r.spec_client() == old(self).spec_client(),
            r.spec_coin_id() == old(self).spec_coin_id(),
            r.spec_start() == old(self).spec_start(),
            r.spec_end() == old(self).spec_end(),
            r.spec_limit() == old(self).spec_limit(),
            r.spec_quote() == Some(quote@),
            r.spec_interval() == old(self).spec_interval(),
            *final(self) == *final(r),
    {
        self.quote = Some(String::from_str(quote));
        self
    }

    /// Sets the distance between two returned ticks.
    pub fn interval(&mut self, interval: &str) -> (r: &mut Self)
        ensures
            r.spec_client() == old(self).spec_client(),
            r.spec_coin_id() == old(self).spec_coin_id(),
            r.spec_start() == old(self).spec_start(),
            r.spec_end() == old(self).spec_end(),
            r.spec_limit() == old(self).spec_limit(),
            r.spec_quote() == old(self).spec_quote(),
            r.spec_interval() == Some(interval@),
            *final(self) == *final(r),
    {
        self.interval = Some(String::from_str(interval));
        self
    }

    /// The request for `/tickers/{coin_id}/historical`, with `start` and
    /// with each other filter that was set, and none that was not.
    pub fn request(&self) -> (r: Request)
        ensures
            r@ == self.spec_client().get(
                "/tickers/"@ + self.spec_coin_id() + "/historical"@,
                self.spec_query(),
            ),
    {
        let url = self.client.endpoint("/tickers/", self.coin_id.as_str(), "/historical");
        let mut query: Vec<(String, String)> = Vec::new();
        push_param(&mut query, "start", self.start.as_str());
        push_optional(&mut query, "end", &self.end);
        push_optional(&mut query, "limit", &self.limit);
        push_optional(&mut query, "quote", &self.quote);
        push_optional(&mut query, "interval", &self.interval);
        assert(crate::request::pairs(query@) =~= self.spec_query());
        self.client.request(url, query)
    }
}

} // verus!
