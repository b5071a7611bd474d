use crate::client::Client;
use crate::request::{list_param, push_list, Request};
use crate::text::{owned, slices, texts};
use vstd::prelude::*;
use vstd::string::StringExecFns;

verus! {

/// A fiat currency.
#[derive(Debug)]
pub struct Fiat {
    pub name: String,
    pub symbol: String,
}

/// Information about an exchange.
#[derive(Debug)]
pub struct Exchange {
    pub id: String,
    pub name: String,
    pub active: bool,
    pub website_status: bool,
    pub api_status: bool,
    pub description: Option<String>,
    pub message: Option<String>,
    /// Links of the exchange, in the shape in which the API sends them.
    pub links: serde_json::Value,
    pub markets_data_fetched: bool,
    pub adjusted_rank: Option<i32>,
    pub reported_rank: Option<i32>,
    pub currencies: i32,
    pub markets: i32,
    pub fiats: Vec<Fiat>,
    /// Volumes by quote currency, in the shape in which the API sends them.
    pub quotes: serde_json::Value,
    pub last_updated: String,
}

/// Request for the list of exchanges: `/exchanges`.
pub struct GetExchangesRequest<'a> {
    client: &'a Client,
    quotes: Vec<String>,
}

impl<'a> GetExchangesRequest<'a> {
    /// The client that the request is issued with.
    pub closed spec fn spec_client(&self) -> Client {
        *self.client
    }

    /// The quote currencies asked for.
    pub closed spec fn spec_quotes(&self) -> Seq<Seq<char>> {
        texts(self.quotes@)
    }

    /// A request that names no quote currency.
    pub fn new(client: &'a Client) -> (r: Self)
        ensures
            r.spec_client() == *client,
            r.spec_quotes() == Seq::<Seq<char>>::empty(),
    {
        let r = Self { client, quotes: Vec::new() };
        assert(r.spec_quotes() =~= Seq::<Seq<char>>::empty());
        r
    }

    /// Sets the quote currencies to return, in place of those set before.
    pub fn quotes(&mut self, quotes: Vec<&str>) -> (r: &mut Self)
        ensures
            r.spec_client() == old(self).spec_client(),
            r.spec_quotes() == slices(quotes@),
            *final(self) == *final(r),
    {
        self.quotes = owned(&quotes);
        self
    }

    /// The request for `/exchanges`: without a `quotes` parameter
    /// while the list is empty, else with one that holds every item.
    pub fn request(&self) -> (r: Request)
        ensures
            r@ == self.spec_client().get(
                "/exchanges"@,
                list_param("quotes"@, self.spec_quotes()),
            ),
    {
        proof {
            reveal_strlit("");
        }
        let url = self.client.endpoint("/exchanges", "", "");
        let mut query: Vec<(String, String)> = Vec::new();
        push_list(&mut query, "quotes", &self.quotes);
        assert(url@ =~= self.spec_client().base() + "/exchanges"@);
        self.client.request(url, query)
    }
}

/// Request for one exchange: `/exchanges/{exchange_id}`.
pub struct GetExchangeRequest<'a> {
    client: &'a Client,
    exchange_id: String,
    quotes: Vec<String>,
}

impl<'a> GetExchangeRequest<'a> {
    /// The client that the request is issued with.
    pub closed spec fn spec_client(&self) -> Client {
        *self.client
    }

    /// The exchange asked about.
    pub closed spec fn spec_exchange_id(&self) -> Seq<char> {
        self.exchange_id@
    }

    /// The quote currencies asked for.
    pub closed spec fn spec_quotes(&self) -> Seq<Seq<char>> {
        texts(self.quotes@)
    }

    /// A request about `exchange_id` that names no quote currency.
    pub fn new(client: &'a Client, exchange_id: &str) -> (r: Self)
        ensures
            r.spec_client() == *client,
            r.spec_exchange_id() == exchange_id@,
            r.spec_quotes() == Seq::<Seq<char>>::empty(),
    {
        let r = Self { client, exchange_id: String::from_str(exchange_id), quotes: Vec::new() };
        assert(r.spec_quotes() =~= Seq::<Seq<char>>::empty());
        r
    }

    /// Sets the quote currencies to return, in place of those set before.
    pub fn quotes(&mut self, quotes: Vec<&str>) -> (r: &mut Self)
        ensures
            r.spec_client() == old(self).spec_client(),
            r.spec_exchange_id() == old(self).spec_exchange_id(),
            r.spec_quotes() == slices(quotes@),
            *final(self) == *final(r),
    {
        self.quotes = owned(&quotes);
        self
    }

    /// The request for `/exchanges/{exchange_id}`: without a `quotes` parameter
    /// while the list is empty, else with one that holds every item.
    pub fn request(&self) -> (r: Request)
        ensures
            r@ == self.spec_client().get(
                "/exchanges/"@ + self.spec_exchange_id(),
                list_param("quotes"@, self.spec_quotes()),
            ),
    {
        proof {
            reveal_strlit("");
        }
        let url = self.client.endpoint("/exchanges/", self.exchange_id.as_str(), "");
        let mut query: Vec<(String, String)> = Vec::new();
        push_list(&mut query, "quotes", &self.quotes);
        assert(url@ =~= self.spec_client().base() + ("/exchanges/"@ + self.spec_exchange_id()));
        self.client.request(url, query)
    }
}

/// Request for the markets of one exchange: `/exchanges/{exchange_id}/markets`.
pub struct GetExchangeMarketsRequest<'a> {
    client: &'a Client,
    exchange_id: String,
    quotes: Vec<String>,
}

impl<'a> GetExchangeMarketsRequest<'a> {
    /// The client that the request is issued with.
    pub closed spec fn spec_client(&self) -> Client {
        *self.client
    }

    /// The exchange asked about.
    pub closed spec fn spec_exchange_id(&self) -> Seq<char> {
        self.exchange_id@
    }

    /// The quote currencies asked for.
    pub closed spec fn spec_quotes(&self) -> Seq<Seq<char>> {
        texts(self.quotes@)
    }

    /// A request about `exchange_id` that names no quote currency.
    pub fn new(client: &'a Client, exchange_id: &str) -> (r: Self)
        ensures
            r.spec_client() == *client,
            r.spec_exchange_id() == exchange_id@,
            r.spec_quotes() == Seq::<Seq<char>>::empty(),
    {
        let r = Self { client, exchange_id: String::from_str(exchange_id), quotes: Vec::new() };
        assert(r.spec_quotes() =~= Seq::<Seq<char>>::empty());
        r
    }

    /// Sets the quote currencies to return, in place of those set before.
    pub fn quotes(&mut self, quotes: Vec<&str>) -> (r: &mut Self)
        ensures
            r.spec_client() == old(self).spec_client(),
            r.spec_exchange_id() == old(self).spec_exchange_id(),
            r.spec_quotes() == slices(quotes@),
            *final(self) == *final(r),
    {
        self.quotes = owned(&quotes);
        self
    }

    /// The request for `/exchanges/{exchange_id}/markets`: without a `quotes` parameter
    /// while the list is empty, else with one that holds every item.
    pub fn request(&self) -> (r: Request)
        ensures
            r@ == self.spec_client().get(
                "/exchanges/"@ + self.spec_exchange_id() + "/markets"@,
                list_param("quotes"@, self.spec_quotes()),
            ),
    {
        let url = self.client.endpoint("/exchanges/", self.exchange_id.as_str(), "/markets");
        let mut query: Vec<(String, String)> = Vec::new();
        push_list(&mut query, "quotes", &self.quotes);
        self.client.request(url, query)
    }
}

} // verus!
