use crate::client::Client;
use crate::request::{
    list_param, optional_param, optional_text, pairs, push_list, push_optional, push_param, Pair,
    Request,
};
use crate::text::{decimal, int_text, owned, slices, texts};
use vstd::prelude::*;
use vstd::string::StringExecFns;

verus! {

/// Request for a search among coins, exchanges, ICOs, people and tags:
/// `/search`.
pub struct GetSearchRequest<'a> {
    client: &'a Client,
    q: String,
    c: Vec<String>,
    modifier: Option<String>,
    limit: Option<String>,
}

impl<'a> GetSearchRequest<'a> {
    /// The client that the request is issued with.
    pub closed spec fn spec_client(&self) -> Client {
        *self.client
    }

    /// The phrase searched for.
    pub closed spec fn spec_q(&self) -> Seq<char> {
        self.q@
    }

    /// The categories searched in; all of them while the list is empty.
    pub closed spec fn spec_c(&self) -> Seq<Seq<char>> {
        texts(self.c@)
    }

    /// How the phrase is matched, if that was set.
    pub closed spec fn spec_modifier(&self) -> Option<Seq<char>> {
        optional_text(self.modifier)
    }

    /// The greatest number of results for each category, in decimal, if that
    /// was set.
    pub closed spec fn spec_limit(&self) -> Option<Seq<char>> {
        optional_text(self.limit)
    }

    /// The parameters of the request: `q` always, then `c` where categories
    /// are set, then each of `modifier` and `limit` that was set.
    pub open spec fn spec_query(&self) -> Seq<Pair> {
        seq![("q"@, self.spec_q())] + list_param("c"@, self.spec_c()) + optional_param(
            "modifier"@,
            self.spec_modifier(),
        ) + optional_param("limit"@, self.spec_limit())
    }

    /// While no filter is set, or the categories are set to none, the
    /// phrase is the only parameter.
    pub proof fn unset_filters_add_nothing(self)
        requires
            self.spec_c().len() == 0,
            self.spec_modifier() is None,
            self.spec_limit() is None,
        ensures
            self.spec_query() == seq![("q"@, self.spec_q())],
    {
        assert(self.spec_query() =~= seq![("q"@, self.spec_q())]);
    }

    /// A search for `q` in every category, with no other filter set.
    pub fn new(client: &'a Client, q: &str) -> (r: Self)
        ensures
            r.spec_client() == *client,
            r.spec_q() == q@,
            r.spec_c() == Seq::<Seq<char>>::empty(),
            r.spec_modifier() is None,
            r.spec_limit() is None,
    {
        let r = Self {
            client,
            q: String::from_str(q),
            c: Vec::new(),
            modifier: None,
            limit: None,
        };
        assert(r.spec_c() =~= Seq::<Seq<char>>::empty());
        r
    }

    /// Sets the categories to search in, among `currencies`, `exchanges`,
    /// `icos`, `people` and `tags`, in place of those set before.
    pub fn c(&mut self, categories: Vec<&str>) -> (r: &mut Self)
        ensures
            r.spec_client() == old(self).spec_client(),
            r.spec_q() == old(self).spec_q(),
            r.spec_c() == slices(categories@),
            r.spec_modifier() == old(self).spec_modifier(),
            r.spec_limit() == old(self).spec_limit(),
            *final(self) == *final(r),
    {
        self.c = owned(&categories);
        self
    }

    /// Sets how the phrase is matched, such as `symbol_search`.
    pub fn modifier(&mut self, modifier: &str) -> (r: &mut Self)
        ensures
            r.spec_client() == old(self).spec_client(),
            r.spec_q() == old(self).spec_q(),
            r.spec_c() == old(self).spec_c(),
            r.spec_modifier() == Some(modifier@),
            r.spec_limit() == old(self).spec_limit(),
            *final(self) == *final(r),
    {
        self.modifier = Some(String::from_str(modifier));
        self
    }

    /// Sets the greatest number of results for each category.
    pub fn limit(&mut self, limit: i32) -> (r: &mut Self)
        ensures
            r.spec_client() == old(self).spec_client(),
            r.spec_q() == old(self).spec_q(),
            r.spec_c() == old(self).spec_c(),
            r.spec_modifier() == old(self).spec_modifier(),
            r.spec_limit() == Some(int_text(limit as int)),
            *final(self) == *final(r),
    {
        self.limit = Some(decimal(limit));
        self
    }

    /// The request for `/search`, with `q` and with each filter that was
    /// set, and none that was not.
    pub fn request(&self) -> (r: Request)
        ensures
            r@ == self.spec_client().get("/search"@, self.spec_query()),
    {
        proof {
            reveal_strlit("");
        }
        let url = self.client.endpoint("/search", "", "");
        let mut query: Vec<(String, String)> = Vec::new();
        push_param(&mut query, "q", self.q.as_str());
        push_list(&mut query, "c", &self.c);
        push_optional(&mut query, "modifier", &self.modifier);
        push_optional(&mut query, "limit", &self.limit);
        assert(pairs(query@) =~= self.spec_query());
        assert(url@ =~= self.spec_client().base() + "/search"@);
        self.client.request(url, query)
    }
}

/// Request for the price of an amount of one currency in another:
/// `/price-converter`.
pub struct GetPriceConversionRequest<'a> {
    client: &'a Client,
    base_currency_id: String,
    quote_currency_id: String,
    amount: String,
}

impl<'a> GetPriceConversionRequest<'a> {
    /// The client that the request is issued with.
    pub closed spec fn spec_client(&self) -> Client {
        *self.client
    }

    /// The currency converted from.
    pub closed spec fn spec_base_currency_id(&self) -> Seq<char> {
        self.base_currency_id@
    }

    /// The currency converted to.
    pub closed spec fn spec_quote_currency_id(&self) -> Seq<char> {
        self.quote_currency_id@
    }

    /// The amount converted, in decimal.
    pub closed spec fn spec_amount(&self) -> Seq<char> {
        self.amount@
    }

    /// The parameters of the request: the two currencies and the amount.
    pub open spec fn spec_query(&self) -> Seq<Pair> {
        seq![
            ("base_currency_id"@, self.spec_base_currency_id()),
            ("quote_currency_id"@, self.spec_quote_currency_id()),
            ("amount"@, self.spec_amount()),
        ]
    }

    /// A request to convert nothing yet: the amount is 0 until it is set.
    pub fn new(client: &'a Client, base_currency_id: &str, quote_currency_id: &str) -> (r: Self)
        ensures
            r.spec_client() == *client,
            r.spec_base_currency_id() == base_currency_id@,
            r.spec_quote_currency_id() == quote_currency_id@,
            r.spec_amount() == int_text(0),
    {
        Self {
            client,
            base_currency_id: String::from_str(base_currency_id),
            quote_currency_id: String::from_str(quote_currency_id),
            amount: decimal(0),
        }
    }

    /// Sets the amount of the base currency to convert.
    pub fn amount(&mut self, amount: i32) -> (r: &mut Self)
        ensures
            r.spec_client() == old(self).spec_client(),
            r.spec_base_currency_id() == old(self).spec_base_currency_id(),
            r.spec_quote_currency_id() == old(self).spec_quote_currency_id(),
            r.spec_amount() == int_text(amount as int),
            *final(self) == *final(r),
    {
        self.amount = decimal(amount);
        self
    }

    /// The request for `/price-converter`, with both currencies and the
    /// amount.
    pub fn request(&self) -> (r: Request)
        ensures
            r@ == self.spec_client().get("/price-converter"@, self.spec_query()),
    {
        proof {
            reveal_strlit("");
        }
        let url = self.client.endpoint("/price-converter", "", "");
        let mut query: Vec<(String, String)> = Vec::new();
        push_param(&mut query, "base_currency_id", self.base_currency_id.as_str());
        push_param(&mut query, "quote_currency_id", self.quote_currency_id.as_str());
        push_param(&mut query, "amount", self.amount.as_str());
        assert(pairs(query@) =~= self.spec_query());
        assert(url@ =~= self.spec_client().base() + "/price-converter"@);
        self.client.request(url, query)
    }
}

} // verus!
