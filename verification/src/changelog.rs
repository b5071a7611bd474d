use crate::client::Client;
use crate::request::{pairs, push_param, Request};
use crate::text::{decimal, int_text};
use vstd::prelude::*;

verus! {

/// A change of a coin's identifier.
#[derive(Debug)]
pub struct Change {
    pub currency_id: String,
    pub old_id: String,
    pub new_id: String,
    pub changed_at: String,
}

/// Request for one page of the changes of coin identifiers:
/// `/changelog/ids`.
pub struct GetChangelogRequest<'a> {
    client: &'a Client,
    page: i32,
}

impl<'a> GetChangelogRequest<'a> {
    /// The client that the request is issued with.
    pub closed spec fn spec_client(&self) -> Client {
        *self.client
    }

    /// The page asked for.
    pub closed spec fn spec_page(&self) -> int {
        self.page as int
    }

    /// A request for the given page of the changes.
    pub fn new(client: &'a Client, page: i32) -> (r: Self)
        ensures
            r.spec_client() == *client,
            r.spec_page() == page,
    {
        Self { client, page }
    }

    /// The request for `/changelog/ids`, with the page in decimal.
    pub fn request(&self) -> (r: Request)
        ensures
            r@ == self.spec_client().get(
                "/changelog/ids"@,
                seq![("page"@, int_text(self.spec_page()))],
            ),
    {
        proof {
            reveal_strlit("");
        }
        let url = self.client.endpoint("/changelog/ids", "", "");
        let page = decimal(self.page);
        let mut query: Vec<(String, String)> = Vec::new();
        push_param(&mut query, "page", page.as_str());
        assert(pairs(query@) =~= seq![("page"@, int_text(self.spec_page()))]);
        assert(url@ =~= self.spec_client().base() + "/changelog/ids"@);
        self.client.request(url, query)
    }
}

} // verus!
