use crate::client::Client;
use crate::request::{Pair, Request};
use vstd::prelude::*;

verus! {

/// How many requests a key has made in the current month and how many it
/// has left; each is -1 where the plan sets no limit.
#[derive(Debug)]
pub struct CurrentMonthUsage {
    pub requests_made: i32,
    pub requests_left: i32,
}

/// The monthly usage of a key.
#[derive(Debug)]
pub struct KeyUsage {
    /// `limited plan` or `unlimited plan`.
    pub message: String,
    pub current_month: CurrentMonthUsage,
}

/// Information about an API key.
#[derive(Debug)]
pub struct KeyInfo {
    /// The name of the plan.
    pub plan: String,
    pub plan_started_at: String,
    /// `active`, `past_due` or `inactive`.
    pub plan_status: String,
    pub portal_url: String,
    pub usage: KeyUsage,
}

/// Request for information about the key of the client: `/key/info`.
pub struct GetKeyInfoRequest<'a> {
    client: &'a Client,
}

impl<'a> GetKeyInfoRequest<'a> {
    /// The client that the request is issued with.
    pub closed spec fn spec_client(&self) -> Client {
        *self.client
    }

    /// A request issued with `client`.
    pub fn new(client: &'a Client) -> (r: Self)
        ensures
            r.spec_client() == *client,
    {
        Self { client }
    }

    /// The request for `/key/info`, which has no parameters.
    pub fn request(&self) -> (r: Request)
        ensures
            r@ == self.spec_client().get("/key/info"@, Seq::empty()),
    {
        proof {
            reveal_strlit("");
        }
        let url = self.client.endpoint("/key/info", "", "");
        assert(url@ =~= self.spec_client().base() + "/key/info"@);
        let r = self.client.request(url, Vec::new());
        assert(r@.query =~= Seq::<Pair>::empty());
        r
    }
}

} // verus!
