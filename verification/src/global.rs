use crate::client::Client;
use crate::request::{Pair, Request};
use vstd::prelude::*;

verus! {

/// Request for the overview of the whole market: `/global`.
pub struct GetGlobalRequest<'a> {
    client: &'a Client,
}

impl<'a> GetGlobalRequest<'a> {
    /// The client that the request is issued with.
    pub closed spec fn spec_client(&self) -> Client {
        *self.client
    }

    /// A request issued with `client`.
    pub fn new(client: &'a Client) -> (r: Self)
        ensures
            r.spec_client() == *client,
    {
        Self { client }
    }

    /// The request for `/global`, which has no parameters.
    pub fn request(&self) -> (r: Request)
        ensures
            r@ == self.spec_client().get("/global"@, Seq::empty()),
    {
        proof {
            reveal_strlit("");
        }
        let url = self.client.endpoint("/global", "", "");
        assert(url@ =~= self.spec_client().base() + "/global"@);
        let r = self.client.request(url, Vec::new());
        assert(r@.query =~= Seq::<Pair>::empty());
        r
    }
}

} // verus!
