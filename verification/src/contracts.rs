use crate::client::Client;
use crate::request::{Pair, Request};
use vstd::prelude::*;
use vstd::string::StringExecFns;

verus! {

/// A contract on a platform.
#[derive(Debug)]
pub struct Contract {
    pub address: String,
    pub id: String,
    /// The kind of contract; the field `type` of the API.
    pub contract_type: String,
}

/// Request for the list of contract platforms: `/contracts`.
pub struct GetContractPlatformsRequest<'a> {
    client: &'a Client,
}

impl<'a> GetContractPlatformsRequest<'a> {
    /// The client that the request is issued with.
    pub closed spec fn spec_client(&self) -> Client {
        *self.client
    }

    /// A request issued with `client`.
    pub fn new(client: &'a Client) -> (r: Self)
        ensures
            r.spec_client() == *client,
    {
        Self { client }
    }

    /// The request for `/contracts`, which has no parameters.
    pub fn request(&self) -> (r: Request)
        ensures
            r@ == self.spec_client().get("/contracts"@, Seq::empty()),
    {
        proof {
            reveal_strlit("");
        }
        let url = self.client.endpoint("/contracts", "", "");
        assert(url@ =~= self.spec_client().base() + "/contracts"@);
        let r = self.client.request(url, Vec::new());
        assert(r@.query =~= Seq::<Pair>::empty());
        r
    }
}

/// Request for the contracts of one platform: `/contracts/{platform_id}`.
pub struct GetContractsRequest<'a> {
    client: &'a Client,
    platform_id: String,
}

impl<'a> GetContractsRequest<'a> {
    /// The client that the request is issued with.
    pub closed spec fn spec_client(&self) -> Client {
        *self.client
    }

    /// The platform asked about.
    pub closed spec fn spec_platform_id(&self) -> Seq<char> {
        self.platform_id@
    }

    /// A request about `platform_id`.
    pub fn new(client: &'a Client, platform_id: &str) -> (r: Self)
        ensures
            r.spec_client() == *client,
            r.spec_platform_id() == platform_id@,
    {
        Self { client, platform_id: String::from_str(platform_id) }
    }

    /// The request for `/contracts/{platform_id}`, which has no parameters.
    pub fn request(&self) -> (r: Request)
        ensures
            r@ == self.spec_client().get("/contracts/"@ + self.spec_platform_id(), Seq::empty()),
    {
        proof {
            reveal_strlit("");
        }
        let url = self.client.endpoint("/contracts/", self.platform_id.as_str(), "");
        assert(url@ =~= self.spec_client().base() + ("/contracts/"@ + self.spec_platform_id()));
        let r = self.client.request(url, Vec::new());
        assert(r@.query =~= Seq::<Pair>::empty());
        r
    }
}

} // verus!
