use crate::client::Client;
use crate::request::{Pair, Request};
use vstd::prelude::*;
use vstd::string::StringExecFns;

verus! {

/// A position that a person holds in a project.
#[derive(Debug)]
pub struct Position {
    pub coin_id: String,
    pub coin_name: String,
    pub position: String,
}

/// Information about a person.
#[derive(Debug)]
pub struct Person {
    pub id: String,
    pub name: String,
    pub description: String,
    /// In how many teams the person is a member.
    pub teams_count: i32,
    /// Social media links, in the shape in which the API sends them.
    pub links: serde_json::Value,
    pub positions: Vec<Position>,
}

/// Request for one person: `/people/{person_id}`.
pub struct GetPersonRequest<'a> {
    client: &'a Client,
    person_id: String,
}

impl<'a> GetPersonRequest<'a> {
    /// The client that the request is issued with.
    pub closed spec fn spec_client(&self) -> Client {
        *self.client
    }

    /// The person asked about.
    pub closed spec fn spec_person_id(&self) -> Seq<char> {
        self.person_id@
    }

    /// A request about `person_id`.
    pub fn new(client: &'a Client, person_id: &str) -> (r: Self)
        ensures
            r.spec_client() == *client,
            r.spec_person_id() == person_id@,
    {
        Self { client, person_id: String::from_str(person_id) }
    }

    /// The request for `/people/{person_id}`, which has no parameters.
    pub fn request(&self) -> (r: Request)
        ensures
            r@ == self.spec_client().get("/people/"@ + self.spec_person_id(), Seq::empty()),
    {
        proof {
            reveal_strlit("");
        }
        let url = self.client.endpoint("/people/", self.person_id.as_str(), "");
        assert(url@ =~= self.spec_client().base() + ("/people/"@ + self.spec_person_id()));
        let r = self.client.request(url, Vec::new());
        assert(r@.query =~= Seq::<Pair>::empty());
        r
    }
}

} // verus!
