use crate::client::Client;
use crate::request::{list_param, push_list, Request};
use crate::text::{owned, slices, texts};
use vstd::prelude::*;
use vstd::string::StringExecFns;

verus! {

/// Basic information about a tag, a category of coins.
#[derive(Debug)]
pub struct Tag {
    pub id: String,
    pub name: String,
    /// How many coins carry the tag.
    pub coin_counter: i32,
    /// How many ICO projects carry the tag.
    pub ico_counter: i32,
    pub description: String,
    /// The kind of tag; the field `type` of the API.
    pub tag_type: String,
    /// The coins that carry the tag, where they were asked for.
    pub coins: Option<Vec<String>>,
    /// The ICO projects that carry the tag, where they were asked for.
    pub icos: Option<Vec<String>>,
}

/// Request for the list of tags: `/tags`.
pub struct GetTagsRequest<'a> {
    client: &'a Client,
    additional_fields: Vec<String>,
}

impl<'a> GetTagsRequest<'a> {
    /// The client that the request is issued with.
    pub closed spec fn spec_client(&self) -> Client {
        *self.client
    }

    /// The additional fields asked for.
    pub closed spec fn spec_additional_fields(&self) -> Seq<Seq<char>> {
        texts(self.additional_fields@)
    }

    /// A request that asks for no additional field.
    pub fn new(client: &'a Client) -> (r: Self)
        ensures
            r.spec_client() == *client,
            r.spec_additional_fields() == Seq::<Seq<char>>::empty(),
    {
        let r = Self { client, additional_fields: Vec::new() };
        assert(r.spec_additional_fields() =~= Seq::<Seq<char>>::empty());
        r
    }

    /// Sets the additional fields to return for each tag, `coins` or `icos`,
    /// in place of those set before.
    pub fn additional_fields(&mut self, additional_fields: Vec<&str>) -> (r: &mut Self)
        ensures
            r.spec_client() == old(self).spec_client(),
            r.spec_additional_fields() == slices(additional_fields@),
            *final(self) == *final(r),
    {
        self.additional_fields = owned(&additional_fields);
        self
    }

    /// The request for `/tags`: without an `additional_fields` parameter
    /// while the list is empty, else with one that holds every item.
    pub fn request(&self) -> (r: Request)
        ensures
            r@ == self.spec_client().get(
                "/tags"@,
                list_param("additional_fields"@, self.spec_additional_fields()),
            ),
    {
        proof {
            reveal_strlit("");
        }
        let url = self.client.endpoint("/tags", "", "");
        let mut query: Vec<(String, String)> = Vec::new();
        push_list(&mut query, "additional_fields", &self.additional_fields);
        assert(url@ =~= self.spec_client().base() + "/tags"@);
        self.client.request(url, query)
    }
}

/// Request for one tag: `/tags/{tag_id}`.
pub struct GetTagRequest<'a> {
    client: &'a Client,
    tag_id: String,
    additional_fields: Vec<String>,
}

impl<'a> GetTagRequest<'a> {
    /// The client that the request is issued with.
    pub closed spec fn spec_client(&self) -> Client {
        *self.client
    }

    /// The tag asked about.
    pub closed spec fn spec_tag_id(&self) -> Seq<char> {
        self.tag_id@
    }

    /// The additional fields asked for.
    pub closed spec fn spec_additional_fields(&self) -> Seq<Seq<char>> {
        texts(self.additional_fields@)
    }

    /// A request about `tag_id` that asks for no additional field.
    pub fn new(client: &'a Client, tag_id: &str) -> (r: Self)
        ensures
            r.spec_client() == *client,
            r.spec_tag_id() == tag_id@,
            r.spec_additional_fields() == Seq::<Seq<char>>::empty(),
    {
        let r = Self { client, tag_id: String::from_str(tag_id), additional_fields: Vec::new() };
        assert(r.spec_additional_fields() =~= Seq::<Seq<char>>::empty());
        r
    }

    /// Sets the additional fields to return for each tag, `coins` or `icos`,
    /// in place of those set before.
    pub fn additional_fields(&mut self, additional_fields: Vec<&str>) -> (r: &mut Self)
        ensures
            r.spec_client() == old(self).spec_client(),
            r.spec_tag_id() == old(self).spec_tag_id(),
            r.spec_additional_fields() == slices(additional_fields@),
            *final(self) == *final(r),
    {
        self.additional_fields = owned(&additional_fields);
        self
    }

    /// The request for `/tags/{tag_id}`: without an `additional_fields` parameter
    /// while the list is empty, else with one that holds every item.
    pub fn request(&self) -> (r: Request)
        ensures
            r@ == self.spec_client().get(
                "/tags/"@ + self.spec_tag_id(),
                list_param("additional_fields"@, self.spec_additional_fields()),
            ),
    {
        proof {
            reveal_strlit("");
        }
        let url = self.client.endpoint("/tags/", self.tag_id.as_str(), "");
        let mut query: Vec<(String, String)> = Vec::new();
        push_list(&mut query, "additional_fields", &self.additional_fields);
        assert(url@ =~= self.spec_client().base() + ("/tags/"@ + self.spec_tag_id()));
        self.client.request(url, query)
    }
}

} // verus!
