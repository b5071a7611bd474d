use crate::text::{join, joined, texts};
use vstd::prelude::*;
use vstd::string::StringExecFns;

verus! {

/// A query parameter or a header as it is reasoned about: name and value.
pub type Pair = (Seq<char>, Seq<char>);

/// The views of a list of named values.
pub open spec fn pairs(v: Seq<(String, String)>) -> Seq<Pair> {
    v.map_values(|p: (String, String)| (p.0@, p.1@))
}

/// A `GET` request, ready to be issued: the URL of the endpoint, the query
/// parameters and the headers, each list in the order in which it is sent.
#[derive(Debug, PartialEq, Eq)]
pub struct Request {
    pub url: String,
    pub query: Vec<(String, String)>,
    pub headers: Vec<(String, String)>,
}

/// What a [`Request`] holds.
pub ghost struct RequestView {
    pub url: Seq<char>,
    pub query: Seq<Pair>,
    pub headers: Seq<Pair>,
}

impl View for Request {
    type V = RequestView;

    open spec fn view(&self) -> RequestView {
        RequestView { url: self.url@, query: pairs(self.query@), headers: pairs(self.headers@) }
    }
}

/// The parameter that a list-valued filter contributes: none while the list
/// is empty, else one whose value is the items joined by commas.
pub open spec fn list_param(name: Seq<char>, values: Seq<Seq<char>>) -> Seq<Pair> {
    if values.len() == 0 {
        Seq::empty()
    } else {
        seq![(name, joined(values, ","@))]
    }
}

/// The parameter that an optional filter contributes: none while it is
/// unset, else one with the value as it was given.
pub open spec fn optional_param(name: Seq<char>, value: Option<Seq<char>>) -> Seq<Pair> {
    match value {
        None => Seq::empty(),
        Some(v) => seq![(name, v)],
    }
}

/// The view of an optional string.
pub open spec fn optional_text(value: Option<String>) -> Option<Seq<char>> {
    match value {
        None => None,
        Some(v) => Some(v@),
    }
}

/// A filter that is unset or explicitly empty adds nothing to the query.
pub proof fn unset_filter_adds_nothing(name: Seq<char>)
    ensures
        list_param(name, Seq::empty()) == Seq::<Pair>::empty(),
        optional_param(name, None) == Seq::<Pair>::empty(),
{
}

/// A list-valued filter with at least one item adds exactly one parameter,
/// which holds every item, in order, separated by commas.
pub proof fn list_filter_adds_one_parameter(name: Seq<char>, values: Seq<Seq<char>>)
    requires
        values.len() > 0,
    ensures
        list_param(name, values).len() == 1,
        list_param(name, values)[0] == (name, joined(values, ","@)),
{
}

/// Appends one parameter.
pub fn push_param(query: &mut Vec<(String, String)>, name: &str, value: &str)
    ensures
        pairs(final(query)@) == pairs(old(query)@).push((name@, value@)),
{
    query.push((String::from_str(name), String::from_str(value)));
    assert(pairs(query@) =~= pairs(old(query)@).push((name@, value@)));
}

/// Appends what a list-valued filter contributes.
pub fn push_list(query: &mut Vec<(String, String)>, name: &str, values: &Vec<String>)
    ensures
        pairs(final(query)@) == pairs(old(query)@) + list_param(name@, texts(values@)),
{
    if values.len() > 0 {
        let value = join(values, ",");
        push_param(query, name, value.as_str());
    }
    assert(pairs(query@) =~= pairs(old(query)@) + list_param(name@, texts(values@)));
}

/// Appends what an optional filter contributes.
pub fn push_optional(query: &mut Vec<(String, String)>, name: &str, value: &Option<String>)
    ensures
        pairs(final(query)@) == pairs(old(query)@) + optional_param(name@, optional_text(*value)),
{
    if let Some(v) = value {
        push_param(query, name, v.as_str());
    }
    assert(pairs(query@) =~= pairs(old(query)@) + optional_param(name@, optional_text(*value)));
}

} // verus!
