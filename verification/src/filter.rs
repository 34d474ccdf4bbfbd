//! Options of list requests: the filter, sort and paging parameters that a
//! listing sends in its query string.

use vstd::prelude::*;
use crate::auth::str_pair;
use crate::encoding::{form_urlencode, form_urlencoded};

verus! {

/// The query parameters of a listing, in the order they were added.
#[derive(Debug)]
pub struct ListOptions {
    params: Vec<(String, String)>,
}

impl View for ListOptions {
    type V = Seq<(Seq<char>, Seq<char>)>;

    closed spec fn view(&self) -> Seq<(Seq<char>, Seq<char>)> {
        self.params.deep_view()
    }
}

/// Options used to filter mod listings.
pub type ModsListOptions = ListOptions;

/// Options used to filter mod statistics.
pub type StatsListOptions = ListOptions;

/// Options used to filter event listings.
pub type EventListOptions = ListOptions;

impl ListOptions {
    /// No parameters: the API's defaults apply.
    pub fn new() -> (r: ListOptions)
        ensures
            r@ == Seq::<(Seq<char>, Seq<char>)>::empty(),
    {
        let r = ListOptions { params: Vec::new() };
        assert(r@ =~= Seq::<(Seq<char>, Seq<char>)>::empty());
        r
    }

    /// Adds the parameter `name=value`, such as `id-in=1,2` or `_sort=-id`.
    pub fn param(&mut self, name: &str, value: &str)
        ensures
            final(self)@ == old(self)@.push((name@, value@)),
    {
        let ghost before = self.params.deep_view();
        self.params.push(str_pair(name, value));
        assert(self.params.deep_view() =~= before.push((name@, value@)));
    }

    /// The parameters as a query string.
    pub fn to_query_params(&self) -> (r: String)
        ensures
            r@ == form_urlencoded(self@),
    {
        form_urlencode(&self.params)
    }
}

} // verus!
