use vstd::prelude::*;

use crate::error::RestApiError;
use crate::page::number_param;
use crate::rest_api::{pairs_view, push_param, request_result_view, ApiRequest, HttpMethod, RestApi};
use crate::text::decimal_text;

verus! {

/// The search routes.
#[derive(Clone, Copy, Debug)]
pub struct Search;

/// The parameters of a search: the query, and the limit where one is given.
pub open spec fn search_params(query: Seq<char>, limit: Option<usize>) -> Seq<
    (Seq<char>, Seq<char>),
> {
    seq![("q"@, query)] + number_param("limit"@, limit)
}

fn search_param_list(query: &str, limit: Option<usize>) -> (r: Vec<(String, String)>)
    ensures
        pairs_view(r@) == search_params(query@, limit),
{
    let mut params: Vec<(String, String)> = Vec::new();
    push_param(&mut params, "q", String::from_str(query));
    if let Some(n) = limit {
        push_param(&mut params, "limit", decimal_text(n));
    }
    assert(pairs_view(params@) =~= search_params(query@, limit));
    params
}

impl Search {
    /// The request for a full-text search of page content.
    pub fn page_request(query: &str, limit: Option<usize>, api: &RestApi) -> (r: Result<
        ApiRequest,
        RestApiError,
    >)
        ensures
            request_result_view(r) == api@.request_outcome(
                "/search/page"@,
                search_params(query@, limit),
                HttpMethod::Get,
            ),
    {
        api.build_versioned_request("/search/page", search_param_list(query, limit), HttpMethod::Get)
    }

    /// The request for a search of page titles.
    pub fn title_request(query: &str, limit: Option<usize>, api: &RestApi) -> (r: Result<
        ApiRequest,
        RestApiError,
    >)
        ensures
            request_result_view(r) == api@.request_outcome(
                "/search/title"@,
                search_params(query@, limit),
                HttpMethod::Get,
            ),
    {
        api.build_versioned_request("/search/title", search_param_list(query, limit), HttpMethod::Get)
    }
}

} // verus!
