use vstd::prelude::*;

use crate::error::RestApiError;
use crate::rest_api::{pairs_view, request_result_view, ApiRequest, HttpMethod, RestApi};
use crate::text::{decimal, decimal_text, join2, occurs_at};

verus! {

/// The math popup routes.
#[derive(Clone, Copy, Debug)]
pub struct Math;

impl Math {
    /// The request for the HTML popup of the Wikidata item `qid`; this legacy
    /// route holds `/v0/` and carries no version prefix.
    pub fn popup_html_request(qid: usize, api: &RestApi) -> (r: Result<ApiRequest, RestApiError>)
        ensures
            request_result_view(r) == api@.legacy_request_outcome(
                "/math/v0/popup/html/"@ + decimal(qid as nat),
                Seq::empty(),
                HttpMethod::Get,
            ),
    {
        let params: Vec<(String, String)> = Vec::new();
        assert(pairs_view(params@) =~= Seq::empty());
        let path = join2("/math/v0/popup/html/", decimal_text(qid).as_str());
        proof {
            reveal_strlit("/math/v0/popup/html/");
            reveal_strlit("/v0/");
            assert(path@.subrange(5, 9) =~= "/v0/"@);
            assert(occurs_at(path@, "/v0/"@, 5));
        }
        api.build_request(path.as_str(), params, HttpMethod::Get)
    }
}

} // verus!
