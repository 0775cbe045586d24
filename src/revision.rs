use vstd::prelude::*;

use crate::error::RestApiError;
use crate::page::{html_params_without_redirect, html_param_list_without_redirect};
use crate::rest_api::{pairs_view, request_result_view, ApiRequest, HttpMethod, RestApi};
use crate::text::{decimal, decimal_text, join2};
use crate::utilities::HtmlFlavor;

verus! {

/// A revision, named by its id.
#[derive(Clone, Copy, Debug)]
pub struct Revision {
    id: usize,
}

/// The path of a revision route: `/revision/`, the id, then `suffix`.
pub open spec fn revision_path(id: usize, suffix: Seq<char>) -> Seq<char> {
    "/revision/"@ + decimal(id as nat) + suffix
}

impl Revision {
    /// A revision with the given id.
    pub fn new(id: usize) -> (r: Revision)
        ensures
            r.id() == id,
    {
        Revision { id }
    }

    /// The id.
    pub closed spec fn spec_id(&self) -> usize {
        self.id
    }

    /// The id.
    #[verifier::when_used_as_spec(spec_id)]
    pub fn id(&self) -> (r: usize)
        ensures
            r == self.spec_id(),
    {
        self.id
    }

    fn path(&self, suffix: &str) -> (r: String)
        ensures
            r@ == revision_path(self.id(), suffix@),
    {
        let mut p = join2("/revision/", decimal_text(self.id).as_str());
        p.append(suffix);
        p
    }

    /// The request for basic revision information and wikitext (`source`).
    pub fn get_request(&self, api: &RestApi) -> (r: Result<ApiRequest, RestApiError>)
        ensures
            request_result_view(r) == api@.request_outcome(
                revision_path(self.id(), ""@),
                Seq::empty(),
                HttpMethod::Get,
            ),
    {
        let params: Vec<(String, String)> = Vec::new();
        assert(pairs_view(params@) =~= Seq::empty());
        api.build_versioned_request(self.path("").as_str(), params, HttpMethod::Get)
    }

    /// The request for basic revision information and the URL of the HTML (`html_url`).
    pub fn get_bare_request(&self, api: &RestApi) -> (r: Result<ApiRequest, RestApiError>)
        ensures
            request_result_view(r) == api@.request_outcome(
                revision_path(self.id(), "/bare"@),
                Seq::empty(),
                HttpMethod::Get,
            ),
    {
        let params: Vec<(String, String)> = Vec::new();
        assert(pairs_view(params@) =~= Seq::empty());
        api.build_versioned_request(self.path("/bare").as_str(), params, HttpMethod::Get)
    }

    /// The request for the HTML of the revision.
    pub fn get_html_request(&self, api: &RestApi, stash: bool, flavor: HtmlFlavor) -> (r: Result<
        ApiRequest,
        RestApiError,
    >)
        ensures
            request_result_view(r) == api@.request_outcome(
                revision_path(self.id(), "/html"@),
                html_params_without_redirect(stash, flavor),
                HttpMethod::Get,
            ),
    {
        api.build_versioned_request(
            self.path("/html").as_str(),
            html_param_list_without_redirect(stash, flavor),
            HttpMethod::Get,
        )
    }

    /// The request for basic revision information and the HTML (`html`).
    pub fn get_with_html_request(&self, api: &RestApi, stash: bool, flavor: HtmlFlavor) -> (r:
        Result<ApiRequest, RestApiError>)
        ensures
            request_result_view(r) == api@.request_outcome(
                revision_path(self.id(), "/with_html"@),
                html_params_without_redirect(stash, flavor),
                HttpMethod::Get,
            ),
    {
        api.build_versioned_request(
            self.path("/with_html").as_str(),
            html_param_list_without_redirect(stash, flavor),
            HttpMethod::Get,
        )
    }

    /// The request for the lint findings of the revision.
    pub fn get_lint_request(&self, api: &RestApi) -> (r: Result<ApiRequest, RestApiError>)
        ensures
            request_result_view(r) == api@.request_outcome(
                revision_path(self.id(), "/lint"@),
                Seq::empty(),
                HttpMethod::Get,
            ),
    {
        let params: Vec<(String, String)> = Vec::new();
        assert(pairs_view(params@) =~= Seq::empty());
        api.build_versioned_request(self.path("/lint").as_str(), params, HttpMethod::Get)
    }

    /// The request for the comparison of this revision with revision `to`.
    pub fn get_compare_request(&self, api: &RestApi, to: usize) -> (r: Result<
        ApiRequest,
        RestApiError,
    >)
        ensures
            request_result_view(r) == api@.request_outcome(
                revision_path(self.id(), "/compare/"@ + decimal(to as nat)),
                Seq::empty(),
                HttpMethod::Get,
            ),
    {
        let params: Vec<(String, String)> = Vec::new();
        assert(pairs_view(params@) =~= Seq::empty());
        let suffix = join2("/compare/", decimal_text(to).as_str());
        api.build_versioned_request(self.path(suffix.as_str()).as_str(), params, HttpMethod::Get)
    }
}

} // verus!
