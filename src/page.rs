use vstd::prelude::*;

use crate::encoding::{json_quoted, json_string, url_encode, url_encoded};
use crate::error::RestApiError;
use crate::rest_api::{
    pairs_view, push_param, request_result_view, with_body, ApiRequest, HttpMethod, RestApi,
};
use crate::text::{bool_string, bool_text, decimal, decimal_text};
use crate::utilities::{Filter, HistoryFilterExtended, HtmlFlavor, RevisionTimestamp};

verus! {

/// A page, named by its title.
#[derive(Clone, Debug)]
pub struct Page {
    title: String,
}

impl View for Page {
    type V = Seq<char>;

    closed spec fn view(&self) -> Seq<char> {
        self.title@
    }
}

/// The path of a page route: `/page/`, the percent-encoded title, then `suffix`.
pub open spec fn page_path(title: Seq<char>, suffix: Seq<char>) -> Seq<char> {
    "/page/"@ + url_encoded(title) + suffix
}

/// The `redirect` parameter.
pub open spec fn redirect_params(follow_redirect: bool) -> Seq<(Seq<char>, Seq<char>)> {
    seq![("redirect"@, bool_text(follow_redirect))]
}

/// The `redirect`, `stash` and `flavor` parameters of an HTML request.
pub open spec fn html_params(follow_redirect: bool, stash: bool, flavor: HtmlFlavor) -> Seq<
    (Seq<char>, Seq<char>),
> {
    seq![
        ("redirect"@, bool_text(follow_redirect)),
        ("stash"@, bool_text(stash)),
        ("flavor"@, flavor.text()),
    ]
}

/// The `stash` and `flavor` parameters of an HTML request.
pub open spec fn html_params_without_redirect(stash: bool, flavor: HtmlFlavor) -> Seq<
    (Seq<char>, Seq<char>),
> {
    seq![("stash"@, bool_text(stash)), ("flavor"@, flavor.text())]
}

/// A parameter with a number, present only where the number is given.
pub open spec fn number_param(name: Seq<char>, value: Option<usize>) -> Seq<(Seq<char>, Seq<char>)> {
    match value {
        Some(n) => seq![(name, decimal(n as nat))],
        None => Seq::empty(),
    }
}

/// The parameters of a history listing, each present only where it is given.
pub open spec fn history_params(
    filter: Option<Filter>,
    older_than: Option<usize>,
    newer_than: Option<usize>,
) -> Seq<(Seq<char>, Seq<char>)> {
    number_param("older_than"@, older_than) + number_param("newer_than"@, newer_than) + match filter {
        Some(f) => seq![("filter"@, f.text())],
        None => Seq::empty(),
    }
}

/// The JSON body of an edit, keys in order.
pub open spec fn edit_body(
    source: Seq<char>,
    comment: Seq<char>,
    token: Seq<char>,
    latest_id: nat,
    latest_timestamp: Seq<char>,
) -> Seq<char> {
    "{\"comment\":"@ + json_quoted(comment) + ",\"content_model\":\"wikitext\",\"latest\":{\"id\":"@
        + decimal(latest_id) + ",\"timestamp\":"@ + json_quoted(latest_timestamp)
        + "},\"source\":"@ + json_quoted(source) + ",\"token\":"@ + json_quoted(token) + "}"@
}

/// The JSON body of a page creation, keys in order.
pub open spec fn create_body(
    source: Seq<char>,
    comment: Seq<char>,
    title: Seq<char>,
    token: Seq<char>,
) -> Seq<char> {
    "{\"comment\":"@ + json_quoted(comment) + ",\"content_model\":\"wikitext\",\"source\":"@
        + json_quoted(source) + ",\"title\":"@ + json_quoted(title) + ",\"token\":"@
        + json_quoted(token) + "}"@
}

/// A number parameter, appended where the number is given.
fn push_number_param(params: &mut Vec<(String, String)>, name: &str, value: Option<usize>)
    ensures
        pairs_view(final(params)@) == pairs_view(old(params)@) + number_param(name@, value),
{
    match value {
        Some(n) => {
            push_param(params, name, decimal_text(n));
            assert(pairs_view(params@) =~= pairs_view(old(params)@) + number_param(name@, value));
        },
        None => {
            assert(pairs_view(params@) =~= pairs_view(old(params)@) + number_param(name@, value));
        },
    }
}

fn redirect_param_list(follow_redirect: bool) -> (r: Vec<(String, String)>)
    ensures
        pairs_view(r@) == redirect_params(follow_redirect),
{
    let mut params: Vec<(String, String)> = Vec::new();
    push_param(&mut params, "redirect", bool_string(follow_redirect));
    assert(pairs_view(params@) =~= redirect_params(follow_redirect));
    params
}

fn html_param_list(follow_redirect: bool, stash: bool, flavor: HtmlFlavor) -> (r: Vec<
    (String, String),
>)
    ensures
        pairs_view(r@) == html_params(follow_redirect, stash, flavor),
{
    let mut params: Vec<(String, String)> = Vec::new();
    push_param(&mut params, "redirect", bool_string(follow_redirect));
    push_param(&mut params, "stash", bool_string(stash));
    push_param(&mut params, "flavor", flavor.to_string());
    assert(pairs_view(params@) =~= html_params(follow_redirect, stash, flavor));
    params
}

pub(crate) fn html_param_list_without_redirect(stash: bool, flavor: HtmlFlavor) -> (r: Vec<
    (String, String),
>)
    ensures
        pairs_view(r@) == html_params_without_redirect(stash, flavor),
{
    let mut params: Vec<(String, String)> = Vec::new();
    push_param(&mut params, "stash", bool_string(stash));
    push_param(&mut params, "flavor", flavor.to_string());
    assert(pairs_view(params@) =~= html_params_without_redirect(stash, flavor));
    params
}

impl Page {
    /// A page with the given title.
    pub fn new(title: &str) -> (r: Page)
        ensures
            r@ == title@,
    {
        Page { title: String::from_str(title) }
    }

    /// The title.
    pub fn title(&self) -> (r: &str)
        ensures
            r@ == self@,
    {
        self.title.as_str()
    }

    fn path(&self, suffix: &str) -> (r: String)
        ensures
            r@ == page_path(self@, suffix@),
    {
        let mut p = String::from_str("/page/");
        p.append(url_encode(self.title.as_str()).as_str());
        p.append(suffix);
        p
    }

    /// The request for basic page information and wikitext (`source`).
    pub fn get_request(&self, api: &RestApi, follow_redirect: bool) -> (r: Result<
        ApiRequest,
        RestApiError,
    >)
        ensures
            request_result_view(r) == api@.request_outcome(
                page_path(self@, ""@),
                redirect_params(follow_redirect),
                HttpMethod::Get,
            ),
    {
        api.build_versioned_request(self.path("").as_str(), redirect_param_list(follow_redirect), HttpMethod::Get)
    }

    /// The request for basic page information and the URL of the HTML (`html_url`).
    pub fn get_bare_request(&self, api: &RestApi, follow_redirect: bool) -> (r: Result<
        ApiRequest,
        RestApiError,
    >)
        ensures
            request_result_view(r) == api@.request_outcome(
                page_path(self@, "/bare"@),
                redirect_params(follow_redirect),
                HttpMethod::Get,
            ),
    {
        api.build_versioned_request(
            self.path("/bare").as_str(),
            redirect_param_list(follow_redirect),
            HttpMethod::Get,
        )
    }

    /// The request for the HTML of the page.
    pub fn get_html_request(
        &self,
        api: &RestApi,
        follow_redirect: bool,
        stash: bool,
        flavor: HtmlFlavor,
    ) -> (r: Result<ApiRequest, RestApiError>)
        ensures
            request_result_view(r) == api@.request_outcome(
                page_path(self@, "/html"@),
                html_params(follow_redirect, stash, flavor),
                HttpMethod::Get,
            ),
    {
        api.build_versioned_request(
            self.path("/html").as_str(),
            html_param_list(follow_redirect, stash, flavor),
            HttpMethod::Get,
        )
    }

    /// The request for basic page information and the HTML (`html`).
    pub fn get_with_html_request(
        &self,
        api: &RestApi,
        follow_redirect: bool,
        stash: bool,
        flavor: HtmlFlavor,
    ) -> (r: Result<ApiRequest, RestApiError>)
        ensures
            request_result_view(r) == api@.request_outcome(
                page_path(self@, "/with_html"@),
                html_params(follow_redirect, stash, flavor),
                HttpMethod::Get,
            ),
    {
        api.build_versioned_request(
            self.path("/with_html").as_str(),
            html_param_list(follow_redirect, stash, flavor),
            HttpMethod::Get,
        )
    }

    /// The request for the language links.
    pub fn get_links_language_request(&self, api: &RestApi) -> (r: Result<
        ApiRequest,
        RestApiError,
    >)
        ensures
            request_result_view(r) == api@.request_outcome(
                page_path(self@, "/links/language"@),
                Seq::empty(),
                HttpMethod::Get,
            ),
    {
        let params: Vec<(String, String)> = Vec::new();
        assert(pairs_view(params@) =~= Seq::empty());
        api.build_versioned_request(self.path("/links/language").as_str(), params, HttpMethod::Get)
    }

    /// The request for the media used on the page.
    pub fn get_links_media_request(&self, api: &RestApi) -> (r: Result<ApiRequest, RestApiError>)
        ensures
            request_result_view(r) == api@.request_outcome(
                page_path(self@, "/links/media"@),
                Seq::empty(),
                HttpMethod::Get,
            ),
    {
        let params: Vec<(String, String)> = Vec::new();
        assert(pairs_view(params@) =~= Seq::empty());
        api.build_versioned_request(self.path("/links/media").as_str(), params, HttpMethod::Get)
    }

    /// The request for the lint findings of the page.
    pub fn get_lint_request(&self, api: &RestApi, follow_redirect: bool) -> (r: Result<
        ApiRequest,
        RestApiError,
    >)
        ensures
            request_result_view(r) == api@.request_outcome(
                page_path(self@, "/lint"@),
                redirect_params(follow_redirect),
                HttpMethod::Get,
            ),
    {
        api.build_versioned_request(
            self.path("/lint").as_str(),
            redirect_param_list(follow_redirect),
            HttpMethod::Get,
        )
    }

    /// The request for the history of the page; each parameter is sent only where
    /// it is given.
    pub fn get_history_request(
        &self,
        api: &RestApi,
        filter: Option<Filter>,
        older_than: Option<usize>,
        newer_than: Option<usize>,
    ) -> (r: Result<ApiRequest, RestApiError>)
        ensures
            request_result_view(r) == api@.request_outcome(
                page_path(self@, "/history"@),
                history_params(filter, older_than, newer_than),
                HttpMethod::Get,
            ),
    {
        let mut params: Vec<(String, String)> = Vec::new();
        push_number_param(&mut params, "older_than", older_than);
        push_number_param(&mut params, "newer_than", newer_than);
        if let Some(f) = filter {
            push_param(&mut params, "filter", f.to_string());
        }
        assert(pairs_view(params@) =~= history_params(filter, older_than, newer_than));
        api.build_versioned_request(self.path("/history").as_str(), params, HttpMethod::Get)
    }

    /// The request for a history count of the page; `from` and `to` are sent only
    /// where they are given.
    pub fn get_history_counts_request(
        &self,
        api: &RestApi,
        filter: HistoryFilterExtended,
        from: Option<usize>,
        to: Option<usize>,
    ) -> (r: Result<ApiRequest, RestApiError>)
        ensures
            request_result_view(r) == api@.request_outcome(
                page_path(self@, "/history/counts/"@ + filter.text()),
                number_param("from"@, from) + number_param("to"@, to),
                HttpMethod::Get,
            ),
    {
        let mut params: Vec<(String, String)> = Vec::new();
        push_number_param(&mut params, "from", from);
        push_number_param(&mut params, "to", to);
        assert(pairs_view(params@) =~= Seq::empty() + number_param("from"@, from) + number_param(
            "to"@,
            to,
        ));
        let mut suffix = String::from_str("/history/counts/");
        suffix.append(filter.as_str());
        api.build_versioned_request(self.path(suffix.as_str()).as_str(), params, HttpMethod::Get)
    }

    /// The request that replaces the wikitext of the page: a PUT with the new
    /// wikitext, the comment, the edit token and the latest revision known, for
    /// conflict detection. Fails with `AccessTokenRequired`, and builds nothing,
    /// exactly where no token is held.
    pub fn edit_request(
        &self,
        api: &RestApi,
        rt: &RevisionTimestamp,
        source: &str,
        comment: &str,
    ) -> (r: Result<ApiRequest, RestApiError>)
        ensures
            match api@.token.token {
                None => r matches Err(RestApiError::AccessTokenRequired),
                Some(t) => request_result_view(r) == with_body(
                    api@.request_outcome(page_path(self@, ""@), Seq::empty(), HttpMethod::Put),
                    edit_body(source@, comment@, t, rt.id as nat, rt.timestamp@),
                ),
            },
    {
        let token = match api.get_edit_token() {
            Some(t) => t,
            None => {
                return Err(RestApiError::AccessTokenRequired);
            },
        };
        let mut body = String::from_str("{\"comment\":");
        body.append(json_string(comment).as_str());
        body.append(",\"content_model\":\"wikitext\",\"latest\":{\"id\":");
        body.append(decimal_text(rt.id).as_str());
        body.append(",\"timestamp\":");
        body.append(json_string(rt.timestamp.as_str()).as_str());
        body.append("},\"source\":");
        body.append(json_string(source).as_str());
        body.append(",\"token\":");
        body.append(json_string(token.as_str()).as_str());
        body.append("}");
        let params: Vec<(String, String)> = Vec::new();
        assert(pairs_view(params@) =~= Seq::empty());
        let mut q = api.build_versioned_request(self.path("").as_str(), params, HttpMethod::Put)?;
        q.body = Some(body);
        Ok(q)
    }

    /// The request that creates the page: a POST to `/page` with the wikitext, the
    /// comment, the title and the edit token. Fails with `AccessTokenRequired`, and
    /// builds nothing, exactly where no token is held.
    pub fn create_request(&self, api: &RestApi, source: &str, comment: &str) -> (r: Result<
        ApiRequest,
        RestApiError,
    >)
        ensures
            match api@.token.token {
                None => r matches Err(RestApiError::AccessTokenRequired),
                Some(t) => request_result_view(r) == with_body(
                    api@.request_outcome("/page"@, Seq::empty(), HttpMethod::Post),
                    create_body(source@, comment@, self@, t),
                ),
            },
    {
        let token = match api.get_edit_token() {
            Some(t) => t,
            None => {
                return Err(RestApiError::AccessTokenRequired);
            },
        };
        let mut body = String::from_str("{\"comment\":");
        body.append(json_string(comment).as_str());
        body.append(",\"content_model\":\"wikitext\",\"source\":");
        body.append(json_string(source).as_str());
        body.append(",\"title\":");
        body.append(json_string(self.title.as_str()).as_str());
        body.append(",\"token\":");
        body.append(json_string(token.as_str()).as_str());
        body.append("}");
        let params: Vec<(String, String)> = Vec::new();
        assert(pairs_view(params@) =~= Seq::empty());
        let mut q = api.build_versioned_request("/page", params, HttpMethod::Post)?;
        q.body = Some(body);
        Ok(q)
    }
}

} // verus!
