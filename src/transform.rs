use vstd::prelude::*;

use crate::encoding::{json_quoted, json_string, url_encode, url_encoded};
use crate::error::RestApiError;
use crate::rest_api::{
    pairs_view, request_result_view, with_json_body, ApiRequest, HttpMethod, RestApi,
};
use crate::text::join2;

verus! {

/// The wikitext and HTML transform routes.
#[derive(Clone, Copy, Debug)]
pub struct Transform;

/// A JSON object with the single text member `key`.
pub open spec fn json_text_object(key: Seq<char>, value: Seq<char>) -> Seq<char> {
    "{"@ + json_quoted(key) + ":"@ + json_quoted(value) + "}"@
}

/// A transform route, with the percent-encoded title where one is given.
pub open spec fn transform_path(route: Seq<char>, title: Option<Seq<char>>) -> Seq<char> {
    match title {
        Some(t) => route + "/"@ + url_encoded(t),
        None => route,
    }
}

/// The outcome of a transform request: a POST of `{key: value}` as JSON to the
/// route, accepting `accept`.
pub open spec fn transform_outcome(
    api: crate::rest_api::RestApiView,
    route: Seq<char>,
    title: Option<Seq<char>>,
    key: Seq<char>,
    value: Seq<char>,
    accept: Seq<char>,
) -> Result<crate::rest_api::RequestView, RestApiError> {
    with_json_body(
        api.request_outcome(transform_path(route, title), Seq::empty(), HttpMethod::Post),
        json_text_object(key, value),
        Some(accept),
    )
}

fn json_text_object_of(key: &str, value: &str) -> (r: String)
    ensures
        r@ == json_text_object(key@, value@),
{
    let mut r = String::from_str("{");
    r.append(json_string(key).as_str());
    r.append(":");
    r.append(json_string(value).as_str());
    r.append("}");
    r
}

fn transform_request(
    api: &RestApi,
    route: &str,
    title: Option<&str>,
    key: &str,
    value: &str,
    accept: &str,
) -> (r: Result<ApiRequest, RestApiError>)
    ensures
        request_result_view(r) == transform_outcome(
            api@,
            route@,
            match title {
                Some(t) => Some(t@),
                None => None,
            },
            key@,
            value@,
            accept@,
        ),
{
    let path = match title {
        Some(t) => {
            let mut p = join2(route, "/");
            p.append(url_encode(t).as_str());
            p
        },
        None => String::from_str(route),
    };
    let params: Vec<(String, String)> = Vec::new();
    assert(pairs_view(params@) =~= Seq::empty());
    let mut q = api.build_versioned_request(path.as_str(), params, HttpMethod::Post)?;
    q.body = Some(json_text_object_of(key, value));
    q.content_type = Some(String::from_str("application/json"));
    q.accept = Some(String::from_str(accept));
    Ok(q)
}

impl Transform {
    /// The request that turns wikitext into HTML.
    pub fn wikitext2html_request(wikitext: &str, api: &RestApi) -> (r: Result<
        ApiRequest,
        RestApiError,
    >)
        ensures
            request_result_view(r) == transform_outcome(
                api@,
                "/transform/wikitext/to/html"@,
                None,
                "wikitext"@,
                wikitext@,
                "text/html"@,
            ),
    {
        transform_request(api, "/transform/wikitext/to/html", None, "wikitext", wikitext, "text/html")
    }

    /// The request that turns wikitext into HTML, in the context of page `title`.
    pub fn wikitext2html_title_request(wikitext: &str, title: &str, api: &RestApi) -> (r: Result<
        ApiRequest,
        RestApiError,
    >)
        ensures
            request_result_view(r) == transform_outcome(
                api@,
                "/transform/wikitext/to/html"@,
                Some(title@),
                "wikitext"@,
                wikitext@,
                "text/html"@,
            ),
    {
        transform_request(
            api,
            "/transform/wikitext/to/html",
            Some(title),
            "wikitext",
            wikitext,
            "text/html",
        )
    }

    /// The request that turns HTML into wikitext.
    pub fn html2wikitext_request(html: &str, api: &RestApi) -> (r: Result<ApiRequest, RestApiError>)
        ensures
            request_result_view(r) == transform_outcome(
                api@,
                "/transform/html/to/wikitext"@,
                None,
                "html"@,
                html@,
                "text/plain"@,
            ),
    {
        transform_request(api, "/transform/html/to/wikitext", None, "html", html, "text/plain")
    }

    /// The request that turns HTML into wikitext, in the context of page `title`.
    pub fn html2wikitext_title_request(html: &str, title: &str, api: &RestApi) -> (r: Result<
        ApiRequest,
        RestApiError,
    >)
        ensures
            request_result_view(r) == transform_outcome(
                api@,
                "/transform/html/to/wikitext"@,
                Some(title@),
                "html"@,
                html@,
                "text/plain"@,
            ),
    {
        transform_request(
            api,
            "/transform/html/to/wikitext",
            Some(title),
            "html",
            html,
            "text/plain",
        )
    }

    /// The request for the lint findings of wikitext; they come back as JSON.
    pub fn wikitext2lint_request(wikitext: &str, api: &RestApi) -> (r: Result<
        ApiRequest,
        RestApiError,
    >)
        ensures
            request_result_view(r) == transform_outcome(
                api@,
                "/transform/wikitext/to/lint"@,
                None,
                "wikitext"@,
                wikitext@,
                "application/json"@,
            ),
    {
        transform_request(
            api,
            "/transform/wikitext/to/lint",
            None,
            "wikitext",
            wikitext,
            "application/json",
        )
    }

    /// The request for the lint findings of wikitext, in the context of page
    /// `title`; they come back as JSON.
    pub fn wikitext2lint_title_request(title: &str, wikitext: &str, api: &RestApi) -> (r: Result<
        ApiRequest,
        RestApiError,
    >)
        ensures
            request_result_view(r) == transform_outcome(
                api@,
                "/transform/wikitext/to/lint"@,
                Some(title@),
                "wikitext"@,
                wikitext@,
                "application/json"@,
            ),
    {
        transform_request(
            api,
            "/transform/wikitext/to/lint",
            Some(title),
            "wikitext",
            wikitext,
            "application/json",
        )
    }
}

} // verus!
