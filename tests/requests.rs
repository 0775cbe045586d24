use mediawiki_rest_api::error::RestApiError;
use mediawiki_rest_api::file::File;
use mediawiki_rest_api::math::Math;
use mediawiki_rest_api::page::Page;
use mediawiki_rest_api::rest_api::{ApiRequest, HttpMethod, RestApi};
use mediawiki_rest_api::rest_api_builder::RestApiBuilder;
use mediawiki_rest_api::revision::Revision;
use mediawiki_rest_api::search::Search;
use mediawiki_rest_api::transform::Transform;
use mediawiki_rest_api::utilities::{
    Filter, HistoryFilterExtended, HtmlFlavor, RevisionTimestamp,
};

fn api() -> RestApi {
    RestApi::builder("http://127.0.0.1:9000/w/rest.php").unwrap().build()
}

fn api_with_token() -> RestApi {
    RestApi::builder("http://127.0.0.1:9000/w/rest.php")
        .unwrap()
        .with_access_token("foobar")
        .build()
}

fn pairs(q: &ApiRequest) -> Vec<(&str, &str)> {
    q.params.iter().map(|(k, v)| (k.as_str(), v.as_str())).collect()
}

const ROOT: &str = "http://127.0.0.1:9000/w/rest.php";

#[test]
fn page_get_request() {
    let q = Page::new("Rust (programming language)").get_request(&api(), false).unwrap();
    assert_eq!(q.method, HttpMethod::Get);
    assert_eq!(q.url, format!("{ROOT}/v1/page/Rust%20%28programming%20language%29"));
    assert_eq!(pairs(&q), vec![("redirect", "false")]);
    assert_eq!(q.accept.as_deref(), Some("application/json"));
    assert_eq!(q.content_type, None);
    assert_eq!(q.authorization, None);
    assert_eq!(q.body, None);
}

#[test]
fn page_routes() {
    let api = api();
    let p = Page::new("Cambridge");
    let base = format!("{ROOT}/v1/page/Cambridge");
    assert_eq!(p.get_bare_request(&api, true).unwrap().url, format!("{base}/bare"));
    let q = p.get_html_request(&api, true, false, HtmlFlavor::Stash).unwrap();
    assert_eq!(q.url, format!("{base}/html"));
    assert_eq!(pairs(&q), vec![("redirect", "true"), ("stash", "false"), ("flavor", "stash")]);
    let q = p.get_with_html_request(&api, false, true, HtmlFlavor::Fragment).unwrap();
    assert_eq!(q.url, format!("{base}/with_html"));
    assert_eq!(pairs(&q), vec![("redirect", "false"), ("stash", "true"), ("flavor", "fragment")]);
    let q = p.get_links_language_request(&api).unwrap();
    assert_eq!(q.url, format!("{base}/links/language"));
    assert!(q.params.is_empty());
    assert_eq!(p.get_links_media_request(&api).unwrap().url, format!("{base}/links/media"));
    let q = p.get_lint_request(&api, false).unwrap();
    assert_eq!(q.url, format!("{base}/lint"));
    assert_eq!(pairs(&q), vec![("redirect", "false")]);
}

#[test]
fn page_history_parameters_only_when_given() {
    let api = api();
    let p = Page::new("Cambridge");
    let q = p.get_history_request(&api, None, None, None).unwrap();
    assert_eq!(q.url, format!("{ROOT}/v1/page/Cambridge/history"));
    assert!(q.params.is_empty());
    let q = p.get_history_request(&api, Some(Filter::Reverted), Some(1200), Some(7)).unwrap();
    assert_eq!(
        pairs(&q),
        vec![("older_than", "1200"), ("newer_than", "7"), ("filter", "reverted")]
    );
    let q = p.get_history_request(&api, None, None, Some(0)).unwrap();
    assert_eq!(pairs(&q), vec![("newer_than", "0")]);
}

#[test]
fn page_history_counts_route() {
    let api = api();
    let p = Page::new("Cambridge");
    let q = p
        .get_history_counts_request(&api, HistoryFilterExtended::Anonymous, None, None)
        .unwrap();
    assert_eq!(q.url, format!("{ROOT}/v1/page/Cambridge/history/counts/anonymous"));
    assert!(q.params.is_empty());
    let q = p
        .get_history_counts_request(&api, HistoryFilterExtended::RevertedEdits, Some(10), Some(20))
        .unwrap();
    assert_eq!(q.url, format!("{ROOT}/v1/page/Cambridge/history/counts/revertededits"));
    assert_eq!(pairs(&q), vec![("from", "10"), ("to", "20")]);
}

#[test]
fn edit_without_token_fails_locally() {
    let latest = RevisionTimestamp { id: 0, timestamp: String::new() };
    let r = Page::new("Sandbox").edit_request(&api(), &latest, "test123", "test edit");
    assert_eq!(r.unwrap_err(), RestApiError::AccessTokenRequired);
}

#[test]
fn create_without_token_fails_locally() {
    let r = Page::new("Sandbox").create_request(&api(), "test123", "test edit");
    assert_eq!(r.unwrap_err(), RestApiError::AccessTokenRequired);
}

#[test]
fn edit_request_body_and_headers() {
    let latest = RevisionTimestamp { id: 81442548, timestamp: "2024-01-01T00:00:00Z".to_string() };
    let q = Page::new("User:Magnus Manske/mediawiki rest api test1")
        .edit_request(&api_with_token(), &latest, "test123", "test \"edit\"\n")
        .unwrap();
    assert_eq!(q.method, HttpMethod::Put);
    assert_eq!(
        q.url,
        format!("{ROOT}/v1/page/User%3AMagnus%20Manske%2Fmediawiki%20rest%20api%20test1")
    );
    assert_eq!(q.content_type.as_deref(), Some("application/json"));
    assert_eq!(q.authorization.as_deref(), Some("Bearer foobar"));
    assert_eq!(
        q.body.as_deref(),
        Some(
            "{\"comment\":\"test \\\"edit\\\"\\n\",\"content_model\":\"wikitext\",\"latest\":{\"id\":81442548,\"timestamp\":\"2024-01-01T00:00:00Z\"},\"source\":\"test123\",\"token\":\"foobar\"}"
        )
    );
    let parsed: serde_json::Value = serde_json::from_str(q.body.as_deref().unwrap()).unwrap();
    assert_eq!(parsed["comment"], "test \"edit\"\n");
    assert_eq!(parsed["latest"]["id"], 81442548);
}

#[test]
fn create_request_body() {
    let q = Page::new("User:Magnus Manske/mediawiki rest api test2")
        .create_request(&api_with_token(), "test123", "test edit")
        .unwrap();
    assert_eq!(q.method, HttpMethod::Post);
    assert_eq!(q.url, format!("{ROOT}/v1/page"));
    assert_eq!(
        q.body.as_deref(),
        Some(
            "{\"comment\":\"test edit\",\"content_model\":\"wikitext\",\"source\":\"test123\",\"title\":\"User:Magnus Manske/mediawiki rest api test2\",\"token\":\"foobar\"}"
        )
    );
}

#[test]
fn control_characters_are_escaped_in_bodies() {
    let q = Page::new("X").create_request(&api_with_token(), "a\u{1}b\tc\\", "\u{8}\u{c}\r").unwrap();
    let body = q.body.unwrap();
    assert!(body.contains("\"source\":\"a\\u0001b\\tc\\\\\""));
    assert!(body.contains("\"comment\":\"\\b\\f\\r\""));
}

#[test]
fn revision_routes() {
    let api = api();
    let r = Revision::new(1316925953);
    assert_eq!(r.id(), 1316925953);
    let base = format!("{ROOT}/v1/revision/1316925953");
    assert_eq!(r.get_request(&api).unwrap().url, base);
    assert_eq!(r.get_bare_request(&api).unwrap().url, format!("{base}/bare"));
    let q = r.get_html_request(&api, false, HtmlFlavor::View).unwrap();
    assert_eq!(q.url, format!("{base}/html"));
    assert_eq!(pairs(&q), vec![("stash", "false"), ("flavor", "view")]);
    let q = r.get_with_html_request(&api, true, HtmlFlavor::Edit).unwrap();
    assert_eq!(q.url, format!("{base}/with_html"));
    assert_eq!(pairs(&q), vec![("stash", "true"), ("flavor", "edit")]);
    assert_eq!(r.get_lint_request(&api).unwrap().url, format!("{base}/lint"));
    assert_eq!(
        r.get_compare_request(&api, 1316608902).unwrap().url,
        format!("{base}/compare/1316608902")
    );
}

#[test]
fn revision_zero_id() {
    let q = Revision::new(0).get_request(&api()).unwrap();
    assert_eq!(q.url, format!("{ROOT}/v1/revision/0"));
}

#[test]
fn file_route_is_encoded() {
    let q = File::new("Commons-logo.svg").get_request(&api()).unwrap();
    assert_eq!(q.url, format!("{ROOT}/v1/file/Commons-logo.svg"));
    let q = File::new("A b~c.png").get_request(&api()).unwrap();
    assert_eq!(q.url, format!("{ROOT}/v1/file/A%20b~c.png"));
}

#[test]
fn non_ascii_titles_are_encoded_by_bytes() {
    let q = Page::new("Zürich").get_request(&api(), false).unwrap();
    assert_eq!(q.url, format!("{ROOT}/v1/page/Z%C3%BCrich"));
}

#[test]
fn math_route_is_unversioned() {
    let q = Math::popup_html_request(12345, &api()).unwrap();
    assert_eq!(q.url, format!("{ROOT}/math/v0/popup/html/12345"));
}

#[test]
fn search_requests() {
    let q = Search::page_request("Rust programming language", None, &api()).unwrap();
    assert_eq!(q.url, format!("{ROOT}/v1/search/page"));
    assert_eq!(pairs(&q), vec![("q", "Rust programming language")]);
    let q = Search::title_request("Rust", Some(50), &api()).unwrap();
    assert_eq!(q.url, format!("{ROOT}/v1/search/title"));
    assert_eq!(pairs(&q), vec![("q", "Rust"), ("limit", "50")]);
}

#[test]
fn wikitext_to_html_request() {
    let q = Transform::wikitext2html_request("[[A|]]", &api()).unwrap();
    assert_eq!(q.method, HttpMethod::Post);
    assert_eq!(q.url, format!("{ROOT}/v1/transform/wikitext/to/html"));
    assert_eq!(q.body.as_deref(), Some("{\"wikitext\":\"[[A|]]\"}"));
    assert_eq!(q.content_type.as_deref(), Some("application/json"));
    assert_eq!(q.accept.as_deref(), Some("text/html"));
}

#[test]
fn titled_transform_requests() {
    let q = Transform::wikitext2html_title_request("!{{FULLPAGENAME}}?", "Talk:Foo/Bar", &api())
        .unwrap();
    assert_eq!(q.url, format!("{ROOT}/v1/transform/wikitext/to/html/Talk%3AFoo%2FBar"));
    assert_eq!(q.body.as_deref(), Some("{\"wikitext\":\"!{{FULLPAGENAME}}?\"}"));
    let q = Transform::html2wikitext_title_request("<p>x</p>", "Talk:Foo/Bar", &api()).unwrap();
    assert_eq!(q.url, format!("{ROOT}/v1/transform/html/to/wikitext/Talk%3AFoo%2FBar"));
    assert_eq!(q.accept.as_deref(), Some("text/plain"));
    assert_eq!(q.body.as_deref(), Some("{\"html\":\"<p>x</p>\"}"));
}

#[test]
fn html_to_wikitext_request() {
    let q = Transform::html2wikitext_request("<a href=\"x\">", &api()).unwrap();
    assert_eq!(q.url, format!("{ROOT}/v1/transform/html/to/wikitext"));
    assert_eq!(q.body.as_deref(), Some("{\"html\":\"<a href=\\\"x\\\">\"}"));
    assert_eq!(q.accept.as_deref(), Some("text/plain"));
    assert_eq!(q.content_type.as_deref(), Some("application/json"));
}

#[test]
fn lint_transform_requests_accept_json() {
    let w = "== Hello Jupiter ==[[Link|text]]<table><table>";
    let q = Transform::wikitext2lint_request(w, &api()).unwrap();
    assert_eq!(q.url, format!("{ROOT}/v1/transform/wikitext/to/lint"));
    assert_eq!(q.accept.as_deref(), Some("application/json"));
    assert_eq!(q.content_type.as_deref(), Some("application/json"));
    let q = Transform::wikitext2lint_title_request("Cambridge", w, &api()).unwrap();
    assert_eq!(q.url, format!("{ROOT}/v1/transform/wikitext/to/lint/Cambridge"));
    assert_eq!(
        q.body.as_deref(),
        Some("{\"wikitext\":\"== Hello Jupiter ==[[Link|text]]<table><table>\"}")
    );
}

#[test]
fn page_titled_v0_keeps_version_prefix() {
    let api = api();
    let p = Page::new("v0");
    let q = p.get_history_request(&api, None, None, None).unwrap();
    assert_eq!(q.url, format!("{ROOT}/v1/page/v0/history"));
    let q = p.get_bare_request(&api, false).unwrap();
    assert_eq!(q.url, format!("{ROOT}/v1/page/v0/bare"));
    let q = Page::new("a/v0/b").get_request(&api, false).unwrap();
    assert_eq!(q.url, format!("{ROOT}/v1/page/a%2Fv0%2Fb"));
    let q = Transform::wikitext2html_title_request("x", "v0", &api).unwrap();
    assert_eq!(q.url, format!("{ROOT}/v1/transform/wikitext/to/html/v0"));
}
