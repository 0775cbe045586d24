use mediawiki_rest_api::bearer_token::{BearerToken, RenewalStep};
use mediawiki_rest_api::error::RestApiError;
use mediawiki_rest_api::response::{required_text, TextField};
use mediawiki_rest_api::rest_api::{HttpMethod, RestApi};
use mediawiki_rest_api::utilities::{Filter, HistoryFilterExtended, HtmlFlavor};

fn api() -> RestApi {
    RestApi::builder("https://x.org/w/rest.php").unwrap().build()
}

#[test]
fn build_request_prefixes_version() {
    let api = RestApi::builder("https://x.org/w/rest.php").unwrap().with_api_version(12).build();
    let q = api.build_request("/page/A", Vec::new(), HttpMethod::Get).unwrap();
    assert_eq!(q.url, "https://x.org/w/rest.php/v12/page/A");
    assert_eq!(q.user_agent, api.user_agent());
}

#[test]
fn build_request_content_type_per_method() {
    let api = api();
    let ct = |m| api.build_request("/p", Vec::new(), m).unwrap().content_type;
    assert_eq!(ct(HttpMethod::Get), None);
    assert_eq!(ct(HttpMethod::Post).as_deref(), Some("application/json"));
    assert_eq!(ct(HttpMethod::Put).as_deref(), Some("application/json"));
    assert_eq!(ct(HttpMethod::Delete).as_deref(), Some("application/json"));
    assert_eq!(ct(HttpMethod::Patch).as_deref(), Some("application/json-patch+json"));
}

#[test]
fn build_request_refuses_other_methods() {
    let api = api();
    for m in [HttpMethod::Head, HttpMethod::Options, HttpMethod::Connect, HttpMethod::Trace] {
        assert_eq!(
            api.build_request("/p", Vec::new(), m).unwrap_err(),
            RestApiError::UnsupportedMethod(m)
        );
    }
}

#[test]
fn build_request_refuses_bad_header_values() {
    let api = RestApi::builder("https://x.org/w/rest.php")
        .unwrap()
        .with_user_agent("bad\nagent")
        .build();
    assert_eq!(
        api.build_request("/p", Vec::new(), HttpMethod::Head).unwrap_err(),
        RestApiError::InvalidHeaderValue
    );
    let api = RestApi::builder("https://x.org/w/rest.php")
        .unwrap()
        .with_access_token("tok\u{7f}en")
        .build();
    assert_eq!(
        api.build_request("/p", Vec::new(), HttpMethod::Get).unwrap_err(),
        RestApiError::InvalidHeaderValue
    );
}

#[test]
fn build_request_accepts_tab_and_non_ascii_in_headers() {
    let api = RestApi::builder("https://x.org/w/rest.php")
        .unwrap()
        .with_user_agent("bot\tß")
        .with_access_token("abc")
        .build();
    let q = api.build_request("/p", Vec::new(), HttpMethod::Get).unwrap();
    assert_eq!(q.authorization.as_deref(), Some("Bearer abc"));
}

#[test]
fn html_flavor_tokens() {
    assert_eq!(HtmlFlavor::View.to_string(), "view");
    assert_eq!(HtmlFlavor::Stash.to_string(), "stash");
    assert_eq!(HtmlFlavor::Fragment.to_string(), "fragment");
    assert_eq!(HtmlFlavor::Edit.as_str(), "edit");
}

#[test]
fn filter_tokens() {
    assert_eq!(Filter::Anonymous.to_string(), "anonymous");
    assert_eq!(Filter::Bot.to_string(), "bot");
    assert_eq!(Filter::Reverted.to_string(), "reverted");
    assert_eq!(Filter::Minor.as_str(), "minor");
}

#[test]
fn history_filter_tokens() {
    let all = [
        (HistoryFilterExtended::Anonymous, "anonymous"),
        (HistoryFilterExtended::Temporary, "temporary"),
        (HistoryFilterExtended::Bot, "bot"),
        (HistoryFilterExtended::Editors, "editors"),
        (HistoryFilterExtended::Edits, "edits"),
        (HistoryFilterExtended::Minor, "minor"),
        (HistoryFilterExtended::Reverted, "reverted"),
        (HistoryFilterExtended::AnonEdits, "anonedits"),
        (HistoryFilterExtended::BotEdits, "botedits"),
        (HistoryFilterExtended::RevertedEdits, "revertededits"),
    ];
    for (f, t) in all {
        assert_eq!(f.to_string(), t);
        assert_eq!(f.to_string(), f.to_string());
        assert!(t.chars().all(|c| c.is_ascii_lowercase()));
    }
}

#[test]
fn required_text_present_and_missing() {
    let source = "'''Rust''' is a language; Mozilla sponsorship".to_string();
    assert_eq!(required_text(Some(source.clone())), Ok(source));
    assert_eq!(required_text(None), Err(RestApiError::MissingResults));
    assert_eq!(TextField::Source.key(), "source");
    assert_eq!(TextField::HtmlUrl.key(), "html_url");
    assert_eq!(TextField::Html.key(), "html");
}

#[test]
fn renewal_is_handed_out_once() {
    let mut api = RestApi::builder("https://meta.wikimedia.org/w/rest.php")
        .unwrap()
        .with_access_token("old")
        .with_oauth2_info("cid", "csecret")
        .with_access_token_renewal(60)
        .build();
    assert!(api.token().renewal_due(0));
    let q = api.begin_token_renewal(0).expect("renewal due");
    assert_eq!(q.method, HttpMethod::Post);
    assert_eq!(q.url, "https://meta.wikimedia.org/w/rest.php/oauth2/access_token");
    let p: Vec<(&str, &str)> = q.params.iter().map(|(k, v)| (k.as_str(), v.as_str())).collect();
    assert_eq!(
        p,
        vec![("grant_type", "client_credentials"), ("client_id", "cid"), ("client_secret", "csecret")]
    );
    assert!(api.token().is_renewing());
    assert!(api.begin_token_renewal(0).is_none());
    assert!(api.begin_token_renewal(1000).is_none());
    api.finish_token_renewal(Some("new".to_string()), 10);
    assert_eq!(api.get_edit_token(), Some("new".to_string()));
    assert!(!api.token().is_renewing());
    assert!(api.begin_token_renewal(70).is_none());
    assert!(api.begin_token_renewal(71).is_some());
}

#[test]
fn failed_renewal_keeps_old_token() {
    let mut api = RestApi::builder("https://x.org/w/rest.php")
        .unwrap()
        .with_access_token("old")
        .with_oauth2_info("cid", "csecret")
        .with_access_token_renewal(60)
        .build();
    assert!(api.begin_token_renewal(5).is_some());
    api.finish_token_renewal(None, 6);
    assert_eq!(api.get_edit_token(), Some("old".to_string()));
    assert!(api.begin_token_renewal(7).is_some());
}

#[test]
fn no_renewal_without_interval_or_credentials() {
    let mut t = BearerToken::new();
    t.set_access_token("a");
    assert!(!t.renewal_due(1000));
    t.set_renewal_interval(10);
    assert!(!t.renewal_due(1000));
    t.set_oauth2_info("id", "secret");
    assert!(t.renewal_due(1000));
    assert_eq!(t.begin_renewal(1000), Some(("id".to_string(), "secret".to_string())));
    assert_eq!(t.begin_renewal(1000), None);
    assert_eq!(t.get(), Some("a".to_string()));
}

#[test]
fn default_token_is_empty() {
    let t = BearerToken::default();
    assert_eq!(t.get(), None);
    assert!(!t.is_renewing());
}

#[test]
fn legacy_route_has_no_version_prefix() {
    let api = RestApi::builder("https://x.org/w/rest.php").unwrap().with_api_version(3).build();
    let q = api.build_request("/math/v0/popup/html/7", Vec::new(), HttpMethod::Get).unwrap();
    assert_eq!(q.url, "https://x.org/w/rest.php/math/v0/popup/html/7");
    let q = api.build_request("/search/page", Vec::new(), HttpMethod::Get).unwrap();
    assert_eq!(q.url, "https://x.org/w/rest.php/v3/search/page");
    let q = api.build_versioned_request("/page/v0/x", Vec::new(), HttpMethod::Get).unwrap();
    assert_eq!(q.url, "https://x.org/w/rest.php/v3/page/v0/x");
}

#[test]
fn renewal_steps() {
    let mut t = BearerToken::new();
    assert_eq!(t.renewal_step(0), RenewalStep::Proceed);
    t.set_oauth2_info("id", "secret");
    t.set_renewal_interval(30);
    assert_eq!(t.renewal_step(0), RenewalStep::Renew);
    assert!(t.begin_renewal(0).is_some());
    assert_eq!(t.renewal_step(0), RenewalStep::Wait);
    assert_eq!(t.renewal_step(1_000_000), RenewalStep::Wait);
    t.finish_renewal(Some("fresh".to_string()), 5);
    assert_eq!(t.renewal_step(35), RenewalStep::Proceed);
    assert_eq!(t.renewal_step(36), RenewalStep::Renew);
    assert_eq!(t.get(), Some("fresh".to_string()));
}
