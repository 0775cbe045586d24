use vstd::prelude::*;

use crate::bearer_token::{opt_text, BearerToken, BearerTokenView};
use crate::encoding::{header_text_ok, header_value_ok};
use crate::error::RestApiError;
use crate::text::{contains_text, decimal, decimal_text, find_text, join2, join3};

verus! {

/// An HTTP method.
#[derive(Clone, Copy, Debug, PartialEq, Eq, Structural)]
pub enum HttpMethod {
    Get,
    Post,
    Put,
    Patch,
    Delete,
    Head,
    Options,
    Connect,
    Trace,
}

/// The methods that requests of this library may use.
pub open spec fn method_supported(m: HttpMethod) -> bool {
    m is Get || m is Post || m is Put || m is Patch || m is Delete
}

/// A request, fully described: what the HTTP layer sends, and nothing more.
///
/// `params` go into the query string of a GET request and into a form body
/// otherwise; a `body`, where present, replaces that form body.
#[derive(Clone, Debug)]
pub struct ApiRequest {
    pub method: HttpMethod,
    pub url: String,
    pub user_agent: String,
    pub authorization: Option<String>,
    pub accept: Option<String>,
    pub content_type: Option<String>,
    pub params: Vec<(String, String)>,
    pub body: Option<String>,
}

/// A request as plain values.
pub struct RequestView {
    pub method: HttpMethod,
    pub url: Seq<char>,
    pub user_agent: Seq<char>,
    pub authorization: Option<Seq<char>>,
    pub accept: Option<Seq<char>>,
    pub content_type: Option<Seq<char>>,
    pub params: Seq<(Seq<char>, Seq<char>)>,
    pub body: Option<Seq<char>>,
}

/// Name and value pairs as plain values.
pub open spec fn pairs_view(v: Seq<(String, String)>) -> Seq<(Seq<char>, Seq<char>)> {
    v.map_values(|p: (String, String)| (p.0@, p.1@))
}

impl View for ApiRequest {
    type V = RequestView;

    open spec fn view(&self) -> RequestView {
        RequestView {
            method: self.method,
            url: self.url@,
            user_agent: self.user_agent@,
            authorization: opt_text(self.authorization),
            accept: opt_text(self.accept),
            content_type: opt_text(self.content_type),
            params: pairs_view(self.params@),
            body: opt_text(self.body),
        }
    }
}

/// The outcome of building a request, as plain values.
pub open spec fn request_result_view(r: Result<ApiRequest, RestApiError>) -> Result<
    RequestView,
    RestApiError,
> {
    match r {
        Ok(q) => Ok(q@),
        Err(e) => Err(e),
    }
}

/// The request of an outcome, with `body` as its body.
pub open spec fn with_body(o: Result<RequestView, RestApiError>, body: Seq<char>) -> Result<
    RequestView,
    RestApiError,
> {
    match o {
        Ok(q) => Ok(RequestView { body: Some(body), ..q }),
        Err(e) => Err(e),
    }
}

/// The request of an outcome, with a JSON `body`, `Content-Type: application/json`
/// and the `Accept` header `accept` (none where `accept` is `None`).
pub open spec fn with_json_body(
    o: Result<RequestView, RestApiError>,
    body: Seq<char>,
    accept: Option<Seq<char>>,
) -> Result<RequestView, RestApiError> {
    match o {
        Ok(q) => Ok(
            RequestView {
                body: Some(body),
                content_type: Some("application/json"@),
                accept,
                ..q
            },
        ),
        Err(e) => Err(e),
    }
}

/// Appends the parameter `name` with value `value`.
pub(crate) fn push_param(params: &mut Vec<(String, String)>, name: &str, value: String)
    ensures
        pairs_view(final(params)@) == pairs_view(old(params)@).push((name@, value@)),
{
    let ghost before = params@;
    params.push((String::from_str(name), value));
    assert(pairs_view(params@) =~= pairs_view(before).push((name@, value@)));
}

/// The session: base URL, API version, user agent and the bearer token credential.
#[derive(Clone, Debug)]
pub struct RestApi {
    user_agent: String,
    api_url: String,
    api_version: u8,
    token: BearerToken,
}

/// A session as plain values.
pub struct RestApiView {
    pub user_agent: Seq<char>,
    pub api_url: Seq<char>,
    pub api_version: u8,
    pub token: BearerTokenView,
}

impl View for RestApi {
    type V = RestApiView;

    closed spec fn view(&self) -> RestApiView {
        RestApiView {
            user_agent: self.user_agent@,
            api_url: self.api_url@,
            api_version: self.api_version,
            token: self.token@,
        }
    }
}

/// The `Content-Type` that a request of method `m` carries.
pub open spec fn content_type_for(m: HttpMethod) -> Option<Seq<char>> {
    match m {
        HttpMethod::Get => None,
        HttpMethod::Patch => Some("application/json-patch+json"@),
        _ => Some("application/json"@),
    }
}

impl RestApiView {
    /// The path of a versioned route below the base URL: `/v`, the API version, then `path`.
    pub open spec fn versioned_path(self, path: Seq<char>) -> Seq<char> {
        "/v"@ + decimal(self.api_version as nat) + path
    }

    /// The URL of a route: versioned routes get the version prefix, the legacy
    /// unversioned route goes right below the base URL.
    pub open spec fn route_url(self, path: Seq<char>, versioned: bool) -> Seq<char> {
        if versioned {
            self.api_url + self.versioned_path(path)
        } else {
            self.api_url + path
        }
    }

    /// The `Authorization` header that the current token gives.
    pub open spec fn authorization(self) -> Option<Seq<char>> {
        match self.token.token {
            Some(t) => Some("Bearer "@ + t),
            None => None,
        }
    }

    /// The user agent and the bearer token can stand in header values.
    pub open spec fn headers_ok(self) -> bool {
        &&& header_text_ok(self.user_agent)
        &&& (self.authorization() matches Some(a) ==> header_text_ok(a))
    }

    /// The request for route `path` with parameters `params` and method `method`.
    pub open spec fn request(
        self,
        path: Seq<char>,
        versioned: bool,
        params: Seq<(Seq<char>, Seq<char>)>,
        method: HttpMethod,
    ) -> RequestView {
        RequestView {
            method,
            url: self.route_url(path, versioned),
            user_agent: self.user_agent,
            authorization: self.authorization(),
            accept: Some("application/json"@),
            content_type: content_type_for(method),
            params,
            body: None,
        }
    }

    /// What building that request gives: an invalid header value is reported
    /// first, then an unsupported method.
    pub open spec fn outcome_at(
        self,
        path: Seq<char>,
        versioned: bool,
        params: Seq<(Seq<char>, Seq<char>)>,
        method: HttpMethod,
    ) -> Result<RequestView, RestApiError> {
        if !self.headers_ok() {
            Err(RestApiError::InvalidHeaderValue)
        } else if !method_supported(method) {
            Err(RestApiError::UnsupportedMethod(method))
        } else {
            Ok(self.request(path, versioned, params, method))
        }
    }

    /// What building the request for the versioned route `path` gives.
    pub open spec fn request_outcome(
        self,
        path: Seq<char>,
        params: Seq<(Seq<char>, Seq<char>)>,
        method: HttpMethod,
    ) -> Result<RequestView, RestApiError> {
        self.outcome_at(path, true, params, method)
    }

    /// What building the request for the legacy unversioned route `path` gives.
    pub open spec fn legacy_request_outcome(
        self,
        path: Seq<char>,
        params: Seq<(Seq<char>, Seq<char>)>,
        method: HttpMethod,
    ) -> Result<RequestView, RestApiError> {
        self.outcome_at(path, false, params, method)
    }

    /// The token exchange that renews the bearer token with the client credentials.
    pub open spec fn renewal_request(self, id: Seq<char>, secret: Seq<char>) -> RequestView {
        RequestView {
            method: HttpMethod::Post,
            url: self.api_url + "/oauth2/access_token"@,
            user_agent: self.user_agent,
            authorization: None,
            accept: Some("application/json"@),
            content_type: None,
            params: seq![
                ("grant_type"@, "client_credentials"@),
                ("client_id"@, id),
                ("client_secret"@, secret),
            ],
            body: None,
        }
    }
}

impl RestApi {
    /// A session over a validated base URL.
    pub(crate) fn new(user_agent: String, api_url: String, api_version: u8, token: BearerToken) -> (r:
        RestApi)
        ensures
            r@ == (RestApiView {
                user_agent: user_agent@,
                api_url: api_url@,
                api_version,
                token: token@,
            }),
    {
        RestApi { user_agent, api_url, api_version, token }
    }

    /// The current bearer token, if any: what content-changing calls need.
    pub fn get_edit_token(&self) -> (r: Option<String>)
        ensures
            opt_text(r) == self@.token.token,
    {
        self.token.get()
    }

    /// The user agent.
    pub fn user_agent(&self) -> (r: &str)
        ensures
            r@ == self@.user_agent,
    {
        self.user_agent.as_str()
    }

    /// The API version.
    pub fn api_version(&self) -> (r: u8)
        ensures
            r == self@.api_version,
    {
        self.api_version
    }

    /// The base URL, ending in `/rest.php`.
    pub fn api_url(&self) -> (r: &str)
        ensures
            r@ == self@.api_url,
    {
        self.api_url.as_str()
    }

    /// The credential.
    pub fn token(&self) -> (r: &BearerToken)
        ensures
            r@ == self@.token,
    {
        &self.token
    }

    /// The URL of route `path`, with the version prefix where `versioned` is set.
    fn route_url(&self, path: &str, versioned: bool) -> (r: String)
        ensures
            r@ == self@.route_url(path@, versioned),
    {
        if versioned {
            let below = join3("/v", decimal_text(self.api_version as usize).as_str(), path);
            join2(self.api_url.as_str(), below.as_str())
        } else {
            join2(self.api_url.as_str(), path)
        }
    }

    /// Builds the request for `path` with parameters `params` and method
    /// `method`: the URL (version-prefixed unless `path` already denotes a legacy
    /// unversioned root, one holding `/v0/`), the user agent,
    /// `Accept: application/json`, the `Content-Type` of the method and the bearer
    /// token where one is held.
    pub fn build_request(&self, path: &str, params: Vec<(String, String)>, method: HttpMethod) -> (r:
        Result<ApiRequest, RestApiError>)
        ensures
            request_result_view(r) == self@.outcome_at(
                path@,
                !contains_text(path@, "/v0/"@),
                pairs_view(params@),
                method,
            ),
    {
        let versioned = match find_text(path, "/v0/") {
            Some(_) => false,
            None => true,
        };
        self.build_request_at(path, versioned, params, method)
    }

    /// Builds the request for a route of the versioned API, as `build_request`
    /// does, but with the version prefix whatever text `path` holds: the routes
    /// that carry a title or a query take this one, so that no title can make
    /// its route pass for a legacy one.
    pub fn build_versioned_request(
        &self,
        path: &str,
        params: Vec<(String, String)>,
        method: HttpMethod,
    ) -> (r: Result<ApiRequest, RestApiError>)
        ensures
            request_result_view(r) == self@.request_outcome(path@, pairs_view(params@), method),
    {
        self.build_request_at(path, true, params, method)
    }

    fn build_request_at(
        &self,
        path: &str,
        versioned: bool,
        params: Vec<(String, String)>,
        method: HttpMethod,
    ) -> (r: Result<ApiRequest, RestApiError>)
        ensures
            request_result_view(r) == self@.outcome_at(path@, versioned, pairs_view(params@), method),
    {
        if !header_value_ok(self.user_agent.as_str()) {
            return Err(RestApiError::InvalidHeaderValue);
        }
        let authorization = match self.token.get() {
            Some(t) => {
                let a = join2("Bearer ", t.as_str());
                if !header_value_ok(a.as_str()) {
                    return Err(RestApiError::InvalidHeaderValue);
                }
                Some(a)
            },
            None => None,
        };
        let content_type = match method {
            HttpMethod::Get => None,
            HttpMethod::Patch => Some(String::from_str("application/json-patch+json")),
            HttpMethod::Post | HttpMethod::Put | HttpMethod::Delete => Some(
                String::from_str("application/json"),
            ),
            _ => {
                return Err(RestApiError::UnsupportedMethod(method));
            },
        };
        let r = ApiRequest {
            method,
            url: self.route_url(path, versioned),
            user_agent: self.user_agent.clone(),
            authorization,
            accept: Some(String::from_str("application/json")),
            content_type,
            params,
            body: None,
        };
        Ok(r)
    }

    /// Claims the token renewal owed at time `now`, if one is owed, and returns the
    /// token exchange to perform. Until `finish_token_renewal` reports its outcome,
    /// no other caller is handed a renewal.
    pub fn begin_token_renewal(&mut self, now: u64) -> (r: Option<ApiRequest>)
        ensures
            old(self)@.token.renewal_due(now) ==> {
                &&& final(self)@ == (RestApiView { token: old(self)@.token.claimed(), ..old(self)@ })
                &&& (r matches Some(q) && old(self)@.token.oauth2 matches Some(c) && q@
                    == old(self)@.renewal_request(c.0, c.1))
            },
            !old(self)@.token.renewal_due(now) ==> final(self)@ == old(self)@ && r is None,
    {
        match self.token.begin_renewal(now) {
            Some((id, secret)) => {
                let mut params: Vec<(String, String)> = Vec::new();
                params.push((String::from_str("grant_type"), String::from_str("client_credentials")));
                params.push((String::from_str("client_id"), id));
                params.push((String::from_str("client_secret"), secret));
                let q = ApiRequest {
                    method: HttpMethod::Post,
                    url: join2(self.api_url.as_str(), "/oauth2/access_token"),
                    user_agent: self.user_agent.clone(),
                    authorization: None,
                    accept: Some(String::from_str("application/json")),
                    content_type: None,
                    params,
                    body: None,
                };
                assert(q@.params =~= seq![
                    ("grant_type"@, "client_credentials"@),
                    ("client_id"@, id@),
                    ("client_secret"@, secret@),
                ]);
                Some(q)
            },
            None => None,
        }
    }

    /// Ends the token renewal in flight: `outcome` is the new token, or `None`
    /// when the exchange failed, in which case the old token stays in use.
    pub fn finish_token_renewal(&mut self, outcome: Option<String>, now: u64)
        ensures
            final(self)@ == (RestApiView {
                token: old(self)@.token.renewed(opt_text(outcome), now),
                ..old(self)@
            }),
    {
        self.token.finish_renewal(outcome, now);
    }
}

} // verus!
