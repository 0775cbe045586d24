use vstd::prelude::*;

use crate::bearer_token::{BearerToken, BearerTokenView};
use crate::error::RestApiError;
use crate::rest_api::{RestApi, RestApiView};
use crate::text::{contains_text, find_text, first_occurrence, join2, join3, occurs_at};

verus! {

/// The user agent of a session that sets none.
pub const DEFAULT_USER_AGENT: &'static str = "Rust MediaWiki REST API client; mediawiki_rest_api/0.1.0";

/// The API version of a session that sets none.
pub const WIKIBASE_REST_API_VERSION: u8 = 1;

/// The segment at which the versioned routes of the API begin.
pub open spec fn rest_segment() -> Seq<char> {
    "/rest.php"@
}

/// The position of the first `/rest.php` in `u`; meaningful where there is one.
pub open spec fn rest_segment_at(u: Seq<char>) -> int {
    choose|i: int| first_occurrence(u, rest_segment(), i)
}

/// The base URL that `u` gives: `u` up to and including its first `/rest.php`,
/// or nothing where `u` holds none.
pub open spec fn validated_url(u: Seq<char>) -> Option<Seq<char>> {
    if contains_text(u, rest_segment()) {
        Some(u.subrange(0, rest_segment_at(u) + rest_segment().len()))
    } else {
        None
    }
}

/// Two first occurrences are the same one.
proof fn lemma_first_occurrence_unique(h: Seq<char>, n: Seq<char>, i: int, j: int)
    requires
        first_occurrence(h, n, i),
        first_occurrence(h, n, j),
    ensures
        i == j,
{
}

/// An occurrence at `k` means there is a first one, at `k` or before.
proof fn lemma_first_occurrence_exists(h: Seq<char>, n: Seq<char>, k: int)
    requires
        occurs_at(h, n, k),
    ensures
        exists|i: int| 0 <= i <= k && first_occurrence(h, n, i),
    decreases k,
{
    if exists|j: int| 0 <= j < k && occurs_at(h, n, j) {
        let j = choose|j: int| 0 <= j < k && occurs_at(h, n, j);
        lemma_first_occurrence_exists(h, n, j);
    } else {
        assert(first_occurrence(h, n, k));
    }
}

/// Where `u` holds `/rest.php`, the base URL is `u` cut right after its first
/// `/rest.php`, whatever trails it; and validating that base URL again gives it
/// back unchanged.
pub proof fn lemma_validated_url_fixed_point(u: Seq<char>)
    requires
        contains_text(u, rest_segment()),
    ensures
        validated_url(u) matches Some(b) && {
            &&& b == u.subrange(0, rest_segment_at(u) + rest_segment().len())
            &&& first_occurrence(u, rest_segment(), rest_segment_at(u))
            &&& validated_url(b) == Some(b)
        },
{
    let n = rest_segment();
    let k = choose|k: int| occurs_at(u, n, k);
    lemma_first_occurrence_exists(u, n, k);
    let i = rest_segment_at(u);
    assert(first_occurrence(u, n, i));
    let b = u.subrange(0, i + n.len());
    assert(b.subrange(i, i + n.len()) =~= u.subrange(i, i + n.len()));
    assert(occurs_at(b, n, i));
    assert forall|j: int| 0 <= j < i implies !occurs_at(b, n, j) by {
        if occurs_at(b, n, j) {
            assert(b.subrange(j, j + n.len()) =~= u.subrange(j, j + n.len()));
            assert(occurs_at(u, n, j));
        }
    }
    assert(first_occurrence(b, n, i));
    assert(contains_text(b, n));
    lemma_first_occurrence_unique(b, n, i, rest_segment_at(b));
    assert(b.subrange(0, i + n.len()) =~= b);
}

/// Configuration of a session, set step by step and turned into a `RestApi` by `build`.
#[derive(Clone, Debug)]
pub struct RestApiBuilder {
    token: BearerToken,
    user_agent: Option<String>,
    api_url: String,
    api_version: Option<u8>,
    renewal_interval: Option<u64>,
}

/// A builder as plain values.
pub struct RestApiBuilderView {
    pub token: BearerTokenView,
    pub user_agent: Option<Seq<char>>,
    pub api_url: Seq<char>,
    pub api_version: Option<u8>,
    pub renewal_interval: Option<u64>,
}

impl View for RestApiBuilder {
    type V = RestApiBuilderView;

    closed spec fn view(&self) -> RestApiBuilderView {
        RestApiBuilderView {
            token: self.token@,
            user_agent: match self.user_agent {
                Some(s) => Some(s@),
                None => None,
            },
            api_url: self.api_url@,
            api_version: self.api_version,
            renewal_interval: self.renewal_interval,
        }
    }
}

/// A builder over base URL `u` with nothing else set.
pub open spec fn fresh_builder(u: Seq<char>) -> RestApiBuilderView {
    RestApiBuilderView {
        token: BearerTokenView::empty(),
        user_agent: None,
        api_url: u,
        api_version: None,
        renewal_interval: None,
    }
}

/// The base URL of a Wikimedia wiki of group `group` in language `language`.
pub open spec fn wiki_group_url(language: Seq<char>, group: Seq<char>) -> Seq<char> {
    "https://"@ + language + "."@ + group + ".org/w/rest.php"@
}

impl RestApiBuilderView {
    /// The session that `build` makes of this configuration, defaults filled in.
    pub open spec fn built(self) -> RestApiView {
        RestApiView {
            user_agent: match self.user_agent {
                Some(s) => s,
                None => DEFAULT_USER_AGENT@,
            },
            api_url: self.api_url,
            api_version: match self.api_version {
                Some(v) => v,
                None => WIKIBASE_REST_API_VERSION,
            },
            token: match self.renewal_interval {
                Some(secs) => self.token.with_renewal_interval(secs),
                None => self.token,
            },
        }
    }
}

/// The session built holds the token set last on the builder: neither a later
/// setting of the client credentials, the renewal interval, the user agent nor
/// the API version changes it.
pub proof fn lemma_session_edit_token(
    b: RestApiBuilderView,
    first: Seq<char>,
    last: Seq<char>,
    id: Seq<char>,
    secret: Seq<char>,
    secs: u64,
    user_agent: Seq<char>,
    version: u8,
)
    ensures
        ({
            let b1 = RestApiBuilderView { token: b.token.with_token(first), ..b };
            let b2 = RestApiBuilderView { token: b1.token.with_token(last), ..b1 };
            let b3 = RestApiBuilderView { token: b2.token.with_oauth2(id, secret), ..b2 };
            let b4 = RestApiBuilderView {
                renewal_interval: Some(secs),
                user_agent: Some(user_agent),
                api_version: Some(version),
                ..b3
            };
            b4.built().token.token == Some(last)
        }),
        fresh_builder(b.api_url).built().token.token is None,
{
}

impl RestApiBuilder {
    /// Cuts a base URL right after its first `/rest.php`; fails with
    /// `RestApiUrlInvalid`, carrying the input, exactly where there is none. The URL
    /// returned validates to itself.
    pub fn validate_api_url(api_url: &str) -> (r: Result<String, RestApiError>)
        ensures
            r is Err <==> !contains_text(api_url@, rest_segment()),
            match r {
                Ok(s) => validated_url(api_url@) == Some(s@) && validated_url(s@) == Some(s@),
                Err(e) => validated_url(api_url@) is None && (e matches RestApiError::RestApiUrlInvalid(
                    s,
                ) && s@ == api_url@),
            },
    {
        match find_text(api_url, "/rest.php") {
            Some(i) => {
                proof {
                    reveal_strlit("/rest.php");
                    assert(contains_text(api_url@, rest_segment()));
                    lemma_first_occurrence_unique(
                        api_url@,
                        rest_segment(),
                        i as int,
                        rest_segment_at(api_url@),
                    );
                }
                let base = api_url.substring_char(0, i);
                let r = join2(base, "/rest.php");
                assert(r@ =~= api_url@.subrange(0, i + rest_segment().len()));
                proof {
                    lemma_validated_url_fixed_point(api_url@);
                }
                Ok(r)
            },
            None => Err(RestApiError::RestApiUrlInvalid(String::from_str(api_url))),
        }
    }

    fn new_from_validated(api_url: String) -> (r: RestApiBuilder)
        ensures
            r@ == fresh_builder(api_url@),
    {
        RestApiBuilder {
            token: BearerToken::new(),
            user_agent: None,
            api_url,
            api_version: None,
            renewal_interval: None,
        }
    }

    /// A builder over a wiki of a Wikimedia group in a given language.
    fn for_wiki_group(language: &str, group: &str) -> (r: RestApiBuilder)
        ensures
            r@ == fresh_builder(wiki_group_url(language@, group@)),
    {
        let mut u = join3("https://", language, ".");
        u.append(group);
        u.append(".org/w/rest.php");
        RestApiBuilder::new_from_validated(u)
    }

    /// A builder over the base URL `api_url`, cut right after its first
    /// `/rest.php`. Fails with `RestApiUrlInvalid` exactly where there is none.
    pub fn new(api_url: &str) -> (r: Result<RestApiBuilder, RestApiError>)
        ensures
            match r {
                Ok(b) => validated_url(api_url@) matches Some(u) && b@ == fresh_builder(u),
                Err(e) => validated_url(api_url@) is None && (e matches RestApiError::RestApiUrlInvalid(
                    s,
                ) && s@ == api_url@),
            },
    {
        let u = RestApiBuilder::validate_api_url(api_url)?;
        Ok(RestApiBuilder::new_from_validated(u))
    }

    /// A builder over the Wikipedia in `language`.
    pub fn wikipedia(language: &str) -> (r: RestApiBuilder)
        ensures
            r@ == fresh_builder(wiki_group_url(language@, "wikipedia"@)),
    {
        RestApiBuilder::for_wiki_group(language, "wikipedia")
    }

    /// A builder over the Wiktionary in `language`.
    pub fn wikitionary(language: &str) -> (r: RestApiBuilder)
        ensures
            r@ == fresh_builder(wiki_group_url(language@, "wikitionary"@)),
    {
        RestApiBuilder::for_wiki_group(language, "wikitionary")
    }

    /// A builder over the Wikivoyage in `language`.
    pub fn wikivoyage(language: &str) -> (r: RestApiBuilder)
        ensures
            r@ == fresh_builder(wiki_group_url(language@, "wikivoyage"@)),
    {
        RestApiBuilder::for_wiki_group(language, "wikivoyage")
    }

    /// A builder over the Wikibooks in `language`.
    pub fn wikibooks(language: &str) -> (r: RestApiBuilder)
        ensures
            r@ == fresh_builder(wiki_group_url(language@, "wikibooks"@)),
    {
        RestApiBuilder::for_wiki_group(language, "wikibooks")
    }

    /// A builder over the Wikinews in `language`.
    pub fn wikinews(language: &str) -> (r: RestApiBuilder)
        ensures
            r@ == fresh_builder(wiki_group_url(language@, "wikinews"@)),
    {
        RestApiBuilder::for_wiki_group(language, "wikinews")
    }

    /// A builder over the Wikisource in `language`.
    pub fn wikisource(language: &str) -> (r: RestApiBuilder)
        ensures
            r@ == fresh_builder(wiki_group_url(language@, "wikisource"@)),
    {
        RestApiBuilder::for_wiki_group(language, "wikisource")
    }

    /// A builder over the Wikiversity in `language`.
    pub fn wikiversity(language: &str) -> (r: RestApiBuilder)
        ensures
            r@ == fresh_builder(wiki_group_url(language@, "wikiversity"@)),
    {
        RestApiBuilder::for_wiki_group(language, "wikiversity")
    }

    /// A builder over the Wikiquote in `language`.
    pub fn wikiquote(language: &str) -> (r: RestApiBuilder)
        ensures
            r@ == fresh_builder(wiki_group_url(language@, "wikiquote"@)),
    {
        RestApiBuilder::for_wiki_group(language, "wikiquote")
    }

    /// A builder over Wikimedia Commons.
    pub fn commons() -> (r: RestApiBuilder)
        ensures
            r@ == fresh_builder("https://commons.wikimedia.org/w/rest.php"@),
    {
        RestApiBuilder::new_from_validated(
            String::from_str("https://commons.wikimedia.org/w/rest.php"),
        )
    }

    /// A builder over Wikidata.
    pub fn wikidata() -> (r: RestApiBuilder)
        ensures
            r@ == fresh_builder("https://www.wikidata.org/w/rest.php"@),
    {
        RestApiBuilder::new_from_validated(String::from_str("https://www.wikidata.org/w/rest.php"))
    }

    /// A builder over Wikispecies.
    pub fn wikispecies() -> (r: RestApiBuilder)
        ensures
            r@ == fresh_builder("https://species.wikimedia.org/w/rest.php"@),
    {
        RestApiBuilder::new_from_validated(
            String::from_str("https://species.wikimedia.org/w/rest.php"),
        )
    }

    /// A builder over Meta-Wiki.
    pub fn meta() -> (r: RestApiBuilder)
        ensures
            r@ == fresh_builder("https://meta.wikimedia.org/w/rest.php"@),
    {
        RestApiBuilder::new_from_validated(String::from_str("https://meta.wikimedia.org/w/rest.php"))
    }

    /// The session of this configuration: the user agent defaults to
    /// `DEFAULT_USER_AGENT`, the API version to 1, and a renewal interval, where
    /// one is set, goes to the credential.
    pub fn build(self) -> (r: RestApi)
        ensures
            r@ == self@.built(),
    {
        let mut token = self.token;
        if let Some(secs) = self.renewal_interval {
            token.set_renewal_interval(secs);
        }
        let user_agent = match self.user_agent {
            Some(s) => s,
            None => String::from_str(DEFAULT_USER_AGENT),
        };
        let api_version = match self.api_version {
            Some(v) => v,
            None => WIKIBASE_REST_API_VERSION,
        };
        RestApi::new(user_agent, self.api_url, api_version, token)
    }

    /// Sets the OAuth2 bearer token.
    pub fn with_access_token(self, access_token: &str) -> (r: RestApiBuilder)
        ensures
            r@ == (RestApiBuilderView { token: self@.token.with_token(access_token@), ..self@ }),
    {
        let mut b = self;
        b.token.set_access_token(access_token);
        b
    }

    /// Sets the OAuth2 client id and client secret.
    pub fn with_oauth2_info(self, client_id: &str, client_secret: &str) -> (r: RestApiBuilder)
        ensures
            r@ == (RestApiBuilderView {
                token: self@.token.with_oauth2(client_id@, client_secret@),
                ..self@
            }),
    {
        let mut b = self;
        b.token.set_oauth2_info(client_id, client_secret);
        b
    }

    /// Sets the interval between token renewals, in seconds.
    pub fn with_access_token_renewal(self, renewal_interval_secs: u64) -> (r: RestApiBuilder)
        ensures
            r@ == (RestApiBuilderView { renewal_interval: Some(renewal_interval_secs), ..self@ }),
    {
        let mut b = self;
        b.renewal_interval = Some(renewal_interval_secs);
        b
    }

    /// Sets the API version.
    pub fn with_api_version(self, api_version: u8) -> (r: RestApiBuilder)
        ensures
            r@ == (RestApiBuilderView { api_version: Some(api_version), ..self@ }),
    {
        let mut b = self;
        b.api_version = Some(api_version);
        b
    }

    /// Sets the user agent.
    pub fn with_user_agent(self, user_agent: &str) -> (r: RestApiBuilder)
        ensures
            r@ == (RestApiBuilderView { user_agent: Some(user_agent@), ..self@ }),
    {
        let mut b = self;
        b.user_agent = Some(String::from_str(user_agent));
        b
    }

    /// The base URL.
    pub fn api_url(&self) -> (r: &str)
        ensures
            r@ == self@.api_url,
    {
        self.api_url.as_str()
    }
}

impl RestApi {
    /// A builder over the base URL `api_url`; see `RestApiBuilder::new`.
    pub fn builder(api_url: &str) -> (r: Result<RestApiBuilder, RestApiError>)
        ensures
            match r {
                Ok(b) => validated_url(api_url@) matches Some(u) && b@ == fresh_builder(u),
                Err(e) => validated_url(api_url@) is None && (e matches RestApiError::RestApiUrlInvalid(
                    s,
                ) && s@ == api_url@),
            },
    {
        RestApiBuilder::new(api_url)
    }
}

} // verus!
