//! The FreshBooks API client's state and decisions: OAuth URLs and request
//! bodies, when the access token must be refreshed, how a response status is
//! judged, where the account id is found, and the errors it reports.

use vstd::prelude::*;
use crate::config::Config;
use crate::json::{
    array_in, field_of, member, member_in, no_members, push_member, str_in, string_value, view_items, Json,
    JsonV,
};
use crate::text::{decimal, push_char, push_decimal, push_str};

verus! {

/// The base URL of the FreshBooks API.
pub const FB_API_BASE: &'static str = "https://api.freshbooks.com";

/// The FreshBooks OAuth authorization page.
pub const FB_AUTH_URL: &'static str = "https://auth.freshbooks.com/oauth/authorize";

/// How old, in whole seconds, an access token may be before it is refreshed
/// (11 hours; FreshBooks tokens last 12).
pub const REFRESH_AFTER_SECS: i64 = 39600;

/// The reason phrase that the `http` crate (through `reqwest`) gives a status
/// code, if it has one.
pub uninterp spec fn canonical_reason(code: u16) -> Option<Seq<char>>;

/// `reqwest::StatusCode::canonical_reason` of the status built by
/// `reqwest::StatusCode::from_u16`: the standard reason phrase of the code.
/// The contract names the phrase and does not list the table.
#[verifier::external_body]
fn status_reason(code: u16) -> (r: Option<String>)
    requires
        100 <= code <= 999,
    ensures
        match r {
            Some(s) => canonical_reason(code) == Some(s@),
            None => canonical_reason(code) is None,
        },
{
    match reqwest::StatusCode::from_u16(code) {
        Ok(status) => match status.canonical_reason() {
            Some(s) => Some(s.to_owned()),
            None => None,
        },
        Err(_) => None,
    }
}

/// `reqwest::StatusCode::is_success` of the status built by
/// `reqwest::StatusCode::from_u16`: whether the code lies in 200..=299.
#[verifier::external_body]
fn status_is_success(code: u16) -> (r: bool)
    requires
        100 <= code <= 999,
    ensures
        r == (200 <= code < 300),
{
    match reqwest::StatusCode::from_u16(code) {
        Ok(status) => status.is_success(),
        Err(_) => false,
    }
}

/// An error of a FreshBooks API call.
pub enum ApiError {
    /// The HTTP request failed; the text describes why.
    Reqwest(String),
    /// FreshBooks answered with a status that is not a success.
    Api { status: u16, body: String },
    /// No token has been obtained yet.
    NoToken,
    /// Any other failure, with its message.
    Other(String),
}

/// How an HTTP status is shown: its code, a space, and its reason phrase
/// (or a note that the code is unknown).
pub open spec fn status_line_of(code: u16, reason: Option<Seq<char>>) -> Seq<char> {
    decimal(code as nat) + seq![' '] + match reason {
        Some(r) => r,
        None => "<unknown status code>"@,
    }
}

/// How an HTTP status is shown, with the reason phrase that `reqwest` gives it.
pub open spec fn status_text(code: u16) -> Seq<char> {
    status_line_of(code, canonical_reason(code))
}

/// How an HTTP status with the reason phrase `reason` is shown.
pub fn status_line(code: u16, reason: Option<&str>) -> (r: String)
    ensures
        r@ == status_line_of(code, crate::json::str_view(reason)),
{
    let mut out = String::new();
    push_decimal(&mut out, code as u64);
    push_char(&mut out, ' ');
    match reason {
        Some(t) => push_str(&mut out, t),
        None => push_str(&mut out, "<unknown status code>"),
    }
    assert(out@ =~= status_line_of(code, crate::json::str_view(reason)));
    out
}

/// The message of an API error.
pub open spec fn error_text(e: ApiError) -> Seq<char> {
    match e {
        ApiError::Reqwest(t) => "HTTP request failed: "@ + t@,
        ApiError::Api { status, body } => "FreshBooks API error ("@ + status_text(status) + "): "@
            + body@,
        ApiError::NoToken => "Not authenticated. Use get_auth_url and exchange_code tools first."@,
        ApiError::Other(t) => t@,
    }
}

impl ApiError {
    /// An error whose status, if it has one, is a valid HTTP status code.
    pub open spec fn wf(&self) -> bool {
        match self {
            ApiError::Api { status, .. } => 100 <= *status <= 999,
            _ => true,
        }
    }

    /// The message of the error.
    pub fn message(&self) -> (r: String)
        requires
            self.wf(),
        ensures
            r@ == error_text(*self),
    {
        match self {
            ApiError::Reqwest(t) => {
                let mut out = "HTTP request failed: ".to_owned();
                push_str(&mut out, t.as_str());
                out
            },
            ApiError::Api { status, body } => {
                let mut out = "FreshBooks API error (".to_owned();
                let reason = status_reason(*status);
                let line = match &reason {
                    Some(t) => status_line(*status, Some(t.as_str())),
                    None => status_line(*status, None),
                };
                push_str(&mut out, line.as_str());
                push_str(&mut out, "): ");
                push_str(&mut out, body.as_str());
                assert(out@ =~= error_text(*self));
                out
            },
            ApiError::NoToken => "Not authenticated. Use get_auth_url and exchange_code tools first.".to_owned(),
            ApiError::Other(t) => t.clone(),
        }
    }
}

/// Judges a response by its status: a success hands on the body to be read
/// as JSON, any other status is an API error carrying the body.
pub fn check_status(status: u16, body: String) -> (r: Result<String, ApiError>)
    requires
        100 <= status <= 999,
    ensures
        r == if 200 <= status < 300 {
            Ok::<String, ApiError>(body)
        } else {
            Err(ApiError::Api { status, body })
        },
        r matches Err(e) ==> e.wf(),
{
    if status_is_success(status) {
        Ok(body)
    } else {
        Err(ApiError::Api { status, body })
    }
}

/// The URL of an API path.
pub fn api_url(path: &str) -> (r: String)
    ensures
        r@ == FB_API_BASE@ + path@,
{
    let mut out = FB_API_BASE.to_owned();
    push_str(&mut out, path);
    out
}

/// The path of the OAuth token endpoint.
pub const TOKEN_PATH: &'static str = "/auth/oauth/token";

/// The path of the authenticated user's profile.
pub const PROFILE_PATH: &'static str = "/auth/api/v1/users/me";

/// The value of the `Authorization` header for an access token.
pub fn bearer(token: &str) -> (r: String)
    ensures
        r@ == "Bearer "@ + token@,
{
    let mut out = "Bearer ".to_owned();
    push_str(&mut out, token);
    out
}

/// The first membership whose business names an account id, and that id.
pub open spec fn first_account_id(memberships: Seq<JsonV>) -> Option<Seq<char>>
    decreases memberships.len(),
{
    if memberships.len() == 0 {
        None
    } else {
        match str_in(member_in(member(memberships[0], "business"@), "account_id"@)) {
            Some(id) => Some(id),
            None => first_account_id(memberships.drop_first()),
        }
    }
}

/// The account id that a `/users/me` answer names: the first business
/// membership with a string `account_id`.
pub open spec fn profile_account_id(data: JsonV) -> Option<Seq<char>> {
    match array_in(member_in(member(data, "response"@), "business_memberships"@)) {
        Some(ms) => first_account_id(ms),
        None => None,
    }
}

/// Finds the account id in the answer to `/users/me`.
pub fn account_id_from_profile(data: &Json) -> (r: Result<String, ApiError>)
    ensures
        match profile_account_id(data@) {
            Some(id) => r matches Ok(s) && s@ == id,
            None => r matches Err(ApiError::Other(m)) && m@
                == "Could not find account_id in /users/me response"@,
        },
{
    let not_found = ApiError::Other("Could not find account_id in /users/me response".to_owned());
    let response = data.get("response");
    let memberships = crate::json::get_in(response, "business_memberships");
    let items = match memberships {
        Some(m) => match m.as_array() {
            Some(items) => items,
            None => return Err(not_found),
        },
        None => return Err(not_found),
    };
    let ghost ms = view_items(items@);
    proof {
        crate::json::lemma_view_items(items@);
        assert(ms.skip(0) =~= ms);
    }
    let n = items.len();
    let mut i: usize = 0;
    while i < n
        invariant
            n == items@.len(),
            ms == view_items(items@),
            ms.len() == n,
            forall|k: int| 0 <= k < n ==> #[trigger] ms[k] == items@[k]@,
            i <= n,
            profile_account_id(data@) == first_account_id(ms.skip(i as int)),
            not_found matches ApiError::Other(m) && m@ == "Could not find account_id in /users/me response"@,
        decreases n - i,
    {
        let m = &items[i];
        assert(ms.skip(i as int)[0] == ms[i as int]);
        let business = m.get("business");
        let id = crate::json::str_at(crate::json::get_in(business, "account_id"));
        match id {
            Some(s) => {
                return Ok(s.to_owned());
            },
            None => {},
        }
        assert(ms.skip(i as int).drop_first() =~= ms.skip(i as int + 1));
        i = i + 1;
    }
    Err(not_found)
}


/// The OAuth tokens that FreshBooks issued.
pub struct TokenData {
    pub access_token: String,
    pub refresh_token: String,
    pub expires_in: Option<u64>,
    pub scope: Option<String>,
}

/// What a request must do about its access token.
pub enum TokenStep {
    /// The access token is fresh: use it.
    Ready(String),
    /// The access token is too old: obtain a new one with this refresh token.
    Refresh(String),
    /// There is no token: the user must authorize first.
    Missing,
}

/// The step for a token of age `elapsed_secs` (whole seconds since it was
/// saved), if there is a token.
pub open spec fn token_step_for(token: Option<TokenData>, elapsed_secs: i64) -> TokenStep {
    match token {
        None => TokenStep::Missing,
        Some(t) => if elapsed_secs < REFRESH_AFTER_SECS {
            TokenStep::Ready(t.access_token)
        } else {
            TokenStep::Refresh(t.refresh_token)
        },
    }
}

/// The OAuth authorization URL for a client id and redirect URI.
pub open spec fn auth_url_for(client_id: Seq<char>, redirect_uri: Seq<char>) -> Seq<char> {
    FB_AUTH_URL@ + "?response_type=code&client_id="@ + client_id + "&redirect_uri="@ + redirect_uri
}

/// The body of a token request: the grant, the credentials, the grant's own
/// member, and the redirect URI.
pub open spec fn token_request(
    grant: Seq<char>,
    client_id: Seq<char>,
    client_secret: Seq<char>,
    key: Seq<char>,
    value: Seq<char>,
    redirect_uri: Seq<char>,
) -> JsonV {
    JsonV::Object(
        no_members().push(("grant_type"@, JsonV::Str(grant))).push(
            ("client_id"@, JsonV::Str(client_id)),
        ).push(("client_secret"@, JsonV::Str(client_secret))).push((key, JsonV::Str(value))).push(
            ("redirect_uri"@, JsonV::Str(redirect_uri)),
        ),
    )
}

/// A token request names its grant, the client's id and secret, the
/// grant's own member (the code or the refresh token) and the redirect URI,
/// each under its own name.
pub proof fn law_token_request_members(
    grant: Seq<char>,
    client_id: Seq<char>,
    client_secret: Seq<char>,
    key: Seq<char>,
    value: Seq<char>,
    redirect_uri: Seq<char>,
)
    requires
        key != "grant_type"@,
        key != "client_id"@,
        key != "client_secret"@,
        key != "redirect_uri"@,
    ensures
        ({
            let body = token_request(grant, client_id, client_secret, key, value, redirect_uri);
            &&& member(body, "grant_type"@) == Some(JsonV::Str(grant))
            &&& member(body, "client_id"@) == Some(JsonV::Str(client_id))
            &&& member(body, "client_secret"@) == Some(JsonV::Str(client_secret))
            &&& member(body, key) == Some(JsonV::Str(value))
            &&& member(body, "redirect_uri"@) == Some(JsonV::Str(redirect_uri))
        }),
{
    reveal_strlit("grant_type");
    reveal_strlit("client_id");
    reveal_strlit("client_secret");
    reveal_strlit("redirect_uri");
    assert("grant_type"@.len() == 10);
    assert("client_id"@.len() == 9);
    assert("client_secret"@.len() == 13);
    assert("redirect_uri"@.len() == 12);
    let f0 = no_members();
    let f1 = f0.push(("grant_type"@, JsonV::Str(grant)));
    let f2 = f1.push(("client_id"@, JsonV::Str(client_id)));
    let f3 = f2.push(("client_secret"@, JsonV::Str(client_secret)));
    let f4 = f3.push((key, JsonV::Str(value)));
    assert(field_of(f0, "grant_type"@) is None);
    assert(field_of(f0, "client_id"@) is None);
    assert(field_of(f0, "client_secret"@) is None);
    assert(field_of(f0, key) is None);
    assert(field_of(f0, "redirect_uri"@) is None);
    crate::json::lemma_field_of_with_opt(f0, "grant_type"@, Some(JsonV::Str(grant)), "grant_type"@);
    crate::json::lemma_field_of_with_opt(f1, "client_id"@, Some(JsonV::Str(client_id)), "grant_type"@);
    crate::json::lemma_field_of_with_opt(f2, "client_secret"@, Some(JsonV::Str(client_secret)), "grant_type"@);
    crate::json::lemma_field_of_with_opt(f3, key, Some(JsonV::Str(value)), "grant_type"@);
    crate::json::lemma_field_of_with_opt(f4, "redirect_uri"@, Some(JsonV::Str(redirect_uri)), "grant_type"@);
    crate::json::lemma_field_of_with_opt(f0, "grant_type"@, Some(JsonV::Str(grant)), "client_id"@);
    crate::json::lemma_field_of_with_opt(f1, "client_id"@, Some(JsonV::Str(client_id)), "client_id"@);
    crate::json::lemma_field_of_with_opt(f2, "client_secret"@, Some(JsonV::Str(client_secret)), "client_id"@);
    crate::json::lemma_field_of_with_opt(f3, key, Some(JsonV::Str(value)), "client_id"@);
    crate::json::lemma_field_of_with_opt(f4, "redirect_uri"@, Some(JsonV::Str(redirect_uri)), "client_id"@);
    crate::json::lemma_field_of_with_opt(f0, "grant_type"@, Some(JsonV::Str(grant)), "client_secret"@);
    crate::json::lemma_field_of_with_opt(f1, "client_id"@, Some(JsonV::Str(client_id)), "client_secret"@);
    crate::json::lemma_field_of_with_opt(f2, "client_secret"@, Some(JsonV::Str(client_secret)), "client_secret"@);
    crate::json::lemma_field_of_with_opt(f3, key, Some(JsonV::Str(value)), "client_secret"@);
    crate::json::lemma_field_of_with_opt(f4, "redirect_uri"@, Some(JsonV::Str(redirect_uri)), "client_secret"@);
    crate::json::lemma_field_of_with_opt(f0, "grant_type"@, Some(JsonV::Str(grant)), key);
    crate::json::lemma_field_of_with_opt(f1, "client_id"@, Some(JsonV::Str(client_id)), key);
    crate::json::lemma_field_of_with_opt(f2, "client_secret"@, Some(JsonV::Str(client_secret)), key);
    crate::json::lemma_field_of_with_opt(f3, key, Some(JsonV::Str(value)), key);
    crate::json::lemma_field_of_with_opt(f4, "redirect_uri"@, Some(JsonV::Str(redirect_uri)), key);
    crate::json::lemma_field_of_with_opt(f0, "grant_type"@, Some(JsonV::Str(grant)), "redirect_uri"@);
    crate::json::lemma_field_of_with_opt(f1, "client_id"@, Some(JsonV::Str(client_id)), "redirect_uri"@);
    crate::json::lemma_field_of_with_opt(f2, "client_secret"@, Some(JsonV::Str(client_secret)), "redirect_uri"@);
    crate::json::lemma_field_of_with_opt(f3, key, Some(JsonV::Str(value)), "redirect_uri"@);
    crate::json::lemma_field_of_with_opt(f4, "redirect_uri"@, Some(JsonV::Str(redirect_uri)), "redirect_uri"@);
}

/// The state of the FreshBooks API client: its credentials, the account it
/// works in once known, the current token, and where the token is saved.
pub struct FreshBooksClient {
    client_id: String,
    client_secret: String,
    redirect_uri: String,
    account_id: Option<String>,
    token: Option<TokenData>,
    token_path: String,
}

impl FreshBooksClient {
    pub closed spec fn client_id_view(&self) -> Seq<char> {
        self.client_id@
    }

    pub closed spec fn client_secret_view(&self) -> Seq<char> {
        self.client_secret@
    }

    pub closed spec fn redirect_uri_view(&self) -> Seq<char> {
        self.redirect_uri@
    }

    pub closed spec fn account_id_view(&self) -> Option<Seq<char>> {
        match self.account_id {
            Some(a) => Some(a@),
            None => None,
        }
    }

    pub closed spec fn token_view(&self) -> Option<TokenData> {
        self.token
    }

    pub closed spec fn token_path_view(&self) -> Seq<char> {
        self.token_path@
    }

    /// A client for the credentials of `cfg`, with the token loaded from
    /// `token_path` if there was one.
    pub fn new(cfg: Config, token_path: String, token: Option<TokenData>) -> (r: Self)
        ensures
            r.client_id_view() == cfg.client_id@,
            r.client_secret_view() == cfg.client_secret@,
            r.redirect_uri_view() == cfg.redirect_uri@,
            r.account_id_view() == match cfg.account_id {
                Some(a) => Some(a@),
                None => None::<Seq<char>>,
            },
            r.token_view() == token,
            r.token_path_view() == token_path@,
    {
        FreshBooksClient {
            client_id: cfg.client_id,
            client_secret: cfg.client_secret,
            redirect_uri: cfg.redirect_uri,
            account_id: cfg.account_id,
            token,
            token_path,
        }
    }

    /// The OAuth2 authorization URL.
    pub fn auth_url(&self) -> (r: String)
        ensures
            r@ == auth_url_for(self.client_id_view(), self.redirect_uri_view()),
    {
        let mut out = FB_AUTH_URL.to_owned();
        push_str(&mut out, "?response_type=code&client_id=");
        push_str(&mut out, self.client_id.as_str());
        push_str(&mut out, "&redirect_uri=");
        push_str(&mut out, self.redirect_uri.as_str());
        out
    }

    fn token_body(&self, grant: &str, key: &str, value: &str) -> (r: Json)
        ensures
            r@ == token_request(
                grant@,
                self.client_id_view(),
                self.client_secret_view(),
                key@,
                value@,
                self.redirect_uri_view(),
            ),
    {
        let mut fields: Vec<(String, Json)> = Vec::new();
        proof {
            assert(crate::json::view_fields(fields@) =~= no_members());
        }
        push_member(&mut fields, "grant_type", string_value(grant));
        push_member(&mut fields, "client_id", string_value(self.client_id.as_str()));
        push_member(&mut fields, "client_secret", string_value(self.client_secret.as_str()));
        push_member(&mut fields, key, string_value(value));
        push_member(&mut fields, "redirect_uri", string_value(self.redirect_uri.as_str()));
        Json::Object(fields)
    }

    /// The body that exchanges an authorization code for tokens.
    pub fn exchange_body(&self, code: &str) -> (r: Json)
        ensures
            r@ == token_request(
                "authorization_code"@,
                self.client_id_view(),
                self.client_secret_view(),
                "code"@,
                code@,
                self.redirect_uri_view(),
            ),
    {
        self.token_body("authorization_code", "code", code)
    }

    /// The body that exchanges a refresh token for new tokens.
    pub fn refresh_body(&self, refresh_token: &str) -> (r: Json)
        ensures
            r@ == token_request(
                "refresh_token"@,
                self.client_id_view(),
                self.client_secret_view(),
                "refresh_token"@,
                refresh_token@,
                self.redirect_uri_view(),
            ),
    {
        self.token_body("refresh_token", "refresh_token", refresh_token)
    }

    /// What a request must do about its token, the token being
    /// `elapsed_secs` whole seconds old.
    pub fn token_step(&self, elapsed_secs: i64) -> (r: TokenStep)
        ensures
            r == token_step_for(self.token_view(), elapsed_secs),
    {
        match &self.token {
            None => TokenStep::Missing,
            Some(t) => if elapsed_secs < REFRESH_AFTER_SECS {
                TokenStep::Ready(t.access_token.clone())
            } else {
                TokenStep::Refresh(t.refresh_token.clone())
            },
        }
    }

    /// Keeps a newly obtained token.
    pub fn store_token(&mut self, token: TokenData)
        ensures
            final(self).token_view() == Some(token),
            final(self).client_id_view() == old(self).client_id_view(),
            final(self).client_secret_view() == old(self).client_secret_view(),
            final(self).redirect_uri_view() == old(self).redirect_uri_view(),
            final(self).account_id_view() == old(self).account_id_view(),
            final(self).token_path_view() == old(self).token_path_view(),
    {
        self.token = Some(token);
    }

    /// The account id, once configured or discovered.
    pub fn known_account_id(&self) -> (r: Option<&str>)
        ensures
            crate::json::str_view(r) == self.account_id_view(),
    {
        match &self.account_id {
            Some(a) => Some(a.as_str()),
            None => None,
        }
    }

    /// Keeps a discovered account id.
    pub fn store_account_id(&mut self, account_id: String)
        ensures
            final(self).account_id_view() == Some(account_id@),
            final(self).token_view() == old(self).token_view(),
            final(self).client_id_view() == old(self).client_id_view(),
            final(self).client_secret_view() == old(self).client_secret_view(),
            final(self).redirect_uri_view() == old(self).redirect_uri_view(),
            final(self).token_path_view() == old(self).token_path_view(),
    {
        self.account_id = Some(account_id);
    }

    /// Where the token is saved.
    pub fn token_path(&self) -> (r: &str)
        ensures
            r@ == self.token_path_view(),
    {
        self.token_path.as_str()
    }
}

/// A request uses the stored access token while it is younger than 11 hours
/// and refreshes it with the stored refresh token from then on (FreshBooks
/// tokens last 12 hours); without a token it cannot proceed.
pub proof fn law_token_use_and_refresh(token: Option<TokenData>, elapsed_secs: i64)
    ensures
        token is None ==> token_step_for(token, elapsed_secs) == TokenStep::Missing,
        forall|t: TokenData|
            token == Some(t) && elapsed_secs < 11 * 60 * 60 ==> token_step_for(
                token,
                elapsed_secs,
            ) == TokenStep::Ready(t.access_token),
        forall|t: TokenData|
            token == Some(t) && elapsed_secs >= 11 * 60 * 60 ==> token_step_for(
                token,
                elapsed_secs,
            ) == TokenStep::Refresh(t.refresh_token),
{
}

spec fn named_account(m: JsonV) -> Option<Seq<char>> {
    str_in(member_in(member(m, "business"@), "account_id"@))
}

proof fn lemma_first_account_id(ms: Seq<JsonV>)
    ensures
        first_account_id(ms) is None <==> forall|i: int|
            0 <= i < ms.len() ==> #[trigger] named_account(ms[i]) is None,
        forall|i: int|
            0 <= i < ms.len() && #[trigger] named_account(ms[i]) is Some && (forall|j: int|
                0 <= j < i ==> named_account(ms[j]) is None) ==> first_account_id(ms)
                == named_account(ms[i]),
    decreases ms.len(),
{
    if ms.len() > 0 {
        let rest = ms.drop_first();
        lemma_first_account_id(rest);
        assert forall|i: int| 0 < i < ms.len() implies #[trigger] named_account(ms[i]) == named_account(rest[i - 1]) by {
            assert(ms[i] == rest[i - 1]);
        }
        if named_account(ms[0]) is None {
            assert((forall|i: int| 0 <= i < ms.len() ==> #[trigger] named_account(ms[i]) is None) <==> (
            forall|i: int| 0 <= i < rest.len() ==> #[trigger] named_account(rest[i]) is None)) by {
                if forall|i: int| 0 <= i < rest.len() ==> #[trigger] named_account(rest[i]) is None {
                    assert forall|i: int| 0 <= i < ms.len() implies #[trigger] named_account(ms[i]) is None by {
                        if i > 0 {
                            assert(named_account(rest[i - 1]) is None);
                        }
                    }
                }
                if forall|i: int| 0 <= i < ms.len() ==> #[trigger] named_account(ms[i]) is None {
                    assert forall|i: int| 0 <= i < rest.len() implies #[trigger] named_account(rest[i]) is None by {
                        assert(named_account(ms[i + 1]) is None);
                    }
                }
            }
            assert forall|i: int|
                0 <= i < ms.len() && #[trigger] named_account(ms[i]) is Some && (forall|j: int|
                    0 <= j < i ==> named_account(ms[j]) is None) implies first_account_id(ms)
                == named_account(ms[i]) by {
                assert(i > 0);
                assert forall|j: int| 0 <= j < i - 1 implies named_account(rest[j]) is None by {
                    assert(named_account(ms[j + 1]) is None);
                }
                assert(named_account(rest[i - 1]) is Some);
            }
        } else {
            assert(!(forall|i: int| 0 <= i < ms.len() ==> #[trigger] named_account(ms[i]) is None)) by {
                assert(named_account(ms[0]) is Some);
            }
            assert forall|i: int|
                0 <= i < ms.len() && #[trigger] named_account(ms[i]) is Some && (forall|j: int|
                    0 <= j < i ==> named_account(ms[j]) is None) implies first_account_id(ms)
                == named_account(ms[i]) by {
                if i > 0 {
                    assert(named_account(ms[0]) is None);
                }
            }
        }
    }
}

/// Discovery of the account id from a `/users/me` answer succeeds exactly
/// when some business membership names a string `account_id`, and then
/// gives the `account_id` of the first such membership; without a list of
/// memberships it finds nothing.
pub proof fn law_profile_account_id_is_the_first_named(data: JsonV)
    ensures
        array_in(member_in(member(data, "response"@), "business_memberships"@)) is None
            ==> profile_account_id(data) is None,
        forall|ms: Seq<JsonV>|
            #[trigger] array_in(member_in(member(data, "response"@), "business_memberships"@))
                == Some(ms) ==> {
                &&& profile_account_id(data) is None <==> forall|i: int|
                    0 <= i < ms.len() ==> str_in(
                        member_in(member(#[trigger] ms[i], "business"@), "account_id"@),
                    ) is None
                &&& forall|i: int|
                    0 <= i < ms.len() && str_in(
                        member_in(member(#[trigger] ms[i], "business"@), "account_id"@),
                    ) is Some && (forall|j: int|
                        0 <= j < i ==> str_in(member_in(member(ms[j], "business"@), "account_id"@))
                            is None) ==> profile_account_id(data) == str_in(
                        member_in(member(ms[i], "business"@), "account_id"@),
                    )
            },
{
    match array_in(member_in(member(data, "response"@), "business_memberships"@)) {
        Some(ms) => {
            lemma_first_account_id(ms);
            assert forall|i: int| 0 <= i < ms.len() implies named_account(ms[i]) == str_in(
                member_in(member(#[trigger] ms[i], "business"@), "account_id"@),
            ) by {}
        },
        None => {},
    }
}

/// The account id found in a profile is the `account_id` of one of its
/// business memberships.
pub proof fn law_profile_account_id_is_a_membership(memberships: Seq<JsonV>)
    ensures
        first_account_id(memberships) matches Some(id) ==> exists|i: int|
            0 <= i < memberships.len() && str_in(
                member_in(member(#[trigger] memberships[i], "business"@), "account_id"@),
            ) == Some(id),
    decreases memberships.len(),
{
    if memberships.len() > 0 {
        law_profile_account_id_is_a_membership(memberships.drop_first());
        if let Some(id) = first_account_id(memberships) {
            if str_in(member_in(member(memberships[0], "business"@), "account_id"@)) != Some(id) {
                let j = choose|j: int|
                    0 <= j < memberships.drop_first().len() && str_in(
                        member_in(member(#[trigger] memberships.drop_first()[j], "business"@), "account_id"@),
                    ) == Some(id);
                assert(memberships.drop_first()[j] == memberships[j + 1]);
            }
        }
    }
}

} // verus!
