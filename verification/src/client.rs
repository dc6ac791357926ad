//! The authenticated client core: identity configuration, the single-slot
//! token cache, the reuse-or-refresh decision, and bearer-authenticated
//! request building. Everything here is a pure function of the client
//! state, the clock reading handed in, and the response handed back; the
//! network round trips themselves are left to the caller.

use vstd::prelude::*;
use vstd::string::StringExecFns;

use crate::error::Error;
use crate::provider::{spec_auth_token_url, token_fields_of, auth_token_url, token_from_response, MAX_TOKEN_BODY_LEN};
use crate::region::{spec_api_url, spec_auth_url, Region};
use crate::token::{sat_add_i64, spec_valid_with_margin, Token, TokenData, DEFAULT_MARGIN_S};

verus! {

/// The HTTP method of an outgoing request.
#[derive(Debug, Clone, Copy, PartialEq, Eq, Structural)]
pub enum Method {
    Get,
    Post,
}

/// A transport-neutral description of an outgoing HTTP request: method,
/// full target URI, the authorization material to attach, and an optional
/// body. Whatever performs the request reads it off this value.
pub struct RequestPlan {
    /// The HTTP method to use.
    pub method: Method,
    /// The full target URI.
    pub uri: String,
    /// The value of the `Authorization` header to attach, if any
    /// (for API calls: `Bearer {access_token}`).
    pub authorization: Option<String>,
    /// Username and password for HTTP Basic authentication, if any
    /// (for token requests: client id and client secret).
    pub basic_auth: Option<(String, String)>,
    /// The request body to attach, if any.
    pub body: Option<String>,
}

/// The `Authorization` header value carrying an access token:
/// `Bearer {access_token}`.
pub open spec fn spec_bearer(access_token: Seq<char>) -> Seq<char> {
    "Bearer "@ + access_token
}

/// Builds the `Authorization` header value for an access token.
pub fn bearer_header_value(access_token: &str) -> (r: String)
    ensures
        r@ == spec_bearer(access_token@),
{
    let mut value = String::from_str("Bearer ");
    value.append(access_token);
    value
}

/// The full URI of an API request:
/// `{api_url}/{project_key}{path}`.
pub open spec fn spec_api_uri(api_url: Seq<char>, project_key: Seq<char>, path: Seq<char>) -> Seq<
    char,
> {
    api_url + "/"@ + project_key + path
}

/// Mathematical view of a [`CtpClient`]: its immutable identity
/// configuration and the content of the token cache slot.
pub ghost struct ClientData {
    pub api_url: Seq<char>,
    pub auth_url: Seq<char>,
    pub project_key: Seq<char>,
    pub client_id: Seq<char>,
    pub client_secret: Seq<char>,
    pub token: Option<TokenData>,
}

/// Whether the cache forces a refresh at instant `now`: true iff the slot
/// is empty or its token is no longer valid with the default margin.
pub open spec fn spec_needs_refresh(c: ClientData, now: int) -> bool {
    match c.token {
        Some(t) => !spec_valid_with_margin(t, now, DEFAULT_MARGIN_S as int),
        None => true,
    }
}

/// The identity configuration is the same in both states: everything
/// outside the cache slot is unchanged.
pub open spec fn spec_same_config(a: ClientData, b: ClientData) -> bool {
    &&& a.api_url == b.api_url
    &&& a.auth_url == b.auth_url
    &&& a.project_key == b.project_key
    &&& a.client_id == b.client_id
    &&& a.client_secret == b.client_secret
}

/// What a token lookup decides: hand out the still-valid cached credential,
/// or perform the described token request and feed its response back.
pub enum TokenDecision {
    /// The cached token is still valid; use this copy of its credential.
    UseCached(String),
    /// The cache is empty or stale; POST this token request to the
    /// authorization endpoint and hand the response to
    /// [`CtpClient::accept_token_response`].
    Refresh(RequestPlan),
}

/// A client of the commerce API for one project: immutable identity
/// configuration plus a single-slot cache holding at most one token.
pub struct CtpClient {
    api_url: String,
    auth_url: String,
    project_key: String,
    client_id: String,
    client_secret: String,
    token: Option<Token>,
}

impl View for CtpClient {
    type V = ClientData;

    closed spec fn view(&self) -> ClientData {
        ClientData {
            api_url: self.api_url@,
            auth_url: self.auth_url@,
            project_key: self.project_key@,
            client_id: self.client_id@,
            client_secret: self.client_secret@,
            token: match self.token {
                Some(t) => Some(t@),
                None => None,
            },
        }
    }
}

impl CtpClient {
    /// Returns a client for the given region and identity; the token cache
    /// starts empty.
    pub fn new(region: &Region, project_key: &str, client_id: &str, client_secret: &str) -> (c:
        CtpClient)
        ensures
            c@.api_url == spec_api_url(*region),
            c@.auth_url == spec_auth_url(*region),
            c@.project_key == project_key@,
            c@.client_id == client_id@,
            c@.client_secret == client_secret@,
            c@.token is None,
    {
        CtpClient {
            api_url: String::from_str(region.api_url()),
            auth_url: String::from_str(region.auth_url()),
            project_key: String::from_str(project_key),
            client_id: String::from_str(client_id),
            client_secret: String::from_str(client_secret),
            token: None,
        }
    }

    /// The token request this client POSTs to its authorization endpoint:
    /// the client-credentials grant for the project, under HTTP Basic
    /// authentication with the client id and secret, with no body.
    pub fn auth_request_plan(&self) -> (p: RequestPlan)
        ensures
            p.method is Post,
            p.uri@ == spec_auth_token_url(self@.auth_url, self@.project_key),
            p.authorization is None,
            p.basic_auth is Some,
            (p.basic_auth->0).0@ == self@.client_id,
            (p.basic_auth->0).1@ == self@.client_secret,
            p.body is None,
    {
        RequestPlan {
            method: Method::Post,
            uri: auth_token_url(self.auth_url.as_str(), self.project_key.as_str()),
            authorization: None,
            basic_auth: Some((self.client_id.clone(), self.client_secret.clone())),
            body: None,
        }
    }

    /// Decides, at instant `now_s`, whether an outgoing call can reuse the
    /// cached credential or must first refresh it: a valid cached token is
    /// handed out as an independent copy; otherwise the decision carries
    /// the token request to perform. Reading the cache changes nothing, so
    /// two decisions at the same instant agree.
    pub fn get_token_decision(&self, now_s: i64) -> (d: TokenDecision)
        ensures
            !spec_needs_refresh(self@, now_s as int) ==> d is UseCached && d->UseCached_0@
                == self@.token->0.access_token,
            spec_needs_refresh(self@, now_s as int) ==> d is Refresh && {
                let p = d->Refresh_0;
                &&& p.method is Post
                &&& p.uri@ == spec_auth_token_url(self@.auth_url, self@.project_key)
                &&& p.authorization is None
                &&& p.basic_auth is Some
                &&& (p.basic_auth->0).0@ == self@.client_id
                &&& (p.basic_auth->0).1@ == self@.client_secret
                &&& p.body is None
            },
    {
        match &self.token {
            Some(t) => {
                if t.is_valid_with_margin(now_s, DEFAULT_MARGIN_S) {
                    return TokenDecision::UseCached(t.access_token_copy());
                }
            },
            None => {},
        }
        TokenDecision::Refresh(self.auth_request_plan())
    }

    /// Feeds the authorization endpoint's response back into the cache. On
    /// a decodable success response the new token (expiring `expires_in`
    /// seconds after `now_s`) replaces whatever the slot held, and a copy
    /// of its credential is returned. On any failure — a non-success
    /// status, a body over [`MAX_TOKEN_BODY_LEN`], or one that does not
    /// decode — the error is returned and the client, the previously
    /// cached token included, is left exactly as it was, so a later call
    /// may retry.
    pub fn accept_token_response(&mut self, status: u16, body: &str, now_s: i64) -> (r: Result<
        String,
        Error,
    >)
        ensures
            spec_same_config(old(self)@, final(self)@),
            status == 200 && body@.len() <= MAX_TOKEN_BODY_LEN && token_fields_of(body@) is Some
                ==> r is Ok && {
                let f = token_fields_of(body@)->0;
                &&& r->Ok_0@ == f.0
                &&& final(self)@.token is Some
                &&& final(self)@.token->0.access_token == f.0
                &&& final(self)@.token->0.expires_at == sat_add_i64(now_s as int, f.1 as int)
            },
            status == 200 && body@.len() <= MAX_TOKEN_BODY_LEN && token_fields_of(body@) is None
                ==> r is Err && r->Err_0 is DecodeError && r->Err_0->DecodeError_0@ == body@
                && final(self)@ == old(self)@,
            status == 200 && body@.len() > MAX_TOKEN_BODY_LEN ==> r is Err
                && r->Err_0 is DecodeError && r->Err_0->DecodeError_0@ == body@ && final(self)@
                == old(self)@,
            status != 200 ==> r is Err && r->Err_0 is UnexpectedStatusError
                && r->Err_0->UnexpectedStatusError_0 == status
                && r->Err_0->UnexpectedStatusError_1@ == body@ && final(self)@ == old(self)@,
    {
        match token_from_response(status, body, now_s) {
            Ok(t) => {
                let access_token = t.access_token_copy();
                self.token = Some(t);
                Ok(access_token)
            },
            Err(e) => Err(e),
        }
    }

    /// Describes an outgoing API call: the given method against
    /// `{api_url}/{project_key}{path}`, carrying the access token in a
    /// `Bearer` authorization header, with no body yet.
    pub fn request(&self, method: Method, path: &str, access_token: &str) -> (p: RequestPlan)
        ensures
            p.method == method,
            p.uri@ == spec_api_uri(self@.api_url, self@.project_key, path@),
            p.authorization is Some,
            p.authorization->0@ == spec_bearer(access_token@),
            p.basic_auth is None,
            p.body is None,
    {
        let mut uri = String::from_str(self.api_url.as_str());
        uri.append("/");
        uri.append(self.project_key.as_str());
        uri.append(path);
        RequestPlan {
            method,
            uri,
            authorization: Some(bearer_header_value(access_token)),
            basic_auth: None,
            body: None,
        }
    }
}

impl RequestPlan {
    /// The same request with the given body payload attached.
    pub fn with_body(self, body: &str) -> (p: RequestPlan)
        ensures
            p.method == self.method,
            p.uri@ == self.uri@,
            p.authorization == self.authorization,
            p.basic_auth == self.basic_auth,
            p.body is Some,
            p.body->0@ == body@,
    {
        RequestPlan {
            method: self.method,
            uri: self.uri,
            authorization: self.authorization,
            basic_auth: self.basic_auth,
            body: Some(String::from_str(body)),
        }
    }
}

/// Law: while the cache holds a token still valid with the default margin,
/// a token lookup decides to reuse it — no refresh, hence no round trip to
/// the authorization endpoint, and the client state does not change. Two
/// lookups in succession over a valid cache therefore both reuse it.
pub proof fn lemma_valid_cache_reused(c: ClientData, now: int)
    requires
        c.token is Some,
        spec_valid_with_margin(c.token->0, now, DEFAULT_MARGIN_S as int),
    ensures
        !spec_needs_refresh(c, now),
{
}

/// Law: an empty cache, and one whose token is no longer valid with the
/// default margin, both force the refresh decision — the token request is
/// performed and, by [`CtpClient::accept_token_response`], a decodable
/// success response is what replaces the slot.
pub proof fn lemma_refresh_triggered(c: ClientData, now: int)
    requires
        c.token is None || !spec_valid_with_margin(c.token->0, now, DEFAULT_MARGIN_S as int),
    ensures
        spec_needs_refresh(c, now),
{
}

} // verus!
