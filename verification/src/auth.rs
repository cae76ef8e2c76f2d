//! The OAuth 2.0 authorization-code handshake: the request that sends the
//! user to the provider, the requests that trade a code or a refresh token
//! for tokens, and the reading of the provider's answer.

use vstd::prelude::*;
use vstd::string::StringExecFns;
use vstd::utf8::decode_utf8;
use vstd::utf8::encode_utf8;
use vstd::utf8::encode_utf8_decode_utf8;
use crate::form::form_text;
use crate::form::is_form_byte;
use crate::form::lemma_serialize_alphabet;
use crate::form::lemma_form_text_bytes;
use crate::form::lemma_parse_serialize;
use crate::form::parse;
use crate::form::serialize_pairs;
use crate::form::str_pairs;
use crate::form::utf8_pair;
use crate::form::utf8_pairs;
use crate::json::integer_of;
use crate::json::json_object;
use crate::json::member_integer;
use crate::json::member_text;
use crate::json::member_views;
use crate::json::read_object;
use crate::json::text_of;
use crate::json::Member;
use crate::json::MemberView;
use crate::text::join;
use crate::text::joined;
use crate::text::lemma_words_joined;
use crate::text::opt_text;
use crate::text::same_text;
use crate::text::texts;
use crate::text::words;

pub use crate::login::login;
pub use crate::store::logout;
pub use crate::store::read_access_token;

verus! {

/// The identifier under which the tool is registered with the provider.
pub const CLIENT_ID: &'static str = "CLIENTID";

/// Where the provider sends the browser back to.
pub const REDIRECT_URI: &'static str = "http://localhost:8000/redirect";

/// Where the user grants access.
pub const AUTHORIZE_ENDPOINT: &'static str =
    "https://login.microsoftonline.com/common/oauth2/v2.0/authorize";

/// Where codes and refresh tokens are traded for tokens.
pub const TOKEN_ENDPOINT: &'static str =
    "https://login.microsoftonline.com/common/oauth2/v2.0/token";

/// Where the user is signed out.
pub const LOGOUT_ENDPOINT: &'static str =
    "https://login.microsoftonline.com/common/oauth2/v2.0/logout";

/// What can go wrong between the tool, the browser, the provider and the
/// credential file. Each failure ends the current invocation.
#[derive(Debug, PartialEq, Eq)]
pub enum AuthError {
    /// The system browser could not be opened.
    BrowserLaunchFailure,
    /// The provider sent the browser back without a code.
    CallbackDenied(String),
    /// The token endpoint refused the code, or could not be reached. Holds
    /// the provider's answer.
    TokenExchangeFailure(String),
    /// The same during a refresh: the user has to log in again.
    RefreshFailure(String),
    /// There is no credential file: nobody is logged in.
    CredentialFileMissing,
    /// The credential file does not hold a token bundle.
    CredentialFileCorrupt,
}

/// The mathematical value of an [`AuthError`].
pub enum AuthErrorView {
    BrowserLaunchFailure,
    CallbackDenied(Seq<char>),
    TokenExchangeFailure(Seq<char>),
    RefreshFailure(Seq<char>),
    CredentialFileMissing,
    CredentialFileCorrupt,
}

impl View for AuthError {
    type V = AuthErrorView;

    open spec fn view(&self) -> AuthErrorView {
        match self {
            AuthError::BrowserLaunchFailure => AuthErrorView::BrowserLaunchFailure,
            AuthError::CallbackDenied(reason) => AuthErrorView::CallbackDenied(reason@),
            AuthError::TokenExchangeFailure(detail) => AuthErrorView::TokenExchangeFailure(detail@),
            AuthError::RefreshFailure(detail) => AuthErrorView::RefreshFailure(detail@),
            AuthError::CredentialFileMissing => AuthErrorView::CredentialFileMissing,
            AuthError::CredentialFileCorrupt => AuthErrorView::CredentialFileCorrupt,
        }
    }
}

/// What the user is told about a failure.
pub open spec fn message_text(e: AuthErrorView) -> Seq<char> {
    match e {
        AuthErrorView::BrowserLaunchFailure => "tdi: unable to open a browser window."@,
        AuthErrorView::CallbackDenied(reason) => "tdi login error: "@ + reason,
        AuthErrorView::TokenExchangeFailure(detail) => "tdi login error: "@ + detail,
        AuthErrorView::RefreshFailure(detail) => "tdi error fetching refresh token: "@ + detail
            + ", run `tdi login` again."@,
        AuthErrorView::CredentialFileMissing =>
            "tdi: unable to read access token configuration, perhaps run `tdi login`."@,
        AuthErrorView::CredentialFileCorrupt =>
            "tdi: unable to parse configuration, run `tdi login` again."@,
    }
}

/// The status that the process ends with after a failure: zero where nobody
/// is logged in, which is no fault, and one otherwise.
pub open spec fn exit_status(e: AuthErrorView) -> i32 {
    match e {
        AuthErrorView::CredentialFileMissing => 0,
        _ => 1,
    }
}

impl AuthError {
    /// What the user is told.
    pub fn message(&self) -> (text: String)
        ensures
            text@ == message_text(self@),
    {
        match self {
            AuthError::BrowserLaunchFailure => {
                "tdi: unable to open a browser window.".to_owned()
            },
            AuthError::CallbackDenied(reason) => {
                let mut text = "tdi login error: ".to_owned();
                text.append(reason.as_str());
                text
            },
            AuthError::TokenExchangeFailure(detail) => {
                let mut text = "tdi login error: ".to_owned();
                text.append(detail.as_str());
                text
            },
            AuthError::RefreshFailure(detail) => {
                let mut text = "tdi error fetching refresh token: ".to_owned();
                text.append(detail.as_str());
                text.append(", run `tdi login` again.");
                text
            },
            AuthError::CredentialFileMissing => {
                "tdi: unable to read access token configuration, perhaps run `tdi login`.".to_owned()
            },
            AuthError::CredentialFileCorrupt => {
                "tdi: unable to parse configuration, run `tdi login` again.".to_owned()
            },
        }
    }

    /// The status that the process ends with.
    pub fn exit_code(&self) -> (code: i32)
        ensures
            code == exit_status(self@),
    {
        match self {
            AuthError::CredentialFileMissing => 0,
            _ => 1,
        }
    }
}

/// The query of the redirect that carries an authorization code.
#[derive(Debug, PartialEq, Eq)]
pub struct AccessCode {
    pub code: String,
}

/// What the callback receiver learns from the redirect.
#[derive(Debug, PartialEq, Eq)]
pub enum AuthorizationResult {
    /// The authorization code.
    Code(String),
    /// Why there is none.
    Error(String),
}

/// The mathematical value of an [`AuthorizationResult`].
pub enum AuthorizationResultView {
    Code(Seq<char>),
    Error(Seq<char>),
}

impl View for AuthorizationResult {
    type V = AuthorizationResultView;

    open spec fn view(&self) -> AuthorizationResultView {
        match self {
            AuthorizationResult::Code(code) => AuthorizationResultView::Code(code@),
            AuthorizationResult::Error(reason) => AuthorizationResultView::Error(reason@),
        }
    }
}

/// What a login attempt asks of the provider. It is made once and stays as
/// it is. The scopes are an ordered set: they keep the order in which they
/// were given, and none occurs twice.
#[derive(Debug, PartialEq, Eq)]
pub struct AuthorizationRequest {
    client_id: String,
    scopes: Vec<String>,
    redirect_uri: String,
    authorize_endpoint: String,
    token_endpoint: String,
}

/// The mathematical value of an [`AuthorizationRequest`].
pub struct AuthorizationRequestView {
    pub client_id: Seq<char>,
    pub scopes: Seq<Seq<char>>,
    pub redirect_uri: Seq<char>,
    pub authorize_endpoint: Seq<char>,
    pub token_endpoint: Seq<char>,
}

impl View for AuthorizationRequest {
    type V = AuthorizationRequestView;

    closed spec fn view(&self) -> AuthorizationRequestView {
        AuthorizationRequestView {
            client_id: self.client_id@,
            scopes: texts(self.scopes@),
            redirect_uri: self.redirect_uri@,
            authorize_endpoint: self.authorize_endpoint@,
            token_endpoint: self.token_endpoint@,
        }
    }
}

/// The scopes that the tool asks for: reading and writing tasks, reading the
/// profile, and staying logged in.
pub open spec fn fixed_scopes() -> Seq<Seq<char>> {
    seq!["tasks.readwrite"@, "user.read"@, "offline_access"@]
}

/// A list as an ordered set: each item where it occurs first.
pub open spec fn ordered_set(items: Seq<Seq<char>>) -> Seq<Seq<char>>
    decreases items.len(),
{
    if items.len() == 0 {
        Seq::empty()
    } else if ordered_set(items.drop_last()).contains(items.last()) {
        ordered_set(items.drop_last())
    } else {
        ordered_set(items.drop_last()).push(items.last())
    }
}

/// The views of a list of string slices.
pub open spec fn strs(items: Seq<&str>) -> Seq<Seq<char>> {
    items.map_values(|s: &str| s@)
}

/// The parameters of the authorization URL, in the order in which they are
/// written.
pub open spec fn authorization_pairs(request: AuthorizationRequestView) -> Seq<
    (Seq<char>, Seq<char>),
> {
    seq![
        ("client_id"@, request.client_id),
        ("scope"@, joined(request.scopes, ' ')),
        ("redirect_uri"@, request.redirect_uri),
        ("response_type"@, "code"@),
    ]
}

/// The authorization URL: the endpoint, a question mark, the parameters.
pub open spec fn authorization_url_text(request: AuthorizationRequestView) -> Seq<char> {
    request.authorize_endpoint + seq!['?'] + form_text(authorization_pairs(request))
}

/// Scopes that can be told apart again once they are joined by spaces: there
/// is at least one, and none holds a space.
pub open spec fn separable(scopes: Seq<Seq<char>>) -> bool {
    &&& scopes.len() > 0
    &&& forall|i: int| 0 <= i < scopes.len() ==> !scopes[i].contains(' ')
}

fn holds(items: &Vec<String>, item: &str) -> (r: bool)
    ensures
        r == texts(items@).contains(item@),
{
    let mut i: usize = 0;
    while i < items.len()
        invariant
            i <= items.len(),
            forall|j: int| 0 <= j < i ==> texts(items@)[j] != item@,
        decreases items.len() - i,
    {
        if same_text(items[i].as_str(), item) {
            assert(texts(items@)[i as int] == item@);
            return true;
        }
        i += 1;
    }
    false
}

impl AuthorizationRequest {
    #[verifier::type_invariant]
    spec fn unrepeated(self) -> bool {
        texts(self.scopes@).no_duplicates()
    }

    /// A request for the given scopes. A scope that is given more than once
    /// counts where it stands first.
    pub fn new(
        client_id: &str,
        scopes: &[&str],
        redirect_uri: &str,
        authorize_endpoint: &str,
        token_endpoint: &str,
    ) -> (r: AuthorizationRequest)
        ensures
            r@ == (AuthorizationRequestView {
                client_id: client_id@,
                scopes: ordered_set(strs(scopes@)),
                redirect_uri: redirect_uri@,
                authorize_endpoint: authorize_endpoint@,
                token_endpoint: token_endpoint@,
            }),
            r@.scopes.no_duplicates(),
    {
        let mut set: Vec<String> = Vec::new();
        let mut i: usize = 0;
        assert(strs(scopes@).take(0) =~= Seq::<Seq<char>>::empty());
        while i < scopes.len()
            invariant
                i <= scopes.len(),
                texts(set@) == ordered_set(strs(scopes@).take(i as int)),
                texts(set@).no_duplicates(),
            decreases scopes.len() - i,
        {
            proof {
                let next = strs(scopes@).take(i + 1);
                assert(next.drop_last() =~= strs(scopes@).take(i as int));
                assert(next.last() == scopes@[i as int]@);
            }
            if !holds(&set, scopes[i]) {
                let ghost before = texts(set@);
                set.push(scopes[i].to_owned());
                assert(texts(set@) =~= before.push(scopes@[i as int]@));
            }
            i += 1;
        }
        assert(strs(scopes@).take(i as int) =~= strs(scopes@));
        AuthorizationRequest {
            client_id: client_id.to_owned(),
            scopes: set,
            redirect_uri: redirect_uri.to_owned(),
            authorize_endpoint: authorize_endpoint.to_owned(),
            token_endpoint: token_endpoint.to_owned(),
        }
    }

    /// The identifier under which the client is registered.
    pub fn client_id(&self) -> (r: &str)
        ensures
            r@ == self@.client_id,
    {
        self.client_id.as_str()
    }

    /// The scopes, in order. None occurs twice.
    pub fn scopes(&self) -> (r: &Vec<String>)
        ensures
            texts(r@) == self@.scopes,
            self@.scopes.no_duplicates(),
    {
        proof {
            use_type_invariant(self);
        }
        &self.scopes
    }

    /// Where the provider sends the browser back to.
    pub fn redirect_uri(&self) -> (r: &str)
        ensures
            r@ == self@.redirect_uri,
    {
        self.redirect_uri.as_str()
    }

    /// Where the user grants access.
    pub fn authorize_endpoint(&self) -> (r: &str)
        ensures
            r@ == self@.authorize_endpoint,
    {
        self.authorize_endpoint.as_str()
    }

    /// Where codes and refresh tokens are traded for tokens.
    pub fn token_endpoint(&self) -> (r: &str)
        ensures
            r@ == self@.token_endpoint,
    {
        self.token_endpoint.as_str()
    }

    /// Whether `scope` is among the scopes.
    pub fn contains_scope(&self, scope: &str) -> (r: bool)
        ensures
            r == self@.scopes.contains(scope@),
    {
        holds(&self.scopes, scope)
    }

    /// The scopes in order, with one space between them.
    pub fn join_scopes(&self) -> (r: String)
        ensures
            r@ == joined(self@.scopes, ' '),
    {
        join(&self.scopes, ' ')
    }

    /// The URL that the browser is sent to.
    ///
    /// It is the authorization endpoint, a question mark, and the parameters
    /// `client_id`, `scope`, `redirect_uri` and `response_type=code` in this
    /// order, form-encoded.
    pub fn authorization_url(&self) -> (url: String)
        ensures
            url@ == authorization_url_text(self@),
    {
        let scope = self.join_scopes();
        let mut pairs: Vec<(&str, &str)> = Vec::new();
        pairs.push(("client_id", self.client_id.as_str()));
        pairs.push(("scope", scope.as_str()));
        pairs.push(("redirect_uri", self.redirect_uri.as_str()));
        pairs.push(("response_type", "code"));
        assert(str_pairs(pairs@) =~= authorization_pairs(self@));
        let query = serialize_pairs(pairs.as_slice());
        let mut url = self.authorize_endpoint.clone();
        url.push('?');
        url.append(query.as_str());
        url
    }
}

/// The request that the tool logs in with: the fixed scopes, the local
/// redirect address and the provider's two endpoints.
pub fn get_oauth_client(client_id: &str) -> (r: AuthorizationRequest)
    ensures
        r@ == (AuthorizationRequestView {
            client_id: client_id@,
            scopes: fixed_scopes(),
            redirect_uri: REDIRECT_URI@,
            authorize_endpoint: AUTHORIZE_ENDPOINT@,
            token_endpoint: TOKEN_ENDPOINT@,
        }),
        r@.scopes.no_duplicates(),
        separable(r@.scopes),
{
    let mut scopes: Vec<&str> = Vec::new();
    scopes.push("tasks.readwrite");
    scopes.push("user.read");
    scopes.push("offline_access");
    proof {
        lemma_fixed_scopes();
        assert(strs(scopes@) =~= fixed_scopes());
        lemma_ordered_set_of_distinct(fixed_scopes());
    }
    AuthorizationRequest::new(
        client_id,
        scopes.as_slice(),
        REDIRECT_URI,
        AUTHORIZE_ENDPOINT,
        TOKEN_ENDPOINT,
    )
}

/// A list in which nothing occurs twice is its own ordered set.
pub proof fn lemma_ordered_set_of_distinct(items: Seq<Seq<char>>)
    requires
        items.no_duplicates(),
    ensures
        ordered_set(items) == items,
    decreases items.len(),
{
    if items.len() > 0 {
        lemma_ordered_set_of_distinct(items.drop_last());
        assert(!items.drop_last().contains(items.last()));
        assert(items.drop_last().push(items.last()) =~= items);
    }
}

/// The fixed scopes differ from each other and hold no space.
pub proof fn lemma_fixed_scopes()
    ensures
        fixed_scopes().no_duplicates(),
        separable(fixed_scopes()),
{
    reveal_strlit("tasks.readwrite");
    reveal_strlit("user.read");
    reveal_strlit("offline_access");
    let s = fixed_scopes();
    assert forall|i: int| 0 <= i < s.len() implies !s[i].contains(' ') by {
        if s[i].contains(' ') {
            let k = choose|k: int| 0 <= k < s[i].len() && s[i][k] == ' ';
        }
    }
}

/// The query string of the authorization URL reads back as exactly the four
/// parameters that went in: the client's identifier, the scopes joined by
/// spaces, the redirect address byte for byte, and `response_type=code`.
/// It is written with plain bytes, `+`, `%`, `=` and `&` alone. This holds for
/// every request, whatever characters its fields hold.
pub proof fn lemma_authorization_url_reads_back(request: AuthorizationRequestView)
    ensures
        ({
            let query = form_text(authorization_pairs(request));
            &&& authorization_url_text(request) == request.authorize_endpoint + seq!['?'] + query
            &&& parse(encode_utf8(query)) == seq![
                utf8_pair(("client_id"@, request.client_id)),
                utf8_pair(("scope"@, joined(request.scopes, ' '))),
                utf8_pair(("redirect_uri"@, request.redirect_uri)),
                utf8_pair(("response_type"@, "code"@)),
            ]
            &&& decode_utf8(encode_utf8(request.redirect_uri)) == request.redirect_uri
            &&& decode_utf8(encode_utf8(joined(request.scopes, ' '))) == joined(
                request.scopes,
                ' ',
            )
            &&& forall|i: int|
                0 <= i < query.len() ==> is_form_byte(#[trigger] encode_utf8(query)[i])
        }),
{
    let pairs = authorization_pairs(request);
    lemma_form_text_bytes(pairs);
    lemma_parse_serialize(utf8_pairs(pairs));
    encode_utf8_decode_utf8(request.redirect_uri);
    encode_utf8_decode_utf8(joined(request.scopes, ' '));
    assert forall|i: int| 0 <= i < form_text(pairs).len() implies is_form_byte(
        #[trigger] encode_utf8(form_text(pairs))[i],
    ) by {
        lemma_serialize_alphabet(utf8_pairs(pairs), i);
    }
}

/// The `scope` parameter holds each scope exactly once: split at its spaces
/// it is the list of scopes again, in which nothing occurs twice.
pub proof fn lemma_each_scope_once(request: AuthorizationRequestView)
    requires
        request.scopes.no_duplicates(),
        separable(request.scopes),
    ensures
        words(joined(request.scopes, ' '), ' ') == request.scopes,
        words(joined(request.scopes, ' '), ' ').no_duplicates(),
{
    lemma_words_joined(request.scopes, ' ');
}

/// An access token with what is needed to use and to renew it.
#[derive(Debug, PartialEq, Eq)]
pub struct TokenBundle {
    /// The bearer token for the Graph API.
    pub access_token: String,
    /// The token that a new bundle can be had for, if the provider gave one.
    pub refresh_token: Option<String>,
    /// When the access token stops being valid, in seconds since the Unix
    /// epoch.
    pub expires_at: i64,
}

/// The mathematical value of a [`TokenBundle`].
pub struct TokenBundleView {
    pub access_token: Seq<char>,
    pub refresh_token: Option<Seq<char>>,
    pub expires_at: i64,
}

impl View for TokenBundle {
    type V = TokenBundleView;

    open spec fn view(&self) -> TokenBundleView {
        TokenBundleView {
            access_token: self.access_token@,
            refresh_token: opt_text(self.refresh_token),
            expires_at: self.expires_at,
        }
    }
}

/// Whether a bundle that expires at `expires_at` is stale at `now`: the
/// stored moment is compared with the clock as it is, without allowance for
/// skew.
pub open spec fn expired(expires_at: i64, now: i64) -> bool {
    expires_at <= now
}

impl TokenBundle {
    /// Whether the access token is stale at `now`.
    pub fn is_expired(&self, now: i64) -> (r: bool)
        ensures
            r == expired(self@.expires_at, now),
    {
        self.expires_at <= now
    }

    /// A copy of the bundle.
    pub fn duplicate(&self) -> (r: TokenBundle)
        ensures
            r@ == self@,
    {
        TokenBundle {
            access_token: self.access_token.clone(),
            refresh_token: match &self.refresh_token {
                Some(t) => Some(t.clone()),
                None => None,
            },
            expires_at: self.expires_at,
        }
    }
}

/// A POST to the token endpoint.
#[derive(Debug, PartialEq, Eq)]
pub struct TokenRequest {
    /// The address to post to.
    pub url: String,
    /// The form-encoded body.
    pub body: String,
}

/// The mathematical value of a [`TokenRequest`].
pub struct TokenRequestView {
    pub url: Seq<char>,
    pub body: Seq<char>,
}

impl View for TokenRequest {
    type V = TokenRequestView;

    open spec fn view(&self) -> TokenRequestView {
        TokenRequestView { url: self.url@, body: self.body@ }
    }
}

/// What a token request trades in.
#[derive(Clone, Copy, Debug, PartialEq, Eq, Structural)]
pub enum Grant {
    /// The code that the redirect carried.
    AuthorizationCode,
    /// The refresh token of a stored bundle.
    RefreshToken,
}

/// The form fields that trade a code for tokens.
pub open spec fn exchange_pairs(request: AuthorizationRequestView, code: Seq<char>) -> Seq<
    (Seq<char>, Seq<char>),
> {
    seq![
        ("grant_type"@, "authorization_code"@),
        ("code"@, code),
        ("client_id"@, request.client_id),
        ("redirect_uri"@, request.redirect_uri),
    ]
}

/// The form fields that trade a refresh token for tokens.
pub open spec fn refresh_pairs(request: AuthorizationRequestView, refresh_token: Seq<char>) -> Seq<
    (Seq<char>, Seq<char>),
> {
    seq![
        ("grant_type"@, "refresh_token"@),
        ("refresh_token"@, refresh_token),
        ("client_id"@, request.client_id),
        ("redirect_uri"@, request.redirect_uri),
    ]
}

/// What is reported where a bundle has no refresh token to renew it with.
pub const NO_REFRESH_TOKEN: &'static str = "the stored credential holds no refresh token";

/// The request that trades an authorization code for tokens: a POST to the
/// token endpoint with `grant_type=authorization_code`, the code, the
/// client's identifier and the redirect address.
pub fn req_access_token(client: &AuthorizationRequest, code: &str) -> (r: TokenRequest)
    ensures
        r@ == (TokenRequestView {
            url: client@.token_endpoint,
            body: form_text(exchange_pairs(client@, code@)),
        }),
{
    let mut pairs: Vec<(&str, &str)> = Vec::new();
    pairs.push(("grant_type", "authorization_code"));
    pairs.push(("code", code));
    pairs.push(("client_id", client.client_id.as_str()));
    pairs.push(("redirect_uri", client.redirect_uri.as_str()));
    assert(str_pairs(pairs@) =~= exchange_pairs(client@, code@));
    TokenRequest { url: client.token_endpoint.clone(), body: serialize_pairs(pairs.as_slice()) }
}

/// What `req_refresh_token` yields.
pub open spec fn refresh_request(
    request: AuthorizationRequestView,
    bundle: TokenBundleView,
) -> Result<TokenRequestView, AuthErrorView> {
    match bundle.refresh_token {
        Some(token) => Ok(
            TokenRequestView {
                url: request.token_endpoint,
                body: form_text(refresh_pairs(request, token)),
            },
        ),
        None => Err(AuthErrorView::RefreshFailure(NO_REFRESH_TOKEN@)),
    }
}

/// The view of a token request or of the failure to make one.
pub open spec fn request_result_view(r: Result<TokenRequest, AuthError>) -> Result<
    TokenRequestView,
    AuthErrorView,
> {
    match r {
        Ok(request) => Ok(request@),
        Err(e) => Err(e@),
    }
}

/// The request that renews a stale bundle: a POST to the token endpoint with
/// `grant_type=refresh_token`, the stored refresh token, the client's
/// identifier and the redirect address. A bundle without a refresh token
/// cannot be renewed.
pub fn req_refresh_token(client: &AuthorizationRequest, bundle: &TokenBundle) -> (r: Result<
    TokenRequest,
    AuthError,
>)
    ensures
        request_result_view(r) == refresh_request(client@, bundle@),
{
    match &bundle.refresh_token {
        Some(token) => {
            let mut pairs: Vec<(&str, &str)> = Vec::new();
            pairs.push(("grant_type", "refresh_token"));
            pairs.push(("refresh_token", token.as_str()));
            pairs.push(("client_id", client.client_id.as_str()));
            pairs.push(("redirect_uri", client.redirect_uri.as_str()));
            assert(str_pairs(pairs@) =~= refresh_pairs(client@, token@));
            Ok(
                TokenRequest {
                    url: client.token_endpoint.clone(),
                    body: serialize_pairs(pairs.as_slice()),
                },
            )
        },
        None => Err(AuthError::RefreshFailure(NO_REFRESH_TOKEN.to_owned())),
    }
}

/// The body of either token request reads back as exactly the four fields
/// that went in, in their order, whatever characters the code, the refresh
/// token or the client's fields hold.
pub proof fn lemma_token_requests_read_back(
    request: AuthorizationRequestView,
    code: Seq<char>,
    refresh_token: Seq<char>,
)
    ensures
        parse(encode_utf8(form_text(exchange_pairs(request, code)))) == seq![
            utf8_pair(("grant_type"@, "authorization_code"@)),
            utf8_pair(("code"@, code)),
            utf8_pair(("client_id"@, request.client_id)),
            utf8_pair(("redirect_uri"@, request.redirect_uri)),
        ],
        parse(encode_utf8(form_text(refresh_pairs(request, refresh_token)))) == seq![
            utf8_pair(("grant_type"@, "refresh_token"@)),
            utf8_pair(("refresh_token"@, refresh_token)),
            utf8_pair(("client_id"@, request.client_id)),
            utf8_pair(("redirect_uri"@, request.redirect_uri)),
        ],
{
    let exchange = exchange_pairs(request, code);
    lemma_form_text_bytes(exchange);
    lemma_parse_serialize(utf8_pairs(exchange));
    assert(utf8_pairs(exchange) =~= seq![
        utf8_pair(("grant_type"@, "authorization_code"@)),
        utf8_pair(("code"@, code)),
        utf8_pair(("client_id"@, request.client_id)),
        utf8_pair(("redirect_uri"@, request.redirect_uri)),
    ]);
    let refresh = refresh_pairs(request, refresh_token);
    lemma_form_text_bytes(refresh);
    lemma_parse_serialize(utf8_pairs(refresh));
    assert(utf8_pairs(refresh) =~= seq![
        utf8_pair(("grant_type"@, "refresh_token"@)),
        utf8_pair(("refresh_token"@, refresh_token)),
        utf8_pair(("client_id"@, request.client_id)),
        utf8_pair(("redirect_uri"@, request.redirect_uri)),
    ]);
}

/// Whether an HTTP status reports success.
pub open spec fn is_success(status: u16) -> bool {
    200 <= status <= 299
}

/// The bundle that the fields of a token response make at `now`: it expires
/// at `now` plus the lifetime that the provider reports. There is none where
/// the access token or the lifetime is missing, or where that moment cannot
/// be written in an `i64`.
pub open spec fn bundle_of_fields(
    access_token: Option<Seq<char>>,
    refresh_token: Option<Seq<char>>,
    expires_in: Option<i64>,
    now: i64,
) -> Option<TokenBundleView> {
    if access_token is Some && expires_in is Some && i64::MIN <= now + expires_in.unwrap()
        <= i64::MAX {
        Some(
            TokenBundleView {
                access_token: access_token.unwrap(),
                refresh_token,
                expires_at: (now + expires_in.unwrap()) as i64,
            },
        )
    } else {
        None
    }
}

/// The bundle that the members of a token response make at `now`.
pub open spec fn bundle_of_members(members: Seq<MemberView>, now: i64) -> Option<TokenBundleView> {
    bundle_of_fields(
        member_text(members, "access_token"@),
        member_text(members, "refresh_token"@),
        member_integer(members, "expires_in"@),
        now,
    )
}

/// The bundle that a response of the token endpoint makes at `now`: none
/// unless the status reports success and the body is a JSON object.
pub open spec fn bundle_of_response(status: u16, body: Seq<char>, now: i64) -> Option<
    TokenBundleView,
> {
    if is_success(status) {
        match json_object(body) {
            Some(members) => bundle_of_members(members, now),
            None => None,
        }
    } else {
        None
    }
}

/// The failure of a token request, with the provider's answer as its detail.
pub open spec fn token_failure(grant: Grant, detail: Seq<char>) -> AuthErrorView {
    match grant {
        Grant::AuthorizationCode => AuthErrorView::TokenExchangeFailure(detail),
        Grant::RefreshToken => AuthErrorView::RefreshFailure(detail),
    }
}

/// What `token_from_response` yields.
pub open spec fn token_outcome(grant: Grant, status: u16, body: Seq<char>, now: i64) -> Result<
    TokenBundleView,
    AuthErrorView,
> {
    match bundle_of_response(status, body, now) {
        Some(bundle) => Ok(bundle),
        None => Err(token_failure(grant, body)),
    }
}

/// The view of a bundle.
pub open spec fn opt_bundle_view(r: Option<TokenBundle>) -> Option<TokenBundleView> {
    match r {
        Some(bundle) => Some(bundle@),
        None => None,
    }
}

/// The view of a bundle or of the failure to get one.
pub open spec fn bundle_result_view(r: Result<TokenBundle, AuthError>) -> Result<
    TokenBundleView,
    AuthErrorView,
> {
    match r {
        Ok(bundle) => Ok(bundle@),
        Err(e) => Err(e@),
    }
}

/// Makes a bundle from the fields of a token response.
pub fn bundle_from_fields(
    access_token: Option<String>,
    refresh_token: Option<String>,
    expires_in: Option<i64>,
    now: i64,
) -> (r: Option<TokenBundle>)
    ensures
        opt_bundle_view(r) == bundle_of_fields(
            opt_text(access_token),
            opt_text(refresh_token),
            expires_in,
            now,
        ),
{
    match (access_token, expires_in) {
        (Some(token), Some(lifetime)) => match now.checked_add(lifetime) {
            Some(expires_at) => Some(
                TokenBundle { access_token: token, refresh_token, expires_at },
            ),
            None => None,
        },
        _ => None,
    }
}

/// Makes a bundle from the members of a token response: `access_token`,
/// `refresh_token` where there is one, and `expires_in`.
pub fn bundle_from_members(members: &Vec<Member>, now: i64) -> (r: Option<TokenBundle>)
    ensures
        opt_bundle_view(r) == bundle_of_members(member_views(members@), now),
{
    bundle_from_fields(
        text_of(members, "access_token"),
        text_of(members, "refresh_token"),
        integer_of(members, "expires_in"),
        now,
    )
}

/// Reads the answer of the token endpoint.
///
/// A status of success with a JSON object that holds an `access_token` and
/// an `expires_in` gives the bundle, which expires `expires_in` seconds after
/// `now`. Anything else is the failure that belongs to the grant, with the
/// body as the provider's detail.
pub fn token_from_response(grant: Grant, status: u16, body: &str, now: i64) -> (r: Result<
    TokenBundle,
    AuthError,
>)
    ensures
        bundle_result_view(r) == token_outcome(grant, status, body@, now),
{
    let bundle = if 200 <= status && status <= 299 {
        match read_object(body) {
            Some(members) => bundle_from_members(&members, now),
            None => None,
        }
    } else {
        None
    };
    match bundle {
        Some(b) => Ok(b),
        None => Err(token_failed(grant, body)),
    }
}

/// The failure of a token request, with `detail` as the reason: what the
/// provider answered, or why it could not be reached.
pub fn token_failed(grant: Grant, detail: &str) -> (e: AuthError)
    ensures
        e@ == token_failure(grant, detail@),
{
    match grant {
        Grant::AuthorizationCode => AuthError::TokenExchangeFailure(detail.to_owned()),
        Grant::RefreshToken => AuthError::RefreshFailure(detail.to_owned()),
    }
}

} // verus!
