//! The token store: one slot that holds the current token bundle, kept in a
//! credential file.
//!
//! The store here is the image of that file in memory. Every operation says
//! what the store becomes and what has to happen to the file; reading and
//! writing the file itself is left to the caller.

use vstd::prelude::*;
use vstd::string::StringExecFns;
use crate::auth::bundle_of_response;
use crate::auth::expired;
use crate::auth::refresh_pairs;
use crate::auth::refresh_request;
use crate::auth::req_refresh_token;
use crate::auth::token_failure;
use crate::auth::token_from_response;
use crate::auth::AuthError;
use crate::auth::AuthErrorView;
use crate::auth::AuthorizationRequest;
use crate::auth::AuthorizationRequestView;
use crate::auth::Grant;
use crate::auth::TokenBundle;
use crate::auth::TokenBundleView;
use crate::auth::TokenRequest;
use crate::auth::TokenRequestView;
use crate::form::form_text;
use crate::json::integer_of;
use crate::json::json_object;
use crate::json::holds_only;
use crate::json::json_string;
use crate::json::lemma_member_named;
use crate::json::member_integer;
use crate::json::member_text;
use crate::json::member_views;
use crate::json::read_object;
use crate::json::push_string;
use crate::json::text_of;
use crate::json::Member;
use crate::json::MemberView;
use crate::text::opt_text;
use crate::text::push_signed_decimal;
use crate::text::signed_decimal_text;

verus! {

/// The name of the credential file within the configuration directory.
pub const CREDENTIAL_FILE: &'static str = "tdi.json";

/// Asks `directories::ProjectDirs::from` for the project's directories and
/// hands out `ProjectDirs::config_dir` as a string. There is none where the
/// system knows no home directory or the path is not Unicode. The outcome
/// depends on the platform and the environment: nothing is claimed of it.
#[verifier::external_body]
pub(crate) fn project_config_dir(qualifier: &str, organization: &str, application: &str) -> (r:
    Option<String>) {
    let dirs = directories::ProjectDirs::from(qualifier, organization, application)?;
    dirs.config_dir().to_str().map(|s| s.to_string())
}

/// The directory that the credential file and the caches are kept in, where
/// the system has one for this user.
pub fn get_config_dir() -> (r: Option<String>) {
    project_config_dir("com", "microsofthackathons", "tdi")
}

/// The path of a file within a directory.
pub open spec fn path_in(directory: Seq<char>, file: Seq<char>) -> Seq<char> {
    directory + seq!['/'] + file
}

/// The path of `file` within `directory`.
pub fn file_path(directory: &str, file: &str) -> (path: String)
    ensures
        path@ == path_in(directory@, file@),
{
    let mut path = directory.to_owned();
    path.push('/');
    path.append(file);
    path
}

/// The path of the credential file within the configuration directory.
pub fn credential_path(config_dir: &str) -> (path: String)
    ensures
        path@ == path_in(config_dir@, CREDENTIAL_FILE@),
{
    file_path(config_dir, CREDENTIAL_FILE)
}

/// What the credential file holds.
#[derive(Debug, PartialEq, Eq)]
pub enum TokenStore {
    /// There is no file: nobody is logged in.
    Absent,
    /// There is a file, and it does not hold a token bundle.
    Corrupt,
    /// The file holds this bundle.
    Holding(TokenBundle),
}

/// The mathematical value of a [`TokenStore`].
pub enum StoreView {
    Absent,
    Corrupt,
    Holding(TokenBundleView),
}

impl View for TokenStore {
    type V = StoreView;

    open spec fn view(&self) -> StoreView {
        match self {
            TokenStore::Absent => StoreView::Absent,
            TokenStore::Corrupt => StoreView::Corrupt,
            TokenStore::Holding(bundle) => StoreView::Holding(bundle@),
        }
    }
}

/// Where a credential stands in its life.
#[derive(Clone, Copy, Debug, PartialEq, Eq, Structural)]
pub enum Lifecycle {
    /// Nothing is stored.
    Absent,
    /// A bundle is stored and its access token can be used.
    Valid,
    /// A bundle is stored and its access token is stale.
    Expired,
}

/// What has to happen to the credential file.
#[derive(Debug, PartialEq, Eq)]
pub enum FileAction {
    /// Create the configuration directory if it is missing, and write the
    /// file with this content, over whatever it held.
    Write(String),
    /// Delete the file if there is one.
    Delete,
}

/// The mathematical value of a [`FileAction`].
pub enum FileActionView {
    Write(Seq<char>),
    Delete,
}

impl View for FileAction {
    type V = FileActionView;

    open spec fn view(&self) -> FileActionView {
        match self {
            FileAction::Write(content) => FileActionView::Write(content@),
            FileAction::Delete => FileActionView::Delete,
        }
    }
}

/// The credential file after an action, as its content: `None` stands for no
/// file.
pub open spec fn file_after(file: Option<Seq<char>>, action: FileActionView) -> Option<Seq<char>> {
    match action {
        FileActionView::Write(content) => Some(content),
        FileActionView::Delete => None,
    }
}

impl FileAction {
    /// Carries the action out on the content of a file held in memory.
    pub fn apply(self, file: Option<String>) -> (r: Option<String>)
        ensures
            opt_text(r) == file_after(opt_text(file), self@),
    {
        match self {
            FileAction::Write(content) => Some(content),
            FileAction::Delete => None,
        }
    }
}

/// What `load` finds.
#[derive(Debug, PartialEq, Eq)]
pub enum Loaded {
    /// A bundle whose access token can be used.
    Ready(TokenBundle),
    /// A bundle whose access token is stale: it has to be renewed, once,
    /// before it is handed out.
    Stale(TokenBundle),
}

/// The mathematical value of a [`Loaded`].
pub enum LoadedView {
    Ready(TokenBundleView),
    Stale(TokenBundleView),
}

impl View for Loaded {
    type V = LoadedView;

    open spec fn view(&self) -> LoadedView {
        match self {
            Loaded::Ready(bundle) => LoadedView::Ready(bundle@),
            Loaded::Stale(bundle) => LoadedView::Stale(bundle@),
        }
    }
}

/// The content of the credential file for a bundle: one JSON object with the
/// members `access_token`, `refresh_token` (`null` where there is none) and
/// `expires_at`.
pub open spec fn credential_text(bundle: TokenBundleView) -> Seq<char> {
    "{\"access_token\":"@ + json_string(bundle.access_token) + ",\"refresh_token\":"@ + (
    match bundle.refresh_token {
        Some(token) => json_string(token),
        None => "null"@,
    }) + ",\"expires_at\":"@ + signed_decimal_text(bundle.expires_at as int) + "}"@
}

/// The bundle that the members of a credential file make: there is none
/// where `access_token` is not a string or `expires_at` is not an integer.
pub open spec fn credential_of_members(members: Seq<MemberView>) -> Option<TokenBundleView> {
    if member_text(members, "access_token"@) is Some && member_integer(members, "expires_at"@)
        is Some {
        Some(
            TokenBundleView {
                access_token: member_text(members, "access_token"@).unwrap(),
                refresh_token: member_text(members, "refresh_token"@),
                expires_at: member_integer(members, "expires_at"@).unwrap(),
            },
        )
    } else {
        None
    }
}

/// The three members that a written credential consists of, as they read
/// where the JSON text of each value is read back as the value that was
/// written.
pub open spec fn written_members(bundle: TokenBundleView) -> Seq<MemberView> {
    seq![
        MemberView {
            name: "access_token"@,
            rendered: json_string(bundle.access_token),
            text: Some(bundle.access_token),
            integer: None,
        },
        MemberView {
            name: "refresh_token"@,
            rendered: match bundle.refresh_token {
                Some(token) => json_string(token),
                None => "null"@,
            },
            text: bundle.refresh_token,
            integer: None,
        },
        MemberView {
            name: "expires_at"@,
            rendered: signed_decimal_text(bundle.expires_at as int),
            text: None,
            integer: Some(bundle.expires_at),
        },
    ]
}

/// The store that a file makes: `None` stands for no file.
pub open spec fn store_of_file(content: Option<Seq<char>>) -> StoreView {
    match content {
        None => StoreView::Absent,
        Some(text) => match json_object(text) {
            None => StoreView::Corrupt,
            Some(members) => match credential_of_members(members) {
                Some(bundle) => StoreView::Holding(bundle),
                None => StoreView::Corrupt,
            },
        },
    }
}

/// The store after `save`.
pub open spec fn saved(store: StoreView, bundle: TokenBundleView) -> StoreView {
    StoreView::Holding(bundle)
}

/// The store after `clear`.
pub open spec fn cleared(store: StoreView) -> StoreView {
    StoreView::Absent
}

/// What `load` yields at `now`.
pub open spec fn loaded(store: StoreView, now: i64) -> Result<LoadedView, AuthErrorView> {
    match store {
        StoreView::Absent => Err(AuthErrorView::CredentialFileMissing),
        StoreView::Corrupt => Err(AuthErrorView::CredentialFileCorrupt),
        StoreView::Holding(bundle) => if expired(bundle.expires_at, now) {
            Ok(LoadedView::Stale(bundle))
        } else {
            Ok(LoadedView::Ready(bundle))
        },
    }
}

/// Where the credential stands at `now`. A file that holds no bundle counts
/// as none.
pub open spec fn lifecycle_at(store: StoreView, now: i64) -> Lifecycle {
    match store {
        StoreView::Holding(bundle) => if expired(bundle.expires_at, now) {
            Lifecycle::Expired
        } else {
            Lifecycle::Valid
        },
        _ => Lifecycle::Absent,
    }
}

/// The store after the answer to a refresh request has come in: the new
/// bundle where the answer holds one, and otherwise the store as it was.
pub open spec fn renewed(store: StoreView, status: u16, body: Seq<char>, now: i64) -> StoreView {
    match bundle_of_response(status, body, now) {
        Some(bundle) => StoreView::Holding(bundle),
        None => store,
    }
}

/// The view of what `load` yields.
pub open spec fn loaded_result_view(r: Result<Loaded, AuthError>) -> Result<
    LoadedView,
    AuthErrorView,
> {
    match r {
        Ok(found) => Ok(found@),
        Err(e) => Err(e@),
    }
}

/// The view of what `renew` yields.
pub open spec fn renewed_result_view(r: Result<(TokenBundle, FileAction), AuthError>) -> Result<
    (TokenBundleView, FileActionView),
    AuthErrorView,
> {
    match r {
        Ok(pair) => Ok((pair.0@, pair.1@)),
        Err(e) => Err(e@),
    }
}

/// Writes a bundle as the content of the credential file.
pub fn render_credential(bundle: &TokenBundle) -> (text: String)
    ensures
        text@ == credential_text(bundle@),
{
    let mut out = "{\"access_token\":".to_owned();
    push_string(&mut out, bundle.access_token.as_str());
    out.append(",\"refresh_token\":");
    match &bundle.refresh_token {
        Some(token) => {
            push_string(&mut out, token.as_str());
        },
        None => {
            out.append("null");
        },
    }
    out.append(",\"expires_at\":");
    push_signed_decimal(&mut out, bundle.expires_at);
    out.append("}");
    out
}

/// Makes a bundle from the members of a credential file.
pub fn credential_from_members(members: &Vec<Member>) -> (r: Option<TokenBundle>)
    ensures
        match r {
            Some(bundle) => credential_of_members(member_views(members@)) == Some(bundle@),
            None => credential_of_members(member_views(members@)) is None,
        },
{
    match (text_of(members, "access_token"), integer_of(members, "expires_at")) {
        (Some(access_token), Some(expires_at)) => Some(
            TokenBundle {
                access_token,
                refresh_token: text_of(members, "refresh_token"),
                expires_at,
            },
        ),
        _ => None,
    }
}

impl TokenStore {
    /// The store that the credential file makes. `None` stands for no file.
    pub fn read(content: Option<&str>) -> (store: TokenStore)
        ensures
            store@ == store_of_file(
                match content {
                    Some(text) => Some(text@),
                    None => None,
                },
            ),
    {
        match content {
            None => TokenStore::Absent,
            Some(text) => match read_object(text) {
                None => TokenStore::Corrupt,
                Some(members) => match credential_from_members(&members) {
                    Some(bundle) => TokenStore::Holding(bundle),
                    None => TokenStore::Corrupt,
                },
            },
        }
    }

    /// Stores a bundle in place of whatever was stored.
    pub fn save(&mut self, bundle: TokenBundle) -> (action: FileAction)
        ensures
            final(self)@ == saved(old(self)@, bundle@),
            action@ == FileActionView::Write(credential_text(bundle@)),
    {
        let text = render_credential(&bundle);
        *self = TokenStore::Holding(bundle);
        FileAction::Write(text)
    }

    /// Looks at what is stored.
    ///
    /// No file means that nobody is logged in, a file without a bundle is
    /// corrupt. A bundle is ready where it expires after `now`, and stale
    /// otherwise.
    pub fn load(&self, now: i64) -> (r: Result<Loaded, AuthError>)
        ensures
            loaded_result_view(r) == loaded(self@, now),
    {
        match self {
            TokenStore::Absent => Err(AuthError::CredentialFileMissing),
            TokenStore::Corrupt => Err(AuthError::CredentialFileCorrupt),
            TokenStore::Holding(bundle) => if bundle.is_expired(now) {
                Ok(Loaded::Stale(bundle.duplicate()))
            } else {
                Ok(Loaded::Ready(bundle.duplicate()))
            },
        }
    }

    /// Forgets what is stored. Nothing being stored is no error.
    pub fn clear(&mut self) -> (action: FileAction)
        ensures
            final(self)@ == cleared(old(self)@),
            action@ == FileActionView::Delete,
    {
        *self = TokenStore::Absent;
        FileAction::Delete
    }

    /// Where the credential stands at `now`.
    pub fn lifecycle(&self, now: i64) -> (r: Lifecycle)
        ensures
            r == lifecycle_at(self@, now),
    {
        match self {
            TokenStore::Holding(bundle) => if bundle.is_expired(now) {
                Lifecycle::Expired
            } else {
                Lifecycle::Valid
            },
            _ => Lifecycle::Absent,
        }
    }

    /// Takes the answer to a refresh request.
    ///
    /// Where it holds a bundle, that bundle is stored and handed out with the
    /// content to write. Where it does not, the refresh has failed and the
    /// store stays as it was: the user has to log in again.
    pub fn renew(&mut self, status: u16, body: &str, now: i64) -> (r: Result<
        (TokenBundle, FileAction),
        AuthError,
    >)
        ensures
            final(self)@ == renewed(old(self)@, status, body@, now),
            renewed_result_view(r) == (match bundle_of_response(status, body@, now) {
                Some(bundle) => Ok((bundle, FileActionView::Write(credential_text(bundle)))),
                None => Err(token_failure(Grant::RefreshToken, body@)),
            }),
    {
        match token_from_response(Grant::RefreshToken, status, body, now) {
            Ok(bundle) => {
                let copy = bundle.duplicate();
                let action = self.save(bundle);
                Ok((copy, action))
            },
            Err(e) => Err(e),
        }
    }
}

/// What reading the access token comes to.
#[derive(Debug, PartialEq, Eq)]
pub enum TokenRead {
    /// The access token, ready for use.
    Token(String),
    /// The stored token is stale: send this request, hand the answer to
    /// [`TokenStore::renew`], and use the token of the bundle that comes back.
    Refresh(TokenRequest),
}

/// The mathematical value of a [`TokenRead`].
pub enum TokenReadView {
    Token(Seq<char>),
    Refresh(TokenRequestView),
}

impl View for TokenRead {
    type V = TokenReadView;

    open spec fn view(&self) -> TokenReadView {
        match self {
            TokenRead::Token(token) => TokenReadView::Token(token@),
            TokenRead::Refresh(request) => TokenReadView::Refresh(request@),
        }
    }
}

/// What `read_access_token` yields.
pub open spec fn access_token_read(
    store: StoreView,
    client: AuthorizationRequestView,
    now: i64,
) -> Result<TokenReadView, AuthErrorView> {
    match loaded(store, now) {
        Err(e) => Err(e),
        Ok(LoadedView::Ready(bundle)) => Ok(TokenReadView::Token(bundle.access_token)),
        Ok(LoadedView::Stale(bundle)) => match refresh_request(client, bundle) {
            Ok(request) => Ok(TokenReadView::Refresh(request)),
            Err(e) => Err(e),
        },
    }
}

/// The view of what `read_access_token` yields.
pub open spec fn read_result_view(r: Result<TokenRead, AuthError>) -> Result<
    TokenReadView,
    AuthErrorView,
> {
    match r {
        Ok(read) => Ok(read@),
        Err(e) => Err(e@),
    }
}

/// Reads the access token for a call of the Graph API.
///
/// A bundle that is still valid gives its access token. A stale bundle gives
/// the one refresh request that renews it. Without a file nobody is logged
/// in; a file without a bundle is corrupt; a stale bundle without a refresh
/// token cannot be renewed.
pub fn read_access_token(store: &TokenStore, client: &AuthorizationRequest, now: i64) -> (r:
    Result<TokenRead, AuthError>)
    ensures
        read_result_view(r) == access_token_read(store@, client@, now),
{
    match store.load(now) {
        Err(e) => Err(e),
        Ok(Loaded::Ready(bundle)) => Ok(TokenRead::Token(bundle.access_token)),
        Ok(Loaded::Stale(bundle)) => match req_refresh_token(client, &bundle) {
            Ok(request) => Ok(TokenRead::Refresh(request)),
            Err(e) => Err(e),
        },
    }
}

/// Logs out: the stored credential is forgotten and its file is to be
/// deleted. Logging out twice, or without being logged in, is no error.
pub fn logout(store: &mut TokenStore) -> (action: FileAction)
    ensures
        final(store)@ == StoreView::Absent,
        action@ == FileActionView::Delete,
{
    store.clear()
}

/// The keys that are written are the keys that are read: members that hold
/// the three members of a written credential, each as the only one of its
/// name, in any order and among any others, make the bundle that was
/// written. So where reading the content that `save` writes gives such
/// members, the store that is read from the file holds the bundle that was
/// saved.
pub proof fn lemma_written_credential_reads_back(
    bundle: TokenBundleView,
    members: Seq<MemberView>,
)
    requires
        holds_only(members, written_members(bundle)[0]),
        holds_only(members, written_members(bundle)[1]),
        holds_only(members, written_members(bundle)[2]),
    ensures
        credential_of_members(members) == Some(bundle),
        json_object(credential_text(bundle)) == Some(members) ==> store_of_file(
            Some(credential_text(bundle)),
        ) == StoreView::Holding(bundle),
{
    lemma_member_named(members, written_members(bundle)[0]);
    lemma_member_named(members, written_members(bundle)[1]);
    lemma_member_named(members, written_members(bundle)[2]);
}

/// The three members of a written credential, as they are written, make the
/// bundle that was written.
pub proof fn lemma_written_members_read_back(bundle: TokenBundleView)
    ensures
        credential_of_members(written_members(bundle)) == Some(bundle),
{
    reveal_strlit("access_token");
    reveal_strlit("refresh_token");
    reveal_strlit("expires_at");
    let members = written_members(bundle);
    assert(members[0].name.len() == 12);
    assert(members[1].name.len() == 13);
    assert(members[2].name.len() == 10);
    lemma_written_credential_reads_back(bundle, members);
}

/// Round trip: a bundle that was saved and has not expired is what `load`
/// hands out.
pub proof fn lemma_save_then_load(store: StoreView, bundle: TokenBundleView, now: i64)
    requires
        !expired(bundle.expires_at, now),
    ensures
        loaded(saved(store, bundle), now) == Ok::<LoadedView, AuthErrorView>(
            LoadedView::Ready(bundle),
        ),
{
}

/// Saving the same bundle twice leaves the store, and the file, as saving it
/// once does, so `load` hands out the same.
pub proof fn lemma_save_is_idempotent(
    store: StoreView,
    file: Option<Seq<char>>,
    bundle: TokenBundleView,
    now: i64,
)
    ensures
        saved(saved(store, bundle), bundle) == saved(store, bundle),
        loaded(saved(saved(store, bundle), bundle), now) == loaded(saved(store, bundle), now),
        file_after(
            file_after(file, FileActionView::Write(credential_text(bundle))),
            FileActionView::Write(credential_text(bundle)),
        ) == file_after(file, FileActionView::Write(credential_text(bundle))),
{
}

/// After `clear`, `load` reports that the credential file is missing,
/// whatever was stored before. The same holds of the store that is read
/// from the file once the file has been deleted. Clearing twice is clearing
/// once.
pub proof fn lemma_clear_then_load(store: StoreView, file: Option<Seq<char>>, now: i64)
    ensures
        loaded(cleared(store), now) == Err::<LoadedView, AuthErrorView>(
            AuthErrorView::CredentialFileMissing,
        ),
        loaded(store_of_file(file_after(file, FileActionView::Delete)), now) == Err::<
            LoadedView,
            AuthErrorView,
        >(AuthErrorView::CredentialFileMissing),
        cleared(cleared(store)) == cleared(store),
{
}

/// Expiry boundary: a stored bundle whose expiry is not after `now` is
/// found stale, and reading the access token asks for one refresh request.
/// Where the answer holds a bundle that expires after `now`, that is one
/// with a positive lifetime, the renewed bundle expires strictly later than
/// the stale one, the store holds it, and loading again at `now` finds it
/// ready, so that nothing more is refreshed.
pub proof fn lemma_refresh_advances_expiry(
    stale: TokenBundleView,
    client: AuthorizationRequestView,
    now: i64,
    status: u16,
    body: Seq<char>,
)
    requires
        expired(stale.expires_at, now),
        stale.refresh_token is Some,
    ensures
        loaded(StoreView::Holding(stale), now) == Ok::<LoadedView, AuthErrorView>(
            LoadedView::Stale(stale),
        ),
        access_token_read(StoreView::Holding(stale), client, now) == Ok::<
            TokenReadView,
            AuthErrorView,
        >(
            TokenReadView::Refresh(
                TokenRequestView {
                    url: client.token_endpoint,
                    body: form_text(refresh_pairs(client, stale.refresh_token.unwrap())),
                },
            ),
        ),
        match bundle_of_response(status, body, now) {
            Some(fresh) => {
                &&& renewed(StoreView::Holding(stale), status, body, now) == StoreView::Holding(
                    fresh,
                )
                &&& fresh.expires_at > now ==> fresh.expires_at > stale.expires_at
                &&& fresh.expires_at > now ==> loaded(
                    renewed(StoreView::Holding(stale), status, body, now),
                    now,
                ) == Ok::<LoadedView, AuthErrorView>(LoadedView::Ready(fresh))
            },
            None => renewed(StoreView::Holding(stale), status, body, now) == StoreView::Holding(
                stale,
            ),
        },
{
}

/// A bundle that has expired stays expired as time goes on, and one that is
/// still valid was valid at every earlier moment.
pub proof fn lemma_expiry_is_permanent(bundle: TokenBundleView, now: i64, later: i64)
    requires
        now <= later,
    ensures
        expired(bundle.expires_at, now) ==> expired(bundle.expires_at, later),
        !expired(bundle.expires_at, later) ==> !expired(bundle.expires_at, now),
{
}

/// The life of a credential: logging in makes it valid, time makes it
/// expire, a refresh that succeeds makes it valid again, a refresh that
/// fails leaves it expired, and logging out makes it absent.
pub proof fn lemma_lifecycle(
    store: StoreView,
    bundle: TokenBundleView,
    now: i64,
    later: i64,
    status: u16,
    body: Seq<char>,
)
    requires
        !expired(bundle.expires_at, now),
        expired(bundle.expires_at, later),
    ensures
        lifecycle_at(StoreView::Absent, now) == Lifecycle::Absent,
        lifecycle_at(saved(store, bundle), now) == Lifecycle::Valid,
        lifecycle_at(saved(store, bundle), later) == Lifecycle::Expired,
        lifecycle_at(cleared(store), now) == Lifecycle::Absent,
        bundle_of_response(status, body, later) is None ==> lifecycle_at(
            renewed(saved(store, bundle), status, body, later),
            later,
        ) == Lifecycle::Expired,
{
}

} // verus!
