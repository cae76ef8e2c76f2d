use tdi::auth::get_oauth_client;
use tdi::auth::AuthError;
use tdi::auth::TokenBundle;
use tdi::auth::TokenRequest;
use tdi::auth::CLIENT_ID;
use tdi::auth::NO_REFRESH_TOKEN;
use tdi::json::Member;
use tdi::store::credential_from_members;
use tdi::store::logout;
use tdi::store::read_access_token;
use tdi::store::render_credential;
use tdi::store::FileAction;
use tdi::store::Lifecycle;
use tdi::store::Loaded;
use tdi::store::TokenRead;
use tdi::store::TokenStore;
use tdi::store::CREDENTIAL_FILE;

fn bundle(access: &str, refresh: Option<&str>, expires_at: i64) -> TokenBundle {
    TokenBundle {
        access_token: access.to_string(),
        refresh_token: refresh.map(|t| t.to_string()),
        expires_at,
    }
}

fn written(action: FileAction) -> String {
    match action {
        FileAction::Write(text) => text,
        FileAction::Delete => panic!("expected a write"),
    }
}

#[test]
fn credential_file_name() {
    assert_eq!(CREDENTIAL_FILE, "tdi.json");
}

#[test]
fn credential_text_is_exact() {
    assert_eq!(
        render_credential(&bundle("eyJ0", Some("M.R3"), 1_700_003_599)),
        "{\"access_token\":\"eyJ0\",\"refresh_token\":\"M.R3\",\"expires_at\":1700003599}"
    );
    assert_eq!(
        render_credential(&bundle("a\"b\\c\n", None, -42)),
        "{\"access_token\":\"a\\\"b\\\\c\\n\",\"refresh_token\":null,\"expires_at\":-42}"
    );
    assert_eq!(
        render_credential(&bundle("", Some(""), i64::MIN)),
        "{\"access_token\":\"\",\"refresh_token\":\"\",\"expires_at\":-9223372036854775808}"
    );
    assert_eq!(
        render_credential(&bundle("x", None, i64::MAX)),
        "{\"access_token\":\"x\",\"refresh_token\":null,\"expires_at\":9223372036854775807}"
    );
    assert_eq!(
        render_credential(&bundle("x", None, 0)),
        "{\"access_token\":\"x\",\"refresh_token\":null,\"expires_at\":0}"
    );
}

#[test]
fn save_then_load_returns_the_bundle() {
    let b = bundle("eyJ0", Some("M.R3"), 2000);
    let mut store = TokenStore::Absent;
    let action = store.save(b.duplicate());
    assert_eq!(action, FileAction::Write(render_credential(&b)));
    assert_eq!(store.load(1999), Ok(Loaded::Ready(b.duplicate())));
    assert_eq!(store, TokenStore::Holding(b));
}

#[test]
fn save_then_load_through_the_file_returns_the_bundle() {
    for b in [
        bundle("eyJ0", Some("M.R3"), 2000),
        bundle("quote\" backslash\\ tab\t \u{e9}\u{1f600}", None, -7),
        bundle("", Some(""), i64::MAX),
    ] {
        let mut store = TokenStore::Absent;
        let text = written(store.save(b.duplicate()));
        let read = TokenStore::read(Some(text.as_str()));
        assert_eq!(read, TokenStore::Holding(b.duplicate()));
        assert_eq!(read.load(b.expires_at - 1), Ok(Loaded::Ready(b)));
    }
}

#[test]
fn save_twice_is_idempotent() {
    let b = bundle("eyJ0", Some("M.R3"), 2000);
    let mut once = TokenStore::Corrupt;
    let first = once.save(b.duplicate());
    let mut twice = TokenStore::Corrupt;
    twice.save(b.duplicate());
    let second = twice.save(b.duplicate());
    assert_eq!(first, second);
    assert_eq!(once, twice);
    assert_eq!(once.load(0), twice.load(0));
    assert_eq!(twice.load(0), Ok(Loaded::Ready(b)));
}

#[test]
fn save_overwrites() {
    let mut store = TokenStore::Holding(bundle("old", None, 1));
    store.save(bundle("new", Some("r"), 9));
    assert_eq!(store, TokenStore::Holding(bundle("new", Some("r"), 9)));
}

#[test]
fn clear_then_load_signals_missing_file() {
    let mut store = TokenStore::Holding(bundle("eyJ0", Some("M.R3"), 2000));
    assert_eq!(store.clear(), FileAction::Delete);
    assert_eq!(store, TokenStore::Absent);
    assert_eq!(store.load(0), Err(AuthError::CredentialFileMissing));
    assert_eq!(TokenStore::read(None).load(0), Err(AuthError::CredentialFileMissing));
}

#[test]
fn clear_is_idempotent() {
    let mut store = TokenStore::Absent;
    assert_eq!(store.clear(), FileAction::Delete);
    assert_eq!(store.clear(), FileAction::Delete);
    assert_eq!(store, TokenStore::Absent);
}

#[test]
fn logout_forgets_the_credential() {
    let mut store = TokenStore::Holding(bundle("eyJ0", None, 2000));
    assert_eq!(logout(&mut store), FileAction::Delete);
    assert_eq!(store, TokenStore::Absent);
    let mut corrupt = TokenStore::Corrupt;
    assert_eq!(logout(&mut corrupt), FileAction::Delete);
    assert_eq!(corrupt, TokenStore::Absent);
}

#[test]
fn load_at_the_expiry_boundary() {
    let b = bundle("eyJ0", Some("M.R3"), 2000);
    let store = TokenStore::Holding(b.duplicate());
    assert_eq!(store.load(1999), Ok(Loaded::Ready(b.duplicate())));
    assert_eq!(store.load(2000), Ok(Loaded::Stale(b.duplicate())));
    assert_eq!(store.load(2001), Ok(Loaded::Stale(b)));
}

#[test]
fn expired_bundle_is_refreshed_once_and_expires_later() {
    let client = get_oauth_client(CLIENT_ID);
    let stale = bundle("old", Some("M.R3"), 2000);
    let mut store = TokenStore::Holding(stale.duplicate());
    let now = 5000;
    let request = match read_access_token(&store, &client, now) {
        Ok(TokenRead::Refresh(request)) => request,
        other => panic!("expected a refresh, got {:?}", other),
    };
    assert_eq!(
        request,
        TokenRequest {
            url: "https://login.microsoftonline.com/common/oauth2/v2.0/token".to_string(),
            body: "grant_type=refresh_token&refresh_token=M.R3&client_id=CLIENTID&redirect_uri=http%3A%2F%2Flocalhost%3A8000%2Fredirect".to_string(),
        }
    );
    let body = "{\"access_token\":\"new\",\"refresh_token\":\"M.R4\",\"expires_in\":3600}";
    let (fresh, action) = store.renew(200, body, now).unwrap();
    assert_eq!(fresh, bundle("new", Some("M.R4"), 8600));
    assert!(fresh.expires_at > stale.expires_at);
    assert_eq!(action, FileAction::Write(render_credential(&fresh)));
    assert_eq!(store, TokenStore::Holding(fresh));
    assert_eq!(read_access_token(&store, &client, now), Ok(TokenRead::Token("new".to_string())));
}

#[test]
fn failed_refresh_leaves_the_store_expired() {
    let stale = bundle("old", Some("M.R3"), 2000);
    let mut store = TokenStore::Holding(stale.duplicate());
    let body = "{\"error\":\"invalid_grant\"}";
    assert_eq!(store.renew(400, body, 5000), Err(AuthError::RefreshFailure(body.to_string())));
    assert_eq!(store, TokenStore::Holding(stale));
    assert_eq!(store.lifecycle(5000), Lifecycle::Expired);
}

#[test]
fn read_access_token_of_valid_bundle() {
    let client = get_oauth_client(CLIENT_ID);
    let store = TokenStore::Holding(bundle("eyJ0", None, 2000));
    assert_eq!(read_access_token(&store, &client, 1000), Ok(TokenRead::Token("eyJ0".to_string())));
}

#[test]
fn read_access_token_errors() {
    let client = get_oauth_client(CLIENT_ID);
    assert_eq!(
        read_access_token(&TokenStore::Absent, &client, 0),
        Err(AuthError::CredentialFileMissing)
    );
    assert_eq!(
        read_access_token(&TokenStore::Corrupt, &client, 0),
        Err(AuthError::CredentialFileCorrupt)
    );
    assert_eq!(
        read_access_token(&TokenStore::Holding(bundle("a", None, 5)), &client, 5),
        Err(AuthError::RefreshFailure(NO_REFRESH_TOKEN.to_string()))
    );
}

#[test]
fn lifecycle_follows_the_state_machine() {
    let mut store = TokenStore::read(None);
    assert_eq!(store.lifecycle(0), Lifecycle::Absent);
    store.save(bundle("a", Some("r"), 100));
    assert_eq!(store.lifecycle(99), Lifecycle::Valid);
    assert_eq!(store.lifecycle(100), Lifecycle::Expired);
    store.renew(200, "{\"access_token\":\"b\",\"expires_in\":50}", 100).unwrap();
    assert_eq!(store.lifecycle(100), Lifecycle::Valid);
    assert_eq!(store.lifecycle(150), Lifecycle::Expired);
    store.clear();
    assert_eq!(store.lifecycle(150), Lifecycle::Absent);
    assert_eq!(TokenStore::Corrupt.lifecycle(0), Lifecycle::Absent);
}

#[test]
fn reading_a_file_that_holds_a_bundle() {
    let text = "{ \"expires_at\": 12, \"access_token\": \"tok\", \"refresh_token\": null, \"extra\": [1, 2] }";
    assert_eq!(TokenStore::read(Some(text)), TokenStore::Holding(bundle("tok", None, 12)));
    let text = "{\"access_token\":\"tok\",\"expires_at\":-3,\"refresh_token\":\"r\"}";
    assert_eq!(TokenStore::read(Some(text)), TokenStore::Holding(bundle("tok", Some("r"), -3)));
}

#[test]
fn reading_a_corrupt_file() {
    for text in [
        "",
        "{",
        "null",
        "\"tok\"",
        "[]",
        "{}",
        "{\"access_token\":\"tok\"}",
        "{\"expires_at\":1}",
        "{\"access_token\":1,\"expires_at\":1}",
        "{\"access_token\":\"tok\",\"expires_at\":\"1\"}",
        "{\"access_token\":\"tok\",\"expires_at\":1e3}",
        "{\"access_token\":\"tok\",\"expires_at\":9223372036854775808}",
    ] {
        let store = TokenStore::read(Some(text));
        assert_eq!(store, TokenStore::Corrupt);
        assert_eq!(store.load(0), Err(AuthError::CredentialFileCorrupt));
    }
}

fn member(name: &str, rendered: &str, text: Option<&str>, integer: Option<i64>) -> Member {
    Member {
        name: name.to_string(),
        rendered: rendered.to_string(),
        text: text.map(|t| t.to_string()),
        integer,
    }
}

#[test]
fn credential_from_members_needs_token_and_expiry() {
    let token = member("access_token", "\"t\"", Some("t"), None);
    let expiry = member("expires_at", "7", None, Some(7));
    let refresh = member("refresh_token", "\"r\"", Some("r"), None);
    assert_eq!(
        credential_from_members(&vec![
            member("access_token", "\"t\"", Some("t"), None),
            member("expires_at", "7", None, Some(7)),
        ]),
        Some(bundle("t", None, 7))
    );
    assert_eq!(
        credential_from_members(&vec![
            member("refresh_token", "\"r\"", Some("r"), None),
            member("expires_at", "7", None, Some(7)),
            member("access_token", "\"t\"", Some("t"), None),
        ]),
        Some(bundle("t", Some("r"), 7))
    );
    assert_eq!(credential_from_members(&vec![token]), None);
    assert_eq!(credential_from_members(&vec![expiry, refresh]), None);
    assert_eq!(credential_from_members(&vec![]), None);
}

#[test]
fn the_store_follows_the_file() {
    let b = bundle("eyJ0", Some("M.R3"), 2000);
    let mut file: Option<String> = None;
    let mut store = TokenStore::read(file.as_deref());
    assert_eq!(store.load(0), Err(AuthError::CredentialFileMissing));

    file = store.save(b.duplicate()).apply(file);
    assert_eq!(file, Some(render_credential(&b)));
    assert_eq!(TokenStore::read(file.as_deref()), store);
    assert_eq!(TokenStore::read(file.as_deref()).load(0), Ok(Loaded::Ready(b.duplicate())));

    let again = store.save(b.duplicate()).apply(file.clone());
    assert_eq!(again, file);

    let fresh = "{\"access_token\":\"new\",\"expires_in\":5}";
    let (_, action) = store.renew(200, fresh, 3000).unwrap();
    file = action.apply(file);
    assert_eq!(TokenStore::read(file.as_deref()), store);
    assert_eq!(store, TokenStore::Holding(bundle("new", None, 3005)));

    file = store.clear().apply(file);
    assert_eq!(file, None);
    assert_eq!(TokenStore::read(file.as_deref()), TokenStore::Absent);
    assert_eq!(TokenStore::read(file.as_deref()).load(0), Err(AuthError::CredentialFileMissing));
    assert_eq!(store.clear().apply(file), None);
}

#[test]
fn written_members_read_back_in_any_order() {
    let token = || member("access_token", "\"t\"", Some("t"), None);
    let refresh = || member("refresh_token", "null", None, None);
    let expiry = || member("expires_at", "-7", None, Some(-7));
    let other = || member("scope", "\"user.read\"", Some("user.read"), None);
    for members in [
        vec![token(), refresh(), expiry()],
        vec![token(), expiry(), refresh()],
        vec![expiry(), other(), refresh(), token()],
        vec![other(), refresh(), token(), other(), expiry()],
    ] {
        assert_eq!(credential_from_members(&members), Some(bundle("t", None, -7)));
    }
}
