use tdi::json::find;
use tdi::json::integer_of;
use tdi::json::Member;
use tdi::json::push_string;
use tdi::json::text_of;
use tdi::user::render_user;
use tdi::user::show_me;
use tdi::user::user_from_members;
use tdi::user::MissingField;
use tdi::user::Rendering;
use tdi::user::User;

const PROFILE: &str = "{\"@odata.context\":\"https://graph.microsoft.com/v1.0/$metadata#users/$entity\",\"businessPhones\":[\"+1 412 555 0109\"],\"displayName\":\"Megan Bowen\",\"givenName\":\"Megan\",\"jobTitle\":null,\"mail\":\"MeganB@contoso.com\",\"mobilePhone\":null,\"officeLocation\":\"12/1110\",\"preferredLanguage\":\"en-US\",\"surname\":\"Bowen\",\"userPrincipalName\":\"MeganB@contoso.com\",\"id\":\"48d31887-5fad-4d73-a9f5-3c356e68a038\"}";

fn megan() -> User {
    User::new(
        "Megan Bowen".to_string(),
        "Megan".to_string(),
        "Bowen".to_string(),
        "48d31887-5fad-4d73-a9f5-3c356e68a038".to_string(),
        "null".to_string(),
        "MeganB@contoso.com".to_string(),
        "null".to_string(),
        "12/1110".to_string(),
        "MeganB@contoso.com".to_string(),
    )
}

fn member(name: &str, rendered: &str, text: Option<&str>, integer: Option<i64>) -> Member {
    Member {
        name: name.to_string(),
        rendered: rendered.to_string(),
        text: text.map(|t| t.to_string()),
        integer,
    }
}

fn text_member(name: &str, text: &str) -> Member {
    member(name, &format!("\"{}\"", text), Some(text), None)
}

fn strings(items: &[&str]) -> Vec<String> {
    items.iter().map(|s| s.to_string()).collect()
}

fn row(caption: &str, value: &str) -> (String, String) {
    (caption.to_string(), value.to_string())
}

#[test]
fn new_user_keeps_its_fields() {
    let u = User::new(
        "a".to_string(),
        "b".to_string(),
        "c".to_string(),
        "d".to_string(),
        "e".to_string(),
        "f".to_string(),
        "g".to_string(),
        "h".to_string(),
        "i".to_string(),
    );
    assert_eq!(u.display_name, "a");
    assert_eq!(u.given_name, "b");
    assert_eq!(u.surname, "c");
    assert_eq!(u.id, "d");
    assert_eq!(u.job_title, "e");
    assert_eq!(u.mail, "f");
    assert_eq!(u.mobile_phone, "g");
    assert_eq!(u.office_location, "h");
    assert_eq!(u.user_principal_name, "i");
}

#[test]
fn empty_user_has_empty_fields() {
    let u = User::empty();
    assert_eq!(
        u,
        User::new(
            String::new(),
            String::new(),
            String::new(),
            String::new(),
            String::new(),
            String::new(),
            String::new(),
            String::new(),
            String::new(),
        )
    );
}

#[test]
fn profile_is_read_from_the_members() {
    let members = vec![
        member("businessPhones", "[\"+1 412 555 0109\"]", None, None),
        text_member("displayName", "Megan Bowen"),
        text_member("givenName", "Megan"),
        text_member("id", "48d31887-5fad-4d73-a9f5-3c356e68a038"),
        member("jobTitle", "null", None, None),
        text_member("mail", "MeganB@contoso.com"),
        member("mobilePhone", "null", None, None),
        text_member("officeLocation", "12/1110"),
        text_member("surname", "Bowen"),
        text_member("userPrincipalName", "MeganB@contoso.com"),
    ];
    assert_eq!(user_from_members(&members), Ok(megan()));
}

#[test]
fn profile_is_read_from_the_body() {
    assert_eq!(show_me(PROFILE, "table"), Ok(render_user(megan(), tdi::cli::OutputFormat::Table)));
}

#[test]
fn profile_values_lose_every_double_quote() {
    let body = "{\"displayName\":\"Meg \\\"the\\\" B\",\"givenName\":7,\"surname\":true,\"id\":[\"a\",\"b\"],\"jobTitle\":{\"k\":\"v\"},\"mail\":\"\",\"mobilePhone\":1.5,\"officeLocation\":\"a\\\\b\",\"userPrincipalName\":\"\u{e9}\"}";
    assert_eq!(
        show_me(body, "table"),
        Ok(render_user(User::new(
            "Meg \\the\\ B".to_string(),
            "7".to_string(),
            "true".to_string(),
            "[a,b]".to_string(),
            "{k:v}".to_string(),
            "".to_string(),
            "1.5".to_string(),
            "a\\\\b".to_string(),
            "\u{e9}".to_string(),
        ), tdi::cli::OutputFormat::Table))
    );
}

#[test]
fn profile_lacking_a_member_names_the_first_one_missing() {
    let body = "{\"displayName\":\"a\",\"givenName\":\"b\",\"id\":\"d\",\"jobTitle\":\"e\",\"mail\":\"f\",\"officeLocation\":\"h\",\"userPrincipalName\":\"i\"}";
    let members = vec![text_member("displayName", "a"), text_member("givenName", "b")];
    assert_eq!(user_from_members(&members), Err(MissingField { name: "surname".to_string() }));
    assert_eq!(user_from_members(&vec![]), Err(MissingField { name: "displayName".to_string() }));
    assert_eq!(show_me(body, "lines"), Err(MissingField { name: "surname".to_string() }));
    assert_eq!(show_me("{}", "json"), Err(MissingField { name: "displayName".to_string() }));
}

#[test]
fn show_me_as_lines() {
    let expected = strings(&[
        "Display Name: \"Megan Bowen\"",
        "Given Name: \"Megan\"",
        "Surname: \"Bowen\"",
        "ID: \"48d31887-5fad-4d73-a9f5-3c356e68a038\"",
        "Mail: \"MeganB@contoso.com\"",
        "Mobile Phone: \"null\"",
        "Office Location: \"12/1110\"",
        "User Principal Name: \"MeganB@contoso.com\"",
    ]);
    assert_eq!(show_me(PROFILE, "lines"), Ok(Rendering::Lines(expected.clone())));
    assert_eq!(show_me(PROFILE, "anything else"), Ok(Rendering::Lines(expected.clone())));
    assert_eq!(show_me(PROFILE, ""), Ok(Rendering::Lines(expected.clone())));
    assert_eq!(show_me(PROFILE, "JSON"), Ok(Rendering::Lines(expected)));
}

#[test]
fn show_me_as_table() {
    assert_eq!(
        show_me(PROFILE, "table"),
        Ok(Rendering::Table(vec![
            row("Display Name", "Megan Bowen"),
            row("Given Name", "Megan"),
            row("Surname", "Bowen"),
            row("ID", "48d31887-5fad-4d73-a9f5-3c356e68a038"),
            row("Mail", "MeganB@contoso.com"),
            row("Mobile Phone", "null"),
            row("Office Location", "12/1110"),
            row("User Principal Name", "MeganB@contoso.com"),
        ]))
    );
}

#[test]
fn show_me_as_json() {
    assert_eq!(
        show_me(PROFILE, "json"),
        Ok(Rendering::Json(
            "{\"displayName\":\"Megan Bowen\",\"givenName\":\"Megan\",\"surname\":\"Bowen\",\"id\":\"48d31887-5fad-4d73-a9f5-3c356e68a038\",\"jobTitle\":\"null\",\"mail\":\"MeganB@contoso.com\",\"mobilePhone\":\"null\",\"officeLocation\":\"12/1110\",\"userPrincipalName\":\"MeganB@contoso.com\"}".to_string()
        ))
    );
}

#[test]
fn body_that_is_no_object_gives_the_empty_profile() {
    for body in ["[]", "null", "3", "\"text\"", "", "{\"displayName\":"] {
        assert_eq!(show_me(body, "table"), Ok(render_user(User::empty(), tdi::cli::OutputFormat::Table)));
    }
    assert_eq!(
        show_me("[]", "lines"),
        Ok(Rendering::Lines(strings(&[
            "Display Name: \"\"",
            "Given Name: \"\"",
            "Surname: \"\"",
            "ID: \"\"",
            "Mail: \"\"",
            "Mobile Phone: \"\"",
            "Office Location: \"\"",
            "User Principal Name: \"\"",
        ])))
    );
}

#[test]
fn lines_escape_as_debug_does() {
    let mut u = User::empty();
    u.display_name = "tab\there \\ \u{e9}".to_string();
    let lines = u.as_lines();
    assert_eq!(lines[0], "Display Name: \"tab\\there \\\\ \u{e9}\"");
    assert_eq!(lines.len(), 8);
}

#[test]
fn json_escapes_as_json_does() {
    let mut u = User::empty();
    u.job_title = "a\"b\\c\n\u{1}".to_string();
    assert_eq!(
        u.as_json(),
        "{\"displayName\":\"\",\"givenName\":\"\",\"surname\":\"\",\"id\":\"\",\"jobTitle\":\"a\\\"b\\\\c\\n\\u0001\",\"mail\":\"\",\"mobilePhone\":\"\",\"officeLocation\":\"\",\"userPrincipalName\":\"\"}"
    );
}

#[test]
fn table_leaves_the_job_title_out() {
    let rows = megan().as_table();
    assert_eq!(rows.len(), 8);
    assert!(rows.iter().all(|(caption, _)| caption != "Job Title"));
}

#[test]
fn members_are_found_by_name() {
    let members = vec![
        member("a", "-12", None, Some(-12)),
        text_member("b", "text"),
        member("c", "null", None, None),
        member("a", "7", None, Some(7)),
    ];
    assert_eq!(find(&members, "a"), Some(&members[0]));
    assert_eq!(find(&members, "b"), Some(&members[1]));
    assert_eq!(find(&members, "c"), Some(&members[2]));
    assert!(find(&members, "e").is_none());
    assert!(find(&members, "").is_none());
    assert!(find(&vec![], "a").is_none());
    assert_eq!(text_of(&members, "b"), Some("text".to_string()));
    assert_eq!(text_of(&members, "a"), None);
    assert_eq!(text_of(&members, "zz"), None);
    assert_eq!(integer_of(&members, "a"), Some(-12));
    assert_eq!(integer_of(&members, "b"), None);
    assert_eq!(integer_of(&members, "zz"), None);
}

#[test]
fn json_values_are_read_by_their_kind() {
    let body = "{\"expires_in\":18446744073709551615,\"access_token\":\"t\"}";
    assert!(tdi::auth::token_from_response(tdi::auth::Grant::AuthorizationCode, 200, body, 0).is_err());
    let body = "{\"expires_in\":-12,\"access_token\":\"t\",\"refresh_token\":17}";
    let bundle = tdi::auth::token_from_response(tdi::auth::Grant::AuthorizationCode, 200, body, 20).unwrap();
    assert_eq!(bundle.expires_at, 8);
    assert_eq!(bundle.refresh_token, None);
}

#[test]
fn repeated_member_names_keep_the_last_value() {
    let body = "{\"access_token\":\"first\",\"expires_in\":1,\"access_token\":\"last\"}";
    let bundle = tdi::auth::token_from_response(tdi::auth::Grant::AuthorizationCode, 200, body, 0).unwrap();
    assert_eq!(bundle.access_token, "last");
}

#[test]
fn trailing_text_is_no_json() {
    let body = "{\"access_token\":\"t\",\"expires_in\":1} x";
    assert!(tdi::auth::token_from_response(tdi::auth::Grant::AuthorizationCode, 200, body, 0).is_err());
    let body = " {\"access_token\":\"t\",\"expires_in\":1} ";
    assert!(tdi::auth::token_from_response(tdi::auth::Grant::AuthorizationCode, 200, body, 0).is_ok());
}

#[test]
fn push_string_writes_a_json_literal() {
    let mut out = String::from("x:");
    push_string(&mut out, "a\"b");
    assert_eq!(out, "x:\"a\\\"b\"");
    let mut out = String::new();
    push_string(&mut out, "");
    assert_eq!(out, "\"\"");
}
