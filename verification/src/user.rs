//! The signed-in user's profile.

use vstd::prelude::*;
use vstd::string::StringExecFns;
use crate::cli::format_named;
use crate::cli::OutputFormat;
use crate::json::find;
use crate::json::json_object;
use crate::json::json_string;
use crate::json::member_named;
use crate::json::member_views;
use crate::json::read_object;
use crate::json::push_string;
use crate::json::Member;
use crate::json::MemberView;
use crate::text::debug_text;
use crate::text::labelled_debug;
use crate::text::remove_char;
use crate::text::texts;
use crate::text::without;

verus! {

/// A user of the directory, as the profile endpoint describes them.
#[derive(Debug, PartialEq, Eq)]
pub struct User {
    pub display_name: String,
    pub given_name: String,
    pub surname: String,
    pub id: String,
    pub job_title: String,
    pub mail: String,
    pub mobile_phone: String,
    pub office_location: String,
    pub user_principal_name: String,
}

/// The mathematical value of a [`User`].
pub struct UserView {
    pub display_name: Seq<char>,
    pub given_name: Seq<char>,
    pub surname: Seq<char>,
    pub id: Seq<char>,
    pub job_title: Seq<char>,
    pub mail: Seq<char>,
    pub mobile_phone: Seq<char>,
    pub office_location: Seq<char>,
    pub user_principal_name: Seq<char>,
}

impl View for User {
    type V = UserView;

    open spec fn view(&self) -> UserView {
        UserView {
            display_name: self.display_name@,
            given_name: self.given_name@,
            surname: self.surname@,
            id: self.id@,
            job_title: self.job_title@,
            mail: self.mail@,
            mobile_phone: self.mobile_phone@,
            office_location: self.office_location@,
            user_principal_name: self.user_principal_name@,
        }
    }
}

/// The profile whose every field is empty.
pub open spec fn empty_user() -> UserView {
    UserView {
        display_name: Seq::empty(),
        given_name: Seq::empty(),
        surname: Seq::empty(),
        id: Seq::empty(),
        job_title: Seq::empty(),
        mail: Seq::empty(),
        mobile_phone: Seq::empty(),
        office_location: Seq::empty(),
        user_principal_name: Seq::empty(),
    }
}

/// A profile document that lacks a member.
#[derive(Debug, PartialEq, Eq)]
pub struct MissingField {
    /// The name of the first member that was looked for and not found.
    pub name: String,
}

/// What a command hands to the terminal.
#[derive(Debug, PartialEq, Eq)]
pub enum Rendering {
    /// Lines of text, printed one by one.
    Lines(Vec<String>),
    /// One JSON document.
    Json(String),
    /// The rows of a table with two columns: a caption in bold, a value.
    Table(Vec<(String, String)>),
    /// Such a table under a title row.
    TitledTable { title: (String, String), rows: Vec<(String, String)> },
}

/// The mathematical value of a [`Rendering`].
pub enum RenderingView {
    Lines(Seq<Seq<char>>),
    Json(Seq<char>),
    Table(Seq<(Seq<char>, Seq<char>)>),
    TitledTable { title: (Seq<char>, Seq<char>), rows: Seq<(Seq<char>, Seq<char>)> },
}

/// The views of the rows of a table.
pub open spec fn row_views(rows: Seq<(String, String)>) -> Seq<(Seq<char>, Seq<char>)> {
    rows.map_values(|row: (String, String)| (row.0@, row.1@))
}

impl View for Rendering {
    type V = RenderingView;

    open spec fn view(&self) -> RenderingView {
        match self {
            Rendering::Lines(lines) => RenderingView::Lines(texts(lines@)),
            Rendering::Json(document) => RenderingView::Json(document@),
            Rendering::Table(rows) => RenderingView::Table(row_views(rows@)),
            Rendering::TitledTable { title, rows } => RenderingView::TitledTable {
                title: (title.0@, title.1@),
                rows: row_views(rows@),
            },
        }
    }
}

/// The rows of the profile table: every field but the job title.
pub open spec fn user_rows(u: UserView) -> Seq<(Seq<char>, Seq<char>)> {
    seq![
        ("Display Name"@, u.display_name),
        ("Given Name"@, u.given_name),
        ("Surname"@, u.surname),
        ("ID"@, u.id),
        ("Mail"@, u.mail),
        ("Mobile Phone"@, u.mobile_phone),
        ("Office Location"@, u.office_location),
        ("User Principal Name"@, u.user_principal_name),
    ]
}

/// The profile as lines: a caption, then the field as `{:?}` prints it.
pub open spec fn user_lines(u: UserView) -> Seq<Seq<char>> {
    seq![
        "Display Name: "@ + debug_text(u.display_name),
        "Given Name: "@ + debug_text(u.given_name),
        "Surname: "@ + debug_text(u.surname),
        "ID: "@ + debug_text(u.id),
        "Mail: "@ + debug_text(u.mail),
        "Mobile Phone: "@ + debug_text(u.mobile_phone),
        "Office Location: "@ + debug_text(u.office_location),
        "User Principal Name: "@ + debug_text(u.user_principal_name),
    ]
}

/// The profile as one JSON object, all nine fields under their camel-case
/// names.
pub open spec fn user_json(u: UserView) -> Seq<char> {
    "{\"displayName\":"@ + json_string(u.display_name) + ",\"givenName\":"@ + json_string(
        u.given_name,
    ) + ",\"surname\":"@ + json_string(u.surname) + ",\"id\":"@ + json_string(u.id)
        + ",\"jobTitle\":"@ + json_string(u.job_title) + ",\"mail\":"@ + json_string(u.mail)
        + ",\"mobilePhone\":"@ + json_string(u.mobile_phone) + ",\"officeLocation\":"@
        + json_string(u.office_location) + ",\"userPrincipalName\":"@ + json_string(
        u.user_principal_name,
    ) + "}"@
}

impl User {
    pub fn new(
        display_name: String,
        given_name: String,
        surname: String,
        id: String,
        job_title: String,
        mail: String,
        mobile_phone: String,
        office_location: String,
        user_principal_name: String,
    ) -> (u: User)
        ensures
            u@ == (UserView {
                display_name: display_name@,
                given_name: given_name@,
                surname: surname@,
                id: id@,
                job_title: job_title@,
                mail: mail@,
                mobile_phone: mobile_phone@,
                office_location: office_location@,
                user_principal_name: user_principal_name@,
            }),
    {
        User {
            display_name,
            given_name,
            surname,
            id,
            job_title,
            mail,
            mobile_phone,
            office_location,
            user_principal_name,
        }
    }

    pub fn empty() -> (u: User)
        ensures
            u@ == empty_user(),
    {
        User {
            display_name: String::new(),
            given_name: String::new(),
            surname: String::new(),
            id: String::new(),
            job_title: String::new(),
            mail: String::new(),
            mobile_phone: String::new(),
            office_location: String::new(),
            user_principal_name: String::new(),
        }
    }

    /// The rows of the profile table.
    pub fn as_table(self) -> (rows: Vec<(String, String)>)
        ensures
            row_views(rows@) == user_rows(self@),
    {
        let mut rows: Vec<(String, String)> = Vec::new();
        rows.push(("Display Name".to_owned(), self.display_name));
        rows.push(("Given Name".to_owned(), self.given_name));
        rows.push(("Surname".to_owned(), self.surname));
        rows.push(("ID".to_owned(), self.id));
        rows.push(("Mail".to_owned(), self.mail));
        rows.push(("Mobile Phone".to_owned(), self.mobile_phone));
        rows.push(("Office Location".to_owned(), self.office_location));
        rows.push(("User Principal Name".to_owned(), self.user_principal_name));
        rows
    }

    /// The profile as one JSON object.
    pub fn as_json(self) -> (document: String)
        ensures
            document@ == user_json(self@),
    {
        let mut out = "{\"displayName\":".to_owned();
        push_string(&mut out, self.display_name.as_str());
        out.append(",\"givenName\":");
        push_string(&mut out, self.given_name.as_str());
        out.append(",\"surname\":");
        push_string(&mut out, self.surname.as_str());
        out.append(",\"id\":");
        push_string(&mut out, self.id.as_str());
        out.append(",\"jobTitle\":");
        push_string(&mut out, self.job_title.as_str());
        out.append(",\"mail\":");
        push_string(&mut out, self.mail.as_str());
        out.append(",\"mobilePhone\":");
        push_string(&mut out, self.mobile_phone.as_str());
        out.append(",\"officeLocation\":");
        push_string(&mut out, self.office_location.as_str());
        out.append(",\"userPrincipalName\":");
        push_string(&mut out, self.user_principal_name.as_str());
        out.append("}");
        out
    }

    /// The profile as lines of text.
    pub fn as_lines(self) -> (lines: Vec<String>)
        ensures
            texts(lines@) == user_lines(self@),
    {
        let mut lines: Vec<String> = Vec::new();
        lines.push(labelled_debug("Display Name: ", self.display_name.as_str()));
        lines.push(labelled_debug("Given Name: ", self.given_name.as_str()));
        lines.push(labelled_debug("Surname: ", self.surname.as_str()));
        lines.push(labelled_debug("ID: ", self.id.as_str()));
        lines.push(labelled_debug("Mail: ", self.mail.as_str()));
        lines.push(labelled_debug("Mobile Phone: ", self.mobile_phone.as_str()));
        lines.push(labelled_debug("Office Location: ", self.office_location.as_str()));
        lines.push(labelled_debug("User Principal Name: ", self.user_principal_name.as_str()));
        lines
    }
}

/// A member's value as the profile shows it: its JSON text without any double
/// quote. `None` where the object has no such member.
pub open spec fn shown_member(members: Seq<MemberView>, name: Seq<char>) -> Option<Seq<char>> {
    match member_named(members, name) {
        Some(m) => Some(without(m.rendered, '"')),
        None => None,
    }
}

/// The names of the members that make up a profile, in the order in which
/// they are read.
pub open spec fn profile_members() -> Seq<Seq<char>> {
    seq![
        "displayName"@,
        "givenName"@,
        "surname"@,
        "id"@,
        "jobTitle"@,
        "mail"@,
        "mobilePhone"@,
        "officeLocation"@,
        "userPrincipalName"@,
    ]
}

/// The first of the first `n` profile members that `members` lacks.
pub open spec fn first_missing(members: Seq<MemberView>, n: nat) -> Option<Seq<char>>
    recommends
        n <= 9,
    decreases n,
{
    if n == 0 {
        None
    } else {
        match first_missing(members, (n - 1) as nat) {
            Some(name) => Some(name),
            None => if member_named(members, profile_members()[n - 1]) is None {
                Some(profile_members()[n - 1])
            } else {
                None
            },
        }
    }
}

/// The profile that the members of a JSON object describe, or the name of the
/// first member that is missing.
pub open spec fn user_of_members(members: Seq<MemberView>) -> Result<UserView, Seq<char>> {
    match first_missing(members, 9) {
        Some(name) => Err(name),
        None => Ok(
            UserView {
                display_name: shown_member(members, "displayName"@).unwrap(),
                given_name: shown_member(members, "givenName"@).unwrap(),
                surname: shown_member(members, "surname"@).unwrap(),
                id: shown_member(members, "id"@).unwrap(),
                job_title: shown_member(members, "jobTitle"@).unwrap(),
                mail: shown_member(members, "mail"@).unwrap(),
                mobile_phone: shown_member(members, "mobilePhone"@).unwrap(),
                office_location: shown_member(members, "officeLocation"@).unwrap(),
                user_principal_name: shown_member(members, "userPrincipalName"@).unwrap(),
            },
        ),
    }
}

/// The profile that a response body describes: the empty profile where the
/// body is not a JSON object.
pub open spec fn user_of_body(body: Seq<char>) -> Result<UserView, Seq<char>> {
    match json_object(body) {
        Some(members) => user_of_members(members),
        None => Ok(empty_user()),
    }
}

/// The view of a profile or of the member that it lacks.
pub open spec fn user_result_view(r: Result<User, MissingField>) -> Result<UserView, Seq<char>> {
    match r {
        Ok(u) => Ok(u@),
        Err(e) => Err(e.name@),
    }
}

fn shown(members: &Vec<Member>, name: &str) -> (r: Result<String, MissingField>)
    ensures
        match r {
            Ok(s) => shown_member(member_views(members@), name@) == Some(s@),
            Err(e) => e.name@ == name@ && member_named(member_views(members@), name@) is None,
        },
{
    match find(members, name) {
        Some(m) => Ok(remove_char(m.rendered.as_str(), '"')),
        None => Err(MissingField { name: name.to_owned() }),
    }
}

/// Builds the profile from the members of a JSON object.
pub fn user_from_members(members: &Vec<Member>) -> (r: Result<User, MissingField>)
    ensures
        user_result_view(r) == user_of_members(member_views(members@)),
{
    reveal_with_fuel(first_missing, 10);
    let display_name = match shown(members, "displayName") {
        Ok(s) => s,
        Err(e) => {
            return Err(e);
        },
    };
    let given_name = match shown(members, "givenName") {
        Ok(s) => s,
        Err(e) => {
            return Err(e);
        },
    };
    let surname = match shown(members, "surname") {
        Ok(s) => s,
        Err(e) => {
            return Err(e);
        },
    };
    let id = match shown(members, "id") {
        Ok(s) => s,
        Err(e) => {
            return Err(e);
        },
    };
    let job_title = match shown(members, "jobTitle") {
        Ok(s) => s,
        Err(e) => {
            return Err(e);
        },
    };
    let mail = match shown(members, "mail") {
        Ok(s) => s,
        Err(e) => {
            return Err(e);
        },
    };
    let mobile_phone = match shown(members, "mobilePhone") {
        Ok(s) => s,
        Err(e) => {
            return Err(e);
        },
    };
    let office_location = match shown(members, "officeLocation") {
        Ok(s) => s,
        Err(e) => {
            return Err(e);
        },
    };
    let user_principal_name = match shown(members, "userPrincipalName") {
        Ok(s) => s,
        Err(e) => {
            return Err(e);
        },
    };
    Ok(
        User::new(
            display_name,
            given_name,
            surname,
            id,
            job_title,
            mail,
            mobile_phone,
            office_location,
            user_principal_name,
        ),
    )
}

/// The profile in the given format.
pub open spec fn shown_user(u: UserView, format: OutputFormat) -> RenderingView {
    match format {
        OutputFormat::Json => RenderingView::Json(user_json(u)),
        OutputFormat::Table => RenderingView::Table(user_rows(u)),
        OutputFormat::Lines => RenderingView::Lines(user_lines(u)),
    }
}

/// Presents a profile in the given format.
pub fn render_user(user: User, format: OutputFormat) -> (r: Rendering)
    ensures
        r@ == shown_user(user@, format),
{
    match format {
        OutputFormat::Json => Rendering::Json(user.as_json()),
        OutputFormat::Table => Rendering::Table(user.as_table()),
        OutputFormat::Lines => Rendering::Lines(user.as_lines()),
    }
}

/// What `show_me` yields for a response body and a format name.
pub open spec fn shown_profile(body: Seq<char>, output_format: Seq<char>) -> Result<
    RenderingView,
    Seq<char>,
> {
    match user_of_body(body) {
        Ok(u) => Ok(shown_user(u, format_named(output_format))),
        Err(name) => Err(name),
    }
}

/// The view of a rendering or of the member that the profile lacks.
pub open spec fn rendering_result_view(r: Result<Rendering, MissingField>) -> Result<
    RenderingView,
    Seq<char>,
> {
    match r {
        Ok(shown) => Ok(shown@),
        Err(e) => Err(e.name@),
    }
}

/// Turns the body of the profile response into what the terminal shows.
///
/// A body that is not a JSON object gives the empty profile. A JSON object
/// must hold all nine profile members; each is shown as its JSON text with the
/// double quotes taken out. The format is `"json"`, `"table"` or, for any
/// other name, lines.
pub fn show_me(body: &str, output_format: &str) -> (r: Result<Rendering, MissingField>)
    ensures
        rendering_result_view(r) == shown_profile(body@, output_format@),
{
    let user = match read_object(body) {
        Some(members) => match user_from_members(&members) {
            Ok(u) => u,
            Err(e) => {
                return Err(e);
            },
        },
        None => User::empty(),
    };
    Ok(render_user(user, OutputFormat::parse(output_format)))
}

} // verus!
