//! Reading and writing JSON text through `serde_json`.
//!
//! The grammar itself is left to `serde_json`. What it makes of a text is
//! referred to by name ([`json_object`], [`json_string`]); looking members up
//! and putting documents together is done here.

use vstd::prelude::*;
use vstd::string::StringExecFns;
use crate::text::opt_text;
use crate::text::same_text;

verus! {

/// One member of a JSON object.
#[derive(Debug, PartialEq, Eq)]
pub struct Member {
    /// The member's name.
    pub name: String,
    /// The member's value as compact JSON text.
    pub rendered: String,
    /// The value's characters, where it is a JSON string.
    pub text: Option<String>,
    /// The value, where it is an integer that fits `i64`.
    pub integer: Option<i64>,
}

/// The mathematical value of a [`Member`].
pub struct MemberView {
    pub name: Seq<char>,
    pub rendered: Seq<char>,
    pub text: Option<Seq<char>>,
    pub integer: Option<i64>,
}

impl View for Member {
    type V = MemberView;

    open spec fn view(&self) -> MemberView {
        MemberView {
            name: self.name@,
            rendered: self.rendered@,
            text: match self.text {
                Some(t) => Some(t@),
                None => None,
            },
            integer: self.integer,
        }
    }
}

/// The views of a sequence of members.
pub open spec fn member_views(members: Seq<Member>) -> Seq<MemberView> {
    members.map_values(|m: Member| m@)
}

/// The members that `serde_json` reads from `text`, in the order in which its
/// map hands them out, or `None` where `text` is not one JSON object.
pub uninterp spec fn json_object(text: Seq<char>) -> Option<Seq<MemberView>>;

/// The JSON string literal that `serde_json` writes for `text`, quotes included.
pub uninterp spec fn json_string(text: Seq<char>) -> Seq<char>;

/// Reads a JSON document into its top-level members.
///
/// Calls `serde_json::from_str` for a `Map<String, Value>` and hands out each
/// member with `Value::to_string`, `Value::as_str` and `Value::as_i64` applied
/// to its value. The contract claims only that the outcome is the one named
/// [`json_object`]: the same text always reads the same way.
#[verifier::external_body]
pub(crate) fn read_object(text: &str) -> (r: Option<Vec<Member>>)
    ensures
        match r {
            Some(members) => json_object(text@) == Some(member_views(members@)),
            None => json_object(text@) is None,
        },
{
    let map: serde_json::Map<String, serde_json::Value> = serde_json::from_str(text).ok()?;
    Some(
        map.into_iter().map(
            |(name, value)| Member {
                name,
                rendered: value.to_string(),
                text: value.as_str().map(|s| s.to_string()),
                integer: value.as_i64(),
            },
        ).collect(),
    )
}

/// Calls `serde_json::to_string` on a string slice, which cannot fail for that
/// type. The contract claims only that the outcome is the one named
/// [`json_string`].
#[verifier::external_body]
pub(crate) fn write_string(text: &str) -> (r: String)
    ensures
        r@ == json_string(text@),
{
    serde_json::to_string(text).unwrap_or_default()
}

/// The first member of `members` called `name`.
pub open spec fn member_named(members: Seq<MemberView>, name: Seq<char>) -> Option<MemberView>
    decreases members.len(),
{
    if members.len() == 0 {
        None
    } else if members[0].name == name {
        Some(members[0])
    } else {
        member_named(members.skip(1), name)
    }
}

/// Whether `member` is among `members`, and the only one of its name.
pub open spec fn holds_only(members: Seq<MemberView>, member: MemberView) -> bool {
    &&& members.contains(member)
    &&& forall|j: int|
        0 <= j < members.len() && (#[trigger] members[j]).name == member.name ==> members[j]
            == member
}

/// A member that is the only one of its name is the one that its name finds,
/// wherever it stands.
pub proof fn lemma_member_named(members: Seq<MemberView>, member: MemberView)
    requires
        holds_only(members, member),
    ensures
        member_named(members, member.name) == Some(member),
    decreases members.len(),
{
    let i = choose|i: int| 0 <= i < members.len() && members[i] == member;
    if members[0].name != member.name {
        let rest = members.skip(1);
        assert(rest[i - 1] == member);
        assert forall|j: int| 0 <= j < rest.len() && (#[trigger] rest[j]).name
            == member.name implies rest[j] == member by {
            assert(rest[j] == members[j + 1]);
        }
        lemma_member_named(rest, member);
    }
}

/// Looks up the first member called `name`.
pub fn find<'a>(members: &'a Vec<Member>, name: &str) -> (r: Option<&'a Member>)
    ensures
        match r {
            Some(m) => member_named(member_views(members@), name@) == Some(m@),
            None => member_named(member_views(members@), name@) is None,
        },
{
    let ghost all = member_views(members@);
    let mut i: usize = 0;
    assert(all.skip(0) =~= all);
    while i < members.len()
        invariant
            i <= members.len(),
            all == member_views(members@),
            member_named(all, name@) == member_named(all.skip(i as int), name@),
        decreases members.len() - i,
    {
        if same_text(members[i].name.as_str(), name) {
            return Some(&members[i]);
        }
        assert(all.skip(i as int).skip(1) =~= all.skip(i + 1));
        i += 1;
    }
    None
}

/// The characters of the first member called `name`, where it is a string.
pub open spec fn member_text(members: Seq<MemberView>, name: Seq<char>) -> Option<Seq<char>> {
    match member_named(members, name) {
        Some(m) => m.text,
        None => None,
    }
}

/// The value of the first member called `name`, where it is an integer that
/// fits `i64`.
pub open spec fn member_integer(members: Seq<MemberView>, name: Seq<char>) -> Option<i64> {
    match member_named(members, name) {
        Some(m) => m.integer,
        None => None,
    }
}

/// Looks up a member that is a string.
pub fn text_of(members: &Vec<Member>, name: &str) -> (r: Option<String>)
    ensures
        opt_text(r) == member_text(member_views(members@), name@),
{
    match find(members, name) {
        Some(m) => match &m.text {
            Some(t) => Some(t.clone()),
            None => None,
        },
        None => None,
    }
}

/// Looks up a member that is an integer.
pub fn integer_of(members: &Vec<Member>, name: &str) -> (r: Option<i64>)
    ensures
        r == member_integer(member_views(members@), name@),
{
    match find(members, name) {
        Some(m) => m.integer,
        None => None,
    }
}

/// Appends the JSON string literal for `text` to `out`.
pub fn push_string(out: &mut String, text: &str)
    ensures
        final(out)@ == old(out)@ + json_string(text@),
{
    let literal = write_string(text);
    out.append(literal.as_str());
}

} // verus!
