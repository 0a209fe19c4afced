//! The members of a JSON object, read with the `serde_json` crate, and
//! lookups among them.

use crate::text::{decimal_digits, decimal_text, parse_decimal, parse_natural, same_text};
use vstd::prelude::*;

verus! {

/// What kind of value a member of an object has, as far as the wire
/// messages tell values apart.
#[derive(Clone, Copy, Debug, PartialEq, Eq, Structural)]
pub enum Kind {
    /// A JSON string.
    Text,
    /// A JSON number.
    Number,
    /// `null`, a boolean, an array or an object.
    Other,
}

/// One member of a JSON object. `text` holds a string's characters, or a
/// number as `serde_json` writes it; it is empty for the other kinds.
#[derive(Debug)]
pub struct Member {
    pub key: String,
    pub kind: Kind,
    pub text: String,
}

/// A member with its texts as character sequences.
pub struct MemberView {
    pub key: Seq<char>,
    pub kind: Kind,
    pub text: Seq<char>,
}

impl View for Member {
    type V = MemberView;

    open spec fn view(&self) -> MemberView {
        MemberView { key: self.key@, kind: self.kind, text: self.text@ }
    }
}

/// The members of a list, each by its view.
pub open spec fn member_views(members: Seq<Member>) -> Seq<MemberView> {
    Seq::new(members.len(), |i: int| members[i]@)
}

/// The members of the JSON object that a text holds, in the order in which
/// their keys first occur, or nothing where the text is not one JSON
/// object. This is what `serde_json::from_str` makes of the text; it is
/// not defined here.
pub uninterp spec fn json_members(text: Seq<char>) -> Option<Seq<MemberView>>;

/// Parses a text with `serde_json::from_str` as a `serde_json::Map` and
/// lists the map's members. The contract names the outcome `json_members`
/// and claims no more of it. A string member comes with its characters, a
/// number with its `Display` text.
#[verifier::external_body]
pub(crate) fn parse_object(text: &str) -> (r: Option<Vec<Member>>)
    ensures
        match r {
            Some(members) => json_members(text@) == Some(member_views(members@)),
            None => json_members(text@) is None,
        },
{
    let map = serde_json::from_str::<serde_json::Map<String, serde_json::Value>>(text).ok()?;
    let mut members = Vec::new();
    for (key, value) in map {
        let (kind, text) = match value {
            serde_json::Value::String(s) => (Kind::Text, s),
            serde_json::Value::Number(n) => (Kind::Number, n.to_string()),
            _ => (Kind::Other, String::new()),
        };
        members.push(Member { key, kind, text });
    }
    Some(members)
}

/// The first member under a key, if there is one.
pub open spec fn member_at(members: Seq<MemberView>, key: Seq<char>) -> Option<MemberView>
    decreases members.len(),
{
    if members.len() == 0 {
        None
    } else if members[0].key == key {
        Some(members[0])
    } else {
        member_at(members.drop_first(), key)
    }
}

/// The string under a key; nothing where the key is absent or holds
/// something else.
pub open spec fn text_at(members: Seq<MemberView>, key: Seq<char>) -> Option<Seq<char>> {
    match member_at(members, key) {
        Some(m) => if m.kind == Kind::Text {
            Some(m.text)
        } else {
            None
        },
        None => None,
    }
}

/// The integer under a key: a number written without fraction or exponent
/// that fits 64 bits. Nothing where the key is absent or holds something
/// else.
pub open spec fn integer_at(members: Seq<MemberView>, key: Seq<char>) -> Option<int> {
    match member_at(members, key) {
        Some(m) => if m.kind == Kind::Number && exists|n: int|
            i64::MIN <= n <= i64::MAX && decimal_text(n) == m.text {
            Some(choose|n: int| i64::MIN <= n <= i64::MAX && decimal_text(n) == m.text)
        } else {
            None
        },
        None => None,
    }
}

/// The natural number under a key: a number written without sign,
/// fraction or exponent that fits 64 bits. Nothing where the key is absent
/// or holds something else.
pub open spec fn natural_at(members: Seq<MemberView>, key: Seq<char>) -> Option<nat> {
    match member_at(members, key) {
        Some(m) => if m.kind == Kind::Number && exists|n: nat|
            n <= u64::MAX && decimal_digits(n) == m.text {
            Some(choose|n: nat| n <= u64::MAX && decimal_digits(n) == m.text)
        } else {
            None
        },
        None => None,
    }
}

/// Finds the first member under a key.
pub fn find_member<'a>(members: &'a Vec<Member>, key: &str) -> (r: Option<&'a Member>)
    ensures
        match r {
            Some(m) => member_at(member_views(members@), key@) == Some(m@),
            None => member_at(member_views(members@), key@) is None,
        },
{
    let ghost all = member_views(members@);
    let mut i: usize = 0;
    assert(all.skip(0) =~= all);
    while i < members.len()
        invariant
            i <= members@.len(),
            all == member_views(members@),
            member_at(all, key@) == member_at(all.skip(i as int), key@),
        decreases members@.len() - i,
    {
        let ghost rest = all.skip(i as int);
        if same_text(members[i].key.as_str(), key) {
            return Some(&members[i]);
        }
        assert(rest.drop_first() =~= all.skip(i + 1));
        i = i + 1;
    }
    None
}

/// The string under a key.
pub fn find_text(members: &Vec<Member>, key: &str) -> (r: Option<String>)
    ensures
        match r {
            Some(s) => text_at(member_views(members@), key@) == Some(s@),
            None => text_at(member_views(members@), key@) is None,
        },
{
    match find_member(members, key) {
        Some(m) => match m.kind {
            Kind::Text => Some(m.text.clone()),
            _ => None,
        },
        None => None,
    }
}

/// The integer under a key.
pub fn find_integer(members: &Vec<Member>, key: &str) -> (r: Option<i64>)
    ensures
        match r {
            Some(n) => integer_at(member_views(members@), key@) == Some(n as int),
            None => integer_at(member_views(members@), key@) is None,
        },
{
    match find_member(members, key) {
        Some(m) => match m.kind {
            Kind::Number => {
                let parsed = parse_decimal(m.text.as_str());
                proof {
                    if let Some(n) = parsed {
                        crate::text::lemma_decimal_text_unique(
                            n as int,
                            choose|k: int|
                                i64::MIN <= k <= i64::MAX && decimal_text(k) == m.text@,
                        );
                    }
                }
                parsed
            },
            _ => None,
        },
        None => None,
    }
}

/// The natural number under a key.
pub fn find_natural(members: &Vec<Member>, key: &str) -> (r: Option<u64>)
    ensures
        match r {
            Some(n) => natural_at(member_views(members@), key@) == Some(n as nat),
            None => natural_at(member_views(members@), key@) is None,
        },
{
    match find_member(members, key) {
        Some(m) => match m.kind {
            Kind::Number => {
                let parsed = parse_natural(m.text.as_str());
                proof {
                    if let Some(n) = parsed {
                        crate::text::lemma_decimal_digits_unique(
                            n as nat,
                            choose|k: nat| k <= u64::MAX && decimal_digits(k) == m.text@,
                        );
                    }
                }
                parsed
            },
            _ => None,
        },
        None => None,
    }
}

} // verus!
