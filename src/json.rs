use vstd::prelude::*;

verus! {

/// The members of a JSON object as the logic reads them: each key, in the
/// parser's order, with the member's value when that value is a string.
pub type Members = Seq<(Seq<char>, Option<Seq<char>>)>;

/// What `serde_json` makes of a text when it is one JSON object: its members
/// in `serde_json::Map`'s order; `None` where the text is no valid JSON or not
/// an object.
pub uninterp spec fn object_members_of(text: Seq<char>) -> Option<Members>;

/// No key occurs twice among the members.
pub open spec fn keys_unique(m: Members) -> bool {
    forall|i: int, j: int| 0 <= i < m.len() && 0 <= j < m.len() && i != j ==> m[i].0 != m[j].0
}

/// Relies on `serde_json::from_str::<serde_json::Value>`, `Value::as_object`
/// and `Value::as_str`: the members of the parsed object, each with its string
/// value if it has one. A `serde_json::Map` holds each key once.
#[verifier::external_body]
pub fn parse_object(text: &str) -> (r: Option<Vec<(String, Option<String>)>>)
    ensures
        r.is_some() == object_members_of(text@).is_some(),
        r.is_some() ==> r.unwrap().deep_view() == object_members_of(text@).unwrap(),
        r.is_some() ==> keys_unique(r.unwrap().deep_view()),
{
    let value: serde_json::Value = serde_json::from_str(text).ok()?;
    let object = value.as_object()?;
    Some(object.iter().map(|(k, v)| (k.clone(), v.as_str().map(String::from))).collect())
}

/// The string value of the member named `key`, if there is such a member and
/// its value is a string.
pub open spec fn member_text(m: Members, key: Seq<char>) -> Option<Seq<char>> {
    if exists|i: int| 0 <= i < m.len() && m[i].0 == key {
        let i = choose|i: int| 0 <= i < m.len() && m[i].0 == key;
        m[i].1
    } else {
        None
    }
}

/// Looks up the string value of the member named `key`.
pub fn find_text(members: &Vec<(String, Option<String>)>, key: &String) -> (r: Option<String>)
    requires
        keys_unique(members.deep_view()),
    ensures
        r.deep_view() == member_text(members.deep_view(), key@),
{
    let ghost m = members.deep_view();
    let mut i: usize = 0;
    while i < members.len()
        invariant
            m == members.deep_view(),
            keys_unique(m),
            0 <= i <= members.len(),
            forall|j: int| 0 <= j < i ==> m[j].0 != key@,
        decreases members.len() - i,
    {
        if members[i].0 == *key {
            assert(m[i as int].0 == key@);
            let r = members[i].1.clone();
            assert(r.deep_view() == m[i as int].1);
            return r;
        }
        i = i + 1;
    }
    None
}

} // verus!
