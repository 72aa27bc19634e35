//! A JSON value model, its compact text form, and member lookup.
use vstd::prelude::*;

verus! {

broadcast use vstd::std_specs::vec::group_vec_axioms;

/// A JSON value. Numbers keep their textual form; an object keeps its
/// members in the order they were read or built.
pub enum Json {
    Null,
    Bool(bool),
    Number(String),
    Str(String),
    Array(Vec<Json>),
    Object(Vec<(String, Json)>),
}

/// What serde_json writes for a string: the quoted, escaped literal.
pub uninterp spec fn json_quoted(s: Seq<char>) -> Seq<char>;

/// The text that serde_json reads as the given value, if it is JSON at all.
pub uninterp spec fn json_parse(s: Seq<char>) -> Option<Json>;

pub open spec fn text_null() -> Seq<char> {
    seq!['n', 'u', 'l', 'l']
}

pub open spec fn text_bool(b: bool) -> Seq<char> {
    if b {
        seq!['t', 'r', 'u', 'e']
    } else {
        seq!['f', 'a', 'l', 's', 'e']
    }
}

/// The compact JSON text of a value: no whitespace, members and elements
/// separated by commas.
pub open spec fn json_text(j: Json) -> Seq<char>
    decreases j, 1nat, 0nat,
{
    match j {
        Json::Null => text_null(),
        Json::Bool(b) => text_bool(b),
        Json::Number(n) => n@,
        Json::Str(s) => json_quoted(s@),
        Json::Array(items) => seq!['['] + elems_text(j, items.len() as nat) + seq![']'],
        Json::Object(members) => seq!['{'] + members_text(j, members.len() as nat) + seq!['}'],
    }
}

/// The text of the first `n` elements of an array, comma separated.
pub open spec fn elems_text(j: Json, n: nat) -> Seq<char>
    decreases j, 0nat, n,
{
    match j {
        Json::Array(items) => if n == 0 || n > items.len() {
            seq![]
        } else {
            let prefix = elems_text(j, (n - 1) as nat);
            let sep = if n == 1 { seq![] } else { seq![','] };
            prefix + sep + json_text(items@[n - 1])
        },
        _ => seq![],
    }
}

/// The text of one object member: the quoted key, a colon, the value.
pub open spec fn member_text(key: Seq<char>, value_text: Seq<char>) -> Seq<char> {
    json_quoted(key) + seq![':'] + value_text
}

/// The text of the first `n` members of an object, comma separated.
pub open spec fn members_text(j: Json, n: nat) -> Seq<char>
    decreases j, 0nat, n,
{
    match j {
        Json::Object(members) => if n == 0 || n > members.len() {
            seq![]
        } else {
            let prefix = members_text(j, (n - 1) as nat);
            let sep = if n == 1 { seq![] } else { seq![','] };
            prefix + sep + member_text(members@[n - 1].0@, json_text(members@[n - 1].1))
        },
        _ => seq![],
    }
}

/// The value of the first member named `key`.
pub open spec fn lookup(members: Seq<(String, Json)>, key: Seq<char>) -> Option<Json>
    decreases members.len(),
{
    if members.len() == 0 {
        None
    } else if members[0].0@ == key {
        Some(members[0].1)
    } else {
        lookup(members.drop_first(), key)
    }
}

/// The member `key` of an object; nothing for any other value.
pub open spec fn member(j: Json, key: Seq<char>) -> Option<Json> {
    match j {
        Json::Object(members) => lookup(members@, key),
        _ => None,
    }
}

/// The string held by member `key` of `item`.
pub open spec fn item_text(item: Json, key: Seq<char>) -> Option<Seq<char>> {
    match member(item, key) {
        Some(Json::Str(s)) => Some(s@),
        _ => None,
    }
}

/// The strings under `item_key` of each element of the array under
/// `list_key`; nothing where the array or any such string is missing.
pub open spec fn string_list(j: Json, list_key: Seq<char>, item_key: Seq<char>) -> Option<Seq<Seq<char>>> {
    match member(j, list_key) {
        Some(Json::Array(items)) => if forall|i: int| 0 <= i < items.len() ==> (#[trigger] item_text(items@[i], item_key)) is Some {
            Some(Seq::new(items.len() as nat, |i: int| item_text(items@[i], item_key)->Some_0))
        } else {
            None
        },
        _ => None,
    }
}

/// A scalar member value of a request body: a string, or a number in its
/// textual form.
pub enum Field {
    Text(Seq<char>),
    Number(Seq<char>),
}

/// A member of an object holds the named field.
pub open spec fn field_matches(m: (String, Json), f: (Seq<char>, Field)) -> bool {
    &&& m.0@ == f.0
    &&& match f.1 {
        Field::Text(t) => m.1 is Str && m.1->Str_0@ == t,
        Field::Number(t) => m.1 is Number && m.1->Number_0@ == t,
    }
}

/// The members of an object are exactly the given fields, in order.
pub open spec fn members_match(ms: Seq<(String, Json)>, fs: Seq<(Seq<char>, Field)>) -> bool {
    &&& ms.len() == fs.len()
    &&& forall|i: int| 0 <= i < ms.len() ==> field_matches(#[trigger] ms[i], fs[i])
}

pub open spec fn field_text(f: Field) -> Seq<char> {
    match f {
        Field::Text(t) => json_quoted(t),
        Field::Number(t) => t,
    }
}

/// The text of the first `n` fields, comma separated.
pub open spec fn fields_text(fs: Seq<(Seq<char>, Field)>, n: nat) -> Seq<char>
    decreases n,
{
    if n == 0 || n > fs.len() {
        seq![]
    } else {
        let sep = if n == 1 { seq![] } else { seq![','] };
        fields_text(fs, (n - 1) as nat) + sep + member_text(fs[n - 1].0, field_text(fs[n - 1].1))
    }
}

/// The compact JSON text of an object made of the given fields.
pub open spec fn object_text(fs: Seq<(Seq<char>, Field)>) -> Seq<char> {
    seq!['{'] + fields_text(fs, fs.len()) + seq!['}']
}

/// An object whose members match a list of fields has the text of those fields.
pub proof fn lemma_object_text(j: Json, fs: Seq<(Seq<char>, Field)>)
    requires
        j is Object,
        members_match(j->Object_0@, fs),
    ensures
        json_text(j) == object_text(fs),
{
    lemma_members_text(j, fs, fs.len());
}

proof fn lemma_members_text(j: Json, fs: Seq<(Seq<char>, Field)>, n: nat)
    requires
        j is Object,
        members_match(j->Object_0@, fs),
        n <= fs.len(),
    ensures
        members_text(j, n) == fields_text(fs, n),
    decreases n,
{
    if n > 0 {
        lemma_members_text(j, fs, (n - 1) as nat);
        let m = j->Object_0@[n - 1];
        assert(field_matches(m, fs[n - 1]));
        assert(json_text(m.1) == field_text(fs[n - 1].1));
        assert(members_text(j, n) == members_text(j, (n - 1) as nat) + (if n == 1 { seq![] } else { seq![','] })
            + member_text(m.0@, json_text(m.1)));
    }
}

/// A key that no field carries is absent from an object made of those fields.
pub proof fn lemma_absent_key(ms: Seq<(String, Json)>, fs: Seq<(Seq<char>, Field)>, key: Seq<char>)
    requires
        members_match(ms, fs),
        forall|i: int| 0 <= i < fs.len() ==> (#[trigger] fs[i]).0 != key,
    ensures
        lookup(ms, key) is None,
    decreases ms.len(),
{
    if ms.len() > 0 {
        assert(field_matches(ms[0], fs[0]));
        let (ms2, fs2) = (ms.drop_first(), fs.drop_first());
        assert forall|i: int| 0 <= i < ms2.len() implies field_matches(#[trigger] ms2[i], fs2[i]) by {
            assert(field_matches(ms[i + 1], fs[i + 1]));
        }
        assert forall|i: int| 0 <= i < fs2.len() implies (#[trigger] fs2[i]).0 != key by {
            assert(fs[i + 1].0 != key);
        }
        lemma_absent_key(ms2, fs2, key);
    }
}

/// Appends the compact text of `j` to `out`.
fn write_json(j: &Json, out: &mut String)
    ensures
        final(out)@ == old(out)@ + json_text(*j),
    decreases j,
{
    match j {
        Json::Null => {
            proof { reveal_strlit("null"); }
            out.append("null");
            assert(out@ =~= old(out)@ + json_text(*j));
        },
        Json::Bool(b) => {
            proof { reveal_strlit("true"); reveal_strlit("false"); }
            if *b { out.append("true"); } else { out.append("false"); }
            assert(out@ =~= old(out)@ + json_text(*j));
        },
        Json::Number(n) => {
            out.append(n.as_str());
        },
        Json::Str(s) => {
            let q = quote(s.as_str());
            out.append(q.as_str());
        },
        Json::Array(items) => {
            proof { reveal_strlit("["); reveal_strlit("]"); reveal_strlit(","); }
            let ghost start = out@;
            out.append("[");
            let mut i: usize = 0;
            while i < items.len()
                invariant
                    0 <= i <= items.len(),
                    *j == Json::Array(*items),
                    out@ == start + seq!['['] + elems_text(*j, i as nat),
                decreases items.len() - i,
            {
                assert(decreases_to!(j => items@[i as int]));
                proof { reveal_strlit(","); reveal_strlit(":"); }
                let ghost before = out@;
                if i > 0 {
                    out.append(",");
                }
                let ghost sep: Seq<char> = if i == 0 { seq![] } else { seq![','] };
                assert(out@ =~= before + sep);
                write_json(&items[i], out);
                proof {
                    assert(elems_text(*j, (i + 1) as nat) == elems_text(*j, i as nat) + sep
                        + json_text(items@[i as int]));
                    assert(out@ =~= start + seq!['['] + elems_text(*j, (i + 1) as nat));
                }
                i = i + 1;
            }
            out.append("]");
            assert(out@ =~= old(out)@ + json_text(*j));
        },
        Json::Object(members) => {
            proof { reveal_strlit("{"); reveal_strlit("}"); reveal_strlit(","); reveal_strlit(":"); }
            let ghost start = out@;
            out.append("{");
            let mut i: usize = 0;
            while i < members.len()
                invariant
                    0 <= i <= members.len(),
                    *j == Json::Object(*members),
                    out@ == start + seq!['{'] + members_text(*j, i as nat),
                decreases members.len() - i,
            {
                assert(decreases_to!(j => members@[i as int].1));
                proof { reveal_strlit(","); reveal_strlit(":"); }
                let ghost before = out@;
                if i > 0 {
                    out.append(",");
                }
                let ghost sep: Seq<char> = if i == 0 { seq![] } else { seq![','] };
                assert(out@ =~= before + sep);
                let k = quote(members[i].0.as_str());
                out.append(k.as_str());
                out.append(":");
                assert(out@ =~= before + sep + json_quoted(members@[i as int].0@) + seq![':']);
                write_json(&members[i].1, out);
                proof {
                    let m = members@[i as int];
                    assert(members_text(*j, (i + 1) as nat) == members_text(*j, i as nat) + sep
                        + member_text(m.0@, json_text(m.1)));
                    assert(out@ =~= start + seq!['{'] + members_text(*j, (i + 1) as nat));
                }
                i = i + 1;
            }
            out.append("}");
            assert(out@ =~= old(out)@ + json_text(*j));
        },
    }
}

impl Json {
    /// The member `key` of this value, where it is an object that has one.
    pub fn get(&self, key: &str) -> (r: Option<&Json>)
        ensures
            r is Some <==> member(*self, key@) is Some,
            r is Some ==> *r->Some_0 == member(*self, key@)->Some_0,
    {
        match self {
            Json::Object(members) => {
                let k = key.to_owned();
                let mut i: usize = 0;
                assert(members@.subrange(0, members@.len() as int) =~= members@);
                while i < members.len()
                    invariant
                        0 <= i <= members.len(),
                        k@ == key@,
                        *self == Json::Object(*members),
                        lookup(members@, key@) == lookup(members@.subrange(i as int, members@.len() as int), key@),
                    decreases members.len() - i,
                {
                    let ghost rest = members@.subrange(i as int, members@.len() as int);
                    assert(rest.drop_first() =~= members@.subrange(i + 1, members@.len() as int));
                    assert(rest[0] == members@[i as int]);
                    if members[i].0 == k {
                        return Some(&members[i].1);
                    }
                    i = i + 1;
                }
                None
            },
            _ => None,
        }
    }

    /// The strings under `item_key` of each element of the array under
    /// `list_key`, where all of them are there.
    pub fn string_list(&self, list_key: &str, item_key: &str) -> (r: Option<Vec<String>>)
        ensures
            r is Some <==> string_list(*self, list_key@, item_key@) is Some,
            r is Some ==> r->Some_0@.map_values(|s: String| s@) == string_list(*self, list_key@, item_key@)->Some_0,
    {
        let list = match self.get(list_key) {
            Some(Json::Array(items)) => items,
            _ => return None,
        };
        let mut out: Vec<String> = Vec::new();
        let mut i: usize = 0;
        while i < list.len()
            invariant
                0 <= i <= list.len(),
                member(*self, list_key@) == Some(Json::Array(*list)),
                out@.len() == i,
                forall|k: int| 0 <= k < i ==> (#[trigger] item_text(list@[k], item_key@)) is Some
                    && out@[k]@ == item_text(list@[k], item_key@)->Some_0,
            decreases list.len() - i,
        {
            match list[i].get(item_key) {
                Some(Json::Str(s)) => {
                    out.push(s.clone());
                },
                _ => {
                    assert(item_text(list@[i as int], item_key@) is None);
                    return None;
                },
            }
            i = i + 1;
        }
        assert(out@.map_values(|s: String| s@) =~= string_list(*self, list_key@, item_key@)->Some_0);
        Some(out)
    }

    /// The text of a string value.
    pub fn as_str(&self) -> (r: Option<&str>)
        ensures
            r is Some <==> *self is Str,
            r is Some ==> r->Some_0@ == self->Str_0@,
    {
        match self {
            Json::Str(s) => Some(s.as_str()),
            _ => None,
        }
    }

    /// The compact JSON text of this value.
    pub fn to_text(&self) -> (r: String)
        ensures
            r@ == json_text(*self),
    {
        let mut out = String::new();
        write_json(self, &mut out);
        out
    }
}

#[verifier::external_type_specification]
#[verifier::external_body]
pub struct ExValue(serde_json::Value);

/// Relies on serde_json::to_string on a `str`: the quoted, escaped literal.
/// Serialising a string into memory has no failure case in serde_json.
#[verifier::external_body]
fn quote(s: &str) -> (r: String)
    ensures
        r@ == json_quoted(s@),
{
    serde_json::to_string(s).unwrap_or_default()
}

/// Moves a serde_json value into the library's model, variant for variant;
/// numbers keep the text serde_json gives them.
#[verifier::external_body]
fn json_from_value(v: serde_json::Value) -> Json {
    match v {
        serde_json::Value::Null => Json::Null,
        serde_json::Value::Bool(b) => Json::Bool(b),
        serde_json::Value::Number(n) => Json::Number(n.to_string()),
        serde_json::Value::String(s) => Json::Str(s),
        serde_json::Value::Array(a) => Json::Array(a.into_iter().map(json_from_value).collect()),
        serde_json::Value::Object(m) => Json::Object(
            m.into_iter().map(|(k, x)| (k, json_from_value(x))).collect(),
        ),
    }
}

/// Relies on serde_json::from_str into a `serde_json::Value`: the value that
/// the text holds, or nothing where it is not JSON.
#[verifier::external_body]
pub(crate) fn parse_json(text: &str) -> (r: Option<Json>)
    ensures
        r == json_parse(text@),
{
    serde_json::from_str::<serde_json::Value>(text).ok().map(json_from_value)
}

} // verus!
