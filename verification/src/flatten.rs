//! Flattening: from the members of a JSON object to one numeric reading per
//! member that can be read as a number.

use crate::json::{
    document_members, json_document, read_document, utf8_lossy, Document, DocumentModel,
    JsonModel, JsonValue, Member, MemberModel,
};
use crate::topic::{namespace_of, normalize_topic};
use vstd::prelude::*;

verus! {

/// The numeral a flag that is set is read as.
pub const ONE: &'static str = "1.0";

/// The numeral a flag that is not set is read as.
pub const ZERO: &'static str = "0.0";

/// One reading: a key and a value, the value as a decimal numeral.
#[derive(Clone, Debug, PartialEq, Eq)]
pub struct FlatField {
    pub key: String,
    pub value: String,
}

/// The mathematical model of a [`FlatField`].
pub struct FieldModel {
    pub key: Seq<char>,
    pub value: Seq<char>,
}

impl DeepView for FlatField {
    type V = FieldModel;

    open spec fn deep_view(&self) -> FieldModel {
        FieldModel { key: self.key@, value: self.value@ }
    }
}

/// The lower-case form of an ASCII letter; any other character unchanged.
pub open spec fn ascii_lower(c: char) -> char {
    if 'A' <= c && c <= 'Z' {
        ((c as u8) + 32) as char
    } else {
        c
    }
}

/// `s` with its ASCII letters in lower case.
pub open spec fn ascii_lowercase(s: Seq<char>) -> Seq<char> {
    s.map_values(|c: char| ascii_lower(c))
}

/// Whether a string reads as "on": it is `on`, `1` or `true`, in any mix of
/// upper and lower case.
pub open spec fn is_truthy(s: Seq<char>) -> bool {
    let lower = ascii_lowercase(s);
    lower == seq!['o', 'n'] || lower == seq!['1'] || lower == seq!['t', 'r', 'u', 'e']
}

/// The flag as a numeral: `1.0` or `0.0`.
pub open spec fn flag_numeral(flag: bool) -> Seq<char> {
    if flag {
        seq!['1', '.', '0']
    } else {
        seq!['0', '.', '0']
    }
}

/// The number a JSON value is read as: a number is itself, a boolean and a
/// string are `1.0` or `0.0`, and anything else has no reading.
pub open spec fn coerced(value: JsonModel) -> Option<Seq<char>> {
    match value {
        JsonModel::Number(numeral) => Some(numeral),
        JsonModel::Bool(b) => Some(flag_numeral(b)),
        JsonModel::Text(s) => Some(flag_numeral(is_truthy(s))),
        JsonModel::Other => None,
    }
}

/// The key of a reading: the namespace, a `/`, and the member's name.
pub open spec fn field_key(namespace: Seq<char>, name: Seq<char>) -> Seq<char> {
    namespace + seq!['/'] + name
}

/// The readings of a sequence of members: one for each member that has a
/// reading, in the order of the members.
pub open spec fn flat_fields(namespace: Seq<char>, members: Seq<MemberModel>) -> Seq<FieldModel>
    decreases members.len(),
{
    if members.len() == 0 {
        Seq::empty()
    } else {
        let rest = flat_fields(namespace, members.drop_last());
        let last = members.last();
        match coerced(last.value) {
            Some(value) => rest.push(FieldModel { key: field_key(namespace, last.name), value }),
            None => rest,
        }
    }
}

/// The readings that one inbound message gives rise to.
pub open spec fn readings_of(topic: Seq<char>, payload: Seq<u8>) -> Seq<FieldModel> {
    flat_fields(namespace_of(topic), document_members(json_document(utf8_lossy(payload))))
}

fn to_ascii_lower(c: char) -> (r: char)
    ensures
        r == ascii_lower(c),
{
    if 'A' <= c && c <= 'Z' {
        ((c as u8) + 32) as char
    } else {
        c
    }
}

/// Whether `s`, with its ASCII letters in lower case, is `word`.
fn lowercase_is(s: &str, word: &str) -> (r: bool)
    ensures
        r == (ascii_lowercase(s@) == word@),
{
    let n: usize = s.unicode_len();
    if n != word.unicode_len() {
        return false;
    }
    let mut i: usize = 0;
    for c in it: s.chars()
        invariant
            n == s@.len(),
            n == word@.len(),
            it.seq() == s@,
            i == it.index(),
            forall|j: int| 0 <= j < i ==> ascii_lower(s@[j]) == word@[j],
    {
        if to_ascii_lower(c) != word.get_char(i) {
            assert(ascii_lowercase(s@)[i as int] != word@[i as int]);
            return false;
        }
        i = i + 1;
    }
    assert(ascii_lowercase(s@) =~= word@);
    true
}

/// Tells whether a string reads as "on".
pub fn truthy(s: &str) -> (r: bool)
    ensures
        r == is_truthy(s@),
{
    proof {
        reveal_strlit("on");
        reveal_strlit("1");
        reveal_strlit("true");
        assert("on"@ =~= seq!['o', 'n']);
        assert("1"@ =~= seq!['1']);
        assert("true"@ =~= seq!['t', 'r', 'u', 'e']);
    }
    lowercase_is(s, "on") || lowercase_is(s, "1") || lowercase_is(s, "true")
}

/// Writes a flag as a numeral.
pub fn flag_value(flag: bool) -> (numeral: String)
    ensures
        numeral@ == flag_numeral(flag),
{
    proof {
        reveal_strlit("1.0");
        reveal_strlit("0.0");
        assert("1.0"@ =~= seq!['1', '.', '0']);
        assert("0.0"@ =~= seq!['0', '.', '0']);
    }
    if flag {
        ONE.to_owned()
    } else {
        ZERO.to_owned()
    }
}

/// Reads a JSON value as a number, if it has such a reading.
pub fn coerce(value: &JsonValue) -> (r: Option<String>)
    ensures
        r.deep_view() == coerced(value.deep_view()),
{
    match value {
        JsonValue::Number(numeral) => Some(numeral.clone()),
        JsonValue::Bool(b) => Some(flag_value(*b)),
        JsonValue::Text(s) => Some(flag_value(truthy(s.as_str()))),
        JsonValue::Other => None,
    }
}

/// Builds the key of a reading.
pub fn make_key(namespace: &str, name: &str) -> (key: String)
    ensures
        key@ == field_key(namespace@, name@),
{
    proof {
        reveal_strlit("/");
        assert("/"@ =~= seq!['/']);
    }
    let mut key: String = namespace.to_owned();
    key.append("/");
    key.append(name);
    key
}

/// Flattens the members of an object into readings.
pub fn flatten_members(namespace: &str, members: &Vec<Member>) -> (fields: Vec<FlatField>)
    ensures
        fields.deep_view() == flat_fields(namespace@, members.deep_view()),
        fields.len() <= members.len(),
{
    let mut fields: Vec<FlatField> = Vec::new();
    let ghost all = members.deep_view();
    let mut k: usize = 0;
    assert(all.take(0) =~= Seq::empty());
    assert(fields.deep_view() =~= Seq::empty());
    while k < members.len()
        invariant
            k <= members.len(),
            all == members.deep_view(),
            fields.deep_view() == flat_fields(namespace@, all.take(k as int)),
        decreases members.len() - k,
    {
        let member = &members[k];
        let ghost before = fields.deep_view();
        assert(all.take(k + 1).drop_last() =~= all.take(k as int));
        assert(all.take(k + 1).last() == member.deep_view());
        match coerce(&member.value) {
            Some(value) => {
                let field = FlatField { key: make_key(namespace, member.name.as_str()), value };
                fields.push(field);
                assert(fields.deep_view() =~= before.push(field.deep_view()));
            },
            None => {},
        }
        k = k + 1;
    }
    assert(all.take(k as int) =~= all);
    proof {
        lemma_fields_at_most_members(namespace@, all);
    }
    fields
}

/// Flattens a parsed payload. A payload that is not JSON, or whose top-level
/// value is not an object, has no readings.
pub fn flatten_document(namespace: &str, doc: &Document) -> (fields: Vec<FlatField>)
    ensures
        fields.deep_view() == flat_fields(namespace@, document_members(doc.deep_view())),
        !(doc is Object) ==> fields.len() == 0,
{
    match doc {
        Document::Object(members) => flatten_members(namespace, members),
        _ => {
            let fields: Vec<FlatField> = Vec::new();
            assert(fields.deep_view() =~= Seq::empty());
            fields
        },
    }
}

/// Handles one inbound message: the readings of its payload, keyed under the
/// namespace of its topic. A payload that does not parse as a JSON object is
/// no error; it has no readings.
pub fn handle_msg(topic: &str, payload: &[u8]) -> (fields: Vec<FlatField>)
    ensures
        fields.deep_view() == readings_of(topic@, payload@),
        !(json_document(utf8_lossy(payload@)) is Object) ==> fields.len() == 0,
{
    let namespace = normalize_topic(topic);
    let doc = read_document(payload);
    flatten_document(namespace, &doc)
}

/// No payload yields more readings than its object has members.
pub proof fn lemma_fields_at_most_members(namespace: Seq<char>, members: Seq<MemberModel>)
    ensures
        flat_fields(namespace, members).len() <= members.len(),
    decreases members.len(),
{
    if members.len() > 0 {
        lemma_fields_at_most_members(namespace, members.drop_last());
    }
}

/// A single member yields its reading, or nothing where it has none.
pub proof fn lemma_fields_of_one_member(namespace: Seq<char>, member: MemberModel)
    ensures
        flat_fields(namespace, seq![member]) == match coerced(member.value) {
            Some(value) => seq![FieldModel { key: field_key(namespace, member.name), value }],
            None => Seq::empty(),
        },
{
    let one = seq![member];
    assert(one.drop_last() =~= Seq::empty());
    assert(flat_fields(namespace, one.drop_last()) =~= Seq::empty());
    match coerced(member.value) {
        Some(value) => {
            assert(flat_fields(namespace, one) =~= seq![
                FieldModel { key: field_key(namespace, member.name), value },
            ]);
        },
        None => {},
    }
}

/// Members are read one by one: the readings of two runs of members put
/// together are the readings of the first followed by those of the second.
/// So a member without a reading takes nothing from its neighbours.
pub proof fn lemma_fields_of_concat(
    namespace: Seq<char>,
    front: Seq<MemberModel>,
    back: Seq<MemberModel>,
)
    ensures
        flat_fields(namespace, front + back) == flat_fields(namespace, front) + flat_fields(
            namespace,
            back,
        ),
    decreases back.len(),
{
    if back.len() == 0 {
        assert(front + back =~= front);
        assert(flat_fields(namespace, front) + flat_fields(namespace, back) =~= flat_fields(
            namespace,
            front,
        ));
    } else {
        assert((front + back).drop_last() =~= front + back.drop_last());
        assert((front + back).last() == back.last());
        lemma_fields_of_concat(namespace, front, back.drop_last());
        assert(flat_fields(namespace, front + back) =~= flat_fields(namespace, front)
            + flat_fields(namespace, back));
    }
}

/// Where every member is a number, a boolean or a string, there is exactly
/// one reading per member, in the members' order: keyed by the namespace and
/// the member's name, and valued by the number itself, by `1.0` or `0.0` for
/// `true` or `false`, and for a string by `1.0` where it reads as "on" and
/// `0.0` otherwise.
pub proof fn lemma_one_field_per_scalar(namespace: Seq<char>, members: Seq<MemberModel>)
    requires
        forall|i: int| 0 <= i < members.len() ==> !((#[trigger] members[i]).value is Other),
    ensures
        flat_fields(namespace, members).len() == members.len(),
        forall|i: int|
            0 <= i < members.len() ==> {
                let field = #[trigger] flat_fields(namespace, members)[i];
                &&& field.key == field_key(namespace, members[i].name)
                &&& match members[i].value {
                    JsonModel::Number(numeral) => field.value == numeral,
                    JsonModel::Bool(b) => field.value == flag_numeral(b),
                    JsonModel::Text(s) => field.value == flag_numeral(is_truthy(s)),
                    JsonModel::Other => false,
                }
            },
    decreases members.len(),
{
    if members.len() > 0 {
        let init = members.drop_last();
        assert forall|i: int| 0 <= i < init.len() implies !((#[trigger] init[i]).value is Other) by {
            assert(init[i] == members[i]);
        }
        lemma_one_field_per_scalar(namespace, init);
        assert forall|i: int| 0 <= i < members.len() implies {
            let field = #[trigger] flat_fields(namespace, members)[i];
            &&& field.key == field_key(namespace, members[i].name)
            &&& match members[i].value {
                JsonModel::Number(numeral) => field.value == numeral,
                JsonModel::Bool(b) => field.value == flag_numeral(b),
                JsonModel::Text(s) => field.value == flag_numeral(is_truthy(s)),
                JsonModel::Other => false,
            }
        } by {
            if i < init.len() {
                assert(init[i] == members[i]);
                assert(flat_fields(namespace, members)[i] == flat_fields(namespace, init)[i]);
            }
        }
    }
}

/// A payload that does not parse, or whose top-level value is not an object,
/// yields no reading.
pub proof fn lemma_no_object_no_fields(namespace: Seq<char>, doc: DocumentModel)
    requires
        !(doc is Object),
    ensures
        flat_fields(namespace, document_members(doc)) == Seq::<FieldModel>::empty(),
{
}

/// Letter case does not matter to how a string is read.
pub proof fn lemma_truthy_ignores_case(s: Seq<char>)
    ensures
        is_truthy(ascii_lowercase(s)) == is_truthy(s),
{
    assert(ascii_lowercase(ascii_lowercase(s)) =~= ascii_lowercase(s));
}

} // verus!
