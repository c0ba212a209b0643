//! JSON as the service reads and writes it.
//!
//! A document that was read is held two levels deep: what the service reads of
//! the value itself, of its members, and of their members. Anything deeper is
//! kept as compact JSON text. A value that is to be written is a
//! `serde_json::Value`, which is handed on and never looked into.

use serde_json::Value;
use vstd::prelude::*;

use crate::text::decimal;

verus! {

// ---------------------------------------------------------------------------
// Documents
// ---------------------------------------------------------------------------

/// What the service reads of one JSON value, apart from its members.
pub struct JsonLeaf {
    /// The compact JSON text of the value.
    pub text: String,
    /// The number, where the value is an integer that fits in `u64`.
    pub unsigned: Option<u64>,
    /// The characters, where the value is a string.
    pub string: Option<String>,
}

/// A member of a JSON document.
pub struct JsonValue {
    pub leaf: JsonLeaf,
    /// The members of the value, where it is an object.
    pub members: Vec<(String, JsonLeaf)>,
}

/// A JSON document that was read.
pub struct JsonDocument {
    pub leaf: JsonLeaf,
    /// The members of the document, where it is an object.
    pub members: Vec<(String, JsonValue)>,
}

/// The model of a [`JsonLeaf`].
pub struct LeafView {
    pub text: Seq<char>,
    pub unsigned: Option<u64>,
    pub string: Option<Seq<char>>,
}

/// The model of a [`JsonValue`].
pub struct ValueView {
    pub leaf: LeafView,
    pub members: Seq<(Seq<char>, LeafView)>,
}

/// The model of a [`JsonDocument`].
pub struct DocumentView {
    pub leaf: LeafView,
    pub members: Seq<(Seq<char>, ValueView)>,
}

/// The model of an optional text.
pub open spec fn optional_text(s: Option<String>) -> Option<Seq<char>> {
    match s {
        Some(t) => Some(t@),
        None => None,
    }
}

impl View for JsonLeaf {
    type V = LeafView;

    open spec fn view(&self) -> LeafView {
        LeafView {
            text: self.text@,
            unsigned: self.unsigned,
            string: optional_text(self.string),
        }
    }
}

/// The model of the members of a [`JsonValue`].
pub open spec fn leaves_view(members: Seq<(String, JsonLeaf)>) -> Seq<(Seq<char>, LeafView)> {
    members.map_values(|m: (String, JsonLeaf)| (m.0@, m.1@))
}

impl View for JsonValue {
    type V = ValueView;

    open spec fn view(&self) -> ValueView {
        ValueView { leaf: self.leaf@, members: leaves_view(self.members@) }
    }
}

impl View for JsonDocument {
    type V = DocumentView;

    open spec fn view(&self) -> DocumentView {
        DocumentView {
            leaf: self.leaf@,
            members: self.members@.map_values(|m: (String, JsonValue)| (m.0@, m.1@)),
        }
    }
}

/// The first member with the given key.
pub open spec fn find_member<T>(members: Seq<(Seq<char>, T)>, key: Seq<char>) -> Option<T>
    decreases members.len(),
{
    if members.len() == 0 {
        None
    } else if members[0].0 == key {
        Some(members[0].1)
    } else {
        find_member(members.drop_first(), key)
    }
}

impl ValueView {
    /// The member with the given key; a value that is no object has none.
    pub open spec fn member(self, key: Seq<char>) -> Option<LeafView> {
        find_member(self.members, key)
    }
}

impl DocumentView {
    /// The member with the given key; a document that is no object has none.
    pub open spec fn member(self, key: Seq<char>) -> Option<ValueView> {
        find_member(self.members, key)
    }
}

/// The model of the JSON value null.
pub open spec fn null_view() -> ValueView {
    ValueView {
        leaf: LeafView { text: "null"@, unsigned: None, string: None },
        members: Seq::empty(),
    }
}

impl JsonLeaf {
    /// A copy of the leaf.
    pub fn duplicate(&self) -> (r: JsonLeaf)
        ensures
            r == *self,
            r@ == self@,
    {
        JsonLeaf {
            text: self.text.clone(),
            unsigned: self.unsigned,
            string: match &self.string {
                Some(s) => Some(s.clone()),
                None => None,
            },
        }
    }
}

impl JsonValue {
    /// The JSON value null.
    pub fn null() -> (r: JsonValue)
        ensures
            r@ == null_view(),
            r.leaf.text@ == "null"@,
            r.leaf.unsigned is None,
            r.leaf.string is None,
            r.members@.len() == 0,
    {
        let r = JsonValue {
            leaf: JsonLeaf { text: "null".to_owned(), unsigned: None, string: None },
            members: Vec::new(),
        };
        assert(r@.members =~= null_view().members);
        r
    }

    /// A copy of the value.
    pub fn duplicate(&self) -> (r: JsonValue)
        ensures
            r.leaf == self.leaf,
            r.members@ == self.members@,
            r@ == self@,
    {
        let mut members: Vec<(String, JsonLeaf)> = Vec::new();
        let mut i: usize = 0;
        while i < self.members.len()
            invariant
                i <= self.members.len(),
                members@ == self.members@.take(i as int),
            decreases self.members.len() - i,
        {
            members.push((self.members[i].0.clone(), self.members[i].1.duplicate()));
            proof {
                let all = self.members@;
                assert(all.take(i + 1) =~= all.take(i as int).push(all[i as int]));
            }
            i = i + 1;
        }
        let r = JsonValue { leaf: self.leaf.duplicate(), members };
        assert(r.members@ =~= self.members@);
        r
    }

    /// The member with the given key, if the value is an object that has one.
    pub fn get(&self, key: &str) -> (r: Option<&JsonLeaf>)
        ensures
            match r {
                Some(v) => {
                    &&& self@.member(key@) == Some(v@)
                    &&& exists|i: int|
                        {
                            &&& 0 <= i < self.members@.len()
                            &&& (#[trigger] self.members@[i]).0@ == key@
                            &&& *v == self.members@[i].1
                            &&& forall|j: int|
                                0 <= j < i ==> (#[trigger] self.members@[j]).0@ != key@
                        }
                },
                None => {
                    &&& self@.member(key@) is None
                    &&& forall|j: int|
                        0 <= j < self.members@.len() ==> (#[trigger] self.members@[j]).0@ != key@
                },
            },
    {
        let wanted = key.to_owned();
        let mut i: usize = 0;
        assert(self@.members.skip(0) =~= self@.members);
        while i < self.members.len()
            invariant
                i <= self.members.len(),
                wanted@ == key@,
                self@.member(key@) == find_member(self@.members.skip(i as int), key@),
                forall|j: int| 0 <= j < i ==> (#[trigger] self.members@[j]).0@ != key@,
            decreases self.members.len() - i,
        {
            proof {
                let rest = self@.members.skip(i as int);
                assert(rest[0] == self@.members[i as int]);
                assert(rest.drop_first() =~= self@.members.skip(i + 1));
            }
            if self.members[i].0 == wanted {
                return Some(&self.members[i].1);
            }
            i = i + 1;
        }
        None
    }
}

impl JsonDocument {
    /// The member with the given key, if the document is an object that has one.
    pub fn get(&self, key: &str) -> (r: Option<&JsonValue>)
        ensures
            match r {
                Some(v) => {
                    &&& self@.member(key@) == Some(v@)
                    &&& exists|i: int|
                        {
                            &&& 0 <= i < self.members@.len()
                            &&& (#[trigger] self.members@[i]).0@ == key@
                            &&& *v == self.members@[i].1
                            &&& forall|j: int|
                                0 <= j < i ==> (#[trigger] self.members@[j]).0@ != key@
                        }
                },
                None => {
                    &&& self@.member(key@) is None
                    &&& forall|j: int|
                        0 <= j < self.members@.len() ==> (#[trigger] self.members@[j]).0@ != key@
                },
            },
    {
        let wanted = key.to_owned();
        let mut i: usize = 0;
        assert(self@.members.skip(0) =~= self@.members);
        while i < self.members.len()
            invariant
                i <= self.members.len(),
                wanted@ == key@,
                self@.member(key@) == find_member(self@.members.skip(i as int), key@),
                forall|j: int| 0 <= j < i ==> (#[trigger] self.members@[j]).0@ != key@,
            decreases self.members.len() - i,
        {
            proof {
                let rest = self@.members.skip(i as int);
                assert(rest[0] == self@.members[i as int]);
                assert(rest.drop_first() =~= self@.members.skip(i + 1));
            }
            if self.members[i].0 == wanted {
                return Some(&self.members[i].1);
            }
            i = i + 1;
        }
        None
    }
}

// ---------------------------------------------------------------------------
// Reading
// ---------------------------------------------------------------------------

/// `text` starts as compact JSON text does: an object, an array, a string, a
/// number, or one of the words true, false and null.
pub open spec fn starts_like_json(text: Seq<char>) -> bool {
    &&& text.len() > 0
    &&& {
        let c = text[0];
        c == '{' || c == '[' || c == '"' || c == '-' || '0' <= c <= '9' || c == 't' || c == 'f' || c
            == 'n'
    }
}

impl DocumentView {
    /// The texts of the members start as compact JSON text does.
    pub open spec fn members_start_like_json(self) -> bool {
        forall|i: int|
            0 <= i < self.members.len() ==> starts_like_json(
                (#[trigger] self.members[i]).1.leaf.text,
            )
    }
}

/// What serde_json reads in a text, or its error if the text is not JSON.
pub uninterp spec fn json_value(text: Seq<char>) -> Result<DocumentView, Seq<char>>;

/// `serde_json::from_str` into a `serde_json::Value`. What is read, or the error,
/// depends on the text alone. Of the value, of each member where it is an object,
/// and of the members of these, are kept `Value::to_string`, `Value::as_u64` and
/// `Value::as_str`. The first of them is compact JSON text.
#[verifier::external_body]
pub(crate) fn parse_json(text: &str) -> (r: Result<JsonDocument, String>)
    ensures
        document_result(r) == json_value(text@),
        r matches Ok(d) ==> d@.members_start_like_json(),
{
    let v = serde_json::from_str::<Value>(text).map_err(|e| e.to_string())?;
    let leaf = |v: &Value| {
        let string = v.as_str().map(|s| s.to_string());
        JsonLeaf { text: v.to_string(), unsigned: v.as_u64(), string }
    };
    let members = v.as_object().into_iter().flatten().map(|(k, m)| {
        let inner = m.as_object().into_iter().flatten();
        let members = inner.map(|(k, m)| (k.clone(), leaf(m))).collect();
        (k.clone(), JsonValue { leaf: leaf(m), members })
    });
    Ok(JsonDocument { leaf: leaf(&v), members: members.collect() })
}

/// The model of what was read.
pub open spec fn document_result(r: Result<JsonDocument, String>) -> Result<
    DocumentView,
    Seq<char>,
> {
    match r {
        Ok(d) => Ok(d@),
        Err(e) => Err(e@),
    }
}

// ---------------------------------------------------------------------------
// Writing
// ---------------------------------------------------------------------------

/// `serde_json::Value`, a tree of arrays and objects whose contents are named by
/// [`value_text`].
#[verifier::external_type_specification]
#[verifier::external_body]
pub struct ExValue(serde_json::Value);

/// What the value holds, as compact JSON text.
pub uninterp spec fn value_text(value: Value) -> Seq<char>;

/// A member of a JSON object that is to be written.
pub enum JsonMember {
    /// A string.
    Text(String),
    /// An unsigned number.
    Unsigned(u64),
    /// A signed number.
    Signed(i64),
    /// Any value.
    Value(Value),
}

/// The model of a [`JsonMember`], with the text of a value in place of the value.
pub enum MemberView {
    Text(Seq<char>),
    Unsigned(u64),
    Signed(i64),
    Value(Seq<char>),
}

impl View for JsonMember {
    type V = MemberView;

    open spec fn view(&self) -> MemberView {
        match self {
            JsonMember::Text(s) => MemberView::Text(s@),
            JsonMember::Unsigned(n) => MemberView::Unsigned(*n),
            JsonMember::Signed(n) => MemberView::Signed(*n),
            JsonMember::Value(v) => MemberView::Value(value_text(*v)),
        }
    }
}

/// The model of a list of members to be written.
pub open spec fn members_view(members: Seq<(String, JsonMember)>) -> Seq<(Seq<char>, MemberView)> {
    members.map_values(|m: (String, JsonMember)| (m.0@, m.1@))
}

/// No key occurs twice.
pub open spec fn distinct_keys(members: Seq<(Seq<char>, MemberView)>) -> bool {
    forall|i: int, j: int|
        0 <= i < j < members.len() ==> (#[trigger] members[i]).0 != (#[trigger] members[j]).0
}

/// The key that serde_json takes for its own: an object that starts with it is
/// read as the JSON text that its value holds.
pub open spec fn raw_value_key() -> Seq<char> {
    "$serde_json::private::RawValue"@
}

/// No key is the one that serde_json takes for its own.
pub open spec fn plain_keys(members: Seq<(Seq<char>, MemberView)>) -> bool {
    forall|i: int| 0 <= i < members.len() ==> (#[trigger] members[i]).0 != raw_value_key()
}

/// Short keys are plain.
pub proof fn short_keys_are_plain(members: Seq<(Seq<char>, MemberView)>)
    requires
        forall|i: int| 0 <= i < members.len() ==> (#[trigger] members[i]).0.len() < 30,
    ensures
        plain_keys(members),
{
    reveal_strlit("$serde_json::private::RawValue");
    assert(raw_value_key().len() == 30);
}

/// The members are strings and numbers.
pub open spec fn members_are_flat(members: Seq<(Seq<char>, MemberView)>) -> bool {
    forall|i: int| 0 <= i < members.len() ==> !((#[trigger] members[i]).1 is Value)
}

/// `text` within so many square brackets.
pub open spec fn bracketed(text: Seq<char>, levels: nat) -> Seq<char>
    decreases levels,
{
    if levels == 0 {
        text
    } else {
        "["@ + bracketed(text, (levels - 1) as nat) + "]"@
    }
}

/// `text` can be read, also within so many levels of other JSON.
pub open spec fn reads_within(text: Seq<char>, levels: nat) -> bool {
    json_value(bracketed(text, levels)) is Ok
}

/// How many levels of arrays and objects serde_json reads.
pub open spec fn level_limit() -> nat {
    127
}

/// The values among the members can be read within so many levels.
pub open spec fn members_read_within(
    members: Seq<(Seq<char>, MemberView)>,
    levels: nat,
) -> bool {
    forall|i: int|
        0 <= i < members.len() ==> ((#[trigger] members[i]).1 matches MemberView::Value(t)
            ==> reads_within(t, levels))
}

/// What is read of a member that was written as `m`. A value is read as it is
/// alone.
pub open spec fn reads_back(m: MemberView, v: ValueView) -> bool {
    match m {
        MemberView::Text(s) => v.leaf.string == Some(s) && v.leaf.unsigned is None,
        MemberView::Unsigned(n) => {
            &&& v.leaf.unsigned == Some(n)
            &&& v.leaf.string is None
            &&& v.leaf.text == decimal(n as nat)
        },
        MemberView::Signed(n) => {
            &&& v.leaf.unsigned == (if n >= 0 { Some(n as u64) } else { None })
            &&& v.leaf.string is None
            &&& v.leaf.text == (if n >= 0 {
                decimal(n as nat)
            } else {
                "-"@ + decimal((-n) as nat)
            })
        },
        MemberView::Value(t) => json_value(t) matches Ok(d) && v.leaf == d.leaf,
    }
}

/// The document is an object with each of the members, and no other.
pub open spec fn holds_members(d: DocumentView, members: Seq<(Seq<char>, MemberView)>) -> bool {
    &&& d.leaf.string is None && d.leaf.unsigned is None
    &&& d.members.len() == members.len()
    &&& forall|i: int|
        0 <= i < members.len() ==> (d.member((#[trigger] members[i]).0) matches Some(v)
            && reads_back(members[i].1, v))
}

/// The members as they are written again after they were read.
pub open spec fn reread(members: Seq<(Seq<char>, MemberView)>) -> Seq<(Seq<char>, MemberView)> {
    members.map_values(
        |m: (Seq<char>, MemberView)|
            match m.1 {
                MemberView::Value(t) => (m.0, MemberView::Value(json_value(t)->Ok_0.leaf.text)),
                _ => m,
            },
    )
}

/// What serde_json writes for an object with the given members.
pub uninterp spec fn json_object(members: Seq<(Seq<char>, MemberView)>) -> Seq<char>;

/// What is read in `text`, as it was written for an object of the given members:
/// the members. It can be read within so many levels if the values among the
/// members can be read within one more.
pub open spec fn reads_as_object(text: Seq<char>, members: Seq<(Seq<char>, MemberView)>) -> bool {
    &&& distinct_keys(members) ==> (json_value(text) matches Ok(d) ==> {
        &&& holds_members(d, members)
        &&& d.leaf.text == json_object(reread(members))
    })
    &&& forall|levels: nat|
        levels < level_limit() && members_read_within(members, levels + 1)
            ==> #[trigger] reads_within(text, levels)
}

/// `serde_json::Value::Object` over a `serde_json::Map` of the given members,
/// where a later member replaces an earlier one of the same key. What is then
/// written for the value depends on the members alone, and on a value among them
/// only through what is written for that. It says also what reading that text
/// gives: an object is read member by member, unless it starts with the key that
/// serde_json takes for its own.
#[verifier::external_body]
pub(crate) fn object_value(members: Vec<(String, JsonMember)>) -> (r: Value)
    requires
        plain_keys(members_view(members@)),
    ensures
        value_text(r) == json_object(members_view(members@)),
        reads_as_object(value_text(r), members_view(members@)),
{
    let map = members.into_iter().map(|(key, member)| {
        let value = match member {
            JsonMember::Text(s) => Value::from(s),
            JsonMember::Unsigned(n) => Value::from(n),
            JsonMember::Signed(n) => Value::from(n),
            JsonMember::Value(v) => v,
        };
        (key, value)
    });
    Value::Object(map.collect())
}

/// `serde_json::Value::to_string`: the compact JSON text of the value, which
/// holds no line break.
#[verifier::external_body]
pub(crate) fn print_value(value: &Value) -> (r: String)
    ensures
        r@ == value_text(*value),
        !r@.contains('\n'),
        starts_like_json(r@),
{
    value.to_string()
}

/// `text` is what serde_json writes for an object of strings and numbers. It can
/// be read, also within one more level, and reading it gives back the members and
/// the text.
pub open spec fn is_flat_object_text(
    text: Seq<char>,
    members: Seq<(Seq<char>, MemberView)>,
) -> bool {
    &&& text == json_object(members)
    &&& json_value(text) matches Ok(d) && holds_members(d, members) && d.leaf.text == text
    &&& reads_within(text, 1)
}

/// Builds an object of strings and numbers.
pub(crate) fn flat_object(members: Vec<(String, JsonMember)>) -> (r: Value)
    requires
        plain_keys(members_view(members@)),
        distinct_keys(members_view(members@)),
        members_are_flat(members_view(members@)),
    ensures
        is_flat_object_text(value_text(r), members_view(members@)),
{
    let ghost model = members_view(members@);
    let r = object_value(members);
    proof {
        assert(members_read_within(model, 1) && members_read_within(model, 2));
        assert(reads_within(value_text(r), 0) && reads_within(value_text(r), 1));
        assert(bracketed(value_text(r), 0) == value_text(r));
        assert(reread(model) =~= model);
    }
    r
}

} // verus!
