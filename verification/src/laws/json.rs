//! What holds of JSON values that were read.

use vstd::prelude::*;

use crate::json::{find_member, JsonDocument, JsonLeaf, JsonMember, JsonValue, MemberView};

verus! {

/// The member with a key is the first that has it.
pub proof fn first_member_is_found<T>(members: Seq<(Seq<char>, T)>, key: Seq<char>, i: int)
    requires
        0 <= i < members.len(),
        members[i].0 == key,
        forall|j: int| 0 <= j < i ==> (#[trigger] members[j]).0 != key,
    ensures
        find_member(members, key) == Some(members[i].1),
    decreases i,
{
    if i > 0 {
        let rest = members.drop_first();
        assert(members[0].0 != key);
        assert forall|j: int| 0 <= j < i - 1 implies (#[trigger] rest[j]).0 != key by {
            assert(rest[j] == members[j + 1]);
        }
        first_member_is_found(rest, key, i - 1);
    }
}

/// Without a member that has the key, none is found.
pub proof fn missing_member_is_not_found<T>(members: Seq<(Seq<char>, T)>, key: Seq<char>)
    requires
        forall|j: int| 0 <= j < members.len() ==> (#[trigger] members[j]).0 != key,
    ensures
        find_member(members, key) is None,
    decreases members.len(),
{
    if members.len() > 0 {
        let rest = members.drop_first();
        assert forall|j: int| 0 <= j < rest.len() implies (#[trigger] rest[j]).0 != key by {
            assert(rest[j] == members[j + 1]);
        }
        missing_member_is_not_found(rest, key);
    }
}

/// A document hands out its first member with the key.
pub proof fn document_hands_out_its_member(d: JsonDocument, key: &str, i: int, r: Option<&JsonValue>)
    requires
        call_ensures(JsonDocument::get, (&d, key), r),
        0 <= i < d.members@.len(),
        d.members@[i].0@ == key@,
        forall|j: int| 0 <= j < i ==> (#[trigger] d.members@[j]).0@ != key@,
    ensures
        r == Some(&d.members@[i].1),
{
}

/// A document hands out nothing for a key that it does not have.
pub proof fn document_has_no_other_member(d: JsonDocument, key: &str, r: Option<&JsonValue>)
    requires
        call_ensures(JsonDocument::get, (&d, key), r),
        forall|j: int| 0 <= j < d.members@.len() ==> (#[trigger] d.members@[j]).0@ != key@,
    ensures
        r is None,
{
}

/// A value hands out its first member with the key.
pub proof fn value_hands_out_its_member(v: JsonValue, key: &str, i: int, r: Option<&JsonLeaf>)
    requires
        call_ensures(JsonValue::get, (&v, key), r),
        0 <= i < v.members@.len(),
        v.members@[i].0@ == key@,
        forall|j: int| 0 <= j < i ==> (#[trigger] v.members@[j]).0@ != key@,
    ensures
        r == Some(&v.members@[i].1),
{
}

/// A value hands out nothing for a key that it does not have.
pub proof fn value_has_no_other_member(v: JsonValue, key: &str, r: Option<&JsonLeaf>)
    requires
        call_ensures(JsonValue::get, (&v, key), r),
        forall|j: int| 0 <= j < v.members@.len() ==> (#[trigger] v.members@[j]).0@ != key@,
    ensures
        r is None,
{
}

/// A copy of a value holds what the value holds.
pub proof fn copy_holds_the_same(v: JsonValue, r: JsonValue)
    requires
        call_ensures(JsonValue::duplicate, (&v,), r),
    ensures
        r.leaf == v.leaf,
        r.members@.len() == v.members@.len(),
        forall|i: int| 0 <= i < v.members@.len() ==> r.members@[i] == #[trigger] v.members@[i],
{
}

/// A copy of a leaf is that leaf.
pub proof fn copied_leaf_is_the_same(v: JsonLeaf, r: JsonLeaf)
    requires
        call_ensures(JsonLeaf::duplicate, (&v,), r),
    ensures
        r.text@ == v.text@,
        r.unsigned == v.unsigned,
        r.string == v.string,
{
}

/// Null is the word null, and neither a number, a string nor an object.
pub proof fn null_is_null(r: JsonValue)
    requires
        call_ensures(JsonValue::null, (), r),
    ensures
        r.leaf.text@ == "null"@,
        r.leaf.unsigned is None,
        r.leaf.string is None,
        r.members@.len() == 0,
{
}

/// The model of a leaf has all that the leaf has.
pub proof fn leaf_model_is_complete(v: JsonLeaf)
    ensures
        v@.text == v.text@,
        v@.unsigned == v.unsigned,
        v@.string is Some <==> v.string is Some,
        v.string matches Some(s) ==> v@.string == Some(s@),
{
}

/// The model of a value has its leaf and all its members, in order.
pub proof fn value_model_is_complete(v: JsonValue, i: int)
    ensures
        v@.leaf == v.leaf@,
        v@.members.len() == v.members@.len(),
        0 <= i < v.members@.len() ==> v@.members[i] == (v.members@[i].0@, v.members@[i].1@),
{
}

/// The model of a document has its leaf and all its members, in order.
pub proof fn document_model_is_complete(d: JsonDocument, i: int)
    ensures
        d@.leaf == d.leaf@,
        d@.members.len() == d.members@.len(),
        0 <= i < d.members@.len() ==> d@.members[i] == (d.members@[i].0@, d.members@[i].1@),
{
}

/// The model of a member that is to be written tells its kind and what it holds.
pub proof fn member_model_is_complete(m: JsonMember)
    ensures
        m matches JsonMember::Text(s) ==> m@ == MemberView::Text(s@),
        m matches JsonMember::Unsigned(n) ==> m@ == MemberView::Unsigned(n),
        m matches JsonMember::Signed(n) ==> m@ == MemberView::Signed(n),
        m is Value ==> m@ is Value,
{
}

} // verus!
