//! What a JSON value is built of and what is read of it.

use vstd::prelude::*;

use crate::json::{Json, JsonView};

verus! {

/// A value is read as what it is and as nothing else.
pub proof fn law_values_read_by_type(value: JsonView)
    ensures
        value is Str ==> value.as_str() == Some(value->Str_0),
        value !is Str ==> value.as_str() is None,
        value is Bool ==> value.as_bool() == Some(value->Bool_0),
        value !is Bool ==> value.as_bool() is None,
        value is Int && 0 <= value->Int_0 < 0x1_0000_0000_0000_0000 ==> value.as_u64() is Some
            && value.as_u64()->0 == value->Int_0,
        !(value is Int && 0 <= value->Int_0 < 0x1_0000_0000_0000_0000) ==> value.as_u64() is None,
        value !is Object ==> forall|key: Seq<char>| (#[trigger] value.get(key)) is None,
{
}

/// What is under a key is read as what it is.
pub proof fn law_fields_read_by_type(value: JsonView, key: Seq<char>)
    ensures
        value.get(key) is None ==> value.str_at(key) is None && value.bool_at(key) is None
            && value.u64_at(key) is None,
        value.get(key) is Some ==> {
            let field = value.get(key)->0;
            &&& value.str_at(key) == field.as_str()
            &&& value.bool_at(key) == field.as_bool()
            &&& value.u64_at(key) == field.as_u64()
        },
{
}

/// The value of an entry is found under its key unless an entry before it has
/// the key, and under no other key.
pub proof fn law_entries_found(
    entries: Seq<(Seq<char>, JsonView)>,
    key: Seq<char>,
    i: int,
)
    ensures
        0 <= i < entries.len() && entries[i].0 == key && (forall|j: int|
            0 <= j < i ==> (#[trigger] entries[j]).0 != key) ==> JsonView::Object(entries).get(key)
            == Some(entries[i].1),
        (forall|j: int| 0 <= j < entries.len() ==> (#[trigger] entries[j]).0 != key)
            ==> JsonView::Object(entries).get(key) is None,
    decreases entries.len(),
{
    if entries.len() > 0 {
        let rest = entries.drop_first();
        assert(forall|j: int| 0 <= j < rest.len() ==> #[trigger] rest[j] == entries[j + 1]);
        law_entries_found(rest, key, i - 1);
        if forall|j: int| 0 <= j < entries.len() ==> (#[trigger] entries[j]).0 != key {
            assert(entries[0].0 != key);
            assert forall|j: int| 0 <= j < rest.len() implies (#[trigger] rest[j]).0 != key by {
                assert(entries[j + 1].0 != key);
            }
        }
        if 0 <= i < entries.len() && entries[i].0 == key && (forall|j: int|
            0 <= j < i ==> (#[trigger] entries[j]).0 != key) {
            if i > 0 {
                assert(entries[0].0 != key);
                assert forall|j: int| 0 <= j < i - 1 implies (#[trigger] rest[j]).0 != key by {
                    assert(entries[j + 1].0 != key);
                }
                assert(rest[i - 1] == entries[i]);
            }
        }
    }
}

// ---- building and reading values ------------------------------------------

/// A new entry or item goes behind those that are there, and changes none of
/// them; anything else than an object or an array is left as it is.
pub proof fn law_values_grow(
    value: Json,
    key: &str,
    item: Json,
    with_entry: Json,
    with_item: Json,
)
    requires
        call_ensures(Json::with, (value, key, item), with_entry),
        call_ensures(Json::with_item, (value, item), with_item),
    ensures
        value@ is Object ==> with_entry@ == JsonView::Object(
            value@->Object_0 + seq![(key@, item@)],
        ),
        value@ !is Object ==> with_entry@ == value@,
        value@ is Array ==> with_item@ == JsonView::Array(value@->Array_0 + seq![item@]),
        value@ !is Array ==> with_item@ == value@,
{
    if value@ is Object {
        assert(with_entry@->Object_0 =~= value@->Object_0 + seq![(key@, item@)]);
    }
    if value@ is Array {
        assert(with_item@->Array_0 =~= value@->Array_0 + seq![item@]);
    }
}

/// A value begins empty, a text is a string, and a copy is the same value.
pub proof fn law_values_begin(
    object: Json,
    array: Json,
    s: &str,
    text: Json,
    original: Json,
    copy: Json,
)
    requires
        call_ensures(Json::object, (), object),
        call_ensures(Json::array, (), array),
        call_ensures(Json::text, (s,), text),
        call_ensures(<Json as Clone>::clone, (&original,), copy),
    ensures
        object@ is Object && object@->Object_0.len() == 0,
        array@ is Array && array@->Array_0.len() == 0,
        text@ == JsonView::Str(s@),
        copy@ == original@,
{
}

/// The functions read what the model holds.
pub proof fn law_values_read(
    value: &Json,
    key: &str,
    field: Option<&Json>,
    s: Option<&str>,
    b: Option<bool>,
    n: Option<u64>,
)
    requires
        call_ensures(Json::get, (value, key), field),
        call_ensures(Json::str_at, (value, key), s),
        call_ensures(Json::bool_at, (value, key), b),
        call_ensures(Json::u64_at, (value, key), n),
    ensures
        field is None <==> value@.get(key@) is None,
        field is Some ==> value@.get(key@) == Some(field->0@),
        s is Some <==> field is Some && field->0@ is Str,
        s is Some ==> field->0@ == JsonView::Str(s->0@),
        b is Some <==> field is Some && field->0@ is Bool,
        b is Some ==> field->0@ == JsonView::Bool(b->0),
        n is Some <==> field is Some && field->0@ is Int && 0 <= field->0@->Int_0
            < 0x1_0000_0000_0000_0000,
        n is Some ==> field->0@ == JsonView::Int(n->0 as int),
{
}

} // verus!
