//! JSON values as the diagnostics read and build them.

use vstd::prelude::*;
use vstd::string::*;

use crate::text::same_text;

verus! {

/// A JSON value. The entries of an object are kept in the order in which they
/// are walked; a number that is no integer is kept by its text.
#[derive(Debug)]
pub enum Json {
    Null,
    Bool(bool),
    Int(i128),
    Real(String),
    Str(String),
    Array(Vec<Json>),
    Object(Vec<(String, Json)>),
}

/// The mathematical model of a JSON value.
pub enum JsonView {
    Null,
    Bool(bool),
    Int(int),
    Real(Seq<char>),
    Str(Seq<char>),
    Array(Seq<JsonView>),
    Object(Seq<(Seq<char>, JsonView)>),
}

impl JsonView {
    /// An object without entries.
    pub open spec fn object() -> JsonView {
        JsonView::Object(Seq::empty())
    }

    /// This object with one more entry at its end; anything else unchanged.
    pub open spec fn with(self, key: Seq<char>, value: JsonView) -> JsonView {
        match self {
            JsonView::Object(entries) => JsonView::Object(entries.push((key, value))),
            other => other,
        }
    }

    /// An array without items.
    pub open spec fn array() -> JsonView {
        JsonView::Array(Seq::empty())
    }

    /// This array with one more item at its end; anything else unchanged.
    pub open spec fn with_item(self, item: JsonView) -> JsonView {
        match self {
            JsonView::Array(items) => JsonView::Array(items.push(item)),
            other => other,
        }
    }

    /// The value under `key`, if this is an object that has one.
    pub open spec fn get(self, key: Seq<char>) -> Option<JsonView> {
        match self {
            JsonView::Object(entries) => crate::assoc::lookup(entries, key),
            _ => None,
        }
    }

    /// The text, if this is a string.
    pub open spec fn as_str(self) -> Option<Seq<char>> {
        match self {
            JsonView::Str(s) => Some(s),
            _ => None,
        }
    }

    /// The truth value, if this is one.
    pub open spec fn as_bool(self) -> Option<bool> {
        match self {
            JsonView::Bool(b) => Some(b),
            _ => None,
        }
    }

    /// The number, if this is an integer in the range of `u64`.
    pub open spec fn as_u64(self) -> Option<u64> {
        match self {
            JsonView::Int(n) => if 0 <= n <= u64::MAX {
                Some(n as u64)
            } else {
                None
            },
            _ => None,
        }
    }

    /// The text under `key`, if this is an object that has a string there.
    pub open spec fn str_at(self, key: Seq<char>) -> Option<Seq<char>> {
        match self.get(key) {
            Some(v) => v.as_str(),
            None => None,
        }
    }

    /// The truth value under `key`, if this is an object that has one there.
    pub open spec fn bool_at(self, key: Seq<char>) -> Option<bool> {
        match self.get(key) {
            Some(v) => v.as_bool(),
            None => None,
        }
    }

    /// The number under `key`, if this is an object that has an integer in
    /// the range of `u64` there.
    pub open spec fn u64_at(self, key: Seq<char>) -> Option<u64> {
        match self.get(key) {
            Some(v) => v.as_u64(),
            None => None,
        }
    }
}

impl Json {
    /// The model of this value.
    pub open spec fn model(self) -> JsonView
        decreases self,
    {
        match self {
            Json::Null => JsonView::Null,
            Json::Bool(b) => JsonView::Bool(b),
            Json::Int(n) => JsonView::Int(n as int),
            Json::Real(s) => JsonView::Real(s@),
            Json::Str(s) => JsonView::Str(s@),
            Json::Array(items) => JsonView::Array(
                Seq::new(
                    items@.len(),
                    |i: int|
                        if 0 <= i < items@.len() {
                            items@[i].model()
                        } else {
                            JsonView::Null
                        },
                ),
            ),
            Json::Object(entries) => JsonView::Object(
                Seq::new(
                    entries@.len(),
                    |i: int|
                        if 0 <= i < entries@.len() {
                            (entries@[i].0@, entries@[i].1.model())
                        } else {
                            (Seq::empty(), JsonView::Null)
                        },
                ),
            ),
        }
    }
}

impl View for Json {
    type V = JsonView;

    open spec fn view(&self) -> JsonView {
        self.model()
    }
}

/// The models of the entries of an object.
pub open spec fn entry_models(entries: Seq<(String, Json)>) -> Seq<(Seq<char>, JsonView)> {
    Seq::new(entries.len(), |i: int| (entries[i].0@, entries[i].1@))
}

impl Json {
    proof fn lemma_object(entries: Vec<(String, Json)>)
        ensures
            Json::Object(entries)@ == JsonView::Object(entry_models(entries@)),
    {
        assert(Json::Object(entries)@->Object_0 =~= entry_models(entries@));
    }

    /// An object without entries.
    pub fn object() -> (j: Json)
        ensures
            j@ == JsonView::object(),
    {
        let j: Json = Json::Object(Vec::new());
        assert(j@->Object_0 =~= Seq::<(Seq<char>, JsonView)>::empty());
        j
    }

    /// This object with one more entry at its end; anything else unchanged.
    pub fn with(self, key: &str, value: Json) -> (j: Json)
        ensures
            j@ == self@.with(key@, value@),
    {
        let ghost before = self@->Object_0;
        match self {
            Json::Object(entries) => {
                let mut entries: Vec<(String, Json)> = entries;
                entries.push((key.to_owned(), value));
                let j: Json = Json::Object(entries);
                assert(j@->Object_0 =~= before.push((key@, value@)));
                j
            },
            other => other,
        }
    }

    /// An array without items.
    pub fn array() -> (j: Json)
        ensures
            j@ == JsonView::array(),
    {
        let j: Json = Json::Array(Vec::new());
        assert(j@->Array_0 =~= Seq::<JsonView>::empty());
        j
    }

    /// This array with one more item at its end; anything else unchanged.
    pub fn with_item(self, item: Json) -> (j: Json)
        ensures
            j@ == self@.with_item(item@),
    {
        let ghost before = self@->Array_0;
        match self {
            Json::Array(items) => {
                let mut items: Vec<Json> = items;
                items.push(item);
                let j: Json = Json::Array(items);
                assert(j@->Array_0 =~= before.push(item@));
                j
            },
            other => other,
        }
    }

    /// A JSON string.
    pub fn text(s: &str) -> (j: Json)
        ensures
            j@ == JsonView::Str(s@),
    {
        Json::Str(s.to_owned())
    }

    /// The value under `key`, if this is an object that has one.
    pub fn get(&self, key: &str) -> (r: Option<&Json>)
        ensures
            match r {
                Some(v) => self@.get(key@) == Some(v@),
                None => self@.get(key@) is None,
            },
    {
        match self {
            Json::Object(entries) => {
                let ghost model = entry_models(entries@);
                proof {
                    Json::lemma_object(*entries);
                }
                let mut i: usize = 0;
                assert(model.skip(0) =~= model);
                while i < entries.len()
                    invariant
                        i <= entries@.len(),
                        model == entry_models(entries@),
                        self@ == JsonView::Object(model),
                        crate::assoc::lookup(model, key@) == crate::assoc::lookup(
                            model.skip(i as int),
                            key@,
                        ),
                    decreases entries@.len() - i,
                {
                    let entry: &(String, Json) = &entries[i];
                    assert(model.skip(i as int)[0] == model[i as int]);
                    if same_text(entry.0.as_str(), key) {
                        return Some(&entry.1);
                    }
                    assert(model.skip(i as int).drop_first() =~= model.skip(i + 1));
                    i = i + 1;
                }
                None
            },
            _ => None,
        }
    }

    /// The text, if this is a string.
    pub fn as_str(&self) -> (r: Option<&str>)
        ensures
            match r {
                Some(s) => self@.as_str() == Some(s@),
                None => self@.as_str() is None,
            },
    {
        match self {
            Json::Str(s) => Some(s.as_str()),
            _ => None,
        }
    }

    /// The truth value, if this is one.
    pub fn as_bool(&self) -> (r: Option<bool>)
        ensures
            r == self@.as_bool(),
    {
        match self {
            Json::Bool(b) => Some(*b),
            _ => None,
        }
    }

    /// The number, if this is an integer in the range of `u64`.
    pub fn as_u64(&self) -> (r: Option<u64>)
        ensures
            r == self@.as_u64(),
    {
        match self {
            Json::Int(n) => {
                let n: i128 = *n;
                if 0 <= n && n <= u64::MAX as i128 {
                    Some(n as u64)
                } else {
                    None
                }
            },
            _ => None,
        }
    }

    /// The text under `key`, if this is an object that has a string there.
    pub fn str_at(&self, key: &str) -> (r: Option<&str>)
        ensures
            match r {
                Some(s) => self@.str_at(key@) == Some(s@),
                None => self@.str_at(key@) is None,
            },
    {
        match self.get(key) {
            Some(v) => v.as_str(),
            None => None,
        }
    }

    /// The truth value under `key`, if this is an object that has one there.
    pub fn bool_at(&self, key: &str) -> (r: Option<bool>)
        ensures
            r == self@.bool_at(key@),
    {
        match self.get(key) {
            Some(v) => v.as_bool(),
            None => None,
        }
    }

    /// The number under `key`, if this is an object that has an integer in
    /// the range of `u64` there.
    pub fn u64_at(&self, key: &str) -> (r: Option<u64>)
        ensures
            r == self@.u64_at(key@),
    {
        match self.get(key) {
            Some(v) => v.as_u64(),
            None => None,
        }
    }
}

impl Clone for Json {
    fn clone(&self) -> (r: Json)
        ensures
            r@ == self@,
        decreases self,
    {
        match self {
            Json::Null => Json::Null,
            Json::Bool(b) => Json::Bool(*b),
            Json::Int(n) => Json::Int(*n),
            Json::Real(s) => Json::Real(s.clone()),
            Json::Str(s) => Json::Str(s.clone()),
            Json::Array(items) => {
                let mut copy: Vec<Json> = Vec::new();
                let mut i: usize = 0;
                while i < items.len()
                    invariant
                        *self == Json::Array(*items),
                        i <= items@.len(),
                        copy@.len() == i,
                        forall|k: int| 0 <= k < i ==> (#[trigger] copy@[k])@ == items@[k]@,
                    decreases items@.len() - i,
                {
                    assert(decreases_to!(*self => self->Array_0@[i as int]));
                    copy.push(items[i].clone());
                    i = i + 1;
                }
                let r: Json = Json::Array(copy);
                assert(r@->Array_0 =~= self@->Array_0);
                r
            },
            Json::Object(entries) => {
                let mut copy: Vec<(String, Json)> = Vec::new();
                let mut i: usize = 0;
                while i < entries.len()
                    invariant
                        *self == Json::Object(*entries),
                        i <= entries@.len(),
                        copy@.len() == i,
                        forall|k: int|
                            0 <= k < i ==> (#[trigger] copy@[k]).0@ == entries@[k].0@ && copy@[k].1@
                                == entries@[k].1@,
                    decreases entries@.len() - i,
                {
                    let entry: &(String, Json) = &entries[i];
                    assert(decreases_to!(*self => self->Object_0@[i as int].1));
                    copy.push((entry.0.clone(), entry.1.clone()));
                    i = i + 1;
                }
                let r: Json = Json::Object(copy);
                assert(r@->Object_0 =~= self@->Object_0);
                r
            },
        }
    }
}

/// An entry that is added to an object is found unless an earlier one has its
/// key, and hides nothing.
pub broadcast proof fn lemma_get_with(j: JsonView, key: Seq<char>, value: JsonView, k: Seq<char>)
    requires
        j is Object,
    ensures
        (#[trigger] j.with(key, value).get(k)) == (match j.get(k) {
            Some(v) => Some(v),
            None => if key == k {
                Some(value)
            } else {
                None
            },
        }),
{
    crate::assoc::lemma_lookup_push(j->Object_0, (key, value), k);
}

} // verus!
