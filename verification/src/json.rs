//! The documents that travel on the wire, as a value type of this crate.
//! Turning text into such a value and back is left to the caller.
use vstd::prelude::*;

verus! {

/// A document: what a request, a response or an agent's reply carries.
/// Numbers are whole.
#[derive(Debug, PartialEq, Eq)]
pub enum Json {
    Null,
    Bool(bool),
    Int(i64),
    Str(String),
    Array(Vec<Json>),
    Object(Vec<(String, Json)>),
}

/// A [`Json`] document as plain values.
pub enum JsonValue {
    Null,
    Bool(bool),
    Int(int),
    Str(Seq<char>),
    Array(Seq<JsonValue>),
    Object(Seq<(Seq<char>, JsonValue)>),
}

impl Json {
    /// The document as plain values.
    pub open spec fn model(self) -> JsonValue
        decreases self,
    {
        match self {
            Json::Null => JsonValue::Null,
            Json::Bool(b) => JsonValue::Bool(b),
            Json::Int(n) => JsonValue::Int(n as int),
            Json::Str(s) => JsonValue::Str(s@),
            Json::Array(items) => JsonValue::Array(
                Seq::new(
                    items@.len(),
                    |i: int|
                        if 0 <= i < items@.len() {
                            items@[i].model()
                        } else {
                            JsonValue::Null
                        },
                ),
            ),
            Json::Object(fields) => JsonValue::Object(
                Seq::new(
                    fields@.len(),
                    |i: int|
                        if 0 <= i < fields@.len() {
                            (fields@[i].0@, fields@[i].1.model())
                        } else {
                            (Seq::empty(), JsonValue::Null)
                        },
                ),
            ),
        }
    }
}

impl View for Json {
    type V = JsonValue;

    open spec fn view(&self) -> JsonValue {
        self.model()
    }
}

/// The value of the first of `fields` that is named `key`.
pub open spec fn lookup(fields: Seq<(Seq<char>, JsonValue)>, key: Seq<char>) -> Option<JsonValue>
    decreases fields.len(),
{
    if fields.len() == 0 {
        None
    } else {
        match lookup(fields.drop_last(), key) {
            Some(value) => Some(value),
            None => if fields.last().0 == key {
                Some(fields.last().1)
            } else {
                None
            },
        }
    }
}

/// What is found among the first `n` fields is found among all of them.
pub proof fn lookup_in_prefix(fields: Seq<(Seq<char>, JsonValue)>, key: Seq<char>, n: int)
    requires
        0 <= n <= fields.len(),
        lookup(fields.take(n), key) is Some,
    ensures
        lookup(fields, key) == lookup(fields.take(n), key),
    decreases fields.len() - n,
{
    if n < fields.len() {
        assert(fields.take(n + 1).drop_last() =~= fields.take(n));
        lookup_in_prefix(fields, key, n + 1);
    } else {
        assert(fields.take(n) =~= fields);
    }
}

impl JsonValue {
    /// The value of the first field named `key` of an object; `None` for a
    /// document that is no object or has no such field.
    pub open spec fn field(self, key: Seq<char>) -> Option<JsonValue> {
        match self {
            JsonValue::Object(fields) => lookup(fields, key),
            _ => None,
        }
    }

    /// The object `self` with one more field at its end; `self` where it is
    /// no object.
    pub open spec fn with(self, key: Seq<char>, value: JsonValue) -> JsonValue {
        match self {
            JsonValue::Object(fields) => JsonValue::Object(fields.push((key, value))),
            other => other,
        }
    }

    /// `self.with(key, value)` where a value is given, `self` where none is.
    pub open spec fn with_opt(self, key: Seq<char>, value: Option<JsonValue>) -> JsonValue {
        match value {
            Some(value) => self.with(key, value),
            None => self,
        }
    }

    /// The object without fields.
    pub open spec fn empty() -> JsonValue {
        JsonValue::Object(Seq::empty())
    }

    /// The text of a string document.
    pub open spec fn text(self) -> Option<Seq<char>> {
        match self {
            JsonValue::Str(s) => Some(s),
            _ => None,
        }
    }

    /// The value of a boolean document.
    pub open spec fn truth(self) -> Option<bool> {
        match self {
            JsonValue::Bool(b) => Some(b),
            _ => None,
        }
    }

    /// The value of a number document.
    pub open spec fn number(self) -> Option<int> {
        match self {
            JsonValue::Int(n) => Some(n),
            _ => None,
        }
    }
}

impl Json {
    /// The value of the first field named `key`.
    pub fn get(&self, key: &str) -> (r: Option<&Json>)
        ensures
            match r {
                Some(j) => self@.field(key@) == Some(j@),
                None => self@.field(key@) is None,
            },
    {
        match self {
            Json::Object(fields) => {
                let wanted = key.to_string();
                let ghost model = self@->Object_0;
                let mut i: usize = 0;
                while i < fields.len()
                    invariant
                        i <= fields.len(),
                        wanted@ == key@,
                        self@ == JsonValue::Object(model),
                        model.len() == fields@.len(),
                        forall|j: int|
                            0 <= j < fields@.len() ==> #[trigger] model[j] == (
                                fields@[j].0@,
                                fields@[j].1@,
                            ),
                        lookup(model.take(i as int), key@) is None,
                    decreases fields.len() - i,
                {
                    assert(model.take(i as int + 1).drop_last() =~= model.take(i as int));
                    if fields[i].0 == wanted {
                        proof {
                            lookup_in_prefix(model, key@, i as int + 1);
                        }
                        return Some(&fields[i].1);
                    }
                    i += 1;
                }
                assert(model.take(i as int) =~= model);
                None
            },
            _ => None,
        }
    }

    /// The text of a string document.
    pub fn as_text(&self) -> (r: Option<&String>)
        ensures
            match r {
                Some(s) => self@.text() == Some(s@),
                None => self@.text() is None,
            },
    {
        match self {
            Json::Str(s) => Some(s),
            _ => None,
        }
    }

    /// The value of a boolean document.
    pub fn as_bool(&self) -> (r: Option<bool>)
        ensures
            r == self@.truth(),
    {
        match self {
            Json::Bool(b) => Some(*b),
            _ => None,
        }
    }

    /// The value of a number document.
    pub fn as_int(&self) -> (r: Option<i64>)
        ensures
            match r {
                Some(n) => self@.number() == Some(n as int),
                None => self@.number() is None,
            },
    {
        match self {
            Json::Int(n) => Some(*n),
            _ => None,
        }
    }

    /// A string document that reads as `s`.
    pub fn text(s: &str) -> (j: Json)
        ensures
            j@ == JsonValue::Str(s@),
    {
        Json::Str(s.to_string())
    }

    /// An object with no fields.
    pub fn empty_object() -> (j: Json)
        ensures
            j@ == JsonValue::empty(),
    {
        let j = Json::Object(Vec::new());
        assert(j@->Object_0 =~= Seq::empty());
        j
    }

    /// The object `self` with one more field at its end; `self` unchanged
    /// where it is no object.
    pub fn with(self, key: &str, value: Json) -> (j: Json)
        ensures
            j@ == self@.with(key@, value@),
    {
        let ghost before = self@;
        match self {
            Json::Object(mut fields) => {
                fields.push((key.to_string(), value));
                let j = Json::Object(fields);
                assert(j@->Object_0 =~= before->Object_0.push((key@, value@)));
                j
            },
            other => other,
        }
    }
}



impl Json {
    /// A copy that reads as `self`.
    pub fn duplicate(&self) -> (copy: Json)
        ensures
            copy@ == self@,
        decreases self,
    {
        match self {
            Json::Null => Json::Null,
            Json::Bool(b) => Json::Bool(*b),
            Json::Int(n) => Json::Int(*n),
            Json::Str(s) => Json::Str(s.clone()),
            Json::Array(items) => {
                let mut out: Vec<Json> = Vec::new();
                let mut i: usize = 0;
                while i < items.len()
                    invariant
                        i <= items.len(),
                        out@.len() == i,
                        *self == Json::Array(*items),
                        forall|k: int| 0 <= k < i ==> (#[trigger] out@[k]).model() == items@[k].model(),
                    decreases items.len() - i,
                {
                    proof {
                        vstd::std_specs::vec::axiom_vec_index_decreases(*items, i as int);
                        assert(decreases_to!(*items => items[i as int]));
                        assert(decreases_to!(*self => self->Array_0));
                        assert(self->Array_0 == *items);
                        assert(decreases_to!(*self => items[i as int]));
                    }
                    out.push(items[i].duplicate());
                    i += 1;
                }
                let copy = Json::Array(out);
                assert(copy@->Array_0 =~= self@->Array_0);
                copy
            },
            Json::Object(fields) => {
                let mut out: Vec<(String, Json)> = Vec::new();
                let mut i: usize = 0;
                while i < fields.len()
                    invariant
                        i <= fields.len(),
                        out@.len() == i,
                        *self == Json::Object(*fields),
                        forall|k: int|
                            0 <= k < i ==> (#[trigger] out@[k]).0@ == fields@[k].0@ && out@[k].1.model()
                                == fields@[k].1.model(),
                    decreases fields.len() - i,
                {
                    proof {
                        vstd::std_specs::vec::axiom_vec_index_decreases(*fields, i as int);
                        assert(decreases_to!(*fields => fields[i as int]));
                        assert(decreases_to!(*self => self->Object_0));
                        assert(self->Object_0 == *fields);
                        assert(decreases_to!(fields[i as int] => fields[i as int].1));
                        assert(decreases_to!(*self => fields[i as int].1));
                    }
                    out.push((fields[i].0.clone(), fields[i].1.duplicate()));
                    i += 1;
                }
                let copy = Json::Object(out);
                assert(copy@->Object_0 =~= self@->Object_0);
                copy
            },
        }
    }

    /// `self.with(key, value)` where a value is given, `self` where none is.
    pub fn with_opt(self, key: &str, value: Option<Json>) -> (j: Json)
        ensures
            j@ == self@.with_opt(
                key@,
                match value {
                    Some(v) => Some(v@),
                    None => None,
                },
            ),
    {
        match value {
            Some(v) => self.with(key, v),
            None => self,
        }
    }
}

/// What a lookup finds in an object that got one more field: what it found
/// before, or else the new field where the key is its name.
pub proof fn field_after_with(object: JsonValue, key: Seq<char>, value: JsonValue, wanted: Seq<char>)
    requires
        object is Object,
    ensures
        object.with(key, value).field(wanted) == if object.field(wanted) is Some {
            object.field(wanted)
        } else if wanted == key {
            Some(value)
        } else {
            None
        },
{
    let fields = object->Object_0;
    assert(fields.push((key, value)).drop_last() =~= fields);
}


/// The object with a field for each of `fields` that has a value, in their
/// order.
pub open spec fn record(fields: Seq<(Seq<char>, Option<JsonValue>)>) -> JsonValue
    decreases fields.len(),
{
    if fields.len() == 0 {
        JsonValue::empty()
    } else {
        record(fields.drop_last()).with_opt(fields.last().0, fields.last().1)
    }
}

/// A record is an object, and it has no field under a key that none of its
/// fields has.
pub proof fn record_lacks(fields: Seq<(Seq<char>, Option<JsonValue>)>, key: Seq<char>)
    requires
        forall|j: int| 0 <= j < fields.len() ==> (#[trigger] fields[j]).0 != key,
    ensures
        record(fields) is Object,
        record(fields).field(key) is None,
    decreases fields.len(),
{
    if fields.len() > 0 {
        let rest = fields.drop_last();
        assert forall|j: int| 0 <= j < rest.len() implies (#[trigger] rest[j]).0 != key by {
            assert(rest[j] == fields[j]);
        }
        record_lacks(rest, key);
        assert(fields[fields.len() - 1].0 != key);
        if let Some(value) = fields.last().1 {
            field_after_with(record(rest), fields.last().0, value, key);
        }
    }
}

/// Where the keys of a record differ, it has under each key the value of
/// that field, and no field where that value is absent.
pub proof fn record_field(fields: Seq<(Seq<char>, Option<JsonValue>)>, i: int)
    requires
        0 <= i < fields.len(),
        forall|j: int| 0 <= j < fields.len() && j != i ==> (#[trigger] fields[j]).0 != fields[i].0,
    ensures
        record(fields) is Object,
        record(fields).field(fields[i].0) == fields[i].1,
    decreases fields.len(),
{
    let rest = fields.drop_last();
    let key = fields[i].0;
    if i == fields.len() - 1 {
        assert forall|j: int| 0 <= j < rest.len() implies (#[trigger] rest[j]).0 != key by {
            assert(rest[j] == fields[j]);
        }
        record_lacks(rest, key);
    } else {
        assert(rest[i] == fields[i]);
        assert forall|j: int| 0 <= j < rest.len() && j != i implies (#[trigger] rest[j]).0
            != rest[i].0 by {
            assert(rest[j] == fields[j]);
        }
        record_field(rest, i);
        assert(fields[fields.len() - 1].0 != key);
    }
    if let Some(value) = fields.last().1 {
        field_after_with(record(rest), fields.last().0, value, key);
    }
}

} // verus!
