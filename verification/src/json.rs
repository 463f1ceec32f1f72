//! JSON values as the event rewriting reads and writes them: objects whose
//! fields are found by key, with the last field of a key the one that counts,
//! and values written along dotted paths.

use vstd::prelude::*;

use crate::text::{str_eq, string_views};

verus! {

/// A JSON value. A number is kept as its text; an object as its fields in
/// order, of which the last one with a key gives the key's value.
#[derive(Debug)]
pub enum JsonValue {
    Null,
    Bool(bool),
    Number(String),
    Text(String),
    Array(Vec<JsonValue>),
    Object(Vec<(String, JsonValue)>),
}

/// What a JSON value means: an object is a map from keys to values.
pub enum JsonModel {
    Null,
    Bool(bool),
    Number(Seq<char>),
    Text(Seq<char>),
    Array(Seq<JsonModel>),
    Object(Map<Seq<char>, JsonModel>),
}

impl JsonValue {
    /// The meaning of the value.
    pub open spec fn model(self) -> JsonModel
        decreases self,
    {
        match self {
            JsonValue::Null => JsonModel::Null,
            JsonValue::Bool(b) => JsonModel::Bool(b),
            JsonValue::Number(n) => JsonModel::Number(n@),
            JsonValue::Text(t) => JsonModel::Text(t@),
            JsonValue::Array(items) => {
                proof {
                    assert(decreases_to!(items => items@));
                }
                JsonModel::Array(items_model(items@))
            },
            JsonValue::Object(fields) => {
                proof {
                    assert(decreases_to!(fields => fields@));
                }
                JsonModel::Object(fields_model(fields@))
            },
        }
    }
}

/// The meanings of a list of values.
pub open spec fn items_model(items: Seq<JsonValue>) -> Seq<JsonModel>
    decreases items,
{
    if items.len() == 0 {
        Seq::empty()
    } else {
        proof {
            assert(decreases_to!(items => items[items.len() - 1]));
            assert(decreases_to!(items => items.subrange(0, items.len() - 1)));
        }
        items_model(items.drop_last()).push(items.last().model())
    }
}

/// The map the fields of an object stand for: each key with the value of its
/// last field.
pub open spec fn fields_model(fields: Seq<(String, JsonValue)>) -> Map<Seq<char>, JsonModel>
    decreases fields,
{
    if fields.len() == 0 {
        Map::empty()
    } else {
        proof {
            assert(decreases_to!(fields => fields[fields.len() - 1]));
            assert(decreases_to!(fields[fields.len() - 1] => fields[fields.len() - 1].1));
            assert(decreases_to!(fields => fields.subrange(0, fields.len() - 1)));
        }
        fields_model(fields.drop_last()).insert(fields.last().0@, fields.last().1.model())
    }
}

/// The meanings of a list of values are the meanings of its values, in turn.
pub proof fn lemma_items_model(items: Seq<JsonValue>)
    ensures
        items_model(items).len() == items.len(),
        forall|i: int| 0 <= i < items.len() ==> items_model(items)[i] == (#[trigger] items[i]).model(),
    decreases items.len(),
{
    if items.len() > 0 {
        lemma_items_model(items.drop_last());
        assert forall|i: int| 0 <= i < items.len() implies items_model(items)[i] == (#[trigger] items[i]).model() by {
            if i < items.len() - 1 {
                assert(items[i] == items.drop_last()[i]);
            }
        }
    }
}

proof fn lemma_fields_absent(fields: Seq<(String, JsonValue)>, key: Seq<char>)
    requires
        forall|j: int| 0 <= j < fields.len() ==> (#[trigger] fields[j]).0@ != key,
    ensures
        !fields_model(fields).contains_key(key),
    decreases fields.len(),
{
    if fields.len() > 0 {
        lemma_fields_absent(fields.drop_last(), key);
    }
}

proof fn lemma_fields_last(fields: Seq<(String, JsonValue)>, key: Seq<char>, i: int)
    requires
        0 <= i < fields.len(),
        fields[i].0@ == key,
        forall|j: int| i < j < fields.len() ==> (#[trigger] fields[j]).0@ != key,
    ensures
        fields_model(fields).contains_key(key),
        fields_model(fields)[key] == fields[i].1.model(),
    decreases fields.len(),
{
    if i < fields.len() - 1 {
        lemma_fields_last(fields.drop_last(), key, i);
    }
}

proof fn lemma_fields_update_last(fields: Seq<(String, JsonValue)>, i: int, k: String, v: JsonValue)
    requires
        0 <= i < fields.len(),
        fields[i].0@ == k@,
        forall|j: int| i < j < fields.len() ==> (#[trigger] fields[j]).0@ != k@,
    ensures
        fields_model(fields.update(i, (k, v))) == fields_model(fields).insert(k@, v.model()),
    decreases fields.len(),
{
    let u = fields.update(i, (k, v));
    if i == fields.len() - 1 {
        assert(u.drop_last() =~= fields.drop_last());
        assert(fields_model(fields.drop_last()).insert(k@, v.model()) =~= fields_model(fields).insert(k@, v.model()));
    } else {
        lemma_fields_update_last(fields.drop_last(), i, k, v);
        assert(u.drop_last() =~= fields.drop_last().update(i, (k, v)));
        let last = fields.last();
        assert(u.last() == last);
        assert(last.0@ != k@);
        assert(fields_model(u) =~= fields_model(fields).insert(k@, v.model()));
    }
}

proof fn lemma_fields_push(fields: Seq<(String, JsonValue)>, k: String, v: JsonValue)
    ensures
        fields_model(fields.push((k, v))) == fields_model(fields).insert(k@, v.model()),
{
    assert(fields.push((k, v)).drop_last() =~= fields);
}

proof fn lemma_fields_remove_insert(fields: Seq<(String, JsonValue)>, i: int, x: (String, JsonValue))
    requires
        0 <= i < fields.len(),
    ensures
        fields.remove(i).insert(i, x) == fields.update(i, x),
{
    assert(fields.remove(i).insert(i, x) =~= fields.update(i, x));
}

fn last_field_index(fields: &Vec<(String, JsonValue)>, key: &str) -> (r: Option<usize>)
    ensures
        r matches Some(i) ==> i < fields@.len() && fields@[i as int].0@ == key@
            && forall|j: int| i < j < fields@.len() ==> (#[trigger] fields@[j]).0@ != key@,
        r is None ==> forall|j: int| 0 <= j < fields@.len() ==> (#[trigger] fields@[j]).0@ != key@,
{
    let mut i = fields.len();
    while i > 0
        invariant
            i <= fields@.len(),
            forall|j: int| i <= j < fields@.len() ==> (#[trigger] fields@[j]).0@ != key@,
        decreases i,
    {
        if str_eq(fields[i - 1].0.as_str(), key) {
            return Some(i - 1);
        }
        i = i - 1;
    }
    None
}

/// The fields of an object value; no fields for any other value.
pub open spec fn object_fields(t: JsonModel) -> Map<Seq<char>, JsonModel> {
    match t {
        JsonModel::Object(m) => m,
        _ => Map::empty(),
    }
}

/// The value at a path of keys, going down through objects.
pub open spec fn lookup_path(t: JsonModel, parts: Seq<Seq<char>>) -> Option<JsonModel>
    decreases parts.len(),
{
    if parts.len() == 0 {
        Some(t)
    } else {
        match t {
            JsonModel::Object(m) => if m.contains_key(parts[0]) {
                lookup_path(m[parts[0]], parts.drop_first())
            } else {
                None
            },
            _ => None,
        }
    }
}

/// A value written at a path of keys: the first key of an object (or of null,
/// which becomes an empty object) is set; for a longer path, the value under
/// that key, kept where it is an object and an empty object otherwise, gets
/// the rest of the path.
pub open spec fn set_path(t: JsonModel, parts: Seq<Seq<char>>, v: JsonModel) -> JsonModel
    decreases parts.len(),
{
    if parts.len() == 0 {
        t
    } else {
        let m = object_fields(t);
        if parts.len() == 1 {
            JsonModel::Object(m.insert(parts[0], v))
        } else {
            let child = if m.contains_key(parts[0]) && m[parts[0]] is Object {
                m[parts[0]]
            } else {
                JsonModel::Object(Map::empty())
            };
            JsonModel::Object(m.insert(parts[0], set_path(child, parts.drop_first(), v)))
        }
    }
}

/// A value written at a path is what a read at that path gives back.
pub proof fn lemma_read_after_write(t: JsonModel, parts: Seq<Seq<char>>, v: JsonModel)
    requires
        parts.len() > 0,
    ensures
        lookup_path(set_path(t, parts, v), parts) == Some(v),
    decreases parts.len(),
{
    if parts.len() > 1 {
        let m = object_fields(t);
        let child = if m.contains_key(parts[0]) && m[parts[0]] is Object {
            m[parts[0]]
        } else {
            JsonModel::Object(Map::empty())
        };
        lemma_read_after_write(child, parts.drop_first(), v);
    } else {
        reveal_with_fuel(lookup_path, 2);
        assert(parts.drop_first().len() == 0);
    }
}

/// Writing at a path leaves the other top-level keys of an object as they
/// were, and always gives an object.
pub proof fn lemma_write_keeps_other_keys(t: JsonModel, parts: Seq<Seq<char>>, v: JsonModel, key: Seq<char>)
    requires
        parts.len() > 0,
        key != parts[0],
    ensures
        set_path(t, parts, v) is Object,
        object_fields(set_path(t, parts, v)).contains_key(key) == object_fields(t).contains_key(key),
        object_fields(t).contains_key(key) ==> object_fields(set_path(t, parts, v))[key] == object_fields(t)[key],
{
}

impl JsonValue {
    /// The value of a key of an object: that of its last field with the key;
    /// nothing for a missing key or a value that is not an object.
    pub fn get(&self, key: &str) -> (r: Option<&JsonValue>)
        ensures
            match self.model() {
                JsonModel::Object(m) => if m.contains_key(key@) {
                    r matches Some(v) && v.model() == m[key@]
                } else {
                    r is None
                },
                _ => r is None,
            },
    {
        match self {
            JsonValue::Object(fields) => {
                match last_field_index(fields, key) {
                    Some(i) => {
                        proof {
                            lemma_fields_last(fields@, key@, i as int);
                        }
                        Some(&fields[i].1)
                    },
                    None => {
                        proof {
                            lemma_fields_absent(fields@, key@);
                        }
                        None
                    },
                }
            },
            _ => None,
        }
    }

    /// A copy of the value.
    pub fn copy(&self) -> (r: JsonValue)
        ensures
            r.model() == self.model(),
        decreases self,
    {
        match self {
            JsonValue::Null => JsonValue::Null,
            JsonValue::Bool(b) => JsonValue::Bool(*b),
            JsonValue::Number(n) => JsonValue::Number(n.clone()),
            JsonValue::Text(t) => JsonValue::Text(t.clone()),
            JsonValue::Array(items) => {
                let mut out: Vec<JsonValue> = Vec::new();
                let n = items.len();
                let mut i: usize = 0;
                assert(items@.subrange(0, 0) =~= Seq::<JsonValue>::empty());
                while i < n
                    invariant
                        n == items@.len(),
                        i <= n,
                        items_model(out@) == items_model(items@.subrange(0, i as int)),
                        *self == JsonValue::Array(*items),
                    decreases n - i,
                {
                    proof {
                        assert(decreases_to!(*self => (*self)->Array_0));
                        assert(decreases_to!(*items => items@));
                        assert(decreases_to!(items@ => items@[i as int]));
                    }
                    let c = items[i].copy();
                    let ghost before = out@;
                    out.push(c);
                    proof {
                        assert(out@.drop_last() =~= before);
                        assert(items@.subrange(0, i + 1).drop_last() =~= items@.subrange(0, i as int));
                    }
                    i = i + 1;
                }
                assert(items@.subrange(0, n as int) =~= items@);
                JsonValue::Array(out)
            },
            JsonValue::Object(fields) => {
                let mut out: Vec<(String, JsonValue)> = Vec::new();
                let n = fields.len();
                let mut i: usize = 0;
                assert(fields@.subrange(0, 0) =~= Seq::<(String, JsonValue)>::empty());
                while i < n
                    invariant
                        n == fields@.len(),
                        i <= n,
                        fields_model(out@) == fields_model(fields@.subrange(0, i as int)),
                        *self == JsonValue::Object(*fields),
                    decreases n - i,
                {
                    proof {
                        assert(decreases_to!(*self => (*self)->Object_0));
                        assert(decreases_to!(*fields => fields@));
                        assert(decreases_to!(fields@ => fields@[i as int]));
                        assert(decreases_to!(fields@[i as int] => fields@[i as int].1));
                    }
                    let c = fields[i].1.copy();
                    let k = fields[i].0.clone();
                    let ghost before = out@;
                    out.push((k, c));
                    proof {
                        assert(out@.drop_last() =~= before);
                        assert(fields@.subrange(0, i + 1).drop_last() =~= fields@.subrange(0, i as int));
                    }
                    i = i + 1;
                }
                assert(fields@.subrange(0, n as int) =~= fields@);
                JsonValue::Object(out)
            },
        }
    }
}

/// Writes a value at the path `parts[idx..]` of an object or null.
pub fn set_parts(t: JsonValue, parts: &Vec<String>, idx: usize, value: JsonValue) -> (r: JsonValue)
    requires
        idx < parts@.len(),
        t is Object || t is Null,
    ensures
        r.model() == set_path(t.model(), string_views(parts@).skip(idx as int), value.model()),
        r is Object,
    decreases parts@.len() - idx,
{
    let ghost path = string_views(parts@).skip(idx as int);
    let ghost t_model = t.model();
    let mut fields: Vec<(String, JsonValue)> = match t {
        JsonValue::Object(f) => f,
        _ => Vec::new(),
    };
    assert(fields_model(fields@) == object_fields(t_model));
    let key = parts[idx].clone();
    assert(key@ == path[0]);
    let found = last_field_index(&fields, key.as_str());
    if idx == parts.len() - 1 {
        match found {
            Some(i) => {
                let ghost before = fields@;
                fields.set(i, (key, value));
                proof {
                    lemma_fields_update_last(before, i as int, key, value);
                }
            },
            None => {
                let ghost before = fields@;
                fields.push((key, value));
                proof {
                    lemma_fields_push(before, key, value);
                }
            },
        }
        return JsonValue::Object(fields);
    }
    proof {
        assert(path.drop_first() =~= string_views(parts@).skip(idx + 1));
    }
    match found {
        Some(i) => {
            let ghost before = fields@;
            proof {
                lemma_fields_last(before, key@, i as int);
            }
            let (k, child) = fields.remove(i);
            let base = match child {
                JsonValue::Object(cf) => JsonValue::Object(cf),
                _ => JsonValue::Object(Vec::new()),
            };
            let nc = set_parts(base, parts, idx + 1, value);
            let ghost entry = (k, nc);
            fields.insert(i, (k, nc));
            proof {
                lemma_fields_remove_insert(before, i as int, entry);
                lemma_fields_update_last(before, i as int, k, nc);
            }
        },
        None => {
            proof {
                lemma_fields_absent(fields@, key@);
            }
            let nc = set_parts(JsonValue::Object(Vec::new()), parts, idx + 1, value);
            let ghost before = fields@;
            fields.push((key, nc));
            proof {
                lemma_fields_push(before, key, nc);
            }
        },
    }
    JsonValue::Object(fields)
}

} // verus!
