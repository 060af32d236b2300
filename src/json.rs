use vstd::prelude::*;

verus! {

/// The abstract content of a JSON document.
pub enum JsonModel {
    Null,
    Bool(bool),
    Int(int),
    Str(Seq<char>),
    Array(Seq<JsonModel>),
    Object(Seq<(Seq<char>, JsonModel)>),
}

/// A JSON value as the library builds and reads it.
#[derive(Debug, PartialEq)]
pub enum Json {
    Null,
    Bool(bool),
    Int(i64),
    Str(String),
    Array(Vec<Json>),
    Object(Vec<(String, Json)>),
}

impl View for Json {
    type V = JsonModel;

    open spec fn view(&self) -> JsonModel {
        model_of(self)
    }
}

/// The abstract content of `j`.
pub open spec fn model_of(j: &Json) -> JsonModel
    decreases j,
    via json_model_decreases
{
    match j {
        Json::Null => JsonModel::Null,
        Json::Bool(b) => JsonModel::Bool(*b),
        Json::Int(n) => JsonModel::Int(*n as int),
        Json::Str(s) => JsonModel::Str(s@),
        Json::Array(items) => JsonModel::Array(
            Seq::new(
                items.len() as nat,
                |i: int|
                    if 0 <= i < items.len() {
                        model_of(&items[i])
                    } else {
                        JsonModel::Null
                    },
            ),
        ),
        Json::Object(fields) => JsonModel::Object(
            Seq::new(
                fields.len() as nat,
                |i: int|
                    if 0 <= i < fields.len() {
                        (fields[i].0@, model_of(&fields[i].1))
                    } else {
                        (Seq::empty(), JsonModel::Null)
                    },
            ),
        ),
    }
}

#[via_fn]
proof fn json_model_decreases(j: &Json) {
    broadcast use vstd::std_specs::vec::axiom_vec_index_decreases;
    match j {
        Json::Array(items) => {
            assert forall|i: int| 0 <= i < items.len() implies decreases_to!(*j => items[i]) by {
                assert(decreases_to!(items => items[i]));
            }
        }
        Json::Object(fields) => {
            assert forall|i: int| 0 <= i < fields.len() implies decreases_to!(*j => fields[i].1) by {
                assert(decreases_to!(fields => fields[i]));
            }
        }
        _ => {}
    }
}


impl Clone for Json {
    fn clone(&self) -> (r: Json)
        ensures
            r@ == self@,
    {
        self.duplicate()
    }
}

/// The first value stored under `key` in `fields`.
pub open spec fn member(fields: Seq<(Seq<char>, JsonModel)>, key: Seq<char>) -> Option<JsonModel>
    decreases fields.len(),
{
    if fields.len() == 0 {
        None
    } else if fields[0].0 == key {
        Some(fields[0].1)
    } else {
        member(fields.drop_first(), key)
    }
}

/// The member `key` of `j`, if `j` is an object that has one.
pub open spec fn get_member(j: JsonModel, key: Seq<char>) -> Option<JsonModel> {
    match j {
        JsonModel::Object(fields) => member(fields, key),
        _ => None,
    }
}

/// The member `key` of `j`, where it is present and not `null`: an optional field's value.
pub open spec fn present_member(j: JsonModel, key: Seq<char>) -> Option<JsonModel> {
    match get_member(j, key) {
        Some(JsonModel::Null) => None,
        other => other,
    }
}

pub open spec fn opt_model(o: Option<Json>) -> Option<JsonModel> {
    match o {
        Some(j) => Some(j@),
        None => None,
    }
}

proof fn lemma_member_step(fields: Seq<(Seq<char>, JsonModel)>, key: Seq<char>, i: int)
    requires
        0 <= i < fields.len(),
        fields[i].0 != key,
    ensures
        member(fields.subrange(i, fields.len() as int), key) == member(
            fields.subrange(i + 1, fields.len() as int),
            key,
        ),
{
    assert(fields.subrange(i, fields.len() as int).drop_first() =~= fields.subrange(
        i + 1,
        fields.len() as int,
    ));
}

impl Json {
    /// The member `key` of this value, if it is an object that has one.
    pub fn get(&self, key: &str) -> (r: Option<&Json>)
        ensures
            match r {
                Some(v) => get_member(self@, key@) == Some(v@),
                None => get_member(self@, key@) is None,
            },
    {
        match self {
            Json::Object(fields) => {
                let key_text = key.to_string();
                let ghost model = match self@ {
                    JsonModel::Object(f) => f,
                    _ => Seq::empty(),
                };
                assert(model.subrange(0, model.len() as int) =~= model);
                let mut i: usize = 0;
                while i < fields.len()
                    invariant
                        0 <= i <= fields.len(),
                        model.len() == fields.len(),
                        key_text@ == key@,
                        self@ == JsonModel::Object(model),
                        forall|k: int|
                            0 <= k < fields.len() ==> #[trigger] model[k] == (
                                fields[k].0@,
                                fields[k].1@,
                            ),
                        member(model, key@) == member(
                            model.subrange(i as int, model.len() as int),
                            key@,
                        ),
                    decreases fields.len() - i,
                {
                    if fields[i].0 == key_text {
                        assert(model.subrange(i as int, model.len() as int)[0] == model[i as int]);
                        return Some(&fields[i].1);
                    }
                    proof {
                        lemma_member_step(model, key@, i as int);
                    }
                    i = i + 1;
                }
                None
            },
            _ => None,
        }
    }

    /// The text of this value, if it is a string.
    pub fn as_str(&self) -> (r: Option<&String>)
        ensures
            match r {
                Some(s) => self@ == JsonModel::Str(s@),
                None => !(self@ is Str),
            },
    {
        match self {
            Json::Str(s) => Some(s),
            _ => None,
        }
    }

    /// The integer this value holds, if it is one.
    pub fn as_i64(&self) -> (r: Option<i64>)
        ensures
            match r {
                Some(n) => self@ == JsonModel::Int(n as int),
                None => !(self@ is Int),
            },
    {
        match self {
            Json::Int(n) => Some(*n),
            _ => None,
        }
    }

    /// The elements of this value, if it is an array.
    pub fn as_array(&self) -> (r: Option<&Vec<Json>>)
        ensures
            match r {
                Some(items) => self@ is Array && self@->Array_0.len() == items.len() && forall|
                    k: int,
                | 0 <= k < items.len() ==> #[trigger] self@->Array_0[k] == items[k]@,
                None => !(self@ is Array),
            },
    {
        match self {
            Json::Array(items) => Some(items),
            _ => None,
        }
    }

    pub fn is_null(&self) -> (r: bool)
        ensures
            r == (self@ is Null),
    {
        match self {
            Json::Null => true,
            _ => false,
        }
    }

    /// The document that `text` holds: `None` where it is not JSON, or holds a number that is
    /// not an integer in the range of `i64`.
    pub fn parse(text: &str) -> (r: Option<Json>)
        ensures
            opt_model(r) == parsed_json(text@),
    {
        parse_json(text)
    }

    /// The compact JSON text of this value.
    pub fn render(&self) -> (r: String)
        ensures
            r@ == json_text(self@),
    {
        render_json(self)
    }

    /// A copy of this value.
    pub fn duplicate(&self) -> (r: Json)
        ensures
            r@ == self@,
        decreases self@,
    {
        match self {
            Json::Null => Json::Null,
            Json::Bool(b) => Json::Bool(*b),
            Json::Int(n) => Json::Int(*n),
            Json::Str(s) => Json::Str(s.clone()),
            Json::Array(items) => {
                let mut out: Vec<Json> = Vec::new();
                let mut i: usize = 0;
                while i < items.len()
                    invariant
                        0 <= i <= items.len(),
                        out.len() == i,
                        forall|k: int| 0 <= k < i ==> (#[trigger] out[k])@ == items[k]@,
                        *self == Json::Array(*items),
                    decreases items.len() - i,
                {
                    assert(self@->Array_0[i as int] == items[i as int]@);
                    assert(decreases_to!(self@ => self@->Array_0[i as int]));
                    out.push(items[i].duplicate());
                    i = i + 1;
                }
                let r = Json::Array(out);
                assert(r@ == self@) by {
                    assert(r@->Array_0 =~= self@->Array_0);
                }
                r
            },
            Json::Object(fields) => {
                let mut out: Vec<(String, Json)> = Vec::new();
                let mut i: usize = 0;
                while i < fields.len()
                    invariant
                        0 <= i <= fields.len(),
                        out.len() == i,
                        forall|k: int|
                            0 <= k < i ==> (#[trigger] out[k]).0@ == fields[k].0@ && out[k].1@
                                == fields[k].1@,
                        *self == Json::Object(*fields),
                    decreases fields.len() - i,
                {
                    assert(self@->Object_0[i as int].1 == fields[i as int].1@);
                    assert(decreases_to!(self@ => self@->Object_0[i as int].1));
                    let value = fields[i].1.duplicate();
                    out.push((fields[i].0.clone(), value));
                    i = i + 1;
                }
                let r = Json::Object(out);
                assert(r@ == self@) by {
                    assert(r@->Object_0 =~= self@->Object_0);
                }
                r
            },
        }
    }
}


/// The members that `fields` lists, as the model sees them.
pub open spec fn entries_model(fields: Seq<(String, Json)>) -> Seq<(Seq<char>, JsonModel)> {
    Seq::new(fields.len(), |i: int| (fields[i].0@, fields[i].1@))
}

/// `entries` with the member `key` added at the end where `value` is present.
pub open spec fn with_optional(
    entries: Seq<(Seq<char>, JsonModel)>,
    key: Seq<char>,
    value: Option<JsonModel>,
) -> Seq<(Seq<char>, JsonModel)> {
    match value {
        Some(v) => entries.push((key, v)),
        None => entries,
    }
}

/// A list of members with nothing in it yet.
pub fn no_entries() -> (r: Vec<(String, Json)>)
    ensures
        entries_model(r@) == Seq::<(Seq<char>, JsonModel)>::empty(),
{
    let r: Vec<(String, Json)> = Vec::new();
    assert(entries_model(r@) =~= Seq::<(Seq<char>, JsonModel)>::empty());
    r
}

/// Adds the member `key` with `value` at the end of `fields`.
pub fn push_entry(fields: &mut Vec<(String, Json)>, key: &str, value: Json)
    ensures
        entries_model(final(fields)@) == entries_model(old(fields)@).push((key@, value@)),
{
    fields.push((key.to_string(), value));
    assert(entries_model(final(fields)@) =~= entries_model(old(fields)@).push((key@, value@)));
}

/// Adds the member `key` at the end of `fields` where `value` is present; leaves `fields`
/// as it is otherwise.
pub fn push_optional_entry(fields: &mut Vec<(String, Json)>, key: &str, value: Option<Json>)
    ensures
        entries_model(final(fields)@) == with_optional(
            entries_model(old(fields)@),
            key@,
            opt_model(value),
        ),
{
    match value {
        Some(v) => push_entry(fields, key, v),
        None => {},
    }
}

/// The object with the members `fields`, in order.
pub fn json_object(fields: Vec<(String, Json)>) -> (r: Json)
    ensures
        r@ == JsonModel::Object(entries_model(fields@)),
{
    let r = Json::Object(fields);
    assert(r@->Object_0 =~= entries_model(fields@));
    r
}

#[verifier::external_type_specification]
#[verifier::external_body]
pub struct ExJsonValue(serde_json::Value);

/// The document that serde_json reads from `text`: `None` where `text` is not JSON,
/// or holds a number that is not an integer in the range of `i64`.
pub uninterp spec fn parsed_json(text: Seq<char>) -> Option<JsonModel>;

/// The compact text that serde_json writes for `value`.
pub uninterp spec fn json_text(value: JsonModel) -> Seq<char>;

/// Relies on `serde_json::from_str::<serde_json::Value>`: what it reads depends on the text alone.
#[verifier::external_body]
pub(crate) fn parse_json(text: &str) -> (r: Option<Json>)
    ensures
        opt_model(r) == parsed_json(text@),
{
    serde_json::from_str::<serde_json::Value>(text).ok().and_then(json_from_value)
}

/// Relies on `serde_json::Value`'s `Display`, which writes the compact JSON text of the value.
#[verifier::external_body]
pub(crate) fn render_json(value: &Json) -> (r: String)
    ensures
        r@ == json_text(value@),
{
    value_from_json(value).to_string()
}

/// Moves a `Json` into serde_json's representation, variant by variant.
#[verifier::external_body]
fn value_from_json(j: &Json) -> serde_json::Value {
    match j {
        Json::Null => serde_json::Value::Null,
        Json::Bool(b) => serde_json::Value::Bool(*b),
        Json::Int(n) => serde_json::Value::from(*n),
        Json::Str(s) => serde_json::Value::String(s.clone()),
        Json::Array(items) => serde_json::Value::Array(items.iter().map(value_from_json).collect()),
        Json::Object(fields) => serde_json::Value::Object(
            fields.iter().map(|(k, v)| (k.clone(), value_from_json(v))).collect(),
        ),
    }
}

/// Moves serde_json's representation into a `Json`, variant by variant; `None` for a number
/// that `serde_json::Number::as_i64` does not give.
#[verifier::external_body]
fn json_from_value(v: serde_json::Value) -> Option<Json> {
    match v {
        serde_json::Value::Null => Some(Json::Null),
        serde_json::Value::Bool(b) => Some(Json::Bool(b)),
        serde_json::Value::Number(n) => n.as_i64().map(Json::Int),
        serde_json::Value::String(s) => Some(Json::Str(s)),
        serde_json::Value::Array(items) => items.into_iter().map(json_from_value).collect::<Option<Vec<Json>>>().map(Json::Array),
        serde_json::Value::Object(fields) => fields.into_iter().map(|(k, x)| json_from_value(x).map(|j| (k, j))).collect::<Option<Vec<(String, Json)>>>().map(Json::Object),
    }
}

} // verus!
