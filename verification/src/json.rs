use vstd::prelude::*;

verus! {

/// A JSON number, kept in the three shapes that the JSON reader produces:
/// a non-negative integer, a negative integer, or a decimal kept as its text.
#[derive(Debug)]
pub enum JsonNumber {
    PosInt(u64),
    NegInt(i64),
    Decimal(String),
}

/// A JSON document as plain values.
#[derive(Debug)]
pub enum Json {
    Null,
    Bool(bool),
    Number(JsonNumber),
    Str(String),
    Array(Vec<Json>),
    Object(Vec<(String, Json)>),
}

/// The mathematical model of a JSON number.
pub enum NumberModel {
    PosInt(u64),
    NegInt(i64),
    Decimal(Seq<char>),
}

/// The mathematical model of a JSON document.
pub enum JsonModel {
    Null,
    Bool(bool),
    Number(NumberModel),
    Str(Seq<char>),
    Array(Seq<JsonModel>),
    Object(Seq<(Seq<char>, JsonModel)>),
}

pub open spec fn number_model(n: JsonNumber) -> NumberModel {
    match n {
        JsonNumber::PosInt(u) => NumberModel::PosInt(u),
        JsonNumber::NegInt(i) => NumberModel::NegInt(i),
        JsonNumber::Decimal(s) => NumberModel::Decimal(s@),
    }
}

pub open spec fn json_model(j: Json) -> JsonModel
    decreases j,
{
    match j {
        Json::Null => JsonModel::Null,
        Json::Bool(b) => JsonModel::Bool(b),
        Json::Number(n) => JsonModel::Number(number_model(n)),
        Json::Str(s) => JsonModel::Str(s@),
        Json::Array(items) => JsonModel::Array(items_model(items@)),
        Json::Object(fields) => JsonModel::Object(fields_model(fields@)),
    }
}

pub open spec fn items_model(items: Seq<Json>) -> Seq<JsonModel>
    decreases items,
{
    if items.len() == 0 {
        Seq::empty()
    } else {
        seq![json_model(items[0])] + items_model(items.subrange(1, items.len() as int))
    }
}

pub open spec fn fields_model(fields: Seq<(String, Json)>) -> Seq<(Seq<char>, JsonModel)>
    decreases fields,
{
    if fields.len() == 0 {
        Seq::empty()
    } else {
        seq![(fields[0].0@, json_model(fields[0].1))] + fields_model(fields.subrange(1, fields.len() as int))
    }
}

} // verus!

verus! {

/// The models of a sequence of documents are taken one by one.
pub proof fn lemma_items_model(items: Seq<Json>)
    ensures
        items_model(items).len() == items.len(),
        forall|i: int| 0 <= i < items.len() ==> #[trigger] items_model(items)[i] == json_model(items[i]),
    decreases items.len(),
{
    if items.len() > 0 {
        let rest = items.subrange(1, items.len() as int);
        lemma_items_model(rest);
        assert forall|i: int| 0 <= i < items.len() implies #[trigger] items_model(items)[i] == json_model(items[i]) by {
            if i > 0 {
                assert(rest[i - 1] == items[i]);
            }
        }
    }
}

/// The models of the fields of an object are taken one by one.
pub proof fn lemma_fields_model(fields: Seq<(String, Json)>)
    ensures
        fields_model(fields).len() == fields.len(),
        forall|i: int| 0 <= i < fields.len() ==> #[trigger] fields_model(fields)[i] == (fields[i].0@, json_model(fields[i].1)),
    decreases fields.len(),
{
    if fields.len() > 0 {
        let rest = fields.subrange(1, fields.len() as int);
        lemma_fields_model(rest);
        assert forall|i: int| 0 <= i < fields.len() implies #[trigger] fields_model(fields)[i] == (fields[i].0@, json_model(fields[i].1)) by {
            if i > 0 {
                assert(rest[i - 1] == fields[i]);
            }
        }
    }
}

} // verus!

verus! {

/// The value stored under `key` in a list of object fields: the first field with that key.
pub open spec fn lookup(fields: Seq<(Seq<char>, JsonModel)>, key: Seq<char>) -> Option<JsonModel>
    decreases fields.len(),
{
    if fields.len() == 0 {
        None
    } else if fields[0].0 == key {
        Some(fields[0].1)
    } else {
        lookup(fields.subrange(1, fields.len() as int), key)
    }
}

/// `value.get(key)`: the field `key` of an object; nothing for any other value.
pub open spec fn model_get(m: JsonModel, key: Seq<char>) -> Option<JsonModel> {
    match m {
        JsonModel::Object(fields) => lookup(fields, key),
        _ => None,
    }
}

/// `value.get(i)`: the item `i` of an array; nothing for any other value.
pub open spec fn model_at(m: JsonModel, i: int) -> Option<JsonModel> {
    match m {
        JsonModel::Array(items) => if 0 <= i < items.len() { Some(items[i]) } else { None },
        _ => None,
    }
}

/// `value.as_str()`.
pub open spec fn model_str(m: JsonModel) -> Option<Seq<char>> {
    match m {
        JsonModel::Str(s) => Some(s),
        _ => None,
    }
}

/// `value.as_u64()`.
pub open spec fn model_u64(m: JsonModel) -> Option<u64> {
    match m {
        JsonModel::Number(NumberModel::PosInt(u)) => Some(u),
        _ => None,
    }
}

/// `opt.and_then(|v| v.get(key))`.
pub open spec fn opt_get(m: Option<JsonModel>, key: Seq<char>) -> Option<JsonModel> {
    match m {
        Some(v) => model_get(v, key),
        None => None,
    }
}

/// `opt.and_then(|v| v.as_str())`.
pub open spec fn opt_str(m: Option<JsonModel>) -> Option<Seq<char>> {
    match m {
        Some(v) => model_str(v),
        None => None,
    }
}

/// `opt.and_then(|v| v.as_u64())`.
pub open spec fn opt_u64(m: Option<JsonModel>) -> Option<u64> {
    match m {
        Some(v) => model_u64(v),
        None => None,
    }
}

proof fn lemma_lookup_first(fields: Seq<(Seq<char>, JsonModel)>, key: Seq<char>, i: int)
    requires
        0 <= i < fields.len(),
        fields[i].0 == key,
        forall|j: int| 0 <= j < i ==> fields[j].0 != key,
    ensures
        lookup(fields, key) == Some(fields[i].1),
    decreases i,
{
    if i > 0 {
        let rest = fields.subrange(1, fields.len() as int);
        assert forall|j: int| 0 <= j < i - 1 implies rest[j].0 != key by {
            assert(rest[j] == fields[j + 1]);
        }
        assert(rest[i - 1] == fields[i]);
        lemma_lookup_first(rest, key, i - 1);
    }
}

proof fn lemma_lookup_none(fields: Seq<(Seq<char>, JsonModel)>, key: Seq<char>)
    requires
        forall|j: int| 0 <= j < fields.len() ==> fields[j].0 != key,
    ensures
        lookup(fields, key) is None,
    decreases fields.len(),
{
    if fields.len() > 0 {
        let rest = fields.subrange(1, fields.len() as int);
        assert forall|j: int| 0 <= j < rest.len() implies rest[j].0 != key by {
            assert(rest[j] == fields[j + 1]);
        }
        lemma_lookup_none(rest, key);
    }
}

impl Json {
    pub open spec fn model(&self) -> JsonModel {
        json_model(*self)
    }

    /// `Value::get` with a key.
    pub fn get<'a>(&'a self, key: &str) -> (r: Option<&'a Json>)
        ensures
            match r {
                Some(v) => model_get(self.model(), key@) == Some(v.model()),
                None => model_get(self.model(), key@) is None,
            },
    {
        match self {
            Json::Object(fields) => {
                proof {
                    lemma_fields_model(fields@);
                }
                let k = key.to_string();
                let mut i: usize = 0;
                while i < fields.len()
                    invariant
                        i <= fields.len(),
                        k@ == key@,
                        self.model() == JsonModel::Object(fields_model(fields@)),
                        fields_model(fields@).len() == fields@.len(),
                        forall|j: int| 0 <= j < fields@.len() ==> #[trigger] fields_model(fields@)[j] == (fields@[j].0@, json_model(fields@[j].1)),
                        forall|j: int| 0 <= j < i ==> fields_model(fields@)[j].0 != key@,
                    decreases fields.len() - i,
                {
                    if fields[i].0 == k {
                        proof {
                            assert(fields_model(fields@)[i as int] == (fields@[i as int].0@, json_model(fields@[i as int].1)));
                            assert(fields_model(fields@)[i as int].0 == key@);
                            lemma_lookup_first(fields_model(fields@), key@, i as int);
                            assert(fields[i as int].1.model() == json_model(fields@[i as int].1));
                        }
                        return Some(&fields[i].1);
                    }
                    i = i + 1;
                }
                proof {
                    lemma_lookup_none(fields_model(fields@), key@);
                }
                None
            },
            _ => None,
        }
    }

    /// `Value::get` with an index.
    pub fn at<'a>(&'a self, i: usize) -> (r: Option<&'a Json>)
        ensures
            match r {
                Some(v) => model_at(self.model(), i as int) == Some(v.model()),
                None => model_at(self.model(), i as int) is None,
            },
    {
        match self {
            Json::Array(items) => {
                proof {
                    lemma_items_model(items@);
                }
                if i < items.len() {
                    Some(&items[i])
                } else {
                    None
                }
            },
            _ => None,
        }
    }

    /// `Value::as_str`.
    pub fn as_str(&self) -> (r: Option<&str>)
        ensures
            match r {
                Some(s) => model_str(self.model()) == Some(s@),
                None => model_str(self.model()) is None,
            },
    {
        match self {
            Json::Str(s) => Some(s.as_str()),
            _ => None,
        }
    }

    /// `Value::as_u64`.
    pub fn as_u64(&self) -> (r: Option<u64>)
        ensures
            r == model_u64(self.model()),
    {
        match self {
            Json::Number(JsonNumber::PosInt(u)) => Some(*u),
            _ => None,
        }
    }

    /// `Value::as_array`.
    pub fn as_array(&self) -> (r: Option<&Vec<Json>>)
        ensures
            match r {
                Some(items) => self.model() == JsonModel::Array(items_model(items@)),
                None => !(self.model() is Array),
            },
    {
        match self {
            Json::Array(items) => Some(items),
            _ => None,
        }
    }
}

} // verus!

verus! {

impl JsonNumber {
    /// A copy of the number.
    pub fn copy(&self) -> (r: JsonNumber)
        ensures
            number_model(r) == number_model(*self),
    {
        match self {
            JsonNumber::PosInt(u) => JsonNumber::PosInt(*u),
            JsonNumber::NegInt(i) => JsonNumber::NegInt(*i),
            JsonNumber::Decimal(s) => JsonNumber::Decimal(s.clone()),
        }
    }
}

impl Json {
    /// A deep copy of the document.
    pub fn copy(&self) -> (r: Json)
        ensures
            r.model() == self.model(),
        decreases self,
    {
        match self {
            Json::Null => Json::Null,
            Json::Bool(b) => Json::Bool(*b),
            Json::Number(n) => Json::Number(n.copy()),
            Json::Str(s) => Json::Str(s.clone()),
            Json::Array(items) => {
                let mut out: Vec<Json> = Vec::new();
                let mut i: usize = 0;
                while i < items.len()
                    invariant
                        i <= items.len(),
                        out.len() == i,
                        *self == Json::Array(*items),
                        forall|j: int| 0 <= j < i ==> (#[trigger] out@[j]).model() == items@[j].model(),
                    decreases items.len() - i,
                {
                    proof {
                        assert(decreases_to!(*self => (*self)->Array_0));
                        assert(decreases_to!(*items => items@));
                        assert(decreases_to!(items@ => items@[i as int]));
                        assert(decreases_to!(*self => items@[i as int]));
                    }
                    let c = items[i].copy();
                    out.push(c);
                    i = i + 1;
                }
                proof {
                    lemma_items_model(out@);
                    lemma_items_model(items@);
                    assert(items_model(out@) =~= items_model(items@));
                }
                Json::Array(out)
            },
            Json::Object(fields) => {
                let mut out: Vec<(String, Json)> = Vec::new();
                let mut i: usize = 0;
                while i < fields.len()
                    invariant
                        i <= fields.len(),
                        out.len() == i,
                        *self == Json::Object(*fields),
                        forall|j: int| 0 <= j < i ==> (#[trigger] out@[j]).0@ == fields@[j].0@ && out@[j].1.model() == fields@[j].1.model(),
                    decreases fields.len() - i,
                {
                    let key = fields[i].0.clone();
                    proof {
                        assert(decreases_to!(*self => (*self)->Object_0));
                        assert(decreases_to!(*fields => fields@));
                        assert(decreases_to!(fields@ => fields@[i as int]));
                        assert(decreases_to!(fields@[i as int] => fields@[i as int].1));
                        assert(decreases_to!(*self => fields@[i as int].1));
                    }
                    let c = fields[i].1.copy();
                    out.push((key, c));
                    i = i + 1;
                }
                proof {
                    lemma_fields_model(out@);
                    lemma_fields_model(fields@);
                    assert(fields_model(out@) =~= fields_model(fields@));
                }
                Json::Object(out)
            },
        }
    }
}

} // verus!

verus! {

#[verifier::external_type_specification]
#[verifier::external_body]
pub struct ExJsonValue(serde_json::Value);

/// The document that `serde_json::from_str` reads from `text`, or nothing when
/// `text` is not one JSON document.
pub uninterp spec fn parsed_json(text: Seq<char>) -> Option<JsonModel>;

/// The compact text that `serde_json` writes for `doc` (`Value::to_string`).
pub uninterp spec fn json_text_of(doc: JsonModel) -> Seq<char>;

/// Moves a `serde_json::Value` into the library's own document type, shape for shape.
#[verifier::external_body]
fn from_serde(v: serde_json::Value) -> Json {
    match v {
        serde_json::Value::Null => Json::Null,
        serde_json::Value::Bool(b) => Json::Bool(b),
        serde_json::Value::Number(n) => Json::Number(match (n.as_u64(), n.as_i64()) {
            (Some(u), _) => JsonNumber::PosInt(u),
            (None, Some(i)) => JsonNumber::NegInt(i),
            (None, None) => JsonNumber::Decimal(n.to_string()),
        }),
        serde_json::Value::String(s) => Json::Str(s),
        serde_json::Value::Array(a) => Json::Array(a.into_iter().map(from_serde).collect()),
        serde_json::Value::Object(m) => Json::Object(m.into_iter().map(|(k, x)| (k, from_serde(x))).collect()),
    }
}

/// Moves the library's document type into a `serde_json::Value`, shape for shape.
#[verifier::external_body]
fn to_serde(v: &Json) -> serde_json::Value {
    match v {
        Json::Null => serde_json::Value::Null,
        Json::Bool(b) => serde_json::Value::Bool(*b),
        Json::Number(JsonNumber::PosInt(u)) => serde_json::Value::from(*u),
        Json::Number(JsonNumber::NegInt(i)) => serde_json::Value::from(*i),
        Json::Number(JsonNumber::Decimal(s)) => serde_json::from_str(s).unwrap_or(serde_json::Value::Null),
        Json::Str(s) => serde_json::Value::String(s.clone()),
        Json::Array(a) => serde_json::Value::Array(a.iter().map(to_serde).collect()),
        Json::Object(f) => serde_json::Value::Object(f.iter().map(|(k, x)| (k.clone(), to_serde(x))).collect()),
    }
}

/// Reads one JSON document with `serde_json::from_str`. The contract claims only
/// that the result is a function of the text, named `parsed_json`.
#[verifier::external_body]
pub(crate) fn parse_json(text: &str) -> (r: Option<Json>)
    ensures
        match r {
            Some(doc) => parsed_json(text@) == Some(doc.model()),
            None => parsed_json(text@) is None,
        },
{
    serde_json::from_str::<serde_json::Value>(text).ok().map(from_serde)
}

/// Writes a document as compact JSON text with `serde_json`'s `Display`. The
/// contract claims only that the text is a function of the document, named `json_text_of`.
#[verifier::external_body]
pub(crate) fn json_text(doc: &Json) -> (r: String)
    ensures
        r@ == json_text_of(doc.model()),
{
    to_serde(doc).to_string()
}

} // verus!

verus! {

impl Json {
    /// The document as compact JSON text, as `serde_json` writes it.
    pub fn to_text(&self) -> (r: String)
        ensures
            r@ == json_text_of(self.model()),
    {
        json_text(self)
    }
}

/// `opt.and_then(|v| v.get(key))`.
pub fn get_in<'a>(v: Option<&'a Json>, key: &str) -> (r: Option<&'a Json>)
    ensures
        match r {
            Some(x) => opt_get(match v { Some(y) => Some(y.model()), None => None }, key@) == Some(x.model()),
            None => opt_get(match v { Some(y) => Some(y.model()), None => None }, key@) is None,
        },
{
    match v {
        Some(x) => x.get(key),
        None => None,
    }
}

/// `opt.and_then(|v| v.as_str())`.
pub fn str_in<'a>(v: Option<&'a Json>) -> (r: Option<&'a str>)
    ensures
        match r {
            Some(s) => opt_str(match v { Some(y) => Some(y.model()), None => None }) == Some(s@),
            None => opt_str(match v { Some(y) => Some(y.model()), None => None }) is None,
        },
{
    match v {
        Some(x) => x.as_str(),
        None => None,
    }
}

/// The model of an optional reference to a document.
pub open spec fn opt_model(v: Option<&Json>) -> Option<JsonModel> {
    match v {
        Some(y) => Some(y.model()),
        None => None,
    }
}

} // verus!
