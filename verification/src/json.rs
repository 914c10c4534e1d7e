//! JSON documents as plain values.
//!
//! `serde_json` reads documents. What it hands back is taken apart here into
//! [`Json`], whose mathematical model is [`JsonModel`]; the rest of the library
//! reads and builds only that.

use vstd::prelude::*;

verus! {

/// A JSON value.
///
/// The entries of an object keep the order in which they stand in the
/// document, or in which they were put together.
#[derive(Debug)]
pub enum Json {
    Null,
    Bool(bool),
    /// An integer that is not negative.
    Unsigned(u64),
    /// An integer below zero.
    Negative(i64),
    /// Any other number that was read, by the text that `serde_json` prints
    /// for it.
    Decimal(String),
    /// A finite number that was computed, by the bits of its 64-bit
    /// floating-point representation.
    Float(u64),
    Text(String),
    Array(Vec<Json>),
    Object(Vec<(String, Json)>),
}

/// What a [`Json`] value means.
pub enum JsonModel {
    Null,
    Bool(bool),
    Unsigned(u64),
    Negative(i64),
    Decimal(Seq<char>),
    Float(u64),
    Text(Seq<char>),
    Array(Seq<JsonModel>),
    Object(Seq<(Seq<char>, JsonModel)>),
}

impl Json {
    /// What the value means.
    pub open spec fn model(self) -> JsonModel
        decreases self,
    {
        match self {
            Json::Null => JsonModel::Null,
            Json::Bool(value) => JsonModel::Bool(value),
            Json::Unsigned(value) => JsonModel::Unsigned(value),
            Json::Negative(value) => JsonModel::Negative(value),
            Json::Decimal(literal) => JsonModel::Decimal(literal@),
            Json::Float(bits) => JsonModel::Float(bits),
            Json::Text(text) => JsonModel::Text(text@),
            Json::Array(items) => JsonModel::Array(
                Seq::new(
                    items@.len(),
                    |i: int| if 0 <= i < items@.len() { items@[i].model() } else { arbitrary() },
                ),
            ),
            Json::Object(entries) => JsonModel::Object(
                Seq::new(
                    entries@.len(),
                    |i: int|
                        if 0 <= i < entries@.len() {
                            (entries@[i].0@, entries@[i].1.model())
                        } else {
                            arbitrary()
                        },
                ),
            ),
        }
    }
}

impl View for Json {
    type V = JsonModel;

    open spec fn view(&self) -> JsonModel {
        self.model()
    }
}

/// What the items of an array mean.
pub open spec fn items_model(items: Seq<Json>) -> Seq<JsonModel> {
    Seq::new(items.len(), |i: int| items[i]@)
}

/// What the entries of an object mean.
pub open spec fn entries_model(entries: Seq<(String, Json)>) -> Seq<(Seq<char>, JsonModel)> {
    Seq::new(entries.len(), |i: int| (entries[i].0@, entries[i].1@))
}

/// An array means its items in order.
pub broadcast proof fn lemma_array_model(items: Vec<Json>)
    ensures
        (#[trigger] Json::Array(items)@) == JsonModel::Array(items_model(items@)),
{
    assert(Json::Array(items)@->Array_0 =~= items_model(items@));
}

/// An object means its entries in order.
pub broadcast proof fn lemma_object_model(entries: Vec<(String, Json)>)
    ensures
        (#[trigger] Json::Object(entries)@) == JsonModel::Object(entries_model(entries@)),
{
    assert(Json::Object(entries)@->Object_0 =~= entries_model(entries@));
}

/// The value of the first entry with the key.
pub open spec fn lookup(entries: Seq<(Seq<char>, JsonModel)>, key: Seq<char>) -> Option<JsonModel>
    decreases entries.len(),
{
    if entries.len() == 0 {
        None
    } else if entries[0].0 == key {
        Some(entries[0].1)
    } else {
        lookup(entries.drop_first(), key)
    }
}

/// A new last entry is found only where no earlier one has its key.
pub broadcast proof fn lemma_lookup_push(
    entries: Seq<(Seq<char>, JsonModel)>,
    entry: (Seq<char>, JsonModel),
    key: Seq<char>,
)
    ensures
        (#[trigger] lookup(entries.push(entry), key)) == match lookup(entries, key) {
            Some(value) => Some(value),
            None => if entry.0 == key {
                Some(entry.1)
            } else {
                None
            },
        },
    decreases entries.len(),
{
    if entries.len() == 0 {
        reveal_with_fuel(lookup, 2);
    } else {
        lemma_lookup_push(entries.drop_first(), entry, key);
        assert(entries.push(entry).drop_first() =~= entries.drop_first().push(entry));
    }
}

/// A key that no entry has is not found.
pub proof fn lemma_lookup_absent(entries: Seq<(Seq<char>, JsonModel)>, key: Seq<char>)
    requires
        forall|i: int| 0 <= i < entries.len() ==> (#[trigger] entries[i]).0 != key,
    ensures
        lookup(entries, key) is None,
    decreases entries.len(),
{
    if entries.len() > 0 {
        let rest = entries.drop_first();
        assert forall|i: int| 0 <= i < rest.len() implies (#[trigger] rest[i]).0 != key by {
            assert(rest[i] == entries[i + 1]);
        }
        lemma_lookup_absent(rest, key);
    }
}

/// The model of an optional value.
pub open spec fn opt_model(json: Option<&Json>) -> Option<JsonModel> {
    match json {
        Some(value) => Some(value@),
        None => None,
    }
}

impl JsonModel {
    /// The value under a key. Only an object has keys.
    pub open spec fn get(self, key: Seq<char>) -> Option<JsonModel> {
        match self {
            JsonModel::Object(entries) => lookup(entries, key),
            _ => None,
        }
    }

    /// The truth value, of a boolean.
    pub open spec fn as_bool(self) -> Option<bool> {
        match self {
            JsonModel::Bool(value) => Some(value),
            _ => None,
        }
    }

    /// The number, of an integer that is not negative.
    pub open spec fn as_u64(self) -> Option<u64> {
        match self {
            JsonModel::Unsigned(value) => Some(value),
            _ => None,
        }
    }
}

/// Puts one more item at the end of an array.
pub fn push_item(items: &mut Vec<Json>, item: Json)
    ensures
        items_model(final(items)@) == items_model(old(items)@).push(item@),
{
    items.push(item);
    assert(items_model(items@) =~= items_model(old(items)@).push(item@));
}

/// Puts one more entry at the end of an object.
pub fn push_entry(entries: &mut Vec<(String, Json)>, key: &str, value: Json)
    ensures
        entries_model(final(entries)@) == entries_model(old(entries)@).push((key@, value@)),
{
    entries.push((key.to_owned(), value));
    assert(entries_model(entries@) =~= entries_model(old(entries)@).push((key@, value@)));
}

impl Clone for Json {
    fn clone(&self) -> (copy: Self)
        ensures
            copy@ == self@,
        decreases self,
    {
        broadcast use {lemma_array_model, lemma_object_model};

        match self {
            Json::Null => Json::Null,
            Json::Bool(value) => Json::Bool(*value),
            Json::Unsigned(value) => Json::Unsigned(*value),
            Json::Negative(value) => Json::Negative(*value),
            Json::Decimal(literal) => Json::Decimal(literal.clone()),
            Json::Float(bits) => Json::Float(*bits),
            Json::Text(text) => Json::Text(text.clone()),
            Json::Array(items) => {
                let mut copies: Vec<Json> = Vec::new();
                for i in 0..items.len()
                    invariant
                        *self == Json::Array(*items),
                        items_model(copies@) == items_model(items@).take(i as int),
                {
                    assert(decreases_to!(self => self->Array_0));
                    assert(decreases_to!(items@ => items@[i as int]));
                    let item = items[i].clone();
                    push_item(&mut copies, item);
                    assert(items_model(copies@) =~= items_model(items@).take(i + 1));
                }
                assert(items_model(copies@) =~= items_model(items@));
                Json::Array(copies)
            },
            Json::Object(entries) => {
                let mut copies: Vec<(String, Json)> = Vec::new();
                for i in 0..entries.len()
                    invariant
                        *self == Json::Object(*entries),
                        entries_model(copies@) == entries_model(entries@).take(i as int),
                {
                    assert(decreases_to!(self => self->Object_0));
                    assert(decreases_to!(entries@ => entries@[i as int]));
                    assert(decreases_to!(entries@[i as int] => entries@[i as int].1));
                    let value = entries[i].1.clone();
                    push_entry(&mut copies, entries[i].0.as_str(), value);
                    assert(entries_model(copies@) =~= entries_model(entries@).take(i + 1));
                }
                assert(entries_model(copies@) =~= entries_model(entries@));
                Json::Object(copies)
            },
        }
    }
}

/// Finds the value of the first entry with the key.
pub fn find_entry<'a>(entries: &'a Vec<(String, Json)>, key: &str) -> (found: Option<&'a Json>)
    ensures
        opt_model(found) == lookup(entries_model(entries@), key@),
{
    assert(entries_model(entries@).skip(0) =~= entries_model(entries@));
    for i in 0..entries.len()
        invariant
            lookup(entries_model(entries@), key@) == lookup(
                entries_model(entries@).skip(i as int),
                key@,
            ),
    {
        let ghost rest = entries_model(entries@).skip(i as int);
        assert(rest[0] == (entries@[i as int].0@, entries@[i as int].1@));
        if entries[i].0.as_str().eq(key) {
            return Some(&entries[i].1);
        }
        assert(rest.drop_first() =~= entries_model(entries@).skip(i + 1));
    }
    None
}

impl Json {
    /// The value under a key. Only an object has keys.
    pub fn get(&self, key: &str) -> (value: Option<&Json>)
        ensures
            opt_model(value) == self@.get(key@),
    {
        broadcast use lemma_object_model;

        match self {
            Json::Object(entries) => find_entry(entries, key),
            _ => None,
        }
    }

    /// The items, of an array.
    pub fn as_array(&self) -> (items: Option<&Vec<Json>>)
        ensures
            match items {
                Some(items) => self@ == JsonModel::Array(items_model(items@)),
                None => !(self@ is Array),
            },
    {
        broadcast use lemma_array_model;

        match self {
            Json::Array(items) => Some(items),
            _ => None,
        }
    }

    /// The entries, of an object.
    pub fn as_object(&self) -> (entries: Option<&Vec<(String, Json)>>)
        ensures
            match entries {
                Some(entries) => self@ == JsonModel::Object(entries_model(entries@)),
                None => !(self@ is Object),
            },
    {
        broadcast use lemma_object_model;

        match self {
            Json::Object(entries) => Some(entries),
            _ => None,
        }
    }

    /// The text, of a string.
    pub fn as_str(&self) -> (text: Option<&str>)
        ensures
            match text {
                Some(text) => self@ == JsonModel::Text(text@),
                None => !(self@ is Text),
            },
    {
        match self {
            Json::Text(text) => Some(text.as_str()),
            _ => None,
        }
    }

    /// The truth value, of a boolean.
    pub fn as_bool(&self) -> (value: Option<bool>)
        ensures
            value == self@.as_bool(),
    {
        match self {
            Json::Bool(value) => Some(*value),
            _ => None,
        }
    }

    /// The number, of an integer that is not negative.
    pub fn as_u64(&self) -> (value: Option<u64>)
        ensures
            value == self@.as_u64(),
    {
        match self {
            Json::Unsigned(value) => Some(*value),
            _ => None,
        }
    }

    /// Whether this is `null`.
    pub fn is_null(&self) -> (null: bool)
        ensures
            null == (self@ is Null),
    {
        match self {
            Json::Null => true,
            _ => false,
        }
    }

    /// Whether this is a string.
    pub fn is_string(&self) -> (string: bool)
        ensures
            string == (self@ is Text),
    {
        match self {
            Json::Text(_) => true,
            _ => false,
        }
    }
}

/// What an integer means.
pub open spec fn integer_model(value: int) -> JsonModel {
    if value >= 0 {
        JsonModel::Unsigned(value as u64)
    } else {
        JsonModel::Negative(value as i64)
    }
}

/// An integer.
pub fn integer(value: i64) -> (json: Json)
    ensures
        json@ == integer_model(value as int),
{
    if value >= 0 {
        Json::Unsigned(value as u64)
    } else {
        Json::Negative(value)
    }
}

/// `serde_json::Value`, opaque.
#[verifier::external_type_specification]
#[verifier::external_body]
pub struct ExValue(serde_json::Value);

/// What a `serde_json::Value` holds.
pub uninterp spec fn json_model(value: serde_json::Value) -> JsonModel;

/// What `serde_json::from_slice` makes of a document: the value, or the text
/// of the error.
pub uninterp spec fn json_document(bytes: Seq<u8>) -> Result<JsonModel, Seq<char>>;

/// What `serde_json::from_str` makes of a document: the value, or the text of
/// the error.
pub uninterp spec fn json_text_document(text: Seq<char>) -> Result<JsonModel, Seq<char>>;

/// The outermost layer of a `serde_json::Value`.
enum Layer<'a> {
    Null,
    Bool(bool),
    /// A number: as `u64` and as `i64` where it is such an integer, and its text.
    Number(Option<u64>, Option<i64>, String),
    Text(&'a String),
    Array(&'a Vec<serde_json::Value>),
    Object(Vec<(&'a String, &'a serde_json::Value)>),
}

/// What the layer says about the whole value.
spec fn layer_model(layer: Layer<'_>) -> JsonModel {
    match layer {
        Layer::Null => JsonModel::Null,
        Layer::Bool(value) => JsonModel::Bool(value),
        Layer::Number(Some(value), _, _) => JsonModel::Unsigned(value),
        Layer::Number(None, Some(value), _) => JsonModel::Negative(value),
        Layer::Number(None, None, literal) => JsonModel::Decimal(literal@),
        Layer::Text(text) => JsonModel::Text(text@),
        Layer::Array(items) => JsonModel::Array(
            Seq::new(items@.len(), |i: int| json_model(items@[i])),
        ),
        Layer::Object(entries) => JsonModel::Object(
            Seq::new(entries@.len(), |i: int| (entries@[i].0@, json_model(*entries@[i].1))),
        ),
    }
}

/// Matches on `serde_json::Value`, and reads a number with `Number::as_u64`,
/// `Number::as_i64` and its `Display`. The layer holds what the value holds:
/// the items of an array in order, the entries of an object in the order in
/// which the map is walked.
#[verifier::external_body]
fn value_layer(value: &serde_json::Value) -> (layer: Layer<'_>)
    ensures
        layer_model(layer) == json_model(*value),
{
    match value {
        serde_json::Value::Null => Layer::Null,
        serde_json::Value::Bool(value) => Layer::Bool(*value),
        serde_json::Value::Number(n) => Layer::Number(n.as_u64(), n.as_i64(), n.to_string()),
        serde_json::Value::String(text) => Layer::Text(text),
        serde_json::Value::Array(items) => Layer::Array(items),
        serde_json::Value::Object(entries) => Layer::Object(entries.iter().collect()),
    }
}

/// `serde_json::from_slice` into a `Value`. The result, or the text of the
/// error, depends on the bytes alone. Which bytes are read as which document is
/// left unsaid.
#[verifier::external_body]
pub(crate) fn value_from_slice(bytes: &[u8]) -> (parsed: Result<serde_json::Value, String>)
    ensures
        match parsed {
            Ok(value) => json_document(bytes@) == Ok::<JsonModel, Seq<char>>(json_model(value)),
            Err(error) => json_document(bytes@) == Err::<JsonModel, Seq<char>>(error@),
        },
{
    serde_json::from_slice(bytes).map_err(|error: serde_json::Error| error.to_string())
}

/// `serde_json::from_str` into a `Value`. The result, or the text of the
/// error, depends on the text alone. Which texts are read as which document is
/// left unsaid.
#[verifier::external_body]
fn value_from_str(text: &str) -> (parsed: Result<serde_json::Value, String>)
    ensures
        match parsed {
            Ok(value) => json_text_document(text@) == Ok::<JsonModel, Seq<char>>(
                json_model(value),
            ),
            Err(error) => json_text_document(text@) == Err::<JsonModel, Seq<char>>(error@),
        },
{
    serde_json::from_str(text).map_err(|error: serde_json::Error| error.to_string())
}

/// Takes a `serde_json::Value` apart.
fn json_from_value(value: &serde_json::Value) -> (json: Json)
    ensures
        json@ == json_model(*value),
    decreases json_model(*value),
{
    broadcast use {lemma_array_model, lemma_object_model};

    let layer = value_layer(value);
    match layer {
        Layer::Null => Json::Null,
        Layer::Bool(value) => Json::Bool(value),
        Layer::Number(Some(value), _, _) => Json::Unsigned(value),
        Layer::Number(None, Some(value), _) => Json::Negative(value),
        Layer::Number(None, None, literal) => Json::Decimal(literal),
        Layer::Text(text) => Json::Text(text.clone()),
        Layer::Array(items) => {
            let mut converted: Vec<Json> = Vec::new();
            for i in 0..items.len()
                invariant
                    json_model(*value) == layer_model(Layer::Array(items)),
                    items_model(converted@) == json_model(*value)->Array_0.take(i as int),
            {
                let ghost whole = json_model(*value)->Array_0;
                assert(whole[i as int] == json_model(items@[i as int]));
                let item = json_from_value(&items[i]);
                push_item(&mut converted, item);
                assert(items_model(converted@) =~= whole.take(i + 1));
            }
            assert(items_model(converted@) =~= json_model(*value)->Array_0);
            Json::Array(converted)
        },
        Layer::Object(entries) => {
            let mut converted: Vec<(String, Json)> = Vec::new();
            for i in 0..entries.len()
                invariant
                    json_model(*value) == layer_model(Layer::Object(entries)),
                    entries_model(converted@) == json_model(*value)->Object_0.take(i as int),
            {
                let ghost whole = json_model(*value)->Object_0;
                assert(whole[i as int] == (
                    entries@[i as int].0@,
                    json_model(*entries@[i as int].1),
                ));
                assert(decreases_to!(json_model(*value) => whole));
                assert(decreases_to!(whole => whole[i as int]));
                assert(decreases_to!(whole[i as int] => whole[i as int].1));
                let item = json_from_value(entries[i].1);
                push_entry(&mut converted, entries[i].0.as_str(), item);
                assert(entries_model(converted@) =~= whole.take(i + 1));
            }
            assert(entries_model(converted@) =~= json_model(*value)->Object_0);
            Json::Object(converted)
        },
    }
}

/// What a document that was read holds, or the text of the error.
pub open spec fn parsed_model(parsed: Result<Json, String>) -> Result<JsonModel, Seq<char>> {
    match parsed {
        Ok(json) => Ok(json@),
        Err(error) => Err(error@),
    }
}

/// Reads a document from its bytes.
pub fn parse_bytes(bytes: &[u8]) -> (parsed: Result<Json, String>)
    ensures
        parsed_model(parsed) == json_document(bytes@),
{
    match value_from_slice(bytes) {
        Ok(value) => Ok(json_from_value(&value)),
        Err(error) => Err(error),
    }
}

/// Reads a document from its text.
pub fn parse_text(text: &str) -> (parsed: Result<Json, String>)
    ensures
        parsed_model(parsed) == json_text_document(text@),
{
    match value_from_str(text) {
        Ok(value) => Ok(json_from_value(&value)),
        Err(error) => Err(error),
    }
}

/// A value is found under a key exactly when it stands in the first entry with
/// that key, and nothing is found exactly when no entry has it.
pub proof fn law_lookup_finds_the_first_entry(
    entries: Seq<(Seq<char>, JsonModel)>,
    key: Seq<char>,
)
    ensures
        lookup(entries, key) is None <==> forall|i: int|
            0 <= i < entries.len() ==> (#[trigger] entries[i]).0 != key,
        lookup(entries, key) matches Some(value) ==> exists|i: int|
            0 <= i < entries.len() && (#[trigger] entries[i]) == (key, value) && forall|j: int|
                0 <= j < i ==> (#[trigger] entries[j]).0 != key,
        JsonModel::Object(entries).get(key) == lookup(entries, key),
    decreases entries.len(),
{
    if entries.len() > 0 {
        if entries[0].0 == key {
            assert(entries[0] == (key, entries[0].1));
        } else {
            let rest = entries.drop_first();
            law_lookup_finds_the_first_entry(rest, key);
            match lookup(rest, key) {
                Some(value) => {
                    let i = choose|i: int|
                        0 <= i < rest.len() && (#[trigger] rest[i]) == (key, value) && forall|
                            j: int,
                        | 0 <= j < i ==> (#[trigger] rest[j]).0 != key;
                    assert(entries[i + 1] == (key, value));
                    assert forall|j: int| 0 <= j < i + 1 implies (#[trigger] entries[j]).0 != key by {
                        if j > 0 {
                            assert(rest[j - 1] == entries[j]);
                        }
                    }
                },
                None => {
                    assert forall|i: int| 0 <= i < entries.len() implies (
                    #[trigger] entries[i]).0 != key by {
                        if i > 0 {
                            assert(rest[i - 1] == entries[i]);
                        }
                    }
                },
            }
        }
    }
}

/// Only an object has keys.
pub proof fn law_only_objects_have_keys(value: JsonModel, key: Seq<char>)
    requires
        !(value is Object),
    ensures
        value.get(key) is None,
{
}

/// A document means what it holds, item by item and entry by entry.
pub proof fn law_documents_mean_what_they_hold(value: Json)
    ensures
        match value {
            Json::Null => value@ == JsonModel::Null,
            Json::Bool(flag) => value@ == JsonModel::Bool(flag),
            Json::Unsigned(number) => value@ == JsonModel::Unsigned(number),
            Json::Negative(number) => value@ == JsonModel::Negative(number),
            Json::Decimal(literal) => value@ == JsonModel::Decimal(literal@),
            Json::Float(bits) => value@ == JsonModel::Float(bits),
            Json::Text(text) => value@ == JsonModel::Text(text@),
            Json::Array(items) => value@ matches JsonModel::Array(models) && models.len()
                == items@.len() && forall|i: int|
                0 <= i < items@.len() ==> (#[trigger] models[i]) == items@[i]@,
            Json::Object(entries) => value@ matches JsonModel::Object(models) && models.len()
                == entries@.len() && forall|i: int|
                0 <= i < entries@.len() ==> (#[trigger] models[i]) == (
                    entries@[i].0@,
                    entries@[i].1@,
                ),
        },
{
    match value {
        Json::Array(items) => {
            lemma_array_model(items);
        },
        Json::Object(entries) => {
            lemma_object_model(entries);
        },
        _ => {},
    }
}

/// An integer keeps its value, whatever its sign.
pub proof fn law_integers_keep_their_value(value: int)
    requires
        i64::MIN <= value <= u64::MAX,
    ensures
        value >= 0 ==> (integer_model(value) matches JsonModel::Unsigned(number) && number == value),
        value < 0 ==> (integer_model(value) matches JsonModel::Negative(number) && number == value),
{
}

/// What was read means the document itself, or the reason why there is none.
pub proof fn law_parsed_documents_mean_themselves(parsed: Result<Json, String>)
    ensures
        parsed matches Ok(document) ==> parsed_model(parsed) == Ok::<JsonModel, Seq<char>>(
            document@,
        ),
        parsed matches Err(reason) ==> parsed_model(parsed) == Err::<JsonModel, Seq<char>>(
            reason@,
        ),
{
}

} // verus!
