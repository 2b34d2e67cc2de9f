//! JSON documents as plain values, with reading from and writing to text left to
//! `serde_json`.
use vstd::prelude::*;
use crate::text::{decimal, same_text};

verus! {

/// A number as `serde_json` holds it. Numbers are carried through and written out; nothing
/// computes with them.
#[verifier::external_type_specification]
#[verifier::external_body]
pub struct ExNumber(serde_json::Number);

/// A document as `serde_json` holds it.
#[verifier::external_type_specification]
#[verifier::external_body]
pub struct ExValue(serde_json::Value);

/// A JSON document. Where an object lists a key more than once, the last entry counts.
#[derive(Debug)]
pub enum Json {
    Null,
    Bool(bool),
    Number(serde_json::Number),
    Text(String),
    Array(Vec<Json>),
    Object(Vec<JsonField>),
}

/// One entry of a JSON object.
#[derive(Debug)]
pub struct JsonField {
    pub key: String,
    pub value: Json,
}

/// What a JSON document says.
pub enum JsonView {
    Null,
    Bool(bool),
    Number(serde_json::Number),
    Text(Seq<char>),
    Array(Seq<JsonView>),
    Object(Map<Seq<char>, JsonView>),
}

/// The object with the given entries, of which the last counts where a key is repeated.
pub open spec fn object_of(entries: Seq<(Seq<char>, JsonView)>) -> JsonView {
    JsonView::Object(entry_map(entries))
}

/// The keys and values of the given entries, of which the last counts where a key is
/// repeated.
pub open spec fn entry_map(entries: Seq<(Seq<char>, JsonView)>) -> Map<Seq<char>, JsonView>
    decreases entries.len(),
{
    if entries.len() == 0 {
        Map::empty()
    } else {
        entry_map(entries.drop_last()).insert(entries.last().0, entries.last().1)
    }
}

/// What a document says.
pub open spec fn json_model(json: Json) -> JsonView
    decreases json,
{
    match json {
        Json::Null => JsonView::Null,
        Json::Bool(b) => JsonView::Bool(b),
        Json::Number(n) => JsonView::Number(n),
        Json::Text(s) => JsonView::Text(s@),
        Json::Array(items) => JsonView::Array(
            Seq::new(
                items@.len(),
                |i: int|
                    if 0 <= i < items@.len() {
                        json_model(items@[i])
                    } else {
                        JsonView::Null
                    },
            ),
        ),
        Json::Object(fields) => JsonView::Object(fields_model(fields@)),
    }
}

/// The keys and values of the entries of an object.
pub open spec fn fields_model(fields: Seq<JsonField>) -> Map<Seq<char>, JsonView>
    decreases fields,
{
    if fields.len() == 0 {
        Map::empty()
    } else {
        fields_model(fields.drop_last()).insert(
            fields.last().key@,
            json_model(fields.last().value),
        )
    }
}

impl DeepView for Json {
    type V = JsonView;

    open spec fn deep_view(&self) -> JsonView {
        json_model(*self)
    }
}

impl DeepView for JsonField {
    type V = (Seq<char>, JsonView);

    open spec fn deep_view(&self) -> (Seq<char>, JsonView) {
        (self.key@, self.value.deep_view())
    }
}

/// The value that an object holds under a key.
pub open spec fn lookup(json: JsonView, key: Seq<char>) -> Option<JsonView> {
    match json {
        JsonView::Object(entries) => if entries.contains_key(key) {
            Some(entries[key])
        } else {
            None
        },
        _ => None,
    }
}

/// The characters of a text value.
pub open spec fn text_of(json: JsonView) -> Option<Seq<char>> {
    match json {
        JsonView::Text(s) => Some(s),
        _ => None,
    }
}

/// The text that an object holds under a key.
pub open spec fn text_at(json: JsonView, key: Seq<char>) -> Option<Seq<char>> {
    match lookup(json, key) {
        Some(value) => text_of(value),
        None => None,
    }
}

/// The items of an array value.
pub open spec fn items_of(json: JsonView) -> Option<Seq<JsonView>> {
    match json {
        JsonView::Array(items) => Some(items),
        _ => None,
    }
}

/// The value that an object holds under a key; null where there is none.
pub open spec fn member(json: JsonView, key: Seq<char>) -> JsonView {
    match lookup(json, key) {
        Some(value) => value,
        None => JsonView::Null,
    }
}

proof fn lemma_array_model(items: Vec<Json>)
    ensures
        Json::Array(items).deep_view() == JsonView::Array(items.deep_view()),
{
    let values = json_model(Json::Array(items))->Array_0;
    assert(values =~= items.deep_view());
}

proof fn lemma_object_model(fields: Vec<JsonField>)
    ensures
        Json::Object(fields).deep_view() == object_of(fields.deep_view()),
{
    lemma_fields_model(fields@);
    assert(fields.deep_view() =~= fields@.map_values(|f: JsonField| f.deep_view()));
}

proof fn lemma_object_fields(fields: Vec<JsonField>)
    ensures
        Json::Object(fields).deep_view() == JsonView::Object(fields_model(fields@)),
{
    reveal_with_fuel(json_model, 2);
    reveal_with_fuel(fields_model, 2);
}

proof fn lemma_fields_model(fields: Seq<JsonField>)
    ensures
        fields_model(fields) == entry_map(fields.map_values(|f: JsonField| f.deep_view())),
    decreases fields.len(),
{
    if fields.len() > 0 {
        lemma_fields_model(fields.drop_last());
        assert(fields.map_values(|f: JsonField| f.deep_view()).drop_last()
            =~= fields.drop_last().map_values(|f: JsonField| f.deep_view()));
    }
}


/// No two entries have the same key.
pub open spec fn distinct_keys(entries: Seq<(Seq<char>, JsonView)>) -> bool {
    forall|i: int, j: int|
        0 <= i < j < entries.len() ==> (#[trigger] entries[i]).0 != (#[trigger] entries[j]).0
}

proof fn lemma_entry_map(entries: Seq<(Seq<char>, JsonView)>)
    ensures
        entry_map(entries).dom().finite(),
        distinct_keys(entries) ==> forall|i: int|
            0 <= i < entries.len() ==> entry_map(entries).contains_key(
                (#[trigger] entries[i]).0,
            ) && entry_map(entries)[entries[i].0] == entries[i].1,
    decreases entries.len(),
{
    if entries.len() > 0 {
        let rest = entries.drop_last();
        lemma_entry_map(rest);
        if distinct_keys(entries) {
            assert(distinct_keys(rest)) by {
                assert forall|i: int, j: int| 0 <= i < j < rest.len() implies (#[trigger] rest[i]).0
                    != (#[trigger] rest[j]).0 by {
                    assert(rest[i] == entries[i] && rest[j] == entries[j]);
                }
            }
            assert forall|i: int| 0 <= i < entries.len() implies entry_map(entries).contains_key(
                (#[trigger] entries[i]).0,
            ) && entry_map(entries)[entries[i].0] == entries[i].1 by {
                if i < rest.len() {
                    assert(rest[i] == entries[i]);
                    assert(entries[i].0 != entries[entries.len() - 1].0);
                }
            }
        }
    }
}

/// What a document of `serde_json` says.
pub uninterp spec fn json_value(value: serde_json::Value) -> JsonView;

/// The outermost layer of a document, over the documents inside it.
pub enum JsonNode {
    Null,
    Bool(bool),
    Number(serde_json::Number),
    Text(String),
    Array(Vec<serde_json::Value>),
    Object(Vec<(String, serde_json::Value)>),
}

/// The entries of an object whose values are documents of `serde_json`.
pub open spec fn value_entries(entries: Seq<(String, serde_json::Value)>) -> Seq<
    (Seq<char>, JsonView),
> {
    entries.map_values(|e: (String, serde_json::Value)| (e.0@, json_value(e.1)))
}

/// What the document with the given outermost layer says.
pub open spec fn node_model(node: JsonNode) -> JsonView {
    match node {
        JsonNode::Null => JsonView::Null,
        JsonNode::Bool(b) => JsonView::Bool(b),
        JsonNode::Number(n) => JsonView::Number(n),
        JsonNode::Text(s) => JsonView::Text(s@),
        JsonNode::Array(items) => JsonView::Array(
            items@.map_values(|v: serde_json::Value| json_value(v)),
        ),
        JsonNode::Object(entries) => object_of(value_entries(entries@)),
    }
}

/// Takes a `serde_json::Value` apart: one case for each of its variants. The entries of an
/// object come with distinct keys, since `serde_json::Map` holds each key once.
#[verifier::external_body]
fn split_value(value: serde_json::Value) -> (node: JsonNode)
    ensures
        node_model(node) == json_value(value),
        node matches JsonNode::Object(entries) ==> distinct_keys(value_entries(entries@)),
{
    match value {
        serde_json::Value::Null => JsonNode::Null,
        serde_json::Value::Bool(b) => JsonNode::Bool(b),
        serde_json::Value::Number(n) => JsonNode::Number(n),
        serde_json::Value::String(s) => JsonNode::Text(s),
        serde_json::Value::Array(items) => JsonNode::Array(items),
        serde_json::Value::Object(entries) => JsonNode::Object(entries.into_iter().collect()),
    }
}

/// Puts a `serde_json::Value` together: one case for each of its variants. Entries with
/// distinct keys are collected into a `serde_json::Map`, which then holds all of them.
#[verifier::external_body]
fn build_value(node: JsonNode) -> (value: serde_json::Value)
    requires
        node matches JsonNode::Object(entries) ==> distinct_keys(value_entries(entries@)),
    ensures
        json_value(value) == node_model(node),
{
    match node {
        JsonNode::Null => serde_json::Value::Null,
        JsonNode::Bool(b) => serde_json::Value::Bool(b),
        JsonNode::Number(n) => serde_json::Value::Number(n),
        JsonNode::Text(s) => serde_json::Value::String(s),
        JsonNode::Array(items) => serde_json::Value::Array(items),
        JsonNode::Object(entries) => serde_json::Value::Object(entries.into_iter().collect()),
    }
}

/// Cloning a `serde_json::Number` gives the same number.
pub assume_specification[ <serde_json::Number as Clone>::clone ](n: &serde_json::Number) -> (copy:
    serde_json::Number)
    ensures
        copy == *n,
;

/// How `serde_json` writes a number.
pub uninterp spec fn number_display(n: serde_json::Number) -> Seq<char>;

/// `serde_json::Number`'s `Display`.
#[verifier::external_body]
pub(crate) fn number_text(n: &serde_json::Number) -> (text: String)
    ensures
        text@ == number_display(*n),
{
    n.to_string()
}

/// The number that `serde_json` makes of an unsigned integer.
pub uninterp spec fn number_of(n: u64) -> serde_json::Number;

/// `serde_json::Number::from` on an unsigned integer: a number that is written in decimal.
#[verifier::external_body]
fn number_from(n: u64) -> (number: serde_json::Number)
    ensures
        number == number_of(n),
        number_display(number) == decimal(n as nat),
{
    serde_json::Number::from(n)
}

/// What `serde_json` reads from a text; on failure, how it words the fault.
pub uninterp spec fn json_parsed(text: Seq<char>) -> Result<JsonView, Seq<char>>;

/// What `serde_json` reads from bytes; on failure, how it words the fault.
pub uninterp spec fn json_decoded(bytes: Seq<u8>) -> Result<JsonView, Seq<char>>;

/// The contents of a parsing result.
pub open spec fn parse_model(parsed: Result<serde_json::Value, String>) -> Result<
    JsonView,
    Seq<char>,
> {
    match parsed {
        Ok(value) => Ok(json_value(value)),
        Err(fault) => Err(fault@),
    }
}

/// `serde_json::from_str` into a `serde_json::Value`, with the error worded by its `Display`.
#[verifier::external_body]
fn read_value(text: &str) -> (parsed: Result<serde_json::Value, String>)
    ensures
        parse_model(parsed) == json_parsed(text@),
{
    serde_json::from_str::<serde_json::Value>(text).map_err(|err| err.to_string())
}

/// `serde_json::from_slice` into a `serde_json::Value`, with the error worded by its
/// `Display`.
#[verifier::external_body]
fn decode_value(bytes: &Vec<u8>) -> (parsed: Result<serde_json::Value, String>)
    ensures
        parse_model(parsed) == json_decoded(bytes@),
{
    serde_json::from_slice::<serde_json::Value>(bytes).map_err(|err| err.to_string())
}

/// The compact text that `serde_json` writes for a document.
pub uninterp spec fn json_text(json: JsonView) -> Seq<char>;

/// How `serde_json` shows a document for debugging.
pub uninterp spec fn json_debug(json: JsonView) -> Seq<char>;

/// The document is an object whose values are all texts.
pub open spec fn holds_texts(json: JsonView) -> bool {
    json matches JsonView::Object(entries) && forall|key: Seq<char>|
        entries.contains_key(key) ==> #[trigger] entries[key] is Text
}

/// Reading a text gives a document.
pub open spec fn reads_as(text: Seq<char>, json: JsonView) -> bool {
    json_parsed(text) == Ok::<JsonView, Seq<char>>(json)
}

/// `serde_json::Value`'s `Display`: compact text. An object keeps its entries ordered by key,
/// so the text depends on what the document says alone. Text written for an object of texts
/// is read back as the same object.
#[verifier::external_body]
fn value_text(value: &serde_json::Value) -> (text: String)
    ensures
        text@ == json_text(json_value(*value)),
        holds_texts(json_value(*value)) ==> reads_as(text@, json_value(*value)),
{
    value.to_string()
}

/// `serde_json::Value`'s `Debug`.
#[verifier::external_body]
fn value_debug(value: &serde_json::Value) -> (text: String)
    ensures
        text@ == json_debug(json_value(*value)),
{
    format!("{:?}", value)
}

/// The library's form of a `serde_json` document.
fn json_from_value(value: serde_json::Value) -> (json: Json)
    ensures
        json.deep_view() == json_value(value),
    decreases json_value(value),
{
    match split_value(value) {
        JsonNode::Null => Json::Null,
        JsonNode::Bool(b) => Json::Bool(b),
        JsonNode::Number(n) => Json::Number(n),
        JsonNode::Text(s) => Json::Text(s),
        JsonNode::Array(items) => {
            let ghost model = json_value(value);
            let ghost all = items@;
            let mut out: Vec<Json> = Vec::new();
            for item in iter: items
                invariant
                    iter.seq() == all,
                    out@.len() == iter.index(),
                    model == json_value(value),
                    model == JsonView::Array(
                        all.map_values(|v: serde_json::Value| json_value(v)),
                    ),
                    forall|i: int|
                        0 <= i < out@.len() ==> (#[trigger] out@[i]).deep_view() == json_value(
                            all[i],
                        ),
            {
                assert(model->Array_0[out@.len() as int] == json_value(item));
                let json = json_from_value(item);
                out.push(json);
            }
            proof {
                lemma_array_model(out);
                assert(out.deep_view() =~= all.map_values(
                    |v: serde_json::Value| json_value(v),
                ));
            }
            Json::Array(out)
        },
        JsonNode::Object(entries) => {
            let ghost model = json_value(value);
            let ghost all = entries@;
            proof {
                lemma_entry_map(value_entries(all));
            }
            let mut out: Vec<JsonField> = Vec::new();
            for entry in iter: entries
                invariant
                    iter.seq() == all,
                    out@.len() == iter.index(),
                    model == json_value(value),
                    model == object_of(value_entries(all)),
                    entry_map(value_entries(all)).dom().finite(),
                    forall|i: int|
                        0 <= i < all.len() ==> entry_map(value_entries(all)).contains_key(
                            (#[trigger] value_entries(all)[i]).0,
                        ) && entry_map(value_entries(all))[value_entries(all)[i].0]
                            == value_entries(all)[i].1,
                    forall|i: int|
                        0 <= i < out@.len() ==> (#[trigger] out@[i]).deep_view() == value_entries(
                            all,
                        )[i],
            {
                assert(value_entries(all)[out@.len() as int] == (entry.0@, json_value(entry.1)));
                assert(model->Object_0[entry.0@] == json_value(entry.1));
                let value = json_from_value(entry.1);
                out.push(JsonField { key: entry.0, value });
            }
            proof {
                lemma_object_model(out);
                assert(out.deep_view() =~= value_entries(all));
            }
            Json::Object(out)
        },
    }
}

proof fn lemma_fields_step(fields: Seq<JsonField>)
    requires
        fields.len() > 0,
    ensures
        fields_model(fields) == fields_model(fields.drop_last()).insert(
            fields.last().key@,
            fields.last().value.deep_view(),
        ),
{
    reveal_with_fuel(json_model, 2);
    reveal_with_fuel(fields_model, 2);
}

proof fn lemma_entry_replaced(
    entries: Seq<(Seq<char>, JsonView)>,
    at: int,
    value: JsonView,
)
    requires
        distinct_keys(entries),
        0 <= at < entries.len(),
    ensures
        entry_map(entries.update(at, (entries[at].0, value))) == entry_map(entries).insert(
            entries[at].0,
            value,
        ),
    decreases entries.len(),
{
    let key = entries[at].0;
    let updated = entries.update(at, (key, value));
    let rest = entries.drop_last();
    if at == entries.len() - 1 {
        assert(updated.drop_last() =~= rest);
        assert(entry_map(updated) =~= entry_map(entries).insert(key, value));
    } else {
        assert(rest[at] == entries[at]);
        assert(distinct_keys(rest)) by {
            assert forall|i: int, j: int| 0 <= i < j < rest.len() implies (#[trigger] rest[i]).0
                != (#[trigger] rest[j]).0 by {
                assert(rest[i] == entries[i] && rest[j] == entries[j]);
            }
        }
        lemma_entry_replaced(rest, at, value);
        assert(updated.drop_last() =~= rest.update(at, (key, value)));
        assert(entries[at].0 != entries[entries.len() - 1].0);
        assert(entry_map(updated) =~= entry_map(entries).insert(key, value));
    }
}

/// Adds an entry, or replaces the one under the same key.
fn put_entry(entries: &mut Vec<(String, serde_json::Value)>, key: &str, value: serde_json::Value)
    requires
        distinct_keys(value_entries(old(entries)@)),
    ensures
        distinct_keys(value_entries(final(entries)@)),
        entry_map(value_entries(final(entries)@)) == entry_map(
            value_entries(old(entries)@),
        ).insert(key@, json_value(value)),
{
    let ghost before = value_entries(entries@);
    let mut i: usize = 0;
    while i < entries.len()
        invariant
            i <= entries@.len(),
            before == value_entries(entries@),
            before == value_entries(old(entries)@),
            distinct_keys(before),
            forall|j: int| 0 <= j < i ==> (#[trigger] before[j]).0 != key@,
        decreases entries@.len() - i,
    {
        assert(before[i as int].0 == entries@[i as int].0@);
        if same_text(entries[i].0.as_str(), key) {
            entries.set(i, (key.to_string(), value));
            proof {
                lemma_entry_replaced(before, i as int, json_value(value));
                let after = value_entries(entries@);
                assert(after =~= before.update(i as int, (key@, json_value(value))));
                assert forall|j: int, k: int| 0 <= j < k < after.len() implies (
                #[trigger] after[j]).0 != (#[trigger] after[k]).0 by {
                    assert(before[j].0 != before[k].0);
                }
            }
            return;
        }
        i += 1;
    }
    entries.push((key.to_string(), value));
    proof {
        let after = value_entries(entries@);
        assert(after =~= before.push((key@, json_value(value))));
        assert(after.drop_last() =~= before);
        assert forall|j: int, k: int| 0 <= j < k < after.len() implies (#[trigger] after[j]).0 != (
        #[trigger] after[k]).0 by {
            if k < before.len() {
                assert(before[j].0 != before[k].0);
            } else {
                assert(before[j].0 != key@);
            }
        }
    }
}

/// The `serde_json` document that says the same. Of entries that share a key the last counts.
fn json_to_value(json: &Json) -> (value: serde_json::Value)
    ensures
        json_value(value) == json.deep_view(),
    decreases json,
{
    match json {
        Json::Null => build_value(JsonNode::Null),
        Json::Bool(b) => build_value(JsonNode::Bool(*b)),
        Json::Number(n) => build_value(JsonNode::Number(n.clone())),
        Json::Text(s) => build_value(JsonNode::Text(s.clone())),
        Json::Array(items) => {
            let mut out: Vec<serde_json::Value> = Vec::new();
            let mut i: usize = 0;
            while i < items.len()
                invariant
                    i <= items@.len(),
                    json == Json::Array(*items),
                    out@.len() == i,
                    forall|j: int|
                        0 <= j < i ==> json_value(#[trigger] out@[j]) == items@[j].deep_view(),
                decreases items@.len() - i,
            {
                assert(decreases_to!(json => json->Array_0));
                assert(decreases_to!(items => items@));
                assert(decreases_to!(items@ => items@[i as int]));
                out.push(json_to_value(&items[i]));
                i += 1;
            }
            proof {
                lemma_array_model(*items);
                assert(out@.map_values(|v: serde_json::Value| json_value(v))
                    =~= items.deep_view());
            }
            build_value(JsonNode::Array(out))
        },
        Json::Object(fields) => {
            let mut out: Vec<(String, serde_json::Value)> = Vec::new();
            let mut i: usize = 0;
            proof {
                assert(value_entries(out@) =~= Seq::empty());
                assert(fields@.take(0) =~= Seq::empty());
            }
            while i < fields.len()
                invariant
                    i <= fields@.len(),
                    json == Json::Object(*fields),
                    distinct_keys(value_entries(out@)),
                    entry_map(value_entries(out@)) == fields_model(fields@.take(i as int)),
                decreases fields@.len() - i,
            {
                assert(decreases_to!(json => json->Object_0));
                assert(decreases_to!(fields => fields@));
                assert(decreases_to!(fields@ => fields@[i as int]));
                assert(decreases_to!(fields@[i as int] => fields@[i as int].value));
                let value = json_to_value(&fields[i].value);
                put_entry(&mut out, fields[i].key.as_str(), value);
                proof {
                    assert(fields@.take(i + 1).drop_last() =~= fields@.take(i as int));
                    lemma_fields_step(fields@.take(i + 1));
                }
                i += 1;
            }
            proof {
                lemma_object_fields(*fields);
                assert(fields@.take(i as int) =~= fields@);
            }
            build_value(JsonNode::Object(out))
        },
    }
}

/// The document with an entry added or replaced, where it is an object; other documents stay
/// as they are.
pub open spec fn with_entry(json: JsonView, key: Seq<char>, value: JsonView) -> JsonView {
    match json {
        JsonView::Object(entries) => JsonView::Object(entries.insert(key, value)),
        _ => json,
    }
}

impl Json {
    /// Reads a document from text; on failure, says what is wrong with the text.
    pub fn parse(text: &str) -> (parsed: Result<Json, String>)
        ensures
            match parsed {
                Ok(json) => json_parsed(text@) == Ok::<JsonView, Seq<char>>(json.deep_view()),
                Err(fault) => json_parsed(text@) == Err::<JsonView, Seq<char>>(fault@),
            },
    {
        match read_value(text) {
            Ok(value) => Ok(json_from_value(value)),
            Err(fault) => Err(fault),
        }
    }

    /// Reads a document from bytes; on failure, says what is wrong with them.
    pub fn decode(bytes: &Vec<u8>) -> (parsed: Result<Json, String>)
        ensures
            match parsed {
                Ok(json) => json_decoded(bytes@) == Ok::<JsonView, Seq<char>>(json.deep_view()),
                Err(fault) => json_decoded(bytes@) == Err::<JsonView, Seq<char>>(fault@),
            },
    {
        match decode_value(bytes) {
            Ok(value) => Ok(json_from_value(value)),
            Err(fault) => Err(fault),
        }
    }

    /// The document that a document of `serde_json` is.
    pub fn from_value(value: serde_json::Value) -> (json: Json)
        ensures
            json.deep_view() == json_value(value),
    {
        json_from_value(value)
    }

    /// The document of `serde_json` that says the same.
    pub fn to_value(&self) -> (value: serde_json::Value)
        ensures
            json_value(value) == self.deep_view(),
    {
        json_to_value(self)
    }

    /// The document as compact text.
    pub fn to_text(&self) -> (text: String)
        ensures
            text@ == json_text(self.deep_view()),
            holds_texts(self.deep_view()) ==> reads_as(text@, self.deep_view()),
    {
        let value = json_to_value(self);
        value_text(&value)
    }

    /// The document as shown for debugging.
    pub fn to_debug(&self) -> (text: String)
        ensures
            text@ == json_debug(self.deep_view()),
    {
        let value = json_to_value(self);
        value_debug(&value)
    }

    /// A copy of the document.
    pub fn copy(&self) -> (json: Json)
        ensures
            json.deep_view() == self.deep_view(),
    {
        let value = json_to_value(self);
        json_from_value(value)
    }

    /// The document that is a text.
    pub fn of_text(text: &str) -> (json: Json)
        ensures
            json.deep_view() == JsonView::Text(text@),
    {
        Json::Text(text.to_string())
    }

    /// The document that is a number.
    pub fn of_number(n: u64) -> (json: Json)
        ensures
            json.deep_view() == JsonView::Number(number_of(n)),
            number_display(number_of(n)) == decimal(n as nat),
    {
        Json::Number(number_from(n))
    }

    /// The array with one item.
    pub fn of_item(item: Json) -> (json: Json)
        ensures
            json.deep_view() == JsonView::Array(seq![item.deep_view()]),
    {
        let mut items: Vec<Json> = Vec::new();
        items.push(item);
        proof {
            lemma_array_model(items);
            assert(items.deep_view() =~= seq![item.deep_view()]);
        }
        Json::Array(items)
    }

    /// The object without entries.
    pub fn object() -> (json: Json)
        ensures
            json.deep_view() == JsonView::Object(Map::empty()),
    {
        let fields: Vec<JsonField> = Vec::new();
        proof {
            lemma_object_fields(fields);
            assert(fields_model(fields@) =~= Map::empty());
        }
        Json::Object(fields)
    }

    /// The document with an entry added or replaced, where it is an object.
    pub fn with(self, key: &str, value: Json) -> (json: Json)
        ensures
            json.deep_view() == with_entry(self.deep_view(), key@, value.deep_view()),
    {
        match self {
            Json::Object(fields) => {
                let ghost before = fields@;
                proof {
                    lemma_object_fields(fields);
                }
                let mut fields = fields;
                fields.push(JsonField { key: key.to_string(), value });
                proof {
                    lemma_object_fields(fields);
                    assert(fields@.drop_last() =~= before);
                }
                Json::Object(fields)
            },
            other => other,
        }
    }

    /// The value under a key, where the document is an object that has it.
    pub fn get(&self, key: &str) -> (found: Option<&Json>)
        ensures
            found.deep_view() == lookup(self.deep_view(), key@),
    {
        match self {
            Json::Object(fields) => {
                let mut i: usize = fields.len();
                proof {
                    lemma_object_fields(*fields);
                    assert(fields@.take(i as int) =~= fields@);
                }
                while i > 0
                    invariant
                        i <= fields@.len(),
                        self.deep_view() == JsonView::Object(fields_model(fields@)),
                        lookup(JsonView::Object(fields_model(fields@)), key@) == lookup(
                            JsonView::Object(fields_model(fields@.take(i as int))),
                            key@,
                        ),
                    decreases i,
                {
                    let ghost upto = fields@.take(i as int);
                    assert(upto.drop_last() =~= fields@.take(i - 1));
                    if same_text(fields[i - 1].key.as_str(), key) {
                        return Some(&fields[i - 1].value);
                    }
                    i -= 1;
                }
                None
            },
            _ => None,
        }
    }

    /// The characters, where the document is a text.
    pub fn as_str(&self) -> (text: Option<&String>)
        ensures
            text.deep_view() == text_of(self.deep_view()),
    {
        match self {
            Json::Text(text) => Some(text),
            _ => None,
        }
    }

    /// The items, where the document is an array.
    pub fn as_array(&self) -> (items: Option<&Vec<Json>>)
        ensures
            items.deep_view() == items_of(self.deep_view()),
    {
        match self {
            Json::Array(items) => {
                proof {
                    lemma_array_model(*items);
                }
                Some(items)
            },
            _ => None,
        }
    }

    /// The number, where the document is one.
    pub fn as_number(&self) -> (number: Option<&serde_json::Number>)
        ensures
            match number {
                Some(n) => self.deep_view() == JsonView::Number(*n),
                None => !(self.deep_view() is Number),
            },
    {
        match self {
            Json::Number(n) => Some(n),
            _ => None,
        }
    }

    /// The text under a key, where the document is an object that has a text there.
    pub fn text_at(&self, key: &str) -> (text: Option<String>)
        ensures
            text.deep_view() == text_at(self.deep_view(), key@),
    {
        match self.get(key) {
            Some(value) => match value.as_str() {
                Some(text) => Some(text.clone()),
                None => None,
            },
            None => None,
        }
    }

    /// A copy of the value under a key; null where there is none.
    pub fn member(&self, key: &str) -> (json: Json)
        ensures
            json.deep_view() == member(self.deep_view(), key@),
    {
        match self.get(key) {
            Some(value) => value.copy(),
            None => Json::Null,
        }
    }
}

} // verus!
