//! JSON values: the library's own tree, what it stands for, and its reading from text
//! by `serde_json`.

use vstd::prelude::*;
use vstd::string::*;

use crate::text::{find_last_entry, last_entry, lemma_last_entry, names, texts};

verus! {

/// A JSON number as `serde_json` keeps it. The library only carries numbers through.
#[verifier::external_type_specification]
#[verifier::external_body]
pub struct ExNumber(serde_json::Number);

/// A JSON value as `serde_json` keeps it.
#[verifier::external_type_specification]
#[verifier::external_body]
pub struct ExValue(serde_json::Value);

/// What a JSON value is: objects have no order and one value for each key.
pub enum JsonView {
    Null,
    Bool(bool),
    Number(serde_json::Number),
    Text(Seq<char>),
    List(Seq<JsonView>),
    Object(Map<Seq<char>, JsonView>),
}

impl JsonView {
    /// The value that an object has under `key`; nothing where there is no such key, or
    /// where the value is no object.
    pub open spec fn get(self, key: Seq<char>) -> Option<JsonView> {
        match self {
            JsonView::Object(entries) => if entries.dom().contains(key) {
                Some(entries[key])
            } else {
                None
            },
            _ => None,
        }
    }

    /// The characters of a text; nothing for any other value.
    pub open spec fn as_text(self) -> Option<Seq<char>> {
        match self {
            JsonView::Text(text) => Some(text),
            _ => None,
        }
    }

    /// The items of a list; nothing for any other value.
    pub open spec fn as_list(self) -> Option<Seq<JsonView>> {
        match self {
            JsonView::List(items) => Some(items),
            _ => None,
        }
    }
}

/// A JSON value.
#[derive(Debug, PartialEq, Eq)]
pub enum Json {
    Null,
    Bool(bool),
    Number(serde_json::Number),
    Text(String),
    List(Vec<Json>),
    Object(JsonObject),
}

/// The entries of a JSON object. A later entry for a key stands in front of an earlier one.
#[derive(Debug, PartialEq, Eq)]
pub struct JsonObject {
    pub entries: Vec<(String, Json)>,
}

/// What `json` stands for.
pub open spec fn json_view(json: Json) -> JsonView
    decreases json,
{
    match json {
        Json::Null => JsonView::Null,
        Json::Bool(flag) => JsonView::Bool(flag),
        Json::Number(number) => JsonView::Number(number),
        Json::Text(text) => JsonView::Text(text@),
        Json::List(items) => JsonView::List(list_view(items@)),
        Json::Object(object) => JsonView::Object(entries_view(object.entries@)),
    }
}

/// What the items of a list stand for.
pub open spec fn list_view(items: Seq<Json>) -> Seq<JsonView>
    decreases items,
{
    if items.len() == 0 {
        Seq::empty()
    } else {
        list_view(items.drop_last()).push(json_view(items.last()))
    }
}

/// What the entries of an object stand for.
pub open spec fn entries_view(entries: Seq<(String, Json)>) -> Map<Seq<char>, JsonView>
    decreases entries,
{
    if entries.len() == 0 {
        Map::empty()
    } else {
        entries_view(entries.drop_last()).insert(
            entries.last().0@,
            json_view(entries.last().1),
        )
    }
}

impl View for Json {
    type V = JsonView;

    open spec fn view(&self) -> JsonView {
        json_view(*self)
    }
}

impl View for JsonObject {
    type V = Map<Seq<char>, JsonView>;

    open spec fn view(&self) -> Map<Seq<char>, JsonView> {
        entries_view(self.entries@)
    }
}

/// The number of items does not change, and each item stands for itself.
pub proof fn lemma_list_view(items: Seq<Json>)
    ensures
        list_view(items).len() == items.len(),
        forall|i: int| 0 <= i < items.len() ==> #[trigger] list_view(items)[i] == items[i]@,
    decreases items.len(),
{
    if items.len() > 0 {
        lemma_list_view(items.drop_last());
    }
}

/// The last entry under a key is the one that counts.
proof fn lemma_entry_under_key(entries: Seq<(String, Json)>, key: Seq<char>)
    ensures
        match last_entry(entries, key) {
            Some(i) => {
                &&& entries_view(entries).dom().contains(key)
                &&& entries_view(entries)[key] == entries[i].1@
            },
            None => !entries_view(entries).dom().contains(key),
        },
    decreases entries.len(),
{
    if entries.len() > 0 {
        lemma_entry_under_key(entries.drop_last(), key);
        lemma_last_entry(entries.drop_last(), key);
    }
}

impl JsonObject {
    /// An object without entries.
    pub fn new() -> (object: JsonObject)
        ensures
            object@ == Map::<Seq<char>, JsonView>::empty(),
    {
        JsonObject { entries: Vec::new() }
    }

    /// Gives `key` the value `value`, in place of the one that it had.
    pub fn insert(&mut self, key: &str, value: Json)
        ensures
            final(self)@ == old(self)@.insert(key@, value@),
    {
        self.entries.push((key.to_owned(), value));
        assert(self.entries@.drop_last() =~= old(self).entries@);
    }

    /// The value under `key`.
    pub fn get(&self, key: &str) -> (value: Option<&Json>)
        ensures
            match value {
                Some(json) => self@.dom().contains(key@) && json@ == self@[key@],
                None => !self@.dom().contains(key@),
            },
    {
        proof {
            lemma_entry_under_key(self.entries@, key@);
        }
        match find_last_entry(&self.entries, key) {
            Some(i) => Some(&self.entries[i].1),
            None => None,
        }
    }
}

impl Json {
    /// The value that an object has under `key`.
    pub fn get(&self, key: &str) -> (value: Option<&Json>)
        ensures
            match value {
                Some(json) => self@.get(key@) == Some(json@),
                None => self@.get(key@) is None,
            },
    {
        match self {
            Json::Object(object) => object.get(key),
            _ => None,
        }
    }

    /// The characters of a text.
    pub fn as_text(&self) -> (text: Option<&str>)
        ensures
            match text {
                Some(text) => self@.as_text() == Some(text@),
                None => self@.as_text() is None,
            },
    {
        match self {
            Json::Text(text) => Some(text.as_str()),
            _ => None,
        }
    }

    /// The items of a list.
    pub fn as_list(&self) -> (items: Option<&Vec<Json>>)
        ensures
            match items {
                Some(items) => self@.as_list() == Some(list_view(items@)),
                None => self@.as_list() is None,
            },
    {
        match self {
            Json::List(items) => Some(items),
            _ => None,
        }
    }
}

/// What a value of `serde_json` holds: a tree of lists and maps.
pub uninterp spec fn value_json(value: serde_json::Value) -> JsonView;

/// What `serde_json::from_str` reads from a text as a `serde_json::Value`: the value, or
/// the message of its error.
pub uninterp spec fn parsed_json(text: Seq<char>) -> Result<JsonView, Seq<char>>;

/// The top of a value of `serde_json`, with the parts of it as they are there.
pub(crate) enum ValueNode {
    Null,
    Bool(bool),
    Number(serde_json::Number),
    Text(String),
    List(Vec<serde_json::Value>),
    Object(Vec<(String, serde_json::Value)>),
}

/// What entries of a map of `serde_json` hold.
pub open spec fn value_entries(entries: Seq<(String, serde_json::Value)>) -> Map<
    Seq<char>,
    JsonView,
>
    decreases entries.len(),
{
    if entries.len() == 0 {
        Map::empty()
    } else {
        value_entries(entries.drop_last()).insert(
            entries.last().0@,
            value_json(entries.last().1),
        )
    }
}

/// No key occurs twice.
pub open spec fn distinct_keys(entries: Seq<(String, serde_json::Value)>) -> bool {
    forall|i: int, j: int|
        0 <= i < j < entries.len() ==> (#[trigger] entries[i]).0@ != (#[trigger] entries[j]).0@
}

impl ValueNode {
    /// What the node and its parts hold.
    pub(crate) open spec fn view(self) -> JsonView {
        match self {
            ValueNode::Null => JsonView::Null,
            ValueNode::Bool(flag) => JsonView::Bool(flag),
            ValueNode::Number(number) => JsonView::Number(number),
            ValueNode::Text(text) => JsonView::Text(text@),
            ValueNode::List(items) => JsonView::List(
                items@.map_values(|item: serde_json::Value| value_json(item)),
            ),
            ValueNode::Object(entries) => JsonView::Object(value_entries(entries@)),
        }
    }
}

/// Wraps `serde_json::from_str` for `serde_json::Value`. The result is a function of the
/// text alone; an error is handed on as its message.
#[verifier::external_body]
fn value_from_str(text: &str) -> (result: Result<serde_json::Value, String>)
    ensures
        match result {
            Ok(value) => parsed_json(text@) == Ok::<JsonView, Seq<char>>(value_json(value)),
            Err(message) => parsed_json(text@) == Err::<JsonView, Seq<char>>(message@),
        },
{
    serde_json::from_str(text).map_err(|error| error.to_string())
}

/// Takes the variants of `serde_json::Value` apart, and hands out the entries of its
/// `serde_json::Map` with that map's `into_iter`. The node and its parts hold what the value
/// holds, and each key of a map occurs once.
#[verifier::external_body]
fn open_value(value: serde_json::Value) -> (node: ValueNode)
    ensures
        node.view() == value_json(value),
        node matches ValueNode::Object(entries) ==> distinct_keys(entries@),
{
    match value {
        serde_json::Value::Null => ValueNode::Null,
        serde_json::Value::Bool(flag) => ValueNode::Bool(flag),
        serde_json::Value::Number(number) => ValueNode::Number(number),
        serde_json::Value::String(text) => ValueNode::Text(text),
        serde_json::Value::Array(items) => ValueNode::List(items),
        serde_json::Value::Object(entries) => ValueNode::Object(entries.into_iter().collect()),
    }
}

/// Each entry of a map without repeated keys stays visible, and the map is finite.
proof fn lemma_value_entries(entries: Seq<(String, serde_json::Value)>)
    requires
        distinct_keys(entries),
    ensures
        value_entries(entries).dom().finite(),
        forall|i: int|
            0 <= i < entries.len() ==> {
                &&& value_entries(entries).dom().contains((#[trigger] entries[i]).0@)
                &&& value_entries(entries)[entries[i].0@] == value_json(entries[i].1)
            },
    decreases entries.len(),
{
    if entries.len() > 0 {
        let front = entries.drop_last();
        assert forall|i: int, j: int| 0 <= i < j < front.len() implies (#[trigger] front[i]).0@ != (
        #[trigger] front[j]).0@ by {
            assert(entries[i].0@ != entries[j].0@);
        }
        lemma_value_entries(front);
        assert forall|i: int| 0 <= i < entries.len() implies {
            &&& value_entries(entries).dom().contains((#[trigger] entries[i]).0@)
            &&& value_entries(entries)[entries[i].0@] == value_json(entries[i].1)
        } by {
            if i < front.len() {
                assert(front[i] == entries[i]);
                assert(entries[i].0@ != entries[entries.len() - 1].0@);
            }
        }
    }
}

/// The library's own tree for a value of `serde_json`.
pub fn json_from_value(value: serde_json::Value) -> (json: Json)
    ensures
        json@ == value_json(value),
    decreases value_json(value),
{
    match open_value(value) {
        ValueNode::Null => Json::Null,
        ValueNode::Bool(flag) => Json::Bool(flag),
        ValueNode::Number(number) => Json::Number(number),
        ValueNode::Text(text) => Json::Text(text),
        ValueNode::List(items) => {
            let ghost views = items@.map_values(|item: serde_json::Value| value_json(item));
            let ghost all = items@;
            let mut out: Vec<Json> = Vec::new();
            for item in iter: items
                invariant
                    iter.seq() == all,
                    views == all.map_values(|item: serde_json::Value| value_json(item)),
                    value_json(value) == JsonView::List(views),
                    list_view(out@) == views.take(iter.index() as int),
            {
                let ghost i = iter.index() as int;
                assert(views[i] == value_json(item));
                assert(decreases_to!(value_json(value) => value_json(value)->List_0));
                assert(decreases_to!(views => views[i]));
                let ghost before = out@;
                out.push(json_from_value(item));
                assert(out@.drop_last() =~= before);
                assert(views.take(i + 1) =~= views.take(i).push(views[i]));
            }
            assert(views.take(all.len() as int) =~= views);
            Json::List(out)
        },
        ValueNode::Object(entries) => {
            let ghost all = entries@;
            proof {
                lemma_value_entries(all);
            }
            let mut out: Vec<(String, Json)> = Vec::new();
            for entry in iter: entries
                invariant
                    iter.seq() == all,
                    value_json(value) == JsonView::Object(value_entries(all)),
                    value_entries(all).dom().finite(),
                    forall|i: int|
                        0 <= i < all.len() ==> {
                            &&& value_entries(all).dom().contains((#[trigger] all[i]).0@)
                            &&& value_entries(all)[all[i].0@] == value_json(all[i].1)
                        },
                    entries_view(out@) == value_entries(all.take(iter.index() as int)),
            {
                let ghost i = iter.index() as int;
                assert(all[i] == entry);
                let (key, part) = entry;
                assert(value_json(part) == value_entries(all)[key@]);
                assert(decreases_to!(value_json(value) => value_json(value)->Object_0));
                assert(decreases_to!(value_entries(all) => value_entries(all)[key@]));
                let ghost before = out@;
                out.push((key, json_from_value(part)));
                assert(out@.drop_last() =~= before);
                assert(all.take(i + 1).drop_last() =~= all.take(i));
            }
            assert(all.take(all.len() as int) =~= all);
            Json::Object(JsonObject { entries: out })
        },
    }
}

/// The JSON value that `text` spells, or the message that says why it spells none.
pub fn parse_json(text: &str) -> (result: Result<Json, String>)
    ensures
        match result {
            Ok(json) => parsed_json(text@) == Ok::<JsonView, Seq<char>>(json@),
            Err(message) => parsed_json(text@) == Err::<JsonView, Seq<char>>(message@),
        },
{
    match value_from_str(text) {
        Ok(value) => Ok(json_from_value(value)),
        Err(message) => Err(message),
    }
}

/// The number of `serde_json` for an integer.
pub uninterp spec fn integer_number(integer: int) -> serde_json::Number;

/// Wraps `<serde_json::Number as From<i32>>::from`. The number is a function of the integer
/// alone.
#[verifier::external_body]
fn number_from_i32(integer: i32) -> (number: serde_json::Number)
    ensures
        number == integer_number(integer as int),
{
    serde_json::Number::from(integer)
}

/// The JSON number for an integer.
pub fn json_integer(integer: i32) -> (json: Json)
    ensures
        json@ == JsonView::Number(integer_number(integer as int)),
{
    Json::Number(number_from_i32(integer))
}

/// The JSON text of the characters of `text`.
pub fn json_text(text: &str) -> (json: Json)
    ensures
        json@ == JsonView::Text(text@),
{
    Json::Text(text.to_owned())
}

/// What a JSON list of texts is.
pub open spec fn text_list(texts: Seq<Seq<char>>) -> JsonView {
    JsonView::List(texts.map_values(|text: Seq<char>| JsonView::Text(text)))
}

/// Items that are texts make up the list of these texts.
proof fn lemma_text_list(items: Seq<Json>, texts: Seq<Seq<char>>)
    requires
        items.len() == texts.len(),
        forall|i: int| 0 <= i < items.len() ==> (#[trigger] items[i])@ == JsonView::Text(texts[i]),
    ensures
        JsonView::List(list_view(items)) == text_list(texts),
{
    lemma_list_view(items);
    assert(list_view(items) =~= texts.map_values(|text: Seq<char>| JsonView::Text(text))) by {
        assert forall|i: int| 0 <= i < items.len() implies #[trigger] list_view(items)[i]
            == JsonView::Text(texts[i]) by {
            assert(items[i]@ == JsonView::Text(texts[i]));
        }
    }
}

/// The JSON list of the texts of `strings`.
pub fn json_texts(strings: &[String]) -> (json: Json)
    ensures
        json@ == text_list(texts(strings@)),
{
    let mut items: Vec<Json> = Vec::new();
    for i in 0..strings.len()
        invariant
            items.len() == i,
            forall|j: int| 0 <= j < i ==> (#[trigger] items@[j])@ == JsonView::Text(strings@[j]@),
    {
        items.push(json_text(strings[i].as_str()));
    }
    proof {
        lemma_text_list(items@, texts(strings@));
    }
    Json::List(items)
}

/// The JSON list of the texts of `strings`.
pub fn json_names(strings: &Vec<&'static str>) -> (json: Json)
    ensures
        json@ == text_list(names(strings@)),
{
    let mut items: Vec<Json> = Vec::new();
    for i in 0..strings.len()
        invariant
            items.len() == i,
            forall|j: int| 0 <= j < i ==> (#[trigger] items@[j])@ == JsonView::Text(strings@[j]@),
    {
        items.push(json_text(strings[i]));
    }
    proof {
        lemma_text_list(items@, names(strings@));
    }
    Json::List(items)
}

/// Only an object has values under keys, and it has just those that it holds; only a text has
/// characters, and only a list has items.
pub proof fn law_parts_of_a_value(value: JsonView, key: Seq<char>)
    ensures
        value matches JsonView::Object(entries) ==> {
            &&& entries.dom().contains(key) ==> value.get(key) == Some(entries[key])
            &&& !entries.dom().contains(key) ==> value.get(key) is None
        },
        !(value is Object) ==> value.get(key) is None,
        value matches JsonView::Text(text) ==> value.as_text() == Some(text),
        !(value is Text) ==> value.as_text() is None,
        value matches JsonView::List(items) ==> value.as_list() == Some(items),
        !(value is List) ==> value.as_list() is None,
{
}

/// A list of texts holds each of the texts, in their order, and nothing else.
pub proof fn law_text_list(texts: Seq<Seq<char>>)
    ensures
        text_list(texts) is List,
        text_list(texts)->List_0.len() == texts.len(),
        forall|i: int|
            0 <= i < texts.len() ==> #[trigger] text_list(texts)->List_0[i] == JsonView::Text(
                texts[i],
            ),
{
}

/// A value of the library stands for the value that its parts make up: of two entries of an
/// object under one key the last counts.
pub proof fn law_what_a_value_stands_for(json: Json, key: Seq<char>)
    ensures
        json is Null ==> json@ == JsonView::Null,
        json matches Json::Bool(flag) ==> json@ == JsonView::Bool(flag),
        json matches Json::Number(number) ==> json@ == JsonView::Number(number),
        json matches Json::Text(text) ==> json@ == JsonView::Text(text@),
        json matches Json::List(items) ==> {
            &&& json@ is List
            &&& json@->List_0.len() == items@.len()
            &&& forall|i: int| 0 <= i < items@.len() ==> #[trigger] json@->List_0[i] == items@[i]@
        },
        json matches Json::Object(object) ==> {
            &&& json@ == JsonView::Object(object@)
            &&& match last_entry(object.entries@, key) {
                Some(i) => object@.dom().contains(key) && object@[key] == object.entries@[i].1@,
                None => !object@.dom().contains(key),
            }
        },
{
    match json {
        Json::List(items) => {
            lemma_list_view(items@);
        },
        Json::Object(object) => {
            lemma_entry_under_key(object.entries@, key);
        },
        _ => {},
    }
}

} // verus!
