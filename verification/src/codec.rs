//! Texts and bytes in other forms: UTF-8, base64, JSON, and quoted.

use crate::text::{joined, views};
use base64::Engine;
use vstd::prelude::*;

verus! {

/// The text that is made of bytes that are not UTF-8, what stands for no character being
/// replaced.
pub uninterp spec fn utf8_replaced(bytes: Seq<u8>) -> Seq<char>;

/// The text that bytes stand for: the one that they encode, or else one with replacements.
pub open spec fn utf8_lossy(bytes: Seq<u8>) -> Seq<char> {
    if vstd::utf8::valid_utf8(bytes) {
        vstd::utf8::decode_utf8(bytes)
    } else {
        utf8_replaced(bytes)
    }
}

/// `String::from_utf8_lossy`. Bytes that are UTF-8 stand for the text that they encode. Which
/// characters take the place of others is left unsaid.
#[verifier::external_body]
pub(crate) fn lossy_text(bytes: &[u8]) -> (r: String)
    ensures
        vstd::utf8::valid_utf8(bytes@) ==> r@ == vstd::utf8::decode_utf8(bytes@),
        !vstd::utf8::valid_utf8(bytes@) ==> r@ == utf8_replaced(bytes@),
{
    String::from_utf8_lossy(bytes).to_string()
}

/// `String::from_utf8`, without its error: the text that bytes encode, where they are UTF-8.
#[verifier::external_body]
pub(crate) fn utf8_text(bytes: Vec<u8>) -> (r: Option<String>)
    ensures
        r is Some <==> vstd::utf8::valid_utf8(bytes@),
        r matches Some(s) ==> s@ == vstd::utf8::decode_utf8(bytes@),
{
    String::from_utf8(bytes).ok()
}

/// Every text is read from its own bytes.
pub proof fn texts_are_read_from_their_bytes(text: Seq<char>)
    ensures
        utf8_lossy(vstd::utf8::encode_utf8(text)) == text,
{
    vstd::utf8::encode_utf8_valid_utf8(text);
    vstd::utf8::encode_utf8_decode_utf8(text);
}

/// The text of bytes in base64.
pub uninterp spec fn base64_text(bytes: Seq<u8>) -> Seq<char>;

/// The bytes that a text stands for in base64.
pub uninterp spec fn base64_bytes(text: Seq<char>) -> Result<Seq<u8>, Seq<char>>;

/// Bytes, or the characters of an error.
pub open spec fn bytes_or_error(r: Result<Vec<u8>, String>) -> Result<Seq<u8>, Seq<char>> {
    match r {
        Ok(b) => Ok(b@),
        Err(e) => Err(e@),
    }
}

/// The text stands for these bytes in base64.
pub open spec fn stands_for(text: Seq<char>, bytes: Seq<u8>) -> bool {
    base64_bytes(text) == Ok::<Seq<u8>, Seq<char>>(bytes)
}

/// `base64::Engine::encode` with the standard alphabet and padding. What it writes reads back.
#[verifier::external_body]
pub(crate) fn base64_encode(bytes: &[u8]) -> (r: String)
    ensures
        r@ == base64_text(bytes@),
        stands_for(r@, bytes@),
{
    base64::engine::general_purpose::STANDARD.encode(bytes)
}

/// `base64::Engine::decode` with the standard alphabet and padding.
#[verifier::external_body]
pub(crate) fn base64_decode(text: &str) -> (r: Result<Vec<u8>, String>)
    ensures
        bytes_or_error(r) == base64_bytes(text@),
{
    base64::engine::general_purpose::STANDARD.decode(text.as_bytes()).map_err(|e| e.to_string())
}

/// A text in quotation marks, with what needs it escaped.
pub uninterp spec fn quoted(text: Seq<char>) -> Seq<char>;

/// The `Debug` form of a `str`, by `format!`.
#[verifier::external_body]
pub(crate) fn quote(text: &str) -> (r: String)
    ensures
        r@ == quoted(text@),
{
    format!("{text:?}")
}

/// Each text of a list in quotation marks.
pub open spec fn all_quoted(list: Seq<Seq<char>>) -> Seq<Seq<char>> {
    Seq::new(list.len(), |i: int| quoted(list[i]))
}

/// A list of texts between brackets, each in quotation marks.
pub open spec fn quoted_list(list: Seq<Seq<char>>) -> Seq<char> {
    "["@ + joined(all_quoted(list), ", "@) + "]"@
}

pub fn quote_list(list: &Vec<String>) -> (r: String)
    ensures
        r@ == quoted_list(views(list@)),
{
    let mut parts: Vec<String> = Vec::new();
    let mut i: usize = 0;
    while i < list.len()
        invariant
            i <= list.len(),
            views(parts@) == all_quoted(views(list@)).take(i as int),
        decreases list.len() - i,
    {
        let ghost before = parts@;
        let q = quote(list[i].as_str());
        parts.push(q);
        assert(views(parts@) =~= views(before).push(q@));
        assert(all_quoted(views(list@)).take(i + 1) =~= all_quoted(views(list@)).take(
            i as int,
        ).push(q@));
        i = i + 1;
    }
    assert(all_quoted(views(list@)).take(list@.len() as int) =~= all_quoted(views(list@)));
    crate::text::cat3("[", crate::text::join(&parts, ", ").as_str(), "]")
}

/// The JSON text of a list of texts.
pub uninterp spec fn json_list_text(list: Seq<Seq<char>>) -> Result<Seq<char>, Seq<char>>;

/// A text, or the characters of an error.
pub open spec fn text_or_error(r: Result<String, String>) -> Result<Seq<char>, Seq<char>> {
    match r {
        Ok(s) => Ok(s@),
        Err(e) => Err(e@),
    }
}

/// The list of texts that a JSON text stands for.
pub uninterp spec fn json_list_read(text: Seq<char>) -> Result<Seq<Seq<char>>, Seq<char>>;

/// Texts, or the characters of an error.
pub open spec fn texts_or_error(r: Result<Vec<String>, String>) -> Result<
    Seq<Seq<char>>,
    Seq<char>,
> {
    match r {
        Ok(list) => Ok(views(list@)),
        Err(e) => Err(e@),
    }
}

/// The JSON text stands for this list.
pub open spec fn lists(text: Seq<char>, list: Seq<Seq<char>>) -> bool {
    json_list_read(text) == Ok::<Seq<Seq<char>>, Seq<char>>(list)
}

/// `serde_json::to_string` on a list of texts, which never fails. What it writes reads back.
#[verifier::external_body]
pub(crate) fn json_list(list: &Vec<String>) -> (r: Result<String, String>)
    ensures
        text_or_error(r) == json_list_text(views(list@)),
        r is Ok,
        r matches Ok(text) ==> lists(text@, views(list@)),
{
    serde_json::to_string(list).map_err(|e| e.to_string())
}

/// `serde_json::from_str` into a list of texts, with the error as its text.
#[verifier::external_body]
pub(crate) fn json_list_parse(text: &str) -> (r: Result<Vec<String>, String>)
    ensures
        texts_or_error(r) == json_list_read(text@),
{
    serde_json::from_str(text).map_err(|e| e.to_string())
}

/// A step from a JSON value to one inside it.
#[derive(Debug, Clone, Copy)]
pub enum JsonStep<'a> {
    /// The element of a list at this place.
    Item(usize),
    /// The value of an object under this key.
    Key(&'a str),
}

/// A step as a value.
pub enum JsonStepModel {
    Item(usize),
    Key(Seq<char>),
}

pub open spec fn step_view(step: JsonStep) -> JsonStepModel {
    match step {
        JsonStep::Item(i) => JsonStepModel::Item(i),
        JsonStep::Key(k) => JsonStepModel::Key(k@),
    }
}

pub open spec fn step_views(steps: Seq<JsonStep>) -> Seq<JsonStepModel> {
    Seq::new(steps.len(), |i: int| step_view(steps[i]))
}

/// `serde_json::Value`, the outside type of a JSON value.
#[verifier::external_type_specification]
#[verifier::external_body]
pub struct ExValue(serde_json::Value);

/// The texts that a JSON value holds, by the steps that lead to them.
pub uninterp spec fn json_texts(value: serde_json::Value) -> Map<Seq<JsonStepModel>, Seq<char>>;

/// The texts of the JSON value that bytes hold.
pub uninterp spec fn json_read(bytes: Seq<u8>) -> Result<
    Map<Seq<JsonStepModel>, Seq<char>>,
    Seq<char>,
>;

/// The texts of a value, or the characters of an error.
pub open spec fn value_or_error(r: Result<serde_json::Value, String>) -> Result<
    Map<Seq<JsonStepModel>, Seq<char>>,
    Seq<char>,
> {
    match r {
        Ok(value) => Ok(json_texts(value)),
        Err(e) => Err(e@),
    }
}

/// `serde_json::from_slice` into a `Value`, with the error as its text. What the value holds
/// besides texts is left unsaid.
#[verifier::external_body]
pub(crate) fn json_value(bytes: &[u8]) -> (r: Result<serde_json::Value, String>)
    ensures
        value_or_error(r) == json_read(bytes@),
{
    serde_json::from_slice(bytes).map_err(|e| e.to_string())
}

/// `serde_json::Value::Object` on a map with one entry, a text under this key.
#[verifier::external_body]
pub(crate) fn json_one_field(key: &str, text: &str) -> (r: serde_json::Value)
    ensures
        json_texts(r) == map![seq![JsonStepModel::Key(key@)] => text@],
{
    let mut object = serde_json::Map::new();
    object.insert(key.to_string(), serde_json::Value::from(text));
    serde_json::Value::Object(object)
}

/// The texts that come after some steps, by the steps from there on.
pub open spec fn texts_after(
    texts: Map<Seq<JsonStepModel>, Seq<char>>,
    steps: Seq<JsonStepModel>,
) -> Map<Seq<JsonStepModel>, Seq<char>> {
    Map::new(
        |rest: Seq<JsonStepModel>| texts.contains_key(steps + rest),
        |rest: Seq<JsonStepModel>| texts[steps + rest],
    )
}

/// The texts of a value that may be none.
pub open spec fn texts_found(value: Option<&serde_json::Value>) -> Map<
    Seq<JsonStepModel>,
    Seq<char>,
> {
    match value {
        Some(v) => json_texts(*v),
        None => Map::empty(),
    }
}

/// `serde_json::Value::get` with a number: the element of a list, where there is one. Its texts
/// are those of the list that come after the step to it.
#[verifier::external_body]
fn json_item<'a>(value: &'a serde_json::Value, index: usize) -> (r: Option<&'a serde_json::Value>)
    ensures
        texts_found(r) == texts_after(json_texts(*value), seq![JsonStepModel::Item(index)]),
{
    value.get(index)
}

/// `serde_json::Value::get` with a text: the value of an object under this key, where there is
/// one. Its texts are those of the object that come after the step to it.
#[verifier::external_body]
fn json_field<'a>(value: &'a serde_json::Value, key: &str) -> (r: Option<&'a serde_json::Value>)
    ensures
        texts_found(r) == texts_after(json_texts(*value), seq![JsonStepModel::Key(key@)]),
{
    value.get(key)
}

/// `serde_json::Value::as_str`: the text that a value is, where it is one. No step leads to it.
#[verifier::external_body]
fn json_str(value: &serde_json::Value) -> (r: Option<String>)
    ensures
        r is Some <==> json_texts(*value).contains_key(Seq::<JsonStepModel>::empty()),
        r matches Some(s) ==> s@ == json_texts(*value)[Seq::<JsonStepModel>::empty()],
{
    value.as_str().map(|s| s.to_string())
}

/// The text that stands where steps lead to in the JSON value that bytes hold, `None` where
/// they lead nowhere or to something else.
pub open spec fn json_text_found(bytes: Seq<u8>, steps: Seq<JsonStepModel>) -> Result<
    Option<Seq<char>>,
    Seq<char>,
> {
    match json_read(bytes) {
        Ok(texts) => Ok(
            if texts.contains_key(steps) {
                Some(texts[steps])
            } else {
                None
            },
        ),
        Err(e) => Err(e),
    }
}

pub open spec fn found_or_error(r: Result<Option<String>, String>) -> Result<
    Option<Seq<char>>,
    Seq<char>,
> {
    match r {
        Ok(Some(s)) => Ok(Some(s@)),
        Ok(None) => Ok(None),
        Err(e) => Err(e@),
    }
}

proof fn step_by_step(
    texts: Map<Seq<JsonStepModel>, Seq<char>>,
    steps: Seq<JsonStepModel>,
    step: JsonStepModel,
)
    ensures
        texts_after(texts_after(texts, steps), seq![step]) == texts_after(texts, steps.push(step)),
        texts_after(Map::empty(), seq![step]) == Map::<Seq<JsonStepModel>, Seq<char>>::empty(),
{
    assert forall|rest: Seq<JsonStepModel>|
        #![trigger seq![step] + rest]
        steps + (seq![step] + rest) == steps.push(step) + rest by {
        assert(steps + (seq![step] + rest) =~= steps.push(step) + rest);
    }
    assert(texts_after(texts_after(texts, steps), seq![step]) =~= texts_after(
        texts,
        steps.push(step),
    ));
    assert(texts_after(Map::empty(), seq![step]) =~= Map::<
        Seq<JsonStepModel>,
        Seq<char>,
    >::empty());
}

/// The text that stands where steps lead to in the JSON value that bytes hold.
pub fn json_text_at(bytes: &[u8], steps: &[JsonStep]) -> (r: Result<Option<String>, String>)
    ensures
        found_or_error(r) == json_text_found(bytes@, step_views(steps@)),
{
    let root = match json_value(bytes) {
        Ok(value) => value,
        Err(e) => {
            return Err(e);
        },
    };
    let ghost texts = json_texts(root);
    let ghost all = step_views(steps@);
    let mut at = Some(&root);
    let mut i: usize = 0;
    assert(texts_after(texts, all.take(0)) =~= texts) by {
        assert forall|rest: Seq<JsonStepModel>| #[trigger] all.take(0) + rest == rest by {
            assert(all.take(0) + rest =~= rest);
        }
    }
    while i < steps.len()
        invariant
            i <= steps.len(),
            all == step_views(steps@),
            texts_found(at) == texts_after(texts, all.take(i as int)),
        decreases steps.len() - i,
    {
        proof {
            step_by_step(texts, all.take(i as int), all[i as int]);
            assert(all.take(i + 1) =~= all.take(i as int).push(all[i as int]));
        }
        at = match at {
            Some(value) => match steps[i] {
                JsonStep::Item(index) => json_item(value, index),
                JsonStep::Key(key) => json_field(value, key),
            },
            None => None,
        };
        i = i + 1;
    }
    proof {
        assert(all.take(all.len() as int) =~= all);
        assert(all + Seq::<JsonStepModel>::empty() =~= all);
        assert(texts_after(texts, all).contains_key(Seq::<JsonStepModel>::empty())
            == texts.contains_key(all));
    }
    match at {
        Some(value) => Ok(json_str(value)),
        None => Ok(None),
    }
}

/// A plain JSON value.
#[derive(Debug, Clone, PartialEq, Eq)]
pub enum JsonPlain {
    Text(String),
    Number(u64),
    Flag(bool),
}

/// A plain JSON value, as a value.
pub enum JsonPlainModel {
    Text(Seq<char>),
    Number(u64),
    Flag(bool),
}

impl View for JsonPlain {
    type V = JsonPlainModel;

    open spec fn view(&self) -> JsonPlainModel {
        match self {
            JsonPlain::Text(s) => JsonPlainModel::Text(s@),
            JsonPlain::Number(n) => JsonPlainModel::Number(*n),
            JsonPlain::Flag(b) => JsonPlainModel::Flag(*b),
        }
    }
}

pub open spec fn field_views(fields: Seq<(&str, JsonPlain)>) -> Seq<(Seq<char>, JsonPlainModel)> {
    Seq::new(fields.len(), |i: int| (fields[i].0@, fields[i].1@))
}

/// The JSON text of an object with these fields.
pub uninterp spec fn json_object_text(fields: Seq<(Seq<char>, JsonPlainModel)>) -> Result<
    Seq<char>,
    Seq<char>,
>;

/// `serde_json::to_string` on an object that is made of the fields, which never fails.
#[verifier::external_body]
pub(crate) fn json_object(fields: &Vec<(&str, JsonPlain)>) -> (r: Result<String, String>)
    ensures
        text_or_error(r) == json_object_text(field_views(fields@)),
        r is Ok,
{
    let mut object = serde_json::Map::new();
    for (key, value) in fields {
        let value = match value {
            JsonPlain::Text(s) => serde_json::Value::from(s.as_str()),
            JsonPlain::Number(n) => serde_json::Value::from(*n),
            JsonPlain::Flag(b) => serde_json::Value::from(*b),
        };
        object.insert(key.to_string(), value);
    }
    serde_json::to_string(&serde_json::Value::Object(object)).map_err(|e| e.to_string())
}

} // verus!
