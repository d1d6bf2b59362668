use vstd::prelude::*;

verus! {

/// Mathematical model of a generic JSON document: numbers are kept as their
/// decimal rendering, strings as character sequences, objects as ordered
/// key/value pair sequences.
pub enum JsonData {
    Null,
    Bool(bool),
    Number(Seq<char>),
    Text(Seq<char>),
    Array(Seq<JsonData>),
    Object(Seq<(Seq<char>, JsonData)>),
}

/// A generic JSON value, produced by parsing a document and consumed by the
/// schema validator and the typed configuration decoder.
#[derive(Debug)]
pub enum JsonValue {
    Null,
    Bool(bool),
    Number(String),
    Text(String),
    Array(Vec<JsonValue>),
    Object(Vec<(String, JsonValue)>),
}

impl View for JsonValue {
    type V = JsonData;

    open spec fn view(&self) -> JsonData
        decreases self,
    {
        match self {
            JsonValue::Null => JsonData::Null,
            JsonValue::Bool(b) => JsonData::Bool(*b),
            JsonValue::Number(s) => JsonData::Number(s@),
            JsonValue::Text(s) => JsonData::Text(s@),
            JsonValue::Array(items) => JsonData::Array(views_of(items@)),
            JsonValue::Object(pairs) => JsonData::Object(pair_views_of(pairs@)),
        }
    }
}

/// The views of a sequence of JSON values, element by element.
pub open spec fn views_of(items: Seq<JsonValue>) -> Seq<JsonData>
    decreases items,
{
    if items.len() == 0 {
        Seq::empty()
    } else {
        seq![items[0]@] + views_of(items.drop_first())
    }
}

/// The views of a sequence of key/value pairs, element by element.
pub open spec fn pair_views_of(pairs: Seq<(String, JsonValue)>) -> Seq<(Seq<char>, JsonData)>
    decreases pairs,
{
    if pairs.len() == 0 {
        Seq::empty()
    } else {
        seq![(pairs[0].0@, pairs[0].1@)] + pair_views_of(pairs.drop_first())
    }
}

/// `views_of` maps each element to its view, in place.
pub proof fn lemma_views_of(items: Seq<JsonValue>)
    ensures
        views_of(items).len() == items.len(),
        forall|i: int| 0 <= i < items.len() ==> views_of(items)[i] == items[i]@,
    decreases items,
{
    if items.len() > 0 {
        lemma_views_of(items.drop_first());
        assert(views_of(items) == seq![items[0]@] + views_of(items.drop_first()));
        assert forall|i: int| 0 <= i < items.len() implies views_of(items)[i] == items[i]@ by {
            if i > 0 {
                assert(items.drop_first()[i - 1] == items[i]);
            }
        }
    }
}

/// `pair_views_of` maps each pair to its views, in place.
pub proof fn lemma_pair_views_of(pairs: Seq<(String, JsonValue)>)
    ensures
        pair_views_of(pairs).len() == pairs.len(),
        forall|i: int| 0 <= i < pairs.len() ==> pair_views_of(pairs)[i] == (pairs[i].0@, pairs[i].1@),
    decreases pairs,
{
    if pairs.len() > 0 {
        lemma_pair_views_of(pairs.drop_first());
        assert(pair_views_of(pairs) == seq![(pairs[0].0@, pairs[0].1@)] + pair_views_of(
            pairs.drop_first(),
        ));
        assert forall|i: int| 0 <= i < pairs.len() implies pair_views_of(pairs)[i] == (
            pairs[i].0@,
            pairs[i].1@,
        ) by {
            if i > 0 {
                assert(pairs.drop_first()[i - 1] == pairs[i]);
            }
        }
    }
}

/// What `serde_json` decodes a document to: `None` where the text is not
/// valid JSON, otherwise the decoded value.
pub uninterp spec fn json_of(text: Seq<char>) -> Option<JsonData>;

/// The contents of a `serde_json::Value`, as the library's JSON model.
pub uninterp spec fn value_rep(v: serde_json::Value) -> JsonData;

#[verifier::external_type_specification]
#[verifier::external_body]
pub struct ExValue(serde_json::Value);

/// Relies on serde_json::from_str::<serde_json::Value>: decodes a JSON
/// document, succeeding exactly on valid JSON, and the decoded value is a
/// function of the text alone.
#[verifier::external_body]
fn parse_json_value(s: &str) -> (r: Result<serde_json::Value, String>)
    ensures
        r is Ok <==> json_of(s@) is Some,
        r is Ok ==> value_rep(r->Ok_0) == json_of(s@)->0,
{
    serde_json::from_str::<serde_json::Value>(s).map_err(|e| e.to_string())
}

/// Relies on the variants of serde_json::Value: each is mapped to the
/// corresponding variant of the library's value type, fields moved one for
/// one, numbers rendered to their decimal text.
#[verifier::external_body]
fn decode_json_value(v: serde_json::Value) -> (r: JsonValue)
    ensures
        r@ == value_rep(v),
{
    match v {
        serde_json::Value::Null => JsonValue::Null,
        serde_json::Value::Bool(b) => JsonValue::Bool(b),
        serde_json::Value::Number(n) => JsonValue::Number(n.to_string()),
        serde_json::Value::String(s) => JsonValue::Text(s),
        serde_json::Value::Array(a) => JsonValue::Array(a.into_iter().map(decode_json_value).collect()),
        serde_json::Value::Object(m) => JsonValue::Object(
            m.into_iter().map(|(k, v)| (k, decode_json_value(v))).collect(),
        ),
    }
}

/// Parses a JSON document into the library's generic value type.
///
/// Returns `Err` with the parser's diagnostic exactly when the text is not
/// valid JSON.
pub fn parse_json(s: &str) -> (r: Result<JsonValue, String>)
    ensures
        r is Ok <==> json_of(s@) is Some,
        r is Ok ==> r->Ok_0@ == json_of(s@)->0,
{
    match parse_json_value(s) {
        Ok(v) => Ok(decode_json_value(v)),
        Err(e) => Err(e),
    }
}

} // verus!
