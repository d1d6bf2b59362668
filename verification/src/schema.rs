use vstd::prelude::*;

use crate::json::{lemma_pair_views_of, lemma_views_of, pair_views_of, views_of, JsonData, JsonValue};
use crate::text::{dec_str, escape_pointer_token, pointer_escape, str_eq, usize_to_string};

verus! {

/// Mathematical model of one validation error: a JSON pointer into the
/// document (empty for document-level errors) and a message.
pub struct ErrorData {
    pub path: Seq<char>,
    pub message: Seq<char>,
}

pub open spec fn msg_not_object() -> Seq<char> {
    "expected an object"@
}

pub open spec fn msg_expected_string() -> Seq<char> {
    "expected a string"@
}

pub open spec fn msg_expected_array() -> Seq<char> {
    "expected an array"@
}

pub open spec fn msg_unknown_field() -> Seq<char> {
    "unknown field"@
}

pub open spec fn msg_bad_entry() -> Seq<char> {
    "expected an action (name and cmd) or a group (a single key mapped to a list)"@
}

/// The value under the first occurrence of `key` at or after position `i`.
pub open spec fn obj_lookup_from(
    pairs: Seq<(Seq<char>, JsonData)>,
    key: Seq<char>,
    i: int,
) -> Option<JsonData>
    decreases pairs.len() - i,
{
    if i < 0 || i >= pairs.len() {
        None
    } else if pairs[i].0 == key {
        Some(pairs[i].1)
    } else {
        obj_lookup_from(pairs, key, i + 1)
    }
}

/// The value under the first occurrence of `key`, if any.
pub open spec fn obj_lookup(pairs: Seq<(Seq<char>, JsonData)>, key: Seq<char>) -> Option<JsonData> {
    obj_lookup_from(pairs, key, 0)
}

/// The action shape: an object of exactly two keys, `name` and `cmd`, both
/// holding strings.
pub open spec fn is_action_shape(j: JsonData) -> bool {
    &&& j is Object
    &&& j->Object_0.len() == 2
    &&& (obj_lookup(j->Object_0, "name"@) matches Some(JsonData::Text(_)))
    &&& (obj_lookup(j->Object_0, "cmd"@) matches Some(JsonData::Text(_)))
}

/// The group shape: an object of exactly one key (the group name) holding a
/// list of valid entries.
pub open spec fn is_group_shape(j: JsonData) -> bool
    decreases j, 0int,
{
    &&& j is Object
    &&& j->Object_0.len() == 1
    &&& j->Object_0[0].1 is Array
    &&& all_valid_entries(j->Object_0[0].1->Array_0)
}

/// Whether every element of `items` is a valid entry.
pub open spec fn all_valid_entries(items: Seq<JsonData>) -> bool
    decreases items, 2int,
{
    items.len() == 0 || (is_valid_entry(items[0]) && all_valid_entries(items.drop_first()))
}

/// A valid entry is an action or a group; the action shape is tried first.
pub open spec fn is_valid_entry(j: JsonData) -> bool
    decreases j, 1int,
{
    is_action_shape(j) || is_group_shape(j)
}

/// The errors reported for one entry. `path` points at the entry itself;
/// the errors of a group's elements are reported under the group's key.
pub open spec fn entry_errors(path: Seq<char>, j: JsonData) -> Seq<ErrorData>
    decreases j, 1int,
{
    if is_action_shape(j) {
        Seq::empty()
    } else if j is Object && j->Object_0.len() == 1 && j->Object_0[0].1 is Array {
        entries_errors(
            path + seq!['/'] + pointer_escape(j->Object_0[0].0) + seq!['/'],
            0,
            j->Object_0[0].1->Array_0,
        )
    } else {
        seq![ErrorData { path: path, message: msg_bad_entry() }]
    }
}

/// The errors of a list of entries; element `k` is reported under
/// `base + (idx + k)`, where `base` ends with `/`.
pub open spec fn entries_errors(base: Seq<char>, idx: nat, items: Seq<JsonData>) -> Seq<ErrorData>
    decreases items, 2int,
{
    if items.len() == 0 {
        Seq::empty()
    } else {
        entry_errors(base + dec_str(idx), items[0]) + entries_errors(
            base,
            idx + 1,
            items.drop_first(),
        )
    }
}

/// The errors reported for one top-level key/value pair.
pub open spec fn top_pair_errors(key: Seq<char>, val: JsonData) -> Seq<ErrorData> {
    if key == "terminal"@ || key == "editor"@ {
        if val is Text {
            Seq::empty()
        } else {
            seq![
                ErrorData { path: seq!['/'] + pointer_escape(key), message: msg_expected_string() },
            ]
        }
    } else if key == "actions"@ {
        if val is Array {
            entries_errors("/actions/"@, 0, val->Array_0)
        } else {
            seq![ErrorData { path: "/actions"@, message: msg_expected_array() }]
        }
    } else {
        seq![ErrorData { path: seq!['/'] + pointer_escape(key), message: msg_unknown_field() }]
    }
}

pub open spec fn pairs_errors(pairs: Seq<(Seq<char>, JsonData)>) -> Seq<ErrorData>
    decreases pairs,
{
    if pairs.len() == 0 {
        Seq::empty()
    } else {
        top_pair_errors(pairs[0].0, pairs[0].1) + pairs_errors(pairs.drop_first())
    }
}

/// All violations of the configuration schema found in the document, in
/// document order.
pub open spec fn doc_errors(j: JsonData) -> Seq<ErrorData> {
    if !(j is Object) {
        seq![ErrorData { path: Seq::empty(), message: msg_not_object() }]
    } else {
        pairs_errors(j->Object_0)
    }
}

/// Whether one top-level key/value pair conforms to the schema.
pub open spec fn top_pair_valid(key: Seq<char>, val: JsonData) -> bool {
    if key == "terminal"@ || key == "editor"@ {
        val is Text
    } else if key == "actions"@ {
        val is Array && all_valid_entries(val->Array_0)
    } else {
        false
    }
}

/// Whether the whole document conforms to the schema: an object whose keys
/// are all recognized and whose values all have the required shapes.
pub open spec fn doc_valid(j: JsonData) -> bool {
    &&& j is Object
    &&& forall|i: int|
        0 <= i < j->Object_0.len() ==> top_pair_valid(
            (#[trigger] j->Object_0[i]).0,
            j->Object_0[i].1,
        )
}

proof fn lemma_entry_errors_iff_valid(path: Seq<char>, j: JsonData)
    ensures
        entry_errors(path, j).len() == 0 <==> is_valid_entry(j),
    decreases j, 3int,
{
    if is_action_shape(j) {
    } else if j is Object && j->Object_0.len() == 1 && j->Object_0[0].1 is Array {
        lemma_entries_errors_iff_valid(
            path + seq!['/'] + pointer_escape(j->Object_0[0].0) + seq!['/'],
            0,
            j->Object_0[0].1->Array_0,
        );
    } else {
    }
}

proof fn lemma_entries_errors_iff_valid(base: Seq<char>, idx: nat, items: Seq<JsonData>)
    ensures
        entries_errors(base, idx, items).len() == 0 <==> all_valid_entries(items),
    decreases items, 4int,
{
    if items.len() > 0 {
        lemma_entry_errors_iff_valid(base + dec_str(idx), items[0]);
        lemma_entries_errors_iff_valid(base, idx + 1, items.drop_first());
    }
}

proof fn lemma_top_pair_errors_iff_valid(key: Seq<char>, val: JsonData)
    ensures
        top_pair_errors(key, val).len() == 0 <==> top_pair_valid(key, val),
{
    if key == "terminal"@ || key == "editor"@ {
    } else if key == "actions"@ {
        if val is Array {
            lemma_entries_errors_iff_valid("/actions/"@, 0, val->Array_0);
        }
    } else {
    }
}

proof fn lemma_pairs_errors_iff_valid(pairs: Seq<(Seq<char>, JsonData)>)
    ensures
        pairs_errors(pairs).len() == 0 <==> forall|i: int|
            0 <= i < pairs.len() ==> top_pair_valid((#[trigger] pairs[i]).0, pairs[i].1),
    decreases pairs,
{
    if pairs.len() > 0 {
        lemma_top_pair_errors_iff_valid(pairs[0].0, pairs[0].1);
        lemma_pairs_errors_iff_valid(pairs.drop_first());
        assert forall|i: int|
            0 <= i < pairs.len() && pairs_errors(pairs).len() == 0 implies top_pair_valid(
            (#[trigger] pairs[i]).0,
            pairs[i].1,
        ) by {
            if i > 0 {
                assert(pairs.drop_first()[i - 1] == pairs[i]);
            }
        }
        if forall|i: int| 0 <= i < pairs.len() ==> top_pair_valid((#[trigger] pairs[i]).0, pairs[i].1) {
            assert(top_pair_valid(pairs[0].0, pairs[0].1));
            assert forall|i: int| 0 <= i < pairs.drop_first().len() implies top_pair_valid(
                (#[trigger] pairs.drop_first()[i]).0,
                pairs.drop_first()[i].1,
            ) by {
                assert(pairs.drop_first()[i] == pairs[i + 1]);
            }
        }
    }
}

/// A successful lookup returns the value of some pair that carries the key.
pub proof fn lemma_obj_lookup_from_mem(pairs: Seq<(Seq<char>, JsonData)>, key: Seq<char>, i: int)
    requires
        0 <= i <= pairs.len(),
    ensures
        obj_lookup_from(pairs, key, i) is Some ==> exists|k: int|
            i <= k < pairs.len() && (#[trigger] pairs[k]) == (key, obj_lookup_from(
                pairs,
                key,
                i,
            )->0),
    decreases pairs.len() - i,
{
    if i < pairs.len() && !(pairs[i].0 == key) {
        lemma_obj_lookup_from_mem(pairs, key, i + 1);
    }
}

/// The error list is empty exactly when the document is valid.
pub proof fn lemma_doc_errors_iff_valid(j: JsonData)
    ensures
        doc_errors(j).len() == 0 <==> doc_valid(j),
{
    if j is Object {
        lemma_pairs_errors_iff_valid(j->Object_0);
    }
}

/// A validation error: a JSON pointer (empty for document-level errors) and
/// a human-readable message.
#[derive(Debug, Clone)]
pub struct ValidationError {
    pub path: String,
    pub message: String,
}

impl View for ValidationError {
    type V = ErrorData;

    open spec fn view(&self) -> ErrorData {
        ErrorData { path: self.path@, message: self.message@ }
    }
}

impl DeepView for ValidationError {
    type V = ErrorData;

    open spec fn deep_view(&self) -> ErrorData {
        self@
    }
}

/// Result of config validation.
#[derive(Debug)]
pub enum ValidationResult {
    Valid,
    Invalid(Vec<ValidationError>),
}

fn singleton_error(path: String, message: &str) -> (es: Vec<ValidationError>)
    ensures
        es.deep_view() == seq![ErrorData { path: path@, message: message@ }],
{
    let ghost target = seq![ErrorData { path: path@, message: message@ }];
    let mut es: Vec<ValidationError> = Vec::new();
    es.push(ValidationError { path, message: String::from_str(message) });
    proof {
        assert(es.deep_view() =~= target);
    }
    es
}

fn json_is_string(j: &JsonValue) -> (r: bool)
    ensures
        r == (j@ is Text),
{
    matches!(j, JsonValue::Text(_))
}

/// The value under the first occurrence of `key`, if any.
pub(crate) fn obj_get<'a>(pairs: &'a Vec<(String, JsonValue)>, key: &str) -> (r: Option<
    &'a JsonValue,
>)
    ensures
        match r {
            Some(v) => obj_lookup(pair_views_of(pairs@), key@) == Some(v@),
            None => obj_lookup(pair_views_of(pairs@), key@) is None,
        },
{
    proof {
        lemma_pair_views_of(pairs@);
    }
    let ghost pv = pair_views_of(pairs@);
    let mut i: usize = 0;
    while i < pairs.len()
        invariant
            i <= pairs@.len(),
            pv == pair_views_of(pairs@),
            pv.len() == pairs@.len(),
            forall|k: int| 0 <= k < pv.len() ==> #[trigger] pv[k] == (pairs@[k].0@, pairs@[k].1@),
            obj_lookup(pv, key@) == obj_lookup_from(pv, key@, i as int),
        decreases pairs@.len() - i,
    {
        if str_eq(pairs[i].0.as_str(), key) {
            return Some(&pairs[i].1);
        }
        i = i + 1;
    }
    None
}

/// Whether `j` has the action shape.
pub(crate) fn entry_is_action(j: &JsonValue) -> (r: bool)
    ensures
        r == is_action_shape(j@),
{
    match j {
        JsonValue::Object(pairs) => {
            proof {
                lemma_pair_views_of(pairs@);
            }
            if pairs.len() != 2 {
                return false;
            }
            let name_ok = match obj_get(pairs, "name") {
                Some(v) => json_is_string(v),
                None => false,
            };
            let cmd_ok = match obj_get(pairs, "cmd") {
                Some(v) => json_is_string(v),
                None => false,
            };
            name_ok && cmd_ok
        },
        _ => false,
    }
}

/// Collects the errors of the entry at `path`.
fn collect_entry_errors(path: String, j: &JsonValue) -> (es: Vec<ValidationError>)
    ensures
        es.deep_view() == entry_errors(path@, j@),
    decreases j, 0int,
{
    if entry_is_action(j) {
        let es: Vec<ValidationError> = Vec::new();
        proof {
            assert(es.deep_view() =~= entry_errors(path@, j@));
        }
        return es;
    }
    match j {
        JsonValue::Object(pairs) => {
            proof {
                lemma_pair_views_of(pairs@);
            }
            if pairs.len() == 1 {
                match &pairs[0].1 {
                    JsonValue::Array(items) => {
                        let esc = escape_pointer_token(pairs[0].0.as_str());
                        let mut base = path;
                        base.append("/");
                        base.append(esc.as_str());
                        base.append("/");
                        proof {
                            reveal_strlit("/");
                            assert(base@ =~= path@ + seq!['/'] + pointer_escape(pairs@[0].0@)
                                + seq!['/']);
                        }
                        let es = collect_entries_errors(&base, items, 0);
                        proof {
                            assert(pair_views_of(pairs@)[0] == (pairs@[0].0@, pairs@[0].1@));
                            assert(pairs@[0].1@ == JsonData::Array(views_of(items@)));
                            assert(views_of(items@).skip(0) =~= views_of(items@));
                            assert(entry_errors(path@, j@) == entries_errors(
                                base@,
                                0nat,
                                views_of(items@),
                            ));
                        }
                        return es;
                    },
                    _ => {},
                }
            }
            singleton_error(path, "expected an action (name and cmd) or a group (a single key mapped to a list)")
        },
        _ => singleton_error(path, "expected an action (name and cmd) or a group (a single key mapped to a list)"),
    }
}

/// Collects the errors of the entries `items[i..]`, each under `base` plus
/// its position.
fn collect_entries_errors(base: &String, items: &Vec<JsonValue>, i: usize) -> (es: Vec<
    ValidationError,
>)
    requires
        i <= items@.len(),
    ensures
        es.deep_view() == entries_errors(base@, i as nat, views_of(items@).skip(i as int)),
    decreases items, items@.len() - i,
{
    proof {
        lemma_views_of(items@);
    }
    let ghost vs = views_of(items@);
    if i >= items.len() {
        let es: Vec<ValidationError> = Vec::new();
        proof {
            assert(vs.skip(i as int) =~= Seq::<JsonData>::empty());
            assert(es.deep_view() =~= entries_errors(base@, i as nat, vs.skip(i as int)));
        }
        return es;
    }
    let idx_text = usize_to_string(i);
    let entry_path = String::from_str(base.as_str()).concat(idx_text.as_str());
    let mut es = collect_entry_errors(entry_path, &items[i]);
    let mut rest = collect_entries_errors(base, items, i + 1);
    proof {
        assert(vs.skip(i as int)[0] == items@[i as int]@);
        assert(vs.skip(i as int).drop_first() =~= vs.skip(i + 1 as int));
    }
    es.append(&mut rest);
    proof {
        assert(es.deep_view() =~= entries_errors(base@, i as nat, vs.skip(i as int)));
    }
    es
}

/// Collects the errors of one top-level key/value pair.
fn collect_top_pair_errors(key: &String, val: &JsonValue) -> (es: Vec<ValidationError>)
    ensures
        es.deep_view() == top_pair_errors(key@, val@),
{
    if str_eq(key.as_str(), "terminal") || str_eq(key.as_str(), "editor") {
        if json_is_string(val) {
            let es: Vec<ValidationError> = Vec::new();
            proof {
                assert(es.deep_view() =~= top_pair_errors(key@, val@));
            }
            es
        } else {
            let esc = escape_pointer_token(key.as_str());
            let mut p = String::from_str("/");
            p.append(esc.as_str());
            proof {
                reveal_strlit("/");
                assert(p@ =~= seq!['/'] + pointer_escape(key@));
            }
            singleton_error(p, "expected a string")
        }
    } else if str_eq(key.as_str(), "actions") {
        match val {
            JsonValue::Array(items) => {
                let base = String::from_str("/actions/");
                let es = collect_entries_errors(&base, items, 0);
                proof {
                    assert(val@ == JsonData::Array(views_of(items@)));
                    assert(views_of(items@).skip(0) =~= views_of(items@));
                }
                es
            },
            _ => singleton_error(String::from_str("/actions"), "expected an array"),
        }
    } else {
        let esc = escape_pointer_token(key.as_str());
        let mut p = String::from_str("/");
        p.append(esc.as_str());
        proof {
            reveal_strlit("/");
            assert(p@ =~= seq!['/'] + pointer_escape(key@));
        }
        singleton_error(p, "unknown field")
    }
}

/// Collects the errors of the top-level pairs `pairs[i..]`.
fn collect_pairs_errors(pairs: &Vec<(String, JsonValue)>, i: usize) -> (es: Vec<ValidationError>)
    requires
        i <= pairs@.len(),
    ensures
        es.deep_view() == pairs_errors(pair_views_of(pairs@).skip(i as int)),
    decreases pairs@.len() - i,
{
    proof {
        lemma_pair_views_of(pairs@);
    }
    let ghost pv = pair_views_of(pairs@);
    if i >= pairs.len() {
        let es: Vec<ValidationError> = Vec::new();
        proof {
            assert(pv.skip(i as int) =~= Seq::<(Seq<char>, JsonData)>::empty());
            assert(es.deep_view() =~= pairs_errors(pv.skip(i as int)));
        }
        return es;
    }
    let mut es = collect_top_pair_errors(&pairs[i].0, &pairs[i].1);
    let mut rest = collect_pairs_errors(pairs, i + 1);
    proof {
        assert(pv.skip(i as int)[0] == pv[i as int]);
        assert(pv.skip(i as int).drop_first() =~= pv.skip(i + 1 as int));
    }
    es.append(&mut rest);
    proof {
        assert(es.deep_view() =~= pairs_errors(pv.skip(i as int)));
    }
    es
}

/// Collects every violation of the configuration schema in the document.
fn collect_doc_errors(j: &JsonValue) -> (es: Vec<ValidationError>)
    ensures
        es.deep_view() == doc_errors(j@),
{
    match j {
        JsonValue::Object(pairs) => {
            let es = collect_pairs_errors(pairs, 0);
            proof {
                assert(pair_views_of(pairs@).skip(0) =~= pair_views_of(pairs@));
            }
            es
        },
        _ => singleton_error(String::new(), "expected an object"),
    }
}

/// Validates a generic JSON value against the configuration schema,
/// collecting every violation rather than stopping at the first.
pub fn validate(value: &JsonValue) -> (r: ValidationResult)
    ensures
        match r {
            ValidationResult::Valid => doc_valid(value@),
            ValidationResult::Invalid(es) => {
                &&& !doc_valid(value@)
                &&& es@.len() > 0
                &&& es.deep_view() == doc_errors(value@)
            },
        },
{
    let es = collect_doc_errors(value);
    proof {
        lemma_doc_errors_iff_valid(value@);
    }
    if es.len() == 0 {
        ValidationResult::Valid
    } else {
        ValidationResult::Invalid(es)
    }
}

/// The configuration schema as a JSON Schema document.
pub open spec fn schema_text() -> Seq<char> {
    "{\n  \"$schema\": \"http://json-schema.org/draft-07/schema#\",\n  \"title\": \"xshuttle configuration\",\n  \"type\": \"object\",\n  \"additionalProperties\": false,\n  \"properties\": {\n    \"terminal\": { \"type\": \"string\" },\n    \"editor\": { \"type\": \"string\" },\n    \"actions\": { \"type\": \"array\", \"items\": { \"$ref\": \"#/definitions/entry\" } }\n  },\n  \"definitions\": {\n    \"entry\": {\n      \"oneOf\": [\n        { \"$ref\": \"#/definitions/action\" },\n        { \"$ref\": \"#/definitions/group\" }\n      ]\n    },\n    \"action\": {\n      \"type\": \"object\",\n      \"required\": [\"name\", \"cmd\"],\n      \"additionalProperties\": false,\n      \"properties\": {\n        \"name\": { \"type\": \"string\" },\n        \"cmd\": { \"type\": \"string\" }\n      }\n    },\n    \"group\": {\n      \"type\": \"object\",\n      \"minProperties\": 1,\n      \"maxProperties\": 1,\n      \"additionalProperties\": {\n        \"type\": \"array\",\n        \"items\": { \"$ref\": \"#/definitions/entry\" }\n      }\n    }\n  }\n}\n"@
}

/// Returns the embedded JSON schema as a string.
pub fn schema() -> (r: &'static str)
    ensures
        r@ == schema_text(),
{
    "{\n  \"$schema\": \"http://json-schema.org/draft-07/schema#\",\n  \"title\": \"xshuttle configuration\",\n  \"type\": \"object\",\n  \"additionalProperties\": false,\n  \"properties\": {\n    \"terminal\": { \"type\": \"string\" },\n    \"editor\": { \"type\": \"string\" },\n    \"actions\": { \"type\": \"array\", \"items\": { \"$ref\": \"#/definitions/entry\" } }\n  },\n  \"definitions\": {\n    \"entry\": {\n      \"oneOf\": [\n        { \"$ref\": \"#/definitions/action\" },\n        { \"$ref\": \"#/definitions/group\" }\n      ]\n    },\n    \"action\": {\n      \"type\": \"object\",\n      \"required\": [\"name\", \"cmd\"],\n      \"additionalProperties\": false,\n      \"properties\": {\n        \"name\": { \"type\": \"string\" },\n        \"cmd\": { \"type\": \"string\" }\n      }\n    },\n    \"group\": {\n      \"type\": \"object\",\n      \"minProperties\": 1,\n      \"maxProperties\": 1,\n      \"additionalProperties\": {\n        \"type\": \"array\",\n        \"items\": { \"$ref\": \"#/definitions/entry\" }\n      }\n    }\n  }\n}\n"
}

/// One error written as text: `path: message`, or the bare message for
/// document-level errors.
pub open spec fn error_line(e: ErrorData) -> Seq<char> {
    if e.path.len() == 0 {
        e.message
    } else {
        e.path + ": "@ + e.message
    }
}

/// A list of errors written as text, separated by `; `.
pub open spec fn errors_text(es: Seq<ErrorData>) -> Seq<char>
    decreases es,
{
    if es.len() == 0 {
        Seq::empty()
    } else if es.len() == 1 {
        error_line(es[0])
    } else {
        error_line(es[0]) + "; "@ + errors_text(es.drop_first())
    }
}

impl ValidationError {
    /// The error as one line of text: `path: message`, or the bare message
    /// for document-level errors.
    pub fn render(&self) -> (r: String)
        ensures
            r@ == error_line(self@),
    {
        if self.path.unicode_len() == 0 {
            let r = self.message.clone();
            proof {
                assert(self.path@.len() == 0);
            }
            r
        } else {
            let mut r = self.path.clone();
            r.append(": ");
            r.append(self.message.as_str());
            r
        }
    }
}

fn format_errors_from(errors: &Vec<ValidationError>, i: usize) -> (r: String)
    requires
        i <= errors@.len(),
    ensures
        r@ == errors_text(errors.deep_view().skip(i as int)),
    decreases errors@.len() - i,
{
    let ghost dv = errors.deep_view();
    if i >= errors.len() {
        let r = String::new();
        proof {
            assert(dv.skip(i as int) =~= Seq::<ErrorData>::empty());
        }
        return r;
    }
    let mut line = errors[i].render();
    proof {
        assert(dv.skip(i as int)[0] == dv[i as int]);
    }
    if i + 1 < errors.len() {
        let rest = format_errors_from(errors, i + 1);
        line.append("; ");
        line.append(rest.as_str());
        proof {
            assert(dv.skip(i as int).drop_first() =~= dv.skip(i + 1 as int));
            assert(line@ =~= errors_text(dv.skip(i as int)));
        }
    } else {
        proof {
            assert(dv.skip(i as int).len() == 1);
        }
    }
    line
}

/// Writes a list of validation errors as one line of text, the errors
/// separated by `; `.
pub fn format_validation_errors(errors: &Vec<ValidationError>) -> (r: String)
    ensures
        r@ == errors_text(errors.deep_view()),
{
    let r = format_errors_from(errors, 0);
    proof {
        assert(errors.deep_view().skip(0) =~= errors.deep_view());
    }
    r
}

} // verus!
