use vstd::prelude::*;

use crate::json::{views_of, JsonData, JsonValue};
use crate::schema::{
    all_valid_entries, doc_valid, entry_is_action, is_action_shape, is_group_shape,
    is_valid_entry, lemma_obj_lookup_from_mem, obj_get, obj_lookup, obj_lookup_from,
    top_pair_valid,
};

verus! {

/// Mathematical model of an action.
pub struct ActionData {
    pub name: Seq<char>,
    pub cmd: Seq<char>,
}

/// Mathematical model of a group.
pub struct GroupData {
    pub name: Seq<char>,
    pub entries: Seq<EntryData>,
}

/// Mathematical model of an entry.
pub enum EntryData {
    Action(ActionData),
    Group(GroupData),
}

/// Mathematical model of a configuration.
pub struct ConfigData {
    pub terminal: Seq<char>,
    pub editor: Seq<char>,
    pub actions: Seq<EntryData>,
}

/// A single executable menu item with a display name and command.
#[derive(Debug, Clone)]
pub struct Action {
    pub name: String,
    pub cmd: String,
}

impl View for Action {
    type V = ActionData;

    open spec fn view(&self) -> ActionData {
        ActionData { name: self.name@, cmd: self.cmd@ }
    }
}

impl DeepView for Action {
    type V = ActionData;

    open spec fn deep_view(&self) -> ActionData {
        self@
    }
}

/// A named group containing nested entries.
/// On the wire it is a map from its name to its entry list, and nothing else.
#[derive(Debug)]
pub struct Group {
    pub name: String,
    pub entries: Vec<Entry>,
}

/// An entry in the menu - either an action or a group, told apart by shape.
#[derive(Debug)]
pub enum Entry {
    Action(Action),
    Group(Group),
}

impl View for Group {
    type V = GroupData;

    open spec fn view(&self) -> GroupData
        decreases self, 0int,
    {
        GroupData { name: self.name@, entries: entry_views_of(self.entries@) }
    }
}

impl View for Entry {
    type V = EntryData;

    open spec fn view(&self) -> EntryData
        decreases self, 1int,
    {
        match self {
            Entry::Action(a) => EntryData::Action(a@),
            Entry::Group(g) => EntryData::Group(g@),
        }
    }
}

impl DeepView for Entry {
    type V = EntryData;

    open spec fn deep_view(&self) -> EntryData {
        self@
    }
}

/// The views of a sequence of entries, element by element.
pub open spec fn entry_views_of(es: Seq<Entry>) -> Seq<EntryData>
    decreases es, 2int,
{
    if es.len() == 0 {
        Seq::empty()
    } else {
        seq![es[0]@] + entry_views_of(es.drop_first())
    }
}

/// `entry_views_of` maps each entry to its view, in place.
pub proof fn lemma_entry_views_of(es: Seq<Entry>)
    ensures
        entry_views_of(es).len() == es.len(),
        forall|i: int| 0 <= i < es.len() ==> entry_views_of(es)[i] == es[i]@,
    decreases es,
{
    if es.len() > 0 {
        lemma_entry_views_of(es.drop_first());
        assert(entry_views_of(es) == seq![es[0]@] + entry_views_of(es.drop_first()));
        assert forall|i: int| 0 <= i < es.len() implies entry_views_of(es)[i] == es[i]@ by {
            if i > 0 {
                assert(es.drop_first()[i - 1] == es[i]);
            }
        }
    }
}

/// The typed configuration: terminal and editor preferences and the action
/// tree, with defaults already applied.
#[derive(Debug)]
pub struct Config {
    pub terminal: String,
    pub editor: String,
    pub actions: Vec<Entry>,
}

impl View for Config {
    type V = ConfigData;

    open spec fn view(&self) -> ConfigData {
        ConfigData {
            terminal: self.terminal@,
            editor: self.editor@,
            actions: entry_views_of(self.actions@),
        }
    }
}

/// The default terminal and editor preference.
pub open spec fn spec_default_choice() -> Seq<char> {
    "default"@
}

fn default_terminal() -> (r: String)
    ensures
        r@ == spec_default_choice(),
{
    String::from_str("default")
}

fn default_editor() -> (r: String)
    ensures
        r@ == spec_default_choice(),
{
    String::from_str("default")
}

/// The configuration with both preferences `default` and no actions.
pub open spec fn default_config_data() -> ConfigData {
    ConfigData {
        terminal: spec_default_choice(),
        editor: spec_default_choice(),
        actions: Seq::empty(),
    }
}

impl Default for Config {
    /// The default configuration: both preferences `default`, no actions.
    fn default() -> (r: Config)
        ensures
            r@ == default_config_data(),
    {
        let r = Config { terminal: default_terminal(), editor: default_editor(), actions: Vec::new() };
        proof {
            assert(entry_views_of(r.actions@) =~= Seq::<EntryData>::empty());
        }
        r
    }
}

// ---------------------------------------------------------------------------
// Decoding a validated JSON document into the typed configuration.
// ---------------------------------------------------------------------------

/// The action read from a value of the action shape.
pub open spec fn action_of_json(j: JsonData) -> ActionData {
    ActionData {
        name: obj_lookup(j->Object_0, "name"@)->0->Text_0,
        cmd: obj_lookup(j->Object_0, "cmd"@)->0->Text_0,
    }
}

/// The entry read from a valid entry value; the action shape is tried first.
pub open spec fn entry_of_json(j: JsonData) -> EntryData
    recommends
        is_valid_entry(j),
    decreases j, 1int,
{
    if is_action_shape(j) {
        EntryData::Action(action_of_json(j))
    } else if j is Object && j->Object_0.len() == 1 && j->Object_0[0].1 is Array {
        EntryData::Group(
            GroupData {
                name: j->Object_0[0].0,
                entries: entries_of_json(j->Object_0[0].1->Array_0),
            },
        )
    } else {
        EntryData::Action(ActionData { name: Seq::empty(), cmd: Seq::empty() })
    }
}

/// The entries read from a sequence of valid entry values.
pub open spec fn entries_of_json(items: Seq<JsonData>) -> Seq<EntryData>
    decreases items, 2int,
{
    if items.len() == 0 {
        Seq::empty()
    } else {
        seq![entry_of_json(items[0])] + entries_of_json(items.drop_first())
    }
}

/// The configuration read from a valid document, defaults applied to the
/// missing fields.
pub open spec fn config_of_json(j: JsonData) -> ConfigData {
    ConfigData {
        terminal: match obj_lookup(j->Object_0, "terminal"@) {
            Some(JsonData::Text(s)) => s,
            _ => spec_default_choice(),
        },
        editor: match obj_lookup(j->Object_0, "editor"@) {
            Some(JsonData::Text(s)) => s,
            _ => spec_default_choice(),
        },
        actions: match obj_lookup(j->Object_0, "actions"@) {
            Some(JsonData::Array(items)) => entries_of_json(items),
            _ => Seq::empty(),
        },
    }
}

// ---------------------------------------------------------------------------
// Writing the typed configuration back as a JSON document.
// ---------------------------------------------------------------------------

/// The wire form of an action: `{"name": ..., "cmd": ...}`.
pub open spec fn json_of_action(a: ActionData) -> JsonData {
    JsonData::Object(
        seq![("name"@, JsonData::Text(a.name)), ("cmd"@, JsonData::Text(a.cmd))],
    )
}

/// The wire form of an entry; a group is a map of exactly one key.
pub open spec fn json_of_entry(e: EntryData) -> JsonData
    decreases e, 1int,
{
    match e {
        EntryData::Action(a) => json_of_action(a),
        EntryData::Group(g) => JsonData::Object(
            seq![(g.name, JsonData::Array(json_of_entries(g.entries)))],
        ),
    }
}

/// The wire form of a sequence of entries.
pub open spec fn json_of_entries(es: Seq<EntryData>) -> Seq<JsonData>
    decreases es, 2int,
{
    if es.len() == 0 {
        Seq::empty()
    } else {
        seq![json_of_entry(es[0])] + json_of_entries(es.drop_first())
    }
}

/// The wire form of a configuration, all three fields written out.
pub open spec fn json_of_config(c: ConfigData) -> JsonData {
    JsonData::Object(
        seq![
            ("terminal"@, JsonData::Text(c.terminal)),
            ("editor"@, JsonData::Text(c.editor)),
            ("actions"@, JsonData::Array(json_of_entries(c.actions))),
        ],
    )
}

impl Action {
    /// Writes the action as a JSON value.
    pub fn to_json(&self) -> (r: JsonValue)
        ensures
            r@ == json_of_action(self@),
    {
        let mut pairs: Vec<(String, JsonValue)> = Vec::new();
        pairs.push((String::from_str("name"), JsonValue::Text(self.name.clone())));
        pairs.push((String::from_str("cmd"), JsonValue::Text(self.cmd.clone())));
        let r = JsonValue::Object(pairs);
        proof {
            crate::json::lemma_pair_views_of(r->Object_0@);
            assert(crate::json::pair_views_of(r->Object_0@) =~= seq![
                ("name"@, JsonData::Text(self.name@)),
                ("cmd"@, JsonData::Text(self.cmd@)),
            ]);
        }
        r
    }
}

impl Entry {
    /// Writes the entry as a JSON value.
    pub fn to_json(&self) -> (r: JsonValue)
        ensures
            r@ == json_of_entry(self@),
        decreases self, 1int,
    {
        match self {
            Entry::Action(a) => a.to_json(),
            Entry::Group(g) => {
                let children = entries_to_json(&g.entries, 0);
                proof {
                    lemma_entry_views_of(g.entries@);
                    assert(entry_views_of(g.entries@).skip(0) =~= entry_views_of(g.entries@));
                }
                let mut pairs: Vec<(String, JsonValue)> = Vec::new();
                pairs.push((g.name.clone(), JsonValue::Array(children)));
                let r = JsonValue::Object(pairs);
                proof {
                    crate::json::lemma_pair_views_of(r->Object_0@);
                    assert(crate::json::pair_views_of(r->Object_0@) =~= seq![
                        (g.name@, JsonData::Array(json_of_entries(entry_views_of(g.entries@)))),
                    ]);
                }
                r
            },
        }
    }
}

fn entries_to_json(es: &Vec<Entry>, i: usize) -> (r: Vec<JsonValue>)
    requires
        i <= es@.len(),
    ensures
        views_of(r@) == json_of_entries(entry_views_of(es@).skip(i as int)),
    decreases es, es@.len() - i,
{
    proof {
        lemma_entry_views_of(es@);
    }
    let ghost evs = entry_views_of(es@);
    if i >= es.len() {
        let r: Vec<JsonValue> = Vec::new();
        proof {
            assert(evs.skip(i as int) =~= Seq::<EntryData>::empty());
            assert(views_of(r@) =~= json_of_entries(evs.skip(i as int)));
        }
        return r;
    }
    let first = es[i].to_json();
    let mut rest = entries_to_json(es, i + 1);
    let ghost rest0 = rest@;
    let mut r: Vec<JsonValue> = Vec::new();
    r.push(first);
    r.append(&mut rest);
    proof {
        crate::json::lemma_views_of(r@);
        crate::json::lemma_views_of(rest0);
        assert(r@ =~= seq![first] + rest0);
        assert(evs.skip(i as int)[0] == evs[i as int]);
        assert(evs.skip(i as int).drop_first() =~= evs.skip(i + 1 as int));
        assert(json_of_entries(evs.skip(i as int)) == seq![json_of_entry(evs[i as int])]
            + json_of_entries(evs.skip(i + 1 as int)));
        assert(views_of(r@) =~= json_of_entries(evs.skip(i as int)));
    }
    r
}

impl Config {
    /// Writes the configuration as a JSON document, all three fields
    /// written out.
    pub fn to_json(&self) -> (r: JsonValue)
        ensures
            r@ == json_of_config(self@),
    {
        let actions = entries_to_json(&self.actions, 0);
        proof {
            lemma_entry_views_of(self.actions@);
            assert(entry_views_of(self.actions@).skip(0) =~= entry_views_of(self.actions@));
        }
        let mut pairs: Vec<(String, JsonValue)> = Vec::new();
        pairs.push((String::from_str("terminal"), JsonValue::Text(self.terminal.clone())));
        pairs.push((String::from_str("editor"), JsonValue::Text(self.editor.clone())));
        pairs.push((String::from_str("actions"), JsonValue::Array(actions)));
        let r = JsonValue::Object(pairs);
        proof {
            crate::json::lemma_pair_views_of(r->Object_0@);
            assert(crate::json::pair_views_of(r->Object_0@) =~= seq![
                ("terminal"@, JsonData::Text(self.terminal@)),
                ("editor"@, JsonData::Text(self.editor@)),
                ("actions"@, JsonData::Array(json_of_entries(entry_views_of(self.actions@)))),
            ]);
        }
        r
    }
}

proof fn lemma_action_round_trip(a: ActionData)
    ensures
        is_action_shape(json_of_action(a)),
        action_of_json(json_of_action(a)) == a,
{
    reveal_strlit("name");
    reveal_strlit("cmd");
    assert("name"@.len() == 4);
    assert("cmd"@.len() == 3);
    let s = json_of_action(a)->Object_0;
    assert(obj_lookup_from(s, "name"@, 0) == Some(JsonData::Text(a.name)));
    assert(obj_lookup_from(s, "cmd"@, 1) == Some(JsonData::Text(a.cmd)));
    assert(obj_lookup_from(s, "cmd"@, 0) == Some(JsonData::Text(a.cmd)));
}

/// Writing an entry and reading it back yields the same entry, and the
/// written form always satisfies the entry schema.
pub proof fn lemma_entry_round_trip(e: EntryData)
    ensures
        is_valid_entry(json_of_entry(e)),
        entry_of_json(json_of_entry(e)) == e,
    decreases e, 1int,
{
    match e {
        EntryData::Action(a) => {
            lemma_action_round_trip(a);
        },
        EntryData::Group(g) => {
            lemma_entries_round_trip(g.entries);
            let j = json_of_entry(e);
            assert(j->Object_0.len() == 1);
            assert(!is_action_shape(j));
            assert(is_group_shape(j));
            assert(entry_of_json(j) == EntryData::Group(
                GroupData { name: g.name, entries: entries_of_json(json_of_entries(g.entries)) },
            ));
        },
    }
}

proof fn lemma_entries_round_trip(es: Seq<EntryData>)
    ensures
        all_valid_entries(json_of_entries(es)),
        entries_of_json(json_of_entries(es)) == es,
    decreases es, 2int,
{
    if es.len() > 0 {
        lemma_entry_round_trip(es[0]);
        lemma_entries_round_trip(es.drop_first());
        let js = json_of_entries(es);
        assert(js == seq![json_of_entry(es[0])] + json_of_entries(es.drop_first()));
        assert(js[0] == json_of_entry(es[0]));
        assert(js.drop_first() =~= json_of_entries(es.drop_first()));
        assert(all_valid_entries(js));
        assert(entries_of_json(js) == seq![entry_of_json(js[0])] + entries_of_json(
            js.drop_first(),
        ));
        assert(entries_of_json(js) =~= es);
    }
}

/// Round trip: writing a configuration as a JSON document and reading it
/// back yields the same configuration, and the written document always
/// passes schema validation.
pub proof fn lemma_config_round_trip(c: ConfigData)
    ensures
        doc_valid(json_of_config(c)),
        config_of_json(json_of_config(c)) == c,
{
    lemma_entries_round_trip(c.actions);
    reveal_strlit("terminal");
    reveal_strlit("editor");
    reveal_strlit("actions");
    assert("terminal"@.len() == 8);
    assert("editor"@.len() == 6);
    assert("actions"@.len() == 7);
    let j = json_of_config(c);
    let s = j->Object_0;
    assert forall|i: int| 0 <= i < s.len() implies top_pair_valid(
        (#[trigger] s[i]).0,
        s[i].1,
    ) by {
        if i == 0 {
        } else if i == 1 {
        } else {
            assert(s[i].0 == "actions"@);
        }
    }
    assert(obj_lookup_from(s, "terminal"@, 0) == Some(JsonData::Text(c.terminal)));
    assert(obj_lookup_from(s, "editor"@, 1) == Some(JsonData::Text(c.editor)));
    assert(obj_lookup_from(s, "editor"@, 0) == Some(JsonData::Text(c.editor)));
    assert(obj_lookup_from(s, "actions"@, 2) == Some(
        JsonData::Array(json_of_entries(c.actions)),
    ));
    assert(obj_lookup_from(s, "actions"@, 1) == obj_lookup_from(s, "actions"@, 2));
    assert(obj_lookup_from(s, "actions"@, 0) == obj_lookup_from(s, "actions"@, 1));
}

fn convert_entry(j: &JsonValue) -> (r: Entry)
    requires
        is_valid_entry(j@),
    ensures
        r@ == entry_of_json(j@),
    decreases j, 0int,
{
    let is_action = entry_is_action(j);
    match j {
        JsonValue::Object(pairs) => {
            proof {
                crate::json::lemma_pair_views_of(pairs@);
            }
            if is_action {
                let name = match obj_get(pairs, "name") {
                    Some(JsonValue::Text(s)) => s.clone(),
                    _ => unreached(),
                };
                let cmd = match obj_get(pairs, "cmd") {
                    Some(JsonValue::Text(s)) => s.clone(),
                    _ => unreached(),
                };
                Entry::Action(Action { name, cmd })
            } else {
                let name = pairs[0].0.clone();
                match &pairs[0].1 {
                    JsonValue::Array(items) => {
                        proof {
                            assert(is_group_shape(j@));
                            assert(pairs@[0].1@ == JsonData::Array(views_of(items@)));
                            assert(views_of(items@).skip(0) =~= views_of(items@));
                        }
                        let entries = convert_entries(items, 0);
                        proof {
                            lemma_entry_views_of(entries@);
                            assert(entry_views_of(entries@) =~= entries.deep_view());
                        }
                        Entry::Group(Group { name, entries })
                    },
                    _ => unreached(),
                }
            }
        },
        _ => unreached(),
    }
}

fn convert_entries(items: &Vec<JsonValue>, i: usize) -> (r: Vec<Entry>)
    requires
        i <= items@.len(),
        all_valid_entries(views_of(items@).skip(i as int)),
    ensures
        r.deep_view() == entries_of_json(views_of(items@).skip(i as int)),
    decreases items, items@.len() - i,
{
    proof {
        crate::json::lemma_views_of(items@);
    }
    let ghost vs = views_of(items@);
    if i >= items.len() {
        let r: Vec<Entry> = Vec::new();
        proof {
            assert(vs.skip(i as int) =~= Seq::<JsonData>::empty());
            assert(r.deep_view() =~= entries_of_json(vs.skip(i as int)));
        }
        return r;
    }
    proof {
        assert(vs.skip(i as int)[0] == items@[i as int]@);
    }
    let first = convert_entry(&items[i]);
    proof {
        assert(vs.skip(i as int).drop_first() =~= vs.skip(i + 1 as int));
    }
    let mut rest = convert_entries(items, i + 1);
    let mut r: Vec<Entry> = Vec::new();
    r.push(first);
    r.append(&mut rest);
    proof {
        assert(r.deep_view() =~= entries_of_json(vs.skip(i as int)));
    }
    r
}

/// Decodes a schema-valid document into the typed configuration. This step
/// cannot fail on a validated document; defaults fill the missing fields.
pub(crate) fn config_from_json(value: &JsonValue) -> (r: Config)
    requires
        doc_valid(value@),
    ensures
        r@ == config_of_json(value@),
{
    match value {
        JsonValue::Object(pairs) => {
            proof {
                reveal_strlit("terminal");
                reveal_strlit("editor");
                reveal_strlit("actions");
                crate::json::lemma_pair_views_of(pairs@);
                lemma_obj_lookup_from_mem(crate::json::pair_views_of(pairs@), "terminal"@, 0);
                lemma_obj_lookup_from_mem(crate::json::pair_views_of(pairs@), "editor"@, 0);
                lemma_obj_lookup_from_mem(crate::json::pair_views_of(pairs@), "actions"@, 0);
            }
            let ghost pv = crate::json::pair_views_of(pairs@);
            let terminal = match obj_get(pairs, "terminal") {
                Some(v) => {
                    proof {
                        assert(value@ == JsonData::Object(pv));
                        assert(obj_lookup(pv, "terminal"@) == Some(v@));
                        assert(exists|k: int|
                            0 <= k < pv.len() && (#[trigger] pv[k]) == ("terminal"@, v@));
                        let k = choose|k: int|
                            0 <= k < pv.len() && (#[trigger] pv[k]) == ("terminal"@, v@);
                        assert(value@->Object_0[k] == pv[k]);
                        assert(top_pair_valid(pv[k].0, pv[k].1));
                        assert(v@ is Text);
                    }
                    match v {
                        JsonValue::Text(s) => s.clone(),
                        _ => unreached(),
                    }
                },
                None => default_terminal(),
            };
            let editor = match obj_get(pairs, "editor") {
                Some(v) => {
                    proof {
                        let k = choose|k: int| 0 <= k < pv.len() && pv[k] == ("editor"@, v@);
                        assert(top_pair_valid(pv[k].0, pv[k].1));
                    }
                    match v {
                        JsonValue::Text(s) => s.clone(),
                        _ => unreached(),
                    }
                },
                None => default_editor(),
            };
            let actions = match obj_get(pairs, "actions") {
                Some(v) => {
                    proof {
                        assert(value@ == JsonData::Object(pv));
                        assert(obj_lookup(pv, "actions"@) == Some(v@));
                        assert(exists|k: int|
                            0 <= k < pv.len() && (#[trigger] pv[k]) == ("actions"@, v@));
                        let k = choose|k: int|
                            0 <= k < pv.len() && (#[trigger] pv[k]) == ("actions"@, v@);
                        assert(value@->Object_0[k] == pv[k]);
                        assert(top_pair_valid(pv[k].0, pv[k].1));
                        reveal_strlit("terminal");
                        reveal_strlit("editor");
                        reveal_strlit("actions");
                        assert("actions"@.len() == 7);
                        assert("terminal"@.len() == 8);
                        assert("editor"@.len() == 6);
                        assert("actions"@ != "terminal"@ && "actions"@ != "editor"@);
                        assert(v@ is Array);
                    }
                    match v {
                        JsonValue::Array(items) => {
                            proof {
                                assert(v@ == JsonData::Array(views_of(items@)));
                                assert(views_of(items@).skip(0) =~= views_of(items@));
                            }
                            convert_entries(items, 0)
                        },
                        _ => unreached(),
                    }
                },
                None => Vec::new(),
            };
            let r = Config { terminal, editor, actions };
            proof {
                lemma_entry_views_of(r.actions@);
                assert(r@.actions =~= config_of_json(value@).actions);
            }
            r
        },
        _ => unreached(),
    }
}

} // verus!
