use vstd::prelude::*;
use vstd::string::StringExecFns;

use crate::plugin_loader::{PluginConfigError, PluginSection};

verus! {

/// A TOML value as the configuration reading looks at it: booleans, integers, strings,
/// arrays and tables (their entries in the order the parser hands them out); any other value
/// (a float or a date) is `Other`.
#[derive(Debug)]
pub enum TomlValue {
    Bool(bool),
    Integer(i64),
    Text(String),
    Array(Vec<TomlValue>),
    Table(Vec<(String, TomlValue)>),
    Other,
}

/// A value of the `toml` crate, carried through opaque.
#[verifier::external_type_specification]
#[verifier::external_body]
pub struct ExTomlValue(toml::Value);

/// What the `toml` crate reads from the text of a document: its top-level value, or the text
/// of the parse error.
pub uninterp spec fn toml_document(text: Seq<char>) -> Result<TomlValue, Seq<char>>;

/// `text.parse::<toml::Value>()` of the `toml` crate, its outcome taken apart by
/// `toml_to_plain`: the document's value, or the `Display` text of the parse error. The result
/// is a function of the text alone (the crate's tables are ordered maps), so it is named.
#[verifier::external_body]
fn parse_toml(text: &str) -> (r: Result<TomlValue, String>)
    ensures
        match r {
            Ok(v) => toml_document(text@) == Ok::<TomlValue, Seq<char>>(v),
            Err(e) => toml_document(text@) == Err::<TomlValue, Seq<char>>(e@),
        },
{
    match text.parse::<toml::Value>() {
        Ok(v) => Ok(toml_to_plain(&v)),
        Err(e) => Err(e.to_string()),
    }
}

/// Converts a `toml::Value` variant by variant, the entries of a table in the map's order;
/// only `parse_toml` calls it, and its contract covers what comes out.
#[verifier::external_body]
fn toml_to_plain(v: &toml::Value) -> TomlValue {
    match v {
        toml::Value::Boolean(b) => TomlValue::Bool(*b),
        toml::Value::Integer(i) => TomlValue::Integer(*i),
        toml::Value::String(s) => TomlValue::Text(s.clone()),
        toml::Value::Array(a) => TomlValue::Array(a.iter().map(toml_to_plain).collect()),
        toml::Value::Table(t) => TomlValue::Table(t.iter().map(|(k, x)| (k.clone(), toml_to_plain(x))).collect()),
        _ => TomlValue::Other,
    }
}

/// The value of the first entry of `fields` named `key`.
pub open spec fn table_get(fields: Seq<(String, TomlValue)>, key: Seq<char>) -> Option<TomlValue>
    decreases fields.len(),
{
    if fields.len() == 0 {
        None
    } else if fields[0].0@ == key {
        Some(fields[0].1)
    } else {
        table_get(fields.drop_first(), key)
    }
}

/// A value read as a boolean.
pub open spec fn as_bool(v: Option<TomlValue>) -> Option<bool> {
    match v {
        Some(TomlValue::Bool(b)) => Some(b),
        _ => None,
    }
}

/// A value read as an integer.
pub open spec fn as_integer(v: Option<TomlValue>) -> Option<i64> {
    match v {
        Some(TomlValue::Integer(i)) => Some(i),
        _ => None,
    }
}

/// A value read as a string.
pub open spec fn as_text(v: Option<TomlValue>) -> Option<Seq<char>> {
    match v {
        Some(TomlValue::Text(s)) => Some(s@),
        _ => None,
    }
}

/// The elements of an array, each read as a string.
pub open spec fn texts_of(items: Seq<TomlValue>) -> Seq<Option<Seq<char>>> {
    items.map_values(|x: TomlValue| as_text(Some(x)))
}

/// The strings of a `depend` field, taken by their views.
pub open spec fn depend_view(d: Option<Vec<Option<String>>>) -> Option<Seq<Option<Seq<char>>>> {
    match d {
        Some(v) => Some(v@.map_values(|x: Option<String>| match x {
            Some(s) => Some(s@),
            None => None,
        })),
        None => None,
    }
}

/// The section read from the entry `name = value` of the `plugins` table: whether the value
/// is a table, and its fields `enable`, `path`, `order`, `reload`, `system`, `required` and
/// `depend`, each when it has the right type.
pub open spec fn section_read(s: PluginSection, name: String, value: TomlValue) -> bool {
    let fields = match value {
        TomlValue::Table(f) => f@,
        _ => Seq::empty(),
    };
    &&& s.name@ == name@
    &&& s.is_table == (value is Table)
    &&& s.enable == as_bool(table_get(fields, "enable"@))
    &&& match s.path {
        Some(p) => as_text(table_get(fields, "path"@)) == Some(p@),
        None => as_text(table_get(fields, "path"@)) is None,
    }
    &&& s.order == as_integer(table_get(fields, "order"@))
    &&& s.reload == as_bool(table_get(fields, "reload"@))
    &&& s.system == as_bool(table_get(fields, "system"@))
    &&& s.required == as_bool(table_get(fields, "required"@))
    &&& depend_view(s.depend) == match table_get(fields, "depend"@) {
        Some(TomlValue::Array(items)) => Some(texts_of(items@)),
        _ => None,
    }
}

/// The entries of every top-level table named `plugins`, in order.
pub open spec fn plugin_entries(top: Seq<(String, TomlValue)>) -> Seq<(String, TomlValue)>
    decreases top.len(),
{
    if top.len() == 0 {
        Seq::empty()
    } else {
        (match top[0].1 {
            TomlValue::Table(entries) => if top[0].0@ == "plugins"@ { entries@ } else { Seq::empty() },
            _ => Seq::empty(),
        }) + plugin_entries(top.drop_first())
    }
}

/// Whether `r` is what reading the document `doc` gives: the sections read from the entries
/// of its `plugins` table, in order; an error when the document is not a table.
pub open spec fn sections_outcome(doc: TomlValue, r: Result<Vec<PluginSection>, PluginConfigError>) -> bool {
    match doc {
        TomlValue::Table(top) => r matches Ok(ss) && ss@.len() == plugin_entries(top@).len()
            && forall|i: int| 0 <= i < ss@.len() ==> section_read(#[trigger] ss@[i], plugin_entries(top@)[i].0, plugin_entries(top@)[i].1),
        _ => r matches Err(PluginConfigError::ParsingError { error }) && error@ == "Top-level TOML is not a table"@,
    }
}

/// The value of the first entry of `fields` named `key`.
fn field<'a>(fields: &'a Vec<(String, TomlValue)>, key: &String) -> (r: Option<&'a TomlValue>)
    ensures
        match table_get(fields@, key@) {
            Some(v) => r == Some(&v),
            None => r is None,
        },
{
    let mut i: usize = 0;
    assert(fields@.skip(0) =~= fields@);
    while i < fields.len()
        invariant
            i <= fields@.len(),
            table_get(fields@, key@) == table_get(fields@.skip(i as int), key@),
        decreases fields@.len() - i,
    {
        assert(fields@.skip(i as int).drop_first() =~= fields@.skip(i as int + 1));
        assert(fields@.skip(i as int)[0] == fields@[i as int]);
        if fields[i].0 == *key {
            return Some(&fields[i].1);
        }
        i = i + 1;
    }
    assert(fields@.skip(i as int) =~= Seq::<(String, TomlValue)>::empty());
    None
}

fn bool_of(v: Option<&TomlValue>) -> (r: Option<bool>)
    ensures
        r == as_bool(match v { Some(x) => Some(*x), None => None }),
{
    match v {
        Some(TomlValue::Bool(b)) => Some(*b),
        _ => None,
    }
}

fn text_of(v: Option<&TomlValue>) -> (r: Option<String>)
    ensures
        match r {
            Some(s) => as_text(match v { Some(x) => Some(*x), None => None }) == Some(s@),
            None => as_text(match v { Some(x) => Some(*x), None => None }) is None,
        },
{
    match v {
        Some(TomlValue::Text(s)) => Some(s.clone()),
        _ => None,
    }
}

/// The elements of `items`, each read as a string.
fn texts(items: &Vec<TomlValue>) -> (r: Vec<Option<String>>)
    ensures
        depend_view(Some(r)) == Some(texts_of(items@)),
{
    let mut out: Vec<Option<String>> = Vec::new();
    let mut i: usize = 0;
    while i < items.len()
        invariant
            i <= items@.len(),
            depend_view(Some(out)) == Some(texts_of(items@.take(i as int))),
        decreases items@.len() - i,
    {
        let t = text_of(Some(&items[i]));
        let ghost before = out@;
        out.push(t);
        proof {
            assert(texts_of(items@.take(i as int + 1)) =~= texts_of(items@.take(i as int)).push(as_text(Some(items@[i as int]))));
            assert(depend_view(Some(out))->0 =~= depend_view(Some(out))->0);
        }
        assert(depend_view(Some(out)) == Some(texts_of(items@.take(i as int + 1))));
        i = i + 1;
    }
    assert(items@.take(items@.len() as int) =~= items@);
    out
}

/// The section read from the entry `name = value` of the `plugins` table (see
/// `section_read`).
fn read_section(name: &String, value: &TomlValue) -> (s: PluginSection)
    ensures
        section_read(s, *name, *value),
{
    let empty: Vec<(String, TomlValue)> = Vec::new();
    let (is_table, fields): (bool, &Vec<(String, TomlValue)>) = match value {
        TomlValue::Table(f) => (true, f),
        _ => (false, &empty),
    };
    assert(fields@ == match *value { TomlValue::Table(f) => f@, _ => Seq::<(String, TomlValue)>::empty() });
    let order: Option<i64> = match field(fields, &String::from_str("order")) {
        Some(TomlValue::Integer(i)) => Some(*i),
        _ => None,
    };
    let depend: Option<Vec<Option<String>>> = match field(fields, &String::from_str("depend")) {
        Some(TomlValue::Array(items)) => Some(texts(items)),
        _ => None,
    };
    proof {
        reveal_strlit("enable");
        reveal_strlit("path");
        reveal_strlit("order");
        reveal_strlit("reload");
        reveal_strlit("system");
        reveal_strlit("required");
        reveal_strlit("depend");
    }
    PluginSection {
        name: name.clone(),
        is_table,
        enable: bool_of(field(fields, &String::from_str("enable"))),
        path: text_of(field(fields, &String::from_str("path"))),
        order,
        reload: bool_of(field(fields, &String::from_str("reload"))),
        system: bool_of(field(fields, &String::from_str("system"))),
        required: bool_of(field(fields, &String::from_str("required"))),
        depend,
    }
}

/// The sections of the `plugins` table of a parsed configuration document, in order (see
/// `sections_outcome`).
pub fn plugin_sections(doc: &TomlValue) -> (r: Result<Vec<PluginSection>, PluginConfigError>)
    ensures
        sections_outcome(*doc, r),
{
    proof {
        reveal_strlit("Top-level TOML is not a table");
        reveal_strlit("plugins");
    }
    let top = match doc {
        TomlValue::Table(t) => t,
        _ => {
            return Err(PluginConfigError::ParsingError { error: String::from_str("Top-level TOML is not a table") });
        },
    };
    let plugins = String::from_str("plugins");
    let mut sections: Vec<PluginSection> = Vec::new();
    let ghost mut done: Seq<(String, TomlValue)> = Seq::empty();
    let mut i: usize = 0;
    assert(top@.skip(0) =~= top@);
    while i < top.len()
        invariant
            i <= top@.len(),
            plugins@ == "plugins"@,
            plugin_entries(top@) == done + plugin_entries(top@.skip(i as int)),
            sections@.len() == done.len(),
            forall|k: int| 0 <= k < sections@.len() ==> section_read(#[trigger] sections@[k], done[k].0, done[k].1),
        decreases top@.len() - i,
    {
        assert(top@.skip(i as int).drop_first() =~= top@.skip(i as int + 1));
        assert(top@.skip(i as int)[0] == top@[i as int]);
        let entry = &top[i];
        let ghost here: Seq<(String, TomlValue)> = match top@[i as int].1 {
            TomlValue::Table(entries) => if top@[i as int].0@ == "plugins"@ { entries@ } else { Seq::empty() },
            _ => Seq::empty(),
        };
        let ghost old_len = done.len();
        if entry.0 == plugins {
            match &entry.1 {
                TomlValue::Table(entries) => {
                    let mut j: usize = 0;
                    while j < entries.len()
                        invariant
                            j <= entries@.len(),
                            here == entries@,
                            sections@.len() == done.len() + j,
                            forall|k: int| 0 <= k < done.len() ==> section_read(#[trigger] sections@[k], done[k].0, done[k].1),
                            forall|k: int| 0 <= k < j ==> section_read(#[trigger] sections@[done.len() + k], entries@[k].0, entries@[k].1),
                        decreases entries@.len() - j,
                    {
                        let s = read_section(&entries[j].0, &entries[j].1);
                        sections.push(s);
                        j = j + 1;
                    }
                },
                _ => {
                    assert(here =~= Seq::<(String, TomlValue)>::empty());
                },
            }
        } else {
            assert(here =~= Seq::<(String, TomlValue)>::empty());
        }
        assert(sections@.len() == old_len + here.len());
        assert(forall|m: int| 0 <= m < here.len() ==> section_read(#[trigger] sections@[old_len + m], here[m].0, here[m].1));
        proof {
            assert(plugin_entries(top@.skip(i as int)) == here + plugin_entries(top@.skip(i as int + 1)));
            done = done + here;
            assert forall|k: int| 0 <= k < sections@.len() implies section_read(#[trigger] sections@[k], done[k].0, done[k].1) by {
                if k >= old_len {
                    assert(done[k] == here[k - old_len]);
                    assert(sections@[old_len + (k - old_len)] == sections@[k]);
                }
            }
            assert(plugin_entries(top@) =~= done + plugin_entries(top@.skip(i as int + 1)));
        }
        i = i + 1;
    }
    assert(plugin_entries(top@.skip(i as int)) =~= Seq::<(String, TomlValue)>::empty());
    assert(done =~= plugin_entries(top@));
    Ok(sections)
}

/// What reading the text of a configuration file gives (see `sections_outcome`): a text that
/// is not TOML is refused with the parser's error text.
pub open spec fn text_outcome(text: Seq<char>, r: Result<Vec<PluginSection>, PluginConfigError>) -> bool {
    match toml_document(text) {
        Ok(doc) => sections_outcome(doc, r),
        Err(e) => r matches Err(PluginConfigError::ParsingError { error }) && error@ == e,
    }
}

/// Reads the sections of the `plugins` table from the text of a configuration file.
pub fn plugin_sections_from_text(text: &str) -> (r: Result<Vec<PluginSection>, PluginConfigError>)
    ensures
        text_outcome(text@, r),
{
    match parse_toml(text) {
        Ok(doc) => plugin_sections(&doc),
        Err(e) => Err(PluginConfigError::ParsingError { error: e }),
    }
}

} // verus!
