//! The configuration of the module that tests run.

use serde_json::Value;
use vstd::prelude::*;

verus! {

#[verifier::external_type_specification]
#[verifier::external_body]
pub struct ExValue(Value);

#[verifier::external_type_specification]
#[verifier::external_body]
#[verifier::reject_recursive_types(K)]
#[verifier::reject_recursive_types(V)]
pub struct ExJsonMap<K, V>(serde_json::Map<K, V>);

/// What a JSON value holds.
pub enum Json {
    Bool(bool),
    Number(nat),
    Text(Seq<char>),
    Array(Seq<Json>),
    Object(Map<Seq<char>, Json>),
}

/// The entries of a JSON object.
pub type JsonEntries = Map<Seq<char>, Json>;

/// What a value of `serde_json` holds.
pub uninterp spec fn json(value: Value) -> Json;

/// The entries of an object of `serde_json`.
pub uninterp spec fn json_entries(object: serde_json::Map<String, Value>) -> JsonEntries;

/// `Value::from` a boolean.
#[verifier::external_body]
fn json_bool(flag: bool) -> (value: Value)
    ensures
        json(value) == Json::Bool(flag),
{
    Value::from(flag)
}

/// `Value::from` an integer.
#[verifier::external_body]
fn json_number(number: u64) -> (value: Value)
    ensures
        json(value) == Json::Number(number as nat),
{
    Value::from(number)
}

/// `Value::from` a text.
#[verifier::external_body]
fn json_text(text: &str) -> (value: Value)
    ensures
        json(value) == Json::Text(text@),
{
    Value::from(text)
}

/// `Value::from` a list of values.
#[verifier::external_body]
fn json_array(items: Vec<Value>) -> (value: Value)
    ensures
        json(value) == Json::Array(items@.map_values(|item: Value| json(item))),
{
    Value::from(items)
}

/// `Value::from` an object.
#[verifier::external_body]
fn json_object(object: serde_json::Map<String, Value>) -> (value: Value)
    ensures
        json(value) == Json::Object(json_entries(object)),
{
    Value::from(object)
}

/// `serde_json::Map::new`: an object without entries.
#[verifier::external_body]
fn new_object() -> (object: serde_json::Map<String, Value>)
    ensures
        json_entries(object) == JsonEntries::empty(),
{
    serde_json::Map::new()
}

/// `serde_json::Map::insert`: the entry is added, in place of one with the same key.
#[verifier::external_body]
fn insert(object: &mut serde_json::Map<String, Value>, key: &str, value: Value)
    ensures
        json_entries(*final(object)) == json_entries(*old(object)).insert(key@, json(value)),
{
    object.insert(key.to_owned(), value);
}

/// The configuration of the module `name`: 100 pages of memory, a logger, and a
/// system interface that gives access to `/tmp` and to nothing else.
pub open spec fn module_cfg(name: Seq<char>) -> Json {
    Json::Object(
        map![
            "name"@ => Json::Text(name),
            "mem_pages_count"@ => Json::Number(100),
            "logger_enabled"@ => Json::Bool(true),
            "wasi"@ => Json::Object(
                map![
                    "envs"@ => Json::Object(JsonEntries::empty()),
                    "preopened_files"@ => Json::Array(seq![Json::Text("/tmp"@)]),
                    "mapped_dirs"@ => Json::Object(JsonEntries::empty()),
                ],
            ),
        ],
    )
}

/// The configuration of the module `name`.
pub fn test_module_cfg(name: &str) -> (cfg: Value)
    ensures
        json(cfg) == module_cfg(name@),
{
    let mut files: Vec<Value> = Vec::new();
    files.push(json_text("/tmp"));
    assert(files@.map_values(|item: Value| json(item)) == seq![Json::Text("/tmp"@)]);
    let mut wasi = new_object();
    insert(&mut wasi, "envs", json_object(new_object()));
    insert(&mut wasi, "preopened_files", json_array(files));
    insert(&mut wasi, "mapped_dirs", json_object(new_object()));
    let mut cfg = new_object();
    insert(&mut cfg, "name", json_text(name));
    insert(&mut cfg, "mem_pages_count", json_number(100));
    insert(&mut cfg, "logger_enabled", json_bool(true));
    insert(&mut cfg, "wasi", json_object(wasi));
    json_object(cfg)
}

/// The entry `name` of a configuration is the name of its module, so that different
/// modules have different configurations.
pub proof fn law_cfg_tells_name(name: Seq<char>, other: Seq<char>)
    ensures
        module_cfg(name)->Object_0.contains_key("name"@),
        module_cfg(name)->Object_0["name"@] == Json::Text(name),
        module_cfg(name) == module_cfg(other) ==> name == other,
{
    reveal_strlit("name");
    reveal_strlit("mem_pages_count");
    reveal_strlit("logger_enabled");
    reveal_strlit("wasi");
    assert("name"@.len() != "mem_pages_count"@.len());
    assert("name"@.len() != "logger_enabled"@.len());
    assert("name"@[0] != "wasi"@[0]);
    assert(module_cfg(other)->Object_0["name"@] == Json::Text(other));
}

/// Every configuration has the same four entries: the name of the module, 100 pages of
/// memory, a logger, and a system interface of three entries, with `/tmp` opened and no
/// environment and no other directory.
pub proof fn law_cfg_entries(name: &str, cfg: Value)
    requires
        call_ensures(test_module_cfg, (name,), cfg),
    ensures
        json(cfg) matches Json::Object(entries) && {
            &&& entries.dom() == set!["name"@, "mem_pages_count"@, "logger_enabled"@, "wasi"@]
            &&& entries["name"@] == Json::Text(name@)
            &&& entries["mem_pages_count"@] == Json::Number(100)
            &&& entries["logger_enabled"@] == Json::Bool(true)
            &&& entries["wasi"@] matches Json::Object(wasi) && {
                &&& wasi.dom() == set!["envs"@, "preopened_files"@, "mapped_dirs"@]
                &&& wasi["envs"@] == Json::Object(JsonEntries::empty())
                &&& wasi["mapped_dirs"@] == Json::Object(JsonEntries::empty())
                &&& wasi["preopened_files"@] matches Json::Array(files) && files.len() == 1
                    && files[0] == Json::Text("/tmp"@)
            }
        },
{
    reveal_strlit("name");
    reveal_strlit("mem_pages_count");
    reveal_strlit("logger_enabled");
    reveal_strlit("wasi");
    reveal_strlit("envs");
    reveal_strlit("preopened_files");
    reveal_strlit("mapped_dirs");
    assert("name"@[0] != "mem_pages_count"@[0]);
    assert("name"@[0] != "logger_enabled"@[0]);
    assert("name"@[0] != "wasi"@[0]);
    assert("mem_pages_count"@[0] != "logger_enabled"@[0]);
    assert("mem_pages_count"@[0] != "wasi"@[0]);
    assert("logger_enabled"@[0] != "wasi"@[0]);
    assert("envs"@[0] != "preopened_files"@[0]);
    assert("envs"@[0] != "mapped_dirs"@[0]);
    assert("preopened_files"@[0] != "mapped_dirs"@[0]);
    let entries = json(cfg)->Object_0;
    assert(entries.dom() =~= set!["name"@, "mem_pages_count"@, "logger_enabled"@, "wasi"@]);
    let wasi = entries["wasi"@]->Object_0;
    assert(wasi.dom() =~= set!["envs"@, "preopened_files"@, "mapped_dirs"@]);
}

/// The configurations of two modules differ in the entry `name` and in nothing else.
pub proof fn law_cfgs_differ_in_name_only(name: &str, cfg: Value, other: &str, other_cfg: Value)
    requires
        call_ensures(test_module_cfg, (name,), cfg),
        call_ensures(test_module_cfg, (other,), other_cfg),
    ensures
        json(cfg) is Object,
        json(other_cfg) is Object,
        json(cfg)->Object_0.remove("name"@) == json(other_cfg)->Object_0.remove("name"@),
        json(cfg) == json(other_cfg) <==> name@ == other@,
{
    law_cfg_tells_name(name@, other@);
    let entries = json(cfg)->Object_0;
    let others = json(other_cfg)->Object_0;
    assert(entries.remove("name"@) =~= others.remove("name"@));
}

} // verus!
