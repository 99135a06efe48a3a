use serde_json::Value;
use swarm_kit::module_cfg::test_module_cfg;

fn object(entries: Vec<(&str, Value)>) -> Value {
    let mut object: serde_json::Map<String, Value> = serde_json::Map::new();
    for (key, value) in entries {
        object.insert(key.to_string(), value);
    }
    Value::Object(object)
}

#[test]
fn module_cfg_has_all_entries() {
    let wasi = object(vec![
        ("envs", object(vec![])),
        ("preopened_files", Value::Array(vec![Value::String("/tmp".to_string())])),
        ("mapped_dirs", object(vec![])),
    ]);
    let expected = object(vec![
        ("name", Value::String("greeting".to_string())),
        ("mem_pages_count", Value::from(100)),
        ("logger_enabled", Value::Bool(true)),
        ("wasi", wasi),
    ]);
    assert_eq!(test_module_cfg("greeting"), expected);
}

#[test]
fn module_cfg_tells_the_module() {
    assert_ne!(test_module_cfg("a"), test_module_cfg("b"));
    assert_eq!(test_module_cfg("")["name"], Value::String(String::new()));
    assert_eq!(
        test_module_cfg("x").to_string(),
        "{\"logger_enabled\":true,\"mem_pages_count\":100,\"name\":\"x\",\"wasi\":\
         {\"envs\":{},\"mapped_dirs\":{},\"preopened_files\":[\"/tmp\"]}}"
    );
}
