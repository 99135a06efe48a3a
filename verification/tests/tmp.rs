use swarm_kit::tmp::{interpreter_file, interpreter_file_name, make_tmp_dir};
use swarm_kit::tmp::{name_of, random_name};
use swarm_kit::tmp::{ARTIFACTS_DIR, TEST_MODULE};

#[test]
fn random_name_is_sixteen_letters_and_digits() {
    let name = random_name();
    assert_eq!(name.len(), 16);
    assert!(name.chars().all(|c| c.is_ascii_alphanumeric()));
}

#[test]
fn tmp_dirs_are_below_one_parent_and_differ() {
    let one = make_tmp_dir();
    let other = make_tmp_dir();
    assert_eq!(one.len(), 2);
    assert_eq!(one[0], "fluence_test");
    assert_eq!(other[0], "fluence_test");
    assert_ne!(one[1], other[1]);
}

#[test]
fn interpreter_file_holds_the_version() {
    assert_eq!(interpreter_file_name("0.7.3"), "aquamarine_0.7.3.wasm");
    assert_eq!(interpreter_file_name(""), "aquamarine_.wasm");
    assert_eq!(
        interpreter_file(),
        format!("aquamarine_{}.wasm", air_interpreter_wasm::VERSION)
    );
}

#[test]
fn test_module_has_its_place() {
    assert_eq!(ARTIFACTS_DIR, "../crates/test-utils/artifacts");
    assert_eq!(TEST_MODULE, "greeting.wasm");
}

#[test]
fn characters_spell_their_name() {
    assert_eq!(name_of(&vec!['a', 'B', '7', 'a']), "aB7a");
    assert_eq!(name_of(&vec![]), "");
}
