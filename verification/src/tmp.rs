//! Names of the directories and files that a test node works with.

use rand::distributions::Alphanumeric;
use rand::Rng;
use vstd::prelude::*;

verus! {

/// The directory, below the system's own directory for temporary files, that
/// holds the directories of all nodes.
pub const TMP_PARENT: &'static str = "fluence_test";

/// How many characters a random directory name has.
pub const TMP_NAME_LEN: usize = 16;

/// A letter or digit of ASCII.
pub open spec fn is_alphanumeric(c: char) -> bool {
    ('0' <= c && c <= '9') || ('A' <= c && c <= 'Z') || ('a' <= c && c <= 'z')
}

/// `thread_rng().sample_iter(Alphanumeric)`: letters or digits of ASCII, one draw after the
/// other, of which the first `n` are given out in order.
#[verifier::external_body]
fn random_alphanumeric(n: usize) -> (characters: Vec<char>)
    requires
        4 * n <= isize::MAX,
    ensures
        characters@.len() == n,
        forall|i: int| 0 <= i < n ==> is_alphanumeric(#[trigger] characters@[i]),
{
    rand::thread_rng().sample_iter(Alphanumeric).take(n).collect()
}

/// `characters` came out of the random generator of letters and digits in one run: one
/// draw for each, in order, none thrown away and none used twice.
pub closed spec fn sampled_in_one_run(characters: Seq<char>) -> bool {
    exists|run: Vec<char>|
        {
            &&& #[trigger] call_ensures(
                random_alphanumeric,
                (characters.len() as usize,),
                run,
            )
            &&& run@ == characters
        }
}

/// `c` came out of the random generator of letters and digits.
pub open spec fn sampled(c: char) -> bool {
    exists|run: Seq<char>| #[trigger] sampled_in_one_run(run) && run.contains(c)
}

/// `String::push`: the character goes to the end.
pub assume_specification[ String::push ](s: &mut String, c: char)
    ensures
        final(s)@ == old(s)@.push(c),
;

/// `name` is a random name: sixteen letters or digits, drawn at random in one run.
pub open spec fn is_random_name(name: Seq<char>) -> bool {
    &&& name.len() == TMP_NAME_LEN
    &&& sampled_in_one_run(name)
    &&& forall|i: int|
        0 <= i < name.len() ==> is_alphanumeric(#[trigger] name[i]) && sampled(name[i])
}

/// The name that drawn characters spell.
pub fn name_of(characters: &Vec<char>) -> (name: String)
    ensures
        name@ == characters@,
{
    let mut name = String::new();
    let mut i: usize = 0;
    while i < characters.len()
        invariant
            i <= characters@.len(),
            name@ == characters@.take(i as int),
        decreases characters@.len() - i,
    {
        name.push(characters[i]);
        i = i + 1;
        assert(characters@.take(i as int) == characters@.take(i - 1).push(characters@[i - 1]));
    }
    assert(characters@.take(i as int) == characters@);
    name
}

/// A fresh name for a directory.
pub fn random_name() -> (name: String)
    ensures
        is_random_name(name@),
{
    let characters = random_alphanumeric(TMP_NAME_LEN);
    assert(call_ensures(random_alphanumeric, (characters@.len() as usize,), characters));
    assert(sampled_in_one_run(characters@));
    assert forall|i: int| 0 <= i < characters@.len() implies sampled(
        #[trigger] characters@[i],
    ) by {
        assert(characters@.contains(characters@[i]));
    }
    name_of(&characters)
}

/// Where a node without a directory of its own gets one: the names to go down,
/// one by one, from the system's directory for temporary files.
pub fn make_tmp_dir() -> (names: Vec<String>)
    ensures
        names@.len() == 2,
        names@[0]@ == TMP_PARENT@,
        is_random_name(names@[1]@),
{
    let mut names: Vec<String> = Vec::new();
    names.push(TMP_PARENT.to_owned());
    names.push(random_name());
    names
}

/// `air_interpreter_wasm::VERSION`: the version of the interpreter at hand. Nothing
/// is said of which version that is.
#[verifier::external_body]
fn interpreter_version() -> (version: &'static str)
{
    air_interpreter_wasm::VERSION
}

/// `version` is the version of the interpreter at hand.
pub closed spec fn current_version(version: &'static str) -> bool {
    call_ensures(interpreter_version, (), version)
}

/// The name of the file that holds the interpreter of the given version.
pub fn interpreter_file_name(version: &str) -> (name: String)
    ensures
        name@ == "aquamarine_"@ + version@ + ".wasm"@,
{
    let mut name = "aquamarine_".to_owned();
    name.append(version);
    name.append(".wasm");
    name
}

/// The name of the file that the interpreter at hand is put into.
pub fn interpreter_file() -> (name: String)
    ensures
        exists|version: &'static str| #[trigger]
            current_version(version) && name@ == "aquamarine_"@ + version@ + ".wasm"@,
{
    let version = interpreter_version();
    assert(current_version(version));
    interpreter_file_name(version)
}

/// The directory of the test modules, relative to that of the tests.
pub const ARTIFACTS_DIR: &'static str = "../crates/test-utils/artifacts";

/// The file of the test module.
pub const TEST_MODULE: &'static str = "greeting.wasm";

/// The name of an interpreter's file holds its version between the same two texts, so that
/// different versions have different files.
pub proof fn law_file_name_tells_version(
    version: &str,
    name: String,
    other: &str,
    other_name: String,
)
    requires
        call_ensures(interpreter_file_name, (version,), name),
        call_ensures(interpreter_file_name, (other,), other_name),
    ensures
        name@.len() == version@.len() + 16,
        name@.take(11) == "aquamarine_"@,
        name@.subrange(11, 11 + version@.len() as int) == version@,
        name@.skip(11 + version@.len() as int) == ".wasm"@,
        name@ == other_name@ <==> version@ == other@,
{
    reveal_strlit("aquamarine_");
    reveal_strlit(".wasm");
    assert(name@.take(11) =~= "aquamarine_"@);
    assert(name@.subrange(11, 11 + version@.len() as int) =~= version@);
    assert(other_name@.subrange(11, 11 + other@.len() as int) =~= other@);
    assert(name@.skip(11 + version@.len() as int) =~= ".wasm"@);
}

} // verus!
