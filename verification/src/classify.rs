//! Where a file goes: by the rule table first, by the script otherwise.

use vstd::prelude::*;
use vstd::string::*;
use crate::paths::{extension, extension_of, EXTENSION_SEPARATOR};
use crate::text::text_of;
use crate::rules::RuleMap;
use crate::script::evaluate_script;

verus! {

/// The key under which the table holds the rule for an extension: the
/// extension behind its separator.
pub open spec fn rule_key_of(extension: Seq<char>) -> Seq<char> {
    seq![EXTENSION_SEPARATOR] + extension
}

/// The destination that the table gives the file at `path`: the one under
/// the key of its extension. None for a file without extension.
pub open spec fn static_destination_of(
    path: Seq<char>,
    rules: Map<Seq<char>, Seq<char>>,
) -> Option<Seq<char>> {
    match extension_of(path) {
        Some(extension) => if rules.contains_key(rule_key_of(extension)) {
            Some(rules[rule_key_of(extension)])
        } else {
            None
        },
        None => None,
    }
}

/// The destination of the file at `path`, given what the script said of
/// it: the table's, if it has one; the script's otherwise.
pub open spec fn destination_of(
    path: Seq<char>,
    rules: Map<Seq<char>, Seq<char>>,
    dynamic: Option<Seq<char>>,
) -> Option<Seq<char>> {
    match static_destination_of(path, rules) {
        Some(destination) => Some(destination),
        None => dynamic,
    }
}

/// The table decides alone wherever it has a rule for the file's
/// extension: no answer of the script changes the destination.
pub proof fn lemma_static_precedence(
    path: Seq<char>,
    rules: Map<Seq<char>, Seq<char>>,
    extension: Seq<char>,
    dynamic: Option<Seq<char>>,
)
    requires
        extension_of(path) == Some(extension),
        rules.contains_key(rule_key_of(extension)),
    ensures
        destination_of(path, rules, dynamic) == Some(rules[rule_key_of(extension)]),
{
}

/// A file that the table has no rule for, and that no script speaks for,
/// has no destination.
pub proof fn lemma_unmatched_stays(path: Seq<char>, rules: Map<Seq<char>, Seq<char>>)
    requires
        static_destination_of(path, rules) is None,
    ensures
        destination_of(path, rules, None) is None,
{
}

/// Builds the lookup key of an extension.
pub fn rule_key(extension: &str) -> (key: String)
    ensures
        key@ == rule_key_of(extension@),
{
    proof {
        reveal_strlit(".");
    }
    let mut key = String::from_str(".");
    assert(key@ =~= seq![EXTENSION_SEPARATOR]);
    key.append(extension);
    key
}

/// Looks the file at `file_path` up in the table.
pub fn static_destination(file_path: &str, rules: &RuleMap) -> (destination: Option<String>)
    ensures
        text_of(destination) == static_destination_of(file_path@, rules@),
{
    match extension(file_path) {
        Some(ext) => {
            let key = rule_key(ext.as_str());
            match rules.get(key.as_str()) {
                Some(destination) => Some(destination.clone()),
                None => None,
            }
        },
        None => None,
    }
}

/// Settles the destination of the file at `file_path`, given what the
/// script said of it.
pub fn classify(file_path: &str, rules: &RuleMap, dynamic: Option<String>) -> (destination:
    Option<String>)
    ensures
        text_of(destination) == destination_of(file_path@, rules@, text_of(dynamic)),
{
    match static_destination(file_path, rules) {
        Some(destination) => Some(destination),
        None => dynamic,
    }
}

/// Settles the destination of the file at `file_path`: the table's rule for
/// its extension, or else what the script returns for the path. The script
/// is not consulted where the table has a rule.
pub fn apply_rules(
    file_path: &str,
    rules: &RuleMap,
    lua: &mlua::Lua,
    script: Option<&str>,
) -> (destination: Option<String>)
    ensures
        static_destination_of(file_path@, rules@) is Some ==> text_of(destination)
            == static_destination_of(file_path@, rules@),
        script is None ==> text_of(destination) == static_destination_of(file_path@, rules@),
        exists|dynamic: Option<Seq<char>>|
            text_of(destination) == #[trigger] destination_of(file_path@, rules@, dynamic),
{
    match static_destination(file_path, rules) {
        Some(destination) => {
            assert(text_of(Some(destination)) == destination_of(file_path@, rules@, None));
            Some(destination)
        },
        None => {
            let dynamic = evaluate_script(lua, script, file_path);
            assert(text_of(dynamic) == destination_of(file_path@, rules@, text_of(dynamic)));
            dynamic
        },
    }
}

} // verus!
