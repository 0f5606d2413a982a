//! Reading the rule table from its JSON document.

use vstd::prelude::*;
use vstd::string::*;
use crate::text::str_text;
use crate::rules::{RuleMap, define_default_rules, default_rules, pairs_map};

verus! {

/// A JSON value, as far as the rule table needs it: numbers keep no digits.
/// The members of an object stand in the order in which the parser hands
/// them out.
#[derive(Debug)]
pub enum Json {
    Null,
    Bool(bool),
    Number,
    Text(String),
    Array(Vec<Json>),
    Object(Vec<(String, Json)>),
}

/// `serde_json::Value`, a parsed JSON value. Opaque here: `json_model`
/// names what it holds.
#[verifier::external_type_specification]
#[verifier::external_body]
pub struct ExJsonValue(serde_json::Value);

/// `serde_json::Error`, why a text is not one JSON document. Opaque here.
#[verifier::external_type_specification]
#[verifier::external_body]
pub struct ExJsonError(serde_json::Error);

/// What a parsed value holds.
pub uninterp spec fn json_model(value: serde_json::Value) -> Json;

/// The value that a text denotes; `None` for a text that is not one JSON
/// document.
pub uninterp spec fn json_text(text: Seq<char>) -> Option<Json>;

/// Parses one JSON document.
///
/// Trusted: calls `serde_json::from_str` at the type `serde_json::Value`.
/// The contract only names the outcome: a text that parses denotes what the
/// parsed value holds, and a text that is refused denotes nothing.
#[verifier::external_body]
fn parse_value(text: &str) -> (parsed: Result<serde_json::Value, serde_json::Error>)
    ensures
        match parsed {
            Ok(value) => json_text(text@) == Some(json_model(value)),
            Err(_) => json_text(text@) is None,
        },
{
    serde_json::from_str::<serde_json::Value>(text)
}

/// Hands out what a parsed value holds.
///
/// Trusted: tells the six variants of `serde_json::Value` apart and moves
/// their fields over, member by member; a number's digits are dropped.
#[verifier::external_body]
fn model_of(value: serde_json::Value) -> (json: Json)
    ensures
        json == json_model(value),
{
    match value {
        serde_json::Value::Null => Json::Null,
        serde_json::Value::Bool(b) => Json::Bool(b),
        serde_json::Value::Number(_) => Json::Number,
        serde_json::Value::String(s) => Json::Text(s),
        serde_json::Value::Array(items) => Json::Array(items.into_iter().map(model_of).collect()),
        serde_json::Value::Object(members) => Json::Object(
            members.into_iter().map(|(name, member)| (name, model_of(member))).collect(),
        ),
    }
}

/// Parses one JSON document into a value of this library.
pub fn parse_json(text: &str) -> (json: Option<Json>)
    ensures
        json == json_text(text@),
{
    match parse_value(text) {
        Ok(value) => Some(model_of(value)),
        Err(_) => None,
    }
}

/// The member of an object that is called `name`: the last one, should
/// there be several.
pub open spec fn member(members: Seq<(String, Json)>, name: Seq<char>) -> Option<Json>
    decreases members.len(),
{
    if members.len() == 0 {
        None
    } else if members.last().0@ == name {
        Some(members.last().1)
    } else {
        member(members.drop_last(), name)
    }
}

/// Whether every member is a text.
pub open spec fn all_text(members: Seq<(String, Json)>) -> bool {
    forall|i: int| 0 <= i < members.len() ==> (#[trigger] members[i]).1 is Text
}

/// The members of an object of texts, as pairs of key and value.
pub open spec fn text_pairs(members: Seq<(String, Json)>) -> Seq<(Seq<char>, Seq<char>)> {
    Seq::new(members.len(), |i: int| (members[i].0@, members[i].1->Text_0@))
}

/// The name of the member that holds the rules.
pub open spec fn rules_member() -> Seq<char> {
    "rules"@
}

/// The rule table that a document holds: the document is an object, its
/// member `rules` is an object too, and each member of that one is a text,
/// the destination for the extension that the member's name gives. Other
/// members of the document do not count. Any other document holds no
/// table.
pub open spec fn json_rules(document: Json) -> Option<Map<Seq<char>, Seq<char>>> {
    match document {
        Json::Object(members) => match member(members@, rules_member()) {
            Some(Json::Object(rules)) => if all_text(rules@) {
                Some(pairs_map(text_pairs(rules@)))
            } else {
                None
            },
            _ => None,
        },
        _ => None,
    }
}

/// Looks up the member of an object that is called `name`.
pub fn find_member<'a>(members: &'a Vec<(String, Json)>, name: &str) -> (found: Option<&'a Json>)
    ensures
        match found {
            Some(json) => member(members@, name@) == Some(*json),
            None => member(members@, name@) is None,
        },
{
    let wanted = name.to_owned();
    let n: usize = members.len();
    let mut i: usize = n;
    assert(members@.subrange(0, n as int) =~= members@);
    while i > 0
        invariant
            i <= n,
            n == members@.len(),
            wanted@ == name@,
            member(members@, name@) == member(members@.subrange(0, i as int), name@),
        decreases i,
    {
        i = i - 1;
        let ghost front = members@.subrange(0, i + 1);
        assert(front.drop_last() =~= members@.subrange(0, i as int));
        assert(front.last() == members@[i as int]);
        if members[i].0 == wanted {
            return Some(&members[i].1);
        }
    }
    None
}

/// Reads the rule table out of a document.
pub fn rules_from_json(document: &Json) -> (rules: Option<RuleMap>)
    ensures
        match json_rules(*document) {
            Some(table) => rules matches Some(r) && r@ == table,
            None => rules is None,
        },
{
    let members = match document {
        Json::Object(members) => members,
        _ => { return None; },
    };
    let entries = match find_member(members, "rules") {
        Some(Json::Object(entries)) => entries,
        _ => { return None; },
    };
    let mut rules = RuleMap::new();
    let n: usize = entries.len();
    let mut i: usize = 0;
    while i < n
        invariant
            i <= n,
            n == entries@.len(),
            all_text(entries@.subrange(0, i as int)),
            rules@ == pairs_map(text_pairs(entries@.subrange(0, i as int))),
            json_rules(*document) == if all_text(entries@) {
                Some(pairs_map(text_pairs(entries@)))
            } else {
                None
            },
        decreases n - i,
    {
        let ghost next = entries@.subrange(0, i + 1);
        assert(next.drop_last() =~= entries@.subrange(0, i as int));
        assert(next.last() == entries@[i as int]);
        match &entries[i].1 {
            Json::Text(destination) => {
                rules.insert(entries[i].0.clone(), destination.clone());
                proof {
                    assert(text_pairs(next).drop_last() =~= text_pairs(next.drop_last()));
                    assert forall|j: int| 0 <= j < next.len() implies (#[trigger] next[j]).1 is Text by {
                        if j < i {
                            assert(entries@.subrange(0, i as int)[j].1 is Text);
                        }
                    }
                }
            },
            _ => {
                assert(!all_text(entries@)) by {
                    assert(!(entries@[i as int].1 is Text));
                }
                return None;
            },
        }
        i = i + 1;
    }
    assert(entries@.subrange(0, n as int) =~= entries@);
    Some(rules)
}

/// The table in force, given the text of the rule file, or `None` where
/// the file could not be read: the table that the text holds if it is a
/// JSON document that holds one, and the built-in table otherwise.
pub open spec fn loaded_rules(contents: Option<Seq<char>>) -> Map<Seq<char>, Seq<char>> {
    match contents {
        Some(text) => match json_text(text) {
            Some(document) => match json_rules(document) {
                Some(table) => table,
                None => default_rules(),
            },
            None => default_rules(),
        },
        None => default_rules(),
    }
}

/// Whatever is missing or wrong, the built-in table takes over whole: where
/// there is no text, where the text is not one JSON document, and where
/// the document holds no table. Only a document that holds a table puts
/// that table in force.
pub proof fn lemma_fallback_is_default(text: Seq<char>)
    ensures
        loaded_rules(None) == default_rules(),
        loaded_rules(Some(text)) == match json_text(text) {
            Some(document) => match json_rules(document) {
                Some(table) => table,
                None => default_rules(),
            },
            None => default_rules(),
        },
{
}

/// Settles the table for one pass. Never fails: whatever is wrong with the
/// rule file, the built-in table takes its place.
pub fn load_rules(contents: Option<&str>) -> (rules: RuleMap)
    ensures
        rules@ == loaded_rules(str_text(contents)),
        contents is None ==> rules@ == default_rules(),
{
    let text = match contents {
        Some(text) => text,
        None => { return define_default_rules(); },
    };
    let document = match parse_json(text) {
        Some(document) => document,
        None => { return define_default_rules(); },
    };
    match rules_from_json(&document) {
        Some(rules) => rules,
        None => define_default_rules(),
    }
}

} // verus!
