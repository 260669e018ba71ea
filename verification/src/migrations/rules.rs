//! Renaming push rules. The rules of one kind stand in an insertion-ordered
//! map from rule id to the rest of the rule as JSON text.

use indexmap::IndexMap;
use vstd::prelude::*;

verus! {

#[verifier::external_type_specification]
#[verifier::external_body]
#[verifier::reject_recursive_types(K)]
#[verifier::reject_recursive_types(V)]
#[verifier::reject_recursive_types(S)]
pub struct ExIndexMap<K, V, S>(IndexMap<K, V, S>);

/// The rules that the map holds, in order: id and body of each.
pub uninterp spec fn rule_entries(rules: IndexMap<String, String>) -> Seq<(Seq<char>, Seq<char>)>;

/// Whether `i` is the position of the first rule with the id `id`.
pub open spec fn first_rule(rules: Seq<(Seq<char>, Seq<char>)>, id: Seq<char>, i: int) -> bool {
    &&& 0 <= i < rules.len()
    &&& rules[i].0 == id
    &&& forall|j: int| 0 <= j < i ==> rules[j].0 != id
}

/// Whether some rule has the id `id`.
pub open spec fn has_rule(rules: Seq<(Seq<char>, Seq<char>)>, id: Seq<char>) -> bool {
    exists|i: int| first_rule(rules, id, i)
}

/// The rules without the rule with the id `id`; those behind it move up.
pub open spec fn without_rule(rules: Seq<(Seq<char>, Seq<char>)>, id: Seq<char>) -> Seq<
    (Seq<char>, Seq<char>),
> {
    if has_rule(rules, id) {
        rules.remove(choose|i: int| first_rule(rules, id, i))
    } else {
        rules
    }
}

/// Calls `indexmap::IndexMap::get`. It gives the body of the rule with the
/// id, if the map holds one.
#[verifier::external_body]
fn rule_body(rules: &IndexMap<String, String>, id: &str) -> (r: Option<String>)
    ensures
        r is Some <==> has_rule(rule_entries(*rules), id@),
        r matches Some(body) ==> body@ == rule_entries(*rules)[choose|i: int|
            first_rule(rule_entries(*rules), id@, i)].1,
{
    rules.get(id).cloned()
}

/// Calls `indexmap::IndexMap::shift_remove`. The rule with the id leaves
/// the map and the rules behind it move up, keeping their order.
#[verifier::external_body]
fn remove_rule(rules: &mut IndexMap<String, String>, id: &str)
    ensures
        rule_entries(*final(rules)) == without_rule(rule_entries(*old(rules)), id@),
{
    rules.shift_remove(id);
}

/// Calls `indexmap::IndexMap::insert` with an id that the map does not
/// hold. The rule is inserted last in order.
#[verifier::external_body]
fn append_rule(rules: &mut IndexMap<String, String>, id: String, body: String)
    requires
        !has_rule(rule_entries(*old(rules)), id@),
    ensures
        rule_entries(*final(rules)) == rule_entries(*old(rules)).push((id@, body@)),
{
    rules.insert(id, body);
}

/// The rules after the rule `from` has been given the id `to`: it leaves
/// its place and goes to the end under its new id, unless a rule with that
/// id is there already, in which case it is dropped.
pub open spec fn renamed(rules: Seq<(Seq<char>, Seq<char>)>, from: Seq<char>, to: Seq<char>)
    -> Seq<(Seq<char>, Seq<char>)> {
    if has_rule(rules, from) {
        let i = choose|i: int| first_rule(rules, from, i);
        let rest = rules.remove(i);
        if has_rule(rest, to) {
            rest
        } else {
            rest.push((to, rules[i].1))
        }
    } else {
        rules
    }
}

/// Gives the rule with the id `from` the id `to`.
pub fn rename_rule(rules: &mut IndexMap<String, String>, from: &str, to: &str)
    ensures
        rule_entries(*final(rules)) == renamed(rule_entries(*old(rules)), from@, to@),
{
    match rule_body(rules, from) {
        Some(body) => {
            remove_rule(rules, from);
            if rule_body(rules, to).is_none() {
                append_rule(rules, to.to_owned(), body);
            }
        },
        None => {},
    }
}

/// The rules of the kind `content` after the migration to version 12.
pub open spec fn content_rules_v12(rules: Seq<(Seq<char>, Seq<char>)>) -> Seq<
    (Seq<char>, Seq<char>),
> {
    renamed(rules, ".m.rules.contains_user_name"@, ".m.rule.contains_user_name"@)
}

/// The rules of the kind `underride` after the migration to version 12.
pub open spec fn underride_rules_v12(rules: Seq<(Seq<char>, Seq<char>)>) -> Seq<
    (Seq<char>, Seq<char>),
> {
    renamed(
        renamed(
            renamed(
                renamed(
                    renamed(rules, ".m.rules.call"@, ".m.rule.call"@),
                    ".m.rules.room_one_to_one"@,
                    ".m.rule.room_one_to_one"@,
                ),
                ".m.rules.encrypted_room_one_to_one"@,
                ".m.rule.encrypted_room_one_to_one"@,
            ),
            ".m.rules.message"@,
            ".m.rule.message"@,
        ),
        ".m.rules.encrypted"@,
        ".m.rule.encrypted"@,
    )
}

/// The migration to schema version 12 for the push rules of one user: the
/// predefined rules that were stored under ids beginning with `.m.rules.`
/// get the ids beginning with `.m.rule.` that they should have had.
pub fn db_lt_12(content: &mut IndexMap<String, String>, underride: &mut IndexMap<String, String>)
    ensures
        rule_entries(*final(content)) == content_rules_v12(rule_entries(*old(content))),
        rule_entries(*final(underride)) == underride_rules_v12(rule_entries(*old(underride))),
{
    rename_rule(content, ".m.rules.contains_user_name", ".m.rule.contains_user_name");
    rename_rule(underride, ".m.rules.call", ".m.rule.call");
    rename_rule(underride, ".m.rules.room_one_to_one", ".m.rule.room_one_to_one");
    rename_rule(
        underride,
        ".m.rules.encrypted_room_one_to_one",
        ".m.rule.encrypted_room_one_to_one",
    );
    rename_rule(underride, ".m.rules.message", ".m.rule.message");
    rename_rule(underride, ".m.rules.encrypted", ".m.rule.encrypted");
}

} // verus!
