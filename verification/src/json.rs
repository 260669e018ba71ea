//! JSON objects as the core handles them.
//!
//! An event travels through the core as a JSON object whose member values
//! are kept as canonical JSON text. The core reads and replaces members by
//! name; it never looks inside a value except through the functions here.

use crate::assoc::AssocMap;
use crate::text::opt_view;
use ruma::{CanonicalJsonObject, CanonicalJsonValue};
use vstd::prelude::*;

verus! {

/// The members of the JSON object that a text denotes, each value as
/// canonical JSON text; `None` where the text is no canonical JSON object.
pub uninterp spec fn json_object_of(text: Seq<char>) -> Option<Map<Seq<char>, Seq<char>>>;

/// The canonical JSON text of the object with the given members; `None`
/// where a member value is no canonical JSON text.
pub uninterp spec fn json_text_of(members: Map<Seq<char>, Seq<char>>) -> Option<Seq<char>>;

/// The JSON text of a string value.
pub uninterp spec fn json_string_of(s: Seq<char>) -> Seq<char>;

/// The string that a JSON text denotes; `None` where it is no JSON string.
pub uninterp spec fn json_string_value(text: Seq<char>) -> Option<Seq<char>>;

/// Whether the JSON value that a text denotes has a member `key`; `None`
/// where the text is no JSON at all.
pub uninterp spec fn json_has_member(text: Seq<char>, key: Seq<char>) -> Option<bool>;

/// A JSON object: member names with the canonical JSON text of their values.
#[derive(Debug)]
pub struct JsonObject {
    pub members: AssocMap<String, String>,
}

impl View for JsonObject {
    type V = Map<Seq<char>, Seq<char>>;

    open spec fn view(&self) -> Map<Seq<char>, Seq<char>> {
        self.members.map().map_values(|v: String| v@)
    }
}

/// Calls `serde_json::from_str` for a `ruma::CanonicalJsonObject` and
/// `serde_json::to_string` on each member value. The result is named, not
/// described: it is the object that the text denotes, and there is one
/// exactly when the text parses.
#[verifier::external_body]
fn parse_object_text(text: &str) -> (r: Option<JsonObject>)
    ensures
        r is Some <==> json_object_of(text@) is Some,
        r matches Some(o) ==> o.wf() && Some(o@) == json_object_of(text@),
{
    let object: CanonicalJsonObject = serde_json::from_str(text).ok()?;
    let mut entries = Vec::new();
    for (k, v) in object {
        entries.push((k, serde_json::to_string(&v).ok()?));
    }
    Some(JsonObject { members: AssocMap { entries } })
}

/// Calls `serde_json::to_string` on the `ruma::CanonicalJsonObject` that
/// holds the members of `object`, each value read back with
/// `serde_json::from_str`. The result is named: the canonical text of that
/// object, or nothing where a value does not parse.
#[verifier::external_body]
fn object_to_text(object: &JsonObject) -> (r: Option<String>)
    requires
        object.wf(),
    ensures
        opt_view(r) == json_text_of(object@),
{
    let mut canonical = CanonicalJsonObject::new();
    for (k, v) in object.members.entries.iter() {
        canonical.insert(k.clone(), serde_json::from_str(v).ok()?);
    }
    serde_json::to_string(&canonical).ok()
}

/// Calls `serde_json::to_string` on a string. The result is named: the JSON
/// text of that string value.
#[verifier::external_body]
fn string_to_json(s: &str) -> (r: String)
    ensures
        r@ == json_string_of(s@),
{
    serde_json::to_string(s).unwrap_or_default()
}

/// Calls `serde_json::from_str` for a `ruma::CanonicalJsonValue`. The result
/// is named: the string that the text denotes, or nothing where the text is
/// no JSON string.
#[verifier::external_body]
fn json_to_string(text: &str) -> (r: Option<String>)
    ensures
        opt_view(r) == json_string_value(text@),
{
    match serde_json::from_str::<CanonicalJsonValue>(text) {
        Ok(CanonicalJsonValue::String(s)) => Some(s),
        _ => None,
    }
}

/// Calls `serde_json::from_str` for a `serde_json::Value` and
/// `serde_json::Value::get` on it. The result is named: whether the value
/// has the member, or nothing where the text does not parse.
#[verifier::external_body]
fn text_has_member(text: &str, key: &str) -> (r: Option<bool>)
    ensures
        r == json_has_member(text@, key@),
{
    let value: serde_json::Value = serde_json::from_str(text).ok()?;
    Some(value.get(key).is_some())
}

/// Proof that binding a key commutes with viewing the values.
pub proof fn lemma_view_insert<A>(m: Map<A, String>, k: A, v: String)
    ensures
        m.insert(k, v).map_values(|v: String| v@) == m.map_values(|v: String| v@).insert(k, v@),
{
    assert(m.insert(k, v).map_values(|v: String| v@) =~= m.map_values(|v: String| v@).insert(
        k,
        v@,
    ));
}

/// Proof that removing a member commutes with viewing the values.
pub proof fn lemma_view_remove(m: Map<Seq<char>, String>, k: Seq<char>)
    ensures
        m.remove(k).map_values(|v: String| v@) == m.map_values(|v: String| v@).remove(k),
{
    assert(m.remove(k).map_values(|v: String| v@) =~= m.map_values(|v: String| v@).remove(k));
}

impl JsonObject {
    /// No member name occurs twice.
    pub open spec fn wf(&self) -> bool {
        self.members.wf()
    }

    /// The object without members.
    pub fn new() -> (o: JsonObject)
        ensures
            o.wf(),
            o@ == Map::<Seq<char>, Seq<char>>::empty(),
    {
        let o = JsonObject { members: AssocMap::new() };
        assert(o@ =~= Map::<Seq<char>, Seq<char>>::empty());
        o
    }

    /// Reads the text of a JSON object.
    pub fn parse(text: &str) -> (r: Option<JsonObject>)
        ensures
            r is Some <==> json_object_of(text@) is Some,
            r matches Some(o) ==> o.wf() && Some(o@) == json_object_of(text@),
    {
        parse_object_text(text)
    }

    /// The canonical JSON text of this object.
    pub fn to_text(&self) -> (r: Option<String>)
        requires
            self.wf(),
        ensures
            opt_view(r) == json_text_of(self@),
    {
        object_to_text(self)
    }

    pub fn contains_key(&self, key: &str) -> (r: bool)
        requires
            self.wf(),
        ensures
            r == self@.contains_key(key@),
    {
        let k = key.to_owned();
        self.members.contains_key(&k)
    }

    /// The JSON text of the member `key`.
    pub fn get(&self, key: &str) -> (r: Option<String>)
        requires
            self.wf(),
        ensures
            r is Some <==> self@.contains_key(key@),
            r matches Some(v) ==> v@ == self@[key@],
    {
        let k = key.to_owned();
        match self.members.get(&k) {
            Some(v) => Some(v.clone()),
            None => None,
        }
    }

    /// The member `key` where it is a JSON string.
    pub fn get_string(&self, key: &str) -> (r: Option<String>)
        requires
            self.wf(),
        ensures
            opt_view(r) == member_string(self@, key@),
    {
        match self.get(key) {
            Some(v) => json_to_string(v.as_str()),
            None => None,
        }
    }

    /// Sets the member `key` to the value with JSON text `value`.
    pub fn insert(&mut self, key: &str, value: String)
        requires
            old(self).wf(),
        ensures
            final(self).wf(),
            final(self)@ == old(self)@.insert(key@, value@),
    {
        proof {
            lemma_view_insert(self.members.map(), key@, value);
        }
        self.members.insert(key.to_owned(), value);
    }

    /// Sets the member `key` to a string value.
    pub fn insert_string(&mut self, key: &str, value: &str)
        requires
            old(self).wf(),
        ensures
            final(self).wf(),
            final(self)@ == old(self)@.insert(key@, json_string_of(value@)),
    {
        self.insert(key, string_to_json(value));
    }

    /// Removes the member `key`, if it is there.
    pub fn remove(&mut self, key: &str)
        requires
            old(self).wf(),
        ensures
            final(self).wf(),
            final(self)@ == old(self)@.remove(key@),
    {
        proof {
            lemma_view_remove(self.members.map(), key@);
        }
        let k = key.to_owned();
        let _ = self.members.remove(&k);
    }

    /// A copy of this object.
    pub fn duplicate(&self) -> (o: JsonObject)
        requires
            self.wf(),
        ensures
            o.wf(),
            o@ == self@,
    {
        let mut o = JsonObject::new();
        let mut i: usize = 0;
        while i < self.members.entries.len()
            invariant
                self.wf(),
                o.wf(),
                i <= self.members.entries@.len(),
                forall|k: Seq<char>|
                    o@.contains_key(k) <==> exists|j: int|
                        0 <= j < i && #[trigger] self.members.entries@[j].0@ == k,
                forall|j: int|
                    0 <= j < i ==> o@[#[trigger] self.members.entries@[j].0@]
                        == self.members.entries@[j].1@,
            decreases self.members.entries.len() - i,
        {
            let ghost before = o@;
            let key = self.members.entries[i].0.clone();
            let value = self.members.entries[i].1.clone();
            o.insert(key.as_str(), value);
            proof {
                assert forall|j: int| 0 <= j < i + 1 implies o@[#[trigger] self.members.entries@[j].0@]
                    == self.members.entries@[j].1@ by {
                    if j < i {
                        assert(self.members.entries@[j].0@ != self.members.entries@[i as int].0@);
                        assert(before[self.members.entries@[j].0@] == self.members.entries@[j].1@);
                    }
                }
                assert forall|k: Seq<char>|
                    o@.contains_key(k) <==> exists|j: int|
                        0 <= j < i + 1 && #[trigger] self.members.entries@[j].0@ == k by {
                    if o@.contains_key(k) {
                        if k == key@ {
                            assert(self.members.entries@[i as int].0@ == k);
                        } else {
                            assert(before.contains_key(k));
                            let j = choose|j: int|
                                0 <= j < i && #[trigger] self.members.entries@[j].0@ == k;
                            assert(0 <= j < i + 1 && self.members.entries@[j].0@ == k);
                        }
                    }
                }
            }
            i = i + 1;
        }
        proof {
            assert forall|k: Seq<char>| o@.contains_key(k) <==> self@.contains_key(k) by {
                if o@.contains_key(k) {
                    let j = choose|j: int|
                        0 <= j < i && #[trigger] self.members.entries@[j].0@ == k;
                    crate::assoc::lemma_entry_in_map(self.members.entries@, j);
                }
                if self@.contains_key(k) {
                    let j = crate::assoc::key_index(self.members.entries@, k);
                    assert(self.members.entries@[j].0@ == k);
                }
            }
            assert forall|k: Seq<char>| o@.contains_key(k) implies o@[k] == self@[k] by {
                let j = choose|j: int| 0 <= j < i && #[trigger] self.members.entries@[j].0@ == k;
                crate::assoc::lemma_entry_in_map(self.members.entries@, j);
            }
            assert(o@ =~= self@);
        }
        o
    }
}

/// The string that the member `key` holds, where it is there and is a JSON
/// string.
pub open spec fn member_string(members: Map<Seq<char>, Seq<char>>, key: Seq<char>) -> Option<
    Seq<char>,
> {
    if members.contains_key(key) {
        json_string_value(members[key])
    } else {
        None
    }
}

/// Whether the JSON value with the given text has a member `key`; a text
/// that is no JSON has none.
pub fn has_member(text: &str, key: &str) -> (r: bool)
    ensures
        r == (json_has_member(text@, key@) == Some(true)),
{
    match text_has_member(text, key) {
        Some(b) => b,
        None => false,
    }
}

} // verus!
