//! JSON documents as the services read and write them.
//!
//! An object keeps its members in a vector whose keys are pairwise distinct;
//! its abstract view is the map from each key to its value.
use vstd::prelude::*;

use crate::assoc::{
    assoc_insert, assoc_remove, assoc_view, key_position, keys_distinct, lemma_assoc_empty, lemma_assoc_entries,
};
use crate::text::owned;

verus! {

/// A JSON value. Numbers keep the decimal text they were written with.
#[derive(Debug, PartialEq)]
pub enum Json {
    Null,
    Bool(bool),
    Number(String),
    Str(String),
    Array(Vec<Json>),
    Object(JsonObject),
}

/// A JSON object: members with pairwise distinct keys, in insertion order.
#[derive(Debug, PartialEq)]
pub struct JsonObject {
    members: Vec<(String, Json)>,
}

/// The map that inserting `members` one after the other into an empty object yields.
pub open spec fn members_inserted(members: Seq<(String, Json)>) -> Map<Seq<char>, Json>
    decreases members.len(),
{
    if members.len() == 0 {
        Map::empty()
    } else {
        members_inserted(members.drop_last()).insert(members.last().0@, members.last().1)
    }
}

impl View for JsonObject {
    type V = Map<Seq<char>, Json>;

    /// The members the object holds, as a map from key to value.
    closed spec fn view(&self) -> Map<Seq<char>, Json> {
        assoc_view(self.members@)
    }
}

impl JsonObject {
    #[verifier::type_invariant]
    spec fn distinct_keys(self) -> bool {
        keys_distinct(self.members@)
    }

    /// An empty object.
    pub fn new() -> (o: JsonObject)
        ensures
            o.view() == Map::<Seq<char>, Json>::empty(),
    {
        let o = JsonObject { members: Vec::new() };
        proof {
            lemma_assoc_empty::<Json>();
            assert(o.members@ =~= Seq::<(String, Json)>::empty());
        }
        o
    }

    /// Whether the object holds `key`.
    pub fn contains_key(&self, key: &str) -> (r: bool)
        ensures
            r == self.view().contains_key(key@),
    {
        proof {
            use_type_invariant(self);
        }
        key_position(&self.members, key).is_some()
    }

    /// The value stored under `key`.
    pub fn get(&self, key: &str) -> (r: Option<&Json>)
        ensures
            match r {
                Some(v) => self.view().contains_key(key@) && *v == self.view()[key@],
                None => !self.view().contains_key(key@),
            },
    {
        proof {
            use_type_invariant(self);
        }
        match key_position(&self.members, key) {
            Some(i) => Some(&self.members[i].1),
            None => None,
        }
    }

    /// Stores `value` under `key`, replacing the value the key had.
    pub fn insert(&mut self, key: String, value: Json)
        ensures
            final(self).view() == old(self).view().insert(key@, value),
    {
        proof {
            use_type_invariant(&*self);
        }
        let mut members: Vec<(String, Json)> = Vec::new();
        std::mem::swap(&mut members, &mut self.members);
        assoc_insert(&mut members, key, value);
        self.members = members;
    }

    /// Takes the value stored under `key` out of the object.
    pub fn remove(&mut self, key: &str) -> (r: Option<Json>)
        ensures
            final(self).view() == old(self).view().remove(key@),
            match r {
                Some(v) => old(self).view().contains_key(key@) && v == old(self).view()[key@],
                None => !old(self).view().contains_key(key@),
            },
    {
        proof {
            use_type_invariant(&*self);
        }
        let mut members: Vec<(String, Json)> = Vec::new();
        std::mem::swap(&mut members, &mut self.members);
        let r = assoc_remove(&mut members, key);
        self.members = members;
        r
    }
}

impl JsonObject {
    /// The object that inserting `members` one after the other into an empty object yields:
    /// where a key occurs twice, the later value wins.
    pub fn from_members(members: Vec<(String, Json)>) -> (o: JsonObject)
        ensures
            o@ == members_inserted(members@),
    {
        let ghost all = members@;
        let mut o = JsonObject::new();
        assert(all.take(0) =~= Seq::<(String, Json)>::empty());
        for e in it: members
            invariant
                it.seq() == all,
                o@ == members_inserted(all.take(it.index() as int)),
        {
            let ghost done = it.index() as int;
            proof {
                assert(all.take(done + 1).drop_last() =~= all.take(done));
            }
            let (k, v) = e;
            o.insert(k, v);
        }
        let ghost n = all.len() as int;
        assert(all.take(n) =~= all);
        o
    }

    /// The members of the object, borrowed: distinct keys, each with the value the object
    /// holds for it, and every key of the object among them.
    pub fn members(&self) -> (v: &Vec<(String, Json)>)
        ensures
            keys_distinct(v@),
            forall|i: int| 0 <= i < v@.len() ==> #[trigger] self@.contains_key(v@[i].0@)
                && self@[v@[i].0@] == v@[i].1,
            forall|k: Seq<char>| #[trigger] self@.contains_key(k) ==> exists|i: int| 0 <= i < v@.len() && #[trigger] v@[i].0@ == k,
            v@.len() == self@.dom().len(),
    {
        proof {
            use_type_invariant(self);
            lemma_assoc_entries(self.members@);
        }
        &self.members
    }

    /// The members of the object: distinct keys, each with the value the object holds for it,
    /// and every key of the object among them.
    pub fn into_members(self) -> (v: Vec<(String, Json)>)
        ensures
            keys_distinct(v@),
            forall|i: int| 0 <= i < v@.len() ==> #[trigger] self@.contains_key(v@[i].0@)
                && self@[v@[i].0@] == v@[i].1,
            forall|k: Seq<char>| #[trigger] self@.contains_key(k) ==> exists|i: int| 0 <= i < v@.len() && #[trigger] v@[i].0@ == k,
            v@.len() == self@.dom().len(),
    {
        proof {
            use_type_invariant(&self);
            lemma_assoc_entries(self.members@);
        }
        self.members
    }
}

/// The members of `v` when it is an object; no members otherwise.
pub open spec fn fields(v: Json) -> Map<Seq<char>, Json> {
    match v {
        Json::Object(o) => o@,
        _ => Map::empty(),
    }
}

/// The value that `v` holds under `key`, as `Value::get` finds it.
pub open spec fn field(v: Json, key: Seq<char>) -> Option<Json> {
    if fields(v).contains_key(key) {
        Some(fields(v)[key])
    } else {
        None
    }
}

/// The characters of a string value.
pub open spec fn text_of(v: Option<Json>) -> Option<Seq<char>> {
    match v {
        Some(Json::Str(s)) => Some(s@),
        _ => None,
    }
}

/// The string that `v` holds under `key`, when it holds one there.
pub open spec fn text_field(v: Json, key: Seq<char>) -> Option<Seq<char>> {
    text_of(field(v, key))
}

/// A value that a string index can be written into: an object, or `null`, which becomes one.
pub open spec fn indexable(v: Json) -> bool {
    v is Object || v is Null
}

/// `v` is an array with no elements.
pub open spec fn is_empty_array(v: Json) -> bool {
    match v {
        Json::Array(items) => items@.len() == 0,
        _ => false,
    }
}

/// `a` and `b` hold the same value under every key but those of `keys`.
pub open spec fn same_fields_except(a: Json, b: Json, keys: Set<Seq<char>>) -> bool {
    forall|k: Seq<char>| !keys.contains(k) ==> #[trigger] field(a, k) == field(b, k)
}

impl Json {
    /// A string value holding the characters of `s`.
    pub fn text(s: &str) -> (v: Json)
        ensures
            text_of(Some(v)) == Some(s@),
    {
        Json::Str(owned(s))
    }

    /// The value stored under `key` when `self` is an object.
    pub fn get(&self, key: &str) -> (r: Option<&Json>)
        ensures
            match r {
                Some(v) => field(*self, key@) == Some(*v),
                None => field(*self, key@) is None,
            },
    {
        match self {
            Json::Object(o) => o.get(key),
            _ => None,
        }
    }

    /// The characters of a string value.
    pub fn as_str(&self) -> (r: Option<&str>)
        ensures
            match r {
                Some(s) => text_of(Some(*self)) == Some(s@),
                None => text_of(Some(*self)) is None,
            },
    {
        match self {
            Json::Str(s) => Some(s.as_str()),
            _ => None,
        }
    }

    /// Whether `self` is an object or `null`, the values that a string index can be written into.
    pub fn is_indexable(&self) -> (r: bool)
        ensures
            r == indexable(*self),
    {
        match self {
            Json::Object(_) | Json::Null => true,
            _ => false,
        }
    }

    /// `self` with `value` stored under `key`, as `value[key] = ...` writes it:
    /// `null` first becomes an empty object.
    pub fn with_field(self, key: String, value: Json) -> (r: Json)
        requires
            indexable(self),
        ensures
            r is Object,
            fields(r) == fields(self).insert(key@, value),
    {
        let mut o = match self {
            Json::Object(o) => o,
            _ => JsonObject::new(),
        };
        o.insert(key, value);
        Json::Object(o)
    }
}

} // verus!
