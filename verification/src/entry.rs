//! Directory entries as they arrive from a search: a distinguished name and a
//! multi-valued string attribute map.

use vstd::hash_map::StringHashMap;
use vstd::prelude::*;

verus! {

/// The mathematical content of an attribute map: attribute name to its
/// ordered values.
pub type AttributeMap = Map<Seq<char>, Seq<Seq<char>>>;

/// Copies a list of strings, value for value.
fn clone_values(values: &Vec<String>) -> (copy: Vec<String>)
    ensures
        copy@ == values@,
{
    let mut copy: Vec<String> = Vec::new();
    let mut i: usize = 0;
    while i < values.len()
        invariant
            i <= values.len(),
            copy@ == values@.subrange(0, i as int),
        decreases values.len() - i,
    {
        copy.push(values[i].clone());
        i += 1;
    }
    copy
}

/// The attributes of one directory entry, keyed by attribute name.
pub struct RawAttributes {
    map: StringHashMap<Vec<String>>,
}

impl View for RawAttributes {
    type V = AttributeMap;

    closed spec fn view(&self) -> AttributeMap {
        Map::new(
            |name: Seq<char>| self.map@.contains_key(name),
            |name: Seq<char>| self.map@[name].deep_view(),
        )
    }
}

impl RawAttributes {
    /// An entry without attributes.
    pub fn new() -> (attrs: RawAttributes)
        ensures
            attrs@ == AttributeMap::empty(),
    {
        RawAttributes { map: StringHashMap::new() }
    }

    /// Sets the values of attribute `name`, replacing earlier ones.
    pub fn insert(&mut self, name: String, values: Vec<String>)
        ensures
            final(self)@ == old(self)@.insert(name@, values.deep_view()),
    {
        self.map.insert(name, values);
    }

    /// A copy of the values of attribute `name`, if the entry has it.
    pub fn get(&self, name: &str) -> (values: Option<Vec<String>>)
        ensures
            values is Some <==> self@.contains_key(name@),
            values is Some ==> values->0.deep_view() == self@[name@],
    {
        match self.map.get(name) {
            Some(found) => Some(clone_values(found)),
            None => None,
        }
    }
}

/// One search result: where the entry lives and what it holds.
pub struct RawEntry {
    pub dn: String,
    pub attrs: RawAttributes,
}

/// The mathematical content of a [`RawEntry`].
pub struct EntryModel {
    pub dn: Seq<char>,
    pub attrs: AttributeMap,
}

impl View for RawEntry {
    type V = EntryModel;

    open spec fn view(&self) -> EntryModel {
        EntryModel { dn: self.dn@, attrs: self.attrs@ }
    }
}

} // verus!
