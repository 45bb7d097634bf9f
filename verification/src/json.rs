//! JSON values as the schema types read and write them.
//!
//! A [`Json`] is an executable tree; its view, a [`JsonView`], is the value it
//! stands for. An object is held as a list of named fields in which a later
//! field replaces an earlier one of the same name, so its view is a map.

use crate::fields::{find_last, index_of, lemma_index_of, lemma_push, lemma_same_names, names_of};
use vstd::prelude::*;

verus! {

/// A JSON number. Integers are held exactly. Any other number is held as the
/// bit pattern of its binary64 value, which is carried along and never read.
#[derive(Clone, Copy, Debug, PartialEq, Eq, Structural)]
pub enum Number {
    PosInt(u64),
    NegInt(i64),
    Float(u64),
}

/// A JSON value. Two values are `==` when they are written alike, field by
/// field; the view forgets the order of an object's fields and those that a
/// later one replaced.
#[derive(Debug, PartialEq, Eq)]
pub enum Json {
    Null,
    Bool(bool),
    Number(Number),
    String(String),
    Array(Vec<Json>),
    Object(Vec<(String, Json)>),
}

/// The value that a [`Json`] stands for.
pub enum JsonView {
    Null,
    Bool(bool),
    Number(Number),
    String(Seq<char>),
    Array(Seq<JsonView>),
    Object(Map<Seq<char>, JsonView>),
}

/// The map that a list of named fields stands for.
pub open spec fn entries_of(fields: Seq<(String, Json)>) -> Map<Seq<char>, JsonView> {
    Map::new(
        |name: Seq<char>| index_of(fields, name) >= 0,
        |name: Seq<char>| fields[index_of(fields, name)].1@,
    )
}

/// The value that `json` stands for.
pub open spec fn value_of(json: Json) -> JsonView
    decreases json,
{
    match json {
        Json::Null => JsonView::Null,
        Json::Bool(b) => JsonView::Bool(b),
        Json::Number(n) => JsonView::Number(n),
        Json::String(s) => JsonView::String(s@),
        Json::Array(items) => JsonView::Array(
            Seq::new(
                items@.len(),
                |i: int|
                    if 0 <= i < items@.len() {
                        value_of(items@[i])
                    } else {
                        JsonView::Null
                    },
            ),
        ),
        Json::Object(fields) => JsonView::Object(
            Map::new(
                |name: Seq<char>| index_of(fields@, name) >= 0,
                |name: Seq<char>|
                    {
                        let i = index_of(fields@, name);
                        if 0 <= i < fields@.len() {
                            value_of(fields@[i].1)
                        } else {
                            JsonView::Null
                        }
                    },
            ),
        ),
    }
}

impl View for Json {
    type V = JsonView;

    open spec fn view(&self) -> JsonView {
        value_of(*self)
    }
}

/// An object's view is the map of its fields.
pub proof fn lemma_object_view(fields: Vec<(String, Json)>)
    ensures
        Json::Object(fields)@ == JsonView::Object(entries_of(fields@)),
{
    assert forall|name: Seq<char>| #[trigger] index_of(fields@, name) < fields@.len() by {
        lemma_index_of(fields@, name);
    }
    assert(Json::Object(fields)@->Object_0 =~= entries_of(fields@));
}

/// An array's view is the sequence of its items' views.
pub proof fn lemma_array_view(items: Vec<Json>)
    ensures
        Json::Array(items)@ is Array,
        Json::Array(items)@->Array_0.len() == items@.len(),
        forall|i: int| 0 <= i < items@.len() ==> Json::Array(items)@->Array_0[i] == items@[i]@,
{
    assert(Json::Array(items)@->Array_0 =~= Seq::new(items@.len(), |i: int| items@[i]@));
}

/// No fields, no entries.
pub proof fn lemma_entries_empty()
    ensures
        entries_of(Seq::empty()) == Map::<Seq<char>, JsonView>::empty(),
{
    assert(entries_of(Seq::empty()) =~= Map::<Seq<char>, JsonView>::empty());
}

/// A field added at the end sets the entry of its name.
pub proof fn lemma_entries_push(fields: Seq<(String, Json)>, name: String, value: Json)
    ensures
        entries_of(fields.push((name, value))) == entries_of(fields).insert(name@, value@),
{
    lemma_push(fields, name, value);
    assert(entries_of(fields.push((name, value))) =~= entries_of(fields).insert(name@, value@));
}

impl JsonView {
    /// The field of that name, if this is an object that has one.
    pub open spec fn field(self, name: Seq<char>) -> Option<JsonView> {
        match self {
            JsonView::Object(entries) => if entries.dom().contains(name) {
                Some(entries[name])
            } else {
                None
            },
            _ => None,
        }
    }
}

impl Json {
    /// A deep copy.
    #[verifier::loop_isolation(false)]
    pub fn duplicate(&self) -> (copy: Json)
        ensures
            copy@ == self@,
        decreases self,
    {
        match self {
            Json::Null => Json::Null,
            Json::Bool(b) => Json::Bool(*b),
            Json::Number(n) => Json::Number(*n),
            Json::String(s) => Json::String(s.clone()),
            Json::Array(items) => {
                let mut out: Vec<Json> = Vec::new();
                let mut i: usize = 0;
                while i < items.len()
                    invariant
                        i <= items.len(),
                        out.len() == i,
                        forall|j: int| 0 <= j < i ==> out@[j]@ == items@[j]@,
                    decreases items.len() - i,
                {
                    proof {
                        vstd::std_specs::vec::axiom_vec_index_decreases(*items, i as int);
                    }
                    out.push(items[i].duplicate());
                    i += 1;
                }
                let copy = Json::Array(out);
                assert(copy@->Array_0 =~= self@->Array_0);
                copy
            },
            Json::Object(fields) => {
                let mut out: Vec<(String, Json)> = Vec::new();
                let mut i: usize = 0;
                while i < fields.len()
                    invariant
                        i <= fields.len(),
                        out.len() == i,
                        forall|j: int|
                            0 <= j < i ==> out@[j].0@ == fields@[j].0@ && out@[j].1@
                                == fields@[j].1@,
                    decreases fields.len() - i,
                {
                    proof {
                        vstd::std_specs::vec::axiom_vec_index_decreases(*fields, i as int);
                    }
                    out.push((fields[i].0.clone(), fields[i].1.duplicate()));
                    i += 1;
                }
                let copy = Json::Object(out);
                assert(names_of(out@) =~= names_of(fields@));
                assert(copy@->Object_0 =~= self@->Object_0);
                copy
            },
        }
    }

    /// The field of that name, if this is an object that has one.
    pub fn field(&self, name: &str) -> (found: Option<&Json>)
        ensures
            match found {
                Some(value) => self@.field(name@) == Some(value@),
                None => self@.field(name@) is None,
            },
    {
        match self {
            Json::Object(fields) => {
                proof {
                    lemma_object_view(*fields);
                }
                let wanted = String::from_str(name);
                match find_last(fields, &wanted) {
                    Some(i) => Some(&fields[i].1),
                    None => None,
                }
            },
            _ => None,
        }
    }
}

/// A deep copy of a list of fields.
pub fn copy_fields(fields: &Vec<(String, Json)>) -> (copy: Vec<(String, Json)>)
    ensures
        entries_of(copy@) == entries_of(fields@),
{
    let mut copy: Vec<(String, Json)> = Vec::new();
    let mut i: usize = 0;
    while i < fields.len()
        invariant
            i <= fields.len(),
            copy.len() == i,
            forall|j: int|
                0 <= j < i ==> copy@[j].0@ == fields@[j].0@ && copy@[j].1@ == fields@[j].1@,
        decreases fields.len() - i,
    {
        copy.push((fields[i].0.clone(), fields[i].1.duplicate()));
        i += 1;
    }
    proof {
        assert forall|name: Seq<char>| #[trigger]
            index_of(copy@, name) == index_of(fields@, name) && -1 <= index_of(copy@, name)
                < copy.len() by {
            lemma_same_names(copy@, fields@, name);
            lemma_index_of(copy@, name);
        }
        assert(entries_of(copy@) =~= entries_of(fields@));
    }
    copy
}

impl Clone for Json {
    fn clone(&self) -> (copy: Json)
        ensures
            copy@ == self@,
    {
        self.duplicate()
    }
}

} // verus!
