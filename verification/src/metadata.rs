//! Free-form notes on a message: names, and the string that each stands for.

use crate::error::{view_ok, SchemaError};
use crate::fields::{find_last, index_of, lemma_index_of, lemma_push, lemma_same_names, names_of};
use crate::json::{entries_of, lemma_object_view, Json, JsonView};
use vstd::prelude::*;

verus! {

/// Names with their strings. A name set again takes the later string, so the
/// view is a map. `==` compares the entries as they were made, in order.
#[derive(Clone, Debug, PartialEq, Eq)]
pub struct Metadata {
    pub entries: Vec<(String, String)>,
}

/// The map that a list of named strings stands for.
pub open spec fn pairs_of(entries: Seq<(String, String)>) -> Map<Seq<char>, Seq<char>> {
    Map::new(
        |name: Seq<char>| index_of(entries, name) >= 0,
        |name: Seq<char>| entries[index_of(entries, name)].1@,
    )
}

impl View for Metadata {
    type V = Map<Seq<char>, Seq<char>>;

    open spec fn view(&self) -> Map<Seq<char>, Seq<char>> {
        pairs_of(self.entries@)
    }
}

impl DeepView for Metadata {
    type V = Map<Seq<char>, Seq<char>>;

    open spec fn deep_view(&self) -> Map<Seq<char>, Seq<char>> {
        self@
    }
}

/// Metadata on the wire: an object whose values are strings.
pub open spec fn metadata_to_json(metadata: Map<Seq<char>, Seq<char>>) -> JsonView {
    JsonView::Object(
        Map::new(
            |name: Seq<char>| metadata.dom().contains(name),
            |name: Seq<char>| JsonView::String(metadata[name]),
        ),
    )
}

/// Metadata read off the wire: every value of the object must be a string.
pub open spec fn metadata_from_json(json: JsonView) -> Result<
    Map<Seq<char>, Seq<char>>,
    SchemaError,
> {
    match json {
        JsonView::Object(entries) => if forall|name: Seq<char>|
            entries.dom().contains(name) ==> entries[name] is String {
            Ok(
                Map::new(
                    |name: Seq<char>| entries.dom().contains(name),
                    |name: Seq<char>| entries[name]->String_0,
                ),
            )
        } else {
            Err(SchemaError::TypeMismatch)
        },
        _ => Err(SchemaError::TypeMismatch),
    }
}

/// The metadata under `name`; none where the field is left out.
pub open spec fn metadata_field(json: JsonView, name: Seq<char>) -> Result<
    Map<Seq<char>, Seq<char>>,
    SchemaError,
> {
    match json.present(name) {
        Err(error) => Err(error),
        Ok(None) => Ok(Map::empty()),
        Ok(Some(value)) => metadata_from_json(value),
    }
}

/// Reading metadata that was written gives it back.
pub proof fn lemma_metadata_round_trip(metadata: Map<Seq<char>, Seq<char>>)
    ensures
        metadata_from_json(metadata_to_json(metadata)) == Ok::<
            Map<Seq<char>, Seq<char>>,
            SchemaError,
        >(metadata),
{
    assert(metadata_from_json(metadata_to_json(metadata))->Ok_0 =~= metadata);
}

impl Metadata {
    /// No entries.
    pub fn new() -> (metadata: Metadata)
        ensures
            metadata@ == Map::<Seq<char>, Seq<char>>::empty(),
    {
        let metadata = Metadata { entries: Vec::new() };
        assert(metadata@ =~= Map::<Seq<char>, Seq<char>>::empty());
        metadata
    }

    /// Sets the string that `name` stands for.
    pub fn insert(&mut self, name: String, value: String)
        ensures
            final(self)@ == old(self)@.insert(name@, value@),
    {
        proof {
            lemma_push(self.entries@, name, value);
        }
        self.entries.push((name, value));
        assert(self@ =~= old(self)@.insert(name@, value@));
    }

    /// The string that `name` stands for.
    pub fn get(&self, name: &str) -> (found: Option<&String>)
        ensures
            match found {
                Some(value) => self@.dom().contains(name@) && self@[name@] == value@,
                None => !self@.dom().contains(name@),
            },
    {
        let wanted = String::from_str(name);
        match find_last(&self.entries, &wanted) {
            Some(i) => Some(&self.entries[i].1),
            None => None,
        }
    }

    /// Whether no name is set.
    pub fn is_empty(&self) -> (empty: bool)
        ensures
            empty <==> self@ == Map::<Seq<char>, Seq<char>>::empty(),
    {
        let n = self.entries.len();
        proof {
            if n == 0 {
                assert(self@ =~= Map::<Seq<char>, Seq<char>>::empty());
            } else {
                let last = self.entries@[n - 1].0@;
                assert(names_of(self.entries@)[n - 1] == last);
                assert(self@.dom().contains(last));
            }
        }
        n == 0
    }

    pub fn to_json(&self) -> (json: Json)
        ensures
            json@ == metadata_to_json(self@),
    {
        let mut fields: Vec<(String, Json)> = Vec::new();
        let mut i: usize = 0;
        while i < self.entries.len()
            invariant
                i <= self.entries.len(),
                fields.len() == i,
                forall|j: int|
                    0 <= j < i ==> fields@[j].0@ == self.entries@[j].0@ && fields@[j].1@
                        == JsonView::String(self.entries@[j].1@),
            decreases self.entries.len() - i,
        {
            fields.push((self.entries[i].0.clone(), Json::String(self.entries[i].1.clone())));
            i += 1;
        }
        proof {
            lemma_object_view(fields);
            assert forall|name: Seq<char>|
                #[trigger] index_of(fields@, name) == index_of(self.entries@, name) && -1
                    <= index_of(fields@, name) < fields.len() by {
                lemma_same_names(fields@, self.entries@, name);
                lemma_index_of(fields@, name);
            }
            assert(entries_of(fields@) =~= metadata_to_json(self@)->Object_0);
        }
        Json::Object(fields)
    }

    /// The metadata under `name`; none where the field is left out.
    pub fn field_of(json: &Json, name: &str) -> (result: Result<Metadata, SchemaError>)
        ensures
            view_ok(result) == metadata_field(json@, name@),
    {
        match json.present(name)? {
            None => Ok(Metadata::new()),
            Some(value) => Metadata::from_json(value),
        }
    }

    pub fn from_json(json: &Json) -> (result: Result<Metadata, SchemaError>)
        ensures
            view_ok(result) == metadata_from_json(json@),
    {
        match json {
            Json::Object(fields) => {
                proof {
                    lemma_object_view(*fields);
                }
                let mut metadata = Metadata::new();
                let mut i: usize = 0;
                while i < fields.len()
                    invariant
                        i <= fields.len(),
                        json@ == JsonView::Object(entries_of(fields@)),
                        forall|name: Seq<char>|
                            #![trigger index_of(fields@, name)]
                            metadata@.dom().contains(name) <==> 0 <= index_of(fields@, name) < i,
                        forall|name: Seq<char>|
                            #![trigger index_of(fields@, name)]
                            metadata@.dom().contains(name) ==> fields@[index_of(fields@, name)].1@
                                == JsonView::String(metadata@[name]),
                    decreases fields.len() - i,
                {
                    proof {
                        assert forall|name: Seq<char>|
                            -1 <= #[trigger] index_of(fields@, name) < fields.len() && (index_of(
                                fields@,
                                name,
                            ) >= 0 ==> fields@[index_of(fields@, name)].0@ == name) by {
                            lemma_index_of(fields@, name);
                        }
                    }
                    let counts = match find_last(fields, &fields[i].0) {
                        Some(k) => k == i,
                        None => false,
                    };
                    if counts {
                        match &fields[i].1 {
                            Json::String(value) => {
                                metadata.insert(fields[i].0.clone(), value.clone());
                            },
                            _ => {
                                assert(entries_of(fields@).dom().contains(fields@[i as int].0@));
                                assert(!(entries_of(fields@)[fields@[i as int].0@] is String));
                                return Err(SchemaError::TypeMismatch);
                            },
                        }
                    }
                    i += 1;
                }
                proof {
                    let entries = entries_of(fields@);
                    assert forall|name: Seq<char>| entries.dom().contains(name) implies (
                    #[trigger] metadata@.dom().contains(name)) && entries[name]
                        == JsonView::String(metadata@[name]) by {
                        lemma_index_of(fields@, name);
                    }
                    assert(metadata_from_json(json@) is Ok);
                    assert(metadata@ =~= metadata_from_json(json@)->Ok_0);
                }
                Ok(metadata)
            },
            _ => Err(SchemaError::TypeMismatch),
        }
    }
}

} // verus!
