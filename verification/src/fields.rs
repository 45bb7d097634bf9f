//! Lists of named fields in which a later field replaces an earlier one of
//! the same name.

use vstd::prelude::*;

verus! {

/// The greatest index below `upto` at which `names` holds `name`, or -1 if
/// there is none.
pub open spec fn last_index_of(names: Seq<Seq<char>>, name: Seq<char>, upto: int) -> int
    decreases upto,
{
    if upto <= 0 {
        -1
    } else if names[upto - 1] == name {
        upto - 1
    } else {
        last_index_of(names, name, upto - 1)
    }
}

/// The names of a list of named fields, in order.
pub open spec fn names_of<V>(fields: Seq<(String, V)>) -> Seq<Seq<char>> {
    Seq::new(fields.len(), |i: int| fields[i].0@)
}

/// The index of the field that counts for `name`, or -1.
pub open spec fn index_of<V>(fields: Seq<(String, V)>, name: Seq<char>) -> int {
    last_index_of(names_of(fields), name, fields.len() as int)
}

/// Where `last_index_of` points, the name stands, and nowhere after it.
pub proof fn lemma_last_index_of(names: Seq<Seq<char>>, name: Seq<char>, upto: int)
    requires
        upto <= names.len(),
    ensures
        -1 <= last_index_of(names, name, upto),
        last_index_of(names, name, upto) < upto || upto <= 0,
        last_index_of(names, name, upto) >= 0 ==> names[last_index_of(names, name, upto)] == name,
        forall|j: int| last_index_of(names, name, upto) < j < upto && 0 <= j ==> names[j] != name,
    decreases upto,
{
    if upto > 0 && names[upto - 1] != name {
        lemma_last_index_of(names, name, upto - 1);
    }
}

/// The index that counts for a name depends on the names alone.
pub proof fn lemma_last_index_same_names(
    a: Seq<Seq<char>>,
    b: Seq<Seq<char>>,
    name: Seq<char>,
    upto: int,
)
    requires
        upto <= a.len(),
        upto <= b.len(),
        forall|j: int| 0 <= j < upto ==> a[j] == b[j],
    ensures
        last_index_of(a, name, upto) == last_index_of(b, name, upto),
    decreases upto,
{
    if upto > 0 && a[upto - 1] != name {
        lemma_last_index_same_names(a, b, name, upto - 1);
    }
}

/// A field added at the end counts for its name and changes no other name.
pub proof fn lemma_push<V>(fields: Seq<(String, V)>, name: String, value: V)
    ensures
        index_of(fields.push((name, value)), name@) == fields.len(),
        forall|other: Seq<char>|
            other != name@ ==> #[trigger] index_of(fields.push((name, value)), other) == index_of(
                fields,
                other,
            ),
        forall|other: Seq<char>| -1 <= #[trigger] index_of(fields, other) < fields.len(),
{
    let longer = fields.push((name, value));
    let n = fields.len() as int;
    assert forall|other: Seq<char>| other != name@ implies #[trigger] index_of(longer, other)
        == index_of(fields, other) by {
        lemma_last_index_same_names(names_of(longer), names_of(fields), other, n);
    }
    assert forall|other: Seq<char>| -1 <= #[trigger] index_of(fields, other) < fields.len() by {
        lemma_last_index_of(names_of(fields), other, n);
    }
}

/// The index that counts for a name is in range, holds the name, and no later
/// field does.
pub proof fn lemma_index_of<V>(fields: Seq<(String, V)>, name: Seq<char>)
    ensures
        -1 <= index_of(fields, name) < fields.len(),
        index_of(fields, name) >= 0 ==> fields[index_of(fields, name)].0@ == name,
        forall|j: int| index_of(fields, name) < j < fields.len() ==> fields[j].0@ != name,
{
    lemma_last_index_of(names_of(fields), name, fields.len() as int);
    assert forall|j: int| index_of(fields, name) < j < fields.len() implies fields[j].0@
        != name by {
        assert(names_of(fields)[j] == fields[j].0@);
    }
}

/// Lists with the same names in the same places agree on which field counts.
pub proof fn lemma_same_names<V, W>(a: Seq<(String, V)>, b: Seq<(String, W)>, name: Seq<char>)
    requires
        a.len() == b.len(),
        forall|j: int| 0 <= j < a.len() ==> a[j].0@ == b[j].0@,
    ensures
        index_of(a, name) == index_of(b, name),
{
    lemma_last_index_same_names(names_of(a), names_of(b), name, a.len() as int);
}

/// The index of the last field of that name.
pub fn find_last<V>(fields: &Vec<(String, V)>, name: &String) -> (found: Option<usize>)
    ensures
        match found {
            Some(i) => i < fields.len() && i == index_of(fields@, name@),
            None => index_of(fields@, name@) == -1,
        },
{
    let mut i: usize = fields.len();
    while i > 0
        invariant
            i <= fields.len(),
            index_of(fields@, name@) == last_index_of(names_of(fields@), name@, i as int),
        decreases i,
    {
        if fields[i - 1].0 == *name {
            return Some(i - 1);
        }
        i -= 1;
    }
    None
}

} // verus!
