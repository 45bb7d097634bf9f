//! Reading and writing the fields of JSON objects.
//!
//! The functions on [`JsonView`] say what a field read yields; those on
//! [`Json`] compute it.

use crate::error::{view_ok, SchemaError};
use crate::json::{
    copy_fields, entries_of, lemma_array_view, lemma_entries_empty, lemma_entries_push,
    lemma_object_view, Json, JsonView, Number,
};
use vstd::prelude::*;

verus! {

impl DeepView for Json {
    type V = JsonView;

    open spec fn deep_view(&self) -> JsonView {
        self@
    }
}

impl JsonView {
    /// A field that must be there.
    pub open spec fn required(self, name: Seq<char>) -> Result<JsonView, SchemaError> {
        match self {
            JsonView::Object(entries) => if entries.dom().contains(name) {
                Ok(entries[name])
            } else {
                Err(SchemaError::MissingField)
            },
            _ => Err(SchemaError::TypeMismatch),
        }
    }

    /// A field that may be left out.
    pub open spec fn present(self, name: Seq<char>) -> Result<Option<JsonView>, SchemaError> {
        match self {
            JsonView::Object(entries) => if entries.dom().contains(name) {
                Ok(Some(entries[name]))
            } else {
                Ok(None)
            },
            _ => Err(SchemaError::TypeMismatch),
        }
    }

    /// A field that may be left out or be `null`, which is the same.
    pub open spec fn optional(self, name: Seq<char>) -> Result<Option<JsonView>, SchemaError> {
        match self {
            JsonView::Object(entries) => if entries.dom().contains(name) && !(entries[name]
                is Null) {
                Ok(Some(entries[name]))
            } else {
                Ok(None)
            },
            _ => Err(SchemaError::TypeMismatch),
        }
    }

    /// The string that this is.
    pub open spec fn as_string(self) -> Result<Seq<char>, SchemaError> {
        match self {
            JsonView::String(s) => Ok(s),
            _ => Err(SchemaError::TypeMismatch),
        }
    }

    /// The truth value that this is.
    pub open spec fn as_bool(self) -> Result<bool, SchemaError> {
        match self {
            JsonView::Bool(b) => Ok(b),
            _ => Err(SchemaError::TypeMismatch),
        }
    }

    /// The integer that this is, where it lies from 0 to `u32::MAX`. A number
    /// held as a binary64 value is no integer, whatever its value.
    pub open spec fn as_u32(self) -> Result<u32, SchemaError> {
        match self {
            JsonView::Number(Number::PosInt(n)) => if n <= u32::MAX {
                Ok(n as u32)
            } else {
                Err(SchemaError::OutOfRange)
            },
            JsonView::Number(Number::NegInt(n)) => if 0 <= n <= u32::MAX {
                Ok(n as u32)
            } else {
                Err(SchemaError::OutOfRange)
            },
            _ => Err(SchemaError::TypeMismatch),
        }
    }

    /// The items of the array that this is.
    pub open spec fn as_items(self) -> Result<Seq<JsonView>, SchemaError> {
        match self {
            JsonView::Array(items) => Ok(items),
            _ => Err(SchemaError::TypeMismatch),
        }
    }

    /// A field that must be there and hold a string.
    pub open spec fn string_field(self, name: Seq<char>) -> Result<Seq<char>, SchemaError> {
        match self.required(name) {
            Ok(value) => value.as_string(),
            Err(error) => Err(error),
        }
    }

    /// A field that must be there and hold a truth value.
    pub open spec fn bool_field(self, name: Seq<char>) -> Result<bool, SchemaError> {
        match self.required(name) {
            Ok(value) => value.as_bool(),
            Err(error) => Err(error),
        }
    }

    /// A field that must be there and hold an integer from 0 to `u32::MAX`.
    pub open spec fn u32_field(self, name: Seq<char>) -> Result<u32, SchemaError> {
        match self.required(name) {
            Ok(value) => value.as_u32(),
            Err(error) => Err(error),
        }
    }

    /// A field that holds an object; an empty one where the field is left out.
    pub open spec fn object_field(self, name: Seq<char>) -> Result<
        Map<Seq<char>, JsonView>,
        SchemaError,
    > {
        match self.present(name) {
            Err(error) => Err(error),
            Ok(None) => Ok(Map::empty()),
            Ok(Some(JsonView::Object(entries))) => Ok(entries),
            Ok(Some(_)) => Err(SchemaError::TypeMismatch),
        }
    }

    /// A field that holds an array of strings, or is left out or `null`.
    pub open spec fn optional_strings_field(self, name: Seq<char>) -> Result<
        Option<Seq<Seq<char>>>,
        SchemaError,
    > {
        match self.optional(name) {
            Err(error) => Err(error),
            Ok(None) => Ok(None),
            Ok(Some(value)) => match value.as_strings() {
                Ok(strings) => Ok(Some(strings)),
                Err(error) => Err(error),
            },
        }
    }

    /// An array of strings.
    pub open spec fn of_strings(items: Seq<Seq<char>>) -> JsonView {
        JsonView::Array(encode_all(items, |s: Seq<char>| JsonView::String(s)))
    }

    /// The strings of an array of strings.
    pub open spec fn as_strings(self) -> Result<Seq<Seq<char>>, SchemaError> {
        match self {
            JsonView::Array(items) => strings_in(items),
            _ => Err(SchemaError::TypeMismatch),
        }
    }

    /// The number `n`.
    pub open spec fn of_u32(n: u32) -> JsonView {
        JsonView::Number(Number::PosInt(n as u64))
    }
}

/// Each item written in turn.
pub open spec fn encode_all<T>(items: Seq<T>, encode: spec_fn(T) -> JsonView) -> Seq<JsonView> {
    Seq::new(items.len(), |i: int| encode(items[i]))
}

/// Each item read in turn; the first that fails gives the error.
pub open spec fn decode_all<T>(
    items: Seq<JsonView>,
    decode: spec_fn(JsonView) -> Result<T, SchemaError>,
) -> Result<Seq<T>, SchemaError>
    decreases items.len(),
{
    if items.len() == 0 {
        Ok(Seq::empty())
    } else {
        match decode_all(items.drop_last(), decode) {
            Err(error) => Err(error),
            Ok(firsts) => match decode(items.last()) {
                Err(error) => Err(error),
                Ok(last) => Ok(firsts.push(last)),
            },
        }
    }
}

/// Where reading undoes writing for each item, it does so for a sequence.
pub proof fn lemma_decode_all_encode_all<T>(
    items: Seq<T>,
    encode: spec_fn(T) -> JsonView,
    decode: spec_fn(JsonView) -> Result<T, SchemaError>,
)
    requires
        forall|i: int|
            0 <= i < items.len() ==> decode(encode(#[trigger] items[i])) == Ok::<T, SchemaError>(
                items[i],
            ),
    ensures
        decode_all(encode_all(items, encode), decode) == Ok::<Seq<T>, SchemaError>(items),
    decreases items.len(),
{
    if items.len() > 0 {
        let firsts = items.drop_last();
        lemma_decode_all_encode_all(firsts, encode, decode);
        assert(encode_all(items, encode).drop_last() =~= encode_all(firsts, encode));
        assert(firsts.push(items.last()) =~= items);
    } else {
        assert(items =~= Seq::empty());
    }
}

/// Once an item has failed, the items after it change nothing.
pub proof fn lemma_decode_all_error_stays<T>(
    items: Seq<JsonView>,
    decode: spec_fn(JsonView) -> Result<T, SchemaError>,
    n: int,
)
    requires
        0 <= n <= items.len(),
        decode_all(items.take(n), decode) is Err,
    ensures
        decode_all(items, decode) == decode_all(items.take(n), decode),
    decreases items.len(),
{
    if n < items.len() {
        assert(items.drop_last().take(n) =~= items.take(n));
        lemma_decode_all_error_stays(items.drop_last(), decode, n);
    } else {
        assert(items.take(n) =~= items);
    }
}

/// Reading one item more.
pub proof fn lemma_decode_all_step<T>(
    items: Seq<JsonView>,
    decode: spec_fn(JsonView) -> Result<T, SchemaError>,
    n: int,
)
    requires
        0 <= n < items.len(),
    ensures
        decode_all(items.take(n + 1), decode) == match decode_all(items.take(n), decode) {
            Err(error) => Err(error),
            Ok(firsts) => match decode(items[n]) {
                Err(error) => Err(error),
                Ok(last) => Ok(firsts.push(last)),
            },
        },
{
    assert(items.take(n + 1).drop_last() =~= items.take(n));
}

/// The strings of a sequence of JSON strings.
pub open spec fn strings_in(items: Seq<JsonView>) -> Result<Seq<Seq<char>>, SchemaError> {
    decode_all(items, |item: JsonView| item.as_string())
}

/// Writing then reading an array of strings gives the strings back.
pub proof fn lemma_strings_round_trip(items: Seq<Seq<char>>)
    ensures
        JsonView::of_strings(items).as_strings() == Ok::<Seq<Seq<char>>, SchemaError>(items),
{
    lemma_decode_all_encode_all(
        items,
        |s: Seq<char>| JsonView::String(s),
        |item: JsonView| item.as_string(),
    );
}

/// An object with its `type` field set to `tag`; any other value as it is.
pub open spec fn tagged_view(json: JsonView, tag: Seq<char>) -> JsonView {
    match json {
        JsonView::Object(entries) => JsonView::Object(
            entries.insert("type"@, JsonView::String(tag)),
        ),
        other => other,
    }
}

/// No fields yet.
pub fn no_fields() -> (fields: Vec<(String, Json)>)
    ensures
        entries_of(fields@) == Map::<Seq<char>, JsonView>::empty(),
{
    proof {
        lemma_entries_empty();
    }
    Vec::new()
}

/// Sets the `type` field of an object.
pub fn tagged(json: Json, tag: &str) -> (result: Json)
    ensures
        result@ == tagged_view(json@, tag@),
{
    match json {
        Json::Object(fields) => {
            proof {
                lemma_object_view(fields);
            }
            let mut fields = fields;
            put(&mut fields, "type", Json::String(String::from_str(tag)));
            object_of(fields)
        },
        other => other,
    }
}

/// Adds a field at the end of `fields`.
pub fn put(fields: &mut Vec<(String, Json)>, name: &str, value: Json)
    ensures
        entries_of(final(fields)@) == entries_of(old(fields)@).insert(name@, value@),
{
    let owned = String::from_str(name);
    proof {
        lemma_entries_push(fields@, owned, value);
    }
    fields.push((owned, value));
}

/// The object of these fields.
pub fn object_of(fields: Vec<(String, Json)>) -> (json: Json)
    ensures
        json@ == JsonView::Object(entries_of(fields@)),
{
    proof {
        lemma_object_view(fields);
    }
    Json::Object(fields)
}

impl Json {
    pub fn required(&self, name: &str) -> (result: Result<&Json, SchemaError>)
        ensures
            view_ok(result) == self@.required(name@),
    {
        match self {
            Json::Object(_) => match self.field(name) {
                Some(value) => Ok(value),
                None => Err(SchemaError::MissingField),
            },
            _ => Err(SchemaError::TypeMismatch),
        }
    }

    pub fn present(&self, name: &str) -> (result: Result<Option<&Json>, SchemaError>)
        ensures
            view_ok(result) == self@.present(name@),
    {
        match self {
            Json::Object(_) => Ok(self.field(name)),
            _ => Err(SchemaError::TypeMismatch),
        }
    }

    pub fn optional(&self, name: &str) -> (result: Result<Option<&Json>, SchemaError>)
        ensures
            view_ok(result) == self@.optional(name@),
    {
        match self {
            Json::Object(_) => match self.field(name) {
                Some(Json::Null) => Ok(None),
                found => Ok(found),
            },
            _ => Err(SchemaError::TypeMismatch),
        }
    }

    pub fn as_bool(&self) -> (result: Result<bool, SchemaError>)
        ensures
            view_ok(result) == self@.as_bool(),
    {
        match self {
            Json::Bool(b) => Ok(*b),
            _ => Err(SchemaError::TypeMismatch),
        }
    }

    pub fn as_u32(&self) -> (result: Result<u32, SchemaError>)
        ensures
            view_ok(result) == self@.as_u32(),
    {
        match self {
            Json::Number(Number::PosInt(n)) => if *n <= 0xffff_ffff {
                Ok(*n as u32)
            } else {
                Err(SchemaError::OutOfRange)
            },
            Json::Number(Number::NegInt(n)) => if 0 <= *n && *n <= 0xffff_ffff {
                Ok(*n as u32)
            } else {
                Err(SchemaError::OutOfRange)
            },
            _ => Err(SchemaError::TypeMismatch),
        }
    }

    pub fn as_items(&self) -> (result: Result<&Vec<Json>, SchemaError>)
        ensures
            view_ok(result) == self@.as_items(),
    {
        match self {
            Json::Array(items) => {
                proof {
                    lemma_array_view(*items);
                    assert(items.deep_view() =~= self@->Array_0);
                }
                Ok(items)
            },
            _ => Err(SchemaError::TypeMismatch),
        }
    }

    pub fn as_strings(&self) -> (result: Result<Vec<String>, SchemaError>)
        ensures
            view_ok(result) == self@.as_strings(),
    {
        let items = self.as_items()?;
        let ghost views = items.deep_view();
        let mut strings: Vec<String> = Vec::new();
        let mut i: usize = 0;
        assert(views.take(0) =~= Seq::empty() && strings.deep_view() =~= Seq::empty());
        while i < items.len()
            invariant
                i <= items.len(),
                views == items.deep_view(),
                self@ == JsonView::Array(views),
                strings_in(views.take(i as int)) == Ok::<Seq<Seq<char>>, SchemaError>(
                    strings.deep_view(),
                ),
            decreases items.len() - i,
        {
            proof {
                lemma_decode_all_step(views, |item: JsonView| item.as_string(), i as int);
            }
            match items[i].as_string() {
                Ok(s) => {
                    let ghost before = strings.deep_view();
                    strings.push(s);
                    assert(strings.deep_view() =~= before.push(s@));
                },
                Err(error) => {
                    proof {
                        lemma_decode_all_error_stays(
                            views,
                            |item: JsonView| item.as_string(),
                            i as int + 1,
                        );
                    }
                    return Err(error);
                },
            }
            i += 1;
        }
        assert(views.take(i as int) =~= views);
        Ok(strings)
    }

    pub fn string_field(&self, name: &str) -> (result: Result<String, SchemaError>)
        ensures
            view_ok(result) == self@.string_field(name@),
    {
        self.required(name)?.as_string()
    }

    pub fn bool_field(&self, name: &str) -> (result: Result<bool, SchemaError>)
        ensures
            view_ok(result) == self@.bool_field(name@),
    {
        self.required(name)?.as_bool()
    }

    pub fn u32_field(&self, name: &str) -> (result: Result<u32, SchemaError>)
        ensures
            view_ok(result) == self@.u32_field(name@),
    {
        self.required(name)?.as_u32()
    }

    /// The fields of the object under `name`; none where it is left out.
    pub fn object_field(&self, name: &str) -> (result: Result<Vec<(String, Json)>, SchemaError>)
        ensures
            match result {
                Ok(fields) => self@.object_field(name@) == Ok::<
                    Map<Seq<char>, JsonView>,
                    SchemaError,
                >(entries_of(fields@)),
                Err(error) => self@.object_field(name@) == Err::<
                    Map<Seq<char>, JsonView>,
                    SchemaError,
                >(error),
            },
    {
        match self.present(name)? {
            None => Ok(no_fields()),
            Some(Json::Object(fields)) => {
                proof {
                    lemma_object_view(*fields);
                }
                Ok(copy_fields(fields))
            },
            Some(_) => Err(SchemaError::TypeMismatch),
        }
    }

    pub fn optional_strings_field(&self, name: &str) -> (result: Result<
        Option<Vec<String>>,
        SchemaError,
    >)
        ensures
            view_ok(result) == self@.optional_strings_field(name@),
    {
        match self.optional(name)? {
            None => Ok(None),
            Some(value) => Ok(Some(value.as_strings()?)),
        }
    }

    /// An array of strings.
    pub fn of_strings(items: &Vec<String>) -> (json: Json)
        ensures
            json@ == JsonView::of_strings(items.deep_view()),
    {
        let mut out: Vec<Json> = Vec::new();
        let mut i: usize = 0;
        while i < items.len()
            invariant
                i <= items.len(),
                out.len() == i,
                forall|j: int| 0 <= j < i ==> out@[j]@ == JsonView::String(items@[j]@),
            decreases items.len() - i,
        {
            out.push(Json::String(items[i].clone()));
            i += 1;
        }
        proof {
            lemma_array_view(out);
            assert(Json::Array(out)@->Array_0 =~= JsonView::of_strings(
                items.deep_view(),
            )->Array_0);
        }
        Json::Array(out)
    }

    pub fn of_u32(n: u32) -> (json: Json)
        ensures
            json@ == JsonView::of_u32(n),
    {
        Json::Number(Number::PosInt(n as u64))
    }

    pub fn as_string(&self) -> (result: Result<String, SchemaError>)
        ensures
            view_ok(result) == self@.as_string(),
    {
        match self {
            Json::String(s) => Ok(s.clone()),
            _ => Err(SchemaError::TypeMismatch),
        }
    }
}

} // verus!
