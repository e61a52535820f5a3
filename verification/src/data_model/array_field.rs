//! The envelope of a list of values of one type.

use crate::codec::{field_of, read_field, write_field, Wire};
use crate::data_model::ID;
use crate::json::{entries_view, lookup_after_push, DecodeError, Json, JsonView};
use vstd::prelude::*;

verus! {

/// A list of values with its id.
#[derive(Debug, PartialEq, Default)]
pub struct ArrayField<T> {
    pub id: String,
    pub values: Vec<T>,
}

/// What an [`ArrayField`] holds.
pub struct ArrayFieldView<V> {
    pub id: Seq<char>,
    pub values: Seq<V>,
}

impl<T: DeepView> DeepView for ArrayField<T> {
    type V = ArrayFieldView<T::V>;

    open spec fn deep_view(&self) -> ArrayFieldView<T::V> {
        ArrayFieldView { id: self.id@, values: self.values.deep_view() }
    }
}

impl<T> ArrayField<T> {
    /// The values under the given id.
    pub fn new(id: &str, values: Vec<T>) -> (r: Self)
        ensures
            r.id@ == id@,
            r.values == values,
    {
        Self { id: String::from_str(id), values }
    }
}

impl<T> ID for ArrayField<T> {
    open spec fn id_spec(&self) -> Seq<char> {
        self.id@
    }

    fn id(&self) -> (r: &str) {
        self.id.as_str()
    }
}

impl<T: Wire> ArrayField<T> {
    /// The entries of a list, behind those of `base`: `id` and `values`.
    pub open spec fn entries_of(v: ArrayFieldView<T::V>, base: Seq<(Seq<char>, JsonView)>) -> Seq<
        (Seq<char>, JsonView),
    > {
        base.push(("id"@, JsonView::String(v.id))).push(
            ("values"@, <Vec<T> as Wire>::doc_of(v.values)),
        )
    }

    /// The list that the entries of an object give.
    pub open spec fn of_entries(entries: Seq<(Seq<char>, JsonView)>) -> Result<
        ArrayFieldView<T::V>,
        DecodeError,
    > {
        match field_of::<String>(entries, "id"@) {
            Err(e) => Err(e),
            Ok(id) => match field_of::<Vec<T>>(entries, "values"@) {
                Err(e) => Err(e),
                Ok(values) => Ok(ArrayFieldView { id, values }),
            },
        }
    }

    /// Writes the entries of the list behind those that are there.
    pub fn write_entries(&self, entries: &mut Vec<(String, Json)>)
        ensures
            entries_view(final(entries)) == Self::entries_of(
                self.deep_view(),
                entries_view(old(entries)),
            ),
    {
        write_field(entries, "id", &self.id);
        write_field(entries, "values", &self.values);
    }

    /// Reads a list from the entries of an object. Other entries are passed
    /// over.
    pub fn read_entries(entries: &Vec<(String, Json)>) -> (r: Result<Self, DecodeError>)
        ensures
            crate::codec::deep(r) == Self::of_entries(entries_view(entries)),
    {
        let id = read_field::<String>(entries, "id")?;
        let values = read_field::<Vec<T>>(entries, "values")?;
        Ok(ArrayField { id, values })
    }

    /// Whatever stands before them, the entries of a list give the list back.
    pub proof fn entries_round_trip(v: ArrayFieldView<T::V>, base: Seq<(Seq<char>, JsonView)>)
        requires
            <Vec<T> as Wire>::sound(v.values),
        ensures
            Self::of_entries(Self::entries_of(v, base)) == Ok::<ArrayFieldView<T::V>, DecodeError>(
                v,
            ),
    {
        broadcast use lookup_after_push;

        reveal_strlit("id");
        reveal_strlit("values");
        assert("id"@.len() == 2);
        assert("values"@.len() == 6);
        <Vec<T> as Wire>::round_trip(v.values);
    }
}

impl<T: Wire> Wire for ArrayField<T> {
    open spec fn doc_of(v: ArrayFieldView<T::V>) -> JsonView {
        JsonView::Object(Self::entries_of(v, Seq::empty()))
    }

    open spec fn value_of(doc: JsonView) -> Result<ArrayFieldView<T::V>, DecodeError> {
        match doc {
            JsonView::Object(entries) => Self::of_entries(entries),
            _ => Err(DecodeError::WrongType),
        }
    }

    open spec fn absent() -> Result<ArrayFieldView<T::V>, DecodeError> {
        Err(DecodeError::MissingField)
    }

    open spec fn sound(v: ArrayFieldView<T::V>) -> bool {
        <Vec<T> as Wire>::sound(v.values)
    }

    fn encode(&self) -> (doc: Json) {
        let mut entries: Vec<(String, Json)> = Vec::new();
        assert(entries_view(&entries) =~= Seq::empty());
        self.write_entries(&mut entries);
        Json::object(entries)
    }

    fn decode(doc: &Json) -> (r: Result<ArrayField<T>, DecodeError>) {
        match doc {
            Json::Object(entries) => Self::read_entries(entries),
            _ => Err(DecodeError::WrongType),
        }
    }

    fn decode_absent() -> (r: Result<ArrayField<T>, DecodeError>) {
        Err(DecodeError::MissingField)
    }

    proof fn round_trip(v: ArrayFieldView<T::V>) {
        Self::entries_round_trip(v, Seq::empty());
    }
}

} // verus!
