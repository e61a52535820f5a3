//! The envelope of one value: the value and the id under which the service
//! knows it.

use crate::codec::{field_of, read_field, write_field, Wire};
use crate::data_model::ID;
use crate::json::{entries_view, lookup_after_push, DecodeError, Json, JsonView};
use vstd::prelude::*;

verus! {

/// A value with its id.
#[derive(Debug, PartialEq, Default)]
pub struct Field<T> {
    pub id: String,
    pub value: T,
}

/// What a [`Field`] holds.
pub struct FieldView<V> {
    pub id: Seq<char>,
    pub value: V,
}

impl<T: DeepView> DeepView for Field<T> {
    type V = FieldView<T::V>;

    open spec fn deep_view(&self) -> FieldView<T::V> {
        FieldView { id: self.id@, value: self.value.deep_view() }
    }
}

impl<T> Field<T> {
    /// The value under the given id.
    pub fn new(id: &str, value: T) -> (r: Self)
        ensures
            r.id@ == id@,
            r.value == value,
    {
        Self { id: String::from_str(id), value }
    }
}

impl<T> ID for Field<T> {
    open spec fn id_spec(&self) -> Seq<char> {
        self.id@
    }

    fn id(&self) -> (r: &str) {
        self.id.as_str()
    }
}

impl<T: Wire> Field<T> {
    /// The entries of a field, behind those of `base`: `id` and `value`.
    pub open spec fn entries_of(v: FieldView<T::V>, base: Seq<(Seq<char>, JsonView)>) -> Seq<
        (Seq<char>, JsonView),
    > {
        base.push(("id"@, JsonView::String(v.id))).push(("value"@, T::doc_of(v.value)))
    }

    /// The field that the entries of an object give.
    pub open spec fn of_entries(entries: Seq<(Seq<char>, JsonView)>) -> Result<
        FieldView<T::V>,
        DecodeError,
    > {
        match field_of::<String>(entries, "id"@) {
            Err(e) => Err(e),
            Ok(id) => match field_of::<T>(entries, "value"@) {
                Err(e) => Err(e),
                Ok(value) => Ok(FieldView { id, value }),
            },
        }
    }

    /// Writes the entries of the field behind those that are there.
    pub fn write_entries(&self, entries: &mut Vec<(String, Json)>)
        ensures
            entries_view(final(entries)) == Self::entries_of(
                self.deep_view(),
                entries_view(old(entries)),
            ),
    {
        write_field(entries, "id", &self.id);
        write_field(entries, "value", &self.value);
    }

    /// Reads a field from the entries of an object. Other entries are passed
    /// over.
    pub fn read_entries(entries: &Vec<(String, Json)>) -> (r: Result<Self, DecodeError>)
        ensures
            crate::codec::deep(r) == Self::of_entries(entries_view(entries)),
    {
        let id = read_field::<String>(entries, "id")?;
        let value = read_field::<T>(entries, "value")?;
        Ok(Field { id, value })
    }

    /// Whatever stands before them, the entries of a field give the field back.
    pub proof fn entries_round_trip(v: FieldView<T::V>, base: Seq<(Seq<char>, JsonView)>)
        requires
            T::sound(v.value),
        ensures
            Self::of_entries(Self::entries_of(v, base)) == Ok::<FieldView<T::V>, DecodeError>(v),
    {
        broadcast use lookup_after_push;

        reveal_strlit("id");
        reveal_strlit("value");
        assert("id"@.len() == 2);
        assert("value"@.len() == 5);
        T::round_trip(v.value);
    }
}

impl<T: Wire> Wire for Field<T> {
    open spec fn doc_of(v: FieldView<T::V>) -> JsonView {
        JsonView::Object(Self::entries_of(v, Seq::empty()))
    }

    open spec fn value_of(doc: JsonView) -> Result<FieldView<T::V>, DecodeError> {
        match doc {
            JsonView::Object(entries) => Self::of_entries(entries),
            _ => Err(DecodeError::WrongType),
        }
    }

    open spec fn absent() -> Result<FieldView<T::V>, DecodeError> {
        Err(DecodeError::MissingField)
    }

    open spec fn sound(v: FieldView<T::V>) -> bool {
        T::sound(v.value)
    }

    fn encode(&self) -> (doc: Json) {
        let mut entries: Vec<(String, Json)> = Vec::new();
        assert(entries_view(&entries) =~= Seq::empty());
        self.write_entries(&mut entries);
        Json::object(entries)
    }

    fn decode(doc: &Json) -> (r: Result<Field<T>, DecodeError>) {
        match doc {
            Json::Object(entries) => Self::read_entries(entries),
            _ => Err(DecodeError::WrongType),
        }
    }

    fn decode_absent() -> (r: Result<Field<T>, DecodeError>) {
        Err(DecodeError::MissingField)
    }

    proof fn round_trip(v: FieldView<T::V>) {
        Self::entries_round_trip(v, Seq::empty());
    }
}

/// A field whose value may be missing comes back as it went in, with a value
/// and without: without one its document holds `null` under `value`.
pub proof fn nullable_field_round_trip<T: Wire>(id: Seq<char>, value: Option<T::V>)
    requires
        value matches Some(v) ==> T::sound(v) && !(T::doc_of(v) is Null),
    ensures
        <Field<Option<T>> as Wire>::value_of(
            <Field<Option<T>> as Wire>::doc_of(FieldView { id, value }),
        ) == Ok::<FieldView<Option<T::V>>, DecodeError>(FieldView { id, value }),
        value is None ==> <Field<Option<T>> as Wire>::doc_of(FieldView { id, value })
            == JsonView::Object(
            Seq::empty().push(("id"@, JsonView::String(id))).push(("value"@, JsonView::Null)),
        ),
{
    <Field<Option<T>> as Wire>::round_trip(FieldView { id, value });
}

} // verus!
