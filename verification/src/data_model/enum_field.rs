//! Values of enumerations.

use crate::codec::{deep, field_of, read_field, write_field, Wire};
use crate::data_model::ID;
use crate::json::{entries_view, lookup_after_push, DecodeError, Json, JsonView};
use vstd::prelude::*;

verus! {

/// A value of an enumeration, by its name, with the name of the enumeration.
#[derive(Debug, PartialEq, Default)]
pub struct Enum {
    pub id: String,
    pub value: String,
    pub enum_type: String,
}

/// What an [`Enum`] holds.
pub struct EnumView {
    pub id: Seq<char>,
    pub value: Seq<char>,
    pub enum_type: Seq<char>,
}

impl DeepView for Enum {
    type V = EnumView;

    open spec fn deep_view(&self) -> EnumView {
        EnumView {
            id: self.id.deep_view(),
            value: self.value.deep_view(),
            enum_type: self.enum_type.deep_view(),
        }
    }
}

impl ID for Enum {
    open spec fn id_spec(&self) -> Seq<char> {
        self.id@
    }

    fn id(&self) -> (r: &str) {
        self.id.as_str()
    }
}

impl Enum {
    /// The entries of an enum value, behind those of `base`: `id`, `value` and `enumType`.
    pub open spec fn entries_of(v: EnumView, base: Seq<(Seq<char>, JsonView)>) -> Seq<
        (Seq<char>, JsonView),
    > {
        base
            .push(("id"@, <String as Wire>::doc_of(v.id)))
            .push(("value"@, <String as Wire>::doc_of(v.value)))
            .push(("enumType"@, <String as Wire>::doc_of(v.enum_type)))
    }

    /// What the entries of an object give.
    pub open spec fn of_entries(entries: Seq<(Seq<char>, JsonView)>) -> Result<
        EnumView,
        DecodeError,
    > {
        match field_of::<String>(entries, "id"@) {
            Err(e) => Err(e),
            Ok(id) => match field_of::<String>(entries, "value"@) {
                Err(e) => Err(e),
                Ok(value) => match field_of::<String>(entries, "enumType"@) {
                    Err(e) => Err(e),
                    Ok(enum_type) => Ok(EnumView { id, value, enum_type }),
                },
            },
        }
    }

    /// Writes the entries behind those that are there.
    pub fn write_entries(&self, entries: &mut Vec<(String, Json)>)
        ensures
            entries_view(final(entries)) == Self::entries_of(
                self.deep_view(),
                entries_view(old(entries)),
            ),
    {
        write_field(entries, "id", &self.id);
        write_field(entries, "value", &self.value);
        write_field(entries, "enumType", &self.enum_type);
    }

    /// Reads the entries of an object. Entries under other keys are passed over.
    pub fn read_entries(entries: &Vec<(String, Json)>) -> (r: Result<Self, DecodeError>)
        ensures
            deep(r) == Self::of_entries(entries_view(entries)),
    {
        let id = read_field::<String>(entries, "id")?;
        let value = read_field::<String>(entries, "value")?;
        let enum_type = read_field::<String>(entries, "enumType")?;
        Ok(Enum { id, value, enum_type })
    }

    /// Whatever stands before them, the entries give the value back.
    pub proof fn entries_round_trip(v: EnumView, base: Seq<(Seq<char>, JsonView)>)
        requires
            <Enum as Wire>::sound(v),
        ensures
            Self::of_entries(Self::entries_of(v, base)) == Ok::<EnumView, DecodeError>(v),
    {
        broadcast use lookup_after_push;

        reveal_strlit("id");
        reveal_strlit("value");
        reveal_strlit("enumType");
        assert("id"@.len() == 2 && "id"@[0] == 'i' && "id"@[1] == 'd');
        assert("value"@.len() == 5 && "value"@[0] == 'v' && "value"@[1] == 'a' &&
            "value"@[2] == 'l' && "value"@[3] == 'u' && "value"@[4] == 'e');
        assert("enumType"@.len() == 8 && "enumType"@[0] == 'e' && "enumType"@[1] == 'n' &&
            "enumType"@[2] == 'u' && "enumType"@[3] == 'm' && "enumType"@[4] == 'T' &&
            "enumType"@[5] == 'y' && "enumType"@[6] == 'p' && "enumType"@[7] == 'e');
    }
}

impl Wire for Enum {
    open spec fn doc_of(v: EnumView) -> JsonView {
        JsonView::Object(Self::entries_of(v, Seq::empty()))
    }

    open spec fn value_of(doc: JsonView) -> Result<EnumView, DecodeError> {
        match doc {
            JsonView::Object(entries) => Self::of_entries(entries),
            _ => Err(DecodeError::WrongType),
        }
    }

    open spec fn absent() -> Result<EnumView, DecodeError> {
        Err(DecodeError::MissingField)
    }

    open spec fn sound(v: EnumView) -> bool {
        true
    }

    fn encode(&self) -> (doc: Json) {
        let mut entries: Vec<(String, Json)> = Vec::new();
        assert(entries_view(&entries) =~= Seq::empty());
        self.write_entries(&mut entries);
        Json::object(entries)
    }

    fn decode(doc: &Json) -> (r: Result<Enum, DecodeError>) {
        match doc {
            Json::Object(entries) => Self::read_entries(entries),
            _ => Err(DecodeError::WrongType),
        }
    }

    fn decode_absent() -> (r: Result<Enum, DecodeError>) {
        Err(DecodeError::MissingField)
    }

    proof fn round_trip(v: EnumView) {
        Self::entries_round_trip(v, Seq::empty());
    }
}

} // verus!
