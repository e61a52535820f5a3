//! Members without a value.

use crate::codec::{deep, field_of, read_field, write_field, Wire};
use crate::data_model::ID;
use crate::json::{entries_view, lookup_after_push, DecodeError, Json, JsonView};
use vstd::prelude::*;

verus! {

/// A member that holds nothing but its id.
#[derive(Debug, PartialEq, Default)]
pub struct Empty {
    pub id: String,
}

/// What an [`Empty`] holds.
pub struct EmptyView {
    pub id: Seq<char>,
}

impl DeepView for Empty {
    type V = EmptyView;

    open spec fn deep_view(&self) -> EmptyView {
        EmptyView {
            id: self.id.deep_view(),
        }
    }
}

impl ID for Empty {
    open spec fn id_spec(&self) -> Seq<char> {
        self.id@
    }

    fn id(&self) -> (r: &str) {
        self.id.as_str()
    }
}

impl Empty {
    /// The entry of an empty member, behind those of `base`: `id`.
    pub open spec fn entries_of(v: EmptyView, base: Seq<(Seq<char>, JsonView)>) -> Seq<
        (Seq<char>, JsonView),
    > {
        base
            .push(("id"@, <String as Wire>::doc_of(v.id)))
    }

    /// What the entries of an object give.
    pub open spec fn of_entries(entries: Seq<(Seq<char>, JsonView)>) -> Result<
        EmptyView,
        DecodeError,
    > {
        match field_of::<String>(entries, "id"@) {
            Err(e) => Err(e),
            Ok(id) => Ok(EmptyView { id }),
        }
    }

    /// Writes the entries behind those that are there.
    pub fn write_entries(&self, entries: &mut Vec<(String, Json)>)
        ensures
            entries_view(final(entries)) == Self::entries_of(
                self.deep_view(),
                entries_view(old(entries)),
            ),
    {
        write_field(entries, "id", &self.id);
    }

    /// Reads the entries of an object. Entries under other keys are passed over.
    pub fn read_entries(entries: &Vec<(String, Json)>) -> (r: Result<Self, DecodeError>)
        ensures
            deep(r) == Self::of_entries(entries_view(entries)),
    {
        let id = read_field::<String>(entries, "id")?;
        Ok(Empty { id })
    }

    /// Whatever stands before them, the entries give the value back.
    pub proof fn entries_round_trip(v: EmptyView, base: Seq<(Seq<char>, JsonView)>)
        requires
            <Empty as Wire>::sound(v),
        ensures
            Self::of_entries(Self::entries_of(v, base)) == Ok::<EmptyView, DecodeError>(v),
    {
        broadcast use lookup_after_push;

        reveal_strlit("id");
        assert("id"@.len() == 2 && "id"@[0] == 'i' && "id"@[1] == 'd');
    }
}

impl Wire for Empty {
    open spec fn doc_of(v: EmptyView) -> JsonView {
        JsonView::Object(Self::entries_of(v, Seq::empty()))
    }

    open spec fn value_of(doc: JsonView) -> Result<EmptyView, DecodeError> {
        match doc {
            JsonView::Object(entries) => Self::of_entries(entries),
            _ => Err(DecodeError::WrongType),
        }
    }

    open spec fn absent() -> Result<EmptyView, DecodeError> {
        Err(DecodeError::MissingField)
    }

    open spec fn sound(v: EmptyView) -> bool {
        true
    }

    fn encode(&self) -> (doc: Json) {
        let mut entries: Vec<(String, Json)> = Vec::new();
        assert(entries_view(&entries) =~= Seq::empty());
        self.write_entries(&mut entries);
        Json::object(entries)
    }

    fn decode(doc: &Json) -> (r: Result<Empty, DecodeError>) {
        match doc {
            Json::Object(entries) => Self::read_entries(entries),
            _ => Err(DecodeError::WrongType),
        }
    }

    fn decode_absent() -> (r: Result<Empty, DecodeError>) {
        Err(DecodeError::MissingField)
    }

    proof fn round_trip(v: EmptyView) {
        Self::entries_round_trip(v, Seq::empty());
    }
}

} // verus!
