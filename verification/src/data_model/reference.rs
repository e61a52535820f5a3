//! References between entities.

use crate::codec::{deep, field_of, read_field, write_field, Wire};
use crate::data_model::ID;
use crate::json::{entries_view, lookup_after_push, DecodeError, Json, JsonView};
use vstd::prelude::*;

verus! {

/// A pointer to another entity. It names its target and does not own it; without a
/// target id it points nowhere.
#[derive(Debug, PartialEq, Default)]
pub struct Reference {
    pub id: String,
    pub target_id: Option<String>,
    pub target_type: String,
}

/// What a [`Reference`] holds.
pub struct ReferenceView {
    pub id: Seq<char>,
    pub target_id: Option<Seq<char>>,
    pub target_type: Seq<char>,
}

impl DeepView for Reference {
    type V = ReferenceView;

    open spec fn deep_view(&self) -> ReferenceView {
        ReferenceView {
            id: self.id.deep_view(),
            target_id: self.target_id.deep_view(),
            target_type: self.target_type.deep_view(),
        }
    }
}

impl ID for Reference {
    open spec fn id_spec(&self) -> Seq<char> {
        self.id@
    }

    fn id(&self) -> (r: &str) {
        self.id.as_str()
    }
}

impl Reference {
    /// A reference with a target.
    pub fn new(id: &str, target_id: &str, target_type: &str) -> (r: Self)
        ensures
            r.deep_view() == (ReferenceView {
                id: id@,
                target_id: Some(target_id@),
                target_type: target_type@,
            }),
    {
        Self {
            id: String::from_str(id),
            target_id: Some(String::from_str(target_id)),
            target_type: String::from_str(target_type),
        }
    }

    /// The entries of a reference, behind those of `base`: `id`, `targetId` and `targetType`.
    pub open spec fn entries_of(v: ReferenceView, base: Seq<(Seq<char>, JsonView)>) -> Seq<
        (Seq<char>, JsonView),
    > {
        base
            .push(("id"@, <String as Wire>::doc_of(v.id)))
            .push(("targetId"@, <Option<String> as Wire>::doc_of(v.target_id)))
            .push(("targetType"@, <String as Wire>::doc_of(v.target_type)))
    }

    /// What the entries of an object give.
    pub open spec fn of_entries(entries: Seq<(Seq<char>, JsonView)>) -> Result<
        ReferenceView,
        DecodeError,
    > {
        match field_of::<String>(entries, "id"@) {
            Err(e) => Err(e),
            Ok(id) => match field_of::<Option<String>>(entries, "targetId"@) {
                Err(e) => Err(e),
                Ok(target_id) => match field_of::<String>(entries, "targetType"@) {
                    Err(e) => Err(e),
                    Ok(target_type) => Ok(ReferenceView { id, target_id, target_type }),
                },
            },
        }
    }

    /// Writes the entries behind those that are there.
    pub fn write_entries(&self, entries: &mut Vec<(String, Json)>)
        ensures
            entries_view(final(entries)) == Self::entries_of(
                self.deep_view(),
                entries_view(old(entries)),
            ),
    {
        write_field(entries, "id", &self.id);
        write_field(entries, "targetId", &self.target_id);
        write_field(entries, "targetType", &self.target_type);
    }

    /// Reads the entries of an object. Entries under other keys are passed over.
    pub fn read_entries(entries: &Vec<(String, Json)>) -> (r: Result<Self, DecodeError>)
        ensures
            deep(r) == Self::of_entries(entries_view(entries)),
    {
        let id = read_field::<String>(entries, "id")?;
        let target_id = read_field::<Option<String>>(entries, "targetId")?;
        let target_type = read_field::<String>(entries, "targetType")?;
        Ok(Reference { id, target_id, target_type })
    }

    /// Whatever stands before them, the entries give the value back.
    pub proof fn entries_round_trip(v: ReferenceView, base: Seq<(Seq<char>, JsonView)>)
        requires
            <Reference as Wire>::sound(v),
        ensures
            Self::of_entries(Self::entries_of(v, base)) == Ok::<ReferenceView, DecodeError>(v),
    {
        broadcast use lookup_after_push;

        reveal_strlit("id");
        reveal_strlit("targetId");
        reveal_strlit("targetType");
        assert("id"@.len() == 2 && "id"@[0] == 'i' && "id"@[1] == 'd');
        assert("targetId"@.len() == 8 && "targetId"@[0] == 't' && "targetId"@[1] == 'a' &&
            "targetId"@[2] == 'r' && "targetId"@[3] == 'g' && "targetId"@[4] == 'e' &&
            "targetId"@[5] == 't' && "targetId"@[6] == 'I' && "targetId"@[7] == 'd');
        assert("targetType"@.len() == 10 && "targetType"@[0] == 't' && "targetType"@[1] == 'a' &&
            "targetType"@[2] == 'r' && "targetType"@[3] == 'g' && "targetType"@[4] == 'e' &&
            "targetType"@[5] == 't' && "targetType"@[6] == 'T' && "targetType"@[7] == 'y' &&
            "targetType"@[8] == 'p' && "targetType"@[9] == 'e');
    }
}

impl Wire for Reference {
    open spec fn doc_of(v: ReferenceView) -> JsonView {
        JsonView::Object(Self::entries_of(v, Seq::empty()))
    }

    open spec fn value_of(doc: JsonView) -> Result<ReferenceView, DecodeError> {
        match doc {
            JsonView::Object(entries) => Self::of_entries(entries),
            _ => Err(DecodeError::WrongType),
        }
    }

    open spec fn absent() -> Result<ReferenceView, DecodeError> {
        Err(DecodeError::MissingField)
    }

    open spec fn sound(v: ReferenceView) -> bool {
        true
    }

    fn encode(&self) -> (doc: Json) {
        let mut entries: Vec<(String, Json)> = Vec::new();
        assert(entries_view(&entries) =~= Seq::empty());
        self.write_entries(&mut entries);
        Json::object(entries)
    }

    fn decode(doc: &Json) -> (r: Result<Reference, DecodeError>) {
        match doc {
            Json::Object(entries) => Self::read_entries(entries),
            _ => Err(DecodeError::WrongType),
        }
    }

    fn decode_absent() -> (r: Result<Reference, DecodeError>) {
        Err(DecodeError::MissingField)
    }

    proof fn round_trip(v: ReferenceView) {
        Self::entries_round_trip(v, Seq::empty());
    }
}

} // verus!
