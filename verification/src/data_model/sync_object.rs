//! Objects of members.

use crate::codec::Wire;
use crate::data_model::ID;
use crate::data_model::member::{
    member_named, named_members_sound, named_members_view, read_sync_object, sync_object_entries,
    sync_object_of, sync_object_round_trip, write_sync_object, Member, MemberView,
};
use crate::json::{entries_view, DecodeError, Json, JsonView};
use vstd::prelude::*;

verus! {

/// Members under names, together a member. The members stand in the order of
/// their names, each name once: the order says nothing, and so there is one
/// order only.
#[derive(Debug, PartialEq, Default)]
pub struct SyncObject {
    pub id: String,
    pub members: Vec<(String, Member)>,
}

/// What a [`SyncObject`] holds.
pub struct SyncObjectView {
    pub id: Seq<char>,
    pub members: Seq<(Seq<char>, MemberView)>,
}

impl DeepView for SyncObject {
    type V = SyncObjectView;

    open spec fn deep_view(&self) -> SyncObjectView {
        SyncObjectView { id: self.id@, members: named_members_view(&self.members) }
    }
}

impl ID for SyncObject {
    open spec fn id_spec(&self) -> Seq<char> {
        self.id@
    }

    fn id(&self) -> (r: &str) {
        self.id.as_str()
    }
}

impl SyncObject {
    /// The member under a name, if there is one.
    pub fn member(&self, name: &str) -> (r: Option<&Member>)
        ensures
            match r {
                Some(m) => exists|i: int|
                    0 <= i < self.members.len() && self.members[i].0@ == name@ && *m
                        == self.members[i].1,
                None => forall|i: int| 0 <= i < self.members.len() ==> self.members[i].0@ != name@,
            },
    {
        member_named(&self.members, name)
    }
}

impl Wire for SyncObject {
    open spec fn doc_of(v: SyncObjectView) -> JsonView {
        JsonView::Object(sync_object_entries(v, Seq::empty()))
    }

    open spec fn value_of(doc: JsonView) -> Result<SyncObjectView, DecodeError> {
        match doc {
            JsonView::Object(entries) => sync_object_of(entries),
            _ => Err(DecodeError::WrongType),
        }
    }

    open spec fn absent() -> Result<SyncObjectView, DecodeError> {
        Err(DecodeError::MissingField)
    }

    open spec fn sound(v: SyncObjectView) -> bool {
        named_members_sound(v.members)
    }

    fn encode(&self) -> (doc: Json) {
        let mut entries: Vec<(String, Json)> = Vec::new();
        assert(entries_view(&entries) =~= Seq::empty());
        write_sync_object(self, &mut entries);
        Json::object(entries)
    }

    fn decode(doc: &Json) -> (r: Result<SyncObject, DecodeError>) {
        match doc {
            Json::Object(entries) => read_sync_object(entries),
            _ => Err(DecodeError::WrongType),
        }
    }

    fn decode_absent() -> (r: Result<SyncObject, DecodeError>) {
        Err(DecodeError::MissingField)
    }

    proof fn round_trip(v: SyncObjectView) {
        sync_object_round_trip(v, Seq::empty());
    }
}

} // verus!
