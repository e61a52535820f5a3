//! Lists of members.

use crate::codec::Wire;
use crate::data_model::ID;
use crate::data_model::member::{
    members_sound, members_view, read_sync_list, sync_list_entries, sync_list_of,
    sync_list_round_trip, write_sync_list, Member, MemberView,
};
use crate::json::{entries_view, DecodeError, Json, JsonView};
use vstd::prelude::*;

verus! {

/// An ordered list of members, itself a member.
#[derive(Debug, PartialEq, Default)]
pub struct SyncList {
    pub id: String,
    pub elements: Vec<Member>,
}

/// What a [`SyncList`] holds.
pub struct SyncListView {
    pub id: Seq<char>,
    pub elements: Seq<MemberView>,
}

impl DeepView for SyncList {
    type V = SyncListView;

    open spec fn deep_view(&self) -> SyncListView {
        SyncListView { id: self.id@, elements: members_view(&self.elements) }
    }
}

impl ID for SyncList {
    open spec fn id_spec(&self) -> Seq<char> {
        self.id@
    }

    fn id(&self) -> (r: &str) {
        self.id.as_str()
    }
}

impl Wire for SyncList {
    open spec fn doc_of(v: SyncListView) -> JsonView {
        JsonView::Object(sync_list_entries(v, Seq::empty()))
    }

    open spec fn value_of(doc: JsonView) -> Result<SyncListView, DecodeError> {
        match doc {
            JsonView::Object(entries) => sync_list_of(entries),
            _ => Err(DecodeError::WrongType),
        }
    }

    open spec fn absent() -> Result<SyncListView, DecodeError> {
        Err(DecodeError::MissingField)
    }

    open spec fn sound(v: SyncListView) -> bool {
        members_sound(v.elements)
    }

    fn encode(&self) -> (doc: Json) {
        let mut entries: Vec<(String, Json)> = Vec::new();
        assert(entries_view(&entries) =~= Seq::empty());
        write_sync_list(self, &mut entries);
        Json::object(entries)
    }

    fn decode(doc: &Json) -> (r: Result<SyncList, DecodeError>) {
        match doc {
            Json::Object(entries) => read_sync_list(entries),
            _ => Err(DecodeError::WrongType),
        }
    }

    fn decode_absent() -> (r: Result<SyncList, DecodeError>) {
        Err(DecodeError::MissingField)
    }

    proof fn round_trip(v: SyncListView) {
        sync_list_round_trip(v, Seq::empty());
    }
}

} // verus!
