//! Components: what is attached to a slot.

use crate::codec::{deep, field_of, read_field, write_field, Wire};
use crate::data_model::{Worker, ID};
use crate::data_model::member::{
    decode_named_members, encode_named_members, member_named, named_member_docs, named_members_of,
    named_members_round_trip, named_members_sound, named_members_view, named_members_well_named,
    read_named_members_are_well_named, Member, MemberView,
};
use crate::json::{
    entries_view, find, lookup, lookup_after_push, push_entry, DecodeError, Json, JsonView,
};
use vstd::prelude::*;

verus! {

/// A component with its members under their names. The members stand in the
/// order of their names, each name once: the order says nothing, and so there
/// is one order only.
#[derive(Debug, PartialEq, Default)]
pub struct Component {
    pub id: String,
    pub is_reference_only: bool,
    pub component_type: String,
    pub members: Vec<(String, Member)>,
}

/// What a [`Component`] holds.
pub struct ComponentView {
    pub id: Seq<char>,
    pub is_reference_only: bool,
    pub component_type: Seq<char>,
    pub members: Seq<(Seq<char>, MemberView)>,
}

impl DeepView for Component {
    type V = ComponentView;

    open spec fn deep_view(&self) -> ComponentView {
        ComponentView {
            id: self.id@,
            is_reference_only: self.is_reference_only,
            component_type: self.component_type@,
            members: named_members_view(&self.members),
        }
    }
}

impl ID for Component {
    open spec fn id_spec(&self) -> Seq<char> {
        self.id@
    }

    fn id(&self) -> (r: &str) {
        self.id.as_str()
    }
}

impl Worker for Component {
    open spec fn is_reference_only_spec(&self) -> bool {
        self.is_reference_only
    }

    fn is_reference_only(&self) -> (r: bool) {
        self.is_reference_only
    }
}

impl Component {
    /// The entries of a component, behind those of `base`: `id`,
    /// `isReferenceOnly`, `componentType` and `members`.
    pub open spec fn entries_of(v: ComponentView, base: Seq<(Seq<char>, JsonView)>) -> Seq<
        (Seq<char>, JsonView),
    > {
        base
            .push(("id"@, JsonView::String(v.id)))
            .push(("isReferenceOnly"@, JsonView::Bool(v.is_reference_only)))
            .push(("componentType"@, JsonView::String(v.component_type)))
            .push(("members"@, JsonView::Object(named_member_docs(v.members))))
    }

    /// What the entries of an object give. Under `members`, `null` stands for
    /// no members.
    pub open spec fn of_entries(entries: Seq<(Seq<char>, JsonView)>) -> Result<
        ComponentView,
        DecodeError,
    > {
        match field_of::<String>(entries, "id"@) {
            Err(e) => Err(e),
            Ok(id) => match field_of::<bool>(entries, "isReferenceOnly"@) {
                Err(e) => Err(e),
                Ok(is_reference_only) => match field_of::<String>(entries, "componentType"@) {
                    Err(e) => Err(e),
                    Ok(component_type) => match Self::members_of(lookup(entries, "members"@)) {
                        Err(e) => Err(e),
                        Ok(members) => Ok(
                        ComponentView { id, is_reference_only, component_type, members },
                    ),
                    },
                },
            },
        }
    }

    /// The members that the value under `members` gives.
    pub open spec fn members_of(doc: Option<JsonView>) -> Result<
        Seq<(Seq<char>, MemberView)>,
        DecodeError,
    > {
        match doc {
            None => Err(DecodeError::MissingField),
            Some(JsonView::Null) => Ok(Seq::empty()),
            Some(JsonView::Object(named)) => named_members_of(named),
            Some(_) => Err(DecodeError::WrongType),
        }
    }

    /// The member under a name, if there is one.
    pub fn member(&self, name: &str) -> (r: Option<&Member>)
        ensures
            match r {
                Some(m) => exists|i: int|
                    0 <= i < self.members.len() && self.members[i].0@ == name@ && *m
                        == self.members[i].1,
                None => forall|i: int| 0 <= i < self.members.len() ==> self.members[i].0@ != name@,
            },
    {
        member_named(&self.members, name)
    }

    /// Whether the members stand in the order of their names, and so do those of
    /// every object among them.
    pub open spec fn well_named(v: ComponentView) -> bool {
        named_members_well_named(v.members)
    }

    /// What is read from the entries of an object has its names in order.
    pub proof fn read_is_well_named(entries: Seq<(Seq<char>, JsonView)>)
        ensures
            Self::of_entries(entries) matches Ok(v) ==> Self::well_named(v),
    {
        if let Some(JsonView::Object(named)) = lookup(entries, "members"@) {
            read_named_members_are_well_named(named);
        }
    }

    /// A component whose entries hold `null` under `members` has no members.
    pub proof fn null_members_are_none(entries: Seq<(Seq<char>, JsonView)>)
        requires
            lookup(entries, "members"@) == Some(JsonView::Null),
            Self::of_entries(entries) is Ok,
        ensures
            Self::of_entries(entries)->Ok_0.members.len() == 0,
    {
    }

    /// Writes the entries behind those that are there.
    pub fn write_entries(&self, entries: &mut Vec<(String, Json)>)
        ensures
            entries_view(final(entries)) == Self::entries_of(
                self.deep_view(),
                entries_view(old(entries)),
            ),
    {
        write_field(entries, "id", &self.id);
        write_field(entries, "isReferenceOnly", &self.is_reference_only);
        write_field(entries, "componentType", &self.component_type);
        let named = encode_named_members(&self.members);
        push_entry(entries, "members", Json::object(named));
    }

    /// Reads the entries of an object. Entries under other keys are passed over.
    pub fn read_entries(entries: &Vec<(String, Json)>) -> (r: Result<Self, DecodeError>)
        ensures
            deep(r) == Self::of_entries(entries_view(entries)),
    {
        let id = read_field::<String>(entries, "id")?;
        let is_reference_only = read_field::<bool>(entries, "isReferenceOnly")?;
        let component_type = read_field::<String>(entries, "componentType")?;
        let members = match find(entries, "members") {
            None => {
                return Err(DecodeError::MissingField);
            },
            Some(Json::Null) => {
                let none: Vec<(String, Member)> = Vec::new();
                assert(named_members_view(&none) =~= Seq::empty());
                none
            },
            Some(Json::Object(named)) => decode_named_members(named)?,
            Some(_) => {
                return Err(DecodeError::WrongType);
            },
        };
        Ok(Component { id, is_reference_only, component_type, members })
    }

    /// Whatever stands before them, the entries of a sound component give it
    /// back.
    pub proof fn entries_round_trip(v: ComponentView, base: Seq<(Seq<char>, JsonView)>)
        requires
            named_members_sound(v.members),
        ensures
            Self::of_entries(Self::entries_of(v, base)) == Ok::<ComponentView, DecodeError>(v),
    {
        broadcast use lookup_after_push;

        reveal_strlit("id");
        reveal_strlit("isReferenceOnly");
        reveal_strlit("componentType");
        reveal_strlit("members");
        assert("id"@.len() == 2 && "id"@[0] == 'i' && "id"@[1] == 'd');
        assert("isReferenceOnly"@.len() == 15 && "isReferenceOnly"@[0] == 'i' &&
            "isReferenceOnly"@[1] == 's' && "isReferenceOnly"@[2] == 'R' &&
            "isReferenceOnly"@[3] == 'e' && "isReferenceOnly"@[4] == 'f' &&
            "isReferenceOnly"@[5] == 'e' && "isReferenceOnly"@[6] == 'r' &&
            "isReferenceOnly"@[7] == 'e' && "isReferenceOnly"@[8] == 'n' &&
            "isReferenceOnly"@[9] == 'c' && "isReferenceOnly"@[10] == 'e' &&
            "isReferenceOnly"@[11] == 'O' && "isReferenceOnly"@[12] == 'n' &&
            "isReferenceOnly"@[13] == 'l' && "isReferenceOnly"@[14] == 'y');
        assert("componentType"@.len() == 13 && "componentType"@[0] == 'c' &&
            "componentType"@[1] == 'o' && "componentType"@[2] == 'm' &&
            "componentType"@[3] == 'p' && "componentType"@[4] == 'o' &&
            "componentType"@[5] == 'n' && "componentType"@[6] == 'e' &&
            "componentType"@[7] == 'n' && "componentType"@[8] == 't' &&
            "componentType"@[9] == 'T' && "componentType"@[10] == 'y' &&
            "componentType"@[11] == 'p' && "componentType"@[12] == 'e');
        assert("members"@.len() == 7 && "members"@[0] == 'm' && "members"@[1] == 'e' &&
            "members"@[2] == 'm' && "members"@[3] == 'b' && "members"@[4] == 'e' &&
            "members"@[5] == 'r' && "members"@[6] == 's');
        named_members_round_trip(v.members);
    }
}

impl Wire for Component {
    open spec fn doc_of(v: ComponentView) -> JsonView {
        JsonView::Object(Self::entries_of(v, Seq::empty()))
    }

    open spec fn value_of(doc: JsonView) -> Result<ComponentView, DecodeError> {
        match doc {
            JsonView::Object(entries) => Self::of_entries(entries),
            _ => Err(DecodeError::WrongType),
        }
    }

    open spec fn absent() -> Result<ComponentView, DecodeError> {
        Err(DecodeError::MissingField)
    }

    open spec fn sound(v: ComponentView) -> bool {
        named_members_sound(v.members)
    }

    fn encode(&self) -> (doc: Json) {
        let mut entries: Vec<(String, Json)> = Vec::new();
        assert(entries_view(&entries) =~= Seq::empty());
        self.write_entries(&mut entries);
        Json::object(entries)
    }

    fn decode(doc: &Json) -> (r: Result<Component, DecodeError>) {
        match doc {
            Json::Object(entries) => Self::read_entries(entries),
            _ => Err(DecodeError::WrongType),
        }
    }

    fn decode_absent() -> (r: Result<Component, DecodeError>) {
        Err(DecodeError::MissingField)
    }

    proof fn round_trip(v: ComponentView) {
        Self::entries_round_trip(v, Seq::empty());
    }
}

} // verus!
