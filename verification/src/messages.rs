//! The calls that the service takes.

use crate::codec::{deep, field_of, read_field, write_field, Wire};
use crate::data_model::component::{Component, ComponentView};
use crate::data_model::slot::{Slot, SlotView};
use crate::json::{
    entries_view, find, lookup, lookup_after_push, push_entry, DecodeError, Json, JsonView,
};
use crate::text::same_text;
use vstd::prelude::*;

verus! {

/// One call.
#[allow(inconsistent_fields)]
#[derive(Debug, PartialEq)]
pub enum Message {
    /// Asks for a slot and what lies below it.
    GetSlot {
        /// The id of the slot; `"Root"` asks for the root of the world.
        slot_id: String,
        /// How many levels below the slot come in full: none at 0, all at -1. What
        /// lies deeper comes as stubs, so that the shape of the tree is kept.
        depth: i32,
        /// Whether components come in full or as stubs.
        include_component_data: bool,
    },
    /// Adds a slot.
    AddSlot {
        data: Slot,
    },
    /// Changes a slot. The slot is found by its id; attributes left unset stay as they are.
    UpdateSlot {
        data: Slot,
    },
    /// Removes a slot.
    RemoveSlot {
        slot_id: String,
    },
    /// Asks for a component.
    GetComponent {
        component_id: String,
    },
    /// Adds a component to a slot.
    AddComponent {
        data: Component,
        /// The id of the slot that takes the component.
        container_slot_id: String,
    },
    /// Changes a component. The component is found by its id; members left out stay as they are.
    UpdateComponent {
        data: Component,
    },
    /// Removes a component.
    RemoveComponent {
        component_id: String,
    },
}

/// What a [`Message`] holds.
#[allow(inconsistent_fields)]
pub enum MessageView {
    GetSlot { slot_id: Seq<char>, depth: i32, include_component_data: bool },
    AddSlot { data: SlotView },
    UpdateSlot { data: SlotView },
    RemoveSlot { slot_id: Seq<char> },
    GetComponent { component_id: Seq<char> },
    AddComponent { data: ComponentView, container_slot_id: Seq<char> },
    UpdateComponent { data: ComponentView },
    RemoveComponent { component_id: Seq<char> },
}

impl DeepView for Message {
    type V = MessageView;

    open spec fn deep_view(&self) -> MessageView {
        match self {
            Message::GetSlot { slot_id, depth, include_component_data } => MessageView::GetSlot {
                slot_id: slot_id.deep_view(),
                depth: depth.deep_view(),
                include_component_data: include_component_data.deep_view(),
            },
            Message::AddSlot { data } => MessageView::AddSlot {
                data: data.deep_view(),
            },
            Message::UpdateSlot { data } => MessageView::UpdateSlot {
                data: data.deep_view(),
            },
            Message::RemoveSlot { slot_id } => MessageView::RemoveSlot {
                slot_id: slot_id.deep_view(),
            },
            Message::GetComponent { component_id } => MessageView::GetComponent {
                component_id: component_id.deep_view(),
            },
            Message::AddComponent { data, container_slot_id } => MessageView::AddComponent {
                data: data.deep_view(),
                container_slot_id: container_slot_id.deep_view(),
            },
            Message::UpdateComponent { data } => MessageView::UpdateComponent {
                data: data.deep_view(),
            },
            Message::RemoveComponent { component_id } => MessageView::RemoveComponent {
                component_id: component_id.deep_view(),
            },
        }
    }
}

impl Message {
    /// Asks for a slot with `depth` levels below it, none at 0 and all at -1.
    pub fn new_get_slot(slot_id: &str, depth: i32, include_component_data: bool) -> (r: Self)
        ensures
            r.deep_view() == (MessageView::GetSlot {
                slot_id: slot_id@,
                depth,
                include_component_data,
            }),
    {
        Self::GetSlot { slot_id: String::from_str(slot_id), depth, include_component_data }
    }

    /// Adds the slot.
    pub fn new_add_slot(slot: Slot) -> (r: Self)
        ensures
            r == (Message::AddSlot { data: slot }),
    {
        Self::AddSlot { data: slot }
    }

    /// Changes the slot with the id of the given one.
    pub fn new_update_slot(slot: Slot) -> (r: Self)
        ensures
            r == (Message::UpdateSlot { data: slot }),
    {
        Self::UpdateSlot { data: slot }
    }

    /// Removes the slot with the given id.
    pub fn new_remove_slot(slot_id: &str) -> (r: Self)
        ensures
            r.deep_view() == (MessageView::RemoveSlot { slot_id: slot_id@ }),
    {
        Self::RemoveSlot { slot_id: String::from_str(slot_id) }
    }

    /// Asks for the component with the given id.
    pub fn new_get_component(component_id: &str) -> (r: Self)
        ensures
            r.deep_view() == (MessageView::GetComponent { component_id: component_id@ }),
    {
        Self::GetComponent { component_id: String::from_str(component_id) }
    }

    /// Adds the component to the slot with the given id.
    pub fn new_add_component(component: Component, container_slot_id: &str) -> (r: Self)
        ensures
            r matches Message::AddComponent { data, container_slot_id: to }
                && data == component && to@ == container_slot_id@,
    {
        Self::AddComponent {
            data: component,
            container_slot_id: String::from_str(container_slot_id),
        }
    }

    /// Changes the component with the id of the given one.
    pub fn new_update_component(component: Component) -> (r: Self)
        ensures
            r == (Message::UpdateComponent { data: component }),
    {
        Self::UpdateComponent { data: component }
    }

    /// Removes the component with the given id.
    pub fn new_remove_component(component_id: &str) -> (r: Self)
        ensures
            r.deep_view() == (MessageView::RemoveComponent { component_id: component_id@ }),
    {
        Self::RemoveComponent { component_id: String::from_str(component_id) }
    }

    /// The `$type` of a call.
    pub open spec fn tag_spec(v: MessageView) -> Seq<char> {
        match v {
            MessageView::GetSlot { .. } => "getSlot"@,
            MessageView::AddSlot { .. } => "addSlot"@,
            MessageView::UpdateSlot { .. } => "updateSlot"@,
            MessageView::RemoveSlot { .. } => "removeSlot"@,
            MessageView::GetComponent { .. } => "getComponent"@,
            MessageView::AddComponent { .. } => "addComponent"@,
            MessageView::UpdateComponent { .. } => "updateComponent"@,
            MessageView::RemoveComponent { .. } => "removeComponent"@,
        }
    }

    /// The `$type` of the call.
    pub fn tag(&self) -> (r: &'static str)
        ensures
            r@ == Self::tag_spec(self.deep_view()),
    {
        match self {
            Message::GetSlot { .. } => "getSlot",
            Message::AddSlot { .. } => "addSlot",
            Message::UpdateSlot { .. } => "updateSlot",
            Message::RemoveSlot { .. } => "removeSlot",
            Message::GetComponent { .. } => "getComponent",
            Message::AddComponent { .. } => "addComponent",
            Message::UpdateComponent { .. } => "updateComponent",
            Message::RemoveComponent { .. } => "removeComponent",
        }
    }

    /// The entries of a call, behind those of `base`: its `$type`, then what it
    /// holds.
    pub open spec fn entries_of(v: MessageView, base: Seq<(Seq<char>, JsonView)>) -> Seq<
        (Seq<char>, JsonView),
    > {
        let tagged = base.push(("$type"@, JsonView::String(Self::tag_spec(v))));
        match v {
            MessageView::GetSlot { slot_id, depth, include_component_data } => tagged
                .push(("slotId"@, <String as Wire>::doc_of(slot_id)))
                .push(("depth"@, <i32 as Wire>::doc_of(depth)))
                .push(("includeComponentData"@, <bool as Wire>::doc_of(include_component_data))),
            MessageView::AddSlot { data } => tagged
                .push(("data"@, <Slot as Wire>::doc_of(data))),
            MessageView::UpdateSlot { data } => tagged
                .push(("data"@, <Slot as Wire>::doc_of(data))),
            MessageView::RemoveSlot { slot_id } => tagged
                .push(("slotId"@, <String as Wire>::doc_of(slot_id))),
            MessageView::GetComponent { component_id } => tagged
                .push(("componentId"@, <String as Wire>::doc_of(component_id))),
            MessageView::AddComponent { data, container_slot_id } => tagged
                .push(("data"@, <Component as Wire>::doc_of(data)))
                .push(("containerSlotId"@, <String as Wire>::doc_of(container_slot_id))),
            MessageView::UpdateComponent { data } => tagged
                .push(("data"@, <Component as Wire>::doc_of(data))),
            MessageView::RemoveComponent { component_id } => tagged
                .push(("componentId"@, <String as Wire>::doc_of(component_id))),
        }
    }

    /// The call that the entries of an object give: the one that `$type` names,
    /// with what its keys give.
    pub open spec fn of_entries(entries: Seq<(Seq<char>, JsonView)>) -> Result<
        MessageView,
        DecodeError,
    > {
        match lookup(entries, "$type"@) {
            None => Err(DecodeError::MissingField),
            Some(JsonView::String(tag)) => Self::of_tagged(tag, entries),
            Some(_) => Err(DecodeError::WrongType),
        }
    }

    /// The call with the given `$type` that the entries of an object give.
    pub open spec fn of_tagged(tag: Seq<char>, entries: Seq<(Seq<char>, JsonView)>) -> Result<
        MessageView,
        DecodeError,
    > {
        if tag == "getSlot"@ {
            match field_of::<String>(entries, "slotId"@) {
                Err(e) => Err(e),
                Ok(slot_id) => match field_of::<i32>(entries, "depth"@) {
                    Err(e) => Err(e),
                    Ok(depth) => match field_of::<bool>(entries, "includeComponentData"@) {
                        Err(e) => Err(e),
                        Ok(include_component_data) => Ok(
                            MessageView::GetSlot { slot_id, depth, include_component_data },
                        ),
                    },
                },
            }
        } else if tag == "addSlot"@ {
            match field_of::<Slot>(entries, "data"@) {
                Err(e) => Err(e),
                Ok(data) => Ok(MessageView::AddSlot { data }),
            }
        } else if tag == "updateSlot"@ {
            match field_of::<Slot>(entries, "data"@) {
                Err(e) => Err(e),
                Ok(data) => Ok(MessageView::UpdateSlot { data }),
            }
        } else if tag == "removeSlot"@ {
            match field_of::<String>(entries, "slotId"@) {
                Err(e) => Err(e),
                Ok(slot_id) => Ok(MessageView::RemoveSlot { slot_id }),
            }
        } else if tag == "getComponent"@ {
            match field_of::<String>(entries, "componentId"@) {
                Err(e) => Err(e),
                Ok(component_id) => Ok(MessageView::GetComponent { component_id }),
            }
        } else if tag == "addComponent"@ {
            match field_of::<Component>(entries, "data"@) {
                Err(e) => Err(e),
                Ok(data) => match field_of::<String>(entries, "containerSlotId"@) {
                    Err(e) => Err(e),
                    Ok(container_slot_id) => Ok(
                        MessageView::AddComponent { data, container_slot_id },
                    ),
                },
            }
        } else if tag == "updateComponent"@ {
            match field_of::<Component>(entries, "data"@) {
                Err(e) => Err(e),
                Ok(data) => Ok(MessageView::UpdateComponent { data }),
            }
        } else if tag == "removeComponent"@ {
            match field_of::<String>(entries, "componentId"@) {
                Err(e) => Err(e),
                Ok(component_id) => Ok(MessageView::RemoveComponent { component_id }),
            }
        } else {
            Err(DecodeError::UnknownTag)
        }
    }

    /// Whether a call comes back from its document as it went in: the slot or
    /// component that it carries does.
    pub open spec fn sound_spec(v: MessageView) -> bool {
        match v {
            MessageView::AddSlot { data } => <Slot as Wire>::sound(data),
            MessageView::UpdateSlot { data } => <Slot as Wire>::sound(data),
            MessageView::AddComponent { data, .. } => <Component as Wire>::sound(data),
            MessageView::UpdateComponent { data } => <Component as Wire>::sound(data),
            _ => true,
        }
    }

    /// Writes the entries behind those that are there.
    pub fn write_entries(&self, entries: &mut Vec<(String, Json)>)
        ensures
            entries_view(final(entries)) == Self::entries_of(
                self.deep_view(),
                entries_view(old(entries)),
            ),
    {
        push_entry(entries, "$type", Json::text(self.tag()));
        match self {
            Message::GetSlot { slot_id, depth, include_component_data } => {
                write_field(entries, "slotId", slot_id);
                write_field(entries, "depth", depth);
                write_field(entries, "includeComponentData", include_component_data);
            },
            Message::AddSlot { data } => {
                write_field(entries, "data", data);
            },
            Message::UpdateSlot { data } => {
                write_field(entries, "data", data);
            },
            Message::RemoveSlot { slot_id } => {
                write_field(entries, "slotId", slot_id);
            },
            Message::GetComponent { component_id } => {
                write_field(entries, "componentId", component_id);
            },
            Message::AddComponent { data, container_slot_id } => {
                write_field(entries, "data", data);
                write_field(entries, "containerSlotId", container_slot_id);
            },
            Message::UpdateComponent { data } => {
                write_field(entries, "data", data);
            },
            Message::RemoveComponent { component_id } => {
                write_field(entries, "componentId", component_id);
            },
        }
    }

    /// Reads the entries of an object. Entries under other keys are passed over.
    pub fn read_entries(entries: &Vec<(String, Json)>) -> (r: Result<Self, DecodeError>)
        ensures
            deep(r) == Self::of_entries(entries_view(entries)),
    {
        let tag = match find(entries, "$type") {
            None => {
                return Err(DecodeError::MissingField);
            },
            Some(Json::String(tag)) => tag.as_str(),
            Some(_) => {
                return Err(DecodeError::WrongType);
            },
        };
        if same_text(tag, "getSlot") {
            let slot_id = read_field::<String>(entries, "slotId")?;
            let depth = read_field::<i32>(entries, "depth")?;
            let include_component_data = read_field::<bool>(entries, "includeComponentData")?;
            Ok(Message::GetSlot { slot_id, depth, include_component_data })
        } else if same_text(tag, "addSlot") {
            let data = read_field::<Slot>(entries, "data")?;
            Ok(Message::AddSlot { data })
        } else if same_text(tag, "updateSlot") {
            let data = read_field::<Slot>(entries, "data")?;
            Ok(Message::UpdateSlot { data })
        } else if same_text(tag, "removeSlot") {
            let slot_id = read_field::<String>(entries, "slotId")?;
            Ok(Message::RemoveSlot { slot_id })
        } else if same_text(tag, "getComponent") {
            let component_id = read_field::<String>(entries, "componentId")?;
            Ok(Message::GetComponent { component_id })
        } else if same_text(tag, "addComponent") {
            let data = read_field::<Component>(entries, "data")?;
            let container_slot_id = read_field::<String>(entries, "containerSlotId")?;
            Ok(Message::AddComponent { data, container_slot_id })
        } else if same_text(tag, "updateComponent") {
            let data = read_field::<Component>(entries, "data")?;
            Ok(Message::UpdateComponent { data })
        } else if same_text(tag, "removeComponent") {
            let component_id = read_field::<String>(entries, "componentId")?;
            Ok(Message::RemoveComponent { component_id })
        } else {
            Err(DecodeError::UnknownTag)
        }
    }

    /// Whatever stands before them, the entries of a sound call give the call
    /// back.
    #[verifier::rlimit(60)]
    pub proof fn entries_round_trip(v: MessageView, base: Seq<(Seq<char>, JsonView)>)
        requires
            Self::sound_spec(v),
        ensures
            Self::of_entries(Self::entries_of(v, base)) == Ok::<MessageView, DecodeError>(v),
    {
        broadcast use lookup_after_push;

        reveal_strlit("getSlot");
        reveal_strlit("addSlot");
        reveal_strlit("updateSlot");
        reveal_strlit("removeSlot");
        reveal_strlit("getComponent");
        reveal_strlit("addComponent");
        reveal_strlit("updateComponent");
        reveal_strlit("removeComponent");
        reveal_strlit("$type");
        reveal_strlit("slotId");
        reveal_strlit("depth");
        reveal_strlit("includeComponentData");
        reveal_strlit("data");
        reveal_strlit("componentId");
        reveal_strlit("containerSlotId");
        assert("getSlot"@.len() == 7 && "getSlot"@[0] == 'g' && "getSlot"@[1] == 'e' &&
            "getSlot"@[2] == 't' && "getSlot"@[3] == 'S' && "getSlot"@[4] == 'l' &&
            "getSlot"@[5] == 'o' && "getSlot"@[6] == 't');
        assert("addSlot"@.len() == 7 && "addSlot"@[0] == 'a' && "addSlot"@[1] == 'd' &&
            "addSlot"@[2] == 'd' && "addSlot"@[3] == 'S' && "addSlot"@[4] == 'l' &&
            "addSlot"@[5] == 'o' && "addSlot"@[6] == 't');
        assert("updateSlot"@.len() == 10 && "updateSlot"@[0] == 'u' && "updateSlot"@[1] == 'p' &&
            "updateSlot"@[2] == 'd' && "updateSlot"@[3] == 'a' && "updateSlot"@[4] == 't' &&
            "updateSlot"@[5] == 'e' && "updateSlot"@[6] == 'S' && "updateSlot"@[7] == 'l' &&
            "updateSlot"@[8] == 'o' && "updateSlot"@[9] == 't');
        assert("removeSlot"@.len() == 10 && "removeSlot"@[0] == 'r' && "removeSlot"@[1] == 'e' &&
            "removeSlot"@[2] == 'm' && "removeSlot"@[3] == 'o' && "removeSlot"@[4] == 'v' &&
            "removeSlot"@[5] == 'e' && "removeSlot"@[6] == 'S' && "removeSlot"@[7] == 'l' &&
            "removeSlot"@[8] == 'o' && "removeSlot"@[9] == 't');
        assert("getComponent"@.len() == 12 && "getComponent"@[0] == 'g' &&
            "getComponent"@[1] == 'e' && "getComponent"@[2] == 't' && "getComponent"@[3] == 'C' &&
            "getComponent"@[4] == 'o' && "getComponent"@[5] == 'm' && "getComponent"@[6] == 'p' &&
            "getComponent"@[7] == 'o' && "getComponent"@[8] == 'n' && "getComponent"@[9] == 'e' &&
            "getComponent"@[10] == 'n' && "getComponent"@[11] == 't');
        assert("addComponent"@.len() == 12 && "addComponent"@[0] == 'a' &&
            "addComponent"@[1] == 'd' && "addComponent"@[2] == 'd' && "addComponent"@[3] == 'C' &&
            "addComponent"@[4] == 'o' && "addComponent"@[5] == 'm' && "addComponent"@[6] == 'p' &&
            "addComponent"@[7] == 'o' && "addComponent"@[8] == 'n' && "addComponent"@[9] == 'e' &&
            "addComponent"@[10] == 'n' && "addComponent"@[11] == 't');
        assert("updateComponent"@.len() == 15 && "updateComponent"@[0] == 'u' &&
            "updateComponent"@[1] == 'p' && "updateComponent"@[2] == 'd' &&
            "updateComponent"@[3] == 'a' && "updateComponent"@[4] == 't' &&
            "updateComponent"@[5] == 'e' && "updateComponent"@[6] == 'C' &&
            "updateComponent"@[7] == 'o' && "updateComponent"@[8] == 'm' &&
            "updateComponent"@[9] == 'p' && "updateComponent"@[10] == 'o' &&
            "updateComponent"@[11] == 'n' && "updateComponent"@[12] == 'e' &&
            "updateComponent"@[13] == 'n' && "updateComponent"@[14] == 't');
        assert("removeComponent"@.len() == 15 && "removeComponent"@[0] == 'r' &&
            "removeComponent"@[1] == 'e' && "removeComponent"@[2] == 'm' &&
            "removeComponent"@[3] == 'o' && "removeComponent"@[4] == 'v' &&
            "removeComponent"@[5] == 'e' && "removeComponent"@[6] == 'C' &&
            "removeComponent"@[7] == 'o' && "removeComponent"@[8] == 'm' &&
            "removeComponent"@[9] == 'p' && "removeComponent"@[10] == 'o' &&
            "removeComponent"@[11] == 'n' && "removeComponent"@[12] == 'e' &&
            "removeComponent"@[13] == 'n' && "removeComponent"@[14] == 't');
        assert("$type"@.len() == 5 && "$type"@[0] == '$' && "$type"@[1] == 't' &&
            "$type"@[2] == 'y' && "$type"@[3] == 'p' && "$type"@[4] == 'e');
        assert("slotId"@.len() == 6 && "slotId"@[0] == 's' && "slotId"@[1] == 'l' &&
            "slotId"@[2] == 'o' && "slotId"@[3] == 't' && "slotId"@[4] == 'I' &&
            "slotId"@[5] == 'd');
        assert("depth"@.len() == 5 && "depth"@[0] == 'd' && "depth"@[1] == 'e' &&
            "depth"@[2] == 'p' && "depth"@[3] == 't' && "depth"@[4] == 'h');
        assert("includeComponentData"@.len() == 20 && "includeComponentData"@[0] == 'i' &&
            "includeComponentData"@[1] == 'n' && "includeComponentData"@[2] == 'c' &&
            "includeComponentData"@[3] == 'l' && "includeComponentData"@[4] == 'u' &&
            "includeComponentData"@[5] == 'd' && "includeComponentData"@[6] == 'e' &&
            "includeComponentData"@[7] == 'C' && "includeComponentData"@[8] == 'o' &&
            "includeComponentData"@[9] == 'm' && "includeComponentData"@[10] == 'p' &&
            "includeComponentData"@[11] == 'o' && "includeComponentData"@[12] == 'n' &&
            "includeComponentData"@[13] == 'e' && "includeComponentData"@[14] == 'n' &&
            "includeComponentData"@[15] == 't' && "includeComponentData"@[16] == 'D' &&
            "includeComponentData"@[17] == 'a' && "includeComponentData"@[18] == 't' &&
            "includeComponentData"@[19] == 'a');
        assert("data"@.len() == 4 && "data"@[0] == 'd' && "data"@[1] == 'a' &&
            "data"@[2] == 't' && "data"@[3] == 'a');
        assert("componentId"@.len() == 11 && "componentId"@[0] == 'c' &&
            "componentId"@[1] == 'o' && "componentId"@[2] == 'm' && "componentId"@[3] == 'p' &&
            "componentId"@[4] == 'o' && "componentId"@[5] == 'n' && "componentId"@[6] == 'e' &&
            "componentId"@[7] == 'n' && "componentId"@[8] == 't' && "componentId"@[9] == 'I' &&
            "componentId"@[10] == 'd');
        assert("containerSlotId"@.len() == 15 && "containerSlotId"@[0] == 'c' &&
            "containerSlotId"@[1] == 'o' && "containerSlotId"@[2] == 'n' &&
            "containerSlotId"@[3] == 't' && "containerSlotId"@[4] == 'a' &&
            "containerSlotId"@[5] == 'i' && "containerSlotId"@[6] == 'n' &&
            "containerSlotId"@[7] == 'e' && "containerSlotId"@[8] == 'r' &&
            "containerSlotId"@[9] == 'S' && "containerSlotId"@[10] == 'l' &&
            "containerSlotId"@[11] == 'o' && "containerSlotId"@[12] == 't' &&
            "containerSlotId"@[13] == 'I' && "containerSlotId"@[14] == 'd');
        match v {
            MessageView::AddSlot { data } => <Slot as Wire>::round_trip(data),
            MessageView::UpdateSlot { data } => <Slot as Wire>::round_trip(data),
            MessageView::AddComponent { data, .. } => <Component as Wire>::round_trip(data),
            MessageView::UpdateComponent { data } => <Component as Wire>::round_trip(data),
            _ => {},
        }
    }
}

impl Wire for Message {
    open spec fn doc_of(v: MessageView) -> JsonView {
        JsonView::Object(Self::entries_of(v, Seq::empty()))
    }

    open spec fn value_of(doc: JsonView) -> Result<MessageView, DecodeError> {
        match doc {
            JsonView::Object(entries) => Self::of_entries(entries),
            _ => Err(DecodeError::WrongType),
        }
    }

    open spec fn absent() -> Result<MessageView, DecodeError> {
        Err(DecodeError::MissingField)
    }

    open spec fn sound(v: MessageView) -> bool {
        Self::sound_spec(v)
    }

    fn encode(&self) -> (doc: Json) {
        let mut entries: Vec<(String, Json)> = Vec::new();
        assert(entries_view(&entries) =~= Seq::empty());
        self.write_entries(&mut entries);
        Json::object(entries)
    }

    fn decode(doc: &Json) -> (r: Result<Message, DecodeError>) {
        match doc {
            Json::Object(entries) => Self::read_entries(entries),
            _ => Err(DecodeError::WrongType),
        }
    }

    fn decode_absent() -> (r: Result<Message, DecodeError>) {
        Err(DecodeError::MissingField)
    }

    proof fn round_trip(v: MessageView) {
        Self::entries_round_trip(v, Seq::empty());
    }
}

/// A call on its way out: the call and the id under which its reply is
/// expected.
#[derive(Debug, PartialEq)]
pub struct MessageWrapper {
    /// The call.
    pub inner: Message,
    /// The id of this call. The reply carries it back.
    pub message_id: String,
}

/// What a [`MessageWrapper`] holds.
pub struct MessageWrapperView {
    pub inner: MessageView,
    pub message_id: Seq<char>,
}

impl DeepView for MessageWrapper {
    type V = MessageWrapperView;

    open spec fn deep_view(&self) -> MessageWrapperView {
        MessageWrapperView { inner: self.inner.deep_view(), message_id: self.message_id@ }
    }
}

impl Wire for MessageWrapper {
    /// One object: the entries of the call, then `messageId`.
    open spec fn doc_of(v: MessageWrapperView) -> JsonView {
        JsonView::Object(
            Message::entries_of(v.inner, Seq::empty()).push(
                ("messageId"@, JsonView::String(v.message_id)),
            ),
        )
    }

    open spec fn value_of(doc: JsonView) -> Result<MessageWrapperView, DecodeError> {
        match doc {
            JsonView::Object(entries) => match Message::of_entries(entries) {
                Err(e) => Err(e),
                Ok(inner) => match field_of::<String>(entries, "messageId"@) {
                    Err(e) => Err(e),
                    Ok(message_id) => Ok(MessageWrapperView { inner, message_id }),
                },
            },
            _ => Err(DecodeError::WrongType),
        }
    }

    open spec fn absent() -> Result<MessageWrapperView, DecodeError> {
        Err(DecodeError::MissingField)
    }

    open spec fn sound(v: MessageWrapperView) -> bool {
        Message::sound_spec(v.inner)
    }

    fn encode(&self) -> (doc: Json) {
        let mut entries: Vec<(String, Json)> = Vec::new();
        assert(entries_view(&entries) =~= Seq::empty());
        self.inner.write_entries(&mut entries);
        write_field(&mut entries, "messageId", &self.message_id);
        Json::object(entries)
    }

    fn decode(doc: &Json) -> (r: Result<MessageWrapper, DecodeError>) {
        match doc {
            Json::Object(entries) => {
                let inner = Message::read_entries(entries)?;
                let message_id = read_field::<String>(entries, "messageId")?;
                Ok(MessageWrapper { inner, message_id })
            },
            _ => Err(DecodeError::WrongType),
        }
    }

    fn decode_absent() -> (r: Result<MessageWrapper, DecodeError>) {
        Err(DecodeError::MissingField)
    }

    proof fn round_trip(v: MessageWrapperView) {
        broadcast use lookup_after_push;

        Message::entries_round_trip(v.inner, Seq::empty());
        Message::message_id_stays_clear(v.inner, Seq::empty(), JsonView::String(v.message_id));
    }
}

impl Message {
    /// An entry under `messageId` behind those of a call changes nothing about
    /// what the call reads as.
    pub proof fn message_id_stays_clear(
        v: MessageView,
        base: Seq<(Seq<char>, JsonView)>,
        id: JsonView,
    )
        ensures
            Self::of_entries(Self::entries_of(v, base).push(("messageId"@, id)))
                == Self::of_entries(Self::entries_of(v, base)),
    {
        broadcast use lookup_after_push;

        reveal_strlit("messageId");
        reveal_strlit("$type");
        reveal_strlit("slotId");
        reveal_strlit("depth");
        reveal_strlit("includeComponentData");
        reveal_strlit("data");
        reveal_strlit("componentId");
        reveal_strlit("containerSlotId");
        assert("messageId"@.len() == 9 && "messageId"@[0] == 'm' && "messageId"@[1] == 'e' &&
            "messageId"@[2] == 's' && "messageId"@[3] == 's' && "messageId"@[4] == 'a' &&
            "messageId"@[5] == 'g' && "messageId"@[6] == 'e' && "messageId"@[7] == 'I' &&
            "messageId"@[8] == 'd');
        assert("$type"@.len() == 5 && "$type"@[0] == '$' && "$type"@[1] == 't' &&
            "$type"@[2] == 'y' && "$type"@[3] == 'p' && "$type"@[4] == 'e');
        assert("slotId"@.len() == 6 && "slotId"@[0] == 's' && "slotId"@[1] == 'l' &&
            "slotId"@[2] == 'o' && "slotId"@[3] == 't' && "slotId"@[4] == 'I' &&
            "slotId"@[5] == 'd');
        assert("depth"@.len() == 5 && "depth"@[0] == 'd' && "depth"@[1] == 'e' &&
            "depth"@[2] == 'p' && "depth"@[3] == 't' && "depth"@[4] == 'h');
        assert("includeComponentData"@.len() == 20 && "includeComponentData"@[0] == 'i' &&
            "includeComponentData"@[1] == 'n' && "includeComponentData"@[2] == 'c' &&
            "includeComponentData"@[3] == 'l' && "includeComponentData"@[4] == 'u' &&
            "includeComponentData"@[5] == 'd' && "includeComponentData"@[6] == 'e' &&
            "includeComponentData"@[7] == 'C' && "includeComponentData"@[8] == 'o' &&
            "includeComponentData"@[9] == 'm' && "includeComponentData"@[10] == 'p' &&
            "includeComponentData"@[11] == 'o' && "includeComponentData"@[12] == 'n' &&
            "includeComponentData"@[13] == 'e' && "includeComponentData"@[14] == 'n' &&
            "includeComponentData"@[15] == 't' && "includeComponentData"@[16] == 'D' &&
            "includeComponentData"@[17] == 'a' && "includeComponentData"@[18] == 't' &&
            "includeComponentData"@[19] == 'a');
        assert("data"@.len() == 4 && "data"@[0] == 'd' && "data"@[1] == 'a' &&
            "data"@[2] == 't' && "data"@[3] == 'a');
        assert("componentId"@.len() == 11 && "componentId"@[0] == 'c' &&
            "componentId"@[1] == 'o' && "componentId"@[2] == 'm' && "componentId"@[3] == 'p' &&
            "componentId"@[4] == 'o' && "componentId"@[5] == 'n' && "componentId"@[6] == 'e' &&
            "componentId"@[7] == 'n' && "componentId"@[8] == 't' && "componentId"@[9] == 'I' &&
            "componentId"@[10] == 'd');
        assert("containerSlotId"@.len() == 15 && "containerSlotId"@[0] == 'c' &&
            "containerSlotId"@[1] == 'o' && "containerSlotId"@[2] == 'n' &&
            "containerSlotId"@[3] == 't' && "containerSlotId"@[4] == 'a' &&
            "containerSlotId"@[5] == 'i' && "containerSlotId"@[6] == 'n' &&
            "containerSlotId"@[7] == 'e' && "containerSlotId"@[8] == 'r' &&
            "containerSlotId"@[9] == 'S' && "containerSlotId"@[10] == 'l' &&
            "containerSlotId"@[11] == 'o' && "containerSlotId"@[12] == 't' &&
            "containerSlotId"@[13] == 'I' && "containerSlotId"@[14] == 'd');
    }
}

} // verus!
