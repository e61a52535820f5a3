//! The replies of the service.

use crate::codec::{deep, field_of, read_field, write_field, Wire};
use crate::data_model::component::{Component, ComponentView};
use crate::data_model::slot::{Slot, SlotView};
use crate::json::{
    entries_view, find, lookup, lookup_after_push, push_entry, DecodeError, Json, JsonView,
};
use crate::text::same_text;
use vstd::prelude::*;

verus! {

/// What a reply carries besides its outcome.
#[allow(inconsistent_fields)]
#[derive(Debug, PartialEq)]
pub enum ResponseKind {
    /// Nothing: the call was taken note of.
    Response,
    /// A slot, if there is one, with the depth to which it comes in full.
    SlotData { depth: i32, data: Option<Slot> },
    /// A component, if there is one.
    ComponentData { data: Option<Component> },
}

/// What a [`ResponseKind`] holds.
#[allow(inconsistent_fields)]
pub enum ResponseKindView {
    Response,
    SlotData { depth: i32, data: Option<SlotView> },
    ComponentData { data: Option<ComponentView> },
}

impl DeepView for ResponseKind {
    type V = ResponseKindView;

    open spec fn deep_view(&self) -> ResponseKindView {
        match self {
            ResponseKind::Response => ResponseKindView::Response,
            ResponseKind::SlotData { depth, data } => ResponseKindView::SlotData {
                depth: *depth,
                data: data.deep_view(),
            },
            ResponseKind::ComponentData { data } => ResponseKindView::ComponentData {
                data: data.deep_view(),
            },
        }
    }
}

impl ResponseKind {
    /// The `$type` of a kind of reply.
    pub open spec fn tag_spec(v: ResponseKindView) -> Seq<char> {
        match v {
            ResponseKindView::Response => "response"@,
            ResponseKindView::SlotData { .. } => "slotData"@,
            ResponseKindView::ComponentData { .. } => "componentData"@,
        }
    }

    /// The `$type` of the kind of reply.
    pub fn tag(&self) -> (r: &'static str)
        ensures
            r@ == Self::tag_spec(self.deep_view()),
    {
        match self {
            ResponseKind::Response => "response",
            ResponseKind::SlotData { .. } => "slotData",
            ResponseKind::ComponentData { .. } => "componentData",
        }
    }

    /// The entries of a kind of reply, behind those of `base`: its `$type`, then
    /// what it holds.
    pub open spec fn entries_of(v: ResponseKindView, base: Seq<(Seq<char>, JsonView)>) -> Seq<
        (Seq<char>, JsonView),
    > {
        let tagged = base.push(("$type"@, JsonView::String(Self::tag_spec(v))));
        match v {
            ResponseKindView::Response => tagged,
            ResponseKindView::SlotData { depth, data } => tagged
                .push(("depth"@, <i32 as Wire>::doc_of(depth)))
                .push(("data"@, <Option<Slot> as Wire>::doc_of(data))),
            ResponseKindView::ComponentData { data } => tagged
                .push(("data"@, <Option<Component> as Wire>::doc_of(data))),
        }
    }

    /// The kind of reply that the entries of an object give: the one that
    /// `$type` names, with what its keys give. Without an entry under `data`, or
    /// with `null` there, there is no slot or component.
    pub open spec fn of_entries(entries: Seq<(Seq<char>, JsonView)>) -> Result<
        ResponseKindView,
        DecodeError,
    > {
        match lookup(entries, "$type"@) {
            None => Err(DecodeError::MissingField),
            Some(JsonView::String(tag)) => if tag == "response"@ {
                Ok(ResponseKindView::Response)
            } else if tag == "slotData"@ {
                match field_of::<i32>(entries, "depth"@) {
                    Err(e) => Err(e),
                    Ok(depth) => match field_of::<Option<Slot>>(entries, "data"@) {
                        Err(e) => Err(e),
                        Ok(data) => Ok(ResponseKindView::SlotData { depth, data }),
                    },
                }
            } else if tag == "componentData"@ {
                match field_of::<Option<Component>>(entries, "data"@) {
                    Err(e) => Err(e),
                    Ok(data) => Ok(ResponseKindView::ComponentData { data }),
                }
            } else {
                Err(DecodeError::UnknownTag)
            },
            Some(_) => Err(DecodeError::WrongType),
        }
    }

    /// Whether a kind of reply comes back from its entries as it went in: the
    /// slot or component that it carries does.
    pub open spec fn sound_spec(v: ResponseKindView) -> bool {
        match v {
            ResponseKindView::Response => true,
            ResponseKindView::SlotData { data, .. } => <Option<Slot> as Wire>::sound(data),
            ResponseKindView::ComponentData { data } => <Option<Component> as Wire>::sound(data),
        }
    }

    /// Writes the entries behind those that are there.
    pub fn write_entries(&self, entries: &mut Vec<(String, Json)>)
        ensures
            entries_view(final(entries)) == Self::entries_of(
                self.deep_view(),
                entries_view(old(entries)),
            ),
    {
        push_entry(entries, "$type", Json::text(self.tag()));
        match self {
            ResponseKind::Response => {},
            ResponseKind::SlotData { depth, data } => {
                write_field(entries, "depth", depth);
                write_field(entries, "data", data);
            },
            ResponseKind::ComponentData { data } => {
                write_field(entries, "data", data);
            },
        }
    }

    /// Reads the entries of an object. Entries under other keys are passed over.
    pub fn read_entries(entries: &Vec<(String, Json)>) -> (r: Result<Self, DecodeError>)
        ensures
            deep(r) == Self::of_entries(entries_view(entries)),
    {
        let tag = match find(entries, "$type") {
            None => {
                return Err(DecodeError::MissingField);
            },
            Some(Json::String(tag)) => tag.as_str(),
            Some(_) => {
                return Err(DecodeError::WrongType);
            },
        };
        if same_text(tag, "response") {
            Ok(ResponseKind::Response)
        } else if same_text(tag, "slotData") {
            let depth = read_field::<i32>(entries, "depth")?;
            let data = read_field::<Option<Slot>>(entries, "data")?;
            Ok(ResponseKind::SlotData { depth, data })
        } else if same_text(tag, "componentData") {
            let data = read_field::<Option<Component>>(entries, "data")?;
            Ok(ResponseKind::ComponentData { data })
        } else {
            Err(DecodeError::UnknownTag)
        }
    }

    /// Whatever stands before them, the entries of a sound kind of reply give
    /// it back.
    pub proof fn entries_round_trip(v: ResponseKindView, base: Seq<(Seq<char>, JsonView)>)
        requires
            Self::sound_spec(v),
        ensures
            Self::of_entries(Self::entries_of(v, base)) == Ok::<ResponseKindView, DecodeError>(v),
    {
        broadcast use lookup_after_push;

        reveal_strlit("response");
        reveal_strlit("slotData");
        reveal_strlit("componentData");
        reveal_strlit("$type");
        reveal_strlit("depth");
        reveal_strlit("data");
        assert("response"@.len() == 8 && "response"@[0] == 'r' && "response"@[1] == 'e' &&
            "response"@[2] == 's' && "response"@[3] == 'p' && "response"@[4] == 'o' &&
            "response"@[5] == 'n' && "response"@[6] == 's' && "response"@[7] == 'e');
        assert("slotData"@.len() == 8 && "slotData"@[0] == 's' && "slotData"@[1] == 'l' &&
            "slotData"@[2] == 'o' && "slotData"@[3] == 't' && "slotData"@[4] == 'D' &&
            "slotData"@[5] == 'a' && "slotData"@[6] == 't' && "slotData"@[7] == 'a');
        assert("componentData"@.len() == 13 && "componentData"@[0] == 'c' &&
            "componentData"@[1] == 'o' && "componentData"@[2] == 'm' &&
            "componentData"@[3] == 'p' && "componentData"@[4] == 'o' &&
            "componentData"@[5] == 'n' && "componentData"@[6] == 'e' &&
            "componentData"@[7] == 'n' && "componentData"@[8] == 't' &&
            "componentData"@[9] == 'D' && "componentData"@[10] == 'a' &&
            "componentData"@[11] == 't' && "componentData"@[12] == 'a');
        assert("$type"@.len() == 5 && "$type"@[0] == '$' && "$type"@[1] == 't' &&
            "$type"@[2] == 'y' && "$type"@[3] == 'p' && "$type"@[4] == 'e');
        assert("depth"@.len() == 5 && "depth"@[0] == 'd' && "depth"@[1] == 'e' &&
            "depth"@[2] == 'p' && "depth"@[3] == 't' && "depth"@[4] == 'h');
        assert("data"@.len() == 4 && "data"@[0] == 'd' && "data"@[1] == 'a' &&
            "data"@[2] == 't' && "data"@[3] == 'a');
        match v {
            ResponseKindView::Response => {},
            ResponseKindView::SlotData { data, .. } => <Option<Slot> as Wire>::round_trip(data),
            ResponseKindView::ComponentData { data } => <Option<Component> as Wire>::round_trip(
                data,
            ),
        }
    }

    /// Entries under the keys of the envelope, behind those of a kind of reply,
    /// change nothing about what the kind reads as.
    pub proof fn envelope_stays_clear(
        v: ResponseKindView,
        base: Seq<(Seq<char>, JsonView)>,
        id: JsonView,
        success: JsonView,
        info: JsonView,
    )
        ensures
            Self::of_entries(
                Self::entries_of(v, base)
                    .push(("sourceMessageId"@, id))
                    .push(("success"@, success))
                    .push(("errorInfo"@, info)),
            ) == Self::of_entries(Self::entries_of(v, base)),
    {
        broadcast use lookup_after_push;

        reveal_strlit("sourceMessageId");
        reveal_strlit("success");
        reveal_strlit("errorInfo");
        reveal_strlit("$type");
        reveal_strlit("depth");
        reveal_strlit("data");
        assert("sourceMessageId"@.len() == 15 && "sourceMessageId"@[0] == 's' &&
            "sourceMessageId"@[1] == 'o' && "sourceMessageId"@[2] == 'u' &&
            "sourceMessageId"@[3] == 'r' && "sourceMessageId"@[4] == 'c' &&
            "sourceMessageId"@[5] == 'e' && "sourceMessageId"@[6] == 'M' &&
            "sourceMessageId"@[7] == 'e' && "sourceMessageId"@[8] == 's' &&
            "sourceMessageId"@[9] == 's' && "sourceMessageId"@[10] == 'a' &&
            "sourceMessageId"@[11] == 'g' && "sourceMessageId"@[12] == 'e' &&
            "sourceMessageId"@[13] == 'I' && "sourceMessageId"@[14] == 'd');
        assert("success"@.len() == 7 && "success"@[0] == 's' && "success"@[1] == 'u' &&
            "success"@[2] == 'c' && "success"@[3] == 'c' && "success"@[4] == 'e' &&
            "success"@[5] == 's' && "success"@[6] == 's');
        assert("errorInfo"@.len() == 9 && "errorInfo"@[0] == 'e' && "errorInfo"@[1] == 'r' &&
            "errorInfo"@[2] == 'r' && "errorInfo"@[3] == 'o' && "errorInfo"@[4] == 'r' &&
            "errorInfo"@[5] == 'I' && "errorInfo"@[6] == 'n' && "errorInfo"@[7] == 'f' &&
            "errorInfo"@[8] == 'o');
        assert("$type"@.len() == 5 && "$type"@[0] == '$' && "$type"@[1] == 't' &&
            "$type"@[2] == 'y' && "$type"@[3] == 'p' && "$type"@[4] == 'e');
        assert("depth"@.len() == 5 && "depth"@[0] == 'd' && "depth"@[1] == 'e' &&
            "depth"@[2] == 'p' && "depth"@[3] == 't' && "depth"@[4] == 'h');
        assert("data"@.len() == 4 && "data"@[0] == 'd' && "data"@[1] == 'a' &&
            "data"@[2] == 't' && "data"@[3] == 'a');
    }
}

/// One reply.
#[derive(Debug, PartialEq)]
pub struct Response {
    /// What the reply carries.
    pub kind: ResponseKind,
    /// The id of the call that this answers, if the service names one.
    pub source_message_id: Option<String>,
    /// Whether the service did what was asked.
    pub success: bool,
    /// What the service says went wrong.
    pub error_info: Option<String>,
}

/// What a [`Response`] holds.
pub struct ResponseView {
    pub kind: ResponseKindView,
    pub source_message_id: Option<Seq<char>>,
    pub success: bool,
    pub error_info: Option<Seq<char>>,
}

impl DeepView for Response {
    type V = ResponseView;

    open spec fn deep_view(&self) -> ResponseView {
        ResponseView {
            kind: self.kind.deep_view(),
            source_message_id: self.source_message_id.deep_view(),
            success: self.success,
            error_info: self.error_info.deep_view(),
        }
    }
}

impl Wire for Response {
    /// One object: the entries of the kind, then `sourceMessageId`, `success`
    /// and `errorInfo`.
    open spec fn doc_of(v: ResponseView) -> JsonView {
        JsonView::Object(
            ResponseKind::entries_of(v.kind, Seq::empty())
                .push(("sourceMessageId"@, <Option<String> as Wire>::doc_of(v.source_message_id)))
                .push(("success"@, JsonView::Bool(v.success)))
                .push(("errorInfo"@, <Option<String> as Wire>::doc_of(v.error_info))),
        )
    }

    open spec fn value_of(doc: JsonView) -> Result<ResponseView, DecodeError> {
        match doc {
            JsonView::Object(entries) => match ResponseKind::of_entries(entries) {
                Err(e) => Err(e),
                Ok(kind) => match field_of::<Option<String>>(entries, "sourceMessageId"@) {
                    Err(e) => Err(e),
                    Ok(source_message_id) => match field_of::<bool>(entries, "success"@) {
                        Err(e) => Err(e),
                        Ok(success) => match field_of::<Option<String>>(entries, "errorInfo"@) {
                            Err(e) => Err(e),
                            Ok(error_info) => Ok(
                                ResponseView { kind, source_message_id, success, error_info },
                            ),
                        },
                    },
                },
            },
            _ => Err(DecodeError::WrongType),
        }
    }

    open spec fn absent() -> Result<ResponseView, DecodeError> {
        Err(DecodeError::MissingField)
    }

    open spec fn sound(v: ResponseView) -> bool {
        ResponseKind::sound_spec(v.kind)
    }

    fn encode(&self) -> (doc: Json) {
        let mut entries: Vec<(String, Json)> = Vec::new();
        assert(entries_view(&entries) =~= Seq::empty());
        self.kind.write_entries(&mut entries);
        write_field(&mut entries, "sourceMessageId", &self.source_message_id);
        write_field(&mut entries, "success", &self.success);
        write_field(&mut entries, "errorInfo", &self.error_info);
        Json::object(entries)
    }

    fn decode(doc: &Json) -> (r: Result<Response, DecodeError>) {
        match doc {
            Json::Object(entries) => {
                let kind = ResponseKind::read_entries(entries)?;
                let source_message_id = read_field::<Option<String>>(entries, "sourceMessageId")?;
                let success = read_field::<bool>(entries, "success")?;
                let error_info = read_field::<Option<String>>(entries, "errorInfo")?;
                Ok(Response { kind, source_message_id, success, error_info })
            },
            _ => Err(DecodeError::WrongType),
        }
    }

    fn decode_absent() -> (r: Result<Response, DecodeError>) {
        Err(DecodeError::MissingField)
    }

    proof fn round_trip(v: ResponseView) {
        broadcast use lookup_after_push;

        ResponseKind::entries_round_trip(v.kind, Seq::empty());
        ResponseKind::envelope_stays_clear(
            v.kind,
            Seq::empty(),
            <Option<String> as Wire>::doc_of(v.source_message_id),
            JsonView::Bool(v.success),
            <Option<String> as Wire>::doc_of(v.error_info),
        );
        reveal_strlit("sourceMessageId");
        reveal_strlit("success");
        reveal_strlit("errorInfo");
        assert("sourceMessageId"@.len() == 15 && "sourceMessageId"@[0] == 's' &&
            "sourceMessageId"@[1] == 'o' && "sourceMessageId"@[2] == 'u' &&
            "sourceMessageId"@[3] == 'r' && "sourceMessageId"@[4] == 'c' &&
            "sourceMessageId"@[5] == 'e' && "sourceMessageId"@[6] == 'M' &&
            "sourceMessageId"@[7] == 'e' && "sourceMessageId"@[8] == 's' &&
            "sourceMessageId"@[9] == 's' && "sourceMessageId"@[10] == 'a' &&
            "sourceMessageId"@[11] == 'g' && "sourceMessageId"@[12] == 'e' &&
            "sourceMessageId"@[13] == 'I' && "sourceMessageId"@[14] == 'd');
        assert("success"@.len() == 7 && "success"@[0] == 's' && "success"@[1] == 'u' &&
            "success"@[2] == 'c' && "success"@[3] == 'c' && "success"@[4] == 'e' &&
            "success"@[5] == 's' && "success"@[6] == 's');
        assert("errorInfo"@.len() == 9 && "errorInfo"@[0] == 'e' && "errorInfo"@[1] == 'r' &&
            "errorInfo"@[2] == 'r' && "errorInfo"@[3] == 'o' && "errorInfo"@[4] == 'r' &&
            "errorInfo"@[5] == 'I' && "errorInfo"@[6] == 'n' && "errorInfo"@[7] == 'f' &&
            "errorInfo"@[8] == 'o');
    }
}

} // verus!
