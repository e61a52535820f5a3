//! The operations of the RPC interface, as far as they decide anything: which
//! call an RPC request turns into, and which RPC reply the outcome of that call
//! turns into. Sending the call in between is the caller's part.

use crate::controller::command_client::{ClientError, ClientErrorView};
use crate::data_model as dm;
use crate::messages::{Message, MessageView};
use crate::pb::{
    AddOrUpdateComponentRequest, AddOrUpdateSlotRequest, Component, ComponentIdRequest,
    ComponentResponse, ComponentResponseView, GetSlotRequest, RemoveSlotRequest, Slot,
    SlotResponse, SlotResponseView,
};
use crate::pb::convert_utils::ResoPbMapError;
use crate::pb::model::{component_to_dm, component_to_pb, slot_to_dm, slot_to_pb};
use crate::responses::{Response, ResponseKind, ResponseKindView, ResponseView};
use vstd::prelude::*;

verus! {

/// The kinds of failure of an RPC call.
#[derive(Clone, Copy, Debug, PartialEq, Eq)]
pub enum Code {
    /// The request lacks what it must hold or holds what cannot be passed on,
    /// or the service said that the call failed.
    InvalidArgument,
    /// The connection to the service failed.
    Unavailable,
    /// The service answered with a reply of the wrong kind.
    Internal,
}

/// A failed RPC call: its kind and what went wrong, in words.
#[derive(Debug, PartialEq)]
pub struct Status {
    pub code: Code,
    pub message: String,
}

/// What a [`Status`] holds.
pub struct StatusView {
    pub code: Code,
    pub message: Seq<char>,
}

impl DeepView for Status {
    type V = StatusView;

    open spec fn deep_view(&self) -> StatusView {
        StatusView { code: self.code, message: self.message@ }
    }
}

impl Status {
    /// A failure of the given kind.
    pub fn new(code: Code, message: &str) -> (r: Status)
        ensures
            r.deep_view() == (StatusView { code, message: message@ }),
    {
        Status { code, message: String::from_str(message) }
    }
}

/// The failure that a value without a counterpart in the data model makes of
/// a call.
pub open spec fn map_error_status(e: ResoPbMapError) -> StatusView {
    StatusView { code: Code::InvalidArgument, message: e.text() }
}

/// The failure of a request that lacks its data.
pub open spec fn data_required() -> StatusView {
    StatusView { code: Code::InvalidArgument, message: "data is required."@ }
}

/// The failure of a call that was answered with a reply of the wrong kind.
pub open spec fn wrong_kind() -> StatusView {
    StatusView { code: Code::Internal, message: "Incorrect response kind."@ }
}

/// What the failure of a call says where the service gave no reason.
pub open spec fn no_reason() -> Seq<char> {
    "Resonite said there was an error, but did not provide an error message."@
}

impl From<ResoPbMapError> for Status {
    fn from(error: ResoPbMapError) -> (r: Status)
        ensures
            r.deep_view() == map_error_status(error),
    {
        Status { code: Code::InvalidArgument, message: error.to_string() }
    }
}

impl vstd::std_specs::convert::FromSpecImpl<ResoPbMapError> for Status {
    open spec fn obeys_from_spec() -> bool {
        false
    }

    open spec fn from_spec(error: ResoPbMapError) -> Status {
        arbitrary()
    }
}

/// What the outcome of a call means to the RPC caller, before the kind of the
/// reply is looked at: a call that did not get through is `Unavailable`, with
/// the error by name; a call that the service failed is `InvalidArgument`, with
/// the words of the service, or with a standing sentence where it gave none.
pub open spec fn checked_reply(outcome: Result<ResponseView, ClientErrorView>) -> Result<
    ResponseView,
    StatusView,
> {
    match outcome {
        Err(e) => Err(StatusView { code: Code::Unavailable, message: e.debug_text() }),
        Ok(response) => if response.success {
            Ok(response)
        } else {
            Err(
                StatusView {
                    code: Code::InvalidArgument,
                    message: match response.error_info {
                        Some(words) => words,
                        None => no_reason(),
                    },
                },
            )
        },
    }
}

/// The reply to a call about a slot: that of a successful call that was
/// answered with a slot, converted. Any other kind of reply is `Internal`.
pub open spec fn slot_reply(outcome: Result<ResponseView, ClientErrorView>) -> Result<
    SlotResponseView,
    StatusView,
> {
    match checked_reply(outcome) {
        Err(status) => Err(status),
        Ok(response) => match response.kind {
            ResponseKindView::SlotData { depth, data } => Ok(
                SlotResponseView {
                    data: match data {
                        Some(slot) => Some(slot_to_pb(slot)),
                        None => None,
                    },
                    depth,
                },
            ),
            _ => Err(wrong_kind()),
        },
    }
}

/// The reply to a call about a component: that of a successful call that was
/// answered with a component, converted. Any other kind of reply is
/// `Internal`.
pub open spec fn component_reply(outcome: Result<ResponseView, ClientErrorView>) -> Result<
    ComponentResponseView,
    StatusView,
> {
    match checked_reply(outcome) {
        Err(status) => Err(status),
        Ok(response) => match response.kind {
            ResponseKindView::ComponentData { data } => Ok(
                ComponentResponseView {
                    data: match data {
                        Some(component) => Some(component_to_pb(component)),
                        None => None,
                    },
                },
            ),
            _ => Err(wrong_kind()),
        },
    }
}

/// An outcome by what it holds, on both sides.
pub open spec fn deep_outcome<T: DeepView, E: DeepView>(r: Result<T, E>) -> Result<T::V, E::V> {
    match r {
        Ok(v) => Ok(v.deep_view()),
        Err(e) => Err(e.deep_view()),
    }
}

/// Sorts out the calls that failed: on the way, or at the service.
pub fn proxy_grpc_req(outcome: Result<Response, ClientError>) -> (r: Result<Response, Status>)
    ensures
        deep_outcome(r) == checked_reply(deep_outcome(outcome)),
        r matches Ok(response) ==> outcome == Ok::<Response, ClientError>(response),
{
    let response = match outcome {
        Ok(response) => response,
        Err(e) => {
            return Err(Status { code: Code::Unavailable, message: e.debug_text() });
        },
    };
    if !response.success {
        let message = match response.error_info {
            Some(words) => words,
            None => String::from_str(
                "Resonite said there was an error, but did not provide an error message.",
            ),
        };
        return Err(Status { code: Code::InvalidArgument, message });
    }
    Ok(response)
}

/// Turns the outcome of a call about a slot into its RPC reply.
pub fn proxy_slot_req(outcome: Result<Response, ClientError>) -> (r: Result<SlotResponse, Status>)
    ensures
        deep_outcome(r) == slot_reply(deep_outcome(outcome)),
{
    let response = proxy_grpc_req(outcome)?;
    match &response.kind {
        ResponseKind::SlotData { depth, data } => {
            let data = match data {
                Some(slot) => Some(Slot::from_dm(slot)),
                None => None,
            };
            Ok(SlotResponse { data, depth: *depth })
        },
        _ => Err(Status::new(Code::Internal, "Incorrect response kind.")),
    }
}

/// Turns the outcome of a call about a component into its RPC reply.
pub fn proxy_component_req(outcome: Result<Response, ClientError>) -> (r: Result<
    ComponentResponse,
    Status,
>)
    ensures
        deep_outcome(r) == component_reply(deep_outcome(outcome)),
{
    let response = proxy_grpc_req(outcome)?;
    match &response.kind {
        ResponseKind::ComponentData { data } => {
            let data = match data {
                Some(component) => Some(Component::from_dm(component)),
                None => None,
            };
            Ok(ComponentResponse { data })
        },
        _ => Err(Status::new(Code::Internal, "Incorrect response kind.")),
    }
}

/// The call that asks for a slot.
pub fn get_slot(request: &GetSlotRequest) -> (r: Result<Message, Status>)
    ensures
        deep_outcome(r) == Ok::<MessageView, StatusView>(
            MessageView::GetSlot {
                slot_id: request.slot_id@,
                depth: request.depth,
                include_component_data: request.include_component_data,
            },
        ),
{
    Ok(
        Message::GetSlot {
            slot_id: request.slot_id.clone(),
            depth: request.depth,
            include_component_data: request.include_component_data,
        },
    )
}

/// The slot that a request carries, converted: without one the request fails,
/// and so it does with one that has no counterpart in the data model.
pub open spec fn requested_slot(data: Option<crate::pb::model::SlotView>) -> Result<
    dm::slot::SlotView,
    StatusView,
> {
    match data {
        None => Err(data_required()),
        Some(slot) => match slot_to_dm(slot) {
            Ok(slot) => Ok(slot),
            Err(e) => Err(map_error_status(e)),
        },
    }
}

/// The component that a request carries, converted: without one the request
/// fails, and so it does with one that has no counterpart in the data model.
pub open spec fn requested_component(data: Option<crate::pb::model::ComponentView>) -> Result<
    dm::component::ComponentView,
    StatusView,
> {
    match data {
        None => Err(data_required()),
        Some(component) => match component_to_dm(component) {
            Ok(component) => Ok(component),
            Err(e) => Err(map_error_status(e)),
        },
    }
}

/// Converts the slot that a request carries.
fn slot_of_request(data: &Option<Slot>) -> (r: Result<dm::Slot, Status>)
    ensures
        deep_outcome(r) == requested_slot(data.deep_view()),
{
    match data {
        None => Err(Status::new(Code::InvalidArgument, "data is required.")),
        Some(slot) => match slot.try_into_dm() {
            Ok(slot) => Ok(slot),
            Err(e) => Err(Status::from(e)),
        },
    }
}

/// Converts the component that a request carries.
fn component_of_request(data: &Option<Component>) -> (r: Result<dm::Component, Status>)
    ensures
        deep_outcome(r) == requested_component(data.deep_view()),
{
    match data {
        None => Err(Status::new(Code::InvalidArgument, "data is required.")),
        Some(component) => match component.try_into_dm() {
            Ok(component) => Ok(component),
            Err(e) => Err(Status::from(e)),
        },
    }
}

/// The call that adds the slot of the request.
pub fn add_slot(request: &AddOrUpdateSlotRequest) -> (r: Result<Message, Status>)
    ensures
        deep_outcome(r) == match requested_slot(request.data.deep_view()) {
            Ok(data) => Ok(MessageView::AddSlot { data }),
            Err(status) => Err(status),
        },
{
    let data = slot_of_request(&request.data)?;
    Ok(Message::AddSlot { data })
}

/// The call that changes the slot of the request.
pub fn update_slot(request: &AddOrUpdateSlotRequest) -> (r: Result<Message, Status>)
    ensures
        deep_outcome(r) == match requested_slot(request.data.deep_view()) {
            Ok(data) => Ok(MessageView::UpdateSlot { data }),
            Err(status) => Err(status),
        },
{
    let data = slot_of_request(&request.data)?;
    Ok(Message::UpdateSlot { data })
}

/// The call that removes a slot.
pub fn remove_slot(request: &RemoveSlotRequest) -> (r: Result<Message, Status>)
    ensures
        deep_outcome(r) == Ok::<MessageView, StatusView>(
            MessageView::RemoveSlot { slot_id: request.slot_id@ },
        ),
{
    Ok(Message::RemoveSlot { slot_id: request.slot_id.clone() })
}

/// The call that asks for a component.
pub fn get_component(request: &ComponentIdRequest) -> (r: Result<Message, Status>)
    ensures
        deep_outcome(r) == Ok::<MessageView, StatusView>(
            MessageView::GetComponent { component_id: request.component_id@ },
        ),
{
    Ok(Message::GetComponent { component_id: request.component_id.clone() })
}

/// The call that adds the component of the request to a slot.
pub fn add_component(request: &AddOrUpdateComponentRequest) -> (r: Result<Message, Status>)
    ensures
        deep_outcome(r) == match requested_component(request.data.deep_view()) {
            Ok(data) => Ok(
                MessageView::AddComponent { data, container_slot_id: request.container_slot_id@ },
            ),
            Err(status) => Err(status),
        },
{
    let data = component_of_request(&request.data)?;
    Ok(Message::AddComponent { data, container_slot_id: request.container_slot_id.clone() })
}

/// The call that changes the component of the request.
pub fn update_component(request: &AddOrUpdateComponentRequest) -> (r: Result<Message, Status>)
    ensures
        deep_outcome(r) == match requested_component(request.data.deep_view()) {
            Ok(data) => Ok(MessageView::UpdateComponent { data }),
            Err(status) => Err(status),
        },
{
    let data = component_of_request(&request.data)?;
    Ok(Message::UpdateComponent { data })
}

/// The call that removes a component.
pub fn remove_component(request: &ComponentIdRequest) -> (r: Result<Message, Status>)
    ensures
        deep_outcome(r) == Ok::<MessageView, StatusView>(
            MessageView::RemoveComponent { component_id: request.component_id@ },
        ),
{
    Ok(Message::RemoveComponent { component_id: request.component_id.clone() })
}

} // verus!
