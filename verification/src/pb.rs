//! The RPC schema: the second shape of the scene graph, and the requests and
//! replies of its operations.

pub mod convert_utils;
pub mod member;
pub mod model;
pub mod primitives;

pub use convert_utils::ResoPbMapError;
pub use model::{Component, Member, Slot, SyncList, SyncObject};
pub use primitives::{Color, Color32, ColorX, Float2, Float3, Float4, FloatQ, Int2, Int3, Int4};

use model::{ComponentView, SlotView};
use vstd::prelude::*;

verus! {

/// Asks for a slot with `depth` levels below it, none at 0 and all at -1.
#[derive(Debug, PartialEq, Default)]
pub struct GetSlotRequest {
    pub slot_id: String,
    pub depth: i32,
    pub include_component_data: bool,
}

/// Adds a slot, or changes the one with its id.
#[derive(Debug, PartialEq, Default)]
pub struct AddOrUpdateSlotRequest {
    pub data: Option<Slot>,
}

/// Removes a slot.
#[derive(Debug, PartialEq, Default)]
pub struct RemoveSlotRequest {
    pub slot_id: String,
}

/// Asks for a component, or removes one.
#[derive(Debug, PartialEq, Default)]
pub struct ComponentIdRequest {
    pub component_id: String,
}

/// Adds a component to a slot, or changes the one with its id.
#[derive(Debug, PartialEq, Default)]
pub struct AddOrUpdateComponentRequest {
    pub data: Option<Component>,
    pub container_slot_id: String,
}

/// The reply to a call about a slot.
#[derive(Debug, PartialEq, Default)]
pub struct SlotResponse {
    pub data: Option<Slot>,
    pub depth: i32,
}

/// What a [`SlotResponse`] holds.
pub struct SlotResponseView {
    pub data: Option<SlotView>,
    pub depth: i32,
}

impl DeepView for SlotResponse {
    type V = SlotResponseView;

    open spec fn deep_view(&self) -> SlotResponseView {
        SlotResponseView { data: self.data.deep_view(), depth: self.depth }
    }
}

/// The reply to a call about a component.
#[derive(Debug, PartialEq, Default)]
pub struct ComponentResponse {
    pub data: Option<Component>,
}

/// What a [`ComponentResponse`] holds.
pub struct ComponentResponseView {
    pub data: Option<ComponentView>,
}

impl DeepView for ComponentResponse {
    type V = ComponentResponseView;

    open spec fn deep_view(&self) -> ComponentResponseView {
        ComponentResponseView { data: self.data.deep_view() }
    }
}

} // verus!
