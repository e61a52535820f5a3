//! The adapter between the data model and the RPC schema.

use resonite_link::controller::ClientError;
use resonite_link::data_model::{
    ArrayField, Color32, ColorX, Component, Empty, Field, Float3, FloatQ, Int2, Member, Reference,
    Slot, SyncList, SyncObject, F32,
};
use resonite_link::messages::Message;
use resonite_link::pb;
use resonite_link::pb::member::MemberKind;
use resonite_link::pb::ResoPbMapError;
use resonite_link::responses::{Response, ResponseKind};
use resonite_link::server::{
    add_component, add_slot, get_component, get_slot, proxy_component_req, proxy_grpc_req,
    proxy_slot_req, remove_component, remove_slot, update_component, update_slot, Code, Status,
};

fn single(x: f32) -> F32 {
    F32::from_bits(x.to_bits())
}

fn make_test_slot() -> Slot {
    Slot {
        id: "taco".into(),
        is_reference_only: false,
        parent: Reference::new("id", "Target", "Target_type"),
        name: Field::new("n", Some("Name".into())),
        tag: Field::new("t", None),
        position: Field::new("pos", Float3 { x: single(1.), y: single(2.), z: single(3.) }),
        rotation: Field::new(
            "rot",
            FloatQ { x: single(1.), y: single(2.), z: single(3.), w: single(4.) },
        ),
        scale: Field::new("scale", Float3 { x: single(1.), y: single(2.), z: single(3.) }),
        is_active: Field::new("is_active", true),
        is_persistent: Field::new("is_persistent", true),
        order_offset: Field::new("order", 20),
        components: vec![],
        children: vec![],
    }
}

fn make_test_component() -> Component {
    Component {
        id: "c".into(),
        is_reference_only: false,
        component_type: "T".into(),
        members: vec![
            ("byte".into(), Member::Byte(Field::new("b", 200))),
            ("colour".into(), Member::Color32(Field::new("c", Color32 { r: 1, g: 2, b: 3, a: 4 }))),
            (
                "nested".into(),
                Member::SyncObject(SyncObject {
                    id: "o".into(),
                    members: vec![(
                        "list".into(),
                        Member::SyncList(SyncList {
                            id: "l".into(),
                            elements: vec![
                                Member::Empty(Empty { id: "e".into() }),
                                Member::Reference(Reference::new("r", "to", "T")),
                                Member::String(Field::new("s", Some("text".into()))),
                            ],
                        }),
                    )],
                }),
            ),
            ("no pair".into(), Member::NullInt2(Field::new("np", None))),
            ("pair".into(), Member::Int2(Field::new("p", Int2 { x: 1, y: 2 }))),
            ("points".into(), Member::Float3Vec(ArrayField::new("v", vec![Float3::default()]))),
            ("short".into(), Member::Short(Field::new("s", -300))),
            (
                "tint".into(),
                Member::ColorX(Field::new(
                    "x",
                    ColorX {
                        r: single(0.1),
                        g: single(0.2),
                        b: single(0.3),
                        a: single(f32::NAN),
                        profile: "Linear".into(),
                    },
                )),
            ),
        ],
    }
}

#[test]
fn test_bidirectional() {
    let src = make_test_slot();
    let mid: pb::Slot = src.into();
    let output: Slot = mid.try_into().unwrap();
    assert_eq!(output, make_test_slot());
}

#[test]
fn a_member_goes_to_the_schema_and_back_by_the_std_names() {
    let member = || Member::Byte(Field::new("b", 200));
    let mid = pb::Member::from(member());
    assert_eq!(mid.member_kind, Some(MemberKind::Byte(Field::new("b", 200u32))));
    assert_eq!(Member::try_from(mid), Ok(member()));
    assert_eq!(
        Member::try_from(pb::Member { member_kind: None }),
        Err(ResoPbMapError::UnsetOneOfType)
    );
    let component: pb::Component = make_test_component().into();
    assert_eq!(Component::try_from(component), Ok(make_test_component()));
}

#[test]
fn a_whole_tree_comes_back_from_the_schema() {
    let mut root = make_test_slot();
    let mut child = make_test_slot();
    child.id = "child".into();
    child.components.push(make_test_component());
    child.children.push(make_test_slot());
    root.children.push(child);
    root.children.push(make_test_slot());
    root.components.push(make_test_component());
    let mid = pb::Slot::from_dm(&root);
    assert_eq!(mid.children.len(), 2);
    assert_eq!(mid.children[0].components[0].members.len(), 8);
    assert_eq!(mid.try_into_dm().unwrap(), root);
}

#[test]
fn the_schema_holds_wider_integers_and_optional_vectors() {
    let mid = pb::Component::from_dm(&make_test_component());
    assert_eq!(mid.members[0].0, "byte");
    assert_eq!(mid.members[0].1.member_kind, Some(MemberKind::Byte(Field::new("b", 200u32))));
    assert_eq!(mid.members[6].0, "short");
    assert_eq!(mid.members[6].1.member_kind, Some(MemberKind::Short(Field::new("s", -300i32))));
    assert_eq!(
        mid.members[4].1.member_kind,
        Some(MemberKind::Int2(Field::new("p", Some(Int2 { x: 1, y: 2 }))))
    );
    assert_eq!(mid.members[3].1.member_kind, Some(MemberKind::NullInt2(Field::new("np", None))));
    assert_eq!(
        mid.members[1].1.member_kind,
        Some(MemberKind::Color32(Field::new("c", Some(pb::Color32 { r: 1, g: 2, b: 3, a: 4 }))))
    );
}

#[test]
fn members_come_from_the_schema_in_the_order_of_their_names() {
    let member = |id: &str| pb::Member { member_kind: Some(MemberKind::Bool(Field::new(id, true))) };
    let names = ["b", "a", "C", "ab", "", "é", "a b", "B", "aa"];
    let schema = pb::Component {
        id: "c".into(),
        members: names.iter().map(|n| (n.to_string(), member(n))).collect(),
        ..Default::default()
    };
    let component = schema.try_into_dm().unwrap();
    let mut sorted = names.to_vec();
    sorted.sort();
    assert_eq!(sorted, ["", "B", "C", "a", "a b", "aa", "ab", "b", "é"]);
    let got: Vec<&str> = component.members.iter().map(|(n, _)| n.as_str()).collect();
    assert_eq!(got, sorted);
    for (name, m) in &component.members {
        assert_eq!(m, &Member::Bool(Field::new(name, true)));
    }

    let mut other = pb::Component { id: "c".into(), ..Default::default() };
    other.members = names.iter().rev().map(|n| (n.to_string(), member(n))).collect();
    assert_eq!(other.try_into_dm().unwrap(), component);
    assert_eq!(pb::Component::from_dm(&component).try_into_dm().unwrap(), component);
}

#[test]
fn a_member_without_a_kind_has_no_counterpart() {
    assert_eq!(pb::Member { member_kind: None }.try_into_dm(), Err(ResoPbMapError::UnsetOneOfType));
    let list = pb::Member {
        member_kind: Some(MemberKind::SyncList(pb::SyncList {
            id: "l".into(),
            elements: vec![
                pb::Member { member_kind: Some(MemberKind::Bool(Field::new("b", true))) },
                pb::Member { member_kind: None },
                pb::Member { member_kind: Some(MemberKind::Byte(Field::new("b", 256))) },
            ],
        })),
    };
    assert_eq!(list.try_into_dm(), Err(ResoPbMapError::UnsetOneOfType));
}

#[test]
fn an_integer_that_is_too_large_has_no_counterpart() {
    let member = |kind| pb::Member { member_kind: Some(kind) };
    assert_eq!(
        member(MemberKind::Byte(Field::new("b", 255))).try_into_dm(),
        Ok(Member::Byte(Field::new("b", 255)))
    );
    assert_eq!(
        member(MemberKind::Byte(Field::new("b", 256))).try_into_dm(),
        Err(ResoPbMapError::IntegerOverflow)
    );
    assert_eq!(
        member(MemberKind::Ushort(Field::new("b", 65536))).try_into_dm(),
        Err(ResoPbMapError::IntegerOverflow)
    );
    assert_eq!(
        member(MemberKind::Sbyte(Field::new("b", -129))).try_into_dm(),
        Err(ResoPbMapError::IntegerOverflow)
    );
    assert_eq!(
        member(MemberKind::Sbyte(Field::new("b", -128))).try_into_dm(),
        Ok(Member::SByte(Field::new("b", -128)))
    );
    assert_eq!(
        member(MemberKind::Short(Field::new("b", 32768))).try_into_dm(),
        Err(ResoPbMapError::IntegerOverflow)
    );
    assert_eq!(
        member(MemberKind::Color32(Field::new("c", Some(pb::Color32 { r: 0, g: 0, b: 256, a: 0 }))))
            .try_into_dm(),
        Err(ResoPbMapError::IntegerOverflow)
    );
    assert_eq!(
        member(MemberKind::Uint(Field::new("b", u32::MAX))).try_into_dm(),
        Ok(Member::UInt(Field::new("b", u32::MAX)))
    );
}

#[test]
fn what_the_schema_leaves_out_comes_as_the_default() {
    let member = |kind| pb::Member { member_kind: Some(kind) };
    assert_eq!(
        member(MemberKind::Float3(Field::new("v", None))).try_into_dm(),
        Ok(Member::Float3(Field::new("v", Float3::default())))
    );
    assert_eq!(
        member(MemberKind::Color32(Field::new("c", None))).try_into_dm(),
        Ok(Member::Color32(Field::new("c", Color32::default())))
    );
    assert_eq!(
        member(MemberKind::NullFloat3(Field::new("v", None))).try_into_dm(),
        Ok(Member::NullFloat3(Field::new("v", None)))
    );
    let bare = pb::Slot { id: "s".into(), is_reference_only: true, ..Default::default() };
    let slot = bare.try_into_dm().unwrap();
    assert_eq!(slot, Slot { id: "s".into(), is_reference_only: true, ..Default::default() });
    assert_eq!(slot.parent, Reference { id: "".into(), target_id: None, target_type: "".into() });
    assert_eq!(slot.name, Field::new("", None));
    assert_eq!(slot.position, Field::new("", Float3::default()));
    assert_eq!(slot.is_active, Field::new("", false));
    assert_eq!(slot.order_offset, Field::new("", 0));
    let back = pb::Slot::from_dm(&slot);
    assert_eq!(back.name, Some(Field::new("", None)));
    assert_eq!(back.position, Some(Field::new("", Some(Float3::default()))));
}

#[test]
fn a_slot_with_a_bad_member_has_no_counterpart() {
    let mut slot = pb::Slot::from_dm(&make_test_slot());
    let mut child = pb::Slot::from_dm(&make_test_slot());
    child.components.push(pb::Component {
        members: vec![("m".into(), pb::Member { member_kind: None })],
        ..Default::default()
    });
    slot.children.push(child);
    assert_eq!(slot.try_into_dm(), Err(ResoPbMapError::UnsetOneOfType));
}

#[test]
fn conversion_errors_say_what_went_wrong() {
    assert_eq!(
        ResoPbMapError::UnsetOneOfType.to_string(),
        "GRPC value for member was not set, and can not be forwarded"
    );
    assert_eq!(
        ResoPbMapError::IntegerOverflow.to_string(),
        "out of range integral type conversion attempted"
    );
    assert_eq!(
        Status::from(ResoPbMapError::IntegerOverflow),
        Status::new(Code::InvalidArgument, "out of range integral type conversion attempted")
    );
}

fn reply(kind: ResponseKind) -> Result<Response, ClientError> {
    Ok(Response { kind, source_message_id: Some("x_0".into()), success: true, error_info: None })
}

#[test]
fn a_failed_call_is_an_rpc_error() {
    assert_eq!(
        proxy_grpc_req(Err(ClientError::ConnectionClosed)),
        Err(Status::new(Code::Unavailable, "ConnectionClosed"))
    );
    let failed = |error_info: Option<&str>| {
        Ok(Response {
            kind: ResponseKind::SlotData { depth: 0, data: None },
            source_message_id: None,
            success: false,
            error_info: error_info.map(Into::into),
        })
    };
    assert_eq!(
        proxy_grpc_req(failed(Some("No such slot"))),
        Err(Status::new(Code::InvalidArgument, "No such slot"))
    );
    assert_eq!(
        proxy_slot_req(failed(Some("No such slot"))),
        Err(Status::new(Code::InvalidArgument, "No such slot"))
    );
    assert_eq!(
        proxy_component_req(failed(None)),
        Err(Status::new(
            Code::InvalidArgument,
            "Resonite said there was an error, but did not provide an error message."
        ))
    );
    assert_eq!(
        proxy_grpc_req(reply(ResponseKind::Response)),
        reply(ResponseKind::Response).map_err(|_| Status::new(Code::Internal, ""))
    );
}

#[test]
fn a_reply_of_the_wrong_kind_is_internal() {
    let wrong = Err(Status::new(Code::Internal, "Incorrect response kind."));
    assert_eq!(proxy_slot_req(reply(ResponseKind::ComponentData { data: None })), wrong);
    assert_eq!(proxy_slot_req(reply(ResponseKind::Response)), wrong);
    let wrong = Err(Status::new(Code::Internal, "Incorrect response kind."));
    assert_eq!(proxy_component_req(reply(ResponseKind::SlotData { depth: 1, data: None })), wrong);
}

#[test]
fn a_reply_of_the_right_kind_is_converted() {
    assert_eq!(
        proxy_slot_req(reply(ResponseKind::SlotData { depth: 2, data: Some(make_test_slot()) })),
        Ok(pb::SlotResponse { data: Some(pb::Slot::from_dm(&make_test_slot())), depth: 2 })
    );
    assert_eq!(
        proxy_slot_req(reply(ResponseKind::SlotData { depth: -1, data: None })),
        Ok(pb::SlotResponse { data: None, depth: -1 })
    );
    assert_eq!(
        proxy_component_req(reply(ResponseKind::ComponentData { data: Some(make_test_component()) })),
        Ok(pb::ComponentResponse { data: Some(pb::Component::from_dm(&make_test_component())) })
    );
}

#[test]
fn every_operation_makes_its_call() {
    let request = pb::GetSlotRequest { slot_id: "ROOT".into(), depth: 1, include_component_data: true };
    assert_eq!(get_slot(&request), Ok(Message::new_get_slot("ROOT", 1, true)));
    assert_eq!(
        remove_slot(&pb::RemoveSlotRequest { slot_id: "S".into() }),
        Ok(Message::new_remove_slot("S"))
    );
    let by_id = pb::ComponentIdRequest { component_id: "C".into() };
    assert_eq!(get_component(&by_id), Ok(Message::new_get_component("C")));
    assert_eq!(remove_component(&by_id), Ok(Message::new_remove_component("C")));

    let with_slot = pb::AddOrUpdateSlotRequest { data: Some(pb::Slot::from_dm(&make_test_slot())) };
    assert_eq!(add_slot(&with_slot), Ok(Message::new_add_slot(make_test_slot())));
    assert_eq!(update_slot(&with_slot), Ok(Message::new_update_slot(make_test_slot())));
    let with_component = pb::AddOrUpdateComponentRequest {
        data: Some(pb::Component::from_dm(&make_test_component())),
        container_slot_id: "S".into(),
    };
    assert_eq!(
        add_component(&with_component),
        Ok(Message::new_add_component(make_test_component(), "S"))
    );
    assert_eq!(
        update_component(&with_component),
        Ok(Message::new_update_component(make_test_component()))
    );
}

#[test]
fn a_request_without_its_data_is_refused() {
    let required = Err(Status::new(Code::InvalidArgument, "data is required."));
    assert_eq!(add_slot(&pb::AddOrUpdateSlotRequest { data: None }), required);
    let required = Err(Status::new(Code::InvalidArgument, "data is required."));
    assert_eq!(update_slot(&pb::AddOrUpdateSlotRequest { data: None }), required);
    let required = Err(Status::new(Code::InvalidArgument, "data is required."));
    let empty = pb::AddOrUpdateComponentRequest { data: None, container_slot_id: "S".into() };
    assert_eq!(add_component(&empty), required);
    let required = Err(Status::new(Code::InvalidArgument, "data is required."));
    assert_eq!(update_component(&empty), required);
}

#[test]
fn a_request_with_a_bad_member_is_refused() {
    let bad = pb::Component {
        members: vec![("m".into(), pb::Member { member_kind: Some(MemberKind::Byte(Field::new("b", 999))) })],
        ..Default::default()
    };
    let request = pb::AddOrUpdateComponentRequest { data: Some(bad), container_slot_id: "S".into() };
    assert_eq!(
        add_component(&request),
        Err(Status::new(Code::InvalidArgument, "out of range integral type conversion attempted"))
    );
    let unset = pb::Slot {
        components: vec![pb::Component {
            members: vec![("m".into(), pb::Member { member_kind: None })],
            ..Default::default()
        }],
        ..Default::default()
    };
    assert_eq!(
        update_slot(&pb::AddOrUpdateSlotRequest { data: Some(unset) }),
        Err(Status::new(
            Code::InvalidArgument,
            "GRPC value for member was not set, and can not be forwarded"
        ))
    );
}
