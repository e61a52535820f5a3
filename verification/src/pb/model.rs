//! The scene graph in the RPC schema, and the conversions between it and the
//! data model.
//!
//! From the data model to the schema every value has a counterpart. Back, a
//! member without a kind has none, nor has an integer that is too large for
//! its field; an attribute that the schema leaves out comes back as its
//! default.

use crate::codec::{deep, gather, gather_one_more, gather_stays_failed, gather_values, map_ok};
use crate::data_model::field::{Field, FieldView};
use crate::data_model::member::{
    member_well_named, members_well_named, named_members_well_named, MemberView as DmMember,
};
use crate::data_model::reference::{Reference, ReferenceView};
use crate::data_model as dm;
use crate::named::{
    insert_named, names_ascend, place_goes_by_names, sort_by_name, sorted_stays, under_names,
};
use crate::pb::convert_utils::{
    narrowed, to_i16, to_i8, to_u16, to_u8, with_value, Duplicate, ResoPbMapError,
};
use crate::pb::member::{MemberKind, MemberKindView};
use crate::pb::primitives::{
    Color, Color32, ColorX, Float2, Float3, Float4, FloatQ, Int2, Int3, Int4,
};
use crate::text::text_before;
use vstd::prelude::*;

verus! {

/// A member: a kind with what it holds, or nothing where the kind was left
/// unset.
#[derive(Debug, PartialEq, Default)]
pub struct Member {
    pub member_kind: Option<MemberKind>,
}

/// What a [`Member`] holds.
pub struct MemberView {
    pub member_kind: Option<MemberKindView>,
}

/// An ordered list of members.
#[derive(Debug, PartialEq, Default)]
pub struct SyncList {
    pub id: String,
    pub elements: Vec<Member>,
}

/// What a [`SyncList`] holds.
pub struct SyncListView {
    pub id: Seq<char>,
    pub elements: Seq<MemberView>,
}

/// Members under names. The schema knows no order among them; what comes from
/// the data model stands in the order of its names.
#[derive(Debug, PartialEq, Default)]
pub struct SyncObject {
    pub id: String,
    pub members: Vec<(String, Member)>,
}

/// What a [`SyncObject`] holds.
pub struct SyncObjectView {
    pub id: Seq<char>,
    pub members: Seq<(Seq<char>, MemberView)>,
}

/// A component with its members under their names. The schema knows no order
/// among them; what comes from the data model stands in the order of its
/// names.
#[derive(Debug, PartialEq, Default)]
pub struct Component {
    pub id: String,
    pub is_reference_only: bool,
    pub component_type: String,
    pub members: Vec<(String, Member)>,
}

/// What a [`Component`] holds.
pub struct ComponentView {
    pub id: Seq<char>,
    pub is_reference_only: bool,
    pub component_type: Seq<char>,
    pub members: Seq<(Seq<char>, MemberView)>,
}

/// A slot. Each attribute may be left out, and so may the value of a vector.
#[derive(Debug, PartialEq, Default)]
pub struct Slot {
    pub id: String,
    pub is_reference_only: bool,
    pub parent: Option<Reference>,
    pub name: Option<Field<Option<String>>>,
    pub tag: Option<Field<Option<String>>>,
    pub position: Option<Field<Option<Float3>>>,
    pub rotation: Option<Field<Option<FloatQ>>>,
    pub scale: Option<Field<Option<Float3>>>,
    pub is_active: Option<Field<bool>>,
    pub is_persistent: Option<Field<bool>>,
    pub order_offset: Option<Field<i64>>,
    pub components: Vec<Component>,
    pub children: Vec<Slot>,
}

/// What a [`Slot`] holds.
pub struct SlotView {
    pub id: Seq<char>,
    pub is_reference_only: bool,
    pub parent: Option<ReferenceView>,
    pub name: Option<FieldView<Option<Seq<char>>>>,
    pub tag: Option<FieldView<Option<Seq<char>>>>,
    pub position: Option<FieldView<Option<Float3>>>,
    pub rotation: Option<FieldView<Option<FloatQ>>>,
    pub scale: Option<FieldView<Option<Float3>>>,
    pub is_active: Option<FieldView<bool>>,
    pub is_persistent: Option<FieldView<bool>>,
    pub order_offset: Option<FieldView<i64>>,
    pub components: Seq<ComponentView>,
    pub children: Seq<SlotView>,
}

/// What a member holds.
pub open spec fn member_view(m: &Member) -> MemberView
    decreases m, 1nat,
{
    MemberView {
        member_kind: match &m.member_kind {
            Some(k) => Some(kind_view(k)),
            None => None,
        },
    }
}

/// What a kind of member holds.
pub open spec fn kind_view(k: &MemberKind) -> MemberKindView
    decreases k, 0nat,
{
    match k {
        MemberKind::Reference(f) => MemberKindView::Reference(f.deep_view()),
        MemberKind::SyncList(l) => MemberKindView::SyncList(
            SyncListView { id: l.id@, elements: members_view(&l.elements) },
        ),
        MemberKind::SyncObject(o) => MemberKindView::SyncObject(
            SyncObjectView { id: o.id@, members: named_members_view(&o.members) },
        ),
        MemberKind::String(f) => MemberKindView::String(f.deep_view()),
        MemberKind::Uri(f) => MemberKindView::Uri(f.deep_view()),
        MemberKind::Enum(f) => MemberKindView::Enum(f.deep_view()),
        MemberKind::Empty(f) => MemberKindView::Empty(f.deep_view()),
        MemberKind::Byte(f) => MemberKindView::Byte(f.deep_view()),
        MemberKind::Ushort(f) => MemberKindView::Ushort(f.deep_view()),
        MemberKind::Uint(f) => MemberKindView::Uint(f.deep_view()),
        MemberKind::Ulong(f) => MemberKindView::Ulong(f.deep_view()),
        MemberKind::Sbyte(f) => MemberKindView::Sbyte(f.deep_view()),
        MemberKind::Short(f) => MemberKindView::Short(f.deep_view()),
        MemberKind::Int(f) => MemberKindView::Int(f.deep_view()),
        MemberKind::NullInt(f) => MemberKindView::NullInt(f.deep_view()),
        MemberKind::Long(f) => MemberKindView::Long(f.deep_view()),
        MemberKind::Int2(f) => MemberKindView::Int2(f.deep_view()),
        MemberKind::NullInt2(f) => MemberKindView::NullInt2(f.deep_view()),
        MemberKind::Int3(f) => MemberKindView::Int3(f.deep_view()),
        MemberKind::Int4(f) => MemberKindView::Int4(f.deep_view()),
        MemberKind::Float(f) => MemberKindView::Float(f.deep_view()),
        MemberKind::NullFloat(f) => MemberKindView::NullFloat(f.deep_view()),
        MemberKind::Double(f) => MemberKindView::Double(f.deep_view()),
        MemberKind::Bool(f) => MemberKindView::Bool(f.deep_view()),
        MemberKind::NullBool(f) => MemberKindView::NullBool(f.deep_view()),
        MemberKind::Color(f) => MemberKindView::Color(f.deep_view()),
        MemberKind::ColorX(f) => MemberKindView::ColorX(f.deep_view()),
        MemberKind::NullColorX(f) => MemberKindView::NullColorX(f.deep_view()),
        MemberKind::Color32(f) => MemberKindView::Color32(f.deep_view()),
        MemberKind::Float2(f) => MemberKindView::Float2(f.deep_view()),
        MemberKind::Float3(f) => MemberKindView::Float3(f.deep_view()),
        MemberKind::NullFloat3(f) => MemberKindView::NullFloat3(f.deep_view()),
        MemberKind::Float3Vec(f) => MemberKindView::Float3Vec(f.deep_view()),
        MemberKind::Float4(f) => MemberKindView::Float4(f.deep_view()),
        MemberKind::FloatQ(f) => MemberKindView::FloatQ(f.deep_view()),
        MemberKind::NullFloatQ(f) => MemberKindView::NullFloatQ(f.deep_view()),
        MemberKind::FloatQVec(f) => MemberKindView::FloatQVec(f.deep_view()),
    }
}

/// What a list of members holds.
pub open spec fn members_view(list: &Vec<Member>) -> Seq<MemberView>
    decreases list,
{
    Seq::new(
        list.len() as nat,
        |i: int|
            if 0 <= i < list.len() {
                member_view(&list[i])
            } else {
                arbitrary()
            },
    )
}

/// What a list of members under names holds.
pub open spec fn named_members_view(list: &Vec<(String, Member)>) -> Seq<(Seq<char>, MemberView)>
    decreases list,
{
    Seq::new(
        list.len() as nat,
        |i: int|
            if 0 <= i < list.len() {
                (list[i].0@, member_view(&list[i].1))
            } else {
                arbitrary()
            },
    )
}

/// What a slot holds.
pub open spec fn slot_view(s: &Slot) -> SlotView
    decreases s,
{
    SlotView {
        id: s.id@,
        is_reference_only: s.is_reference_only,
        parent: s.parent.deep_view(),
        name: s.name.deep_view(),
        tag: s.tag.deep_view(),
        position: s.position.deep_view(),
        rotation: s.rotation.deep_view(),
        scale: s.scale.deep_view(),
        is_active: s.is_active.deep_view(),
        is_persistent: s.is_persistent.deep_view(),
        order_offset: s.order_offset.deep_view(),
        components: s.components.deep_view(),
        children: slots_view(&s.children),
    }
}

/// What a list of slots holds.
pub open spec fn slots_view(list: &Vec<Slot>) -> Seq<SlotView>
    decreases list,
{
    Seq::new(
        list.len() as nat,
        |i: int|
            if 0 <= i < list.len() {
                slot_view(&list[i])
            } else {
                arbitrary()
            },
    )
}

impl View for Member {
    type V = MemberView;

    open spec fn view(&self) -> MemberView {
        member_view(self)
    }
}

impl DeepView for Member {
    type V = MemberView;

    open spec fn deep_view(&self) -> MemberView {
        member_view(self)
    }
}

impl DeepView for SyncList {
    type V = SyncListView;

    open spec fn deep_view(&self) -> SyncListView {
        SyncListView { id: self.id@, elements: members_view(&self.elements) }
    }
}

impl DeepView for SyncObject {
    type V = SyncObjectView;

    open spec fn deep_view(&self) -> SyncObjectView {
        SyncObjectView { id: self.id@, members: named_members_view(&self.members) }
    }
}

impl DeepView for Component {
    type V = ComponentView;

    open spec fn deep_view(&self) -> ComponentView {
        ComponentView {
            id: self.id@,
            is_reference_only: self.is_reference_only,
            component_type: self.component_type@,
            members: named_members_view(&self.members),
        }
    }
}

impl View for Slot {
    type V = SlotView;

    open spec fn view(&self) -> SlotView {
        slot_view(self)
    }
}

impl DeepView for Slot {
    type V = SlotView;

    open spec fn deep_view(&self) -> SlotView {
        slot_view(self)
    }
}

/// The member of the schema that stands for one of the data model.
pub open spec fn member_to_pb(m: DmMember) -> MemberView
    decreases m, 1nat,
{
    MemberView { member_kind: Some(kind_to_pb(m)) }
}

/// The kind of the schema that stands for a member of the data model: the
/// kind of the same name, with what the member holds.
pub open spec fn kind_to_pb(m: DmMember) -> MemberKindView
    decreases m, 0nat,
{
    match m {
        DmMember::Reference(f) => MemberKindView::Reference(f),
        DmMember::SyncList(l) => MemberKindView::SyncList(
            SyncListView { id: l.id, elements: members_to_pb(l.elements) },
        ),
        DmMember::SyncObject(o) => MemberKindView::SyncObject(
            SyncObjectView { id: o.id, members: named_members_to_pb(o.members) },
        ),
        DmMember::String(f) => MemberKindView::String(f),
        DmMember::Uri(f) => MemberKindView::Uri(f),
        DmMember::Enum(f) => MemberKindView::Enum(f),
        DmMember::Empty(f) => MemberKindView::Empty(f),
        DmMember::Byte(f) => MemberKindView::Byte(
            FieldView { id: f.id, value: f.value as u32 },
        ),
        DmMember::UShort(f) => MemberKindView::Ushort(
            FieldView { id: f.id, value: f.value as u32 },
        ),
        DmMember::UInt(f) => MemberKindView::Uint(f),
        DmMember::ULong(f) => MemberKindView::Ulong(f),
        DmMember::SByte(f) => MemberKindView::Sbyte(
            FieldView { id: f.id, value: f.value as i32 },
        ),
        DmMember::Short(f) => MemberKindView::Short(
            FieldView { id: f.id, value: f.value as i32 },
        ),
        DmMember::Int(f) => MemberKindView::Int(f),
        DmMember::NullInt(f) => MemberKindView::NullInt(f),
        DmMember::Long(f) => MemberKindView::Long(f),
        DmMember::Int2(f) => MemberKindView::Int2(with_some(f)),
        DmMember::NullInt2(f) => MemberKindView::NullInt2(f),
        DmMember::Int3(f) => MemberKindView::Int3(with_some(f)),
        DmMember::Int4(f) => MemberKindView::Int4(with_some(f)),
        DmMember::Float(f) => MemberKindView::Float(f),
        DmMember::NullFloat(f) => MemberKindView::NullFloat(f),
        DmMember::Double(f) => MemberKindView::Double(f),
        DmMember::Bool(f) => MemberKindView::Bool(f),
        DmMember::NullBool(f) => MemberKindView::NullBool(f),
        DmMember::Color(f) => MemberKindView::Color(with_some(f)),
        DmMember::ColorX(f) => MemberKindView::ColorX(with_some(f)),
        DmMember::NullColorX(f) => MemberKindView::NullColorX(f),
        DmMember::Color32(f) => MemberKindView::Color32(
            FieldView { id: f.id, value: Some(Color32::of_dm(f.value)) },
        ),
        DmMember::Float2(f) => MemberKindView::Float2(with_some(f)),
        DmMember::Float3(f) => MemberKindView::Float3(with_some(f)),
        DmMember::NullFloat3(f) => MemberKindView::NullFloat3(f),
        DmMember::Float3Vec(f) => MemberKindView::Float3Vec(f),
        DmMember::Float4(f) => MemberKindView::Float4(with_some(f)),
        DmMember::FloatQ(f) => MemberKindView::FloatQ(with_some(f)),
        DmMember::NullFloatQ(f) => MemberKindView::NullFloatQ(f),
        DmMember::FloatQVec(f) => MemberKindView::FloatQVec(f),
    }
}

/// The members of the schema that stand for those of the data model, one for
/// one.
pub open spec fn members_to_pb(list: Seq<DmMember>) -> Seq<MemberView>
    decreases list,
{
    Seq::new(
        list.len(),
        |i: int|
            if 0 <= i < list.len() {
                member_to_pb(list[i])
            } else {
                arbitrary()
            },
    )
}

/// The members of the schema that stand for those of the data model, each
/// under its name.
pub open spec fn named_members_to_pb(list: Seq<(Seq<char>, DmMember)>) -> Seq<
    (Seq<char>, MemberView),
>
    decreases list,
{
    Seq::new(
        list.len(),
        |i: int|
            if 0 <= i < list.len() {
                (list[i].0, member_to_pb(list[i].1))
            } else {
                arbitrary()
            },
    )
}

/// A field with its value as one that is there.
pub open spec fn with_some<V>(f: FieldView<V>) -> FieldView<Option<V>> {
    FieldView { id: f.id, value: Some(f.value) }
}

/// A field with the value that it holds, or with the given one where it holds
/// none.
pub open spec fn value_or_zero<V>(f: FieldView<Option<V>>, zero: V) -> FieldView<V> {
    FieldView {
        id: f.id,
        value: match f.value {
            Some(v) => v,
            None => zero,
        },
    }
}

/// The field, or where there is none the field without an id that holds the
/// given value.
pub open spec fn field_or_zero<V>(f: Option<FieldView<V>>, zero: V) -> FieldView<V> {
    match f {
        Some(f) => f,
        None => FieldView { id: Seq::empty(), value: zero },
    }
}

/// The reference, or where there is none the reference without an id that
/// points nowhere.
pub open spec fn reference_or_default(r: Option<ReferenceView>) -> ReferenceView {
    match r {
        Some(r) => r,
        None => ReferenceView { id: Seq::empty(), target_id: None, target_type: Seq::empty() },
    }
}

/// The member of the data model that one of the schema stands for. A member
/// without a kind stands for none.
pub open spec fn member_to_dm(p: MemberView) -> Result<DmMember, ResoPbMapError>
    decreases p, 1nat,
{
    match p.member_kind {
        None => Err(ResoPbMapError::UnsetOneOfType),
        Some(k) => kind_to_dm(k),
    }
}

/// The member of the data model that a kind of the schema stands for: the
/// member of the same name. An integer that is too large for the member stands
/// for none; a vector or colour that was left out stands for zeros.
pub open spec fn kind_to_dm(k: MemberKindView) -> Result<DmMember, ResoPbMapError>
    decreases k, 0nat,
{
    match k {
        MemberKindView::Reference(f) => Ok(DmMember::Reference(f)),
        MemberKindView::SyncList(l) => map_ok(
            members_to_dm(l.elements),
            |elements| DmMember::SyncList(dm::sync_list::SyncListView { id: l.id, elements }),
        ),
        MemberKindView::SyncObject(o) => map_ok(
            named_members_to_dm(o.members),
            |members|
                DmMember::SyncObject(dm::sync_object::SyncObjectView { id: o.id, members }),
        ),
        MemberKindView::String(f) => Ok(DmMember::String(f)),
        MemberKindView::Uri(f) => Ok(DmMember::Uri(f)),
        MemberKindView::Enum(f) => Ok(DmMember::Enum(f)),
        MemberKindView::Empty(f) => Ok(DmMember::Empty(f)),
        MemberKindView::Byte(f) => map_ok(
            narrowed(f.value as int, u8::MIN as int, u8::MAX as int),
            |v: int| DmMember::Byte(FieldView { id: f.id, value: v as u8 }),
        ),
        MemberKindView::Ushort(f) => map_ok(
            narrowed(f.value as int, u16::MIN as int, u16::MAX as int),
            |v: int| DmMember::UShort(FieldView { id: f.id, value: v as u16 }),
        ),
        MemberKindView::Uint(f) => Ok(DmMember::UInt(f)),
        MemberKindView::Ulong(f) => Ok(DmMember::ULong(f)),
        MemberKindView::Sbyte(f) => map_ok(
            narrowed(f.value as int, i8::MIN as int, i8::MAX as int),
            |v: int| DmMember::SByte(FieldView { id: f.id, value: v as i8 }),
        ),
        MemberKindView::Short(f) => map_ok(
            narrowed(f.value as int, i16::MIN as int, i16::MAX as int),
            |v: int| DmMember::Short(FieldView { id: f.id, value: v as i16 }),
        ),
        MemberKindView::Int(f) => Ok(DmMember::Int(f)),
        MemberKindView::NullInt(f) => Ok(DmMember::NullInt(f)),
        MemberKindView::Long(f) => Ok(DmMember::Long(f)),
        MemberKindView::Int2(f) => Ok(DmMember::Int2(value_or_zero(f, Int2::zero()))),
        MemberKindView::NullInt2(f) => Ok(DmMember::NullInt2(f)),
        MemberKindView::Int3(f) => Ok(DmMember::Int3(value_or_zero(f, Int3::zero()))),
        MemberKindView::Int4(f) => Ok(DmMember::Int4(value_or_zero(f, Int4::zero()))),
        MemberKindView::Float(f) => Ok(DmMember::Float(f)),
        MemberKindView::NullFloat(f) => Ok(DmMember::NullFloat(f)),
        MemberKindView::Double(f) => Ok(DmMember::Double(f)),
        MemberKindView::Bool(f) => Ok(DmMember::Bool(f)),
        MemberKindView::NullBool(f) => Ok(DmMember::NullBool(f)),
        MemberKindView::Color(f) => Ok(DmMember::Color(value_or_zero(f, Color::zero()))),
        MemberKindView::ColorX(f) => Ok(DmMember::ColorX(value_or_zero(f, ColorX::zero()))),
        MemberKindView::NullColorX(f) => Ok(DmMember::NullColorX(f)),
        MemberKindView::Color32(f) => match f.value {
            None => Ok(DmMember::Color32(FieldView { id: f.id, value: dm::Color32::zero() })),
            Some(c) => map_ok(
                c.to_dm(),
                |v| DmMember::Color32(FieldView { id: f.id, value: v }),
            ),
        },
        MemberKindView::Float2(f) => Ok(DmMember::Float2(value_or_zero(f, Float2::zero()))),
        MemberKindView::Float3(f) => Ok(DmMember::Float3(value_or_zero(f, Float3::zero()))),
        MemberKindView::NullFloat3(f) => Ok(DmMember::NullFloat3(f)),
        MemberKindView::Float3Vec(f) => Ok(DmMember::Float3Vec(f)),
        MemberKindView::Float4(f) => Ok(DmMember::Float4(value_or_zero(f, Float4::zero()))),
        MemberKindView::FloatQ(f) => Ok(DmMember::FloatQ(value_or_zero(f, FloatQ::zero()))),
        MemberKindView::NullFloatQ(f) => Ok(DmMember::NullFloatQ(f)),
        MemberKindView::FloatQVec(f) => Ok(DmMember::FloatQVec(f)),
    }
}

/// The members of the data model that those of the schema stand for: all of
/// them, or the first failure.
pub open spec fn members_to_dm(list: Seq<MemberView>) -> Result<
    Seq<DmMember>,
    ResoPbMapError,
>
    decreases list, 1nat,
{
    gather(member_conversions(list))
}

/// What each member of a list gives when it is converted.
pub open spec fn member_conversions(list: Seq<MemberView>) -> Seq<
    Result<DmMember, ResoPbMapError>,
>
    decreases list, 0nat,
{
    Seq::new(
        list.len(),
        |i: int|
            if 0 <= i < list.len() {
                member_to_dm(list[i])
            } else {
                arbitrary()
            },
    )
}

/// The members of the data model that those of the schema stand for, each
/// under its name: all of them in the order of their names, whatever their
/// order in the schema, or the first failure.
pub open spec fn named_members_to_dm(list: Seq<(Seq<char>, MemberView)>) -> Result<
    Seq<(Seq<char>, DmMember)>,
    ResoPbMapError,
>
    decreases list, 1nat,
{
    map_ok(gather(named_member_conversions(list)), |converted| sort_by_name(converted))
}

/// What each member of a list gives when it is converted under its name.
pub open spec fn named_member_conversions(list: Seq<(Seq<char>, MemberView)>) -> Seq<
    Result<(Seq<char>, DmMember), ResoPbMapError>,
>
    decreases list, 0nat,
{
    Seq::new(
        list.len(),
        |i: int|
            if 0 <= i < list.len() {
                map_ok(member_to_dm(list[i].1), |m| (list[i].0, m))
            } else {
                arbitrary()
            },
    )
}

/// The field with the value that it holds, or with the given one where it
/// holds none.
pub fn value_or<T: Duplicate>(f: &Field<Option<T>>, zero: T) -> (r: Field<T>)
    ensures
        r.deep_view() == value_or_zero(f.deep_view(), zero.deep_view()),
{
    match &f.value {
        Some(v) => with_value(f, v.duplicate()),
        None => with_value(f, zero),
    }
}

/// The field, or where there is none the field without an id that holds the
/// given value.
pub fn field_or<T: Duplicate>(f: &Option<Field<T>>, zero: T) -> (r: Field<T>)
    ensures
        r.deep_view() == field_or_zero(f.deep_view(), zero.deep_view()),
{
    match f {
        Some(f) => f.duplicate(),
        None => Field { id: String::new(), value: zero },
    }
}

/// The reference, or where there is none the reference without an id that
/// points nowhere.
pub fn reference_or(r: &Option<Reference>) -> (out: Reference)
    ensures
        out.deep_view() == reference_or_default(r.deep_view()),
{
    match r {
        Some(r) => r.duplicate(),
        None => Reference { id: String::new(), target_id: None, target_type: String::new() },
    }
}

impl Member {
    /// Converts a member of the data model.
    pub fn from_dm(src: &dm::Member) -> (r: Member)
        ensures
            r@ == member_to_pb(src@),
        decreases src, 1nat,
    {
        Member { member_kind: Some(kind_from_dm(src)) }
    }

    /// Converts to a member of the data model.
    pub fn try_into_dm(&self) -> (r: Result<dm::Member, ResoPbMapError>)
        ensures
            deep(r) == member_to_dm(self@),
        decreases self, 1nat,
    {
        match &self.member_kind {
            None => Err(ResoPbMapError::UnsetOneOfType),
            Some(k) => kind_try_into_dm(k),
        }
    }
}

/// Converts a member of the data model to its kind in the schema.
#[verifier::rlimit(60)]
pub fn kind_from_dm(src: &dm::Member) -> (r: MemberKind)
    ensures
        kind_view(&r) == kind_to_pb(src@),
    decreases src, 0nat,
{
    match src {
        dm::Member::Reference(f) => MemberKind::Reference(f.duplicate()),
        dm::Member::SyncList(l) => MemberKind::SyncList(SyncList::from_dm(l)),
        dm::Member::SyncObject(o) => MemberKind::SyncObject(SyncObject::from_dm(o)),
        dm::Member::String(f) => MemberKind::String(f.duplicate()),
        dm::Member::Uri(f) => MemberKind::Uri(f.duplicate()),
        dm::Member::Enum(f) => MemberKind::Enum(f.duplicate()),
        dm::Member::Empty(f) => MemberKind::Empty(f.duplicate()),
        dm::Member::Byte(f) => MemberKind::Byte(with_value(f, f.value as u32)),
        dm::Member::UShort(f) => MemberKind::Ushort(with_value(f, f.value as u32)),
        dm::Member::UInt(f) => MemberKind::Uint(f.duplicate()),
        dm::Member::ULong(f) => MemberKind::Ulong(f.duplicate()),
        dm::Member::SByte(f) => MemberKind::Sbyte(with_value(f, f.value as i32)),
        dm::Member::Short(f) => MemberKind::Short(with_value(f, f.value as i32)),
        dm::Member::Int(f) => MemberKind::Int(f.duplicate()),
        dm::Member::NullInt(f) => MemberKind::NullInt(f.duplicate()),
        dm::Member::Long(f) => MemberKind::Long(f.duplicate()),
        dm::Member::Int2(f) => MemberKind::Int2(with_value(f, Some(f.value.duplicate()))),
        dm::Member::NullInt2(f) => MemberKind::NullInt2(f.duplicate()),
        dm::Member::Int3(f) => MemberKind::Int3(with_value(f, Some(f.value.duplicate()))),
        dm::Member::Int4(f) => MemberKind::Int4(with_value(f, Some(f.value.duplicate()))),
        dm::Member::Float(f) => MemberKind::Float(f.duplicate()),
        dm::Member::NullFloat(f) => MemberKind::NullFloat(f.duplicate()),
        dm::Member::Double(f) => MemberKind::Double(f.duplicate()),
        dm::Member::Bool(f) => MemberKind::Bool(f.duplicate()),
        dm::Member::NullBool(f) => MemberKind::NullBool(f.duplicate()),
        dm::Member::Color(f) => MemberKind::Color(with_value(f, Some(f.value.duplicate()))),
        dm::Member::ColorX(f) => MemberKind::ColorX(with_value(f, Some(f.value.duplicate()))),
        dm::Member::NullColorX(f) => MemberKind::NullColorX(f.duplicate()),
        dm::Member::Color32(f) => MemberKind::Color32(
            with_value(f, Some(Color32::from_dm(&f.value))),
        ),
        dm::Member::Float2(f) => MemberKind::Float2(with_value(f, Some(f.value.duplicate()))),
        dm::Member::Float3(f) => MemberKind::Float3(with_value(f, Some(f.value.duplicate()))),
        dm::Member::NullFloat3(f) => MemberKind::NullFloat3(f.duplicate()),
        dm::Member::Float3Vec(f) => MemberKind::Float3Vec(f.duplicate()),
        dm::Member::Float4(f) => MemberKind::Float4(with_value(f, Some(f.value.duplicate()))),
        dm::Member::FloatQ(f) => MemberKind::FloatQ(with_value(f, Some(f.value.duplicate()))),
        dm::Member::NullFloatQ(f) => MemberKind::NullFloatQ(f.duplicate()),
        dm::Member::FloatQVec(f) => MemberKind::FloatQVec(f.duplicate()),
    }
}

/// Converts a kind of the schema to a member of the data model.
#[verifier::rlimit(60)]
pub fn kind_try_into_dm(k: &MemberKind) -> (r: Result<dm::Member, ResoPbMapError>)
    ensures
        deep(r) == kind_to_dm(kind_view(k)),
    decreases k, 0nat,
{
    match k {
        MemberKind::Reference(f) => Ok(dm::Member::Reference(f.duplicate())),
        MemberKind::SyncList(l) => Ok(dm::Member::SyncList(l.try_into_dm()?)),
        MemberKind::SyncObject(o) => Ok(dm::Member::SyncObject(o.try_into_dm()?)),
        MemberKind::String(f) => Ok(dm::Member::String(f.duplicate())),
        MemberKind::Uri(f) => Ok(dm::Member::Uri(f.duplicate())),
        MemberKind::Enum(f) => Ok(dm::Member::Enum(f.duplicate())),
        MemberKind::Empty(f) => Ok(dm::Member::Empty(f.duplicate())),
        MemberKind::Byte(f) => Ok(dm::Member::Byte(with_value(f, to_u8(f.value)?))),
        MemberKind::Ushort(f) => Ok(dm::Member::UShort(with_value(f, to_u16(f.value)?))),
        MemberKind::Uint(f) => Ok(dm::Member::UInt(f.duplicate())),
        MemberKind::Ulong(f) => Ok(dm::Member::ULong(f.duplicate())),
        MemberKind::Sbyte(f) => Ok(dm::Member::SByte(with_value(f, to_i8(f.value)?))),
        MemberKind::Short(f) => Ok(dm::Member::Short(with_value(f, to_i16(f.value)?))),
        MemberKind::Int(f) => Ok(dm::Member::Int(f.duplicate())),
        MemberKind::NullInt(f) => Ok(dm::Member::NullInt(f.duplicate())),
        MemberKind::Long(f) => Ok(dm::Member::Long(f.duplicate())),
        MemberKind::Int2(f) => Ok(dm::Member::Int2(value_or(f, Int2::default()))),
        MemberKind::NullInt2(f) => Ok(dm::Member::NullInt2(f.duplicate())),
        MemberKind::Int3(f) => Ok(dm::Member::Int3(value_or(f, Int3::default()))),
        MemberKind::Int4(f) => Ok(dm::Member::Int4(value_or(f, Int4::default()))),
        MemberKind::Float(f) => Ok(dm::Member::Float(f.duplicate())),
        MemberKind::NullFloat(f) => Ok(dm::Member::NullFloat(f.duplicate())),
        MemberKind::Double(f) => Ok(dm::Member::Double(f.duplicate())),
        MemberKind::Bool(f) => Ok(dm::Member::Bool(f.duplicate())),
        MemberKind::NullBool(f) => Ok(dm::Member::NullBool(f.duplicate())),
        MemberKind::Color(f) => Ok(dm::Member::Color(value_or(f, Color::default()))),
        MemberKind::ColorX(f) => Ok(dm::Member::ColorX(value_or(f, ColorX::default()))),
        MemberKind::NullColorX(f) => Ok(dm::Member::NullColorX(f.duplicate())),
        MemberKind::Color32(f) => match &f.value {
            None => Ok(dm::Member::Color32(with_value(f, dm::Color32::default()))),
            Some(c) => Ok(dm::Member::Color32(with_value(f, c.try_into_dm()?))),
        },
        MemberKind::Float2(f) => Ok(dm::Member::Float2(value_or(f, Float2::default()))),
        MemberKind::Float3(f) => Ok(dm::Member::Float3(value_or(f, Float3::default()))),
        MemberKind::NullFloat3(f) => Ok(dm::Member::NullFloat3(f.duplicate())),
        MemberKind::Float3Vec(f) => Ok(dm::Member::Float3Vec(f.duplicate())),
        MemberKind::Float4(f) => Ok(dm::Member::Float4(value_or(f, Float4::default()))),
        MemberKind::FloatQ(f) => Ok(dm::Member::FloatQ(value_or(f, FloatQ::default()))),
        MemberKind::NullFloatQ(f) => Ok(dm::Member::NullFloatQ(f.duplicate())),
        MemberKind::FloatQVec(f) => Ok(dm::Member::FloatQVec(f.duplicate())),
    }
}

impl SyncList {
    /// Converts a list of the data model.
    pub fn from_dm(src: &dm::SyncList) -> (r: SyncList)
        ensures
            r.deep_view() == (SyncListView {
                id: src.id@,
                elements: members_to_pb(src.deep_view().elements),
            }),
        decreases src,
    {
        SyncList { id: src.id.clone(), elements: members_from_dm(&src.elements) }
    }

    /// Converts to a list of the data model.
    pub fn try_into_dm(&self) -> (r: Result<dm::SyncList, ResoPbMapError>)
        ensures
            deep(r) == map_ok(
                members_to_dm(self.deep_view().elements),
                |elements| dm::sync_list::SyncListView { id: self.id@, elements },
            ),
        decreases self,
    {
        let elements = members_try_into_dm(&self.elements)?;
        Ok(dm::SyncList { id: self.id.clone(), elements })
    }
}

impl SyncObject {
    /// Converts an object of the data model.
    pub fn from_dm(src: &dm::SyncObject) -> (r: SyncObject)
        ensures
            r.deep_view() == (SyncObjectView {
                id: src.id@,
                members: named_members_to_pb(src.deep_view().members),
            }),
        decreases src,
    {
        SyncObject { id: src.id.clone(), members: named_members_from_dm(&src.members) }
    }

    /// Converts to an object of the data model.
    pub fn try_into_dm(&self) -> (r: Result<dm::SyncObject, ResoPbMapError>)
        ensures
            deep(r) == map_ok(
                named_members_to_dm(self.deep_view().members),
                |members| dm::sync_object::SyncObjectView { id: self.id@, members },
            ),
        decreases self,
    {
        let members = named_members_try_into_dm(&self.members)?;
        Ok(dm::SyncObject { id: self.id.clone(), members })
    }
}

/// Converts each member of a list of the data model.
pub fn members_from_dm(list: &Vec<dm::Member>) -> (r: Vec<Member>)
    ensures
        members_view(&r) == members_to_pb(dm::member::members_view(list)),
    decreases list,
{
    let mut out: Vec<Member> = Vec::new();
    let mut i: usize = 0;
    while i < list.len()
        invariant
            i <= list.len(),
            out.len() == i,
            forall|j: int| 0 <= j < i ==> (#[trigger] out[j])@ == member_to_pb(list[j]@),
        decreases list.len() - i,
    {
        out.push(Member::from_dm(&list[i]));
        i += 1;
    }
    assert(members_view(&out) =~= members_to_pb(dm::member::members_view(list)));
    out
}

/// Converts each member of a list of the data model, under its name.
pub fn named_members_from_dm(list: &Vec<(String, dm::Member)>) -> (r: Vec<(String, Member)>)
    ensures
        named_members_view(&r) == named_members_to_pb(dm::member::named_members_view(list)),
    decreases list,
{
    let mut out: Vec<(String, Member)> = Vec::new();
    let mut i: usize = 0;
    while i < list.len()
        invariant
            i <= list.len(),
            out.len() == i,
            forall|j: int|
                0 <= j < i ==> (#[trigger] out[j]).0@ == list[j].0@ && out[j].1@ == member_to_pb(
                    list[j].1@,
                ),
        decreases list.len() - i,
    {
        let m = Member::from_dm(&list[i].1);
        out.push((list[i].0.clone(), m));
        i += 1;
    }
    assert(named_members_view(&out) =~= named_members_to_pb(
        dm::member::named_members_view(list),
    ));
    out
}

/// Converts each member of a list to one of the data model, and stops at the
/// first that has no counterpart.
pub fn members_try_into_dm(list: &Vec<Member>) -> (r: Result<
    Vec<dm::Member>,
    ResoPbMapError,
>)
    ensures
        match r {
            Ok(out) => members_to_dm(members_view(list)) matches Ok(all)
                && all == dm::member::members_view(&out),
            Err(e) => members_to_dm(members_view(list)) matches Err(first)
                && first == e,
        },
    decreases list,
{
    let ghost all = members_view(list);
    let ghost outcomes = member_conversions(all);
    let mut out: Vec<dm::Member> = Vec::new();
    let mut i: usize = 0;
    assert(outcomes.take(0) =~= Seq::empty());
    assert(dm::member::members_view(&out) =~= Seq::empty());
    while i < list.len()
        invariant
            i <= list.len(),
            all == members_view(list),
            outcomes == member_conversions(all),
            members_to_dm(all) == gather(outcomes),
            gather(outcomes.take(i as int)) matches Ok(so_far)
                && so_far == dm::member::members_view(&out),
        decreases list.len() - i,
    {
        proof {
            gather_one_more(outcomes.take(i as int), outcomes[i as int]);
            assert(outcomes.take(i as int).push(outcomes[i as int]) =~= outcomes.take(i + 1));
        }
        match list[i].try_into_dm() {
            Ok(v) => {
                let ghost before = dm::member::members_view(&out);
                out.push(v);
                assert(dm::member::members_view(&out) =~= before.push(v@));
            },
            Err(e) => {
                proof {
                    gather_stays_failed(outcomes, i + 1);
                }
                return Err(e);
            },
        }
        i += 1;
    }
    assert(outcomes.take(i as int) =~= outcomes);
    Ok(out)
}

/// Converts each member of a list to one of the data model, under its name,
/// and puts the members in the order of their names. It stops at the first
/// member that has no counterpart.
pub fn named_members_try_into_dm(list: &Vec<(String, Member)>) -> (r: Result<
    Vec<(String, dm::Member)>,
    ResoPbMapError,
>)
    ensures
        match r {
            Ok(out) => named_members_to_dm(named_members_view(list)) matches Ok(all)
                && all == dm::member::named_members_view(&out),
            Err(e) => named_members_to_dm(named_members_view(list)) matches Err(first)
                && first == e,
        },
    decreases list,
{
    let ghost all = named_members_view(list);
    let ghost outcomes = named_member_conversions(all);
    let ghost mut converted: Seq<(Seq<char>, DmMember)> = Seq::empty();
    let mut out: Vec<(String, dm::Member)> = Vec::new();
    let mut i: usize = 0;
    assert(outcomes.take(0) =~= Seq::empty());
    assert(dm::member::named_members_view(&out) =~= Seq::empty());
    while i < list.len()
        invariant
            i <= list.len(),
            all == named_members_view(list),
            outcomes == named_member_conversions(all),
            named_members_to_dm(all) == map_ok(
                gather(outcomes),
                |converted| sort_by_name(converted),
            ),
            gather(outcomes.take(i as int)) matches Ok(so_far) && so_far == converted,
            dm::member::named_members_view(&out) == sort_by_name(converted),
        decreases list.len() - i,
    {
        proof {
            gather_one_more(outcomes.take(i as int), outcomes[i as int]);
            assert(outcomes.take(i as int).push(outcomes[i as int]) =~= outcomes.take(i + 1));
        }
        match list[i].1.try_into_dm() {
            Ok(v) => {
                let ghost before = dm::member::named_members_view(&out);
                let ghost entry = (list[i as int].0@, v@);
                proof {
                    place_goes_by_names(under_names(&out), before, entry.0);
                }
                let at = insert_named(&mut out, list[i].0.clone(), v);
                proof {
                    assert(dm::member::named_members_view(&out) =~= before.insert(
                        at as int,
                        entry,
                    ));
                    assert(converted.push(entry).drop_last() =~= converted);
                    converted = converted.push(entry);
                }
            },
            Err(e) => {
                proof {
                    gather_stays_failed(outcomes, i + 1);
                }
                return Err(e);
            },
        }
        i += 1;
    }
    assert(outcomes.take(i as int) =~= outcomes);
    Ok(out)
}

/// A member of the data model whose names are in order comes back from the
/// schema as it went in.
pub proof fn member_survives_pb(m: DmMember)
    requires
        member_well_named(m),
    ensures
        member_to_dm(member_to_pb(m)) == Ok::<DmMember, ResoPbMapError>(m),
    decreases m,
{
    match m {
        DmMember::SyncList(l) => {
            members_survive_pb(l.elements);
        },
        DmMember::SyncObject(o) => {
            named_members_survive_pb(o.members);
        },
        _ => {},
    }
}

/// The members of a list of the data model whose names are in order come back
/// from the schema as they went in.
pub proof fn members_survive_pb(list: Seq<DmMember>)
    requires
        members_well_named(list),
    ensures
        members_to_dm(members_to_pb(list)) == Ok::<Seq<DmMember>, ResoPbMapError>(
            list,
        ),
    decreases list,
{
    let outcomes = member_conversions(members_to_pb(list));
    assert forall|i: int| 0 <= i < list.len() implies outcomes[i] == Ok::<
        DmMember,
        ResoPbMapError,
    >(list[i]) by {
        member_survives_pb(list[i]);
    }
    gather_values(outcomes, list);
}

/// The members of the data model in the order of their names come back from
/// the schema as they went in.
pub proof fn named_members_survive_pb(list: Seq<(Seq<char>, DmMember)>)
    requires
        named_members_well_named(list),
    ensures
        named_members_to_dm(named_members_to_pb(list)) == Ok::<
            Seq<(Seq<char>, DmMember)>,
            ResoPbMapError,
        >(list),
    decreases list,
{
    let outcomes = named_member_conversions(named_members_to_pb(list));
    assert forall|i: int| 0 <= i < list.len() implies outcomes[i] == Ok::<
        (Seq<char>, DmMember),
        ResoPbMapError,
    >(list[i]) by {
        member_survives_pb(list[i].1);
    }
    gather_values(outcomes, list);
    sorted_stays(list);
}

/// The schema keeps the order of the members of the data model: where those
/// stand in the order of their names, so do these.
pub proof fn members_keep_their_order(list: Seq<(Seq<char>, DmMember)>)
    requires
        names_ascend(list),
    ensures
        names_ascend(named_members_to_pb(list)),
{
    let converted = named_members_to_pb(list);
    assert forall|i: int, j: int| 0 <= i < j < converted.len() implies text_before(
        converted[i].0,
        converted[j].0,
    ) by {
        assert(converted[i].0 == list[i].0 && converted[j].0 == list[j].0);
    }
}

/// The component of the schema that stands for one of the data model.
pub open spec fn component_to_pb(c: dm::component::ComponentView) -> ComponentView {
    ComponentView {
        id: c.id,
        is_reference_only: c.is_reference_only,
        component_type: c.component_type,
        members: named_members_to_pb(c.members),
    }
}

/// The component of the data model that one of the schema stands for, if each
/// of its members stands for one.
pub open spec fn component_to_dm(p: ComponentView) -> Result<
    dm::component::ComponentView,
    ResoPbMapError,
> {
    map_ok(
        named_members_to_dm(p.members),
        |members|
            dm::component::ComponentView {
                id: p.id,
                is_reference_only: p.is_reference_only,
                component_type: p.component_type,
                members,
            },
    )
}

/// The components of the schema that stand for those of the data model, one
/// for one.
pub open spec fn components_to_pb(list: Seq<dm::component::ComponentView>) -> Seq<ComponentView> {
    Seq::new(list.len(), |i: int| component_to_pb(list[i]))
}

/// What each component of a list gives when it is converted.
pub open spec fn component_conversions(list: Seq<ComponentView>) -> Seq<
    Result<dm::component::ComponentView, ResoPbMapError>,
> {
    Seq::new(list.len(), |i: int| component_to_dm(list[i]))
}

/// The components of the data model that those of the schema stand for: all
/// of them, or the first failure.
pub open spec fn components_to_dm(list: Seq<ComponentView>) -> Result<
    Seq<dm::component::ComponentView>,
    ResoPbMapError,
> {
    gather(component_conversions(list))
}

/// What the components of a list hold.
pub open spec fn components_view(list: &Vec<Component>) -> Seq<ComponentView> {
    list.deep_view()
}

/// What the components of a list of the data model hold.
pub open spec fn dm_components_view(list: &Vec<dm::Component>) -> Seq<
    dm::component::ComponentView,
> {
    list.deep_view()
}

impl Component {
    /// Converts a component of the data model.
    pub fn from_dm(src: &dm::Component) -> (r: Component)
        ensures
            r.deep_view() == component_to_pb(src.deep_view()),
    {
        Component {
            id: src.id.clone(),
            is_reference_only: src.is_reference_only,
            component_type: src.component_type.clone(),
            members: named_members_from_dm(&src.members),
        }
    }

    /// Converts to a component of the data model.
    pub fn try_into_dm(&self) -> (r: Result<dm::Component, ResoPbMapError>)
        ensures
            deep(r) == component_to_dm(self.deep_view()),
    {
        let members = named_members_try_into_dm(&self.members)?;
        Ok(
            dm::Component {
                id: self.id.clone(),
                is_reference_only: self.is_reference_only,
                component_type: self.component_type.clone(),
                members,
            },
        )
    }
}

/// Converts each component of a list of the data model.
pub fn components_from_dm(list: &Vec<dm::Component>) -> (r: Vec<Component>)
    ensures
        r.deep_view() == components_to_pb(list.deep_view()),
{
    let mut out: Vec<Component> = Vec::new();
    let mut i: usize = 0;
    while i < list.len()
        invariant
            i <= list.len(),
            out.len() == i,
            forall|j: int|
                0 <= j < i ==> (#[trigger] out[j]).deep_view() == component_to_pb(
                    list[j].deep_view(),
                ),
        decreases list.len() - i,
    {
        out.push(Component::from_dm(&list[i]));
        i += 1;
    }
    assert(out.deep_view() =~= components_to_pb(list.deep_view()));
    out
}

/// Converts each component of a list to one of the data model, and stops at the
/// first that has no counterpart.
pub fn components_try_into_dm(list: &Vec<Component>) -> (r: Result<
    Vec<dm::Component>,
    ResoPbMapError,
>)
    ensures
        match r {
            Ok(out) => components_to_dm(components_view(list)) matches Ok(all)
                && all == dm_components_view(&out),
            Err(e) => components_to_dm(components_view(list)) matches Err(first)
                && first == e,
        },
    decreases list,
{
    let ghost all = components_view(list);
    let ghost outcomes = component_conversions(all);
    let mut out: Vec<dm::Component> = Vec::new();
    let mut i: usize = 0;
    assert(outcomes.take(0) =~= Seq::empty());
    assert(dm_components_view(&out) =~= Seq::empty());
    while i < list.len()
        invariant
            i <= list.len(),
            all == components_view(list),
            outcomes == component_conversions(all),
            components_to_dm(all) == gather(outcomes),
            gather(outcomes.take(i as int)) matches Ok(so_far)
                && so_far == dm_components_view(&out),
        decreases list.len() - i,
    {
        proof {
            gather_one_more(outcomes.take(i as int), outcomes[i as int]);
            assert(outcomes.take(i as int).push(outcomes[i as int]) =~= outcomes.take(i + 1));
        }
        match list[i].try_into_dm() {
            Ok(v) => {
                let ghost before = dm_components_view(&out);
                out.push(v);
                assert(dm_components_view(&out) =~= before.push(v.deep_view()));
            },
            Err(e) => {
                proof {
                    gather_stays_failed(outcomes, i + 1);
                }
                return Err(e);
            },
        }
        i += 1;
    }
    assert(outcomes.take(i as int) =~= outcomes);
    Ok(out)
}

/// The slot of the schema that stands for one of the data model. Every
/// attribute is there, and so is the value of every vector.
pub open spec fn slot_to_pb(s: dm::slot::SlotView) -> SlotView
    decreases s,
{
    SlotView {
        id: s.id,
        is_reference_only: s.is_reference_only,
        parent: Some(s.parent),
        name: Some(s.name),
        tag: Some(s.tag),
        position: Some(FieldView { id: s.position.id, value: Some(s.position.value) }),
        rotation: Some(FieldView { id: s.rotation.id, value: Some(s.rotation.value) }),
        scale: Some(FieldView { id: s.scale.id, value: Some(s.scale.value) }),
        is_active: Some(s.is_active),
        is_persistent: Some(s.is_persistent),
        order_offset: Some(s.order_offset),
        components: components_to_pb(s.components),
        children: slots_to_pb(s.children),
    }
}

/// The slots of the schema that stand for those of the data model, one for
/// one.
pub open spec fn slots_to_pb(list: Seq<dm::slot::SlotView>) -> Seq<SlotView>
    decreases list,
{
    Seq::new(
        list.len(),
        |i: int|
            if 0 <= i < list.len() {
                slot_to_pb(list[i])
            } else {
                arbitrary()
            },
    )
}

/// The slot of the data model that one of the schema stands for, if its
/// components and its children stand for some. An attribute that was left out
/// comes as its default: no id, and no text, zeros, `false` or no target for
/// its value.
pub open spec fn slot_to_dm(p: SlotView) -> Result<dm::slot::SlotView, ResoPbMapError>
    decreases p, 2nat,
{
    match components_to_dm(p.components) {
        Err(e) => Err(e),
        Ok(components) => match slots_to_dm(p.children) {
            Err(e) => Err(e),
            Ok(children) => Ok(
                dm::slot::SlotView {
                    id: p.id,
                    is_reference_only: p.is_reference_only,
                    parent: reference_or_default(p.parent),
                    name: field_or_zero(p.name, None),
                    tag: field_or_zero(p.tag, None),
                    position: value_or_zero(field_or_zero(p.position, None), Float3::zero()),
                    rotation: value_or_zero(field_or_zero(p.rotation, None), FloatQ::zero()),
                    scale: value_or_zero(field_or_zero(p.scale, None), Float3::zero()),
                    is_active: field_or_zero(p.is_active, false),
                    is_persistent: field_or_zero(p.is_persistent, false),
                    order_offset: field_or_zero(p.order_offset, 0),
                    components,
                    children,
                },
            ),
        },
    }
}

/// The slots of the data model that those of the schema stand for: all of
/// them, or the first failure.
pub open spec fn slots_to_dm(list: Seq<SlotView>) -> Result<
    Seq<dm::slot::SlotView>,
    ResoPbMapError,
>
    decreases list, 1nat,
{
    gather(slot_conversions(list))
}

/// What each slot of a list gives when it is converted.
pub open spec fn slot_conversions(list: Seq<SlotView>) -> Seq<
    Result<dm::slot::SlotView, ResoPbMapError>,
>
    decreases list, 0nat,
{
    Seq::new(
        list.len(),
        |i: int|
            if 0 <= i < list.len() {
                slot_to_dm(list[i])
            } else {
                arbitrary()
            },
    )
}

impl Slot {
    /// Converts a slot of the data model.
    pub fn from_dm(src: &dm::Slot) -> (r: Slot)
        ensures
            r@ == slot_to_pb(src@),
        decreases src,
    {
        Slot {
            id: src.id.clone(),
            is_reference_only: src.is_reference_only,
            parent: Some(src.parent.duplicate()),
            name: Some(src.name.duplicate()),
            tag: Some(src.tag.duplicate()),
            position: Some(with_value(&src.position, Some(src.position.value))),
            rotation: Some(with_value(&src.rotation, Some(src.rotation.value))),
            scale: Some(with_value(&src.scale, Some(src.scale.value))),
            is_active: Some(src.is_active.duplicate()),
            is_persistent: Some(src.is_persistent.duplicate()),
            order_offset: Some(src.order_offset.duplicate()),
            components: components_from_dm(&src.components),
            children: slots_from_dm(&src.children),
        }
    }

    /// Converts to a slot of the data model.
    pub fn try_into_dm(&self) -> (r: Result<dm::Slot, ResoPbMapError>)
        ensures
            deep(r) == slot_to_dm(self@),
        decreases self, 2nat,
    {
        let components = components_try_into_dm(&self.components)?;
        let children = slots_try_into_dm(&self.children)?;
        Ok(
            dm::Slot {
                id: self.id.clone(),
                is_reference_only: self.is_reference_only,
                parent: reference_or(&self.parent),
                name: field_or(&self.name, None),
                tag: field_or(&self.tag, None),
                position: value_or(&field_or(&self.position, None), Float3::default()),
                rotation: value_or(&field_or(&self.rotation, None), FloatQ::default()),
                scale: value_or(&field_or(&self.scale, None), Float3::default()),
                is_active: field_or(&self.is_active, false),
                is_persistent: field_or(&self.is_persistent, false),
                order_offset: field_or(&self.order_offset, 0),
                components,
                children,
            },
        )
    }
}

/// Converts each slot of a list of the data model.
pub fn slots_from_dm(list: &Vec<dm::Slot>) -> (r: Vec<Slot>)
    ensures
        slots_view(&r) == slots_to_pb(dm::slot::slots_view(list)),
    decreases list,
{
    let mut out: Vec<Slot> = Vec::new();
    let mut i: usize = 0;
    while i < list.len()
        invariant
            i <= list.len(),
            out.len() == i,
            forall|j: int| 0 <= j < i ==> (#[trigger] out[j])@ == slot_to_pb(list[j]@),
        decreases list.len() - i,
    {
        out.push(Slot::from_dm(&list[i]));
        i += 1;
    }
    assert(slots_view(&out) =~= slots_to_pb(dm::slot::slots_view(list)));
    out
}

/// Converts each slot of a list to one of the data model, and stops at the first
/// that has no counterpart.
pub fn slots_try_into_dm(list: &Vec<Slot>) -> (r: Result<
    Vec<dm::Slot>,
    ResoPbMapError,
>)
    ensures
        match r {
            Ok(out) => slots_to_dm(slots_view(list)) matches Ok(all)
                && all == dm::slot::slots_view(&out),
            Err(e) => slots_to_dm(slots_view(list)) matches Err(first)
                && first == e,
        },
    decreases list, 1nat,
{
    let ghost all = slots_view(list);
    let ghost outcomes = slot_conversions(all);
    let mut out: Vec<dm::Slot> = Vec::new();
    let mut i: usize = 0;
    assert(outcomes.take(0) =~= Seq::empty());
    assert(dm::slot::slots_view(&out) =~= Seq::empty());
    while i < list.len()
        invariant
            i <= list.len(),
            all == slots_view(list),
            outcomes == slot_conversions(all),
            slots_to_dm(all) == gather(outcomes),
            gather(outcomes.take(i as int)) matches Ok(so_far)
                && so_far == dm::slot::slots_view(&out),
        decreases list.len() - i,
    {
        proof {
            gather_one_more(outcomes.take(i as int), outcomes[i as int]);
            assert(outcomes.take(i as int).push(outcomes[i as int]) =~= outcomes.take(i + 1));
        }
        match list[i].try_into_dm() {
            Ok(v) => {
                let ghost before = dm::slot::slots_view(&out);
                out.push(v);
                assert(dm::slot::slots_view(&out) =~= before.push(v@));
            },
            Err(e) => {
                proof {
                    gather_stays_failed(outcomes, i + 1);
                }
                return Err(e);
            },
        }
        i += 1;
    }
    assert(outcomes.take(i as int) =~= outcomes);
    Ok(out)
}

/// The conversion of a member of the data model, by the name that `into` goes
/// by.
impl From<dm::Member> for Member {
    fn from(src: dm::Member) -> (r: Member)
        ensures
            r.deep_view() == member_to_pb(src.deep_view()),
    {
        Member::from_dm(&src)
    }
}

impl vstd::std_specs::convert::FromSpecImpl<dm::Member> for Member {
    open spec fn obeys_from_spec() -> bool {
        false
    }

    open spec fn from_spec(src: dm::Member) -> Member {
        arbitrary()
    }
}

/// The conversion to a member of the data model, by the name that `try_into`
/// goes by.
impl TryFrom<Member> for dm::Member {
    type Error = ResoPbMapError;

    fn try_from(src: Member) -> (r: Result<dm::Member, ResoPbMapError>)
        ensures
            deep(r) == member_to_dm(src.deep_view()),
    {
        src.try_into_dm()
    }
}

impl vstd::std_specs::convert::TryFromSpecImpl<Member> for dm::Member {
    open spec fn obeys_try_from_spec() -> bool {
        false
    }

    open spec fn try_from_spec(src: Member) -> Result<dm::Member, ResoPbMapError> {
        arbitrary()
    }
}

/// The conversion of a component of the data model, by the name that `into` goes
/// by.
impl From<dm::Component> for Component {
    fn from(src: dm::Component) -> (r: Component)
        ensures
            r.deep_view() == component_to_pb(src.deep_view()),
    {
        Component::from_dm(&src)
    }
}

impl vstd::std_specs::convert::FromSpecImpl<dm::Component> for Component {
    open spec fn obeys_from_spec() -> bool {
        false
    }

    open spec fn from_spec(src: dm::Component) -> Component {
        arbitrary()
    }
}

/// The conversion to a component of the data model, by the name that `try_into`
/// goes by.
impl TryFrom<Component> for dm::Component {
    type Error = ResoPbMapError;

    fn try_from(src: Component) -> (r: Result<dm::Component, ResoPbMapError>)
        ensures
            deep(r) == component_to_dm(src.deep_view()),
    {
        src.try_into_dm()
    }
}

impl vstd::std_specs::convert::TryFromSpecImpl<Component> for dm::Component {
    open spec fn obeys_try_from_spec() -> bool {
        false
    }

    open spec fn try_from_spec(src: Component) -> Result<dm::Component, ResoPbMapError> {
        arbitrary()
    }
}

/// The conversion of a slot of the data model, by the name that `into` goes
/// by.
impl From<dm::Slot> for Slot {
    fn from(src: dm::Slot) -> (r: Slot)
        ensures
            r.deep_view() == slot_to_pb(src.deep_view()),
    {
        Slot::from_dm(&src)
    }
}

impl vstd::std_specs::convert::FromSpecImpl<dm::Slot> for Slot {
    open spec fn obeys_from_spec() -> bool {
        false
    }

    open spec fn from_spec(src: dm::Slot) -> Slot {
        arbitrary()
    }
}

/// The conversion to a slot of the data model, by the name that `try_into`
/// goes by.
impl TryFrom<Slot> for dm::Slot {
    type Error = ResoPbMapError;

    fn try_from(src: Slot) -> (r: Result<dm::Slot, ResoPbMapError>)
        ensures
            deep(r) == slot_to_dm(src.deep_view()),
    {
        src.try_into_dm()
    }
}

impl vstd::std_specs::convert::TryFromSpecImpl<Slot> for dm::Slot {
    open spec fn obeys_try_from_spec() -> bool {
        false
    }

    open spec fn try_from_spec(src: Slot) -> Result<dm::Slot, ResoPbMapError> {
        arbitrary()
    }
}

/// A slot that comes from the data model has every attribute, and every
/// vector in it has its value: what was left out on the way in comes out as
/// the default, spelled out.
pub proof fn slot_from_dm_is_complete(s: dm::slot::SlotView)
    ensures
        ({
            let p = slot_to_pb(s);
            &&& p.parent is Some
            &&& p.name is Some
            &&& p.tag is Some
            &&& p.position matches Some(f) && f.value is Some
            &&& p.rotation matches Some(f) && f.value is Some
            &&& p.scale matches Some(f) && f.value is Some
            &&& p.is_active is Some
            &&& p.is_persistent is Some
            &&& p.order_offset is Some
        }),
{
}

/// A component of the data model whose names are in order comes back from the
/// schema as it went in.
pub proof fn component_survives_pb(c: dm::component::ComponentView)
    requires
        dm::Component::well_named(c),
    ensures
        component_to_dm(component_to_pb(c)) == Ok::<dm::component::ComponentView, ResoPbMapError>(
            c,
        ),
{
    named_members_survive_pb(c.members);
}

/// The components of the data model whose names are in order come back from
/// the schema as they went in.
pub proof fn components_survive_pb(list: Seq<dm::component::ComponentView>)
    requires
        forall|i: int| 0 <= i < list.len() ==> dm::Component::well_named(#[trigger] list[i]),
    ensures
        components_to_dm(components_to_pb(list)) == Ok::<
            Seq<dm::component::ComponentView>,
            ResoPbMapError,
        >(list),
{
    let outcomes = component_conversions(components_to_pb(list));
    assert forall|i: int| 0 <= i < list.len() implies outcomes[i] == Ok::<
        dm::component::ComponentView,
        ResoPbMapError,
    >(list[i]) by {
        component_survives_pb(list[i]);
    }
    gather_values(outcomes, list);
}

/// A slot of the data model whose names are in order comes back from the
/// schema as it went in.
pub proof fn slot_survives_pb(s: dm::slot::SlotView)
    requires
        dm::slot::slot_well_named(s),
    ensures
        slot_to_dm(slot_to_pb(s)) == Ok::<dm::slot::SlotView, ResoPbMapError>(s),
    decreases s,
{
    components_survive_pb(s.components);
    slots_survive_pb(s.children);
}

/// The slots of the data model whose names are in order come back from the
/// schema as they went in.
pub proof fn slots_survive_pb(list: Seq<dm::slot::SlotView>)
    requires
        dm::slot::slots_well_named(list),
    ensures
        slots_to_dm(slots_to_pb(list)) == Ok::<Seq<dm::slot::SlotView>, ResoPbMapError>(list),
    decreases list,
{
    let outcomes = slot_conversions(slots_to_pb(list));
    assert forall|i: int| 0 <= i < list.len() implies outcomes[i] == Ok::<
        dm::slot::SlotView,
        ResoPbMapError,
    >(list[i]) by {
        slot_survives_pb(list[i]);
    }
    gather_values(outcomes, list);
}

} // verus!
