//! The kinds of member in the RPC schema.

use crate::data_model::array_field::{ArrayField, ArrayFieldView};
use crate::data_model::empty::{Empty, EmptyView};
use crate::data_model::field::{Field, FieldView};
use crate::data_model::floats::{F32, F64};
use crate::data_model::reference::{Reference, ReferenceView};
use crate::pb::model::{SyncList, SyncListView, SyncObject, SyncObjectView};
use crate::pb::primitives::{
    Color, Color32, ColorX, ColorXView, Float2, Float3, Float4, FloatQ, Int2, Int3, Int4,
};
use vstd::prelude::*;

verus! {

/// What a member is: one of these, with what that kind holds. Where the data
/// model holds a byte or a short, the schema holds the next wider integer that
/// it has; where the data model holds a vector or a colour, the schema may
/// leave it out.
#[derive(Debug, PartialEq)]
pub enum MemberKind {
    Reference(Reference),
    SyncList(SyncList),
    SyncObject(SyncObject),
    String(Field<Option<String>>),
    Uri(Field<Option<String>>),
    Enum(Field<Option<String>>),
    Empty(Empty),
    Byte(Field<u32>),
    Ushort(Field<u32>),
    Uint(Field<u32>),
    Ulong(Field<u64>),
    Sbyte(Field<i32>),
    Short(Field<i32>),
    Int(Field<i32>),
    NullInt(Field<Option<i32>>),
    Long(Field<i64>),
    Int2(Field<Option<Int2>>),
    NullInt2(Field<Option<Int2>>),
    Int3(Field<Option<Int3>>),
    Int4(Field<Option<Int4>>),
    Float(Field<F32>),
    NullFloat(Field<Option<F32>>),
    Double(Field<F64>),
    Bool(Field<bool>),
    NullBool(Field<Option<bool>>),
    Color(Field<Option<Color>>),
    ColorX(Field<Option<ColorX>>),
    NullColorX(Field<Option<ColorX>>),
    Color32(Field<Option<Color32>>),
    Float2(Field<Option<Float2>>),
    Float3(Field<Option<Float3>>),
    NullFloat3(Field<Option<Float3>>),
    Float3Vec(ArrayField<Float3>),
    Float4(Field<Option<Float4>>),
    FloatQ(Field<Option<FloatQ>>),
    NullFloatQ(Field<Option<FloatQ>>),
    FloatQVec(ArrayField<FloatQ>),
}

/// What a [`MemberKind`] holds.
pub enum MemberKindView {
    Reference(ReferenceView),
    SyncList(SyncListView),
    SyncObject(SyncObjectView),
    String(FieldView<Option<Seq<char>>>),
    Uri(FieldView<Option<Seq<char>>>),
    Enum(FieldView<Option<Seq<char>>>),
    Empty(EmptyView),
    Byte(FieldView<u32>),
    Ushort(FieldView<u32>),
    Uint(FieldView<u32>),
    Ulong(FieldView<u64>),
    Sbyte(FieldView<i32>),
    Short(FieldView<i32>),
    Int(FieldView<i32>),
    NullInt(FieldView<Option<i32>>),
    Long(FieldView<i64>),
    Int2(FieldView<Option<Int2>>),
    NullInt2(FieldView<Option<Int2>>),
    Int3(FieldView<Option<Int3>>),
    Int4(FieldView<Option<Int4>>),
    Float(FieldView<F32>),
    NullFloat(FieldView<Option<F32>>),
    Double(FieldView<F64>),
    Bool(FieldView<bool>),
    NullBool(FieldView<Option<bool>>),
    Color(FieldView<Option<Color>>),
    ColorX(FieldView<Option<ColorXView>>),
    NullColorX(FieldView<Option<ColorXView>>),
    Color32(FieldView<Option<Color32>>),
    Float2(FieldView<Option<Float2>>),
    Float3(FieldView<Option<Float3>>),
    NullFloat3(FieldView<Option<Float3>>),
    Float3Vec(ArrayFieldView<Float3>),
    Float4(FieldView<Option<Float4>>),
    FloatQ(FieldView<Option<FloatQ>>),
    NullFloatQ(FieldView<Option<FloatQ>>),
    FloatQVec(ArrayFieldView<FloatQ>),
}

} // verus!
