//! The members of a component: one union over every kind of value, told apart
//! on the wire by the `$type` of the object.

use crate::codec::{
    deep, field_of, gather, gather_gives_each, gather_one_more, gather_stays_failed, gather_values,
    map_ok, read_field, write_field, Wire,
};
use crate::data_model::ID;
use crate::data_model::array_field::{ArrayField, ArrayFieldView};
use crate::data_model::empty::{Empty, EmptyView};
use crate::data_model::field::{Field, FieldView};
use crate::data_model::floats::{F32, F64};
use crate::data_model::primitives::{
    Color, Color32, ColorX, ColorXView, Float2, Float3, Float4, FloatQ, Int2, Int3, Int4,
};
use crate::data_model::reference::{Reference, ReferenceView};
use crate::data_model::sync_list::{SyncList, SyncListView};
use crate::data_model::sync_object::{SyncObject, SyncObjectView};
use crate::json::{
    entries_view, find, items_view, lookup, lookup_after_push, lookup_is_part, push_entry,
    DecodeError, Json, JsonView,
};
use crate::named::{
    ascending_names_are_distinct, insert_named, names_are_distinct, names_ascend,
    place_goes_by_names, sort_by_name, sort_gives_the_order, sort_keeps_the_entries, sorted_stays,
    under_names,
};
use crate::text::same_text;
use vstd::prelude::*;

verus! {

/// One member of a component or of a nested object.
#[derive(Debug, PartialEq)]
pub enum Member {
    Reference(Reference),
    SyncList(SyncList),
    SyncObject(SyncObject),
    String(Field<Option<String>>),
    Uri(Field<Option<String>>),
    Enum(Field<Option<String>>),
    Empty(Empty),
    Byte(Field<u8>),
    UShort(Field<u16>),
    UInt(Field<u32>),
    ULong(Field<u64>),
    SByte(Field<i8>),
    Short(Field<i16>),
    Int(Field<i32>),
    NullInt(Field<Option<i32>>),
    Long(Field<i64>),
    Int2(Field<Int2>),
    NullInt2(Field<Option<Int2>>),
    Int3(Field<Int3>),
    Int4(Field<Int4>),
    Float(Field<F32>),
    NullFloat(Field<Option<F32>>),
    Double(Field<F64>),
    Bool(Field<bool>),
    NullBool(Field<Option<bool>>),
    Color(Field<Color>),
    ColorX(Field<ColorX>),
    NullColorX(Field<Option<ColorX>>),
    Color32(Field<Color32>),
    Float2(Field<Float2>),
    Float3(Field<Float3>),
    NullFloat3(Field<Option<Float3>>),
    Float3Vec(ArrayField<Float3>),
    Float4(Field<Float4>),
    FloatQ(Field<FloatQ>),
    NullFloatQ(Field<Option<FloatQ>>),
    FloatQVec(ArrayField<FloatQ>),
}

/// What a [`Member`] holds.
pub enum MemberView {
    Reference(ReferenceView),
    SyncList(SyncListView),
    SyncObject(SyncObjectView),
    String(FieldView<Option<Seq<char>>>),
    Uri(FieldView<Option<Seq<char>>>),
    Enum(FieldView<Option<Seq<char>>>),
    Empty(EmptyView),
    Byte(FieldView<u8>),
    UShort(FieldView<u16>),
    UInt(FieldView<u32>),
    ULong(FieldView<u64>),
    SByte(FieldView<i8>),
    Short(FieldView<i16>),
    Int(FieldView<i32>),
    NullInt(FieldView<Option<i32>>),
    Long(FieldView<i64>),
    Int2(FieldView<Int2>),
    NullInt2(FieldView<Option<Int2>>),
    Int3(FieldView<Int3>),
    Int4(FieldView<Int4>),
    Float(FieldView<F32>),
    NullFloat(FieldView<Option<F32>>),
    Double(FieldView<F64>),
    Bool(FieldView<bool>),
    NullBool(FieldView<Option<bool>>),
    Color(FieldView<Color>),
    ColorX(FieldView<ColorXView>),
    NullColorX(FieldView<Option<ColorXView>>),
    Color32(FieldView<Color32>),
    Float2(FieldView<Float2>),
    Float3(FieldView<Float3>),
    NullFloat3(FieldView<Option<Float3>>),
    Float3Vec(ArrayFieldView<Float3>),
    Float4(FieldView<Float4>),
    FloatQ(FieldView<FloatQ>),
    NullFloatQ(FieldView<Option<FloatQ>>),
    FloatQVec(ArrayFieldView<FloatQ>),
}

/// The kinds of member, one for each `$type`.
#[derive(Clone, Copy, Debug, PartialEq, Eq)]
pub enum MemberKind {
    Reference,
    SyncList,
    SyncObject,
    String,
    Uri,
    Enum,
    Empty,
    Byte,
    UShort,
    UInt,
    ULong,
    SByte,
    Short,
    Int,
    NullInt,
    Long,
    Int2,
    NullInt2,
    Int3,
    Int4,
    Float,
    NullFloat,
    Double,
    Bool,
    NullBool,
    Color,
    ColorX,
    NullColorX,
    Color32,
    Float2,
    Float3,
    NullFloat3,
    Float3Vec,
    Float4,
    FloatQ,
    NullFloatQ,
    FloatQVec,
}

impl MemberKind {
    /// The `$type` that stands for a kind.
    pub open spec fn tag_spec(self) -> Seq<char> {
        match self {
            MemberKind::Reference => "reference"@,
            MemberKind::SyncList => "list"@,
            MemberKind::SyncObject => "syncObject"@,
            MemberKind::String => "string"@,
            MemberKind::Uri => "Uri"@,
            MemberKind::Enum => "enum"@,
            MemberKind::Empty => "empty"@,
            MemberKind::Byte => "byte"@,
            MemberKind::UShort => "ushort"@,
            MemberKind::UInt => "uint"@,
            MemberKind::ULong => "ulong"@,
            MemberKind::SByte => "sbyte"@,
            MemberKind::Short => "short"@,
            MemberKind::Int => "int"@,
            MemberKind::NullInt => "int?"@,
            MemberKind::Long => "long"@,
            MemberKind::Int2 => "int2"@,
            MemberKind::NullInt2 => "int2?"@,
            MemberKind::Int3 => "int3"@,
            MemberKind::Int4 => "int4"@,
            MemberKind::Float => "float"@,
            MemberKind::NullFloat => "float?"@,
            MemberKind::Double => "double"@,
            MemberKind::Bool => "bool"@,
            MemberKind::NullBool => "bool?"@,
            MemberKind::Color => "color"@,
            MemberKind::ColorX => "colorX"@,
            MemberKind::NullColorX => "colorX?"@,
            MemberKind::Color32 => "color32"@,
            MemberKind::Float2 => "float2"@,
            MemberKind::Float3 => "float3"@,
            MemberKind::NullFloat3 => "float3?"@,
            MemberKind::Float3Vec => "float3[]"@,
            MemberKind::Float4 => "float4"@,
            MemberKind::FloatQ => "floatQ"@,
            MemberKind::NullFloatQ => "floatQ?"@,
            MemberKind::FloatQVec => "floatQ[]"@,
        }
    }

    /// The kind that a `$type` stands for.
    pub open spec fn of_tag(tag: Seq<char>) -> Option<MemberKind> {
        if tag == "reference"@ {
            Some(MemberKind::Reference)
        } else if tag == "list"@ {
            Some(MemberKind::SyncList)
        } else if tag == "syncObject"@ {
            Some(MemberKind::SyncObject)
        } else if tag == "string"@ {
            Some(MemberKind::String)
        } else if tag == "Uri"@ {
            Some(MemberKind::Uri)
        } else if tag == "enum"@ {
            Some(MemberKind::Enum)
        } else if tag == "empty"@ {
            Some(MemberKind::Empty)
        } else if tag == "byte"@ {
            Some(MemberKind::Byte)
        } else if tag == "ushort"@ {
            Some(MemberKind::UShort)
        } else if tag == "uint"@ {
            Some(MemberKind::UInt)
        } else if tag == "ulong"@ {
            Some(MemberKind::ULong)
        } else if tag == "sbyte"@ {
            Some(MemberKind::SByte)
        } else if tag == "short"@ {
            Some(MemberKind::Short)
        } else if tag == "int"@ {
            Some(MemberKind::Int)
        } else if tag == "int?"@ {
            Some(MemberKind::NullInt)
        } else if tag == "long"@ {
            Some(MemberKind::Long)
        } else if tag == "int2"@ {
            Some(MemberKind::Int2)
        } else if tag == "int2?"@ {
            Some(MemberKind::NullInt2)
        } else if tag == "int3"@ {
            Some(MemberKind::Int3)
        } else if tag == "int4"@ {
            Some(MemberKind::Int4)
        } else if tag == "float"@ {
            Some(MemberKind::Float)
        } else if tag == "float?"@ {
            Some(MemberKind::NullFloat)
        } else if tag == "double"@ {
            Some(MemberKind::Double)
        } else if tag == "bool"@ {
            Some(MemberKind::Bool)
        } else if tag == "bool?"@ {
            Some(MemberKind::NullBool)
        } else if tag == "color"@ {
            Some(MemberKind::Color)
        } else if tag == "colorX"@ {
            Some(MemberKind::ColorX)
        } else if tag == "colorX?"@ {
            Some(MemberKind::NullColorX)
        } else if tag == "color32"@ {
            Some(MemberKind::Color32)
        } else if tag == "float2"@ {
            Some(MemberKind::Float2)
        } else if tag == "float3"@ {
            Some(MemberKind::Float3)
        } else if tag == "float3?"@ {
            Some(MemberKind::NullFloat3)
        } else if tag == "float3[]"@ {
            Some(MemberKind::Float3Vec)
        } else if tag == "float4"@ {
            Some(MemberKind::Float4)
        } else if tag == "floatQ"@ {
            Some(MemberKind::FloatQ)
        } else if tag == "floatQ?"@ {
            Some(MemberKind::NullFloatQ)
        } else if tag == "floatQ[]"@ {
            Some(MemberKind::FloatQVec)
        } else {
            None
        }
    }

    /// The `$type` that stands for a kind.
    pub fn tag(self) -> (r: &'static str)
        ensures
            r@ == self.tag_spec(),
    {
        match self {
            MemberKind::Reference => "reference",
            MemberKind::SyncList => "list",
            MemberKind::SyncObject => "syncObject",
            MemberKind::String => "string",
            MemberKind::Uri => "Uri",
            MemberKind::Enum => "enum",
            MemberKind::Empty => "empty",
            MemberKind::Byte => "byte",
            MemberKind::UShort => "ushort",
            MemberKind::UInt => "uint",
            MemberKind::ULong => "ulong",
            MemberKind::SByte => "sbyte",
            MemberKind::Short => "short",
            MemberKind::Int => "int",
            MemberKind::NullInt => "int?",
            MemberKind::Long => "long",
            MemberKind::Int2 => "int2",
            MemberKind::NullInt2 => "int2?",
            MemberKind::Int3 => "int3",
            MemberKind::Int4 => "int4",
            MemberKind::Float => "float",
            MemberKind::NullFloat => "float?",
            MemberKind::Double => "double",
            MemberKind::Bool => "bool",
            MemberKind::NullBool => "bool?",
            MemberKind::Color => "color",
            MemberKind::ColorX => "colorX",
            MemberKind::NullColorX => "colorX?",
            MemberKind::Color32 => "color32",
            MemberKind::Float2 => "float2",
            MemberKind::Float3 => "float3",
            MemberKind::NullFloat3 => "float3?",
            MemberKind::Float3Vec => "float3[]",
            MemberKind::Float4 => "float4",
            MemberKind::FloatQ => "floatQ",
            MemberKind::NullFloatQ => "floatQ?",
            MemberKind::FloatQVec => "floatQ[]",
        }
    }

    /// The kind that a `$type` stands for.
    pub fn from_tag(tag: &str) -> (r: Option<MemberKind>)
        ensures
            r == Self::of_tag(tag@),
    {
        if same_text(tag, "reference") {
            Some(MemberKind::Reference)
        } else if same_text(tag, "list") {
            Some(MemberKind::SyncList)
        } else if same_text(tag, "syncObject") {
            Some(MemberKind::SyncObject)
        } else if same_text(tag, "string") {
            Some(MemberKind::String)
        } else if same_text(tag, "Uri") {
            Some(MemberKind::Uri)
        } else if same_text(tag, "enum") {
            Some(MemberKind::Enum)
        } else if same_text(tag, "empty") {
            Some(MemberKind::Empty)
        } else if same_text(tag, "byte") {
            Some(MemberKind::Byte)
        } else if same_text(tag, "ushort") {
            Some(MemberKind::UShort)
        } else if same_text(tag, "uint") {
            Some(MemberKind::UInt)
        } else if same_text(tag, "ulong") {
            Some(MemberKind::ULong)
        } else if same_text(tag, "sbyte") {
            Some(MemberKind::SByte)
        } else if same_text(tag, "short") {
            Some(MemberKind::Short)
        } else if same_text(tag, "int") {
            Some(MemberKind::Int)
        } else if same_text(tag, "int?") {
            Some(MemberKind::NullInt)
        } else if same_text(tag, "long") {
            Some(MemberKind::Long)
        } else if same_text(tag, "int2") {
            Some(MemberKind::Int2)
        } else if same_text(tag, "int2?") {
            Some(MemberKind::NullInt2)
        } else if same_text(tag, "int3") {
            Some(MemberKind::Int3)
        } else if same_text(tag, "int4") {
            Some(MemberKind::Int4)
        } else if same_text(tag, "float") {
            Some(MemberKind::Float)
        } else if same_text(tag, "float?") {
            Some(MemberKind::NullFloat)
        } else if same_text(tag, "double") {
            Some(MemberKind::Double)
        } else if same_text(tag, "bool") {
            Some(MemberKind::Bool)
        } else if same_text(tag, "bool?") {
            Some(MemberKind::NullBool)
        } else if same_text(tag, "color") {
            Some(MemberKind::Color)
        } else if same_text(tag, "colorX") {
            Some(MemberKind::ColorX)
        } else if same_text(tag, "colorX?") {
            Some(MemberKind::NullColorX)
        } else if same_text(tag, "color32") {
            Some(MemberKind::Color32)
        } else if same_text(tag, "float2") {
            Some(MemberKind::Float2)
        } else if same_text(tag, "float3") {
            Some(MemberKind::Float3)
        } else if same_text(tag, "float3?") {
            Some(MemberKind::NullFloat3)
        } else if same_text(tag, "float3[]") {
            Some(MemberKind::Float3Vec)
        } else if same_text(tag, "float4") {
            Some(MemberKind::Float4)
        } else if same_text(tag, "floatQ") {
            Some(MemberKind::FloatQ)
        } else if same_text(tag, "floatQ?") {
            Some(MemberKind::NullFloatQ)
        } else if same_text(tag, "floatQ[]") {
            Some(MemberKind::FloatQVec)
        } else {
            None
        }
    }

    /// No two kinds share a `$type`: the `$type` of a kind stands for that kind.
    pub proof fn tag_names_kind(self)
        ensures
            Self::of_tag(self.tag_spec()) == Some(self),
    {
        reveal_strlit("reference");
        reveal_strlit("list");
        reveal_strlit("syncObject");
        reveal_strlit("string");
        reveal_strlit("Uri");
        reveal_strlit("enum");
        reveal_strlit("empty");
        reveal_strlit("byte");
        reveal_strlit("ushort");
        reveal_strlit("uint");
        reveal_strlit("ulong");
        reveal_strlit("sbyte");
        reveal_strlit("short");
        reveal_strlit("int");
        reveal_strlit("int?");
        reveal_strlit("long");
        reveal_strlit("int2");
        reveal_strlit("int2?");
        reveal_strlit("int3");
        reveal_strlit("int4");
        reveal_strlit("float");
        reveal_strlit("float?");
        reveal_strlit("double");
        reveal_strlit("bool");
        reveal_strlit("bool?");
        reveal_strlit("color");
        reveal_strlit("colorX");
        reveal_strlit("colorX?");
        reveal_strlit("color32");
        reveal_strlit("float2");
        reveal_strlit("float3");
        reveal_strlit("float3?");
        reveal_strlit("float3[]");
        reveal_strlit("float4");
        reveal_strlit("floatQ");
        reveal_strlit("floatQ?");
        reveal_strlit("floatQ[]");
        assert("reference"@.len() == 9 && "reference"@[0] == 'r' && "reference"@[1] == 'e' &&
            "reference"@[2] == 'f' && "reference"@[3] == 'e' && "reference"@[4] == 'r' &&
            "reference"@[5] == 'e' && "reference"@[6] == 'n' && "reference"@[7] == 'c' &&
            "reference"@[8] == 'e');
        assert("list"@.len() == 4 && "list"@[0] == 'l' && "list"@[1] == 'i' &&
            "list"@[2] == 's' && "list"@[3] == 't');
        assert("syncObject"@.len() == 10 && "syncObject"@[0] == 's' && "syncObject"@[1] == 'y' &&
            "syncObject"@[2] == 'n' && "syncObject"@[3] == 'c' && "syncObject"@[4] == 'O' &&
            "syncObject"@[5] == 'b' && "syncObject"@[6] == 'j' && "syncObject"@[7] == 'e' &&
            "syncObject"@[8] == 'c' && "syncObject"@[9] == 't');
        assert("string"@.len() == 6 && "string"@[0] == 's' && "string"@[1] == 't' &&
            "string"@[2] == 'r' && "string"@[3] == 'i' && "string"@[4] == 'n' &&
            "string"@[5] == 'g');
        assert("Uri"@.len() == 3 && "Uri"@[0] == 'U' && "Uri"@[1] == 'r' && "Uri"@[2] == 'i');
        assert("enum"@.len() == 4 && "enum"@[0] == 'e' && "enum"@[1] == 'n' &&
            "enum"@[2] == 'u' && "enum"@[3] == 'm');
        assert("empty"@.len() == 5 && "empty"@[0] == 'e' && "empty"@[1] == 'm' &&
            "empty"@[2] == 'p' && "empty"@[3] == 't' && "empty"@[4] == 'y');
        assert("byte"@.len() == 4 && "byte"@[0] == 'b' && "byte"@[1] == 'y' &&
            "byte"@[2] == 't' && "byte"@[3] == 'e');
        assert("ushort"@.len() == 6 && "ushort"@[0] == 'u' && "ushort"@[1] == 's' &&
            "ushort"@[2] == 'h' && "ushort"@[3] == 'o' && "ushort"@[4] == 'r' &&
            "ushort"@[5] == 't');
        assert("uint"@.len() == 4 && "uint"@[0] == 'u' && "uint"@[1] == 'i' &&
            "uint"@[2] == 'n' && "uint"@[3] == 't');
        assert("ulong"@.len() == 5 && "ulong"@[0] == 'u' && "ulong"@[1] == 'l' &&
            "ulong"@[2] == 'o' && "ulong"@[3] == 'n' && "ulong"@[4] == 'g');
        assert("sbyte"@.len() == 5 && "sbyte"@[0] == 's' && "sbyte"@[1] == 'b' &&
            "sbyte"@[2] == 'y' && "sbyte"@[3] == 't' && "sbyte"@[4] == 'e');
        assert("short"@.len() == 5 && "short"@[0] == 's' && "short"@[1] == 'h' &&
            "short"@[2] == 'o' && "short"@[3] == 'r' && "short"@[4] == 't');
        assert("int"@.len() == 3 && "int"@[0] == 'i' && "int"@[1] == 'n' && "int"@[2] == 't');
        assert("int?"@.len() == 4 && "int?"@[0] == 'i' && "int?"@[1] == 'n' &&
            "int?"@[2] == 't' && "int?"@[3] == '?');
        assert("long"@.len() == 4 && "long"@[0] == 'l' && "long"@[1] == 'o' &&
            "long"@[2] == 'n' && "long"@[3] == 'g');
        assert("int2"@.len() == 4 && "int2"@[0] == 'i' && "int2"@[1] == 'n' &&
            "int2"@[2] == 't' && "int2"@[3] == '2');
        assert("int2?"@.len() == 5 && "int2?"@[0] == 'i' && "int2?"@[1] == 'n' &&
            "int2?"@[2] == 't' && "int2?"@[3] == '2' && "int2?"@[4] == '?');
        assert("int3"@.len() == 4 && "int3"@[0] == 'i' && "int3"@[1] == 'n' &&
            "int3"@[2] == 't' && "int3"@[3] == '3');
        assert("int4"@.len() == 4 && "int4"@[0] == 'i' && "int4"@[1] == 'n' &&
            "int4"@[2] == 't' && "int4"@[3] == '4');
        assert("float"@.len() == 5 && "float"@[0] == 'f' && "float"@[1] == 'l' &&
            "float"@[2] == 'o' && "float"@[3] == 'a' && "float"@[4] == 't');
        assert("float?"@.len() == 6 && "float?"@[0] == 'f' && "float?"@[1] == 'l' &&
            "float?"@[2] == 'o' && "float?"@[3] == 'a' && "float?"@[4] == 't' &&
            "float?"@[5] == '?');
        assert("double"@.len() == 6 && "double"@[0] == 'd' && "double"@[1] == 'o' &&
            "double"@[2] == 'u' && "double"@[3] == 'b' && "double"@[4] == 'l' &&
            "double"@[5] == 'e');
        assert("bool"@.len() == 4 && "bool"@[0] == 'b' && "bool"@[1] == 'o' &&
            "bool"@[2] == 'o' && "bool"@[3] == 'l');
        assert("bool?"@.len() == 5 && "bool?"@[0] == 'b' && "bool?"@[1] == 'o' &&
            "bool?"@[2] == 'o' && "bool?"@[3] == 'l' && "bool?"@[4] == '?');
        assert("color"@.len() == 5 && "color"@[0] == 'c' && "color"@[1] == 'o' &&
            "color"@[2] == 'l' && "color"@[3] == 'o' && "color"@[4] == 'r');
        assert("colorX"@.len() == 6 && "colorX"@[0] == 'c' && "colorX"@[1] == 'o' &&
            "colorX"@[2] == 'l' && "colorX"@[3] == 'o' && "colorX"@[4] == 'r' &&
            "colorX"@[5] == 'X');
        assert("colorX?"@.len() == 7 && "colorX?"@[0] == 'c' && "colorX?"@[1] == 'o' &&
            "colorX?"@[2] == 'l' && "colorX?"@[3] == 'o' && "colorX?"@[4] == 'r' &&
            "colorX?"@[5] == 'X' && "colorX?"@[6] == '?');
        assert("color32"@.len() == 7 && "color32"@[0] == 'c' && "color32"@[1] == 'o' &&
            "color32"@[2] == 'l' && "color32"@[3] == 'o' && "color32"@[4] == 'r' &&
            "color32"@[5] == '3' && "color32"@[6] == '2');
        assert("float2"@.len() == 6 && "float2"@[0] == 'f' && "float2"@[1] == 'l' &&
            "float2"@[2] == 'o' && "float2"@[3] == 'a' && "float2"@[4] == 't' &&
            "float2"@[5] == '2');
        assert("float3"@.len() == 6 && "float3"@[0] == 'f' && "float3"@[1] == 'l' &&
            "float3"@[2] == 'o' && "float3"@[3] == 'a' && "float3"@[4] == 't' &&
            "float3"@[5] == '3');
        assert("float3?"@.len() == 7 && "float3?"@[0] == 'f' && "float3?"@[1] == 'l' &&
            "float3?"@[2] == 'o' && "float3?"@[3] == 'a' && "float3?"@[4] == 't' &&
            "float3?"@[5] == '3' && "float3?"@[6] == '?');
        assert("float3[]"@.len() == 8 && "float3[]"@[0] == 'f' && "float3[]"@[1] == 'l' &&
            "float3[]"@[2] == 'o' && "float3[]"@[3] == 'a' && "float3[]"@[4] == 't' &&
            "float3[]"@[5] == '3' && "float3[]"@[6] == '[' && "float3[]"@[7] == ']');
        assert("float4"@.len() == 6 && "float4"@[0] == 'f' && "float4"@[1] == 'l' &&
            "float4"@[2] == 'o' && "float4"@[3] == 'a' && "float4"@[4] == 't' &&
            "float4"@[5] == '4');
        assert("floatQ"@.len() == 6 && "floatQ"@[0] == 'f' && "floatQ"@[1] == 'l' &&
            "floatQ"@[2] == 'o' && "floatQ"@[3] == 'a' && "floatQ"@[4] == 't' &&
            "floatQ"@[5] == 'Q');
        assert("floatQ?"@.len() == 7 && "floatQ?"@[0] == 'f' && "floatQ?"@[1] == 'l' &&
            "floatQ?"@[2] == 'o' && "floatQ?"@[3] == 'a' && "floatQ?"@[4] == 't' &&
            "floatQ?"@[5] == 'Q' && "floatQ?"@[6] == '?');
        assert("floatQ[]"@.len() == 8 && "floatQ[]"@[0] == 'f' && "floatQ[]"@[1] == 'l' &&
            "floatQ[]"@[2] == 'o' && "floatQ[]"@[3] == 'a' && "floatQ[]"@[4] == 't' &&
            "floatQ[]"@[5] == 'Q' && "floatQ[]"@[6] == '[' && "floatQ[]"@[7] == ']');
    }
}

/// What a member holds.
pub open spec fn member_view(m: &Member) -> MemberView
    decreases m,
{
    match m {
        Member::Reference(f) => MemberView::Reference(f.deep_view()),
        Member::SyncList(l) => MemberView::SyncList(
            SyncListView { id: l.id@, elements: members_view(&l.elements) },
        ),
        Member::SyncObject(o) => MemberView::SyncObject(
            SyncObjectView { id: o.id@, members: named_members_view(&o.members) },
        ),
        Member::String(f) => MemberView::String(f.deep_view()),
        Member::Uri(f) => MemberView::Uri(f.deep_view()),
        Member::Enum(f) => MemberView::Enum(f.deep_view()),
        Member::Empty(f) => MemberView::Empty(f.deep_view()),
        Member::Byte(f) => MemberView::Byte(f.deep_view()),
        Member::UShort(f) => MemberView::UShort(f.deep_view()),
        Member::UInt(f) => MemberView::UInt(f.deep_view()),
        Member::ULong(f) => MemberView::ULong(f.deep_view()),
        Member::SByte(f) => MemberView::SByte(f.deep_view()),
        Member::Short(f) => MemberView::Short(f.deep_view()),
        Member::Int(f) => MemberView::Int(f.deep_view()),
        Member::NullInt(f) => MemberView::NullInt(f.deep_view()),
        Member::Long(f) => MemberView::Long(f.deep_view()),
        Member::Int2(f) => MemberView::Int2(f.deep_view()),
        Member::NullInt2(f) => MemberView::NullInt2(f.deep_view()),
        Member::Int3(f) => MemberView::Int3(f.deep_view()),
        Member::Int4(f) => MemberView::Int4(f.deep_view()),
        Member::Float(f) => MemberView::Float(f.deep_view()),
        Member::NullFloat(f) => MemberView::NullFloat(f.deep_view()),
        Member::Double(f) => MemberView::Double(f.deep_view()),
        Member::Bool(f) => MemberView::Bool(f.deep_view()),
        Member::NullBool(f) => MemberView::NullBool(f.deep_view()),
        Member::Color(f) => MemberView::Color(f.deep_view()),
        Member::ColorX(f) => MemberView::ColorX(f.deep_view()),
        Member::NullColorX(f) => MemberView::NullColorX(f.deep_view()),
        Member::Color32(f) => MemberView::Color32(f.deep_view()),
        Member::Float2(f) => MemberView::Float2(f.deep_view()),
        Member::Float3(f) => MemberView::Float3(f.deep_view()),
        Member::NullFloat3(f) => MemberView::NullFloat3(f.deep_view()),
        Member::Float3Vec(f) => MemberView::Float3Vec(f.deep_view()),
        Member::Float4(f) => MemberView::Float4(f.deep_view()),
        Member::FloatQ(f) => MemberView::FloatQ(f.deep_view()),
        Member::NullFloatQ(f) => MemberView::NullFloatQ(f.deep_view()),
        Member::FloatQVec(f) => MemberView::FloatQVec(f.deep_view()),
    }
}

/// What a list of members holds.
pub open spec fn members_view(list: &Vec<Member>) -> Seq<MemberView>
    decreases list,
{
    Seq::new(
        list.len() as nat,
        |i: int|
            if 0 <= i < list.len() {
                member_view(&list[i])
            } else {
                arbitrary()
            },
    )
}

/// What a list of members under names holds.
pub open spec fn named_members_view(list: &Vec<(String, Member)>) -> Seq<(Seq<char>, MemberView)>
    decreases list,
{
    Seq::new(
        list.len() as nat,
        |i: int|
            if 0 <= i < list.len() {
                (list[i].0@, member_view(&list[i].1))
            } else {
                arbitrary()
            },
    )
}

impl View for Member {
    type V = MemberView;

    open spec fn view(&self) -> MemberView {
        member_view(self)
    }
}

impl DeepView for Member {
    type V = MemberView;

    open spec fn deep_view(&self) -> MemberView {
        member_view(self)
    }
}

impl MemberView {
    /// The kind of a member.
    pub open spec fn kind(self) -> MemberKind {
        match self {
            MemberView::Reference(_) => MemberKind::Reference,
            MemberView::SyncList(_) => MemberKind::SyncList,
            MemberView::SyncObject(_) => MemberKind::SyncObject,
            MemberView::String(_) => MemberKind::String,
            MemberView::Uri(_) => MemberKind::Uri,
            MemberView::Enum(_) => MemberKind::Enum,
            MemberView::Empty(_) => MemberKind::Empty,
            MemberView::Byte(_) => MemberKind::Byte,
            MemberView::UShort(_) => MemberKind::UShort,
            MemberView::UInt(_) => MemberKind::UInt,
            MemberView::ULong(_) => MemberKind::ULong,
            MemberView::SByte(_) => MemberKind::SByte,
            MemberView::Short(_) => MemberKind::Short,
            MemberView::Int(_) => MemberKind::Int,
            MemberView::NullInt(_) => MemberKind::NullInt,
            MemberView::Long(_) => MemberKind::Long,
            MemberView::Int2(_) => MemberKind::Int2,
            MemberView::NullInt2(_) => MemberKind::NullInt2,
            MemberView::Int3(_) => MemberKind::Int3,
            MemberView::Int4(_) => MemberKind::Int4,
            MemberView::Float(_) => MemberKind::Float,
            MemberView::NullFloat(_) => MemberKind::NullFloat,
            MemberView::Double(_) => MemberKind::Double,
            MemberView::Bool(_) => MemberKind::Bool,
            MemberView::NullBool(_) => MemberKind::NullBool,
            MemberView::Color(_) => MemberKind::Color,
            MemberView::ColorX(_) => MemberKind::ColorX,
            MemberView::NullColorX(_) => MemberKind::NullColorX,
            MemberView::Color32(_) => MemberKind::Color32,
            MemberView::Float2(_) => MemberKind::Float2,
            MemberView::Float3(_) => MemberKind::Float3,
            MemberView::NullFloat3(_) => MemberKind::NullFloat3,
            MemberView::Float3Vec(_) => MemberKind::Float3Vec,
            MemberView::Float4(_) => MemberKind::Float4,
            MemberView::FloatQ(_) => MemberKind::FloatQ,
            MemberView::NullFloatQ(_) => MemberKind::NullFloatQ,
            MemberView::FloatQVec(_) => MemberKind::FloatQVec,
        }
    }

    /// The id of a member.
    pub open spec fn id(self) -> Seq<char> {
        match self {
            MemberView::Reference(f) => f.id,
            MemberView::SyncList(f) => f.id,
            MemberView::SyncObject(f) => f.id,
            MemberView::String(f) => f.id,
            MemberView::Uri(f) => f.id,
            MemberView::Enum(f) => f.id,
            MemberView::Empty(f) => f.id,
            MemberView::Byte(f) => f.id,
            MemberView::UShort(f) => f.id,
            MemberView::UInt(f) => f.id,
            MemberView::ULong(f) => f.id,
            MemberView::SByte(f) => f.id,
            MemberView::Short(f) => f.id,
            MemberView::Int(f) => f.id,
            MemberView::NullInt(f) => f.id,
            MemberView::Long(f) => f.id,
            MemberView::Int2(f) => f.id,
            MemberView::NullInt2(f) => f.id,
            MemberView::Int3(f) => f.id,
            MemberView::Int4(f) => f.id,
            MemberView::Float(f) => f.id,
            MemberView::NullFloat(f) => f.id,
            MemberView::Double(f) => f.id,
            MemberView::Bool(f) => f.id,
            MemberView::NullBool(f) => f.id,
            MemberView::Color(f) => f.id,
            MemberView::ColorX(f) => f.id,
            MemberView::NullColorX(f) => f.id,
            MemberView::Color32(f) => f.id,
            MemberView::Float2(f) => f.id,
            MemberView::Float3(f) => f.id,
            MemberView::NullFloat3(f) => f.id,
            MemberView::Float3Vec(f) => f.id,
            MemberView::Float4(f) => f.id,
            MemberView::FloatQ(f) => f.id,
            MemberView::NullFloatQ(f) => f.id,
            MemberView::FloatQVec(f) => f.id,
        }
    }
}

impl Member {
    /// The kind of the member.
    pub fn kind(&self) -> (r: MemberKind)
        ensures
            r == self@.kind(),
    {
        match self {
            Member::Reference(_) => MemberKind::Reference,
            Member::SyncList(_) => MemberKind::SyncList,
            Member::SyncObject(_) => MemberKind::SyncObject,
            Member::String(_) => MemberKind::String,
            Member::Uri(_) => MemberKind::Uri,
            Member::Enum(_) => MemberKind::Enum,
            Member::Empty(_) => MemberKind::Empty,
            Member::Byte(_) => MemberKind::Byte,
            Member::UShort(_) => MemberKind::UShort,
            Member::UInt(_) => MemberKind::UInt,
            Member::ULong(_) => MemberKind::ULong,
            Member::SByte(_) => MemberKind::SByte,
            Member::Short(_) => MemberKind::Short,
            Member::Int(_) => MemberKind::Int,
            Member::NullInt(_) => MemberKind::NullInt,
            Member::Long(_) => MemberKind::Long,
            Member::Int2(_) => MemberKind::Int2,
            Member::NullInt2(_) => MemberKind::NullInt2,
            Member::Int3(_) => MemberKind::Int3,
            Member::Int4(_) => MemberKind::Int4,
            Member::Float(_) => MemberKind::Float,
            Member::NullFloat(_) => MemberKind::NullFloat,
            Member::Double(_) => MemberKind::Double,
            Member::Bool(_) => MemberKind::Bool,
            Member::NullBool(_) => MemberKind::NullBool,
            Member::Color(_) => MemberKind::Color,
            Member::ColorX(_) => MemberKind::ColorX,
            Member::NullColorX(_) => MemberKind::NullColorX,
            Member::Color32(_) => MemberKind::Color32,
            Member::Float2(_) => MemberKind::Float2,
            Member::Float3(_) => MemberKind::Float3,
            Member::NullFloat3(_) => MemberKind::NullFloat3,
            Member::Float3Vec(_) => MemberKind::Float3Vec,
            Member::Float4(_) => MemberKind::Float4,
            Member::FloatQ(_) => MemberKind::FloatQ,
            Member::NullFloatQ(_) => MemberKind::NullFloatQ,
            Member::FloatQVec(_) => MemberKind::FloatQVec,
        }
    }
}

impl ID for Member {
    open spec fn id_spec(&self) -> Seq<char> {
        self@.id()
    }

    fn id(&self) -> (r: &str) {
        match self {
            Member::Reference(f) => f.id.as_str(),
            Member::SyncList(f) => f.id.as_str(),
            Member::SyncObject(f) => f.id.as_str(),
            Member::String(f) => f.id.as_str(),
            Member::Uri(f) => f.id.as_str(),
            Member::Enum(f) => f.id.as_str(),
            Member::Empty(f) => f.id.as_str(),
            Member::Byte(f) => f.id.as_str(),
            Member::UShort(f) => f.id.as_str(),
            Member::UInt(f) => f.id.as_str(),
            Member::ULong(f) => f.id.as_str(),
            Member::SByte(f) => f.id.as_str(),
            Member::Short(f) => f.id.as_str(),
            Member::Int(f) => f.id.as_str(),
            Member::NullInt(f) => f.id.as_str(),
            Member::Long(f) => f.id.as_str(),
            Member::Int2(f) => f.id.as_str(),
            Member::NullInt2(f) => f.id.as_str(),
            Member::Int3(f) => f.id.as_str(),
            Member::Int4(f) => f.id.as_str(),
            Member::Float(f) => f.id.as_str(),
            Member::NullFloat(f) => f.id.as_str(),
            Member::Double(f) => f.id.as_str(),
            Member::Bool(f) => f.id.as_str(),
            Member::NullBool(f) => f.id.as_str(),
            Member::Color(f) => f.id.as_str(),
            Member::ColorX(f) => f.id.as_str(),
            Member::NullColorX(f) => f.id.as_str(),
            Member::Color32(f) => f.id.as_str(),
            Member::Float2(f) => f.id.as_str(),
            Member::Float3(f) => f.id.as_str(),
            Member::NullFloat3(f) => f.id.as_str(),
            Member::Float3Vec(f) => f.id.as_str(),
            Member::Float4(f) => f.id.as_str(),
            Member::FloatQ(f) => f.id.as_str(),
            Member::NullFloatQ(f) => f.id.as_str(),
            Member::FloatQVec(f) => f.id.as_str(),
        }
    }
}

/// The document of a member: an object with the `$type` of its kind, then the
/// entries of what it holds.
pub open spec fn member_doc(m: MemberView) -> JsonView
    decreases m, 1nat,
{
    JsonView::Object(
        member_entries(m, Seq::empty().push(("$type"@, JsonView::String(m.kind().tag_spec())))),
    )
}

/// The entries of what a member holds, behind those of `base`.
pub open spec fn member_entries(m: MemberView, base: Seq<(Seq<char>, JsonView)>) -> Seq<
    (Seq<char>, JsonView),
>
    decreases m, 0nat,
{
    match m {
        MemberView::Reference(f) => Reference::entries_of(f, base),
        MemberView::SyncList(l) => sync_list_entries(l, base),
        MemberView::SyncObject(o) => sync_object_entries(o, base),
        MemberView::String(f) => Field::<Option<String>>::entries_of(f, base),
        MemberView::Uri(f) => Field::<Option<String>>::entries_of(f, base),
        MemberView::Enum(f) => Field::<Option<String>>::entries_of(f, base),
        MemberView::Empty(f) => Empty::entries_of(f, base),
        MemberView::Byte(f) => Field::<u8>::entries_of(f, base),
        MemberView::UShort(f) => Field::<u16>::entries_of(f, base),
        MemberView::UInt(f) => Field::<u32>::entries_of(f, base),
        MemberView::ULong(f) => Field::<u64>::entries_of(f, base),
        MemberView::SByte(f) => Field::<i8>::entries_of(f, base),
        MemberView::Short(f) => Field::<i16>::entries_of(f, base),
        MemberView::Int(f) => Field::<i32>::entries_of(f, base),
        MemberView::NullInt(f) => Field::<Option<i32>>::entries_of(f, base),
        MemberView::Long(f) => Field::<i64>::entries_of(f, base),
        MemberView::Int2(f) => Field::<Int2>::entries_of(f, base),
        MemberView::NullInt2(f) => Field::<Option<Int2>>::entries_of(f, base),
        MemberView::Int3(f) => Field::<Int3>::entries_of(f, base),
        MemberView::Int4(f) => Field::<Int4>::entries_of(f, base),
        MemberView::Float(f) => Field::<F32>::entries_of(f, base),
        MemberView::NullFloat(f) => Field::<Option<F32>>::entries_of(f, base),
        MemberView::Double(f) => Field::<F64>::entries_of(f, base),
        MemberView::Bool(f) => Field::<bool>::entries_of(f, base),
        MemberView::NullBool(f) => Field::<Option<bool>>::entries_of(f, base),
        MemberView::Color(f) => Field::<Color>::entries_of(f, base),
        MemberView::ColorX(f) => Field::<ColorX>::entries_of(f, base),
        MemberView::NullColorX(f) => Field::<Option<ColorX>>::entries_of(f, base),
        MemberView::Color32(f) => Field::<Color32>::entries_of(f, base),
        MemberView::Float2(f) => Field::<Float2>::entries_of(f, base),
        MemberView::Float3(f) => Field::<Float3>::entries_of(f, base),
        MemberView::NullFloat3(f) => Field::<Option<Float3>>::entries_of(f, base),
        MemberView::Float3Vec(f) => ArrayField::<Float3>::entries_of(f, base),
        MemberView::Float4(f) => Field::<Float4>::entries_of(f, base),
        MemberView::FloatQ(f) => Field::<FloatQ>::entries_of(f, base),
        MemberView::NullFloatQ(f) => Field::<Option<FloatQ>>::entries_of(f, base),
        MemberView::FloatQVec(f) => ArrayField::<FloatQ>::entries_of(f, base),
    }
}

/// The entries of a list of members, behind those of `base`: `id` and `elements`.
pub open spec fn sync_list_entries(l: SyncListView, base: Seq<(Seq<char>, JsonView)>) -> Seq<
    (Seq<char>, JsonView),
>
    decreases l,
{
    base.push(("id"@, JsonView::String(l.id))).push(
        ("elements"@, JsonView::Array(member_docs(l.elements))),
    )
}

/// The entries of an object of members, behind those of `base`: `id` and
/// `members`.
pub open spec fn sync_object_entries(o: SyncObjectView, base: Seq<(Seq<char>, JsonView)>) -> Seq<
    (Seq<char>, JsonView),
>
    decreases o,
{
    base.push(("id"@, JsonView::String(o.id))).push(
        ("members"@, JsonView::Object(named_member_docs(o.members))),
    )
}

/// The documents of a list of members, one for one.
pub open spec fn member_docs(list: Seq<MemberView>) -> Seq<JsonView>
    decreases list,
{
    Seq::new(
        list.len(),
        |i: int|
            if 0 <= i < list.len() {
                member_doc(list[i])
            } else {
                arbitrary()
            },
    )
}

/// The entries of a list of members under names, one for one.
pub open spec fn named_member_docs(list: Seq<(Seq<char>, MemberView)>) -> Seq<
    (Seq<char>, JsonView),
>
    decreases list,
{
    Seq::new(
        list.len(),
        |i: int|
            if 0 <= i < list.len() {
                (list[i].0, member_doc(list[i].1))
            } else {
                arbitrary()
            },
    )
}

/// The member that a document stands for: an object whose `$type` names a
/// kind and whose entries give what that kind holds.
pub open spec fn member_of(doc: JsonView) -> Result<MemberView, DecodeError>
    decreases doc, 2nat,
{
    match doc {
        JsonView::Object(entries) => match lookup(entries, "$type"@) {
            None => Err(DecodeError::MissingField),
            Some(JsonView::String(tag)) => match MemberKind::of_tag(tag) {
                None => Err(DecodeError::UnknownTag),
                Some(kind) => member_of_kind(kind, entries),
            },
            Some(_) => Err(DecodeError::WrongType),
        },
        _ => Err(DecodeError::WrongType),
    }
}

/// The member of a known kind that the entries of an object give.
pub open spec fn member_of_kind(kind: MemberKind, entries: Seq<(Seq<char>, JsonView)>) -> Result<
    MemberView,
    DecodeError,
>
    decreases entries, 1nat,
{
    match kind {
        MemberKind::Reference => map_ok(
            Reference::of_entries(entries),
            |f| MemberView::Reference(f),
        ),
        MemberKind::SyncList => map_ok(sync_list_of(entries), |l| MemberView::SyncList(l)),
        MemberKind::SyncObject => map_ok(
            sync_object_of(entries),
            |o| MemberView::SyncObject(o),
        ),
        MemberKind::String => map_ok(
            Field::<Option<String>>::of_entries(entries),
            |f| MemberView::String(f),
        ),
        MemberKind::Uri => map_ok(
            Field::<Option<String>>::of_entries(entries),
            |f| MemberView::Uri(f),
        ),
        MemberKind::Enum => map_ok(
            Field::<Option<String>>::of_entries(entries),
            |f| MemberView::Enum(f),
        ),
        MemberKind::Empty => map_ok(Empty::of_entries(entries), |f| MemberView::Empty(f)),
        MemberKind::Byte => map_ok(Field::<u8>::of_entries(entries), |f| MemberView::Byte(f)),
        MemberKind::UShort => map_ok(Field::<u16>::of_entries(entries), |f| MemberView::UShort(f)),
        MemberKind::UInt => map_ok(Field::<u32>::of_entries(entries), |f| MemberView::UInt(f)),
        MemberKind::ULong => map_ok(Field::<u64>::of_entries(entries), |f| MemberView::ULong(f)),
        MemberKind::SByte => map_ok(Field::<i8>::of_entries(entries), |f| MemberView::SByte(f)),
        MemberKind::Short => map_ok(Field::<i16>::of_entries(entries), |f| MemberView::Short(f)),
        MemberKind::Int => map_ok(Field::<i32>::of_entries(entries), |f| MemberView::Int(f)),
        MemberKind::NullInt => map_ok(
            Field::<Option<i32>>::of_entries(entries),
            |f| MemberView::NullInt(f),
        ),
        MemberKind::Long => map_ok(Field::<i64>::of_entries(entries), |f| MemberView::Long(f)),
        MemberKind::Int2 => map_ok(Field::<Int2>::of_entries(entries), |f| MemberView::Int2(f)),
        MemberKind::NullInt2 => map_ok(
            Field::<Option<Int2>>::of_entries(entries),
            |f| MemberView::NullInt2(f),
        ),
        MemberKind::Int3 => map_ok(Field::<Int3>::of_entries(entries), |f| MemberView::Int3(f)),
        MemberKind::Int4 => map_ok(Field::<Int4>::of_entries(entries), |f| MemberView::Int4(f)),
        MemberKind::Float => map_ok(Field::<F32>::of_entries(entries), |f| MemberView::Float(f)),
        MemberKind::NullFloat => map_ok(
            Field::<Option<F32>>::of_entries(entries),
            |f| MemberView::NullFloat(f),
        ),
        MemberKind::Double => map_ok(Field::<F64>::of_entries(entries), |f| MemberView::Double(f)),
        MemberKind::Bool => map_ok(Field::<bool>::of_entries(entries), |f| MemberView::Bool(f)),
        MemberKind::NullBool => map_ok(
            Field::<Option<bool>>::of_entries(entries),
            |f| MemberView::NullBool(f),
        ),
        MemberKind::Color => map_ok(Field::<Color>::of_entries(entries), |f| MemberView::Color(f)),
        MemberKind::ColorX => map_ok(
            Field::<ColorX>::of_entries(entries),
            |f| MemberView::ColorX(f),
        ),
        MemberKind::NullColorX => map_ok(
            Field::<Option<ColorX>>::of_entries(entries),
            |f| MemberView::NullColorX(f),
        ),
        MemberKind::Color32 => map_ok(
            Field::<Color32>::of_entries(entries),
            |f| MemberView::Color32(f),
        ),
        MemberKind::Float2 => map_ok(
            Field::<Float2>::of_entries(entries),
            |f| MemberView::Float2(f),
        ),
        MemberKind::Float3 => map_ok(
            Field::<Float3>::of_entries(entries),
            |f| MemberView::Float3(f),
        ),
        MemberKind::NullFloat3 => map_ok(
            Field::<Option<Float3>>::of_entries(entries),
            |f| MemberView::NullFloat3(f),
        ),
        MemberKind::Float3Vec => map_ok(
            ArrayField::<Float3>::of_entries(entries),
            |f| MemberView::Float3Vec(f),
        ),
        MemberKind::Float4 => map_ok(
            Field::<Float4>::of_entries(entries),
            |f| MemberView::Float4(f),
        ),
        MemberKind::FloatQ => map_ok(
            Field::<FloatQ>::of_entries(entries),
            |f| MemberView::FloatQ(f),
        ),
        MemberKind::NullFloatQ => map_ok(
            Field::<Option<FloatQ>>::of_entries(entries),
            |f| MemberView::NullFloatQ(f),
        ),
        MemberKind::FloatQVec => map_ok(
            ArrayField::<FloatQ>::of_entries(entries),
            |f| MemberView::FloatQVec(f),
        ),
    }
}

/// The list of members that the entries of an object give: `id`, and under
/// `elements` an array, or `null` for the empty list.
pub open spec fn sync_list_of(entries: Seq<(Seq<char>, JsonView)>) -> Result<
    SyncListView,
    DecodeError,
>
    decreases entries, 0nat,
{
    match field_of::<String>(entries, "id"@) {
        Err(e) => Err(e),
        Ok(id) => match lookup(entries, "elements"@) {
            None => Err(DecodeError::MissingField),
            Some(JsonView::Null) => Ok(SyncListView { id, elements: Seq::empty() }),
            Some(JsonView::Array(docs)) => {
                proof {
                    lookup_is_part(entries, "elements"@);
                }
                match members_of(docs) {
                    Err(e) => Err(e),
                    Ok(elements) => Ok(SyncListView { id, elements }),
                }
            },
            Some(_) => Err(DecodeError::WrongType),
        },
    }
}

/// The object of members that the entries of an object give: `id`, and under
/// `members` an object with one entry for each member.
pub open spec fn sync_object_of(entries: Seq<(Seq<char>, JsonView)>) -> Result<
    SyncObjectView,
    DecodeError,
>
    decreases entries, 0nat,
{
    match field_of::<String>(entries, "id"@) {
        Err(e) => Err(e),
        Ok(id) => match lookup(entries, "members"@) {
            None => Err(DecodeError::MissingField),
            Some(JsonView::Object(named)) => {
                proof {
                    lookup_is_part(entries, "members"@);
                }
                match named_members_of(named) {
                    Err(e) => Err(e),
                    Ok(members) => Ok(SyncObjectView { id, members }),
                }
            },
            Some(_) => Err(DecodeError::WrongType),
        },
    }
}

/// The members that a list of documents stands for: all of them, or the first
/// failure.
pub open spec fn members_of(docs: Seq<JsonView>) -> Result<Seq<MemberView>, DecodeError>
    decreases docs, 1nat,
{
    gather(member_outcomes(docs))
}

/// What each document of a list gives when it is read as a member.
pub open spec fn member_outcomes(docs: Seq<JsonView>) -> Seq<Result<MemberView, DecodeError>>
    decreases docs, 0nat,
{
    Seq::new(
        docs.len(),
        |i: int|
            if 0 <= i < docs.len() {
                member_of(docs[i])
            } else {
                arbitrary()
            },
    )
}

/// The members under names that the entries of an object stand for. An object
/// with one key twice stands for none; else all of them in the order of their
/// names, whatever the order of the entries, or the first failure.
pub open spec fn named_members_of(named: Seq<(Seq<char>, JsonView)>) -> Result<
    Seq<(Seq<char>, MemberView)>,
    DecodeError,
>
    decreases named, 1nat,
{
    if !names_are_distinct(named) {
        Err(DecodeError::DuplicateKey)
    } else {
        map_ok(gather(named_member_outcomes(named)), |read| sort_by_name(read))
    }
}

/// What each entry of an object gives when it is read as a member under a name.
pub open spec fn named_member_outcomes(named: Seq<(Seq<char>, JsonView)>) -> Seq<
    Result<(Seq<char>, MemberView), DecodeError>,
>
    decreases named, 0nat,
{
    Seq::new(
        named.len(),
        |i: int|
            if 0 <= i < named.len() {
                map_ok(member_of(named[i].1), |m| (named[i].0, m))
            } else {
                arbitrary()
            },
    )
}

/// Whether a member comes back from its document as it went in: its
/// floating-point values are numbers or the not-a-number value that `"NaN"`
/// reads as, and every object in it has its members in the order of their
/// names.
pub open spec fn member_sound(m: MemberView) -> bool
    decreases m,
{
    match m {
        MemberView::Reference(f) => <Reference as Wire>::sound(f),
        MemberView::SyncList(l) => members_sound(l.elements),
        MemberView::SyncObject(o) => named_members_sound(o.members),
        MemberView::String(f) => <Field<Option<String>> as Wire>::sound(f),
        MemberView::Uri(f) => <Field<Option<String>> as Wire>::sound(f),
        MemberView::Enum(f) => <Field<Option<String>> as Wire>::sound(f),
        MemberView::Empty(f) => <Empty as Wire>::sound(f),
        MemberView::Byte(f) => <Field<u8> as Wire>::sound(f),
        MemberView::UShort(f) => <Field<u16> as Wire>::sound(f),
        MemberView::UInt(f) => <Field<u32> as Wire>::sound(f),
        MemberView::ULong(f) => <Field<u64> as Wire>::sound(f),
        MemberView::SByte(f) => <Field<i8> as Wire>::sound(f),
        MemberView::Short(f) => <Field<i16> as Wire>::sound(f),
        MemberView::Int(f) => <Field<i32> as Wire>::sound(f),
        MemberView::NullInt(f) => <Field<Option<i32>> as Wire>::sound(f),
        MemberView::Long(f) => <Field<i64> as Wire>::sound(f),
        MemberView::Int2(f) => <Field<Int2> as Wire>::sound(f),
        MemberView::NullInt2(f) => <Field<Option<Int2>> as Wire>::sound(f),
        MemberView::Int3(f) => <Field<Int3> as Wire>::sound(f),
        MemberView::Int4(f) => <Field<Int4> as Wire>::sound(f),
        MemberView::Float(f) => <Field<F32> as Wire>::sound(f),
        MemberView::NullFloat(f) => <Field<Option<F32>> as Wire>::sound(f),
        MemberView::Double(f) => <Field<F64> as Wire>::sound(f),
        MemberView::Bool(f) => <Field<bool> as Wire>::sound(f),
        MemberView::NullBool(f) => <Field<Option<bool>> as Wire>::sound(f),
        MemberView::Color(f) => <Field<Color> as Wire>::sound(f),
        MemberView::ColorX(f) => <Field<ColorX> as Wire>::sound(f),
        MemberView::NullColorX(f) => <Field<Option<ColorX>> as Wire>::sound(f),
        MemberView::Color32(f) => <Field<Color32> as Wire>::sound(f),
        MemberView::Float2(f) => <Field<Float2> as Wire>::sound(f),
        MemberView::Float3(f) => <Field<Float3> as Wire>::sound(f),
        MemberView::NullFloat3(f) => <Field<Option<Float3>> as Wire>::sound(f),
        MemberView::Float3Vec(f) => <ArrayField<Float3> as Wire>::sound(f),
        MemberView::Float4(f) => <Field<Float4> as Wire>::sound(f),
        MemberView::FloatQ(f) => <Field<FloatQ> as Wire>::sound(f),
        MemberView::NullFloatQ(f) => <Field<Option<FloatQ>> as Wire>::sound(f),
        MemberView::FloatQVec(f) => <ArrayField<FloatQ> as Wire>::sound(f),
    }
}

/// Whether every member of a list is sound.
pub open spec fn members_sound(list: Seq<MemberView>) -> bool
    decreases list,
{
    forall|i: int| 0 <= i < list.len() ==> member_sound(#[trigger] list[i])
}

/// Whether the members stand in the order of their names and every member is
/// sound.
pub open spec fn named_members_sound(list: Seq<(Seq<char>, MemberView)>) -> bool
    decreases list,
{
    &&& names_ascend(list)
    &&& forall|i: int| 0 <= i < list.len() ==> member_sound((#[trigger] list[i]).1)
}

/// Writes the entries of what a member holds behind those that are there.
fn write_member_entries(m: &Member, entries: &mut Vec<(String, Json)>)
    ensures
        entries_view(final(entries)) == member_entries(m@, entries_view(old(entries))),
    decreases m, 0nat,
{
    match m {
        Member::Reference(f) => f.write_entries(entries),
        Member::SyncList(l) => write_sync_list(l, entries),
        Member::SyncObject(o) => write_sync_object(o, entries),
        Member::String(f) => f.write_entries(entries),
        Member::Uri(f) => f.write_entries(entries),
        Member::Enum(f) => f.write_entries(entries),
        Member::Empty(f) => f.write_entries(entries),
        Member::Byte(f) => f.write_entries(entries),
        Member::UShort(f) => f.write_entries(entries),
        Member::UInt(f) => f.write_entries(entries),
        Member::ULong(f) => f.write_entries(entries),
        Member::SByte(f) => f.write_entries(entries),
        Member::Short(f) => f.write_entries(entries),
        Member::Int(f) => f.write_entries(entries),
        Member::NullInt(f) => f.write_entries(entries),
        Member::Long(f) => f.write_entries(entries),
        Member::Int2(f) => f.write_entries(entries),
        Member::NullInt2(f) => f.write_entries(entries),
        Member::Int3(f) => f.write_entries(entries),
        Member::Int4(f) => f.write_entries(entries),
        Member::Float(f) => f.write_entries(entries),
        Member::NullFloat(f) => f.write_entries(entries),
        Member::Double(f) => f.write_entries(entries),
        Member::Bool(f) => f.write_entries(entries),
        Member::NullBool(f) => f.write_entries(entries),
        Member::Color(f) => f.write_entries(entries),
        Member::ColorX(f) => f.write_entries(entries),
        Member::NullColorX(f) => f.write_entries(entries),
        Member::Color32(f) => f.write_entries(entries),
        Member::Float2(f) => f.write_entries(entries),
        Member::Float3(f) => f.write_entries(entries),
        Member::NullFloat3(f) => f.write_entries(entries),
        Member::Float3Vec(f) => f.write_entries(entries),
        Member::Float4(f) => f.write_entries(entries),
        Member::FloatQ(f) => f.write_entries(entries),
        Member::NullFloatQ(f) => f.write_entries(entries),
        Member::FloatQVec(f) => f.write_entries(entries),
    }
}

/// Writes the entries of a list of members behind those that are there.
pub fn write_sync_list(l: &SyncList, entries: &mut Vec<(String, Json)>)
    ensures
        entries_view(final(entries)) == sync_list_entries(
            l.deep_view(),
            entries_view(old(entries)),
        ),
    decreases l,
{
    write_field(entries, "id", &l.id);
    let docs = encode_members(&l.elements);
    push_entry(entries, "elements", Json::array(docs));
}

/// Writes the entries of an object of members behind those that are there.
pub fn write_sync_object(o: &SyncObject, entries: &mut Vec<(String, Json)>)
    ensures
        entries_view(final(entries)) == sync_object_entries(
            o.deep_view(),
            entries_view(old(entries)),
        ),
    decreases o,
{
    write_field(entries, "id", &o.id);
    let named = encode_named_members(&o.members);
    push_entry(entries, "members", Json::object(named));
}

/// Writes a member as a document.
pub fn encode_member(m: &Member) -> (doc: Json)
    ensures
        doc@ == member_doc(m@),
    decreases m, 1nat,
{
    let mut entries: Vec<(String, Json)> = Vec::new();
    assert(entries_view(&entries) =~= Seq::empty());
    push_entry(&mut entries, "$type", Json::text(m.kind().tag()));
    write_member_entries(m, &mut entries);
    Json::object(entries)
}

/// Writes each member of a list as a document.
pub fn encode_members(list: &Vec<Member>) -> (docs: Vec<Json>)
    ensures
        items_view(&docs) == member_docs(members_view(list)),
    decreases list,
{
    let mut docs: Vec<Json> = Vec::new();
    let mut i: usize = 0;
    while i < list.len()
        invariant
            i <= list.len(),
            docs.len() == i,
            forall|j: int| 0 <= j < i ==> (#[trigger] docs[j])@ == member_doc(list[j]@),
        decreases list.len() - i,
    {
        docs.push(encode_member(&list[i]));
        i += 1;
    }
    assert(items_view(&docs) =~= member_docs(members_view(list)));
    docs
}

/// Writes each member of a list under its name.
pub fn encode_named_members(list: &Vec<(String, Member)>) -> (named: Vec<(String, Json)>)
    ensures
        entries_view(&named) == named_member_docs(named_members_view(list)),
    decreases list,
{
    let mut named: Vec<(String, Json)> = Vec::new();
    let mut i: usize = 0;
    while i < list.len()
        invariant
            i <= list.len(),
            named.len() == i,
            forall|j: int|
                0 <= j < i ==> (#[trigger] named[j]).0@ == list[j].0@ && named[j].1@ == member_doc(
                    list[j].1@,
                ),
        decreases list.len() - i,
    {
        let doc = encode_member(&list[i].1);
        named.push((list[i].0.clone(), doc));
        i += 1;
    }
    assert(entries_view(&named) =~= named_member_docs(named_members_view(list)));
    named
}

/// Reads a member from a document.
pub fn decode_member(doc: &Json) -> (r: Result<Member, DecodeError>)
    ensures
        deep(r) == member_of(doc@),
    decreases doc, 2nat,
{
    match doc {
        Json::Object(entries) => match find(entries, "$type") {
            None => Err(DecodeError::MissingField),
            Some(Json::String(tag)) => match MemberKind::from_tag(tag.as_str()) {
                None => Err(DecodeError::UnknownTag),
                Some(kind) => decode_member_of_kind(kind, entries),
            },
            Some(_) => Err(DecodeError::WrongType),
        },
        _ => Err(DecodeError::WrongType),
    }
}

/// Reads a member of a known kind from the entries of an object.
#[verifier::rlimit(60)]
fn decode_member_of_kind(kind: MemberKind, entries: &Vec<(String, Json)>) -> (r: Result<
    Member,
    DecodeError,
>)
    ensures
        deep(r) == member_of_kind(kind, entries_view(entries)),
    decreases entries, 1nat,
{
    match kind {
        MemberKind::Reference => Ok(Member::Reference(Reference::read_entries(entries)?)),
        MemberKind::SyncList => Ok(Member::SyncList(read_sync_list(entries)?)),
        MemberKind::SyncObject => Ok(Member::SyncObject(read_sync_object(entries)?)),
        MemberKind::String => Ok(Member::String(Field::<Option<String>>::read_entries(entries)?)),
        MemberKind::Uri => Ok(Member::Uri(Field::<Option<String>>::read_entries(entries)?)),
        MemberKind::Enum => Ok(Member::Enum(Field::<Option<String>>::read_entries(entries)?)),
        MemberKind::Empty => Ok(Member::Empty(Empty::read_entries(entries)?)),
        MemberKind::Byte => Ok(Member::Byte(Field::<u8>::read_entries(entries)?)),
        MemberKind::UShort => Ok(Member::UShort(Field::<u16>::read_entries(entries)?)),
        MemberKind::UInt => Ok(Member::UInt(Field::<u32>::read_entries(entries)?)),
        MemberKind::ULong => Ok(Member::ULong(Field::<u64>::read_entries(entries)?)),
        MemberKind::SByte => Ok(Member::SByte(Field::<i8>::read_entries(entries)?)),
        MemberKind::Short => Ok(Member::Short(Field::<i16>::read_entries(entries)?)),
        MemberKind::Int => Ok(Member::Int(Field::<i32>::read_entries(entries)?)),
        MemberKind::NullInt => Ok(Member::NullInt(Field::<Option<i32>>::read_entries(entries)?)),
        MemberKind::Long => Ok(Member::Long(Field::<i64>::read_entries(entries)?)),
        MemberKind::Int2 => Ok(Member::Int2(Field::<Int2>::read_entries(entries)?)),
        MemberKind::NullInt2 => Ok(Member::NullInt2(Field::<Option<Int2>>::read_entries(entries)?)),
        MemberKind::Int3 => Ok(Member::Int3(Field::<Int3>::read_entries(entries)?)),
        MemberKind::Int4 => Ok(Member::Int4(Field::<Int4>::read_entries(entries)?)),
        MemberKind::Float => Ok(Member::Float(Field::<F32>::read_entries(entries)?)),
        MemberKind::NullFloat => Ok(
            Member::NullFloat(Field::<Option<F32>>::read_entries(entries)?),
        ),
        MemberKind::Double => Ok(Member::Double(Field::<F64>::read_entries(entries)?)),
        MemberKind::Bool => Ok(Member::Bool(Field::<bool>::read_entries(entries)?)),
        MemberKind::NullBool => Ok(Member::NullBool(Field::<Option<bool>>::read_entries(entries)?)),
        MemberKind::Color => Ok(Member::Color(Field::<Color>::read_entries(entries)?)),
        MemberKind::ColorX => Ok(Member::ColorX(Field::<ColorX>::read_entries(entries)?)),
        MemberKind::NullColorX => Ok(
            Member::NullColorX(Field::<Option<ColorX>>::read_entries(entries)?),
        ),
        MemberKind::Color32 => Ok(Member::Color32(Field::<Color32>::read_entries(entries)?)),
        MemberKind::Float2 => Ok(Member::Float2(Field::<Float2>::read_entries(entries)?)),
        MemberKind::Float3 => Ok(Member::Float3(Field::<Float3>::read_entries(entries)?)),
        MemberKind::NullFloat3 => Ok(
            Member::NullFloat3(Field::<Option<Float3>>::read_entries(entries)?),
        ),
        MemberKind::Float3Vec => Ok(
            Member::Float3Vec(ArrayField::<Float3>::read_entries(entries)?),
        ),
        MemberKind::Float4 => Ok(Member::Float4(Field::<Float4>::read_entries(entries)?)),
        MemberKind::FloatQ => Ok(Member::FloatQ(Field::<FloatQ>::read_entries(entries)?)),
        MemberKind::NullFloatQ => Ok(
            Member::NullFloatQ(Field::<Option<FloatQ>>::read_entries(entries)?),
        ),
        MemberKind::FloatQVec => Ok(
            Member::FloatQVec(ArrayField::<FloatQ>::read_entries(entries)?),
        ),
    }
}

/// Reads a list of members from the entries of an object.
pub fn read_sync_list(entries: &Vec<(String, Json)>) -> (r: Result<SyncList, DecodeError>)
    ensures
        deep(r) == sync_list_of(entries_view(entries)),
    decreases entries, 0nat,
{
    let id = read_field::<String>(entries, "id")?;
    match find(entries, "elements") {
        None => Err(DecodeError::MissingField),
        Some(Json::Null) => {
            let elements: Vec<Member> = Vec::new();
            assert(members_view(&elements) =~= Seq::empty());
            Ok(SyncList { id, elements })
        },
        Some(Json::Array(docs)) => {
            let elements = decode_members(docs)?;
            Ok(SyncList { id, elements })
        },
        Some(_) => Err(DecodeError::WrongType),
    }
}

/// Reads an object of members from the entries of an object.
pub fn read_sync_object(entries: &Vec<(String, Json)>) -> (r: Result<SyncObject, DecodeError>)
    ensures
        deep(r) == sync_object_of(entries_view(entries)),
    decreases entries, 0nat,
{
    let id = read_field::<String>(entries, "id")?;
    match find(entries, "members") {
        None => Err(DecodeError::MissingField),
        Some(Json::Object(named)) => {
            let members = decode_named_members(named)?;
            Ok(SyncObject { id, members })
        },
        Some(_) => Err(DecodeError::WrongType),
    }
}

/// Reads each document of a list as a member, and stops at the first that is
/// none.
pub fn decode_members(docs: &Vec<Json>) -> (r: Result<Vec<Member>, DecodeError>)
    ensures
        match r {
            Ok(list) => members_of(items_view(docs)) == Ok::<Seq<MemberView>, DecodeError>(
                members_view(&list),
            ),
            Err(e) => members_of(items_view(docs)) == Err::<Seq<MemberView>, DecodeError>(e),
        },
    decreases docs,
{
    let ghost all = items_view(docs);
    let ghost outcomes = member_outcomes(all);
    let mut list: Vec<Member> = Vec::new();
    let mut i: usize = 0;
    assert(outcomes.take(0) =~= Seq::empty());
    assert(members_view(&list) =~= Seq::empty());
    while i < docs.len()
        invariant
            i <= docs.len(),
            all == items_view(docs),
            outcomes.len() == docs.len(),
            forall|j: int| 0 <= j < docs.len() ==> outcomes[j] == member_of(docs[j]@),
            members_of(all) == gather(outcomes),
            gather(outcomes.take(i as int)) == Ok::<Seq<MemberView>, DecodeError>(
                members_view(&list),
            ),
        decreases docs.len() - i,
    {
        proof {
            gather_one_more(outcomes.take(i as int), outcomes[i as int]);
            assert(outcomes.take(i as int).push(outcomes[i as int]) =~= outcomes.take(i + 1));
        }
        match decode_member(&docs[i]) {
            Ok(m) => {
                let ghost before = members_view(&list);
                list.push(m);
                assert(members_view(&list) =~= before.push(m@));
            },
            Err(e) => {
                proof {
                    gather_stays_failed(outcomes, i + 1);
                }
                return Err(e);
            },
        }
        i += 1;
    }
    assert(outcomes.take(i as int) =~= outcomes);
    Ok(list)
}

/// Whether no key stands twice among the entries.
pub fn keys_are_distinct(entries: &Vec<(String, Json)>) -> (r: bool)
    ensures
        r == names_are_distinct(entries_view(entries)),
{
    let ghost all = entries_view(entries);
    let mut j: usize = 0;
    while j < entries.len()
        invariant
            j <= entries.len(),
            all == entries_view(entries),
            forall|a: int, b: int| 0 <= a < b < j ==> all[a].0 != all[b].0,
        decreases entries.len() - j,
    {
        let mut i: usize = 0;
        while i < j
            invariant
                i <= j < entries.len(),
                all == entries_view(entries),
                forall|a: int| 0 <= a < i ==> all[a].0 != all[j as int].0,
            decreases j - i,
        {
            if same_text(entries[i].0.as_str(), entries[j].0.as_str()) {
                assert(all[i as int].0 == all[j as int].0);
                return false;
            }
            i += 1;
        }
        j += 1;
    }
    true
}

/// Reads each entry of an object as a member under a name, and puts the
/// members in the order of their names. An object with one key twice is
/// refused; else reading stops at the first entry that is no member.
pub fn decode_named_members(named: &Vec<(String, Json)>) -> (r: Result<
    Vec<(String, Member)>,
    DecodeError,
>)
    ensures
        match r {
            Ok(list) => named_members_of(entries_view(named)) == Ok::<
                Seq<(Seq<char>, MemberView)>,
                DecodeError,
            >(named_members_view(&list)),
            Err(e) => named_members_of(entries_view(named)) == Err::<
                Seq<(Seq<char>, MemberView)>,
                DecodeError,
            >(e),
        },
    decreases named,
{
    if !keys_are_distinct(named) {
        return Err(DecodeError::DuplicateKey);
    }
    let ghost all = entries_view(named);
    let ghost outcomes = named_member_outcomes(all);
    let ghost mut read: Seq<(Seq<char>, MemberView)> = Seq::empty();
    let mut list: Vec<(String, Member)> = Vec::new();
    let mut i: usize = 0;
    assert(outcomes.take(0) =~= Seq::empty());
    assert(named_members_view(&list) =~= Seq::empty());
    while i < named.len()
        invariant
            i <= named.len(),
            all == entries_view(named),
            outcomes.len() == named.len(),
            forall|j: int|
                0 <= j < named.len() ==> outcomes[j] == map_ok(
                    member_of(named[j].1@),
                    |m| (named[j].0@, m),
                ),
            named_members_of(all) == map_ok(gather(outcomes), |read| sort_by_name(read)),
            gather(outcomes.take(i as int)) == Ok::<Seq<(Seq<char>, MemberView)>, DecodeError>(
                read,
            ),
            named_members_view(&list) == sort_by_name(read),
        decreases named.len() - i,
    {
        proof {
            gather_one_more(outcomes.take(i as int), outcomes[i as int]);
            assert(outcomes.take(i as int).push(outcomes[i as int]) =~= outcomes.take(i + 1));
        }
        match decode_member(&named[i].1) {
            Ok(m) => {
                let ghost before = named_members_view(&list);
                let ghost entry = (named[i as int].0@, m@);
                proof {
                    place_goes_by_names(under_names(&list), before, entry.0);
                }
                let at = insert_named(&mut list, named[i].0.clone(), m);
                proof {
                    assert(named_members_view(&list) =~= before.insert(at as int, entry));
                    assert(read.push(entry).drop_last() =~= read);
                    read = read.push(entry);
                }
            },
            Err(e) => {
                proof {
                    gather_stays_failed(outcomes, i + 1);
                }
                return Err(e);
            },
        }
        i += 1;
    }
    assert(outcomes.take(i as int) =~= outcomes);
    Ok(list)
}

/// The member under a name, if there is one. Where no name stands twice there
/// is at most one.
pub fn member_named<'a>(list: &'a Vec<(String, Member)>, name: &str) -> (r: Option<&'a Member>)
    ensures
        match r {
            Some(m) => exists|i: int| 0 <= i < list.len() && list[i].0@ == name@ && *m == list[i].1,
            None => forall|i: int| 0 <= i < list.len() ==> list[i].0@ != name@,
        },
{
    let mut i: usize = 0;
    while i < list.len()
        invariant
            i <= list.len(),
            forall|j: int| 0 <= j < i ==> list[j].0@ != name@,
        decreases list.len() - i,
    {
        if same_text(list[i].0.as_str(), name) {
            return Some(&list[i].1);
        }
        i += 1;
    }
    None
}

/// Whether every object in a member has its members in the order of their
/// names: each name once, and one order for one map.
pub open spec fn member_well_named(m: MemberView) -> bool
    decreases m,
{
    match m {
        MemberView::SyncList(l) => members_well_named(l.elements),
        MemberView::SyncObject(o) => named_members_well_named(o.members),
        _ => true,
    }
}

/// Whether every object in a list of members has its members in the order of
/// their names.
pub open spec fn members_well_named(list: Seq<MemberView>) -> bool
    decreases list,
{
    forall|i: int| 0 <= i < list.len() ==> member_well_named(#[trigger] list[i])
}

/// Whether the members stand in the order of their names, and so do those of
/// every object among them.
pub open spec fn named_members_well_named(list: Seq<(Seq<char>, MemberView)>) -> bool
    decreases list,
{
    &&& names_ascend(list)
    &&& forall|i: int| 0 <= i < list.len() ==> member_well_named((#[trigger] list[i]).1)
}

/// A sound member has its names in order.
pub proof fn sound_member_is_well_named(m: MemberView)
    requires
        member_sound(m),
    ensures
        member_well_named(m),
    decreases m,
{
    match m {
        MemberView::SyncList(l) => {
            assert forall|i: int| 0 <= i < l.elements.len() implies member_well_named(
                #[trigger] l.elements[i],
            ) by {
                sound_member_is_well_named(l.elements[i]);
            }
        },
        MemberView::SyncObject(o) => {
            assert forall|i: int| 0 <= i < o.members.len() implies member_well_named(
                (#[trigger] o.members[i]).1,
            ) by {
                sound_member_is_well_named(o.members[i].1);
            }
        },
        _ => {},
    }
}

/// What is read from a document has its names in order.
pub proof fn read_member_is_well_named(doc: JsonView)
    ensures
        member_of(doc) matches Ok(m) ==> member_well_named(m),
    decreases doc, 1nat,
{
    match doc {
        JsonView::Object(entries) => {
            if let Some(JsonView::Array(docs)) = lookup(entries, "elements"@) {
                lookup_is_part(entries, "elements"@);
                read_members_are_well_named(docs);
            }
            if let Some(JsonView::Object(named)) = lookup(entries, "members"@) {
                lookup_is_part(entries, "members"@);
                read_named_members_are_well_named(named);
            }
        },
        _ => {},
    }
}

/// What is read from a list of documents has its names in order.
pub proof fn read_members_are_well_named(docs: Seq<JsonView>)
    ensures
        members_of(docs) matches Ok(list) ==> members_well_named(list),
    decreases docs, 0nat,
{
    gather_gives_each(member_outcomes(docs));
    if let Ok(list) = members_of(docs) {
        assert forall|i: int| 0 <= i < list.len() implies member_well_named(
            #[trigger] list[i],
        ) by {
            read_member_is_well_named(docs[i]);
        }
    }
}

/// What is read from the entries of an object has its names in order, in
/// whatever order the entries stand.
pub proof fn read_named_members_are_well_named(named: Seq<(Seq<char>, JsonView)>)
    ensures
        named_members_of(named) matches Ok(list) ==> named_members_well_named(list),
    decreases named, 0nat,
{
    gather_gives_each(named_member_outcomes(named));
    if let Ok(list) = named_members_of(named) {
        let read = gather(named_member_outcomes(named))->Ok_0;
        assert forall|i: int| 0 <= i < read.len() implies member_well_named(
            (#[trigger] read[i]).1,
        ) && read[i].0 == named[i].0 by {
            read_member_is_well_named(named[i].1);
        }
        assert(names_are_distinct(read)) by {
            assert forall|i: int, j: int| 0 <= i < j < read.len() implies read[i].0
                != read[j].0 by {
                assert(read[i].0 == named[i].0 && read[j].0 == named[j].0);
            }
        }
        sort_gives_the_order(read);
        sort_keeps_the_entries(read);
        assert forall|k: int| 0 <= k < list.len() implies member_well_named(
            (#[trigger] list[k]).1,
        ) by {
            let i = choose|i: int| 0 <= i < read.len() && list[k] == read[i];
            assert(member_well_named(read[i].1));
        }
    }
}

/// A list of members whose entries hold `null` under `elements` has no
/// elements.
pub proof fn null_elements_are_none(entries: Seq<(Seq<char>, JsonView)>)
    requires
        lookup(entries, "elements"@) == Some(JsonView::Null),
        sync_list_of(entries) is Ok,
    ensures
        sync_list_of(entries)->Ok_0.elements.len() == 0,
{
}

/// The keys under which members keep what they hold differ from `$type` and
/// from one another.
pub proof fn member_keys_differ()
    ensures
        "$type"@ != "id"@,
        "$type"@ != "value"@,
        "$type"@ != "values"@,
        "$type"@ != "targetId"@,
        "$type"@ != "targetType"@,
        "$type"@ != "elements"@,
        "$type"@ != "members"@,
        "id"@ != "elements"@,
        "id"@ != "members"@,
{
    reveal_strlit("$type");
    reveal_strlit("id");
    reveal_strlit("value");
    reveal_strlit("values");
    reveal_strlit("targetId");
    reveal_strlit("targetType");
    reveal_strlit("elements");
    reveal_strlit("members");
    assert("$type"@.len() == 5 && "$type"@[0] == '$' && "$type"@[1] == 't' &&
        "$type"@[2] == 'y' && "$type"@[3] == 'p' && "$type"@[4] == 'e');
    assert("id"@.len() == 2 && "id"@[0] == 'i' && "id"@[1] == 'd');
    assert("value"@.len() == 5 && "value"@[0] == 'v' && "value"@[1] == 'a' &&
        "value"@[2] == 'l' && "value"@[3] == 'u' && "value"@[4] == 'e');
    assert("values"@.len() == 6 && "values"@[0] == 'v' && "values"@[1] == 'a' &&
        "values"@[2] == 'l' && "values"@[3] == 'u' && "values"@[4] == 'e' && "values"@[5] == 's');
    assert("targetId"@.len() == 8 && "targetId"@[0] == 't' && "targetId"@[1] == 'a' &&
        "targetId"@[2] == 'r' && "targetId"@[3] == 'g' && "targetId"@[4] == 'e' &&
        "targetId"@[5] == 't' && "targetId"@[6] == 'I' && "targetId"@[7] == 'd');
    assert("targetType"@.len() == 10 && "targetType"@[0] == 't' && "targetType"@[1] == 'a' &&
        "targetType"@[2] == 'r' && "targetType"@[3] == 'g' && "targetType"@[4] == 'e' &&
        "targetType"@[5] == 't' && "targetType"@[6] == 'T' && "targetType"@[7] == 'y' &&
        "targetType"@[8] == 'p' && "targetType"@[9] == 'e');
    assert("elements"@.len() == 8 && "elements"@[0] == 'e' && "elements"@[1] == 'l' &&
        "elements"@[2] == 'e' && "elements"@[3] == 'm' && "elements"@[4] == 'e' &&
        "elements"@[5] == 'n' && "elements"@[6] == 't' && "elements"@[7] == 's');
    assert("members"@.len() == 7 && "members"@[0] == 'm' && "members"@[1] == 'e' &&
        "members"@[2] == 'm' && "members"@[3] == 'b' && "members"@[4] == 'e' &&
        "members"@[5] == 'r' && "members"@[6] == 's');
}

/// Behind the entries of what a member holds, `$type` is still what it was.
pub proof fn member_entries_keep_type(m: MemberView, base: Seq<(Seq<char>, JsonView)>)
    ensures
        lookup(member_entries(m, base), "$type"@) == lookup(base, "$type"@),
{
    broadcast use lookup_after_push;

    member_keys_differ();
}

/// A sound member comes back from its document as it went in.
pub proof fn member_round_trip(m: MemberView)
    requires
        member_sound(m),
    ensures
        member_of(member_doc(m)) == Ok::<MemberView, DecodeError>(m),
    decreases m, 1nat,
{
    broadcast use lookup_after_push;

    let base = Seq::empty().push(("$type"@, JsonView::String(m.kind().tag_spec())));
    m.kind().tag_names_kind();
    member_entries_keep_type(m, base);
    member_entries_round_trip(m, base);
}

/// Whatever stands before them, the entries of what a sound member holds give
/// the member back.
pub proof fn member_entries_round_trip(m: MemberView, base: Seq<(Seq<char>, JsonView)>)
    requires
        member_sound(m),
    ensures
        member_of_kind(m.kind(), member_entries(m, base)) == Ok::<MemberView, DecodeError>(m),
    decreases m, 0nat,
{
    match m {
        MemberView::Reference(f) => Reference::entries_round_trip(f, base),
        MemberView::SyncList(l) => sync_list_round_trip(l, base),
        MemberView::SyncObject(o) => sync_object_round_trip(o, base),
        MemberView::String(f) => Field::<Option<String>>::entries_round_trip(f, base),
        MemberView::Uri(f) => Field::<Option<String>>::entries_round_trip(f, base),
        MemberView::Enum(f) => Field::<Option<String>>::entries_round_trip(f, base),
        MemberView::Empty(f) => Empty::entries_round_trip(f, base),
        MemberView::Byte(f) => Field::<u8>::entries_round_trip(f, base),
        MemberView::UShort(f) => Field::<u16>::entries_round_trip(f, base),
        MemberView::UInt(f) => Field::<u32>::entries_round_trip(f, base),
        MemberView::ULong(f) => Field::<u64>::entries_round_trip(f, base),
        MemberView::SByte(f) => Field::<i8>::entries_round_trip(f, base),
        MemberView::Short(f) => Field::<i16>::entries_round_trip(f, base),
        MemberView::Int(f) => Field::<i32>::entries_round_trip(f, base),
        MemberView::NullInt(f) => Field::<Option<i32>>::entries_round_trip(f, base),
        MemberView::Long(f) => Field::<i64>::entries_round_trip(f, base),
        MemberView::Int2(f) => Field::<Int2>::entries_round_trip(f, base),
        MemberView::NullInt2(f) => Field::<Option<Int2>>::entries_round_trip(f, base),
        MemberView::Int3(f) => Field::<Int3>::entries_round_trip(f, base),
        MemberView::Int4(f) => Field::<Int4>::entries_round_trip(f, base),
        MemberView::Float(f) => Field::<F32>::entries_round_trip(f, base),
        MemberView::NullFloat(f) => Field::<Option<F32>>::entries_round_trip(f, base),
        MemberView::Double(f) => Field::<F64>::entries_round_trip(f, base),
        MemberView::Bool(f) => Field::<bool>::entries_round_trip(f, base),
        MemberView::NullBool(f) => Field::<Option<bool>>::entries_round_trip(f, base),
        MemberView::Color(f) => Field::<Color>::entries_round_trip(f, base),
        MemberView::ColorX(f) => Field::<ColorX>::entries_round_trip(f, base),
        MemberView::NullColorX(f) => Field::<Option<ColorX>>::entries_round_trip(f, base),
        MemberView::Color32(f) => Field::<Color32>::entries_round_trip(f, base),
        MemberView::Float2(f) => Field::<Float2>::entries_round_trip(f, base),
        MemberView::Float3(f) => Field::<Float3>::entries_round_trip(f, base),
        MemberView::NullFloat3(f) => Field::<Option<Float3>>::entries_round_trip(f, base),
        MemberView::Float3Vec(f) => ArrayField::<Float3>::entries_round_trip(f, base),
        MemberView::Float4(f) => Field::<Float4>::entries_round_trip(f, base),
        MemberView::FloatQ(f) => Field::<FloatQ>::entries_round_trip(f, base),
        MemberView::NullFloatQ(f) => Field::<Option<FloatQ>>::entries_round_trip(f, base),
        MemberView::FloatQVec(f) => ArrayField::<FloatQ>::entries_round_trip(f, base),
    }
}

/// Whatever stands before them, the entries of a sound list of members give the
/// list back.
pub proof fn sync_list_round_trip(l: SyncListView, base: Seq<(Seq<char>, JsonView)>)
    requires
        members_sound(l.elements),
    ensures
        sync_list_of(sync_list_entries(l, base)) == Ok::<SyncListView, DecodeError>(l),
    decreases l,
{
    broadcast use lookup_after_push;

    member_keys_differ();
    members_round_trip(l.elements);
}

/// Whatever stands before them, the entries of a sound object of members give
/// the object back.
pub proof fn sync_object_round_trip(o: SyncObjectView, base: Seq<(Seq<char>, JsonView)>)
    requires
        named_members_sound(o.members),
    ensures
        sync_object_of(sync_object_entries(o, base)) == Ok::<SyncObjectView, DecodeError>(o),
    decreases o,
{
    broadcast use lookup_after_push;

    member_keys_differ();
    named_members_round_trip(o.members);
}

/// The documents of sound members give the members back.
pub proof fn members_round_trip(list: Seq<MemberView>)
    requires
        members_sound(list),
    ensures
        members_of(member_docs(list)) == Ok::<Seq<MemberView>, DecodeError>(list),
    decreases list,
{
    let outcomes = member_outcomes(member_docs(list));
    assert forall|i: int| 0 <= i < list.len() implies outcomes[i] == Ok::<
        MemberView,
        DecodeError,
    >(list[i]) by {
        member_round_trip(list[i]);
    }
    gather_values(outcomes, list);
}

/// The entries of sound members in the order of their names give the members
/// back.
pub proof fn named_members_round_trip(list: Seq<(Seq<char>, MemberView)>)
    requires
        named_members_sound(list),
    ensures
        named_members_of(named_member_docs(list)) == Ok::<
            Seq<(Seq<char>, MemberView)>,
            DecodeError,
        >(list),
    decreases list,
{
    let outcomes = named_member_outcomes(named_member_docs(list));
    assert forall|i: int| 0 <= i < list.len() implies outcomes[i] == Ok::<
        (Seq<char>, MemberView),
        DecodeError,
    >(list[i]) by {
        member_round_trip(list[i].1);
    }
    gather_values(outcomes, list);
    ascending_names_are_distinct(list);
    ascending_names_are_distinct(named_member_docs(list));
    sorted_stays(list);
}

impl Wire for Member {
    open spec fn doc_of(v: MemberView) -> JsonView {
        member_doc(v)
    }

    open spec fn value_of(doc: JsonView) -> Result<MemberView, DecodeError> {
        member_of(doc)
    }

    open spec fn absent() -> Result<MemberView, DecodeError> {
        Err(DecodeError::MissingField)
    }

    open spec fn sound(v: MemberView) -> bool {
        member_sound(v)
    }

    fn encode(&self) -> (doc: Json) {
        encode_member(self)
    }

    fn decode(doc: &Json) -> (r: Result<Member, DecodeError>) {
        decode_member(doc)
    }

    fn decode_absent() -> (r: Result<Member, DecodeError>) {
        Err(DecodeError::MissingField)
    }

    proof fn round_trip(v: MemberView) {
        member_round_trip(v);
    }
}

} // verus!
