//! What the conversions share: copies of values, and the narrowing of integers.

use crate::data_model::array_field::ArrayField;
use crate::data_model::empty::Empty;
use crate::data_model::field::Field;
use crate::data_model::floats::{F32, F64};
use crate::data_model::primitives::{
    Color, Color32, ColorX, Float2, Float3, Float4, FloatQ, Int2, Int3, Int4,
};
use crate::data_model::reference::Reference;
use vstd::prelude::*;

verus! {

/// Why a value of the RPC schema has no counterpart in the data model.
#[derive(Clone, Copy, Debug, PartialEq, Eq)]
pub enum ResoPbMapError {
    /// A member without a kind.
    UnsetOneOfType,
    /// An integer that its field in the data model cannot hold.
    IntegerOverflow,
}

impl ResoPbMapError {
    /// The error in words.
    pub open spec fn text(self) -> Seq<char> {
        match self {
            ResoPbMapError::UnsetOneOfType =>
                "GRPC value for member was not set, and can not be forwarded"@,
            ResoPbMapError::IntegerOverflow => "out of range integral type conversion attempted"@,
        }
    }

    /// The error in words.
    pub fn to_string(&self) -> (r: String)
        ensures
            r@ == self.text(),
    {
        match self {
            ResoPbMapError::UnsetOneOfType => String::from_str(
                "GRPC value for member was not set, and can not be forwarded",
            ),
            ResoPbMapError::IntegerOverflow => String::from_str(
                "out of range integral type conversion attempted",
            ),
        }
    }
}

/// A value that can be copied, the copy holding what the value holds.
pub trait Duplicate: DeepView + Sized {
    /// A copy of the value.
    fn duplicate(&self) -> (r: Self)
        ensures
            r.deep_view() == self.deep_view(),
    ;
}

impl Duplicate for bool {
    fn duplicate(&self) -> (r: bool) {
        *self
    }
}

impl Duplicate for u8 {
    fn duplicate(&self) -> (r: u8) {
        *self
    }
}

impl Duplicate for u16 {
    fn duplicate(&self) -> (r: u16) {
        *self
    }
}

impl Duplicate for u32 {
    fn duplicate(&self) -> (r: u32) {
        *self
    }
}

impl Duplicate for u64 {
    fn duplicate(&self) -> (r: u64) {
        *self
    }
}

impl Duplicate for i8 {
    fn duplicate(&self) -> (r: i8) {
        *self
    }
}

impl Duplicate for i16 {
    fn duplicate(&self) -> (r: i16) {
        *self
    }
}

impl Duplicate for i32 {
    fn duplicate(&self) -> (r: i32) {
        *self
    }
}

impl Duplicate for i64 {
    fn duplicate(&self) -> (r: i64) {
        *self
    }
}

impl Duplicate for F32 {
    fn duplicate(&self) -> (r: F32) {
        *self
    }
}

impl Duplicate for F64 {
    fn duplicate(&self) -> (r: F64) {
        *self
    }
}

impl Duplicate for Int2 {
    fn duplicate(&self) -> (r: Int2) {
        *self
    }
}

impl Duplicate for Int3 {
    fn duplicate(&self) -> (r: Int3) {
        *self
    }
}

impl Duplicate for Int4 {
    fn duplicate(&self) -> (r: Int4) {
        *self
    }
}

impl Duplicate for Float2 {
    fn duplicate(&self) -> (r: Float2) {
        *self
    }
}

impl Duplicate for Float3 {
    fn duplicate(&self) -> (r: Float3) {
        *self
    }
}

impl Duplicate for Float4 {
    fn duplicate(&self) -> (r: Float4) {
        *self
    }
}

impl Duplicate for FloatQ {
    fn duplicate(&self) -> (r: FloatQ) {
        *self
    }
}

impl Duplicate for Color {
    fn duplicate(&self) -> (r: Color) {
        *self
    }
}

impl Duplicate for Color32 {
    fn duplicate(&self) -> (r: Color32) {
        *self
    }
}

impl Duplicate for String {
    fn duplicate(&self) -> (r: String) {
        self.clone()
    }
}

impl Duplicate for ColorX {
    fn duplicate(&self) -> (r: ColorX) {
        ColorX { r: self.r, g: self.g, b: self.b, a: self.a, profile: self.profile.clone() }
    }
}

impl Duplicate for Reference {
    fn duplicate(&self) -> (r: Reference) {
        Reference {
            id: self.id.clone(),
            target_id: self.target_id.duplicate(),
            target_type: self.target_type.clone(),
        }
    }
}

impl Duplicate for Empty {
    fn duplicate(&self) -> (r: Empty) {
        Empty { id: self.id.clone() }
    }
}

impl<T: Duplicate> Duplicate for Option<T> {
    fn duplicate(&self) -> (r: Option<T>) {
        match self {
            Some(v) => Some(v.duplicate()),
            None => None,
        }
    }
}

impl<T: Duplicate> Duplicate for Vec<T> {
    fn duplicate(&self) -> (r: Vec<T>) {
        let mut copy: Vec<T> = Vec::new();
        let mut i: usize = 0;
        while i < self.len()
            invariant
                i <= self.len(),
                copy.len() == i,
                forall|j: int|
                    0 <= j < i ==> (#[trigger] copy[j]).deep_view() == self[j].deep_view(),
            decreases self.len() - i,
        {
            copy.push(self[i].duplicate());
            i += 1;
        }
        assert(copy.deep_view() =~= self.deep_view());
        copy
    }
}

impl<T: Duplicate> Duplicate for Field<T> {
    fn duplicate(&self) -> (r: Field<T>) {
        Field { id: self.id.clone(), value: self.value.duplicate() }
    }
}

impl<T: Duplicate> Duplicate for ArrayField<T> {
    fn duplicate(&self) -> (r: ArrayField<T>) {
        ArrayField { id: self.id.clone(), values: self.values.duplicate() }
    }
}

/// The field with its id kept and its value replaced.
pub fn with_value<A, B>(field: &Field<A>, value: B) -> (r: Field<B>)
    ensures
        r.id@ == field.id@,
        r.value == value,
{
    Field { id: field.id.clone(), value }
}

/// An integer as one of a narrower type, if it fits.
pub open spec fn narrowed(v: int, least: int, most: int) -> Result<int, ResoPbMapError> {
    if least <= v <= most {
        Ok(v)
    } else {
        Err(ResoPbMapError::IntegerOverflow)
    }
}

/// A `u32` as a `u8`, if it fits.
pub fn to_u8(v: u32) -> (r: Result<u8, ResoPbMapError>)
    ensures
        match r {
            Ok(n) => narrowed(v as int, u8::MIN as int, u8::MAX as int) == Ok::<
                int,
                ResoPbMapError,
            >(n as int),
            Err(e) => narrowed(v as int, u8::MIN as int, u8::MAX as int) == Err::<
                int,
                ResoPbMapError,
            >(e),
        },
{
    if u8::MIN as u32 <= v && v <= u8::MAX as u32 {
        Ok(v as u8)
    } else {
        Err(ResoPbMapError::IntegerOverflow)
    }
}

/// A `u32` as a `u16`, if it fits.
pub fn to_u16(v: u32) -> (r: Result<u16, ResoPbMapError>)
    ensures
        match r {
            Ok(n) => narrowed(v as int, u16::MIN as int, u16::MAX as int) == Ok::<
                int,
                ResoPbMapError,
            >(n as int),
            Err(e) => narrowed(v as int, u16::MIN as int, u16::MAX as int) == Err::<
                int,
                ResoPbMapError,
            >(e),
        },
{
    if u16::MIN as u32 <= v && v <= u16::MAX as u32 {
        Ok(v as u16)
    } else {
        Err(ResoPbMapError::IntegerOverflow)
    }
}

/// A `i32` as a `i8`, if it fits.
pub fn to_i8(v: i32) -> (r: Result<i8, ResoPbMapError>)
    ensures
        match r {
            Ok(n) => narrowed(v as int, i8::MIN as int, i8::MAX as int) == Ok::<
                int,
                ResoPbMapError,
            >(n as int),
            Err(e) => narrowed(v as int, i8::MIN as int, i8::MAX as int) == Err::<
                int,
                ResoPbMapError,
            >(e),
        },
{
    if i8::MIN as i32 <= v && v <= i8::MAX as i32 {
        Ok(v as i8)
    } else {
        Err(ResoPbMapError::IntegerOverflow)
    }
}

/// A `i32` as a `i16`, if it fits.
pub fn to_i16(v: i32) -> (r: Result<i16, ResoPbMapError>)
    ensures
        match r {
            Ok(n) => narrowed(v as int, i16::MIN as int, i16::MAX as int) == Ok::<
                int,
                ResoPbMapError,
            >(n as int),
            Err(e) => narrowed(v as int, i16::MIN as int, i16::MAX as int) == Err::<
                int,
                ResoPbMapError,
            >(e),
        },
{
    if i16::MIN as i32 <= v && v <= i16::MAX as i32 {
        Ok(v as i16)
    } else {
        Err(ResoPbMapError::IntegerOverflow)
    }
}

} // verus!
