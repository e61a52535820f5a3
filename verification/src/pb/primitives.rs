//! Vectors and colours in the RPC schema. All but the colour of bytes have the
//! shape that they have in the data model, and are shared with it.

use crate::pb::convert_utils::{to_u8, Duplicate, ResoPbMapError};
use vstd::prelude::*;

pub use crate::data_model::primitives::{
    Color, ColorX, ColorXView, Float2, Float3, Float4, FloatQ, Int2, Int3, Int4,
};

verus! {

/// A colour with alpha. The schema has no bytes: each channel is a `u32` that
/// is meant to hold one.
#[derive(Clone, Copy, Debug, PartialEq, Default)]
pub struct Color32 {
    pub r: u32,
    pub g: u32,
    pub b: u32,
    pub a: u32,
}

impl DeepView for Color32 {
    type V = Color32;

    open spec fn deep_view(&self) -> Color32 {
        *self
    }
}

impl Duplicate for Color32 {
    fn duplicate(&self) -> (r: Color32) {
        *self
    }
}

impl Color32 {
    /// The colour of the schema that stands for one of the data model.
    pub open spec fn of_dm(c: crate::data_model::Color32) -> Color32 {
        Color32 { r: c.r as u32, g: c.g as u32, b: c.b as u32, a: c.a as u32 }
    }

    /// The colour of the data model that one of the schema stands for, if each
    /// channel is a byte. A channel that is none fails, the first first.
    pub open spec fn to_dm(self) -> Result<crate::data_model::Color32, ResoPbMapError> {
        if self.r > u8::MAX || self.g > u8::MAX || self.b > u8::MAX || self.a > u8::MAX {
            Err(ResoPbMapError::IntegerOverflow)
        } else {
            Ok(
                crate::data_model::Color32 {
                    r: self.r as u8,
                    g: self.g as u8,
                    b: self.b as u8,
                    a: self.a as u8,
                },
            )
        }
    }

    /// Converts a colour of the data model.
    pub fn from_dm(c: &crate::data_model::Color32) -> (r: Color32)
        ensures
            r == Color32::of_dm(*c),
    {
        Color32 { r: c.r as u32, g: c.g as u32, b: c.b as u32, a: c.a as u32 }
    }

    /// Converts to a colour of the data model.
    pub fn try_into_dm(&self) -> (r: Result<crate::data_model::Color32, ResoPbMapError>)
        ensures
            r == self.to_dm(),
    {
        let r = to_u8(self.r)?;
        let g = to_u8(self.g)?;
        let b = to_u8(self.b)?;
        let a = to_u8(self.a)?;
        Ok(crate::data_model::Color32 { r, g, b, a })
    }

    /// A colour of the data model comes back from the schema as it went in.
    pub proof fn round_trip(c: crate::data_model::Color32)
        ensures
            Color32::of_dm(c).to_dm() == Ok::<crate::data_model::Color32, ResoPbMapError>(c),
    {
    }
}

} // verus!
