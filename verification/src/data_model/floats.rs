//! Floating-point numbers as bit patterns.
//!
//! The library carries such numbers through and tells the special values
//! apart; it never computes with them, so a bit pattern is all it holds.

use crate::codec::Wire;
use crate::json::{DecodeError, Json, JsonView, Number};
use crate::text::same_text;
use vstd::prelude::*;

verus! {

/// A single-precision number, by its IEEE-754 bit pattern.
#[derive(Clone, Copy, Debug, PartialEq, Eq, Hash, Default)]
pub struct F32 {
    pub bits: u32,
}

/// A double-precision number, by its IEEE-754 bit pattern.
#[derive(Clone, Copy, Debug, PartialEq, Eq, Hash, Default)]
pub struct F64 {
    pub bits: u64,
}

impl DeepView for F32 {
    type V = F32;

    open spec fn deep_view(&self) -> F32 {
        *self
    }
}

impl DeepView for F64 {
    type V = F64;

    open spec fn deep_view(&self) -> F64 {
        *self
    }
}

impl F32 {
    /// The number with this bit pattern.
    pub fn from_bits(bits: u32) -> (r: Self)
        ensures
            r.bits == bits,
    {
        Self { bits }
    }

    /// The bit pattern.
    pub fn to_bits(&self) -> (bits: u32)
        ensures
            bits == self.bits,
    {
        self.bits
    }

    /// The bit pattern without its sign.
    pub open spec fn magnitude(&self) -> u32 {
        if self.bits >= 0x8000_0000 {
            (self.bits - 0x8000_0000) as u32
        } else {
            self.bits
        }
    }
}

impl F64 {
    /// The number with this bit pattern.
    pub fn from_bits(bits: u64) -> (r: Self)
        ensures
            r.bits == bits,
    {
        Self { bits }
    }

    /// The bit pattern.
    pub fn to_bits(&self) -> (bits: u64)
        ensures
            bits == self.bits,
    {
        self.bits
    }

    /// The bit pattern without its sign.
    pub open spec fn magnitude(&self) -> u64 {
        if self.bits >= 0x8000_0000_0000_0000 {
            (self.bits - 0x8000_0000_0000_0000) as u64
        } else {
            self.bits
        }
    }
}

/// What the codec asks of a floating-point type.
pub trait FloatPrim: Sized {
    /// Not a number.
    spec fn is_nan_spec(&self) -> bool;

    /// Positive or negative infinity.
    spec fn is_inf_spec(&self) -> bool;

    /// The sign bit is clear.
    spec fn is_positive_spec(&self) -> bool;

    /// Positive infinity.
    spec fn inf_spec() -> Self;

    /// Negative infinity.
    spec fn neg_inf_spec() -> Self;

    /// The not-a-number value that reading `"NaN"` gives.
    spec fn nan_spec() -> Self;

    /// The value of this width that a number reads as, if it holds one.
    spec fn read_spec(n: Number) -> Option<Self>;

    /// The number that holds this value and nothing else.
    spec fn number_spec(&self) -> Number;

    /// Whether the value is not a number.
    fn is_val_nan(&self) -> (r: bool)
        ensures
            r == self.is_nan_spec(),
    ;

    /// Whether the value is positive or negative infinity.
    fn is_inf(&self) -> (r: bool)
        ensures
            r == self.is_inf_spec(),
    ;

    /// Whether the sign bit is clear.
    fn is_positive(&self) -> (r: bool)
        ensures
            r == self.is_positive_spec(),
    ;

    /// Positive infinity.
    fn inf() -> (r: Self)
        ensures
            r == Self::inf_spec(),
    ;

    /// Negative infinity.
    fn neg_inf() -> (r: Self)
        ensures
            r == Self::neg_inf_spec(),
    ;

    /// The not-a-number value that reading `"NaN"` gives.
    fn nan() -> (r: Self)
        ensures
            r == Self::nan_spec(),
    ;

    /// Takes the value of this width out of a number.
    fn from_number(n: &Number) -> (r: Option<Self>)
        ensures
            r == Self::read_spec(*n),
    ;

    /// Wraps the value in a number.
    fn as_number(&self) -> (n: Number)
        ensures
            n == self.number_spec(),
    ;

    /// The three special values are what their names say, there is one
    /// infinity of each sign, and a value wrapped in a number reads back.
    proof fn float_laws(x: Self)
        ensures
            Self::nan_spec().is_nan_spec(),
            Self::inf_spec().is_inf_spec() && Self::inf_spec().is_positive_spec(),
            Self::neg_inf_spec().is_inf_spec() && !Self::neg_inf_spec().is_positive_spec(),
            !(x.is_nan_spec() && x.is_inf_spec()),
            x.is_inf_spec() && x.is_positive_spec() ==> x == Self::inf_spec(),
            x.is_inf_spec() && !x.is_positive_spec() ==> x == Self::neg_inf_spec(),
            Self::read_spec(x.number_spec()) == Some(x),
    ;
}

impl FloatPrim for F32 {
    open spec fn is_nan_spec(&self) -> bool {
        self.magnitude() > 0x7f80_0000
    }

    open spec fn is_inf_spec(&self) -> bool {
        self.magnitude() == 0x7f80_0000
    }

    open spec fn is_positive_spec(&self) -> bool {
        self.bits < 0x8000_0000
    }

    open spec fn inf_spec() -> F32 {
        F32 { bits: 0x7f80_0000 }
    }

    open spec fn neg_inf_spec() -> F32 {
        F32 { bits: 0xff80_0000 }
    }

    open spec fn nan_spec() -> F32 {
        F32 { bits: 0x7fc0_0000 }
    }

    open spec fn read_spec(n: Number) -> Option<F32> {
        n.single
    }

    open spec fn number_spec(&self) -> Number {
        Number { unsigned: None, signed: None, double: None, single: Some(*self) }
    }

    fn is_val_nan(&self) -> (r: bool) {
        let magnitude: u32 = if self.bits >= 0x8000_0000 {
            self.bits - 0x8000_0000
        } else {
            self.bits
        };
        magnitude > 0x7f80_0000
    }

    fn is_inf(&self) -> (r: bool) {
        self.bits == 0x7f80_0000 || self.bits == 0xff80_0000
    }

    fn is_positive(&self) -> (r: bool) {
        self.bits < 0x8000_0000
    }

    fn inf() -> (r: F32) {
        F32 { bits: 0x7f80_0000 }
    }

    fn neg_inf() -> (r: F32) {
        F32 { bits: 0xff80_0000 }
    }

    fn nan() -> (r: F32) {
        F32 { bits: 0x7fc0_0000 }
    }

    fn from_number(n: &Number) -> (r: Option<F32>) {
        n.single
    }

    fn as_number(&self) -> (n: Number) {
        Number { unsigned: None, signed: None, double: None, single: Some(*self) }
    }

    proof fn float_laws(x: F32) {
    }
}

impl FloatPrim for F64 {
    open spec fn is_nan_spec(&self) -> bool {
        self.magnitude() > 0x7ff0_0000_0000_0000
    }

    open spec fn is_inf_spec(&self) -> bool {
        self.magnitude() == 0x7ff0_0000_0000_0000
    }

    open spec fn is_positive_spec(&self) -> bool {
        self.bits < 0x8000_0000_0000_0000
    }

    open spec fn inf_spec() -> F64 {
        F64 { bits: 0x7ff0_0000_0000_0000 }
    }

    open spec fn neg_inf_spec() -> F64 {
        F64 { bits: 0xfff0_0000_0000_0000 }
    }

    open spec fn nan_spec() -> F64 {
        F64 { bits: 0x7ff8_0000_0000_0000 }
    }

    open spec fn read_spec(n: Number) -> Option<F64> {
        n.double
    }

    open spec fn number_spec(&self) -> Number {
        Number { unsigned: None, signed: None, double: Some(*self), single: None }
    }

    fn is_val_nan(&self) -> (r: bool) {
        let magnitude: u64 = if self.bits >= 0x8000_0000_0000_0000 {
            self.bits - 0x8000_0000_0000_0000
        } else {
            self.bits
        };
        magnitude > 0x7ff0_0000_0000_0000
    }

    fn is_inf(&self) -> (r: bool) {
        self.bits == 0x7ff0_0000_0000_0000 || self.bits == 0xfff0_0000_0000_0000
    }

    fn is_positive(&self) -> (r: bool) {
        self.bits < 0x8000_0000_0000_0000
    }

    fn inf() -> (r: F64) {
        F64 { bits: 0x7ff0_0000_0000_0000 }
    }

    fn neg_inf() -> (r: F64) {
        F64 { bits: 0xfff0_0000_0000_0000 }
    }

    fn nan() -> (r: F64) {
        F64 { bits: 0x7ff8_0000_0000_0000 }
    }

    fn from_number(n: &Number) -> (r: Option<F64>) {
        n.double
    }

    fn as_number(&self) -> (n: Number) {
        Number { unsigned: None, signed: None, double: Some(*self), single: None }
    }

    proof fn float_laws(x: F64) {
    }
}

impl Wire for F32 {
    open spec fn doc_of(v: F32) -> JsonView {
        float_doc(v)
    }

    open spec fn value_of(doc: JsonView) -> Result<F32, DecodeError> {
        float_of::<F32>(doc)
    }

    open spec fn absent() -> Result<F32, DecodeError> {
        Err(DecodeError::MissingField)
    }

    open spec fn sound(v: F32) -> bool {
        v.is_nan_spec() ==> v == F32::nan_spec()
    }

    fn encode(&self) -> (doc: Json) {
        Ser::serialize(self)
    }

    fn decode(doc: &Json) -> (r: Result<F32, DecodeError>) {
        Ser::deserialize(doc)
    }

    fn decode_absent() -> (r: Result<F32, DecodeError>) {
        Err(DecodeError::MissingField)
    }

    proof fn round_trip(v: F32) {
        float_round_trip(v);
    }
}

impl Wire for F64 {
    open spec fn doc_of(v: F64) -> JsonView {
        float_doc(v)
    }

    open spec fn value_of(doc: JsonView) -> Result<F64, DecodeError> {
        float_of::<F64>(doc)
    }

    open spec fn absent() -> Result<F64, DecodeError> {
        Err(DecodeError::MissingField)
    }

    open spec fn sound(v: F64) -> bool {
        v.is_nan_spec() ==> v == F64::nan_spec()
    }

    fn encode(&self) -> (doc: Json) {
        Ser::serialize(self)
    }

    fn decode(doc: &Json) -> (r: Result<F64, DecodeError>) {
        Ser::deserialize(doc)
    }

    fn decode_absent() -> (r: Result<F64, DecodeError>) {
        Err(DecodeError::MissingField)
    }

    proof fn round_trip(v: F64) {
        float_round_trip(v);
    }
}

/// The document that stands for a floating-point value: a number when it is
/// finite, else one of three names.
pub open spec fn float_doc<T: FloatPrim>(v: T) -> JsonView {
    if v.is_nan_spec() {
        JsonView::String("NaN"@)
    } else if v.is_inf_spec() {
        if v.is_positive_spec() {
            JsonView::String("Infinity"@)
        } else {
            JsonView::String("-Infinity"@)
        }
    } else {
        JsonView::Number(v.number_spec())
    }
}

/// The floating-point value that a document stands for: that of a number which
/// holds one of this width, or the value that one of the three names means.
pub open spec fn float_of<T: FloatPrim>(doc: JsonView) -> Result<T, DecodeError> {
    match doc {
        JsonView::Number(n) => match T::read_spec(n) {
            Some(v) => Ok(v),
            None => Err(DecodeError::NotAFloat),
        },
        JsonView::String(s) => if s == "Infinity"@ {
            Ok(T::inf_spec())
        } else if s == "-Infinity"@ {
            Ok(T::neg_inf_spec())
        } else if s == "NaN"@ {
            Ok(T::nan_spec())
        } else {
            Err(DecodeError::NotAFloat)
        },
        _ => Err(DecodeError::WrongType),
    }
}

/// The three names differ from one another.
pub proof fn special_names_differ()
    ensures
        "NaN"@ != "Infinity"@,
        "NaN"@ != "-Infinity"@,
        "Infinity"@ != "-Infinity"@,
{
    reveal_strlit("NaN");
    reveal_strlit("Infinity");
    reveal_strlit("-Infinity");
    assert("NaN"@.len() == 3);
    assert("Infinity"@.len() == 8);
    assert("-Infinity"@.len() == 9);
}

/// The codec of floating-point values.
pub struct Ser;

impl Ser {
    /// Writes a value as a number, or by name when it is not finite.
    pub fn serialize<T: FloatPrim>(v: &T) -> (doc: Json)
        ensures
            doc@ == float_doc(*v),
    {
        if v.is_val_nan() {
            Json::text("NaN")
        } else if v.is_inf() {
            if v.is_positive() {
                Json::text("Infinity")
            } else {
                Json::text("-Infinity")
            }
        } else {
            Json::number(v.as_number())
        }
    }

    /// Reads a value from a number or from one of the three names.
    pub fn deserialize<T: FloatPrim>(doc: &Json) -> (r: Result<T, DecodeError>)
        ensures
            r == float_of::<T>(doc@),
    {
        match doc {
            Json::Number(n) => match T::from_number(n) {
                Some(v) => Ok(v),
                None => Err(DecodeError::NotAFloat),
            },
            Json::String(s) => if same_text(s.as_str(), "Infinity") {
                Ok(T::inf())
            } else if same_text(s.as_str(), "-Infinity") {
                Ok(T::neg_inf())
            } else if same_text(s.as_str(), "NaN") {
                Ok(T::nan())
            } else {
                Err(DecodeError::NotAFloat)
            },
            _ => Err(DecodeError::WrongType),
        }
    }
}

/// A value that is a number, or the not-a-number value that `"NaN"` reads as,
/// comes back from its document unchanged.
pub proof fn float_round_trip<T: FloatPrim>(v: T)
    requires
        v.is_nan_spec() ==> v == T::nan_spec(),
    ensures
        float_of::<T>(float_doc(v)) == Ok::<T, DecodeError>(v),
{
    T::float_laws(v);
    special_names_differ();
}

/// Whatever the bit pattern, a not-a-number value comes back as one, and any
/// other value comes back unchanged.
pub proof fn float_round_trip_keeps_class<T: FloatPrim>(v: T)
    ensures
        float_of::<T>(float_doc(v)) is Ok,
        v.is_nan_spec() ==> float_of::<T>(float_doc(v))->Ok_0.is_nan_spec(),
        !v.is_nan_spec() ==> float_of::<T>(float_doc(v))->Ok_0 == v,
{
    T::float_laws(v);
    special_names_differ();
}

} // verus!
