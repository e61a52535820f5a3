//! Vectors, quaternions and colours.

use crate::codec::{field_of, read_field, write_field, Wire};
use crate::data_model::floats::F32;
use crate::json::{entries_view, lookup_after_push, DecodeError, Json, JsonView};
use vstd::prelude::*;

verus! {

/// A pair of integers.
#[derive(Clone, Copy, Debug, PartialEq)]
pub struct Int2 {
    pub x: i32,
    pub y: i32,
}

impl DeepView for Int2 {
    type V = Int2;

    open spec fn deep_view(&self) -> Int2 {
        *self
    }
}

impl Int2 {
    /// What the default holds: nothing but zeros.
    pub open spec fn zero() -> Int2 {
        Int2 { x: 0, y: 0 }
    }
}

impl Default for Int2 {
    fn default() -> (r: Int2)
        ensures
            r.deep_view() == Int2::zero(),
    {
        Int2 { x: 0, y: 0 }
    }
}

impl Wire for Int2 {
    open spec fn doc_of(v: Int2) -> JsonView {
        JsonView::Object(
            Seq::empty()
                .push(("x"@, <i32 as Wire>::doc_of(v.x)))
                .push(("y"@, <i32 as Wire>::doc_of(v.y))),
        )
    }

    open spec fn value_of(doc: JsonView) -> Result<Int2, DecodeError> {
        match doc {
            JsonView::Object(entries) => match field_of::<i32>(entries, "x"@) {
                Err(e) => Err(e),
                Ok(x) => match field_of::<i32>(entries, "y"@) {
                    Err(e) => Err(e),
                    Ok(y) => Ok(Int2 { x, y }),
                },
            },
            _ => Err(DecodeError::WrongType),
        }
    }

    open spec fn absent() -> Result<Int2, DecodeError> {
        Err(DecodeError::MissingField)
    }

    open spec fn sound(v: Int2) -> bool {
        &&& <i32 as Wire>::sound(v.x)
        &&& <i32 as Wire>::sound(v.y)
    }

    fn encode(&self) -> (doc: Json) {
        let mut entries: Vec<(String, Json)> = Vec::new();
        assert(entries_view(&entries) =~= Seq::empty());
        write_field(&mut entries, "x", &self.x);
        write_field(&mut entries, "y", &self.y);
        Json::object(entries)
    }

    fn decode(doc: &Json) -> (r: Result<Int2, DecodeError>) {
        match doc {
            Json::Object(entries) => {
                let x = read_field::<i32>(entries, "x")?;
                let y = read_field::<i32>(entries, "y")?;
                Ok(Int2 { x, y })
            },
            _ => Err(DecodeError::WrongType),
        }
    }

    fn decode_absent() -> (r: Result<Int2, DecodeError>) {
        Err(DecodeError::MissingField)
    }

    proof fn round_trip(v: Int2) {
        broadcast use lookup_after_push;

        reveal_strlit("x");
        reveal_strlit("y");
        assert("x"@.len() == 1 && "x"@[0] == 'x');
        assert("y"@.len() == 1 && "y"@[0] == 'y');
        <i32 as Wire>::round_trip(v.x);
        <i32 as Wire>::round_trip(v.y);
    }
}

/// Three integers.
#[derive(Clone, Copy, Debug, PartialEq)]
pub struct Int3 {
    pub x: i32,
    pub y: i32,
    pub z: i32,
}

impl DeepView for Int3 {
    type V = Int3;

    open spec fn deep_view(&self) -> Int3 {
        *self
    }
}

impl Int3 {
    /// What the default holds: nothing but zeros.
    pub open spec fn zero() -> Int3 {
        Int3 { x: 0, y: 0, z: 0 }
    }
}

impl Default for Int3 {
    fn default() -> (r: Int3)
        ensures
            r.deep_view() == Int3::zero(),
    {
        Int3 { x: 0, y: 0, z: 0 }
    }
}

impl Wire for Int3 {
    open spec fn doc_of(v: Int3) -> JsonView {
        JsonView::Object(
            Seq::empty()
                .push(("x"@, <i32 as Wire>::doc_of(v.x)))
                .push(("y"@, <i32 as Wire>::doc_of(v.y)))
                .push(("z"@, <i32 as Wire>::doc_of(v.z))),
        )
    }

    open spec fn value_of(doc: JsonView) -> Result<Int3, DecodeError> {
        match doc {
            JsonView::Object(entries) => match field_of::<i32>(entries, "x"@) {
                Err(e) => Err(e),
                Ok(x) => match field_of::<i32>(entries, "y"@) {
                    Err(e) => Err(e),
                    Ok(y) => match field_of::<i32>(entries, "z"@) {
                        Err(e) => Err(e),
                        Ok(z) => Ok(Int3 { x, y, z }),
                    },
                },
            },
            _ => Err(DecodeError::WrongType),
        }
    }

    open spec fn absent() -> Result<Int3, DecodeError> {
        Err(DecodeError::MissingField)
    }

    open spec fn sound(v: Int3) -> bool {
        &&& <i32 as Wire>::sound(v.x)
        &&& <i32 as Wire>::sound(v.y)
        &&& <i32 as Wire>::sound(v.z)
    }

    fn encode(&self) -> (doc: Json) {
        let mut entries: Vec<(String, Json)> = Vec::new();
        assert(entries_view(&entries) =~= Seq::empty());
        write_field(&mut entries, "x", &self.x);
        write_field(&mut entries, "y", &self.y);
        write_field(&mut entries, "z", &self.z);
        Json::object(entries)
    }

    fn decode(doc: &Json) -> (r: Result<Int3, DecodeError>) {
        match doc {
            Json::Object(entries) => {
                let x = read_field::<i32>(entries, "x")?;
                let y = read_field::<i32>(entries, "y")?;
                let z = read_field::<i32>(entries, "z")?;
                Ok(Int3 { x, y, z })
            },
            _ => Err(DecodeError::WrongType),
        }
    }

    fn decode_absent() -> (r: Result<Int3, DecodeError>) {
        Err(DecodeError::MissingField)
    }

    proof fn round_trip(v: Int3) {
        broadcast use lookup_after_push;

        reveal_strlit("x");
        reveal_strlit("y");
        reveal_strlit("z");
        assert("x"@.len() == 1 && "x"@[0] == 'x');
        assert("y"@.len() == 1 && "y"@[0] == 'y');
        assert("z"@.len() == 1 && "z"@[0] == 'z');
        <i32 as Wire>::round_trip(v.x);
        <i32 as Wire>::round_trip(v.y);
        <i32 as Wire>::round_trip(v.z);
    }
}

/// Four integers.
#[derive(Clone, Copy, Debug, PartialEq)]
pub struct Int4 {
    pub x: i32,
    pub y: i32,
    pub z: i32,
    pub w: i32,
}

impl DeepView for Int4 {
    type V = Int4;

    open spec fn deep_view(&self) -> Int4 {
        *self
    }
}

impl Int4 {
    /// What the default holds: nothing but zeros.
    pub open spec fn zero() -> Int4 {
        Int4 { x: 0, y: 0, z: 0, w: 0 }
    }
}

impl Default for Int4 {
    fn default() -> (r: Int4)
        ensures
            r.deep_view() == Int4::zero(),
    {
        Int4 { x: 0, y: 0, z: 0, w: 0 }
    }
}

impl Wire for Int4 {
    open spec fn doc_of(v: Int4) -> JsonView {
        JsonView::Object(
            Seq::empty()
                .push(("x"@, <i32 as Wire>::doc_of(v.x)))
                .push(("y"@, <i32 as Wire>::doc_of(v.y)))
                .push(("z"@, <i32 as Wire>::doc_of(v.z)))
                .push(("w"@, <i32 as Wire>::doc_of(v.w))),
        )
    }

    open spec fn value_of(doc: JsonView) -> Result<Int4, DecodeError> {
        match doc {
            JsonView::Object(entries) => match field_of::<i32>(entries, "x"@) {
                Err(e) => Err(e),
                Ok(x) => match field_of::<i32>(entries, "y"@) {
                    Err(e) => Err(e),
                    Ok(y) => match field_of::<i32>(entries, "z"@) {
                        Err(e) => Err(e),
                        Ok(z) => match field_of::<i32>(entries, "w"@) {
                            Err(e) => Err(e),
                            Ok(w) => Ok(Int4 { x, y, z, w }),
                        },
                    },
                },
            },
            _ => Err(DecodeError::WrongType),
        }
    }

    open spec fn absent() -> Result<Int4, DecodeError> {
        Err(DecodeError::MissingField)
    }

    open spec fn sound(v: Int4) -> bool {
        &&& <i32 as Wire>::sound(v.x)
        &&& <i32 as Wire>::sound(v.y)
        &&& <i32 as Wire>::sound(v.z)
        &&& <i32 as Wire>::sound(v.w)
    }

    fn encode(&self) -> (doc: Json) {
        let mut entries: Vec<(String, Json)> = Vec::new();
        assert(entries_view(&entries) =~= Seq::empty());
        write_field(&mut entries, "x", &self.x);
        write_field(&mut entries, "y", &self.y);
        write_field(&mut entries, "z", &self.z);
        write_field(&mut entries, "w", &self.w);
        Json::object(entries)
    }

    fn decode(doc: &Json) -> (r: Result<Int4, DecodeError>) {
        match doc {
            Json::Object(entries) => {
                let x = read_field::<i32>(entries, "x")?;
                let y = read_field::<i32>(entries, "y")?;
                let z = read_field::<i32>(entries, "z")?;
                let w = read_field::<i32>(entries, "w")?;
                Ok(Int4 { x, y, z, w })
            },
            _ => Err(DecodeError::WrongType),
        }
    }

    fn decode_absent() -> (r: Result<Int4, DecodeError>) {
        Err(DecodeError::MissingField)
    }

    proof fn round_trip(v: Int4) {
        broadcast use lookup_after_push;

        reveal_strlit("x");
        reveal_strlit("y");
        reveal_strlit("z");
        reveal_strlit("w");
        assert("x"@.len() == 1 && "x"@[0] == 'x');
        assert("y"@.len() == 1 && "y"@[0] == 'y');
        assert("z"@.len() == 1 && "z"@[0] == 'z');
        assert("w"@.len() == 1 && "w"@[0] == 'w');
        <i32 as Wire>::round_trip(v.x);
        <i32 as Wire>::round_trip(v.y);
        <i32 as Wire>::round_trip(v.z);
        <i32 as Wire>::round_trip(v.w);
    }
}

/// A vector of two components.
#[derive(Clone, Copy, Debug, PartialEq)]
pub struct Float2 {
    pub x: F32,
    pub y: F32,
}

impl DeepView for Float2 {
    type V = Float2;

    open spec fn deep_view(&self) -> Float2 {
        *self
    }
}

impl Float2 {
    /// What the default holds: nothing but zeros.
    pub open spec fn zero() -> Float2 {
        Float2 { x: F32 { bits: 0 }, y: F32 { bits: 0 } }
    }
}

impl Default for Float2 {
    fn default() -> (r: Float2)
        ensures
            r.deep_view() == Float2::zero(),
    {
        Float2 { x: F32 { bits: 0 }, y: F32 { bits: 0 } }
    }
}

impl Wire for Float2 {
    open spec fn doc_of(v: Float2) -> JsonView {
        JsonView::Object(
            Seq::empty()
                .push(("x"@, <F32 as Wire>::doc_of(v.x)))
                .push(("y"@, <F32 as Wire>::doc_of(v.y))),
        )
    }

    open spec fn value_of(doc: JsonView) -> Result<Float2, DecodeError> {
        match doc {
            JsonView::Object(entries) => match field_of::<F32>(entries, "x"@) {
                Err(e) => Err(e),
                Ok(x) => match field_of::<F32>(entries, "y"@) {
                    Err(e) => Err(e),
                    Ok(y) => Ok(Float2 { x, y }),
                },
            },
            _ => Err(DecodeError::WrongType),
        }
    }

    open spec fn absent() -> Result<Float2, DecodeError> {
        Err(DecodeError::MissingField)
    }

    open spec fn sound(v: Float2) -> bool {
        &&& <F32 as Wire>::sound(v.x)
        &&& <F32 as Wire>::sound(v.y)
    }

    fn encode(&self) -> (doc: Json) {
        let mut entries: Vec<(String, Json)> = Vec::new();
        assert(entries_view(&entries) =~= Seq::empty());
        write_field(&mut entries, "x", &self.x);
        write_field(&mut entries, "y", &self.y);
        Json::object(entries)
    }

    fn decode(doc: &Json) -> (r: Result<Float2, DecodeError>) {
        match doc {
            Json::Object(entries) => {
                let x = read_field::<F32>(entries, "x")?;
                let y = read_field::<F32>(entries, "y")?;
                Ok(Float2 { x, y })
            },
            _ => Err(DecodeError::WrongType),
        }
    }

    fn decode_absent() -> (r: Result<Float2, DecodeError>) {
        Err(DecodeError::MissingField)
    }

    proof fn round_trip(v: Float2) {
        broadcast use lookup_after_push;

        reveal_strlit("x");
        reveal_strlit("y");
        assert("x"@.len() == 1 && "x"@[0] == 'x');
        assert("y"@.len() == 1 && "y"@[0] == 'y');
        <F32 as Wire>::round_trip(v.x);
        <F32 as Wire>::round_trip(v.y);
    }
}

/// A vector of three components.
#[derive(Clone, Copy, Debug, PartialEq)]
pub struct Float3 {
    pub x: F32,
    pub y: F32,
    pub z: F32,
}

impl DeepView for Float3 {
    type V = Float3;

    open spec fn deep_view(&self) -> Float3 {
        *self
    }
}

impl Float3 {
    /// What the default holds: nothing but zeros.
    pub open spec fn zero() -> Float3 {
        Float3 { x: F32 { bits: 0 }, y: F32 { bits: 0 }, z: F32 { bits: 0 } }
    }
}

impl Default for Float3 {
    fn default() -> (r: Float3)
        ensures
            r.deep_view() == Float3::zero(),
    {
        Float3 { x: F32 { bits: 0 }, y: F32 { bits: 0 }, z: F32 { bits: 0 } }
    }
}

impl Wire for Float3 {
    open spec fn doc_of(v: Float3) -> JsonView {
        JsonView::Object(
            Seq::empty()
                .push(("x"@, <F32 as Wire>::doc_of(v.x)))
                .push(("y"@, <F32 as Wire>::doc_of(v.y)))
                .push(("z"@, <F32 as Wire>::doc_of(v.z))),
        )
    }

    open spec fn value_of(doc: JsonView) -> Result<Float3, DecodeError> {
        match doc {
            JsonView::Object(entries) => match field_of::<F32>(entries, "x"@) {
                Err(e) => Err(e),
                Ok(x) => match field_of::<F32>(entries, "y"@) {
                    Err(e) => Err(e),
                    Ok(y) => match field_of::<F32>(entries, "z"@) {
                        Err(e) => Err(e),
                        Ok(z) => Ok(Float3 { x, y, z }),
                    },
                },
            },
            _ => Err(DecodeError::WrongType),
        }
    }

    open spec fn absent() -> Result<Float3, DecodeError> {
        Err(DecodeError::MissingField)
    }

    open spec fn sound(v: Float3) -> bool {
        &&& <F32 as Wire>::sound(v.x)
        &&& <F32 as Wire>::sound(v.y)
        &&& <F32 as Wire>::sound(v.z)
    }

    fn encode(&self) -> (doc: Json) {
        let mut entries: Vec<(String, Json)> = Vec::new();
        assert(entries_view(&entries) =~= Seq::empty());
        write_field(&mut entries, "x", &self.x);
        write_field(&mut entries, "y", &self.y);
        write_field(&mut entries, "z", &self.z);
        Json::object(entries)
    }

    fn decode(doc: &Json) -> (r: Result<Float3, DecodeError>) {
        match doc {
            Json::Object(entries) => {
                let x = read_field::<F32>(entries, "x")?;
                let y = read_field::<F32>(entries, "y")?;
                let z = read_field::<F32>(entries, "z")?;
                Ok(Float3 { x, y, z })
            },
            _ => Err(DecodeError::WrongType),
        }
    }

    fn decode_absent() -> (r: Result<Float3, DecodeError>) {
        Err(DecodeError::MissingField)
    }

    proof fn round_trip(v: Float3) {
        broadcast use lookup_after_push;

        reveal_strlit("x");
        reveal_strlit("y");
        reveal_strlit("z");
        assert("x"@.len() == 1 && "x"@[0] == 'x');
        assert("y"@.len() == 1 && "y"@[0] == 'y');
        assert("z"@.len() == 1 && "z"@[0] == 'z');
        <F32 as Wire>::round_trip(v.x);
        <F32 as Wire>::round_trip(v.y);
        <F32 as Wire>::round_trip(v.z);
    }
}

/// A vector of four components.
#[derive(Clone, Copy, Debug, PartialEq)]
pub struct Float4 {
    pub x: F32,
    pub y: F32,
    pub z: F32,
    pub w: F32,
}

impl DeepView for Float4 {
    type V = Float4;

    open spec fn deep_view(&self) -> Float4 {
        *self
    }
}

impl Float4 {
    /// What the default holds: nothing but zeros.
    pub open spec fn zero() -> Float4 {
        Float4 { x: F32 { bits: 0 }, y: F32 { bits: 0 }, z: F32 { bits: 0 }, w: F32 { bits: 0 } }
    }
}

impl Default for Float4 {
    fn default() -> (r: Float4)
        ensures
            r.deep_view() == Float4::zero(),
    {
        Float4 { x: F32 { bits: 0 }, y: F32 { bits: 0 }, z: F32 { bits: 0 }, w: F32 { bits: 0 } }
    }
}

impl Wire for Float4 {
    open spec fn doc_of(v: Float4) -> JsonView {
        JsonView::Object(
            Seq::empty()
                .push(("x"@, <F32 as Wire>::doc_of(v.x)))
                .push(("y"@, <F32 as Wire>::doc_of(v.y)))
                .push(("z"@, <F32 as Wire>::doc_of(v.z)))
                .push(("w"@, <F32 as Wire>::doc_of(v.w))),
        )
    }

    open spec fn value_of(doc: JsonView) -> Result<Float4, DecodeError> {
        match doc {
            JsonView::Object(entries) => match field_of::<F32>(entries, "x"@) {
                Err(e) => Err(e),
                Ok(x) => match field_of::<F32>(entries, "y"@) {
                    Err(e) => Err(e),
                    Ok(y) => match field_of::<F32>(entries, "z"@) {
                        Err(e) => Err(e),
                        Ok(z) => match field_of::<F32>(entries, "w"@) {
                            Err(e) => Err(e),
                            Ok(w) => Ok(Float4 { x, y, z, w }),
                        },
                    },
                },
            },
            _ => Err(DecodeError::WrongType),
        }
    }

    open spec fn absent() -> Result<Float4, DecodeError> {
        Err(DecodeError::MissingField)
    }

    open spec fn sound(v: Float4) -> bool {
        &&& <F32 as Wire>::sound(v.x)
        &&& <F32 as Wire>::sound(v.y)
        &&& <F32 as Wire>::sound(v.z)
        &&& <F32 as Wire>::sound(v.w)
    }

    fn encode(&self) -> (doc: Json) {
        let mut entries: Vec<(String, Json)> = Vec::new();
        assert(entries_view(&entries) =~= Seq::empty());
        write_field(&mut entries, "x", &self.x);
        write_field(&mut entries, "y", &self.y);
        write_field(&mut entries, "z", &self.z);
        write_field(&mut entries, "w", &self.w);
        Json::object(entries)
    }

    fn decode(doc: &Json) -> (r: Result<Float4, DecodeError>) {
        match doc {
            Json::Object(entries) => {
                let x = read_field::<F32>(entries, "x")?;
                let y = read_field::<F32>(entries, "y")?;
                let z = read_field::<F32>(entries, "z")?;
                let w = read_field::<F32>(entries, "w")?;
                Ok(Float4 { x, y, z, w })
            },
            _ => Err(DecodeError::WrongType),
        }
    }

    fn decode_absent() -> (r: Result<Float4, DecodeError>) {
        Err(DecodeError::MissingField)
    }

    proof fn round_trip(v: Float4) {
        broadcast use lookup_after_push;

        reveal_strlit("x");
        reveal_strlit("y");
        reveal_strlit("z");
        reveal_strlit("w");
        assert("x"@.len() == 1 && "x"@[0] == 'x');
        assert("y"@.len() == 1 && "y"@[0] == 'y');
        assert("z"@.len() == 1 && "z"@[0] == 'z');
        assert("w"@.len() == 1 && "w"@[0] == 'w');
        <F32 as Wire>::round_trip(v.x);
        <F32 as Wire>::round_trip(v.y);
        <F32 as Wire>::round_trip(v.z);
        <F32 as Wire>::round_trip(v.w);
    }
}

/// A quaternion.
#[derive(Clone, Copy, Debug, PartialEq)]
pub struct FloatQ {
    pub x: F32,
    pub y: F32,
    pub z: F32,
    pub w: F32,
}

impl DeepView for FloatQ {
    type V = FloatQ;

    open spec fn deep_view(&self) -> FloatQ {
        *self
    }
}

impl FloatQ {
    /// What the default holds: nothing but zeros.
    pub open spec fn zero() -> FloatQ {
        FloatQ { x: F32 { bits: 0 }, y: F32 { bits: 0 }, z: F32 { bits: 0 }, w: F32 { bits: 0 } }
    }
}

impl Default for FloatQ {
    fn default() -> (r: FloatQ)
        ensures
            r.deep_view() == FloatQ::zero(),
    {
        FloatQ { x: F32 { bits: 0 }, y: F32 { bits: 0 }, z: F32 { bits: 0 }, w: F32 { bits: 0 } }
    }
}

impl Wire for FloatQ {
    open spec fn doc_of(v: FloatQ) -> JsonView {
        JsonView::Object(
            Seq::empty()
                .push(("x"@, <F32 as Wire>::doc_of(v.x)))
                .push(("y"@, <F32 as Wire>::doc_of(v.y)))
                .push(("z"@, <F32 as Wire>::doc_of(v.z)))
                .push(("w"@, <F32 as Wire>::doc_of(v.w))),
        )
    }

    open spec fn value_of(doc: JsonView) -> Result<FloatQ, DecodeError> {
        match doc {
            JsonView::Object(entries) => match field_of::<F32>(entries, "x"@) {
                Err(e) => Err(e),
                Ok(x) => match field_of::<F32>(entries, "y"@) {
                    Err(e) => Err(e),
                    Ok(y) => match field_of::<F32>(entries, "z"@) {
                        Err(e) => Err(e),
                        Ok(z) => match field_of::<F32>(entries, "w"@) {
                            Err(e) => Err(e),
                            Ok(w) => Ok(FloatQ { x, y, z, w }),
                        },
                    },
                },
            },
            _ => Err(DecodeError::WrongType),
        }
    }

    open spec fn absent() -> Result<FloatQ, DecodeError> {
        Err(DecodeError::MissingField)
    }

    open spec fn sound(v: FloatQ) -> bool {
        &&& <F32 as Wire>::sound(v.x)
        &&& <F32 as Wire>::sound(v.y)
        &&& <F32 as Wire>::sound(v.z)
        &&& <F32 as Wire>::sound(v.w)
    }

    fn encode(&self) -> (doc: Json) {
        let mut entries: Vec<(String, Json)> = Vec::new();
        assert(entries_view(&entries) =~= Seq::empty());
        write_field(&mut entries, "x", &self.x);
        write_field(&mut entries, "y", &self.y);
        write_field(&mut entries, "z", &self.z);
        write_field(&mut entries, "w", &self.w);
        Json::object(entries)
    }

    fn decode(doc: &Json) -> (r: Result<FloatQ, DecodeError>) {
        match doc {
            Json::Object(entries) => {
                let x = read_field::<F32>(entries, "x")?;
                let y = read_field::<F32>(entries, "y")?;
                let z = read_field::<F32>(entries, "z")?;
                let w = read_field::<F32>(entries, "w")?;
                Ok(FloatQ { x, y, z, w })
            },
            _ => Err(DecodeError::WrongType),
        }
    }

    fn decode_absent() -> (r: Result<FloatQ, DecodeError>) {
        Err(DecodeError::MissingField)
    }

    proof fn round_trip(v: FloatQ) {
        broadcast use lookup_after_push;

        reveal_strlit("x");
        reveal_strlit("y");
        reveal_strlit("z");
        reveal_strlit("w");
        assert("x"@.len() == 1 && "x"@[0] == 'x');
        assert("y"@.len() == 1 && "y"@[0] == 'y');
        assert("z"@.len() == 1 && "z"@[0] == 'z');
        assert("w"@.len() == 1 && "w"@[0] == 'w');
        <F32 as Wire>::round_trip(v.x);
        <F32 as Wire>::round_trip(v.y);
        <F32 as Wire>::round_trip(v.z);
        <F32 as Wire>::round_trip(v.w);
    }
}

/// A colour with alpha, each channel a fraction.
#[derive(Clone, Copy, Debug, PartialEq)]
pub struct Color {
    pub r: F32,
    pub g: F32,
    pub b: F32,
    pub a: F32,
}

impl DeepView for Color {
    type V = Color;

    open spec fn deep_view(&self) -> Color {
        *self
    }
}

impl Color {
    /// What the default holds: nothing but zeros.
    pub open spec fn zero() -> Color {
        Color { r: F32 { bits: 0 }, g: F32 { bits: 0 }, b: F32 { bits: 0 }, a: F32 { bits: 0 } }
    }
}

impl Default for Color {
    fn default() -> (r: Color)
        ensures
            r.deep_view() == Color::zero(),
    {
        Color { r: F32 { bits: 0 }, g: F32 { bits: 0 }, b: F32 { bits: 0 }, a: F32 { bits: 0 } }
    }
}

impl Wire for Color {
    open spec fn doc_of(v: Color) -> JsonView {
        JsonView::Object(
            Seq::empty()
                .push(("r"@, <F32 as Wire>::doc_of(v.r)))
                .push(("g"@, <F32 as Wire>::doc_of(v.g)))
                .push(("b"@, <F32 as Wire>::doc_of(v.b)))
                .push(("a"@, <F32 as Wire>::doc_of(v.a))),
        )
    }

    open spec fn value_of(doc: JsonView) -> Result<Color, DecodeError> {
        match doc {
            JsonView::Object(entries) => match field_of::<F32>(entries, "r"@) {
                Err(e) => Err(e),
                Ok(r) => match field_of::<F32>(entries, "g"@) {
                    Err(e) => Err(e),
                    Ok(g) => match field_of::<F32>(entries, "b"@) {
                        Err(e) => Err(e),
                        Ok(b) => match field_of::<F32>(entries, "a"@) {
                            Err(e) => Err(e),
                            Ok(a) => Ok(Color { r, g, b, a }),
                        },
                    },
                },
            },
            _ => Err(DecodeError::WrongType),
        }
    }

    open spec fn absent() -> Result<Color, DecodeError> {
        Err(DecodeError::MissingField)
    }

    open spec fn sound(v: Color) -> bool {
        &&& <F32 as Wire>::sound(v.r)
        &&& <F32 as Wire>::sound(v.g)
        &&& <F32 as Wire>::sound(v.b)
        &&& <F32 as Wire>::sound(v.a)
    }

    fn encode(&self) -> (doc: Json) {
        let mut entries: Vec<(String, Json)> = Vec::new();
        assert(entries_view(&entries) =~= Seq::empty());
        write_field(&mut entries, "r", &self.r);
        write_field(&mut entries, "g", &self.g);
        write_field(&mut entries, "b", &self.b);
        write_field(&mut entries, "a", &self.a);
        Json::object(entries)
    }

    fn decode(doc: &Json) -> (r: Result<Color, DecodeError>) {
        match doc {
            Json::Object(entries) => {
                let r = read_field::<F32>(entries, "r")?;
                let g = read_field::<F32>(entries, "g")?;
                let b = read_field::<F32>(entries, "b")?;
                let a = read_field::<F32>(entries, "a")?;
                Ok(Color { r, g, b, a })
            },
            _ => Err(DecodeError::WrongType),
        }
    }

    fn decode_absent() -> (r: Result<Color, DecodeError>) {
        Err(DecodeError::MissingField)
    }

    proof fn round_trip(v: Color) {
        broadcast use lookup_after_push;

        reveal_strlit("r");
        reveal_strlit("g");
        reveal_strlit("b");
        reveal_strlit("a");
        assert("r"@.len() == 1 && "r"@[0] == 'r');
        assert("g"@.len() == 1 && "g"@[0] == 'g');
        assert("b"@.len() == 1 && "b"@[0] == 'b');
        assert("a"@.len() == 1 && "a"@[0] == 'a');
        <F32 as Wire>::round_trip(v.r);
        <F32 as Wire>::round_trip(v.g);
        <F32 as Wire>::round_trip(v.b);
        <F32 as Wire>::round_trip(v.a);
    }
}

/// A colour with alpha in a named colour profile.
#[derive(Clone, Debug, PartialEq)]
pub struct ColorX {
    pub r: F32,
    pub g: F32,
    pub b: F32,
    pub a: F32,
    pub profile: String,
}

/// What a [`ColorX`] holds.
pub struct ColorXView {
    pub r: F32,
    pub g: F32,
    pub b: F32,
    pub a: F32,
    pub profile: Seq<char>,
}

impl DeepView for ColorX {
    type V = ColorXView;

    open spec fn deep_view(&self) -> ColorXView {
        ColorXView { r: self.r, g: self.g, b: self.b, a: self.a, profile: self.profile@ }
    }
}

impl ColorX {
    /// What the default holds: nothing but zeros.
    pub open spec fn zero() -> ColorXView {
        ColorXView {
            r: F32 { bits: 0 },
            g: F32 { bits: 0 },
            b: F32 { bits: 0 },
            a: F32 { bits: 0 },
            profile: Seq::<char>::empty(),
        }
    }
}

impl Default for ColorX {
    fn default() -> (r: ColorX)
        ensures
            r.deep_view() == ColorX::zero(),
    {
        ColorX {
            r: F32 { bits: 0 },
            g: F32 { bits: 0 },
            b: F32 { bits: 0 },
            a: F32 { bits: 0 },
            profile: String::new(),
        }
    }
}

impl Wire for ColorX {
    open spec fn doc_of(v: ColorXView) -> JsonView {
        JsonView::Object(
            Seq::empty()
                .push(("r"@, <F32 as Wire>::doc_of(v.r)))
                .push(("g"@, <F32 as Wire>::doc_of(v.g)))
                .push(("b"@, <F32 as Wire>::doc_of(v.b)))
                .push(("a"@, <F32 as Wire>::doc_of(v.a)))
                .push(("profile"@, <String as Wire>::doc_of(v.profile))),
        )
    }

    open spec fn value_of(doc: JsonView) -> Result<ColorXView, DecodeError> {
        match doc {
            JsonView::Object(entries) => match field_of::<F32>(entries, "r"@) {
                Err(e) => Err(e),
                Ok(r) => match field_of::<F32>(entries, "g"@) {
                    Err(e) => Err(e),
                    Ok(g) => match field_of::<F32>(entries, "b"@) {
                        Err(e) => Err(e),
                        Ok(b) => match field_of::<F32>(entries, "a"@) {
                            Err(e) => Err(e),
                            Ok(a) => match field_of::<String>(entries, "profile"@) {
                                Err(e) => Err(e),
                                Ok(profile) => Ok(ColorXView { r, g, b, a, profile }),
                            },
                        },
                    },
                },
            },
            _ => Err(DecodeError::WrongType),
        }
    }

    open spec fn absent() -> Result<ColorXView, DecodeError> {
        Err(DecodeError::MissingField)
    }

    open spec fn sound(v: ColorXView) -> bool {
        &&& <F32 as Wire>::sound(v.r)
        &&& <F32 as Wire>::sound(v.g)
        &&& <F32 as Wire>::sound(v.b)
        &&& <F32 as Wire>::sound(v.a)
        &&& <String as Wire>::sound(v.profile)
    }

    fn encode(&self) -> (doc: Json) {
        let mut entries: Vec<(String, Json)> = Vec::new();
        assert(entries_view(&entries) =~= Seq::empty());
        write_field(&mut entries, "r", &self.r);
        write_field(&mut entries, "g", &self.g);
        write_field(&mut entries, "b", &self.b);
        write_field(&mut entries, "a", &self.a);
        write_field(&mut entries, "profile", &self.profile);
        Json::object(entries)
    }

    fn decode(doc: &Json) -> (r: Result<ColorX, DecodeError>) {
        match doc {
            Json::Object(entries) => {
                let r = read_field::<F32>(entries, "r")?;
                let g = read_field::<F32>(entries, "g")?;
                let b = read_field::<F32>(entries, "b")?;
                let a = read_field::<F32>(entries, "a")?;
                let profile = read_field::<String>(entries, "profile")?;
                Ok(ColorX { r, g, b, a, profile })
            },
            _ => Err(DecodeError::WrongType),
        }
    }

    fn decode_absent() -> (r: Result<ColorX, DecodeError>) {
        Err(DecodeError::MissingField)
    }

    proof fn round_trip(v: ColorXView) {
        broadcast use lookup_after_push;

        reveal_strlit("r");
        reveal_strlit("g");
        reveal_strlit("b");
        reveal_strlit("a");
        reveal_strlit("profile");
        assert("r"@.len() == 1 && "r"@[0] == 'r');
        assert("g"@.len() == 1 && "g"@[0] == 'g');
        assert("b"@.len() == 1 && "b"@[0] == 'b');
        assert("a"@.len() == 1 && "a"@[0] == 'a');
        assert("profile"@.len() == 7 && "profile"@[0] == 'p' && "profile"@[1] == 'r' &&
            "profile"@[2] == 'o' && "profile"@[3] == 'f' && "profile"@[4] == 'i' &&
            "profile"@[5] == 'l' && "profile"@[6] == 'e');
        <F32 as Wire>::round_trip(v.r);
        <F32 as Wire>::round_trip(v.g);
        <F32 as Wire>::round_trip(v.b);
        <F32 as Wire>::round_trip(v.a);
        <String as Wire>::round_trip(v.profile);
    }
}

/// A colour with alpha, each channel a byte.
#[derive(Clone, Copy, Debug, PartialEq)]
pub struct Color32 {
    pub r: u8,
    pub g: u8,
    pub b: u8,
    pub a: u8,
}

impl DeepView for Color32 {
    type V = Color32;

    open spec fn deep_view(&self) -> Color32 {
        *self
    }
}

impl Color32 {
    /// What the default holds: nothing but zeros.
    pub open spec fn zero() -> Color32 {
        Color32 { r: 0, g: 0, b: 0, a: 0 }
    }
}

impl Default for Color32 {
    fn default() -> (r: Color32)
        ensures
            r.deep_view() == Color32::zero(),
    {
        Color32 { r: 0, g: 0, b: 0, a: 0 }
    }
}

impl Wire for Color32 {
    open spec fn doc_of(v: Color32) -> JsonView {
        JsonView::Object(
            Seq::empty()
                .push(("r"@, <u8 as Wire>::doc_of(v.r)))
                .push(("g"@, <u8 as Wire>::doc_of(v.g)))
                .push(("b"@, <u8 as Wire>::doc_of(v.b)))
                .push(("a"@, <u8 as Wire>::doc_of(v.a))),
        )
    }

    open spec fn value_of(doc: JsonView) -> Result<Color32, DecodeError> {
        match doc {
            JsonView::Object(entries) => match field_of::<u8>(entries, "r"@) {
                Err(e) => Err(e),
                Ok(r) => match field_of::<u8>(entries, "g"@) {
                    Err(e) => Err(e),
                    Ok(g) => match field_of::<u8>(entries, "b"@) {
                        Err(e) => Err(e),
                        Ok(b) => match field_of::<u8>(entries, "a"@) {
                            Err(e) => Err(e),
                            Ok(a) => Ok(Color32 { r, g, b, a }),
                        },
                    },
                },
            },
            _ => Err(DecodeError::WrongType),
        }
    }

    open spec fn absent() -> Result<Color32, DecodeError> {
        Err(DecodeError::MissingField)
    }

    open spec fn sound(v: Color32) -> bool {
        &&& <u8 as Wire>::sound(v.r)
        &&& <u8 as Wire>::sound(v.g)
        &&& <u8 as Wire>::sound(v.b)
        &&& <u8 as Wire>::sound(v.a)
    }

    fn encode(&self) -> (doc: Json) {
        let mut entries: Vec<(String, Json)> = Vec::new();
        assert(entries_view(&entries) =~= Seq::empty());
        write_field(&mut entries, "r", &self.r);
        write_field(&mut entries, "g", &self.g);
        write_field(&mut entries, "b", &self.b);
        write_field(&mut entries, "a", &self.a);
        Json::object(entries)
    }

    fn decode(doc: &Json) -> (r: Result<Color32, DecodeError>) {
        match doc {
            Json::Object(entries) => {
                let r = read_field::<u8>(entries, "r")?;
                let g = read_field::<u8>(entries, "g")?;
                let b = read_field::<u8>(entries, "b")?;
                let a = read_field::<u8>(entries, "a")?;
                Ok(Color32 { r, g, b, a })
            },
            _ => Err(DecodeError::WrongType),
        }
    }

    fn decode_absent() -> (r: Result<Color32, DecodeError>) {
        Err(DecodeError::MissingField)
    }

    proof fn round_trip(v: Color32) {
        broadcast use lookup_after_push;

        reveal_strlit("r");
        reveal_strlit("g");
        reveal_strlit("b");
        reveal_strlit("a");
        assert("r"@.len() == 1 && "r"@[0] == 'r');
        assert("g"@.len() == 1 && "g"@[0] == 'g');
        assert("b"@.len() == 1 && "b"@[0] == 'b');
        assert("a"@.len() == 1 && "a"@[0] == 'a');
        <u8 as Wire>::round_trip(v.r);
        <u8 as Wire>::round_trip(v.g);
        <u8 as Wire>::round_trip(v.b);
        <u8 as Wire>::round_trip(v.a);
    }
}

} // verus!
