//! The scene graph as the wire carries it: slots, components and their members.

use vstd::prelude::*;

pub mod array_field;
pub mod component;
pub mod empty;
pub mod enum_field;
pub mod field;
pub mod floats;
pub mod member;
pub mod primitives;
pub mod reference;
pub mod slot;
pub mod sync_list;
pub mod sync_object;

pub use array_field::ArrayField;
pub use component::Component;
pub use empty::Empty;
pub use enum_field::Enum;
pub use field::Field;
pub use floats::{F32, F64};
pub use member::Member;
pub use primitives::{Color, Color32, ColorX, Float2, Float3, Float4, FloatQ, Int2, Int3, Int4};
pub use reference::Reference;
pub use slot::Slot;
pub use sync_list::SyncList;
pub use sync_object::SyncObject;

verus! {

/// Anything that the service addresses by an id.
pub trait ID {
    /// The id, as the wire carries it.
    spec fn id_spec(&self) -> Seq<char>;

    /// The id, as the wire carries it.
    fn id(&self) -> (r: &str)
        ensures
            r@ == self.id_spec(),
    ;
}

/// An entity that may come as a stub: with its identity only, and the rest unset.
pub trait Worker: ID {
    /// Whether this is a stub.
    spec fn is_reference_only_spec(&self) -> bool;

    /// Whether this is a stub.
    fn is_reference_only(&self) -> (r: bool)
        ensures
            r == self.is_reference_only_spec(),
    ;
}

} // verus!
