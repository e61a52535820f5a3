//! Reading containers that the wire may give as `null`.

use crate::codec::{deep, Wire};
use crate::json::{DecodeError, Json, JsonView};
use vstd::prelude::*;

verus! {

/// Reads a value for which `null` stands for the default: the empty list, for
/// one.
pub fn null_to_default<T: Wire + Default>(doc: &Json) -> (r: Result<T, DecodeError>)
    ensures
        match doc@ {
            JsonView::Null => r is Ok && call_ensures(T::default, (), r->Ok_0),
            _ => deep(r) == T::value_of(doc@),
        },
{
    match doc {
        Json::Null => Ok(T::default()),
        _ => T::decode(doc),
    }
}

/// Under `null` there is the empty list.
pub proof fn null_list_is_empty<T: Wire>()
    ensures
        list_or_empty::<T>(Some(JsonView::Null)) == Ok::<Seq<T::V>, DecodeError>(Seq::empty()),
{
}

/// The list under a key of an object, where `null` stands for the empty list.
pub open spec fn list_or_empty<T: Wire>(doc: Option<JsonView>) -> Result<Seq<T::V>, DecodeError> {
    match doc {
        None => Err(DecodeError::MissingField),
        Some(JsonView::Null) => Ok(Seq::empty()),
        Some(d) => <Vec<T> as Wire>::value_of(d),
    }
}

/// Reads the list under a key of an object, where `null` stands for the empty
/// list.
pub fn read_list_or_empty<T: Wire>(doc: Option<&Json>) -> (r: Result<Vec<T>, DecodeError>)
    ensures
        deep(r) == list_or_empty::<T>(
            match doc {
                Some(d) => Some(d@),
                None => None,
            },
        ),
{
    match doc {
        None => Err(DecodeError::MissingField),
        Some(d) => {
            let list = null_to_default::<Vec<T>>(d)?;
            assert(d@ is Null ==> list.deep_view() =~= Seq::empty());
            Ok(list)
        },
    }
}

} // verus!
