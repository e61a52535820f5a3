//! The codec of plain values: how each stands in a document, and back.

use crate::json::{
    entries_view, find, items_view, lookup, push_entry, DecodeError, Json, JsonView, Number,
};
use vstd::prelude::*;

verus! {

/// A value that has a place in a document.
pub trait Wire: DeepView + Sized {
    /// The document that stands for a value.
    spec fn doc_of(v: Self::V) -> JsonView;

    /// The value that a document stands for, or why it stands for none.
    spec fn value_of(doc: JsonView) -> Result<Self::V, DecodeError>;

    /// What an object gives for a key of this type that it does not have.
    spec fn absent() -> Result<Self::V, DecodeError>;

    /// Whether the value comes back from its document as it went in.
    spec fn sound(v: Self::V) -> bool;

    /// Writes the value as a document.
    fn encode(&self) -> (doc: Json)
        ensures
            doc@ == Self::doc_of(self.deep_view()),
    ;

    /// Reads a value from a document.
    fn decode(doc: &Json) -> (r: Result<Self, DecodeError>)
        ensures
            deep(r) == Self::value_of(doc@),
    ;

    /// What an object gives for a key of this type that it does not have.
    fn decode_absent() -> (r: Result<Self, DecodeError>)
        ensures
            deep(r) == Self::absent(),
    ;

    /// Reading what was written gives the value back.
    proof fn round_trip(v: Self::V)
        requires
            Self::sound(v),
        ensures
            Self::value_of(Self::doc_of(v)) == Ok::<Self::V, DecodeError>(v),
    ;
}

/// An outcome by what its value holds.
pub open spec fn deep<T: DeepView, E>(r: Result<T, E>) -> Result<T::V, E> {
    match r {
        Ok(v) => Ok(v.deep_view()),
        Err(e) => Err(e),
    }
}

/// An outcome with its value wrapped.
pub open spec fn map_ok<A, B, E>(r: Result<A, E>, wrap: spec_fn(A) -> B) -> Result<B, E> {
    match r {
        Ok(v) => Ok(wrap(v)),
        Err(e) => Err(e),
    }
}

/// All the values if every outcome is one, else the first failure.
pub open spec fn gather<T, E>(outcomes: Seq<Result<T, E>>) -> Result<Seq<T>, E>
    decreases outcomes.len(),
{
    if outcomes.len() == 0 {
        Ok(Seq::empty())
    } else {
        match gather(outcomes.drop_last()) {
            Err(e) => Err(e),
            Ok(values) => match outcomes.last() {
                Ok(v) => Ok(values.push(v)),
                Err(e) => Err(e),
            },
        }
    }
}

/// Gathering one outcome more: an earlier failure stays, else the new outcome
/// decides.
pub proof fn gather_one_more<T, E>(outcomes: Seq<Result<T, E>>, next: Result<T, E>)
    ensures
        gather(outcomes.push(next)) == match gather(outcomes) {
            Err(e) => Err(e),
            Ok(values) => match next {
                Ok(v) => Ok(values.push(v)),
                Err(e) => Err(e),
            },
        },
{
    assert(outcomes.push(next).drop_last() =~= outcomes);
}

/// Where every outcome is a value, gathering gives them all.
pub proof fn gather_values<T, E>(outcomes: Seq<Result<T, E>>, values: Seq<T>)
    requires
        outcomes.len() == values.len(),
        forall|i: int| 0 <= i < values.len() ==> outcomes[i] == Ok::<T, E>(values[i]),
    ensures
        gather(outcomes) == Ok::<Seq<T>, E>(values),
    decreases outcomes.len(),
{
    if outcomes.len() == 0 {
        assert(values =~= Seq::empty());
    } else {
        gather_values(outcomes.drop_last(), values.drop_last());
        assert(values.drop_last().push(values.last()) =~= values);
    }
}

/// Where gathering gives values, there is one for each outcome, and each
/// outcome is its value.
pub proof fn gather_gives_each<T, E>(outcomes: Seq<Result<T, E>>)
    ensures
        gather(outcomes) matches Ok(values) ==> values.len() == outcomes.len() && forall|i: int|
            0 <= i < values.len() ==> outcomes[i] == Ok::<T, E>(#[trigger] values[i]),
    decreases outcomes.len(),
{
    if outcomes.len() > 0 {
        gather_gives_each(outcomes.drop_last());
    }
}

/// The documents of a list of values, one for one.
pub open spec fn docs_of<T: Wire>(values: Seq<T::V>) -> Seq<JsonView> {
    Seq::new(values.len(), |i: int| T::doc_of(values[i]))
}

/// The values of a list of documents: all of them, or the first failure.
pub open spec fn values_of<T: Wire>(docs: Seq<JsonView>) -> Result<Seq<T::V>, DecodeError> {
    gather(Seq::new(docs.len(), |i: int| T::value_of(docs[i])))
}

/// Whether every value of a list is sound.
pub open spec fn all_sound<T: Wire>(values: Seq<T::V>) -> bool {
    forall|i: int| 0 <= i < values.len() ==> T::sound(#[trigger] values[i])
}

/// Reading the documents of sound values gives the values back.
pub proof fn list_round_trip<T: Wire>(values: Seq<T::V>)
    requires
        all_sound::<T>(values),
    ensures
        values_of::<T>(docs_of::<T>(values)) == Ok::<Seq<T::V>, DecodeError>(values),
{
    let docs = docs_of::<T>(values);
    let outcomes = Seq::new(docs.len(), |i: int| T::value_of(docs[i]));
    assert forall|i: int| 0 <= i < values.len() implies outcomes[i] == Ok::<T::V, DecodeError>(
        values[i],
    ) by {
        T::round_trip(values[i]);
    }
    gather_values(outcomes, values);
}

/// Writes each value of a list as a document.
pub fn encode_list<T: Wire>(values: &Vec<T>) -> (docs: Vec<Json>)
    ensures
        items_view(&docs) == docs_of::<T>(values.deep_view()),
{
    let mut docs: Vec<Json> = Vec::new();
    let mut i: usize = 0;
    while i < values.len()
        invariant
            i <= values.len(),
            docs.len() == i,
            forall|j: int| 0 <= j < i ==> (#[trigger] docs[j])@ == T::doc_of(values[j].deep_view()),
        decreases values.len() - i,
    {
        docs.push(values[i].encode());
        i += 1;
    }
    assert(items_view(&docs) =~= docs_of::<T>(values.deep_view()));
    docs
}

/// Reads each document of a list as a value, and stops at the first that is
/// none.
pub fn decode_list<T: Wire>(docs: &Vec<Json>) -> (r: Result<Vec<T>, DecodeError>)
    ensures
        deep(r) == values_of::<T>(items_view(docs)),
{
    let ghost outcomes = Seq::new(docs.len() as nat, |i: int| T::value_of(items_view(docs)[i]));
    let mut values: Vec<T> = Vec::new();
    let mut i: usize = 0;
    assert(outcomes.take(0) =~= Seq::empty());
    assert(values.deep_view() =~= Seq::empty());
    while i < docs.len()
        invariant
            i <= docs.len(),
            outcomes == Seq::new(docs.len() as nat, |i: int| T::value_of(items_view(docs)[i])),
            gather(outcomes.take(i as int)) == Ok::<Seq<T::V>, DecodeError>(values.deep_view()),
        decreases docs.len() - i,
    {
        proof {
            gather_one_more(outcomes.take(i as int), outcomes[i as int]);
            assert(outcomes.take(i as int).push(outcomes[i as int]) =~= outcomes.take(i + 1));
        }
        match T::decode(&docs[i]) {
            Ok(v) => {
                let ghost before = values.deep_view();
                values.push(v);
                assert(values.deep_view() =~= before.push(v.deep_view()));
            },
            Err(e) => {
                proof {
                    gather_stays_failed(outcomes, i + 1);
                }
                return Err(e);
            },
        }
        i += 1;
    }
    assert(outcomes.take(i as int) =~= outcomes);
    Ok(values)
}

/// Once the first outcomes hold a failure, gathering them all gives that
/// failure.
pub proof fn gather_stays_failed<T, E>(outcomes: Seq<Result<T, E>>, n: int)
    requires
        0 <= n <= outcomes.len(),
        gather(outcomes.take(n)) is Err,
    ensures
        gather(outcomes) == gather(outcomes.take(n)),
    decreases outcomes.len() - n,
{
    if n < outcomes.len() {
        gather_one_more(outcomes.take(n), outcomes[n]);
        assert(outcomes.take(n).push(outcomes[n]) =~= outcomes.take(n + 1));
        gather_stays_failed(outcomes, n + 1);
    } else {
        assert(outcomes.take(n) =~= outcomes);
    }
}

/// A list: an array with one document for each value.
impl<T: Wire> Wire for Vec<T> {
    open spec fn doc_of(v: Seq<T::V>) -> JsonView {
        JsonView::Array(docs_of::<T>(v))
    }

    open spec fn value_of(doc: JsonView) -> Result<Seq<T::V>, DecodeError> {
        match doc {
            JsonView::Array(docs) => values_of::<T>(docs),
            _ => Err(DecodeError::WrongType),
        }
    }

    open spec fn absent() -> Result<Seq<T::V>, DecodeError> {
        Err(DecodeError::MissingField)
    }

    open spec fn sound(v: Seq<T::V>) -> bool {
        all_sound::<T>(v)
    }

    fn encode(&self) -> (doc: Json) {
        Json::array(encode_list(self))
    }

    fn decode(doc: &Json) -> (r: Result<Vec<T>, DecodeError>) {
        match doc {
            Json::Array(docs) => decode_list(docs),
            _ => Err(DecodeError::WrongType),
        }
    }

    fn decode_absent() -> (r: Result<Vec<T>, DecodeError>) {
        Err(DecodeError::MissingField)
    }

    proof fn round_trip(v: Seq<T::V>) {
        list_round_trip::<T>(v);
    }
}

/// The value under a key of an object, or what an object without the key gives.
pub open spec fn field_of<T: Wire>(entries: Seq<(Seq<char>, JsonView)>, key: Seq<char>) -> Result<
    T::V,
    DecodeError,
> {
    match lookup(entries, key) {
        Some(doc) => T::value_of(doc),
        None => T::absent(),
    }
}

/// Reads the value under a key of an object.
pub fn read_field<T: Wire>(entries: &Vec<(String, Json)>, key: &str) -> (r: Result<T, DecodeError>)
    ensures
        deep(r) == field_of::<T>(entries_view(entries), key@),
{
    match find(entries, key) {
        Some(doc) => T::decode(doc),
        None => T::decode_absent(),
    }
}

/// Writes a value under a key, behind the entries that are there.
pub fn write_field<T: Wire>(entries: &mut Vec<(String, Json)>, key: &str, value: &T)
    ensures
        entries_view(final(entries)) == entries_view(old(entries)).push(
            (key@, T::doc_of(value.deep_view())),
        ),
{
    push_entry(entries, key, value.encode());
}

/// The integer that a document stands for, if it lies between the two bounds.
pub open spec fn integer_of(doc: JsonView, least: int, most: int) -> Result<int, DecodeError> {
    match doc {
        JsonView::Number(n) => match n.integer() {
            Some(i) => if least <= i <= most {
                Ok(i)
            } else {
                Err(DecodeError::OutOfRange)
            },
            None => Err(DecodeError::WrongType),
        },
        _ => Err(DecodeError::WrongType),
    }
}

/// Reads an integer between two bounds that an `i64` can hold.
fn decode_signed(doc: &Json, least: i64, most: i64) -> (r: Result<i64, DecodeError>)
    requires
        least <= 0 <= most,
    ensures
        match r {
            Ok(i) => integer_of(doc@, least as int, most as int) == Ok::<int, DecodeError>(
                i as int,
            ),
            Err(e) => integer_of(doc@, least as int, most as int) == Err::<int, DecodeError>(e),
        },
{
    match doc {
        Json::Number(n) => match n.unsigned {
            Some(u) => if u <= most as u64 {
                Ok(u as i64)
            } else {
                Err(DecodeError::OutOfRange)
            },
            None => match n.signed {
                Some(i) => if least <= i && i <= most {
                    Ok(i)
                } else {
                    Err(DecodeError::OutOfRange)
                },
                None => Err(DecodeError::WrongType),
            },
        },
        _ => Err(DecodeError::WrongType),
    }
}

/// Reads an integer between zero and a bound that a `u64` can hold.
fn decode_unsigned(doc: &Json, most: u64) -> (r: Result<u64, DecodeError>)
    ensures
        match r {
            Ok(i) => integer_of(doc@, 0, most as int) == Ok::<int, DecodeError>(i as int),
            Err(e) => integer_of(doc@, 0, most as int) == Err::<int, DecodeError>(e),
        },
{
    match doc {
        Json::Number(n) => match n.unsigned {
            Some(u) => if u <= most {
                Ok(u)
            } else {
                Err(DecodeError::OutOfRange)
            },
            None => match n.signed {
                Some(i) => if i < 0 {
                    Err(DecodeError::OutOfRange)
                } else if i as u64 <= most {
                    Ok(i as u64)
                } else {
                    Err(DecodeError::OutOfRange)
                },
                None => Err(DecodeError::WrongType),
            },
        },
        _ => Err(DecodeError::WrongType),
    }
}

impl Wire for u8 {
    open spec fn doc_of(v: u8) -> JsonView {
        JsonView::Number(Number::of_unsigned(v as u64))
    }

    open spec fn value_of(doc: JsonView) -> Result<u8, DecodeError> {
        match integer_of(doc, u8::MIN as int, u8::MAX as int) {
            Ok(i) => Ok(i as u8),
            Err(e) => Err(e),
        }
    }

    open spec fn absent() -> Result<u8, DecodeError> {
        Err(DecodeError::MissingField)
    }

    open spec fn sound(v: u8) -> bool {
        true
    }

    fn encode(&self) -> (doc: Json) {
        Json::number(Number::from_unsigned(*self as u64))
    }

    fn decode(doc: &Json) -> (r: Result<u8, DecodeError>) {
        match decode_unsigned(doc, u8::MAX as u64) {
            Ok(i) => Ok(i as u8),
            Err(e) => Err(e),
        }
    }

    fn decode_absent() -> (r: Result<u8, DecodeError>) {
        Err(DecodeError::MissingField)
    }

    proof fn round_trip(v: u8) {
    }
}

impl Wire for u16 {
    open spec fn doc_of(v: u16) -> JsonView {
        JsonView::Number(Number::of_unsigned(v as u64))
    }

    open spec fn value_of(doc: JsonView) -> Result<u16, DecodeError> {
        match integer_of(doc, u16::MIN as int, u16::MAX as int) {
            Ok(i) => Ok(i as u16),
            Err(e) => Err(e),
        }
    }

    open spec fn absent() -> Result<u16, DecodeError> {
        Err(DecodeError::MissingField)
    }

    open spec fn sound(v: u16) -> bool {
        true
    }

    fn encode(&self) -> (doc: Json) {
        Json::number(Number::from_unsigned(*self as u64))
    }

    fn decode(doc: &Json) -> (r: Result<u16, DecodeError>) {
        match decode_unsigned(doc, u16::MAX as u64) {
            Ok(i) => Ok(i as u16),
            Err(e) => Err(e),
        }
    }

    fn decode_absent() -> (r: Result<u16, DecodeError>) {
        Err(DecodeError::MissingField)
    }

    proof fn round_trip(v: u16) {
    }
}

impl Wire for u32 {
    open spec fn doc_of(v: u32) -> JsonView {
        JsonView::Number(Number::of_unsigned(v as u64))
    }

    open spec fn value_of(doc: JsonView) -> Result<u32, DecodeError> {
        match integer_of(doc, u32::MIN as int, u32::MAX as int) {
            Ok(i) => Ok(i as u32),
            Err(e) => Err(e),
        }
    }

    open spec fn absent() -> Result<u32, DecodeError> {
        Err(DecodeError::MissingField)
    }

    open spec fn sound(v: u32) -> bool {
        true
    }

    fn encode(&self) -> (doc: Json) {
        Json::number(Number::from_unsigned(*self as u64))
    }

    fn decode(doc: &Json) -> (r: Result<u32, DecodeError>) {
        match decode_unsigned(doc, u32::MAX as u64) {
            Ok(i) => Ok(i as u32),
            Err(e) => Err(e),
        }
    }

    fn decode_absent() -> (r: Result<u32, DecodeError>) {
        Err(DecodeError::MissingField)
    }

    proof fn round_trip(v: u32) {
    }
}

impl Wire for u64 {
    open spec fn doc_of(v: u64) -> JsonView {
        JsonView::Number(Number::of_unsigned(v as u64))
    }

    open spec fn value_of(doc: JsonView) -> Result<u64, DecodeError> {
        match integer_of(doc, u64::MIN as int, u64::MAX as int) {
            Ok(i) => Ok(i as u64),
            Err(e) => Err(e),
        }
    }

    open spec fn absent() -> Result<u64, DecodeError> {
        Err(DecodeError::MissingField)
    }

    open spec fn sound(v: u64) -> bool {
        true
    }

    fn encode(&self) -> (doc: Json) {
        Json::number(Number::from_unsigned(*self as u64))
    }

    fn decode(doc: &Json) -> (r: Result<u64, DecodeError>) {
        match decode_unsigned(doc, u64::MAX as u64) {
            Ok(i) => Ok(i as u64),
            Err(e) => Err(e),
        }
    }

    fn decode_absent() -> (r: Result<u64, DecodeError>) {
        Err(DecodeError::MissingField)
    }

    proof fn round_trip(v: u64) {
    }
}

impl Wire for i8 {
    open spec fn doc_of(v: i8) -> JsonView {
        JsonView::Number(Number::of_signed(v as i64))
    }

    open spec fn value_of(doc: JsonView) -> Result<i8, DecodeError> {
        match integer_of(doc, i8::MIN as int, i8::MAX as int) {
            Ok(i) => Ok(i as i8),
            Err(e) => Err(e),
        }
    }

    open spec fn absent() -> Result<i8, DecodeError> {
        Err(DecodeError::MissingField)
    }

    open spec fn sound(v: i8) -> bool {
        true
    }

    fn encode(&self) -> (doc: Json) {
        Json::number(Number::from_signed(*self as i64))
    }

    fn decode(doc: &Json) -> (r: Result<i8, DecodeError>) {
        match decode_signed(doc, i8::MIN as i64, i8::MAX as i64) {
            Ok(i) => Ok(i as i8),
            Err(e) => Err(e),
        }
    }

    fn decode_absent() -> (r: Result<i8, DecodeError>) {
        Err(DecodeError::MissingField)
    }

    proof fn round_trip(v: i8) {
    }
}

impl Wire for i16 {
    open spec fn doc_of(v: i16) -> JsonView {
        JsonView::Number(Number::of_signed(v as i64))
    }

    open spec fn value_of(doc: JsonView) -> Result<i16, DecodeError> {
        match integer_of(doc, i16::MIN as int, i16::MAX as int) {
            Ok(i) => Ok(i as i16),
            Err(e) => Err(e),
        }
    }

    open spec fn absent() -> Result<i16, DecodeError> {
        Err(DecodeError::MissingField)
    }

    open spec fn sound(v: i16) -> bool {
        true
    }

    fn encode(&self) -> (doc: Json) {
        Json::number(Number::from_signed(*self as i64))
    }

    fn decode(doc: &Json) -> (r: Result<i16, DecodeError>) {
        match decode_signed(doc, i16::MIN as i64, i16::MAX as i64) {
            Ok(i) => Ok(i as i16),
            Err(e) => Err(e),
        }
    }

    fn decode_absent() -> (r: Result<i16, DecodeError>) {
        Err(DecodeError::MissingField)
    }

    proof fn round_trip(v: i16) {
    }
}

impl Wire for i32 {
    open spec fn doc_of(v: i32) -> JsonView {
        JsonView::Number(Number::of_signed(v as i64))
    }

    open spec fn value_of(doc: JsonView) -> Result<i32, DecodeError> {
        match integer_of(doc, i32::MIN as int, i32::MAX as int) {
            Ok(i) => Ok(i as i32),
            Err(e) => Err(e),
        }
    }

    open spec fn absent() -> Result<i32, DecodeError> {
        Err(DecodeError::MissingField)
    }

    open spec fn sound(v: i32) -> bool {
        true
    }

    fn encode(&self) -> (doc: Json) {
        Json::number(Number::from_signed(*self as i64))
    }

    fn decode(doc: &Json) -> (r: Result<i32, DecodeError>) {
        match decode_signed(doc, i32::MIN as i64, i32::MAX as i64) {
            Ok(i) => Ok(i as i32),
            Err(e) => Err(e),
        }
    }

    fn decode_absent() -> (r: Result<i32, DecodeError>) {
        Err(DecodeError::MissingField)
    }

    proof fn round_trip(v: i32) {
    }
}

impl Wire for i64 {
    open spec fn doc_of(v: i64) -> JsonView {
        JsonView::Number(Number::of_signed(v as i64))
    }

    open spec fn value_of(doc: JsonView) -> Result<i64, DecodeError> {
        match integer_of(doc, i64::MIN as int, i64::MAX as int) {
            Ok(i) => Ok(i as i64),
            Err(e) => Err(e),
        }
    }

    open spec fn absent() -> Result<i64, DecodeError> {
        Err(DecodeError::MissingField)
    }

    open spec fn sound(v: i64) -> bool {
        true
    }

    fn encode(&self) -> (doc: Json) {
        Json::number(Number::from_signed(*self as i64))
    }

    fn decode(doc: &Json) -> (r: Result<i64, DecodeError>) {
        match decode_signed(doc, i64::MIN as i64, i64::MAX as i64) {
            Ok(i) => Ok(i as i64),
            Err(e) => Err(e),
        }
    }

    fn decode_absent() -> (r: Result<i64, DecodeError>) {
        Err(DecodeError::MissingField)
    }

    proof fn round_trip(v: i64) {
    }
}

impl Wire for bool {
    open spec fn doc_of(v: bool) -> JsonView {
        JsonView::Bool(v)
    }

    open spec fn value_of(doc: JsonView) -> Result<bool, DecodeError> {
        match doc {
            JsonView::Bool(b) => Ok(b),
            _ => Err(DecodeError::WrongType),
        }
    }

    open spec fn absent() -> Result<bool, DecodeError> {
        Err(DecodeError::MissingField)
    }

    open spec fn sound(v: bool) -> bool {
        true
    }

    fn encode(&self) -> (doc: Json) {
        Json::Bool(*self)
    }

    fn decode(doc: &Json) -> (r: Result<bool, DecodeError>) {
        match doc {
            Json::Bool(b) => Ok(*b),
            _ => Err(DecodeError::WrongType),
        }
    }

    fn decode_absent() -> (r: Result<bool, DecodeError>) {
        Err(DecodeError::MissingField)
    }

    proof fn round_trip(v: bool) {
    }
}

impl Wire for String {
    open spec fn doc_of(v: Seq<char>) -> JsonView {
        JsonView::String(v)
    }

    open spec fn value_of(doc: JsonView) -> Result<Seq<char>, DecodeError> {
        match doc {
            JsonView::String(s) => Ok(s),
            _ => Err(DecodeError::WrongType),
        }
    }

    open spec fn absent() -> Result<Seq<char>, DecodeError> {
        Err(DecodeError::MissingField)
    }

    open spec fn sound(v: Seq<char>) -> bool {
        true
    }

    fn encode(&self) -> (doc: Json) {
        Json::String(self.clone())
    }

    fn decode(doc: &Json) -> (r: Result<String, DecodeError>) {
        match doc {
            Json::String(s) => Ok(s.clone()),
            _ => Err(DecodeError::WrongType),
        }
    }

    fn decode_absent() -> (r: Result<String, DecodeError>) {
        Err(DecodeError::MissingField)
    }

    proof fn round_trip(v: Seq<char>) {
    }
}

/// A value that may be missing: `null`, or no entry at all, stands for none.
impl<T: Wire> Wire for Option<T> {
    open spec fn doc_of(v: Option<T::V>) -> JsonView {
        match v {
            Some(x) => T::doc_of(x),
            None => JsonView::Null,
        }
    }

    open spec fn value_of(doc: JsonView) -> Result<Option<T::V>, DecodeError> {
        match doc {
            JsonView::Null => Ok(None),
            _ => match T::value_of(doc) {
                Ok(x) => Ok(Some(x)),
                Err(e) => Err(e),
            },
        }
    }

    open spec fn absent() -> Result<Option<T::V>, DecodeError> {
        Ok(None)
    }

    open spec fn sound(v: Option<T::V>) -> bool {
        match v {
            Some(x) => T::sound(x) && !(T::doc_of(x) is Null),
            None => true,
        }
    }

    fn encode(&self) -> (doc: Json) {
        match self {
            Some(x) => x.encode(),
            None => Json::Null,
        }
    }

    fn decode(doc: &Json) -> (r: Result<Option<T>, DecodeError>) {
        match doc {
            Json::Null => Ok(None),
            _ => match T::decode(doc) {
                Ok(x) => Ok(Some(x)),
                Err(e) => Err(e),
            },
        }
    }

    fn decode_absent() -> (r: Result<Option<T>, DecodeError>) {
        Ok(None)
    }

    proof fn round_trip(v: Option<T::V>) {
        match v {
            Some(x) => {
                T::round_trip(x);
            },
            None => {},
        }
    }
}

} // verus!
