//! The document tree that stands between the data model and JSON text.
//!
//! A document says what a JSON text holds, value by value. Turning text
//! into a document and back is the caller's part.

use crate::data_model::floats::{F32, F64};
use crate::text::same_text;
use vstd::prelude::*;

verus! {

/// Why a document is not the value that was asked for.
#[derive(Clone, Copy, Debug, PartialEq, Eq)]
pub enum DecodeError {
    /// A value of another kind stands where one kind was expected.
    WrongType,
    /// An object lacks a key that must be there.
    MissingField,
    /// The `$type` of an object names no known variant.
    UnknownTag,
    /// An integer does not fit the field it was meant for.
    OutOfRange,
    /// Neither a number of the width asked for nor one of the names `NaN`,
    /// `Infinity` and `-Infinity`.
    NotAFloat,
    /// An object that is read as a map has one key twice.
    DuplicateKey,
}

/// A JSON number, by what can be read off it. Each field that is there gives
/// the number in one form: as an unsigned or signed integer when it is one in
/// that range, and as the nearest double- and single-precision value.
///
/// The library fills in what it knows: an integer it writes has no
/// floating-point forms, and a floating-point value it writes has its own form
/// only. Whoever reads numbers from text fills in every form that applies.
#[derive(Clone, Copy, Debug, PartialEq, Eq)]
pub struct Number {
    pub unsigned: Option<u64>,
    pub signed: Option<i64>,
    pub double: Option<F64>,
    pub single: Option<F32>,
}

impl Number {
    /// The integer that the number is, if it is one: the unsigned form where
    /// there is one, else the signed.
    pub open spec fn integer(self) -> Option<int> {
        match self.unsigned {
            Some(n) => Some(n as int),
            None => match self.signed {
                Some(n) => Some(n as int),
                None => None,
            },
        }
    }

    /// The number that is the given unsigned integer.
    pub open spec fn of_unsigned(n: u64) -> Number {
        Number {
            unsigned: Some(n),
            signed: if n <= i64::MAX {
                Some(n as i64)
            } else {
                None
            },
            double: None,
            single: None,
        }
    }

    /// The number that is the given signed integer.
    pub open spec fn of_signed(n: i64) -> Number {
        Number {
            unsigned: if n >= 0 {
                Some(n as u64)
            } else {
                None
            },
            signed: Some(n),
            double: None,
            single: None,
        }
    }

    /// The number that is the given unsigned integer.
    pub fn from_unsigned(n: u64) -> (r: Number)
        ensures
            r == Number::of_unsigned(n),
            r.integer() == Some(n as int),
    {
        Number {
            unsigned: Some(n),
            signed: if n <= 0x7fff_ffff_ffff_ffff {
                Some(n as i64)
            } else {
                None
            },
            double: None,
            single: None,
        }
    }

    /// The number that is the given signed integer.
    pub fn from_signed(n: i64) -> (r: Number)
        ensures
            r == Number::of_signed(n),
            r.integer() == Some(n as int),
    {
        Number {
            unsigned: if n >= 0 {
                Some(n as u64)
            } else {
                None
            },
            signed: Some(n),
            double: None,
            single: None,
        }
    }
}

/// A JSON value.
#[derive(Debug, PartialEq)]
pub enum Json {
    Null,
    Bool(bool),
    Number(Number),
    String(String),
    Array(Vec<Json>),
    /// The entries in the order in which they were written. Where a key stands
    /// twice, the later entry counts.
    Object(Vec<(String, Json)>),
}

/// What a [`Json`] holds.
pub enum JsonView {
    Null,
    Bool(bool),
    Number(Number),
    String(Seq<char>),
    Array(Seq<JsonView>),
    Object(Seq<(Seq<char>, JsonView)>),
}

/// What a list of documents holds.
pub open spec fn items_view(items: &Vec<Json>) -> Seq<JsonView>
    decreases items,
{
    Seq::new(
        items.len() as nat,
        |i: int|
            if 0 <= i < items.len() {
                json_view(&items[i])
            } else {
                JsonView::Null
            },
    )
}

/// What the entries of an object hold.
pub open spec fn entries_view(entries: &Vec<(String, Json)>) -> Seq<(Seq<char>, JsonView)>
    decreases entries,
{
    Seq::new(
        entries.len() as nat,
        |i: int|
            if 0 <= i < entries.len() {
                (entries[i].0@, json_view(&entries[i].1))
            } else {
                (Seq::empty(), JsonView::Null)
            },
    )
}

/// What a document holds.
pub open spec fn json_view(doc: &Json) -> JsonView
    decreases doc,
{
    match doc {
        Json::Null => JsonView::Null,
        Json::Bool(b) => JsonView::Bool(*b),
        Json::Number(n) => JsonView::Number(*n),
        Json::String(s) => JsonView::String(s@),
        Json::Array(items) => JsonView::Array(items_view(items)),
        Json::Object(entries) => JsonView::Object(entries_view(entries)),
    }
}

impl View for Json {
    type V = JsonView;

    open spec fn view(&self) -> JsonView {
        json_view(self)
    }
}

impl DeepView for Json {
    type V = JsonView;

    open spec fn deep_view(&self) -> JsonView {
        json_view(self)
    }
}

/// The value under `key`: that of the last entry with this key.
pub open spec fn lookup(entries: Seq<(Seq<char>, JsonView)>, key: Seq<char>) -> Option<JsonView>
    decreases entries.len(),
{
    if entries.len() == 0 {
        None
    } else if entries.last().0 == key {
        Some(entries.last().1)
    } else {
        lookup(entries.drop_last(), key)
    }
}

/// Looking a key up behind one more entry: the new entry if it has the key,
/// else what was there before.
pub broadcast proof fn lookup_after_push(
    entries: Seq<(Seq<char>, JsonView)>,
    key: Seq<char>,
    doc: JsonView,
    wanted: Seq<char>,
)
    ensures
        #[trigger] lookup(entries.push((key, doc)), wanted) == if key == wanted {
            Some(doc)
        } else {
            lookup(entries, wanted)
        },
{
    assert(entries.push((key, doc)).drop_last() =~= entries);
}

/// What a lookup finds is a part of the entries.
pub proof fn lookup_is_part(entries: Seq<(Seq<char>, JsonView)>, key: Seq<char>)
    ensures
        lookup(entries, key) matches Some(doc) ==> decreases_to!(entries => doc),
    decreases entries.len(),
{
    if entries.len() > 0 {
        if entries.last().0 == key {
            assert(decreases_to!(entries => entries[entries.len() - 1]));
        } else {
            lookup_is_part(entries.drop_last(), key);
            assert(entries.drop_last() == entries.subrange(0, entries.len() - 1));
        }
    }
}

impl Json {
    /// The document that holds the given text.
    pub fn text(s: &str) -> (doc: Json)
        ensures
            doc@ == JsonView::String(s@),
    {
        Json::String(String::from_str(s))
    }

    /// The document that holds the given number.
    pub fn number(n: Number) -> (doc: Json)
        ensures
            doc@ == JsonView::Number(n),
    {
        Json::Number(n)
    }

    /// The document that holds the given items.
    pub fn array(items: Vec<Json>) -> (doc: Json)
        ensures
            doc@ == JsonView::Array(items_view(&items)),
    {
        Json::Array(items)
    }

    /// The document that holds the given entries.
    pub fn object(entries: Vec<(String, Json)>) -> (doc: Json)
        ensures
            doc@ == JsonView::Object(entries_view(&entries)),
    {
        Json::Object(entries)
    }
}

/// Puts one more entry at the end.
pub fn push_entry(entries: &mut Vec<(String, Json)>, key: &str, doc: Json)
    ensures
        entries_view(final(entries)) == entries_view(old(entries)).push((key@, doc@)),
{
    entries.push((String::from_str(key), doc));
    assert(entries_view(final(entries)) =~= entries_view(old(entries)).push((key@, doc@)));
}

/// The value under `key`: that of the last entry with this key. What is found
/// is a part of the entries.
pub fn find<'a>(entries: &'a Vec<(String, Json)>, key: &str) -> (r: Option<&'a Json>)
    ensures
        match r {
            Some(doc) => lookup(entries_view(entries), key@) == Some(doc@)
                && decreases_to!(entries => doc),
            None => lookup(entries_view(entries), key@) is None,
        },
{
    let ghost all = entries_view(entries);
    let mut i: usize = entries.len();
    assert(all.take(i as int) =~= all);
    while i > 0
        invariant
            i <= entries.len(),
            all == entries_view(entries),
            lookup(all, key@) == lookup(all.take(i as int), key@),
        decreases i,
    {
        i -= 1;
        proof {
            assert(all.take(i + 1).drop_last() =~= all.take(i as int));
            assert(all.take(i + 1).last() == all[i as int]);
        }
        if same_text(entries[i].0.as_str(), key) {
            return Some(&entries[i].1);
        }
    }
    assert(all.take(0).len() == 0);
    None
}

} // verus!
