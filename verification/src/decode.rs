//! Reading JSON as typed values.
//!
//! A member of an object that must be there is read with a function named
//! after the kind of value (`text`, `count`, `flag`, `texts`); one that may
//! be missing has a `default_` reader, which gives the kind's empty value in
//! its place; one that may be missing or `null` has an `optional_` reader. A
//! member that is there and of another kind makes every reader fail.
//!
//! A type that can be read from JSON implements [`Decode`]: it has a `shape`,
//! which says of a JSON value whether it can be read as the type, a relation
//! `reads`, which says what is then read, and `decode`, which reads.

use vstd::prelude::*;
use crate::json::{items_view, Number, Value, ValueView};
use crate::views::views;

verus! {

/// The text under `key`.
pub open spec fn text_at(v: ValueView, key: Seq<char>) -> Option<Seq<char>> {
    match v.member(key) {
        Some(ValueView::String(s)) => Some(s),
        _ => None,
    }
}

/// The text under `key`, which may be missing or `null`.
pub open spec fn optional_text_at(v: ValueView, key: Seq<char>) -> Option<Option<Seq<char>>> {
    match v.member(key) {
        None => Some(None),
        Some(ValueView::Null) => Some(None),
        Some(ValueView::String(s)) => Some(Some(s)),
        _ => None,
    }
}

/// The count that a value is: a whole number from 0 that fits in 32 bits.
pub open spec fn count_of(v: ValueView) -> Option<u32> {
    match v {
        ValueView::Number(Number::PosInt(n)) => if n <= u32::MAX {
            Some(n as u32)
        } else {
            None
        },
        _ => None,
    }
}

/// The count under `key`.
pub open spec fn count_at(v: ValueView, key: Seq<char>) -> Option<u32> {
    match v.member(key) {
        Some(x) => count_of(x),
        None => None,
    }
}

/// The count under `key`; 0 where the member is missing.
pub open spec fn default_count_at(v: ValueView, key: Seq<char>) -> Option<u32> {
    match v.member(key) {
        Some(x) => count_of(x),
        None => Some(0),
    }
}

/// The flag under `key`; `false` where the member is missing.
pub open spec fn default_flag_at(v: ValueView, key: Seq<char>) -> Option<bool> {
    match v.member(key) {
        None => Some(false),
        Some(ValueView::Bool(b)) => Some(b),
        _ => None,
    }
}

/// The flag under `key`, which may be missing or `null`.
pub open spec fn optional_flag_at(v: ValueView, key: Seq<char>) -> Option<Option<bool>> {
    match v.member(key) {
        None => Some(None),
        Some(ValueView::Null) => Some(None),
        Some(ValueView::Bool(b)) => Some(Some(b)),
        _ => None,
    }
}

/// The texts that an array of strings holds.
pub open spec fn texts_of(v: ValueView) -> Option<Seq<Seq<char>>> {
    match v {
        ValueView::Array(items) => if forall|i: int|
            0 <= i < items.len() ==> #[trigger] items[i] is String {
            Some(Seq::new(items.len(), |i: int| items[i]->String_0))
        } else {
            None
        },
        _ => None,
    }
}

/// The texts under `key`.
pub open spec fn texts_at(v: ValueView, key: Seq<char>) -> Option<Seq<Seq<char>>> {
    match v.member(key) {
        Some(x) => texts_of(x),
        None => None,
    }
}

/// The texts under `key`; none where the member is missing.
pub open spec fn default_texts_at(v: ValueView, key: Seq<char>) -> Option<Seq<Seq<char>>> {
    match v.member(key) {
        Some(x) => texts_of(x),
        None => Some(Seq::empty()),
    }
}

/// Whether a value is a number, and a well-formed one.
pub open spec fn is_number(v: ValueView) -> bool {
    v is Number && v->Number_0.well_formed()
}

/// The numbers that an array of well-formed numbers holds.
pub open spec fn numbers_of(v: ValueView) -> Option<Seq<Number>> {
    match v {
        ValueView::Array(items) => if forall|i: int|
            0 <= i < items.len() ==> is_number(#[trigger] items[i]) {
            Some(Seq::new(items.len(), |i: int| items[i]->Number_0))
        } else {
            None
        },
        _ => None,
    }
}

/// Reads the text under `key`.
pub fn text(v: &Value, key: &str) -> (read: Option<String>)
    ensures
        match read {
            Some(s) => text_at(v@, key@) == Some(s@),
            None => text_at(v@, key@) is None,
        },
{
    match v.get(key) {
        Some(x) => match x.as_str() {
            Some(s) => Some(s.to_owned()),
            None => None,
        },
        None => None,
    }
}

/// Reads the text under `key`, which may be missing or `null`.
pub fn optional_text(v: &Value, key: &str) -> (read: Option<Option<String>>)
    ensures
        match read {
            Some(Some(s)) => optional_text_at(v@, key@) == Some(Some(s@)),
            Some(None) => optional_text_at(v@, key@) == Some(None::<Seq<char>>),
            None => optional_text_at(v@, key@) is None,
        },
{
    match v.get(key) {
        Some(Value::Null) => Some(None),
        Some(Value::String(s)) => Some(Some(s.clone())),
        Some(_) => None,
        None => Some(None),
    }
}

/// Reads a value as a count.
pub fn count(v: &Value) -> (read: Option<u32>)
    ensures
        read == count_of(v@),
{
    match v {
        Value::Number(Number::PosInt(n)) => if *n <= u32::MAX as u64 {
            Some(*n as u32)
        } else {
            None
        },
        _ => None,
    }
}

/// Reads the count under `key`.
pub fn count_under(v: &Value, key: &str) -> (read: Option<u32>)
    ensures
        read == count_at(v@, key@),
{
    match v.get(key) {
        Some(x) => count(x),
        None => None,
    }
}

/// Reads the count under `key`; 0 where the member is missing.
pub fn default_count(v: &Value, key: &str) -> (read: Option<u32>)
    ensures
        read == default_count_at(v@, key@),
{
    match v.get(key) {
        Some(x) => count(x),
        None => Some(0),
    }
}

/// Reads the flag under `key`; `false` where the member is missing.
pub fn default_flag(v: &Value, key: &str) -> (read: Option<bool>)
    ensures
        read == default_flag_at(v@, key@),
{
    match v.get(key) {
        Some(Value::Bool(b)) => Some(*b),
        Some(_) => None,
        None => Some(false),
    }
}

/// Reads the flag under `key`, which may be missing or `null`.
pub fn optional_flag(v: &Value, key: &str) -> (read: Option<Option<bool>>)
    ensures
        read == optional_flag_at(v@, key@),
{
    match v.get(key) {
        Some(Value::Null) => Some(None),
        Some(Value::Bool(b)) => Some(Some(*b)),
        Some(_) => None,
        None => Some(None),
    }
}

/// Reads an array of strings.
pub fn texts(v: &Value) -> (read: Option<Vec<String>>)
    ensures
        match read {
            Some(t) => texts_of(v@) == Some(views(t@)),
            None => texts_of(v@) is None,
        },
{
    match v.as_array() {
        Some(items) => {
            let mut out: Vec<String> = Vec::new();
            let mut i: usize = 0;
            while i < items.len()
                invariant
                    i <= items.len(),
                    out.len() == i,
                    v@ == ValueView::Array(items_view(items@)),
                    forall|k: int| 0 <= k < i ==> #[trigger] items_view(items@)[k] is String,
                    forall|k: int|
                        0 <= k < i ==> (#[trigger] out[k])@ == items_view(items@)[k]->String_0,
                decreases items.len() - i,
            {
                match items[i].as_str() {
                    Some(s) => {
                        out.push(s.to_owned());
                    },
                    None => {
                        assert(!(items_view(items@)[i as int] is String));
                        return None;
                    },
                }
                i = i + 1;
            }
            assert(views(out@) =~= texts_of(v@)->Some_0);
            Some(out)
        },
        None => None,
    }
}

/// Reads the texts under `key`.
pub fn texts_under(v: &Value, key: &str) -> (read: Option<Vec<String>>)
    ensures
        match read {
            Some(t) => texts_at(v@, key@) == Some(views(t@)),
            None => texts_at(v@, key@) is None,
        },
{
    match v.get(key) {
        Some(x) => texts(x),
        None => None,
    }
}

/// Reads the texts under `key`; none where the member is missing.
pub fn default_texts(v: &Value, key: &str) -> (read: Option<Vec<String>>)
    ensures
        match read {
            Some(t) => default_texts_at(v@, key@) == Some(views(t@)),
            None => default_texts_at(v@, key@) is None,
        },
{
    match v.get(key) {
        Some(x) => texts(x),
        None => {
            let none: Vec<String> = Vec::new();
            assert(views(none@) =~= Seq::<Seq<char>>::empty());
            Some(none)
        },
    }
}

/// Reads an array of well-formed numbers.
pub fn numbers(v: &Value) -> (read: Option<Vec<Number>>)
    ensures
        match read {
            Some(n) => numbers_of(v@) == Some(n@),
            None => numbers_of(v@) is None,
        },
{
    match v.as_array() {
        Some(items) => {
            let mut out: Vec<Number> = Vec::new();
            let mut i: usize = 0;
            while i < items.len()
                invariant
                    i <= items.len(),
                    out.len() == i,
                    v@ == ValueView::Array(items_view(items@)),
                    forall|k: int| 0 <= k < i ==> is_number(#[trigger] items_view(items@)[k]),
                    forall|k: int| 0 <= k < i ==> #[trigger] out[k] == items_view(items@)[k]->Number_0,
                decreases items.len() - i,
            {
                match &items[i] {
                    Value::Number(n) => {
                        if !n.is_well_formed() {
                            assert(!is_number(items_view(items@)[i as int]));
                            return None;
                        }
                        out.push(*n);
                    },
                    _ => {
                        assert(!is_number(items_view(items@)[i as int]));
                        return None;
                    },
                }
                i = i + 1;
            }
            assert(out@ =~= numbers_of(v@)->Some_0);
            Some(out)
        },
        None => None,
    }
}

/// A type that can be read from JSON.
pub trait Decode: Sized {
    /// Whether `v` can be read as a value of the type.
    spec fn shape(v: ValueView) -> bool;

    /// Whether `self` is what `v` reads as.
    spec fn reads(self, v: ValueView) -> bool;

    /// Reads `v`: as a value of the type exactly where it has the shape.
    fn decode(v: &Value) -> (read: Option<Self>)
        ensures
            read is Some <==> Self::shape(v@),
            read matches Some(r) ==> r.reads(v@),
    ;
}

/// Whether `v` is an array of which every item has the shape of a `T`.
pub open spec fn list_shape<T: Decode>(v: ValueView) -> bool {
    v matches ValueView::Array(items) && forall|i: int|
        0 <= i < items.len() ==> T::shape(#[trigger] items[i])
}

/// Whether `list` is what the array `v` reads as, item by item.
pub open spec fn list_reads<T: Decode>(list: Seq<T>, v: ValueView) -> bool {
    v matches ValueView::Array(items) && list.len() == items.len() && forall|i: int|
        0 <= i < items.len() ==> (#[trigger] list[i]).reads(items[i])
}

/// Whether a member that may be missing is missing or an array of which
/// every item has the shape of a `T`.
pub open spec fn default_list_shape<T: Decode>(member: Option<ValueView>) -> bool {
    match member {
        Some(v) => list_shape::<T>(v),
        None => true,
    }
}

/// Whether `list` is what a member that may be missing reads as: nothing
/// where it is missing.
pub open spec fn default_list_reads<T: Decode>(list: Seq<T>, member: Option<ValueView>) -> bool {
    match member {
        Some(v) => list_reads(list, v),
        None => list.len() == 0,
    }
}

/// Reads an array, item by item.
pub fn list<T: Decode>(v: &Value) -> (read: Option<Vec<T>>)
    ensures
        read is Some <==> list_shape::<T>(v@),
        read matches Some(items) ==> list_reads(items@, v@),
{
    match v.as_array() {
        Some(items) => {
            let mut out: Vec<T> = Vec::new();
            let mut i: usize = 0;
            while i < items.len()
                invariant
                    i <= items.len(),
                    out.len() == i,
                    v@ == ValueView::Array(items_view(items@)),
                    forall|k: int| 0 <= k < i ==> T::shape(#[trigger] items_view(items@)[k]),
                    forall|k: int| 0 <= k < i ==> (#[trigger] out[k]).reads(items_view(items@)[k]),
                decreases items.len() - i,
            {
                match T::decode(&items[i]) {
                    Some(item) => {
                        out.push(item);
                    },
                    None => {
                        assert(!T::shape(v@->Array_0[i as int]));
                        return None;
                    },
                }
                i = i + 1;
            }
            Some(out)
        },
        None => None,
    }
}

/// Reads the array under `key`; nothing where the member is missing.
pub fn default_list<T: Decode>(v: &Value, key: &str) -> (read: Option<Vec<T>>)
    ensures
        read is Some <==> default_list_shape::<T>(v@.member(key@)),
        read matches Some(items) ==> default_list_reads(items@, v@.member(key@)),
{
    match v.get(key) {
        Some(x) => list(x),
        None => Some(Vec::new()),
    }
}

/// A vector is read from an array of well-formed numbers.
impl Decode for Vec<Number> {
    open spec fn shape(v: ValueView) -> bool {
        numbers_of(v) is Some
    }

    open spec fn reads(self, v: ValueView) -> bool {
        numbers_of(v) == Some(self@)
    }

    fn decode(v: &Value) -> (read: Option<Self>) {
        numbers(v)
    }
}

} // verus!
