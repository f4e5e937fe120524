//! The untyped structured value that operations take and give, and the typed
//! views of it that call sites use.

use vstd::prelude::*;
use crate::lookup::{find_key, first_index, keys};

verus! {

/// An untyped structured value: what an operation is called with and what it
/// answers.
#[derive(Debug, PartialEq, Eq)]
pub enum Payload {
    /// The absent value.
    Null,
    /// A truth value.
    Bool(bool),
    /// A number that is a non-negative integer.
    Number(u64),
    /// A number that is a negative integer.
    Negative(i64),
    /// Any other number, kept as the bit pattern of its binary64 form.
    Real(u64),
    /// A text.
    Text(String),
    /// An ordered list of values.
    List(Vec<Payload>),
    /// An ordered list of named values. A name stands for the first value
    /// that carries it.
    Record(Vec<(String, Payload)>),
}

/// The mathematical value of a [`Payload`].
pub enum Json {
    Null,
    Bool(bool),
    Number(u64),
    Negative(i64),
    Real(u64),
    Text(Seq<char>),
    List(Seq<Json>),
    Record(Seq<(Seq<char>, Json)>),
}

/// The mathematical value of `payload`.
pub open spec fn model(payload: Payload) -> Json
    decreases payload,
{
    match payload {
        Payload::Null => Json::Null,
        Payload::Bool(flag) => Json::Bool(flag),
        Payload::Number(number) => Json::Number(number),
        Payload::Negative(number) => Json::Negative(number),
        Payload::Real(bits) => Json::Real(bits),
        Payload::Text(text) => Json::Text(text@),
        Payload::List(items) => Json::List(
            Seq::new(
                items@.len(),
                |index: int|
                    if 0 <= index < items@.len() {
                        model(items@[index])
                    } else {
                        Json::Null
                    },
            ),
        ),
        Payload::Record(fields) => Json::Record(
            Seq::new(
                fields@.len(),
                |index: int|
                    if 0 <= index < fields@.len() {
                        (fields@[index].0@, model(fields@[index].1))
                    } else {
                        (Seq::empty(), Json::Null)
                    },
            ),
        ),
    }
}

impl View for Payload {
    type V = Json;

    open spec fn view(&self) -> Json {
        model(*self)
    }
}

/// What a list payload stands for, item by item.
pub proof fn lemma_list_model(items: Vec<Payload>)
    ensures
        Payload::List(items)@ is List,
        Payload::List(items)@->List_0.len() == items@.len(),
        forall|index: int|
            0 <= index < items@.len() ==> (#[trigger] Payload::List(items)@->List_0[index])
                == items@[index]@,
{
}

/// What a record payload stands for, field by field.
pub proof fn lemma_record_model(fields: Vec<(String, Payload)>)
    ensures
        Payload::Record(fields)@ is Record,
        Payload::Record(fields)@->Record_0.len() == fields@.len(),
        forall|index: int|
            0 <= index < fields@.len() ==> (#[trigger] Payload::Record(fields)@->Record_0[index])
                == (fields@[index].0@, fields@[index].1@),
{
}

/// The mathematical value of a payload that may be missing.
pub open spec fn view_of(payload: Option<&Payload>) -> Option<Json> {
    match payload {
        Some(value) => Some(value@),
        None => None,
    }
}

/// The names of a record's fields, in order.
pub open spec fn field_names(fields: Seq<(Seq<char>, Json)>) -> Seq<Seq<char>> {
    Seq::new(fields.len(), |index: int| fields[index].0)
}

impl Json {
    /// The value of the first field named `name`, where `self` is a record
    /// that has one.
    pub open spec fn field(self, name: Seq<char>) -> Option<Json> {
        match self {
            Json::Record(fields) => match first_index(field_names(fields), name) {
                Some(index) => Some(fields[index].1),
                None => None,
            },
            _ => None,
        }
    }
}

impl Payload {
    /// Looks a field up by name. Only a record has fields.
    pub fn field(&self, name: &str) -> (found: Option<&Payload>)
        ensures
            match found {
                Some(value) => self@.field(name@) == Some(value@),
                None => self@.field(name@) is None,
            },
    {
        match self {
            Payload::Record(fields) => {
                assert(keys(fields@) =~= field_names(self@->Record_0));
                match find_key(fields, name) {
                    Some(index) => Some(&fields[index].1),
                    None => None,
                }
            },
            _ => None,
        }
    }
}

/// A type whose values can be written as a [`Payload`].
pub trait ToPayload {
    /// The payload that stands for `self`.
    spec fn encoding(&self) -> Json;

    /// Writes `self` as a payload.
    fn to_payload(&self) -> (payload: Payload)
        ensures
            payload@ == self.encoding(),
    ;
}

/// A type whose values can be read from a [`Payload`] of the right shape.
pub trait FromPayload: Sized + View {
    /// The value that `json` stands for, or `None` where `json` has not the
    /// shape of one.
    spec fn decoding(json: Json) -> Option<Self::V>;

    /// Reads a value. A payload of another shape gives `None`, never a
    /// default value.
    fn from_payload(payload: &Payload) -> (value: Option<Self>)
        ensures
            value is Some <==> Self::decoding(payload@) is Some,
            value is Some ==> value.unwrap()@ == Self::decoding(payload@).unwrap(),
    ;
}

impl ToPayload for bool {
    open spec fn encoding(&self) -> Json {
        Json::Bool(*self)
    }

    fn to_payload(&self) -> (payload: Payload) {
        Payload::Bool(*self)
    }
}

impl FromPayload for bool {
    open spec fn decoding(json: Json) -> Option<bool> {
        match json {
            Json::Bool(flag) => Some(flag),
            _ => None,
        }
    }

    fn from_payload(payload: &Payload) -> (value: Option<bool>) {
        match payload {
            Payload::Bool(flag) => Some(*flag),
            _ => None,
        }
    }
}

impl ToPayload for usize {
    open spec fn encoding(&self) -> Json {
        Json::Number(*self as u64)
    }

    fn to_payload(&self) -> (payload: Payload) {
        Payload::Number(*self as u64)
    }
}

impl FromPayload for usize {
    open spec fn decoding(json: Json) -> Option<usize> {
        match json {
            Json::Number(number) => if number <= usize::MAX {
                Some(number as usize)
            } else {
                None
            },
            _ => None,
        }
    }

    fn from_payload(payload: &Payload) -> (value: Option<usize>) {
        match payload {
            Payload::Number(number) => if *number <= usize::MAX as u64 {
                Some(*number as usize)
            } else {
                None
            },
            _ => None,
        }
    }
}

impl ToPayload for String {
    open spec fn encoding(&self) -> Json {
        Json::Text(self@)
    }

    fn to_payload(&self) -> (payload: Payload) {
        Payload::Text(self.clone())
    }
}

impl FromPayload for String {
    open spec fn decoding(json: Json) -> Option<Seq<char>> {
        match json {
            Json::Text(text) => Some(text),
            _ => None,
        }
    }

    fn from_payload(payload: &Payload) -> (value: Option<String>) {
        match payload {
            Payload::Text(text) => Some(text.clone()),
            _ => None,
        }
    }
}

/// A truth value, a count and a text are each read back from their own
/// payload unchanged.
pub proof fn lemma_plain_values_round_trip(flag: bool, count: usize, text: String)
    ensures
        <bool as FromPayload>::decoding(flag.encoding()) == Some(flag),
        <usize as FromPayload>::decoding(count.encoding()) == Some(count),
        <String as FromPayload>::decoding(text.encoding()) == Some(text@),
{
}

/// The mathematical values of a sequence of values.
pub open spec fn views<T: View>(values: Seq<T>) -> Seq<T::V> {
    Seq::new(values.len(), |index: int| values[index]@)
}

/// Every item of `items` stands for a `T`.
pub open spec fn all_decode<T: FromPayload>(items: Seq<Json>) -> bool {
    forall|index: int| 0 <= index < items.len() ==> (#[trigger] T::decoding(items[index])) is Some
}

/// The values that a list payload stands for, item by item and in order,
/// or `None` where the payload is no list or one of its items stands for
/// no `T`.
pub open spec fn decode_list<T: FromPayload>(json: Json) -> Option<Seq<T::V>> {
    match json {
        Json::List(items) => if all_decode::<T>(items) {
            Some(Seq::new(items.len(), |index: int| T::decoding(items[index]).unwrap()))
        } else {
            None
        },
        _ => None,
    }
}

/// Reads a list of values. One item of another shape makes the whole list
/// unreadable: no item is passed over.
pub fn read_list<T: FromPayload>(payload: &Payload) -> (values: Option<Vec<T>>)
    ensures
        values is Some <==> decode_list::<T>(payload@) is Some,
        values is Some ==> views(values.unwrap()@) == decode_list::<T>(payload@).unwrap(),
{
    match payload {
        Payload::List(items) => {
            proof {
                lemma_list_model(*items);
            }
            let ghost written = payload@->List_0;
            let mut read: Vec<T> = Vec::new();
            let mut index: usize = 0;
            while index < items.len()
                invariant
                    index <= items.len(),
                    payload@ == Json::List(written),
                    written.len() == items@.len(),
                    forall|place: int| 0 <= place < items@.len() ==> written[place] == items@[place]@,
                    read@.len() == index,
                    forall|earlier: int|
                        0 <= earlier < index ==> (#[trigger] T::decoding(written[earlier])) == Some(
                            read@[earlier]@,
                        ),
                decreases items.len() - index,
            {
                match T::from_payload(&items[index]) {
                    Some(value) => {
                        read.push(value);
                    },
                    None => {
                        assert(T::decoding(written[index as int]) is None);
                        return None;
                    },
                }
                index += 1;
            }
            assert(all_decode::<T>(written));
            assert(views(read@) =~= decode_list::<T>(payload@).unwrap());
            Some(read)
        },
        _ => None,
    }
}

} // verus!
