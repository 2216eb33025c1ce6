//! Wire values: the JSON-like data that travels in requests and replies.

use vstd::prelude::*;

verus! {

/// A number as it appears on the wire.
///
/// A real number is held by the bit pattern of its IEEE 754 double, so that
/// it is carried through unchanged.
#[derive(Debug, PartialEq, Eq, Clone, Copy)]
pub enum WireNumber {
    /// A non-negative integer.
    Unsigned(u64),
    /// A negative integer.
    Negative(i64),
    /// A real number, by the bits of its double.
    Real(u64),
}

/// The mathematical value of a `WireValue`.
pub enum Json {
    Null,
    Bool(bool),
    Number(WireNumber),
    Text(Seq<char>),
    Array(Seq<Json>),
    Object(Seq<(Seq<char>, Json)>),
}

/// A value on the wire.
#[derive(Debug, PartialEq, Eq)]
pub enum WireValue {
    Null,
    Bool(bool),
    Number(WireNumber),
    Text(String),
    Array(Vec<WireValue>),
    /// The members of an object in the order in which they were written.
    Object(Vec<(String, WireValue)>),
}

/// The values of a sequence of wire values.
pub open spec fn value_views(items: Seq<WireValue>) -> Seq<Json>
    decreases items,
{
    Seq::new(items.len(), |i: int| if 0 <= i < items.len() { items[i]@ } else { Json::Null })
}

/// The values of the members of an object.
pub open spec fn member_views(members: Seq<(String, WireValue)>) -> Seq<(Seq<char>, Json)>
    decreases members,
{
    Seq::new(
        members.len(),
        |i: int| if 0 <= i < members.len() { (members[i].0@, members[i].1@) } else { (Seq::empty(), Json::Null) },
    )
}

impl View for WireValue {
    type V = Json;

    open spec fn view(&self) -> Json
        decreases self,
    {
        match self {
            WireValue::Null => Json::Null,
            WireValue::Bool(b) => Json::Bool(*b),
            WireValue::Number(n) => Json::Number(*n),
            WireValue::Text(s) => Json::Text(s@),
            WireValue::Array(items) => Json::Array(value_views(items@)),
            WireValue::Object(members) => Json::Object(member_views(members@)),
        }
    }
}

impl Clone for WireValue {
    fn clone(&self) -> (res: Self)
        ensures
            res@ == self@,
        decreases self,
    {
        match self {
            WireValue::Null => WireValue::Null,
            WireValue::Bool(b) => WireValue::Bool(*b),
            WireValue::Number(n) => WireValue::Number(*n),
            WireValue::Text(s) => WireValue::Text(s.clone()),
            WireValue::Array(items) => {
                WireValue::Array(clone_values(items))
            },
            WireValue::Object(members) => {
                WireValue::Object(clone_members(members))
            },
        }
    }
}

/// Copies a sequence of values.
pub fn clone_values(items: &Vec<WireValue>) -> (out: Vec<WireValue>)
    ensures
        value_views(out@) == value_views(items@),
    decreases items,
{
    let mut out: Vec<WireValue> = Vec::new();
    let mut i: usize = 0;
    while i < items.len()
        invariant
            i <= items.len(),
            out.len() == i,
            forall|k: int| 0 <= k < i ==> out@[k]@ == items@[k]@,
        decreases items.len() - i,
    {
        let item = items[i].clone();
        out.push(item);
        i += 1;
    }
    assert(value_views(out@) =~= value_views(items@));
    out
}

/// Copies the members of an object.
pub fn clone_members(members: &Vec<(String, WireValue)>) -> (out: Vec<(String, WireValue)>)
    ensures
        member_views(out@) == member_views(members@),
    decreases members,
{
    let mut out: Vec<(String, WireValue)> = Vec::new();
    let mut i: usize = 0;
    while i < members.len()
        invariant
            i <= members.len(),
            out.len() == i,
            forall|k: int| 0 <= k < i ==> out@[k].0@ == members@[k].0@ && out@[k].1@ == members@[k].1@,
        decreases members.len() - i,
    {
        let key = members[i].0.clone();
        let value = members[i].1.clone();
        out.push((key, value));
        i += 1;
    }
    assert(member_views(out@) =~= member_views(members@));
    out
}

/// The value that the members of an object hold under `key`: where a key is
/// written more than once, the last one counts.
pub open spec fn member_of(members: Seq<(Seq<char>, Json)>, key: Seq<char>) -> Option<Json>
    decreases members.len(),
{
    if members.len() == 0 {
        None
    } else if members.last().0 == key {
        Some(members.last().1)
    } else {
        member_of(members.drop_last(), key)
    }
}

impl Json {
    /// The member of an object under `key`; a value that is no object has none.
    pub open spec fn get(self, key: Seq<char>) -> Option<Json> {
        match self {
            Json::Object(members) => member_of(members, key),
            _ => None,
        }
    }
}

/// Looks up `key` among the members of an object.
pub fn find_member<'a>(members: &'a Vec<(String, WireValue)>, key: &str) -> (found: Option<&'a WireValue>)
    ensures
        match found {
            Some(v) => member_of(member_views(members@), key@) == Some(v@),
            None => member_of(member_views(members@), key@) is None,
        },
{
    let mut i: usize = members.len();
    assert(member_views(members@).take(i as int) =~= member_views(members@));
    while i > 0
        invariant
            i <= members.len(),
            member_of(member_views(members@), key@) == member_of(member_views(members@).take(i as int), key@),
        decreases i,
    {
        let ghost upto = member_views(members@).take(i as int);
        assert(upto.drop_last() =~= member_views(members@).take(i - 1));
        assert(upto.last() == (members@[i - 1].0@, members@[i - 1].1@));
        i -= 1;
        if crate::text::text_is(&members[i].0, key) {
            return Some(&members[i].1);
        }
    }
    None
}

impl WireValue {
    /// The member of an object under `key`.
    pub fn get<'a>(&'a self, key: &str) -> (found: Option<&'a WireValue>)
        ensures
            match found {
                Some(v) => self@.get(key@) == Some(v@),
                None => self@.get(key@) is None,
            },
    {
        match self {
            WireValue::Object(members) => find_member(members, key),
            _ => None,
        }
    }

    /// Whether the value is the null marker.
    pub fn is_null(&self) -> (b: bool)
        ensures
            b == (self@ is Null),
    {
        match self {
            WireValue::Null => true,
            _ => false,
        }
    }

    /// The elements of an array.
    pub fn as_array<'a>(&'a self) -> (items: Option<&'a Vec<WireValue>>)
        ensures
            match items {
                Some(v) => self@ == Json::Array(value_views(v@)),
                None => !(self@ is Array),
            },
    {
        match self {
            WireValue::Array(items) => Some(items),
            _ => None,
        }
    }

    /// The characters of a text.
    pub fn as_text<'a>(&'a self) -> (text: Option<&'a String>)
        ensures
            match text {
                Some(t) => self@ == Json::Text(t@),
                None => !(self@ is Text),
            },
    {
        match self {
            WireValue::Text(t) => Some(t),
            _ => None,
        }
    }
}

} // verus!
