//! The envelope of a reply: the names of the columns and the item arrays.

use vstd::prelude::*;
use crate::collect::{lemma_try_map_prefix_failure, lemma_try_map_step, try_map};
use crate::text::text_views;
use crate::value::{clone_values, value_views, Json, WireValue};

verus! {

/// The table that a reply holds.
///
/// An item array may be shorter than `fields`: trailing values may be left out.
#[derive(Debug, PartialEq, Eq)]
pub struct WireEnvelope {
    pub fields: Vec<String>,
    pub items: Vec<Vec<WireValue>>,
}

/// The mathematical value of a `WireEnvelope`.
pub struct WireEnvelopeView {
    pub fields: Seq<Seq<char>>,
    pub items: Seq<Seq<Json>>,
}

/// The values of a sequence of item arrays.
pub open spec fn item_views(items: Seq<Vec<WireValue>>) -> Seq<Seq<Json>> {
    items.map_values(|item: Vec<WireValue>| value_views(item@))
}

impl View for WireEnvelope {
    type V = WireEnvelopeView;

    open spec fn view(&self) -> WireEnvelopeView {
        WireEnvelopeView { fields: text_views(self.fields@), items: item_views(self.items@) }
    }
}

/// Reads a value as a text.
pub open spec fn as_text() -> spec_fn(Json) -> Result<Seq<char>, ()> {
    |v: Json|
        match v {
            Json::Text(t) => Ok(t),
            _ => Err(()),
        }
}

/// Reads a value as an array.
pub open spec fn as_array() -> spec_fn(Json) -> Result<Seq<Json>, ()> {
    |v: Json|
        match v {
            Json::Array(items) => Ok(items),
            _ => Err(()),
        }
}

/// The envelope that a payload holds: under `data`, an array `fields` of
/// texts and an array `items` of arrays. A payload of another shape holds none.
pub open spec fn envelope_of(payload: Json) -> Option<WireEnvelopeView> {
    match payload.get("data"@) {
        None => None,
        Some(data) => match (data.get("fields"@), data.get("items"@)) {
            (Some(Json::Array(names)), Some(Json::Array(items))) => match (
                try_map(names, as_text()),
                try_map(items, as_array()),
            ) {
                (Ok(fields), Ok(items)) => Some(WireEnvelopeView { fields, items }),
                _ => None,
            },
            _ => None,
        },
    }
}

/// Copies an array of texts; `None` where an element is no text.
fn read_names(names: &Vec<WireValue>) -> (read: Option<Vec<String>>)
    ensures
        match read {
            Some(texts) => try_map(value_views(names@), as_text()) == Ok::<Seq<Seq<char>>, ()>(text_views(texts@)),
            None => try_map(value_views(names@), as_text()) is Err,
        },
{
    let ghost all = value_views(names@);
    let mut texts: Vec<String> = Vec::new();
    let mut i: usize = 0;
    assert(all.take(0) =~= Seq::<Json>::empty());
    assert(text_views(texts@) =~= Seq::<Seq<char>>::empty());
    while i < names.len()
        invariant
            i <= names.len(),
            all == value_views(names@),
            try_map(all.take(i as int), as_text()) == Ok::<Seq<Seq<char>>, ()>(text_views(texts@)),
        decreases names.len() - i,
    {
        proof {
            lemma_try_map_step(all, as_text(), i as int);
        }
        match names[i].as_text() {
            Some(t) => {
                let ghost before = text_views(texts@);
                texts.push(t.clone());
                assert(text_views(texts@) =~= before.push(t@));
            },
            None => {
                proof {
                    lemma_try_map_prefix_failure(all, as_text(), i + 1);
                }
                return None;
            },
        }
        i += 1;
    }
    assert(all.take(names.len() as int) =~= all);
    Some(texts)
}

/// Copies an array of arrays; `None` where an element is no array.
fn read_items(items: &Vec<WireValue>) -> (read: Option<Vec<Vec<WireValue>>>)
    ensures
        match read {
            Some(rows) => try_map(value_views(items@), as_array()) == Ok::<Seq<Seq<Json>>, ()>(item_views(rows@)),
            None => try_map(value_views(items@), as_array()) is Err,
        },
{
    let ghost all = value_views(items@);
    let mut rows: Vec<Vec<WireValue>> = Vec::new();
    let mut i: usize = 0;
    assert(all.take(0) =~= Seq::<Json>::empty());
    assert(item_views(rows@) =~= Seq::<Seq<Json>>::empty());
    while i < items.len()
        invariant
            i <= items.len(),
            all == value_views(items@),
            try_map(all.take(i as int), as_array()) == Ok::<Seq<Seq<Json>>, ()>(item_views(rows@)),
        decreases items.len() - i,
    {
        proof {
            lemma_try_map_step(all, as_array(), i as int);
        }
        match items[i].as_array() {
            Some(row) => {
                let ghost before = item_views(rows@);
                let copy = clone_values(row);
                rows.push(copy);
                assert(item_views(rows@) =~= before.push(value_views(row@)));
            },
            None => {
                proof {
                    lemma_try_map_prefix_failure(all, as_array(), i + 1);
                }
                return None;
            },
        }
        i += 1;
    }
    assert(all.take(items.len() as int) =~= all);
    Some(rows)
}

impl WireEnvelope {
    /// Reads the envelope out of the payload of a reply.
    pub fn from_payload(payload: &WireValue) -> (envelope: Option<WireEnvelope>)
        ensures
            match envelope {
                Some(e) => envelope_of(payload@) == Some(e@),
                None => envelope_of(payload@) is None,
            },
    {
        let data = match payload.get("data") {
            Some(d) => d,
            None => {
                return None;
            },
        };
        let names = match data.get("fields") {
            Some(v) => match v.as_array() {
                Some(a) => a,
                None => {
                    return None;
                },
            },
            None => {
                return None;
            },
        };
        let items = match data.get("items") {
            Some(v) => match v.as_array() {
                Some(a) => a,
                None => {
                    return None;
                },
            },
            None => {
                return None;
            },
        };
        let fields = match read_names(names) {
            Some(f) => f,
            None => {
                return None;
            },
        };
        let items = match read_items(items) {
            Some(rows) => rows,
            None => {
                return None;
            },
        };
        Some(WireEnvelope { fields, items })
    }
}

} // verus!
