//! The positional decoder: from item arrays to records.
//!
//! Each field is read at its declared position. What happens to a value that
//! is missing, null or of another type depends on the field's policy: a
//! required field fails, an optional field is absent on a missing or null
//! value, a defaulting field takes the default of its type in every such case.

use vstd::prelude::*;
use crate::collect::{lemma_try_map_failure, lemma_try_map_prefix_failure, lemma_try_map_step};
use crate::collect::{lemma_try_map_success, try_map};
use crate::descriptor::{field_views, DecodePolicy, FieldSpec, FieldSpecView, ResponseDescriptor, ValueType};
use crate::envelope::{item_views, WireEnvelope};
use crate::value::{value_views, Json, WireNumber, WireValue};

verus! {

/// The value of one field of a record.
#[derive(Debug, PartialEq, Eq)]
pub enum FieldValue {
    /// No value: the field is optional and the wire held none.
    Absent,
    Text(String),
    Bool(bool),
    Integer8(i8),
    Integer16(i16),
    Integer32(i32),
    Integer64(i64),
    Unsigned8(u8),
    Unsigned16(u16),
    Unsigned32(u32),
    Unsigned64(u64),
    /// A real number, as it came on the wire.
    Real(WireNumber),
    /// A value that was taken over as it is.
    Raw(WireValue),
}

/// The mathematical value of a `FieldValue`.
pub enum FieldValueView {
    Absent,
    Text(Seq<char>),
    Bool(bool),
    Integer8(i8),
    Integer16(i16),
    Integer32(i32),
    Integer64(i64),
    Unsigned8(u8),
    Unsigned16(u16),
    Unsigned32(u32),
    Unsigned64(u64),
    Real(WireNumber),
    Raw(Json),
}

impl View for FieldValue {
    type V = FieldValueView;

    open spec fn view(&self) -> FieldValueView {
        match self {
            FieldValue::Absent => FieldValueView::Absent,
            FieldValue::Text(t) => FieldValueView::Text(t@),
            FieldValue::Bool(b) => FieldValueView::Bool(*b),
            FieldValue::Integer8(n) => FieldValueView::Integer8(*n),
            FieldValue::Integer16(n) => FieldValueView::Integer16(*n),
            FieldValue::Integer32(n) => FieldValueView::Integer32(*n),
            FieldValue::Integer64(n) => FieldValueView::Integer64(*n),
            FieldValue::Unsigned8(n) => FieldValueView::Unsigned8(*n),
            FieldValue::Unsigned16(n) => FieldValueView::Unsigned16(*n),
            FieldValue::Unsigned32(n) => FieldValueView::Unsigned32(*n),
            FieldValue::Unsigned64(n) => FieldValueView::Unsigned64(*n),
            FieldValue::Real(n) => FieldValueView::Real(*n),
            FieldValue::Raw(v) => FieldValueView::Raw(v@),
        }
    }
}

/// Why an item array gives no record.
#[derive(Debug, PartialEq, Eq)]
pub enum DecodeError {
    /// The item array ends before the position of a required field.
    FieldIndexOutOfBounds { field: String, index: usize },
    /// The item array holds null at the position of a required field.
    NullRequiredField { field: String, index: usize },
    /// The value of a required or optional field is not of the field's type.
    FieldTypeMismatch { field: String, index: usize },
}

/// The mathematical value of a `DecodeError`.
pub enum DecodeErrorView {
    FieldIndexOutOfBounds { field: Seq<char>, index: usize },
    NullRequiredField { field: Seq<char>, index: usize },
    FieldTypeMismatch { field: Seq<char>, index: usize },
}

impl View for DecodeError {
    type V = DecodeErrorView;

    open spec fn view(&self) -> DecodeErrorView {
        match self {
            DecodeError::FieldIndexOutOfBounds { field, index } => DecodeErrorView::FieldIndexOutOfBounds {
                field: field@,
                index: *index,
            },
            DecodeError::NullRequiredField { field, index } => DecodeErrorView::NullRequiredField {
                field: field@,
                index: *index,
            },
            DecodeError::FieldTypeMismatch { field, index } => DecodeErrorView::FieldTypeMismatch {
                field: field@,
                index: *index,
            },
        }
    }
}

/// A record: the values of the fields of a descriptor, by name, in declared order.
#[derive(Debug, PartialEq, Eq)]
pub struct ResponseRecord {
    pub values: Vec<(String, FieldValue)>,
}

/// The mathematical value of a record.
pub type RecordView = Seq<(Seq<char>, FieldValueView)>;

/// The values of the fields of a record.
pub open spec fn named_value_views(values: Seq<(String, FieldValue)>) -> RecordView {
    values.map_values(|v: (String, FieldValue)| (v.0@, v.1@))
}

impl View for ResponseRecord {
    type V = RecordView;

    open spec fn view(&self) -> RecordView {
        named_value_views(self.values@)
    }
}

/// The values of a sequence of records.
pub open spec fn record_views(records: Seq<ResponseRecord>) -> Seq<RecordView> {
    records.map_values(|r: ResponseRecord| r@)
}

/// The default of a value type: the empty text, false, zero, or null.
pub open spec fn default_of(t: ValueType) -> FieldValueView {
    match t {
        ValueType::Text => FieldValueView::Text(Seq::empty()),
        ValueType::Bool => FieldValueView::Bool(false),
        ValueType::Integer8 => FieldValueView::Integer8(0),
        ValueType::Integer16 => FieldValueView::Integer16(0),
        ValueType::Integer32 => FieldValueView::Integer32(0),
        ValueType::Integer64 => FieldValueView::Integer64(0),
        ValueType::Unsigned8 => FieldValueView::Unsigned8(0),
        ValueType::Unsigned16 => FieldValueView::Unsigned16(0),
        ValueType::Unsigned32 => FieldValueView::Unsigned32(0),
        ValueType::Unsigned64 => FieldValueView::Unsigned64(0),
        ValueType::Real => FieldValueView::Real(WireNumber::Real(0)),
        ValueType::Raw => FieldValueView::Raw(Json::Null),
    }
}

/// The integer that a wire value is, if it is one from `min` to `max`.
pub open spec fn integer_within(raw: Json, min: int, max: int) -> Option<int> {
    match raw {
        Json::Number(WireNumber::Unsigned(u)) => if min <= u <= max {
            Some(u as int)
        } else {
            None
        },
        Json::Number(WireNumber::Negative(n)) => if min <= n <= max {
            Some(n as int)
        } else {
            None
        },
        _ => None,
    }
}

/// The value of type `t` that a wire value stands for, if it stands for one.
///
/// A text field takes a text and a truth field a truth value. An integer
/// field takes an integer that is in the range of its type. A real field
/// takes any number. A raw field takes any value.
pub open spec fn converted(t: ValueType, raw: Json) -> Option<FieldValueView> {
    match t {
        ValueType::Text => match raw {
            Json::Text(s) => Some(FieldValueView::Text(s)),
            _ => None,
        },
        ValueType::Bool => match raw {
            Json::Bool(b) => Some(FieldValueView::Bool(b)),
            _ => None,
        },
        ValueType::Integer8 => match integer_within(raw, i8::MIN as int, i8::MAX as int) {
            Some(v) => Some(FieldValueView::Integer8(v as i8)),
            None => None,
        },
        ValueType::Integer16 => match integer_within(raw, i16::MIN as int, i16::MAX as int) {
            Some(v) => Some(FieldValueView::Integer16(v as i16)),
            None => None,
        },
        ValueType::Integer32 => match integer_within(raw, i32::MIN as int, i32::MAX as int) {
            Some(v) => Some(FieldValueView::Integer32(v as i32)),
            None => None,
        },
        ValueType::Integer64 => match integer_within(raw, i64::MIN as int, i64::MAX as int) {
            Some(v) => Some(FieldValueView::Integer64(v as i64)),
            None => None,
        },
        ValueType::Unsigned8 => match integer_within(raw, 0, u8::MAX as int) {
            Some(v) => Some(FieldValueView::Unsigned8(v as u8)),
            None => None,
        },
        ValueType::Unsigned16 => match integer_within(raw, 0, u16::MAX as int) {
            Some(v) => Some(FieldValueView::Unsigned16(v as u16)),
            None => None,
        },
        ValueType::Unsigned32 => match integer_within(raw, 0, u32::MAX as int) {
            Some(v) => Some(FieldValueView::Unsigned32(v as u32)),
            None => None,
        },
        ValueType::Unsigned64 => match integer_within(raw, 0, u64::MAX as int) {
            Some(v) => Some(FieldValueView::Unsigned64(v as u64)),
            None => None,
        },
        ValueType::Real => match raw {
            Json::Number(n) => Some(FieldValueView::Real(n)),
            _ => None,
        },
        ValueType::Raw => Some(FieldValueView::Raw(raw)),
    }
}

/// What a field makes of a position that holds nothing: out of the item
/// array (`missing`) or null.
pub open spec fn on_nothing(field: FieldSpecView, missing: bool) -> Result<FieldValueView, DecodeErrorView> {
    match field.decode_policy {
        DecodePolicy::Required => if missing {
            Err(DecodeErrorView::FieldIndexOutOfBounds { field: field.name, index: field.wire_index })
        } else {
            Err(DecodeErrorView::NullRequiredField { field: field.name, index: field.wire_index })
        },
        DecodePolicy::Optional => Ok(FieldValueView::Absent),
        DecodePolicy::DefaultOnNull => Ok(default_of(field.value_type)),
    }
}

/// The value of one field of the record of an item array.
pub open spec fn decoded_field(field: FieldSpecView, item: Seq<Json>) -> Result<FieldValueView, DecodeErrorView> {
    if field.wire_index >= item.len() {
        on_nothing(field, true)
    } else if item[field.wire_index as int] is Null {
        on_nothing(field, false)
    } else {
        match converted(field.value_type, item[field.wire_index as int]) {
            Some(value) => Ok(value),
            None => match field.decode_policy {
                DecodePolicy::DefaultOnNull => Ok(default_of(field.value_type)),
                _ => Err(DecodeErrorView::FieldTypeMismatch { field: field.name, index: field.wire_index }),
            },
        }
    }
}

/// `decoded_field`, with the name of the field, as a function on fields.
pub open spec fn field_decoder(item: Seq<Json>) -> spec_fn(FieldSpecView) -> Result<
    (Seq<char>, FieldValueView),
    DecodeErrorView,
> {
    |field: FieldSpecView|
        match decoded_field(field, item) {
            Ok(value) => Ok((field.name, value)),
            Err(e) => Err(e),
        }
}

/// The record of one item array: the fields in declared order, or the
/// failure of the first field that fails.
pub open spec fn decoded_item(fields: Seq<FieldSpecView>, item: Seq<Json>) -> Result<RecordView, DecodeErrorView> {
    try_map(fields, field_decoder(item))
}

/// `decoded_item`, as a function on item arrays.
pub open spec fn item_decoder(fields: Seq<FieldSpecView>) -> spec_fn(Seq<Json>) -> Result<
    RecordView,
    DecodeErrorView,
> {
    |item: Seq<Json>| decoded_item(fields, item)
}

/// The records of a batch of item arrays, one per item and in their order,
/// or the failure of the first item that fails.
pub open spec fn decoded_items(fields: Seq<FieldSpecView>, items: Seq<Seq<Json>>) -> Result<
    Seq<RecordView>,
    DecodeErrorView,
> {
    try_map(items, item_decoder(fields))
}

/// The default of a value type.
pub fn default_value(t: ValueType) -> (value: FieldValue)
    ensures
        value@ == default_of(t),
{
    match t {
        ValueType::Text => FieldValue::Text(String::new()),
        ValueType::Bool => FieldValue::Bool(false),
        ValueType::Integer8 => FieldValue::Integer8(0),
        ValueType::Integer16 => FieldValue::Integer16(0),
        ValueType::Integer32 => FieldValue::Integer32(0),
        ValueType::Integer64 => FieldValue::Integer64(0),
        ValueType::Unsigned8 => FieldValue::Unsigned8(0),
        ValueType::Unsigned16 => FieldValue::Unsigned16(0),
        ValueType::Unsigned32 => FieldValue::Unsigned32(0),
        ValueType::Unsigned64 => FieldValue::Unsigned64(0),
        ValueType::Real => FieldValue::Real(WireNumber::Real(0)),
        ValueType::Raw => FieldValue::Raw(WireValue::Null),
    }
}

/// The integer that a wire value is, if it is one from `min` to `max`.
fn integer_in_range(raw: &WireValue, min: i128, max: i128) -> (found: Option<i128>)
    ensures
        match found {
            Some(v) => integer_within(raw@, min as int, max as int) == Some(v as int),
            None => integer_within(raw@, min as int, max as int) is None,
        },
{
    let value: i128 = match raw {
        WireValue::Number(WireNumber::Unsigned(u)) => *u as i128,
        WireValue::Number(WireNumber::Negative(n)) => *n as i128,
        _ => {
            return None;
        },
    };
    if min <= value && value <= max {
        Some(value)
    } else {
        None
    }
}

/// Converts a wire value to the type `t`; `None` where it is of another type.
pub fn convert(t: ValueType, raw: &WireValue) -> (value: Option<FieldValue>)
    ensures
        match value {
            Some(v) => converted(t, raw@) == Some(v@),
            None => converted(t, raw@) is None,
        },
{
    match t {
        ValueType::Text => match raw {
            WireValue::Text(s) => Some(FieldValue::Text(s.clone())),
            _ => None,
        },
        ValueType::Bool => match raw {
            WireValue::Bool(b) => Some(FieldValue::Bool(*b)),
            _ => None,
        },
        ValueType::Integer8 => match integer_in_range(raw, -0x80, 0x7f) {
            Some(v) => Some(FieldValue::Integer8(v as i8)),
            None => None,
        },
        ValueType::Integer16 => match integer_in_range(raw, -0x8000, 0x7fff) {
            Some(v) => Some(FieldValue::Integer16(v as i16)),
            None => None,
        },
        ValueType::Integer32 => match integer_in_range(raw, -0x8000_0000, 0x7fff_ffff) {
            Some(v) => Some(FieldValue::Integer32(v as i32)),
            None => None,
        },
        ValueType::Integer64 => match integer_in_range(raw, -0x8000_0000_0000_0000, 0x7fff_ffff_ffff_ffff) {
            Some(v) => Some(FieldValue::Integer64(v as i64)),
            None => None,
        },
        ValueType::Unsigned8 => match integer_in_range(raw, 0, 0xff) {
            Some(v) => Some(FieldValue::Unsigned8(v as u8)),
            None => None,
        },
        ValueType::Unsigned16 => match integer_in_range(raw, 0, 0xffff) {
            Some(v) => Some(FieldValue::Unsigned16(v as u16)),
            None => None,
        },
        ValueType::Unsigned32 => match integer_in_range(raw, 0, 0xffff_ffff) {
            Some(v) => Some(FieldValue::Unsigned32(v as u32)),
            None => None,
        },
        ValueType::Unsigned64 => match integer_in_range(raw, 0, 0xffff_ffff_ffff_ffff) {
            Some(v) => Some(FieldValue::Unsigned64(v as u64)),
            None => None,
        },
        ValueType::Real => match raw {
            WireValue::Number(n) => Some(FieldValue::Real(*n)),
            _ => None,
        },
        ValueType::Raw => Some(FieldValue::Raw(raw.clone())),
    }
}

/// What a field makes of a position that holds nothing.
fn decode_nothing(field: &FieldSpec, missing: bool) -> (decoded: Result<FieldValue, DecodeError>)
    ensures
        match decoded {
            Ok(v) => on_nothing(field@, missing) == Ok::<FieldValueView, DecodeErrorView>(v@),
            Err(e) => on_nothing(field@, missing) == Err::<FieldValueView, DecodeErrorView>(e@),
        },
{
    match field.decode_policy {
        DecodePolicy::Required => {
            if missing {
                Err(DecodeError::FieldIndexOutOfBounds { field: field.name.clone(), index: field.wire_index })
            } else {
                Err(DecodeError::NullRequiredField { field: field.name.clone(), index: field.wire_index })
            }
        },
        DecodePolicy::Optional => Ok(FieldValue::Absent),
        DecodePolicy::DefaultOnNull => Ok(default_value(field.value_type)),
    }
}

/// Decodes one field of the record of an item array.
pub fn decode_field(field: &FieldSpec, item: &Vec<WireValue>) -> (decoded: Result<FieldValue, DecodeError>)
    ensures
        match decoded {
            Ok(v) => decoded_field(field@, value_views(item@)) == Ok::<FieldValueView, DecodeErrorView>(v@),
            Err(e) => decoded_field(field@, value_views(item@)) == Err::<FieldValueView, DecodeErrorView>(e@),
        },
{
    if field.wire_index >= item.len() {
        return decode_nothing(field, true);
    }
    let raw = &item[field.wire_index];
    if raw.is_null() {
        return decode_nothing(field, false);
    }
    match convert(field.value_type, raw) {
        Some(value) => Ok(value),
        None => match field.decode_policy {
            DecodePolicy::DefaultOnNull => Ok(default_value(field.value_type)),
            _ => Err(DecodeError::FieldTypeMismatch { field: field.name.clone(), index: field.wire_index }),
        },
    }
}

/// Decodes one item array into a record.
pub fn decode_item(fields: &Vec<FieldSpec>, item: &Vec<WireValue>) -> (decoded: Result<ResponseRecord, DecodeError>)
    ensures
        match decoded {
            Ok(record) => decoded_item(field_views(fields@), value_views(item@)) == Ok::<
                RecordView,
                DecodeErrorView,
            >(record@),
            Err(e) => decoded_item(field_views(fields@), value_views(item@)) == Err::<
                RecordView,
                DecodeErrorView,
            >(e@),
        },
        decoded matches Ok(record) ==> record.values.len() == fields.len(),
{
    let ghost specs = field_views(fields@);
    let ghost decoder = field_decoder(value_views(item@));
    let mut values: Vec<(String, FieldValue)> = Vec::new();
    let mut i: usize = 0;
    assert(specs.take(0) =~= Seq::<FieldSpecView>::empty());
    assert(named_value_views(values@) =~= Seq::<(Seq<char>, FieldValueView)>::empty());
    while i < fields.len()
        invariant
            i <= fields.len(),
            specs == field_views(fields@),
            decoder == field_decoder(value_views(item@)),
            try_map(specs.take(i as int), decoder) == Ok::<RecordView, DecodeErrorView>(named_value_views(values@)),
        decreases fields.len() - i,
    {
        proof {
            lemma_try_map_step(specs, decoder, i as int);
        }
        match decode_field(&fields[i], item) {
            Ok(value) => {
                let ghost before = named_value_views(values@);
                let name = fields[i].name.clone();
                values.push((name, value));
                assert(named_value_views(values@) =~= before.push((name@, value@)));
            },
            Err(e) => {
                proof {
                    lemma_try_map_prefix_failure(specs, decoder, i + 1);
                }
                return Err(e);
            },
        }
        i += 1;
    }
    assert(specs.take(fields.len() as int) =~= specs);
    proof {
        lemma_try_map_success(specs, decoder);
    }
    Ok(ResponseRecord { values })
}

/// Decodes the items of an envelope into records: one record per item, in
/// the order of the items. The first item that fails makes the whole batch
/// fail, and no record is handed out.
pub fn decode(envelope: &WireEnvelope, descriptor: &ResponseDescriptor) -> (decoded: Result<
    Vec<ResponseRecord>,
    DecodeError,
>)
    ensures
        match decoded {
            Ok(records) => decoded_items(descriptor@.fields, envelope@.items) == Ok::<
                Seq<RecordView>,
                DecodeErrorView,
            >(record_views(records@)),
            Err(e) => decoded_items(descriptor@.fields, envelope@.items) == Err::<
                Seq<RecordView>,
                DecodeErrorView,
            >(e@),
        },
        decoded matches Ok(records) ==> records.len() == envelope.items.len(),
{
    let ghost items = item_views(envelope.items@);
    let ghost decoder = item_decoder(field_views(descriptor.fields@));
    let mut records: Vec<ResponseRecord> = Vec::new();
    let mut k: usize = 0;
    assert(items.take(0) =~= Seq::<Seq<Json>>::empty());
    assert(record_views(records@) =~= Seq::<RecordView>::empty());
    while k < envelope.items.len()
        invariant
            k <= envelope.items.len(),
            items == item_views(envelope.items@),
            decoder == item_decoder(field_views(descriptor.fields@)),
            try_map(items.take(k as int), decoder) == Ok::<Seq<RecordView>, DecodeErrorView>(record_views(records@)),
        decreases envelope.items.len() - k,
    {
        proof {
            lemma_try_map_step(items, decoder, k as int);
        }
        match decode_item(&descriptor.fields, &envelope.items[k]) {
            Ok(record) => {
                let ghost before = record_views(records@);
                records.push(record);
                assert(record_views(records@) =~= before.push(record@));
            },
            Err(e) => {
                proof {
                    lemma_try_map_prefix_failure(items, decoder, k + 1);
                }
                return Err(e);
            },
        }
        k += 1;
    }
    assert(items.take(envelope.items.len() as int) =~= items);
    proof {
        lemma_try_map_success(items, decoder);
    }
    Ok(records)
}

/// Whether a field finds nothing in an item array: its position is out of
/// the array, or holds null.
pub open spec fn reads_nothing(field: FieldSpecView, item: Seq<Json>) -> bool {
    field.wire_index >= item.len() || item[field.wire_index as int] is Null
}

/// Decoding succeeds on complete items. Where every item array reaches the
/// position of every field and holds at the position of every required
/// field a value that is not null, and where every value that is there for
/// a required or optional field is of the field's type, the batch decodes:
/// there is one record per item, the record at each place is that of the
/// item at the same place, and each record has the fields of the descriptor
/// in declared order.
pub proof fn lemma_complete_items_decode(fields: Seq<FieldSpecView>, items: Seq<Seq<Json>>)
    requires
        forall|k: int, i: int|
            0 <= k < items.len() && 0 <= i < fields.len() ==> (#[trigger] fields[i]).wire_index < (
            #[trigger] items[k]).len(),
        forall|k: int, i: int|
            0 <= k < items.len() && 0 <= i < fields.len() && (#[trigger] fields[i]).decode_policy is Required
                ==> !((#[trigger] items[k])[fields[i].wire_index as int] is Null),
        forall|k: int, i: int|
            0 <= k < items.len() && 0 <= i < fields.len() && !((#[trigger] fields[i]).decode_policy is DefaultOnNull)
                && !((#[trigger] items[k])[fields[i].wire_index as int] is Null) ==> converted(
                fields[i].value_type,
                items[k][fields[i].wire_index as int],
            ) is Some,
    ensures
        decoded_items(fields, items) is Ok,
        decoded_items(fields, items)->Ok_0.len() == items.len(),
        forall|k: int|
            0 <= k < items.len() ==> decoded_item(fields, #[trigger] items[k]) == Ok::<RecordView, DecodeErrorView>(
                decoded_items(fields, items)->Ok_0[k],
            ),
        forall|k: int|
            0 <= k < items.len() ==> (#[trigger] decoded_items(fields, items)->Ok_0[k]).len() == fields.len(),
        forall|k: int, i: int|
            0 <= k < items.len() && 0 <= i < fields.len() ==> (#[trigger] decoded_items(
                fields,
                items,
            )->Ok_0[k][i]).0 == fields[i].name,
{
    assert forall|k: int| 0 <= k < items.len() implies (#[trigger] item_decoder(fields)(items[k])) is Ok by {
        let item = items[k];
        assert forall|i: int| 0 <= i < fields.len() implies (#[trigger] field_decoder(item)(fields[i])) is Ok by {
            let field = fields[i];
            assert(field.wire_index < item.len());
            if item[field.wire_index as int] is Null {
                assert(!(field.decode_policy is Required));
            }
        }
        lemma_try_map_success(fields, field_decoder(item));
    }
    lemma_try_map_success(items, item_decoder(fields));
    let records = decoded_items(fields, items)->Ok_0;
    assert forall|k: int| 0 <= k < items.len() implies (#[trigger] records[k]).len() == fields.len() by {
        assert(item_decoder(fields)(items[k]) == Ok::<RecordView, DecodeErrorView>(records[k]));
        lemma_try_map_success(fields, field_decoder(items[k]));
    }
    assert forall|k: int, i: int| 0 <= k < items.len() && 0 <= i < fields.len() implies (#[trigger] records[k][i]).0
        == fields[i].name by {
        assert(item_decoder(fields)(items[k]) == Ok::<RecordView, DecodeErrorView>(records[k]));
        lemma_try_map_success(fields, field_decoder(items[k]));
        assert(field_decoder(items[k])(fields[i]) == Ok::<(Seq<char>, FieldValueView), DecodeErrorView>(
            records[k][i],
        ));
    }
}

/// An optional field that the item array does not reach is absent, and no failure.
pub proof fn lemma_optional_field_out_of_reach_is_absent(field: FieldSpecView, item: Seq<Json>)
    requires
        field.decode_policy is Optional,
        item.len() < field.wire_index + 1,
    ensures
        decoded_field(field, item) == Ok::<FieldValueView, DecodeErrorView>(FieldValueView::Absent),
{
}

/// A defaulting field whose position holds null takes the default of its
/// type, and is no failure.
pub proof fn lemma_defaulting_field_on_null_is_default(field: FieldSpecView, item: Seq<Json>)
    requires
        field.decode_policy is DefaultOnNull,
        field.wire_index < item.len(),
        item[field.wire_index as int] is Null,
    ensures
        decoded_field(field, item) == Ok::<FieldValueView, DecodeErrorView>(default_of(field.value_type)),
{
}

/// A defaulting field never fails.
pub proof fn lemma_defaulting_field_never_fails(field: FieldSpecView, item: Seq<Json>)
    requires
        field.decode_policy is DefaultOnNull,
    ensures
        decoded_field(field, item) is Ok,
{
}

/// A required field that finds nothing fails, and with it its item and the
/// whole batch: no record is handed out for any item of the batch.
pub proof fn lemma_required_field_on_nothing_fails_batch(
    fields: Seq<FieldSpecView>,
    items: Seq<Seq<Json>>,
    k: int,
    i: int,
)
    requires
        0 <= k < items.len(),
        0 <= i < fields.len(),
        fields[i].decode_policy is Required,
        reads_nothing(fields[i], items[k]),
    ensures
        decoded_field(fields[i], items[k]) is Err,
        decoded_item(fields, items[k]) is Err,
        decoded_items(fields, items) is Err,
{
    assert(field_decoder(items[k])(fields[i]) is Err);
    lemma_try_map_success(fields, field_decoder(items[k]));
    assert(item_decoder(fields)(items[k]) is Err);
    lemma_try_map_success(items, item_decoder(fields));
}

/// A batch that fails, fails as its first failing item does, and that item
/// as its first failing field does.
pub proof fn lemma_failure_is_first(fields: Seq<FieldSpecView>, items: Seq<Seq<Json>>) -> (at: (int, int))
    requires
        decoded_items(fields, items) is Err,
    ensures
        0 <= at.0 < items.len(),
        0 <= at.1 < fields.len(),
        forall|k: int| 0 <= k < at.0 ==> decoded_item(fields, #[trigger] items[k]) is Ok,
        forall|i: int| 0 <= i < at.1 ==> decoded_field(#[trigger] fields[i], items[at.0]) is Ok,
        decoded_field(fields[at.1], items[at.0]) is Err,
        decoded_field(fields[at.1], items[at.0])->Err_0 == decoded_items(fields, items)->Err_0,
{
    let k = lemma_try_map_failure(items, item_decoder(fields));
    assert forall|j: int| 0 <= j < k implies decoded_item(fields, #[trigger] items[j]) is Ok by {
        assert(item_decoder(fields)(items[j]) is Ok);
    }
    let i = lemma_try_map_failure(fields, field_decoder(items[k]));
    assert forall|j: int| 0 <= j < i implies decoded_field(#[trigger] fields[j], items[k]) is Ok by {
        assert(field_decoder(items[k])(fields[j]) is Ok);
    }
    (k, i)
}

/// Whether a value is one that a field can have: a value of the field's
/// type, or no value where the field is optional.
pub open spec fn value_fits(field: FieldSpecView, value: FieldValueView) -> bool {
    match value {
        FieldValueView::Absent => field.decode_policy is Optional,
        FieldValueView::Text(_) => field.value_type is Text,
        FieldValueView::Bool(_) => field.value_type is Bool,
        FieldValueView::Integer8(_) => field.value_type is Integer8,
        FieldValueView::Integer16(_) => field.value_type is Integer16,
        FieldValueView::Integer32(_) => field.value_type is Integer32,
        FieldValueView::Integer64(_) => field.value_type is Integer64,
        FieldValueView::Unsigned8(_) => field.value_type is Unsigned8,
        FieldValueView::Unsigned16(_) => field.value_type is Unsigned16,
        FieldValueView::Unsigned32(_) => field.value_type is Unsigned32,
        FieldValueView::Unsigned64(_) => field.value_type is Unsigned64,
        FieldValueView::Real(_) => field.value_type is Real,
        FieldValueView::Raw(_) => field.value_type is Raw,
    }
}

/// Whether a record has the fields of a descriptor: as many values, each
/// under the name of its field and fit for it.
pub open spec fn conforms(record: RecordView, fields: Seq<FieldSpecView>) -> bool {
    &&& record.len() == fields.len()
    &&& forall|i: int|
        0 <= i < fields.len() ==> (#[trigger] record[i]).0 == fields[i].name && value_fits(fields[i], record[i].1)
}

/// What a field decodes to is fit for the field.
pub proof fn lemma_decoded_field_fits(field: FieldSpecView, item: Seq<Json>)
    requires
        decoded_field(field, item) is Ok,
    ensures
        value_fits(field, decoded_field(field, item)->Ok_0),
{
}

/// The record that an item array decodes to has the fields of the descriptor.
pub proof fn lemma_decoded_item_conforms(fields: Seq<FieldSpecView>, item: Seq<Json>)
    requires
        decoded_item(fields, item) is Ok,
    ensures
        conforms(decoded_item(fields, item)->Ok_0, fields),
{
    let record = decoded_item(fields, item)->Ok_0;
    lemma_try_map_success(fields, field_decoder(item));
    assert forall|i: int| 0 <= i < fields.len() implies (#[trigger] record[i]).0 == fields[i].name && value_fits(
        fields[i],
        record[i].1,
    ) by {
        assert(field_decoder(item)(fields[i]) == Ok::<(Seq<char>, FieldValueView), DecodeErrorView>(record[i]));
        lemma_decoded_field_fits(fields[i], item);
    }
}

/// Every record of a batch that decodes has the fields of the descriptor,
/// and there is one record per item.
pub proof fn lemma_decoded_items_conform(fields: Seq<FieldSpecView>, items: Seq<Seq<Json>>)
    requires
        decoded_items(fields, items) is Ok,
    ensures
        decoded_items(fields, items)->Ok_0.len() == items.len(),
        forall|k: int| 0 <= k < items.len() ==> conforms(#[trigger] decoded_items(fields, items)->Ok_0[k], fields),
{
    let records = decoded_items(fields, items)->Ok_0;
    lemma_try_map_success(items, item_decoder(fields));
    assert forall|k: int| 0 <= k < items.len() implies conforms(#[trigger] records[k], fields) by {
        assert(item_decoder(fields)(items[k]) == Ok::<RecordView, DecodeErrorView>(records[k]));
        lemma_decoded_item_conforms(fields, items[k]);
    }
}

impl ResponseRecord {
    /// The value of the first field named `name`.
    pub fn get<'a>(&'a self, name: &str) -> (found: Option<&'a FieldValue>)
        ensures
            match found {
                Some(v) => exists|i: int|
                    0 <= i < self@.len() && (#[trigger] self@[i]).0 == name@ && self@[i].1 == v@ && forall|j: int|
                        0 <= j < i ==> (#[trigger] self@[j]).0 != name@,
                None => forall|i: int| 0 <= i < self@.len() ==> (#[trigger] self@[i]).0 != name@,
            },
    {
        let mut i: usize = 0;
        while i < self.values.len()
            invariant
                i <= self.values.len(),
                forall|j: int| 0 <= j < i ==> (#[trigger] self@[j]).0 != name@,
            decreases self.values.len() - i,
        {
            assert(self@[i as int] == (self.values@[i as int].0@, self.values@[i as int].1@));
            if crate::text::text_is(&self.values[i].0, name) {
                return Some(&self.values[i].1);
            }
            i += 1;
        }
        None
    }

    /// The text at place `i`, where the field there is named `name` and holds a text.
    pub fn text_at(&self, i: usize, name: &str) -> (text: Option<String>)
        ensures
            match text {
                Some(t) => i < self@.len() && self@[i as int] == (name@, FieldValueView::Text(t@)),
                None => !(i < self@.len() && self@[i as int].0 == name@ && self@[i as int].1 is Text),
            },
    {
        if i >= self.values.len() {
            return None;
        }
        assert(self@[i as int] == (self.values@[i as int].0@, self.values@[i as int].1@));
        if !crate::text::text_is(&self.values[i].0, name) {
            return None;
        }
        match &self.values[i].1 {
            FieldValue::Text(t) => Some(t.clone()),
            _ => None,
        }
    }

    /// The integer at place `i`, where the field there is named `name` and
    /// holds an integer of 64 bits.
    pub fn integer64_at(&self, i: usize, name: &str) -> (number: Option<i64>)
        ensures
            match number {
                Some(n) => i < self@.len() && self@[i as int] == (name@, FieldValueView::Integer64(n)),
                None => !(i < self@.len() && self@[i as int].0 == name@ && self@[i as int].1 is Integer64),
            },
    {
        if i >= self.values.len() {
            return None;
        }
        assert(self@[i as int] == (self.values@[i as int].0@, self.values@[i as int].1@));
        if !crate::text::text_is(&self.values[i].0, name) {
            return None;
        }
        match &self.values[i].1 {
            FieldValue::Integer64(n) => Some(*n),
            _ => None,
        }
    }
}

} // verus!
