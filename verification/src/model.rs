//! Record types of the catalog.

use vstd::prelude::*;
use crate::collect::{any_malformed, first_value, last_value, lemma_try_map_step, try_map, Reading};
use crate::decode::{FieldValueView, RecordView, ResponseRecord};
use crate::definition::{Annotation, FieldDefinition, MetaItem, MetaValue, TypeDefinition, TypeRef, TypeShape};
use crate::descriptor::{field_names, slice_views};
use crate::descriptor::{DecodePolicy, FieldSpecView, ResponseDescriptorView, ValueType};
use crate::parser::{declares_default, default_in_annotation, field_parser, field_spec_of, index_in_annotation};
use crate::parser::{is_option, named, named_value_type, response_of, response_operation, text_under};
use crate::parser::DescriptorError;
use crate::request::{CallError, CallErrorView};
use crate::typed::{as_records, from_json, payload_records, Record};
use crate::value::WireValue;

verus! {

/// A required field that holds a text.
pub open spec fn required_text(name: Seq<char>, wire_index: usize) -> FieldSpecView {
    FieldSpecView { name, wire_index, decode_policy: DecodePolicy::Required, value_type: ValueType::Text }
}

/// A required field that holds an integer of 64 bits.
pub open spec fn required_integer(name: Seq<char>, wire_index: usize) -> FieldSpecView {
    FieldSpecView { name, wire_index, decode_policy: DecodePolicy::Required, value_type: ValueType::Integer64 }
}

/// A field that holds a text, or the empty text where the wire holds none.
pub open spec fn defaulting_text(name: Seq<char>, wire_index: usize) -> FieldSpecView {
    FieldSpecView { name, wire_index, decode_policy: DecodePolicy::DefaultOnNull, value_type: ValueType::Text }
}

/// The plain type that a field of the value type `value_type` is declared
/// with; `Value` where the values are handed on as they are.
pub(crate) fn plain_type(value_type: ValueType) -> (ty: TypeRef)
    ensures
        !is_option(ty),
        named_value_type(ty) == value_type,
{
    proof {
        reveal_strlit("String");
        reveal_strlit("bool");
        reveal_strlit("i8");
        reveal_strlit("i16");
        reveal_strlit("i32");
        reveal_strlit("i64");
        reveal_strlit("u8");
        reveal_strlit("u16");
        reveal_strlit("u32");
        reveal_strlit("u64");
        reveal_strlit("f64");
        reveal_strlit("f32");
        reveal_strlit("Value");
        reveal_strlit("Option");
        assert("String"@ =~= seq!['S', 't', 'r', 'i', 'n', 'g']);
        assert("bool"@ =~= seq!['b', 'o', 'o', 'l']);
        assert("i8"@ =~= seq!['i', '8']);
        assert("i16"@ =~= seq!['i', '1', '6']);
        assert("i32"@ =~= seq!['i', '3', '2']);
        assert("i64"@ =~= seq!['i', '6', '4']);
        assert("u8"@ =~= seq!['u', '8']);
        assert("u16"@ =~= seq!['u', '1', '6']);
        assert("u32"@ =~= seq!['u', '3', '2']);
        assert("u64"@ =~= seq!['u', '6', '4']);
        assert("f64"@ =~= seq!['f', '6', '4']);
        assert("f32"@ =~= seq!['f', '3', '2']);
        assert("Value"@ =~= seq!['V', 'a', 'l', 'u', 'e']);
        assert("Option"@ =~= seq!['O', 'p', 't', 'i', 'o', 'n']);
    }
    let name = match value_type {
        ValueType::Text => "String",
        ValueType::Bool => "bool",
        ValueType::Integer8 => "i8",
        ValueType::Integer16 => "i16",
        ValueType::Integer32 => "i32",
        ValueType::Integer64 => "i64",
        ValueType::Unsigned8 => "u8",
        ValueType::Unsigned16 => "u16",
        ValueType::Unsigned32 => "u32",
        ValueType::Unsigned64 => "u64",
        ValueType::Real => "f64",
        ValueType::Raw => "Value",
    };
    let ty = TypeRef { segments: vec![String::from_str(name)], arguments: Vec::new() };
    assert(ty.segments@.last() == ty.segments@[0]);
    ty
}

/// A field of a record type that carries its position and nothing else: a
/// required field.
pub(crate) fn positioned(name: &str, index: usize, value_type: ValueType) -> (field: FieldDefinition)
    ensures
        field_spec_of(field) == Ok::<FieldSpecView, DescriptorError>(
            FieldSpecView { name: name@, wire_index: index, decode_policy: DecodePolicy::Required, value_type },
        ),
{
    let items = vec![MetaItem::Literal { value: MetaValue::Integer(index) }];
    let annotations = vec![Annotation { name: String::from_str("ts_field"), items }];
    let field = FieldDefinition { name: String::from_str(name), annotations, ty: plain_type(value_type) };
    proof {
        reveal_strlit("ts_field");
        reveal_strlit("serde");
        assert("ts_field"@.len() != "serde"@.len());
        let read = index_in_annotation();
        assert(read(field.annotations@[0]) == Reading::Value(index));
        assert(!any_malformed(field.annotations@, read));
        assert(field.annotations@.drop_last() =~= Seq::<Annotation>::empty());
        assert(last_value(field.annotations@, read) == Some(index));
        assert(!default_in_annotation(field.annotations@[0]));
        assert(!declares_default(field.annotations@));
    }
    field
}

/// A field of a record type that carries its position and asks for the
/// default of its type: a defaulting field.
pub(crate) fn positioned_defaulting(name: &str, index: usize, value_type: ValueType) -> (field: FieldDefinition)
    ensures
        field_spec_of(field) == Ok::<FieldSpecView, DescriptorError>(
            FieldSpecView { name: name@, wire_index: index, decode_policy: DecodePolicy::DefaultOnNull, value_type },
        ),
{
    let position = Annotation {
        name: String::from_str("ts_field"),
        items: vec![MetaItem::Literal { value: MetaValue::Integer(index) }],
    };
    let default = Annotation {
        name: String::from_str("serde"),
        items: vec![MetaItem::Flag { key: String::from_str("default") }],
    };
    let field = FieldDefinition {
        name: String::from_str(name),
        annotations: vec![position, default],
        ty: plain_type(value_type),
    };
    proof {
        reveal_strlit("ts_field");
        reveal_strlit("serde");
        assert("ts_field"@.len() != "serde"@.len());
        let read = index_in_annotation();
        let annotations = field.annotations@;
        assert(read(annotations[0]) == Reading::Value(index));
        assert(read(annotations[1]) is Nothing);
        assert(!any_malformed(annotations, read));
        assert(annotations.last() == annotations[1]);
        assert(annotations.drop_last().last() == annotations[0]);
        assert(last_value(annotations.drop_last(), read) == Some(index));
        assert(last_value(annotations, read) == Some(index));
        assert(annotations[1].items@[0].key() == Some("default"@));
        assert(default_in_annotation(annotations[1]));
        assert(declares_default(annotations));
    }
    field
}

/// The definition of a record type: a `response` annotation that names the
/// operation, and the fields.
pub(crate) fn response_definition(name: &str, api: &str, fields: Vec<FieldDefinition>) -> (def: TypeDefinition)
    ensures
        def.fields@ == fields@,
        response_of(def) == match try_map(fields@, field_parser()) {
            Err(e) => Err(e),
            Ok(specs) => Ok(ResponseDescriptorView { record_name: name@, operation_name: api@, fields: specs }),
        },
{
    let items = vec![
        MetaItem::Pair { key: String::from_str("api"), value: MetaValue::Text(String::from_str(api)) },
    ];
    let annotations = vec![Annotation { name: String::from_str("response"), items }];
    let def = TypeDefinition { name: String::from_str(name), annotations, shape: TypeShape::NamedStruct, fields };
    proof {
        let entries = def.annotations@[0].items@;
        assert(first_value(def.annotations@, named("response"@)) == Some(def.annotations@[0]));
        assert(first_value(entries, text_under("api"@)) == Some(api@));
        assert(response_operation(def.annotations@) == Some(api@));
    }
    def
}

/// A stock that moved up a step in the count of its consecutive limit-up days.
#[derive(Debug, PartialEq, Eq)]
pub struct LimitStepItem {
    pub ts_code: String,
    pub name: String,
    pub trade_date: String,
    pub nums: String,
}

impl LimitStepItem {
    /// Reads the payload of a reply as records of this type.
    pub fn from_json(json: &WireValue) -> (outcome: Result<Vec<Self>, CallError>)
        ensures
            match outcome {
                Ok(values) => payload_records(<Self as Record>::shape(), json@) == Ok::<
                    Seq<RecordView>,
                    CallErrorView,
                >(as_records(values@)),
                Err(e) => payload_records(<Self as Record>::shape(), json@) == Err::<
                    Seq<RecordView>,
                    CallErrorView,
                >(e@),
            },
    {
        from_json::<Self>(json)
    }

    /// The operation that answers with this record type.
    pub fn api_name() -> (name: &'static str)
        ensures
            name@ == <Self as Record>::shape().operation_name,
    {
        "limit_step"
    }

    /// The names of the fields, in declared order.
    pub fn get_field_names() -> (names: Vec<&'static str>)
        ensures
            slice_views(names@) == field_names(<Self as Record>::shape().fields),
    {
        let names = vec!["ts_code", "name", "trade_date", "nums"];
        assert(slice_views(names@) =~= field_names(<Self as Record>::shape().fields));
        names
    }
}

impl Record for LimitStepItem {
    open spec fn shape() -> ResponseDescriptorView {
        ResponseDescriptorView {
            record_name: "LimitStepItem"@,
            operation_name: "limit_step"@,
            fields: seq![
                required_text("ts_code"@, 0),
                required_text("name"@, 1),
                required_text("trade_date"@, 2),
                required_text("nums"@, 3),
            ],
        }
    }

    open spec fn as_record(&self) -> RecordView {
        seq![
            ("ts_code"@, FieldValueView::Text(self.ts_code@)),
            ("name"@, FieldValueView::Text(self.name@)),
            ("trade_date"@, FieldValueView::Text(self.trade_date@)),
            ("nums"@, FieldValueView::Text(self.nums@)),
        ]
    }

    fn definition() -> (def: TypeDefinition) {
        let fields = vec![
            positioned("ts_code", 0, ValueType::Text),
            positioned("name", 1, ValueType::Text),
            positioned("trade_date", 2, ValueType::Text),
            positioned("nums", 3, ValueType::Text),
        ];
        let def = response_definition("LimitStepItem", "limit_step", fields);
        proof {
            let all = def.fields@;
            assert(all.take(0) =~= Seq::<FieldDefinition>::empty());
            assert(all.take(4) =~= all);
            lemma_try_map_step(all, field_parser(), 0);
            lemma_try_map_step(all, field_parser(), 1);
            lemma_try_map_step(all, field_parser(), 2);
            lemma_try_map_step(all, field_parser(), 3);
            assert(try_map(all, field_parser())->Ok_0 =~= Self::shape().fields);
        }
        def
    }

    fn from_record(record: &ResponseRecord) -> (made: Option<Self>) {
        if record.values.len() != 4 {
            return None;
        }
        let ts_code = match record.text_at(0, "ts_code") {
            Some(value) => value,
            None => {
                return None;
            },
        };
        let name = match record.text_at(1, "name") {
            Some(value) => value,
            None => {
                return None;
            },
        };
        let trade_date = match record.text_at(2, "trade_date") {
            Some(value) => value,
            None => {
                return None;
            },
        };
        let nums = match record.text_at(3, "nums") {
            Some(value) => value,
            None => {
                return None;
            },
        };
        let made = LimitStepItem { ts_code, name, trade_date, nums };
        assert(made.as_record() =~= record@);
        Some(made)
    }
}

/// A concept on one day.
#[derive(Debug, PartialEq, Eq)]
pub struct ConceptListItem {
    pub trade_date: String,
    pub ts_code: String,
    pub name: String,
    pub z_t_num: i64,
    pub up_num: String,
}

impl ConceptListItem {
    /// Reads the payload of a reply as records of this type.
    pub fn from_json(json: &WireValue) -> (outcome: Result<Vec<Self>, CallError>)
        ensures
            match outcome {
                Ok(values) => payload_records(<Self as Record>::shape(), json@) == Ok::<
                    Seq<RecordView>,
                    CallErrorView,
                >(as_records(values@)),
                Err(e) => payload_records(<Self as Record>::shape(), json@) == Err::<
                    Seq<RecordView>,
                    CallErrorView,
                >(e@),
            },
    {
        from_json::<Self>(json)
    }

    /// The operation that answers with this record type.
    pub fn api_name() -> (name: &'static str)
        ensures
            name@ == <Self as Record>::shape().operation_name,
    {
        "kpl_concept"
    }

    /// The names of the fields, in declared order.
    pub fn get_field_names() -> (names: Vec<&'static str>)
        ensures
            slice_views(names@) == field_names(<Self as Record>::shape().fields),
    {
        let names = vec!["trade_date", "ts_code", "name", "z_t_num", "up_num"];
        assert(slice_views(names@) =~= field_names(<Self as Record>::shape().fields));
        names
    }
}

impl Record for ConceptListItem {
    open spec fn shape() -> ResponseDescriptorView {
        ResponseDescriptorView {
            record_name: "ConceptListItem"@,
            operation_name: "kpl_concept"@,
            fields: seq![
                required_text("trade_date"@, 0),
                required_text("ts_code"@, 1),
                required_text("name"@, 2),
                required_integer("z_t_num"@, 3),
                required_text("up_num"@, 4),
            ],
        }
    }

    open spec fn as_record(&self) -> RecordView {
        seq![
            ("trade_date"@, FieldValueView::Text(self.trade_date@)),
            ("ts_code"@, FieldValueView::Text(self.ts_code@)),
            ("name"@, FieldValueView::Text(self.name@)),
            ("z_t_num"@, FieldValueView::Integer64(self.z_t_num)),
            ("up_num"@, FieldValueView::Text(self.up_num@)),
        ]
    }

    fn definition() -> (def: TypeDefinition) {
        let fields = vec![
            positioned("trade_date", 0, ValueType::Text),
            positioned("ts_code", 1, ValueType::Text),
            positioned("name", 2, ValueType::Text),
            positioned("z_t_num", 3, ValueType::Integer64),
            positioned("up_num", 4, ValueType::Text),
        ];
        let def = response_definition("ConceptListItem", "kpl_concept", fields);
        proof {
            let all = def.fields@;
            assert(all.take(0) =~= Seq::<FieldDefinition>::empty());
            assert(all.take(5) =~= all);
            lemma_try_map_step(all, field_parser(), 0);
            lemma_try_map_step(all, field_parser(), 1);
            lemma_try_map_step(all, field_parser(), 2);
            lemma_try_map_step(all, field_parser(), 3);
            lemma_try_map_step(all, field_parser(), 4);
            assert(try_map(all, field_parser())->Ok_0 =~= Self::shape().fields);
        }
        def
    }

    fn from_record(record: &ResponseRecord) -> (made: Option<Self>) {
        if record.values.len() != 5 {
            return None;
        }
        let trade_date = match record.text_at(0, "trade_date") {
            Some(value) => value,
            None => {
                return None;
            },
        };
        let ts_code = match record.text_at(1, "ts_code") {
            Some(value) => value,
            None => {
                return None;
            },
        };
        let name = match record.text_at(2, "name") {
            Some(value) => value,
            None => {
                return None;
            },
        };
        let z_t_num = match record.integer64_at(3, "z_t_num") {
            Some(value) => value,
            None => {
                return None;
            },
        };
        let up_num = match record.text_at(4, "up_num") {
            Some(value) => value,
            None => {
                return None;
            },
        };
        let made = ConceptListItem { trade_date, ts_code, name, z_t_num, up_num };
        assert(made.as_record() =~= record@);
        Some(made)
    }
}

/// A stock that belongs to a concept.
#[derive(Debug, PartialEq, Eq)]
pub struct KplConceptConsItem {
    pub ts_code: String,
    pub name: String,
    pub con_name: String,
    pub con_code: String,
    pub trade_date: String,
    pub desc: String,
    pub hot_num: String,
}

impl KplConceptConsItem {
    /// Reads the payload of a reply as records of this type.
    pub fn from_json(json: &WireValue) -> (outcome: Result<Vec<Self>, CallError>)
        ensures
            match outcome {
                Ok(values) => payload_records(<Self as Record>::shape(), json@) == Ok::<
                    Seq<RecordView>,
                    CallErrorView,
                >(as_records(values@)),
                Err(e) => payload_records(<Self as Record>::shape(), json@) == Err::<
                    Seq<RecordView>,
                    CallErrorView,
                >(e@),
            },
    {
        from_json::<Self>(json)
    }

    /// The operation that answers with this record type.
    pub fn api_name() -> (name: &'static str)
        ensures
            name@ == <Self as Record>::shape().operation_name,
    {
        "kpl_concept_cons"
    }

    /// The names of the fields, in declared order.
    pub fn get_field_names() -> (names: Vec<&'static str>)
        ensures
            slice_views(names@) == field_names(<Self as Record>::shape().fields),
    {
        let names = vec!["ts_code", "name", "con_name", "con_code", "trade_date", "desc", "hot_num"];
        assert(slice_views(names@) =~= field_names(<Self as Record>::shape().fields));
        names
    }
}

impl Record for KplConceptConsItem {
    open spec fn shape() -> ResponseDescriptorView {
        ResponseDescriptorView {
            record_name: "KplConceptConsItem"@,
            operation_name: "kpl_concept_cons"@,
            fields: seq![
                required_text("ts_code"@, 0),
                required_text("name"@, 1),
                required_text("con_name"@, 2),
                required_text("con_code"@, 3),
                required_text("trade_date"@, 4),
                required_text("desc"@, 5),
                defaulting_text("hot_num"@, 6),
            ],
        }
    }

    open spec fn as_record(&self) -> RecordView {
        seq![
            ("ts_code"@, FieldValueView::Text(self.ts_code@)),
            ("name"@, FieldValueView::Text(self.name@)),
            ("con_name"@, FieldValueView::Text(self.con_name@)),
            ("con_code"@, FieldValueView::Text(self.con_code@)),
            ("trade_date"@, FieldValueView::Text(self.trade_date@)),
            ("desc"@, FieldValueView::Text(self.desc@)),
            ("hot_num"@, FieldValueView::Text(self.hot_num@)),
        ]
    }

    fn definition() -> (def: TypeDefinition) {
        let fields = vec![
            positioned("ts_code", 0, ValueType::Text),
            positioned("name", 1, ValueType::Text),
            positioned("con_name", 2, ValueType::Text),
            positioned("con_code", 3, ValueType::Text),
            positioned("trade_date", 4, ValueType::Text),
            positioned("desc", 5, ValueType::Text),
            positioned_defaulting("hot_num", 6, ValueType::Text),
        ];
        let def = response_definition("KplConceptConsItem", "kpl_concept_cons", fields);
        proof {
            let all = def.fields@;
            assert(all.take(0) =~= Seq::<FieldDefinition>::empty());
            assert(all.take(7) =~= all);
            lemma_try_map_step(all, field_parser(), 0);
            lemma_try_map_step(all, field_parser(), 1);
            lemma_try_map_step(all, field_parser(), 2);
            lemma_try_map_step(all, field_parser(), 3);
            lemma_try_map_step(all, field_parser(), 4);
            lemma_try_map_step(all, field_parser(), 5);
            lemma_try_map_step(all, field_parser(), 6);
            assert(try_map(all, field_parser())->Ok_0 =~= Self::shape().fields);
        }
        def
    }

    fn from_record(record: &ResponseRecord) -> (made: Option<Self>) {
        if record.values.len() != 7 {
            return None;
        }
        let ts_code = match record.text_at(0, "ts_code") {
            Some(value) => value,
            None => {
                return None;
            },
        };
        let name = match record.text_at(1, "name") {
            Some(value) => value,
            None => {
                return None;
            },
        };
        let con_name = match record.text_at(2, "con_name") {
            Some(value) => value,
            None => {
                return None;
            },
        };
        let con_code = match record.text_at(3, "con_code") {
            Some(value) => value,
            None => {
                return None;
            },
        };
        let trade_date = match record.text_at(4, "trade_date") {
            Some(value) => value,
            None => {
                return None;
            },
        };
        let desc = match record.text_at(5, "desc") {
            Some(value) => value,
            None => {
                return None;
            },
        };
        let hot_num = match record.text_at(6, "hot_num") {
            Some(value) => value,
            None => {
                return None;
            },
        };
        let made = KplConceptConsItem { ts_code, name, con_name, con_code, trade_date, desc, hot_num };
        assert(made.as_record() =~= record@);
        Some(made)
    }
}

} // verus!
