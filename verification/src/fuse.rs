//! A request type and its record type, side by side.

use vstd::prelude::*;
use crate::binding::Requester;
use crate::collect::{lemma_try_map_step, try_map};
use crate::decode::{FieldValueView, RecordView, ResponseRecord};
use crate::definition::{FieldDefinition, TypeDefinition};
use crate::descriptor::{field_names, plain_parameters, slice_views};
use crate::descriptor::{EndpointDescriptorView, ResponseDescriptorView, ValueType};
use crate::endpoint::{parameter_field, request_definition};
use crate::model::{positioned, required_integer, required_text, response_definition};
use crate::parser::{endpoint_of, field_parser};
use crate::request::{CallError, CallErrorView};
use crate::typed::{as_records, from_json, payload_records, with_fields, Endpoint, Record};
use crate::value::{value_views, Json, WireValue};

verus! {

/// Asks for the list of concepts on one day.
#[derive(Debug, PartialEq, Eq)]
pub struct ConceptListRequest {
    pub trade_date: String,
}

impl ConceptListRequest {
    /// The name of the operation.
    pub fn api_name(&self) -> (name: &'static str)
        ensures
            name@ == <Self as Endpoint>::shape().operation_name,
    {
        "kpl_concept"
    }

    /// What the operation is for.
    pub fn description(&self) -> (text: &'static str)
        ensures
            text@ == <Self as Endpoint>::shape().description,
    {
        "获取概念股列表"
    }

    /// The call that this request stands for, asking for the columns `fields`.
    pub fn with_fields(self, fields: Vec<&'static str>) -> (made: Requester)
        ensures
            made.endpoint() == <Self as Endpoint>::shape(),
            made.values() == self.arguments(),
            made.projection() == Some(slice_views(fields@)),
    {
        with_fields(&self, fields)
    }
}

impl Endpoint for ConceptListRequest {
    open spec fn shape() -> EndpointDescriptorView {
        EndpointDescriptorView {
            operation_name: "kpl_concept"@,
            description: "获取概念股列表"@,
            parameters: plain_parameters(seq!["trade_date"@]),
            response_link: Some("ConceptListItem"@),
        }
    }

    open spec fn arguments(&self) -> Seq<Json> {
        seq![Json::Text(self.trade_date@)]
    }

    fn definition() -> (def: TypeDefinition) {
        let fields = vec![parameter_field("trade_date", false)];
        let def = request_definition(
            "ConceptListRequest",
            "kpl_concept",
            "获取概念股列表",
            "ConceptListItem",
            fields,
        );
        assert(endpoint_of(def)->Ok_0.parameters =~= Self::shape().parameters);
        def
    }

    fn values(&self) -> (values: Vec<WireValue>) {
        let values = vec![WireValue::Text(self.trade_date.clone())];
        assert(value_views(values@) =~= self.arguments());
        values
    }
}

/// A concept on one day.
#[derive(Debug, PartialEq, Eq)]
pub struct ConceptListItem {
    pub trade_date: String,
    pub ts_code: String,
    pub name: String,
    pub z_t_num: i64,
    pub up_num: String,
}

impl ConceptListItem {
    /// Reads the payload of a reply as records of this type.
    pub fn from_json(json: &WireValue) -> (outcome: Result<Vec<Self>, CallError>)
        ensures
            match outcome {
                Ok(values) => payload_records(<Self as Record>::shape(), json@) == Ok::<
                    Seq<RecordView>,
                    CallErrorView,
                >(as_records(values@)),
                Err(e) => payload_records(<Self as Record>::shape(), json@) == Err::<
                    Seq<RecordView>,
                    CallErrorView,
                >(e@),
            },
    {
        from_json::<Self>(json)
    }

    /// The operation that answers with this record type.
    pub fn api_name() -> (name: &'static str)
        ensures
            name@ == <Self as Record>::shape().operation_name,
    {
        "kpl_concept"
    }

    /// The names of the fields, in declared order.
    pub fn get_field_names() -> (names: Vec<&'static str>)
        ensures
            slice_views(names@) == field_names(<Self as Record>::shape().fields),
    {
        let names = vec!["trade_date", "ts_code", "name", "z_t_num", "up_num"];
        assert(slice_views(names@) =~= field_names(<Self as Record>::shape().fields));
        names
    }
}

impl Record for ConceptListItem {
    open spec fn shape() -> ResponseDescriptorView {
        ResponseDescriptorView {
            record_name: "ConceptListItem"@,
            operation_name: "kpl_concept"@,
            fields: seq![
                required_text("trade_date"@, 0),
                required_text("ts_code"@, 1),
                required_text("name"@, 2),
                required_integer("z_t_num"@, 3),
                required_text("up_num"@, 4),
            ],
        }
    }

    open spec fn as_record(&self) -> RecordView {
        seq![
            ("trade_date"@, FieldValueView::Text(self.trade_date@)),
            ("ts_code"@, FieldValueView::Text(self.ts_code@)),
            ("name"@, FieldValueView::Text(self.name@)),
            ("z_t_num"@, FieldValueView::Integer64(self.z_t_num)),
            ("up_num"@, FieldValueView::Text(self.up_num@)),
        ]
    }

    fn definition() -> (def: TypeDefinition) {
        let fields = vec![
            positioned("trade_date", 0, ValueType::Text),
            positioned("ts_code", 1, ValueType::Text),
            positioned("name", 2, ValueType::Text),
            positioned("z_t_num", 3, ValueType::Integer64),
            positioned("up_num", 4, ValueType::Text),
        ];
        let def = response_definition("ConceptListItem", "kpl_concept", fields);
        proof {
            let all = def.fields@;
            assert(all.take(0) =~= Seq::<FieldDefinition>::empty());
            assert(all.take(5) =~= all);
            lemma_try_map_step(all, field_parser(), 0);
            lemma_try_map_step(all, field_parser(), 1);
            lemma_try_map_step(all, field_parser(), 2);
            lemma_try_map_step(all, field_parser(), 3);
            lemma_try_map_step(all, field_parser(), 4);
            assert(try_map(all, field_parser())->Ok_0 =~= Self::shape().fields);
        }
        def
    }

    fn from_record(record: &ResponseRecord) -> (made: Option<Self>) {
        if record.values.len() != 5 {
            return None;
        }
        let trade_date = match record.text_at(0, "trade_date") {
            Some(value) => value,
            None => {
                return None;
            },
        };
        let ts_code = match record.text_at(1, "ts_code") {
            Some(value) => value,
            None => {
                return None;
            },
        };
        let name = match record.text_at(2, "name") {
            Some(value) => value,
            None => {
                return None;
            },
        };
        let z_t_num = match record.integer64_at(3, "z_t_num") {
            Some(value) => value,
            None => {
                return None;
            },
        };
        let up_num = match record.text_at(4, "up_num") {
            Some(value) => value,
            None => {
                return None;
            },
        };
        let made = ConceptListItem { trade_date, ts_code, name, z_t_num, up_num };
        assert(made.as_record() =~= record@);
        Some(made)
    }
}

} // verus!
