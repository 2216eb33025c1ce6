//! Request types of the catalog.
//!
//! Each request type calls one operation. Its fields are the parameters of
//! the operation, sent as texts under their own names.

use vstd::prelude::*;
use crate::binding::Requester;
use crate::collect::{first_value, lemma_first_value_skip, lemma_try_map_success, try_map};
use crate::definition::{Annotation, FieldDefinition, MetaItem, MetaValue, TypeDefinition, TypeRef, TypeShape};
use crate::descriptor::{plain_parameters, slice_views, EndpointDescriptorView, ParameterSpecView};
use crate::parser::{declared_rename, endpoint_metadata, endpoint_of, link_under, named};
use crate::parser::{parameter_parser, text_under, DescriptorError};
use crate::typed::{with_fields, Endpoint};
use crate::value::{value_views, Json, WireValue};

verus! {

/// The value that an optional text is sent as: the text, or null.
pub open spec fn text_or_null(text: Option<String>) -> Json {
    match text {
        Some(t) => Json::Text(t@),
        None => Json::Null,
    }
}

/// The value that an optional text is sent as.
pub fn text_or_null_value(text: &Option<String>) -> (value: WireValue)
    ensures
        value@ == text_or_null(*text),
{
    match text {
        Some(t) => WireValue::Text(t.clone()),
        None => WireValue::Null,
    }
}

/// The names of the fields of a definition, in declared order.
pub open spec fn definition_names(fields: Seq<FieldDefinition>) -> Seq<Seq<char>> {
    fields.map_values(|field: FieldDefinition| field.name@)
}

/// A field of a request type without annotations: a text, or an optional text.
pub(crate) fn parameter_field(name: &str, optional: bool) -> (field: FieldDefinition)
    ensures
        field.name@ == name@,
        field.annotations@.len() == 0,
{
    let text = TypeRef { segments: vec![String::from_str("String")], arguments: Vec::new() };
    let ty = if optional {
        TypeRef { segments: vec![String::from_str("Option")], arguments: vec![text] }
    } else {
        text
    };
    FieldDefinition { name: String::from_str(name), annotations: Vec::new(), ty }
}

/// The definition of a request type: an `endpoint` annotation that names
/// the operation, its description and the record type of the answer, and
/// fields without annotations. Each field is a parameter under its own name.
pub(crate) fn request_definition(name: &str, api: &str, desc: &str, resp: &str, fields: Vec<FieldDefinition>) -> (def:
    TypeDefinition)
    requires
        forall|i: int| 0 <= i < fields@.len() ==> (#[trigger] fields@[i]).annotations@.len() == 0,
    ensures
        endpoint_of(def) == Ok::<EndpointDescriptorView, DescriptorError>(
            EndpointDescriptorView {
                operation_name: api@,
                description: desc@,
                parameters: plain_parameters(definition_names(fields@)),
                response_link: Some(resp@),
            },
        ),
{
    let items = vec![
        MetaItem::Pair { key: String::from_str("api"), value: MetaValue::Text(String::from_str(api)) },
        MetaItem::Pair { key: String::from_str("desc"), value: MetaValue::Text(String::from_str(desc)) },
        MetaItem::Pair { key: String::from_str("resp"), value: MetaValue::Path(vec![String::from_str(resp)]) },
    ];
    let annotations = vec![Annotation { name: String::from_str("endpoint"), items }];
    let def = TypeDefinition { name: String::from_str(name), annotations, shape: TypeShape::NamedStruct, fields };
    proof {
        reveal_strlit("api");
        reveal_strlit("desc");
        reveal_strlit("resp");
        assert("api"@.len() != "desc"@.len());
        assert("api"@[0] != "resp"@[0]);
        assert("desc"@[0] != "resp"@[0]);
        let entries = def.annotations@[0].items@;
        assert(first_value(def.annotations@, named("endpoint"@)) == Some(def.annotations@[0]));
        assert(entries.skip(0) =~= entries);
        lemma_first_value_skip(entries, text_under("api"@), 0);
        lemma_first_value_skip(entries, text_under("desc"@), 0);
        lemma_first_value_skip(entries, text_under("desc"@), 1);
        lemma_first_value_skip(entries, link_under("resp"@), 0);
        lemma_first_value_skip(entries, link_under("resp"@), 1);
        lemma_first_value_skip(entries, link_under("resp"@), 2);
        let metadata = endpoint_metadata(def.annotations@);
        assert(metadata is Some);
        assert(metadata->0.operation_name == api@);
        assert(metadata->0.description == desc@);
        assert(metadata->0.response_link == Some(resp@));
        assert forall|i: int| 0 <= i < fields@.len() implies (#[trigger] parameter_parser()(fields@[i]))
            == Ok::<ParameterSpecView, DescriptorError>(
            ParameterSpecView { field_name: fields@[i].name@, wire_key: fields@[i].name@ },
        ) by {
            assert(fields@[i].annotations@.len() == 0);
            assert(declared_rename(fields@[i].annotations@) is Nothing);
        }
        lemma_try_map_success(fields@, parameter_parser());
        assert(try_map(fields@, parameter_parser())->Ok_0 =~= plain_parameters(definition_names(fields@)));
    }
    def
}

/// Asks for the stocks that moved up a step in the count of their consecutive limit-up days.
#[derive(Debug, PartialEq, Eq)]
pub struct LimitStepReq {
    pub trade_date: String,
    pub start_date: String,
    pub end_date: String,
    pub nums: String,
}

impl LimitStepReq {
    /// The name of the operation.
    pub fn api_name(&self) -> (name: &'static str)
        ensures
            name@ == <Self as Endpoint>::shape().operation_name,
    {
        "limit_step"
    }

    /// What the operation is for.
    pub fn description(&self) -> (text: &'static str)
        ensures
            text@ == <Self as Endpoint>::shape().description,
    {
        "获取每天连板个数晋级的股票"
    }

    /// The call that this request stands for, asking for the columns `fields`.
    pub fn with_fields(self, fields: Vec<&'static str>) -> (made: Requester)
        ensures
            made.endpoint() == <Self as Endpoint>::shape(),
            made.values() == self.arguments(),
            made.projection() == Some(slice_views(fields@)),
    {
        with_fields(&self, fields)
    }
}

impl Endpoint for LimitStepReq {
    open spec fn shape() -> EndpointDescriptorView {
        EndpointDescriptorView {
            operation_name: "limit_step"@,
            description: "获取每天连板个数晋级的股票"@,
            parameters: plain_parameters(seq!["trade_date"@, "start_date"@, "end_date"@, "nums"@]),
            response_link: Some("LimitStepItem"@),
        }
    }

    open spec fn arguments(&self) -> Seq<Json> {
        seq![
            Json::Text(self.trade_date@),
            Json::Text(self.start_date@),
            Json::Text(self.end_date@),
            Json::Text(self.nums@),
        ]
    }

    fn definition() -> (def: TypeDefinition) {
        let fields = vec![
            parameter_field("trade_date", false),
            parameter_field("start_date", false),
            parameter_field("end_date", false),
            parameter_field("nums", false),
        ];
        let def = request_definition("LimitStepReq", "limit_step", "获取每天连板个数晋级的股票", "LimitStepItem", fields);
        assert(endpoint_of(def)->Ok_0.parameters =~= Self::shape().parameters);
        def
    }

    fn values(&self) -> (values: Vec<WireValue>) {
        let values = vec![
            WireValue::Text(self.trade_date.clone()),
            WireValue::Text(self.start_date.clone()),
            WireValue::Text(self.end_date.clone()),
            WireValue::Text(self.nums.clone()),
        ];
        assert(value_views(values@) =~= self.arguments());
        values
    }
}

/// Asks for the stocks that moved up a step, over a range of days.
#[derive(Debug, PartialEq, Eq)]
pub struct HisLimitStepReq {
    pub start_date: String,
    pub end_date: String,
}

impl HisLimitStepReq {
    /// The name of the operation.
    pub fn api_name(&self) -> (name: &'static str)
        ensures
            name@ == <Self as Endpoint>::shape().operation_name,
    {
        "limit_step"
    }

    /// What the operation is for.
    pub fn description(&self) -> (text: &'static str)
        ensures
            text@ == <Self as Endpoint>::shape().description,
    {
        "获取每天连板个数晋级的股票"
    }

    /// The call that this request stands for, asking for the columns `fields`.
    pub fn with_fields(self, fields: Vec<&'static str>) -> (made: Requester)
        ensures
            made.endpoint() == <Self as Endpoint>::shape(),
            made.values() == self.arguments(),
            made.projection() == Some(slice_views(fields@)),
    {
        with_fields(&self, fields)
    }
}

impl Endpoint for HisLimitStepReq {
    open spec fn shape() -> EndpointDescriptorView {
        EndpointDescriptorView {
            operation_name: "limit_step"@,
            description: "获取每天连板个数晋级的股票"@,
            parameters: plain_parameters(seq!["start_date"@, "end_date"@]),
            response_link: Some("LimitStepItem"@),
        }
    }

    open spec fn arguments(&self) -> Seq<Json> {
        seq![Json::Text(self.start_date@), Json::Text(self.end_date@)]
    }

    fn definition() -> (def: TypeDefinition) {
        let fields = vec![parameter_field("start_date", false), parameter_field("end_date", false)];
        let def = request_definition(
            "HisLimitStepReq",
            "limit_step",
            "获取每天连板个数晋级的股票",
            "LimitStepItem",
            fields,
        );
        assert(endpoint_of(def)->Ok_0.parameters =~= Self::shape().parameters);
        def
    }

    fn values(&self) -> (values: Vec<WireValue>) {
        let values = vec![WireValue::Text(self.start_date.clone()), WireValue::Text(self.end_date.clone())];
        assert(value_views(values@) =~= self.arguments());
        values
    }
}

/// Asks for the hot list of one market on one day.
#[derive(Debug, PartialEq, Eq)]
pub struct ThsHotReq {
    pub trade_date: String,
    pub market: String,
}

impl ThsHotReq {
    /// The name of the operation.
    pub fn api_name(&self) -> (name: &'static str)
        ensures
            name@ == <Self as Endpoint>::shape().operation_name,
    {
        "ths_hot"
    }

    /// What the operation is for.
    pub fn description(&self) -> (text: &'static str)
        ensures
            text@ == <Self as Endpoint>::shape().description,
    {
        "获取同花顺App热榜数据"
    }

    /// The call that this request stands for, asking for the columns `fields`.
    pub fn with_fields(self, fields: Vec<&'static str>) -> (made: Requester)
        ensures
            made.endpoint() == <Self as Endpoint>::shape(),
            made.values() == self.arguments(),
            made.projection() == Some(slice_views(fields@)),
    {
        with_fields(&self, fields)
    }
}

impl Endpoint for ThsHotReq {
    open spec fn shape() -> EndpointDescriptorView {
        EndpointDescriptorView {
            operation_name: "ths_hot"@,
            description: "获取同花顺App热榜数据"@,
            parameters: plain_parameters(seq!["trade_date"@, "market"@]),
            response_link: Some("ThsHotItem"@),
        }
    }

    open spec fn arguments(&self) -> Seq<Json> {
        seq![Json::Text(self.trade_date@), Json::Text(self.market@)]
    }

    fn definition() -> (def: TypeDefinition) {
        let fields = vec![parameter_field("trade_date", false), parameter_field("market", false)];
        let def = request_definition("ThsHotReq", "ths_hot", "获取同花顺App热榜数据", "ThsHotItem", fields);
        assert(endpoint_of(def)->Ok_0.parameters =~= Self::shape().parameters);
        def
    }

    fn values(&self) -> (values: Vec<WireValue>) {
        let values = vec![WireValue::Text(self.trade_date.clone()), WireValue::Text(self.market.clone())];
        assert(value_views(values@) =~= self.arguments());
        values
    }
}

/// Asks for the stocks at their upper or lower limit on one day.
#[derive(Debug, PartialEq, Eq)]
pub struct KplListReq {
    pub tag: String,
    pub trade_date: String,
}

impl KplListReq {
    /// The name of the operation.
    pub fn api_name(&self) -> (name: &'static str)
        ensures
            name@ == <Self as Endpoint>::shape().operation_name,
    {
        "kpl_list"
    }

    /// What the operation is for.
    pub fn description(&self) -> (text: &'static str)
        ensures
            text@ == <Self as Endpoint>::shape().description,
    {
        "获取涨跌停板数据"
    }

    /// The call that this request stands for, asking for the columns `fields`.
    pub fn with_fields(self, fields: Vec<&'static str>) -> (made: Requester)
        ensures
            made.endpoint() == <Self as Endpoint>::shape(),
            made.values() == self.arguments(),
            made.projection() == Some(slice_views(fields@)),
    {
        with_fields(&self, fields)
    }
}

impl Endpoint for KplListReq {
    open spec fn shape() -> EndpointDescriptorView {
        EndpointDescriptorView {
            operation_name: "kpl_list"@,
            description: "获取涨跌停板数据"@,
            parameters: plain_parameters(seq!["tag"@, "trade_date"@]),
            response_link: Some("KplListItem"@),
        }
    }

    open spec fn arguments(&self) -> Seq<Json> {
        seq![Json::Text(self.tag@), Json::Text(self.trade_date@)]
    }

    fn definition() -> (def: TypeDefinition) {
        let fields = vec![parameter_field("tag", false), parameter_field("trade_date", false)];
        let def = request_definition("KplListReq", "kpl_list", "获取涨跌停板数据", "KplListItem", fields);
        assert(endpoint_of(def)->Ok_0.parameters =~= Self::shape().parameters);
        def
    }

    fn values(&self) -> (values: Vec<WireValue>) {
        let values = vec![WireValue::Text(self.tag.clone()), WireValue::Text(self.trade_date.clone())];
        assert(value_views(values@) =~= self.arguments());
        values
    }
}

/// Asks for the limit list on one day.
#[derive(Debug, PartialEq, Eq)]
pub struct LimitListThs {
    pub tag: String,
    pub trade_date: String,
}

impl LimitListThs {
    /// The name of the operation.
    pub fn api_name(&self) -> (name: &'static str)
        ensures
            name@ == <Self as Endpoint>::shape().operation_name,
    {
        "limit_list_ths"
    }

    /// What the operation is for.
    pub fn description(&self) -> (text: &'static str)
        ensures
            text@ == <Self as Endpoint>::shape().description,
    {
        "涨跌停榜单(同花顺)"
    }

    /// The call that this request stands for, asking for the columns `fields`.
    pub fn with_fields(self, fields: Vec<&'static str>) -> (made: Requester)
        ensures
            made.endpoint() == <Self as Endpoint>::shape(),
            made.values() == self.arguments(),
            made.projection() == Some(slice_views(fields@)),
    {
        with_fields(&self, fields)
    }
}

impl Endpoint for LimitListThs {
    open spec fn shape() -> EndpointDescriptorView {
        EndpointDescriptorView {
            operation_name: "limit_list_ths"@,
            description: "涨跌停榜单(同花顺)"@,
            parameters: plain_parameters(seq!["tag"@, "trade_date"@]),
            response_link: Some("KplListItem"@),
        }
    }

    open spec fn arguments(&self) -> Seq<Json> {
        seq![Json::Text(self.tag@), Json::Text(self.trade_date@)]
    }

    fn definition() -> (def: TypeDefinition) {
        let fields = vec![parameter_field("tag", false), parameter_field("trade_date", false)];
        let def = request_definition("LimitListThs", "limit_list_ths", "涨跌停榜单(同花顺)", "KplListItem", fields);
        assert(endpoint_of(def)->Ok_0.parameters =~= Self::shape().parameters);
        def
    }

    fn values(&self) -> (values: Vec<WireValue>) {
        let values = vec![WireValue::Text(self.tag.clone()), WireValue::Text(self.trade_date.clone())];
        assert(value_views(values@) =~= self.arguments());
        values
    }
}

/// Asks for the list of concepts on one day.
#[derive(Debug, PartialEq, Eq)]
pub struct KplConceptReq {
    pub trade_date: String,
}

impl KplConceptReq {
    /// The name of the operation.
    pub fn api_name(&self) -> (name: &'static str)
        ensures
            name@ == <Self as Endpoint>::shape().operation_name,
    {
        "kpl_concept"
    }

    /// What the operation is for.
    pub fn description(&self) -> (text: &'static str)
        ensures
            text@ == <Self as Endpoint>::shape().description,
    {
        "获取开盘啦概念题材列表"
    }

    /// The call that this request stands for, asking for the columns `fields`.
    pub fn with_fields(self, fields: Vec<&'static str>) -> (made: Requester)
        ensures
            made.endpoint() == <Self as Endpoint>::shape(),
            made.values() == self.arguments(),
            made.projection() == Some(slice_views(fields@)),
    {
        with_fields(&self, fields)
    }
}

impl Endpoint for KplConceptReq {
    open spec fn shape() -> EndpointDescriptorView {
        EndpointDescriptorView {
            operation_name: "kpl_concept"@,
            description: "获取开盘啦概念题材列表"@,
            parameters: plain_parameters(seq!["trade_date"@]),
            response_link: Some("ConceptListItem"@),
        }
    }

    open spec fn arguments(&self) -> Seq<Json> {
        seq![Json::Text(self.trade_date@)]
    }

    fn definition() -> (def: TypeDefinition) {
        let fields = vec![parameter_field("trade_date", false)];
        let def = request_definition(
            "KplConceptReq",
            "kpl_concept",
            "获取开盘啦概念题材列表",
            "ConceptListItem",
            fields,
        );
        assert(endpoint_of(def)->Ok_0.parameters =~= Self::shape().parameters);
        def
    }

    fn values(&self) -> (values: Vec<WireValue>) {
        let values = vec![WireValue::Text(self.trade_date.clone())];
        assert(value_views(values@) =~= self.arguments());
        values
    }
}

/// Asks for the stocks that make up one concept.
#[derive(Debug, PartialEq, Eq)]
pub struct KplConceptConsReq {
    pub trade_date: String,
    pub ts_code: String,
}

impl KplConceptConsReq {
    /// The name of the operation.
    pub fn api_name(&self) -> (name: &'static str)
        ensures
            name@ == <Self as Endpoint>::shape().operation_name,
    {
        "kpl_concept_cons"
    }

    /// What the operation is for.
    pub fn description(&self) -> (text: &'static str)
        ensures
            text@ == <Self as Endpoint>::shape().description,
    {
        "获取开盘啦概念题材的成分股"
    }

    /// The call that this request stands for, asking for the columns `fields`.
    pub fn with_fields(self, fields: Vec<&'static str>) -> (made: Requester)
        ensures
            made.endpoint() == <Self as Endpoint>::shape(),
            made.values() == self.arguments(),
            made.projection() == Some(slice_views(fields@)),
    {
        with_fields(&self, fields)
    }
}

impl Endpoint for KplConceptConsReq {
    open spec fn shape() -> EndpointDescriptorView {
        EndpointDescriptorView {
            operation_name: "kpl_concept_cons"@,
            description: "获取开盘啦概念题材的成分股"@,
            parameters: plain_parameters(seq!["trade_date"@, "ts_code"@]),
            response_link: Some("KplConceptConsItem"@),
        }
    }

    open spec fn arguments(&self) -> Seq<Json> {
        seq![Json::Text(self.trade_date@), Json::Text(self.ts_code@)]
    }

    fn definition() -> (def: TypeDefinition) {
        let fields = vec![parameter_field("trade_date", false), parameter_field("ts_code", false)];
        let def = request_definition(
            "KplConceptConsReq",
            "kpl_concept_cons",
            "获取开盘啦概念题材的成分股",
            "KplConceptConsItem",
            fields,
        );
        assert(endpoint_of(def)->Ok_0.parameters =~= Self::shape().parameters);
        def
    }

    fn values(&self) -> (values: Vec<WireValue>) {
        let values = vec![WireValue::Text(self.trade_date.clone()), WireValue::Text(self.ts_code.clone())];
        assert(value_views(values@) =~= self.arguments());
        values
    }
}

/// Asks for the concepts with the most stocks at their upper limit.
#[derive(Debug, PartialEq, Eq)]
pub struct LimitCptListReq {
    pub trade_date: String,
    pub start_date: String,
    pub end_date: String,
}

impl LimitCptListReq {
    /// The name of the operation.
    pub fn api_name(&self) -> (name: &'static str)
        ensures
            name@ == <Self as Endpoint>::shape().operation_name,
    {
        "limit_cpt_list"
    }

    /// What the operation is for.
    pub fn description(&self) -> (text: &'static str)
        ensures
            text@ == <Self as Endpoint>::shape().description,
    {
        "获取每天涨停股票最多最强的概念板块"
    }

    /// The call that this request stands for, asking for the columns `fields`.
    pub fn with_fields(self, fields: Vec<&'static str>) -> (made: Requester)
        ensures
            made.endpoint() == <Self as Endpoint>::shape(),
            made.values() == self.arguments(),
            made.projection() == Some(slice_views(fields@)),
    {
        with_fields(&self, fields)
    }
}

impl Endpoint for LimitCptListReq {
    open spec fn shape() -> EndpointDescriptorView {
        EndpointDescriptorView {
            operation_name: "limit_cpt_list"@,
            description: "获取每天涨停股票最多最强的概念板块"@,
            parameters: plain_parameters(seq!["trade_date"@, "start_date"@, "end_date"@]),
            response_link: Some("LimitCptListItem"@),
        }
    }

    open spec fn arguments(&self) -> Seq<Json> {
        seq![
            Json::Text(self.trade_date@),
            Json::Text(self.start_date@),
            Json::Text(self.end_date@),
        ]
    }

    fn definition() -> (def: TypeDefinition) {
        let fields = vec![
            parameter_field("trade_date", false),
            parameter_field("start_date", false),
            parameter_field("end_date", false),
        ];
        let def = request_definition(
            "LimitCptListReq",
            "limit_cpt_list",
            "获取每天涨停股票最多最强的概念板块",
            "LimitCptListItem",
            fields,
        );
        assert(endpoint_of(def)->Ok_0.parameters =~= Self::shape().parameters);
        def
    }

    fn values(&self) -> (values: Vec<WireValue>) {
        let values = vec![
            WireValue::Text(self.trade_date.clone()),
            WireValue::Text(self.start_date.clone()),
            WireValue::Text(self.end_date.clone()),
        ];
        assert(value_views(values@) =~= self.arguments());
        values
    }
}

/// Asks for the money flow of one stock.
#[derive(Debug, PartialEq, Eq)]
pub struct ThsMoneyflowReq {
    pub ts_code: String,
    pub trade_date: String,
    pub start_date: String,
    pub end_date: String,
}

impl ThsMoneyflowReq {
    /// The name of the operation.
    pub fn api_name(&self) -> (name: &'static str)
        ensures
            name@ == <Self as Endpoint>::shape().operation_name,
    {
        "moneyflow_ths"
    }

    /// What the operation is for.
    pub fn description(&self) -> (text: &'static str)
        ensures
            text@ == <Self as Endpoint>::shape().description,
    {
        "获取同花顺个股资金流向数据"
    }

    /// The call that this request stands for, asking for the columns `fields`.
    pub fn with_fields(self, fields: Vec<&'static str>) -> (made: Requester)
        ensures
            made.endpoint() == <Self as Endpoint>::shape(),
            made.values() == self.arguments(),
            made.projection() == Some(slice_views(fields@)),
    {
        with_fields(&self, fields)
    }
}

impl Endpoint for ThsMoneyflowReq {
    open spec fn shape() -> EndpointDescriptorView {
        EndpointDescriptorView {
            operation_name: "moneyflow_ths"@,
            description: "获取同花顺个股资金流向数据"@,
            parameters: plain_parameters(seq!["ts_code"@, "trade_date"@, "start_date"@, "end_date"@]),
            response_link: Some("ThsMoneyflowItem"@),
        }
    }

    open spec fn arguments(&self) -> Seq<Json> {
        seq![
            Json::Text(self.ts_code@),
            Json::Text(self.trade_date@),
            Json::Text(self.start_date@),
            Json::Text(self.end_date@),
        ]
    }

    fn definition() -> (def: TypeDefinition) {
        let fields = vec![
            parameter_field("ts_code", false),
            parameter_field("trade_date", false),
            parameter_field("start_date", false),
            parameter_field("end_date", false),
        ];
        let def = request_definition(
            "ThsMoneyflowReq",
            "moneyflow_ths",
            "获取同花顺个股资金流向数据",
            "ThsMoneyflowItem",
            fields,
        );
        assert(endpoint_of(def)->Ok_0.parameters =~= Self::shape().parameters);
        def
    }

    fn values(&self) -> (values: Vec<WireValue>) {
        let values = vec![
            WireValue::Text(self.ts_code.clone()),
            WireValue::Text(self.trade_date.clone()),
            WireValue::Text(self.start_date.clone()),
            WireValue::Text(self.end_date.clone()),
        ];
        assert(value_views(values@) =~= self.arguments());
        values
    }
}

/// Asks for the daily money flow of the concepts.
#[derive(Debug, PartialEq, Eq)]
pub struct ThsMoneyflowCptReq {
    pub trade_date: String,
    pub start_date: String,
    pub end_date: String,
}

impl ThsMoneyflowCptReq {
    /// The name of the operation.
    pub fn api_name(&self) -> (name: &'static str)
        ensures
            name@ == <Self as Endpoint>::shape().operation_name,
    {
        "moneyflow_cnt_ths"
    }

    /// What the operation is for.
    pub fn description(&self) -> (text: &'static str)
        ensures
            text@ == <Self as Endpoint>::shape().description,
    {
        "获取同花顺概念板块每日资金流向"
    }

    /// The call that this request stands for, asking for the columns `fields`.
    pub fn with_fields(self, fields: Vec<&'static str>) -> (made: Requester)
        ensures
            made.endpoint() == <Self as Endpoint>::shape(),
            made.values() == self.arguments(),
            made.projection() == Some(slice_views(fields@)),
    {
        with_fields(&self, fields)
    }
}

impl Endpoint for ThsMoneyflowCptReq {
    open spec fn shape() -> EndpointDescriptorView {
        EndpointDescriptorView {
            operation_name: "moneyflow_cnt_ths"@,
            description: "获取同花顺概念板块每日资金流向"@,
            parameters: plain_parameters(seq!["trade_date"@, "start_date"@, "end_date"@]),
            response_link: Some("ThsMoneyflowCptItem"@),
        }
    }

    open spec fn arguments(&self) -> Seq<Json> {
        seq![
            Json::Text(self.trade_date@),
            Json::Text(self.start_date@),
            Json::Text(self.end_date@),
        ]
    }

    fn definition() -> (def: TypeDefinition) {
        let fields = vec![
            parameter_field("trade_date", false),
            parameter_field("start_date", false),
            parameter_field("end_date", false),
        ];
        let def = request_definition(
            "ThsMoneyflowCptReq",
            "moneyflow_cnt_ths",
            "获取同花顺概念板块每日资金流向",
            "ThsMoneyflowCptItem",
            fields,
        );
        assert(endpoint_of(def)->Ok_0.parameters =~= Self::shape().parameters);
        def
    }

    fn values(&self) -> (values: Vec<WireValue>) {
        let values = vec![
            WireValue::Text(self.trade_date.clone()),
            WireValue::Text(self.start_date.clone()),
            WireValue::Text(self.end_date.clone()),
        ];
        assert(value_views(values@) =~= self.arguments());
        values
    }
}

/// Asks for the minute bars of one stock.
#[derive(Debug, PartialEq, Eq)]
pub struct StkMinsReq {
    pub ts_code: String,
    pub freq: String,
    pub start_date: Option<String>,
    pub end_date: Option<String>,
}

impl StkMinsReq {
    /// The name of the operation.
    pub fn api_name(&self) -> (name: &'static str)
        ensures
            name@ == <Self as Endpoint>::shape().operation_name,
    {
        "stk_mins"
    }

    /// What the operation is for.
    pub fn description(&self) -> (text: &'static str)
        ensures
            text@ == <Self as Endpoint>::shape().description,
    {
        "获取A股分钟数据"
    }

    /// The call that this request stands for, asking for the columns `fields`.
    pub fn with_fields(self, fields: Vec<&'static str>) -> (made: Requester)
        ensures
            made.endpoint() == <Self as Endpoint>::shape(),
            made.values() == self.arguments(),
            made.projection() == Some(slice_views(fields@)),
    {
        with_fields(&self, fields)
    }
}

impl Endpoint for StkMinsReq {
    open spec fn shape() -> EndpointDescriptorView {
        EndpointDescriptorView {
            operation_name: "stk_mins"@,
            description: "获取A股分钟数据"@,
            parameters: plain_parameters(seq!["ts_code"@, "freq"@, "start_date"@, "end_date"@]),
            response_link: Some("StkMinsItem"@),
        }
    }

    open spec fn arguments(&self) -> Seq<Json> {
        seq![
            Json::Text(self.ts_code@),
            Json::Text(self.freq@),
            text_or_null(self.start_date),
            text_or_null(self.end_date),
        ]
    }

    fn definition() -> (def: TypeDefinition) {
        let fields = vec![
            parameter_field("ts_code", false),
            parameter_field("freq", false),
            parameter_field("start_date", true),
            parameter_field("end_date", true),
        ];
        let def = request_definition("StkMinsReq", "stk_mins", "获取A股分钟数据", "StkMinsItem", fields);
        assert(endpoint_of(def)->Ok_0.parameters =~= Self::shape().parameters);
        def
    }

    fn values(&self) -> (values: Vec<WireValue>) {
        let values = vec![
            WireValue::Text(self.ts_code.clone()),
            WireValue::Text(self.freq.clone()),
            text_or_null_value(&self.start_date),
            text_or_null_value(&self.end_date),
        ];
        assert(value_views(values@) =~= self.arguments());
        values
    }
}

} // verus!
