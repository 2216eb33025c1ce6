//! The request executor, but for the network call itself: what is sent, and
//! what is made of the reply.

use vstd::prelude::*;
use crate::decode::{decode, decoded_items, record_views, DecodeError, DecodeErrorView, RecordView, ResponseRecord};
use crate::descriptor::{columns_agree, optional_text, parameter_views, EndpointDescriptor, EndpointDescriptorView};
use crate::descriptor::FieldSpecView;
use crate::descriptor::{ParameterSpec, ParameterSpecView, ResponseDescriptor, ResponseDescriptorView};
use crate::envelope::{envelope_of, WireEnvelope, WireEnvelopeView};
use crate::text::{comma_joined, join_with_commas, text_views};
use crate::value::{clone_members, member_of, member_views, value_views, Json, WireValue};

verus! {

/// Why a call gives no result.
#[derive(Debug, PartialEq, Eq)]
pub enum CallError {
    /// No authentication token is configured.
    MissingCredential,
    /// The transport answered with a status that is no success.
    TransportError { status: u16 },
    /// The payload holds no envelope.
    MalformedEnvelope,
    /// An item of the envelope gives no record.
    Decode(DecodeError),
}

/// The mathematical value of a `CallError`.
pub enum CallErrorView {
    MissingCredential,
    TransportError { status: u16 },
    MalformedEnvelope,
    Decode(DecodeErrorView),
}

impl View for CallError {
    type V = CallErrorView;

    open spec fn view(&self) -> CallErrorView {
        match self {
            CallError::MissingCredential => CallErrorView::MissingCredential,
            CallError::TransportError { status } => CallErrorView::TransportError { status: *status },
            CallError::MalformedEnvelope => CallErrorView::MalformedEnvelope,
            CallError::Decode(e) => CallErrorView::Decode(e@),
        }
    }
}

/// What is sent for one call.
#[derive(Debug, PartialEq, Eq)]
pub struct RequestEnvelope {
    pub operation_name: String,
    pub token: String,
    /// The parameters, each under its wire key, in declared order.
    pub params: Vec<(String, WireValue)>,
    /// The names of the columns asked for, joined by commas.
    pub fields: Option<String>,
}

/// The mathematical value of a `RequestEnvelope`.
pub struct RequestEnvelopeView {
    pub operation_name: Seq<char>,
    pub token: Seq<char>,
    pub params: Seq<(Seq<char>, Json)>,
    pub fields: Option<Seq<char>>,
}

impl View for RequestEnvelope {
    type V = RequestEnvelopeView;

    open spec fn view(&self) -> RequestEnvelopeView {
        RequestEnvelopeView {
            operation_name: self.operation_name@,
            token: self.token@,
            params: member_views(self.params@),
            fields: optional_text(self.fields),
        }
    }
}

/// The parameter object of a request: the value of each parameter under the
/// parameter's wire key, in declared order.
pub open spec fn params_of(parameters: Seq<ParameterSpecView>, values: Seq<Json>) -> Seq<(Seq<char>, Json)>
    recommends
        parameters.len() == values.len(),
{
    Seq::new(parameters.len(), |i: int| (parameters[i].wire_key, values[i]))
}

/// The view of an optional list of names.
pub open spec fn optional_names(names: Option<Vec<String>>) -> Option<Seq<Seq<char>>> {
    match names {
        Some(n) => Some(text_views(n@)),
        None => None,
    }
}

/// The `fields` parameter that a projection is sent as.
pub open spec fn projection_text(projection: Option<Seq<Seq<char>>>) -> Option<Seq<char>> {
    match projection {
        Some(names) => Some(comma_joined(names)),
        None => None,
    }
}

/// The request that calls `endpoint` with `values`, or the reason why none is sent.
pub open spec fn request_of(
    endpoint: EndpointDescriptorView,
    values: Seq<Json>,
    token: Option<Seq<char>>,
    projection: Option<Seq<Seq<char>>>,
) -> Result<RequestEnvelopeView, CallErrorView> {
    match token {
        None => Err(CallErrorView::MissingCredential),
        Some(t) => Ok(
            RequestEnvelopeView {
                operation_name: endpoint.operation_name,
                token: t,
                params: params_of(endpoint.parameters, values),
                fields: projection_text(projection),
            },
        ),
    }
}

/// Builds the parameter object of a request.
pub(crate) fn build_params(parameters: &Vec<ParameterSpec>, values: &Vec<WireValue>) -> (params: Vec<
    (String, WireValue),
>)
    requires
        parameters.len() == values.len(),
    ensures
        member_views(params@) == params_of(parameter_views(parameters@), value_views(values@)),
{
    let mut params: Vec<(String, WireValue)> = Vec::new();
    let mut i: usize = 0;
    while i < parameters.len()
        invariant
            i <= parameters.len(),
            parameters.len() == values.len(),
            params.len() == i,
            forall|k: int|
                0 <= k < i ==> (#[trigger] params@[k]).0@ == parameters@[k].wire_key@ && params@[k].1@
                    == values@[k]@,
        decreases parameters.len() - i,
    {
        let key = parameters[i].wire_key.clone();
        let value = values[i].clone();
        params.push((key, value));
        i += 1;
    }
    assert(member_views(params@) =~= params_of(parameter_views(parameters@), value_views(values@)));
    params
}

/// Builds the request that calls `endpoint` with `values`.
///
/// Without a token nothing is sent. A projection is sent as one text, its
/// names joined by commas; without a projection the request has no `fields`.
pub(crate) fn build_request(
    endpoint: &EndpointDescriptor,
    values: &Vec<WireValue>,
    token: &Option<String>,
    projection: &Option<Vec<String>>,
) -> (built: Result<RequestEnvelope, CallError>)
    requires
        endpoint.parameters.len() == values.len(),
    ensures
        match built {
            Ok(request) => request_of(
                endpoint@,
                value_views(values@),
                optional_text(*token),
                optional_names(*projection),
            ) == Ok::<RequestEnvelopeView, CallErrorView>(request@),
            Err(e) => request_of(
                endpoint@,
                value_views(values@),
                optional_text(*token),
                optional_names(*projection),
            ) == Err::<RequestEnvelopeView, CallErrorView>(e@),
        },
{
    let token = match token {
        Some(t) => t.clone(),
        None => {
            return Err(CallError::MissingCredential);
        },
    };
    let fields = match projection {
        Some(names) => Some(join_with_commas(names)),
        None => None,
    };
    Ok(
        RequestEnvelope {
            operation_name: endpoint.operation_name.clone(),
            token,
            params: build_params(&endpoint.parameters, values),
            fields,
        },
    )
}

/// The body of a request: an object with the members `operation_name`,
/// `token`, `params` and, where a projection was given, `fields`.
pub open spec fn body_of(request: RequestEnvelopeView) -> Json {
    let head = seq![
        ("operation_name"@, Json::Text(request.operation_name)),
        ("token"@, Json::Text(request.token)),
        ("params"@, Json::Object(request.params)),
    ];
    match request.fields {
        Some(fields) => Json::Object(head.push(("fields"@, Json::Text(fields)))),
        None => Json::Object(head),
    }
}

impl RequestEnvelope {
    /// The body that is sent for this request.
    pub fn to_wire(&self) -> (body: WireValue)
        ensures
            body@ == body_of(self@),
    {
        let mut members: Vec<(String, WireValue)> = Vec::new();
        members.push((String::from_str("operation_name"), WireValue::Text(self.operation_name.clone())));
        members.push((String::from_str("token"), WireValue::Text(self.token.clone())));
        members.push((String::from_str("params"), WireValue::Object(clone_members(&self.params))));
        match &self.fields {
            Some(fields) => {
                members.push((String::from_str("fields"), WireValue::Text(fields.clone())));
                assert(member_views(members@) =~= seq![
                    ("operation_name"@, Json::Text(self@.operation_name)),
                    ("token"@, Json::Text(self@.token)),
                    ("params"@, Json::Object(self@.params)),
                ].push(("fields"@, Json::Text(fields@))));
            },
            None => {
                assert(member_views(members@) =~= seq![
                    ("operation_name"@, Json::Text(self@.operation_name)),
                    ("token"@, Json::Text(self@.token)),
                    ("params"@, Json::Object(self@.params)),
                ]);
            },
        }
        WireValue::Object(members)
    }
}

/// What came back for one call: the status of the transport and, where the
/// body could be read as a value, that value.
#[derive(Debug, PartialEq, Eq)]
pub struct Reply {
    pub status: u16,
    pub payload: Option<WireValue>,
}

/// The view of an optional wire value.
pub open spec fn optional_value(value: Option<WireValue>) -> Option<Json> {
    match value {
        Some(v) => Some(v@),
        None => None,
    }
}

/// Whether a status of the transport reports success.
pub open spec fn is_success(status: u16) -> bool {
    200 <= status < 300
}

/// The envelope of a reply, or the reason why it has none.
pub open spec fn received(status: u16, payload: Option<Json>) -> Result<WireEnvelopeView, CallErrorView> {
    if !is_success(status) {
        Err(CallErrorView::TransportError { status })
    } else {
        match payload {
            None => Err(CallErrorView::MalformedEnvelope),
            Some(p) => match envelope_of(p) {
                None => Err(CallErrorView::MalformedEnvelope),
                Some(envelope) => Ok(envelope),
            },
        }
    }
}

/// The records of a reply, or the reason why it has none.
pub open spec fn received_records(descriptor: ResponseDescriptorView, status: u16, payload: Option<Json>) -> Result<
    Seq<RecordView>,
    CallErrorView,
> {
    match received(status, payload) {
        Err(e) => Err(e),
        Ok(envelope) => match decoded_items(descriptor.fields, envelope.items) {
            Err(e) => Err(CallErrorView::Decode(e)),
            Ok(records) => Ok(records),
        },
    }
}

/// One loosely typed row: the values of an item array, each under the name
/// that the envelope gives its column.
pub open spec fn row_of(fields: Seq<Seq<char>>, item: Seq<Json>) -> Seq<(Seq<char>, Json)> {
    Seq::new(if fields.len() <= item.len() { fields.len() } else { item.len() }, |i: int| (fields[i], item[i]))
}

/// The rows of an envelope, one per item and in their order.
pub open spec fn rows_of(envelope: WireEnvelopeView) -> Seq<Seq<(Seq<char>, Json)>> {
    envelope.items.map_values(|item: Seq<Json>| row_of(envelope.fields, item))
}

/// The values of a sequence of rows.
pub open spec fn row_views(rows: Seq<Vec<(String, WireValue)>>) -> Seq<Seq<(Seq<char>, Json)>> {
    rows.map_values(|row: Vec<(String, WireValue)>| member_views(row@))
}

/// The rows of a reply, or the reason why it has none.
pub open spec fn received_rows(status: u16, payload: Option<Json>) -> Result<
    Seq<Seq<(Seq<char>, Json)>>,
    CallErrorView,
> {
    match received(status, payload) {
        Err(e) => Err(e),
        Ok(envelope) => Ok(rows_of(envelope)),
    }
}

/// Checks the status of a reply and reads the envelope out of its payload.
pub fn receive(reply: &Reply) -> (outcome: Result<WireEnvelope, CallError>)
    ensures
        match outcome {
            Ok(envelope) => received(reply.status, optional_value(reply.payload)) == Ok::<
                WireEnvelopeView,
                CallErrorView,
            >(envelope@),
            Err(e) => received(reply.status, optional_value(reply.payload)) == Err::<
                WireEnvelopeView,
                CallErrorView,
            >(e@),
        },
{
    if reply.status < 200 || reply.status >= 300 {
        return Err(CallError::TransportError { status: reply.status });
    }
    match &reply.payload {
        None => Err(CallError::MalformedEnvelope),
        Some(payload) => match WireEnvelope::from_payload(payload) {
            None => Err(CallError::MalformedEnvelope),
            Some(envelope) => Ok(envelope),
        },
    }
}

/// Reads the records out of a reply, by the fields of `descriptor`.
pub fn receive_records(descriptor: &ResponseDescriptor, reply: &Reply) -> (outcome: Result<
    Vec<ResponseRecord>,
    CallError,
>)
    ensures
        match outcome {
            Ok(records) => received_records(descriptor@, reply.status, optional_value(reply.payload)) == Ok::<
                Seq<RecordView>,
                CallErrorView,
            >(record_views(records@)),
            Err(e) => received_records(descriptor@, reply.status, optional_value(reply.payload)) == Err::<
                Seq<RecordView>,
                CallErrorView,
            >(e@),
        },
{
    let envelope = match receive(reply) {
        Ok(envelope) => envelope,
        Err(e) => {
            return Err(e);
        },
    };
    match decode(&envelope, descriptor) {
        Ok(records) => Ok(records),
        Err(e) => Err(CallError::Decode(e)),
    }
}

/// Pairs the values of one item array with the names of the columns.
pub fn zip_row(fields: &Vec<String>, item: &Vec<WireValue>) -> (row: Vec<(String, WireValue)>)
    ensures
        member_views(row@) == row_of(text_views(fields@), value_views(item@)),
{
    let mut row: Vec<(String, WireValue)> = Vec::new();
    let mut i: usize = 0;
    while i < fields.len() && i < item.len()
        invariant
            i <= fields.len(),
            i <= item.len(),
            row.len() == i,
            forall|k: int| 0 <= k < i ==> row@[k].0@ == fields@[k]@ && row@[k].1@ == item@[k]@,
        decreases fields.len() - i,
    {
        let name = fields[i].clone();
        let value = item[i].clone();
        row.push((name, value));
        i += 1;
    }
    assert(member_views(row@) =~= row_of(text_views(fields@), value_views(item@)));
    row
}

/// Reads an envelope as loosely typed rows, by the envelope's own column names.
pub fn rows(envelope: &WireEnvelope) -> (out: Vec<Vec<(String, WireValue)>>)
    ensures
        row_views(out@) == rows_of(envelope@),
{
    let mut out: Vec<Vec<(String, WireValue)>> = Vec::new();
    let mut k: usize = 0;
    while k < envelope.items.len()
        invariant
            k <= envelope.items.len(),
            out.len() == k,
            forall|j: int|
                0 <= j < k ==> member_views(out@[j]@) == row_of(
                    text_views(envelope.fields@),
                    value_views(envelope.items@[j]@),
                ),
        decreases envelope.items.len() - k,
    {
        let row = zip_row(&envelope.fields, &envelope.items[k]);
        out.push(row);
        k += 1;
    }
    assert(row_views(out@) =~= rows_of(envelope@));
    out
}

/// Reads the rows out of a reply.
pub fn receive_rows(reply: &Reply) -> (outcome: Result<Vec<Vec<(String, WireValue)>>, CallError>)
    ensures
        match outcome {
            Ok(out) => received_rows(reply.status, optional_value(reply.payload)) == Ok::<
                Seq<Seq<(Seq<char>, Json)>>,
                CallErrorView,
            >(row_views(out@)),
            Err(e) => received_rows(reply.status, optional_value(reply.payload)) == Err::<
                Seq<Seq<(Seq<char>, Json)>>,
                CallErrorView,
            >(e@),
        },
{
    match receive(reply) {
        Ok(envelope) => Ok(rows(&envelope)),
        Err(e) => Err(e),
    }
}

/// Looking a key up among the first `n` members finds what the whole object
/// holds under it, where no later member is written under that key.
proof fn lemma_member_of_prefix(members: Seq<(Seq<char>, Json)>, key: Seq<char>, n: int)
    requires
        0 <= n <= members.len(),
        forall|j: int| n <= j < members.len() ==> (#[trigger] members[j]).0 != key,
    ensures
        member_of(members, key) == member_of(members.take(n), key),
    decreases members.len() - n,
{
    if n == members.len() {
        assert(members.take(n) =~= members);
    } else {
        let front = members.drop_last();
        assert(members.last() == members[members.len() - 1]);
        assert(forall|j: int| 0 <= j < front.len() ==> front[j] == members[j]);
        lemma_member_of_prefix(front, key, n);
        assert(front.take(n) =~= members.take(n));
    }
}

/// The parameters of a request can be read back. The parameter object holds
/// under the wire key of a parameter the value that was given for it,
/// provided that no later parameter is sent under the same key: the
/// declared wire keys recover each pair of a parameter and its value.
pub proof fn lemma_params_read_back(parameters: Seq<ParameterSpecView>, values: Seq<Json>, i: int)
    requires
        parameters.len() == values.len(),
        0 <= i < parameters.len(),
        forall|j: int| i < j < parameters.len() ==> (#[trigger] parameters[j]).wire_key != parameters[i].wire_key,
    ensures
        member_of(params_of(parameters, values), parameters[i].wire_key) == Some(values[i]),
{
    let params = params_of(parameters, values);
    let key = parameters[i].wire_key;
    assert forall|j: int| i + 1 <= j < params.len() implies (#[trigger] params[j]).0 != key by {
        assert(params[j].0 == parameters[j].wire_key);
    }
    lemma_member_of_prefix(params, key, i + 1);
    assert(params.take(i + 1).last() == params[i]);
}

/// The two ways of reading an item see the same values where the columns
/// of the envelope are those that the fields expect: the row holds, at the
/// position of a field, the name of the field and the value that the field
/// is decoded from.
pub proof fn lemma_agreeing_columns_read_alike(
    columns: Seq<Seq<char>>,
    fields: Seq<FieldSpecView>,
    item: Seq<Json>,
    i: int,
)
    requires
        columns_agree(columns, fields),
        0 <= i < fields.len(),
        fields[i].wire_index < item.len(),
    ensures
        fields[i].wire_index < row_of(columns, item).len(),
        row_of(columns, item)[fields[i].wire_index as int] == (fields[i].name, item[fields[i].wire_index as int]),
{
}

} // verus!
