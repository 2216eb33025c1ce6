//! Typed requests and typed records: what a request type and a record type
//! have to say of themselves, and what follows for every such type.

use vstd::prelude::*;
use crate::binding::{Requester, TypedRequester};
use crate::decode::{conforms, decode, decoded_items, lemma_decoded_items_conform, record_views};
use crate::decode::{RecordView, ResponseRecord};
use crate::definition::TypeDefinition;
use crate::descriptor::{slice_views, EndpointDescriptor, EndpointDescriptorView};
use crate::descriptor::{ResponseDescriptor, ResponseDescriptorView};
use crate::envelope::{envelope_of, WireEnvelope};
use crate::parser::{endpoint_of, response_of, ts_endpoint_derive, ts_response_derive, DescriptorError};
use crate::request::{CallError, CallErrorView};
use crate::value::{value_views, Json, WireValue};

verus! {

/// A request type: its values are the calls of one endpoint.
pub trait Endpoint: Sized {
    /// The endpoint that the type calls.
    spec fn shape() -> EndpointDescriptorView;

    /// The values of the parameters of a request, in declared order.
    spec fn arguments(&self) -> Seq<Json>;

    /// The annotated definition of the type, from which its endpoint is derived.
    fn definition() -> (def: TypeDefinition)
        ensures
            endpoint_of(def) == Ok::<EndpointDescriptorView, DescriptorError>(Self::shape()),
    ;

    /// The descriptor of the endpoint, derived from the definition of the type.
    fn descriptor() -> (descriptor: EndpointDescriptor)
        ensures
            descriptor@ == Self::shape(),
    {
        match ts_endpoint_derive(&Self::definition()) {
            Ok(descriptor) => descriptor,
            Err(_) => unreached(),
        }
    }

    /// The values of the parameters, one for each and in declared order.
    fn values(&self) -> (values: Vec<WireValue>)
        ensures
            value_views(values@) == self.arguments(),
            values@.len() == Self::shape().parameters.len(),
    ;
}

/// A record type: its values are the records of one descriptor.
pub trait Record: Sized {
    /// The descriptor of the record type.
    spec fn shape() -> ResponseDescriptorView;

    /// The record that a value stands for.
    spec fn as_record(&self) -> RecordView;

    /// The annotated definition of the type, from which its descriptor is derived.
    fn definition() -> (def: TypeDefinition)
        ensures
            response_of(def) == Ok::<ResponseDescriptorView, DescriptorError>(Self::shape()),
    ;

    /// The descriptor of the record type, derived from the definition of the type.
    fn descriptor() -> (descriptor: ResponseDescriptor)
        ensures
            descriptor@ == Self::shape(),
    {
        match ts_response_derive(&Self::definition()) {
            Ok(descriptor) => descriptor,
            Err(_) => unreached(),
        }
    }

    /// The value that stands for `record`; `None` where the record has not
    /// the fields of the descriptor.
    fn from_record(record: &ResponseRecord) -> (made: Option<Self>)
        ensures
            made is Some <==> conforms(record@, Self::shape().fields),
            made matches Some(value) ==> value.as_record() == record@,
    ;
}

/// The records that a sequence of typed values stands for.
pub open spec fn as_records<R: Record>(values: Seq<R>) -> Seq<RecordView> {
    values.map_values(|value: R| value.as_record())
}

/// The call that a request stands for, with no projection chosen.
pub fn requester<E: Endpoint>(request: &E) -> (made: Requester)
    ensures
        made.endpoint() == E::shape(),
        made.values() == request.arguments(),
        made.projection() is None,
{
    let descriptor = E::descriptor();
    let values = request.values();
    assert(descriptor.parameters@.len() == descriptor@.parameters.len());
    match Requester::new(descriptor, values, None) {
        Some(made) => made,
        None => unreached(),
    }
}

/// The call that a request stands for, asking for the columns `fields`.
pub fn with_fields<E: Endpoint>(request: &E, fields: Vec<&str>) -> (made: Requester)
    ensures
        made.endpoint() == E::shape(),
        made.values() == request.arguments(),
        made.projection() == Some(slice_views(fields@)),
{
    requester(request).with_fields(fields)
}

/// The call that a request stands for, with its reply decoded as records of
/// the type `R`; `None` where the endpoint is not linked to that type.
pub fn typed_requester<E: Endpoint, R: Record>(request: &E) -> (made: Option<TypedRequester>)
    ensures
        made is Some <==> E::shape().response_link == Some(R::shape().record_name),
        made matches Some(typed) ==> {
            &&& typed.endpoint() == E::shape()
            &&& typed.values() == request.arguments()
            &&& typed.projection() is None
            &&& typed.response() == R::shape()
        },
{
    requester(request).typed(R::descriptor())
}

/// The typed values that stand for `records`; `None` where a record has not
/// the fields of the descriptor.
pub fn from_records<R: Record>(records: &Vec<ResponseRecord>) -> (made: Option<Vec<R>>)
    ensures
        made is Some <==> forall|k: int|
            0 <= k < records@.len() ==> conforms(#[trigger] record_views(records@)[k], R::shape().fields),
        made matches Some(values) ==> as_records(values@) == record_views(records@),
{
    let mut values: Vec<R> = Vec::new();
    let mut k: usize = 0;
    while k < records.len()
        invariant
            k <= records.len(),
            values.len() == k,
            forall|j: int| 0 <= j < k ==> conforms(#[trigger] record_views(records@)[j], R::shape().fields),
            forall|j: int| 0 <= j < k ==> (#[trigger] values@[j]).as_record() == records@[j]@,
        decreases records.len() - k,
    {
        assert(record_views(records@)[k as int] == records@[k as int]@);
        match R::from_record(&records[k]) {
            Some(value) => {
                values.push(value);
            },
            None => {
                return None;
            },
        }
        k += 1;
    }
    assert(as_records(values@) =~= record_views(records@));
    Some(values)
}

/// The records of a payload, or the reason why it has none.
pub open spec fn payload_records(descriptor: ResponseDescriptorView, payload: Json) -> Result<
    Seq<RecordView>,
    CallErrorView,
> {
    match envelope_of(payload) {
        None => Err(CallErrorView::MalformedEnvelope),
        Some(envelope) => match decoded_items(descriptor.fields, envelope.items) {
            Err(e) => Err(CallErrorView::Decode(e)),
            Ok(records) => Ok(records),
        },
    }
}

/// Reads the payload of a reply as values of the record type `R`: one per
/// item and in the order of the items, or the failure of the first item
/// that fails.
pub fn from_json<R: Record>(payload: &WireValue) -> (outcome: Result<Vec<R>, CallError>)
    ensures
        match outcome {
            Ok(values) => payload_records(R::shape(), payload@) == Ok::<Seq<RecordView>, CallErrorView>(
                as_records(values@),
            ),
            Err(e) => payload_records(R::shape(), payload@) == Err::<Seq<RecordView>, CallErrorView>(e@),
        },
{
    let envelope = match WireEnvelope::from_payload(payload) {
        Some(envelope) => envelope,
        None => {
            return Err(CallError::MalformedEnvelope);
        },
    };
    let descriptor = R::descriptor();
    let records = match decode(&envelope, &descriptor) {
        Ok(records) => records,
        Err(e) => {
            return Err(CallError::Decode(e));
        },
    };
    proof {
        lemma_decoded_items_conform(descriptor@.fields, envelope@.items);
    }
    match from_records::<R>(&records) {
        Some(values) => Ok(values),
        None => unreached(),
    }
}

} // verus!
