//! Bindings: a request that is ready to be sent, and what its reply is read as.
//!
//! A binding does not reach the network. It gives the request to send, and
//! reads the reply that came back for it.

use vstd::prelude::*;
use crate::decode::{record_views, RecordView, ResponseRecord};
use crate::descriptor::{field_names, optional_text, slice_views, EndpointDescriptor, EndpointDescriptorView};
use crate::descriptor::{ResponseDescriptor, ResponseDescriptorView};
use crate::envelope::{WireEnvelope, WireEnvelopeView};
use crate::request::{build_request, optional_names, optional_value, receive, receive_records, receive_rows};
use crate::request::{received, received_records, received_rows, request_of, row_views};
use crate::request::{CallError, CallErrorView, Reply, RequestEnvelope, RequestEnvelopeView};
use crate::text::text_views;
use crate::value::{value_views, Json, WireValue};

verus! {

/// Copies a list of names.
pub fn own_names(names: &Vec<&str>) -> (owned: Vec<String>)
    ensures
        text_views(owned@) == slice_views(names@),
{
    let mut owned: Vec<String> = Vec::new();
    let mut i: usize = 0;
    while i < names.len()
        invariant
            i <= names.len(),
            owned.len() == i,
            forall|k: int| 0 <= k < i ==> (#[trigger] owned@[k])@ == names@[k]@,
        decreases names.len() - i,
    {
        owned.push(String::from_str(names[i]));
        i += 1;
    }
    assert(text_views(owned@) =~= slice_views(names@));
    owned
}

/// The view of an optional list of text slices.
pub open spec fn optional_slices(names: Option<Vec<&str>>) -> Option<Seq<Seq<char>>> {
    match names {
        Some(n) => Some(slice_views(n@)),
        None => None,
    }
}

/// A call of an endpoint: the values of its parameters and, where one was
/// chosen, the list of columns to ask for.
pub struct Requester {
    endpoint: EndpointDescriptor,
    values: Vec<WireValue>,
    fields: Option<Vec<String>>,
}

impl Requester {
    #[verifier::type_invariant]
    spec fn one_value_per_parameter(&self) -> bool {
        self.values.len() == self.endpoint.parameters.len()
    }

    /// The endpoint that is called.
    pub closed spec fn endpoint(&self) -> EndpointDescriptorView {
        self.endpoint@
    }

    /// The values of the parameters, in declared order.
    pub closed spec fn values(&self) -> Seq<Json> {
        value_views(self.values@)
    }

    /// The columns to ask for, if a list was chosen.
    pub closed spec fn projection(&self) -> Option<Seq<Seq<char>>> {
        optional_names(self.fields)
    }

    /// A call of `endpoint` with one value for each of its parameters, in
    /// declared order; `None` where the number of values is another.
    pub fn new(endpoint: EndpointDescriptor, values: Vec<WireValue>, fields: Option<Vec<&str>>) -> (made: Option<
        Requester,
    >)
        ensures
            made is Some <==> values.len() == endpoint.parameters.len(),
            made matches Some(requester) ==> {
                &&& requester.endpoint() == endpoint@
                &&& requester.values() == value_views(values@)
                &&& requester.projection() == optional_slices(fields)
            },
    {
        if values.len() == endpoint.parameters.len() {
            let fields = match &fields {
                Some(names) => Some(own_names(names)),
                None => None,
            };
            Some(Requester { endpoint, values, fields })
        } else {
            None
        }
    }

    /// The same call, asking for the columns `fields`.
    pub fn with_fields(self, fields: Vec<&str>) -> (chained: Requester)
        ensures
            chained.endpoint() == self.endpoint(),
            chained.values() == self.values(),
            chained.projection() == Some(slice_views(fields@)),
    {
        proof {
            use_type_invariant(&self);
        }
        Requester { endpoint: self.endpoint, values: self.values, fields: Some(own_names(&fields)) }
    }

    /// The request to send: the parameters under their wire keys and the
    /// projection that was chosen, if any. Without a token there is none.
    pub fn request(&self, token: &Option<String>) -> (built: Result<RequestEnvelope, CallError>)
        ensures
            match built {
                Ok(request) => request_of(self.endpoint(), self.values(), optional_text(*token), self.projection())
                    == Ok::<RequestEnvelopeView, CallErrorView>(request@),
                Err(e) => request_of(self.endpoint(), self.values(), optional_text(*token), self.projection())
                    == Err::<RequestEnvelopeView, CallErrorView>(e@),
            },
    {
        proof {
            use_type_invariant(self);
        }
        build_request(&self.endpoint, &self.values, token, &self.fields)
    }

    /// Reads the reply as it is: the envelope, not decoded.
    pub fn execute(&self, reply: &Reply) -> (outcome: Result<WireEnvelope, CallError>)
        ensures
            match outcome {
                Ok(envelope) => received(reply.status, optional_value(reply.payload)) == Ok::<
                    WireEnvelopeView,
                    CallErrorView,
                >(envelope@),
                Err(e) => received(reply.status, optional_value(reply.payload)) == Err::<
                    WireEnvelopeView,
                    CallErrorView,
                >(e@),
            },
    {
        receive(reply)
    }

    /// Reads the reply as loosely typed rows, by the envelope's own column names.
    pub fn execute_as_dicts(&self, reply: &Reply) -> (outcome: Result<Vec<Vec<(String, WireValue)>>, CallError>)
        ensures
            match outcome {
                Ok(rows) => received_rows(reply.status, optional_value(reply.payload)) == Ok::<
                    Seq<Seq<(Seq<char>, Json)>>,
                    CallErrorView,
                >(row_views(rows@)),
                Err(e) => received_rows(reply.status, optional_value(reply.payload)) == Err::<
                    Seq<Seq<(Seq<char>, Json)>>,
                    CallErrorView,
                >(e@),
            },
    {
        receive_rows(reply)
    }

    /// The same call with typed decoding, by the record type `response`;
    /// `None` where the endpoint is not linked to that record type.
    pub fn typed(self, response: ResponseDescriptor) -> (made: Option<TypedRequester>)
        ensures
            made is Some <==> self.endpoint().response_link == Some(response@.record_name),
            made matches Some(typed) ==> {
                &&& typed.endpoint() == self.endpoint()
                &&& typed.values() == self.values()
                &&& typed.projection() == self.projection()
                &&& typed.response() == response@
            },
    {
        let linked = match &self.endpoint.response_link {
            Some(name) => *name == response.record_name,
            None => false,
        };
        if linked {
            Some(TypedRequester { requester: self, response })
        } else {
            None
        }
    }
}

/// A call of an endpoint whose reply is decoded into records.
pub struct TypedRequester {
    requester: Requester,
    response: ResponseDescriptor,
}

/// The projection of a typed call: the one that was chosen, else the names
/// of all fields of the record type, in declared order.
pub open spec fn typed_projection(chosen: Option<Seq<Seq<char>>>, response: ResponseDescriptorView) -> Option<
    Seq<Seq<char>>,
> {
    match chosen {
        Some(names) => Some(names),
        None => Some(field_names(response.fields)),
    }
}

impl TypedRequester {
    /// The endpoint that is called.
    pub closed spec fn endpoint(&self) -> EndpointDescriptorView {
        self.requester.endpoint()
    }

    /// The values of the parameters, in declared order.
    pub closed spec fn values(&self) -> Seq<Json> {
        self.requester.values()
    }

    /// The columns to ask for, if a list was chosen.
    pub closed spec fn projection(&self) -> Option<Seq<Seq<char>>> {
        self.requester.projection()
    }

    /// The record type that the reply is decoded by.
    pub closed spec fn response(&self) -> ResponseDescriptorView {
        self.response@
    }

    /// The same call, asking for the columns `fields`.
    pub fn with_fields(self, fields: Vec<&str>) -> (chained: TypedRequester)
        ensures
            chained.endpoint() == self.endpoint(),
            chained.values() == self.values(),
            chained.response() == self.response(),
            chained.projection() == Some(slice_views(fields@)),
    {
        TypedRequester { requester: self.requester.with_fields(fields), response: self.response }
    }

    /// The request to send. Where no projection was chosen, it asks for all
    /// fields of the record type, by name and in declared order, so that the
    /// positions of the descriptor hold for the reply.
    pub fn request(&self, token: &Option<String>) -> (built: Result<RequestEnvelope, CallError>)
        ensures
            match built {
                Ok(request) => request_of(
                    self.endpoint(),
                    self.values(),
                    optional_text(*token),
                    typed_projection(self.projection(), self.response()),
                ) == Ok::<RequestEnvelopeView, CallErrorView>(request@),
                Err(e) => request_of(
                    self.endpoint(),
                    self.values(),
                    optional_text(*token),
                    typed_projection(self.projection(), self.response()),
                ) == Err::<RequestEnvelopeView, CallErrorView>(e@),
            },
    {
        proof {
            use_type_invariant(&self.requester);
        }
        match &self.requester.fields {
            Some(_) => build_request(&self.requester.endpoint, &self.requester.values, token, &self.requester.fields),
            None => {
                let names = Some(self.response.field_names());
                build_request(&self.requester.endpoint, &self.requester.values, token, &names)
            },
        }
    }

    /// Reads the reply as records of the record type.
    pub fn execute_typed(&self, reply: &Reply) -> (outcome: Result<Vec<ResponseRecord>, CallError>)
        ensures
            match outcome {
                Ok(records) => received_records(self.response(), reply.status, optional_value(reply.payload)) == Ok::<
                    Seq<RecordView>,
                    CallErrorView,
                >(record_views(records@)),
                Err(e) => received_records(self.response(), reply.status, optional_value(reply.payload)) == Err::<
                    Seq<RecordView>,
                    CallErrorView,
                >(e@),
            },
    {
        receive_records(&self.response, reply)
    }
}

} // verus!
