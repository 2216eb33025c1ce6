//! Descriptors: what is known of an endpoint and of the records it answers with.

use vstd::prelude::*;

verus! {

/// How a field is decoded when its wire value is missing, null or malformed.
#[derive(Debug, Clone, Copy, PartialEq, Eq, Structural)]
pub enum DecodePolicy {
    /// The value must be there and must convert.
    Required,
    /// A missing or null value is an absent value.
    Optional,
    /// A missing, null or malformed value is the default of the field's type.
    DefaultOnNull,
}

/// The type that a field of a record is declared with.
#[derive(Debug, Clone, Copy, PartialEq, Eq, Structural)]
pub enum ValueType {
    /// A text.
    Text,
    /// A truth value.
    Bool,
    /// A signed integer of 8 bits.
    Integer8,
    /// A signed integer of 16 bits.
    Integer16,
    /// A signed integer of 32 bits.
    Integer32,
    /// A signed integer of 64 bits.
    Integer64,
    /// An unsigned integer of 8 bits.
    Unsigned8,
    /// An unsigned integer of 16 bits.
    Unsigned16,
    /// An unsigned integer of 32 bits.
    Unsigned32,
    /// An unsigned integer of 64 bits.
    Unsigned64,
    /// A real number.
    Real,
    /// A value of any other type: the wire value is handed on as it is, for
    /// the caller to convert.
    Raw,
}

/// One field of a response record.
#[derive(Debug, PartialEq, Eq)]
pub struct FieldSpec {
    pub name: String,
    /// The position of the field's value in an item array.
    pub wire_index: usize,
    pub decode_policy: DecodePolicy,
    pub value_type: ValueType,
}

/// The mathematical value of a `FieldSpec`.
pub struct FieldSpecView {
    pub name: Seq<char>,
    pub wire_index: usize,
    pub decode_policy: DecodePolicy,
    pub value_type: ValueType,
}

impl View for FieldSpec {
    type V = FieldSpecView;

    open spec fn view(&self) -> FieldSpecView {
        FieldSpecView {
            name: self.name@,
            wire_index: self.wire_index,
            decode_policy: self.decode_policy,
            value_type: self.value_type,
        }
    }
}

impl Clone for FieldSpec {
    fn clone(&self) -> (res: Self)
        ensures
            res@ == self@,
    {
        FieldSpec {
            name: self.name.clone(),
            wire_index: self.wire_index,
            decode_policy: self.decode_policy,
            value_type: self.value_type,
        }
    }
}

/// The views of a sequence of field specifications.
pub open spec fn field_views(fields: Seq<FieldSpec>) -> Seq<FieldSpecView> {
    fields.map_values(|f: FieldSpec| f@)
}

/// The names of `fields`, in their order.
pub open spec fn field_names(fields: Seq<FieldSpecView>) -> Seq<Seq<char>> {
    fields.map_values(|f: FieldSpecView| f.name)
}

/// The shape of the records that an operation answers with.
#[derive(Debug, PartialEq, Eq)]
pub struct ResponseDescriptor {
    /// The name of the record type, by which endpoints refer to it.
    pub record_name: String,
    pub operation_name: String,
    pub fields: Vec<FieldSpec>,
}

/// The mathematical value of a `ResponseDescriptor`.
pub struct ResponseDescriptorView {
    pub record_name: Seq<char>,
    pub operation_name: Seq<char>,
    pub fields: Seq<FieldSpecView>,
}

impl View for ResponseDescriptor {
    type V = ResponseDescriptorView;

    open spec fn view(&self) -> ResponseDescriptorView {
        ResponseDescriptorView {
            record_name: self.record_name@,
            operation_name: self.operation_name@,
            fields: field_views(self.fields@),
        }
    }
}

/// Copies a sequence of field specifications.
pub fn clone_fields(fields: &Vec<FieldSpec>) -> (out: Vec<FieldSpec>)
    ensures
        field_views(out@) == field_views(fields@),
{
    let mut out: Vec<FieldSpec> = Vec::new();
    let mut i: usize = 0;
    while i < fields.len()
        invariant
            i <= fields.len(),
            out.len() == i,
            forall|k: int| 0 <= k < i ==> out@[k]@ == fields@[k]@,
        decreases fields.len() - i,
    {
        out.push(fields[i].clone());
        i += 1;
    }
    assert(field_views(out@) =~= field_views(fields@));
    out
}

impl Clone for ResponseDescriptor {
    fn clone(&self) -> (res: Self)
        ensures
            res@ == self@,
    {
        ResponseDescriptor {
            record_name: self.record_name.clone(),
            operation_name: self.operation_name.clone(),
            fields: clone_fields(&self.fields),
        }
    }
}

impl ResponseDescriptor {
    /// The names of the fields, in declared order.
    pub fn field_names(&self) -> (names: Vec<String>)
        ensures
            crate::text::text_views(names@) == field_names(self@.fields),
    {
        let mut names: Vec<String> = Vec::new();
        let mut i: usize = 0;
        while i < self.fields.len()
            invariant
                i <= self.fields.len(),
                names.len() == i,
                forall|k: int| 0 <= k < i ==> names@[k]@ == self.fields@[k].name@,
            decreases self.fields.len() - i,
        {
            names.push(self.fields[i].name.clone());
            i += 1;
        }
        assert(crate::text::text_views(names@) =~= field_names(self@.fields));
        names
    }
}

/// One parameter of a request: the field it is read from and the key it is sent under.
#[derive(Debug, PartialEq, Eq)]
pub struct ParameterSpec {
    pub field_name: String,
    pub wire_key: String,
}

/// The mathematical value of a `ParameterSpec`.
pub struct ParameterSpecView {
    pub field_name: Seq<char>,
    pub wire_key: Seq<char>,
}

impl View for ParameterSpec {
    type V = ParameterSpecView;

    open spec fn view(&self) -> ParameterSpecView {
        ParameterSpecView { field_name: self.field_name@, wire_key: self.wire_key@ }
    }
}

/// The views of a sequence of parameters.
pub open spec fn parameter_views(parameters: Seq<ParameterSpec>) -> Seq<ParameterSpecView> {
    parameters.map_values(|p: ParameterSpec| p@)
}

/// What is known of a remote operation and of the request that calls it.
#[derive(Debug, PartialEq, Eq)]
pub struct EndpointDescriptor {
    pub operation_name: String,
    pub description: String,
    pub parameters: Vec<ParameterSpec>,
    /// The name of the record type that the operation answers with, if it is known.
    pub response_link: Option<String>,
}

/// The mathematical value of an `EndpointDescriptor`.
pub struct EndpointDescriptorView {
    pub operation_name: Seq<char>,
    pub description: Seq<char>,
    pub parameters: Seq<ParameterSpecView>,
    pub response_link: Option<Seq<char>>,
}

/// The view of an optional text.
pub open spec fn optional_text(text: Option<String>) -> Option<Seq<char>> {
    match text {
        Some(t) => Some(t@),
        None => None,
    }
}

impl View for EndpointDescriptor {
    type V = EndpointDescriptorView;

    open spec fn view(&self) -> EndpointDescriptorView {
        EndpointDescriptorView {
            operation_name: self.operation_name@,
            description: self.description@,
            parameters: parameter_views(self.parameters@),
            response_link: optional_text(self.response_link),
        }
    }
}

impl FieldSpec {
    /// A field named `name`, read at `wire_index`.
    pub fn new(name: &str, wire_index: usize, decode_policy: DecodePolicy, value_type: ValueType) -> (field: FieldSpec)
        ensures
            field@ == (FieldSpecView { name: name@, wire_index, decode_policy, value_type }),
    {
        FieldSpec { name: String::from_str(name), wire_index, decode_policy, value_type }
    }
}

/// The views of a sequence of text slices.
pub open spec fn slice_views(names: Seq<&str>) -> Seq<Seq<char>> {
    names.map_values(|name: &str| name@)
}

/// Parameters that are sent under their own names.
pub open spec fn plain_parameters(names: Seq<Seq<char>>) -> Seq<ParameterSpecView> {
    names.map_values(|name: Seq<char>| ParameterSpecView { field_name: name, wire_key: name })
}

impl ParameterSpec {
    /// A parameter that is sent under its own name.
    pub fn plain(name: &str) -> (parameter: ParameterSpec)
        ensures
            parameter@ == (ParameterSpecView { field_name: name@, wire_key: name@ }),
    {
        ParameterSpec { field_name: String::from_str(name), wire_key: String::from_str(name) }
    }
}

impl EndpointDescriptor {
    /// The descriptor of an operation whose parameters are sent under their
    /// own names and whose answer has the record type `record_name`.
    pub fn plain(operation_name: &str, description: &str, names: &[&str], record_name: &str) -> (descriptor:
        EndpointDescriptor)
        ensures
            descriptor@ == (EndpointDescriptorView {
                operation_name: operation_name@,
                description: description@,
                parameters: plain_parameters(slice_views(names@)),
                response_link: Some(record_name@),
            }),
    {
        let mut parameters: Vec<ParameterSpec> = Vec::new();
        let mut i: usize = 0;
        while i < names.len()
            invariant
                i <= names.len(),
                parameters.len() == i,
                forall|k: int|
                    0 <= k < i ==> (#[trigger] parameters@[k])@ == (ParameterSpecView {
                        field_name: names@[k]@,
                        wire_key: names@[k]@,
                    }),
            decreases names.len() - i,
        {
            parameters.push(ParameterSpec::plain(names[i]));
            i += 1;
        }
        assert(parameter_views(parameters@) =~= plain_parameters(slice_views(names@)));
        EndpointDescriptor {
            operation_name: String::from_str(operation_name),
            description: String::from_str(description),
            parameters,
            response_link: Some(String::from_str(record_name)),
        }
    }
}

/// Whether no two fields are read at the same position.
pub open spec fn distinct_indices(fields: Seq<FieldSpecView>) -> bool {
    forall|i: int, j: int| 0 <= i < j < fields.len() ==> fields[i].wire_index != fields[j].wire_index
}

/// Whether each field is read at a position whose column bears its name.
pub open spec fn columns_agree(columns: Seq<Seq<char>>, fields: Seq<FieldSpecView>) -> bool {
    forall|i: int|
        0 <= i < fields.len() ==> {
            &&& (#[trigger] fields[i]).wire_index < columns.len()
            &&& columns[fields[i].wire_index as int] == fields[i].name
        }
}

impl ResponseDescriptor {
    /// Whether no two fields are read at the same position. Two fields at
    /// one position read the same wire value.
    pub fn has_distinct_indices(&self) -> (distinct: bool)
        ensures
            distinct == distinct_indices(self@.fields),
    {
        let n = self.fields.len();
        let mut j: usize = 0;
        while j < n
            invariant
                j <= n,
                n == self.fields.len(),
                forall|a: int, b: int| 0 <= a < b < j ==> self.fields@[a].wire_index != self.fields@[b].wire_index,
            decreases n - j,
        {
            let mut i: usize = 0;
            while i < j
                invariant
                    i <= j,
                    j < n,
                    n == self.fields.len(),
                    forall|a: int| 0 <= a < i ==> self.fields@[a].wire_index != self.fields@[j as int].wire_index,
                decreases j - i,
            {
                if self.fields[i].wire_index == self.fields[j].wire_index {
                    assert(self@.fields[i as int].wire_index == self@.fields[j as int].wire_index);
                    return false;
                }
                i += 1;
            }
            j += 1;
        }
        assert forall|a: int, b: int| 0 <= a < b < self@.fields.len() implies self@.fields[a].wire_index
            != self@.fields[b].wire_index by {
            assert(self@.fields[a] == self.fields@[a]@);
            assert(self@.fields[b] == self.fields@[b]@);
        }
        true
    }

    /// Whether the columns of a reply are those that the fields expect: each
    /// field is read at a position whose column bears the field's name.
    /// Where this holds, reading by position and reading by column name see
    /// the same values.
    pub fn agrees_with_columns(&self, columns: &Vec<String>) -> (agrees: bool)
        ensures
            agrees == columns_agree(crate::text::text_views(columns@), self@.fields),
    {
        let mut i: usize = 0;
        while i < self.fields.len()
            invariant
                i <= self.fields.len(),
                forall|k: int|
                    0 <= k < i ==> {
                        &&& (#[trigger] self.fields@[k]).wire_index < columns.len()
                        &&& columns@[self.fields@[k].wire_index as int]@ == self.fields@[k].name@
                    },
            decreases self.fields.len() - i,
        {
            let field = &self.fields[i];
            assert(self@.fields[i as int] == field@);
            if field.wire_index >= columns.len() {
                return false;
            }
            if columns[field.wire_index] != field.name {
                return false;
            }
            i += 1;
        }
        let ghost names = crate::text::text_views(columns@);
        assert forall|k: int| 0 <= k < self@.fields.len() implies {
            &&& (#[trigger] self@.fields[k]).wire_index < names.len()
            &&& names[self@.fields[k].wire_index as int] == self@.fields[k].name
        } by {
            assert(self@.fields[k] == self.fields@[k]@);
        }
        true
    }
}

} // verus!
