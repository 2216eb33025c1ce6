//! The descriptor parser: from an annotated type definition to a descriptor.
//!
//! The operation of a request type is named by an `endpoint` annotation, with
//! the settings `api`, `desc` and, where the answer has a record type, `resp`.
//! The operation of a record type is named by a `response` annotation, with
//! the setting `api`. A field of a record carries its position in a
//! `ts_field` annotation. The `serde` annotation of a field may rename a
//! parameter (`rename`) or give a record field a default (`default`).
//!
//! A type is known by the last identifier of its path: `Option` and
//! `std::option::Option` are the same type, and `resp = model::Item` links
//! to the record type `Item`.

use vstd::prelude::*;
use crate::collect::{first_value, scan, try_map, Reading};
use crate::collect::{lemma_first_value_skip, lemma_scan_prefix_malformed, lemma_scan_step};
use crate::collect::{lemma_try_map_failure, lemma_try_map_prefix_failure, lemma_try_map_step};
use crate::collect::lemma_try_map_success;
use crate::definition::{Annotation, FieldDefinition, MetaItem, MetaValue, TypeDefinition, TypeRef, TypeShape};
use crate::descriptor::{DecodePolicy, EndpointDescriptor, EndpointDescriptorView, FieldSpec, FieldSpecView};
use crate::descriptor::{ParameterSpec, ParameterSpecView, ResponseDescriptor, ResponseDescriptorView, ValueType};
use crate::descriptor::{field_views, parameter_views};
use crate::text::text_is;

verus! {

/// Why a definition gives no descriptor.
#[derive(Debug, Clone, Copy, PartialEq, Eq, Structural)]
pub enum DescriptorError {
    /// A request type does not name its operation and description.
    MissingEndpointMetadata,
    /// A record type does not name its operation.
    MissingResponseMetadata,
    /// The type is not a struct with named fields.
    UnsupportedShape,
    /// A field of a record type declares no position.
    MissingFieldIndex,
    /// A parameter is renamed to something that is no text.
    UnresolvedRename,
}

/// The view of a reading of a text.
pub open spec fn reading_view(r: Reading<String>) -> Reading<Seq<char>> {
    match r {
        Reading::Nothing => Reading::Nothing,
        Reading::Value(t) => Reading::Value(t@),
        Reading::Malformed => Reading::Malformed,
    }
}

/// Reads an annotation by its name.
pub open spec fn named(name: Seq<char>) -> spec_fn(Annotation) -> Option<Annotation> {
    |a: Annotation| if a.name@ == name { Some(a) } else { None }
}

/// Reads the text that an entry sets under `key`.
pub open spec fn text_under(key: Seq<char>) -> spec_fn(MetaItem) -> Option<Seq<char>> {
    |item: MetaItem|
        match item {
            MetaItem::Pair { key: k, value: MetaValue::Text(t) } => if k@ == key { Some(t@) } else { None },
            _ => None,
        }
}

/// Reads the name of the type that an entry sets under `key`: the last
/// identifier of the path that is written there.
pub open spec fn link_under(key: Seq<char>) -> spec_fn(MetaItem) -> Option<Seq<char>> {
    |item: MetaItem|
        match item {
            MetaItem::Pair { key: k, value: MetaValue::Path(p) } => if k@ == key && p@.len() > 0 {
                Some(p@.last()@)
            } else {
                None
            },
            _ => None,
        }
}

/// Reads a `rename` entry: its text, or unreadable where it sets no text.
pub open spec fn rename_in_item() -> spec_fn(MetaItem) -> Reading<Seq<char>> {
    |item: MetaItem|
        if item.key() == Some("rename"@) {
            match item {
                MetaItem::Pair { value: MetaValue::Text(t), .. } => Reading::Value(t@),
                _ => Reading::Malformed,
            }
        } else {
            Reading::Nothing
        }
}

/// Reads the renames of a `serde` annotation.
pub open spec fn rename_in_annotation() -> spec_fn(Annotation) -> Reading<Seq<char>> {
    |a: Annotation| if a.name@ == "serde"@ { scan(a.items@, rename_in_item()) } else { Reading::Nothing }
}

/// The wire key that the annotations of a field declare: that of the last
/// rename, provided that every rename sets a text.
pub open spec fn declared_rename(annotations: Seq<Annotation>) -> Reading<Seq<char>> {
    scan(annotations, rename_in_annotation())
}

/// Reads a `ts_field` annotation: the one integer it holds, or unreadable.
pub open spec fn index_in_annotation() -> spec_fn(Annotation) -> Reading<usize> {
    |a: Annotation|
        if a.name@ == "ts_field"@ {
            if a.items@.len() == 1 {
                match a.items@[0] {
                    MetaItem::Literal { value: MetaValue::Integer(n) } => Reading::Value(n),
                    _ => Reading::Malformed,
                }
            } else {
                Reading::Malformed
            }
        } else {
            Reading::Nothing
        }
}

/// The position that the annotations of a field declare: that of the last
/// `ts_field`, provided that each holds one integer and nothing else.
pub open spec fn declared_index(annotations: Seq<Annotation>) -> Reading<usize> {
    scan(annotations, index_in_annotation())
}

/// Whether an annotation is a `serde` annotation with an entry `default`.
pub open spec fn default_in_annotation(a: Annotation) -> bool {
    a.name@ == "serde"@ && exists|j: int| 0 <= j < a.items@.len() && (#[trigger] a.items@[j].key()) == Some("default"@)
}

/// Whether the annotations of a field ask for the default of its type.
pub open spec fn declares_default(annotations: Seq<Annotation>) -> bool {
    exists|i: int| 0 <= i < annotations.len() && default_in_annotation(#[trigger] annotations[i])
}

/// Whether a type is an `Option` of something: a path whose last identifier
/// is `Option`, however the path is qualified.
pub open spec fn is_option(ty: TypeRef) -> bool {
    ty.segments@.len() > 0 && ty.segments@.last()@ == "Option"@
}

/// The value type that the last identifier of a type stands for: a text
/// for `String`, a truth value for `bool`, an integer for `i8` to `i64` and
/// `u8` to `u64`, a real number for `f64` and `f32`. Every other type, and
/// a type that is no path, is raw: its values are handed on as they are.
pub open spec fn named_value_type(ty: TypeRef) -> ValueType {
    if ty.segments@.len() == 0 {
        ValueType::Raw
    } else {
        let last = ty.segments@.last()@;
        if last == "String"@ {
            ValueType::Text
        } else if last == "bool"@ {
            ValueType::Bool
        } else if last == "i8"@ {
            ValueType::Integer8
        } else if last == "i16"@ {
            ValueType::Integer16
        } else if last == "i32"@ {
            ValueType::Integer32
        } else if last == "i64"@ {
            ValueType::Integer64
        } else if last == "u8"@ {
            ValueType::Unsigned8
        } else if last == "u16"@ {
            ValueType::Unsigned16
        } else if last == "u32"@ {
            ValueType::Unsigned32
        } else if last == "u64"@ {
            ValueType::Unsigned64
        } else if last == "f64"@ || last == "f32"@ {
            ValueType::Real
        } else {
            ValueType::Raw
        }
    }
}

/// The value type of a field: that of its type, or of what its `Option`
/// holds. An `Option` without an argument is raw.
pub open spec fn declared_value_type(ty: TypeRef) -> ValueType {
    if is_option(ty) {
        if ty.arguments@.len() > 0 {
            named_value_type(ty.arguments@[0])
        } else {
            ValueType::Raw
        }
    } else {
        named_value_type(ty)
    }
}

/// The decode policy of a field: optional where its type is an `Option`,
/// else defaulting where a default is asked for, else required.
pub open spec fn declared_policy(field: FieldDefinition) -> DecodePolicy {
    if is_option(field.ty) {
        DecodePolicy::Optional
    } else if declares_default(field.annotations@) {
        DecodePolicy::DefaultOnNull
    } else {
        DecodePolicy::Required
    }
}

/// The specification of one record field: every field with a position has
/// one, whatever its type.
pub open spec fn field_spec_of(field: FieldDefinition) -> Result<FieldSpecView, DescriptorError> {
    match declared_index(field.annotations@) {
        Reading::Value(index) => Ok(
            FieldSpecView {
                name: field.name@,
                wire_index: index,
                decode_policy: declared_policy(field),
                value_type: declared_value_type(field.ty),
            },
        ),
        _ => Err(DescriptorError::MissingFieldIndex),
    }
}

/// The specification of one request parameter.
pub open spec fn parameter_of(field: FieldDefinition) -> Result<ParameterSpecView, DescriptorError> {
    match declared_rename(field.annotations@) {
        Reading::Nothing => Ok(ParameterSpecView { field_name: field.name@, wire_key: field.name@ }),
        Reading::Value(key) => Ok(ParameterSpecView { field_name: field.name@, wire_key: key }),
        Reading::Malformed => Err(DescriptorError::UnresolvedRename),
    }
}

/// `field_spec_of`, as a function on fields.
pub open spec fn field_parser() -> spec_fn(FieldDefinition) -> Result<FieldSpecView, DescriptorError> {
    |f: FieldDefinition| field_spec_of(f)
}

/// `parameter_of`, as a function on fields.
pub open spec fn parameter_parser() -> spec_fn(FieldDefinition) -> Result<ParameterSpecView, DescriptorError> {
    |f: FieldDefinition| parameter_of(f)
}

/// The operation that a `response` annotation names.
pub open spec fn response_operation(annotations: Seq<Annotation>) -> Option<Seq<char>> {
    match first_value(annotations, named("response"@)) {
        Some(a) => first_value(a.items@, text_under("api"@)),
        None => None,
    }
}

/// The descriptor of a record type, or the reason why it has none.
pub open spec fn response_of(def: TypeDefinition) -> Result<ResponseDescriptorView, DescriptorError> {
    match response_operation(def.annotations@) {
        None => Err(DescriptorError::MissingResponseMetadata),
        Some(operation) => if def.shape != TypeShape::NamedStruct {
            Err(DescriptorError::UnsupportedShape)
        } else {
            match try_map(def.fields@, field_parser()) {
                Err(e) => Err(e),
                Ok(fields) => Ok(
                    ResponseDescriptorView { record_name: def.name@, operation_name: operation, fields },
                ),
            }
        },
    }
}

/// What an `endpoint` annotation says.
pub struct EndpointMetadata {
    pub operation_name: Seq<char>,
    pub description: Seq<char>,
    pub response_link: Option<Seq<char>>,
}

/// The metadata of the first `endpoint` annotation, if it names an operation
/// and a description.
pub open spec fn endpoint_metadata(annotations: Seq<Annotation>) -> Option<EndpointMetadata> {
    match first_value(annotations, named("endpoint"@)) {
        None => None,
        Some(a) => match (first_value(a.items@, text_under("api"@)), first_value(a.items@, text_under("desc"@))) {
            (Some(operation_name), Some(description)) => Some(
                EndpointMetadata {
                    operation_name,
                    description,
                    response_link: first_value(a.items@, link_under("resp"@)),
                },
            ),
            _ => None,
        },
    }
}

/// The descriptor of a request type, or the reason why it has none.
pub open spec fn endpoint_of(def: TypeDefinition) -> Result<EndpointDescriptorView, DescriptorError> {
    match endpoint_metadata(def.annotations@) {
        None => Err(DescriptorError::MissingEndpointMetadata),
        Some(metadata) => if def.shape != TypeShape::NamedStruct {
            Err(DescriptorError::UnsupportedShape)
        } else {
            match try_map(def.fields@, parameter_parser()) {
                Err(e) => Err(e),
                Ok(parameters) => Ok(
                    EndpointDescriptorView {
                        operation_name: metadata.operation_name,
                        description: metadata.description,
                        parameters,
                        response_link: metadata.response_link,
                    },
                ),
            }
        },
    }
}

/// Finds the first annotation named `name`.
pub fn find_annotation<'a>(annotations: &'a Vec<Annotation>, name: &str) -> (found: Option<&'a Annotation>)
    ensures
        match found {
            Some(a) => first_value(annotations@, named(name@)) == Some(*a),
            None => first_value(annotations@, named(name@)) is None,
        },
{
    let mut i: usize = 0;
    assert(annotations@.skip(0) =~= annotations@);
    while i < annotations.len()
        invariant
            i <= annotations.len(),
            first_value(annotations@, named(name@)) == first_value(annotations@.skip(i as int), named(name@)),
        decreases annotations.len() - i,
    {
        proof {
            lemma_first_value_skip(annotations@, named(name@), i as int);
        }
        if text_is(&annotations[i].name, name) {
            return Some(&annotations[i]);
        }
        i += 1;
    }
    None
}

/// Finds the text of the first entry that sets one under `key`.
pub fn find_text(items: &Vec<MetaItem>, key: &str) -> (found: Option<String>)
    ensures
        crate::descriptor::optional_text(found) == first_value(items@, text_under(key@)),
{
    let mut i: usize = 0;
    assert(items@.skip(0) =~= items@);
    while i < items.len()
        invariant
            i <= items.len(),
            first_value(items@, text_under(key@)) == first_value(items@.skip(i as int), text_under(key@)),
        decreases items.len() - i,
    {
        proof {
            lemma_first_value_skip(items@, text_under(key@), i as int);
        }
        match &items[i] {
            MetaItem::Pair { key: k, value: MetaValue::Text(t) } => {
                if text_is(k, key) {
                    return Some(t.clone());
                }
            },
            _ => {},
        }
        i += 1;
    }
    None
}

/// Finds the name of the type that the first entry with a path under `key`
/// sets: the last identifier of that path.
pub fn find_link(items: &Vec<MetaItem>, key: &str) -> (found: Option<String>)
    ensures
        crate::descriptor::optional_text(found) == first_value(items@, link_under(key@)),
{
    let mut i: usize = 0;
    assert(items@.skip(0) =~= items@);
    while i < items.len()
        invariant
            i <= items.len(),
            first_value(items@, link_under(key@)) == first_value(items@.skip(i as int), link_under(key@)),
        decreases items.len() - i,
    {
        proof {
            lemma_first_value_skip(items@, link_under(key@), i as int);
        }
        match &items[i] {
            MetaItem::Pair { key: k, value: MetaValue::Path(p) } => {
                if text_is(k, key) && p.len() > 0 {
                    return Some(p[p.len() - 1].clone());
                }
            },
            _ => {},
        }
        i += 1;
    }
    None
}

/// Reads the renames among the entries of one annotation.
fn read_rename_entries(items: &Vec<MetaItem>) -> (found: Reading<String>)
    ensures
        reading_view(found) == scan(items@, rename_in_item()),
{
    let mut found: Reading<String> = Reading::Nothing;
    let mut i: usize = 0;
    while i < items.len()
        invariant
            i <= items.len(),
            reading_view(found) == scan(items@.take(i as int), rename_in_item()),
            !(found is Malformed),
        decreases items.len() - i,
    {
        proof {
            lemma_scan_step(items@, rename_in_item(), i as int);
        }
        if items[i].has_key("rename") {
            match &items[i] {
                MetaItem::Pair { value: MetaValue::Text(t), .. } => {
                    found = Reading::Value(t.clone());
                },
                _ => {
                    proof {
                        lemma_scan_prefix_malformed(items@, rename_in_item(), i + 1);
                    }
                    return Reading::Malformed;
                },
            }
        }
        i += 1;
    }
    assert(items@.take(items.len() as int) =~= items@);
    found
}

/// Reads the wire key that the annotations of a field declare.
pub fn read_rename(annotations: &Vec<Annotation>) -> (found: Reading<String>)
    ensures
        reading_view(found) == declared_rename(annotations@),
{
    let mut found: Reading<String> = Reading::Nothing;
    let mut i: usize = 0;
    while i < annotations.len()
        invariant
            i <= annotations.len(),
            reading_view(found) == scan(annotations@.take(i as int), rename_in_annotation()),
            !(found is Malformed),
        decreases annotations.len() - i,
    {
        proof {
            lemma_scan_step(annotations@, rename_in_annotation(), i as int);
        }
        if text_is(&annotations[i].name, "serde") {
            match read_rename_entries(&annotations[i].items) {
                Reading::Nothing => {},
                Reading::Value(t) => {
                    found = Reading::Value(t);
                },
                Reading::Malformed => {
                    proof {
                        lemma_scan_prefix_malformed(annotations@, rename_in_annotation(), i + 1);
                    }
                    return Reading::Malformed;
                },
            }
        }
        i += 1;
    }
    assert(annotations@.take(annotations.len() as int) =~= annotations@);
    found
}

/// Reads the position that the annotations of a field declare.
pub fn read_index(annotations: &Vec<Annotation>) -> (found: Reading<usize>)
    ensures
        found == declared_index(annotations@),
{
    let mut found: Reading<usize> = Reading::Nothing;
    let mut i: usize = 0;
    while i < annotations.len()
        invariant
            i <= annotations.len(),
            found == scan(annotations@.take(i as int), index_in_annotation()),
            !(found is Malformed),
        decreases annotations.len() - i,
    {
        proof {
            lemma_scan_step(annotations@, index_in_annotation(), i as int);
        }
        let a = &annotations[i];
        if text_is(&a.name, "ts_field") {
            let mut index: Option<usize> = None;
            if a.items.len() == 1 {
                match &a.items[0] {
                    MetaItem::Literal { value: MetaValue::Integer(n) } => {
                        index = Some(*n);
                    },
                    _ => {},
                }
            }
            match index {
                Some(n) => {
                    found = Reading::Value(n);
                },
                None => {
                    proof {
                        lemma_scan_prefix_malformed(annotations@, index_in_annotation(), i + 1);
                    }
                    return Reading::Malformed;
                },
            }
        }
        i += 1;
    }
    assert(annotations@.take(annotations.len() as int) =~= annotations@);
    found
}

/// Whether the entries of an annotation hold a `default`.
fn has_default_entry(items: &Vec<MetaItem>) -> (b: bool)
    ensures
        b == exists|j: int| 0 <= j < items@.len() && (#[trigger] items@[j].key()) == Some("default"@),
{
    let mut j: usize = 0;
    while j < items.len()
        invariant
            j <= items.len(),
            forall|k: int| 0 <= k < j ==> (#[trigger] items@[k].key()) != Some("default"@),
        decreases items.len() - j,
    {
        if items[j].has_key("default") {
            return true;
        }
        j += 1;
    }
    false
}

/// Whether the annotations of a field ask for the default of its type.
pub fn has_default(annotations: &Vec<Annotation>) -> (b: bool)
    ensures
        b == declares_default(annotations@),
{
    let mut i: usize = 0;
    while i < annotations.len()
        invariant
            i <= annotations.len(),
            forall|k: int| 0 <= k < i ==> !default_in_annotation(#[trigger] annotations@[k]),
        decreases annotations.len() - i,
    {
        if text_is(&annotations[i].name, "serde") {
            if has_default_entry(&annotations[i].items) {
                assert(default_in_annotation(annotations@[i as int]));
                return true;
            }
        }
        i += 1;
    }
    false
}

/// Whether a type is an `Option` of something, however its path is qualified.
pub fn field_type_is_option(ty: &TypeRef) -> (b: bool)
    ensures
        b == is_option(*ty),
{
    let n = ty.segments.len();
    if n > 0 {
        text_is(&ty.segments[n - 1], "Option")
    } else {
        false
    }
}

/// The value type that the last identifier of a type stands for.
fn value_type_named(ty: &TypeRef) -> (t: ValueType)
    ensures
        t == named_value_type(*ty),
{
    let n = ty.segments.len();
    if n == 0 {
        ValueType::Raw
    } else {
        let last = &ty.segments[n - 1];
        if text_is(last, "String") {
            ValueType::Text
        } else if text_is(last, "bool") {
            ValueType::Bool
        } else if text_is(last, "i8") {
            ValueType::Integer8
        } else if text_is(last, "i16") {
            ValueType::Integer16
        } else if text_is(last, "i32") {
            ValueType::Integer32
        } else if text_is(last, "i64") {
            ValueType::Integer64
        } else if text_is(last, "u8") {
            ValueType::Unsigned8
        } else if text_is(last, "u16") {
            ValueType::Unsigned16
        } else if text_is(last, "u32") {
            ValueType::Unsigned32
        } else if text_is(last, "u64") {
            ValueType::Unsigned64
        } else if text_is(last, "f64") || text_is(last, "f32") {
            ValueType::Real
        } else {
            ValueType::Raw
        }
    }
}

/// The value type of a field: that of its type, or of what its `Option` holds.
pub fn value_type_of(ty: &TypeRef) -> (t: ValueType)
    ensures
        t == declared_value_type(*ty),
{
    if field_type_is_option(ty) {
        if ty.arguments.len() > 0 {
            value_type_named(&ty.arguments[0])
        } else {
            ValueType::Raw
        }
    } else {
        value_type_named(ty)
    }
}

/// Derives the specification of one record field.
pub fn parse_field(field: &FieldDefinition) -> (parsed: Result<FieldSpec, DescriptorError>)
    ensures
        match parsed {
            Ok(spec) => field_spec_of(*field) == Ok::<FieldSpecView, DescriptorError>(spec@),
            Err(e) => field_spec_of(*field) == Err::<FieldSpecView, DescriptorError>(e),
        },
{
    match read_index(&field.annotations) {
        Reading::Value(index) => {
            let decode_policy = if field_type_is_option(&field.ty) {
                DecodePolicy::Optional
            } else if has_default(&field.annotations) {
                DecodePolicy::DefaultOnNull
            } else {
                DecodePolicy::Required
            };
            Ok(
                FieldSpec {
                    name: field.name.clone(),
                    wire_index: index,
                    decode_policy,
                    value_type: value_type_of(&field.ty),
                },
            )
        },
        _ => Err(DescriptorError::MissingFieldIndex),
    }
}

/// Derives the specification of one request parameter.
pub fn parse_parameter(field: &FieldDefinition) -> (parsed: Result<ParameterSpec, DescriptorError>)
    ensures
        match parsed {
            Ok(spec) => parameter_of(*field) == Ok::<ParameterSpecView, DescriptorError>(spec@),
            Err(e) => parameter_of(*field) == Err::<ParameterSpecView, DescriptorError>(e),
        },
{
    match read_rename(&field.annotations) {
        Reading::Nothing => Ok(
            ParameterSpec { field_name: field.name.clone(), wire_key: field.name.clone() },
        ),
        Reading::Value(key) => Ok(ParameterSpec { field_name: field.name.clone(), wire_key: key }),
        Reading::Malformed => Err(DescriptorError::UnresolvedRename),
    }
}

/// Derives the descriptor of a record type from its annotated definition.
///
/// The type must carry a `response` annotation that names its operation, be
/// a struct with named fields, and declare a position for each field.
pub fn ts_response_derive(input: &TypeDefinition) -> (derived: Result<ResponseDescriptor, DescriptorError>)
    ensures
        match derived {
            Ok(d) => response_of(*input) == Ok::<ResponseDescriptorView, DescriptorError>(d@),
            Err(e) => response_of(*input) == Err::<ResponseDescriptorView, DescriptorError>(e),
        },
{
    let operation = match find_annotation(&input.annotations, "response") {
        Some(a) => find_text(&a.items, "api"),
        None => None,
    };
    let operation_name = match operation {
        Some(name) => name,
        None => {
            return Err(DescriptorError::MissingResponseMetadata);
        },
    };
    match input.shape {
        TypeShape::NamedStruct => {},
        _ => {
            return Err(DescriptorError::UnsupportedShape);
        },
    }
    let mut fields: Vec<FieldSpec> = Vec::new();
    let mut i: usize = 0;
    assert(input.fields@.take(0) =~= Seq::<FieldDefinition>::empty());
    assert(field_views(fields@) =~= Seq::<FieldSpecView>::empty());
    while i < input.fields.len()
        invariant
            i <= input.fields.len(),
            response_operation(input.annotations@) is Some,
            input.shape == TypeShape::NamedStruct,
            try_map(input.fields@.take(i as int), field_parser()) == Ok::<Seq<FieldSpecView>, DescriptorError>(
                field_views(fields@),
            ),
        decreases input.fields.len() - i,
    {
        proof {
            lemma_try_map_step(input.fields@, field_parser(), i as int);
        }
        match parse_field(&input.fields[i]) {
            Ok(spec) => {
                let ghost before = field_views(fields@);
                fields.push(spec);
                assert(field_views(fields@) =~= before.push(spec@));
            },
            Err(e) => {
                proof {
                    lemma_try_map_prefix_failure(input.fields@, field_parser(), i + 1);
                }
                return Err(e);
            },
        }
        i += 1;
    }
    assert(input.fields@.take(input.fields.len() as int) =~= input.fields@);
    Ok(ResponseDescriptor { record_name: input.name.clone(), operation_name, fields })
}

/// Derives the descriptor of a request type from its annotated definition.
///
/// The type must carry an `endpoint` annotation that names its operation and
/// description, and be a struct with named fields. Each field is a
/// parameter, sent under its own name unless it is renamed.
pub fn ts_endpoint_derive(input: &TypeDefinition) -> (derived: Result<EndpointDescriptor, DescriptorError>)
    ensures
        match derived {
            Ok(d) => endpoint_of(*input) == Ok::<EndpointDescriptorView, DescriptorError>(d@),
            Err(e) => endpoint_of(*input) == Err::<EndpointDescriptorView, DescriptorError>(e),
        },
{
    let annotation = match find_annotation(&input.annotations, "endpoint") {
        Some(a) => a,
        None => {
            return Err(DescriptorError::MissingEndpointMetadata);
        },
    };
    let operation_name = match find_text(&annotation.items, "api") {
        Some(name) => name,
        None => {
            return Err(DescriptorError::MissingEndpointMetadata);
        },
    };
    let description = match find_text(&annotation.items, "desc") {
        Some(text) => text,
        None => {
            return Err(DescriptorError::MissingEndpointMetadata);
        },
    };
    let response_link = find_link(&annotation.items, "resp");
    match input.shape {
        TypeShape::NamedStruct => {},
        _ => {
            return Err(DescriptorError::UnsupportedShape);
        },
    }
    let mut parameters: Vec<ParameterSpec> = Vec::new();
    let mut i: usize = 0;
    assert(input.fields@.take(0) =~= Seq::<FieldDefinition>::empty());
    assert(parameter_views(parameters@) =~= Seq::<ParameterSpecView>::empty());
    while i < input.fields.len()
        invariant
            i <= input.fields.len(),
            endpoint_metadata(input.annotations@) is Some,
            input.shape == TypeShape::NamedStruct,
            try_map(input.fields@.take(i as int), parameter_parser()) == Ok::<
                Seq<ParameterSpecView>,
                DescriptorError,
            >(parameter_views(parameters@)),
        decreases input.fields.len() - i,
    {
        proof {
            lemma_try_map_step(input.fields@, parameter_parser(), i as int);
        }
        match parse_parameter(&input.fields[i]) {
            Ok(spec) => {
                let ghost before = parameter_views(parameters@);
                parameters.push(spec);
                assert(parameter_views(parameters@) =~= before.push(spec@));
            },
            Err(e) => {
                proof {
                    lemma_try_map_prefix_failure(input.fields@, parameter_parser(), i + 1);
                }
                return Err(e);
            },
        }
        i += 1;
    }
    assert(input.fields@.take(input.fields.len() as int) =~= input.fields@);
    Ok(EndpointDescriptor { operation_name, description, parameters, response_link })
}

/// Every field with a position has a specification, whatever type it is
/// declared with: its own name, the position it declares, and the policy
/// that its type and its annotations give. The policy is optional exactly
/// where the type is an `Option`, with or without a default asked for;
/// defaulting exactly where the type is no `Option` and a default is asked
/// for; required otherwise. A field is refused only for want of a position.
pub proof fn lemma_positioned_field_has_specification(field: FieldDefinition)
    ensures
        field_spec_of(field) is Ok <==> declared_index(field.annotations@) is Value,
        field_spec_of(field) matches Err(e) ==> e == DescriptorError::MissingFieldIndex,
        field_spec_of(field) matches Ok(spec) ==> {
            &&& spec.name == field.name@
            &&& declared_index(field.annotations@) == Reading::Value(spec.wire_index)
            &&& spec.decode_policy is Optional <==> is_option(field.ty)
            &&& spec.decode_policy is DefaultOnNull <==> !is_option(field.ty) && declares_default(field.annotations@)
            &&& spec.decode_policy is Required <==> !is_option(field.ty) && !declares_default(field.annotations@)
        },
{
}

/// A record type that names its operation, is a struct with named fields
/// and gives every field a position has a descriptor: one specification
/// per field, in declared order, each with the name and the position of
/// its field. A record type without a descriptor lacks its metadata, is of
/// another shape, or has a field without a position, and the failure says
/// which, in this order.
pub proof fn lemma_response_descriptor_is_owed(def: TypeDefinition)
    ensures
        response_of(def) is Ok <==> {
            &&& response_operation(def.annotations@) is Some
            &&& def.shape == TypeShape::NamedStruct
            &&& forall|i: int|
                0 <= i < def.fields@.len() ==> declared_index((#[trigger] def.fields@[i]).annotations@) is Value
        },
        response_of(def) matches Ok(descriptor) ==> {
            &&& descriptor.record_name == def.name@
            &&& Some(descriptor.operation_name) == response_operation(def.annotations@)
            &&& descriptor.fields.len() == def.fields@.len()
            &&& forall|i: int|
                0 <= i < def.fields@.len() ==> field_spec_of(def.fields@[i]) == Ok::<FieldSpecView, DescriptorError>(
                    #[trigger] descriptor.fields[i],
                )
        },
        response_of(def) matches Err(e) ==> {
            &&& e is MissingResponseMetadata <==> response_operation(def.annotations@) is None
            &&& e is UnsupportedShape <==> response_operation(def.annotations@) is Some && def.shape
                != TypeShape::NamedStruct
            &&& e is MissingFieldIndex <==> response_operation(def.annotations@) is Some && def.shape
                == TypeShape::NamedStruct
            &&& e is MissingResponseMetadata || e is UnsupportedShape || e is MissingFieldIndex
        },
{
    let fields = def.fields@;
    lemma_try_map_success(fields, field_parser());
    assert forall|i: int| 0 <= i < fields.len() implies ((#[trigger] field_parser()(fields[i])) is Ok
        <==> declared_index(fields[i].annotations@) is Value) by {
        lemma_positioned_field_has_specification(fields[i]);
    }
    if try_map(fields, field_parser()) is Err {
        let at = lemma_try_map_failure(fields, field_parser());
        lemma_positioned_field_has_specification(fields[at]);
    }
    if response_of(def) is Ok {
        assert forall|i: int| 0 <= i < fields.len() implies declared_index(
            (#[trigger] fields[i]).annotations@,
        ) is Value by {
            assert(field_parser()(fields[i]) is Ok);
        }
    }
    if forall|i: int| 0 <= i < fields.len() ==> declared_index((#[trigger] fields[i]).annotations@) is Value {
        assert forall|i: int| 0 <= i < fields.len() implies (#[trigger] field_parser()(fields[i])) is Ok by {
            assert(declared_index(fields[i].annotations@) is Value);
        }
    }
}

/// A request type that names its operation and description and is a struct
/// with named fields has a descriptor, unless a rename sets no text: one
/// parameter per field, in declared order, each under the name of its
/// field. The failure says what is wrong, in this order: the metadata, the
/// shape, a rename.
pub proof fn lemma_endpoint_descriptor_is_owed(def: TypeDefinition)
    ensures
        endpoint_of(def) is Ok <==> {
            &&& endpoint_metadata(def.annotations@) is Some
            &&& def.shape == TypeShape::NamedStruct
            &&& forall|i: int|
                0 <= i < def.fields@.len() ==> !(declared_rename((#[trigger] def.fields@[i]).annotations@) is Malformed)
        },
        endpoint_of(def) matches Ok(descriptor) ==> {
            &&& descriptor.parameters.len() == def.fields@.len()
            &&& forall|i: int|
                0 <= i < def.fields@.len() ==> (#[trigger] descriptor.parameters[i]).field_name == def.fields@[i].name@
        },
        endpoint_of(def) matches Err(e) ==> {
            &&& e is MissingEndpointMetadata <==> endpoint_metadata(def.annotations@) is None
            &&& e is UnsupportedShape <==> endpoint_metadata(def.annotations@) is Some && def.shape
                != TypeShape::NamedStruct
            &&& e is UnresolvedRename <==> endpoint_metadata(def.annotations@) is Some && def.shape
                == TypeShape::NamedStruct
            &&& e is MissingEndpointMetadata || e is UnsupportedShape || e is UnresolvedRename
        },
{
    let fields = def.fields@;
    lemma_try_map_success(fields, parameter_parser());
    assert forall|i: int| 0 <= i < fields.len() implies ((#[trigger] parameter_parser()(fields[i])) is Ok
        <==> !(declared_rename(fields[i].annotations@) is Malformed)) by {}
    if try_map(fields, parameter_parser()) is Err {
        lemma_try_map_failure(fields, parameter_parser());
    }
    if endpoint_of(def) is Ok {
        let descriptor = endpoint_of(def)->Ok_0;
        assert forall|i: int| 0 <= i < fields.len() implies !(declared_rename(
            (#[trigger] fields[i]).annotations@,
        ) is Malformed) by {
            assert(parameter_parser()(fields[i]) is Ok);
        }
        assert forall|i: int| 0 <= i < fields.len() implies (#[trigger] descriptor.parameters[i]).field_name
            == fields[i].name@ by {
            assert(parameter_parser()(fields[i]) == Ok::<ParameterSpecView, DescriptorError>(
                descriptor.parameters[i],
            ));
        }
    }
    if forall|i: int| 0 <= i < fields.len() ==> !(declared_rename((#[trigger] fields[i]).annotations@) is Malformed) {
        assert forall|i: int| 0 <= i < fields.len() implies (#[trigger] parameter_parser()(fields[i])) is Ok by {
            assert(!(declared_rename(fields[i].annotations@) is Malformed));
        }
    }
}

} // verus!
