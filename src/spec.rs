//! The document root and its descriptive records.

use vstd::prelude::*;
pub use crate::address::Url;
use crate::components::{Components, ObjectOrReference};
use crate::external_doc::ExternalDoc;
use crate::json::JsonValue;
use crate::ordered_map::OrderedMap;
use crate::path::PathItem;
use crate::server::Server;

verus! {

/// The root of an OpenAPI document.
#[derive(Debug, PartialEq, Default)]
pub struct Spec {
    /// The version of the OpenAPI specification that the document follows.
    pub openapi: String,
    pub info: Info,
    /// The servers of the document; when absent or empty, a single server `/`.
    pub servers: Option<Vec<Server>>,
    /// The paths, by path template, in declaration order.
    pub paths: OrderedMap<PathItem>,
    pub components: Option<Components>,
    pub tags: Option<Vec<Tag>>,
    pub external_docs: Option<ExternalDoc>,
}

/// Metadata about the API.
#[derive(Debug, PartialEq, Default)]
pub struct Info {
    pub title: String,
    pub description: Option<String>,
    pub terms_of_service: Option<Url>,
    pub version: String,
    pub contact: Option<Contact>,
    pub license: Option<License>,
}

/// Contact information for the API.
#[derive(Debug, PartialEq, Default)]
pub struct Contact {
    pub name: Option<String>,
    pub url: Option<Url>,
    pub email: Option<String>,
}

/// License information for the API.
#[derive(Debug, PartialEq, Default)]
pub struct License {
    pub name: String,
    pub url: Option<Url>,
}

/// Describes a data type; nested schemas are owned, named ones are referenced.
#[derive(Debug, PartialEq, Default)]
pub struct Schema {
    pub ref_path: Option<String>,
    pub description: Option<String>,
    pub schema_type: Option<String>,
    pub format: Option<String>,
    pub enum_values: Option<Vec<String>>,
    pub required: Option<Vec<String>>,
    pub items: Option<Box<Schema>>,
    pub properties: Option<OrderedMap<Schema>>,
    pub read_only: Option<bool>,
    pub additional_properties: Option<ObjectOrReference<Box<Schema>>>,
    pub example: Option<JsonValue>,
    pub default: Option<JsonValue>,
    pub all_of: Option<Vec<ObjectOrReference<Schema>>>,
}

/// A single response of an operation.
#[derive(Debug, PartialEq, Default)]
pub struct Response {
    pub description: Option<String>,
    pub headers: Option<OrderedMap<ObjectOrReference<Header>>>,
    /// Content by media type.
    pub content: Option<OrderedMap<MediaType>>,
    pub links: Option<OrderedMap<ObjectOrReference<Link>>>,
}

/// A header of a response or an encoding.
#[derive(Debug, PartialEq, Default)]
pub struct Header {
    pub required: Option<bool>,
    pub schema: Option<Schema>,
    pub unique_items: Option<bool>,
    pub param_type: Option<String>,
    pub format: Option<String>,
    pub description: Option<String>,
}

/// The body of a request.
#[derive(Debug, PartialEq, Default)]
pub struct RequestBody {
    pub description: Option<String>,
    /// Content by media type, in declaration order.
    pub content: OrderedMap<MediaType>,
    pub required: Option<bool>,
}

/// A design-time link from a response to an operation: by reference or by id.
#[derive(Debug, PartialEq)]
pub enum Link {
    Ref {
        operation_ref: String,
        parameters: Option<OrderedMap<String>>,
        description: Option<String>,
        server: Option<Server>,
    },
    Id {
        operation_id: String,
        parameters: Option<OrderedMap<String>>,
        description: Option<String>,
        server: Option<Server>,
    },
}

/// The schema and examples of one media type.
#[derive(Debug, PartialEq, Default)]
pub struct MediaType {
    pub schema: Option<ObjectOrReference<Schema>>,
    pub examples: Option<MediaTypeExample>,
    pub encoding: Option<OrderedMap<Encoding>>,
}

/// Either a single example or examples by name.
#[derive(Debug, PartialEq)]
pub enum MediaTypeExample {
    Example { example: JsonValue },
    Examples { examples: OrderedMap<ObjectOrReference<Example>> },
}

/// How a single property of a body is encoded.
#[derive(Debug, PartialEq, Default)]
pub struct Encoding {
    pub content_type: Option<String>,
    pub headers: Option<OrderedMap<ObjectOrReference<Header>>>,
    pub style: Option<String>,
    pub explode: Option<bool>,
    pub allow_reserved: Option<bool>,
}

/// An example value.
#[derive(Debug, PartialEq, Default)]
pub struct Example {
    pub summary: Option<String>,
    pub description: Option<String>,
    pub value: Option<JsonValue>,
}

/// A security scheme that operations can use.
#[derive(Debug, PartialEq)]
pub enum SecurityScheme {
    ApiKey { name: String, location: String },
    Http { scheme: String, bearer_format: String },
    OpenIdConnect { open_id_connect_url: String },
}

/// A callback, kept as its decoded value.
#[derive(Debug, PartialEq)]
pub struct Callback(pub JsonValue);

/// A tag for grouping operations.
#[derive(Debug, PartialEq, Default)]
pub struct Tag {
    pub name: String,
    pub description: Option<String>,
}

} // verus!
