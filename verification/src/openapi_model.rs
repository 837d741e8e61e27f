//! The part of `utoipa`'s OpenAPI model that the service's document uses: the
//! declared `utoipa` types, names for what their values hold, and one wrapper per
//! `utoipa` constructor or builder step.

use vstd::prelude::*;

verus! {

#[verifier::external_type_specification]
#[verifier::external_body]
pub struct ExOpenApi(utoipa::openapi::OpenApi);

#[verifier::external_type_specification]
#[verifier::external_body]
pub struct ExPaths(utoipa::openapi::Paths);

#[verifier::external_type_specification]
#[verifier::external_body]
pub struct ExOperation(utoipa::openapi::path::Operation);

#[verifier::external_type_specification]
#[verifier::external_body]
pub struct ExResponse(utoipa::openapi::Response);

#[verifier::external_type_specification]
#[verifier::external_body]
pub struct ExComponents(utoipa::openapi::Components);

#[verifier::external_type_specification]
#[verifier::external_body]
pub struct ExObject(utoipa::openapi::Object);

#[verifier::external_type_specification]
#[verifier::external_body]
pub struct ExSchema(utoipa::openapi::Schema);

/// The content of a body: each content type (key of the `content` map) whose
/// schema is a reference, with that reference's `$ref` location.
pub type ContentView = Map<Seq<char>, Seq<char>>;

/// A response: its description and its content.
pub type ResponseView = (Seq<char>, ContentView);

/// A request body, where there is one: whether it is required, and its content.
pub type RequestBodyView = Option<(bool, ContentView)>;

/// An operation: its id, summary and description, its request body, and its
/// responses keyed by status (the `s` whose decimal `s.to_string()` is a key of
/// its `responses` map, each with the response stored there).
pub type OperationView = (Option<Seq<char>>, Option<Seq<char>>, Option<Seq<char>>, RequestBodyView, Map<u16, ResponseView>);

/// A schema: the OpenAPI name of its single type (`"integer"`, `"string"`,
/// `"array"`, ...), the name of its known format (`"int64"`, ...) where it has
/// one, and for an array the type name and format of its items.
pub type SchemaView = (Seq<char>, Option<Seq<char>>, Option<(Seq<char>, Option<Seq<char>>)>);

/// An object schema: its properties (key of the `properties` map, with the view
/// of the schema stored there) and its `required` list, in order.
pub type ObjectView = (Map<Seq<char>, SchemaView>, Seq<Seq<char>>);

/// The view of a `utoipa` `Response`.
pub uninterp spec fn response_view(response: utoipa::openapi::Response) -> ResponseView;

/// The view of a `utoipa` `Operation`.
pub uninterp spec fn operation_view(operation: utoipa::openapi::path::Operation) -> OperationView;

/// The operations that a `utoipa` `Paths` holds: each path and lower-case method
/// whose slot is set in the path's item, with the view of the operation there.
pub uninterp spec fn path_operations(paths: utoipa::openapi::Paths) -> Map<(Seq<char>, Seq<char>), OperationView>;

/// The view of a `utoipa` `Schema` that is an object or array schema.
pub uninterp spec fn schema_view(schema: utoipa::openapi::Schema) -> SchemaView;

/// The view of a `utoipa` `Object` schema.
pub uninterp spec fn object_view(object: utoipa::openapi::Object) -> ObjectView;

/// The schemas that a `utoipa` `Components` holds: each key of its `schemas` map
/// whose schema is an object schema, with that object's view.
pub uninterp spec fn component_schemas(components: utoipa::openapi::Components) -> Map<Seq<char>, ObjectView>;

/// The operations of a `utoipa` `OpenApi` document: those of its `paths`.
pub uninterp spec fn document_operations(document: utoipa::openapi::OpenApi) -> Map<(Seq<char>, Seq<char>), OperationView>;

/// The schemas of a `utoipa` `OpenApi` document: those of its `components`
/// (none where it has none).
pub uninterp spec fn document_schemas(document: utoipa::openapi::OpenApi) -> Map<Seq<char>, ObjectView>;

/// The title and version of a `utoipa` `OpenApi` document's `info`.
pub uninterp spec fn document_info(document: utoipa::openapi::OpenApi) -> (Seq<char>, Seq<char>);

/// The `$ref` location of the reusable schema `name`.
pub open spec fn schema_reference(name: Seq<char>) -> Seq<char> {
    "#/components/schemas/"@ + name
}

/// The view of an optional text.
pub open spec fn text_view(text: Option<&str>) -> Option<Seq<char>> {
    match text {
        Some(text) => Some(text@),
        None => None,
    }
}

/// An HTTP method of a documented operation.
#[derive(Clone, Copy, PartialEq, Eq, Debug, Structural)]
pub enum Method {
    Get,
    Post,
}

impl Method {
    /// The lower-case name of the method, as OpenAPI writes it.
    pub open spec fn spec_name(self) -> Seq<char> {
        match self {
            Method::Get => "get"@,
            Method::Post => "post"@,
        }
    }
}

/// The type of a scalar property.
#[derive(Clone, Copy, PartialEq, Eq, Debug, Structural)]
pub enum ScalarType {
    Integer,
    String,
}

impl ScalarType {
    /// The type's name, as OpenAPI writes it.
    pub open spec fn spec_name(self) -> Seq<char> {
        match self {
            ScalarType::Integer => "integer"@,
            ScalarType::String => "string"@,
        }
    }
}

/// A known format of a scalar property.
#[derive(Clone, Copy, PartialEq, Eq, Debug, Structural)]
pub enum ScalarFormat {
    Int64,
}

impl ScalarFormat {
    /// The format's name, as OpenAPI writes it.
    pub open spec fn spec_name(self) -> Seq<char> {
        match self {
            ScalarFormat::Int64 => "int64"@,
        }
    }
}

/// The view of an optional format.
pub open spec fn format_view(format: Option<ScalarFormat>) -> Option<Seq<char>> {
    match format {
        Some(format) => Some(format.spec_name()),
        None => None,
    }
}

/// `OperationBuilder` with `operation_id`, `summary` and `description` set,
/// built into an `Operation`: no request body and no responses yet (both start
/// as their defaults, `None` and an empty map).
#[verifier::external_body]
pub(crate) fn operation_new(
    operation_id: &str,
    summary: &str,
    description: Option<&str>,
) -> (operation: utoipa::openapi::path::Operation)
    ensures
        operation_view(operation) == (
            Some(operation_id@),
            Some(summary@),
            text_view(description),
            None::<(bool, ContentView)>,
            Map::<u16, ResponseView>::empty(),
        ),
{
    utoipa::openapi::path::OperationBuilder::new()
        .operation_id(Some(operation_id))
        .summary(Some(summary))
        .description(description)
        .build()
}

/// `Response::new(description)`: a response with that description and no content.
#[verifier::external_body]
pub(crate) fn response_new(description: &str) -> (response: utoipa::openapi::Response)
    ensures
        response_view(response).0 == description@,
        response_view(response).1 =~= Map::empty(),
{
    utoipa::openapi::Response::new(description)
}

/// `ResponseBuilder::content`: inserts into the `content` map of `response`, under
/// `content_type`, a content whose schema is `Ref::from_schema_name(schema)`
/// (the location `#/components/schemas/{schema}`).
#[verifier::external_body]
pub(crate) fn response_with_content(
    response: utoipa::openapi::Response,
    content_type: &str,
    schema: &str,
) -> (with_content: utoipa::openapi::Response)
    ensures
        response_view(with_content) == (
            response_view(response).0,
            response_view(response).1.insert(content_type@, schema_reference(schema@)),
        ),
{
    utoipa::openapi::ResponseBuilder::from(response)
        .content(
            content_type,
            utoipa::openapi::Content::new(Some(utoipa::openapi::Ref::from_schema_name(schema))),
        )
        .build()
}

/// `OperationBuilder::response`: inserts `response` into the `responses` map of
/// `operation` under `status.to_string()`; the rest is left as it was.
#[verifier::external_body]
pub(crate) fn operation_with_response(
    operation: utoipa::openapi::path::Operation,
    status: u16,
    response: utoipa::openapi::Response,
) -> (with_response: utoipa::openapi::path::Operation)
    ensures
        operation_view(with_response) == (
            operation_view(operation).0,
            operation_view(operation).1,
            operation_view(operation).2,
            operation_view(operation).3,
            operation_view(operation).4.insert(status, response_view(response)),
        ),
{
    utoipa::openapi::path::OperationBuilder::from(operation).response(status.to_string(), response).build()
}

/// `OperationBuilder::request_body`: sets as the request body of `operation` one
/// that is required or not as `required` says, with the single content
/// `content_type` whose schema is `Ref::from_schema_name(schema)`; the rest is
/// left as it was.
#[verifier::external_body]
pub(crate) fn operation_with_request_body(
    operation: utoipa::openapi::path::Operation,
    content_type: &str,
    schema: &str,
    required: bool,
) -> (with_body: utoipa::openapi::path::Operation)
    ensures
        operation_view(with_body) == (
            operation_view(operation).0,
            operation_view(operation).1,
            operation_view(operation).2,
            Some((required, map![content_type@ => schema_reference(schema@)])),
            operation_view(operation).4,
        ),
{
    let required = match required {
        true => utoipa::openapi::Required::True,
        false => utoipa::openapi::Required::False,
    };
    let body = utoipa::openapi::request_body::RequestBodyBuilder::new()
        .content(
            content_type,
            utoipa::openapi::Content::new(Some(utoipa::openapi::Ref::from_schema_name(schema))),
        )
        .required(Some(required))
        .build();
    utoipa::openapi::path::OperationBuilder::from(operation).request_body(Some(body)).build()
}

/// `Paths::new`: no operation (its map starts empty).
#[verifier::external_body]
pub(crate) fn paths_new() -> (paths: utoipa::openapi::Paths)
    ensures
        path_operations(paths) =~= Map::empty(),
{
    utoipa::openapi::Paths::new()
}

/// `Paths::add_path_operation` with one method: afterwards `paths` holds
/// `operation` at `(path, method)`, besides the other operations it held (the
/// source sets that method's slot of the existing path item, or inserts a new
/// path item with only that slot set).
#[verifier::external_body]
pub(crate) fn paths_add_operation(
    paths: &mut utoipa::openapi::Paths,
    path: &str,
    method: Method,
    operation: utoipa::openapi::path::Operation,
)
    ensures
        path_operations(*final(paths)) == path_operations(*old(paths)).insert(
            (path@, method.spec_name()),
            operation_view(operation),
        ),
{
    let method = match method {
        Method::Get => utoipa::openapi::HttpMethod::Get,
        Method::Post => utoipa::openapi::HttpMethod::Post,
    };
    paths.add_path_operation(path, vec![method], operation);
}

/// `Object::new`: an object schema without properties and with an empty
/// `required` list.
#[verifier::external_body]
pub(crate) fn object_new() -> (object: utoipa::openapi::Object)
    ensures
        object_view(object).0 =~= Map::empty(),
        object_view(object).1 =~= Seq::empty(),
{
    utoipa::openapi::Object::new()
}

/// `ObjectBuilder::property`: inserts `property` into the `properties` map of
/// `object` under `name`; the `required` list is left as it was.
#[verifier::external_body]
pub(crate) fn object_with_property(
    object: utoipa::openapi::Object,
    name: &str,
    property: utoipa::openapi::Schema,
) -> (with_property: utoipa::openapi::Object)
    ensures
        object_view(with_property) == (
            object_view(object).0.insert(name@, schema_view(property)),
            object_view(object).1,
        ),
{
    utoipa::openapi::ObjectBuilder::from(object).property(name, property).build()
}

/// `ObjectBuilder::required`: appends `name` to the `required` list of `object`;
/// the properties are left as they were.
#[verifier::external_body]
pub(crate) fn object_with_required(
    object: utoipa::openapi::Object,
    name: &str,
) -> (with_required: utoipa::openapi::Object)
    ensures
        object_view(with_required) == (object_view(object).0, object_view(object).1.push(name@)),
{
    utoipa::openapi::ObjectBuilder::from(object).required(name).build()
}

/// `ObjectBuilder` with the type `schema_type` and the known format `format`
/// (where given), as a `Schema`.
#[verifier::external_body]
pub(crate) fn scalar_schema(schema_type: ScalarType, format: Option<ScalarFormat>) -> (schema: utoipa::openapi::Schema)
    ensures
        schema_view(schema) == (schema_type.spec_name(), format_view(format), None::<(Seq<char>, Option<Seq<char>>)>),
{
    let schema_type = match schema_type {
        ScalarType::Integer => utoipa::openapi::Type::Integer,
        ScalarType::String => utoipa::openapi::Type::String,
    };
    let format = match format {
        Some(ScalarFormat::Int64) => Some(utoipa::openapi::SchemaFormat::KnownFormat(utoipa::openapi::KnownFormat::Int64)),
        None => None,
    };
    utoipa::openapi::ObjectBuilder::new().schema_type(schema_type).format(format).build().into()
}

/// `Array::new(items)`, as a `Schema`: of the type `array` (the default of an
/// `Array`), without format, with items of the type and format of `items`.
#[verifier::external_body]
pub(crate) fn array_schema(items: utoipa::openapi::Schema) -> (schema: utoipa::openapi::Schema)
    ensures
        schema_view(schema) == ("array"@, None::<Seq<char>>, Some((schema_view(items).0, schema_view(items).1))),
{
    utoipa::openapi::Array::new(items).into()
}

/// `Components::new`: no schemas (its `schemas` map is the default, empty one).
#[verifier::external_body]
pub(crate) fn components_new() -> (empty: utoipa::openapi::Components)
    ensures
        component_schemas(empty) =~= Map::empty(),
{
    utoipa::openapi::Components::new()
}

/// `ComponentsBuilder::schema`: inserts `object` (as `RefOr::T(Schema::Object(..))`)
/// into the `schemas` map of `components` under `name`, replacing any schema
/// stored there; the other schemas are left as they were.
#[verifier::external_body]
pub(crate) fn components_with_schema(
    components: utoipa::openapi::Components,
    name: &str,
    object: utoipa::openapi::Object,
) -> (with_schema: utoipa::openapi::Components)
    ensures
        component_schemas(with_schema) == component_schemas(components).insert(name@, object_view(object)),
{
    utoipa::openapi::ComponentsBuilder::from(components).schema(name, object).build()
}

/// `OpenApi::new(Info::new(title, version), paths)` with `components` set: the
/// document's info, operations and schemas are those given (the constructor
/// stores `paths` and `info`, and setting `components` leaves them).
#[verifier::external_body]
pub(crate) fn document_new(
    title: &str,
    version: &str,
    paths: utoipa::openapi::Paths,
    components: utoipa::openapi::Components,
) -> (document: utoipa::openapi::OpenApi)
    ensures
        document_info(document) == (title@, version@),
        document_operations(document) == path_operations(paths),
        document_schemas(document) == component_schemas(components),
{
    let mut document = utoipa::openapi::OpenApi::new(utoipa::openapi::Info::new(title, version), paths);
    document.components = Some(components);
    document
}

} // verus!
