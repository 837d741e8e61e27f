//! The OpenAPI document of the service: `GET /` and `POST /` with their bodies
//! and responses, and the schemas of the bodies, built with `utoipa`'s model.

use vstd::prelude::*;

use crate::evaluation::{Action, Evaluation, Stage};
use crate::openapi_model::{
    array_schema, components_new, components_with_schema, document_info, document_new,
    document_operations, document_schemas, object_new, object_view, object_with_property,
    object_with_required, operation_new, operation_view, operation_with_request_body,
    operation_with_response, path_operations, paths_add_operation, paths_new, response_new,
    response_with_content, scalar_schema, schema_reference, schema_view, text_view,
    component_schemas, ContentView, Method, ObjectView, OperationView, ResponseView, ScalarFormat,
    ScalarType, SchemaView,
};
use crate::dependency::CallOutcome;
use crate::service::SERVICE;

verus! {

/// The media type of every body of the service.
pub const JSON_MEDIA_TYPE: &'static str = "application/json";

/// The version that the document states.
pub const API_VERSION: &'static str = "0.1.0";

/// The summary of `GET /`.
pub const INDEX_SUMMARY: &'static str = "`GET /` — service identity (srvcs service standard).";

/// The summary of `POST /`.
pub const EVALUATE_SUMMARY: &'static str = "`POST /` — compute `lcm(a, b)` by composing three primitives.";

/// The description of `POST /`.
pub const EVALUATE_DESCRIPTION: &'static str = "This service owns the *control flow* but delegates every arithmetic step to\nits dependencies, exactly as specified:\n\n1. ask `srvcs-gcd` for `g = gcd(a, b)`;\n2. if `g == 0`, the result is `0` (no further calls);\n3. otherwise ask `srvcs-divide` for `q = a / g`, then `srvcs-multiply` for\n   `result = q * b` — i.e. `lcm = (a / gcd(a, b)) * b`.\n\nIf a dependency is unreachable it reports itself degraded (`503`); if a\ndependency rejects the input it forwards the `422`.";

/// One documented response: its status, its description and, where it has a
/// JSON body, the name of the body's schema.
#[derive(Clone, Copy, PartialEq, Eq, Debug)]
pub struct DocumentedResponse {
    pub status: u16,
    pub description: &'static str,
    pub body: Option<&'static str>,
}

/// One documented operation; its request body, where it has one, is a required
/// JSON body of the named schema.
#[derive(Clone, PartialEq, Eq, Debug)]
pub struct DocumentedOperation {
    pub method: Method,
    pub path: &'static str,
    pub operation_id: &'static str,
    pub summary: &'static str,
    pub description: Option<&'static str>,
    pub request_body: Option<&'static str>,
    pub responses: Vec<DocumentedResponse>,
}

/// The JSON content that refers to the schema `schema`.
pub open spec fn json_content(schema: Seq<char>) -> ContentView {
    map![JSON_MEDIA_TYPE@ => schema_reference(schema)]
}

/// The view of a documented response.
pub open spec fn documented_response_view(response: DocumentedResponse) -> ResponseView {
    (
        response.description@,
        match response.body {
            Some(schema) => json_content(schema@),
            None => Map::empty(),
        },
    )
}

/// The responses of a list of documented responses, keyed by status (a later
/// response replaces an earlier one of the same status).
pub open spec fn documented_responses_view(responses: Seq<DocumentedResponse>) -> Map<u16, ResponseView>
    decreases responses.len(),
{
    if responses.len() == 0 {
        Map::empty()
    } else {
        documented_responses_view(responses.drop_last()).insert(
            responses.last().status,
            documented_response_view(responses.last()),
        )
    }
}

impl DocumentedOperation {
    /// The operation's path and lower-case method.
    pub open spec fn key(self) -> (Seq<char>, Seq<char>) {
        (self.path@, self.method.spec_name())
    }

    /// The view of the documented operation.
    pub open spec fn documented_view(self) -> OperationView {
        (
            Some(self.operation_id@),
            Some(self.summary@),
            text_view(self.description),
            match self.request_body {
                Some(schema) => Some((true, json_content(schema@))),
                None => None,
            },
            documented_responses_view(self.responses@),
        )
    }
}

/// The operations of a list of documented operations, keyed by path and method.
pub open spec fn documented_operations_view(operations: Seq<DocumentedOperation>) -> Map<(Seq<char>, Seq<char>), OperationView>
    decreases operations.len(),
{
    if operations.len() == 0 {
        Map::empty()
    } else {
        documented_operations_view(operations.drop_last()).insert(
            operations.last().key(),
            operations.last().documented_view(),
        )
    }
}

/// The operations that the service documents: `GET /` answers `200` with an
/// `Info`; `POST /` takes a required `EvalRequest` and answers `200` with an
/// `LcmResponse`, or `422`, `500` or `503`.
pub open spec fn api_operations() -> Map<(Seq<char>, Seq<char>), OperationView> {
    map![
        ("/"@, "get"@) => (
            Some("index"@),
            Some(INDEX_SUMMARY@),
            None,
            None,
            map![200u16 => (""@, json_content("Info"@))],
        ),
        ("/"@, "post"@) => (
            Some("evaluate"@),
            Some(EVALUATE_SUMMARY@),
            Some(EVALUATE_DESCRIPTION@),
            Some((true, json_content("EvalRequest"@))),
            map![
                200u16 => (""@, json_content("LcmResponse"@)),
                422u16 => ("a dependency rejected the input (forwarded)"@, Map::empty()),
                500u16 => ("a dependency returned a malformed result"@, Map::empty()),
                503u16 => ("a dependency is unavailable"@, Map::empty()),
            ],
        ),
    ]
}

/// An `int64` integer property.
pub open spec fn int64_view() -> SchemaView {
    ("integer"@, Some("int64"@), None)
}

/// A string property.
pub open spec fn string_view() -> SchemaView {
    ("string"@, None, None)
}

/// The schemas that the service documents: the bodies' fields as required
/// properties, `i64` as `int64` integers, `&str` as strings and lists of them as
/// arrays of strings.
pub open spec fn api_schemas() -> Map<Seq<char>, ObjectView> {
    map![
        "Info"@ => (
            map![
                "service"@ => string_view(),
                "concern"@ => string_view(),
                "depends_on"@ => ("array"@, None, Some(("string"@, None))),
            ],
            seq!["service"@, "concern"@, "depends_on"@],
        ),
        "EvalRequest"@ => (
            map!["a"@ => int64_view(), "b"@ => int64_view()],
            seq!["a"@, "b"@],
        ),
        "LcmResponse"@ => (
            map!["a"@ => int64_view(), "b"@ => int64_view(), "result"@ => int64_view()],
            seq!["a"@, "b"@, "result"@],
        ),
    ]
}

/// The operations of the service, in the order they are documented.
pub fn documented_operations() -> (operations: Vec<DocumentedOperation>)
    ensures
        operations@.len() == 2,
        documented_operations_view(operations@) == api_operations(),
{
    let index = DocumentedOperation {
        method: Method::Get,
        path: "/",
        operation_id: "index",
        summary: INDEX_SUMMARY,
        description: None,
        request_body: None,
        responses: vec![DocumentedResponse { status: 200, description: "", body: Some("Info") }],
    };
    let evaluate = DocumentedOperation {
        method: Method::Post,
        path: "/",
        operation_id: "evaluate",
        summary: EVALUATE_SUMMARY,
        description: Some(EVALUATE_DESCRIPTION),
        request_body: Some("EvalRequest"),
        responses: vec![
            DocumentedResponse { status: 200, description: "", body: Some("LcmResponse") },
            DocumentedResponse {
                status: 422,
                description: "a dependency rejected the input (forwarded)",
                body: None,
            },
            DocumentedResponse {
                status: 500,
                description: "a dependency returned a malformed result",
                body: None,
            },
            DocumentedResponse { status: 503, description: "a dependency is unavailable", body: None },
        ],
    };
    proof {
        let get = index.responses@;
        assert(get.len() == 1);
        assert(get.last() == DocumentedResponse { status: 200, description: "", body: Some("Info") });
        assert(get.drop_last() =~= Seq::<DocumentedResponse>::empty());
        assert(documented_responses_view(get.drop_last()) == Map::<u16, ResponseView>::empty());
        assert(documented_responses_view(get) =~~= map![200u16 => (""@, json_content("Info"@))]);
        let post = evaluate.responses@;
        assert(post.drop_last().drop_last().drop_last().drop_last() =~= Seq::<DocumentedResponse>::empty());
        assert(documented_responses_view(post.drop_last().drop_last().drop_last()) =~~= map![
            200u16 => (""@, json_content("LcmResponse"@)),
        ]);
        assert(documented_responses_view(post.drop_last().drop_last()) =~~= map![
            200u16 => (""@, json_content("LcmResponse"@)),
            422u16 => ("a dependency rejected the input (forwarded)"@, Map::empty()),
        ]);
        assert(documented_responses_view(post.drop_last()) =~~= map![
            200u16 => (""@, json_content("LcmResponse"@)),
            422u16 => ("a dependency rejected the input (forwarded)"@, Map::empty()),
            500u16 => ("a dependency returned a malformed result"@, Map::empty()),
        ]);
        assert(documented_responses_view(post) =~~= map![
            200u16 => (""@, json_content("LcmResponse"@)),
            422u16 => ("a dependency rejected the input (forwarded)"@, Map::empty()),
            500u16 => ("a dependency returned a malformed result"@, Map::empty()),
            503u16 => ("a dependency is unavailable"@, Map::empty()),
        ]);
    }
    let operations = vec![index, evaluate];
    proof {
        assert(operations@.drop_last().drop_last() =~= Seq::<DocumentedOperation>::empty());
        assert(operations@.drop_last() =~= seq![index]);
        assert(operations@.last() == evaluate);
        assert(index.documented_view() == (
            Some("index"@),
            Some(INDEX_SUMMARY@),
            None::<Seq<char>>,
            None::<(bool, ContentView)>,
            map![200u16 => (""@, json_content("Info"@))],
        ));
        assert(evaluate.documented_view() == (
            Some("evaluate"@),
            Some(EVALUATE_SUMMARY@),
            Some(EVALUATE_DESCRIPTION@),
            Some((true, json_content("EvalRequest"@))),
            map![
                200u16 => (""@, json_content("LcmResponse"@)),
                422u16 => ("a dependency rejected the input (forwarded)"@, Map::empty()),
                500u16 => ("a dependency returned a malformed result"@, Map::empty()),
                503u16 => ("a dependency is unavailable"@, Map::empty()),
            ],
        ));
        let first = operations@.drop_last();
        assert(first.drop_last() =~= Seq::<DocumentedOperation>::empty());
        assert(first.last() == index);
        assert(index.key() == ("/"@, "get"@));
        assert(evaluate.key() == ("/"@, "post"@));
        assert(documented_operations_view(first.drop_last()) == Map::<(Seq<char>, Seq<char>), OperationView>::empty());
        assert(documented_operations_view(operations@.drop_last()) == map![
            ("/"@, "get"@) => index.documented_view(),
        ]);
        assert(documented_operations_view(operations@) =~= api_operations());
    }
    operations
}

/// The `utoipa` operation that documents `documented`.
fn build_operation(documented: &DocumentedOperation) -> (operation: utoipa::openapi::path::Operation)
    ensures
        operation_view(operation) == documented.documented_view(),
{
    let mut operation = operation_new(documented.operation_id, documented.summary, documented.description);
    match documented.request_body {
        Some(schema) => {
            operation = operation_with_request_body(operation, JSON_MEDIA_TYPE, schema, true);
        },
        None => {},
    }
    let mut i: usize = 0;
    while i < documented.responses.len()
        invariant
            i <= documented.responses@.len(),
            operation_view(operation).0 == documented.documented_view().0,
            operation_view(operation).1 == documented.documented_view().1,
            operation_view(operation).2 == documented.documented_view().2,
            operation_view(operation).3 == documented.documented_view().3,
            operation_view(operation).4 == documented_responses_view(documented.responses@.take(i as int)),
        decreases documented.responses@.len() - i,
    {
        let documented_response = documented.responses[i];
        let mut response = response_new(documented_response.description);
        match documented_response.body {
            Some(schema) => {
                response = response_with_content(response, JSON_MEDIA_TYPE, schema);
            },
            None => {},
        }
        operation = operation_with_response(operation, documented_response.status, response);
        proof {
            let after = documented.responses@.take(i + 1);
            assert(after.drop_last() =~= documented.responses@.take(i as int));
            assert(after.last() == documented_response);
        }
        i = i + 1;
    }
    assert(documented.responses@.take(documented.responses@.len() as int) =~= documented.responses@);
    operation
}

/// Adds to `object` the required property `name` with the schema `property`.
fn object_with_required_property(
    object: utoipa::openapi::Object,
    name: &str,
    property: utoipa::openapi::Schema,
) -> (with_property: utoipa::openapi::Object)
    ensures
        object_view(with_property) == (
            object_view(object).0.insert(name@, schema_view(property)),
            object_view(object).1.push(name@),
        ),
{
    object_with_required(object_with_property(object, name, property), name)
}

/// An `int64` integer schema.
fn int64_schema() -> (schema: utoipa::openapi::Schema)
    ensures
        schema_view(schema) == int64_view(),
{
    scalar_schema(ScalarType::Integer, Some(ScalarFormat::Int64))
}

/// A string schema.
fn string_schema() -> (schema: utoipa::openapi::Schema)
    ensures
        schema_view(schema) == string_view(),
{
    scalar_schema(ScalarType::String, None)
}

/// The document of the service, derived from its documented operations.
pub struct ApiDoc;

impl ApiDoc {
    /// The paths of the document: one operation per documented operation.
    pub fn paths() -> (paths: utoipa::openapi::Paths)
        ensures
            path_operations(paths) == api_operations(),
    {
        let operations = documented_operations();
        let mut paths = paths_new();
        let mut i: usize = 0;
        while i < operations.len()
            invariant
                i <= operations@.len(),
                path_operations(paths) == documented_operations_view(operations@.take(i as int)),
            decreases operations@.len() - i,
        {
            let documented = &operations[i];
            let operation = build_operation(documented);
            paths_add_operation(&mut paths, documented.path, documented.method, operation);
            proof {
                let after = operations@.take(i + 1);
                assert(after.drop_last() =~= operations@.take(i as int));
                assert(after.last() == operations@[i as int]);
            }
            i = i + 1;
        }
        assert(operations@.take(operations@.len() as int) =~= operations@);
        paths
    }

    /// The schemas of the bodies: `Info`, `EvalRequest` and `LcmResponse`.
    pub fn components() -> (components: utoipa::openapi::Components)
        ensures
            component_schemas(components) == api_schemas(),
    {
        let info = object_with_required_property(object_new(), "service", string_schema());
        let info = object_with_required_property(info, "concern", string_schema());
        let info = object_with_required_property(info, "depends_on", array_schema(string_schema()));
        let request = object_with_required_property(object_new(), "a", int64_schema());
        let request = object_with_required_property(request, "b", int64_schema());
        let response = object_with_required_property(object_new(), "a", int64_schema());
        let response = object_with_required_property(response, "b", int64_schema());
        let response = object_with_required_property(response, "result", int64_schema());
        let components = components_with_schema(components_new(), "Info", info);
        let components = components_with_schema(components, "EvalRequest", request);
        let components = components_with_schema(components, "LcmResponse", response);
        proof {
            assert(component_schemas(components) =~~= api_schemas());
        }
        components
    }

    /// The OpenAPI document: titled after the service; `GET /` and `POST /` with
    /// their bodies and responses; the schemas of the bodies.
    pub fn openapi() -> (document: utoipa::openapi::OpenApi)
        ensures
            document_info(document) == (SERVICE@, API_VERSION@),
            document_operations(document) == api_operations(),
            document_schemas(document) == api_schemas(),
            document_operations(document).dom() == set![("/"@, "get"@), ("/"@, "post"@)],
            document_operations(document)[("/"@, "get"@)].4.dom() == set![200u16],
            document_operations(document)[("/"@, "post"@)].4.dom() == set![200u16, 422, 500, 503],
            document_operations(document)[("/"@, "post"@)].3 == Some((true, json_content("EvalRequest"@))),
            document_schemas(document).dom() == set!["Info"@, "EvalRequest"@, "LcmResponse"@],
    {
        let document = document_new(SERVICE, API_VERSION, Self::paths(), Self::components());
        proof {
            lemma_api_document_shape();
        }
        document
    }
}

/// The keys of the documented operations and schemas, and the statuses of each
/// operation.
pub proof fn lemma_api_document_shape()
    ensures
        api_operations().dom() == set![("/"@, "get"@), ("/"@, "post"@)],
        api_operations()[("/"@, "get"@)].4.dom() == set![200u16],
        api_operations()[("/"@, "post"@)].4.dom() == set![200u16, 422, 500, 503],
        api_operations()[("/"@, "post"@)].3 == Some((true, json_content("EvalRequest"@))),
        api_schemas().dom() == set!["Info"@, "EvalRequest"@, "LcmResponse"@],
{
    reveal_strlit("get");
    reveal_strlit("post");
    assert("get"@ != "post"@) by {
        assert("get"@.len() != "post"@.len());
    }
    assert(("/"@, "get"@) != ("/"@, "post"@));
    assert(api_operations().dom() =~= set![("/"@, "get"@), ("/"@, "post"@)]);
    assert(api_operations()[("/"@, "get"@)] == (
        Some("index"@),
        Some(INDEX_SUMMARY@),
        None::<Seq<char>>,
        None::<(bool, ContentView)>,
        map![200u16 => (""@, json_content("Info"@))],
    ));
    assert(api_operations()[("/"@, "get"@)].4.dom() =~= set![200u16]);
    assert(api_operations()[("/"@, "post"@)].4.dom() =~= set![200u16, 422, 500, 503]);
    assert(api_schemas().dom() =~= set!["Info"@, "EvalRequest"@, "LcmResponse"@]);
}

/// The document lists the dependencies of `Info` as an array of plain strings
/// (items of the type `string`, without format), and the operands and result as
/// `int64` integers.
pub proof fn lemma_documented_property_schemas()
    ensures
        api_schemas()["Info"@].0["depends_on"@] == ("array"@, None::<Seq<char>>, Some((string_view().0, string_view().1))),
        string_view().1 == None::<Seq<char>>,
        api_schemas()["EvalRequest"@].0["a"@] == int64_view(),
        api_schemas()["EvalRequest"@].0["b"@] == int64_view(),
        api_schemas()["LcmResponse"@].0["result"@] == int64_view(),
{
    reveal_strlit("Info");
    reveal_strlit("EvalRequest");
    reveal_strlit("LcmResponse");
    reveal_strlit("service");
    reveal_strlit("concern");
    reveal_strlit("depends_on");
    reveal_strlit("a");
    reveal_strlit("b");
    reveal_strlit("result");
    assert("Info"@ != "EvalRequest"@) by {
        assert("Info"@.len() != "EvalRequest"@.len());
    }
    assert("Info"@ != "LcmResponse"@) by {
        assert("Info"@.len() != "LcmResponse"@.len());
    }
    assert("EvalRequest"@ != "LcmResponse"@) by {
        assert("EvalRequest"@[0] != "LcmResponse"@[0]);
    }
    assert("a"@ != "b"@) by {
        assert("a"@[0] != "b"@[0]);
    }
}

/// Every reply that an evaluation gives has a status that the document lists
/// for `POST /`.
pub proof fn lemma_reply_statuses_are_documented(evaluation: Evaluation, outcome: CallOutcome)
    requires
        evaluation.stage != Stage::Finished,
    ensures
        evaluation.next(outcome).1 matches Action::Respond(reply)
            ==> api_operations()[("/"@, "post"@)].4.dom().contains(reply.spec_status()),
{
    lemma_api_document_shape();
}

} // verus!
