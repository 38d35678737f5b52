//! The route table of the service and the response of each route.

use crate::clock::{is_utc_timestamp, lemma_utc_timestamp_is_plain};
use crate::json::{is_plain, quoted};
use crate::payload::{
    health, health_json, health_object, root, status_object, HealthInfo, SERVICE_NAME,
    SERVICE_VERSION, STATUS_HEALTHY, STATUS_RUNNING,
};
use crate::text::text_eq;
use vstd::prelude::*;

verus! {

/// The one method that the routes answer.
pub const METHOD_GET: &'static str = "GET";

/// Path of the root route.
pub const ROOT_PATH: &'static str = "/";

/// Path of the health route.
pub const HEALTH_PATH: &'static str = "/health";

/// Status code of every response of the service.
pub const STATUS_OK: u16 = 200;

/// Content type of every response of the service.
pub const CONTENT_TYPE_JSON: &'static str = "application/json";

/// The body of the root route, byte for byte.
pub const ROOT_BODY: &'static str =
    "{\"service\":\"Zeus Orchestrator\",\"version\":\"0.1.0\",\"status\":\"running\"}";

/// The routes of the service.
#[derive(Clone, Copy, Debug, PartialEq, Eq, Structural)]
pub enum Endpoint {
    /// `GET /`: the status of the service.
    Root,
    /// `GET /health`: the health check.
    Health,
}

/// The path under which a route is served.
pub open spec fn path_of(endpoint: Endpoint) -> Seq<char> {
    match endpoint {
        Endpoint::Root => ROOT_PATH@,
        Endpoint::Health => HEALTH_PATH@,
    }
}

/// The route table: the route that a method and a path select, if any.
/// Method and path are compared as they stand, letter for letter.
pub open spec fn route_of(method: Seq<char>, path: Seq<char>) -> Option<Endpoint> {
    if method == METHOD_GET@ && path == ROOT_PATH@ {
        Some(Endpoint::Root)
    } else if method == METHOD_GET@ && path == HEALTH_PATH@ {
        Some(Endpoint::Health)
    } else {
        None
    }
}

/// The body of the health route for a given timestamp.
pub open spec fn health_body_text(timestamp: Seq<char>) -> Seq<char> {
    health_object(quoted(STATUS_HEALTHY@), quoted(timestamp))
}

/// A body of the health route: the health object for some UTC timestamp.
pub open spec fn is_health_body(body: Seq<char>) -> bool {
    exists|timestamp: Seq<char>|
        is_utc_timestamp(timestamp) && body == #[trigger] health_body_text(timestamp)
}

impl Endpoint {
    /// The path under which the route is served.
    pub fn path(&self) -> (path: &'static str)
        ensures
            path@ == path_of(*self),
    {
        match self {
            Endpoint::Root => ROOT_PATH,
            Endpoint::Health => HEALTH_PATH,
        }
    }

    /// Every route of the service, in the order of the route table.
    pub fn all() -> (routes: Vec<Endpoint>)
        ensures
            routes@ == seq![Endpoint::Root, Endpoint::Health],
    {
        let mut routes: Vec<Endpoint> = Vec::new();
        routes.push(Endpoint::Root);
        routes.push(Endpoint::Health);
        assert(routes@ =~= seq![Endpoint::Root, Endpoint::Health]);
        routes
    }
}

/// Looks a request up in the route table. `None` stands for a request that
/// no route of the service answers.
pub fn find_route(method: &str, path: &str) -> (found: Option<Endpoint>)
    ensures
        found == route_of(method@, path@),
{
    if !text_eq(method, METHOD_GET) {
        None
    } else if text_eq(path, ROOT_PATH) {
        Some(Endpoint::Root)
    } else if text_eq(path, HEALTH_PATH) {
        Some(Endpoint::Health)
    } else {
        None
    }
}

/// Every route of the table is found under its own path with the method
/// `GET`, and two routes never share a path.
pub proof fn lemma_every_route_is_found(endpoint: Endpoint)
    ensures
        route_of(METHOD_GET@, path_of(endpoint)) == Some(endpoint),
{
    reveal_strlit("/");
    reveal_strlit("/health");
    assert(ROOT_PATH@.len() == 1);
    assert(HEALTH_PATH@.len() == 7);
}

/// What the service sends back: status code, content type and body.
#[derive(Debug, PartialEq, Eq)]
pub struct Response {
    pub status: u16,
    pub content_type: String,
    pub body: String,
}

/// A successful response that carries a JSON body.
pub fn ok_json(body: String) -> (response: Response)
    ensures
        response.status == STATUS_OK,
        response.content_type@ == CONTENT_TYPE_JSON@,
        response.body@ == body@,
{
    Response { status: STATUS_OK, content_type: String::from_str(CONTENT_TYPE_JSON), body }
}

proof fn lemma_root_body_text()
    ensures
        is_plain(SERVICE_NAME@),
        is_plain(SERVICE_VERSION@),
        is_plain(STATUS_RUNNING@),
        status_object(quoted(SERVICE_NAME@), quoted(SERVICE_VERSION@), quoted(STATUS_RUNNING@))
            == ROOT_BODY@,
{
    reveal_strlit("Zeus Orchestrator");
    reveal_strlit("0.1.0");
    reveal_strlit("running");
    reveal_strlit("{\"service\":");
    reveal_strlit(",\"version\":");
    reveal_strlit(",\"status\":");
    reveal_strlit("}");
    reveal_strlit(
        "{\"service\":\"Zeus Orchestrator\",\"version\":\"0.1.0\",\"status\":\"running\"}",
    );
    assert(status_object(
        quoted(SERVICE_NAME@),
        quoted(SERVICE_VERSION@),
        quoted(STATUS_RUNNING@),
    ) =~= ROOT_BODY@);
}

/// The response of the root route: status 200, a JSON body, and always the
/// same one.
pub fn root_response() -> (response: Response)
    ensures
        response.status == STATUS_OK,
        response.content_type@ == CONTENT_TYPE_JSON@,
        response.body@ == ROOT_BODY@,
{
    let info = root();
    proof {
        lemma_root_body_text();
    }
    ok_json(info.to_json())
}

/// The response of the health route for a given record.
pub fn health_response(info: &HealthInfo) -> (response: Response)
    ensures
        response.status == STATUS_OK,
        response.content_type@ == CONTENT_TYPE_JSON@,
        response.body@ == health_json(info@),
        info@.status == STATUS_HEALTHY@ && is_plain(info@.timestamp) ==> response.body@
            == health_body_text(info@.timestamp),
{
    proof {
        reveal_strlit("healthy");
    }
    ok_json(info.to_json())
}

/// Answers a request to a route. Every response has status 200 and a JSON
/// body: the fixed status object for the root route, the health object with
/// the current time for the health route.
pub fn respond(endpoint: Endpoint) -> (response: Response)
    ensures
        response.status == STATUS_OK,
        response.content_type@ == CONTENT_TYPE_JSON@,
        endpoint == Endpoint::Root ==> response.body@ == ROOT_BODY@,
        endpoint == Endpoint::Health ==> is_health_body(response.body@),
{
    match endpoint {
        Endpoint::Root => root_response(),
        Endpoint::Health => {
            let info = health();
            proof {
                lemma_utc_timestamp_is_plain(info@.timestamp);
            }
            let response = health_response(&info);
            assert(response.body@ == health_body_text(info@.timestamp));
            response
        },
    }
}

} // verus!
