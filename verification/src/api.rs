//! The REST API's decisions: which request is which, and how each is answered.
use vstd::prelude::*;

use crate::db::Monitor;
use crate::ident::{is_random_uuid, is_utc_timestamp};
use crate::text::{same_text, starts_with, starts_with_spec, strip_prefixes, strip_prefixes_spec};

verus! {

/// The body of every API answer: success, the data on success, the error
/// message on failure.
pub struct ApiResponse<T> {
    pub success: bool,
    pub data: Option<T>,
    pub error: Option<String>,
}

impl<T> ApiResponse<T> {
    /// A successful answer carrying `data`.
    pub fn ok(data: T) -> (r: Self)
        ensures
            r.success,
            r.data == Some(data),
            r.error is None,
    {
        ApiResponse { success: true, data: Some(data), error: None }
    }

    /// A failed answer carrying the message `msg`.
    pub fn err(msg: &str) -> (r: Self)
        ensures
            !r.success,
            r.data is None,
            r.error matches Some(e) && e@ == msg@,
    {
        ApiResponse { success: false, data: None, error: Some(msg.to_owned()) }
    }
}

/// The body a client may send to add a monitor.
pub struct AddMonitorRequest {
    pub url: String,
    pub interval_seconds: Option<u64>,
    pub name: Option<String>,
}

/// The check interval of a monitor added without one: an hour.
pub open spec fn default_interval() -> u64 {
    3600
}

/// The monitor that a request to add one describes: the request's URL and
/// name, its interval or an hour when it gives none, enabled, never checked,
/// with a fresh identifier and the current time as its creation time.
pub fn monitor_from_request(request: AddMonitorRequest) -> (m: Monitor)
    ensures
        is_random_uuid(m.id@),
        m.url == request.url,
        m.name == request.name,
        m.interval_seconds == match request.interval_seconds {
            Some(i) => i,
            None => default_interval(),
        },
        m.enabled,
        m.last_check is None,
        m.last_status is None,
        is_utc_timestamp(m.created_at@),
{
    let interval = match request.interval_seconds {
        Some(i) => i,
        None => 3600,
    };
    Monitor::new_named(request.url, interval, request.name)
}

/// The HTTP method of a request, as far as the API tells methods apart.
#[derive(Debug, Clone, Copy, PartialEq, Eq, Structural)]
pub enum Method {
    Get,
    Post,
    Delete,
    Options,
    Other,
}

/// What a request asks for.
#[derive(Debug, Clone, PartialEq, Eq)]
pub enum Route {
    /// A CORS preflight (`OPTIONS`, any path).
    Preflight,
    /// `GET /api/monitors`.
    ListMonitors,
    /// `POST /api/monitors`.
    AddMonitor,
    /// `GET /api/monitors/:id`.
    GetMonitor(String),
    /// `DELETE /api/monitors/:id`.
    DeleteMonitor(String),
    /// `GET /api/changes/:monitor_id`.
    ListChanges(String),
    /// Anything else.
    NotFound,
}

/// What a request asks for, with the identifiers as character sequences.
pub enum RouteView {
    Preflight,
    ListMonitors,
    AddMonitor,
    GetMonitor(Seq<char>),
    DeleteMonitor(Seq<char>),
    ListChanges(Seq<char>),
    NotFound,
}

impl View for Route {
    type V = RouteView;

    open spec fn view(&self) -> RouteView {
        match self {
            Route::Preflight => RouteView::Preflight,
            Route::ListMonitors => RouteView::ListMonitors,
            Route::AddMonitor => RouteView::AddMonitor,
            Route::GetMonitor(id) => RouteView::GetMonitor(id@),
            Route::DeleteMonitor(id) => RouteView::DeleteMonitor(id@),
            Route::ListChanges(id) => RouteView::ListChanges(id@),
            Route::NotFound => RouteView::NotFound,
        }
    }
}

/// The collection path of monitors.
pub open spec fn monitors_path() -> Seq<char> {
    "/api/monitors"@
}

/// The prefix of a single monitor's path.
pub open spec fn monitor_prefix() -> Seq<char> {
    "/api/monitors/"@
}

/// The prefix of a monitor's change history path.
pub open spec fn changes_prefix() -> Seq<char> {
    "/api/changes/"@
}

/// What the request `method path` asks for. Identifiers are what follows the
/// prefix once every leading repetition of the prefix is removed.
pub open spec fn route_spec(method: Method, path: Seq<char>) -> RouteView {
    if method == Method::Options {
        RouteView::Preflight
    } else if method == Method::Get && path == monitors_path() {
        RouteView::ListMonitors
    } else if method == Method::Post && path == monitors_path() {
        RouteView::AddMonitor
    } else if method == Method::Get && starts_with_spec(path, monitor_prefix()) {
        RouteView::GetMonitor(strip_prefixes_spec(path, monitor_prefix()))
    } else if method == Method::Delete && starts_with_spec(path, monitor_prefix()) {
        RouteView::DeleteMonitor(strip_prefixes_spec(path, monitor_prefix()))
    } else if method == Method::Get && starts_with_spec(path, changes_prefix()) {
        RouteView::ListChanges(strip_prefixes_spec(path, changes_prefix()))
    } else {
        RouteView::NotFound
    }
}

/// Decides what the request `method path` asks for.
pub fn route(method: Method, path: &str) -> (r: Route)
    ensures
        r@ == route_spec(method, path@),
{
    let collection = "/api/monitors";
    let one = "/api/monitors/";
    let changes = "/api/changes/";
    proof {
        reveal_strlit("/api/monitors/");
        reveal_strlit("/api/changes/");
    }
    if method == Method::Options {
        Route::Preflight
    } else if method == Method::Get && same_text(path, collection) {
        Route::ListMonitors
    } else if method == Method::Post && same_text(path, collection) {
        Route::AddMonitor
    } else if method == Method::Get && starts_with(path, one) {
        Route::GetMonitor(strip_prefixes(path, one).to_owned())
    } else if method == Method::Delete && starts_with(path, one) {
        Route::DeleteMonitor(strip_prefixes(path, one).to_owned())
    } else if method == Method::Get && starts_with(path, changes) {
        Route::ListChanges(strip_prefixes(path, changes).to_owned())
    } else {
        Route::NotFound
    }
}

/// An answer: its HTTP status and its body.
pub struct Reply<T> {
    pub status: u16,
    pub body: ApiResponse<T>,
}

/// The answer to a request whose work gave `outcome`: the data on success,
/// the error message otherwise, with status 200 either way.
pub fn reply<T>(outcome: Result<T, String>) -> (r: Reply<T>)
    ensures
        r.status == 200,
        match outcome {
            Ok(v) => r.body.success && r.body.data == Some(v) && r.body.error is None,
            Err(e) => !r.body.success && r.body.data is None && r.body.error == Some(e),
        },
{
    match outcome {
        Ok(v) => Reply { status: 200, body: ApiResponse::ok(v) },
        Err(e) => Reply { status: 200, body: ApiResponse { success: false, data: None, error: Some(e) } },
    }
}

/// The answer to a lookup of one monitor that gave `outcome`: the monitor if
/// found; status 404 and "Monitor not found" if there is none; the error
/// message, with status 200, if the lookup failed.
pub fn reply_lookup<T>(outcome: Result<Option<T>, String>) -> (r: Reply<T>)
    ensures
        match outcome {
            Ok(Some(v)) => r.status == 200 && r.body.success && r.body.data == Some(v)
                && r.body.error is None,
            Ok(None) => r.status == 404 && !r.body.success && r.body.data is None
                && (r.body.error matches Some(m) && m@ == "Monitor not found"@),
            Err(e) => r.status == 200 && !r.body.success && r.body.data is None
                && r.body.error == Some(e),
        },
{
    match outcome {
        Ok(Some(v)) => Reply { status: 200, body: ApiResponse::ok(v) },
        Ok(None) => Reply { status: 404, body: ApiResponse::err("Monitor not found") },
        Err(e) => Reply { status: 200, body: ApiResponse { success: false, data: None, error: Some(e) } },
    }
}

/// The answer to a delete of the monitor `id` whose work gave `outcome`: the
/// deleted id on success, whether or not such a monitor existed; the error
/// message otherwise. The status is 200 either way.
pub fn reply_deleted(id: String, outcome: Result<(), String>) -> (r: Reply<String>)
    ensures
        r.status == 200,
        match outcome {
            Ok(_) => r.body.success && r.body.data == Some(id) && r.body.error is None,
            Err(e) => !r.body.success && r.body.data is None && r.body.error == Some(e),
        },
{
    match outcome {
        Ok(_) => reply(Ok(id)),
        Err(e) => reply(Err(e)),
    }
}

/// An answer with no body: only its HTTP status.
pub struct EmptyReply {
    pub status: u16,
}

/// The answer to a CORS preflight: status 200 and no body. Nothing is read
/// or written to answer it.
pub fn reply_preflight() -> (r: EmptyReply)
    ensures
        r.status == 200,
{
    EmptyReply { status: 200 }
}

/// The answer to a request for no known resource: status 404, "Not found".
pub fn reply_not_found() -> (r: Reply<()>)
    ensures
        r.status == 404,
        !r.body.success,
        r.body.data is None,
        r.body.error matches Some(m) && m@ == "Not found"@,
{
    Reply { status: 404, body: ApiResponse::err("Not found") }
}

/// The CORS headers that every answer carries, preflights included.
pub open spec fn cors_headers_spec() -> Seq<(Seq<char>, Seq<char>)> {
    seq![
        ("access-control-allow-origin"@, "*"@),
        ("access-control-allow-methods"@, "GET, POST, DELETE, OPTIONS"@),
        ("access-control-allow-headers"@, "Content-Type"@),
    ]
}

/// The CORS headers, as (name, value) pairs, that every answer carries.
pub fn cors_headers() -> (h: Vec<(String, String)>)
    ensures
        h.deep_view() == cors_headers_spec(),
{
    let mut h: Vec<(String, String)> = Vec::new();
    h.push(("access-control-allow-origin".to_owned(), "*".to_owned()));
    h.push(("access-control-allow-methods".to_owned(), "GET, POST, DELETE, OPTIONS".to_owned()));
    h.push(("access-control-allow-headers".to_owned(), "Content-Type".to_owned()));
    assert(h.deep_view() =~= cors_headers_spec());
    h
}

proof fn lemma_strip_own_prefix(p: Seq<char>, id: Seq<char>)
    requires
        p.len() > 0,
        !starts_with_spec(id, p),
    ensures
        starts_with_spec(p + id, p),
        strip_prefixes_spec(p + id, p) == id,
{
    let s = p + id;
    assert(s.subrange(0, p.len() as int) =~= p);
    assert(s.subrange(p.len() as int, s.len() as int) =~= id);
    assert(strip_prefixes_spec(id, p) == id);
}

/// Every `OPTIONS` request is a preflight, whatever its path.
pub proof fn options_is_always_preflight(path: Seq<char>)
    ensures
        route_spec(Method::Options, path) == RouteView::Preflight,
{
}

/// The path of a monitor routes back to that monitor: `GET` and `DELETE` of
/// `/api/monitors/` followed by `id` name `id`, as long as `id` does not
/// itself begin with `/api/monitors/` (such a prefix is stripped too).
pub proof fn monitor_path_names_its_id(id: Seq<char>)
    requires
        !starts_with_spec(id, "/api/monitors/"@),
    ensures
        route_spec(Method::Get, "/api/monitors/"@ + id) == RouteView::GetMonitor(id),
        route_spec(Method::Delete, "/api/monitors/"@ + id) == RouteView::DeleteMonitor(id),
{
    reveal_strlit("/api/monitors/");
    reveal_strlit("/api/monitors");
    lemma_strip_own_prefix(monitor_prefix(), id);
    assert((monitor_prefix() + id).len() != monitors_path().len());
}

/// The change history path of a monitor routes back to that monitor: `GET` of
/// `/api/changes/` followed by `id` names `id`, as long as `id` does not itself
/// begin with `/api/changes/`.
pub proof fn changes_path_names_its_id(id: Seq<char>)
    requires
        !starts_with_spec(id, "/api/changes/"@),
    ensures
        route_spec(Method::Get, "/api/changes/"@ + id) == RouteView::ListChanges(id),
{
    reveal_strlit("/api/changes/");
    reveal_strlit("/api/monitors/");
    reveal_strlit("/api/monitors");
    lemma_strip_own_prefix(changes_prefix(), id);
    let path = changes_prefix() + id;
    assert(path[5] == 'c');
    assert(monitors_path()[5] == 'm');
    assert(path != monitors_path());
    if path.len() >= monitor_prefix().len() {
        assert(path.subrange(0, 14)[5] != monitor_prefix()[5]);
    }
    assert(!starts_with_spec(path, monitor_prefix()));
}

/// Only `GET`, `POST`, `DELETE` and `OPTIONS` reach anything; any other
/// method is answered as not found.
pub proof fn other_methods_are_not_found(path: Seq<char>)
    ensures
        route_spec(Method::Other, path) == RouteView::NotFound,
{
}

/// The monitor collection is listed by `GET` and added to by `POST`; no
/// other method reaches it. `POST` reaches nothing else, `DELETE` reaches
/// only single monitors, and a path outside the monitors and changes paths
/// is not found for every method but `OPTIONS`.
pub proof fn requests_outside_the_api_are_not_found(method: Method, path: Seq<char>)
    ensures
        route_spec(Method::Get, "/api/monitors"@) == RouteView::ListMonitors,
        route_spec(Method::Post, "/api/monitors"@) == RouteView::AddMonitor,
        route_spec(Method::Delete, "/api/monitors"@) == RouteView::NotFound,
        method == Method::Post && path != "/api/monitors"@ ==> route_spec(method, path)
            == RouteView::NotFound,
        method == Method::Delete && !starts_with_spec(path, "/api/monitors/"@) ==> route_spec(
            method,
            path,
        ) == RouteView::NotFound,
        method != Method::Options && path != "/api/monitors"@ && !starts_with_spec(
            path,
            "/api/monitors/"@,
        ) && !starts_with_spec(path, "/api/changes/"@) ==> route_spec(method, path)
            == RouteView::NotFound,
{
    reveal_strlit("/api/monitors");
    reveal_strlit("/api/monitors/");
    assert(!starts_with_spec("/api/monitors"@, "/api/monitors/"@));
}

} // verus!
