use driftguard::api::{
    cors_headers, monitor_from_request, reply, reply_deleted, reply_lookup, reply_not_found,
    reply_preflight, route, AddMonitorRequest, ApiResponse, Method, Route,
};

#[test]
fn test_api_response() {
    let ok = ApiResponse::ok(vec![1, 2, 3]);
    assert!(ok.success);
    assert!(ok.data.is_some());

    let err = ApiResponse::<String>::err("test error");
    assert!(!err.success);
    assert!(err.error.is_some());
}

#[test]
fn api_response_carries_data_and_message() {
    let ok = ApiResponse::ok(7u32);
    assert_eq!(ok.data, Some(7));
    assert_eq!(ok.error, None);
    let err = ApiResponse::<u32>::err("boom");
    assert_eq!(err.data, None);
    assert_eq!(err.error.as_deref(), Some("boom"));
}

#[test]
fn options_is_preflight_on_any_path() {
    assert_eq!(route(Method::Options, "/anything"), Route::Preflight);
    assert_eq!(route(Method::Options, "/api/monitors"), Route::Preflight);
}

#[test]
fn collection_routes() {
    assert_eq!(route(Method::Get, "/api/monitors"), Route::ListMonitors);
    assert_eq!(route(Method::Post, "/api/monitors"), Route::AddMonitor);
    assert_eq!(route(Method::Delete, "/api/monitors"), Route::NotFound);
    assert_eq!(route(Method::Other, "/api/monitors"), Route::NotFound);
}

#[test]
fn monitor_routes_carry_the_id() {
    assert_eq!(route(Method::Get, "/api/monitors/abc"), Route::GetMonitor("abc".to_string()));
    assert_eq!(
        route(Method::Delete, "/api/monitors/abc"),
        Route::DeleteMonitor("abc".to_string())
    );
    assert_eq!(route(Method::Post, "/api/monitors/abc"), Route::NotFound);
    assert_eq!(route(Method::Get, "/api/monitors/"), Route::GetMonitor(String::new()));
}

#[test]
fn repeated_prefixes_are_all_stripped() {
    assert_eq!(
        route(Method::Get, "/api/monitors//api/monitors/x"),
        Route::GetMonitor("x".to_string())
    );
    assert_eq!(
        route(Method::Get, "/api/changes//api/changes/m1"),
        Route::ListChanges("m1".to_string())
    );
}

#[test]
fn change_routes_and_unknown_paths() {
    assert_eq!(route(Method::Get, "/api/changes/m1"), Route::ListChanges("m1".to_string()));
    assert_eq!(route(Method::Delete, "/api/changes/m1"), Route::NotFound);
    assert_eq!(route(Method::Get, "/api/other"), Route::NotFound);
    assert_eq!(route(Method::Get, "/"), Route::NotFound);
}

#[test]
fn replies_to_outcomes() {
    let r = reply::<Vec<u8>>(Ok(vec![1]));
    assert_eq!(r.status, 200);
    assert!(r.body.success);
    assert_eq!(r.body.data, Some(vec![1]));

    let r = reply::<Vec<u8>>(Err("db down".to_string()));
    assert_eq!(r.status, 200);
    assert!(!r.body.success);
    assert_eq!(r.body.error.as_deref(), Some("db down"));
}

#[test]
fn lookup_replies() {
    let r = reply_lookup::<u8>(Ok(Some(3)));
    assert_eq!(r.status, 200);
    assert_eq!(r.body.data, Some(3));

    let r = reply_lookup::<u8>(Ok(None));
    assert_eq!(r.status, 404);
    assert!(!r.body.success);
    assert_eq!(r.body.error.as_deref(), Some("Monitor not found"));

    let r = reply_lookup::<u8>(Err("locked".to_string()));
    assert_eq!(r.status, 200);
    assert_eq!(r.body.error.as_deref(), Some("locked"));
}

#[test]
fn fixed_replies_and_headers() {
    let r = reply_not_found();
    assert_eq!(r.status, 404);
    assert_eq!(r.body.error.as_deref(), Some("Not found"));

    assert_eq!(reply_preflight().status, 200);

    let h = cors_headers();
    assert_eq!(h.len(), 3);
    assert_eq!(h[0], ("access-control-allow-origin".to_string(), "*".to_string()));
    assert_eq!(
        h[1],
        ("access-control-allow-methods".to_string(), "GET, POST, DELETE, OPTIONS".to_string())
    );
    assert_eq!(h[2], ("access-control-allow-headers".to_string(), "Content-Type".to_string()));
}

#[test]
fn add_request_becomes_a_monitor() {
    let m = monitor_from_request(AddMonitorRequest {
        url: "https://a.example".to_string(),
        interval_seconds: Some(60),
        name: Some("A".to_string()),
    });
    assert_eq!(m.url, "https://a.example");
    assert_eq!(m.interval_seconds, 60);
    assert_eq!(m.name.as_deref(), Some("A"));
    assert!(m.enabled);
    assert!(m.last_check.is_none());
    assert_eq!(m.id.len(), 36);

    let m = monitor_from_request(AddMonitorRequest {
        url: "https://b.example".to_string(),
        interval_seconds: None,
        name: None,
    });
    assert_eq!(m.interval_seconds, 3600);
    assert!(m.name.is_none());

    let r = reply(Ok(m.url.clone()));
    assert!(r.body.success);
}

#[test]
fn delete_replies_with_the_id() {
    let r = reply_deleted("m7".to_string(), Ok(()));
    assert_eq!(r.status, 200);
    assert!(r.body.success);
    assert_eq!(r.body.data.as_deref(), Some("m7"));
    assert_eq!(r.body.error, None);

    let r = reply_deleted("m7".to_string(), Err("busy".to_string()));
    assert_eq!(r.status, 200);
    assert!(!r.body.success);
    assert_eq!(r.body.data, None);
    assert_eq!(r.body.error.as_deref(), Some("busy"));
}
