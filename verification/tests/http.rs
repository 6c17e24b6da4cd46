//! Tests of the routing table, the terminal replies and the whole
//! request-serving path, including the introspection page.

use dcr::body::BodyEvent;
use dcr::health::HealthState;
use dcr::page::render_page;
use dcr::route::method_of;
use dcr::route::route;
use dcr::route::serve;
use dcr::route::version_reply;
use dcr::route::Method;
use dcr::route::RequestData;
use dcr::route::Route;
use dcr::snapshot::assemble;

fn request(method: &str, path: &str, body: Vec<BodyEvent>) -> RequestData {
    RequestData {
        method_name: method.to_string(),
        path: path.to_string(),
        protocol: "HTTP/1.1".to_string(),
        uri: path.to_string(),
        headers: Vec::new(),
        body,
    }
}

#[test]
fn method_names_classify_as_expected() {
    assert_eq!(method_of("GET"), Method::Get);
    assert_eq!(method_of("PUT"), Method::Put);
    assert_eq!(method_of("POST"), Method::Post);
    assert_eq!(method_of("DELETE"), Method::Other);
    assert_eq!(method_of("get"), Method::Other);
}

#[test]
fn the_routing_table_matches_the_surface() {
    assert_eq!(route(Method::Get, "/dcr/health", "/dcr"), Route::Health);
    assert_eq!(route(Method::Put, "/dcr/health", "/dcr"), Route::HealthToggle);
    assert_eq!(route(Method::Post, "/dcr/health", "/dcr"), Route::HealthToggle);
    assert_eq!(route(Method::Get, "/dcr/version", "/dcr"), Route::Version);
    assert_eq!(route(Method::Put, "/dcr/logger", "/dcr"), Route::Logger);
    assert_eq!(route(Method::Post, "/dcr/logger", "/dcr"), Route::Logger);
    assert_eq!(route(Method::Get, "/dcr", "/dcr"), Route::Introspect);
    assert_eq!(route(Method::Other, "/dcr", "/dcr"), Route::Introspect);
}

#[test]
fn unmatched_get_is_not_found_and_other_methods_are_not_allowed() {
    assert_eq!(route(Method::Get, "/elsewhere", "/dcr"), Route::NotFound);
    assert_eq!(route(Method::Post, "/elsewhere", "/dcr"), Route::MethodNotAllowed);
    assert_eq!(route(Method::Put, "/", "/dcr"), Route::MethodNotAllowed);
    assert_eq!(route(Method::Other, "/dcr/health", "/dcr"), Route::MethodNotAllowed);
    // A known path with a method its row does not allow is refused.
    assert_eq!(route(Method::Get, "/dcr/logger", "/dcr"), Route::MethodNotAllowed);
    assert_eq!(route(Method::Post, "/dcr/version", "/dcr"), Route::MethodNotAllowed);
}

#[test]
fn health_endpoint_reports_ok_when_healthy_and_ko_when_not() {
    let mut state = HealthState::new();
    let env: Vec<(String, String)> = Vec::new();
    let (reply, log) = serve(
        request("GET", "/dcr/health", vec![BodyEvent::End]),
        "/dcr",
        "",
        None,
        &mut state,
        &env,
    );
    assert_eq!(reply.status, 200);
    assert_eq!(reply.body, "OK");
    assert!(log.is_none());

    state.set(false);
    let (reply, _) = serve(
        request("GET", "/dcr/health", vec![BodyEvent::End]),
        "/dcr",
        "",
        None,
        &mut state,
        &env,
    );
    assert_eq!(reply.status, 503);
    assert_eq!(reply.body, "KO");
}

#[test]
fn toggling_twice_restores_the_original_state() {
    let mut state = HealthState::new();
    let env: Vec<(String, String)> = Vec::new();
    let (first, _) = serve(
        request("PUT", "/dcr/health", vec![BodyEvent::End]),
        "/dcr",
        "",
        None,
        &mut state,
        &env,
    );
    assert_eq!(first.status, 200);
    assert_eq!(first.body, "healthcheck toggled to false state");
    let (second, _) = serve(
        request("PUT", "/dcr/health", vec![BodyEvent::End]),
        "/dcr",
        "",
        None,
        &mut state,
        &env,
    );
    assert_eq!(second.status, 200);
    assert_eq!(second.body, "healthcheck toggled to true state");
    assert!(state.read());
}

#[test]
fn version_endpoint_returns_version_then_stamp() {
    let reply = version_reply("-blue");
    assert_eq!(reply.status, 200);
    assert_eq!(reply.body, "0.2.3-blue");
}

#[test]
fn version_endpoint_with_an_empty_stamp_is_the_bare_version() {
    let reply = version_reply("");
    assert_eq!(reply.status, 200);
    assert_eq!(reply.body, "0.2.3");
}

#[test]
fn version_endpoint_through_the_router() {
    let mut state = HealthState::new();
    let env: Vec<(String, String)> = Vec::new();
    let (reply, log) = serve(
        request("GET", "/dcr/version", vec![BodyEvent::End]),
        "/dcr",
        "-rc1",
        None,
        &mut state,
        &env,
    );
    assert_eq!(reply.status, 200);
    assert_eq!(reply.body, "0.2.3-rc1");
    assert!(log.is_none());
}

#[test]
fn logger_endpoint_hands_the_decoded_body_to_the_log() {
    let mut state = HealthState::new();
    let env: Vec<(String, String)> = Vec::new();
    let body = vec![BodyEvent::Chunk(b"hello log".to_vec()), BodyEvent::End];
    let (reply, log) = serve(
        request("POST", "/dcr/logger", body),
        "/dcr",
        "",
        None,
        &mut state,
        &env,
    );
    assert_eq!(reply.status, 200);
    assert_eq!(reply.body, "data ingested, check the logs.");
    assert_eq!(log.as_deref(), Some("hello log"));
}

#[test]
fn logger_endpoint_logs_the_sentinel_for_undecodable_bytes() {
    let mut state = HealthState::new();
    let env: Vec<(String, String)> = Vec::new();
    let body = vec![BodyEvent::Chunk(vec![0xff, 0x00, 0x9f]), BodyEvent::End];
    let (reply, log) = serve(
        request("PUT", "/dcr/logger", body),
        "/dcr",
        "",
        None,
        &mut state,
        &env,
    );
    assert_eq!(reply.status, 200);
    assert_eq!(log.as_deref(), Some("body not displayed — invalid text encoding"));
}

#[test]
fn logger_endpoint_fails_with_500_on_a_broken_stream() {
    let mut state = HealthState::new();
    let env: Vec<(String, String)> = Vec::new();
    let body = vec![BodyEvent::Chunk(b"partial".to_vec()), BodyEvent::Fail];
    let (reply, log) = serve(
        request("POST", "/dcr/logger", body),
        "/dcr",
        "",
        None,
        &mut state,
        &env,
    );
    assert_eq!(reply.status, 500);
    assert!(log.is_none());
}

#[test]
fn logger_endpoint_refuses_a_body_over_the_cap() {
    let mut state = HealthState::new();
    let env: Vec<(String, String)> = Vec::new();
    let body = vec![BodyEvent::Chunk(b"abcdef".to_vec()), BodyEvent::End];
    let (reply, log) = serve(
        request("POST", "/dcr/logger", body),
        "/dcr",
        "",
        Some(4),
        &mut state,
        &env,
    );
    assert_eq!(reply.status, 413);
    assert!(log.is_none());
}

#[test]
fn unmatched_get_returns_404() {
    let mut state = HealthState::new();
    let env: Vec<(String, String)> = Vec::new();
    let (reply, _) = serve(
        request("GET", "/nowhere", vec![BodyEvent::End]),
        "/dcr",
        "",
        None,
        &mut state,
        &env,
    );
    assert_eq!(reply.status, 404);
    assert_eq!(reply.body, "Oops, you requested an unknown location.\n");
}

#[test]
fn unmatched_non_get_returns_405() {
    let mut state = HealthState::new();
    let env: Vec<(String, String)> = Vec::new();
    let (reply, _) = serve(
        request("DELETE", "/nowhere", vec![BodyEvent::End]),
        "/dcr",
        "",
        None,
        &mut state,
        &env,
    );
    assert_eq!(reply.status, 405);
    assert_eq!(reply.body, "");
}

#[test]
fn the_rendered_page_is_exactly_the_concatenated_sections() {
    let env: Vec<(String, String)> = Vec::new();
    let snap = assemble(
        "HTTP/1.1".to_string(),
        "GET".to_string(),
        "/dcr".to_string(),
        vec![("host".to_string(), "probe".to_string())],
        Some("payload".to_string()),
        &env,
    );
    let page = render_page(&snap);
    let expected = "<html><body><h1>Request</h1><textarea readonly>\
Protocol: HTTP/1.1\nMethod: GET\nURI: /dcr\
</textarea><h1>Headers</h1><textarea readonly>host: probe\n\
</textarea><h1>Data</h1><textarea readonly>payload\
</textarea><h1>Env</h1><textarea readonly>\
</textarea></body></html>\n";
    assert_eq!(page, expected);
}

#[test]
fn the_introspection_page_shows_the_request_and_its_body() {
    let mut state = HealthState::new();
    let env = vec![("DCR_STAMP".to_string(), "-x".to_string())];
    let body = vec![BodyEvent::Chunk(b"probe data".to_vec()), BodyEvent::End];
    let (reply, log) = serve(
        request("GET", "/dcr", body),
        "/dcr",
        "",
        None,
        &mut state,
        &env,
    );
    assert_eq!(reply.status, 200);
    assert!(log.is_none());
    let expected = "<html><body><h1>Request</h1><textarea readonly>\
Protocol: HTTP/1.1\nMethod: GET\nURI: /dcr\
</textarea><h1>Headers</h1><textarea readonly>\
</textarea><h1>Data</h1><textarea readonly>probe data\
</textarea><h1>Env</h1><textarea readonly>DCR_STAMP: -x\n\
</textarea></body></html>\n";
    assert_eq!(reply.body, expected);
}

#[test]
fn the_introspection_page_fails_with_500_on_a_broken_stream() {
    let mut state = HealthState::new();
    let env: Vec<(String, String)> = Vec::new();
    let (reply, _) = serve(
        request("GET", "/dcr", vec![BodyEvent::Fail]),
        "/dcr",
        "",
        None,
        &mut state,
        &env,
    );
    assert_eq!(reply.status, 500);
}
