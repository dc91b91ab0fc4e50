use rust_backend_boilerplate::auth::error::AuthError;
use rust_backend_boilerplate::auth::protection::{protect_requests, RequestMethod};
use rust_backend_boilerplate::config::Config;
use rust_backend_boilerplate::health::{health, index};
use rust_backend_boilerplate::error::ApiError;
use rust_backend_boilerplate::middleware::{
    apply_rewrite, is_representation_header_name, normalize_errors, representation_headers,
    rewrite_headers, HeaderEntry, ResponseParts,
};
use rust_backend_boilerplate::policy::{cors_policy, session_cookie_policy, SameSite};
use rust_backend_boilerplate::telemetry::{log_level, route_label, LogLevel};

fn local() -> Config {
    Config::new("http://localhost:3000", false).unwrap()
}

#[test]
fn mutations_require_csrf_protection() {
    let config = local();
    assert_eq!(
        protect_requests(&config, RequestMethod::Post, None, None),
        Err(AuthError::Forbidden)
    );
    assert_eq!(
        protect_requests(&config, RequestMethod::Post, Some(b"0"), None),
        Err(AuthError::Forbidden)
    );
    assert_eq!(
        protect_requests(&config, RequestMethod::Delete, Some(b"11"), None),
        Err(AuthError::Forbidden)
    );
    assert_eq!(protect_requests(&config, RequestMethod::Post, Some(b"1"), None), Ok(()));
    assert_eq!(
        protect_requests(&config, RequestMethod::Extension, Some(b"1"), None),
        Ok(())
    );
}

#[test]
fn mutations_from_untrusted_origins_are_refused() {
    let config = local();
    assert_eq!(
        protect_requests(
            &config,
            RequestMethod::Post,
            Some(b"1"),
            Some(b"https://untrusted.example")
        ),
        Err(AuthError::Forbidden)
    );
    assert_eq!(
        protect_requests(&config, RequestMethod::Put, Some(b"1"), Some(b"http://localhost:3000/")),
        Err(AuthError::Forbidden)
    );
    assert_eq!(
        protect_requests(&config, RequestMethod::Patch, Some(b"1"), Some(b"http://localhost:3000")),
        Ok(())
    );
    // A trusted origin does not replace the header.
    assert_eq!(
        protect_requests(&config, RequestMethod::Post, None, Some(b"http://localhost:3000")),
        Err(AuthError::Forbidden)
    );
}

#[test]
fn safe_methods_are_not_checked() {
    let config = local();
    for method in [
        RequestMethod::Get,
        RequestMethod::Head,
        RequestMethod::Options,
        RequestMethod::Trace,
    ] {
        assert!(method.is_safe());
        assert_eq!(
            protect_requests(&config, method, None, Some(b"https://evil.example")),
            Ok(())
        );
    }
    for method in [RequestMethod::Connect, RequestMethod::Post, RequestMethod::Extension] {
        assert!(!method.is_safe());
    }
}

#[test]
fn successes_and_redirects_are_untouched() {
    for status in [200, 201, 204, 307, 399, 600] {
        assert!(normalize_errors(status, false, false).is_none());
        assert!(normalize_errors(status, true, false).is_none());
    }
}

#[test]
fn unformatted_errors_are_replaced() {
    let rewrite = normalize_errors(500, false, false).unwrap();
    let body = rewrite.replacement.unwrap();
    assert_eq!((body.status, body.code, body.message), (500, "internal_error", "Internal server error"));
    assert!(!rewrite.empty_body);
    let rewrite = normalize_errors(405, false, false).unwrap();
    assert_eq!(rewrite.replacement.unwrap().code, "method_not_allowed");
}

#[test]
fn canonical_errors_are_preserved_and_head_bodies_emptied() {
    let rewrite = normalize_errors(400, false, true).unwrap();
    assert!(rewrite.replacement.is_none());
    assert!(!rewrite.empty_body);
    let rewrite = normalize_errors(400, true, true).unwrap();
    assert!(rewrite.replacement.is_none());
    assert!(rewrite.empty_body);
    let rewrite = normalize_errors(404, true, false).unwrap();
    assert_eq!(rewrite.replacement.unwrap().code, "not_found");
    assert!(rewrite.empty_body);
}

#[test]
fn replacement_removes_representation_headers() {
    let headers = representation_headers();
    for name in ["content-type", "content-length", "content-encoding", "etag", "content-digest"] {
        assert!(headers.contains(&name), "{name}");
    }
    for name in ["cache-control", "access-control-allow-origin", "allow", "retry-after", "set-cookie"] {
        assert!(!headers.contains(&name), "{name}");
    }
    assert_eq!(headers.len(), 12);
}

#[test]
fn log_levels_follow_status_classes() {
    assert_eq!(log_level(500), LogLevel::Error);
    assert_eq!(log_level(503), LogLevel::Error);
    assert_eq!(log_level(401), LogLevel::Warn);
    assert_eq!(log_level(404), LogLevel::Warn);
    assert_eq!(log_level(200), LogLevel::Info);
    assert_eq!(log_level(307), LogLevel::Info);
}

#[test]
fn routes_are_logged_by_template() {
    assert_eq!(route_label(Some("/users/{id}")), "/users/{id}");
    assert_eq!(route_label(None), "<unmatched>");
}

#[test]
fn health_reflects_the_database() {
    assert_eq!(health(true), 200);
    assert_eq!(health(false), 503);
    assert_eq!(index(), "Rust API is running");
}

#[test]
fn https_configuration_sets_secure_cookie() {
    let secure = session_cookie_policy(&Config::new("https://example.com", true).unwrap());
    assert!(secure.secure);
    let local = session_cookie_policy(&local());
    assert!(!local.secure);
    assert_eq!(local.name, "session_id");
    assert_eq!(local.path, "/");
    assert!(local.http_only);
    assert_eq!(local.same_site, SameSite::Lax);
    assert_eq!(local.inactivity_timeout_secs, 86400);
}

#[test]
fn cors_allows_the_configured_frontend() {
    let cors = cors_policy(&local());
    assert_eq!(cors.allowed_origin, "http://localhost:3000");
    assert!(cors.allow_credentials);
    assert_eq!(cors.allowed_methods.len(), 5);
    assert!(cors.allowed_methods.contains(&RequestMethod::Patch));
    assert_eq!(cors.allowed_headers, vec!["content-type", "x-csrf-protection"]);
}

fn entry(name: &str, value: &str) -> HeaderEntry {
    HeaderEntry { name: name.to_owned(), value: value.as_bytes().to_vec() }
}

fn values<'a>(headers: &'a [HeaderEntry], name: &str) -> Vec<&'a [u8]> {
    headers.iter().filter(|e| e.name == name).map(|e| e.value.as_slice()).collect()
}

/// The response that an error renders to, as the server writes it.
fn render(error: &ApiError) -> ResponseParts<Vec<u8>> {
    let body = format!("{{\"code\":\"{}\",\"message\":\"{}\"}}", error.code, error.message)
        .into_bytes();
    ResponseParts {
        status: error.status,
        headers: vec![
            entry("content-type", "application/json"),
            entry("content-length", &body.len().to_string()),
        ],
        body,
        formatted: true,
    }
}

/// What the middleware makes of a response, given the request method.
fn respond(response: ResponseParts<Vec<u8>>, is_head: bool) -> ResponseParts<Vec<u8>> {
    match normalize_errors(response.status, is_head, response.formatted) {
        None => response,
        Some(rewrite) => {
            let rendered = rewrite.replacement.as_ref().map(render);
            apply_rewrite(response, rewrite.empty_body, rendered, Vec::new())
        }
    }
}

#[test]
fn replacement_keeps_protocol_headers_and_removes_representation_headers() {
    let mut headers = vec![entry("content-type", "text/plain; charset=utf-8")];
    for (name, value) in [
        ("cache-control", "no-store"),
        ("access-control-allow-origin", "https://example.com"),
        ("allow", "GET"),
        ("retry-after", "10"),
        ("content-encoding", "gzip"),
        ("etag", "old"),
        ("content-digest", "old"),
    ] {
        headers.push(entry(name, value));
    }
    headers.push(entry("set-cookie", "a=1"));
    headers.push(entry("set-cookie", "b=2"));
    let response = ResponseParts {
        status: 500,
        headers,
        body: b"private database failure".to_vec(),
        formatted: false,
    };
    let response = respond(response, false);
    assert_eq!(response.status, 500);
    for (name, value) in [
        ("cache-control", "no-store"),
        ("access-control-allow-origin", "https://example.com"),
        ("allow", "GET"),
        ("retry-after", "10"),
    ] {
        assert_eq!(values(&response.headers, name), vec![value.as_bytes()]);
    }
    assert_eq!(values(&response.headers, "set-cookie"), vec![&b"a=1"[..], &b"b=2"[..]]);
    for name in ["content-encoding", "etag", "content-digest"] {
        assert!(values(&response.headers, name).is_empty());
    }
    assert_eq!(values(&response.headers, "content-type"), vec![&b"application/json"[..]]);
    let length: usize = std::str::from_utf8(values(&response.headers, "content-length")[0])
        .unwrap()
        .parse()
        .unwrap();
    assert_eq!(length, response.body.len());
    let body: serde_json::Value = serde_json::from_slice(&response.body).unwrap();
    assert_eq!(body["code"], "internal_error");
    assert_eq!(body["message"], "Internal server error");
    assert_eq!(body.as_object().unwrap().len(), 2);
    assert!(response.formatted);
}

#[test]
fn canonical_errors_and_successes_are_preserved() {
    let canonical = || {
        let error = ApiError::validation("email", "Invalid email address");
        let body = br#"{"code":"validation_error","message":"Invalid input","errors":{"email":["Invalid email address"]}}"#.to_vec();
        ResponseParts {
            status: error.status,
            headers: vec![entry("content-type", "application/json")],
            body,
            formatted: true,
        }
    };
    let response = respond(canonical(), false);
    let value: serde_json::Value = serde_json::from_slice(&response.body).unwrap();
    assert_eq!(value["code"], "validation_error");
    assert_eq!(value["errors"]["email"][0], "Invalid email address");
    assert_eq!(response.headers, canonical().headers);
    let response = respond(canonical(), true);
    assert_eq!(response.status, 400);
    assert!(response.body.is_empty());
    let redirect = ResponseParts {
        status: 307,
        headers: vec![entry("location", "/success")],
        body: Vec::new(),
        formatted: false,
    };
    let redirect = respond(redirect, false);
    assert_eq!(redirect.status, 307);
    assert_eq!(values(&redirect.headers, "location"), vec![&b"/success"[..]]);
    assert!(redirect.body.is_empty());
    let success = ResponseParts {
        status: 200,
        headers: Vec::new(),
        body: b"unchanged".to_vec(),
        formatted: false,
    };
    let success = respond(success, false);
    assert_eq!(success.status, 200);
    assert_eq!(success.body, b"unchanged");
}

#[test]
fn rewriting_twice_changes_nothing() {
    let original = ResponseParts {
        status: 404,
        headers: vec![entry("content-type", "text/plain"), entry("vary", "origin")],
        body: b"no such page".to_vec(),
        formatted: false,
    };
    for is_head in [false, true] {
        let once = respond(
            ResponseParts {
                status: original.status,
                headers: original.headers.clone(),
                body: original.body.clone(),
                formatted: false,
            },
            is_head,
        );
        let (headers, body) = (once.headers.clone(), once.body.clone());
        let twice = respond(once, is_head);
        assert_eq!((twice.status, twice.headers, twice.body), (404, headers, body));
        assert!(twice.formatted);
    }
}

#[test]
fn replacement_headers_take_the_place_of_old_ones() {
    let original = vec![
        entry("x-request-id", "7"),
        entry("content-type", "text/html"),
        entry("www-authenticate", "Basic"),
        entry("vary", "origin"),
    ];
    let replacement = vec![entry("vary", "cookie"), entry("content-type", "application/json")];
    assert_eq!(
        rewrite_headers(original, replacement),
        vec![
            entry("x-request-id", "7"),
            entry("www-authenticate", "Basic"),
            entry("vary", "cookie"),
            entry("content-type", "application/json"),
        ]
    );
    assert!(is_representation_header_name("content-length"));
    assert!(is_representation_header_name("repr-digest"));
    assert!(!is_representation_header_name("Content-Length"));
    assert!(!is_representation_header_name("set-cookie"));
}
