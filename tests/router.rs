use std::collections::HashSet;

use asset_server::router::{
    first_fetch, next_step, root_headers, FileAnswer, RouteStep, INTERNAL_SERVER_ERROR, NOT_FOUND,
};

/// Runs the router against a content root holding `files`; returns the URI
/// whose response is sent and its status, or the error status and message.
fn run(files: &HashSet<&str>, uri: &str) -> Result<(String, u16), (u16, String)> {
    let mut fetch = first_fetch(uri);
    for _ in 0..3 {
        let status = if files.contains(fetch.uri.as_str()) { 200 } else { 404 };
        match next_step(&fetch, &FileAnswer::Response { status }) {
            RouteStep::Fetch(f) => fetch = f,
            RouteStep::Respond => return Ok((fetch.uri, status)),
            RouteStep::Fail { status, message } => return Err((status, message)),
        }
    }
    panic!("the router asked for more than two files");
}

fn content_root() -> HashSet<&'static str> {
    ["/index.html", "/about.html", "/app.js", "/docs", "/docs.html"].into_iter().collect()
}

#[test]
fn existing_file_is_served_from_its_path() {
    assert_eq!(run(&content_root(), "/app.js"), Ok(("/app.js".to_string(), 200)));
    assert_eq!(run(&content_root(), "/docs"), Ok(("/docs".to_string(), 200)));
}

#[test]
fn missing_path_falls_back_to_html() {
    assert_eq!(run(&content_root(), "/about"), Ok(("/about.html".to_string(), 200)));
}

#[test]
fn path_with_neither_file_is_not_found() {
    assert_eq!(run(&content_root(), "/missing"), Ok(("/missing.html".to_string(), 404)));
}

#[test]
fn first_fetch_asks_for_the_path_itself() {
    let f = first_fetch("/about?x=1");
    assert_eq!(f.uri, "/about?x=1");
    assert!(!f.fallback);
}

#[test]
fn not_found_leads_to_one_html_request() {
    let f = first_fetch("/about");
    match next_step(&f, &FileAnswer::Response { status: NOT_FOUND }) {
        RouteStep::Fetch(g) => {
            assert_eq!(g.uri, "/about.html");
            assert!(g.fallback);
            assert!(matches!(
                next_step(&g, &FileAnswer::Response { status: NOT_FOUND }),
                RouteStep::Respond
            ));
        }
        _ => panic!("expected a fallback request"),
    }
}

#[test]
fn other_statuses_are_sent_as_they_are() {
    let f = first_fetch("/a");
    assert!(matches!(next_step(&f, &FileAnswer::Response { status: 200 }), RouteStep::Respond));
    assert!(matches!(next_step(&f, &FileAnswer::Response { status: 206 }), RouteStep::Respond));
    assert!(matches!(next_step(&f, &FileAnswer::Response { status: 403 }), RouteStep::Respond));
}

#[test]
fn service_error_is_a_server_error() {
    let f = first_fetch("/a");
    match next_step(&f, &FileAnswer::Error { message: "disk gone".to_string() }) {
        RouteStep::Fail { status, message } => {
            assert_eq!(status, INTERNAL_SERVER_ERROR);
            assert_eq!(message, "Something went wrong: disk gone");
        }
        _ => panic!("expected a failure"),
    }
}

#[test]
fn unparsable_fallback_is_a_server_error() {
    let f = first_fetch("/a b");
    match next_step(&f, &FileAnswer::Response { status: NOT_FOUND }) {
        RouteStep::Fail { status, message } => {
            assert_eq!(status, 500);
            assert_eq!(message, "Invalid URI");
        }
        _ => panic!("expected a failure"),
    }
}

#[test]
fn front_end_headers() {
    let h = root_headers();
    assert_eq!(
        h,
        vec![
            ("cache-control".to_string(), "no-store".to_string()),
            ("cross-origin-opener-policy".to_string(), "same-origin".to_string()),
            ("cross-origin-embedder-policy".to_string(), "require-corp".to_string()),
        ]
    );
}
