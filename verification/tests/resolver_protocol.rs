//! The virtual-protocol resolver.

use webview_bridge::mime::get_mime_type;
use webview_bridge::resolver::ResourceResolver;

fn resolver() -> ResourceResolver {
    ResourceResolver::new("assets".to_string(), None)
}

/// A request for `index.html` under the configured root resolves with
/// status 200, `Content-Type: text/html`, and the file's bytes.
#[test]
fn index_html_resolves_with_html_type_and_file_bytes() {
    let mut r = resolver();
    let directive = r.request(1, "/", 10);
    assert_eq!(directive.path, "assets/index.html");
    let bytes = b"<html>hello</html>".to_vec();
    let resolution = r
        .on_content_loaded(directive.load, bytes.clone())
        .expect("the load was pending");
    assert_eq!(resolution.responder, 10);
    assert_eq!(resolution.response.status, 200);
    assert_eq!(resolution.response.content_type, "text/html");
    assert_eq!(resolution.response.csp, None);
    assert_eq!(resolution.response.body, bytes);
}

#[test]
fn named_path_resolves_like_the_default_document() {
    let mut r = resolver();
    let directive = r.request(1, "/pages/app.js", 11);
    assert_eq!(directive.path, "assets/pages/app.js");
    let resolution = r
        .on_content_loaded(directive.load, b"1;".to_vec())
        .expect("the load was pending");
    assert_eq!(resolution.response.status, 200);
    assert_eq!(resolution.response.content_type, "text/javascript");
}

/// Two concurrent requests for distinct paths never resolve each other's
/// responder: each completion resolves exactly the responder that came with
/// its own request, and the other stays pending.
#[test]
fn concurrent_requests_resolve_their_own_responders() {
    let mut r = resolver();
    let a = r.request(1, "/a.html", 101);
    let b = r.request(2, "/b.html", 202);
    let resolved_a = r
        .on_content_loaded(a.load, b"A".to_vec())
        .expect("request a was pending");
    assert_eq!(resolved_a.responder, 101);
    // Request b is untouched by a's completion and still resolves itself.
    let resolved_b = r
        .on_content_loaded(b.load, b"B".to_vec())
        .expect("request b was pending");
    assert_eq!(resolved_b.responder, 202);
    assert_eq!(resolved_b.response.body, b"B".to_vec());
}

/// A responder is invoked at most once: a load that was already consumed
/// resolves nothing.
#[test]
fn a_completed_load_cannot_resolve_twice() {
    let mut r = resolver();
    let a = r.request(1, "/a.html", 101);
    assert!(r.on_content_loaded(a.load, b"A".to_vec()).is_some());
    assert!(r.on_content_loaded(a.load, b"A".to_vec()).is_none());
}

#[test]
fn duplicate_paths_get_independent_loads() {
    let mut r = resolver();
    let first = r.request(1, "/same.html", 1);
    let second = r.request(1, "/same.html", 2);
    assert_ne!(first.load, second.load);
    let resolved = r
        .on_content_loaded(second.load, b"x".to_vec())
        .expect("the second request was pending");
    assert_eq!(resolved.responder, 2);
    let resolved = r
        .on_content_loaded(first.load, b"x".to_vec())
        .expect("the first request was pending");
    assert_eq!(resolved.responder, 1);
}

/// A path with an unmapped extension yields status 500 and a plain-text body
/// naming that path.
#[test]
fn unmapped_extension_yields_500_naming_the_path() {
    let mut r = resolver();
    let directive = r.request(1, "/strange.xyz", 5);
    let resolution = r
        .on_content_loaded(directive.load, b"data".to_vec())
        .expect("the load was pending");
    assert_eq!(resolution.response.status, 500);
    assert_eq!(resolution.response.content_type, "text/plain");
    assert_eq!(resolution.response.csp, None);
    assert_eq!(
        resolution.response.body,
        b"not implemented content type \"assets/strange.xyz\"".to_vec()
    );
}

#[test]
fn configured_policy_is_attached_to_successful_responses() {
    let mut r = ResourceResolver::new(
        "root".to_string(),
        Some("default-src 'self'".to_string()),
    );
    let directive = r.request(1, "/a.css", 9);
    let resolution = r
        .on_content_loaded(directive.load, b"p{}".to_vec())
        .expect("the load was pending");
    assert_eq!(resolution.response.content_type, "text/css");
    assert_eq!(
        resolution.response.csp,
        Some("default-src 'self'".to_string())
    );
}

#[test]
fn hot_reload_names_the_owning_session() {
    let mut r = resolver();
    let directive = r.request(42, "/page.html", 7);
    // The association outlives the resolution.
    assert!(r.on_content_loaded(directive.load, b"x".to_vec()).is_some());
    assert_eq!(r.on_content_modified(directive.load), Some(42));
    assert_eq!(r.on_content_modified(directive.load + 1000), None);
}

#[test]
fn session_teardown_orphans_nothing() {
    let mut r = resolver();
    let doomed = r.request(8, "/a.html", 1);
    let kept = r.request(9, "/b.html", 2);
    r.remove_session(8);
    assert!(r.on_content_loaded(doomed.load, b"x".to_vec()).is_none());
    assert_eq!(r.on_content_modified(doomed.load), None);
    let resolution = r
        .on_content_loaded(kept.load, b"y".to_vec())
        .expect("the other session's request is unaffected");
    assert_eq!(resolution.responder, 2);
}

#[test]
fn mime_table_maps_known_extensions() {
    assert_eq!(get_mime_type("a/b.png"), Some("image/png".to_string()));
    assert_eq!(get_mime_type("x.tar"), Some("application/x-tar".to_string()));
    assert_eq!(get_mime_type("d.htm"), Some("text/html".to_string()));
    assert_eq!(get_mime_type("archive.7z"), Some("application/x-7z-compressed".to_string()));
    assert_eq!(get_mime_type("movie.webm"), Some("video/web".to_string()));
    assert_eq!(get_mime_type("noext"), None);
    assert_eq!(get_mime_type(".hidden"), None);
    assert_eq!(get_mime_type("file."), None);
    assert_eq!(get_mime_type("dir.d/plain"), None);
}
