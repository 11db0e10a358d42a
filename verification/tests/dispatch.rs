//! Route table and dispatcher behaviour.

use fonthelper::config::Config;
use fonthelper::get_files::init;
use fonthelper::http::HttpMethod;
use fonthelper::server::{Dispatch, HandlerRef, Route, Server};

fn test_config() -> Config {
    Config {
        host: String::from("127.0.0.1"),
        port: String::from("18412"),
        font_dirs: Vec::new(),
    }
}

fn route(method: HttpMethod, path: &str) -> Route {
    Route {
        method,
        path: String::from(path),
        handler: HandlerRef::FontFiles,
    }
}

#[test]
fn matching_route_gets_its_handler() {
    let server = Server::new(test_config()).add_route(route(HttpMethod::Get, "/x"));
    let d = server.dispatch(HttpMethod::Get, &String::from("/x"));
    assert!(matches!(d, Dispatch::Handler(HandlerRef::FontFiles)));
}

#[test]
fn unmatched_request_goes_to_fallback() {
    let server = Server::new(test_config()).add_route(route(HttpMethod::Get, "/x"));
    assert!(matches!(
        server.dispatch(HttpMethod::Get, &String::from("/y")),
        Dispatch::Fallback
    ));
    assert!(matches!(
        server.dispatch(HttpMethod::Post, &String::from("/x")),
        Dispatch::Fallback
    ));
    let empty = Server::new(test_config());
    assert!(matches!(
        empty.dispatch(HttpMethod::Get, &String::from("/x")),
        Dispatch::Fallback
    ));
}

#[test]
fn get_x_ok_and_post_x_falls_back() {
    // Register (GET, "/x") with a handler that would answer 200 "ok"; a GET
    // dispatch picks that handler, a POST dispatch does not match it.
    let server = Server::new(test_config()).add_route(route(HttpMethod::Get, "/x"));
    let (status, body) = match server.dispatch(HttpMethod::Get, &String::from("/x")) {
        Dispatch::Handler(HandlerRef::FontFiles) => (200u16, String::from("ok")),
        _ => panic!("expected the registered handler"),
    };
    assert_eq!(status, 200);
    assert_eq!(body, "ok");
    assert!(matches!(
        server.dispatch(HttpMethod::Post, &String::from("/x")),
        Dispatch::Fallback
    ));
}

#[test]
fn options_preflight_on_empty_table() {
    let server = Server::new(test_config());
    let d = server.dispatch(HttpMethod::Options, &String::from("/anything"));
    let r = match d {
        Dispatch::Preflight(r) => r,
        _ => panic!("expected a preflight response"),
    };
    assert_eq!(r.status, 204);
    assert!(r.body.is_empty());
    assert_eq!(r.headers[0].0, "Access-Control-Allow-Origin");
    assert_eq!(r.headers[0].1, "https://www.figma.com");
    assert_eq!(r.headers[1].0, "Access-Control-Allow-Private-Network");
    assert_eq!(r.headers[1].1, "true");
    assert_eq!(r.headers[2].0, "Content-Type");
    assert_eq!(r.headers[2].1, "application/octet-stream");
}

#[test]
fn options_bypasses_registered_routes() {
    let server = Server::new(test_config()).add_route(route(HttpMethod::Options, "/x"));
    let d = server.dispatch(HttpMethod::Options, &String::from("/x"));
    assert!(matches!(d, Dispatch::Preflight(_)));
}

#[test]
fn duplicate_routes_first_registered_wins() {
    let server = Server::new(test_config())
        .add_route(route(HttpMethod::Get, "/x"))
        .add_route(route(HttpMethod::Get, "/x"))
        .add_route(route(HttpMethod::Get, "/y"));
    assert_eq!(server.lookup(HttpMethod::Get, &String::from("/x")), Some(0));
    assert_eq!(server.lookup(HttpMethod::Get, &String::from("/y")), Some(2));
    assert_eq!(server.lookup(HttpMethod::Post, &String::from("/x")), None);
}

#[test]
fn path_matching_is_exact() {
    let server = Server::new(test_config()).add_route(route(HttpMethod::Get, "/x"));
    assert_eq!(server.lookup(HttpMethod::Get, &String::from("/x/")), None);
    assert_eq!(server.lookup(HttpMethod::Get, &String::from("/X")), None);
}

#[test]
fn init_registers_the_font_files_route() {
    let r = init();
    assert!(matches!(r.method, HttpMethod::Get));
    assert_eq!(r.path, "/figma/font-files");
    assert!(matches!(r.handler, HandlerRef::FontFiles));
}
