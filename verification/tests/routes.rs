use backend::handlers::{default_handler, echo, favicon, index_handler};
use backend::http::{Method, Request, Response, ServiceError};
use backend::pool::Pool;
use backend::router::{HandlerId, Router};
use backend::server::{AppState, Assets, Server};

fn make_server(app_name: &[u8]) -> Server {
    let state = AppState { app_name: app_name.to_vec(), pool: Pool::new(5) };
    Server::new(state)
}

fn request(method: Method, path: &[u8], body: &[u8]) -> Request {
    Request { method, path: path.to_vec(), body: body.to_vec() }
}

fn no_assets() -> Assets {
    Assets { favicon: None, not_found: None }
}

fn ok_response(r: Result<Response, ServiceError>) -> Response {
    match r {
        Ok(resp) => resp,
        Err(e) => panic!("expected a response, got {:?}", e),
    }
}

#[test]
fn echo_round_trips_body() {
    let server = make_server(b"Backend");
    let body: Vec<u8> = vec![0, 1, 2, 255, 128, 7];
    let resp = ok_response(server.handle(request(Method::Post, b"/echo", &body), no_assets()));
    assert_eq!(resp.status, 200);
    assert_eq!(resp.body, body);
}

#[test]
fn echo_round_trips_empty_body() {
    let server = make_server(b"Backend");
    let resp = ok_response(server.handle(request(Method::Post, b"/echo", b""), no_assets()));
    assert_eq!(resp.status, 200);
    assert_eq!(resp.body, Vec::<u8>::new());
}

#[test]
fn index_greets_with_app_name() {
    let server = make_server(b"Backend");
    let resp = ok_response(server.handle(request(Method::Get, b"/", b""), no_assets()));
    assert_eq!(resp.status, 200);
    assert_eq!(resp.body, b"Hello World!!! Backend".to_vec());
}

#[test]
fn index_body_contains_configured_app_name() {
    let server = make_server(b"my-service");
    let resp = ok_response(server.handle(request(Method::Get, b"/", b""), no_assets()));
    assert_eq!(resp.status, 200);
    let needle = b"my-service";
    let found = resp.body.windows(needle.len()).any(|w| w == needle);
    assert!(found);
}

#[test]
fn favicon_serves_asset_bytes() {
    let server = make_server(b"Backend");
    let icon: Vec<u8> = vec![0, 0, 1, 0, 42];
    let assets = Assets { favicon: Some(icon.clone()), not_found: None };
    let resp = ok_response(server.handle(request(Method::Get, b"/favicon.ico", b""), assets));
    assert_eq!(resp.status, 200);
    assert_eq!(resp.body, icon);
}

#[test]
fn favicon_missing_asset_is_an_error() {
    let server = make_server(b"Backend");
    let r = server.handle(request(Method::Get, b"/favicon.ico", b""), no_assets());
    assert!(matches!(r, Err(ServiceError::AssetNotFound)));
}

#[test]
fn unmatched_get_serves_not_found_document() {
    let server = make_server(b"Backend");
    let doc = b"<html>404</html>".to_vec();
    let assets = Assets { favicon: None, not_found: Some(doc.clone()) };
    let resp = ok_response(server.handle(request(Method::Get, b"/nowhere", b""), assets));
    assert_eq!(resp.status, 404);
    assert_eq!(resp.body, doc);
}

#[test]
fn unmatched_get_with_missing_document_is_an_error() {
    let server = make_server(b"Backend");
    let r = server.handle(request(Method::Get, b"/nowhere", b""), no_assets());
    assert!(matches!(r, Err(ServiceError::AssetNotFound)));
}

#[test]
fn unmatched_post_is_405_with_empty_body() {
    let server = make_server(b"Backend");
    let resp = ok_response(server.handle(request(Method::Post, b"/nowhere", b"x"), no_assets()));
    assert_eq!(resp.status, 405);
    assert!(resp.body.is_empty());
}

#[test]
fn non_get_to_registered_get_path_is_405() {
    let server = make_server(b"Backend");
    let resp = ok_response(server.handle(request(Method::Post, b"/", b""), no_assets()));
    assert_eq!(resp.status, 405);
    assert!(resp.body.is_empty());

    let resp = ok_response(server.handle(request(Method::Other, b"/echo", b""), no_assets()));
    assert_eq!(resp.status, 405);
    assert!(resp.body.is_empty());
}

#[test]
fn get_to_echo_path_falls_through_to_default() {
    let server = make_server(b"Backend");
    let doc = b"not found".to_vec();
    let assets = Assets { favicon: None, not_found: Some(doc.clone()) };
    let resp = ok_response(server.handle(request(Method::Get, b"/echo", b""), assets));
    assert_eq!(resp.status, 404);
    assert_eq!(resp.body, doc);
}

#[test]
fn router_resolves_registered_routes() {
    let router = Router::new();
    assert_eq!(router.lookup(Method::Get, &b"/".to_vec()), HandlerId::Index);
    assert_eq!(router.lookup(Method::Post, &b"/echo".to_vec()), HandlerId::Echo);
    assert_eq!(router.lookup(Method::Get, &b"/favicon.ico".to_vec()), HandlerId::Favicon);
    assert_eq!(router.lookup(Method::Get, &b"/echo".to_vec()), HandlerId::Default);
    assert_eq!(router.lookup(Method::Post, &b"/".to_vec()), HandlerId::Default);
    assert_eq!(router.lookup(Method::Other, &b"/unknown".to_vec()), HandlerId::Default);
}

#[test]
fn handlers_directly_match_dispatch() {
    let resp = index_handler(&b"Backend".to_vec());
    assert_eq!(resp.status, 200);
    assert_eq!(resp.body, b"Hello World!!! Backend".to_vec());

    let resp = echo(b"payload".to_vec());
    assert_eq!(resp.status, 200);
    assert_eq!(resp.body, b"payload".to_vec());

    let resp = favicon(Some(vec![1, 2, 3])).unwrap();
    assert_eq!(resp.status, 200);
    assert_eq!(resp.body, vec![1, 2, 3]);

    let resp = default_handler(Method::Other, None).unwrap();
    assert_eq!(resp.status, 405);
    assert!(resp.body.is_empty());
}

#[test]
fn interleaved_requests_do_not_leak_across_each_other() {
    let server = make_server(b"Backend");
    let bodies: Vec<Vec<u8>> = (0u8..8).map(|i| vec![i; (i as usize) + 1]).collect();
    let mut responses = Vec::new();
    for (i, body) in bodies.iter().enumerate() {
        if i % 2 == 0 {
            responses.push(server.handle(request(Method::Post, b"/echo", body), no_assets()));
        } else {
            responses.push(server.handle(request(Method::Get, b"/", b""), no_assets()));
        }
    }
    for (i, r) in responses.into_iter().enumerate() {
        let resp = ok_response(r);
        assert_eq!(resp.status, 200);
        if i % 2 == 0 {
            assert_eq!(resp.body, bodies[i]);
        } else {
            assert_eq!(resp.body, b"Hello World!!! Backend".to_vec());
        }
    }
}
