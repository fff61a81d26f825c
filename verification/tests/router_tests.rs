//! The route table: registration, exact-path lookup, and the not-found
//! path.

use http_core::request::HttpRequest;
use http_core::response::HttpResponse;
use http_core::router::{internal_error, not_found, HandlerId, Router};

type HandlerFn = Box<dyn Fn(&HttpRequest, &mut HttpResponse)>;

#[test]
fn function_works() {
    let mut router = Router::new();

    fn _handler(_req: &HttpRequest, res: &mut HttpResponse) {
        res.status_code = 200;
        res.body = String::from("hello");
    }

    let mut handlers: Vec<HandlerFn> = Vec::new();
    handlers.push(Box::new(_handler));
    let id: HandlerId = handlers.len() - 1;

    router.add_route("/", id);
    assert_eq!(router.route_for("/"), Some(id));
}

#[test]
fn closure_works() {
    let mut router = Router::new();

    let handler: HandlerFn = Box::new(|_req, res| {
        res.status_code = 200;
        res.body = String::from("hello");
    });

    let mut handlers: Vec<HandlerFn> = Vec::new();
    handlers.push(handler);
    let id: HandlerId = handlers.len() - 1;

    router.add_route("/", id);
    assert_eq!(router.route_for("/"), Some(id));
}

#[test]
fn unknown_path_misses() {
    let mut router = Router::new();
    router.add_route("/", 0);
    router.add_route("/kitty", 1);
    assert_eq!(router.route_for("/does-not-exist"), None);
}

#[test]
fn last_registration_wins() {
    let mut router = Router::new();
    router.add_route("/", 0);
    router.add_route("/json", 1);
    router.add_route("/", 2);
    assert_eq!(router.route_for("/"), Some(2));
    assert_eq!(router.route_for("/json"), Some(1));
}

#[test]
fn failed_content_lookup_becomes_a_500() {
    let mut res = HttpResponse::new();
    res.body = String::from("partial");
    internal_error(&mut res);
    assert_eq!(res.status_code, 500);
    assert_eq!(res.body, "");
}

#[test]
fn not_found_sets_404_and_content() {
    let mut res = HttpResponse::new();
    not_found(&mut res, String::from("<h1>404 - Page Not Found</h1>"));
    assert_eq!(res.status_code, 404);
    assert_eq!(res.body, "<h1>404 - Page Not Found</h1>");
}
