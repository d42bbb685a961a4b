use demo_server::text::{contains_char, path_of, same_text, starts_with};
use demo_server::{
    add_numbers, add_outcome, hello_name, html_page, root, route, AddRequest, AddResponse,
    Method, Route, STATUS_BAD_REQUEST, STATUS_OK,
};

#[test]
fn add_two_and_three() {
    assert_eq!(route(Method::Post, "/add"), Route::Add);
    let reply = add_outcome(Ok(AddRequest { a: 2, b: 3 }));
    assert_eq!(reply.status, 200);
    assert_eq!(reply.response, Some(AddResponse { sum: 5 }));
}

#[test]
fn add_negative_operands() {
    assert_eq!(add_numbers(AddRequest { a: -7, b: 3 }).sum, -4);
    assert_eq!(add_numbers(AddRequest { a: 0, b: 0 }).sum, 0);
}

#[test]
fn add_wraps_on_overflow() {
    assert_eq!(add_numbers(AddRequest { a: i32::MAX, b: 1 }).sum, i32::MIN);
    assert_eq!(add_numbers(AddRequest { a: i32::MIN, b: -1 }).sum, i32::MAX);
    assert_eq!(add_numbers(AddRequest { a: i32::MAX, b: i32::MAX }).sum, -2);
}

#[test]
fn add_refused_body_is_client_error() {
    let reply = add_outcome(Err(422));
    assert_eq!(reply.status, 422);
    assert_eq!(reply.response, None);
    let reply = add_outcome(Err(400));
    assert_eq!(reply.status, 400);
    assert_eq!(reply.response, None);
}

#[test]
fn add_refusal_outside_client_errors_becomes_bad_request() {
    let reply = add_outcome(Err(500));
    assert_eq!(reply.status, STATUS_BAD_REQUEST);
    assert_eq!(reply.response, None);
    let reply = add_outcome(Err(200));
    assert_eq!(reply.status, STATUS_BAD_REQUEST);
    assert_eq!(reply.response, None);
}

#[test]
fn add_only_answers_post() {
    assert_eq!(route(Method::Get, "/add"), Route::NotFound);
}

#[test]
fn hello_world() {
    assert_eq!(route(Method::Get, "/hello/World"), Route::Hello("World".to_string()));
    assert_eq!(hello_name("World"), "Привет, World!");
}

#[test]
fn hello_keeps_name_unescaped() {
    assert_eq!(hello_name("<b>&"), "Привет, <b>&!");
    assert_eq!(hello_name("Мир"), "Привет, Мир!");
    assert_eq!(route(Method::Get, "/hello/%20x?y=1"), Route::Hello("%20x".to_string()));
}

#[test]
fn hello_needs_one_nonempty_segment() {
    assert_eq!(route(Method::Get, "/hello/"), Route::NotFound);
    assert_eq!(route(Method::Get, "/hello/a/b"), Route::NotFound);
    assert_eq!(route(Method::Get, "/hello"), Route::NotFound);
    assert_eq!(route(Method::Post, "/hello/World"), Route::NotFound);
}

#[test]
fn root_ignores_query_string() {
    assert_eq!(route(Method::Get, "/"), Route::Root);
    assert_eq!(route(Method::Get, "/?lang=en&x"), Route::Root);
    assert_eq!(route(Method::Head, "/"), Route::Root);
    assert_eq!(root(), "Простой REST-сервер на Rust с Axum и HTML/CSS");
}

#[test]
fn page_links_stylesheet() {
    assert_eq!(route(Method::Get, "/page"), Route::Page);
    let page = html_page();
    assert!(page.contains("href=\"/static/style.css\""));
    assert!(page.contains("<!DOCTYPE html>"));
    assert!(page.contains("<link rel=\"stylesheet\" href=\"/static/style.css\">"));
}

#[test]
fn static_nonexistent_goes_to_file_service() {
    assert_eq!(
        route(Method::Get, "/static/nonexistent.file"),
        Route::Static("/nonexistent.file".to_string())
    );
    assert_eq!(route(Method::Post, "/static/style.css"), Route::Static("/style.css".to_string()));
    assert_eq!(route(Method::Get, "/static"), Route::Static(String::new()));
}

#[test]
fn unmatched_routes_are_not_found() {
    assert_eq!(route(Method::Get, "/nowhere"), Route::NotFound);
    assert_eq!(route(Method::Get, "/staticfile"), Route::NotFound);
    assert_eq!(route(Method::Other, "/"), Route::NotFound);
    assert_eq!(route(Method::Get, ""), Route::NotFound);
}

#[test]
fn status_constants() {
    assert_eq!(STATUS_OK, 200);
    assert_eq!(demo_server::STATUS_NOT_FOUND, 404);
}

#[test]
fn text_helpers() {
    assert_eq!(path_of("/a/b?c?d"), "/a/b");
    assert_eq!(path_of("?q"), "");
    assert_eq!(path_of("/плюс"), "/плюс");
    assert!(starts_with("/hello/x", "/hello/"));
    assert!(!starts_with("/hel", "/hello/"));
    assert!(same_text("/page", "/page"));
    assert!(!same_text("/pages", "/page"));
    assert!(contains_char("a/b", '/'));
    assert!(!contains_char("ab", '/'));
}
