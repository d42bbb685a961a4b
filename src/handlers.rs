use vstd::prelude::*;
use vstd::string::StringExecFns;

verus! {

/// The `i32` that two's-complement addition of `a` and `b` yields: the
/// mathematical sum brought back into range modulo 2^32.
pub open spec fn wrapped_sum(a: i32, b: i32) -> i32 {
    let s = a as int + b as int;
    if s > i32::MAX as int {
        (s - 0x1_0000_0000) as i32
    } else if s < i32::MIN as int {
        (s + 0x1_0000_0000) as i32
    } else {
        s as i32
    }
}

/// Body of a request to the addition endpoint.
#[derive(Clone, Copy, Debug, PartialEq, Eq, Structural)]
pub struct AddRequest {
    pub a: i32,
    pub b: i32,
}

/// Body of the addition endpoint's answer.
#[derive(Clone, Copy, Debug, PartialEq, Eq, Structural)]
pub struct AddResponse {
    pub sum: i32,
}

/// Adds the two operands with wraparound on overflow.
pub fn add_numbers(payload: AddRequest) -> (r: AddResponse)
    ensures
        r.sum == wrapped_sum(payload.a, payload.b),
{
    AddResponse { sum: payload.a.wrapping_add(payload.b) }
}

/// The HTML document of the page route, up to the stylesheet reference.
pub const PAGE_HEAD: &'static str = r#"
        <!DOCTYPE html>
        <html lang="en">
        <head>
            <meta charset="UTF-8">
            <meta name="viewport" content="width=device-width, initial-scale=1.0">
            <title>HTML Page</title>
            <link rel="stylesheet" "#;

/// The attribute by which the page links its stylesheet.
pub const STYLESHEET_HREF: &'static str = r#"href="/static/style.css""#;

/// The HTML document of the page route, after the stylesheet reference.
pub const PAGE_TAIL: &'static str = r#">
        </head>
        <body>
            <h1>Пример страницы с CSS</h1>
            <p>Это пример страницы, которая использует стили из CSS-файла.</p>
        </body>
        </html>
        "#;

/// Status of a request that was handled.
pub const STATUS_OK: u16 = 200;

/// Status of a request whose body could not be read.
pub const STATUS_BAD_REQUEST: u16 = 400;

/// Status of a request that no route matches.
pub const STATUS_NOT_FOUND: u16 = 404;

/// Whether `status` is in the client-error class (4xx).
pub open spec fn is_client_error(status: u16) -> bool {
    400 <= status < 500
}

/// The answer of the addition endpoint: its status, and the sum where the body
/// was read.
#[derive(Clone, Copy, Debug, PartialEq, Eq, Structural)]
pub struct AddReply {
    pub status: u16,
    pub response: Option<AddResponse>,
}

/// What the addition endpoint answers for a decoded body or a refusal.
pub open spec fn add_reply_of(decoded: Result<AddRequest, u16>) -> AddReply {
    match decoded {
        Ok(req) => AddReply {
            status: STATUS_OK,
            response: Some(AddResponse { sum: wrapped_sum(req.a, req.b) }),
        },
        Err(code) => AddReply {
            status: if is_client_error(code) {
                code
            } else {
                STATUS_BAD_REQUEST
            },
            response: None,
        },
    }
}

/// Answers the addition endpoint from the outcome of decoding its JSON body:
/// the operands, or the status with which the decoder turned the body down.
/// A refused body is answered with that status when it is a client error, and
/// with `400` otherwise; it never yields a sum.
pub fn add_outcome(decoded: Result<AddRequest, u16>) -> (r: AddReply)
    ensures
        r == add_reply_of(decoded),
{
    match decoded {
        Ok(req) => AddReply { status: STATUS_OK, response: Some(add_numbers(req)) },
        Err(code) => {
            let status = if 400 <= code && code < 500 {
                code
            } else {
                STATUS_BAD_REQUEST
            };
            AddReply { status, response: None }
        },
    }
}

/// The fixed text of the root route.
pub open spec fn root_text() -> Seq<char> {
    "Простой REST-сервер на Rust с Axum и HTML/CSS"@
}

/// Answers the root route.
pub fn root() -> (r: &'static str)
    ensures
        r@ == root_text(),
{
    "Простой REST-сервер на Rust с Axum и HTML/CSS"
}

/// The greeting for `name`.
pub open spec fn greeting(name: Seq<char>) -> Seq<char> {
    "Привет, "@ + name + "!"@
}

/// Answers the greeting route for the captured path segment `name`, as it
/// stands: no escaping and no validation.
pub fn hello_name(name: &str) -> (r: String)
    ensures
        r@ == greeting(name@),
{
    let mut r = String::from_str("Привет, ");
    r.append(name);
    r.append("!");
    r
}

/// The fixed HTML document of the page route.
pub open spec fn page_text() -> Seq<char> {
    PAGE_HEAD@ + STYLESHEET_HREF@ + PAGE_TAIL@
}

/// Answers the page route with an HTML document that links the stylesheet
/// `/static/style.css`.
pub fn html_page() -> (r: String)
    ensures
        r@ == page_text(),
{
    let mut r = String::from_str(PAGE_HEAD);
    r.append(STYLESHEET_HREF);
    r.append(PAGE_TAIL);
    r
}

} // verus!
