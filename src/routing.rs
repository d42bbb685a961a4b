use vstd::prelude::*;
use vstd::string::{StrSliceExecFns, StringExecFns};

use crate::text::{contains_char, has_prefix, path_of, same_text, starts_with, target_path};

verus! {

/// The request methods the routing table tells apart.
#[derive(Clone, Copy, Debug, PartialEq, Eq, Structural)]
pub enum Method {
    Get,
    Head,
    Post,
    Other,
}

/// Where a request goes.
#[derive(Debug, PartialEq, Eq)]
pub enum Route {
    /// `GET /`: the fixed root text.
    Root,
    /// `GET /hello/{name}`: a greeting for the captured segment.
    Hello(String),
    /// `POST /add`: the addition endpoint.
    Add,
    /// `GET /page`: the fixed HTML page.
    Page,
    /// Anything under `/static`: the static-file service, with the rest of the
    /// path after the mount point (empty, or starting with `/`).
    Static(String),
    /// No route matches.
    NotFound,
}

/// `Route` with its strings seen as character sequences.
pub enum RouteView {
    Root,
    Hello(Seq<char>),
    Add,
    Page,
    Static(Seq<char>),
    NotFound,
}

impl View for Route {
    type V = RouteView;

    open spec fn view(&self) -> RouteView {
        match self {
            Route::Root => RouteView::Root,
            Route::Hello(name) => RouteView::Hello(name@),
            Route::Add => RouteView::Add,
            Route::Page => RouteView::Page,
            Route::Static(rest) => RouteView::Static(rest@),
            Route::NotFound => RouteView::NotFound,
        }
    }
}

/// The routes registered for reading answer `GET` and `HEAD` alike.
pub open spec fn is_read(m: Method) -> bool {
    m == Method::Get || m == Method::Head
}

/// `/hello/` followed by one non-empty segment.
pub open spec fn is_greeting_path(p: Seq<char>) -> bool {
    &&& has_prefix(p, "/hello/"@)
    &&& p.len() > "/hello/"@.len()
    &&& !p.skip("/hello/"@.len() as int).contains('/')
}

/// The static mount itself, or anything below it.
pub open spec fn is_static_path(p: Seq<char>) -> bool {
    p == "/static"@ || has_prefix(p, "/static/"@)
}

/// The routing table: the route that a request with method `m` and request
/// target `t` reaches. The query string plays no part.
pub open spec fn route_of(m: Method, t: Seq<char>) -> RouteView {
    let p = target_path(t);
    if is_read(m) && p == "/"@ {
        RouteView::Root
    } else if is_read(m) && p == "/page"@ {
        RouteView::Page
    } else if m == Method::Post && p == "/add"@ {
        RouteView::Add
    } else if is_read(m) && is_greeting_path(p) {
        RouteView::Hello(p.skip("/hello/"@.len() as int))
    } else if is_static_path(p) {
        RouteView::Static(p.skip("/static"@.len() as int))
    } else {
        RouteView::NotFound
    }
}

/// Finds the route for a request with method `method` and request target
/// `target` (path and optional query string).
pub fn route(method: Method, target: &str) -> (r: Route)
    ensures
        r@ == route_of(method, target@),
{
    let path = path_of(target);
    let read = method == Method::Get || method == Method::Head;
    if read && same_text(path, "/") {
        return Route::Root;
    }
    if read && same_text(path, "/page") {
        return Route::Page;
    }
    if method == Method::Post && same_text(path, "/add") {
        return Route::Add;
    }
    let n = path.unicode_len();
    if read && starts_with(path, "/hello/") {
        let k = "/hello/".unicode_len();
        if n > k {
            let name = path.substring_char(k, n);
            if !contains_char(name, '/') {
                return Route::Hello(String::from_str(name));
            }
        }
    }
    let whole = same_text(path, "/static");
    if whole || starts_with(path, "/static/") {
        proof {
            reveal_strlit("/static");
            reveal_strlit("/static/");
        }
        let k = "/static".unicode_len();
        return Route::Static(String::from_str(path.substring_char(k, n)));
    }
    Route::NotFound
}

} // verus!
