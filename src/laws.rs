use vstd::prelude::*;

use crate::handlers::{
    add_reply_of, greeting, is_client_error, page_text, root_text, wrapped_sum, AddRequest,
    AddResponse, PAGE_HEAD, STATUS_OK, STYLESHEET_HREF,
};
use crate::routing::{route_of, Method, RouteView};
use crate::text::{is_path_end, lemma_path_end_unique, target_path};

verus! {

/// Whether `s` occurs in `t` as a contiguous run of characters.
pub open spec fn occurs_in(s: Seq<char>, t: Seq<char>) -> bool {
    exists|i: int| 0 <= i && i + s.len() <= t.len() && #[trigger] t.subrange(i, i + s.len()) == s
}

/// A target without `?` is all path.
proof fn lemma_path_without_query(t: Seq<char>)
    requires
        !t.contains('?'),
    ensures
        target_path(t) == t,
{
    assert(is_path_end(t, t.len() as int));
    lemma_path_end_unique(t, t.len() as int);
    assert(t.take(t.len() as int) =~= t);
}

/// `POST /add` with operands `a` and `b` answers success with their sum, taken
/// with two's-complement wraparound: the sum differs from `a + b` by a multiple
/// of 2^32 and lies in the range of `i32`.
pub proof fn law_add_sums(a: i32, b: i32)
    ensures
        route_of(Method::Post, "/add"@) == RouteView::Add,
        add_reply_of(Ok(AddRequest { a, b })).status == STATUS_OK,
        add_reply_of(Ok(AddRequest { a, b })).response == Some(
            AddResponse { sum: wrapped_sum(a, b) },
        ),
        (wrapped_sum(a, b) as int - (a as int + b as int)) % 0x1_0000_0000 == 0,
        a as int + b as int <= i32::MAX as int && a as int + b as int >= i32::MIN as int
            ==> wrapped_sum(a, b) as int == a as int + b as int,
{
    reveal_strlit("/add");
    reveal_strlit("/");
    reveal_strlit("/page");
    lemma_path_without_query("/add"@);
}

/// `POST /add` with a body that the JSON decoder turns down (a missing
/// operand, malformed JSON) answers a client error and never a sum.
pub proof fn law_add_refused(code: u16)
    ensures
        route_of(Method::Post, "/add"@) == RouteView::Add,
        is_client_error(add_reply_of(Err(code)).status),
        add_reply_of(Err(code)).status != STATUS_OK,
        add_reply_of(Err(code)).response is None,
{
    reveal_strlit("/add");
    reveal_strlit("/");
    reveal_strlit("/page");
    lemma_path_without_query("/add"@);
}

/// `GET /hello/{name}` reaches the greeting for exactly `name`, for every
/// non-empty segment without a path separator (nor the `?` that would start a
/// query string), and the greeting reads `Привет, {name}!`.
pub proof fn law_greeting(name: Seq<char>)
    requires
        name.len() > 0,
        !name.contains('/'),
        !name.contains('?'),
    ensures
        route_of(Method::Get, "/hello/"@ + name) == RouteView::Hello(name),
        greeting(name) == "Привет, "@ + name + "!"@,
{
    reveal_strlit("/hello/");
    reveal_strlit("/");
    reveal_strlit("/page");
    let t = "/hello/"@ + name;
    assert(!t.contains('?')) by {
        if t.contains('?') {
            let j = choose|j: int| 0 <= j < t.len() && t[j] == '?';
            if j >= 7 {
                assert(name[j - 7] == '?');
            }
        }
    }
    lemma_path_without_query(t);
    assert(t.take(7) =~= "/hello/"@);
    assert(t.skip(7) =~= name);
    assert(t != "/"@ && t != "/page"@) by {
        assert(t[1] == 'h');
    }
}

/// `GET /` reaches the fixed root text, with or without a query string.
pub proof fn law_root_fixed(query: Seq<char>)
    ensures
        route_of(Method::Get, "/"@) == RouteView::Root,
        route_of(Method::Get, "/?"@ + query) == RouteView::Root,
        root_text() == "Простой REST-сервер на Rust с Axum и HTML/CSS"@,
{
    reveal_strlit("/");
    reveal_strlit("/?");
    lemma_path_without_query("/"@);
    let t = "/?"@ + query;
    assert(is_path_end(t, 1));
    lemma_path_end_unique(t, 1);
    assert(target_path(t) =~= "/"@);
}

/// `GET /page` reaches an HTML document that links the stylesheet
/// `/static/style.css`.
pub proof fn law_page_links_stylesheet()
    ensures
        route_of(Method::Get, "/page"@) == RouteView::Page,
        occurs_in("href=\"/static/style.css\""@, page_text()),
{
    reveal_strlit("/page");
    reveal_strlit("/");
    lemma_path_without_query("/page"@);
    reveal_strlit("href=\"/static/style.css\"");
    let i = PAGE_HEAD@.len() as int;
    assert(STYLESHEET_HREF@ == "href=\"/static/style.css\""@);
    assert(page_text().subrange(i, i + STYLESHEET_HREF@.len()) =~= STYLESHEET_HREF@);
}

/// Every path under `/static/` goes to the static-file service, whatever the
/// method, with the rest of the path after the mount point; the service then
/// answers from the files on disk.
pub proof fn law_static_mount(m: Method, rest: Seq<char>)
    requires
        !rest.contains('?'),
    ensures
        route_of(m, "/static/"@ + rest) == RouteView::Static("/"@ + rest),
{
    reveal_strlit("/static/");
    reveal_strlit("/static");
    reveal_strlit("/");
    reveal_strlit("/page");
    reveal_strlit("/add");
    reveal_strlit("/hello/");
    let t = "/static/"@ + rest;
    assert(!t.contains('?')) by {
        if t.contains('?') {
            let j = choose|j: int| 0 <= j < t.len() && t[j] == '?';
            if j >= 8 {
                assert(rest[j - 8] == '?');
            }
        }
    }
    lemma_path_without_query(t);
    assert(t.take(8) =~= "/static/"@);
    assert(t.skip(7) =~= "/"@ + rest);
    assert(t[1] == 's');
    assert(t.len() > 5 ==> t.take(7)[1] == 's');
}

} // verus!
