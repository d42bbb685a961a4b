//! A small HTTP demo service: a fixed root text, a greeting keyed by a path
//! segment, a JSON endpoint that adds two integers, and a static HTML page whose
//! stylesheet is served from a static-file mount.
//!
//! The library holds everything the service decides: which route a request
//! target reaches, and what each handler answers. The server itself (sockets,
//! JSON decoding, file reads) lives around it.

pub mod handlers;
pub mod laws;
pub mod routing;
pub mod text;

pub use handlers::{
    add_numbers, add_outcome, hello_name, html_page, root, AddReply, AddRequest, AddResponse,
    STATUS_BAD_REQUEST, STATUS_NOT_FOUND, STATUS_OK,
};
pub use routing::{route, Method, Route};
