//! What is sent back for a request.

use vstd::prelude::*;

verus! {

/// A response to a request.
pub enum Reply {
    /// A page, with the status code that goes with it.
    Html { status: u16, body: String },
    /// A redirect (303 See Other) to another address.
    Redirect { location: String },
}

/// A request that fails outside the pages: what the client or the operator is
/// told.
pub enum Fault {
    BadRequest(String),
    Internal(String),
}

pub const OK: u16 = 200;

pub const BAD_REQUEST: u16 = 400;

pub const FORBIDDEN: u16 = 403;

pub const NOT_FOUND: u16 = 404;

impl Reply {
    /// Whether this is the page with a given status and body.
    pub open spec fn is_page(self, status: u16, body: Seq<char>) -> bool {
        &&& self matches Reply::Html { status: s, body: b }
        &&& s == status
        &&& b@ == body
    }

    /// Whether this is the redirect to a given address.
    pub open spec fn is_redirect(self, to: Seq<char>) -> bool {
        &&& self matches Reply::Redirect { location }
        &&& location@ == to
    }

    /// A page with status 200.
    pub fn html(body: String) -> (r: Reply)
        ensures
            r.is_page(OK, body@),
    {
        Reply::Html { status: OK, body }
    }

    /// A redirect.
    pub fn redirect(to: &str) -> (r: Reply)
        ensures
            r.is_redirect(to@),
    {
        Reply::Redirect { location: to.to_string() }
    }
}

}
