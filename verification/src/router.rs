//! The request-routing rules of the HTTP front end, as pure functions: which
//! route a method/path pair selects, what body the prompt bytes yield, and
//! what reply each outcome produces. The socket handling around them is not
//! part of this library.

use vstd::prelude::*;

use crate::config::DecodeError;
use crate::text::text_eq;

verus! {

/// The recognised routes.
#[derive(Clone, Copy, PartialEq, Eq, Structural, Debug)]
pub enum Route {
    /// `GET /`: the static landing document.
    Landing,
    /// `POST /inference`: run a generation on the request body.
    Inference,
    /// Anything else.
    NotFound,
}

/// Which route a method and path select.
pub open spec fn spec_dispatch(method: Seq<char>, path: Seq<char>) -> Route {
    if method == "GET"@ && path == "/"@ {
        Route::Landing
    } else if method == "POST"@ && path == "/inference"@ {
        Route::Inference
    } else {
        Route::NotFound
    }
}

/// Map a request's method and path to the route that handles it.
pub fn dispatch(method: &str, path: &str) -> (r: Route)
    ensures
        r == spec_dispatch(method@, path@),
{
    if text_eq(method, "GET") && text_eq(path, "/") {
        Route::Landing
    } else if text_eq(method, "POST") && text_eq(path, "/inference") {
        Route::Inference
    } else {
        Route::NotFound
    }
}

/// A fully computed response: status code, body, and whether the body is
/// HTML. No handler streams; each computes its whole body first.
pub struct Reply {
    /// The HTTP status code.
    pub status: u16,
    /// The complete response body.
    pub body: String,
    /// Whether the body should be served as HTML.
    pub html: bool,
}

/// The reply for the landing route: always 200. When the landing document
/// could not be read, a fixed fallback body substitutes for it; a read
/// failure is never a hard failure.
pub fn landing_reply(page: Option<String>) -> (r: Reply)
    ensures
        r.status == 200,
        r.html,
        page matches Some(p) ==> r.body@ == p@,
        page is None ==> r.body@ == "File not found"@,
{
    let body = match page {
        Option::Some(p) => p,
        Option::None => "File not found".to_owned(),
    };
    Reply { status: 200, body, html: true }
}

/// The reply for an unmatched route: 404, with a fixed nonempty body.
pub fn not_found_reply() -> (r: Reply)
    ensures
        r.status == 404,
        r.body@ == "404 Not Found\n"@,
        r.body@.len() > 0,
{
    proof {
        reveal_strlit("404 Not Found\n");
    }
    Reply { status: 404, body: "404 Not Found\n".to_owned(), html: false }
}

/// The reply when the request body could not be read: 400, with a fixed
/// nonempty body.
pub fn bad_request_reply() -> (r: Reply)
    ensures
        r.status == 400,
        r.body@ == "Bad Request"@,
        r.body@.len() > 0,
{
    proof {
        reveal_strlit("Bad Request");
    }
    Reply { status: 400, body: "Bad Request".to_owned(), html: false }
}

/// The reply for the inference route, from the decoder's outcome: the
/// generated text with status 200 on success, and a fixed nonempty body with
/// status 500 on any generation failure. Nothing else can come out of a
/// generation.
pub fn generation_reply(outcome: Result<String, DecodeError>) -> (r: Reply)
    ensures
        outcome matches Ok(text) ==> r.status == 200 && r.body@ == text@,
        outcome is Err ==> r.status == 500 && r.body@ == "Internal Server Error"@
            && r.body@.len() > 0,
        !r.html,
{
    match outcome {
        Result::Ok(text) => Reply { status: 200, body: text, html: false },
        Result::Err(_) => {
            proof {
                reveal_strlit("Internal Server Error");
            }
            Reply { status: 500, body: "Internal Server Error".to_owned(), html: false }
        },
    }
}

/// Relies on `String::from_utf8`: succeeds exactly on valid UTF-8 input, and
/// then returns the text those bytes encode.
#[verifier::external_body]
fn bytes_to_text(bytes: Vec<u8>) -> (r: Option<String>)
    ensures
        r is Some <==> vstd::utf8::valid_utf8(bytes@),
        r matches Some(s) ==> s@ == vstd::utf8::decode_utf8(bytes@),
{
    String::from_utf8(bytes).ok()
}

/// The prompt that a request body yields: its UTF-8 decoding when the bytes
/// are valid UTF-8, and a fixed placeholder otherwise — invalid bodies are
/// deliberately substituted, not rejected. An empty body yields the empty
/// prompt, which still runs a generation.
pub fn prompt_from_body(body: Vec<u8>) -> (p: String)
    ensures
        vstd::utf8::valid_utf8(body@) ==> p@ == vstd::utf8::decode_utf8(body@),
        !vstd::utf8::valid_utf8(body@) ==> p@ == "Invalid input"@,
        body@.len() == 0 ==> p@ == Seq::<char>::empty(),
{
    proof {
        if body@.len() == 0 {
            assert(vstd::utf8::valid_utf8(body@));
            assert(vstd::utf8::decode_utf8(body@) =~= Seq::<char>::empty());
        }
    }
    match bytes_to_text(body) {
        Option::Some(text) => text,
        Option::None => "Invalid input".to_owned(),
    }
}

} // verus!
