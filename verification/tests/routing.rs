//! The routing rules and reply builders of the HTTP front end.

use gpt2_service::config::DecodeError;
use gpt2_service::router::bad_request_reply;
use gpt2_service::router::dispatch;
use gpt2_service::router::generation_reply;
use gpt2_service::router::landing_reply;
use gpt2_service::router::not_found_reply;
use gpt2_service::router::prompt_from_body;
use gpt2_service::router::Route;

#[test]
fn known_routes_dispatch() {
    assert_eq!(dispatch("GET", "/"), Route::Landing);
    assert_eq!(dispatch("POST", "/inference"), Route::Inference);
}

#[test]
fn unmatched_routes_are_not_found() {
    assert_eq!(dispatch("DELETE", "/inference"), Route::NotFound);
    assert_eq!(dispatch("GET", "/inference"), Route::NotFound);
    assert_eq!(dispatch("POST", "/"), Route::NotFound);
    assert_eq!(dispatch("PUT", "/elsewhere"), Route::NotFound);
    assert_eq!(dispatch("", ""), Route::NotFound);
}

#[test]
fn not_found_reply_has_body() {
    let r = not_found_reply();
    assert_eq!(r.status, 404);
    assert!(!r.body.is_empty());
    assert_eq!(r.body, "404 Not Found\n");
}

#[test]
fn landing_is_always_ok() {
    let served = landing_reply(Some("<html>hi</html>".to_string()));
    assert_eq!(served.status, 200);
    assert!(served.html);
    assert_eq!(served.body, "<html>hi</html>");
    // a failed page read substitutes the fallback body, never an error status
    let fallback = landing_reply(None);
    assert_eq!(fallback.status, 200);
    assert_eq!(fallback.body, "File not found");
}

#[test]
fn bad_request_has_body() {
    let r = bad_request_reply();
    assert_eq!(r.status, 400);
    assert_eq!(r.body, "Bad Request");
}

#[test]
fn generation_outcomes_map_to_statuses() {
    let ok = generation_reply(Ok("some text".to_string()));
    assert_eq!(ok.status, 200);
    assert_eq!(ok.body, "some text");
    for e in [DecodeError::Encode, DecodeError::Inference, DecodeError::Decode] {
        let err = generation_reply(Err(e));
        assert_eq!(err.status, 500);
        assert_eq!(err.body, "Internal Server Error");
    }
}

#[test]
fn prompt_decodes_utf8_bodies() {
    assert_eq!(prompt_from_body(b"The sky is".to_vec()), "The sky is");
    assert_eq!(prompt_from_body("héllo…".as_bytes().to_vec()), "héllo…");
}

#[test]
fn prompt_substitutes_invalid_utf8() {
    assert_eq!(prompt_from_body(vec![0xff, 0xfe, 0x00]), "Invalid input");
    assert_eq!(prompt_from_body(vec![0xc3, 0x28]), "Invalid input");
}

#[test]
fn empty_body_gives_empty_prompt() {
    assert_eq!(prompt_from_body(Vec::new()), "");
}
