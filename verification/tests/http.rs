//! Method selection and the conclusion of an exchange.

use sidecar_shell::greeting::greet;
use sidecar_shell::http::{
    conclude, select_method, status_error, unread_error, unsent_error, Exchange, HttpMethod,
    HttpRequestOptions, HttpStatus,
};
use sidecar_shell::text::same_text;

fn options(method: Option<&str>) -> Option<HttpRequestOptions> {
    Some(HttpRequestOptions {
        method: method.map(String::from),
    })
}

fn status(code: u16) -> HttpStatus {
    HttpStatus::new(code).unwrap()
}

#[test]
fn method_defaults_to_get() {
    assert_eq!(select_method(&None), HttpMethod::Get);
    assert_eq!(select_method(&options(None)), HttpMethod::Get);
    assert_eq!(select_method(&options(Some("GET"))), HttpMethod::Get);
    assert_eq!(select_method(&options(Some("PATCH"))), HttpMethod::Get);
    assert_eq!(select_method(&options(Some(""))), HttpMethod::Get);
}

#[test]
fn method_names_are_matched_exactly() {
    assert_eq!(select_method(&options(Some("POST"))), HttpMethod::Post);
    assert_eq!(select_method(&options(Some("PUT"))), HttpMethod::Put);
    assert_eq!(select_method(&options(Some("DELETE"))), HttpMethod::Delete);
    assert_eq!(select_method(&options(Some("post"))), HttpMethod::Get);
    assert_eq!(select_method(&options(Some("POST "))), HttpMethod::Get);
    assert_eq!(select_method(&options(Some("PUTS"))), HttpMethod::Get);
}

#[test]
fn status_numbers_run_from_100_to_999() {
    assert_eq!(HttpStatus::new(99), None);
    assert_eq!(HttpStatus::new(0), None);
    assert_eq!(HttpStatus::new(1000), None);
    assert_eq!(HttpStatus::new(u16::MAX), None);
    assert_eq!(status(100).code(), 100);
    assert_eq!(status(999).code(), 999);
    assert_eq!(status(404).code(), 404);
}

#[test]
fn success_is_200_to_299() {
    assert!(!status(199).is_success());
    assert!(status(200).is_success());
    assert!(status(204).is_success());
    assert!(status(299).is_success());
    assert!(!status(300).is_success());
    assert!(!status(404).is_success());
    assert!(!status(500).is_success());
}

#[test]
fn status_is_shown_with_its_reason() {
    assert_eq!(status(200).label(), "200 OK");
    assert_eq!(status(404).label(), "404 Not Found");
    assert_eq!(status(500).label(), "500 Internal Server Error");
    assert_eq!(status(799).label(), "799 <unknown status code>");
}

#[test]
fn successful_answer_gives_its_body() {
    let reply = conclude(Exchange::Answered {
        status: status(200),
        body: String::from("{\"ok\":true}"),
    });
    assert_eq!(reply, Ok(String::from("{\"ok\":true}")));
    let reply = conclude(Exchange::Answered {
        status: status(204),
        body: String::new(),
    });
    assert_eq!(reply, Ok(String::new()));
}

#[test]
fn other_answers_give_an_error_with_status_and_body() {
    let reply = conclude(Exchange::Answered {
        status: status(404),
        body: String::from("no such page"),
    });
    assert_eq!(
        reply,
        Err(String::from("HTTP Error: 404 Not Found - no such page"))
    );
    let reply = conclude(Exchange::Answered {
        status: status(301),
        body: String::new(),
    });
    assert_eq!(
        reply,
        Err(String::from("HTTP Error: 301 Moved Permanently - "))
    );
}

#[test]
fn unread_body_gives_an_error_with_the_status() {
    let reply = conclude(Exchange::Unread {
        status: status(200),
        reason: String::from("error decoding response body"),
    });
    assert_eq!(
        reply,
        Err(String::from(
            "Failed to get response text: error decoding response body (Status: 200 OK)"
        ))
    );
}

#[test]
fn unsent_request_gives_an_error() {
    let reply = conclude(Exchange::Unsent(String::from("connection refused")));
    assert_eq!(
        reply,
        Err(String::from("Failed to send request: connection refused"))
    );
}

#[test]
fn error_texts() {
    assert_eq!(unsent_error("timeout"), "Failed to send request: timeout");
    assert_eq!(
        unread_error("truncated", "502 Bad Gateway"),
        "Failed to get response text: truncated (Status: 502 Bad Gateway)"
    );
    assert_eq!(
        status_error("418 I'm a teapot", "short and stout"),
        "HTTP Error: 418 I'm a teapot - short and stout"
    );
}

#[test]
fn texts_are_compared_as_a_whole() {
    assert!(same_text("", ""));
    assert!(same_text("POST", "POST"));
    assert!(!same_text("POST", "POSTS"));
    assert!(!same_text("POST", "POSt"));
    assert!(!same_text("", "x"));
    assert!(same_text("日本語", "日本語"));
    assert!(!same_text("日本語", "日本话"));
}

#[test]
fn greeting_names_the_user() {
    assert_eq!(greet("Ada"), "Hello, Ada! Welcome to Next.js + Tauri!");
    assert_eq!(greet(""), "Hello, ! Welcome to Next.js + Tauri!");
}
