use web::{Method, ParseError, Request, Route};

#[test]
fn create() {
    let request = Request::parse("GET /").unwrap();
    assert_eq!(request.method, Method::GET);
    assert_eq!(request.route, Route { segments: vec![] });

    let request = Request::parse("DELETE /a/b/c/").unwrap();
    assert_eq!(request.method, Method::DELETE);
    assert_eq!(
        request.route,
        Route {
            segments: vec![String::from("a"), String::from("b"), String::from("c")]
        }
    );

    let request = Request::parse(
        "POST /auth/register HTTP/1.1\ncontent-type: application/json\naccept: */*\nhost: localhost:3000\n\n{\"username\": \"name\", \"age\": 123}\n",
    )
    .unwrap();
    assert_eq!(request.method, Method::POST);
    assert_eq!(
        request.route,
        Route {
            segments: vec!["auth".to_string(), "register".to_string()]
        }
    );
    assert_eq!(
        request.headers.get("content-type"),
        Some(&"application/json".to_string())
    );
    let body = request.body.expect("json body expected");
    assert_eq!(body["username"], serde_json::Value::String("name".into()));
    assert_eq!(body["age"], serde_json::Value::Number(123.into()));
}

#[test]
fn invalid_create() {
    match Request::parse("") {
        Ok(_) => panic!("bad request didn't error"),
        Err(e) => assert_eq!(e, ParseError::EmptyRequest),
    };

    match Request::parse("OneLongWordWithNoSpaces") {
        Ok(_) => panic!("bad request didn't error"),
        Err(e) => assert_eq!(e, ParseError::InvalidStartLine),
    };

    match Request::parse("GWT /") {
        Ok(_) => panic!("bad request didn't error"),
        Err(e) => assert_eq!(e, ParseError::InvalidMethod),
    };

    match Request::parse("GET / HTTP/1.1\nbad header") {
        Ok(_) => panic!("bad request didn't error"),
        Err(e) => assert_eq!(e, ParseError::InvalidHeader),
    };

    match Request::parse("GET / HTTP/1.1\ncontent-type:application/json\n\n[]") {
        Ok(_) => panic!("bad request didn't error"),
        Err(e) => assert_eq!(e, ParseError::InvalidBody),
    };

    match Request::parse("GET / HTTP/1.1\ncontent-type:application/json\n\n{\n    \"key\n}") {
        Ok(_) => panic!("bad request didn't error"),
        Err(e) => assert_eq!(e, ParseError::InvalidBody),
    };
}

#[test]
fn debug() {
    let debug = Request::parse("POST /db").unwrap().describe();
    assert_eq!(debug, "POST to /db");

    let debug = Request::parse("PATCH /").unwrap().describe();
    assert_eq!(debug, "PATCH to /");
}

#[test]
fn header_values_are_cleaned() {
    let request = Request::parse("GET / HTTP/1.1\nX-Custom: VaLuE with  Spaces\n").unwrap();
    assert_eq!(
        request.headers.get("x-custom"),
        Some(&"valuewithspaces".to_string())
    );
    assert_eq!(request.headers.get("X-Custom"), None);
    assert!(request.body.is_none());
}

#[test]
fn carriage_returns_are_line_endings() {
    let request =
        Request::parse("PUT /x HTTP/1.1\r\nhost: somewhere\r\n\r\n").unwrap();
    assert_eq!(request.method, Method::PUT);
    assert_eq!(request.headers.get("host"), Some(&"somewhere".to_string()));
}

#[test]
fn repeated_header_keys_keep_the_last_value() {
    let request = Request::parse("GET / HTTP/1.1\nx-tag: one\nx-tag: two\n").unwrap();
    assert_eq!(request.headers.get("x-tag"), Some(&"two".to_string()));
}

#[test]
fn params_start_empty() {
    let request = Request::parse("GET /user/1").unwrap();
    assert_eq!(request.params.len(), 0);
}
