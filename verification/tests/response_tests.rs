use web::{Cookie, Response, Status, StatusCode, StatusError};

#[test]
fn format_response() {
    let content = String::from("hello");
    let expected = "HTTP/1.1 200 OK\r\nContent-Length: 5\r\n\r\nhello";
    assert_eq!(Response::new().content(content).format_for_response(), expected);

    let expected =
        "HTTP/1.1 200 OK\r\nContent-Length: 0\nSet-Cookie: key=value; SameSite=Lax\r\n\r\n";
    assert_eq!(
        expected,
        Response::new()
            .set_cookie(Cookie::new("key", "value"))
            .format_for_response()
    );
}

#[test]
fn response_format_response() {
    let content = String::from("hello");

    let expected = "HTTP/1.1 200 OK\r\nContent-Length: 5\r\n\r\nhello";

    assert_eq!(
        Response::new().content(content).format_for_response(),
        expected
    );
}

#[test]
fn default_serializes_as_not_found() {
    let expected = "HTTP/1.1 404 Not Found\r\nContent-Length: 22\r\n\r\n<h1>404 Not Found</h1>";
    assert_eq!(Response::default().format_for_response(), expected);
}

#[test]
fn status_num_checks_the_table() {
    let res = Response::new()
        .content("gone".to_string())
        .status_num(404)
        .unwrap();
    assert_eq!(
        res.format_for_response(),
        "HTTP/1.1 404 Not Found\r\nContent-Length: 4\r\n\r\ngone"
    );

    assert_eq!(
        Response::new().status_num(299).err(),
        Some(StatusError::InvalidStatusCode)
    );
    assert_eq!(
        Response::new().status_num(70000).err(),
        Some(StatusError::InvalidStatusCode)
    );
}

#[test]
fn status_table_round_trip() {
    let teapot = Status::from_code(418).unwrap();
    assert_eq!(teapot.reason, "I'm a teapot");
    assert_eq!(StatusCode::ImATeapot.to_string(), "I'm a teapot");
    assert_eq!(StatusCode::ImATeapot.code(), 418);

    let found = Status::from(StatusCode::Found);
    assert_eq!(found.code, 302);
    assert_eq!(found.reason, "Found");
}

#[test]
fn delete_cookie_expires_it() {
    let res = Response::new().delete_cookie("token");
    assert_eq!(
        res.format_for_response(),
        "HTTP/1.1 200 OK\r\nContent-Length: 0\nSet-Cookie: token=; Expires=Thu, 01 Jan 1970 00:00:00 GMT\r\n\r\n"
    );
}

#[test]
fn resolve_file_absorbs_failure() {
    let hit = Response::new().resolve_file(Some("page".to_string()));
    assert_eq!(
        hit.format_for_response(),
        "HTTP/1.1 200 OK\r\nContent-Length: 4\r\n\r\npage"
    );

    let miss = Response::new().resolve_file(None);
    assert_eq!(
        miss.format_for_response(),
        "HTTP/1.1 404 Not Found\r\nContent-Length: 22\r\n\r\n<h1>404 Not Found</h1>"
    );
}

#[test]
fn multibyte_content_length_counts_bytes() {
    let res = Response::new().content("héllo".to_string());
    assert_eq!(
        res.format_for_response(),
        "HTTP/1.1 200 OK\r\nContent-Length: 6\r\n\r\nhéllo"
    );
}
