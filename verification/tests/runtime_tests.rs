use web::{Endpoint, Method, Request, Response, Route, Runtime, StatusCode};

#[test]
fn it_works() {
    assert_eq!(2 + 2, 4);
}

#[test]
fn sequential_matches_compose_in_order() {
    let request = Request::parse("GET /a").unwrap();
    let mut rt = Runtime::new(request);

    let first = rt
        .get("/a", |_req: Request, res: Response| {
            res.status(StatusCode::OK)
                .content("you will never see this".to_string())
        })
        .unwrap();
    assert!(first);

    let second = rt
        .get("/a", |_req: Request, res: Response| {
            res.content("hi".to_string())
        })
        .unwrap();
    assert!(second);

    let (response, log_now) = rt.finish();
    assert!(!log_now);
    assert_eq!(
        response.format_for_response(),
        "HTTP/1.1 200 OK\r\nContent-Length: 2\r\n\r\nhi"
    );
}

#[test]
fn no_match_leaves_the_default() {
    let request = Request::parse("GET /nope").unwrap();
    let mut rt = Runtime::new(request);
    rt.log();

    let matched = rt
        .get("/a", |_req: Request, res: Response| res)
        .unwrap();
    assert!(!matched);

    let (response, log_now) = rt.finish();
    assert!(log_now);
    assert_eq!(
        response.format_for_response(),
        "HTTP/1.1 404 Not Found\r\nContent-Length: 22\r\n\r\n<h1>404 Not Found</h1>"
    );
}

#[test]
fn handler_sees_populated_params() {
    let request = Request::parse("GET /user/jo").unwrap();
    let mut rt = Runtime::new(request);

    let matched = rt
        .get("/user/:name", |req: Request, res: Response| {
            let name = req.params.get("name").unwrap().clone();
            res.content(format!("Hello, {}", name)).status(StatusCode::OK)
        })
        .unwrap();
    assert!(matched);

    let (response, _) = rt.finish();
    assert_eq!(
        response.format_for_response(),
        "HTTP/1.1 200 OK\r\nContent-Length: 9\r\n\r\nHello, jo"
    );
}

#[test]
fn method_must_agree() {
    let request = Request::parse("GET /a").unwrap();
    let mut rt = Runtime::new(request);

    let matched = rt
        .post("/a", |_req: Request, res: Response| {
            res.content("posted".to_string())
        })
        .unwrap();
    assert!(!matched);

    let (response, _) = rt.finish();
    assert_eq!(response.status.code, 404);
}

#[test]
fn log_fires_once_on_first_match() {
    let request = Request::parse("GET /a").unwrap();
    let mut rt = Runtime::new(request);
    rt.log();
    assert!(!rt.logged);

    rt.get("/a", |_req: Request, res: Response| res).unwrap();
    assert!(rt.logged);
    assert!(rt.identified);

    rt.get("/a", |_req: Request, res: Response| res).unwrap();
    assert!(rt.logged);

    let (_, log_now) = rt.finish();
    assert!(!log_now);
}

#[test]
fn handler_sees_the_json_body() {
    let request = Request::parse(
        "POST / HTTP/1.1\ncontent-type: application/json\n\n{\"username\": \"jo\"}",
    )
    .unwrap();
    let mut rt = Runtime::new(request);

    let matched = rt
        .post("/", |req: Request, res: Response| {
            let username = req.body.as_ref().unwrap()["username"].to_string();
            res.status(StatusCode::OK)
                .content(format!("Your username is {}", username))
        })
        .unwrap();
    assert!(matched);

    let (response, _) = rt.finish();
    assert_eq!(
        response.format_for_response(),
        "HTTP/1.1 200 OK\r\nContent-Length: 21\r\n\r\nYour username is \"jo\""
    );
}

#[test]
fn endpoint_matches_method_and_route() {
    let request = Request::parse("GET /hi").unwrap();

    let hit = Endpoint::new(Route::from("/hi"), Method::GET);
    assert_eq!(hit.matches(&request), Ok(true));

    let wrong_method = Endpoint::new(Route::from("/hi"), Method::POST);
    assert_eq!(wrong_method.matches(&request), Ok(false));

    let wrong_route = Endpoint::new(Route::from("/yo"), Method::GET);
    assert_eq!(wrong_route.matches(&request), Ok(false));
}

#[test]
fn invalid_pattern_surfaces_from_dispatch() {
    let request = Request::parse("GET /x").unwrap();
    let mut rt = Runtime::new(request);

    let outcome = rt.get("/[", |_req: Request, res: Response| res);
    assert!(outcome.is_err());

    let (response, _) = rt.finish();
    assert_eq!(response.status.code, 404);
}
