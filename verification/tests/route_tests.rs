use web::{Method, Request, Route, RouteError, StringMap};

#[test]
fn matches_normal() {
    let a = Route::from("/");
    let c = Route::from("/hi/");
    let d = Route::from("/hi");

    assert_eq!(a, a);
    assert_ne!(a, c);
    assert_eq!(c, d);
}

#[test]
fn route_matches_normal() {
    let a = Route::from("/");
    let c = Route::from("/hi/");
    let d = Route::from("/hi");

    assert_eq!(a, a);
    assert_ne!(a, c);
    assert_eq!(c, d);
}

#[test]
fn matches_regex() {
    let wild = Route::from("/h+");
    let hi = Route::from("/hi/");
    let i = Route::from("/i");

    assert_eq!(wild, hi);
    assert_ne!(wild, i);
}

#[test]
fn route_matches_regex() {
    let wild = Route::from("/h+");
    let hi = Route::from("/hi/");
    let i = Route::from("/i");

    assert_eq!(wild, hi);
    assert_ne!(wild, i);
}

#[test]
fn params() {
    let endpoint = Route::from("/:hi");
    let mut request = Request {
        method: Method::GET,
        route: Route::from("/1"),
        params: StringMap::new(),
        headers: StringMap::new(),
        body: None,
    };
    request.populate_params(&endpoint);

    let mut expected = StringMap::new();
    expected.insert(String::from("hi"), String::from("1"));

    assert_eq!(expected, request.params);
}

#[test]
fn route_params() {
    let endpoint = Route::from("/user/:name");
    let mut request = Request {
        method: Method::GET,
        route: Route::from("/user/jo"),
        params: StringMap::new(),
        headers: StringMap::new(),
        body: None,
    };
    request.populate_params(&endpoint);

    assert_eq!(request.params.get("name"), Some(&String::from("jo")));
    assert_eq!(request.params.get("user"), None);
}

#[test]
fn repeated_parameter_names_keep_the_last_binding() {
    let endpoint = Route::from("/a/:x/:x");
    let mut request = Request {
        method: Method::GET,
        route: Route::from("/a/1/2"),
        params: StringMap::new(),
        headers: StringMap::new(),
        body: None,
    };
    request.populate_params(&endpoint);
    assert_eq!(request.params.get("x"), Some(&String::from("2")));
}

#[test]
fn literal_exactness() {
    assert_ne!(Route::from("/hi"), Route::from("/yo"));
    assert_eq!(Route::from("/hi"), Route::from("/hi"));
}

#[test]
fn count_mismatch_never_matches() {
    let two = Route::from("/a/b");
    let one = Route::from("/a");
    assert_eq!(two.matches(&one), Ok(false));
    assert_eq!(one.matches(&two), Ok(false));
    assert_ne!(two, one);
}

#[test]
fn named_parameter_matches_anything() {
    let pattern = Route::from("/:name");
    assert_eq!(pattern.matches(&Route::from("/1")), Ok(true));
    assert_eq!(pattern.matches(&Route::from("/zzz")), Ok(true));
    assert_eq!(pattern.matches(&Route::from("/a/b")), Ok(false));
}

#[test]
fn invalid_pattern_is_an_error() {
    let broken = Route::from("/[");
    assert_eq!(
        broken.matches(&Route::from("/x")),
        Err(RouteError::InvalidPattern)
    );
    // An invalid pattern never compares equal.
    assert_ne!(broken, Route::from("/x"));
}

#[test]
fn path_text_round_trip() {
    assert_eq!(Route::from("/a/b/c/").path_string(), "/a/b/c");
    assert_eq!(Route::from("/").path_string(), "/");
}
