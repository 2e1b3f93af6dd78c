use std::time::{Duration, SystemTime, UNIX_EPOCH};

use web::{Cookie, SameSite};

#[test]
fn format() {
    assert_eq!(
        Cookie::new("name", "value").as_header(),
        "name=value; SameSite=Lax"
    );

    let now = SystemTime::now();
    let secs = now.duration_since(UNIX_EPOCH).unwrap().as_secs();
    let whole = UNIX_EPOCH + Duration::from_secs(secs);
    assert_eq!(
        Cookie::new("a", "b")
            .expires(secs)
            .path("/")
            .secure(true)
            .same_site(SameSite::CrossSite)
            .as_header(),
        format!(
            "a=b; Expires={}; Path=/; Secure; SameSite=None",
            httpdate::fmt_http_date(whole)
        )
    );
}

#[test]
fn every_attribute_renders() {
    assert_eq!(
        Cookie::new("id", "7")
            .max_age(3600)
            .domain("example.test")
            .path("/shop")
            .secure(true)
            .http_only(true)
            .same_site(SameSite::Strict)
            .as_header(),
        "id=7; Max-Age=3600; Domain=example.test; Path=/shop; Secure; HTTPOnly; SameSite=Strict"
    );

    assert_eq!(
        Cookie::new("id", "7").max_age(-1).as_header(),
        "id=7; Max-Age=-1; SameSite=Lax"
    );
}

#[test]
fn builder_renames() {
    assert_eq!(
        Cookie::new("a", "b").name("c").value("d").as_header(),
        "c=d; SameSite=Lax"
    );
}
