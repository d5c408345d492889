use session_gateway::cookie::{Cookie, CookieJar, SameSitePolicy};

fn jar_from(lines: &[&str]) -> CookieJar {
    let headers: Vec<String> = lines.iter().map(|s| s.to_string()).collect();
    CookieJar::from_headers(&headers)
}

#[test]
fn parses_well_formed_segments() {
    let jar = jar_from(&["a=1; b=2; c=3"]);
    assert_eq!(jar.get("a").map(|c| c.value.clone()), Some("1".to_string()));
    assert_eq!(jar.get("b").map(|c| c.value.clone()), Some("2".to_string()));
    assert_eq!(jar.get("c").map(|c| c.value.clone()), Some("3".to_string()));
    assert_eq!(jar.iter().len(), 3);
}

#[test]
fn malformed_segments_are_dropped_not_fatal() {
    // two well-formed segments among three malformed ones
    let jar = jar_from(&["a=1; nonsense; =nameless; ; b = 2 "]);
    let entries = jar.iter();
    assert_eq!(entries.len(), 2);
    assert_eq!(jar.get("a").map(|c| c.value.clone()), Some("1".to_string()));
    assert_eq!(jar.get("b").map(|c| c.value.clone()), Some("2".to_string()));
    assert!(jar.get("nonsense").is_none());
}

#[test]
fn whitespace_is_trimmed_around_names_and_values() {
    let jar = jar_from(&["  spaced   =   padded value  "]);
    assert_eq!(
        jar.get("spaced").map(|c| c.value.clone()),
        Some("padded value".to_string())
    );
}

#[test]
fn empty_header_yields_empty_jar() {
    let jar = jar_from(&[""]);
    assert_eq!(jar.iter().len(), 0);
    assert_eq!(jar.set_cookie_headers().len(), 0);
}

#[test]
fn several_header_lines_are_all_parsed() {
    let jar = jar_from(&["a=1", "b=2; c=3"]);
    assert_eq!(jar.iter().len(), 3);
    assert_eq!(jar.get("c").map(|c| c.value.clone()), Some("3".to_string()));
}

#[test]
fn duplicate_name_later_occurrence_wins() {
    let jar = jar_from(&["dup=first; dup=second"]);
    assert_eq!(jar.get("dup").map(|c| c.value.clone()), Some("second".to_string()));
    assert_eq!(jar.iter().len(), 1);
}

#[test]
fn add_on_empty_jar_emits_one_header_per_cookie() {
    let jar = CookieJar::new();
    let cookie = Cookie {
        name: "session".to_string(),
        value: "tok".to_string(),
        path: Some("/".to_string()),
        http_only: true,
        secure: true,
        same_site: Some(SameSitePolicy::CrossSite),
        max_age: Some(604800),
    };
    let jar = jar.add(cookie);
    let headers = jar.set_cookie_headers();
    assert_eq!(headers.len(), 1);
    assert_eq!(
        headers[0],
        "session=tok; Path=/; HttpOnly; Secure; SameSite=None; Max-Age=604800"
    );
}

#[test]
fn add_two_cookies_emits_two_headers_in_order() {
    let jar = CookieJar::new()
        .add(Cookie::plain("first".to_string(), "1".to_string()))
        .add(Cookie::plain("second".to_string(), "2".to_string()));
    let headers = jar.set_cookie_headers();
    assert_eq!(headers, vec!["first=1".to_string(), "second=2".to_string()]);
}

#[test]
fn adding_same_name_twice_supersedes_the_first() {
    let jar = CookieJar::new()
        .add(Cookie::plain("n".to_string(), "old".to_string()))
        .add(Cookie::plain("n".to_string(), "new".to_string()));
    let headers = jar.set_cookie_headers();
    assert_eq!(headers, vec!["n=new".to_string()]);
    assert_eq!(jar.get("n").map(|c| c.value.clone()), Some("new".to_string()));
}

#[test]
fn unchanged_inbound_cookies_are_never_echoed_back() {
    let jar = jar_from(&["keep=me; and=me"]);
    assert_eq!(jar.set_cookie_headers().len(), 0);
}

#[test]
fn removing_an_inbound_cookie_emits_a_clearing_header() {
    let jar = jar_from(&["gone=soon"]);
    let jar = jar.remove(Cookie::plain("gone".to_string(), String::new()));
    let headers = jar.set_cookie_headers();
    assert_eq!(headers, vec!["gone=; Max-Age=0".to_string()]);
    assert!(jar.get("gone").is_none());
}

#[test]
fn removing_a_cookie_only_added_emits_nothing() {
    let jar = CookieJar::new()
        .add(Cookie::plain("ephemeral".to_string(), "x".to_string()))
        .remove(Cookie::plain("ephemeral".to_string(), String::new()));
    assert_eq!(jar.set_cookie_headers().len(), 0);
    assert!(jar.get("ephemeral").is_none());
}

#[test]
fn added_cookie_shadows_inbound_cookie() {
    let jar = jar_from(&["name=inbound"]);
    let jar = jar.add(Cookie::plain("name".to_string(), "changed".to_string()));
    assert_eq!(jar.get("name").map(|c| c.value.clone()), Some("changed".to_string()));
    assert_eq!(jar.iter().len(), 1);
}

#[test]
fn iter_reflects_changes_and_hides_removed_cookies() {
    let jar = jar_from(&["a=1; b=2"]);
    let jar = jar
        .add(Cookie::plain("b".to_string(), "changed".to_string()))
        .remove(Cookie::plain("a".to_string(), String::new()))
        .add(Cookie::plain("c".to_string(), "3".to_string()));
    let mut entries: Vec<(String, String)> =
        jar.iter().into_iter().map(|c| (c.name, c.value)).collect();
    entries.sort();
    assert_eq!(
        entries,
        vec![
            ("b".to_string(), "changed".to_string()),
            ("c".to_string(), "3".to_string()),
        ]
    );
}

#[test]
fn largest_max_age_serializes_in_full() {
    let big = Cookie {
        name: "big".to_string(),
        value: "v".to_string(),
        path: None,
        http_only: false,
        secure: false,
        same_site: None,
        max_age: Some(u64::MAX),
    };
    let jar = CookieJar::new().add(big);
    assert_eq!(
        jar.set_cookie_headers(),
        vec!["big=v; Max-Age=18446744073709551615".to_string()]
    );
}

#[test]
fn serialize_covers_every_attribute_combination() {
    let bare = Cookie::plain("k".to_string(), "v".to_string());
    let jar = CookieJar::new().add(bare);
    assert_eq!(jar.set_cookie_headers(), vec!["k=v".to_string()]);

    let strict = Cookie {
        name: "s".to_string(),
        value: "v".to_string(),
        path: None,
        http_only: false,
        secure: true,
        same_site: Some(SameSitePolicy::Strict),
        max_age: None,
    };
    let jar = CookieJar::new().add(strict);
    assert_eq!(jar.set_cookie_headers(), vec!["s=v; Secure; SameSite=Strict".to_string()]);

    let lax = Cookie {
        name: "l".to_string(),
        value: "".to_string(),
        path: Some("/api".to_string()),
        http_only: true,
        secure: false,
        same_site: Some(SameSitePolicy::Lax),
        max_age: Some(0),
    };
    let jar = CookieJar::new().add(lax);
    assert_eq!(
        jar.set_cookie_headers(),
        vec!["l=; Path=/api; HttpOnly; SameSite=Lax; Max-Age=0".to_string()]
    );
}
