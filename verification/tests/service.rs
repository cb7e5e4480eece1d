use urlshort::codegen::generate_short_code;
use urlshort::handlers::{compose_short_url, create_url, list_urls, redirect_url, CreateResponse,
    RedirectResponse};
use urlshort::models::{NewUrl, NewUrlRequest};
use urlshort::store::UrlStore;
use urlshort::text::{char_is_alphanumeric, str_eq, str_is_blank};

const BASE: &str = "http://localhost:8080";

fn is_alnum_code(code: &str) -> bool {
    code.chars().count() == 7 && code.chars().all(char_is_alphanumeric)
}

#[test]
fn create_returns_code_of_seven_alphanumerics() {
    let mut store = UrlStore::new();
    let req = NewUrlRequest { original_url: String::from("https://example.com/a/b?c=d") };
    match create_url(&mut store, &req, BASE, 1) {
        CreateResponse::Created(body) => {
            assert!(is_alnum_code(&body.short_code));
            assert_eq!(body.original_url, "https://example.com/a/b?c=d");
            assert_eq!(body.created_at, 1);
        }
        CreateResponse::BadRequest => panic!("non-empty URL was rejected"),
    }
    assert_eq!(store.len(), 1);
}

#[test]
fn blank_url_rejected_without_insertion() {
    let mut store = UrlStore::new();
    for input in ["", " ", "   \t\r\n ", "\u{a0}\u{2003}"] {
        let req = NewUrlRequest { original_url: String::from(input) };
        match create_url(&mut store, &req, BASE, 1) {
            CreateResponse::BadRequest => {}
            CreateResponse::Created(_) => panic!("blank URL was accepted"),
        }
    }
    assert_eq!(store.len(), 0);
    assert!(list_urls(&store).is_empty());
}

#[test]
fn repeated_reads_return_same_url() {
    let mut store = UrlStore::new();
    let req = NewUrlRequest { original_url: String::from("https://example.net") };
    let code = match create_url(&mut store, &req, BASE, 5) {
        CreateResponse::Created(body) => body.short_code,
        CreateResponse::BadRequest => panic!("non-empty URL was rejected"),
    };
    let first = match redirect_url(&store, &code) {
        RedirectResponse::Found(loc) => loc,
        RedirectResponse::NotFound => panic!("created code not found"),
    };
    for _ in 0..3 {
        match redirect_url(&store, &code) {
            RedirectResponse::Found(loc) => assert_eq!(loc, first),
            RedirectResponse::NotFound => panic!("created code not found"),
        }
    }
    assert_eq!(first, "https://example.net");
}

#[test]
fn round_trip_and_listing_order() {
    let mut store = UrlStore::new();
    let first = NewUrlRequest { original_url: String::from("https://one.example") };
    let second = NewUrlRequest { original_url: String::from("https://two.example") };
    let code1 = match create_url(&mut store, &first, BASE, 10) {
        CreateResponse::Created(body) => body.short_code,
        CreateResponse::BadRequest => panic!("non-empty URL was rejected"),
    };
    let code2 = match create_url(&mut store, &second, BASE, 20) {
        CreateResponse::Created(body) => body.short_code,
        CreateResponse::BadRequest => panic!("non-empty URL was rejected"),
    };
    match redirect_url(&store, &code2) {
        RedirectResponse::Found(loc) => assert_eq!(loc, "https://two.example"),
        RedirectResponse::NotFound => panic!("created code not found"),
    }
    if code1 != code2 {
        match redirect_url(&store, &code1) {
            RedirectResponse::Found(loc) => assert_eq!(loc, "https://one.example"),
            RedirectResponse::NotFound => panic!("created code not found"),
        }
    }
    let listed = list_urls(&store);
    assert_eq!(listed.len(), 2);
    assert_eq!(listed[0].original_url, "https://two.example");
    assert_eq!(listed[1].original_url, "https://one.example");
    assert!(listed[0].created_at >= listed[1].created_at);
}

#[test]
fn unknown_code_not_found() {
    let mut store = UrlStore::new();
    match redirect_url(&store, "abcdef1") {
        RedirectResponse::NotFound => {}
        RedirectResponse::Found(_) => panic!("empty store resolved a code"),
    }
    let req = NewUrlRequest { original_url: String::from("https://example.org") };
    let code = match create_url(&mut store, &req, BASE, 1) {
        CreateResponse::Created(body) => body.short_code,
        CreateResponse::BadRequest => panic!("non-empty URL was rejected"),
    };
    let other = if code == "zzzzzzz" { "aaaaaaa" } else { "zzzzzzz" };
    match redirect_url(&store, other) {
        RedirectResponse::NotFound => {}
        RedirectResponse::Found(_) => panic!("a code never issued resolved"),
    }
}

#[test]
fn concrete_scenario() {
    let mut store = UrlStore::new();
    let req = NewUrlRequest { original_url: String::from("https://example.com") };
    let body = match create_url(&mut store, &req, BASE, 42) {
        CreateResponse::Created(body) => body,
        CreateResponse::BadRequest => panic!("non-empty URL was rejected"),
    };
    assert!(is_alnum_code(&body.short_code));
    assert_eq!(body.short_url, format!("{}/{}", BASE, body.short_code));
    match redirect_url(&store, &body.short_code) {
        RedirectResponse::Found(loc) => assert_eq!(loc, "https://example.com"),
        RedirectResponse::NotFound => panic!("created code not found"),
    }
    let listed = list_urls(&store);
    assert_eq!(listed[0].short_code, body.short_code);
    assert_eq!(listed[0].original_url, "https://example.com");
}

#[test]
fn generated_codes_are_well_formed() {
    for _ in 0..50 {
        let code = generate_short_code();
        assert!(is_alnum_code(&code));
    }
}

#[test]
fn short_url_composition() {
    assert_eq!(compose_short_url("http://localhost:8080", "Ab3xY9z"),
        "http://localhost:8080/Ab3xY9z");
    assert_eq!(compose_short_url("", "c0d3abc"), "/c0d3abc");
}

#[test]
fn duplicate_codes_resolve_to_first_inserted() {
    let mut store = UrlStore::new();
    store.insert(NewUrl {
        original_url: String::from("https://first.example"),
        short_code: String::from("same123"),
    }, 1);
    store.insert(NewUrl {
        original_url: String::from("https://second.example"),
        short_code: String::from("same123"),
    }, 2);
    match store.find_by_code("same123") {
        Some(u) => assert_eq!(u.original_url, "https://first.example"),
        None => panic!("stored code not found"),
    }
}

#[test]
fn store_assigns_ids_and_monotone_timestamps() {
    let mut store = UrlStore::new();
    let a = store.insert(NewUrl {
        original_url: String::from("https://a.example"),
        short_code: String::from("aaaaaa1"),
    }, 100);
    let b = store.insert(NewUrl {
        original_url: String::from("https://b.example"),
        short_code: String::from("bbbbbb2"),
    }, 50);
    assert_eq!(a.id, 1);
    assert_eq!(b.id, 2);
    assert_eq!(a.created_at, 100);
    assert_eq!(b.created_at, 100);
    let listed = store.list_all();
    assert_eq!(listed[0].id, 2);
    assert_eq!(listed[1].id, 1);
}

#[test]
fn text_helpers() {
    assert!(str_is_blank(""));
    assert!(str_is_blank(" \t\n"));
    assert!(!str_is_blank(" a "));
    assert!(char_is_alphanumeric('0'));
    assert!(char_is_alphanumeric('Z'));
    assert!(char_is_alphanumeric('m'));
    assert!(!char_is_alphanumeric('-'));
    assert!(!char_is_alphanumeric(' '));
    assert!(str_eq("abc", "abc"));
    assert!(!str_eq("abc", "abd"));
    assert!(!str_eq("abc", "ab"));
}
