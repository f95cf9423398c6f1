use clubdam_shopsearch::codes::CityCode;
use clubdam_shopsearch::codes::PrefCode;
use clubdam_shopsearch::errors::ParseError;
use clubdam_shopsearch::listing_page::ItemFields;
use clubdam_shopsearch::listing_page::parse_item_fields;
use clubdam_shopsearch::listing_page::parse_listing_page;
use clubdam_shopsearch::patterns::check_decimal_number;
use clubdam_shopsearch::patterns::find_map_link;

const MAP: &str = "https://www.google.co.jp/maps?q=35.6895,139.6917";

fn item(
    name: &str,
    map_href: &str,
    url_div: &str,
    machines: &str,
    features: &str,
) -> String {
    format!(
        r#"<li class="result-item"><span class="store-name">{}</span><div class="store-address"><span>1-2-3 Somewhere</span><a href="{}">map</a></div><div class="store-tel"><a href="tel:0312345678">03-1234-5678</a></div>{}<ul>{}</ul><ul>{}</ul></li>"#,
        name, map_href, url_div, machines, features
    )
}

fn page(items: &str) -> String {
    format!("<html><body><ul>{}</ul></body></html>", items)
}

fn machine(alt: &str) -> String {
    format!(r#"<li class="machine-item"><img alt="{}"></li>"#, alt)
}

fn feature(text: &str) -> String {
    format!(r#"<li class="feature-item"><span>{}</span></li>"#, text)
}

const URL_DIV: &str = r#"<div class="store-url"><a href="https://example.com">site</a></div>"#;

#[test]
fn listing_full_item_parses_exactly() {
    let html = page(&item(
        "Karaoke One",
        MAP,
        URL_DIV,
        &machine("LIVE DAM Ai"),
        &feature("精密採点Ai"),
    ));
    let stores = parse_listing_page(&html, PrefCode(13), CityCode(101)).expect("must parse");
    assert_eq!(stores.len(), 1);
    let s = &stores[0];
    assert_eq!(s.prefecture, PrefCode(13));
    assert_eq!(s.city, CityCode(101));
    assert_eq!(s.name, "Karaoke One");
    assert_eq!(s.address, "1-2-3 Somewhere");
    assert_eq!(s.latitude, "35.6895");
    assert_eq!(s.longitude, "139.6917");
    let lat: f64 = s.latitude.parse().expect("validated decimal must parse");
    let lon: f64 = s.longitude.parse().expect("validated decimal must parse");
    assert!((lat - 35.6895).abs() < 1e-12);
    assert!((lon - 139.6917).abs() < 1e-12);
    assert_eq!(s.phone, "03-1234-5678");
    assert_eq!(s.url.as_deref(), Some("https://example.com/"));
    assert!(s.machines.ai);
    assert!(!s.machines.studium && !s.machines.normal && !s.machines.premier);
    assert!(s.scorings.ai && !s.scorings.dx_g && !s.scorings.dx);
    assert!(!s.recordings.video && !s.recordings.voice);
}

#[test]
fn listing_unknown_machine_fails_whole_page() {
    let good = item("Good", MAP, URL_DIV, &machine("LIVE DAM"), "");
    let bad = item("Bad", MAP, URL_DIV, &machine("Unknown DAM"), "");
    let html = page(&format!("{}{}", good, bad));
    let err = parse_listing_page(&html, PrefCode(13), CityCode(101)).unwrap_err();
    match err.cause {
        ParseError::UnrecognizedValue { value } => assert_eq!(value, "Unknown DAM"),
        other => panic!("expected an unrecognized-value error, got {:?}", other),
    }
    assert_eq!(err.prefecture, PrefCode(13));
    assert_eq!(err.city, CityCode(101));
    assert!(err.fragment.contains("Bad"));
}

#[test]
fn listing_without_website_link_succeeds_with_absent_url() {
    let html = page(&item("NoSite", MAP, "", "", ""));
    let stores = parse_listing_page(&html, PrefCode(1), CityCode(5)).expect("must parse");
    assert_eq!(stores.len(), 1);
    assert_eq!(stores[0].url, None);
}

#[test]
fn listing_malformed_present_url_fails() {
    let bad_url = r#"<div class="store-url"><a href="not a url">site</a></div>"#;
    let html = page(&item("BadUrl", MAP, bad_url, "", ""));
    let err = parse_listing_page(&html, PrefCode(1), CityCode(5)).unwrap_err();
    match err.cause {
        ParseError::Format { what, value } => {
            assert_eq!(what, "store URL");
            assert_eq!(value, "not a url");
        },
        other => panic!("expected a format error, got {:?}", other),
    }
}

#[test]
fn listing_missing_name_fails() {
    let html = page(
        r#"<li class="result-item"><div class="store-address"><span>x</span></div></li>"#,
    );
    let err = parse_listing_page(&html, PrefCode(1), CityCode(5)).unwrap_err();
    match err.cause {
        ParseError::MissingElement { what } => assert_eq!(what, "store name"),
        other => panic!("expected a missing-element error, got {:?}", other),
    }
}

#[test]
fn listing_link_styled_name_is_accepted() {
    let html = page(&format!(
        r#"<li class="result-item"><a class="store-name">Linked</a><div class="store-address"><span>addr</span><a href="{}">m</a></div><div class="store-tel"><a>1</a></div></li>"#,
        MAP
    ));
    let stores = parse_listing_page(&html, PrefCode(1), CityCode(5)).expect("must parse");
    assert_eq!(stores[0].name, "Linked");
}

#[test]
fn listing_missing_map_link_fails() {
    let html = page(
        r#"<li class="result-item"><span class="store-name">N</span><div class="store-address"><span>addr</span></div></li>"#,
    );
    let err = parse_listing_page(&html, PrefCode(1), CityCode(5)).unwrap_err();
    match err.cause {
        ParseError::MissingElement { what } => assert_eq!(what, "map link"),
        other => panic!("expected a missing-element error, got {:?}", other),
    }
}

#[test]
fn listing_map_link_wrong_shape_fails() {
    let html = page(&item("N", "https://example.com/maps?q=1,2", "", "", ""));
    let err = parse_listing_page(&html, PrefCode(1), CityCode(5)).unwrap_err();
    match err.cause {
        ParseError::Format { what, .. } => assert_eq!(what, "map link"),
        other => panic!("expected a format error, got {:?}", other),
    }
}

#[test]
fn listing_bad_latitude_shape_fails() {
    let html = page(&item(
        "N",
        "https://www.google.co.jp/maps?q=1.2.3,139.6917",
        "",
        "",
        "",
    ));
    let err = parse_listing_page(&html, PrefCode(1), CityCode(5)).unwrap_err();
    match err.cause {
        ParseError::Format { what, value } => {
            assert_eq!(what, "latitude");
            assert_eq!(value, "1.2.3");
        },
        other => panic!("expected a format error, got {:?}", other),
    }
}

#[test]
fn listing_all_machine_and_feature_labels_set_their_flags() {
    let machines = format!(
        "{}{}{}{}",
        machine("LIVE DAM Ai"),
        machine("LIVE DAM STADIUM"),
        machine("LIVE DAM"),
        machine("PremierDAM"),
    );
    let features = format!(
        "{}{}{}{}{}",
        feature("DAM★とも動画"),
        feature("DAM★とも録音"),
        feature("精密採点Ai"),
        feature("精密採点DX-G"),
        feature("精密採点DX"),
    );
    let html = page(&item("Full", MAP, URL_DIV, &machines, &features));
    let stores = parse_listing_page(&html, PrefCode(2), CityCode(3)).expect("must parse");
    let s = &stores[0];
    assert!(s.machines.ai && s.machines.studium && s.machines.normal && s.machines.premier);
    assert!(s.recordings.video && s.recordings.voice);
    assert!(s.scorings.ai && s.scorings.dx_g && s.scorings.dx);
}

#[test]
fn listing_unknown_feature_fails() {
    let html = page(&item("N", MAP, "", "", &feature("精密採点XX")));
    let err = parse_listing_page(&html, PrefCode(1), CityCode(5)).unwrap_err();
    match err.cause {
        ParseError::UnrecognizedValue { value } => assert_eq!(value, "精密採点XX"),
        other => panic!("expected an unrecognized-value error, got {:?}", other),
    }
}

#[test]
fn listing_empty_page_yields_no_stores() {
    let stores =
        parse_listing_page(&page(""), PrefCode(1), CityCode(5)).expect("must parse");
    assert!(stores.is_empty());
}

#[test]
fn listing_parse_is_idempotent() {
    let html = page(&item("Twice", MAP, URL_DIV, &machine("LIVE DAM"), ""));
    let first = parse_listing_page(&html, PrefCode(13), CityCode(101));
    let second = parse_listing_page(&html, PrefCode(13), CityCode(101));
    assert_eq!(first, second);
}

#[test]
fn item_fields_direct_values() {
    let f = ItemFields {
        name: Some(String::from("Direct")),
        address: Some(String::from("addr")),
        map_href: Some(Some(String::from(MAP))),
        phone: Some(String::from("p")),
        url_href: None,
        machine_alts: vec![Some(String::from("PremierDAM"))],
        feature_texts: vec![String::from("DAM★とも録音")],
    };
    let s = parse_item_fields(&f, PrefCode(13), CityCode(101)).expect("must parse");
    assert_eq!(s.latitude, "35.6895");
    assert_eq!(s.longitude, "139.6917");
    assert!(s.machines.premier);
    assert!(s.recordings.voice);
    assert_eq!(s.url, None);
}

#[test]
fn item_fields_map_link_without_href_fails() {
    let f = ItemFields {
        name: Some(String::from("N")),
        address: Some(String::from("a")),
        map_href: Some(None),
        phone: Some(String::from("p")),
        url_href: None,
        machine_alts: vec![],
        feature_texts: vec![],
    };
    let e = parse_item_fields(&f, PrefCode(13), CityCode(101)).unwrap_err();
    match e {
        ParseError::MissingElement { what } => assert_eq!(what, "href in map link"),
        other => panic!("expected a missing-element error, got {:?}", other),
    }
}

#[test]
fn item_fields_website_link_without_href_fails() {
    let f = ItemFields {
        name: Some(String::from("N")),
        address: Some(String::from("a")),
        map_href: Some(Some(String::from(MAP))),
        phone: Some(String::from("p")),
        url_href: Some(None),
        machine_alts: vec![],
        feature_texts: vec![],
    };
    let e = parse_item_fields(&f, PrefCode(13), CityCode(101)).unwrap_err();
    match e {
        ParseError::MissingElement { what } => assert_eq!(what, "href in store url"),
        other => panic!("expected a missing-element error, got {:?}", other),
    }
}

#[test]
fn map_link_finder_extracts_coordinate_texts() {
    let r = find_map_link("https://www.google.co.jp/maps?q=-1.5,2");
    assert_eq!(r, Some((String::from("-1.5"), String::from("2"))));
    assert_eq!(find_map_link("https://www.google.co.jp/maps?q=,2"), None);
    assert_eq!(find_map_link("https://www.google.co.jp/maps?q=12"), None);
}

#[test]
fn decimal_number_shape() {
    assert!(check_decimal_number("35.6895"));
    assert!(check_decimal_number("-3"));
    assert!(check_decimal_number(".5"));
    assert!(check_decimal_number("5."));
    assert!(check_decimal_number("-0.0"));
    assert!(!check_decimal_number(""));
    assert!(!check_decimal_number("-"));
    assert!(!check_decimal_number("."));
    assert!(!check_decimal_number("1.2.3"));
    assert!(!check_decimal_number("--1"));
    assert!(!check_decimal_number("3-4"));
}
