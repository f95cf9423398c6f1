use clubdam_shopsearch::codes::CityCode;
use clubdam_shopsearch::codes::PrefCode;
use clubdam_shopsearch::errors::ParseError;
use clubdam_shopsearch::index_page::RawAnchor;
use clubdam_shopsearch::index_page::parse_index_anchor;
use clubdam_shopsearch::index_page::parse_index_anchors;
use clubdam_shopsearch::index_page::parse_index_page;
use clubdam_shopsearch::patterns::find_city_link;

fn index_html(anchors: &str) -> String {
    format!("<html><body><div>{}</div></body></html>", anchors)
}

#[test]
fn index_single_anchor_yields_one_city() {
    let html = index_html(r#"<a href="./?todofukenCode=13&cityCode=101">Chiyoda</a>"#);
    let cities = parse_index_page(&html, PrefCode(13)).expect("page must parse");
    assert_eq!(cities, vec![CityCode(101)]);
}

#[test]
fn index_wrong_prefecture_is_a_consistency_error() {
    let html = index_html(r#"<a href="./?todofukenCode=13&cityCode=101">Chiyoda</a>"#);
    let err = parse_index_page(&html, PrefCode(14)).unwrap_err();
    match err.cause {
        ParseError::Consistency { expected, found } => {
            assert_eq!(expected, PrefCode(14));
            assert_eq!(found, PrefCode(13));
        },
        other => panic!("expected a consistency error, got {:?}", other),
    }
    assert!(err.fragment.contains("todofukenCode=13"));
}

#[test]
fn index_ignores_unrelated_anchors() {
    let html = index_html(
        r#"<a href="/other">x</a><a href="./?todofukenCode=13&cityCode=101">y</a>"#,
    );
    let cities = parse_index_page(&html, PrefCode(13)).expect("page must parse");
    assert_eq!(cities, vec![CityCode(101)]);
}

#[test]
fn index_duplicates_pass_through_in_order() {
    let html = index_html(
        r#"<a href="./?todofukenCode=13&cityCode=102">a</a><a href="./?todofukenCode=13&cityCode=101">b</a><a href="./?todofukenCode=13&cityCode=102">c</a>"#,
    );
    let cities = parse_index_page(&html, PrefCode(13)).expect("page must parse");
    assert_eq!(cities, vec![CityCode(102), CityCode(101), CityCode(102)]);
}

#[test]
fn index_malformed_link_is_a_format_error() {
    let html = index_html(r#"<a href="./?todofukenCode=&cityCode=101">x</a>"#);
    let err = parse_index_page(&html, PrefCode(13)).unwrap_err();
    match err.cause {
        ParseError::Format { what, .. } => assert_eq!(what, "city link"),
        other => panic!("expected a format error, got {:?}", other),
    }
}

#[test]
fn index_all_or_nothing_on_one_bad_anchor() {
    let html = index_html(
        r#"<a href="./?todofukenCode=13&cityCode=101">good</a><a href="./?todofukenCode=12&cityCode=102">bad</a>"#,
    );
    let err = parse_index_page(&html, PrefCode(13)).unwrap_err();
    assert!(matches!(err.cause, ParseError::Consistency { .. }));
    assert!(err.fragment.contains("todofukenCode=12"));
}

#[test]
fn index_empty_page_yields_no_cities() {
    let html = index_html("");
    let cities = parse_index_page(&html, PrefCode(13)).expect("page must parse");
    assert!(cities.is_empty());
}

#[test]
fn index_anchor_missing_href_is_a_missing_element() {
    let a = RawAnchor { href: None, outer: String::from("<a>x</a>") };
    let e = parse_index_anchor(&a, PrefCode(13)).unwrap_err();
    match e {
        ParseError::MissingElement { what } => assert_eq!(what, "href"),
        other => panic!("expected a missing-element error, got {:?}", other),
    }
}

#[test]
fn index_anchors_direct_values() {
    let anchors = vec![
        RawAnchor {
            href: Some(String::from("./?todofukenCode=13&cityCode=101")),
            outer: String::from("<a/>"),
        },
        RawAnchor {
            href: Some(String::from("./?todofukenCode=013&cityCode=7")),
            outer: String::from("<a/>"),
        },
    ];
    let cities = parse_index_anchors(&anchors, PrefCode(13)).expect("anchors must parse");
    assert_eq!(cities, vec![CityCode(101), CityCode(7)]);
}

#[test]
fn index_parse_is_idempotent() {
    let html = index_html(r#"<a href="./?todofukenCode=13&cityCode=101">x</a>"#);
    let first = parse_index_page(&html, PrefCode(13));
    let second = parse_index_page(&html, PrefCode(13));
    assert_eq!(first, second);
    let bad = parse_index_page(&html, PrefCode(14));
    let bad_again = parse_index_page(&html, PrefCode(14));
    assert_eq!(bad, bad_again);
}

#[test]
fn city_link_match_is_leftmost_and_greedy() {
    let r = find_city_link("./?todofukenCode=abc ./?todofukenCode=13&cityCode=101 tail");
    assert_eq!(r, Some((String::from("13"), String::from("101"))));
    assert_eq!(find_city_link("?todofukenCode=13&cityCode=101"), None);
    assert_eq!(find_city_link("./?todofukenCode=13&cityCode="), None);
}
