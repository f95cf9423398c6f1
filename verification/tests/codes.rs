use clubdam_shopsearch::codes::CityCode;
use clubdam_shopsearch::codes::PrefCode;
use clubdam_shopsearch::errors::ParseError;

#[test]
fn pref_format_pads_to_two_digits() {
    assert_eq!(PrefCode(3).format(), "03");
    assert_eq!(PrefCode(13).format(), "13");
    assert_eq!(PrefCode(47).format(), "47");
    assert_eq!(PrefCode(1).format(), "01");
}

#[test]
fn pref_parse_format_roundtrip_all() {
    for p in 1..=47u8 {
        let f = PrefCode(p).format();
        let parsed = PrefCode::parse(&f).expect("canonical form must parse");
        assert_eq!(parsed, PrefCode(p));
        let padded = format!("0{}", f);
        let parsed_padded = PrefCode::parse(&padded).expect("padded form must parse");
        assert_eq!(parsed_padded, parsed);
    }
}

#[test]
fn pref_parse_accepts_unpadded_and_padded_equally() {
    let a = PrefCode::parse("7").expect("unpadded must parse");
    let b = PrefCode::parse("07").expect("padded must parse");
    assert_eq!(a, b);
    assert_eq!(a, PrefCode(7));
}

#[test]
fn pref_parse_empty_fails_with_format_error() {
    let e = PrefCode::parse("").unwrap_err();
    match e {
        ParseError::Format { what, value } => {
            assert_eq!(what, "prefecture code");
            assert_eq!(value, "");
        },
        other => panic!("expected a format error, got {:?}", other),
    }
}

#[test]
fn pref_parse_lone_zero_fails() {
    assert!(PrefCode::parse("0").is_err());
}

#[test]
fn pref_parse_non_numeric_fails() {
    assert!(PrefCode::parse("4a").is_err());
    assert!(PrefCode::parse("-3").is_err());
    assert!(PrefCode::parse("+3").is_err());
}

#[test]
fn pref_parse_does_not_enforce_range() {
    assert_eq!(PrefCode::parse("99").unwrap(), PrefCode(99));
    assert!(PrefCode::parse("256").is_err());
}

#[test]
fn pref_iter_yields_47_ascending_from_1() {
    let all = PrefCode::iter();
    assert_eq!(all.len(), 47);
    assert_eq!(all[0], PrefCode(1));
    assert_eq!(all[46], PrefCode(47));
    for w in all.windows(2) {
        assert!(w[0].0 < w[1].0);
    }
    for (i, p) in all.iter().enumerate() {
        assert_eq!(p.0 as usize, i + 1);
    }
}

#[test]
fn city_parse_and_format() {
    assert_eq!(CityCode::parse("101").unwrap(), CityCode(101));
    assert_eq!(CityCode(101).format(), "101");
    assert_eq!(CityCode::parse("0").unwrap(), CityCode(0));
    assert_eq!(CityCode(0).format(), "0");
}

#[test]
fn city_parse_rejects_bad_input() {
    let e = CityCode::parse("abc").unwrap_err();
    match e {
        ParseError::Format { what, value } => {
            assert_eq!(what, "city code");
            assert_eq!(value, "abc");
        },
        other => panic!("expected a format error, got {:?}", other),
    }
    assert!(CityCode::parse("").is_err());
    assert!(CityCode::parse("99999999999999999999").is_err());
}
