use address::post_type::post_type_of_chars;
use address::{
    match_abbreviated_post_type, match_mixed_post_type, parse_address, ParseError,
    StreetNamePostType, StreetNamePreDirectional, SubaddressType,
};

#[test]
fn compound_post_type_folds_into_name() {
    let a = parse_address("1200 AZALEA DRIVE CUTOFF").unwrap();
    assert_eq!(a.address_number, Some(1200));
    assert_eq!(a.street_name.as_deref(), Some("AZALEA DRIVE"));
    assert_eq!(a.street_name_post_type, Some(StreetNamePostType::CUTOFF));
    assert_eq!(a.street_name_pre_directional, None);
}

#[test]
fn fraction_suffix_and_directional() {
    let a = parse_address("1865 1/2 NE BEAVILLA VIEW").unwrap();
    assert_eq!(a.address_number, Some(1865));
    assert_eq!(a.address_number_suffix.as_deref(), Some("1/2"));
    assert_eq!(
        a.street_name_pre_directional,
        Some(StreetNamePreDirectional::NORTHEAST)
    );
    assert_eq!(a.street_name.as_deref(), Some("BEAVILLA"));
    assert_eq!(a.street_name_post_type, Some(StreetNamePostType::VIEW));
    assert_eq!(a.subaddress_type, None);
    assert_eq!(a.subaddress_identifier, None);
}

#[test]
fn parse_is_deterministic() {
    let text = "724 SE 7TH ST APT 4, GRANTS PASS";
    let a = parse_address(text).unwrap();
    let b = parse_address(text).unwrap();
    assert_eq!(a.label(), b.label());
    assert_eq!(a.street_name, b.street_name);
    assert_eq!(a.subaddress_identifier, b.subaddress_identifier);
}

#[test]
fn subaddress_before_comma() {
    let a = parse_address("724 SE 7TH ST APT #4B, GRANTS PASS OR").unwrap();
    assert_eq!(a.street_name.as_deref(), Some("7TH"));
    assert_eq!(a.street_name_post_type, Some(StreetNamePostType::STREET));
    assert_eq!(a.subaddress_type, Some(SubaddressType::APARTMENT));
    assert_eq!(a.subaddress_identifier.as_deref(), Some("4B"));
}

#[test]
fn subaddress_markers_and_empty_elements() {
    let a = parse_address("100 MAIN ST STE 2 & 3").unwrap();
    assert_eq!(a.subaddress_type, Some(SubaddressType::SUITE));
    assert_eq!(a.subaddress_identifier.as_deref(), Some("2 3"));
    let b = parse_address("100 MAIN ST #12").unwrap();
    assert_eq!(b.subaddress_type, None);
    assert_eq!(b.subaddress_identifier.as_deref(), Some("12"));
    let c = parse_address("100 MAIN ST , GRANTS PASS").unwrap();
    assert_eq!(c.subaddress_identifier, None);
}

#[test]
fn lower_case_words_are_recognized() {
    let a = parse_address("88 nw olive way").unwrap();
    assert_eq!(
        a.street_name_pre_directional,
        Some(StreetNamePreDirectional::NORTHWEST)
    );
    assert_eq!(a.street_name.as_deref(), Some("olive"));
    assert_eq!(a.street_name_post_type, Some(StreetNamePostType::WAY));
}

#[test]
fn parse_errors() {
    assert_eq!(parse_address("MAIN ST").unwrap_err(), ParseError::MissingNumber);
    assert_eq!(parse_address(" 12 MAIN ST").unwrap_err(), ParseError::MissingNumber);
    assert_eq!(parse_address("").unwrap_err(), ParseError::MissingNumber);
    assert_eq!(
        parse_address("99999999999999999999 MAIN ST").unwrap_err(),
        ParseError::NumberTooLarge
    );
    assert_eq!(
        parse_address("123 BROADWAY").unwrap_err(),
        ParseError::MissingStreetName
    );
    assert_eq!(parse_address("123").unwrap_err(), ParseError::MissingStreetName);
}

#[test]
fn largest_number_parses() {
    let a = parse_address("9223372036854775807 MAIN ST").unwrap();
    assert_eq!(a.address_number, Some(i64::MAX));
    assert_eq!(
        parse_address("9223372036854775808 MAIN ST").unwrap_err(),
        ParseError::NumberTooLarge
    );
}

#[test]
fn partial_label_of_parse() {
    let a = parse_address("1865 1/2 NE BEAVILLA VIEW APT 3").unwrap();
    assert_eq!(a.label(), "1865 1/2 NORTHEAST BEAVILLA VIEW APARTMENT 3");
}

#[test]
fn directional_aliases_and_case() {
    assert_eq!(
        StreetNamePreDirectional::match_mixed("n.e."),
        Some(StreetNamePreDirectional::NORTHEAST)
    );
    assert_eq!(
        StreetNamePreDirectional::match_mixed("Southwest"),
        Some(StreetNamePreDirectional::SOUTHWEST)
    );
    assert_eq!(
        StreetNamePreDirectional::match_mixed("W."),
        Some(StreetNamePreDirectional::WEST)
    );
    assert_eq!(StreetNamePreDirectional::match_mixed("NORTHERN"), None);
    assert_eq!(
        StreetNamePreDirectional::match_abbreviated("se"),
        Some(StreetNamePreDirectional::SOUTHEAST)
    );
    assert_eq!(StreetNamePreDirectional::match_abbreviated("SOUTHEAST"), None);
}

#[test]
fn directional_round_trip() {
    let all = [
        StreetNamePreDirectional::NORTHEAST,
        StreetNamePreDirectional::NORTHWEST,
        StreetNamePreDirectional::SOUTHEAST,
        StreetNamePreDirectional::SOUTHWEST,
        StreetNamePreDirectional::NORTH,
        StreetNamePreDirectional::SOUTH,
        StreetNamePreDirectional::EAST,
        StreetNamePreDirectional::WEST,
    ];
    for d in all {
        assert_eq!(StreetNamePreDirectional::match_mixed(&d.abbreviate()), Some(d));
        assert_eq!(
            StreetNamePreDirectional::match_abbreviated(&d.abbreviate()),
            Some(d)
        );
    }
    assert_eq!(StreetNamePreDirectional::NORTHWEST.abbreviate(), "NW");
}

#[test]
fn post_type_aliases_and_case() {
    assert_eq!(match_mixed_post_type("Ave"), Some(StreetNamePostType::AVENUE));
    assert_eq!(match_mixed_post_type("avenue"), Some(StreetNamePostType::AVENUE));
    assert_eq!(match_mixed_post_type("glen"), Some(StreetNamePostType::GLEN));
    assert_eq!(match_mixed_post_type("HWY"), Some(StreetNamePostType::HIGHWAY));
    assert_eq!(match_mixed_post_type("DR CUTOFF"), Some(StreetNamePostType::DriveCutoff));
    assert_eq!(match_mixed_post_type("BEAVILLA"), None);
    assert_eq!(match_mixed_post_type(""), None);
    assert_eq!(match_abbreviated_post_type("VW"), Some(StreetNamePostType::VIEW));
    assert_eq!(match_abbreviated_post_type("vw"), None);
    assert_eq!(post_type_of_chars(&['s', 't']), Some(StreetNamePostType::STREET));
}

#[test]
fn post_type_round_trip() {
    let samples = [
        StreetNamePostType::ALLEY,
        StreetNamePostType::AVENUE,
        StreetNamePostType::CUTOFF,
        StreetNamePostType::DriveCutoff,
        StreetNamePostType::DRIVE,
        StreetNamePostType::HIGHWAY,
        StreetNamePostType::STREET,
        StreetNamePostType::VIEW,
        StreetNamePostType::WELLS,
    ];
    for p in samples {
        assert_eq!(match_mixed_post_type(&p.abbreviate()), Some(p));
        assert_eq!(match_abbreviated_post_type(&p.abbreviate()), Some(p));
    }
    assert_eq!(StreetNamePostType::BOULEVARD.abbreviate(), "BLVD");
    assert_eq!(StreetNamePostType::DriveCutoff.name(), "DRIVE CUTOFF");
}

#[test]
fn subaddress_round_trip() {
    assert_eq!(SubaddressType::SUITE.abbreviate(), "STE");
    assert_eq!(SubaddressType::APARTMENT.name(), "APARTMENT");
    let a = parse_address("5 MAIN ST suite 9").unwrap();
    assert_eq!(a.subaddress_type, Some(SubaddressType::SUITE));
    let b = parse_address("5 MAIN ST STE 9").unwrap();
    assert_eq!(b.subaddress_type, Some(SubaddressType::SUITE));
    assert_eq!(b.subaddress_identifier.as_deref(), Some("9"));
}
