//! Identifier parsing and formatting.

use apca_rest::symbology::{format_identifier, parse_identifier, reformat_identifier, Identifier};

#[test]
fn symbology_formatting() {
    assert_eq!(
        format_identifier(&Identifier::Symbol("AAPL".to_string(), None)),
        "AAPL".to_string()
    );
    assert_eq!(
        format_identifier(&Identifier::Symbol(
            "AAPL".to_string(),
            Some(("NYSE".to_string(), None))
        )),
        "AAPL:NYSE".to_string()
    );
    assert_eq!(
        format_identifier(&Identifier::Symbol(
            "AAPL".to_string(),
            Some(("NYSE".to_string(), Some("us_equity".to_string())))
        )),
        "AAPL:NYSE:us_equity".to_string()
    );
}

#[test]
fn symbology_construction() {
    let i = parse_identifier("AAPL");
    assert_eq!(i, Identifier::Symbol("AAPL".to_string(), None));
    let i = parse_identifier("AAPL:NYSE");
    assert_eq!(
        i,
        Identifier::Symbol("AAPL".to_string(), Some(("NYSE".to_string(), None)))
    );
    let i = parse_identifier("AAPL:NYSE:us_equity");
    assert_eq!(
        i,
        Identifier::Symbol(
            "AAPL".to_string(),
            Some(("NYSE".to_string(), Some("us_equity".to_string())))
        )
    );
    let i = parse_identifier("00000000-0000-0000-0000-000000000000");
    assert_eq!(i, Identifier::AssetId(uuid::Uuid::nil().as_u128()));
}

#[test]
fn common_formatting() {
    assert_eq!(
        format_identifier(&Identifier::Symbol("AAPL".to_string(), None)),
        "AAPL".to_string()
    );
    assert_eq!(
        format_identifier(&Identifier::Symbol(
            "AAPL".to_string(),
            Some(("NYSE".to_string(), None))
        )),
        "AAPL:NYSE".to_string()
    );
    assert_eq!(
        format_identifier(&Identifier::Symbol(
            "AAPL".to_string(),
            Some(("NYSE".to_string(), Some("us_equity".to_string())))
        )),
        "AAPL:NYSE:us_equity".to_string()
    );
}

#[test]
fn common_construction() {
    let i = parse_identifier("AAPL");
    assert_eq!(i, Identifier::Symbol("AAPL".to_string(), None));
    let i = parse_identifier("AAPL:NYSE");
    assert_eq!(
        i,
        Identifier::Symbol("AAPL".to_string(), Some(("NYSE".to_string(), None)))
    );
    let i = parse_identifier("AAPL:NYSE:us_equity");
    assert_eq!(
        i,
        Identifier::Symbol(
            "AAPL".to_string(),
            Some(("NYSE".to_string(), Some("us_equity".to_string())))
        )
    );
    let i = parse_identifier("00000000-0000-0000-0000-000000000000");
    assert_eq!(i, Identifier::AssetId(uuid::Uuid::nil().as_u128()));
}

#[test]
fn round_trip_all_forms() {
    for s in [
        "AAPL",
        "AAPL:NYSE",
        "AAPL:NYSE:us_equity",
        "00000000-0000-0000-0000-000000000000",
        "904837e3-3b76-47ec-b432-046db621571b",
        "A:B:C:D",
        "",
        ":",
    ] {
        assert_eq!(format_identifier(&parse_identifier(s)), s.to_string());
        assert_eq!(reformat_identifier(s), s.to_string());
    }
}

#[test]
fn uuid_text_is_canonical() {
    let u = uuid::Uuid::parse_str("904837e3-3b76-47ec-b432-046db621571b").unwrap();
    let formatted = format_identifier(&Identifier::AssetId(u.as_u128()));
    assert_eq!(formatted, "904837e3-3b76-47ec-b432-046db621571b".to_string());
    // a non-canonical spelling parses to the same asset id but formats
    // canonically
    let i = parse_identifier("904837E3-3B76-47EC-B432-046DB621571B");
    assert_eq!(i, Identifier::AssetId(u.as_u128()));
    assert_eq!(
        format_identifier(&i),
        "904837e3-3b76-47ec-b432-046db621571b".to_string()
    );
}
