use personal_finance::identifier::Identifier;
use personal_finance::stream::{ParseError, Stream};

#[test]
fn parse_only_schema() {
    let stream = "chart".parse::<Stream>().ok();

    let stream = stream.unwrap();
    assert_eq!(stream.schema(), &Identifier::new("chart").unwrap());
    assert_eq!(stream.category(), None);
    assert_eq!(stream.id(), None);
}

#[test]
fn parse_empty_string() {
    let stream = "".parse::<Stream>();

    assert!(stream.is_err());
}

#[test]
fn parse_non_printable_string() {
    let stream = " \t".parse::<Stream>();

    assert!(stream.is_err());
}

#[test]
fn parse_three_parts_equals_new() {
    let parsed = "ledger.journal.2014_05".parse::<Stream>().unwrap();
    let built = Stream::new(
        Identifier::new("ledger").unwrap(),
        Identifier::new("journal").unwrap(),
        Identifier::new("2014_05").unwrap(),
    );
    assert_eq!(parsed, built);
}

#[test]
fn parse_trims_and_keeps_first_three_parts() {
    let parsed = "  a.b.c.d \n".parse::<Stream>().unwrap();
    assert_eq!(parsed.schema().as_str(), "a");
    assert_eq!(parsed.category().unwrap().as_str(), "b");
    assert_eq!(parsed.id().unwrap().as_str(), "c");
}

#[test]
fn parse_rejects_invalid_parts() {
    assert_eq!("a..b".parse::<Stream>(), Err(ParseError::InvalidStream));
    assert_eq!("a.b%".parse::<Stream>(), Err(ParseError::InvalidStream));
    assert_eq!("a.b.c.d-e".parse::<Stream>(), Err(ParseError::InvalidStream));
    assert_eq!("a.".parse::<Stream>(), Err(ParseError::InvalidStream));
}

#[test]
fn new_given_valid_identifiers_should_return_some() {
    for input in ["valid", "valid_underscore", "valid_underscore_342", "23"] {
        let actual = Identifier::new(input);
        assert_eq!(actual.unwrap().as_str(), input);
    }
}

#[test]
fn new_given_invalid_identifiers_should_return_none() {
    for input in ["", "43%"] {
        assert_eq!(Identifier::new(input), None);
    }
}

#[test]
fn identifier_new_should_be_equal_to_parse() {
    for input in ["abc", "", "x y", "_1", "é"] {
        let left = Identifier::new(input);
        let right = input.parse::<Identifier>().ok();
        assert_eq!(left, right);
    }
}
