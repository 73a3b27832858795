use expectation::complex_expr::{
    AlmostEqual, ComplexTestCase, Contains, ContainsInOrder, OrderingToken, ParseError, Path,
    PathToken,
};
use expectation::token::{Expression, Token};

fn word(w: &str) -> Token {
    Token::Word(w.to_string())
}

fn operand(source: &str) -> Token {
    Token::Operand(Expression { source: source.to_string() })
}

fn assert_ord(actual: Result<ComplexTestCase, ParseError>, token: OrderingToken, value: &str) {
    if let Ok(ComplexTestCase::Ord(ord)) = actual {
        assert_eq!(ord.token, token);
        assert_eq!(ord.expected_value.source, value);
    } else {
        panic!("invalid enum variant")
    }
}

#[test]
fn parses_ord_token_stream() {
    let actual = ComplexTestCase::parse(&vec![word("equal_to"), operand("1.0")]);
    assert_ord(actual, OrderingToken::Eq, "1.0");
    let actual = ComplexTestCase::parse(&vec![word("eq"), operand("0.0")]);
    assert_ord(actual, OrderingToken::Eq, "0.0");

    let actual = ComplexTestCase::parse(&vec![word("less_than"), operand("2.0")]);
    assert_ord(actual, OrderingToken::Lt, "2.0");
    let actual = ComplexTestCase::parse(&vec![word("lt"), operand("2.0")]);
    assert_ord(actual, OrderingToken::Lt, "2.0");

    let actual = ComplexTestCase::parse(&vec![word("greater_than"), operand("2.0")]);
    assert_ord(actual, OrderingToken::Gt, "2.0");
    let actual = ComplexTestCase::parse(&vec![word("gt"), operand("2.0")]);
    assert_ord(actual, OrderingToken::Gt, "2.0");

    let actual = ComplexTestCase::parse(&vec![word("less_or_equal_than"), operand("2.0")]);
    assert_ord(actual, OrderingToken::Leq, "2.0");
    let actual = ComplexTestCase::parse(&vec![word("leq"), operand("2.0")]);
    assert_ord(actual, OrderingToken::Leq, "2.0");

    let actual = ComplexTestCase::parse(&vec![word("greater_or_equal_than"), operand("2.0")]);
    assert_ord(actual, OrderingToken::Geq, "2.0");
    let actual = ComplexTestCase::parse(&vec![word("geq"), operand("2.0")]);
    assert_ord(actual, OrderingToken::Geq, "2.0");
}

#[test]
fn can_parse_eq_other_types() {
    let actual = ComplexTestCase::parse(&vec![word("equal_to"), operand("\"abcde\"")]);
    if let Ok(ComplexTestCase::Ord(ord)) = actual {
        assert_eq!(ord.token, OrderingToken::Eq);
        assert_eq!(ord.expected_value.source, "\"abcde\"");
    } else {
        panic!("invalid enum variant")
    }

    let actual = ComplexTestCase::parse(&vec![word("equal_to"), operand("1")]);
    if let Ok(ComplexTestCase::Ord(ord)) = actual {
        assert_eq!(ord.token, OrderingToken::Eq);
        assert_eq!(ord.expected_value.source, "1");
    } else {
        panic!("invalid enum variant")
    }
}

#[test]
fn parses_almost_equal_token_stream() {
    let actual = ComplexTestCase::parse(&vec![
        word("almost_equal_to"),
        operand("1.0"),
        word("precision"),
        operand("0.1"),
    ]);
    if let Ok(ComplexTestCase::AlmostEqual(AlmostEqual { expected_value, precision })) = actual {
        assert_eq!(expected_value.source, "1.0");
        assert_eq!(precision.source, "0.1");
    } else {
        panic!("invalid enum variant")
    }

    let actual = ComplexTestCase::parse(&vec![
        word("almost_equal_to"),
        operand("1.0"),
        word("precision"),
        operand("0.0f32"),
    ]);
    if let Ok(ComplexTestCase::AlmostEqual(AlmostEqual { expected_value, precision })) = actual {
        assert_eq!(expected_value.source, "1.0");
        assert_eq!(precision.source, "0.0f32");
    } else {
        panic!("invalid enum variant")
    }
}

#[test]
fn parses_path_token_stream() {
    let actual = ComplexTestCase::parse(&vec![word("existing_path")]);
    assert_eq!(
        actual,
        Ok(ComplexTestCase::Path(Path {
            token: PathToken::Any
        }))
    );
    let actual = ComplexTestCase::parse(&vec![word("file")]);
    assert_eq!(
        actual,
        Ok(ComplexTestCase::Path(Path {
            token: PathToken::File
        }))
    );
    let actual = ComplexTestCase::parse(&vec![word("dir")]);
    assert_eq!(
        actual,
        Ok(ComplexTestCase::Path(Path {
            token: PathToken::Dir
        }))
    );
    let actual = ComplexTestCase::parse(&vec![word("directory")]);
    assert_eq!(
        actual,
        Ok(ComplexTestCase::Path(Path {
            token: PathToken::Dir
        }))
    );
}

#[test]
fn parses_contains_token_stream() {
    let actual = ComplexTestCase::parse(&vec![word("contains"), operand("1.0")]);
    assert_eq!(
        actual,
        Ok(ComplexTestCase::Contains(Contains {
            expected_element: Box::new(Expression {
                source: "1.0".to_string()
            })
        }))
    );
    let actual = ComplexTestCase::parse(&vec![word("contains"), operand("\"abcde\"")]);
    assert_eq!(
        actual,
        Ok(ComplexTestCase::Contains(Contains {
            expected_element: Box::new(Expression {
                source: "\"abcde\"".to_string()
            })
        }))
    );
    let actual = ComplexTestCase::parse(&vec![word("contains"), operand("true")]);
    assert_eq!(
        actual,
        Ok(ComplexTestCase::Contains(Contains {
            expected_element: Box::new(Expression {
                source: "true".to_string()
            })
        }))
    );
}

#[test]
fn parses_contains_in_order_token_stream() {
    let actual = ComplexTestCase::parse(&vec![word("contains_in_order"), operand("[1, 2, 3]")]);
    assert_eq!(
        actual,
        Ok(ComplexTestCase::ContainsInOrder(ContainsInOrder {
            expected_slice: Box::new(Expression {
                source: "[1, 2, 3]".to_string()
            })
        }))
    );
}

#[test]
fn missing_precision_keyword_is_a_parse_failure() {
    let actual = ComplexTestCase::parse(&vec![word("almost_equal_to"), operand("1.0")]);
    assert_eq!(actual, Err(ParseError::MissingPrecision { position: 2 }));

    let actual = ComplexTestCase::parse(&vec![
        word("almost"),
        operand("1.0"),
        operand("0.1"),
    ]);
    assert_eq!(actual, Err(ParseError::MissingPrecision { position: 2 }));
}

#[test]
fn unknown_leading_token_is_a_parse_failure() {
    let actual = ComplexTestCase::parse(&vec![word("around"), operand("1.0")]);
    assert_eq!(actual, Err(ParseError::UnknownKeyword { position: 0 }));
    assert_eq!(
        actual.unwrap_err().message(),
        "cannot parse complex expression"
    );

    let actual = ComplexTestCase::parse(&vec![operand("1.0")]);
    assert_eq!(actual, Err(ParseError::UnknownKeyword { position: 0 }));

    let actual = ComplexTestCase::parse(&vec![]);
    assert_eq!(actual, Err(ParseError::UnknownKeyword { position: 0 }));
}

#[test]
fn missing_operand_is_a_parse_failure() {
    let actual = ComplexTestCase::parse(&vec![word("eq")]);
    assert_eq!(actual, Err(ParseError::MissingOperand { position: 1 }));

    let actual = ComplexTestCase::parse(&vec![word("contains")]);
    assert_eq!(actual, Err(ParseError::MissingOperand { position: 1 }));
}

#[test]
fn trailing_tokens_are_a_parse_failure() {
    let actual = ComplexTestCase::parse(&vec![word("eq"), operand("1.0"), operand("2.0")]);
    assert_eq!(actual, Err(ParseError::UnexpectedToken { position: 2 }));
    assert_eq!(actual.unwrap_err().position(), 2);

    let actual = ComplexTestCase::parse(&vec![word("dir"), operand("1.0")]);
    assert_eq!(actual, Err(ParseError::UnexpectedToken { position: 1 }));
}

#[test]
fn synonym_spellings_parse_identically() {
    let a = ComplexTestCase::parse(&vec![word("eq"), operand("0.0")]);
    let b = ComplexTestCase::parse(&vec![word("equal_to"), operand("0.0")]);
    assert_eq!(a, b);

    let a = ComplexTestCase::parse(&vec![word("almost"), operand("1.0"), word("precision"), operand("0.1")]);
    let b = ComplexTestCase::parse(&vec![word("almost_equal_to"), operand("1.0"), word("precision"), operand("0.1")]);
    assert_eq!(a, b);

    let a = ComplexTestCase::parse(&vec![word("dir")]);
    let b = ComplexTestCase::parse(&vec![word("directory")]);
    assert_eq!(a, b);
}
