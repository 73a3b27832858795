use expectation::complex_expr::{ComplexTestCase, OrderingToken, ParseError};
use expectation::parented_test_case::ParentedTestCase;
use expectation::token::{Expression, Token};

#[test]
fn parses_the_interior_like_a_bare_phrase() {
    let tokens = vec![
        Token::Word("lt".to_string()),
        Token::Operand(Expression { source: "2.0".to_string() }),
    ];
    let parented = ParentedTestCase::parse(&tokens).unwrap();
    let bare = ComplexTestCase::parse(&tokens).unwrap();
    assert_eq!(parented.test_case, bare);
    if let ComplexTestCase::Ord(ord) = &parented.test_case {
        assert_eq!(ord.token, OrderingToken::Lt);
        assert_eq!(ord.expected_value.source, "2.0");
    } else {
        panic!("invalid enum variant")
    }
}

#[test]
fn propagates_the_interior_failure() {
    let tokens = vec![Token::Word("around".to_string())];
    assert_eq!(
        ParentedTestCase::parse(&tokens),
        Err(ParseError::UnknownKeyword { position: 0 })
    );
}
