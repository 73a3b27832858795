//! A parenthesized expectation phrase: the host strips one matching pair of
//! parentheses and hands the interior over; it is then parsed exactly as an
//! unparenthesized phrase would be.

use vstd::prelude::*;
use crate::complex_expr::{parse_spec, result_view, ComplexTestCase, ParseError};
use crate::token::Token;

verus! {

/// An expectation that stood in parentheses.
#[derive(Debug, PartialEq, Eq)]
pub struct ParentedTestCase {
    pub test_case: ComplexTestCase,
}

impl ParentedTestCase {
    /// Parse the interior of a parenthesized phrase: exactly what
    /// [`ComplexTestCase::parse`] gives on the same tokens, wrapped.
    pub fn parse(tokens: &Vec<Token>) -> (r: Result<ParentedTestCase, ParseError>)
        ensures
            match r {
                Ok(p) => result_view(Ok(p.test_case)) == parse_spec(tokens.deep_view()),
                Err(e) => result_view(Err(e)) == parse_spec(tokens.deep_view()),
            },
    {
        match ComplexTestCase::parse(tokens) {
            Ok(test_case) => Ok(ParentedTestCase { test_case }),
            Err(e) => Err(e),
        }
    }
}

} // verus!
