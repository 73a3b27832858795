//! A small expectation language: phrases such as `less_than 2.0`,
//! `almost 1.0 precision 0.1` or `contains_in_order [1, 2, 3]` are parsed
//! into a structured [`complex_expr::ComplexTestCase`], rendered back to a
//! canonical one-line form for diagnostics, and lowered into the source text
//! of an executable check against an "actual" value produced elsewhere.

pub mod check;
pub mod complex_expr;
pub mod parented_test_case;
pub mod token;
