//! The expectation language itself: a fixed vocabulary of keywords (with
//! synonyms), a parser from a token stream to a [`ComplexTestCase`], a
//! canonical one-line renderer for diagnostics, and the lowering of each
//! expectation into the source text of an executable check against a value
//! named `_result`.

use vstd::prelude::*;
use vstd::string::StringExecFns;
use crate::token::{str_eq, Expression, Token, TokenView};

verus! {

/// The relation of an ordering expectation.
#[derive(Debug, PartialEq, Eq)]
pub enum OrderingToken {
    Eq,
    Lt,
    Gt,
    Leq,
    Geq,
}

/// The kind of a filesystem-path expectation.
#[derive(Debug, PartialEq, Eq)]
pub enum PathToken {
    Any,
    Dir,
    File,
}

/// An ordering expectation: the actual value must stand in `token`'s
/// relation to the captured operand.
#[derive(Debug, PartialEq, Eq)]
pub struct Ord {
    pub token: OrderingToken,
    pub expected_value: Box<Expression>,
}

/// A tolerance expectation: the actual value must lie strictly within
/// `precision` of `expected_value`.
#[derive(Debug, PartialEq, Eq)]
pub struct AlmostEqual {
    pub expected_value: Box<Expression>,
    pub precision: Box<Expression>,
}

/// A filesystem expectation: the actual value, read as a path, must exist,
/// be a directory, or be a regular file.
#[derive(Debug, PartialEq, Eq)]
pub struct Path {
    pub token: PathToken,
}

/// A membership expectation: the actual collection must hold an element
/// equal to the captured operand.
#[derive(Debug, PartialEq, Eq)]
pub struct Contains {
    pub expected_element: Box<Expression>,
}

/// A window expectation: some contiguous window of the actual sequence must
/// equal the captured operand sequence.
#[derive(Debug, PartialEq, Eq)]
pub struct ContainsInOrder {
    pub expected_slice: Box<Expression>,
}

/// One parsed expectation: exactly one variant is active.
#[derive(Debug, PartialEq, Eq)]
pub enum ComplexTestCase {
    Ord(Ord),
    AlmostEqual(AlmostEqual),
    Path(Path),
    Contains(Contains),
    ContainsInOrder(ContainsInOrder),
}

/// The mathematical value of a [`ComplexTestCase`]: each captured operand
/// stands as its source text.
#[verifier::ext_equal]
#[allow(inconsistent_fields)]
pub enum ComplexTestCaseView {
    Ord { token: OrderingToken, expected_value: Seq<char> },
    AlmostEqual { expected_value: Seq<char>, precision: Seq<char> },
    Path { token: PathToken },
    Contains { expected_element: Seq<char> },
    ContainsInOrder { expected_slice: Seq<char> },
}

impl View for ComplexTestCase {
    type V = ComplexTestCaseView;

    open spec fn view(&self) -> ComplexTestCaseView {
        match self {
            ComplexTestCase::Ord(o) => ComplexTestCaseView::Ord {
                token: o.token,
                expected_value: o.expected_value@,
            },
            ComplexTestCase::AlmostEqual(a) => ComplexTestCaseView::AlmostEqual {
                expected_value: a.expected_value@,
                precision: a.precision@,
            },
            ComplexTestCase::Path(p) => ComplexTestCaseView::Path { token: p.token },
            ComplexTestCase::Contains(c) => ComplexTestCaseView::Contains {
                expected_element: c.expected_element@,
            },
            ComplexTestCase::ContainsInOrder(c) => ComplexTestCaseView::ContainsInOrder {
                expected_slice: c.expected_slice@,
            },
        }
    }
}

/// A recoverable parse failure: the index of the offending token and, per
/// variant, a fixed message.
#[derive(Debug, PartialEq, Eq, Clone, Copy)]
pub enum ParseError {
    /// No keyword of the vocabulary stands at the start of the phrase.
    UnknownKeyword { position: usize },
    /// A keyword demands a trailing operand expression that is not there.
    MissingOperand { position: usize },
    /// `almost` demands the keyword `precision` between its two operands.
    MissingPrecision { position: usize },
    /// The phrase goes on after a complete expectation.
    UnexpectedToken { position: usize },
}

impl ParseError {
    /// The index of the token at which the failure was found.
    pub open spec fn position_spec(self) -> usize {
        match self {
            ParseError::UnknownKeyword { position } => position,
            ParseError::MissingOperand { position } => position,
            ParseError::MissingPrecision { position } => position,
            ParseError::UnexpectedToken { position } => position,
        }
    }

    pub fn position(&self) -> (p: usize)
        ensures
            p == self.position_spec(),
    {
        match self {
            ParseError::UnknownKeyword { position } => *position,
            ParseError::MissingOperand { position } => *position,
            ParseError::MissingPrecision { position } => *position,
            ParseError::UnexpectedToken { position } => *position,
        }
    }

    /// The fixed diagnostic message of this failure.
    pub fn message(&self) -> (m: &'static str)
        ensures
            self is UnknownKeyword ==> m@ == "cannot parse complex expression"@,
            self is MissingOperand ==> m@ == "expected an operand expression"@,
            self is MissingPrecision ==> m@ == "expected keyword precision"@,
            self is UnexpectedToken ==> m@ == "unexpected token after expectation"@,
    {
        match self {
            ParseError::UnknownKeyword { .. } => "cannot parse complex expression",
            ParseError::MissingOperand { .. } => "expected an operand expression",
            ParseError::MissingPrecision { .. } => "expected keyword precision",
            ParseError::UnexpectedToken { .. } => "unexpected token after expectation",
        }
    }
}

/// The word standing at index `i`, if a word stands there.
pub open spec fn word_at(tokens: Seq<TokenView>, i: int) -> Option<Seq<char>> {
    if 0 <= i < tokens.len() {
        match tokens[i] {
            TokenView::Word(w) => Some(w),
            TokenView::Operand(_) => None,
        }
    } else {
        None
    }
}

/// The operand standing at index `i`, if an operand stands there.
pub open spec fn operand_at(tokens: Seq<TokenView>, i: int) -> Option<Seq<char>> {
    if 0 <= i < tokens.len() {
        match tokens[i] {
            TokenView::Word(_) => None,
            TokenView::Operand(e) => Some(e),
        }
    } else {
        None
    }
}

/// A phrase of one keyword and exactly one trailing operand: the operand's
/// text, or the failure.
pub open spec fn one_operand_spec(tokens: Seq<TokenView>) -> Result<Seq<char>, ParseError> {
    match operand_at(tokens, 1) {
        Option::None => Err(ParseError::MissingOperand { position: 1 }),
        Option::Some(e) => if tokens.len() == 2 {
            Ok(e)
        } else {
            Err(ParseError::UnexpectedToken { position: 2 })
        },
    }
}

/// What an ordering phrase parses to, after its keyword matched.
pub open spec fn ord_spec(token: OrderingToken, tokens: Seq<TokenView>) -> Result<
    ComplexTestCaseView,
    ParseError,
> {
    match one_operand_spec(tokens) {
        Ok(e) => Ok(ComplexTestCaseView::Ord { token, expected_value: e }),
        Err(err) => Err(err),
    }
}

/// What an `almost` phrase parses to, after its keyword matched: one
/// operand, the literal keyword `precision`, one more operand, nothing else.
pub open spec fn almost_spec(tokens: Seq<TokenView>) -> Result<ComplexTestCaseView, ParseError> {
    match operand_at(tokens, 1) {
        Option::None => Err(ParseError::MissingOperand { position: 1 }),
        Option::Some(expected) => if word_at(tokens, 2) != Some("precision"@) {
            Err(ParseError::MissingPrecision { position: 2 })
        } else {
            match operand_at(tokens, 3) {
                Option::None => Err(ParseError::MissingOperand { position: 3 }),
                Option::Some(precision) => if tokens.len() == 4 {
                    Ok(ComplexTestCaseView::AlmostEqual { expected_value: expected, precision })
                } else {
                    Err(ParseError::UnexpectedToken { position: 4 })
                },
            }
        },
    }
}

/// What a path phrase parses to, after its keyword matched: no operand.
pub open spec fn path_spec(token: PathToken, tokens: Seq<TokenView>) -> Result<
    ComplexTestCaseView,
    ParseError,
> {
    if tokens.len() == 1 {
        Ok(ComplexTestCaseView::Path { token })
    } else {
        Err(ParseError::UnexpectedToken { position: 1 })
    }
}

/// What a `contains` phrase parses to, after its keyword matched.
pub open spec fn contains_spec(tokens: Seq<TokenView>) -> Result<ComplexTestCaseView, ParseError> {
    match one_operand_spec(tokens) {
        Ok(e) => Ok(ComplexTestCaseView::Contains { expected_element: e }),
        Err(err) => Err(err),
    }
}

/// What a `contains_in_order` phrase parses to, after its keyword matched.
pub open spec fn contains_in_order_spec(tokens: Seq<TokenView>) -> Result<
    ComplexTestCaseView,
    ParseError,
> {
    match one_operand_spec(tokens) {
        Ok(e) => Ok(ComplexTestCaseView::ContainsInOrder { expected_slice: e }),
        Err(err) => Err(err),
    }
}

/// What a whole phrase parses to: keyword lookahead in a fixed priority
/// order, each group deciding the variant and how many operands follow.
pub open spec fn parse_spec(tokens: Seq<TokenView>) -> Result<ComplexTestCaseView, ParseError> {
    match word_at(tokens, 0) {
        Option::None => Err(ParseError::UnknownKeyword { position: 0 }),
        Option::Some(w) => if w == "eq"@ || w == "equal_to"@ {
            ord_spec(OrderingToken::Eq, tokens)
        } else if w == "lt"@ || w == "less_than"@ {
            ord_spec(OrderingToken::Lt, tokens)
        } else if w == "gt"@ || w == "greater_than"@ {
            ord_spec(OrderingToken::Gt, tokens)
        } else if w == "leq"@ || w == "less_or_equal_than"@ {
            ord_spec(OrderingToken::Leq, tokens)
        } else if w == "geq"@ || w == "greater_or_equal_than"@ {
            ord_spec(OrderingToken::Geq, tokens)
        } else if w == "almost"@ || w == "almost_equal_to"@ {
            almost_spec(tokens)
        } else if w == "existing_path"@ {
            path_spec(PathToken::Any, tokens)
        } else if w == "directory"@ || w == "dir"@ {
            path_spec(PathToken::Dir, tokens)
        } else if w == "file"@ {
            path_spec(PathToken::File, tokens)
        } else if w == "contains"@ {
            contains_spec(tokens)
        } else if w == "contains_in_order"@ {
            contains_in_order_spec(tokens)
        } else {
            Err(ParseError::UnknownKeyword { position: 0 })
        },
    }
}

/// The view of a parse result, for stating what [`ComplexTestCase::parse`]
/// returns.
pub open spec fn result_view(r: Result<ComplexTestCase, ParseError>) -> Result<
    ComplexTestCaseView,
    ParseError,
> {
    match r {
        Ok(c) => Ok(c@),
        Err(e) => Err(e),
    }
}

/// Whether `w` is a word of the vocabulary: a keyword, one of its synonyms,
/// or the sub-keyword `precision`.
pub open spec fn is_keyword_spec(w: Seq<char>) -> bool {
    ||| w == "eq"@
    ||| w == "equal_to"@
    ||| w == "lt"@
    ||| w == "less_than"@
    ||| w == "gt"@
    ||| w == "greater_than"@
    ||| w == "leq"@
    ||| w == "less_or_equal_than"@
    ||| w == "geq"@
    ||| w == "greater_or_equal_than"@
    ||| w == "almost"@
    ||| w == "almost_equal_to"@
    ||| w == "precision"@
    ||| w == "existing_path"@
    ||| w == "directory"@
    ||| w == "dir"@
    ||| w == "file"@
    ||| w == "contains"@
    ||| w == "contains_in_order"@
}

/// Whether `w` is reserved by the vocabulary. A host splitting a raw phrase
/// into [`Token`]s reads a bare word ahead only when it is one of these.
pub fn is_keyword(w: &str) -> (r: bool)
    ensures
        r == is_keyword_spec(w@),
{
    str_eq(w, "eq") || str_eq(w, "equal_to") || str_eq(w, "lt") || str_eq(w, "less_than") || str_eq(
        w,
        "gt",
    ) || str_eq(w, "greater_than") || str_eq(w, "leq") || str_eq(w, "less_or_equal_than") || str_eq(
        w,
        "geq",
    ) || str_eq(w, "greater_or_equal_than") || str_eq(w, "almost") || str_eq(w, "almost_equal_to")
        || str_eq(w, "precision") || str_eq(w, "existing_path") || str_eq(w, "directory") || str_eq(
        w,
        "dir",
    ) || str_eq(w, "file") || str_eq(w, "contains") || str_eq(w, "contains_in_order")
}

impl ComplexTestCase {
    /// Parse one expectation phrase. Returns the expectation whose view is
    /// exactly what [`parse_spec`] gives on the tokens' views, or that same
    /// spec's error.
    pub fn parse(tokens: &Vec<Token>) -> (r: Result<ComplexTestCase, ParseError>)
        ensures
            result_view(r) == parse_spec(tokens.deep_view()),
    {
        let ghost toks = tokens.deep_view();
        if tokens.len() == 0 {
            return Err(ParseError::UnknownKeyword { position: 0 });
        }
        let w: &str = match &tokens[0] {
            Token::Word(word) => word.as_str(),
            Token::Operand(_) => {
                proof {
                    assert(toks[0] == tokens@[0].deep_view());
                }
                return Err(ParseError::UnknownKeyword { position: 0 });
            },
        };
        proof {
            assert(toks[0] == tokens@[0].deep_view());
            assert(word_at(toks, 0) == Some(w@));
        }
        if str_eq(w, "eq") || str_eq(w, "equal_to") {
            Self::parse_ord(OrderingToken::Eq, tokens)
        } else if str_eq(w, "lt") || str_eq(w, "less_than") {
            Self::parse_ord(OrderingToken::Lt, tokens)
        } else if str_eq(w, "gt") || str_eq(w, "greater_than") {
            Self::parse_ord(OrderingToken::Gt, tokens)
        } else if str_eq(w, "leq") || str_eq(w, "less_or_equal_than") {
            Self::parse_ord(OrderingToken::Leq, tokens)
        } else if str_eq(w, "geq") || str_eq(w, "greater_or_equal_than") {
            Self::parse_ord(OrderingToken::Geq, tokens)
        } else if str_eq(w, "almost") || str_eq(w, "almost_equal_to") {
            Self::parse_almost(tokens)
        } else if str_eq(w, "existing_path") {
            Self::parse_path(PathToken::Any, tokens)
        } else if str_eq(w, "directory") || str_eq(w, "dir") {
            Self::parse_path(PathToken::Dir, tokens)
        } else if str_eq(w, "file") {
            Self::parse_path(PathToken::File, tokens)
        } else if str_eq(w, "contains") {
            match Self::parse_one_operand(tokens) {
                Ok(e) => Ok(ComplexTestCase::Contains(Contains { expected_element: Box::new(e) })),
                Err(err) => Err(err),
            }
        } else if str_eq(w, "contains_in_order") {
            match Self::parse_one_operand(tokens) {
                Ok(e) => Ok(
                    ComplexTestCase::ContainsInOrder(ContainsInOrder { expected_slice: Box::new(e) }),
                ),
                Err(err) => Err(err),
            }
        } else {
            Err(ParseError::UnknownKeyword { position: 0 })
        }
    }

    /// The sole trailing operand of a one-operand phrase, or the failure.
    fn parse_one_operand(tokens: &Vec<Token>) -> (r: Result<Expression, ParseError>)
        ensures
            match r {
                Ok(e) => one_operand_spec(tokens.deep_view()) == Ok::<Seq<char>, ParseError>(e@),
                Err(err) => one_operand_spec(tokens.deep_view()) == Err::<Seq<char>, ParseError>(
                    err,
                ),
            },
    {
        let ghost toks = tokens.deep_view();
        if tokens.len() < 2 {
            return Err(ParseError::MissingOperand { position: 1 });
        }
        proof {
            assert(toks[1] == tokens@[1].deep_view());
        }
        match &tokens[1] {
            Token::Word(_) => Err(ParseError::MissingOperand { position: 1 }),
            Token::Operand(e) => {
                if tokens.len() == 2 {
                    Ok(e.clone())
                } else {
                    Err(ParseError::UnexpectedToken { position: 2 })
                }
            },
        }
    }

    fn parse_ord(token: OrderingToken, tokens: &Vec<Token>) -> (r: Result<
        ComplexTestCase,
        ParseError,
    >)
        ensures
            result_view(r) == ord_spec(token, tokens.deep_view()),
    {
        match Self::parse_one_operand(tokens) {
            Ok(e) => Ok(ComplexTestCase::Ord(Ord { token, expected_value: Box::new(e) })),
            Err(err) => Err(err),
        }
    }

    fn parse_path(token: PathToken, tokens: &Vec<Token>) -> (r: Result<
        ComplexTestCase,
        ParseError,
    >)
        requires
            tokens.deep_view().len() >= 1,
        ensures
            result_view(r) == path_spec(token, tokens.deep_view()),
    {
        if tokens.len() == 1 {
            Ok(ComplexTestCase::Path(Path { token }))
        } else {
            Err(ParseError::UnexpectedToken { position: 1 })
        }
    }

    fn parse_almost(tokens: &Vec<Token>) -> (r: Result<ComplexTestCase, ParseError>)
        ensures
            result_view(r) == almost_spec(tokens.deep_view()),
    {
        let ghost toks = tokens.deep_view();
        if tokens.len() < 2 {
            return Err(ParseError::MissingOperand { position: 1 });
        }
        proof {
            assert(toks[1] == tokens@[1].deep_view());
        }
        let expected: Expression = match &tokens[1] {
            Token::Operand(e) => e.clone(),
            Token::Word(_) => {
                return Err(ParseError::MissingOperand { position: 1 });
            },
        };
        if tokens.len() < 3 {
            return Err(ParseError::MissingPrecision { position: 2 });
        }
        proof {
            assert(toks[2] == tokens@[2].deep_view());
        }
        let precision_word_ok = match &tokens[2] {
            Token::Word(word) => str_eq(word.as_str(), "precision"),
            Token::Operand(_) => false,
        };
        if !precision_word_ok {
            return Err(ParseError::MissingPrecision { position: 2 });
        }
        if tokens.len() < 4 {
            return Err(ParseError::MissingOperand { position: 3 });
        }
        proof {
            assert(toks[3] == tokens@[3].deep_view());
        }
        let precision: Expression = match &tokens[3] {
            Token::Operand(e) => e.clone(),
            Token::Word(_) => {
                return Err(ParseError::MissingOperand { position: 3 });
            },
        };
        if tokens.len() == 4 {
            Ok(
                ComplexTestCase::AlmostEqual(
                    AlmostEqual {
                        expected_value: Box::new(expected),
                        precision: Box::new(precision),
                    },
                ),
            )
        } else {
            Err(ParseError::UnexpectedToken { position: 4 })
        }
    }
}

impl OrderingToken {
    /// The canonical short keyword of this relation, as the renderer writes
    /// it.
    pub open spec fn keyword_spec(self) -> Seq<char> {
        match self {
            OrderingToken::Eq => "eq"@,
            OrderingToken::Lt => "lt"@,
            OrderingToken::Gt => "gt"@,
            OrderingToken::Leq => "leq"@,
            OrderingToken::Geq => "geq"@,
        }
    }

    pub fn keyword(&self) -> (r: &'static str)
        ensures
            r@ == self.keyword_spec(),
    {
        match self {
            OrderingToken::Eq => "eq",
            OrderingToken::Lt => "lt",
            OrderingToken::Gt => "gt",
            OrderingToken::Leq => "leq",
            OrderingToken::Geq => "geq",
        }
    }

    /// The comparison operator that the lowered check applies.
    pub open spec fn symbol_spec(self) -> Seq<char> {
        match self {
            OrderingToken::Eq => "=="@,
            OrderingToken::Lt => "<"@,
            OrderingToken::Gt => ">"@,
            OrderingToken::Leq => "<="@,
            OrderingToken::Geq => ">="@,
        }
    }

    pub fn symbol(&self) -> (r: &'static str)
        ensures
            r@ == self.symbol_spec(),
    {
        match self {
            OrderingToken::Eq => "==",
            OrderingToken::Lt => "<",
            OrderingToken::Gt => ">",
            OrderingToken::Leq => "<=",
            OrderingToken::Geq => ">=",
        }
    }
}

impl PathToken {
    /// How the renderer writes this kind.
    pub open spec fn keyword_spec(self) -> Seq<char> {
        match self {
            PathToken::Any => "path"@,
            PathToken::Dir => "dir"@,
            PathToken::File => "file"@,
        }
    }

    pub fn keyword(&self) -> (r: &'static str)
        ensures
            r@ == self.keyword_spec(),
    {
        match self {
            PathToken::Any => "path",
            PathToken::Dir => "dir",
            PathToken::File => "file",
        }
    }
}

/// The canonical one-line form of an expectation: synonyms normalise to the
/// short keyword, operands stand as their source text, verbatim.
pub open spec fn render_spec(v: ComplexTestCaseView) -> Seq<char> {
    match v {
        ComplexTestCaseView::Ord { token, expected_value } => token.keyword_spec() + " "@
            + expected_value,
        ComplexTestCaseView::AlmostEqual { expected_value, precision } => "almost "@
            + expected_value + " p "@ + precision,
        ComplexTestCaseView::Path { token } => token.keyword_spec(),
        ComplexTestCaseView::Contains { expected_element } => expected_element,
        ComplexTestCaseView::ContainsInOrder { expected_slice } => expected_slice,
    }
}

/// The check that an ordering expectation lowers to.
pub open spec fn ord_assertion_spec(token: OrderingToken, expected: Seq<char>) -> Seq<char> {
    "assert!(_result "@ + token.symbol_spec() + " "@ + expected + ")"@
}

/// The check that a tolerance expectation lowers to: the absolute difference
/// must stay strictly under the precision.
pub open spec fn almost_equal_assertion_spec(expected: Seq<char>, precision: Seq<char>) -> Seq<
    char,
> {
    "assert!((_result - "@ + expected + ").abs() < "@ + precision + ")"@
}

/// The check that a path expectation lowers to.
pub open spec fn path_assertion_spec(token: PathToken) -> Seq<char> {
    match token {
        PathToken::Any => "assert!(std::path::Path::new(&_result).exists())"@,
        PathToken::Dir => "assert!(std::path::Path::new(&_result).is_dir())"@,
        PathToken::File => "assert!(std::path::Path::new(&_result).is_file())"@,
    }
}

/// The check that a membership expectation lowers to.
pub open spec fn contains_assertion_spec(element: Seq<char>) -> Seq<char> {
    "assert!(_result.iter().find(|i| i.eq(&&"@ + element + ")).is_some())"@
}

/// The check that a window expectation lowers to. The window scan runs only
/// when the expected sequence is no longer than the actual one, so the
/// window count can never underflow; a longer expected sequence simply
/// leaves the outcome false.
pub open spec fn contains_in_order_assertion_spec(elements: Seq<char>) -> Seq<char> {
    "let mut _tc_outcome = false; if "@ + elements + ".len() <= _result.len() { for i in 0..=_result.len() - "@
        + elements + ".len() { if "@ + elements + " == _result[i..i + "@ + elements
        + ".len()] { _tc_outcome = true; } } } assert!(_tc_outcome, \"contains_in_order failed\")"@
}

/// The source text of the executable check that an expectation lowers to,
/// per variant.
pub open spec fn assertion_spec(v: ComplexTestCaseView) -> Seq<char> {
    match v {
        ComplexTestCaseView::Ord { token, expected_value } => ord_assertion_spec(
            token,
            expected_value,
        ),
        ComplexTestCaseView::AlmostEqual { expected_value, precision } => almost_equal_assertion_spec(
            expected_value,
            precision,
        ),
        ComplexTestCaseView::Path { token } => path_assertion_spec(token),
        ComplexTestCaseView::Contains { expected_element } => contains_assertion_spec(
            expected_element,
        ),
        ComplexTestCaseView::ContainsInOrder { expected_slice } => contains_in_order_assertion_spec(
            expected_slice,
        ),
    }
}

impl ComplexTestCase {
    /// The canonical one-line form of this expectation, for diagnostics. Not
    /// guaranteed to be re-parseable input.
    pub fn render(&self) -> (r: String)
        ensures
            r@ == render_spec(self@),
    {
        match self {
            ComplexTestCase::Ord(o) => {
                let mut s = o.token.keyword().to_owned();
                s.append(" ");
                s.append(o.expected_value.text());
                proof {
                    assert(s@ =~= render_spec(self@));
                }
                s
            },
            ComplexTestCase::AlmostEqual(a) => {
                let mut s = "almost ".to_owned();
                s.append(a.expected_value.text());
                s.append(" p ");
                s.append(a.precision.text());
                proof {
                    assert(s@ =~= render_spec(self@));
                }
                s
            },
            ComplexTestCase::Path(p) => p.token.keyword().to_owned(),
            ComplexTestCase::Contains(c) => c.expected_element.text().to_owned(),
            ComplexTestCase::ContainsInOrder(c) => c.expected_slice.text().to_owned(),
        }
    }

    /// The source text of the executable check of this expectation, run by
    /// the host against a value named `_result`.
    pub fn assertion(&self) -> (r: String)
        ensures
            r@ == assertion_spec(self@),
    {
        match self {
            ComplexTestCase::Ord(o) => ord_assertion(&o.token, o.expected_value.text()),
            ComplexTestCase::AlmostEqual(a) => almost_equal_assertion(
                a.expected_value.text(),
                a.precision.text(),
            ),
            ComplexTestCase::Path(p) => path_assertion(&p.token),
            ComplexTestCase::Contains(c) => contains_assertion(c.expected_element.text()),
            ComplexTestCase::ContainsInOrder(c) => contains_in_order_assertion(
                c.expected_slice.text(),
            ),
        }
    }
}

fn ord_assertion(token: &OrderingToken, expected: &str) -> (r: String)
    ensures
        r@ == ord_assertion_spec(*token, expected@),
{
    let mut s = "assert!(_result ".to_owned();
    s.append(token.symbol());
    s.append(" ");
    s.append(expected);
    s.append(")");
    proof {
        assert(s@ =~= ord_assertion_spec(*token, expected@));
    }
    s
}

fn almost_equal_assertion(expected: &str, precision: &str) -> (r: String)
    ensures
        r@ == almost_equal_assertion_spec(expected@, precision@),
{
    let mut s = "assert!((_result - ".to_owned();
    s.append(expected);
    s.append(").abs() < ");
    s.append(precision);
    s.append(")");
    proof {
        assert(s@ =~= almost_equal_assertion_spec(expected@, precision@));
    }
    s
}

fn path_assertion(token: &PathToken) -> (r: String)
    ensures
        r@ == path_assertion_spec(*token),
{
    match token {
        PathToken::Any => "assert!(std::path::Path::new(&_result).exists())".to_owned(),
        PathToken::Dir => "assert!(std::path::Path::new(&_result).is_dir())".to_owned(),
        PathToken::File => "assert!(std::path::Path::new(&_result).is_file())".to_owned(),
    }
}

fn contains_assertion(element: &str) -> (r: String)
    ensures
        r@ == contains_assertion_spec(element@),
{
    let mut s = "assert!(_result.iter().find(|i| i.eq(&&".to_owned();
    s.append(element);
    s.append(")).is_some())");
    proof {
        assert(s@ =~= contains_assertion_spec(element@));
    }
    s
}

fn contains_in_order_assertion(elements: &str) -> (r: String)
    ensures
        r@ == contains_in_order_assertion_spec(elements@),
{
    let mut s = "let mut _tc_outcome = false; if ".to_owned();
    s.append(elements);
    s.append(".len() <= _result.len() { for i in 0..=_result.len() - ");
    s.append(elements);
    s.append(".len() { if ");
    s.append(elements);
    s.append(" == _result[i..i + ");
    s.append(elements);
    s.append(".len()] { _tc_outcome = true; } } } assert!(_tc_outcome, \"contains_in_order failed\")");
    proof {
        assert(s@ =~= contains_in_order_assertion_spec(elements@));
    }
    s
}

/// No two words of the vocabulary are the same word.
#[verifier::rlimit(100)]
pub proof fn lemma_vocabulary_distinct()
    ensures
        "eq"@ != "equal_to"@,
        "eq"@ != "lt"@,
        "eq"@ != "less_than"@,
        "eq"@ != "gt"@,
        "eq"@ != "greater_than"@,
        "eq"@ != "leq"@,
        "eq"@ != "less_or_equal_than"@,
        "eq"@ != "geq"@,
        "eq"@ != "greater_or_equal_than"@,
        "eq"@ != "almost"@,
        "eq"@ != "almost_equal_to"@,
        "eq"@ != "precision"@,
        "eq"@ != "existing_path"@,
        "eq"@ != "directory"@,
        "eq"@ != "dir"@,
        "eq"@ != "file"@,
        "eq"@ != "contains"@,
        "eq"@ != "contains_in_order"@,
        "equal_to"@ != "lt"@,
        "equal_to"@ != "less_than"@,
        "equal_to"@ != "gt"@,
        "equal_to"@ != "greater_than"@,
        "equal_to"@ != "leq"@,
        "equal_to"@ != "less_or_equal_than"@,
        "equal_to"@ != "geq"@,
        "equal_to"@ != "greater_or_equal_than"@,
        "equal_to"@ != "almost"@,
        "equal_to"@ != "almost_equal_to"@,
        "equal_to"@ != "precision"@,
        "equal_to"@ != "existing_path"@,
        "equal_to"@ != "directory"@,
        "equal_to"@ != "dir"@,
        "equal_to"@ != "file"@,
        "equal_to"@ != "contains"@,
        "equal_to"@ != "contains_in_order"@,
        "lt"@ != "less_than"@,
        "lt"@ != "gt"@,
        "lt"@ != "greater_than"@,
        "lt"@ != "leq"@,
        "lt"@ != "less_or_equal_than"@,
        "lt"@ != "geq"@,
        "lt"@ != "greater_or_equal_than"@,
        "lt"@ != "almost"@,
        "lt"@ != "almost_equal_to"@,
        "lt"@ != "precision"@,
        "lt"@ != "existing_path"@,
        "lt"@ != "directory"@,
        "lt"@ != "dir"@,
        "lt"@ != "file"@,
        "lt"@ != "contains"@,
        "lt"@ != "contains_in_order"@,
        "less_than"@ != "gt"@,
        "less_than"@ != "greater_than"@,
        "less_than"@ != "leq"@,
        "less_than"@ != "less_or_equal_than"@,
        "less_than"@ != "geq"@,
        "less_than"@ != "greater_or_equal_than"@,
        "less_than"@ != "almost"@,
        "less_than"@ != "almost_equal_to"@,
        "less_than"@ != "precision"@,
        "less_than"@ != "existing_path"@,
        "less_than"@ != "directory"@,
        "less_than"@ != "dir"@,
        "less_than"@ != "file"@,
        "less_than"@ != "contains"@,
        "less_than"@ != "contains_in_order"@,
        "gt"@ != "greater_than"@,
        "gt"@ != "leq"@,
        "gt"@ != "less_or_equal_than"@,
        "gt"@ != "geq"@,
        "gt"@ != "greater_or_equal_than"@,
        "gt"@ != "almost"@,
        "gt"@ != "almost_equal_to"@,
        "gt"@ != "precision"@,
        "gt"@ != "existing_path"@,
        "gt"@ != "directory"@,
        "gt"@ != "dir"@,
        "gt"@ != "file"@,
        "gt"@ != "contains"@,
        "gt"@ != "contains_in_order"@,
        "greater_than"@ != "leq"@,
        "greater_than"@ != "less_or_equal_than"@,
        "greater_than"@ != "geq"@,
        "greater_than"@ != "greater_or_equal_than"@,
        "greater_than"@ != "almost"@,
        "greater_than"@ != "almost_equal_to"@,
        "greater_than"@ != "precision"@,
        "greater_than"@ != "existing_path"@,
        "greater_than"@ != "directory"@,
        "greater_than"@ != "dir"@,
        "greater_than"@ != "file"@,
        "greater_than"@ != "contains"@,
        "greater_than"@ != "contains_in_order"@,
        "leq"@ != "less_or_equal_than"@,
        "leq"@ != "geq"@,
        "leq"@ != "greater_or_equal_than"@,
        "leq"@ != "almost"@,
        "leq"@ != "almost_equal_to"@,
        "leq"@ != "precision"@,
        "leq"@ != "existing_path"@,
        "leq"@ != "directory"@,
        "leq"@ != "dir"@,
        "leq"@ != "file"@,
        "leq"@ != "contains"@,
        "leq"@ != "contains_in_order"@,
        "less_or_equal_than"@ != "geq"@,
        "less_or_equal_than"@ != "greater_or_equal_than"@,
        "less_or_equal_than"@ != "almost"@,
        "less_or_equal_than"@ != "almost_equal_to"@,
        "less_or_equal_than"@ != "precision"@,
        "less_or_equal_than"@ != "existing_path"@,
        "less_or_equal_than"@ != "directory"@,
        "less_or_equal_than"@ != "dir"@,
        "less_or_equal_than"@ != "file"@,
        "less_or_equal_than"@ != "contains"@,
        "less_or_equal_than"@ != "contains_in_order"@,
        "geq"@ != "greater_or_equal_than"@,
        "geq"@ != "almost"@,
        "geq"@ != "almost_equal_to"@,
        "geq"@ != "precision"@,
        "geq"@ != "existing_path"@,
        "geq"@ != "directory"@,
        "geq"@ != "dir"@,
        "geq"@ != "file"@,
        "geq"@ != "contains"@,
        "geq"@ != "contains_in_order"@,
        "greater_or_equal_than"@ != "almost"@,
        "greater_or_equal_than"@ != "almost_equal_to"@,
        "greater_or_equal_than"@ != "precision"@,
        "greater_or_equal_than"@ != "existing_path"@,
        "greater_or_equal_than"@ != "directory"@,
        "greater_or_equal_than"@ != "dir"@,
        "greater_or_equal_than"@ != "file"@,
        "greater_or_equal_than"@ != "contains"@,
        "greater_or_equal_than"@ != "contains_in_order"@,
        "almost"@ != "almost_equal_to"@,
        "almost"@ != "precision"@,
        "almost"@ != "existing_path"@,
        "almost"@ != "directory"@,
        "almost"@ != "dir"@,
        "almost"@ != "file"@,
        "almost"@ != "contains"@,
        "almost"@ != "contains_in_order"@,
        "almost_equal_to"@ != "precision"@,
        "almost_equal_to"@ != "existing_path"@,
        "almost_equal_to"@ != "directory"@,
        "almost_equal_to"@ != "dir"@,
        "almost_equal_to"@ != "file"@,
        "almost_equal_to"@ != "contains"@,
        "almost_equal_to"@ != "contains_in_order"@,
        "precision"@ != "existing_path"@,
        "precision"@ != "directory"@,
        "precision"@ != "dir"@,
        "precision"@ != "file"@,
        "precision"@ != "contains"@,
        "precision"@ != "contains_in_order"@,
        "existing_path"@ != "directory"@,
        "existing_path"@ != "dir"@,
        "existing_path"@ != "file"@,
        "existing_path"@ != "contains"@,
        "existing_path"@ != "contains_in_order"@,
        "directory"@ != "dir"@,
        "directory"@ != "file"@,
        "directory"@ != "contains"@,
        "directory"@ != "contains_in_order"@,
        "dir"@ != "file"@,
        "dir"@ != "contains"@,
        "dir"@ != "contains_in_order"@,
        "file"@ != "contains"@,
        "file"@ != "contains_in_order"@,
        "contains"@ != "contains_in_order"@,
{
    reveal_strlit("eq");
    reveal_strlit("equal_to");
    reveal_strlit("lt");
    reveal_strlit("less_than");
    reveal_strlit("gt");
    reveal_strlit("greater_than");
    reveal_strlit("leq");
    reveal_strlit("less_or_equal_than");
    reveal_strlit("geq");
    reveal_strlit("greater_or_equal_than");
    reveal_strlit("almost");
    reveal_strlit("almost_equal_to");
    reveal_strlit("precision");
    reveal_strlit("existing_path");
    reveal_strlit("directory");
    reveal_strlit("dir");
    reveal_strlit("file");
    reveal_strlit("contains");
    reveal_strlit("contains_in_order");
    assert("eq"@.len() == 2);
    assert("equal_to"@.len() == 8);
    assert("lt"@.len() == 2);
    assert("less_than"@.len() == 9);
    assert("gt"@.len() == 2);
    assert("greater_than"@.len() == 12);
    assert("leq"@.len() == 3);
    assert("less_or_equal_than"@.len() == 18);
    assert("geq"@.len() == 3);
    assert("greater_or_equal_than"@.len() == 21);
    assert("almost"@.len() == 6);
    assert("almost_equal_to"@.len() == 15);
    assert("precision"@.len() == 9);
    assert("existing_path"@.len() == 13);
    assert("directory"@.len() == 9);
    assert("dir"@.len() == 3);
    assert("file"@.len() == 4);
    assert("contains"@.len() == 8);
    assert("contains_in_order"@.len() == 17);
    assert("eq"@[0] == 'e');
    assert("lt"@[0] == 'l');
    assert("gt"@[0] == 'g');
    assert("leq"@[0] == 'l');
    assert("geq"@[0] == 'g');
    assert("dir"@[0] == 'd');
    assert("equal_to"@[0] == 'e');
    assert("contains"@[0] == 'c');
    assert("less_than"@[0] == 'l');
    assert("precision"@[0] == 'p');
    assert("directory"@[0] == 'd');
}

/// Phrases that agree on everything after their leading word are read the
/// same way once a keyword group has matched.
proof fn lemma_same_tail_same_phrase(a: Seq<TokenView>, b: Seq<TokenView>)
    requires
        a.len() == b.len(),
        a.len() >= 1,
        forall|i: int| 1 <= i < a.len() ==> a[i] == b[i],
    ensures
        one_operand_spec(a) == one_operand_spec(b),
        almost_spec(a) == almost_spec(b),
{
    assert(operand_at(a, 1) == operand_at(b, 1));
    assert(word_at(a, 2) == word_at(b, 2));
    assert(operand_at(a, 3) == operand_at(b, 3));
}

/// For every keyword and its synonym, a phrase led by either spelling
/// parses to the same result, whatever tokens follow the leading word.
pub proof fn lemma_synonyms_parse_equal(tail: Seq<TokenView>)
    ensures
        parse_spec(seq![TokenView::Word("equal_to"@)] + tail) == parse_spec(
            seq![TokenView::Word("eq"@)] + tail,
        ),
        parse_spec(seq![TokenView::Word("less_than"@)] + tail) == parse_spec(
            seq![TokenView::Word("lt"@)] + tail,
        ),
        parse_spec(seq![TokenView::Word("greater_than"@)] + tail) == parse_spec(
            seq![TokenView::Word("gt"@)] + tail,
        ),
        parse_spec(seq![TokenView::Word("less_or_equal_than"@)] + tail) == parse_spec(
            seq![TokenView::Word("leq"@)] + tail,
        ),
        parse_spec(seq![TokenView::Word("greater_or_equal_than"@)] + tail) == parse_spec(
            seq![TokenView::Word("geq"@)] + tail,
        ),
        parse_spec(seq![TokenView::Word("almost_equal_to"@)] + tail) == parse_spec(
            seq![TokenView::Word("almost"@)] + tail,
        ),
        parse_spec(seq![TokenView::Word("directory"@)] + tail) == parse_spec(
            seq![TokenView::Word("dir"@)] + tail,
        ),
{
    lemma_vocabulary_distinct();
    {
        let a = seq![TokenView::Word("equal_to"@)] + tail;
        let b = seq![TokenView::Word("eq"@)] + tail;
        assert(word_at(a, 0) == Some("equal_to"@));
        assert(word_at(b, 0) == Some("eq"@));
        lemma_same_tail_same_phrase(a, b);
    }
    {
        let a = seq![TokenView::Word("less_than"@)] + tail;
        let b = seq![TokenView::Word("lt"@)] + tail;
        assert(word_at(a, 0) == Some("less_than"@));
        assert(word_at(b, 0) == Some("lt"@));
        lemma_same_tail_same_phrase(a, b);
    }
    {
        let a = seq![TokenView::Word("greater_than"@)] + tail;
        let b = seq![TokenView::Word("gt"@)] + tail;
        assert(word_at(a, 0) == Some("greater_than"@));
        assert(word_at(b, 0) == Some("gt"@));
        lemma_same_tail_same_phrase(a, b);
    }
    {
        let a = seq![TokenView::Word("less_or_equal_than"@)] + tail;
        let b = seq![TokenView::Word("leq"@)] + tail;
        assert(word_at(a, 0) == Some("less_or_equal_than"@));
        assert(word_at(b, 0) == Some("leq"@));
        lemma_same_tail_same_phrase(a, b);
    }
    {
        let a = seq![TokenView::Word("greater_or_equal_than"@)] + tail;
        let b = seq![TokenView::Word("geq"@)] + tail;
        assert(word_at(a, 0) == Some("greater_or_equal_than"@));
        assert(word_at(b, 0) == Some("geq"@));
        lemma_same_tail_same_phrase(a, b);
    }
    {
        let a = seq![TokenView::Word("almost_equal_to"@)] + tail;
        let b = seq![TokenView::Word("almost"@)] + tail;
        assert(word_at(a, 0) == Some("almost_equal_to"@));
        assert(word_at(b, 0) == Some("almost"@));
        lemma_same_tail_same_phrase(a, b);
    }
    {
        let a = seq![TokenView::Word("directory"@)] + tail;
        let b = seq![TokenView::Word("dir"@)] + tail;
        assert(word_at(a, 0) == Some("directory"@));
        assert(word_at(b, 0) == Some("dir"@));
        assert(a.len() == b.len());
        lemma_same_tail_same_phrase(a, b);
    }
}

/// The text of one token, as it stands in a rendered phrase.
pub open spec fn token_text(t: TokenView) -> Seq<char> {
    match t {
        TokenView::Word(w) => w,
        TokenView::Operand(e) => e,
    }
}

/// Tokens joined into a phrase, one space between neighbours.
pub open spec fn join_spaced(tokens: Seq<TokenView>) -> Seq<char>
    decreases tokens.len(),
{
    if tokens.len() == 0 {
        Seq::empty()
    } else if tokens.len() == 1 {
        token_text(tokens[0])
    } else {
        token_text(tokens[0]) + " "@ + join_spaced(tokens.drop_first())
    }
}

/// The rendered form of an expectation, read back as a token stream.
pub open spec fn rendered_tokens(v: ComplexTestCaseView) -> Seq<TokenView> {
    match v {
        ComplexTestCaseView::Ord { token, expected_value } => seq![
            TokenView::Word(token.keyword_spec()),
            TokenView::Operand(expected_value),
        ],
        ComplexTestCaseView::AlmostEqual { expected_value, precision } => seq![
            TokenView::Word("almost"@),
            TokenView::Operand(expected_value),
            TokenView::Word("p"@),
            TokenView::Operand(precision),
        ],
        ComplexTestCaseView::Path { token } => seq![TokenView::Word(token.keyword_spec())],
        ComplexTestCaseView::Contains { expected_element } => seq![
            TokenView::Operand(expected_element),
        ],
        ComplexTestCaseView::ContainsInOrder { expected_slice } => seq![
            TokenView::Operand(expected_slice),
        ],
    }
}

/// What the renderer writes is exactly this expectation's rendered tokens
/// joined with single spaces.
pub proof fn lemma_render_joins_rendered_tokens(v: ComplexTestCaseView)
    ensures
        render_spec(v) == join_spaced(rendered_tokens(v)),
{
    let ts = rendered_tokens(v);
    match v {
        ComplexTestCaseView::Ord { token, expected_value } => {
            assert(ts.len() == 2);
            assert(ts[0] == TokenView::Word(token.keyword_spec()));
            assert(ts.drop_first() =~= seq![TokenView::Operand(expected_value)]);
            assert(join_spaced(seq![TokenView::Operand(expected_value)]) == expected_value);
            assert(join_spaced(ts) == token.keyword_spec() + " "@ + expected_value);
        },
        ComplexTestCaseView::AlmostEqual { expected_value, precision } => {
            reveal_strlit("almost");
            reveal_strlit("almost ");
            reveal_strlit("p");
            reveal_strlit(" p ");
            reveal_strlit(" ");
            assert("almost"@.len() == 6);
            assert("almost "@.len() == 7);
            assert("p"@.len() == 1);
            assert(" p "@.len() == 3);
            assert(" "@.len() == 1);
            let t3 = seq![TokenView::Operand(precision)];
            let t2 = seq![TokenView::Word("p"@), TokenView::Operand(precision)];
            let t1 = seq![
                TokenView::Operand(expected_value),
                TokenView::Word("p"@),
                TokenView::Operand(precision),
            ];
            assert(ts.drop_first() =~= t1);
            assert(t1.drop_first() =~= t2);
            assert(t2.drop_first() =~= t3);
            assert(join_spaced(t3) == precision);
            assert(join_spaced(t2) == "p"@ + " "@ + precision);
            assert(join_spaced(t1) == expected_value + " "@ + ("p"@ + " "@ + precision));
            assert(join_spaced(ts) == "almost"@ + " "@ + (expected_value + " "@ + ("p"@ + " "@
                + precision)));
            assert(render_spec(v) =~= join_spaced(ts));
        },
        ComplexTestCaseView::Path { token } => {},
        ComplexTestCaseView::Contains { expected_element } => {},
        ComplexTestCaseView::ContainsInOrder { expected_slice } => {},
    }
}

/// Parsing the rendered form of an ordering or `dir`/`file` expectation
/// yields the expectation back. The other variants render diagnostic text
/// that is not a phrase (`path`, the short `p`, a bare operand), so re-parsing
/// them fails and they stand outside this law.
pub proof fn lemma_render_parse_round_trip(v: ComplexTestCaseView)
    requires
        v is Ord || v == (ComplexTestCaseView::Path { token: PathToken::Dir }) || v == (
        ComplexTestCaseView::Path { token: PathToken::File }),
    ensures
        parse_spec(rendered_tokens(v)) == Ok::<ComplexTestCaseView, ParseError>(v),
{
    lemma_vocabulary_distinct();
    let ts = rendered_tokens(v);
    match v {
        ComplexTestCaseView::Ord { token, expected_value } => {
            assert(word_at(ts, 0) == Some(token.keyword_spec()));
            assert(operand_at(ts, 1) == Some(expected_value));
            assert(ts.len() == 2);
        },
        ComplexTestCaseView::Path { token } => {
            assert(word_at(ts, 0) == Some(token.keyword_spec()));
            assert(ts.len() == 1);
        },
        ComplexTestCaseView::AlmostEqual { expected_value, precision } => {},
        ComplexTestCaseView::Contains { expected_element } => {},
        ComplexTestCaseView::ContainsInOrder { expected_slice } => {},
    }
}

} // verus!

