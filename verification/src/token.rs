//! The token model of an expectation phrase.
//!
//! A phrase reaches the parser as a flat sequence of [`Token`]s: bare words
//! (keyword candidates) and operand expressions. Operands are opaque to this
//! library: only their source text is kept, never evaluated or inspected, so
//! the same phrases work for numbers, strings, booleans or collections.

use vstd::prelude::*;
use vstd::string::StrSliceExecFns;

verus! {

/// An operand captured verbatim from an expectation phrase.
///
/// The parser never evaluates an operand; it carries the operand's source
/// text along so that rendering and check lowering can quote it back.
#[derive(Debug, PartialEq, Eq)]
pub struct Expression {
    pub source: String,
}

impl View for Expression {
    type V = Seq<char>;

    open spec fn view(&self) -> Seq<char> {
        self.source@
    }
}

impl DeepView for Expression {
    type V = Seq<char>;

    open spec fn deep_view(&self) -> Seq<char> {
        self@
    }
}

impl Clone for Expression {
    fn clone(&self) -> (r: Self)
        ensures
            r@ == self@,
    {
        Expression { source: self.source.clone() }
    }
}

impl Expression {
    /// Capture an operand from its source text.
    pub fn new(source: String) -> (e: Expression)
        ensures
            e@ == source@,
    {
        Expression { source }
    }

    /// The operand's source text, verbatim.
    pub fn text(&self) -> (t: &str)
        ensures
            t@ == self@,
    {
        self.source.as_str()
    }
}

/// One token of an expectation phrase: a bare word, or an operand that the
/// host expression grammar has already grouped into one [`Expression`].
#[derive(Debug, PartialEq, Eq)]
pub enum Token {
    Word(String),
    Operand(Expression),
}

/// The mathematical value of a [`Token`]: the word's or the operand's text.
#[verifier::ext_equal]
pub enum TokenView {
    Word(Seq<char>),
    Operand(Seq<char>),
}

impl View for Token {
    type V = TokenView;

    open spec fn view(&self) -> TokenView {
        match self {
            Token::Word(w) => TokenView::Word(w@),
            Token::Operand(e) => TokenView::Operand(e@),
        }
    }
}

impl DeepView for Token {
    type V = TokenView;

    open spec fn deep_view(&self) -> TokenView {
        self@
    }
}

/// Character-for-character equality of two string slices.
pub fn str_eq(a: &str, b: &str) -> (r: bool)
    ensures
        r == (a@ == b@),
{
    let a_len = a.unicode_len();
    let b_len = b.unicode_len();
    if a_len != b_len {
        return false;
    }
    let mut i: usize = 0;
    while i < a_len
        invariant
            a_len == a@.len(),
            b_len == b@.len(),
            a_len == b_len,
            i <= a_len,
            forall|j: int| 0 <= j < i ==> a@[j] == b@[j],
        decreases a_len - i,
    {
        let ca = a.get_char(i);
        let cb = b.get_char(i);
        if ca != cb {
            return false;
        }
        i = i + 1;
    }
    proof {
        assert(a@ =~= b@);
    }
    true
}

} // verus!
