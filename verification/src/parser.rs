//! A cursor over a sequence of tokens, with the operations that the
//! shorthand parsers need: look at the next token, consume it, go back.

use vstd::prelude::*;
use crate::text::{ci_eq, matches_keyword};
use crate::token::{Token, TokenView, ParseError, ParseErrorKind, token_views, value_error};

verus! {

/// Whether the document is parsed in quirks mode.
#[derive(PartialEq, Eq, Structural, Clone, Copy, Debug)]
pub enum QuirksMode {
    Quirks,
    LimitedQuirks,
    NoQuirks,
}

/// What the parsers know of the document they parse for.
#[derive(PartialEq, Eq, Structural, Clone, Copy, Debug)]
pub struct ParserContext {
    pub quirks_mode: QuirksMode,
}

/// Unitless lengths are accepted where a property allows the quirk and the
/// document is in quirks mode.
pub open spec fn quirks_allowed(context: ParserContext) -> bool {
    context.quirks_mode == QuirksMode::Quirks
}

/// A token stream and the index of the next token to read.
pub struct Parser {
    tokens: Vec<Token>,
    position: usize,
}

impl Parser {
    /// The tokens, as mathematical values.
    pub closed spec fn toks(&self) -> Seq<TokenView> {
        token_views(self.tokens@)
    }

    /// The index of the next token.
    pub closed spec fn pos(&self) -> int {
        self.position as int
    }

    /// The position lies within the tokens.
    pub open spec fn wf(&self) -> bool {
        0 <= self.pos() <= self.toks().len()
    }

    /// The token at `pos`, if there is one.
    pub open spec fn token_at(&self, pos: int) -> Option<TokenView> {
        if 0 <= pos < self.toks().len() {
            Some(self.toks()[pos])
        } else {
            None
        }
    }

    /// A parser at the start of `tokens`.
    pub fn new(tokens: Vec<Token>) -> (p: Parser)
        ensures
            p.wf(),
            p.toks() == token_views(tokens@),
            p.pos() == 0,
    {
        Parser { tokens, position: 0 }
    }

    /// The index of the next token.
    pub fn position(&self) -> (r: usize)
        requires
            self.wf(),
        ensures
            r == self.pos(),
    {
        self.position
    }

    /// The number of tokens.
    pub fn len(&self) -> (r: usize)
        ensures
            r == self.toks().len(),
    {
        self.tokens.len()
    }

    /// Goes back (or forward) to an earlier position.
    pub fn reset(&mut self, pos: usize)
        requires
            pos <= old(self).toks().len(),
        ensures
            final(self).wf(),
            final(self).toks() == old(self).toks(),
            final(self).pos() == pos,
    {
        self.position = pos;
    }

    /// Whether every token has been read.
    pub fn is_exhausted(&self) -> (b: bool)
        requires
            self.wf(),
        ensures
            b == (self.pos() == self.toks().len()),
    {
        self.position == self.tokens.len()
    }

    /// The next token, without consuming it.
    pub fn peek(&self) -> (r: Option<&Token>)
        requires
            self.wf(),
        ensures
            match r {
                Some(t) => self.token_at(self.pos()) == Some(t@),
                None => self.token_at(self.pos()) is None,
            },
    {
        if self.position < self.tokens.len() {
            Some(&self.tokens[self.position])
        } else {
            None
        }
    }

    /// Consumes the next token.
    pub fn advance(&mut self)
        requires
            old(self).wf(),
            old(self).pos() < old(self).toks().len(),
        ensures
            final(self).wf(),
            final(self).toks() == old(self).toks(),
            final(self).pos() == old(self).pos() + 1,
    {
        let n = self.tokens.len();
        assert(self.toks().len() == n);
        self.position = self.position + 1;
    }

    /// Consumes the delimiter `c`; fails, consuming nothing, on anything else.
    pub fn expect_delim(&mut self, c: char) -> (res: Result<(), ParseError>)
        requires
            old(self).wf(),
        ensures
            final(self).wf(),
            final(self).toks() == old(self).toks(),
            match spec_expect_delim(old(self).toks(), old(self).pos(), c) {
                Ok(p) => res == Ok::<(), ParseError>(()) && final(self).pos() == p,
                Err(e) => res == Err::<(), ParseError>(e) && final(self).pos() == old(self).pos(),
            },
    {
        let matched = match self.peek() {
            Some(Token::Delim(d)) => *d == c,
            _ => false,
        };
        if matched {
            self.advance();
            Ok(())
        } else {
            Err(ParseError {
                kind: if self.position < self.tokens.len() {
                    ParseErrorKind::UnexpectedToken
                } else {
                    ParseErrorKind::EndOfInput
                },
                position: self.position,
            })
        }
    }

    /// Consumes an identifier equal to `keyword` ignoring ASCII case;
    /// fails, consuming nothing, on anything else.
    pub fn expect_ident_matching(&mut self, keyword: &str) -> (res: Result<(), ParseError>)
        requires
            old(self).wf(),
        ensures
            final(self).wf(),
            final(self).toks() == old(self).toks(),
            match spec_expect_ident(old(self).toks(), old(self).pos(), keyword@) {
                Ok(p) => res == Ok::<(), ParseError>(()) && final(self).pos() == p,
                Err(e) => res == Err::<(), ParseError>(e) && final(self).pos() == old(self).pos(),
            },
    {
        let matched = match self.peek() {
            Some(Token::Ident(s)) => matches_keyword(s, keyword),
            _ => false,
        };
        if matched {
            self.advance();
            Ok(())
        } else {
            Err(ParseError {
                kind: if self.position < self.tokens.len() {
                    ParseErrorKind::UnexpectedToken
                } else {
                    ParseErrorKind::EndOfInput
                },
                position: self.position,
            })
        }
    }
}

/// The position after the delimiter `c` at `pos`, or the error.
pub open spec fn spec_expect_delim(toks: Seq<TokenView>, pos: int, c: char) -> Result<int, ParseError> {
    if 0 <= pos < toks.len() && toks[pos] == TokenView::Delim(c) {
        Ok(pos + 1)
    } else {
        Err(value_error(toks, pos))
    }
}

/// Whether the token is an identifier equal to `keyword` ignoring ASCII case.
pub open spec fn is_keyword(t: TokenView, keyword: Seq<char>) -> bool {
    match t {
        TokenView::Ident(s) => ci_eq(s, keyword),
        _ => false,
    }
}

/// The position after the identifier `keyword` at `pos`, or the error.
pub open spec fn spec_expect_ident(toks: Seq<TokenView>, pos: int, keyword: Seq<char>) -> Result<int, ParseError> {
    if 0 <= pos < toks.len() && is_keyword(toks[pos], keyword) {
        Ok(pos + 1)
    } else {
        Err(value_error(toks, pos))
    }
}

} // verus!
