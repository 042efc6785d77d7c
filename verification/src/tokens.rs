//! Turning the text of an override into tokens.

use crate::declaration::{StringLiteral, StringLiteralView};
use crate::diagnostic::{Diagnostic, DiagnosticView, ErrorKind};
use std::str::FromStr;
use vstd::prelude::*;
use vstd::string::*;

verus! {

/// The tokens that `source` is made of, printed one after the other; or,
/// where `source` is no sequence of tokens, what the lexer says of it.
pub uninterp spec fn token_text(source: Seq<char>) -> Result<Seq<char>, Seq<char>>;

/// What the lexer gave, as a mathematical value.
pub open spec fn lexed_view(lexed: Result<String, String>) -> Result<Seq<char>, Seq<char>> {
    match lexed {
        Ok(text) => Ok(text@),
        Err(message) => Err(message@),
    }
}

/// A text or a diagnostic, as a mathematical value.
pub open spec fn text_view(outcome: Result<String, Diagnostic>) -> Result<
    Seq<char>,
    DiagnosticView,
> {
    match outcome {
        Ok(text) => Ok(text@),
        Err(error) => Err(error@),
    }
}

/// Calls `proc_macro2::TokenStream::from_str` on `source` and prints what it
/// gives: the token stream through its `Display`, the error through its own.
///
/// Not proved: that the outcome is `token_text(source@)`, which only says that
/// it depends on `source` alone (proc-macro2 is built here without its
/// `proc-macro` feature, so the lexer is always its own).
#[verifier::external_body]
fn lex_tokens(source: &str) -> (lexed: Result<String, String>)
    ensures
        lexed_view(lexed) == token_text(source@),
{
    match proc_macro2::TokenStream::from_str(source) {
        Ok(tokens) => Ok(tokens.to_string()),
        Err(error) => Err(error.to_string()),
    }
}

/// What is said before the suffix of a literal that has one.
pub const SUFFIX_HEAD: &'static str = "unexpected suffix `";

/// What is said after it.
pub const SUFFIX_TAIL: &'static str = "` on string literal";

/// The diagnostic for a text that the lexer refused, with what it said.
pub open spec fn not_tokens(literal: StringLiteralView, message: Seq<char>) -> DiagnosticView {
    DiagnosticView { kind: ErrorKind::InvalidAnnotationSyntax, message, span: literal.span }
}

/// The diagnostic for a literal with a suffix.
pub open spec fn suffixed(literal: StringLiteralView) -> DiagnosticView {
    DiagnosticView {
        kind: ErrorKind::InvalidAnnotationSyntax,
        message: SUFFIX_HEAD@ + literal.suffix + SUFFIX_TAIL@,
        span: literal.span,
    }
}

/// What becomes of an override once its text went through the lexer.
///
/// A text that the lexer refused is invalid syntax, with what the lexer said.
/// So is, after that, a literal with a suffix. Both stand at the literal.
/// Any other literal gives the tokens of its text.
pub open spec fn override_tokens(
    literal: StringLiteralView,
    lexed: Result<Seq<char>, Seq<char>>,
) -> Result<Seq<char>, DiagnosticView> {
    match lexed {
        Err(message) => Err(not_tokens(literal, message)),
        Ok(text) => if literal.suffix.len() == 0 {
            Ok(text)
        } else {
            Err(suffixed(literal))
        },
    }
}

/// What the lexer makes of `text`: an empty text holds no tokens and is not
/// shown to the lexer.
pub open spec fn lexed_text(text: Seq<char>) -> Result<Seq<char>, Seq<char>> {
    if text.len() == 0 {
        Ok(Seq::empty())
    } else {
        token_text(text)
    }
}

/// The tokens that the text of `literal` stands for.
pub open spec fn literal_tokens(literal: StringLiteralView) -> Result<Seq<char>, DiagnosticView> {
    override_tokens(literal, lexed_text(literal.value))
}

/// Decides what becomes of an override, given what the lexer made of its
/// text.
pub fn accept_lexed(literal: &StringLiteral, lexed: Result<String, String>) -> (outcome: Result<
    String,
    Diagnostic,
>)
    ensures
        text_view(outcome) == override_tokens(literal@, lexed_view(lexed)),
{
    match lexed {
        Err(message) => Err(
            Diagnostic { kind: ErrorKind::InvalidAnnotationSyntax, message, span: literal.span },
        ),
        Ok(text) => {
            if literal.suffix.as_str().is_empty() {
                Ok(text)
            } else {
                let mut message = SUFFIX_HEAD.to_owned();
                message.append(literal.suffix.as_str());
                message.append(SUFFIX_TAIL);
                Err(
                    Diagnostic {
                        kind: ErrorKind::InvalidAnnotationSyntax,
                        message,
                        span: literal.span,
                    },
                )
            }
        },
    }
}

/// Turns the text of an override into tokens.
pub fn parse_literal(literal: &StringLiteral) -> (outcome: Result<String, Diagnostic>)
    ensures
        text_view(outcome) == literal_tokens(literal@),
{
    let lexed = if literal.value.as_str().is_empty() {
        Ok(String::new())
    } else {
        lex_tokens(literal.value.as_str())
    };
    accept_lexed(literal, lexed)
}

} // verus!
