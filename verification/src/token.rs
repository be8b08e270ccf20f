//! Token streams and their mathematical model.
//!
//! Type expressions are emitted as `proc_macro2` token streams, built with
//! the calls that `quote` expands to. Verus cannot look inside such a
//! stream, so this module gives the stream a model, [`stream_tokens`], and
//! states over that model what each stream operation used by this crate
//! does. What is stated here of `proc_macro2` and `quote` is assumed, not
//! proved: it is the trusted boundary between the verified descriptors and
//! the token libraries.

use crate::decimal::decimal;
use proc_macro2::{Group, Ident, Literal, Punct, Span, TokenStream};
use quote::TokenStreamExt;
use vstd::prelude::*;

verus! {

/// What encloses the tokens of a group.
pub enum Delimiter {
    /// `( ... )`
    Parenthesis,
    /// `{ ... }`
    Brace,
    /// `[ ... ]`
    Bracket,
    /// A delimiter that is not written.
    Invisible,
}

/// How a punctuation character stands to the token after it.
pub enum Spacing {
    /// The character ends an operator: `+` in `+ =` or in `+x`.
    Alone,
    /// The character is joined to the punctuation after it: `+` in `+=`.
    Joint,
}

/// One token tree, spans left out.
pub enum Token {
    /// The tokens enclosed by a pair of delimiters.
    Group(Delimiter, Seq<Token>),
    /// An identifier or keyword, as it is spelled.
    Ident(Seq<char>),
    /// A punctuation character.
    Punct(char, Spacing),
    /// A literal, as it is spelled.
    Literal(Seq<char>),
}

impl Token {
    /// The punctuation character `c` standing alone.
    pub open spec fn alone(c: char) -> Token {
        Token::Punct(c, Spacing::Alone)
    }

    /// The integer literal of value `n`, spelled in decimal without a
    /// suffix.
    pub open spec fn number(n: nat) -> Token {
        Token::Literal(decimal(n))
    }

    /// The tokens `inner` enclosed in square brackets.
    pub open spec fn bracket(inner: Seq<Token>) -> Token {
        Token::Group(Delimiter::Bracket, inner)
    }
}

/// Whether `c` may start a word: an ASCII letter or an underscore.
pub open spec fn is_word_start(c: char) -> bool {
    c == '_' || 'a' <= c <= 'z' || 'A' <= c <= 'Z'
}

/// Whether `c` may stand inside a word: a word start or a decimal digit.
pub open spec fn is_word_part(c: char) -> bool {
    is_word_start(c) || '0' <= c <= '9'
}

/// Whether `s` is a word: not empty, made of ASCII letters, digits and
/// underscores, and not starting with a digit. Every word is an identifier
/// to the token libraries; they accept other identifiers too.
pub open spec fn is_word(s: Seq<char>) -> bool {
    &&& s.len() > 0
    &&& is_word_start(s[0])
    &&& forall|i: int| 0 <= i < s.len() ==> is_word_part(#[trigger] s[i])
}

/// Whether `c` is one of the punctuation characters of the language.
pub open spec fn is_punct(c: char) -> bool {
    ||| c == '!'
    ||| c == '#'
    ||| c == '$'
    ||| c == '%'
    ||| c == '&'
    ||| c == '\''
    ||| c == '*'
    ||| c == '+'
    ||| c == ','
    ||| c == '-'
    ||| c == '.'
    ||| c == '/'
    ||| c == ':'
    ||| c == ';'
    ||| c == '<'
    ||| c == '='
    ||| c == '>'
    ||| c == '?'
    ||| c == '@'
    ||| c == '^'
    ||| c == '|'
    ||| c == '~'
}

/// `proc_macro2::TokenStream`, a sequence of token trees. Nothing inside
/// it is visible to the verifier.
#[verifier::external_type_specification]
#[verifier::external_body]
pub struct ExTokenStream(TokenStream);

/// The token trees that a stream holds, first to last: a group by its
/// delimiter and the trees inside it, an identifier and a literal by what
/// `to_string` gives, a punctuation character by `as_char` and `spacing`.
pub uninterp spec fn stream_tokens(stream: TokenStream) -> Seq<Token>;

/// Calls `TokenStream::new`, which returns a stream that holds no token.
#[verifier::external_body]
pub(crate) fn empty_stream() -> (stream: TokenStream)
    ensures
        stream_tokens(stream) == Seq::<Token>::empty(),
{
    TokenStream::new()
}

/// Calls `Ident::new` with the call-site span and appends the identifier
/// with `TokenStreamExt::append`: the stream gains one token at its end,
/// the identifier spelled `word`. `Ident::new` panics unless it is given an
/// identifier, hence the precondition.
#[verifier::external_body]
pub(crate) fn push_ident(stream: &mut TokenStream, word: &str)
    requires
        is_word(word@),
    ensures
        stream_tokens(*final(stream)) == stream_tokens(*old(stream)).push(Token::Ident(word@)),
{
    stream.append(Ident::new(word, Span::call_site()));
}

/// Calls `Punct::new` with `Spacing::Alone` and appends the character with
/// `TokenStreamExt::append`: the stream gains one token at its end, the
/// punctuation `c`. `Punct::new` panics on any character outside the
/// language's punctuation, hence the precondition.
#[verifier::external_body]
pub(crate) fn push_punct(stream: &mut TokenStream, c: char)
    requires
        is_punct(c),
    ensures
        stream_tokens(*final(stream)) == stream_tokens(*old(stream)).push(Token::alone(c)),
{
    stream.append(Punct::new(c, proc_macro2::Spacing::Alone));
}

/// Calls `Literal::usize_unsuffixed` and appends the literal with
/// `TokenStreamExt::append`: the stream gains one token at its end, the
/// literal spelled as the decimal numeral of `n`, without a suffix.
#[verifier::external_body]
pub(crate) fn push_number(stream: &mut TokenStream, n: usize)
    ensures
        stream_tokens(*final(stream)) == stream_tokens(*old(stream)).push(Token::number(n as nat)),
{
    stream.append(Literal::usize_unsuffixed(n));
}

/// Calls `Group::new` with `Delimiter::Bracket` and appends the group with
/// `TokenStreamExt::append`: the stream gains one token at its end, the
/// tokens of `inner` enclosed in square brackets.
#[verifier::external_body]
pub(crate) fn push_bracket(stream: &mut TokenStream, inner: TokenStream)
    ensures
        stream_tokens(*final(stream)) == stream_tokens(*old(stream)).push(
            Token::bracket(stream_tokens(inner)),
        ),
{
    stream.append(Group::new(proc_macro2::Delimiter::Bracket, inner));
}

/// `TokenStream::clone` returns a stream equal to the one it is given.
pub assume_specification[ <TokenStream as Clone>::clone ](stream: &TokenStream) -> (copy:
    TokenStream)
    ensures
        copy == *stream,
;

} // verus!
