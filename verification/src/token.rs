//! The token model: atomic lexical units and their textual form.

use vstd::prelude::*;

verus! {

/// The kind of bracket that surrounds a delimited group.
#[derive(Clone, Copy, PartialEq, Eq, Structural, Debug)]
pub enum Delim {
    Paren,
    Bracket,
    Brace,
}

/// A delimited group: the bracket kind, the source text standing between the
/// two delimiter characters, and the tokens standing between them.
///
/// The text and the token list both come from the lexer that produced the
/// group; the text is kept verbatim so that generated code reproduces the
/// input spelling exactly.
pub struct Group {
    pub delim: Delim,
    /// Source text between the two delimiter characters.
    pub text: String,
    /// The tokens between the two delimiter characters.
    pub tokens: Vec<Token>,
}

/// One atomic lexical unit.
pub enum Token {
    /// An identifier or keyword.
    Ident(String),
    /// A single punctuation character.
    Punct(char),
    /// A literal, kept as its source text.
    Literal(String),
    /// A delimited group.
    Group(Group),
}

/// The opening character of a delimiter kind.
pub open spec fn open_char(d: Delim) -> char {
    match d {
        Delim::Paren => '(',
        Delim::Bracket => '[',
        Delim::Brace => '{',
    }
}

/// The closing character of a delimiter kind.
pub open spec fn close_char(d: Delim) -> char {
    match d {
        Delim::Paren => ')',
        Delim::Bracket => ']',
        Delim::Brace => '}',
    }
}

/// The full source text of a group, delimiter characters included.
pub open spec fn group_text(g: Group) -> Seq<char> {
    seq![open_char(g.delim)] + g.text@ + seq![close_char(g.delim)]
}

/// The textual form of one token.
pub open spec fn token_text(t: Token) -> Seq<char> {
    match t {
        Token::Ident(s) => s@,
        Token::Punct(c) => seq![c],
        Token::Literal(s) => s@,
        Token::Group(g) => group_text(g),
    }
}

/// Relies on `String::push`: appends the character to the end of the string.
#[verifier::external_body]
pub(crate) fn push_char(s: &mut String, c: char)
    ensures
        final(s)@ == old(s)@ + seq![c],
{
    s.push(c);
}

/// The opening character of a delimiter kind.
pub fn delim_open(d: Delim) -> (c: char)
    ensures
        c == open_char(d),
{
    match d {
        Delim::Paren => '(',
        Delim::Bracket => '[',
        Delim::Brace => '{',
    }
}

/// The closing character of a delimiter kind.
pub fn delim_close(d: Delim) -> (c: char)
    ensures
        c == close_char(d),
{
    match d {
        Delim::Paren => ')',
        Delim::Bracket => ']',
        Delim::Brace => '}',
    }
}

/// The textual form of one token, as `token_text` states it.
pub fn token_to_text(t: &Token) -> (r: String)
    ensures
        r@ == token_text(*t),
{
    match t {
        Token::Ident(s) => s.clone(),
        Token::Punct(c) => {
            let mut out = String::new();
            push_char(&mut out, *c);
            proof {
                assert(out@ =~= seq![*c]);
            }
            out
        },
        Token::Literal(s) => s.clone(),
        Token::Group(g) => {
            let mut out = String::new();
            push_char(&mut out, delim_open(g.delim));
            out.append(g.text.as_str());
            push_char(&mut out, delim_close(g.delim));
            proof {
                assert(out@ =~= group_text(*g));
            }
            out
        },
    }
}

} // verus!
