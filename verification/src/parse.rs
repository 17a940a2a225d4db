//! Backtracking token readers.
//!
//! Each reader takes a cursor by value and returns a pair: the cursor after
//! the read, and the fragment it read. On success the returned cursor stands
//! one token past the consumed input; on failure the fragment is `None` and
//! the returned cursor is the original one, unmoved. A failed probe therefore
//! never changes the caller's view of the position, which lets callers chain
//! optional fragments without bookkeeping.

use vstd::prelude::*;

use crate::token::{Delim, Token, group_text, push_char, token_text, token_to_text};

verus! {

/// A position in a token sequence. Readers take a cursor by value and return
/// either an advanced copy (success) or the original cursor (failure).
#[derive(Clone, Copy)]
pub struct Cursor<'a> {
    pub tokens: &'a Vec<Token>,
    pub pos: usize,
}

impl<'a> Cursor<'a> {
    /// A cursor standing at the front of the token sequence.
    pub fn new(tokens: &'a Vec<Token>) -> (c: Cursor<'a>)
        ensures
            c.tokens == tokens,
            c.pos == 0,
    {
        Cursor { tokens, pos: 0 }
    }
}

/// The token standing at `pos`, if any.
pub open spec fn token_at(ts: Seq<Token>, pos: int) -> Option<Token> {
    if 0 <= pos && pos < ts.len() {
        Some(ts[pos])
    } else {
        None
    }
}

/// What `read_list` reads: a group of the requested delimiter kind yields its
/// inner text and advances by one token; anything else fails in place.
pub open spec fn spec_read_list(ts: Seq<Token>, pos: int, d: Delim) -> (int, Option<Seq<char>>) {
    match token_at(ts, pos) {
        Some(Token::Group(g)) => if g.delim == d {
            (pos + 1, Some(g.text@))
        } else {
            (pos, None)
        },
        _ => (pos, None),
    }
}

/// Succeeds iff the next token is a delimited group of the requested kind;
/// the result is the group's text with the two delimiter characters stripped.
pub fn read_list<'a>(c: Cursor<'a>, d: Delim) -> (r: (Cursor<'a>, Option<String>))
    ensures
        r.0.tokens == c.tokens,
        ({
            let (sp, sf) = spec_read_list(c.tokens@, c.pos as int, d);
            &&& r.0.pos as int == sp
            &&& (r.1 is Some) == (sf is Some)
            &&& r.1 is Some ==> r.1->0@ == sf->0
        }),
        r.1 is None ==> r.0.pos == c.pos,
{
    if c.pos < c.tokens.len() {
        match &c.tokens[c.pos] {
            Token::Group(g) => {
                if g.delim == d {
                    (Cursor { tokens: c.tokens, pos: c.pos + 1 }, Some(g.text.clone()))
                } else {
                    (c, None)
                }
            },
            _ => (c, None),
        }
    } else {
        (c, None)
    }
}

/// What `read_specific_identifier` reads: an identifier whose text matches
/// exactly; anything else fails in place.
pub open spec fn spec_read_specific_identifier(ts: Seq<Token>, pos: int, identifier: Seq<char>) -> (
    int,
    Option<()>,
) {
    match token_at(ts, pos) {
        Some(Token::Ident(s)) => if s@ == identifier {
            (pos + 1, Some(()))
        } else {
            (pos, None)
        },
        _ => (pos, None),
    }
}

/// Succeeds iff the next token is an identifier whose exact text is
/// `identifier`.
pub fn read_specific_identifier<'a>(c: Cursor<'a>, identifier: &str) -> (r: (
    Cursor<'a>,
    Option<()>,
))
    ensures
        r.0.tokens == c.tokens,
        ({
            let (sp, sf) = spec_read_specific_identifier(c.tokens@, c.pos as int, identifier@);
            &&& r.0.pos as int == sp
            &&& (r.1 is Some) == (sf is Some)
        }),
        r.1 is None ==> r.0.pos == c.pos,
{
    if c.pos < c.tokens.len() {
        match &c.tokens[c.pos] {
            Token::Ident(s) => {
                let wanted: String = identifier.to_owned();
                if *s == wanted {
                    (Cursor { tokens: c.tokens, pos: c.pos + 1 }, Some(()))
                } else {
                    (c, None)
                }
            },
            _ => (c, None),
        }
    } else {
        (c, None)
    }
}

/// What `read_specific_punct` reads: the requested punctuation character;
/// anything else fails in place.
pub open spec fn spec_read_specific_punct(ts: Seq<Token>, pos: int, punct: char) -> (
    int,
    Option<char>,
) {
    match token_at(ts, pos) {
        Some(Token::Punct(p)) => if p == punct {
            (pos + 1, Some(p))
        } else {
            (pos, None)
        },
        _ => (pos, None),
    }
}

/// Succeeds iff the next token is a punctuation mark equal to `punct`.
pub fn read_specific_punct<'a>(c: Cursor<'a>, punct: char) -> (r: (Cursor<'a>, Option<char>))
    ensures
        r.0.tokens == c.tokens,
        ({
            let (sp, sf) = spec_read_specific_punct(c.tokens@, c.pos as int, punct);
            &&& r.0.pos as int == sp
            &&& r.1 == sf
        }),
        r.1 is None ==> r.0.pos == c.pos,
{
    if c.pos < c.tokens.len() {
        match &c.tokens[c.pos] {
            Token::Punct(p) => {
                if *p == punct {
                    (Cursor { tokens: c.tokens, pos: c.pos + 1 }, Some(*p))
                } else {
                    (c, None)
                }
            },
            _ => (c, None),
        }
    } else {
        (c, None)
    }
}

/// What `read_punctuation` reads: any punctuation mark, yielding its
/// character; anything else fails in place.
pub open spec fn spec_read_punctuation(ts: Seq<Token>, pos: int) -> (int, Option<char>) {
    match token_at(ts, pos) {
        Some(Token::Punct(p)) => (pos + 1, Some(p)),
        _ => (pos, None),
    }
}

/// Succeeds iff the next token is any punctuation mark; yields the character.
pub fn read_punctuation<'a>(c: Cursor<'a>) -> (r: (Cursor<'a>, Option<char>))
    ensures
        r.0.tokens == c.tokens,
        ({
            let (sp, sf) = spec_read_punctuation(c.tokens@, c.pos as int);
            &&& r.0.pos as int == sp
            &&& r.1 == sf
        }),
        r.1 is None ==> r.0.pos == c.pos,
{
    if c.pos < c.tokens.len() {
        match &c.tokens[c.pos] {
            Token::Punct(p) => (Cursor { tokens: c.tokens, pos: c.pos + 1 }, Some(*p)),
            _ => (c, None),
        }
    } else {
        (c, None)
    }
}

/// One of the seven supported binary operators.
#[derive(Clone, Copy, PartialEq, Eq, Structural, Debug)]
pub enum Operator {
    Add,
    Sub,
    Mul,
    Div,
    BitAnd,
    BitOr,
    BitXor,
}

/// The operator denoted by a punctuation character, if any.
pub open spec fn operator_of_char(c: char) -> Option<Operator> {
    match c {
        '+' => Some(Operator::Add),
        '-' => Some(Operator::Sub),
        '*' => Some(Operator::Mul),
        '/' => Some(Operator::Div),
        '&' => Some(Operator::BitAnd),
        '^' => Some(Operator::BitXor),
        '|' => Some(Operator::BitOr),
        _ => None,
    }
}

/// The `std::ops` trait implemented for the plain form of an operator.
pub open spec fn spec_trait_name(op: Operator) -> Seq<char> {
    match op {
        Operator::Add => "std::ops::Add"@,
        Operator::Sub => "std::ops::Sub"@,
        Operator::Mul => "std::ops::Mul"@,
        Operator::Div => "std::ops::Div"@,
        Operator::BitAnd => "std::ops::BitAnd"@,
        Operator::BitOr => "std::ops::BitOr"@,
        Operator::BitXor => "std::ops::BitXor"@,
    }
}

/// The method required by the plain trait of an operator.
pub open spec fn spec_op_name(op: Operator) -> Seq<char> {
    match op {
        Operator::Add => "add"@,
        Operator::Sub => "sub"@,
        Operator::Mul => "mul"@,
        Operator::Div => "div"@,
        Operator::BitAnd => "bitand"@,
        Operator::BitOr => "bitor"@,
        Operator::BitXor => "bitxor"@,
    }
}

/// The `std::ops` trait implemented for the compound-assignment form.
pub open spec fn spec_trait_assign_name(op: Operator) -> Seq<char> {
    match op {
        Operator::Add => "std::ops::AddAssign"@,
        Operator::Sub => "std::ops::SubAssign"@,
        Operator::Mul => "std::ops::MulAssign"@,
        Operator::Div => "std::ops::DivAssign"@,
        Operator::BitAnd => "std::ops::BitAndAssign"@,
        Operator::BitOr => "std::ops::BitOrAssign"@,
        Operator::BitXor => "std::ops::BitXorAssign"@,
    }
}

/// The method required by the compound-assignment trait of an operator.
pub open spec fn spec_op_assign_name(op: Operator) -> Seq<char> {
    match op {
        Operator::Add => "add_assign"@,
        Operator::Sub => "sub_assign"@,
        Operator::Mul => "mul_assign"@,
        Operator::Div => "div_assign"@,
        Operator::BitAnd => "bitand_assign"@,
        Operator::BitOr => "bitor_assign"@,
        Operator::BitXor => "bitxor_assign"@,
    }
}

impl Operator {
    /// The operator denoted by a punctuation character, if any.
    pub fn from_char(c: char) -> (r: Option<Self>)
        ensures
            r == operator_of_char(c),
    {
        match c {
            '+' => Some(Self::Add),
            '-' => Some(Self::Sub),
            '*' => Some(Self::Mul),
            '/' => Some(Self::Div),
            '&' => Some(Self::BitAnd),
            '^' => Some(Self::BitXor),
            '|' => Some(Self::BitOr),
            _ => None,
        }
    }

    /// The `std::ops` trait implemented for the plain form of the operator.
    pub fn trait_name(&self) -> (r: String)
        ensures
            r@ == spec_trait_name(*self),
    {
        match self {
            Operator::Add => "std::ops::Add".to_owned(),
            Operator::Sub => "std::ops::Sub".to_owned(),
            Operator::Mul => "std::ops::Mul".to_owned(),
            Operator::Div => "std::ops::Div".to_owned(),
            Operator::BitAnd => "std::ops::BitAnd".to_owned(),
            Operator::BitOr => "std::ops::BitOr".to_owned(),
            Operator::BitXor => "std::ops::BitXor".to_owned(),
        }
    }

    /// The method required by the plain trait of the operator.
    pub fn op_name(&self) -> (r: String)
        ensures
            r@ == spec_op_name(*self),
    {
        match self {
            Operator::Add => "add".to_owned(),
            Operator::Sub => "sub".to_owned(),
            Operator::Mul => "mul".to_owned(),
            Operator::Div => "div".to_owned(),
            Operator::BitAnd => "bitand".to_owned(),
            Operator::BitOr => "bitor".to_owned(),
            Operator::BitXor => "bitxor".to_owned(),
        }
    }

    /// The `std::ops` trait implemented for the compound-assignment form.
    pub fn trait_assign_name(&self) -> (r: String)
        ensures
            r@ == spec_trait_assign_name(*self),
    {
        match self {
            Operator::Add => "std::ops::AddAssign".to_owned(),
            Operator::Sub => "std::ops::SubAssign".to_owned(),
            Operator::Mul => "std::ops::MulAssign".to_owned(),
            Operator::Div => "std::ops::DivAssign".to_owned(),
            Operator::BitAnd => "std::ops::BitAndAssign".to_owned(),
            Operator::BitOr => "std::ops::BitOrAssign".to_owned(),
            Operator::BitXor => "std::ops::BitXorAssign".to_owned(),
        }
    }

    /// The method required by the compound-assignment trait of the operator.
    pub fn op_assign_name(&self) -> (r: String)
        ensures
            r@ == spec_op_assign_name(*self),
    {
        match self {
            Operator::Add => "add_assign".to_owned(),
            Operator::Sub => "sub_assign".to_owned(),
            Operator::Mul => "mul_assign".to_owned(),
            Operator::Div => "div_assign".to_owned(),
            Operator::BitAnd => "bitand_assign".to_owned(),
            Operator::BitOr => "bitor_assign".to_owned(),
            Operator::BitXor => "bitxor_assign".to_owned(),
        }
    }
}

/// What `read_operator` reads: a punctuation mark denoting one of the seven
/// operators; any other token, and any other punctuation mark, fails in
/// place.
pub open spec fn spec_read_operator(ts: Seq<Token>, pos: int) -> (int, Option<Operator>) {
    let (p, mc) = spec_read_punctuation(ts, pos);
    match mc {
        Some(c) => match operator_of_char(c) {
            Some(op) => (p, Some(op)),
            None => (pos, None),
        },
        None => (pos, None),
    }
}

/// Succeeds iff the next token is a punctuation mark denoting one of the
/// seven operators; fails without consuming for any other token.
pub fn read_operator<'a>(c: Cursor<'a>) -> (r: (Cursor<'a>, Option<Operator>))
    ensures
        r.0.tokens == c.tokens,
        ({
            let (sp, sf) = spec_read_operator(c.tokens@, c.pos as int);
            &&& r.0.pos as int == sp
            &&& r.1 == sf
        }),
        r.1 is None ==> r.0.pos == c.pos,
{
    let (next, maybe_char) = read_punctuation(c);
    match maybe_char {
        Some(ch) => {
            match Operator::from_char(ch) {
                Some(op) => (next, Some(op)),
                None => (c, None),
            }
        },
        None => (c, None),
    }
}

/// The contribution of one token to the textual form of a bound variable's
/// type: its text followed by one space, except that a raw apostrophe is kept
/// without the space so that it fuses with the identifier that follows it.
pub open spec fn var_tail_piece(t: Token) -> Seq<char> {
    match t {
        Token::Punct(c) => if c == '\'' {
            seq![c]
        } else {
            seq![c, ' ']
        },
        _ => token_text(t) + seq![' '],
    }
}

/// The textual form of a bound variable's type: the concatenation of the
/// pieces of the given tokens, in order.
pub open spec fn var_tail_text(ts: Seq<Token>) -> Seq<char>
    decreases ts.len(),
{
    if ts.len() == 0 {
        Seq::empty()
    } else {
        var_tail_text(ts.drop_last()) + var_tail_piece(ts.last())
    }
}

/// What `read_var` reads: a parenthesized group whose tokens start with an
/// identifier followed by a colon yields the identifier's text and the
/// space-joined text of the remaining tokens, and advances past the group;
/// any other token, and any group of another shape, fails in place.
pub open spec fn spec_read_var(ts: Seq<Token>, pos: int) -> (int, Option<(Seq<char>, Seq<char>)>) {
    match token_at(ts, pos) {
        Some(Token::Group(g)) => if g.delim == Delim::Paren && g.tokens@.len() >= 2 && g.tokens@[0]
            is Ident && g.tokens@[1] is Punct && g.tokens@[1]->Punct_0 == ':' {
            (pos + 1, Some((g.tokens@[0]->Ident_0@, var_tail_text(g.tokens@.skip(2)))))
        } else {
            (pos, None)
        },
        _ => (pos, None),
    }
}

/// Succeeds iff the next token is a parenthesized group whose content begins
/// with an identifier and a colon; yields the identifier's text and the
/// remaining tokens' text, space-joined with apostrophes fused to what
/// follows them. Fails without consuming for any other shape.
pub fn read_var<'a>(c: Cursor<'a>) -> (r: (Cursor<'a>, Option<(String, String)>))
    ensures
        r.0.tokens == c.tokens,
        ({
            let (sp, sf) = spec_read_var(c.tokens@, c.pos as int);
            &&& r.0.pos as int == sp
            &&& (r.1 is Some) == (sf is Some)
            &&& r.1 is Some ==> ((r.1->0).0@, (r.1->0).1@) == sf->0
        }),
        r.1 is None ==> r.0.pos == c.pos,
{
    if c.pos >= c.tokens.len() {
        return (c, None);
    }
    match &c.tokens[c.pos] {
        Token::Group(g) => {
            if !(g.delim == Delim::Paren) {
                return (c, None);
            }
            if g.tokens.len() < 2 {
                return (c, None);
            }
            let name: String = match &g.tokens[0] {
                Token::Ident(s) => s.clone(),
                _ => {
                    return (c, None);
                },
            };
            match &g.tokens[1] {
                Token::Punct(p) => {
                    if !(*p == ':') {
                        return (c, None);
                    }
                },
                _ => {
                    return (c, None);
                },
            }
            let ghost inner = g.tokens@;
            let mut rest = String::new();
            let mut i: usize = 2;
            proof {
                assert(inner.subrange(2, 2) =~= Seq::<Token>::empty());
            }
            while i < g.tokens.len()
                invariant
                    2 <= i <= inner.len(),
                    inner == g.tokens@,
                    g == c.tokens@[c.pos as int]->Group_0,
                    c.pos < c.tokens@.len(),
                    rest@ == var_tail_text(inner.subrange(2, i as int)),
                decreases inner.len() - i,
            {
                let tk = &g.tokens[i];
                match tk {
                    Token::Punct(ch) => {
                        if *ch == '\'' {
                            push_char(&mut rest, *ch);
                        } else {
                            push_char(&mut rest, *ch);
                            push_char(&mut rest, ' ');
                        }
                    },
                    _ => {
                        let txt = token_to_text(tk);
                        rest.append(txt.as_str());
                        push_char(&mut rest, ' ');
                    },
                }
                proof {
                    assert(inner.subrange(2, i as int + 1).drop_last() =~= inner.subrange(
                        2,
                        i as int,
                    ));
                    assert(inner.subrange(2, i as int + 1).last() == inner[i as int]);
                    assert(rest@ =~= var_tail_text(inner.subrange(2, i as int))
                        + var_tail_piece(inner[i as int]));
                }
                i = i + 1;
            }
            proof {
                assert(inner.subrange(2, inner.len() as int) =~= inner.skip(2));
            }
            (Cursor { tokens: c.tokens, pos: c.pos + 1 }, Some((name, rest)))
        },
        _ => (c, None),
    }
}

/// `read_var` succeeds exactly on a parenthesized group whose tokens start
/// with an identifier and a colon: it yields the identifier's text and the
/// remaining tokens' text joined by the concatenation rule of
/// `var_tail_text`, and advances the position by one; on a group of another
/// delimiter kind or shape, on any other token, and at the end of input it
/// fails and leaves the position unchanged.
pub proof fn lemma_read_var_shape(ts: Seq<Token>, pos: int)
    ensures
        ({
            let (p, r) = spec_read_var(ts, pos);
            match token_at(ts, pos) {
                Some(Token::Group(g)) => if g.delim == Delim::Paren && g.tokens@.len() >= 2
                    && g.tokens@[0] is Ident && g.tokens@[1] is Punct && g.tokens@[1]->Punct_0
                    == ':' {
                    r == Some((g.tokens@[0]->Ident_0@, var_tail_text(g.tokens@.skip(2)))) && p
                        == pos + 1
                } else {
                    r is None && p == pos
                },
                _ => r is None && p == pos,
            }
        }),
{
}

/// `read_operator` succeeds exactly on the seven operator characters: a
/// punctuation token whose character denotes an operator yields that operator
/// and advances the position by one; any other punctuation character, any
/// other token, and the end of input fail and leave the position unchanged.
pub proof fn lemma_read_operator_complete(ts: Seq<Token>, pos: int)
    ensures
        ({
            let (p, r) = spec_read_operator(ts, pos);
            match token_at(ts, pos) {
                Some(Token::Punct(c)) => if operator_of_char(c) is Some {
                    r == operator_of_char(c) && p == pos + 1
                } else {
                    r is None && p == pos
                },
                _ => r is None && p == pos,
            }
        }),
{
}

/// Round trip for `read_list`: on a group of the requested delimiter kind the
/// result is the group's full source text with exactly the first and the last
/// character (the two delimiters) removed, and the position advances by one;
/// on any other token the read fails and leaves the position unchanged.
pub proof fn lemma_read_list_round_trip(ts: Seq<Token>, pos: int, d: Delim)
    ensures
        ({
            let (p, r) = spec_read_list(ts, pos, d);
            match token_at(ts, pos) {
                Some(Token::Group(g)) => if g.delim == d {
                    r == Some(group_text(g).subrange(1, group_text(g).len() as int - 1)) && p == pos
                        + 1
                } else {
                    r is None && p == pos
                },
                _ => r is None && p == pos,
            }
        }),
{
    if 0 <= pos && pos < ts.len() {
        match ts[pos] {
            Token::Group(g) => {
                assert(group_text(g).subrange(1, group_text(g).len() as int - 1) =~= g.text@);
            },
            _ => {},
        }
    }
}

} // verus!
