use derive_operator::emit::{derive_operator, finish_derive};
use derive_operator::token::{Delim, Group, Token};

fn ident(s: &str) -> Token {
    Token::Ident(s.to_string())
}

fn punct(c: char) -> Token {
    Token::Punct(c)
}

fn group(delim: Delim, text: &str, tokens: Vec<Token>) -> Token {
    Token::Group(Group { delim, text: text.to_string(), tokens })
}

fn var_group(name: &str, ty: &str) -> Token {
    group(
        Delim::Paren,
        &format!("{name} : {ty}"),
        vec![ident(name), punct(':'), ident(ty)],
    )
}

#[test]
fn primary_simple_addition_exact_output() {
    let tokens = vec![
        var_group("a", "T"),
        punct('+'),
        var_group("b", "T"),
        punct('='),
        group(Delim::Paren, "T", vec![ident("T")]),
        group(Delim::Brace, " a + b ", vec![ident("a"), punct('+'), ident("b")]),
    ];
    let out = derive_operator(&tokens).expect("generation expected");
    let expected = "\nimpl std::ops::Add<T > for T   {\n    type Output = T;\n    fn add(self, rhs: T ) -> Self::Output {\n        (|a: T , b: T | {\n             a + b \n        })(self,rhs)\n    } \n}";
    assert_eq!(out, expected);
}

#[test]
fn primary_keeps_generics_and_where_clause_verbatim() {
    let tokens = vec![
        group(Delim::Bracket, "T", vec![ident("T")]),
        ident("where"),
        group(Delim::Bracket, "T: Clone", vec![ident("T"), punct(':'), ident("Clone")]),
        var_group("a", "Wrapper"),
        punct('+'),
        var_group("b", "Wrapper"),
        punct('='),
        group(Delim::Paren, "Wrapper", vec![ident("Wrapper")]),
        group(
            Delim::Brace,
            " Wrapper { val: a.val + b.val } ",
            vec![ident("Wrapper")],
        ),
    ];
    let out = derive_operator(&tokens).expect("generation expected");
    // One implementation, with the generic list and where-clause kept
    // verbatim in the header.
    assert_eq!(out.matches("impl").count(), 1);
    assert!(out.contains("impl<T> std::ops::Add<Wrapper > for Wrapper "));
    assert!(out.contains(" where T: Clone {"));
    // The only method delegates to the supplied body, closed over the two
    // declared parameter names.
    assert!(out.contains("fn add(self, rhs: Wrapper ) -> Self::Output {"));
    assert!(out.contains("(|a: Wrapper , b: Wrapper | {"));
    assert!(out.contains(" Wrapper { val: a.val + b.val } "));
    assert!(out.contains("})(self,rhs)"));
}

#[test]
fn primary_generics_without_where_clause() {
    let tokens = vec![
        group(Delim::Bracket, "T", vec![ident("T")]),
        var_group("a", "T"),
        punct('-'),
        var_group("b", "T"),
        punct('='),
        group(Delim::Paren, "T", vec![ident("T")]),
        group(Delim::Brace, " a - b ", vec![]),
    ];
    let out = derive_operator(&tokens).expect("generation expected");
    assert!(out.contains("impl<T> std::ops::Sub<T > for T "));
    assert!(!out.contains("where"));
    assert!(out.contains("fn sub"));
}

#[test]
fn finishing_mul_produces_the_five_delegating_impls() {
    let tokens = vec![
        group(Delim::Paren, "S", vec![ident("S")]),
        punct('*'),
        group(Delim::Paren, "S", vec![ident("S")]),
        punct('='),
        group(Delim::Paren, "S", vec![ident("S")]),
    ];
    let out = finish_derive(&tokens).expect("generation expected");
    // Three further non-assigning forms plus the two compound-assignment
    // forms: five impl blocks, holding three Output declarations and five
    // method declarations (eight declarations in all).
    assert_eq!(out.matches("\nimpl").count(), 5);
    assert_eq!(out.matches("type Output = S;").count(), 3);
    assert_eq!(out.matches("fn mul(").count(), 3);
    assert_eq!(out.matches("fn mul_assign(").count(), 2);
    // Every method delegates to the presumed reference/reference form rather
    // than repeating the arithmetic.
    assert_eq!(out.matches("std::ops::Mul::mul(").count(), 5);
    assert!(out.contains("std::ops::Mul::mul(&self, &rhs)"));
    assert!(out.contains("std::ops::Mul::mul(&self, rhs)"));
    assert!(out.contains("std::ops::Mul::mul(self, &rhs)"));
    assert!(out.contains("*self = std::ops::Mul::mul(&*self, &rhs);"));
    assert!(out.contains("*self = std::ops::Mul::mul(&*self, rhs);"));
    // The owning forms take the operands the template declares.
    assert!(out.contains("impl std::ops::Mul<S> for S "));
    assert!(out.contains("impl std::ops::Mul<&S> for S "));
    assert!(out.contains("impl std::ops::Mul<S> for &S "));
    assert!(out.contains("impl std::ops::MulAssign<S> for S "));
    assert!(out.contains("impl std::ops::MulAssign<&S> for S "));
}

#[test]
fn finishing_keeps_generics_and_where_clause_verbatim() {
    let tokens = vec![
        group(Delim::Bracket, "T", vec![ident("T")]),
        ident("where"),
        group(Delim::Bracket, "T: Copy", vec![ident("T"), punct(':'), ident("Copy")]),
        group(Delim::Paren, "S<T>", vec![ident("S")]),
        punct('+'),
        group(Delim::Paren, "S<T>", vec![ident("S")]),
        punct('='),
        group(Delim::Paren, "S<T>", vec![ident("S")]),
    ];
    let out = finish_derive(&tokens).expect("generation expected");
    assert_eq!(out.matches("impl<T> ").count(), 5);
    assert_eq!(out.matches(" where T: Copy {").count(), 5);
    assert!(out.contains("impl<T> std::ops::Add<S<T>> for S<T>  where T: Copy {"));
}

#[test]
fn primary_missing_equals_aborts_naming_it() {
    let tokens = vec![
        var_group("a", "T"),
        punct('+'),
        var_group("b", "T"),
        group(Delim::Paren, "T", vec![ident("T")]),
        group(Delim::Brace, " a ", vec![ident("a")]),
    ];
    assert_eq!(derive_operator(&tokens), Err("Expected ="));
}

#[test]
fn finishing_missing_equals_aborts_naming_it() {
    let tokens = vec![
        group(Delim::Paren, "S", vec![ident("S")]),
        punct('*'),
        group(Delim::Paren, "S", vec![ident("S")]),
        group(Delim::Paren, "S", vec![ident("S")]),
    ];
    assert_eq!(finish_derive(&tokens), Err("Expected ="));
}

#[test]
fn where_without_block_aborts_in_both_families() {
    let primary = vec![
        group(Delim::Bracket, "T", vec![ident("T")]),
        ident("where"),
        var_group("a", "T"),
        punct('+'),
        var_group("b", "T"),
        punct('='),
        group(Delim::Paren, "T", vec![ident("T")]),
        group(Delim::Brace, " a ", vec![ident("a")]),
    ];
    assert_eq!(derive_operator(&primary), Err("Expected a where block after \"where\""));

    let finishing = vec![
        group(Delim::Bracket, "T", vec![ident("T")]),
        ident("where"),
        group(Delim::Paren, "S", vec![ident("S")]),
        punct('+'),
        group(Delim::Paren, "S", vec![ident("S")]),
        punct('='),
        group(Delim::Paren, "S", vec![ident("S")]),
    ];
    assert_eq!(finish_derive(&finishing), Err("Expected a where block after \"where\""));
}

#[test]
fn primary_missing_left_operand_aborts() {
    let tokens: Vec<Token> = vec![];
    assert_eq!(derive_operator(&tokens), Err("Expected (lhs_name: lhs_type)"));
}

#[test]
fn primary_missing_right_operand_aborts() {
    let tokens = vec![var_group("a", "T"), punct('+')];
    assert_eq!(derive_operator(&tokens), Err("Expected (rhs_name: rhs_type)"));
}

#[test]
fn primary_missing_operator_aborts() {
    // Both operand groups parse, so the first failing mandatory fragment is
    // the operator.
    let tokens = vec![
        var_group("a", "T"),
        var_group("b", "T"),
        punct('='),
        group(Delim::Paren, "T", vec![ident("T")]),
        group(Delim::Brace, " a ", vec![ident("a")]),
    ];
    assert_eq!(derive_operator(&tokens), Err("Expected +-*/&^|"));
}

#[test]
fn primary_missing_result_type_aborts() {
    let tokens = vec![var_group("a", "T"), punct('+'), var_group("b", "T"), punct('=')];
    assert_eq!(derive_operator(&tokens), Err("Expected res type"));
}

#[test]
fn primary_missing_body_aborts() {
    let tokens = vec![
        var_group("a", "T"),
        punct('+'),
        var_group("b", "T"),
        punct('='),
        group(Delim::Paren, "T", vec![ident("T")]),
    ];
    assert_eq!(derive_operator(&tokens), Err("Expected func body"));
}

#[test]
fn finishing_missing_types_abort() {
    let tokens: Vec<Token> = vec![];
    assert_eq!(finish_derive(&tokens), Err("Expected (lhs_type)"));

    let tokens = vec![group(Delim::Paren, "S", vec![ident("S")]), punct('*')];
    assert_eq!(finish_derive(&tokens), Err("Expected (rhs_type)"));

    let tokens = vec![
        group(Delim::Paren, "S", vec![ident("S")]),
        punct('*'),
        group(Delim::Paren, "S", vec![ident("S")]),
        punct('='),
    ];
    assert_eq!(finish_derive(&tokens), Err("Expected res type"));
}

#[test]
fn finishing_missing_operator_aborts() {
    let tokens = vec![
        group(Delim::Paren, "S", vec![ident("S")]),
        group(Delim::Paren, "S", vec![ident("S")]),
        punct('='),
        group(Delim::Paren, "S", vec![ident("S")]),
    ];
    assert_eq!(finish_derive(&tokens), Err("Expected +-*/&^|"));
}
