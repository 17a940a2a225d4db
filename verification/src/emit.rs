//! The two generation entry points.
//!
//! Each drives the token readers left to right in a fixed grammar order, then
//! substitutes the fragments into a fixed template. A missing mandatory
//! fragment stops the whole generation: the result is an error naming the
//! expected construct, and no text is produced.

use vstd::prelude::*;
use vstd::string::StringExecFns;

use crate::parse::{
    Cursor, Operator, spec_op_assign_name, spec_op_name, spec_read_list, spec_read_operator,
    spec_read_specific_identifier, spec_read_specific_punct, spec_read_var, spec_trait_assign_name,
    spec_trait_name, read_list, read_operator, read_specific_identifier, read_specific_punct,
    read_var,
};
use crate::token::{Delim, Token};

verus! {

/// What the optional header reads: a bracketed generic list, rendered inside
/// angle brackets, optionally followed by `where` and a mandatory bracketed
/// constraint list, rendered after the word `where`. Either fragment that is
/// absent is rendered as the empty string; `where` with no bracketed list
/// after it is the one header error.
pub open spec fn spec_read_header(ts: Seq<Token>, pos: int) -> Result<
    (int, Seq<char>, Seq<char>),
    Seq<char>,
> {
    let (p1, mgl) = spec_read_list(ts, pos, Delim::Bracket);
    match mgl {
        Some(gl) => {
            let (p2, mw) = spec_read_specific_identifier(ts, p1, "where"@);
            match mw {
                Some(_) => {
                    let (p3, mwb) = spec_read_list(ts, p2, Delim::Bracket);
                    match mwb {
                        Some(wb) => Ok((p3, "<"@ + gl + ">"@, " where "@ + wb)),
                        None => Err("Expected a where block after \"where\""@),
                    }
                },
                None => Ok((p2, "<"@ + gl + ">"@, Seq::<char>::empty())),
            }
        },
        None => Ok((p1, Seq::<char>::empty(), Seq::<char>::empty())),
    }
}

/// Reads the optional generic list and where-clause that may precede either
/// declaration family, rendering each as the template expects it.
fn read_header<'a>(c: Cursor<'a>) -> (r: Result<(Cursor<'a>, String, String), &'static str>)
    ensures
        ({
            let h = spec_read_header(c.tokens@, c.pos as int);
            &&& (r is Ok) == (h is Ok)
            &&& r is Ok ==> (r->Ok_0).0.tokens == c.tokens
            &&& r is Ok ==> ((r->Ok_0).0.pos as int, (r->Ok_0).1@, (r->Ok_0).2@) == h->Ok_0
            &&& r is Err ==> r->Err_0@ == h->Err_0
        }),
{
    let (c1, maybe_generic_list) = read_list(c, Delim::Bracket);
    match maybe_generic_list {
        Some(gl) => {
            let mut generics = String::new();
            generics.append("<");
            generics.append(gl.as_str());
            generics.append(">");
            proof {
                assert(generics@ =~= "<"@ + gl@ + ">"@);
            }
            let (c2, maybe_where) = read_specific_identifier(c1, "where");
            match maybe_where {
                Some(_) => {
                    let (c3, should_be_where_block) = read_list(c2, Delim::Bracket);
                    match should_be_where_block {
                        Some(wb) => {
                            let mut constraints = String::new();
                            constraints.append(" where ");
                            constraints.append(wb.as_str());
                            proof {
                                assert(constraints@ =~= " where "@ + wb@);
                            }
                            Ok((c3, generics, constraints))
                        },
                        None => Err("Expected a where block after \"where\""),
                    }
                },
                None => Ok((c2, generics, String::new())),
            }
        },
        None => Ok((c1, String::new(), String::new())),
    }
}

/// The one implementation that the primary family generates: the plain
/// operator trait for the left type, with the user's body packaged as a
/// two-argument closure applied to the two operands.
pub open spec fn primary_text(
    generic_list: Seq<char>,
    where_block: Seq<char>,
    lhs_name: Seq<char>,
    lhs_type: Seq<char>,
    op: Operator,
    rhs_name: Seq<char>,
    rhs_type: Seq<char>,
    res_type: Seq<char>,
    func_body: Seq<char>,
) -> Seq<char> {
    "\nimpl"@ + generic_list + " "@ + spec_trait_name(op) + "<"@ + rhs_type + "> for "@ + lhs_type
        + " "@ + where_block + " {\n    type Output = "@ + res_type + ";\n    fn "@ + spec_op_name(
        op,
    ) + "(self, rhs: "@ + rhs_type + ") -> Self::Output {\n        (|"@ + lhs_name + ": "@
        + lhs_type + ", "@ + rhs_name + ": "@ + rhs_type + "| {\n            "@ + func_body
        + "\n        })(self,rhs)\n    } \n}"@
}

/// What primary generation returns on a whole token sequence: the parsed
/// fragments substituted into `primary_text`, or the error naming the first
/// missing mandatory construct, checked in the fixed order left operand,
/// right operand, operator, equals sign, result type, body.
pub open spec fn spec_derive_operator(ts: Seq<Token>) -> Result<Seq<char>, Seq<char>> {
    match spec_read_header(ts, 0) {
        Err(e) => Err(e),
        Ok((p0, gl, wb)) => {
            let (p1, lhs) = spec_read_var(ts, p0);
            let (p2, op) = spec_read_operator(ts, p1);
            let (p3, rhs) = spec_read_var(ts, p2);
            let (p4, eq) = spec_read_specific_punct(ts, p3, '=');
            let (p5, res) = spec_read_list(ts, p4, Delim::Paren);
            let (p6, body) = spec_read_list(ts, p5, Delim::Brace);
            if lhs is None {
                Err("Expected (lhs_name: lhs_type)"@)
            } else if rhs is None {
                Err("Expected (rhs_name: rhs_type)"@)
            } else if op is None {
                Err("Expected +-*/&^|"@)
            } else if eq is None {
                Err("Expected ="@)
            } else if res is None {
                Err("Expected res type"@)
            } else if body is None {
                Err("Expected func body"@)
            } else {
                Ok(
                    primary_text(
                        gl,
                        wb,
                        (lhs->0).0,
                        (lhs->0).1,
                        op->0,
                        (rhs->0).0,
                        (rhs->0).1,
                        res->0,
                        body->0,
                    ),
                )
            }
        },
    }
}

/// Generates the primary declaration family: one implementation of the plain
/// operator trait whose method runs the user-supplied body with the two
/// declared operand names bound. Returns the error naming the first missing
/// mandatory construct otherwise, producing no text.
pub fn derive_operator(tokens: &Vec<Token>) -> (r: Result<String, &'static str>)
    ensures
        (r is Ok) == (spec_derive_operator(tokens@) is Ok),
        r is Ok ==> r->Ok_0@ == spec_derive_operator(tokens@)->Ok_0,
        r is Err ==> r->Err_0@ == spec_derive_operator(tokens@)->Err_0,
{
    let c = Cursor::new(tokens);
    let (c, generic_list, where_block) = match read_header(c) {
        Ok(h) => h,
        Err(e) => {
            return Err(e);
        },
    };
    let (c, should_be_lhs_name_and_type) = read_var(c);
    let (c, should_be_op) = read_operator(c);
    let (c, should_be_rhs_name_and_type) = read_var(c);
    let (c, should_be_equal_sign) = read_specific_punct(c, '=');
    let (c, should_be_res_type) = read_list(c, Delim::Paren);
    let (_c, should_be_func_body) = read_list(c, Delim::Brace);

    let (lhs_name, lhs_type) = match should_be_lhs_name_and_type {
        Some(v) => v,
        None => {
            return Err("Expected (lhs_name: lhs_type)");
        },
    };
    let (rhs_name, rhs_type) = match should_be_rhs_name_and_type {
        Some(v) => v,
        None => {
            return Err("Expected (rhs_name: rhs_type)");
        },
    };
    let op = match should_be_op {
        Some(o) => o,
        None => {
            return Err("Expected +-*/&^|");
        },
    };
    match should_be_equal_sign {
        Some(_) => {},
        None => {
            return Err("Expected =");
        },
    }
    let res_type = match should_be_res_type {
        Some(v) => v,
        None => {
            return Err("Expected res type");
        },
    };
    let func_body = match should_be_func_body {
        Some(v) => v,
        None => {
            return Err("Expected func body");
        },
    };

    let trait_name = op.trait_name();
    let op_name = op.op_name();

    let mut out = String::new();
    out.append("\nimpl");
    out.append(generic_list.as_str());
    out.append(" ");
    out.append(trait_name.as_str());
    out.append("<");
    out.append(rhs_type.as_str());
    out.append("> for ");
    out.append(lhs_type.as_str());
    out.append(" ");
    out.append(where_block.as_str());
    out.append(" {\n    type Output = ");
    out.append(res_type.as_str());
    out.append(";\n    fn ");
    out.append(op_name.as_str());
    out.append("(self, rhs: ");
    out.append(rhs_type.as_str());
    out.append(") -> Self::Output {\n        (|");
    out.append(lhs_name.as_str());
    out.append(": ");
    out.append(lhs_type.as_str());
    out.append(", ");
    out.append(rhs_name.as_str());
    out.append(": ");
    out.append(rhs_type.as_str());
    out.append("| {\n            ");
    out.append(func_body.as_str());
    out.append("\n        })(self,rhs)\n    } \n}");
    proof {
        assert(out@ =~= primary_text(
            generic_list@,
            where_block@,
            lhs_name@,
            lhs_type@,
            op,
            rhs_name@,
            rhs_type@,
            res_type@,
            func_body@,
        ));
    }
    Ok(out)
}

/// The owned-by-owned implementation of the plain operator trait, delegating
/// to the by-reference form.
pub open spec fn finish_owned_owned(
    gl: Seq<char>,
    wb: Seq<char>,
    lt: Seq<char>,
    op: Operator,
    rt: Seq<char>,
    res: Seq<char>,
) -> Seq<char> {
    "\nimpl"@ + gl + " "@ + spec_trait_name(op) + "<"@ + rt + "> for "@ + lt + " "@ + wb
        + " {\n    type Output = "@ + res + ";\n    fn "@ + spec_op_name(op) + "(self, rhs: "@ + rt
        + ") -> Self::Output {\n        "@ + spec_trait_name(op) + "::"@ + spec_op_name(op)
        + "(&self, &rhs)\n    }\n}\n"@
}

/// The owned-by-reference implementation of the plain operator trait,
/// delegating to the by-reference form.
pub open spec fn finish_owned_ref(
    gl: Seq<char>,
    wb: Seq<char>,
    lt: Seq<char>,
    op: Operator,
    rt: Seq<char>,
    res: Seq<char>,
) -> Seq<char> {
    "\nimpl"@ + gl + " "@ + spec_trait_name(op) + "<&"@ + rt + "> for "@ + lt + " "@ + wb
        + " {\n    type Output = "@ + res + ";\n    fn "@ + spec_op_name(op) + "(self, rhs: &"@
        + rt + ") -> Self::Output {\n        "@ + spec_trait_name(op) + "::"@ + spec_op_name(op)
        + "(&self, rhs)\n    }\n}\n"@
}

/// The reference-by-owned implementation of the plain operator trait,
/// delegating to the by-reference form.
pub open spec fn finish_ref_owned(
    gl: Seq<char>,
    wb: Seq<char>,
    lt: Seq<char>,
    op: Operator,
    rt: Seq<char>,
    res: Seq<char>,
) -> Seq<char> {
    "\nimpl"@ + gl + " "@ + spec_trait_name(op) + "<"@ + rt + "> for &"@ + lt + " "@ + wb
        + " {\n    type Output = "@ + res + ";\n    fn "@ + spec_op_name(op) + "(self, rhs: "@ + rt
        + ") -> Self::Output {\n        "@ + spec_trait_name(op) + "::"@ + spec_op_name(op)
        + "(self, &rhs)\n    }\n}\n"@
}

/// The compound-assignment implementation taking an owned right operand,
/// overwriting the left operand with the by-reference form's result.
pub open spec fn finish_assign_owned(
    gl: Seq<char>,
    wb: Seq<char>,
    lt: Seq<char>,
    op: Operator,
    rt: Seq<char>,
) -> Seq<char> {
    "\nimpl"@ + gl + " "@ + spec_trait_assign_name(op) + "<"@ + rt + "> for "@ + lt + " "@ + wb
        + " {\n    fn "@ + spec_op_assign_name(op) + "(&mut self, rhs: "@ + rt
        + ") {\n        *self = "@ + spec_trait_name(op) + "::"@ + spec_op_name(op)
        + "(&*self, &rhs);\n    }\n}\n"@
}

/// The compound-assignment implementation taking a right operand by
/// reference, overwriting the left operand with the by-reference form's
/// result.
pub open spec fn finish_assign_ref(
    gl: Seq<char>,
    wb: Seq<char>,
    lt: Seq<char>,
    op: Operator,
    rt: Seq<char>,
) -> Seq<char> {
    "\nimpl"@ + gl + " "@ + spec_trait_assign_name(op) + "<&"@ + rt + "> for "@ + lt + " "@ + wb
        + " {\n    fn "@ + spec_op_assign_name(op) + "(&mut self, rhs: &"@ + rt
        + ") {\n        *self = "@ + spec_trait_name(op) + "::"@ + spec_op_name(op)
        + "(&*self, rhs);\n    }\n}\n"@
}

/// Everything the finishing family generates: the three remaining
/// value/reference combinations of the plain operator trait, then the two
/// compound-assignment implementations, all delegating to the presumed
/// by-reference implementation.
pub open spec fn finish_text(
    gl: Seq<char>,
    wb: Seq<char>,
    lt: Seq<char>,
    op: Operator,
    rt: Seq<char>,
    res: Seq<char>,
) -> Seq<char> {
    finish_owned_owned(gl, wb, lt, op, rt, res) + finish_owned_ref(gl, wb, lt, op, rt, res)
        + finish_ref_owned(gl, wb, lt, op, rt, res) + finish_assign_owned(gl, wb, lt, op, rt)
        + finish_assign_ref(gl, wb, lt, op, rt)
}

/// Renders the owned-by-owned implementation, as `finish_owned_owned` states
/// it.
fn emit_owned_owned(gl: &String, wb: &String, lt: &String, op: Operator, rt: &String, res: &String) -> (r:
    String)
    ensures
        r@ == finish_owned_owned(gl@, wb@, lt@, op, rt@, res@),
{
    let trait_name = op.trait_name();
    let op_name = op.op_name();
    let mut out = String::new();
    out.append("\nimpl");
    out.append(gl.as_str());
    out.append(" ");
    out.append(trait_name.as_str());
    out.append("<");
    out.append(rt.as_str());
    out.append("> for ");
    out.append(lt.as_str());
    out.append(" ");
    out.append(wb.as_str());
    out.append(" {\n    type Output = ");
    out.append(res.as_str());
    out.append(";\n    fn ");
    out.append(op_name.as_str());
    out.append("(self, rhs: ");
    out.append(rt.as_str());
    out.append(") -> Self::Output {\n        ");
    out.append(trait_name.as_str());
    out.append("::");
    out.append(op_name.as_str());
    out.append("(&self, &rhs)\n    }\n}\n");
    proof {
        assert(out@ =~= finish_owned_owned(gl@, wb@, lt@, op, rt@, res@));
    }
    out
}

/// Renders the owned-by-reference implementation, as `finish_owned_ref`
/// states it.
fn emit_owned_ref(gl: &String, wb: &String, lt: &String, op: Operator, rt: &String, res: &String) -> (r:
    String)
    ensures
        r@ == finish_owned_ref(gl@, wb@, lt@, op, rt@, res@),
{
    let trait_name = op.trait_name();
    let op_name = op.op_name();
    let mut out = String::new();
    out.append("\nimpl");
    out.append(gl.as_str());
    out.append(" ");
    out.append(trait_name.as_str());
    out.append("<&");
    out.append(rt.as_str());
    out.append("> for ");
    out.append(lt.as_str());
    out.append(" ");
    out.append(wb.as_str());
    out.append(" {\n    type Output = ");
    out.append(res.as_str());
    out.append(";\n    fn ");
    out.append(op_name.as_str());
    out.append("(self, rhs: &");
    out.append(rt.as_str());
    out.append(") -> Self::Output {\n        ");
    out.append(trait_name.as_str());
    out.append("::");
    out.append(op_name.as_str());
    out.append("(&self, rhs)\n    }\n}\n");
    proof {
        assert(out@ =~= finish_owned_ref(gl@, wb@, lt@, op, rt@, res@));
    }
    out
}

/// Renders the reference-by-owned implementation, as `finish_ref_owned`
/// states it.
fn emit_ref_owned(gl: &String, wb: &String, lt: &String, op: Operator, rt: &String, res: &String) -> (r:
    String)
    ensures
        r@ == finish_ref_owned(gl@, wb@, lt@, op, rt@, res@),
{
    let trait_name = op.trait_name();
    let op_name = op.op_name();
    let mut out = String::new();
    out.append("\nimpl");
    out.append(gl.as_str());
    out.append(" ");
    out.append(trait_name.as_str());
    out.append("<");
    out.append(rt.as_str());
    out.append("> for &");
    out.append(lt.as_str());
    out.append(" ");
    out.append(wb.as_str());
    out.append(" {\n    type Output = ");
    out.append(res.as_str());
    out.append(";\n    fn ");
    out.append(op_name.as_str());
    out.append("(self, rhs: ");
    out.append(rt.as_str());
    out.append(") -> Self::Output {\n        ");
    out.append(trait_name.as_str());
    out.append("::");
    out.append(op_name.as_str());
    out.append("(self, &rhs)\n    }\n}\n");
    proof {
        assert(out@ =~= finish_ref_owned(gl@, wb@, lt@, op, rt@, res@));
    }
    out
}

/// Renders the compound-assignment implementation for an owned right operand,
/// as `finish_assign_owned` states it.
fn emit_assign_owned(gl: &String, wb: &String, lt: &String, op: Operator, rt: &String) -> (r: String)
    ensures
        r@ == finish_assign_owned(gl@, wb@, lt@, op, rt@),
{
    let trait_name = op.trait_name();
    let op_name = op.op_name();
    let trait_assign_name = op.trait_assign_name();
    let op_assign_name = op.op_assign_name();
    let mut out = String::new();
    out.append("\nimpl");
    out.append(gl.as_str());
    out.append(" ");
    out.append(trait_assign_name.as_str());
    out.append("<");
    out.append(rt.as_str());
    out.append("> for ");
    out.append(lt.as_str());
    out.append(" ");
    out.append(wb.as_str());
    out.append(" {\n    fn ");
    out.append(op_assign_name.as_str());
    out.append("(&mut self, rhs: ");
    out.append(rt.as_str());
    out.append(") {\n        *self = ");
    out.append(trait_name.as_str());
    out.append("::");
    out.append(op_name.as_str());
    out.append("(&*self, &rhs);\n    }\n}\n");
    proof {
        assert(out@ =~= finish_assign_owned(gl@, wb@, lt@, op, rt@));
    }
    out
}

/// Renders the compound-assignment implementation for a right operand taken
/// by reference, as `finish_assign_ref` states it.
fn emit_assign_ref(gl: &String, wb: &String, lt: &String, op: Operator, rt: &String) -> (r: String)
    ensures
        r@ == finish_assign_ref(gl@, wb@, lt@, op, rt@),
{
    let trait_name = op.trait_name();
    let op_name = op.op_name();
    let trait_assign_name = op.trait_assign_name();
    let op_assign_name = op.op_assign_name();
    let mut out = String::new();
    out.append("\nimpl");
    out.append(gl.as_str());
    out.append(" ");
    out.append(trait_assign_name.as_str());
    out.append("<&");
    out.append(rt.as_str());
    out.append("> for ");
    out.append(lt.as_str());
    out.append(" ");
    out.append(wb.as_str());
    out.append(" {\n    fn ");
    out.append(op_assign_name.as_str());
    out.append("(&mut self, rhs: &");
    out.append(rt.as_str());
    out.append(") {\n        *self = ");
    out.append(trait_name.as_str());
    out.append("::");
    out.append(op_name.as_str());
    out.append("(&*self, rhs);\n    }\n}\n");
    proof {
        assert(out@ =~= finish_assign_ref(gl@, wb@, lt@, op, rt@));
    }
    out
}

/// What finishing generation returns on a whole token sequence: the parsed
/// fragments substituted into `finish_text`, or the error naming the first
/// missing mandatory construct, checked in the fixed order left type, right
/// type, operator, equals sign, result type.
pub open spec fn spec_finish_derive(ts: Seq<Token>) -> Result<Seq<char>, Seq<char>> {
    match spec_read_header(ts, 0) {
        Err(e) => Err(e),
        Ok((p0, gl, wb)) => {
            let (p1, lhs) = spec_read_list(ts, p0, Delim::Paren);
            let (p2, op) = spec_read_operator(ts, p1);
            let (p3, rhs) = spec_read_list(ts, p2, Delim::Paren);
            let (p4, eq) = spec_read_specific_punct(ts, p3, '=');
            let (p5, res) = spec_read_list(ts, p4, Delim::Paren);
            if lhs is None {
                Err("Expected (lhs_type)"@)
            } else if rhs is None {
                Err("Expected (rhs_type)"@)
            } else if op is None {
                Err("Expected +-*/&^|"@)
            } else if eq is None {
                Err("Expected ="@)
            } else if res is None {
                Err("Expected res type"@)
            } else {
                Ok(finish_text(gl, wb, lhs->0, op->0, rhs->0, res->0))
            }
        },
    }
}

/// Generates the finishing declaration family: given that the
/// reference-by-reference implementation of the operator already exists, the
/// three remaining value/reference combinations plus the two
/// compound-assignment implementations, every one delegating to that
/// reference form. Returns the error naming the first missing mandatory
/// construct otherwise, producing no text.
pub fn finish_derive(tokens: &Vec<Token>) -> (r: Result<String, &'static str>)
    ensures
        (r is Ok) == (spec_finish_derive(tokens@) is Ok),
        r is Ok ==> r->Ok_0@ == spec_finish_derive(tokens@)->Ok_0,
        r is Err ==> r->Err_0@ == spec_finish_derive(tokens@)->Err_0,
{
    let c = Cursor::new(tokens);
    let (c, generic_list, where_block) = match read_header(c) {
        Ok(h) => h,
        Err(e) => {
            return Err(e);
        },
    };
    let (c, should_be_lhs_type) = read_list(c, Delim::Paren);
    let (c, should_be_op) = read_operator(c);
    let (c, should_be_rhs_type) = read_list(c, Delim::Paren);
    let (c, should_be_equal_sign) = read_specific_punct(c, '=');
    let (_c, should_be_res_type) = read_list(c, Delim::Paren);

    let lhs_type = match should_be_lhs_type {
        Some(v) => v,
        None => {
            return Err("Expected (lhs_type)");
        },
    };
    let rhs_type = match should_be_rhs_type {
        Some(v) => v,
        None => {
            return Err("Expected (rhs_type)");
        },
    };
    let op = match should_be_op {
        Some(o) => o,
        None => {
            return Err("Expected +-*/&^|");
        },
    };
    match should_be_equal_sign {
        Some(_) => {},
        None => {
            return Err("Expected =");
        },
    }
    let res_type = match should_be_res_type {
        Some(v) => v,
        None => {
            return Err("Expected res type");
        },
    };

    let mut out = emit_owned_owned(
        &generic_list,
        &where_block,
        &lhs_type,
        op,
        &rhs_type,
        &res_type,
    );
    let b = emit_owned_ref(&generic_list, &where_block, &lhs_type, op, &rhs_type, &res_type);
    out.append(b.as_str());
    let b = emit_ref_owned(&generic_list, &where_block, &lhs_type, op, &rhs_type, &res_type);
    out.append(b.as_str());
    let b = emit_assign_owned(&generic_list, &where_block, &lhs_type, op, &rhs_type);
    out.append(b.as_str());
    let b = emit_assign_ref(&generic_list, &where_block, &lhs_type, op, &rhs_type);
    out.append(b.as_str());
    proof {
        assert(out@ =~= finish_text(
            generic_list@,
            where_block@,
            lhs_type@,
            op,
            rhs_type@,
            res_type@,
        ));
    }
    Ok(out)
}

/// When primary generation reaches the equals-sign position with both
/// operands and the operator present but no `=` standing there, it fails with
/// the message naming `=`, and produces no text.
pub proof fn lemma_primary_missing_equals(ts: Seq<Token>)
    requires
        spec_read_header(ts, 0) is Ok,
        ({
            let p0 = (spec_read_header(ts, 0)->Ok_0).0;
            let (p1, lhs) = spec_read_var(ts, p0);
            let (p2, op) = spec_read_operator(ts, p1);
            let (p3, rhs) = spec_read_var(ts, p2);
            &&& lhs is Some
            &&& op is Some
            &&& rhs is Some
            &&& spec_read_specific_punct(ts, p3, '=').1 is None
        }),
    ensures
        spec_derive_operator(ts) == Err::<Seq<char>, Seq<char>>("Expected ="@),
{
}

/// When finishing generation reaches the equals-sign position with both types
/// and the operator present but no `=` standing there, it fails with the
/// message naming `=`, and produces no text.
pub proof fn lemma_finish_missing_equals(ts: Seq<Token>)
    requires
        spec_read_header(ts, 0) is Ok,
        ({
            let p0 = (spec_read_header(ts, 0)->Ok_0).0;
            let (p1, lhs) = spec_read_list(ts, p0, Delim::Paren);
            let (p2, op) = spec_read_operator(ts, p1);
            let (p3, rhs) = spec_read_list(ts, p2, Delim::Paren);
            &&& lhs is Some
            &&& op is Some
            &&& rhs is Some
            &&& spec_read_specific_punct(ts, p3, '=').1 is None
        }),
    ensures
        spec_finish_derive(ts) == Err::<Seq<char>, Seq<char>>("Expected ="@),
{
}

/// A `where` identifier after the generic list with no bracketed constraint
/// list following it makes both families fail with the message naming the
/// missing where block; `where` is never silently treated as absent.
pub proof fn lemma_where_without_block(ts: Seq<Token>)
    requires
        ({
            let (p1, gl) = spec_read_list(ts, 0, Delim::Bracket);
            let (p2, w) = spec_read_specific_identifier(ts, p1, "where"@);
            &&& gl is Some
            &&& w is Some
            &&& spec_read_list(ts, p2, Delim::Bracket).1 is None
        }),
    ensures
        spec_derive_operator(ts) == Err::<Seq<char>, Seq<char>>(
            "Expected a where block after \"where\""@,
        ),
        spec_finish_derive(ts) == Err::<Seq<char>, Seq<char>>(
            "Expected a where block after \"where\""@,
        ),
{
}

} // verus!
