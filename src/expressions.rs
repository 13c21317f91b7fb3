//! Literals and expressions: basic literals, set literals, array literals,
//! and the two expression sublanguages.
use vstd::prelude::*;
use vstd::string::StringSliceAdditionalSpecFns;

use crate::error::{furthest_error, or_else, ParseError, SpecResult};
use crate::lexical::{
    agrees, agrees_list, bool_literal, byte_len, ascii_char, float_literal, float_literal_parser, int_list, int_literal,
    int_literal_parser, lemma_views_push, sep_list, sep_tail, spec_bool_literal, spec_char,
    spec_float_literal, spec_int_literal, spec_tag, spec_var_par_identifier, tag,
    var_par_identifier, views, Float, SpecParser,
};

verus! {

/// A set literal.
#[derive(Clone, Debug, PartialEq)]
pub enum SetLiteral {
    IntRange(i128, i128),
    FloatRange(Float, Float),
    SetFloats(Vec<Float>),
    /// An enumerated set of integers, possibly empty.
    SetInts(Vec<i128>),
}

pub enum SpecSetLiteral {
    IntRange(i128, i128),
    FloatRange(Float, Float),
    SetFloats(Seq<Float>),
    SetInts(Seq<i128>),
}

impl View for SetLiteral {
    type V = SpecSetLiteral;

    open spec fn view(&self) -> SpecSetLiteral {
        match self {
            SetLiteral::IntRange(a, b) => SpecSetLiteral::IntRange(*a, *b),
            SetLiteral::FloatRange(a, b) => SpecSetLiteral::FloatRange(*a, *b),
            SetLiteral::SetFloats(v) => SpecSetLiteral::SetFloats(views(v@)),
            SetLiteral::SetInts(v) => SpecSetLiteral::SetInts(views(v@)),
        }
    }
}

/// A literal of a basic type.
#[derive(Clone, Debug, PartialEq)]
pub enum BasicLiteralExpr {
    BoolLiteral(bool),
    IntLiteral(i128),
    FloatLiteral(Float),
    SetLiteral(SetLiteral),
}

pub enum SpecBasicLiteralExpr {
    BoolLiteral(bool),
    IntLiteral(i128),
    FloatLiteral(Float),
    SetLiteral(SpecSetLiteral),
}

impl View for BasicLiteralExpr {
    type V = SpecBasicLiteralExpr;

    open spec fn view(&self) -> SpecBasicLiteralExpr {
        match self {
            BasicLiteralExpr::BoolLiteral(b) => SpecBasicLiteralExpr::BoolLiteral(*b),
            BasicLiteralExpr::IntLiteral(i) => SpecBasicLiteralExpr::IntLiteral(*i),
            BasicLiteralExpr::FloatLiteral(f) => SpecBasicLiteralExpr::FloatLiteral(*f),
            BasicLiteralExpr::SetLiteral(s) => SpecBasicLiteralExpr::SetLiteral(s@),
        }
    }
}

/// A basic literal or a reference to a variable or parameter.
#[derive(Clone, Debug, PartialEq)]
pub enum BasicExpr {
    BasicLiteralExpr(BasicLiteralExpr),
    VarParIdentifier(String),
}

pub enum SpecBasicExpr {
    BasicLiteralExpr(SpecBasicLiteralExpr),
    VarParIdentifier(Seq<char>),
}

impl View for BasicExpr {
    type V = SpecBasicExpr;

    open spec fn view(&self) -> SpecBasicExpr {
        match self {
            BasicExpr::BasicLiteralExpr(l) => SpecBasicExpr::BasicLiteralExpr(l@),
            BasicExpr::VarParIdentifier(s) => SpecBasicExpr::VarParIdentifier(s@),
        }
    }
}

/// A general expression: a basic expression or an array literal of them.
#[derive(Clone, Debug, PartialEq)]
pub enum Expr {
    BasicExpr(BasicExpr),
    ArrayLiteral(Vec<BasicExpr>),
}

pub enum SpecExpr {
    BasicExpr(SpecBasicExpr),
    ArrayLiteral(Seq<SpecBasicExpr>),
}

impl View for Expr {
    type V = SpecExpr;

    open spec fn view(&self) -> SpecExpr {
        match self {
            Expr::BasicExpr(e) => SpecExpr::BasicExpr(e@),
            Expr::ArrayLiteral(v) => SpecExpr::ArrayLiteral(views(v@)),
        }
    }
}

/// The value of a parameter: literals only, no references.
#[derive(Clone, Debug, PartialEq)]
pub enum ParExpr {
    BasicLiteralExpr(BasicLiteralExpr),
    ParArrayLiteral(Vec<BasicLiteralExpr>),
}

pub enum SpecParExpr {
    BasicLiteralExpr(SpecBasicLiteralExpr),
    ParArrayLiteral(Seq<SpecBasicLiteralExpr>),
}

impl View for ParExpr {
    type V = SpecParExpr;

    open spec fn view(&self) -> SpecParExpr {
        match self {
            ParExpr::BasicLiteralExpr(l) => SpecParExpr::BasicLiteralExpr(l@),
            ParExpr::ParArrayLiteral(v) => SpecParExpr::ParArrayLiteral(views(v@)),
        }
    }
}

// ---------------------------------------------------------------------------
// Set literals.

/// `lb..ub` with integer bounds.
pub open spec fn spec_sl_int_range(s: Seq<u8>) -> SpecResult<SpecSetLiteral> {
    match spec_int_literal(s) {
        Err(e) => Err(e),
        Ok((lb, s)) => match spec_tag(s, "..".spec_bytes()) {
            Err(e) => Err(e),
            Ok((_, s)) => match spec_int_literal(s) {
                Err(e) => Err(e),
                Ok((ub, s)) => Ok((SpecSetLiteral::IntRange(lb, ub), s)),
            },
        },
    }
}

/// Recognizes an integer range set literal.
pub fn sl_int_range(input: &str) -> (r: Result<(&str, SetLiteral), ParseError>)
    ensures
        agrees(r, spec_sl_int_range(input.spec_bytes())),
{
    let (input, lb) = match int_literal(input) { Ok(q) => q, Err(e) => return Err(e) };
    let (input, _) = match tag(input, "..") { Ok(q) => q, Err(e) => return Err(e) };
    let (input, ub) = match int_literal(input) { Ok(q) => q, Err(e) => return Err(e) };
    Ok((input, SetLiteral::IntRange(lb, ub)))
}

/// `lb..ub` with floating-point bounds.
pub open spec fn spec_sl_float_range(s: Seq<u8>) -> SpecResult<SpecSetLiteral> {
    match spec_float_literal(s) {
        Err(e) => Err(e),
        Ok((lb, s)) => match spec_tag(s, "..".spec_bytes()) {
            Err(e) => Err(e),
            Ok((_, s)) => match spec_float_literal(s) {
                Err(e) => Err(e),
                Ok((ub, s)) => Ok((SpecSetLiteral::FloatRange(lb, ub), s)),
            },
        },
    }
}

/// Recognizes a floating-point range set literal.
pub fn sl_float_range(input: &str) -> (r: Result<(&str, SetLiteral), ParseError>)
    ensures
        agrees(r, spec_sl_float_range(input.spec_bytes())),
{
    let (input, lb) = match float_literal(input) { Ok(q) => q, Err(e) => return Err(e) };
    let (input, _) = match tag(input, "..") { Ok(q) => q, Err(e) => return Err(e) };
    let (input, ub) = match float_literal(input) { Ok(q) => q, Err(e) => return Err(e) };
    Ok((input, SetLiteral::FloatRange(lb, ub)))
}

/// Zero or more floating-point literals separated by commas.
fn float_list(input: &str) -> (r: (&str, Vec<Float>))
    ensures
        r.0.spec_bytes() == sep_list(float_literal_parser(), input.spec_bytes()).1,
        views(r.1@) == sep_list(float_literal_parser(), input.spec_bytes()).0,
{
    let ghost p = float_literal_parser();
    let mut v: Vec<Float> = Vec::new();
    let (mut cur, x) = match float_literal(input) {
        Err(_) => {
            assert(views(v@) =~= Seq::<Float>::empty());
            return (input, v);
        },
        Ok(q) => q,
    };
    v.push(x);
    assert(views(v@) =~= seq![x]);
    loop
        invariant
            sep_tail(p, cur.spec_bytes(), views(v@)) == sep_list(p, input.spec_bytes()),
            p == float_literal_parser(),
        decreases cur.spec_bytes().len(),
    {
        let cur1 = match ascii_char(cur, 0x2c) {
            Err(_) => return (cur, v),
            Ok((c, _)) => c,
        };
        let (cur2, x) = match float_literal(cur1) {
            Err(_) => return (cur, v),
            Ok(q) => q,
        };
        if byte_len(cur2) >= byte_len(cur) {
            return (cur, v);
        }
        proof {
            lemma_views_push(v@, x);
        }
        v.push(x);
        cur = cur2;
    }
}

/// `{f1,f2,...}` with floating-point elements.
pub open spec fn spec_sl_set_of_floats(s: Seq<u8>) -> SpecResult<SpecSetLiteral> {
    match spec_tag(s, "{".spec_bytes()) {
        Err(e) => Err(e),
        Ok((_, s)) => {
            let (v, s) = sep_list(float_literal_parser(), s);
            match spec_tag(s, "}".spec_bytes()) {
                Err(e) => Err(e),
                Ok((_, s)) => Ok((SpecSetLiteral::SetFloats(v), s)),
            }
        },
    }
}

/// Recognizes an enumerated set of floating-point literals.
pub fn sl_set_of_floats(input: &str) -> (r: Result<(&str, SetLiteral), ParseError>)
    ensures
        agrees(r, spec_sl_set_of_floats(input.spec_bytes())),
{
    let (input, _) = match tag(input, "{") { Ok(q) => q, Err(e) => return Err(e) };
    let (input, v) = float_list(input);
    let (input, _) = match tag(input, "}") { Ok(q) => q, Err(e) => return Err(e) };
    Ok((input, SetLiteral::SetFloats(v)))
}

/// `{e1,e2,...}` with integer elements.
pub open spec fn spec_sl_set_of_ints(s: Seq<u8>) -> SpecResult<SpecSetLiteral> {
    match spec_char(s, 0x7b) {
        Err(e) => Err(e),
        Ok((_, s)) => {
            let (v, s) = sep_list(int_literal_parser(), s);
            match spec_char(s, 0x7d) {
                Err(e) => Err(e),
                Ok((_, s)) => Ok((SpecSetLiteral::SetInts(v), s)),
            }
        },
    }
}

/// Recognizes an enumerated set of integer literals.
pub fn sl_set_of_ints(input: &str) -> (r: Result<(&str, SetLiteral), ParseError>)
    ensures
        agrees(r, spec_sl_set_of_ints(input.spec_bytes())),
{
    let (input, _) = match ascii_char(input, 0x7b) { Ok(q) => q, Err(e) => return Err(e) };
    let (input, v) = int_list(input);
    let (input, _) = match ascii_char(input, 0x7d) { Ok(q) => q, Err(e) => return Err(e) };
    Ok((input, SetLiteral::SetInts(v)))
}

/// A set literal; tried in this order: integer range, floating-point range,
/// floating-point enumeration, integer enumeration.
pub open spec fn spec_set_literal(s: Seq<u8>) -> SpecResult<SpecSetLiteral> {
    or_else(spec_sl_int_range(s), or_else(spec_sl_float_range(s), or_else(spec_sl_set_of_floats(s), spec_sl_set_of_ints(s))))
}

/// Recognizes a set literal.
pub fn set_literal(input: &str) -> (r: Result<(&str, SetLiteral), ParseError>)
    ensures
        agrees(r, spec_set_literal(input.spec_bytes())),
{
    match sl_int_range(input) {
        Ok(q) => Ok(q),
        Err(e1) => match sl_float_range(input) {
            Ok(q) => Ok(q),
            Err(e2) => match sl_set_of_floats(input) {
                Ok(q) => Ok(q),
                Err(e3) => match sl_set_of_ints(input) {
                    Ok(q) => Ok(q),
                    Err(e4) => Err(furthest_error(e1, furthest_error(e2, furthest_error(e3, e4)))),
                },
            },
        },
    }
}

// ---------------------------------------------------------------------------
// Basic literals and expressions.


/// A boolean literal as a basic literal.
pub open spec fn spec_ble_bool_literal(s: Seq<u8>) -> SpecResult<SpecBasicLiteralExpr> {
    match spec_bool_literal(s) {
        Ok((x, r)) => Ok((SpecBasicLiteralExpr::BoolLiteral(x), r)),
        Err(e) => Err(e),
    }
}

/// Recognizes a boolean literal as a basic literal.
pub fn ble_bool_literal(input: &str) -> (r: Result<(&str, BasicLiteralExpr), ParseError>)
    ensures
        agrees(r, spec_ble_bool_literal(input.spec_bytes())),
{
    match bool_literal(input) {
        Ok((rest, x)) => Ok((rest, BasicLiteralExpr::BoolLiteral(x))),
        Err(e) => Err(e),
    }
}

/// An integer literal as a basic literal.
pub open spec fn spec_ble_int_literal(s: Seq<u8>) -> SpecResult<SpecBasicLiteralExpr> {
    match spec_int_literal(s) {
        Ok((x, r)) => Ok((SpecBasicLiteralExpr::IntLiteral(x), r)),
        Err(e) => Err(e),
    }
}

/// Recognizes an integer literal as a basic literal.
pub fn ble_int_literal(input: &str) -> (r: Result<(&str, BasicLiteralExpr), ParseError>)
    ensures
        agrees(r, spec_ble_int_literal(input.spec_bytes())),
{
    match int_literal(input) {
        Ok((rest, x)) => Ok((rest, BasicLiteralExpr::IntLiteral(x))),
        Err(e) => Err(e),
    }
}

/// A floating-point literal as a basic literal.
pub open spec fn spec_ble_float_literal(s: Seq<u8>) -> SpecResult<SpecBasicLiteralExpr> {
    match spec_float_literal(s) {
        Ok((x, r)) => Ok((SpecBasicLiteralExpr::FloatLiteral(x), r)),
        Err(e) => Err(e),
    }
}

/// Recognizes a floating-point literal as a basic literal.
pub fn ble_float_literal(input: &str) -> (r: Result<(&str, BasicLiteralExpr), ParseError>)
    ensures
        agrees(r, spec_ble_float_literal(input.spec_bytes())),
{
    match float_literal(input) {
        Ok((rest, x)) => Ok((rest, BasicLiteralExpr::FloatLiteral(x))),
        Err(e) => Err(e),
    }
}

/// A set literal as a basic literal.
pub open spec fn spec_ble_set_literal(s: Seq<u8>) -> SpecResult<SpecBasicLiteralExpr> {
    match spec_set_literal(s) {
        Ok((x, r)) => Ok((SpecBasicLiteralExpr::SetLiteral(x), r)),
        Err(e) => Err(e),
    }
}

/// Recognizes a set literal as a basic literal.
pub fn ble_set_literal(input: &str) -> (r: Result<(&str, BasicLiteralExpr), ParseError>)
    ensures
        agrees(r, spec_ble_set_literal(input.spec_bytes())),
{
    match set_literal(input) {
        Ok((rest, x)) => Ok((rest, BasicLiteralExpr::SetLiteral(x))),
        Err(e) => Err(e),
    }
}

/// A boolean, integer, floating-point or set literal, tried in that order.
pub open spec fn spec_basic_literal_expr(s: Seq<u8>) -> SpecResult<SpecBasicLiteralExpr> {
    or_else(spec_ble_bool_literal(s), or_else(spec_ble_int_literal(s), or_else(spec_ble_float_literal(s), spec_ble_set_literal(s))))
}

/// Recognizes a basic literal.
pub fn basic_literal_expr(input: &str) -> (r: Result<(&str, BasicLiteralExpr), ParseError>)
    ensures
        agrees(r, spec_basic_literal_expr(input.spec_bytes())),
{
    match ble_bool_literal(input) {
        Ok(q) => Ok(q),
        Err(e1) => match ble_int_literal(input) {
            Ok(q) => Ok(q),
            Err(e2) => match ble_float_literal(input) {
                Ok(q) => Ok(q),
                Err(e3) => match ble_set_literal(input) {
                    Ok(q) => Ok(q),
                    Err(e4) => Err(furthest_error(e1, furthest_error(e2, furthest_error(e3, e4)))),
                },
            },
        },
    }
}


/// A basic literal as a basic expression.
pub open spec fn spec_be_basic_literal_expr(s: Seq<u8>) -> SpecResult<SpecBasicExpr> {
    match spec_basic_literal_expr(s) {
        Ok((x, r)) => Ok((SpecBasicExpr::BasicLiteralExpr(x), r)),
        Err(e) => Err(e),
    }
}

/// Recognizes a basic literal as a basic expression.
pub fn be_basic_literal_expr(input: &str) -> (r: Result<(&str, BasicExpr), ParseError>)
    ensures
        agrees(r, spec_be_basic_literal_expr(input.spec_bytes())),
{
    match basic_literal_expr(input) {
        Ok((rest, x)) => Ok((rest, BasicExpr::BasicLiteralExpr(x))),
        Err(e) => Err(e),
    }
}

/// A variable or parameter identifier as a basic expression.
pub open spec fn spec_be_var_par_identifier(s: Seq<u8>) -> SpecResult<SpecBasicExpr> {
    match spec_var_par_identifier(s) {
        Ok((x, r)) => Ok((SpecBasicExpr::VarParIdentifier(x), r)),
        Err(e) => Err(e),
    }
}

/// Recognizes a variable or parameter identifier as a basic expression.
pub fn be_var_par_identifier(input: &str) -> (r: Result<(&str, BasicExpr), ParseError>)
    ensures
        agrees(r, spec_be_var_par_identifier(input.spec_bytes())),
{
    match var_par_identifier(input) {
        Ok((rest, x)) => Ok((rest, BasicExpr::VarParIdentifier(x))),
        Err(e) => Err(e),
    }
}

/// A basic literal, else a variable or parameter identifier.
pub open spec fn spec_basic_expr(s: Seq<u8>) -> SpecResult<SpecBasicExpr> {
    or_else(spec_be_basic_literal_expr(s), spec_be_var_par_identifier(s))
}

/// Recognizes a basic expression.
pub fn basic_expr(input: &str) -> (r: Result<(&str, BasicExpr), ParseError>)
    ensures
        agrees(r, spec_basic_expr(input.spec_bytes())),
{
    match be_basic_literal_expr(input) {
        Ok(q) => Ok(q),
        Err(e1) => match be_var_par_identifier(input) {
            Ok(q) => Ok(q),
            Err(e2) => Err(furthest_error(e1, e2)),
        },
    }
}

// ---------------------------------------------------------------------------
// Array literals.

pub open spec fn basic_expr_parser() -> SpecParser<SpecBasicExpr> {
    |s: Seq<u8>| spec_basic_expr(s)
}

pub open spec fn basic_literal_expr_parser() -> SpecParser<SpecBasicLiteralExpr> {
    |s: Seq<u8>| spec_basic_literal_expr(s)
}

/// Zero or more basic expressions separated by commas.
fn basic_expr_list(input: &str) -> (r: (&str, Vec<BasicExpr>))
    ensures
        r.0.spec_bytes() == sep_list(basic_expr_parser(), input.spec_bytes()).1,
        views(r.1@) == sep_list(basic_expr_parser(), input.spec_bytes()).0,
{
    let ghost p = basic_expr_parser();
    let mut v: Vec<BasicExpr> = Vec::new();
    let (mut cur, x) = match basic_expr(input) {
        Err(_) => {
            assert(views(v@) =~= Seq::<SpecBasicExpr>::empty());
            return (input, v);
        },
        Ok(q) => q,
    };
    assert(views(seq![x]) =~= seq![x@]);
    v.push(x);
    assert(v@ =~= seq![x]);
    loop
        invariant
            sep_tail(p, cur.spec_bytes(), views(v@)) == sep_list(p, input.spec_bytes()),
            p == basic_expr_parser(),
        decreases cur.spec_bytes().len(),
    {
        let cur1 = match ascii_char(cur, 0x2c) {
            Err(_) => return (cur, v),
            Ok((c, _)) => c,
        };
        let (cur2, x) = match basic_expr(cur1) {
            Err(_) => return (cur, v),
            Ok(q) => q,
        };
        if byte_len(cur2) >= byte_len(cur) {
            return (cur, v);
        }
        proof {
            lemma_views_push(v@, x);
        }
        v.push(x);
        cur = cur2;
    }
}

/// Zero or more basic literals separated by commas.
fn basic_literal_expr_list(input: &str) -> (r: (&str, Vec<BasicLiteralExpr>))
    ensures
        r.0.spec_bytes() == sep_list(basic_literal_expr_parser(), input.spec_bytes()).1,
        views(r.1@) == sep_list(basic_literal_expr_parser(), input.spec_bytes()).0,
{
    let ghost p = basic_literal_expr_parser();
    let mut v: Vec<BasicLiteralExpr> = Vec::new();
    let (mut cur, x) = match basic_literal_expr(input) {
        Err(_) => {
            assert(views(v@) =~= Seq::<SpecBasicLiteralExpr>::empty());
            return (input, v);
        },
        Ok(q) => q,
    };
    assert(views(seq![x]) =~= seq![x@]);
    v.push(x);
    assert(v@ =~= seq![x]);
    loop
        invariant
            sep_tail(p, cur.spec_bytes(), views(v@)) == sep_list(p, input.spec_bytes()),
            p == basic_literal_expr_parser(),
        decreases cur.spec_bytes().len(),
    {
        let cur1 = match ascii_char(cur, 0x2c) {
            Err(_) => return (cur, v),
            Ok((c, _)) => c,
        };
        let (cur2, x) = match basic_literal_expr(cur1) {
            Err(_) => return (cur, v),
            Ok(q) => q,
        };
        if byte_len(cur2) >= byte_len(cur) {
            return (cur, v);
        }
        proof {
            lemma_views_push(v@, x);
        }
        v.push(x);
        cur = cur2;
    }
}

/// `[e1,e2,...]` with basic expressions.
pub open spec fn spec_array_literal(s: Seq<u8>) -> SpecResult<Seq<SpecBasicExpr>> {
    match spec_char(s, 0x5b) {
        Err(e) => Err(e),
        Ok((_, s)) => {
            let (v, s) = sep_list(basic_expr_parser(), s);
            match spec_char(s, 0x5d) {
                Err(e) => Err(e),
                Ok((_, s)) => Ok((v, s)),
            }
        },
    }
}

/// Recognizes an array literal of basic expressions.
pub fn array_literal(input: &str) -> (r: Result<(&str, Vec<BasicExpr>), ParseError>)
    ensures
        agrees_list(r, spec_array_literal(input.spec_bytes())),
{
    let (input, _) = match ascii_char(input, 0x5b) { Ok(q) => q, Err(e) => return Err(e) };
    let (input, v) = basic_expr_list(input);
    let (input, _) = match ascii_char(input, 0x5d) { Ok(q) => q, Err(e) => return Err(e) };
    Ok((input, v))
}

/// `[l1,l2,...]` with basic literals only.
pub open spec fn spec_par_array_literal(s: Seq<u8>) -> SpecResult<Seq<SpecBasicLiteralExpr>> {
    match spec_char(s, 0x5b) {
        Err(e) => Err(e),
        Ok((_, s)) => {
            let (v, s) = sep_list(basic_literal_expr_parser(), s);
            match spec_char(s, 0x5d) {
                Err(e) => Err(e),
                Ok((_, s)) => Ok((v, s)),
            }
        },
    }
}

/// Recognizes an array literal of basic literals.
pub fn par_array_literal(input: &str) -> (r: Result<(&str, Vec<BasicLiteralExpr>), ParseError>)
    ensures
        agrees_list(r, spec_par_array_literal(input.spec_bytes())),
{
    let (input, _) = match ascii_char(input, 0x5b) { Ok(q) => q, Err(e) => return Err(e) };
    let (input, v) = basic_literal_expr_list(input);
    let (input, _) = match ascii_char(input, 0x5d) { Ok(q) => q, Err(e) => return Err(e) };
    Ok((input, v))
}

// ---------------------------------------------------------------------------
// Expressions.


/// A basic expression as a general expression.
pub open spec fn spec_e_basic_expr(s: Seq<u8>) -> SpecResult<SpecExpr> {
    match spec_basic_expr(s) {
        Ok((x, r)) => Ok((SpecExpr::BasicExpr(x), r)),
        Err(e) => Err(e),
    }
}

/// Recognizes a basic expression as a general expression.
pub fn e_basic_expr(input: &str) -> (r: Result<(&str, Expr), ParseError>)
    ensures
        agrees(r, spec_e_basic_expr(input.spec_bytes())),
{
    match basic_expr(input) {
        Ok((rest, x)) => Ok((rest, Expr::BasicExpr(x))),
        Err(e) => Err(e),
    }
}

/// An array literal as a general expression.
pub open spec fn spec_e_array_literal(s: Seq<u8>) -> SpecResult<SpecExpr> {
    match spec_array_literal(s) {
        Ok((x, r)) => Ok((SpecExpr::ArrayLiteral(x), r)),
        Err(e) => Err(e),
    }
}

/// Recognizes an array literal as a general expression.
pub fn e_array_literal(input: &str) -> (r: Result<(&str, Expr), ParseError>)
    ensures
        agrees(r, spec_e_array_literal(input.spec_bytes())),
{
    match array_literal(input) {
        Ok((rest, x)) => Ok((rest, Expr::ArrayLiteral(x))),
        Err(e) => Err(e),
    }
}

/// A basic literal as the value of a parameter.
pub open spec fn spec_pe_basic_literal_expr(s: Seq<u8>) -> SpecResult<SpecParExpr> {
    match spec_basic_literal_expr(s) {
        Ok((x, r)) => Ok((SpecParExpr::BasicLiteralExpr(x), r)),
        Err(e) => Err(e),
    }
}

/// Recognizes a basic literal as the value of a parameter.
pub fn pe_basic_literal_expr(input: &str) -> (r: Result<(&str, ParExpr), ParseError>)
    ensures
        agrees(r, spec_pe_basic_literal_expr(input.spec_bytes())),
{
    match basic_literal_expr(input) {
        Ok((rest, x)) => Ok((rest, ParExpr::BasicLiteralExpr(x))),
        Err(e) => Err(e),
    }
}

/// An array literal of basic literals as the value of a parameter.
pub open spec fn spec_pe_par_array_literal(s: Seq<u8>) -> SpecResult<SpecParExpr> {
    match spec_par_array_literal(s) {
        Ok((x, r)) => Ok((SpecParExpr::ParArrayLiteral(x), r)),
        Err(e) => Err(e),
    }
}

/// Recognizes an array literal of basic literals as the value of a parameter.
pub fn pe_par_array_literal(input: &str) -> (r: Result<(&str, ParExpr), ParseError>)
    ensures
        agrees(r, spec_pe_par_array_literal(input.spec_bytes())),
{
    match par_array_literal(input) {
        Ok((rest, x)) => Ok((rest, ParExpr::ParArrayLiteral(x))),
        Err(e) => Err(e),
    }
}

/// A basic expression, else an array literal.
pub open spec fn spec_expr(s: Seq<u8>) -> SpecResult<SpecExpr> {
    or_else(spec_e_basic_expr(s), spec_e_array_literal(s))
}

/// Recognizes a general expression.
pub fn expr(input: &str) -> (r: Result<(&str, Expr), ParseError>)
    ensures
        agrees(r, spec_expr(input.spec_bytes())),
{
    match e_basic_expr(input) {
        Ok(q) => Ok(q),
        Err(e1) => match e_array_literal(input) {
            Ok(q) => Ok(q),
            Err(e2) => Err(furthest_error(e1, e2)),
        },
    }
}

/// A basic literal, else an array literal of basic literals.
pub open spec fn spec_par_expr(s: Seq<u8>) -> SpecResult<SpecParExpr> {
    or_else(spec_pe_basic_literal_expr(s), spec_pe_par_array_literal(s))
}

/// Recognizes the value of a parameter.
pub fn par_expr(input: &str) -> (r: Result<(&str, ParExpr), ParseError>)
    ensures
        agrees(r, spec_par_expr(input.spec_bytes())),
{
    match pe_basic_literal_expr(input) {
        Ok(q) => Ok(q),
        Err(e1) => match pe_par_array_literal(input) {
            Ok(q) => Ok(q),
            Err(e2) => Err(furthest_error(e1, e2)),
        },
    }
}

} // verus!
