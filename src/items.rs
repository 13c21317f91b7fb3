//! Declarations, constraint and solve items, annotations, and the model.
use vstd::prelude::*;
use vstd::string::StringSliceAdditionalSpecFns;

use crate::error::{furthest_error, or_else, ParseError, SpecResult};
use crate::expressions::{
    array_literal, basic_expr, expr, par_expr, spec_array_literal, spec_basic_expr, spec_expr,
    spec_par_expr, BasicExpr, Expr, ParExpr, SpecBasicExpr, SpecExpr, SpecParExpr,
};
use crate::lexical::{
    agrees, agrees_list, byte_len, ascii_char, identifier, lemma_views_push, many_tail, sep_list,
    sep_tail, space0, space1, spec_char, spec_identifier, spec_space0, spec_space1, spec_tag,
    spec_var_par_identifier, tag, var_par_identifier, views, SpecParser,
};
use crate::types::{
    array_var_type, basic_var_type, par_type, pred_param_type, spec_array_var_type,
    spec_basic_var_type, spec_par_type, spec_pred_param_type, ArrayVarType, BasicVarType, ParType,
    PredParamType, SpecArrayVarType, SpecBasicVarType, SpecPredParamType,
};

verus! {

/// A predicate declaration: its name and its typed parameters.
#[derive(Clone, Debug, PartialEq)]
pub struct PredicateItem {
    pub ident: String,
    pub parameters: Vec<(PredParamType, String)>,
}

pub struct SpecPredicateItem {
    pub ident: Seq<char>,
    pub parameters: Seq<(SpecPredParamType, Seq<char>)>,
}

impl View for PredicateItem {
    type V = SpecPredicateItem;

    open spec fn view(&self) -> SpecPredicateItem {
        SpecPredicateItem { ident: self.ident@, parameters: views(self.parameters@) }
    }
}

/// A parameter declaration: its type, its name and its value.
#[derive(Clone, Debug, PartialEq)]
pub struct ParDeclItem {
    pub parameter_type: ParType,
    pub identifier: String,
    pub expr: ParExpr,
}

pub struct SpecParDeclItem {
    pub parameter_type: ParType,
    pub identifier: Seq<char>,
    pub expr: SpecParExpr,
}

impl View for ParDeclItem {
    type V = SpecParDeclItem;

    open spec fn view(&self) -> SpecParDeclItem {
        SpecParDeclItem {
            parameter_type: self.parameter_type,
            identifier: self.identifier@,
            expr: self.expr@,
        }
    }
}

/// A variable declaration, scalar or array.
#[derive(Clone, Debug, PartialEq)]
pub enum VarDeclItem {
    Basic(BasicVarType, String, Vec<String>, Option<BasicExpr>),
    Array(ArrayVarType, String, Vec<String>, Vec<BasicExpr>),
}

pub enum SpecVarDeclItem {
    Basic(SpecBasicVarType, Seq<char>, Seq<Seq<char>>, Option<SpecBasicExpr>),
    Array(SpecArrayVarType, Seq<char>, Seq<Seq<char>>, Seq<SpecBasicExpr>),
}

pub open spec fn option_view(o: Option<BasicExpr>) -> Option<SpecBasicExpr> {
    match o {
        Some(e) => Some(e@),
        None => None,
    }
}

impl View for VarDeclItem {
    type V = SpecVarDeclItem;

    open spec fn view(&self) -> SpecVarDeclItem {
        match self {
            VarDeclItem::Basic(t, id, annos, e) => SpecVarDeclItem::Basic(
                t@,
                id@,
                views(annos@),
                option_view(*e),
            ),
            VarDeclItem::Array(t, id, annos, v) => SpecVarDeclItem::Array(
                t@,
                id@,
                views(annos@),
                views(v@),
            ),
        }
    }
}

/// A constraint: the predicate invoked, its arguments and annotations.
#[derive(Clone, Debug, PartialEq)]
pub struct ConstraintItem {
    pub ident: String,
    pub exprs: Vec<Expr>,
    pub annos: Vec<String>,
}

pub struct SpecConstraintItem {
    pub ident: Seq<char>,
    pub exprs: Seq<SpecExpr>,
    pub annos: Seq<Seq<char>>,
}

impl View for ConstraintItem {
    type V = SpecConstraintItem;

    open spec fn view(&self) -> SpecConstraintItem {
        SpecConstraintItem { ident: self.ident@, exprs: views(self.exprs@), annos: views(self.annos@) }
    }
}

/// The solve directive; its structure is not captured yet.
#[derive(Clone, Copy, Debug, PartialEq, Eq, Structural)]
pub struct SolveItem;

impl View for SolveItem {
    type V = SolveItem;

    open spec fn view(&self) -> SolveItem {
        *self
    }
}

/// An annotation expression; its structure is not captured yet.
#[derive(Clone, Copy, Debug, PartialEq, Eq, Structural)]
pub struct AnnExpr;

impl View for AnnExpr {
    type V = AnnExpr;

    open spec fn view(&self) -> AnnExpr {
        *self
    }
}

/// A whole model: its items in their fixed order.
#[derive(Clone, Debug, PartialEq)]
pub struct Model {
    pub predicate_items: Vec<PredicateItem>,
    pub par_decl_items: Vec<ParDeclItem>,
    pub var_decl_items: Vec<VarDeclItem>,
    pub constraint_items: Vec<ConstraintItem>,
    pub solve_item: SolveItem,
}

pub struct SpecModel {
    pub predicate_items: Seq<SpecPredicateItem>,
    pub par_decl_items: Seq<SpecParDeclItem>,
    pub var_decl_items: Seq<SpecVarDeclItem>,
    pub constraint_items: Seq<SpecConstraintItem>,
    pub solve_item: SolveItem,
}

impl View for Model {
    type V = SpecModel;

    open spec fn view(&self) -> SpecModel {
        SpecModel {
            predicate_items: views(self.predicate_items@),
            par_decl_items: views(self.par_decl_items@),
            var_decl_items: views(self.var_decl_items@),
            constraint_items: views(self.constraint_items@),
            solve_item: self.solve_item,
        }
    }
}

// ---------------------------------------------------------------------------
// Annotations.

/// `::` and an identifier, each followed by optional blanks.
pub open spec fn spec_annotation(s: Seq<u8>) -> SpecResult<Seq<char>> {
    match spec_tag(s, "::".spec_bytes()) {
        Err(e) => Err(e),
        Ok((_, s)) => match spec_space0(s) {
            Err(e) => Err(e),
            Ok((_, s)) => match spec_identifier(s) {
                Err(e) => Err(e),
                Ok((id, s)) => match spec_space0(s) {
                    Err(e) => Err(e),
                    Ok((_, s)) => Ok((id, s)),
                },
            },
        },
    }
}

/// Recognizes one annotation and the blanks after it.
pub fn annotation(input: &str) -> (r: Result<(&str, String), ParseError>)
    ensures
        agrees(r, spec_annotation(input.spec_bytes())),
{
    let (input, _) = match tag(input, "::") { Ok(q) => q, Err(e) => return Err(e) };
    let (input, _) = match space0(input) { Ok(q) => q, Err(e) => return Err(e) };
    let (input, id) = match identifier(input) { Ok(q) => q, Err(e) => return Err(e) };
    let (input, _) = match space0(input) { Ok(q) => q, Err(e) => return Err(e) };
    Ok((input, id))
}

/// `::` followed by an annotation, which brings its own `::`.
pub open spec fn spec_prefixed_annotation(s: Seq<u8>) -> SpecResult<Seq<char>> {
    match spec_tag(s, "::".spec_bytes()) {
        Err(e) => Err(e),
        Ok((_, s)) => spec_annotation(s),
    }
}

/// Recognizes `::` followed by an annotation.
pub fn _annotation(input: &str) -> (r: Result<(&str, String), ParseError>)
    ensures
        agrees(r, spec_prefixed_annotation(input.spec_bytes())),
{
    let (input, _) = match tag(input, "::") { Ok(q) => q, Err(e) => return Err(e) };
    annotation(input)
}

pub open spec fn annotation_parser() -> SpecParser<Seq<char>> {
    |s: Seq<u8>| spec_annotation(s)
}

/// Zero or more annotations; never fails.
pub open spec fn spec_annotations(s: Seq<u8>) -> SpecResult<Seq<Seq<char>>> {
    Ok(many_tail(annotation_parser(), s, Seq::empty()))
}

/// Recognizes zero or more annotations.
pub fn annotations(input: &str) -> (r: Result<(&str, Vec<String>), ParseError>)
    ensures
        agrees_list(r, spec_annotations(input.spec_bytes())),
{
    let ghost p = annotation_parser();
    let mut v: Vec<String> = Vec::new();
    let mut cur = input;
    assert(views(v@) =~= Seq::<Seq<char>>::empty());
    loop
        invariant
            many_tail(p, cur.spec_bytes(), views(v@)) == many_tail(p, input.spec_bytes(), Seq::empty()),
            p == annotation_parser(),
        decreases cur.spec_bytes().len(),
    {
        let (cur2, x) = match annotation(cur) {
            Err(_) => return Ok((cur, v)),
            Ok(q) => q,
        };
        if byte_len(cur2) >= byte_len(cur) {
            return Ok((cur, v));
        }
        proof {
            lemma_views_push(v@, x);
        }
        v.push(x);
        cur = cur2;
    }
}

/// An annotation expression: recognizes nothing and consumes nothing.
pub open spec fn spec_ann_expr(s: Seq<u8>) -> SpecResult<AnnExpr> {
    Ok((AnnExpr, s))
}

/// Recognizes an annotation expression; its grammar is not settled, so this
/// consumes nothing.
pub fn ann_expr(input: &str) -> (r: Result<(&str, AnnExpr), ParseError>)
    ensures
        agrees(r, spec_ann_expr(input.spec_bytes())),
{
    Ok((input, AnnExpr))
}

// ---------------------------------------------------------------------------
// Predicate items.

/// A predicate parameter: its type, `:` and its name.
pub open spec fn spec_pred_param_type_ident_pair(s: Seq<u8>) -> SpecResult<(SpecPredParamType, Seq<char>)> {
    match spec_pred_param_type(s) {
        Err(e) => Err(e),
        Ok((t, s)) => match spec_char(s, 0x3a) {
            Err(e) => Err(e),
            Ok((_, s)) => match spec_identifier(s) {
                Err(e) => Err(e),
                Ok((id, s)) => Ok(((t, id), s)),
            },
        },
    }
}

/// Recognizes a predicate parameter.
pub fn pred_param_type_ident_pair(input: &str) -> (r: Result<(&str, (PredParamType, String)), ParseError>)
    ensures
        agrees(r, spec_pred_param_type_ident_pair(input.spec_bytes())),
{
    let (input, t) = match pred_param_type(input) { Ok(q) => q, Err(e) => return Err(e) };
    let (input, _) = match ascii_char(input, 0x3a) { Ok(q) => q, Err(e) => return Err(e) };
    let (input, id) = match identifier(input) { Ok(q) => q, Err(e) => return Err(e) };
    Ok((input, (t, id)))
}

pub open spec fn pred_param_parser() -> SpecParser<(SpecPredParamType, Seq<char>)> {
    |s: Seq<u8>| spec_pred_param_type_ident_pair(s)
}

/// Zero or more predicate parameters separated by commas.
fn pred_param_list(input: &str) -> (r: (&str, Vec<(PredParamType, String)>))
    ensures
        r.0.spec_bytes() == sep_list(pred_param_parser(), input.spec_bytes()).1,
        views(r.1@) == sep_list(pred_param_parser(), input.spec_bytes()).0,
{
    let ghost p = pred_param_parser();
    let mut v: Vec<(PredParamType, String)> = Vec::new();
    let (mut cur, x) = match pred_param_type_ident_pair(input) {
        Err(_) => {
            assert(views(v@) =~= Seq::<(SpecPredParamType, Seq<char>)>::empty());
            return (input, v);
        },
        Ok(q) => q,
    };
    assert(views(seq![x]) =~= seq![x@]);
    v.push(x);
    assert(v@ =~= seq![x]);
    loop
        invariant
            sep_tail(p, cur.spec_bytes(), views(v@)) == sep_list(p, input.spec_bytes()),
            p == pred_param_parser(),
        decreases cur.spec_bytes().len(),
    {
        let cur1 = match ascii_char(cur, 0x2c) {
            Err(_) => return (cur, v),
            Ok((c, _)) => c,
        };
        let (cur2, x) = match pred_param_type_ident_pair(cur1) {
            Err(_) => return (cur, v),
            Ok(q) => q,
        };
        if byte_len(cur2) >= byte_len(cur) {
            return (cur, v);
        }
        proof {
            lemma_views_push(v@, x);
        }
        v.push(x);
        cur = cur2;
    }
}

/// `predicate`, blanks, a name, a parenthesized comma-separated parameter
/// list, optional blanks, `;` and a newline.
pub open spec fn spec_predicate_item(s: Seq<u8>) -> SpecResult<SpecPredicateItem> {
    match spec_tag(s, "predicate".spec_bytes()) {
        Err(e) => Err(e),
        Ok((_, s)) => match spec_space1(s) {
            Err(e) => Err(e),
            Ok((_, s)) => match spec_identifier(s) {
                Err(e) => Err(e),
                Ok((ident, s)) => match spec_char(s, 0x28) {
                    Err(e) => Err(e),
                    Ok((_, s)) => {
                        let (parameters, s) = sep_list(pred_param_parser(), s);
                        match spec_char(s, 0x29) {
                            Err(e) => Err(e),
                            Ok((_, s)) => match spec_space0(s) {
                                Err(e) => Err(e),
                                Ok((_, s)) => match spec_char(s, 0x3b) {
                                    Err(e) => Err(e),
                                    Ok((_, s)) => match spec_char(s, 0x0a) {
                                        Err(e) => Err(e),
                                        Ok((_, s)) => Ok(
                                            (SpecPredicateItem { ident, parameters }, s),
                                        ),
                                    },
                                },
                            },
                        }
                    },
                },
            },
        },
    }
}

/// Recognizes a predicate declaration.
pub fn predicate_item(input: &str) -> (r: Result<(&str, PredicateItem), ParseError>)
    ensures
        agrees(r, spec_predicate_item(input.spec_bytes())),
{
    let (input, _) = match tag(input, "predicate") { Ok(q) => q, Err(e) => return Err(e) };
    let (input, _) = match space1(input) { Ok(q) => q, Err(e) => return Err(e) };
    let (input, ident) = match identifier(input) { Ok(q) => q, Err(e) => return Err(e) };
    let (input, _) = match ascii_char(input, 0x28) { Ok(q) => q, Err(e) => return Err(e) };
    let (input, parameters) = pred_param_list(input);
    let (input, _) = match ascii_char(input, 0x29) { Ok(q) => q, Err(e) => return Err(e) };
    let (input, _) = match space0(input) { Ok(q) => q, Err(e) => return Err(e) };
    let (input, _) = match ascii_char(input, 0x3b) { Ok(q) => q, Err(e) => return Err(e) };
    let (input, _) = match ascii_char(input, 0x0a) { Ok(q) => q, Err(e) => return Err(e) };
    Ok((input, PredicateItem { ident, parameters }))
}

// ---------------------------------------------------------------------------
// Parameter declarations.

/// A parameter type, `:`, blanks, a name, blanks, `=`, blanks, a value,
/// optional blanks, `;`, optional blanks and a newline.
pub open spec fn spec_par_decl_item(s: Seq<u8>) -> SpecResult<SpecParDeclItem> {
    match spec_par_type(s) {
        Err(e) => Err(e),
        Ok((parameter_type, s)) => match spec_char(s, 0x3a) {
            Err(e) => Err(e),
            Ok((_, s)) => match spec_space1(s) {
                Err(e) => Err(e),
                Ok((_, s)) => match spec_var_par_identifier(s) {
                    Err(e) => Err(e),
                    Ok((identifier, s)) => match spec_space1(s) {
                        Err(e) => Err(e),
                        Ok((_, s)) => match spec_char(s, 0x3d) {
                            Err(e) => Err(e),
                            Ok((_, s)) => match spec_space1(s) {
                                Err(e) => Err(e),
                                Ok((_, s)) => match spec_par_expr(s) {
                                    Err(e) => Err(e),
                                    Ok((expr, s)) => match spec_space0(s) {
                                        Err(e) => Err(e),
                                        Ok((_, s)) => match spec_char(s, 0x3b) {
                                            Err(e) => Err(e),
                                            Ok((_, s)) => match spec_space0(s) {
                                                Err(e) => Err(e),
                                                Ok((_, s)) => match spec_char(s, 0x0a) {
                                                    Err(e) => Err(e),
                                                    Ok((_, s)) => Ok(
                                                        (
                                                            SpecParDeclItem {
                                                                parameter_type,
                                                                identifier,
                                                                expr,
                                                            },
                                                            s,
                                                        ),
                                                    ),
                                                },
                                            },
                                        },
                                    },
                                },
                            },
                        },
                    },
                },
            },
        },
    }
}

/// Recognizes a parameter declaration.
pub fn par_decl_item(input: &str) -> (r: Result<(&str, ParDeclItem), ParseError>)
    ensures
        agrees(r, spec_par_decl_item(input.spec_bytes())),
{
    let (input, parameter_type) = match par_type(input) { Ok(q) => q, Err(e) => return Err(e) };
    let (input, _) = match ascii_char(input, 0x3a) { Ok(q) => q, Err(e) => return Err(e) };
    let (input, _) = match space1(input) { Ok(q) => q, Err(e) => return Err(e) };
    let (input, identifier) = match var_par_identifier(input) { Ok(q) => q, Err(e) => return Err(e) };
    let (input, _) = match space1(input) { Ok(q) => q, Err(e) => return Err(e) };
    let (input, _) = match ascii_char(input, 0x3d) { Ok(q) => q, Err(e) => return Err(e) };
    let (input, _) = match space1(input) { Ok(q) => q, Err(e) => return Err(e) };
    let (input, expr) = match par_expr(input) { Ok(q) => q, Err(e) => return Err(e) };
    let (input, _) = match space0(input) { Ok(q) => q, Err(e) => return Err(e) };
    let (input, _) = match ascii_char(input, 0x3b) { Ok(q) => q, Err(e) => return Err(e) };
    let (input, _) = match space0(input) { Ok(q) => q, Err(e) => return Err(e) };
    let (input, _) = match ascii_char(input, 0x0a) { Ok(q) => q, Err(e) => return Err(e) };
    Ok((input, ParDeclItem { parameter_type, identifier, expr }))
}

// ---------------------------------------------------------------------------
// Variable declarations.

/// A basic variable type, `:`, a name, annotations, and optionally `=`
/// followed by an initializing basic expression, with optional blanks
/// between. Where no `=` follows, nothing more is read; an `=` must be
/// followed by an expression.
pub open spec fn spec_vdi_basic_var(s: Seq<u8>) -> SpecResult<SpecVarDeclItem> {
    match spec_basic_var_type(s) {
        Err(e) => Err(e),
        Ok((t, s)) => match spec_space0(s) {
            Err(e) => Err(e),
            Ok((_, s)) => match spec_char(s, 0x3a) {
                Err(e) => Err(e),
                Ok((_, s)) => match spec_space0(s) {
                    Err(e) => Err(e),
                    Ok((_, s)) => match spec_var_par_identifier(s) {
                        Err(e) => Err(e),
                        Ok((id, s)) => match spec_space0(s) {
                            Err(e) => Err(e),
                            Ok((_, s)) => match spec_annotations(s) {
                                Err(e) => Err(e),
                                Ok((annos, s)) => match spec_space0(s) {
                                    Err(e) => Err(e),
                                    Ok((_, s)) => match spec_char(s, 0x3d) {
                                        Err(_) => Ok(
                                            (SpecVarDeclItem::Basic(t, id, annos, None), s),
                                        ),
                                        Ok((_, s)) => match spec_space0(s) {
                                            Err(e) => Err(e),
                                            Ok((_, s)) => match spec_basic_expr(s) {
                                                Err(e) => Err(e),
                                                Ok((e, r)) => Ok(
                                                    (SpecVarDeclItem::Basic(t, id, annos, Some(e)), r),
                                                ),
                                            },
                                        },
                                    },
                                },
                            },
                        },
                    },
                },
            },
        },
    }
}

/// Recognizes a scalar variable declaration, without its terminator.
pub fn vdi_basic_var(input: &str) -> (r: Result<(&str, VarDeclItem), ParseError>)
    ensures
        agrees(r, spec_vdi_basic_var(input.spec_bytes())),
{
    let (input, t) = match basic_var_type(input) { Ok(q) => q, Err(e) => return Err(e) };
    let (input, _) = match space0(input) { Ok(q) => q, Err(e) => return Err(e) };
    let (input, _) = match ascii_char(input, 0x3a) { Ok(q) => q, Err(e) => return Err(e) };
    let (input, _) = match space0(input) { Ok(q) => q, Err(e) => return Err(e) };
    let (input, id) = match var_par_identifier(input) { Ok(q) => q, Err(e) => return Err(e) };
    let (input, _) = match space0(input) { Ok(q) => q, Err(e) => return Err(e) };
    let (input, annos) = match annotations(input) { Ok(q) => q, Err(e) => return Err(e) };
    let (input, _) = match space0(input) { Ok(q) => q, Err(e) => return Err(e) };
    let (input, _) = match ascii_char(input, 0x3d) {
        Ok(q) => q,
        Err(_) => return Ok((input, VarDeclItem::Basic(t, id, annos, None))),
    };
    let (input, _) = match space0(input) { Ok(q) => q, Err(e) => return Err(e) };
    let (input, e) = match basic_expr(input) { Ok(q) => q, Err(e) => return Err(e) };
    Ok((input, VarDeclItem::Basic(t, id, annos, Some(e))))
}

/// An array variable type, `:`, a name, annotations, `=` and an array
/// literal, with optional blanks between.
pub open spec fn spec_vdi_array(s: Seq<u8>) -> SpecResult<SpecVarDeclItem> {
    match spec_array_var_type(s) {
        Err(e) => Err(e),
        Ok((t, s)) => match spec_space0(s) {
            Err(e) => Err(e),
            Ok((_, s)) => match spec_char(s, 0x3a) {
                Err(e) => Err(e),
                Ok((_, s)) => match spec_space0(s) {
                    Err(e) => Err(e),
                    Ok((_, s)) => match spec_var_par_identifier(s) {
                        Err(e) => Err(e),
                        Ok((id, s)) => match spec_space0(s) {
                            Err(e) => Err(e),
                            Ok((_, s)) => match spec_annotations(s) {
                                Err(e) => Err(e),
                                Ok((annos, s)) => match spec_space0(s) {
                                    Err(e) => Err(e),
                                    Ok((_, s)) => match spec_char(s, 0x3d) {
                                        Err(e) => Err(e),
                                        Ok((_, s)) => match spec_space0(s) {
                                            Err(e) => Err(e),
                                            Ok((_, s)) => match spec_array_literal(s) {
                                                Err(e) => Err(e),
                                                Ok((v, s)) => Ok(
                                                    (SpecVarDeclItem::Array(t, id, annos, v), s),
                                                ),
                                            },
                                        },
                                    },
                                },
                            },
                        },
                    },
                },
            },
        },
    }
}

/// Recognizes an array variable declaration, without its terminator.
pub fn vdi_array(input: &str) -> (r: Result<(&str, VarDeclItem), ParseError>)
    ensures
        agrees(r, spec_vdi_array(input.spec_bytes())),
{
    let (input, t) = match array_var_type(input) { Ok(q) => q, Err(e) => return Err(e) };
    let (input, _) = match space0(input) { Ok(q) => q, Err(e) => return Err(e) };
    let (input, _) = match ascii_char(input, 0x3a) { Ok(q) => q, Err(e) => return Err(e) };
    let (input, _) = match space0(input) { Ok(q) => q, Err(e) => return Err(e) };
    let (input, id) = match var_par_identifier(input) { Ok(q) => q, Err(e) => return Err(e) };
    let (input, _) = match space0(input) { Ok(q) => q, Err(e) => return Err(e) };
    let (input, annos) = match annotations(input) { Ok(q) => q, Err(e) => return Err(e) };
    let (input, _) = match space0(input) { Ok(q) => q, Err(e) => return Err(e) };
    let (input, _) = match ascii_char(input, 0x3d) { Ok(q) => q, Err(e) => return Err(e) };
    let (input, _) = match space0(input) { Ok(q) => q, Err(e) => return Err(e) };
    let (input, v) = match array_literal(input) { Ok(q) => q, Err(e) => return Err(e) };
    Ok((input, VarDeclItem::Array(t, id, annos, v)))
}

/// A scalar, else an array, variable declaration, then optional blanks,
/// `;`, optional blanks and a newline.
pub open spec fn spec_var_decl_item(s: Seq<u8>) -> SpecResult<SpecVarDeclItem> {
    match or_else(spec_vdi_basic_var(s), spec_vdi_array(s)) {
        Err(e) => Err(e),
        Ok((item, s)) => match spec_space0(s) {
            Err(e) => Err(e),
            Ok((_, s)) => match spec_char(s, 0x3b) {
                Err(e) => Err(e),
                Ok((_, s)) => match spec_space0(s) {
                    Err(e) => Err(e),
                    Ok((_, s)) => match spec_char(s, 0x0a) {
                        Err(e) => Err(e),
                        Ok((_, s)) => Ok((item, s)),
                    },
                },
            },
        },
    }
}

/// Recognizes a variable declaration.
pub fn var_decl_item(input: &str) -> (r: Result<(&str, VarDeclItem), ParseError>)
    ensures
        agrees(r, spec_var_decl_item(input.spec_bytes())),
{
    let (input, item) = match vdi_basic_var(input) {
        Ok(q) => q,
        Err(e1) => match vdi_array(input) {
            Ok(q) => q,
            Err(e2) => return Err(furthest_error(e1, e2)),
        },
    };
    let (input, _) = match space0(input) { Ok(q) => q, Err(e) => return Err(e) };
    let (input, _) = match ascii_char(input, 0x3b) { Ok(q) => q, Err(e) => return Err(e) };
    let (input, _) = match space0(input) { Ok(q) => q, Err(e) => return Err(e) };
    let (input, _) = match ascii_char(input, 0x0a) { Ok(q) => q, Err(e) => return Err(e) };
    Ok((input, item))
}

// ---------------------------------------------------------------------------
// Constraint and solve items.

pub open spec fn expr_parser() -> SpecParser<SpecExpr> {
    |s: Seq<u8>| spec_expr(s)
}

/// Zero or more general expressions separated by commas.
fn expr_list(input: &str) -> (r: (&str, Vec<Expr>))
    ensures
        r.0.spec_bytes() == sep_list(expr_parser(), input.spec_bytes()).1,
        views(r.1@) == sep_list(expr_parser(), input.spec_bytes()).0,
{
    let ghost p = expr_parser();
    let mut v: Vec<Expr> = Vec::new();
    let (mut cur, x) = match expr(input) {
        Err(_) => {
            assert(views(v@) =~= Seq::<SpecExpr>::empty());
            return (input, v);
        },
        Ok(q) => q,
    };
    assert(views(seq![x]) =~= seq![x@]);
    v.push(x);
    assert(v@ =~= seq![x]);
    loop
        invariant
            sep_tail(p, cur.spec_bytes(), views(v@)) == sep_list(p, input.spec_bytes()),
            p == expr_parser(),
        decreases cur.spec_bytes().len(),
    {
        let cur1 = match ascii_char(cur, 0x2c) {
            Err(_) => return (cur, v),
            Ok((c, _)) => c,
        };
        let (cur2, x) = match expr(cur1) {
            Err(_) => return (cur, v),
            Ok(q) => q,
        };
        if byte_len(cur2) >= byte_len(cur) {
            return (cur, v);
        }
        proof {
            lemma_views_push(v@, x);
        }
        v.push(x);
        cur = cur2;
    }
}

/// `constraint`, blanks, a predicate name, a parenthesized comma-separated
/// argument list, annotations, `;` and a newline, with optional blanks
/// between.
pub open spec fn spec_constraint_item(s: Seq<u8>) -> SpecResult<SpecConstraintItem> {
    match spec_tag(s, "constraint".spec_bytes()) {
        Err(e) => Err(e),
        Ok((_, s)) => match spec_space1(s) {
            Err(e) => Err(e),
            Ok((_, s)) => match spec_identifier(s) {
                Err(e) => Err(e),
                Ok((ident, s)) => match spec_char(s, 0x28) {
                    Err(e) => Err(e),
                    Ok((_, s)) => match spec_space0(s) {
                        Err(e) => Err(e),
                        Ok((_, s)) => {
                            let (exprs, s) = sep_list(expr_parser(), s);
                            match spec_space0(s) {
                                Err(e) => Err(e),
                                Ok((_, s)) => match spec_char(s, 0x29) {
                                    Err(e) => Err(e),
                                    Ok((_, s)) => match spec_space0(s) {
                                        Err(e) => Err(e),
                                        Ok((_, s)) => match spec_annotations(s) {
                                            Err(e) => Err(e),
                                            Ok((annos, s)) => match spec_space0(s) {
                                                Err(e) => Err(e),
                                                Ok((_, s)) => match spec_char(s, 0x3b) {
                                                    Err(e) => Err(e),
                                                    Ok((_, s)) => match spec_space0(s) {
                                                        Err(e) => Err(e),
                                                        Ok((_, s)) => match spec_char(s, 0x0a) {
                                                            Err(e) => Err(e),
                                                            Ok((_, s)) => Ok(
                                                                (
                                                                    SpecConstraintItem {
                                                                        ident,
                                                                        exprs,
                                                                        annos,
                                                                    },
                                                                    s,
                                                                ),
                                                            ),
                                                        },
                                                    },
                                                },
                                            },
                                        },
                                    },
                                },
                            }
                        },
                    },
                },
            },
        },
    }
}

/// Recognizes a constraint item.
pub fn constraint_item(input: &str) -> (r: Result<(&str, ConstraintItem), ParseError>)
    ensures
        agrees(r, spec_constraint_item(input.spec_bytes())),
{
    let (input, _) = match tag(input, "constraint") { Ok(q) => q, Err(e) => return Err(e) };
    let (input, _) = match space1(input) { Ok(q) => q, Err(e) => return Err(e) };
    let (input, ident) = match identifier(input) { Ok(q) => q, Err(e) => return Err(e) };
    let (input, _) = match ascii_char(input, 0x28) { Ok(q) => q, Err(e) => return Err(e) };
    let (input, _) = match space0(input) { Ok(q) => q, Err(e) => return Err(e) };
    let (input, exprs) = expr_list(input);
    let (input, _) = match space0(input) { Ok(q) => q, Err(e) => return Err(e) };
    let (input, _) = match ascii_char(input, 0x29) { Ok(q) => q, Err(e) => return Err(e) };
    let (input, _) = match space0(input) { Ok(q) => q, Err(e) => return Err(e) };
    let (input, annos) = match annotations(input) { Ok(q) => q, Err(e) => return Err(e) };
    let (input, _) = match space0(input) { Ok(q) => q, Err(e) => return Err(e) };
    let (input, _) = match ascii_char(input, 0x3b) { Ok(q) => q, Err(e) => return Err(e) };
    let (input, _) = match space0(input) { Ok(q) => q, Err(e) => return Err(e) };
    let (input, _) = match ascii_char(input, 0x0a) { Ok(q) => q, Err(e) => return Err(e) };
    Ok((input, ConstraintItem { ident, exprs, annos }))
}

/// The solve item: its grammar is not settled, so it recognizes nothing and
/// consumes nothing.
pub open spec fn spec_solve_item(s: Seq<u8>) -> SpecResult<SolveItem> {
    Ok((SolveItem, s))
}

/// Recognizes the solve item.
pub fn solve_item(input: &str) -> (r: Result<(&str, SolveItem), ParseError>)
    ensures
        agrees(r, spec_solve_item(input.spec_bytes())),
{
    Ok((input, SolveItem))
}

// ---------------------------------------------------------------------------
// The model.

#[verifier::opaque]
pub open spec fn predicate_item_parser() -> SpecParser<SpecPredicateItem> {
    |s: Seq<u8>| spec_predicate_item(s)
}

/// Zero or more predicate declarations in a row.
fn predicate_item_run(input: &str) -> (r: (&str, Vec<PredicateItem>))
    ensures
        (views(r.1@), r.0.spec_bytes()) == many_tail(predicate_item_parser(), input.spec_bytes(), Seq::empty()),
{
    proof {
        reveal(predicate_item_parser);
    }
    let ghost p = predicate_item_parser();
    let mut v: Vec<PredicateItem> = Vec::new();
    let mut cur = input;
    assert(views(v@) =~= Seq::<SpecPredicateItem>::empty());
    loop
        invariant
            many_tail(p, cur.spec_bytes(), views(v@)) == many_tail(p, input.spec_bytes(), Seq::empty()),
            p == predicate_item_parser(),
        decreases cur.spec_bytes().len(),
    {
        proof {
            reveal(predicate_item_parser);
        }
        let (cur2, x) = match predicate_item(cur) {
            Err(_) => return (cur, v),
            Ok(q) => q,
        };
        if byte_len(cur2) >= byte_len(cur) {
            return (cur, v);
        }
        proof {
            lemma_views_push(v@, x);
        }
        v.push(x);
        cur = cur2;
    }
}

#[verifier::opaque]
pub open spec fn par_decl_item_parser() -> SpecParser<SpecParDeclItem> {
    |s: Seq<u8>| spec_par_decl_item(s)
}

/// Zero or more parameter declarations in a row.
fn par_decl_item_run(input: &str) -> (r: (&str, Vec<ParDeclItem>))
    ensures
        (views(r.1@), r.0.spec_bytes()) == many_tail(par_decl_item_parser(), input.spec_bytes(), Seq::empty()),
{
    proof {
        reveal(par_decl_item_parser);
    }
    let ghost p = par_decl_item_parser();
    let mut v: Vec<ParDeclItem> = Vec::new();
    let mut cur = input;
    assert(views(v@) =~= Seq::<SpecParDeclItem>::empty());
    loop
        invariant
            many_tail(p, cur.spec_bytes(), views(v@)) == many_tail(p, input.spec_bytes(), Seq::empty()),
            p == par_decl_item_parser(),
        decreases cur.spec_bytes().len(),
    {
        proof {
            reveal(par_decl_item_parser);
        }
        let (cur2, x) = match par_decl_item(cur) {
            Err(_) => return (cur, v),
            Ok(q) => q,
        };
        if byte_len(cur2) >= byte_len(cur) {
            return (cur, v);
        }
        proof {
            lemma_views_push(v@, x);
        }
        v.push(x);
        cur = cur2;
    }
}

#[verifier::opaque]
pub open spec fn var_decl_item_parser() -> SpecParser<SpecVarDeclItem> {
    |s: Seq<u8>| spec_var_decl_item(s)
}

/// Zero or more variable declarations in a row.
fn var_decl_item_run(input: &str) -> (r: (&str, Vec<VarDeclItem>))
    ensures
        (views(r.1@), r.0.spec_bytes()) == many_tail(var_decl_item_parser(), input.spec_bytes(), Seq::empty()),
{
    proof {
        reveal(var_decl_item_parser);
    }
    let ghost p = var_decl_item_parser();
    let mut v: Vec<VarDeclItem> = Vec::new();
    let mut cur = input;
    assert(views(v@) =~= Seq::<SpecVarDeclItem>::empty());
    loop
        invariant
            many_tail(p, cur.spec_bytes(), views(v@)) == many_tail(p, input.spec_bytes(), Seq::empty()),
            p == var_decl_item_parser(),
        decreases cur.spec_bytes().len(),
    {
        proof {
            reveal(var_decl_item_parser);
        }
        let (cur2, x) = match var_decl_item(cur) {
            Err(_) => return (cur, v),
            Ok(q) => q,
        };
        if byte_len(cur2) >= byte_len(cur) {
            return (cur, v);
        }
        proof {
            lemma_views_push(v@, x);
        }
        v.push(x);
        cur = cur2;
    }
}

#[verifier::opaque]
pub open spec fn constraint_item_parser() -> SpecParser<SpecConstraintItem> {
    |s: Seq<u8>| spec_constraint_item(s)
}

/// Zero or more constraint items in a row.
fn constraint_item_run(input: &str) -> (r: (&str, Vec<ConstraintItem>))
    ensures
        (views(r.1@), r.0.spec_bytes()) == many_tail(constraint_item_parser(), input.spec_bytes(), Seq::empty()),
{
    proof {
        reveal(constraint_item_parser);
    }
    let ghost p = constraint_item_parser();
    let mut v: Vec<ConstraintItem> = Vec::new();
    let mut cur = input;
    assert(views(v@) =~= Seq::<SpecConstraintItem>::empty());
    loop
        invariant
            many_tail(p, cur.spec_bytes(), views(v@)) == many_tail(p, input.spec_bytes(), Seq::empty()),
            p == constraint_item_parser(),
        decreases cur.spec_bytes().len(),
    {
        proof {
            reveal(constraint_item_parser);
        }
        let (cur2, x) = match constraint_item(cur) {
            Err(_) => return (cur, v),
            Ok(q) => q,
        };
        if byte_len(cur2) >= byte_len(cur) {
            return (cur, v);
        }
        proof {
            lemma_views_push(v@, x);
        }
        v.push(x);
        cur = cur2;
    }
}

/// Zero or more predicate declarations, then zero or more parameter
/// declarations, then zero or more variable declarations, then zero or more
/// constraint items, then the solve item.
pub open spec fn spec_model(s: Seq<u8>) -> SpecResult<SpecModel> {
    let (predicate_items, s) = many_tail(predicate_item_parser(), s, Seq::empty());
    let (par_decl_items, s) = many_tail(par_decl_item_parser(), s, Seq::empty());
    let (var_decl_items, s) = many_tail(var_decl_item_parser(), s, Seq::empty());
    let (constraint_items, s) = many_tail(constraint_item_parser(), s, Seq::empty());
    match spec_solve_item(s) {
        Err(e) => Err(e),
        Ok((solve_item, s)) => Ok(
            (
                SpecModel {
                    predicate_items,
                    par_decl_items,
                    var_decl_items,
                    constraint_items,
                    solve_item,
                },
                s,
            ),
        ),
    }
}

proof fn lemma_many_tail_stops<T>(p: SpecParser<T>, s: Seq<u8>, acc: Seq<T>)
    ensures
        many_tail(p, many_tail(p, s, acc).1, Seq::empty()) == (Seq::<T>::empty(), many_tail(p, s, acc).1),
    decreases s.len(),
{
    match p(s) {
        Err(_) => {},
        Ok((x, s1)) => {
            if s1.len() < s.len() {
                lemma_many_tail_stops(p, s1, acc.push(x));
            }
        },
    }
}

/// The model with no item.
pub open spec fn empty_model() -> SpecModel {
    SpecModel {
        predicate_items: Seq::empty(),
        par_decl_items: Seq::empty(),
        var_decl_items: Seq::empty(),
        constraint_items: Seq::empty(),
        solve_item: SolveItem,
    }
}

/// Parsing a model never fails. Parsing again the text that it leaves over,
/// where that text starts with no predicate, parameter or variable
/// declaration, finds no item and no error, and consumes nothing: the
/// grammar took exactly the well-formed prefix.
pub proof fn lemma_model_reparse(s: Seq<u8>)
    requires
        spec_predicate_item(spec_model(s)->Ok_0.1) is Err,
        spec_par_decl_item(spec_model(s)->Ok_0.1) is Err,
        spec_var_decl_item(spec_model(s)->Ok_0.1) is Err,
    ensures
        spec_model(s) is Ok,
        spec_model(spec_model(s)->Ok_0.1) == Ok::<(SpecModel, Seq<u8>), ParseError>(
            (empty_model(), spec_model(s)->Ok_0.1),
        ),
{
    let (_, s1) = many_tail(predicate_item_parser(), s, Seq::empty());
    let (_, s2) = many_tail(par_decl_item_parser(), s1, Seq::empty());
    let (_, s3) = many_tail(var_decl_item_parser(), s2, Seq::empty());
    lemma_many_tail_stops(constraint_item_parser(), s3, Seq::empty());
    reveal(predicate_item_parser);
    reveal(par_decl_item_parser);
    reveal(var_decl_item_parser);
    let r = spec_model(s)->Ok_0.1;
    assert(many_tail(predicate_item_parser(), r, Seq::empty()) == (Seq::<SpecPredicateItem>::empty(), r));
    assert(many_tail(par_decl_item_parser(), r, Seq::empty()) == (Seq::<SpecParDeclItem>::empty(), r));
    assert(many_tail(var_decl_item_parser(), r, Seq::empty()) == (Seq::<SpecVarDeclItem>::empty(), r));
}

/// Where a model takes its whole input, as it does on a well-formed
/// document, parsing again the empty rest finds no item and no error and
/// consumes nothing.
pub proof fn lemma_model_whole_input(s: Seq<u8>)
    requires
        spec_model(s)->Ok_0.1.len() == 0,
    ensures
        spec_model(s) is Ok,
        spec_model(spec_model(s)->Ok_0.1) == Ok::<(SpecModel, Seq<u8>), ParseError>(
            (empty_model(), spec_model(s)->Ok_0.1),
        ),
{
    let r = spec_model(s)->Ok_0.1;
    assert(many_tail(predicate_item_parser(), r, Seq::empty()) == (Seq::<SpecPredicateItem>::empty(), r));
    assert(many_tail(par_decl_item_parser(), r, Seq::empty()) == (Seq::<SpecParDeclItem>::empty(), r));
    assert(many_tail(var_decl_item_parser(), r, Seq::empty()) == (Seq::<SpecVarDeclItem>::empty(), r));
    assert(many_tail(constraint_item_parser(), r, Seq::empty()) == (Seq::<SpecConstraintItem>::empty(), r));
}

/// Parses a whole model, returning it with the text that follows it. The
/// items are taken greedily in their fixed order, so this never fails: what
/// does not fit the grammar is left in the returned rest.
pub fn model(input: &str) -> (r: Result<(&str, Model), ParseError>)
    ensures
        agrees(r, spec_model(input.spec_bytes())),
        r is Ok,
{
    let (input, predicate_items) = predicate_item_run(input);
    let (input, par_decl_items) = par_decl_item_run(input);
    let (input, var_decl_items) = var_decl_item_run(input);
    let (input, constraint_items) = constraint_item_run(input);
    let (input, solve_item) = match solve_item(input) { Ok(q) => q, Err(e) => return Err(e) };
    Ok((
        input,
        Model { predicate_items, par_decl_items, var_decl_items, constraint_items, solve_item },
    ))
}

} // verus!
