//! The type grammar: parameter and variable types, domains, index sets and
//! the types of predicate parameters.
use vstd::prelude::*;
use vstd::string::StringSliceAdditionalSpecFns;

use crate::error::{furthest_error, or_else, ParseError, SpecResult};
use crate::lexical::{
    agrees, ascii_char, tag_as, int_literal, space0, space1, spec_char, spec_int_literal,
    spec_space0, spec_space1, spec_tag, tag, views, Float, float_literal, spec_float_literal,
    int_list, int_literal_parser, sep_list,
};

verus! {

/// A basic parameter type.
#[derive(Clone, Copy, Debug, PartialEq, Eq, Structural)]
pub enum BasicParType {
    Bool,
    Int,
    Float,
    SetOfInt,
}

impl View for BasicParType {
    type V = BasicParType;

    open spec fn view(&self) -> BasicParType {
        *self
    }
}

/// An index set `1..n`; the lower bound is always 1, so only `n` is held.
#[derive(Clone, Copy, Debug, PartialEq, Eq, Structural)]
pub struct IndexSet(pub i128);

impl View for IndexSet {
    type V = IndexSet;

    open spec fn view(&self) -> IndexSet {
        *self
    }
}

/// The type of a parameter: basic, or a fixed-size array of a basic type.
#[derive(Clone, Copy, Debug, PartialEq, Eq, Structural)]
pub enum ParType {
    BasicParType(BasicParType),
    Array(IndexSet, BasicParType),
}

impl View for ParType {
    type V = ParType;

    open spec fn view(&self) -> ParType {
        *self
    }
}

/// The set of values a variable may take.
#[derive(Clone, Debug, PartialEq)]
pub enum Domain {
    IntRange(i128, i128),
    FloatRange(Float, Float),
    SetIntNonEmpty(Vec<i128>),
    SetIntRange(i128, i128),
    /// An enumerated set, possibly empty.
    SetInt(Vec<i128>),
}

/// The mathematical form of a [`Domain`].
pub enum SpecDomain {
    IntRange(i128, i128),
    FloatRange(Float, Float),
    SetIntNonEmpty(Seq<i128>),
    SetIntRange(i128, i128),
    SetInt(Seq<i128>),
}

impl View for Domain {
    type V = SpecDomain;

    open spec fn view(&self) -> SpecDomain {
        match self {
            Domain::IntRange(a, b) => SpecDomain::IntRange(*a, *b),
            Domain::FloatRange(a, b) => SpecDomain::FloatRange(*a, *b),
            Domain::SetIntNonEmpty(v) => SpecDomain::SetIntNonEmpty(views(v@)),
            Domain::SetIntRange(a, b) => SpecDomain::SetIntRange(*a, *b),
            Domain::SetInt(v) => SpecDomain::SetInt(views(v@)),
        }
    }
}

/// A basic variable type.
#[derive(Clone, Debug, PartialEq)]
pub enum BasicVarType {
    Bool,
    Int,
    Float,
    Domain(Domain),
}

pub enum SpecBasicVarType {
    Bool,
    Int,
    Float,
    Domain(SpecDomain),
}

impl View for BasicVarType {
    type V = SpecBasicVarType;

    open spec fn view(&self) -> SpecBasicVarType {
        match self {
            BasicVarType::Bool => SpecBasicVarType::Bool,
            BasicVarType::Int => SpecBasicVarType::Int,
            BasicVarType::Float => SpecBasicVarType::Float,
            BasicVarType::Domain(d) => SpecBasicVarType::Domain(d@),
        }
    }
}

/// The type of an array of variables.
#[derive(Clone, Debug, PartialEq)]
pub struct ArrayVarType {
    pub index_set: IndexSet,
    pub basic_var_type: BasicVarType,
}

pub struct SpecArrayVarType {
    pub index_set: IndexSet,
    pub basic_var_type: SpecBasicVarType,
}

impl View for ArrayVarType {
    type V = SpecArrayVarType;

    open spec fn view(&self) -> SpecArrayVarType {
        SpecArrayVarType { index_set: self.index_set, basic_var_type: self.basic_var_type@ }
    }
}

/// The basic type of a predicate parameter.
#[derive(Clone, Debug, PartialEq)]
pub enum BasicPredParamType {
    BasicParType(BasicParType),
    BasicVarType(BasicVarType),
    Domain(Domain),
    VarSetOFInt,
}

pub enum SpecBasicPredParamType {
    BasicParType(BasicParType),
    BasicVarType(SpecBasicVarType),
    Domain(SpecDomain),
    VarSetOFInt,
}

impl View for BasicPredParamType {
    type V = SpecBasicPredParamType;

    open spec fn view(&self) -> SpecBasicPredParamType {
        match self {
            BasicPredParamType::BasicParType(t) => SpecBasicPredParamType::BasicParType(*t),
            BasicPredParamType::BasicVarType(t) => SpecBasicPredParamType::BasicVarType(t@),
            BasicPredParamType::Domain(d) => SpecBasicPredParamType::Domain(d@),
            BasicPredParamType::VarSetOFInt => SpecBasicPredParamType::VarSetOFInt,
        }
    }
}

/// The index set of an array parameter of a predicate: `1..n`, or `int`
/// for an array of any length.
#[derive(Clone, Copy, Debug, PartialEq, Eq, Structural)]
pub enum PredIndexSet {
    IndexSet(IndexSet),
    Int,
}

impl View for PredIndexSet {
    type V = PredIndexSet;

    open spec fn view(&self) -> PredIndexSet {
        *self
    }
}

/// The type of a predicate parameter.
#[derive(Clone, Debug, PartialEq)]
pub enum PredParamType {
    BasicPredParamType(BasicPredParamType),
    Array(PredIndexSet, BasicPredParamType),
}

pub enum SpecPredParamType {
    BasicPredParamType(SpecBasicPredParamType),
    Array(PredIndexSet, SpecBasicPredParamType),
}

impl View for PredParamType {
    type V = SpecPredParamType;

    open spec fn view(&self) -> SpecPredParamType {
        match self {
            PredParamType::BasicPredParamType(t) => SpecPredParamType::BasicPredParamType(t@),
            PredParamType::Array(i, t) => SpecPredParamType::Array(*i, t@),
        }
    }
}

// ---------------------------------------------------------------------------
// Basic parameter types.

/// `bool`, `int`, `float` or `set of int`, tried in that order.
pub open spec fn spec_basic_par_type(s: Seq<u8>) -> SpecResult<BasicParType> {
    or_else(tag_as(s, "bool".spec_bytes(), BasicParType::Bool), or_else(tag_as(s, "int".spec_bytes(), BasicParType::Int), or_else(tag_as(s, "float".spec_bytes(), BasicParType::Float), tag_as(s, "set of int".spec_bytes(), BasicParType::SetOfInt))))
}

/// Recognizes a basic parameter type.
pub fn basic_par_type(input: &str) -> (r: Result<(&str, BasicParType), ParseError>)
    ensures
        agrees(r, spec_basic_par_type(input.spec_bytes())),
{
    match tag(input, "bool") {
        Ok((rest, _)) => Ok((rest, BasicParType::Bool)),
        Err(e1) => match tag(input, "int") {
            Ok((rest, _)) => Ok((rest, BasicParType::Int)),
            Err(e2) => match tag(input, "float") {
                Ok((rest, _)) => Ok((rest, BasicParType::Float)),
                Err(e3) => match tag(input, "set of int") {
                    Ok((rest, _)) => Ok((rest, BasicParType::SetOfInt)),
                    Err(e4) => Err(furthest_error(e1, furthest_error(e2, furthest_error(e3, e4)))),
                },
            },
        },
    }
}

// ---------------------------------------------------------------------------
// Index sets and parameter types.

/// `1..n`.
pub open spec fn spec_index_set(s: Seq<u8>) -> SpecResult<IndexSet> {
    match spec_tag(s, "1".spec_bytes()) {
        Err(e) => Err(e),
        Ok((_, s)) => match spec_tag(s, "..".spec_bytes()) {
            Err(e) => Err(e),
            Ok((_, s)) => match spec_int_literal(s) {
                Err(e) => Err(e),
                Ok((n, s)) => Ok((IndexSet(n), s)),
            },
        },
    }
}

/// Recognizes an index set `1..n`.
pub fn index_set(input: &str) -> (r: Result<(&str, IndexSet), ParseError>)
    ensures
        agrees(r, spec_index_set(input.spec_bytes())),
{
    let (input, _) = match tag(input, "1") { Ok(q) => q, Err(e) => return Err(e) };
    let (input, _) = match tag(input, "..") { Ok(q) => q, Err(e) => return Err(e) };
    let (input, n) = match int_literal(input) { Ok(q) => q, Err(e) => return Err(e) };
    Ok((input, IndexSet(n)))
}

/// `array [ 1..n ] of` followed by a basic parameter type.
pub open spec fn spec_array_par_type(s: Seq<u8>) -> SpecResult<ParType> {
    match spec_tag(s, "array".spec_bytes()) {
        Err(e) => Err(e),
        Ok((_, s)) => match spec_space1(s) {
            Err(e) => Err(e),
            Ok((_, s)) => match spec_char(s, 0x5b) {
                Err(e) => Err(e),
                Ok((_, s)) => match spec_space0(s) {
                    Err(e) => Err(e),
                    Ok((_, s)) => match spec_index_set(s) {
                        Err(e) => Err(e),
                        Ok((i, s)) => match spec_space0(s) {
                            Err(e) => Err(e),
                            Ok((_, s)) => match spec_char(s, 0x5d) {
                                Err(e) => Err(e),
                                Ok((_, s)) => match spec_space1(s) {
                                    Err(e) => Err(e),
                                    Ok((_, s)) => match spec_tag(s, "of".spec_bytes()) {
                                        Err(e) => Err(e),
                                        Ok((_, s)) => match spec_space1(s) {
                                            Err(e) => Err(e),
                                            Ok((_, s)) => match spec_basic_par_type(s) {
                                                Err(e) => Err(e),
                                                Ok((t, s)) => Ok((ParType::Array(i, t), s)),
                                            },
                                        },
                                    },
                                },
                            },
                        },
                    },
                },
            },
        },
    }
}

/// Recognizes an array parameter type.
pub fn array_par_type(input: &str) -> (r: Result<(&str, ParType), ParseError>)
    ensures
        agrees(r, spec_array_par_type(input.spec_bytes())),
{
    let (input, _) = match tag(input, "array") { Ok(q) => q, Err(e) => return Err(e) };
    let (input, _) = match space1(input) { Ok(q) => q, Err(e) => return Err(e) };
    let (input, _) = match ascii_char(input, 0x5b) { Ok(q) => q, Err(e) => return Err(e) };
    let (input, _) = match space0(input) { Ok(q) => q, Err(e) => return Err(e) };
    let (input, i) = match index_set(input) { Ok(q) => q, Err(e) => return Err(e) };
    let (input, _) = match space0(input) { Ok(q) => q, Err(e) => return Err(e) };
    let (input, _) = match ascii_char(input, 0x5d) { Ok(q) => q, Err(e) => return Err(e) };
    let (input, _) = match space1(input) { Ok(q) => q, Err(e) => return Err(e) };
    let (input, _) = match tag(input, "of") { Ok(q) => q, Err(e) => return Err(e) };
    let (input, _) = match space1(input) { Ok(q) => q, Err(e) => return Err(e) };
    let (input, t) = match basic_par_type(input) { Ok(q) => q, Err(e) => return Err(e) };
    Ok((input, ParType::Array(i, t)))
}


/// A basic parameter type, as a parameter type.
pub open spec fn spec_pt_basic_par_type(s: Seq<u8>) -> SpecResult<ParType> {
    match spec_basic_par_type(s) {
        Ok((x, r)) => Ok((ParType::BasicParType(x), r)),
        Err(e) => Err(e),
    }
}

/// Recognizes a basic parameter type, as a parameter type.
pub fn pt_basic_par_type(input: &str) -> (r: Result<(&str, ParType), ParseError>)
    ensures
        agrees(r, spec_pt_basic_par_type(input.spec_bytes())),
{
    match basic_par_type(input) {
        Ok((rest, x)) => Ok((rest, ParType::BasicParType(x))),
        Err(e) => Err(e),
    }
}

/// A basic parameter type, else an array parameter type.
pub open spec fn spec_par_type(s: Seq<u8>) -> SpecResult<ParType> {
    or_else(spec_pt_basic_par_type(s), spec_array_par_type(s))
}

/// Recognizes a parameter type.
pub fn par_type(input: &str) -> (r: Result<(&str, ParType), ParseError>)
    ensures
        agrees(r, spec_par_type(input.spec_bytes())),
{
    match pt_basic_par_type(input) {
        Ok(q) => Ok(q),
        Err(e1) => match array_par_type(input) {
            Ok(q) => Ok(q),
            Err(e2) => Err(furthest_error(e1, e2)),
        },
    }
}

// ---------------------------------------------------------------------------
// Domains.

/// `lb..ub` with integer bounds.
pub open spec fn spec_int_range(s: Seq<u8>) -> SpecResult<SpecDomain> {
    match spec_int_literal(s) {
        Err(e) => Err(e),
        Ok((lb, s)) => match spec_tag(s, "..".spec_bytes()) {
            Err(e) => Err(e),
            Ok((_, s)) => match spec_int_literal(s) {
                Err(e) => Err(e),
                Ok((ub, s)) => Ok((SpecDomain::IntRange(lb, ub), s)),
            },
        },
    }
}

/// Recognizes an integer range `lb..ub`.
pub fn int_range(input: &str) -> (r: Result<(&str, Domain), ParseError>)
    ensures
        agrees(r, spec_int_range(input.spec_bytes())),
{
    let (input, lb) = match int_literal(input) { Ok(q) => q, Err(e) => return Err(e) };
    let (input, _) = match tag(input, "..") { Ok(q) => q, Err(e) => return Err(e) };
    let (input, ub) = match int_literal(input) { Ok(q) => q, Err(e) => return Err(e) };
    Ok((input, Domain::IntRange(lb, ub)))
}

/// `lb..ub` with floating-point bounds.
pub open spec fn spec_float_range(s: Seq<u8>) -> SpecResult<SpecDomain> {
    match spec_float_literal(s) {
        Err(e) => Err(e),
        Ok((lb, s)) => match spec_tag(s, "..".spec_bytes()) {
            Err(e) => Err(e),
            Ok((_, s)) => match spec_float_literal(s) {
                Err(e) => Err(e),
                Ok((ub, s)) => Ok((SpecDomain::FloatRange(lb, ub), s)),
            },
        },
    }
}

/// Recognizes a floating-point range `lb..ub`.
pub fn float_range(input: &str) -> (r: Result<(&str, Domain), ParseError>)
    ensures
        agrees(r, spec_float_range(input.spec_bytes())),
{
    let (input, lb) = match float_literal(input) { Ok(q) => q, Err(e) => return Err(e) };
    let (input, _) = match tag(input, "..") { Ok(q) => q, Err(e) => return Err(e) };
    let (input, ub) = match float_literal(input) { Ok(q) => q, Err(e) => return Err(e) };
    Ok((input, Domain::FloatRange(lb, ub)))
}

/// `set of lb..ub`.
pub open spec fn spec_set_of_int_range(s: Seq<u8>) -> SpecResult<SpecDomain> {
    match spec_tag(s, "set of".spec_bytes()) {
        Err(e) => Err(e),
        Ok((_, s)) => match spec_space1(s) {
            Err(e) => Err(e),
            Ok((_, s)) => match spec_int_literal(s) {
                Err(e) => Err(e),
                Ok((lb, s)) => match spec_tag(s, "..".spec_bytes()) {
                    Err(e) => Err(e),
                    Ok((_, s)) => match spec_int_literal(s) {
                        Err(e) => Err(e),
                        Ok((ub, s)) => Ok((SpecDomain::SetIntRange(lb, ub), s)),
                    },
                },
            },
        },
    }
}

/// Recognizes `set of lb..ub`.
pub fn set_of_int_range(input: &str) -> (r: Result<(&str, Domain), ParseError>)
    ensures
        agrees(r, spec_set_of_int_range(input.spec_bytes())),
{
    let (input, _) = match tag(input, "set of") { Ok(q) => q, Err(e) => return Err(e) };
    let (input, _) = match space1(input) { Ok(q) => q, Err(e) => return Err(e) };
    let (input, lb) = match int_literal(input) { Ok(q) => q, Err(e) => return Err(e) };
    let (input, _) = match tag(input, "..") { Ok(q) => q, Err(e) => return Err(e) };
    let (input, ub) = match int_literal(input) { Ok(q) => q, Err(e) => return Err(e) };
    Ok((input, Domain::SetIntRange(lb, ub)))
}

/// `set of {e1,e2,...}`, possibly with no element.
pub open spec fn spec_set_of_ints(s: Seq<u8>) -> SpecResult<SpecDomain> {
    match spec_tag(s, "set of {".spec_bytes()) {
        Err(e) => Err(e),
        Ok((_, s)) => {
            let (v, s) = sep_list(int_literal_parser(), s);
            match spec_tag(s, "}".spec_bytes()) {
                Err(e) => Err(e),
                Ok((_, s)) => Ok((SpecDomain::SetInt(v), s)),
            }
        },
    }
}

/// Recognizes `set of {e1,e2,...}`.
pub fn set_of_ints(input: &str) -> (r: Result<(&str, Domain), ParseError>)
    ensures
        agrees(r, spec_set_of_ints(input.spec_bytes())),
{
    let (input, _) = match tag(input, "set of {") { Ok(q) => q, Err(e) => return Err(e) };
    let (input, v) = int_list(input);
    let (input, _) = match tag(input, "}") { Ok(q) => q, Err(e) => return Err(e) };
    Ok((input, Domain::SetInt(v)))
}

/// `{e1,e2,...}`.
pub open spec fn spec_set_of_ints_non_empty(s: Seq<u8>) -> SpecResult<SpecDomain> {
    match spec_char(s, 0x7b) {
        Err(e) => Err(e),
        Ok((_, s)) => {
            let (v, s) = sep_list(int_literal_parser(), s);
            match spec_char(s, 0x7d) {
                Err(e) => Err(e),
                Ok((_, s)) => Ok((SpecDomain::SetIntNonEmpty(v), s)),
            }
        },
    }
}

/// Recognizes `{e1,e2,...}`.
pub fn set_of_ints_non_empty(input: &str) -> (r: Result<(&str, Domain), ParseError>)
    ensures
        agrees(r, spec_set_of_ints_non_empty(input.spec_bytes())),
{
    let (input, _) = match ascii_char(input, 0x7b) { Ok(q) => q, Err(e) => return Err(e) };
    let (input, v) = int_list(input);
    let (input, _) = match ascii_char(input, 0x7d) { Ok(q) => q, Err(e) => return Err(e) };
    Ok((input, Domain::SetIntNonEmpty(v)))
}

/// A domain; the alternatives are tried in this fixed order: integer range,
/// floating-point range, `set of` range, `set of` enumeration, bare
/// enumeration. When all fail, the failure that got furthest is reported.
pub open spec fn spec_domain(s: Seq<u8>) -> SpecResult<SpecDomain> {
    or_else(spec_int_range(s), or_else(spec_float_range(s), or_else(spec_set_of_int_range(s), or_else(spec_set_of_ints(s), spec_set_of_ints_non_empty(s)))))
}

/// Recognizes a domain.
pub fn domain(input: &str) -> (r: Result<(&str, Domain), ParseError>)
    ensures
        agrees(r, spec_domain(input.spec_bytes())),
{
    match int_range(input) {
        Ok(q) => Ok(q),
        Err(e1) => match float_range(input) {
            Ok(q) => Ok(q),
            Err(e2) => match set_of_int_range(input) {
                Ok(q) => Ok(q),
                Err(e3) => match set_of_ints(input) {
                    Ok(q) => Ok(q),
                    Err(e4) => match set_of_ints_non_empty(input) {
                        Ok(q) => Ok(q),
                        Err(e5) => Err(furthest_error(e1, furthest_error(e2, furthest_error(e3, furthest_error(e4, e5))))),
                    },
                },
            },
        },
    }
}

// ---------------------------------------------------------------------------
// Variable types.


/// The type `bool` of a variable.
pub open spec fn spec_bvt_bool(s: Seq<u8>) -> SpecResult<SpecBasicVarType> {
    match spec_tag(s, "bool".spec_bytes()) {
        Ok((_, r)) => Ok((SpecBasicVarType::Bool, r)),
        Err(e) => Err(e),
    }
}

/// Recognizes the type `bool` of a variable.
pub fn bvt_bool(input: &str) -> (r: Result<(&str, BasicVarType), ParseError>)
    ensures
        agrees(r, spec_bvt_bool(input.spec_bytes())),
{
    match tag(input, "bool") {
        Ok((rest, _)) => Ok((rest, BasicVarType::Bool)),
        Err(e) => Err(e),
    }
}

/// The type `int` of a variable.
pub open spec fn spec_bvt_int(s: Seq<u8>) -> SpecResult<SpecBasicVarType> {
    match spec_tag(s, "int".spec_bytes()) {
        Ok((_, r)) => Ok((SpecBasicVarType::Int, r)),
        Err(e) => Err(e),
    }
}

/// Recognizes the type `int` of a variable.
pub fn bvt_int(input: &str) -> (r: Result<(&str, BasicVarType), ParseError>)
    ensures
        agrees(r, spec_bvt_int(input.spec_bytes())),
{
    match tag(input, "int") {
        Ok((rest, _)) => Ok((rest, BasicVarType::Int)),
        Err(e) => Err(e),
    }
}

/// The type `float` of a variable.
pub open spec fn spec_bvt_float(s: Seq<u8>) -> SpecResult<SpecBasicVarType> {
    match spec_tag(s, "float".spec_bytes()) {
        Ok((_, r)) => Ok((SpecBasicVarType::Float, r)),
        Err(e) => Err(e),
    }
}

/// Recognizes the type `float` of a variable.
pub fn bvt_float(input: &str) -> (r: Result<(&str, BasicVarType), ParseError>)
    ensures
        agrees(r, spec_bvt_float(input.spec_bytes())),
{
    match tag(input, "float") {
        Ok((rest, _)) => Ok((rest, BasicVarType::Float)),
        Err(e) => Err(e),
    }
}

/// A domain as the type of a variable.
pub open spec fn spec_bvt_domain(s: Seq<u8>) -> SpecResult<SpecBasicVarType> {
    match spec_domain(s) {
        Ok((x, r)) => Ok((SpecBasicVarType::Domain(x), r)),
        Err(e) => Err(e),
    }
}

/// Recognizes a domain as the type of a variable.
pub fn bvt_domain(input: &str) -> (r: Result<(&str, BasicVarType), ParseError>)
    ensures
        agrees(r, spec_bvt_domain(input.spec_bytes())),
{
    match domain(input) {
        Ok((rest, x)) => Ok((rest, BasicVarType::Domain(x))),
        Err(e) => Err(e),
    }
}

/// `var` followed by `bool`, `int`, `float` or a domain, tried in that order.
pub open spec fn spec_basic_var_type(s: Seq<u8>) -> SpecResult<SpecBasicVarType> {
    match spec_tag(s, "var".spec_bytes()) {
        Err(e) => Err(e),
        Ok((_, s)) => match spec_space1(s) {
            Err(e) => Err(e),
            Ok((_, s)) => or_else(
                spec_bvt_bool(s),
                or_else(spec_bvt_int(s), or_else(spec_bvt_float(s), spec_bvt_domain(s))),
            ),
        },
    }
}

/// Recognizes a basic variable type.
pub fn basic_var_type(input: &str) -> (r: Result<(&str, BasicVarType), ParseError>)
    ensures
        agrees(r, spec_basic_var_type(input.spec_bytes())),
{
    let (input, _) = match tag(input, "var") { Ok(q) => q, Err(e) => return Err(e) };
    let (input, _) = match space1(input) { Ok(q) => q, Err(e) => return Err(e) };
    match bvt_bool(input) {
        Ok(q) => Ok(q),
        Err(e1) => match bvt_int(input) {
            Ok(q) => Ok(q),
            Err(e2) => match bvt_float(input) {
                Ok(q) => Ok(q),
                Err(e3) => match bvt_domain(input) {
                    Ok(q) => Ok(q),
                    Err(e4) => Err(furthest_error(e1, furthest_error(e2, furthest_error(e3, e4)))),
                },
            },
        },
    }
}

/// `array[1..n]of` followed by a basic variable type, with no blanks
/// between these tokens.
pub open spec fn spec_array_var_type(s: Seq<u8>) -> SpecResult<SpecArrayVarType> {
    match spec_tag(s, "array".spec_bytes()) {
        Err(e) => Err(e),
        Ok((_, s)) => match spec_char(s, 0x5b) {
            Err(e) => Err(e),
            Ok((_, s)) => match spec_index_set(s) {
                Err(e) => Err(e),
                Ok((i, s)) => match spec_char(s, 0x5d) {
                    Err(e) => Err(e),
                    Ok((_, s)) => match spec_tag(s, "of".spec_bytes()) {
                        Err(e) => Err(e),
                        Ok((_, s)) => match spec_basic_var_type(s) {
                            Err(e) => Err(e),
                            Ok((t, s)) => Ok(
                                (SpecArrayVarType { index_set: i, basic_var_type: t }, s),
                            ),
                        },
                    },
                },
            },
        },
    }
}

/// Recognizes an array variable type.
pub fn array_var_type(input: &str) -> (r: Result<(&str, ArrayVarType), ParseError>)
    ensures
        agrees(r, spec_array_var_type(input.spec_bytes())),
{
    let (input, _) = match tag(input, "array") { Ok(q) => q, Err(e) => return Err(e) };
    let (input, _) = match ascii_char(input, 0x5b) { Ok(q) => q, Err(e) => return Err(e) };
    let (input, index_set) = match index_set(input) { Ok(q) => q, Err(e) => return Err(e) };
    let (input, _) = match ascii_char(input, 0x5d) { Ok(q) => q, Err(e) => return Err(e) };
    let (input, _) = match tag(input, "of") { Ok(q) => q, Err(e) => return Err(e) };
    let (input, basic_var_type) = match basic_var_type(input) { Ok(q) => q, Err(e) => return Err(e) };
    Ok((input, ArrayVarType { index_set, basic_var_type }))
}

// ---------------------------------------------------------------------------
// Predicate parameter types.


/// A basic parameter type as the type of a predicate parameter.
pub open spec fn spec_bppt_basic_par_type(s: Seq<u8>) -> SpecResult<SpecBasicPredParamType> {
    match spec_basic_par_type(s) {
        Ok((x, r)) => Ok((SpecBasicPredParamType::BasicParType(x), r)),
        Err(e) => Err(e),
    }
}

/// Recognizes a basic parameter type as the type of a predicate parameter.
pub fn bppt_basic_par_type(input: &str) -> (r: Result<(&str, BasicPredParamType), ParseError>)
    ensures
        agrees(r, spec_bppt_basic_par_type(input.spec_bytes())),
{
    match basic_par_type(input) {
        Ok((rest, x)) => Ok((rest, BasicPredParamType::BasicParType(x))),
        Err(e) => Err(e),
    }
}

/// A basic variable type as the type of a predicate parameter.
pub open spec fn spec_bppt_basic_var_type(s: Seq<u8>) -> SpecResult<SpecBasicPredParamType> {
    match spec_basic_var_type(s) {
        Ok((x, r)) => Ok((SpecBasicPredParamType::BasicVarType(x), r)),
        Err(e) => Err(e),
    }
}

/// Recognizes a basic variable type as the type of a predicate parameter.
pub fn bppt_basic_var_type(input: &str) -> (r: Result<(&str, BasicPredParamType), ParseError>)
    ensures
        agrees(r, spec_bppt_basic_var_type(input.spec_bytes())),
{
    match basic_var_type(input) {
        Ok((rest, x)) => Ok((rest, BasicPredParamType::BasicVarType(x))),
        Err(e) => Err(e),
    }
}

/// A domain as the type of a predicate parameter.
pub open spec fn spec_bppt_domain(s: Seq<u8>) -> SpecResult<SpecBasicPredParamType> {
    match spec_domain(s) {
        Ok((x, r)) => Ok((SpecBasicPredParamType::Domain(x), r)),
        Err(e) => Err(e),
    }
}

/// Recognizes a domain as the type of a predicate parameter.
pub fn bppt_domain(input: &str) -> (r: Result<(&str, BasicPredParamType), ParseError>)
    ensures
        agrees(r, spec_bppt_domain(input.spec_bytes())),
{
    match domain(input) {
        Ok((rest, x)) => Ok((rest, BasicPredParamType::Domain(x))),
        Err(e) => Err(e),
    }
}

/// The type `var set of int` of a predicate parameter.
pub open spec fn spec_var_set_of_int(s: Seq<u8>) -> SpecResult<SpecBasicPredParamType> {
    match spec_tag(s, "var set of int".spec_bytes()) {
        Ok((_, r)) => Ok((SpecBasicPredParamType::VarSetOFInt, r)),
        Err(e) => Err(e),
    }
}

/// Recognizes the type `var set of int` of a predicate parameter.
pub fn var_set_of_int(input: &str) -> (r: Result<(&str, BasicPredParamType), ParseError>)
    ensures
        agrees(r, spec_var_set_of_int(input.spec_bytes())),
{
    match tag(input, "var set of int") {
        Ok((rest, _)) => Ok((rest, BasicPredParamType::VarSetOFInt)),
        Err(e) => Err(e),
    }
}

/// A basic parameter type, a basic variable type, a domain, or
/// `var set of int`, tried in that order.
pub open spec fn spec_basic_pred_param_type(s: Seq<u8>) -> SpecResult<SpecBasicPredParamType> {
    or_else(spec_bppt_basic_par_type(s), or_else(spec_bppt_basic_var_type(s), or_else(spec_bppt_domain(s), spec_var_set_of_int(s))))
}

/// Recognizes the basic type of a predicate parameter.
pub fn basic_pred_param_type(input: &str) -> (r: Result<(&str, BasicPredParamType), ParseError>)
    ensures
        agrees(r, spec_basic_pred_param_type(input.spec_bytes())),
{
    match bppt_basic_par_type(input) {
        Ok(q) => Ok(q),
        Err(e1) => match bppt_basic_var_type(input) {
            Ok(q) => Ok(q),
            Err(e2) => match bppt_domain(input) {
                Ok(q) => Ok(q),
                Err(e3) => match var_set_of_int(input) {
                    Ok(q) => Ok(q),
                    Err(e4) => Err(furthest_error(e1, furthest_error(e2, furthest_error(e3, e4)))),
                },
            },
        },
    }
}


/// The index set `int` of an array of any length.
pub open spec fn spec_pis_int(s: Seq<u8>) -> SpecResult<PredIndexSet> {
    match spec_tag(s, "int".spec_bytes()) {
        Ok((_, r)) => Ok((PredIndexSet::Int, r)),
        Err(e) => Err(e),
    }
}

/// Recognizes the index set `int` of an array of any length.
pub fn pis_int(input: &str) -> (r: Result<(&str, PredIndexSet), ParseError>)
    ensures
        agrees(r, spec_pis_int(input.spec_bytes())),
{
    match tag(input, "int") {
        Ok((rest, _)) => Ok((rest, PredIndexSet::Int)),
        Err(e) => Err(e),
    }
}

/// An index set `1..n` of an array parameter of a predicate.
pub open spec fn spec_pis_index_set(s: Seq<u8>) -> SpecResult<PredIndexSet> {
    match spec_index_set(s) {
        Ok((x, r)) => Ok((PredIndexSet::IndexSet(x), r)),
        Err(e) => Err(e),
    }
}

/// Recognizes an index set `1..n` of an array parameter of a predicate.
pub fn pis_index_set(input: &str) -> (r: Result<(&str, PredIndexSet), ParseError>)
    ensures
        agrees(r, spec_pis_index_set(input.spec_bytes())),
{
    match index_set(input) {
        Ok((rest, x)) => Ok((rest, PredIndexSet::IndexSet(x))),
        Err(e) => Err(e),
    }
}

/// `int`, else an index set `1..n`.
pub open spec fn spec_pred_index_set(s: Seq<u8>) -> SpecResult<PredIndexSet> {
    or_else(spec_pis_int(s), spec_pis_index_set(s))
}

/// Recognizes the index set of an array parameter of a predicate.
pub fn pred_index_set(input: &str) -> (r: Result<(&str, PredIndexSet), ParseError>)
    ensures
        agrees(r, spec_pred_index_set(input.spec_bytes())),
{
    match pis_int(input) {
        Ok(q) => Ok(q),
        Err(e1) => match pis_index_set(input) {
            Ok(q) => Ok(q),
            Err(e2) => Err(furthest_error(e1, e2)),
        },
    }
}

/// `array [` index set `] of` followed by a basic predicate parameter type.
pub open spec fn spec_array_of_pred_index_set(s: Seq<u8>) -> SpecResult<SpecPredParamType> {
    match spec_tag(s, "array".spec_bytes()) {
        Err(e) => Err(e),
        Ok((_, s)) => match spec_space1(s) {
            Err(e) => Err(e),
            Ok((_, s)) => match spec_char(s, 0x5b) {
                Err(e) => Err(e),
                Ok((_, s)) => match spec_pred_index_set(s) {
                    Err(e) => Err(e),
                    Ok((i, s)) => match spec_char(s, 0x5d) {
                        Err(e) => Err(e),
                        Ok((_, s)) => match spec_space1(s) {
                            Err(e) => Err(e),
                            Ok((_, s)) => match spec_tag(s, "of".spec_bytes()) {
                                Err(e) => Err(e),
                                Ok((_, s)) => match spec_space1(s) {
                                    Err(e) => Err(e),
                                    Ok((_, s)) => match spec_basic_pred_param_type(s) {
                                        Err(e) => Err(e),
                                        Ok((t, s)) => Ok((SpecPredParamType::Array(i, t), s)),
                                    },
                                },
                            },
                        },
                    },
                },
            },
        },
    }
}

/// Recognizes an array type of a predicate parameter.
pub fn array_of_pred_index_set(input: &str) -> (r: Result<(&str, PredParamType), ParseError>)
    ensures
        agrees(r, spec_array_of_pred_index_set(input.spec_bytes())),
{
    let (input, _) = match tag(input, "array") { Ok(q) => q, Err(e) => return Err(e) };
    let (input, _) = match space1(input) { Ok(q) => q, Err(e) => return Err(e) };
    let (input, _) = match ascii_char(input, 0x5b) { Ok(q) => q, Err(e) => return Err(e) };
    let (input, i) = match pred_index_set(input) { Ok(q) => q, Err(e) => return Err(e) };
    let (input, _) = match ascii_char(input, 0x5d) { Ok(q) => q, Err(e) => return Err(e) };
    let (input, _) = match space1(input) { Ok(q) => q, Err(e) => return Err(e) };
    let (input, _) = match tag(input, "of") { Ok(q) => q, Err(e) => return Err(e) };
    let (input, _) = match space1(input) { Ok(q) => q, Err(e) => return Err(e) };
    let (input, t) = match basic_pred_param_type(input) { Ok(q) => q, Err(e) => return Err(e) };
    Ok((input, PredParamType::Array(i, t)))
}


/// A basic predicate parameter type, as a predicate parameter type.
pub open spec fn spec_ppt_basic_pred_param_type(s: Seq<u8>) -> SpecResult<SpecPredParamType> {
    match spec_basic_pred_param_type(s) {
        Ok((x, r)) => Ok((SpecPredParamType::BasicPredParamType(x), r)),
        Err(e) => Err(e),
    }
}

/// Recognizes a basic predicate parameter type, as a predicate parameter type.
pub fn ppt_basic_pred_param_type(input: &str) -> (r: Result<(&str, PredParamType), ParseError>)
    ensures
        agrees(r, spec_ppt_basic_pred_param_type(input.spec_bytes())),
{
    match basic_pred_param_type(input) {
        Ok((rest, x)) => Ok((rest, PredParamType::BasicPredParamType(x))),
        Err(e) => Err(e),
    }
}

/// A basic predicate parameter type, else an array one.
pub open spec fn spec_pred_param_type(s: Seq<u8>) -> SpecResult<SpecPredParamType> {
    or_else(spec_ppt_basic_pred_param_type(s), spec_array_of_pred_index_set(s))
}

/// Recognizes the type of a predicate parameter.
pub fn pred_param_type(input: &str) -> (r: Result<(&str, PredParamType), ParseError>)
    ensures
        agrees(r, spec_pred_param_type(input.spec_bytes())),
{
    match ppt_basic_pred_param_type(input) {
        Ok(q) => Ok(q),
        Err(e1) => match array_of_pred_index_set(input) {
            Ok(q) => Ok(q),
            Err(e2) => Err(furthest_error(e1, e2)),
        },
    }
}

} // verus!
