//! A parser for the flattened constraint-model interchange format.
//!
//! Every recognizer takes the remaining input text and returns either the
//! recognized value together with the unconsumed rest, or a [`ParseError`].
//! Each one is specified by a spec function on the input's UTF-8 bytes,
//! placed beside it; the recognizer's result agrees with that function.
pub mod error;
pub mod expressions;
pub mod items;
pub mod lexical;
pub mod types;

pub use error::{ErrorKind, Expected, ParseError};
pub use expressions::{
    array_literal, basic_expr, basic_literal_expr, be_basic_literal_expr, be_var_par_identifier,
    ble_bool_literal, ble_float_literal, ble_int_literal, ble_set_literal, e_array_literal,
    e_basic_expr, expr, par_array_literal, par_expr, pe_basic_literal_expr, pe_par_array_literal,
    set_literal, sl_float_range, sl_int_range, sl_set_of_floats, sl_set_of_ints, BasicExpr,
    BasicLiteralExpr, Expr, ParExpr, SetLiteral,
};
pub use items::{
    _annotation, ann_expr, annotation, annotations, constraint_item, model, par_decl_item,
    pred_param_type_ident_pair, predicate_item, solve_item, var_decl_item, vdi_array,
    vdi_basic_var, AnnExpr, ConstraintItem, Model, ParDeclItem, PredicateItem, SolveItem,
    VarDeclItem,
};
pub use lexical::{
    bool_literal, float_literal, from_dec, identifier, int_literal, is_identifier_rest,
    var_par_identifier, Float,
};
pub use types::{
    array_of_pred_index_set, array_par_type, array_var_type, basic_par_type,
    basic_pred_param_type, basic_var_type, bppt_basic_par_type, bppt_basic_var_type, bppt_domain,
    bvt_bool, bvt_domain, bvt_float, bvt_int, domain, float_range, index_set, int_range, par_type,
    pis_index_set, pis_int, ppt_basic_pred_param_type, pred_index_set, pred_param_type,
    pt_basic_par_type, var_set_of_int, set_of_int_range, set_of_ints, set_of_ints_non_empty,
    ArrayVarType, BasicParType, BasicPredParamType, BasicVarType, Domain, IndexSet, ParType,
    PredIndexSet, PredParamType,
};
