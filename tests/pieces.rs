use flatzinc::{
    _annotation, ann_expr, annotation, array_literal, array_of_pred_index_set, array_var_type,
    be_basic_literal_expr, be_var_par_identifier, ble_bool_literal, ble_float_literal,
    ble_int_literal, ble_set_literal, bppt_basic_par_type, bppt_basic_var_type, bppt_domain,
    bvt_bool, bvt_domain, bvt_float, bvt_int, e_array_literal, e_basic_expr, float_range,
    index_set, int_range, par_array_literal, pe_basic_literal_expr, pe_par_array_literal,
    pis_index_set, pis_int, ppt_basic_pred_param_type, pred_index_set,
    pred_param_type_ident_pair, pt_basic_par_type, set_of_int_range, set_of_ints,
    set_of_ints_non_empty, sl_float_range, sl_int_range, sl_set_of_floats, sl_set_of_ints,
    var_set_of_int, vdi_array, vdi_basic_var, AnnExpr, ArrayVarType, BasicExpr,
    BasicLiteralExpr, BasicParType, BasicPredParamType, BasicVarType, Domain, ErrorKind,
    Expected, Expr, IndexSet, ParExpr, ParType, PredIndexSet, PredParamType, SetLiteral,
    VarDeclItem, domain, var_decl_item,
};

#[test]
fn var_type_alternatives() {
    assert_eq!(bvt_bool("bool"), Ok(("", BasicVarType::Bool)));
    assert_eq!(bvt_int("int;"), Ok((";", BasicVarType::Int)));
    assert_eq!(bvt_float("float"), Ok(("", BasicVarType::Float)));
    assert_eq!(bvt_domain("2..4"), Ok(("", BasicVarType::Domain(Domain::IntRange(2, 4)))));
    assert!(bvt_int("bool").is_err());
}

#[test]
fn pred_param_alternatives() {
    assert_eq!(
        bppt_basic_par_type("float"),
        Ok(("", BasicPredParamType::BasicParType(BasicParType::Float)))
    );
    assert_eq!(
        bppt_basic_var_type("var float"),
        Ok(("", BasicPredParamType::BasicVarType(BasicVarType::Float)))
    );
    assert_eq!(
        bppt_domain("{1}"),
        Ok(("", BasicPredParamType::Domain(Domain::SetIntNonEmpty(vec![1]))))
    );
    assert_eq!(var_set_of_int("var set of int"), Ok(("", BasicPredParamType::VarSetOFInt)));
    assert_eq!(
        ppt_basic_pred_param_type("bool"),
        Ok((
            "",
            PredParamType::BasicPredParamType(BasicPredParamType::BasicParType(BasicParType::Bool))
        ))
    );
    assert_eq!(pt_basic_par_type("int"), Ok(("", ParType::BasicParType(BasicParType::Int))));
    assert_eq!(
        pred_param_type_ident_pair("var int:x)"),
        Ok((
            ")",
            (
                PredParamType::BasicPredParamType(BasicPredParamType::BasicVarType(BasicVarType::Int)),
                "x".to_string()
            )
        ))
    );
}

#[test]
fn index_sets() {
    assert_eq!(index_set("1..10]"), Ok(("]", IndexSet(10))));
    let e = index_set("2..10").unwrap_err();
    assert_eq!((e.kind, e.expected, e.remaining), (ErrorKind::Mismatch, Expected::Keyword, 5));
    assert_eq!(pis_int("int"), Ok(("", PredIndexSet::Int)));
    assert_eq!(pis_index_set("1..3"), Ok(("", PredIndexSet::IndexSet(IndexSet(3)))));
    assert_eq!(pred_index_set("int]"), Ok(("]", PredIndexSet::Int)));
    assert_eq!(pred_index_set("1..2"), Ok(("", PredIndexSet::IndexSet(IndexSet(2)))));
    assert_eq!(
        array_of_pred_index_set("array [1..2] of var bool"),
        Ok((
            "",
            PredParamType::Array(
                PredIndexSet::IndexSet(IndexSet(2)),
                BasicPredParamType::BasicVarType(BasicVarType::Bool)
            )
        ))
    );
}

#[test]
fn domain_pieces() {
    assert_eq!(int_range("-3..-1"), Ok(("", Domain::IntRange(-3, -1))));
    assert!(float_range("1.0..2.0").is_err());
    assert_eq!(set_of_int_range("set of 2..5"), Ok(("", Domain::SetIntRange(2, 5))));
    assert!(set_of_int_range("set of2..5").is_err());
    assert_eq!(set_of_ints("set of {7}"), Ok(("", Domain::SetInt(vec![7]))));
    assert_eq!(set_of_ints_non_empty("{1,2,3}"), Ok(("", Domain::SetIntNonEmpty(vec![1, 2, 3]))));
    let e = set_of_ints_non_empty("{1,2").unwrap_err();
    assert_eq!((e.kind, e.expected), (ErrorKind::Incomplete, Expected::Char(b'}')));
}

#[test]
fn array_var_types() {
    assert_eq!(
        array_var_type("array[1..3]ofvar 0..1"),
        Ok((
            "",
            ArrayVarType {
                index_set: IndexSet(3),
                basic_var_type: BasicVarType::Domain(Domain::IntRange(0, 1)),
            }
        ))
    );
}

#[test]
fn set_literal_pieces() {
    assert_eq!(sl_int_range("0..9"), Ok(("", SetLiteral::IntRange(0, 9))));
    assert!(sl_float_range("0.5..1.5").is_err());
    assert_eq!(sl_set_of_floats("{}"), Ok(("", SetLiteral::SetFloats(vec![]))));
    assert!(sl_set_of_floats("{1}").is_err());
    assert_eq!(sl_set_of_ints("{1,-2}"), Ok(("", SetLiteral::SetInts(vec![1, -2]))));
}

#[test]
fn literal_alternatives() {
    assert_eq!(ble_bool_literal("false"), Ok(("", BasicLiteralExpr::BoolLiteral(false))));
    assert_eq!(ble_int_literal("-8"), Ok(("", BasicLiteralExpr::IntLiteral(-8))));
    assert!(ble_float_literal("8.5").is_err());
    assert_eq!(
        ble_set_literal("{3}"),
        Ok(("", BasicLiteralExpr::SetLiteral(SetLiteral::SetInts(vec![3]))))
    );
    assert_eq!(
        be_basic_literal_expr("true"),
        Ok(("", BasicExpr::BasicLiteralExpr(BasicLiteralExpr::BoolLiteral(true))))
    );
    assert_eq!(be_var_par_identifier("_v"), Ok(("", BasicExpr::VarParIdentifier("_v".to_string()))));
}

#[test]
fn expression_alternatives() {
    assert_eq!(
        e_basic_expr("y"),
        Ok(("", Expr::BasicExpr(BasicExpr::VarParIdentifier("y".to_string()))))
    );
    assert_eq!(e_array_literal("[]"), Ok(("", Expr::ArrayLiteral(vec![]))));
    assert_eq!(
        pe_basic_literal_expr("4"),
        Ok(("", ParExpr::BasicLiteralExpr(BasicLiteralExpr::IntLiteral(4))))
    );
    assert_eq!(
        pe_par_array_literal("[true]"),
        Ok(("", ParExpr::ParArrayLiteral(vec![BasicLiteralExpr::BoolLiteral(true)])))
    );
    assert!(par_array_literal("[x]").is_err());
    assert_eq!(
        array_literal("[x,1]"),
        Ok((
            "",
            vec![
                BasicExpr::VarParIdentifier("x".to_string()),
                BasicExpr::BasicLiteralExpr(BasicLiteralExpr::IntLiteral(1)),
            ]
        ))
    );
}

#[test]
fn annotation_pieces() {
    assert_eq!(annotation("::  is_defined_var  ;"), Ok((";", "is_defined_var".to_string())));
    assert_eq!(_annotation("::::a"), Ok(("", "a".to_string())));
    assert!(_annotation("::a").is_err());
    assert_eq!(ann_expr("anything"), Ok(("anything", AnnExpr)));
}

#[test]
fn variable_declaration_pieces() {
    assert_eq!(
        vdi_basic_var("var int : y = x"),
        Ok((
            "",
            VarDeclItem::Basic(
                BasicVarType::Int,
                "y".to_string(),
                vec![],
                Some(BasicExpr::VarParIdentifier("x".to_string()))
            )
        ))
    );
    let (rest, v) = vdi_array("array[1..1]ofvar bool: z = [true]").unwrap();
    assert_eq!(rest, "");
    assert!(matches!(v, VarDeclItem::Array(_, _, _, _)));
    assert!(vdi_array("array[1..1]ofvar bool: z").is_err());
}

#[test]
fn initializer_needs_equals_and_expression_together() {
    assert!(var_decl_item("var int: x = ;\n").is_err());
    let e = var_decl_item("var int: x = ;\n").unwrap_err();
    assert_eq!(e.kind, ErrorKind::Mismatch);
    assert_eq!(
        vdi_basic_var("var int: x 3"),
        Ok(("3", VarDeclItem::Basic(BasicVarType::Int, "x".to_string(), vec![], None)))
    );
    assert!(var_decl_item("var int: x 3;\n").is_err());
    assert_eq!(
        var_decl_item("var int: x = 3 ;\n"),
        Ok((
            "",
            VarDeclItem::Basic(
                BasicVarType::Int,
                "x".to_string(),
                vec![],
                Some(BasicExpr::BasicLiteralExpr(BasicLiteralExpr::IntLiteral(3)))
            )
        ))
    );
}

#[test]
fn failed_choice_reports_furthest_failure() {
    let e = domain("set of {1,2").unwrap_err();
    assert_eq!((e.kind, e.expected, e.remaining), (ErrorKind::Incomplete, Expected::Keyword, 0));
    let e = domain("set of x").unwrap_err();
    assert_eq!((e.kind, e.expected, e.remaining), (ErrorKind::Mismatch, Expected::Digit, 1));
}
