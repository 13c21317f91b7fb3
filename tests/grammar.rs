use flatzinc::{
    annotations, array_par_type, basic_par_type, basic_var_type, bool_literal, constraint_item,
    domain, expr, float_literal, from_dec, identifier, int_literal, is_identifier_rest, model,
    par_decl_item, par_type, pred_param_type, predicate_item, set_literal, solve_item,
    var_decl_item, var_par_identifier, BasicExpr, BasicLiteralExpr, BasicParType,
    BasicPredParamType, BasicVarType, ConstraintItem, Domain, ErrorKind, Expected, Expr,
    IndexSet, ParDeclItem, ParExpr, ParType, PredIndexSet, PredParamType, PredicateItem,
    SetLiteral, SolveItem, VarDeclItem,
};

#[test]
fn int_literal_round_trips_decimal_text() {
    for n in [0i128, 7, -7, 42, -1234567890, i128::MAX, i128::MIN] {
        let text = n.to_string();
        assert_eq!(int_literal(&text), Ok(("", n)));
    }
}

#[test]
fn int_literal_negative_zero_is_zero() {
    assert_eq!(int_literal("-0"), Ok(("", 0)));
}

#[test]
fn int_literal_leaves_what_follows() {
    assert_eq!(int_literal("12..3"), Ok(("..3", 12)));
}

#[test]
fn int_literal_out_of_range_is_rejected() {
    let e = int_literal("170141183460469231731687303715884105728").unwrap_err();
    assert_eq!(e.kind, ErrorKind::Mismatch);
    assert_eq!(e.expected, Expected::IntegerInRange);
    assert_eq!(e.remaining, 39);
    let e = int_literal("-170141183460469231731687303715884105729").unwrap_err();
    assert_eq!(e.expected, Expected::IntegerInRange);
}

#[test]
fn int_literal_errors() {
    let e = int_literal("x1").unwrap_err();
    assert_eq!((e.kind, e.expected, e.remaining), (ErrorKind::Mismatch, Expected::Digit, 2));
    let e = int_literal("-").unwrap_err();
    assert_eq!((e.kind, e.expected, e.remaining), (ErrorKind::Incomplete, Expected::Digit, 0));
    let e = int_literal("").unwrap_err();
    assert_eq!(e.kind, ErrorKind::Incomplete);
}

#[test]
fn from_dec_values() {
    assert_eq!(from_dec("0"), Some(0));
    assert_eq!(from_dec("00123"), Some(123));
    assert_eq!(from_dec("340282366920938463463374607431768211455"), Some(u128::MAX));
    assert_eq!(from_dec("340282366920938463463374607431768211456"), None);
    assert_eq!(from_dec(""), None);
    assert_eq!(from_dec("12a"), None);
    assert_eq!(from_dec("-1"), None);
}

#[test]
fn identifiers() {
    assert_eq!(identifier("abc_1 rest"), Ok((" rest", "abc_1".to_string())));
    assert!(identifier("_x").is_err());
    assert!(identifier("1x").is_err());
    assert_eq!(var_par_identifier("_x1;"), Ok((";", "_x1".to_string())));
    assert!(is_identifier_rest('_'));
    assert!(is_identifier_rest('Z'));
    assert!(is_identifier_rest('0'));
    assert!(!is_identifier_rest('-'));
}

#[test]
fn identifier_keeps_non_ascii_rest() {
    assert_eq!(identifier("ab\u{e9}"), Ok(("\u{e9}", "ab".to_string())));
}

#[test]
fn bool_literals() {
    assert_eq!(bool_literal("true,"), Ok((",", true)));
    assert_eq!(bool_literal("false"), Ok(("", false)));
    let e = bool_literal("fals").unwrap_err();
    assert_eq!((e.kind, e.expected), (ErrorKind::Incomplete, Expected::Keyword));
    let e = bool_literal("maybe").unwrap_err();
    assert_eq!((e.kind, e.expected), (ErrorKind::Mismatch, Expected::Keyword));
}

#[test]
fn float_literal_always_fails() {
    let e = float_literal("1.5").unwrap_err();
    assert_eq!((e.kind, e.expected, e.remaining), (ErrorKind::Mismatch, Expected::FloatLiteral, 3));
    let e = float_literal("inf").unwrap_err();
    assert_eq!(e.kind, ErrorKind::Mismatch);
}

#[test]
fn basic_par_types() {
    assert_eq!(basic_par_type("bool"), Ok(("", BasicParType::Bool)));
    assert_eq!(basic_par_type("int:"), Ok((":", BasicParType::Int)));
    assert_eq!(basic_par_type("float"), Ok(("", BasicParType::Float)));
    assert_eq!(basic_par_type("set of int"), Ok(("", BasicParType::SetOfInt)));
    assert!(basic_par_type("string").is_err());
}

#[test]
fn par_types() {
    assert_eq!(par_type("int"), Ok(("", ParType::BasicParType(BasicParType::Int))));
    let expected = ParType::Array(IndexSet(3), BasicParType::Int);
    assert_eq!(par_type("array [1..3] of int"), Ok(("", expected)));
    assert_eq!(array_par_type("array [ 1..3 ] of bool"), Ok(("", ParType::Array(IndexSet(3), BasicParType::Bool))));
    assert!(array_par_type("array [0..3] of int").is_err());
}

#[test]
fn domain_plain_range_is_int_range() {
    assert_eq!(domain("1..10"), Ok(("", Domain::IntRange(1, 10))));
}

#[test]
fn domain_set_forms() {
    assert_eq!(domain("set of {1,2,3}"), Ok(("", Domain::SetInt(vec![1, 2, 3]))));
    assert_eq!(domain("set of 1..3"), Ok(("", Domain::SetIntRange(1, 3))));
    assert_eq!(domain("{}"), Ok(("", Domain::SetIntNonEmpty(vec![]))));
    assert_eq!(domain("set of {}"), Ok(("", Domain::SetInt(vec![]))));
    assert_eq!(domain("{-1,4}"), Ok(("", Domain::SetIntNonEmpty(vec![-1, 4]))));
}

#[test]
fn domain_list_leaves_dangling_separator() {
    assert!(domain("{1,2,}").is_err());
    let e = domain("{1,2,}").unwrap_err();
    assert_eq!((e.kind, e.expected, e.remaining), (ErrorKind::Mismatch, Expected::Char(b'}'), 2));
}

#[test]
fn basic_var_types() {
    assert_eq!(basic_var_type("var int"), Ok(("", BasicVarType::Int)));
    assert_eq!(basic_var_type("var bool"), Ok(("", BasicVarType::Bool)));
    assert_eq!(
        basic_var_type("var 0..5"),
        Ok(("", BasicVarType::Domain(Domain::IntRange(0, 5))))
    );
    assert!(basic_var_type("int").is_err());
}

#[test]
fn pred_param_types() {
    assert_eq!(
        pred_param_type("var set of int"),
        Ok(("", PredParamType::BasicPredParamType(BasicPredParamType::VarSetOFInt)))
    );
    assert_eq!(
        pred_param_type("array [int] of var int"),
        Ok((
            "",
            PredParamType::Array(
                PredIndexSet::Int,
                BasicPredParamType::BasicVarType(BasicVarType::Int)
            )
        ))
    );
    assert_eq!(
        pred_param_type("array [1..4] of int"),
        Ok((
            "",
            PredParamType::Array(
                PredIndexSet::IndexSet(IndexSet(4)),
                BasicPredParamType::BasicParType(BasicParType::Int)
            )
        ))
    );
}

#[test]
fn set_literals() {
    assert_eq!(set_literal("1..3"), Ok(("", SetLiteral::IntRange(1, 3))));
    assert_eq!(set_literal("{1,2}"), Ok(("", SetLiteral::SetInts(vec![1, 2]))));
    assert_eq!(set_literal("{}"), Ok(("", SetLiteral::SetFloats(vec![]))));
}

#[test]
fn expressions() {
    assert_eq!(
        expr("[1,x]"),
        Ok((
            "",
            Expr::ArrayLiteral(vec![
                BasicExpr::BasicLiteralExpr(BasicLiteralExpr::IntLiteral(1)),
                BasicExpr::VarParIdentifier("x".to_string()),
            ])
        ))
    );
    assert_eq!(
        expr("{2}"),
        Ok(("", Expr::BasicExpr(BasicExpr::BasicLiteralExpr(BasicLiteralExpr::SetLiteral(SetLiteral::SetInts(vec![2]))))))
    );
}

#[test]
fn predicate_item_two_parameters() {
    let expected = PredicateItem {
        ident: "foo".to_string(),
        parameters: vec![
            (
                PredParamType::BasicPredParamType(BasicPredParamType::BasicParType(BasicParType::Int)),
                "x".to_string(),
            ),
            (
                PredParamType::BasicPredParamType(BasicPredParamType::BasicParType(BasicParType::Bool)),
                "y".to_string(),
            ),
        ],
    };
    assert_eq!(predicate_item("predicate foo(int:x,bool:y);\n"), Ok(("", expected)));
}

#[test]
fn constraint_item_with_identifier_and_literal() {
    let expected = ConstraintItem {
        ident: "int_eq".to_string(),
        exprs: vec![
            Expr::BasicExpr(BasicExpr::VarParIdentifier("x".to_string())),
            Expr::BasicExpr(BasicExpr::BasicLiteralExpr(BasicLiteralExpr::IntLiteral(5))),
        ],
        annos: vec![],
    };
    assert_eq!(constraint_item("constraint int_eq(x,5);\n"), Ok(("", expected)));
}

#[test]
fn constraint_item_with_annotations() {
    let (rest, c) = constraint_item("constraint int_le( a,b ) :: domain :: bounds ;\nx").unwrap();
    assert_eq!(rest, "x");
    assert_eq!(c.annos, vec!["domain".to_string(), "bounds".to_string()]);
    assert_eq!(c.exprs.len(), 2);
}

#[test]
fn annotation_lists() {
    assert_eq!(annotations(":: a :: b;"), Ok((";", vec!["a".to_string(), "b".to_string()])));
    assert_eq!(annotations("x"), Ok(("x", vec![])));
}

#[test]
fn par_decl_items() {
    let expected = ParDeclItem {
        parameter_type: ParType::BasicParType(BasicParType::Int),
        identifier: "n".to_string(),
        expr: ParExpr::BasicLiteralExpr(BasicLiteralExpr::IntLiteral(5)),
    };
    assert_eq!(par_decl_item("int: n = 5;\n"), Ok(("", expected)));
    let (_, d) = par_decl_item("array [1..2] of int: a = [1,2];\n").unwrap();
    assert_eq!(
        d.expr,
        ParExpr::ParArrayLiteral(vec![BasicLiteralExpr::IntLiteral(1), BasicLiteralExpr::IntLiteral(2)])
    );
}

#[test]
fn par_decl_item_without_initializer_is_a_mismatch() {
    let e = par_decl_item("int: x ;\n").unwrap_err();
    assert_eq!(e.kind, ErrorKind::Mismatch);
    assert_eq!(e.expected, Expected::Char(b'='));
    let e = par_decl_item("int: x;\n").unwrap_err();
    assert_eq!(e.kind, ErrorKind::Mismatch);
}

#[test]
fn par_decl_item_rejects_identifier_values() {
    assert!(par_decl_item("int: n = m;\n").is_err());
}

#[test]
fn var_decl_items() {
    assert_eq!(
        var_decl_item("var int: x;\n"),
        Ok(("", VarDeclItem::Basic(BasicVarType::Int, "x".to_string(), vec![], None)))
    );
    assert_eq!(
        var_decl_item("var bool: b :: output_var = true;\n"),
        Ok((
            "",
            VarDeclItem::Basic(
                BasicVarType::Bool,
                "b".to_string(),
                vec!["output_var".to_string()],
                Some(BasicExpr::BasicLiteralExpr(BasicLiteralExpr::BoolLiteral(true)))
            )
        ))
    );
    let (rest, v) = var_decl_item("array[1..2]ofvar int: a = [x,y];\n").unwrap();
    assert_eq!(rest, "");
    match v {
        VarDeclItem::Array(t, id, annos, els) => {
            assert_eq!(t.index_set, IndexSet(2));
            assert_eq!(t.basic_var_type, BasicVarType::Int);
            assert_eq!(id, "a");
            assert!(annos.is_empty());
            assert_eq!(els.len(), 2);
        }
        _ => panic!("expected an array declaration"),
    }
}

#[test]
fn solve_item_consumes_nothing() {
    assert_eq!(solve_item("solve satisfy;\n"), Ok(("solve satisfy;\n", SolveItem)));
}

#[test]
fn model_collects_items_in_order() {
    let text = "predicate p(int:x);\nint: n = 3;\nvar 1..3: v;\nconstraint p(v);\nsolve satisfy;\n";
    let (rest, m) = model(text).unwrap();
    assert_eq!(rest, "solve satisfy;\n");
    assert_eq!(m.predicate_items.len(), 1);
    assert_eq!(m.par_decl_items.len(), 1);
    assert_eq!(m.var_decl_items.len(), 1);
    assert_eq!(m.constraint_items.len(), 1);
    assert_eq!(m.solve_item, SolveItem);
}

#[test]
fn model_reparse_of_rest_finds_nothing() {
    let text = "var int: x;\nconstraint int_eq(x,5);\nsolve satisfy;\n";
    let (rest, m) = model(text).unwrap();
    assert_eq!(m.var_decl_items.len(), 1);
    let (rest2, m2) = model(rest).unwrap();
    assert_eq!(rest2, rest);
    assert!(m2.predicate_items.is_empty());
    assert!(m2.par_decl_items.is_empty());
    assert!(m2.var_decl_items.is_empty());
    assert!(m2.constraint_items.is_empty());
}

#[test]
fn model_of_empty_text() {
    let (rest, m) = model("").unwrap();
    assert_eq!(rest, "");
    assert!(m.constraint_items.is_empty());
}

#[test]
fn predicate_item_leaves_following_text() {
    for tail in ["", "predicate g();\n", "constraint c(x);\n", "\u{e9}tc"] {
        let text = format!("predicate foo(int:x,bool:y);\n{}", tail);
        let (rest, item) = predicate_item(&text).unwrap();
        assert_eq!(rest, tail);
        assert_eq!(item.ident, "foo");
        assert_eq!(item.parameters.len(), 2);
        assert_eq!(item.parameters[1].1, "y");
    }
}

#[test]
fn model_of_well_formed_text_leaves_nothing() {
    let text = "predicate p(int:x);\nint: n = 3;\nvar 1..3: v = n;\nconstraint p(v);\n";
    let (rest, m) = model(text).unwrap();
    assert_eq!(rest, "");
    assert_eq!(m.var_decl_items.len(), 1);
    let (rest2, m2) = model(rest).unwrap();
    assert_eq!(rest2, "");
    assert!(m2.predicate_items.is_empty() && m2.constraint_items.is_empty());
}
