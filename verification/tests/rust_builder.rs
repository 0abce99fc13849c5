use formality_driver::grammar::{
    Binder, Block, Expr, FieldExpr, FieldName, Init, Label, Lt, Parameter, PlaceExpr, RefKind,
    RigidName, ScalarId, Stmt, Turbofish, Ty,
};
use formality_driver::rust_builder::{PrettyError, RustBuilder};

fn scalar(s: ScalarId) -> Ty {
    Ty::rigid(RigidName::ScalarId(s), Vec::<Parameter>::new())
}

fn lit(value: usize, s: ScalarId) -> Expr {
    Expr::Literal { value, ty: scalar(s) }
}

fn var(name: &str) -> PlaceExpr {
    PlaceExpr::Var(name.to_string())
}

fn lt_var(name: &str) -> Lt {
    Lt::Var(name.to_string())
}

#[test]
fn blub() {
    // exists<'r0, 'r1> {
    //     let v1: i32 = 0 _ i32;
    //     let v2: &mut 'r0 i32 = &mut 'r1 v1;
    //     v1 = 1 _ i32;
    //     return *v2;
    // }
    let body = Block {
        stmts: vec![Stmt::Exists {
            binder: Binder {
                vars: vec!["r0".to_string(), "r1".to_string()],
                term: Block {
                    stmts: vec![
                        Stmt::Let {
                            label: None,
                            id: "v1".to_string(),
                            ty: scalar(ScalarId::I32),
                            init: Some(Init { expr: lit(0, ScalarId::I32) }),
                        },
                        Stmt::Let {
                            label: None,
                            id: "v2".to_string(),
                            ty: Ty::rigid(
                                RigidName::Ref(RefKind::Mut),
                                vec![Parameter::Lt(lt_var("r0")), Parameter::Ty(scalar(ScalarId::I32))],
                            ),
                            init: Some(Init {
                                expr: Expr::Ref { kind: RefKind::Mut, lt: lt_var("r1"), place: var("v1") },
                            }),
                        },
                        Stmt::Expr {
                            expr: Expr::Assign { place: var("v1"), expr: Box::new(lit(1, ScalarId::I32)) },
                        },
                        Stmt::Return {
                            expr: Expr::Place(PlaceExpr::Deref { prefix: Box::new(var("v2")) }),
                        },
                    ],
                },
            },
        }],
    };
    let mut builder = RustBuilder::new();
    let text = builder.build_block(&body);
    assert_eq!(
        text,
        "{ { let mut v1: i32 = 0_i32;\nlet mut v2: & mut i32 = & mut v1;\nv1 = 1_i32;\nreturn *v2; } }"
    );
}

#[test]
fn lifetimes_in_and_out_of_scope() {
    let builder = RustBuilder::new();
    assert_eq!(builder.pretty_print_lt(&Lt::Static).unwrap(), "'static");
    assert!(matches!(builder.pretty_print_lt(&lt_var("a")), Err(PrettyError::UnboundLifetime)));
    let ty = Ty::rigid(
        RigidName::Ref(RefKind::Shared),
        vec![Parameter::Lt(lt_var("a")), Parameter::Ty(scalar(ScalarId::U8))],
    );
    assert!(matches!(builder.pretty_print_type(&ty), Err(PrettyError::UnboundLifetime)));
    let st = Ty::rigid(
        RigidName::Ref(RefKind::Shared),
        vec![Parameter::Lt(Lt::Static), Parameter::Ty(scalar(ScalarId::U8))],
    );
    assert_eq!(builder.pretty_print_type(&st).unwrap(), "&'static  u8");
}

#[test]
fn type_texts() {
    let builder = RustBuilder::new();
    let unit = Ty::rigid(RigidName::Tuple(0), Vec::<Parameter>::new());
    assert_eq!(builder.pretty_print_type(&unit).unwrap(), "()");
    let one = Ty::rigid(RigidName::Tuple(1), vec![Parameter::Ty(scalar(ScalarId::Bool))]);
    assert_eq!(builder.pretty_print_type(&one).unwrap(), "(bool,)");
    let pair = Ty::rigid(
        RigidName::Tuple(2),
        vec![Parameter::Ty(scalar(ScalarId::U16)), Parameter::Ty(scalar(ScalarId::I64))],
    );
    assert_eq!(builder.pretty_print_type(&pair).unwrap(), "(u16, i64)");
    let adt = Ty::rigid(
        RigidName::AdtId("Map".to_string()),
        vec![Parameter::Ty(scalar(ScalarId::U32)), Parameter::Ty(pair)],
    );
    assert_eq!(builder.pretty_print_type(&adt).unwrap(), "Map<u32, (u16, i64)>");
    let plain = Ty::rigid(RigidName::AdtId("Foo".to_string()), Vec::<Parameter>::new());
    assert_eq!(builder.pretty_print_type(&plain).unwrap(), "Foo");
}

#[test]
fn unsupported_types() {
    let builder = RustBuilder::new();
    assert!(matches!(builder.pretty_print_type(&Ty::Variable("T".to_string())), Err(PrettyError::Unsupported)));
    let raw = Ty::rigid(RigidName::Raw(RefKind::Mut), vec![Parameter::Ty(scalar(ScalarId::U8))]);
    assert!(matches!(builder.pretty_print_type(&raw), Err(PrettyError::Unsupported)));
    let bad_tuple = Ty::rigid(RigidName::Tuple(2), vec![Parameter::Ty(scalar(ScalarId::U8))]);
    assert!(matches!(builder.pretty_print_type(&bad_tuple), Err(PrettyError::Unsupported)));
    let bad_ref = Ty::rigid(RigidName::Ref(RefKind::Mut), vec![Parameter::Ty(scalar(ScalarId::U8))]);
    assert!(matches!(builder.pretty_print_type(&bad_ref), Err(PrettyError::Unsupported)));
    // the first error from the left wins
    let both = Ty::rigid(
        RigidName::AdtId("P".to_string()),
        vec![Parameter::Lt(lt_var("x")), Parameter::Ty(Ty::Variable("T".to_string()))],
    );
    assert!(matches!(builder.pretty_print_type(&both), Err(PrettyError::UnboundLifetime)));
}

#[test]
fn call_and_literal_exprs() {
    let mut builder = RustBuilder::new();
    let call = Expr::Call {
        callee: Box::new(Expr::Place(var("f"))),
        args: vec![lit(1234, ScalarId::U64), Expr::True, Expr::False],
    };
    assert_eq!(builder.build_expr(&call), "f(1234_u64, true, false)");
    let empty_call = Expr::Call { callee: Box::new(Expr::Place(var("g"))), args: vec![] };
    assert_eq!(builder.build_expr(&empty_call), "g()");
}

#[test]
fn turbofish_and_struct_exprs() {
    let mut builder = RustBuilder::new();
    let tf = Expr::Turbofish {
        id: "size_of".to_string(),
        args: vec![Parameter::Ty(scalar(ScalarId::U8)), Parameter::Ty(scalar(ScalarId::Bool))],
    };
    assert_eq!(builder.build_expr(&tf), "size_of::<u8, bool>");
    let s = Expr::Struct {
        field_exprs: vec![
            FieldExpr { name: FieldName::Id("a".to_string()), value: lit(1, ScalarId::U8) },
            FieldExpr { name: FieldName::Index(1), value: Expr::True },
        ],
        adt_id: "S".to_string(),
        turbofish: Turbofish { parameters: vec![Parameter::Ty(scalar(ScalarId::I8))] },
    };
    assert_eq!(builder.build_expr(&s), "S<i8> { a: 1_u8, true }");
    let bare = Expr::Struct {
        field_exprs: vec![],
        adt_id: "Unit".to_string(),
        turbofish: Turbofish { parameters: vec![] },
    };
    assert_eq!(builder.build_expr(&bare), "Unit {  }");
}

#[test]
fn place_exprs() {
    let mut builder = RustBuilder::new();
    let p = PlaceExpr::Field {
        prefix: Box::new(PlaceExpr::Parens(Box::new(PlaceExpr::Deref { prefix: Box::new(var("x")) }))),
        field_name: FieldName::Index(10),
    };
    assert_eq!(builder.build_place_expr(&p), "(*x).10");
    assert_eq!(builder.build_field_name(&FieldName::Id("f".to_string())), "f");
    let shared = Expr::Ref { kind: RefKind::Shared, lt: Lt::Static, place: var("y") };
    assert_eq!(builder.build_expr(&shared), "&'static  y");
}

#[test]
fn control_flow_stmts() {
    let mut builder = RustBuilder::new();
    let lp = Stmt::Loop {
        label: Some(Label { id: "'outer".to_string() }),
        body: Block {
            stmts: vec![
                Stmt::Break { label: "'outer".to_string() },
                Stmt::Continue { label: "'outer".to_string() },
            ],
        },
    };
    assert_eq!(builder.build_stmt(&lp), "'outer: loop { { break 'outer;\ncontinue 'outer; } }");
    let unlabelled = Stmt::Loop { label: None, body: Block { stmts: vec![] } };
    assert_eq!(builder.build_stmt(&unlabelled), "loop { {  } }");
    let iff = Stmt::If {
        condition: Expr::True,
        then_block: Block { stmts: vec![Stmt::Expr { expr: Expr::False }] },
        else_block: Block { stmts: vec![] },
    };
    assert_eq!(builder.build_stmt(&iff), "if true { { false } } else { {  } }");
    let decl = Stmt::Let { label: None, id: "x".to_string(), ty: scalar(ScalarId::Bool), init: None };
    assert_eq!(builder.build_stmt(&decl), "let mut x: bool;");
}

#[test]
fn scope_is_restored_after_exists() {
    let mut builder = RustBuilder::new();
    let ex = Stmt::Exists {
        binder: Binder {
            vars: vec!["a".to_string()],
            term: Block {
                stmts: vec![Stmt::Expr {
                    expr: Expr::Ref { kind: RefKind::Shared, lt: lt_var("a"), place: var("z") },
                }],
            },
        },
    };
    assert_eq!(builder.build_stmt(&ex), "{ &  z }");
    assert!(matches!(builder.pretty_print_lt(&lt_var("a")), Err(PrettyError::UnboundLifetime)));
}

#[test]
fn exists_block_prints_the_same_when_nested() {
    let inner = Stmt::Exists {
        binder: Binder {
            vars: vec!["b".to_string()],
            term: Block {
                stmts: vec![Stmt::Let {
                    label: None,
                    id: "r".to_string(),
                    ty: Ty::rigid(
                        RigidName::Ref(RefKind::Shared),
                        vec![Parameter::Lt(lt_var("b")), Parameter::Ty(scalar(ScalarId::U32))],
                    ),
                    init: None,
                }],
            },
        },
    };
    let mut top = RustBuilder::new();
    let alone = top.build_stmt(&inner);
    assert_eq!(alone, "{ let mut r: &  u32; }");

    let outer = Stmt::Exists {
        binder: Binder { vars: vec!["a".to_string(), "b".to_string()], term: Block { stmts: vec![inner] } },
    };
    let nested = top.build_stmt(&outer);
    assert_eq!(nested, format!("{{ {} }}", alone));
}
