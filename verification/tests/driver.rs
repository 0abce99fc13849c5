use formality_driver::dump::dump_program;
use formality_driver::mir::{
    convert, crate_into_formality, fn_into_formality, Body, IntTy, ItemKind, LocalDecl, MirCrate,
    MirCrateItem, MirRigidTy, MirTyKind, UintTy,
};
use formality_driver::grammar::{MaybeFnBody, RigidName, ScalarId, Ty};

fn local(kind: MirRigidTy, text: &str) -> LocalDecl {
    LocalDecl { ty: MirTyKind::RigidTy(kind), ty_text: text.to_string() }
}

fn fn_item(name: &str, args: Vec<LocalDecl>, ret: LocalDecl) -> MirCrateItem {
    MirCrateItem {
        kind: ItemKind::Fn,
        name: name.to_string(),
        body: Some(Body { arg_locals: args, ret_local: ret, num_blocks: 0 }),
    }
}

#[test]
fn empty_crate() {
    let krate = MirCrate { name: "empty_crate".to_string() };
    let program = convert(&krate, &vec![]);
    assert_eq!(dump_program(&program), "[\ncrate empty_crate {\n}\n]");
}

#[test]
fn convert_then_dump_functions() {
    let krate = MirCrate { name: "c".to_string() };
    let items = vec![
        fn_item(
            "add",
            vec![local(MirRigidTy::Int(IntTy::I32), "i32"), local(MirRigidTy::Uint(UintTy::U8), "u8")],
            local(MirRigidTy::Bool, "bool"),
        ),
        fn_item("id", vec![local(MirRigidTy::Uint(UintTy::Usize), "usize")], local(MirRigidTy::Int(IntTy::Isize), "isize")),
    ];
    let program = convert(&krate, &items);
    assert_eq!(
        dump_program(&program),
        "[\ncrate c {\nfn add (i32, u8) -> bool\
         fn id (usize) -> isize}\n]"
    );
}

#[test]
fn converted_fn_has_no_body() {
    let item = fn_item("f", vec![], local(MirRigidTy::Int(IntTy::I64), "i64"));
    let f = fn_into_formality(&item);
    assert_eq!(f.id, "f");
    assert!(f.binder.vars.is_empty());
    assert!(matches!(f.binder.term.body, MaybeFnBody::NoFnBody));
    match &f.binder.term.output_ty {
        Ty::RigidTy(r) => {
            assert!(matches!(r.name, RigidName::ScalarId(ScalarId::I64)));
            assert!(r.parameters.is_empty());
        }
        _ => panic!("not rigid"),
    }
}

#[test]
fn crate_keeps_its_name() {
    let krate = MirCrate { name: "named".to_string() };
    let c = crate_into_formality(&krate, &vec![fn_item("g", vec![], local(MirRigidTy::Bool, "bool"))]);
    assert_eq!(c.id, "named");
    assert_eq!(c.items.len(), 1);
}
