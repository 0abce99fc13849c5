use formality_driver::conversion::{compile_crate, compile_local_crate};
use formality_driver::mir::{Body, IntTy, ItemKind, LocalDecl, MirCrate, MirCrateItem, MirRigidTy, MirTyKind};

fn local(text: &str) -> LocalDecl {
    LocalDecl { ty: MirTyKind::RigidTy(MirRigidTy::Int(IntTy::I32)), ty_text: text.to_string() }
}

fn fn_item(name: &str, args: &[&str]) -> MirCrateItem {
    MirCrateItem {
        kind: ItemKind::Fn,
        name: name.to_string(),
        body: Some(Body {
            arg_locals: args.iter().map(|a| local(a)).collect(),
            ret_local: local("()"),
            num_blocks: 1,
        }),
    }
}

#[test]
fn conversion_test_empty_crate() {
    let mut code = String::new();
    let krate = MirCrate { name: "main".to_string() };
    let items: Vec<MirCrateItem> = vec![];
    compile_crate(&mut code, &krate, &items);
    assert_eq!(code, "crate main { }".to_string());
}

#[test]
fn compile_functions() {
    let krate = MirCrate { name: "lib".to_string() };
    let items = vec![fn_item("a", &["i32", "&str"]), fn_item("b", &[])];
    assert_eq!(compile_local_crate(&krate, &items), "[ crate lib { fn a (i32, &str)fn b ()} ]");
}

#[test]
fn compile_local_empty_crate() {
    let krate = MirCrate { name: "main".to_string() };
    assert_eq!(compile_local_crate(&krate, &vec![]), "[ crate main { } ]");
}
