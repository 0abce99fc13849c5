use formality_driver::dump::{dump_crate, dump_program};
use formality_driver::grammar::{
    Binder, Crate, CrateItem, Fn, FnBoundData, MaybeFnBody, Parameter, Program, RefKind,
    RigidName, ScalarId, Ty,
};

fn simple_fn(name: &str, inputs: Vec<Ty>, output: Ty) -> CrateItem {
    CrateItem::Fn(Fn {
        id: name.to_string(),
        binder: Binder::dummy(FnBoundData {
            input_tys: inputs,
            output_ty: output,
            body: MaybeFnBody::NoFnBody,
        }),
    })
}

fn scalar(s: ScalarId) -> Ty {
    Ty::rigid(RigidName::ScalarId(s), Vec::<Parameter>::new())
}

#[test]
fn dump_test_empty_crate() {
    let mut buffer = String::new();
    let krate = Crate::new("main".to_string(), Vec::<CrateItem>::new());

    dump_crate(&mut buffer, &krate);
    assert_eq!(buffer, "crate main {\n}\n".to_string());
}

#[test]
fn test_simple_fn() {
    let mut buffer = String::new();
    let item = simple_fn("run", vec![], Ty::rigid(RigidName::Tuple(0), Vec::<Parameter>::new()));
    let krate = Crate::new("main".to_string(), vec![item]);

    dump_crate(&mut buffer, &krate);
}

#[test]
fn simple_fn_text() {
    let mut buffer = String::new();
    let item = simple_fn("run", vec![], Ty::rigid(RigidName::Tuple(0), Vec::<Parameter>::new()));
    let krate = Crate::new("main".to_string(), vec![item]);

    dump_crate(&mut buffer, &krate);
    assert_eq!(buffer, "crate main {\nfn run () -> tuple(0)}\n");
}

#[test]
fn dump_appends_to_buffer() {
    let mut buffer = "so far: ".to_string();
    let krate = Crate::new("k".to_string(), vec![]);
    dump_crate(&mut buffer, &krate);
    assert_eq!(buffer, "so far: crate k {\n}\n");
}

#[test]
fn dump_fn_with_arguments() {
    let item = simple_fn(
        "add",
        vec![
            scalar(ScalarId::I32),
            scalar(ScalarId::U8),
            Ty::rigid(RigidName::AdtId("Vec".to_string()), vec![Parameter::Ty(scalar(ScalarId::U8))]),
            Ty::rigid(RigidName::Ref(RefKind::Mut), Vec::<Parameter>::new()),
            Ty::rigid(RigidName::Raw(RefKind::Shared), Vec::<Parameter>::new()),
            Ty::rigid(RigidName::FnPtr(12), Vec::<Parameter>::new()),
        ],
        scalar(ScalarId::Bool),
    );
    let mut buffer = String::new();
    dump_crate(&mut buffer, &Crate::new("c".to_string(), vec![item]));
    assert_eq!(buffer, "crate c {\nfn add (i32, u8, Vec, &mut, *const, fn(12)) -> bool}\n");
}

#[test]
fn dump_program_of_two_crates() {
    let a = Crate::new(
        "a".to_string(),
        vec![
            simple_fn("f", vec![scalar(ScalarId::Usize)], scalar(ScalarId::I128)),
            simple_fn("g", vec![], Ty::rigid(RigidName::Tuple(2), Vec::<Parameter>::new())),
        ],
    );
    let b = Crate::new("b".to_string(), vec![]);
    let program = Program { crates: vec![a, b] };
    assert_eq!(
        dump_program(&program),
        "[\ncrate a {\nfn f (usize) -> i128fn g () -> tuple(2)}\ncrate b {\n}\n]"
    );
}

#[test]
fn dump_empty_program() {
    assert_eq!(dump_program(&Program { crates: vec![] }), "[\n]");
}
