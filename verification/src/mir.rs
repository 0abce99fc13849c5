//! The compiler's view of the local crate, as plain values, and its conversion
//! into a-mir-formality terms.
//!
//! The compiler hands out its crates, items and types as opaque handles; the
//! caller reads what the conversion needs into the values below (each type
//! both as its kind and as the compiler prints it).

use vstd::prelude::*;
use crate::grammar::{
    Binder, Crate, CrateItem, Fn, FnBoundData, MaybeFnBody, Parameter, Program, RigidName,
    ScalarId, Ty, scalar_text,
};
use crate::dump::{
    crate_dump_text, item_dump_text, program_dump_text, program_dumpable,
    tys_dump_text, ty_dump_text,
};
use crate::text::{concat, seq_join};

verus! {

/// The kind of an item of the local crate.
pub enum ItemKind {
    Fn,
    Static,
    Const,
    Ctor,
}

/// The signed integer types.
pub enum IntTy {
    Isize,
    I8,
    I16,
    I32,
    I64,
    I128,
}

/// The unsigned integer types.
pub enum UintTy {
    Usize,
    U8,
    U16,
    U32,
    U64,
    U128,
}

/// The heads of the compiler's rigid types.
pub enum MirRigidTy {
    Bool,
    Char,
    Int(IntTy),
    Uint(UintTy),
    Float,
    Adt,
    Foreign,
    Str,
    Array,
    Pat,
    Slice,
    RawPtr,
    Ref,
    FnDef,
    FnPtr,
    Closure,
    Coroutine,
    CoroutineClosure,
    Dynamic,
    Never,
    Tuple,
    CoroutineWitness,
}

/// The kinds of the compiler's types.
pub enum MirTyKind {
    RigidTy(MirRigidTy),
    Alias,
    Param,
    Bound,
}

/// A local of a body: its type, as a kind and as the compiler prints it.
pub struct LocalDecl {
    pub ty: MirTyKind,
    pub ty_text: String,
}

/// The body of an item: its argument locals, its return local and the number
/// of its basic blocks.
pub struct Body {
    pub arg_locals: Vec<LocalDecl>,
    pub ret_local: LocalDecl,
    pub num_blocks: usize,
}

/// An item of the local crate.
pub struct MirCrateItem {
    pub kind: ItemKind,
    pub name: String,
    pub body: Option<Body>,
}

/// The local crate.
pub struct MirCrate {
    pub name: String,
}

/// The scalar type of a signed integer type.
pub open spec fn int_scalar(t: IntTy) -> ScalarId {
    match t {
        IntTy::Isize => ScalarId::Isize,
        IntTy::I8 => ScalarId::I8,
        IntTy::I16 => ScalarId::I16,
        IntTy::I32 => ScalarId::I32,
        IntTy::I64 => ScalarId::I64,
        IntTy::I128 => ScalarId::I128,
    }
}

/// The scalar type of an unsigned integer type.
pub open spec fn uint_scalar(t: UintTy) -> ScalarId {
    match t {
        UintTy::Usize => ScalarId::Usize,
        UintTy::U8 => ScalarId::U8,
        UintTy::U16 => ScalarId::U16,
        UintTy::U32 => ScalarId::U32,
        UintTy::U64 => ScalarId::U64,
        UintTy::U128 => ScalarId::U128,
    }
}

/// The scalar type that a rigid type converts to: only `bool` and the integer
/// types are converted.
pub open spec fn rigid_scalar(t: MirRigidTy) -> Option<ScalarId> {
    match t {
        MirRigidTy::Bool => Some(ScalarId::Bool),
        MirRigidTy::Int(i) => Some(int_scalar(i)),
        MirRigidTy::Uint(u) => Some(uint_scalar(u)),
        _ => None,
    }
}

/// The scalar type that a local's type converts to, if it converts.
pub open spec fn local_scalar(decl: LocalDecl) -> Option<ScalarId> {
    match decl.ty {
        MirTyKind::RigidTy(r) => rigid_scalar(r),
        _ => None,
    }
}

/// `ty` is the scalar type `s` with no generic arguments.
pub open spec fn is_scalar_ty(ty: Ty, s: ScalarId) -> bool {
    ty matches Ty::RigidTy(r) && r.name == RigidName::ScalarId(s) && r.parameters@.len() == 0
}

/// Whether an item converts: a function with a body that has no basic blocks
/// and whose locals all have convertible types.
pub open spec fn item_convertible(item: MirCrateItem) -> bool {
    &&& item.kind is Fn
    &&& item.body matches Some(body) && {
        &&& body.num_blocks == 0
        &&& local_scalar(body.ret_local) is Some
        &&& forall|i: int| 0 <= i < body.arg_locals@.len() ==> local_scalar(
            #[trigger] body.arg_locals@[i],
        ) is Some
    }
}

/// `f` is the conversion of the item: same name, no bound variables, the
/// scalar types of its locals, and no body.
pub open spec fn fn_converted(item: MirCrateItem, f: Fn) -> bool {
    let body = item.body->0;
    &&& f.id@ == item.name@
    &&& f.binder.vars@.len() == 0
    &&& f.binder.term.input_tys@.len() == body.arg_locals@.len()
    &&& forall|i: int| 0 <= i < body.arg_locals@.len() ==> is_scalar_ty(
        #[trigger] f.binder.term.input_tys@[i],
        local_scalar(body.arg_locals@[i])->0,
    )
    &&& is_scalar_ty(f.binder.term.output_ty, local_scalar(body.ret_local)->0)
    &&& f.binder.term.body is NoFnBody
}

/// `item` is the conversion of `mir_item`.
pub open spec fn item_converted(mir_item: MirCrateItem, item: CrateItem) -> bool {
    item matches CrateItem::Fn(f) && fn_converted(mir_item, f)
}

/// `c` is the conversion of the crate `krate` with the items `items`.
pub open spec fn crate_converted(krate: MirCrate, items: Seq<MirCrateItem>, c: Crate) -> bool {
    &&& c.id@ == krate.name@
    &&& c.items@.len() == items.len()
    &&& forall|i: int| 0 <= i < items.len() ==> item_converted(items[i], #[trigger] c.items@[i])
}

/// Converts the local crate into a-mir-formality.
pub fn crate_into_formality(krate: &MirCrate, items: &Vec<MirCrateItem>) -> (c: Crate)
    requires
        forall|i: int| 0 <= i < items@.len() ==> item_convertible(#[trigger] items@[i]),
    ensures
        crate_converted(*krate, items@, c),
{
    let mut converted: Vec<CrateItem> = Vec::new();
    let n = items.len();
    let mut i: usize = 0;
    while i < n
        invariant
            n == items@.len(),
            i <= n,
            forall|j: int| 0 <= j < items@.len() ==> item_convertible(#[trigger] items@[j]),
            converted@.len() == i,
            forall|j: int| 0 <= j < i ==> item_converted(items@[j], #[trigger] converted@[j]),
        decreases n - i,
    {
        assert(item_convertible(items@[i as int]));
        let item = crate_item_into_formality(&items[i]);
        converted.push(item);
        i = i + 1;
    }
    Crate { id: krate.name.clone(), items: converted }
}

/// Converts an item; only functions are converted.
pub fn crate_item_into_formality(item: &MirCrateItem) -> (r: CrateItem)
    requires
        item_convertible(*item),
    ensures
        item_converted(*item, r),
{
    match item.kind {
        ItemKind::Fn => CrateItem::Fn(fn_into_formality(item)),
        _ => {
            assert(false);
            CrateItem::Test(String::new())
        },
    }
}

/// Converts a function item: its signature, under an empty binder.
pub fn fn_into_formality(item: &MirCrateItem) -> (f: Fn)
    requires
        item_convertible(*item),
    ensures
        fn_converted(*item, f),
{
    let body = item.body.as_ref().unwrap();
    let name = item.name.clone();
    let mut input_tys: Vec<Ty> = Vec::new();
    let n = body.arg_locals.len();
    let mut i: usize = 0;
    while i < n
        invariant
            n == body.arg_locals@.len(),
            i <= n,
            item.body == Some(*body),
            item_convertible(*item),
            input_tys@.len() == i,
            forall|j: int| 0 <= j < i ==> is_scalar_ty(
                #[trigger] input_tys@[j],
                local_scalar(body.arg_locals@[j])->0,
            ),
        decreases n - i,
    {
        assert(local_scalar(body.arg_locals@[i as int]) is Some);
        let t = local_decl_into_formality(&body.arg_locals[i]);
        input_tys.push(t);
        i = i + 1;
    }
    let output_ty = local_decl_into_formality(&body.ret_local);
    let body = basic_blocks_into_formality(body.num_blocks);
    let bound_data = FnBoundData { input_tys, output_ty, body };
    Fn { id: name, binder: Binder::dummy(bound_data) }
}

/// Converts the type of a local.
fn local_decl_into_formality(local_decl: &LocalDecl) -> (ty: Ty)
    requires
        local_scalar(*local_decl) is Some,
    ensures
        is_scalar_ty(ty, local_scalar(*local_decl)->0),
{
    match &local_decl.ty {
        MirTyKind::RigidTy(rigid) => rigid_ty_into_formality(rigid),
        _ => {
            assert(false);
            Ty::bool()
        },
    }
}

/// Converts a rigid type: `bool` and the integer types.
fn rigid_ty_into_formality(ty: &MirRigidTy) -> (r: Ty)
    requires
        rigid_scalar(*ty) is Some,
    ensures
        is_scalar_ty(r, rigid_scalar(*ty)->0),
{
    match ty {
        MirRigidTy::Bool => Ty::bool(),
        MirRigidTy::Int(t) => int_ty_into_formality(t),
        MirRigidTy::Uint(t) => uint_ty_into_formality(t),
        _ => {
            assert(false);
            Ty::bool()
        },
    }
}

/// Converts a signed integer type.
fn int_ty_into_formality(ty: &IntTy) -> (r: Ty)
    ensures
        is_scalar_ty(r, int_scalar(*ty)),
{
    let params: Vec<Parameter> = Vec::new();
    let scalar_id = match ty {
        IntTy::Isize => ScalarId::Isize,
        IntTy::I8 => ScalarId::I8,
        IntTy::I16 => ScalarId::I16,
        IntTy::I32 => ScalarId::I32,
        IntTy::I64 => ScalarId::I64,
        IntTy::I128 => ScalarId::I128,
    };
    Ty::rigid(RigidName::ScalarId(scalar_id), params)
}

/// Converts an unsigned integer type.
fn uint_ty_into_formality(ty: &UintTy) -> (r: Ty)
    ensures
        is_scalar_ty(r, uint_scalar(*ty)),
{
    let params: Vec<Parameter> = Vec::new();
    let scalar_id = match ty {
        UintTy::Usize => ScalarId::Usize,
        UintTy::U8 => ScalarId::U8,
        UintTy::U16 => ScalarId::U16,
        UintTy::U32 => ScalarId::U32,
        UintTy::U64 => ScalarId::U64,
        UintTy::U128 => ScalarId::U128,
    };
    Ty::rigid(RigidName::ScalarId(scalar_id), params)
}

/// Converts the basic blocks of a body: only a body without blocks converts,
/// to the absence of a body.
fn basic_blocks_into_formality(num_blocks: usize) -> (r: MaybeFnBody)
    requires
        num_blocks == 0,
    ensures
        r is NoFnBody,
{
    MaybeFnBody::NoFnBody
}

/// The program made of the local crate.
pub fn convert(krate: &MirCrate, items: &Vec<MirCrateItem>) -> (p: Program)
    requires
        forall|i: int| 0 <= i < items@.len() ==> item_convertible(#[trigger] items@[i]),
    ensures
        p.crates@.len() == 1,
        crate_converted(*krate, items@, p.crates@[0]),
{
    let krate = crate_into_formality(krate, items);
    let mut crates: Vec<Crate> = Vec::new();
    crates.push(krate);
    Program { crates }
}

/// The Rust name of a `bool` or integer type of the compiler (nothing for the
/// other types).
pub open spec fn mir_keyword(t: MirRigidTy) -> Seq<char> {
    match t {
        MirRigidTy::Bool => "bool"@,
        MirRigidTy::Int(IntTy::Isize) => "isize"@,
        MirRigidTy::Int(IntTy::I8) => "i8"@,
        MirRigidTy::Int(IntTy::I16) => "i16"@,
        MirRigidTy::Int(IntTy::I32) => "i32"@,
        MirRigidTy::Int(IntTy::I64) => "i64"@,
        MirRigidTy::Int(IntTy::I128) => "i128"@,
        MirRigidTy::Uint(UintTy::Usize) => "usize"@,
        MirRigidTy::Uint(UintTy::U8) => "u8"@,
        MirRigidTy::Uint(UintTy::U16) => "u16"@,
        MirRigidTy::Uint(UintTy::U32) => "u32"@,
        MirRigidTy::Uint(UintTy::U64) => "u64"@,
        MirRigidTy::Uint(UintTy::U128) => "u128"@,
        _ => Seq::empty(),
    }
}

/// The Rust name of the type of a local, when it is `bool` or an integer type.
pub open spec fn local_keyword(l: LocalDecl) -> Seq<char> {
    match l.ty {
        MirTyKind::RigidTy(r) => mir_keyword(r),
        _ => Seq::empty(),
    }
}

/// Each compiler type that converts becomes the scalar type of the same Rust
/// name (a signed integer stays signed and keeps its width, an unsigned one
/// likewise), and distinct compiler types become distinct scalar types.
pub proof fn lemma_scalar_conversion_keeps_name(t: MirRigidTy, u: MirRigidTy)
    requires
        rigid_scalar(t) is Some,
        rigid_scalar(u) is Some,
    ensures
        scalar_text(rigid_scalar(t)->0) == mir_keyword(t),
        rigid_scalar(t) == rigid_scalar(u) ==> t == u,
{
}

/// The dump of the conversion of a function item: its name, the Rust names of
/// the types of its arguments and the Rust name of the type of its result.
pub open spec fn converted_fn_dump_text(item: MirCrateItem) -> Seq<char> {
    let body = item.body->0;
    "fn "@ + item.name@ + " ("@ + seq_join(
        body.arg_locals@.map_values(|l: LocalDecl| local_keyword(l)),
        ", "@,
    ) + ") -> "@ + local_keyword(body.ret_local)
}

/// Dumping the program that `convert` builds from the local crate never fails,
/// and shows the crate by its name with each of its functions, in order, as
/// `fn name (argument types) -> result type`.
pub proof fn lemma_converted_program_dumps(krate: MirCrate, items: Seq<MirCrateItem>, p: Program)
    requires
        forall|i: int| 0 <= i < items.len() ==> item_convertible(#[trigger] items[i]),
        p.crates@.len() == 1,
        crate_converted(krate, items, p.crates@[0]),
    ensures
        program_dumpable(p),
        program_dump_text(p) == "[\n"@ + "crate "@ + krate.name@ + " {\n"@ + concat(
            items.map_values(|it: MirCrateItem| converted_fn_dump_text(it)),
        ) + "}\n"@ + "]"@,
{
    let c = p.crates@[0];
    assert forall|i: int| 0 <= i < items.len() implies #[trigger] item_dump_text(c.items@[i])
        == converted_fn_dump_text(items[i]) by {
        assert(item_converted(items[i], c.items@[i]));
        let f = c.items@[i]->Fn_0;
        let body = items[i].body->0;
        assert(tys_dump_text(f.binder.term.input_tys@) =~= body.arg_locals@.map_values(
            |l: LocalDecl| local_keyword(l),
        )) by {
            assert forall|j: int| 0 <= j < body.arg_locals@.len() implies ty_dump_text(
                #[trigger] f.binder.term.input_tys@[j],
            ) == local_keyword(body.arg_locals@[j]) by {
                let l = body.arg_locals@[j];
                assert(is_scalar_ty(f.binder.term.input_tys@[j], local_scalar(l)->0));
                let r = l.ty->RigidTy_0;
                lemma_scalar_conversion_keeps_name(r, r);
            }
        }
        let r = body.ret_local.ty->RigidTy_0;
        lemma_scalar_conversion_keeps_name(r, r);
    }
    assert(c.items@.map_values(|it: CrateItem| item_dump_text(it)) =~= items.map_values(
        |it: MirCrateItem| converted_fn_dump_text(it),
    ));
    assert forall|i: int| 0 <= i < c.items@.len() implies crate::dump::item_dumpable(
        #[trigger] c.items@[i],
    ) by {
        assert(item_converted(items[i], c.items@[i]));
        let f = c.items@[i]->Fn_0;
        let body = items[i].body->0;
        assert forall|j: int| 0 <= j < f.binder.term.input_tys@.len() implies crate::dump::ty_dumpable(
            #[trigger] f.binder.term.input_tys@[j],
        ) by {
            assert(is_scalar_ty(f.binder.term.input_tys@[j], local_scalar(body.arg_locals@[j])->0));
        }
    }
    let crate_texts = p.crates@.map_values(|k: Crate| crate_dump_text(k));
    assert(crate_texts.drop_last() =~= Seq::<Seq<char>>::empty());
    assert(crate_texts.len() == 1);
    assert(crate_texts.last() == crate_dump_text(c));
    assert(concat(crate_texts.drop_last()) =~= Seq::<char>::empty());
    assert(concat(crate_texts) =~= crate_dump_text(c));
}

} // verus!
