//! A plain-text dump of a-mir-formality programs: each crate with the
//! signatures of its functions.

use vstd::prelude::*;
use vstd::string::*;
use crate::grammar::{
    Crate, CrateItem, Fn, Program, RefKind, RigidName, ScalarId, Ty, ref_kind_word, scalar_str,
    scalar_text,
};
use crate::text::{concat, decimal, push_decimal, seq_join};

verus! {

/// The name of the head of a rigid type.
pub open spec fn rigid_name_text(name: RigidName) -> Seq<char> {
    match name {
        RigidName::AdtId(id) => id@,
        RigidName::ScalarId(s) => scalar_text(s),
        RigidName::Ref(RefKind::Shared) => "&"@,
        RigidName::Ref(RefKind::Mut) => "&mut"@,
        RigidName::Raw(RefKind::Shared) => "*const"@,
        RigidName::Raw(RefKind::Mut) => "*mut"@,
        RigidName::Tuple(n) => "tuple("@ + decimal(n as nat) + ")"@,
        RigidName::FnPtr(n) => "fn("@ + decimal(n as nat) + ")"@,
        RigidName::FnDef(id) => id@,
    }
}

/// The dump of a reference head is `&` followed by the keyword of its kind
/// (nothing when shared, `mut` when mutable), so it tells a shared reference
/// from a mutable one; raw pointers are told apart likewise, references from
/// raw pointers, and scalar types from each other.
pub proof fn lemma_head_dump_names_its_kind(k1: RefKind, k2: RefKind, s1: ScalarId, s2: ScalarId)
    ensures
        rigid_name_text(RigidName::Ref(k1)) == "&"@ + ref_kind_word(k1),
        rigid_name_text(RigidName::Ref(k1)) == rigid_name_text(RigidName::Ref(k2)) ==> k1 == k2,
        rigid_name_text(RigidName::Raw(k1)) == rigid_name_text(RigidName::Raw(k2)) ==> k1 == k2,
        rigid_name_text(RigidName::Ref(k1)) != rigid_name_text(RigidName::Raw(k2)),
        rigid_name_text(RigidName::ScalarId(s1)) == rigid_name_text(RigidName::ScalarId(s2))
            ==> s1 == s2,
{
    reveal_strlit("&");
    reveal_strlit("&mut");
    reveal_strlit("mut");
    reveal_strlit("*const");
    reveal_strlit("*mut");
    reveal_strlit("u8");
    reveal_strlit("u16");
    reveal_strlit("u32");
    reveal_strlit("u64");
    reveal_strlit("u128");
    reveal_strlit("usize");
    reveal_strlit("i8");
    reveal_strlit("i16");
    reveal_strlit("i32");
    reveal_strlit("i64");
    reveal_strlit("i128");
    reveal_strlit("isize");
    reveal_strlit("bool");
    assert("&"@ + Seq::<char>::empty() =~= "&"@);
    assert("&"@ + "mut"@ =~= "&mut"@);
    if rigid_name_text(RigidName::Ref(k1)) == rigid_name_text(RigidName::Ref(k2)) {
        assert(rigid_name_text(RigidName::Ref(k1)).len() == rigid_name_text(RigidName::Ref(k2)).len());
    }
    if rigid_name_text(RigidName::Raw(k1)) == rigid_name_text(RigidName::Raw(k2)) {
        assert(rigid_name_text(RigidName::Raw(k1)).len() == rigid_name_text(RigidName::Raw(k2)).len());
    }
    assert(rigid_name_text(RigidName::Ref(k1))[0] != rigid_name_text(RigidName::Raw(k2))[0]);
    if rigid_name_text(RigidName::ScalarId(s1)) == rigid_name_text(RigidName::ScalarId(s2)) {
        let t = scalar_text(s1);
        assert(t.len() == scalar_text(s2).len());
        assert(t[0] == scalar_text(s2)[0]);
        assert(t[1] == scalar_text(s2)[1]);
        if t.len() > 2 {
            assert(t[2] == scalar_text(s2)[2]);
        }
        if t.len() > 3 {
            assert(t[3] == scalar_text(s2)[3]);
        }
    }
}

/// Whether a type can be dumped: only rigid types can.
pub open spec fn ty_dumpable(ty: Ty) -> bool {
    ty is RigidTy
}

/// The dump of a type: the name of its head (its arguments are not shown).
pub open spec fn ty_dump_text(ty: Ty) -> Seq<char> {
    match ty {
        Ty::RigidTy(r) => rigid_name_text(r.name),
        _ => Seq::empty(),
    }
}

/// The dumps of a list of types.
pub open spec fn tys_dump_text(tys: Seq<Ty>) -> Seq<Seq<char>> {
    tys.map_values(|t: Ty| ty_dump_text(t))
}

/// Whether the signature of a function can be dumped.
pub open spec fn fn_dumpable(f: Fn) -> bool {
    &&& forall|i: int| 0 <= i < f.binder.term.input_tys@.len() ==> ty_dumpable(
        #[trigger] f.binder.term.input_tys@[i],
    )
    &&& ty_dumpable(f.binder.term.output_ty)
}

/// The dump of a function: `fn name (inputs) -> output`.
pub open spec fn fn_dump_text(f: Fn) -> Seq<char> {
    "fn "@ + f.id@ + " ("@ + seq_join(tys_dump_text(f.binder.term.input_tys@), ", "@) + ") -> "@
        + ty_dump_text(f.binder.term.output_ty)
}

/// Whether an item can be dumped: only functions can.
pub open spec fn item_dumpable(item: CrateItem) -> bool {
    match item {
        CrateItem::Fn(f) => fn_dumpable(f),
        _ => false,
    }
}

/// The dump of an item.
pub open spec fn item_dump_text(item: CrateItem) -> Seq<char> {
    match item {
        CrateItem::Fn(f) => fn_dump_text(f),
        _ => Seq::empty(),
    }
}

/// Whether a crate can be dumped.
pub open spec fn crate_dumpable(c: Crate) -> bool {
    forall|i: int| 0 <= i < c.items@.len() ==> item_dumpable(#[trigger] c.items@[i])
}

/// The dump of a crate: a header line, its items one after the other, and a
/// closing line.
pub open spec fn crate_dump_text(c: Crate) -> Seq<char> {
    "crate "@ + c.id@ + " {\n"@ + concat(c.items@.map_values(|i: CrateItem| item_dump_text(i)))
        + "}\n"@
}

/// Whether a program can be dumped.
pub open spec fn program_dumpable(p: Program) -> bool {
    forall|i: int| 0 <= i < p.crates@.len() ==> crate_dumpable(#[trigger] p.crates@[i])
}

/// The dump of a program: its crates one after the other between brackets.
pub open spec fn program_dump_text(p: Program) -> Seq<char> {
    "[\n"@ + concat(p.crates@.map_values(|c: Crate| crate_dump_text(c))) + "]"@
}

/// Emits the dump of `program`.
pub fn dump_program(program: &Program) -> (r: String)
    requires
        program_dumpable(*program),
    ensures
        r@ == program_dump_text(*program),
{
    let mut buffer = String::from_str("[\n");
    let n = program.crates.len();
    let mut i: usize = 0;
    while i < n
        invariant
            n == program.crates@.len(),
            i <= n,
            program_dumpable(*program),
            buffer@ == "[\n"@ + concat(
                program.crates@.take(i as int).map_values(|c: Crate| crate_dump_text(c)),
            ),
        decreases n - i,
    {
        assert(crate_dumpable(program.crates@[i as int]));
        dump_crate(&mut buffer, &program.crates[i]);
        assert(program.crates@.take(i + 1).map_values(|c: Crate| crate_dump_text(c)).drop_last()
            =~= program.crates@.take(i as int).map_values(|c: Crate| crate_dump_text(c)));
        i = i + 1;
    }
    assert(program.crates@.take(n as int) =~= program.crates@);
    buffer.append("]");
    buffer
}

/// Writes the dump of a crate.
pub fn dump_crate(w: &mut String, krate: &Crate)
    requires
        crate_dumpable(*krate),
    ensures
        final(w)@ == old(w)@ + crate_dump_text(*krate),
{
    let ghost start = w@;
    w.append("crate ");
    w.append(krate.id.as_str());
    w.append(" {\n");
    let n = krate.items.len();
    let mut i: usize = 0;
    while i < n
        invariant
            n == krate.items@.len(),
            i <= n,
            crate_dumpable(*krate),
            w@ == start + "crate "@ + krate.id@ + " {\n"@ + concat(
                krate.items@.take(i as int).map_values(|it: CrateItem| item_dump_text(it)),
            ),
        decreases n - i,
    {
        assert(item_dumpable(krate.items@[i as int]));
        dump_crate_item(w, &krate.items[i]);
        assert(krate.items@.take(i + 1).map_values(|it: CrateItem| item_dump_text(it)).drop_last()
            =~= krate.items@.take(i as int).map_values(|it: CrateItem| item_dump_text(it)));
        i = i + 1;
    }
    assert(krate.items@.take(n as int) =~= krate.items@);
    w.append("}\n");
}

/// Writes the dump of an item.
pub fn dump_crate_item(w: &mut String, crate_item: &CrateItem)
    requires
        item_dumpable(*crate_item),
    ensures
        final(w)@ == old(w)@ + item_dump_text(*crate_item),
{
    match crate_item {
        CrateItem::Fn(fn_data) => dump_fn(w, fn_data),
        _ => {
            assert(false);
        },
    }
}

/// Writes the dump of a function signature.
pub fn dump_fn(w: &mut String, fn_data: &Fn)
    requires
        fn_dumpable(*fn_data),
    ensures
        final(w)@ == old(w)@ + fn_dump_text(*fn_data),
{
    let ghost start = w@;
    let (_, term) = fn_data.binder.open();
    w.append("fn ");
    w.append(fn_data.id.as_str());
    w.append(" (");
    let ghost texts = tys_dump_text(term.input_tys@);
    let n = term.input_tys.len();
    let mut i: usize = 0;
    while i < n
        invariant
            n == term.input_tys@.len(),
            i <= n,
            *term == fn_data.binder.term,
            fn_dumpable(*fn_data),
            texts == tys_dump_text(term.input_tys@),
            w@ == start + "fn "@ + fn_data.id@ + " ("@ + seq_join(texts.take(i as int), ", "@),
        decreases n - i,
    {
        assert(ty_dumpable(term.input_tys@[i as int]));
        let t = dump_ty_data(&term.input_tys[i]);
        assert(texts.take(i + 1).drop_last() =~= texts.take(i as int));
        if i != 0 {
            w.append(", ");
        } else {
            assert(seq_join(texts.take(0), ", "@) =~= Seq::<char>::empty());
        }
        w.append(t.as_str());
        i = i + 1;
    }
    assert(texts.take(n as int) =~= texts);
    w.append(") -> ");
    let out = dump_ty_data(&term.output_ty);
    w.append(out.as_str());
}

/// The dump of a type.
pub fn dump_ty_data(ty: &Ty) -> (r: String)
    requires
        ty_dumpable(*ty),
    ensures
        r@ == ty_dump_text(*ty),
{
    match ty {
        Ty::RigidTy(rigid_ty) => match &rigid_ty.name {
            RigidName::AdtId(id) => id.clone(),
            RigidName::ScalarId(s) => String::from_str(scalar_str(s)),
            RigidName::Ref(RefKind::Shared) => String::from_str("&"),
            RigidName::Ref(RefKind::Mut) => String::from_str("&mut"),
            RigidName::Raw(RefKind::Shared) => String::from_str("*const"),
            RigidName::Raw(RefKind::Mut) => String::from_str("*mut"),
            RigidName::Tuple(n) => {
                let mut out = String::from_str("tuple(");
                push_decimal(&mut out, *n);
                out.append(")");
                out
            },
            RigidName::FnPtr(n) => {
                let mut out = String::from_str("fn(");
                push_decimal(&mut out, *n);
                out.append(")");
                out
            },
            RigidName::FnDef(id) => id.clone(),
        },
        _ => {
            assert(false);
            String::new()
        },
    }
}

} // verus!
