//! Emitting the signatures of the local crate as the compiler prints them.

use vstd::prelude::*;
use vstd::string::*;
use crate::mir::{ItemKind, LocalDecl, MirCrate, MirCrateItem};
use crate::text::{concat, seq_join};

verus! {

/// Whether an item can be emitted: only functions with a body can.
pub open spec fn item_compilable(item: MirCrateItem) -> bool {
    item.kind is Fn && item.body is Some
}

/// The compiler's texts of the argument types of a body.
pub open spec fn arg_texts(locals: Seq<LocalDecl>) -> Seq<Seq<char>> {
    locals.map_values(|l: LocalDecl| l.ty_text@)
}

/// The text of a function: `fn name (argument types)`.
pub open spec fn fn_compile_text(item: MirCrateItem) -> Seq<char> {
    "fn "@ + item.name@ + " ("@ + seq_join(arg_texts(item.body->0.arg_locals@), ", "@) + ")"@
}

/// The text of a crate: a header, its functions one after the other, and a
/// closing brace.
pub open spec fn crate_compile_text(krate: MirCrate, items: Seq<MirCrateItem>) -> Seq<char> {
    "crate "@ + krate.name@ + " { "@ + concat(
        items.map_values(|it: MirCrateItem| fn_compile_text(it)),
    ) + "}"@
}

/// The code of the local crate: its text between brackets.
pub fn compile_local_crate(krate: &MirCrate, items: &Vec<MirCrateItem>) -> (code: String)
    requires
        forall|i: int| 0 <= i < items@.len() ==> item_compilable(#[trigger] items@[i]),
    ensures
        code@ == "[ "@ + crate_compile_text(*krate, items@) + " ]"@,
{
    let mut code = String::from_str("[ ");
    compile_crate(&mut code, krate, items);
    code.append(" ]");
    code
}

/// Writes the text of a crate.
pub fn compile_crate(w: &mut String, krate: &MirCrate, items: &Vec<MirCrateItem>)
    requires
        forall|i: int| 0 <= i < items@.len() ==> item_compilable(#[trigger] items@[i]),
    ensures
        final(w)@ == old(w)@ + crate_compile_text(*krate, items@),
{
    let ghost start = w@;
    w.append("crate ");
    w.append(krate.name.as_str());
    w.append(" { ");
    let n = items.len();
    let mut i: usize = 0;
    while i < n
        invariant
            n == items@.len(),
            i <= n,
            forall|j: int| 0 <= j < items@.len() ==> item_compilable(#[trigger] items@[j]),
            w@ == start + "crate "@ + krate.name@ + " { "@ + concat(
                items@.take(i as int).map_values(|it: MirCrateItem| fn_compile_text(it)),
            ),
        decreases n - i,
    {
        assert(item_compilable(items@[i as int]));
        compile_crate_item(w, &items[i]);
        assert(items@.take(i + 1).map_values(|it: MirCrateItem| fn_compile_text(it)).drop_last()
            =~= items@.take(i as int).map_values(|it: MirCrateItem| fn_compile_text(it)));
        i = i + 1;
    }
    assert(items@.take(n as int) =~= items@);
    w.append("}");
}

/// Writes the text of an item; only functions are emitted.
pub fn compile_crate_item(w: &mut String, crate_item: &MirCrateItem)
    requires
        item_compilable(*crate_item),
    ensures
        final(w)@ == old(w)@ + fn_compile_text(*crate_item),
{
    match crate_item.kind {
        ItemKind::Fn => compile_fn(w, crate_item),
        _ => {
            assert(false);
        },
    }
}

/// Writes the text of a function: its name and the types of its arguments.
pub fn compile_fn(w: &mut String, crate_item: &MirCrateItem)
    requires
        crate_item.body is Some,
    ensures
        final(w)@ == old(w)@ + fn_compile_text(*crate_item),
{
    let ghost start = w@;
    let body = crate_item.body.as_ref().unwrap();
    w.append("fn ");
    w.append(crate_item.name.as_str());
    w.append(" (");
    let ghost texts = arg_texts(body.arg_locals@);
    let n = body.arg_locals.len();
    let mut i: usize = 0;
    while i < n
        invariant
            n == body.arg_locals@.len(),
            i <= n,
            crate_item.body == Some(*body),
            texts == arg_texts(body.arg_locals@),
            w@ == start + "fn "@ + crate_item.name@ + " ("@ + seq_join(texts.take(i as int), ", "@),
        decreases n - i,
    {
        assert(texts.take(i + 1).drop_last() =~= texts.take(i as int));
        if i != 0 {
            w.append(", ");
        } else {
            assert(seq_join(texts.take(0), ", "@) =~= Seq::<char>::empty());
        }
        w.append(body.arg_locals[i].ty_text.as_str());
        i = i + 1;
    }
    assert(texts.take(n as int) =~= texts);
    w.append(")");
}

} // verus!
