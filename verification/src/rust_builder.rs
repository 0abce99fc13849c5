//! Rendering a-mir-formality statements, expressions and types as Rust
//! source text.
//!
//! The builder keeps the lifetime variables bound by the `exists` blocks that
//! enclose the text being built. Such a lifetime is left for rustc to infer and
//! prints as nothing; `'static` prints as itself; a lifetime variable that no
//! enclosing binder introduces cannot be printed.

use vstd::prelude::*;
use vstd::string::*;
use crate::grammar::{
    Binder, Block, Expr, FieldExpr, FieldName, Init, Label, Lt, Parameter, PlaceExpr, RigidName,
    ScalarId, Stmt, Turbofish, Ty, ref_kind_str, ref_kind_word, scalar_str, scalar_text,
};
use crate::text::{decimal, iter_join, join_strings, push_decimal, result_view, seq_join, views};

verus! {

/// Why a type or lifetime cannot be printed as Rust.
#[derive(Debug)]
pub enum PrettyError {
    /// A lifetime variable that no enclosing binder introduces.
    UnboundLifetime,
    /// A type that has no Rust rendering here (not rigid, a raw pointer, a
    /// function type, or a head applied to the wrong generic arguments).
    Unsupported,
}

/// The text of a lifetime under the lifetime variables in `scope`.
pub open spec fn lt_text(scope: Seq<Seq<char>>, lt: Lt) -> Result<Seq<char>, PrettyError> {
    match lt {
        Lt::Static => Ok("'static"@),
        Lt::Var(v) => if scope.contains(v@) {
            Ok(Seq::empty())
        } else {
            Err(PrettyError::UnboundLifetime)
        },
    }
}

/// The text of a rigid type with head `name`, given its generic arguments and
/// their texts.
pub open spec fn rigid_text(name: RigidName, params: Seq<Parameter>, ps: Seq<Seq<char>>) -> Result<
    Seq<char>,
    PrettyError,
> {
    match name {
        RigidName::ScalarId(s) => if ps.len() == 0 {
            Ok(scalar_text(s))
        } else {
            Err(PrettyError::Unsupported)
        },
        RigidName::Tuple(n) => if ps.len() == n {
            Ok("("@ + seq_join(ps, ", "@) + (if n == 1 { ","@ } else { Seq::empty() }) + ")"@)
        } else {
            Err(PrettyError::Unsupported)
        },
        RigidName::AdtId(id) => if ps.len() == 0 {
            Ok(id@)
        } else {
            Ok(id@ + "<"@ + seq_join(ps, ", "@) + ">"@)
        },
        RigidName::Ref(k) => if params.len() == 2 && ps.len() == 2 && params[0] is Lt && params[1] is Ty {
            Ok("&"@ + ps[0] + " "@ + ref_kind_word(k) + " "@ + ps[1])
        } else {
            Err(PrettyError::Unsupported)
        },
        _ => Err(PrettyError::Unsupported),
    }
}

/// The Rust text of a type under the lifetime variables in `scope`, or the
/// first reason, from left to right, why it has none.
pub open spec fn ty_text(scope: Seq<Seq<char>>, ty: Ty) -> Result<Seq<char>, PrettyError>
    decreases ty,
{
    match ty {
        Ty::RigidTy(r) => match params_text(scope, r.parameters@) {
            Ok(ps) => rigid_text(r.name, r.parameters@, ps),
            Err(e) => Err(e),
        },
        _ => Err(PrettyError::Unsupported),
    }
}

/// The texts of generic arguments, or the first error among them.
pub open spec fn params_text(scope: Seq<Seq<char>>, params: Seq<Parameter>) -> Result<
    Seq<Seq<char>>,
    PrettyError,
>
    decreases params,
{
    if params.len() == 0 {
        Ok(Seq::empty())
    } else {
        match params_text(scope, params.drop_last()) {
            Err(e) => Err(e),
            Ok(init) => match param_text(scope, params.last()) {
                Err(e) => Err(e),
                Ok(t) => Ok(init.push(t)),
            },
        }
    }
}

/// The text of one generic argument.
pub open spec fn param_text(scope: Seq<Seq<char>>, p: Parameter) -> Result<Seq<char>, PrettyError>
    decreases p,
{
    match p {
        Parameter::Ty(t) => ty_text(scope, t),
        Parameter::Lt(l) => lt_text(scope, l),
    }
}

/// The scalar type that `ty` is, if it is one (with no generic arguments).
pub open spec fn scalar_of(ty: Ty) -> Option<ScalarId> {
    match ty {
        Ty::RigidTy(r) => match r.name {
            RigidName::ScalarId(s) => if r.parameters@.len() == 0 {
                Some(s)
            } else {
                None
            },
            _ => None,
        },
        _ => None,
    }
}

/// The text of a field name.
pub open spec fn field_name_text(f: FieldName) -> Seq<char> {
    match f {
        FieldName::Id(id) => id@,
        FieldName::Index(i) => decimal(i as nat),
    }
}

/// The text of a place expression.
pub open spec fn place_text(p: PlaceExpr) -> Seq<char>
    decreases p,
{
    match p {
        PlaceExpr::Var(id) => id@,
        PlaceExpr::Deref { prefix } => "*"@ + place_text(*prefix),
        PlaceExpr::Parens(inner) => "("@ + place_text(*inner) + ")"@,
        PlaceExpr::Field { prefix, field_name } => place_text(*prefix) + "."@ + field_name_text(
            field_name,
        ),
    }
}

/// The generic arguments written after the name of a struct: nothing when
/// they print as nothing, else the arguments between angle brackets.
pub open spec fn struct_args_text(ps: Seq<Seq<char>>) -> Seq<char> {
    let args = seq_join(ps, ", "@);
    if args.len() == 0 {
        args
    } else {
        "<"@ + args + ">"@
    }
}

/// The Rust text of an expression under the lifetime variables in `scope`;
/// `None` where a type, lifetime or literal in it has no Rust text.
pub open spec fn expr_text(scope: Seq<Seq<char>>, e: Expr) -> Option<Seq<char>>
    decreases e,
{
    match e {
        Expr::Assign { place, expr } => match expr_text(scope, *expr) {
            Some(t) => Some(place_text(place) + " = "@ + t + ";"@),
            None => None,
        },
        Expr::Call { callee, args } => match (expr_text(scope, *callee), exprs_text(scope, args@)) {
            (Some(c), Some(a)) => Some(c + "("@ + seq_join(a, ", "@) + ")"@),
            _ => None,
        },
        Expr::Literal { value, ty } => match scalar_of(ty) {
            Some(s) => Some(decimal(value as nat) + "_"@ + scalar_text(s)),
            None => None,
        },
        Expr::True => Some("true"@),
        Expr::False => Some("false"@),
        Expr::Ref { kind, lt, place } => match lt_text(scope, lt) {
            Ok(l) => Some("&"@ + l + " "@ + ref_kind_word(kind) + " "@ + place_text(place)),
            Err(_) => None,
        },
        Expr::Place(p) => Some(place_text(p)),
        Expr::Turbofish { id, args } => match params_text(scope, args@) {
            Ok(ps) => Some(id@ + "::<"@ + seq_join(ps, ", "@) + ">"@),
            Err(_) => None,
        },
        Expr::Struct { field_exprs, adt_id, turbofish } => match (
            params_text(scope, turbofish.parameters@),
            field_exprs_text(scope, field_exprs@),
        ) {
            (Ok(ps), Some(fs)) => Some(
                adt_id@ + struct_args_text(ps) + " { "@ + seq_join(fs, ", "@) + " }"@,
            ),
            _ => None,
        },
    }
}

/// The texts of a list of expressions; `None` if one has none.
pub open spec fn exprs_text(scope: Seq<Seq<char>>, es: Seq<Expr>) -> Option<Seq<Seq<char>>>
    decreases es,
{
    if es.len() == 0 {
        Some(Seq::empty())
    } else {
        match (exprs_text(scope, es.drop_last()), expr_text(scope, es.last())) {
            (Some(init), Some(t)) => Some(init.push(t)),
            _ => None,
        }
    }
}

/// The text of one `field: value` of a struct expression; a tuple field prints
/// its value alone.
pub open spec fn field_expr_text(scope: Seq<Seq<char>>, f: FieldExpr) -> Option<Seq<char>>
    decreases f,
{
    match expr_text(scope, f.value) {
        Some(v) => match f.name {
            FieldName::Id(id) => Some(id@ + ": "@ + v),
            FieldName::Index(_) => Some(v),
        },
        None => None,
    }
}

/// The texts of the fields of a struct expression.
pub open spec fn field_exprs_text(scope: Seq<Seq<char>>, fs: Seq<FieldExpr>) -> Option<
    Seq<Seq<char>>,
>
    decreases fs,
{
    if fs.len() == 0 {
        Some(Seq::empty())
    } else {
        match (field_exprs_text(scope, fs.drop_last()), field_expr_text(scope, fs.last())) {
            (Some(init), Some(t)) => Some(init.push(t)),
            _ => None,
        }
    }
}

/// The number of expression nodes in an expression.
pub open spec fn expr_size(e: Expr) -> nat
    decreases e,
{
    match e {
        Expr::Assign { expr, .. } => 1 + expr_size(*expr),
        Expr::Call { callee, args } => 1 + expr_size(*callee) + exprs_size(args@),
        Expr::Struct { field_exprs, .. } => 1 + fields_size(field_exprs@),
        _ => 1,
    }
}

pub open spec fn exprs_size(es: Seq<Expr>) -> nat
    decreases es,
{
    if es.len() == 0 {
        0
    } else {
        exprs_size(es.drop_last()) + expr_size(es.last())
    }
}

pub open spec fn field_size(f: FieldExpr) -> nat
    decreases f,
{
    1 + expr_size(f.value)
}

pub open spec fn fields_size(fs: Seq<FieldExpr>) -> nat
    decreases fs,
{
    if fs.len() == 0 {
        0
    } else {
        fields_size(fs.drop_last()) + field_size(fs.last())
    }
}

proof fn lemma_exprs_parts(scope: Seq<Seq<char>>, es: Seq<Expr>)
    ensures
        forall|i: int| 0 <= i < es.len() ==> #[trigger] expr_size(es[i]) <= exprs_size(es),
        exprs_text(scope, es) is Some ==> {
            &&& exprs_text(scope, es)->0.len() == es.len()
            &&& forall|i: int|
                0 <= i < es.len() ==> #[trigger] expr_text(scope, es[i]) == Some(
                    exprs_text(scope, es)->0[i],
                )
        },
    decreases es.len(),
{
    if es.len() > 0 {
        lemma_exprs_parts(scope, es.drop_last());
        assert forall|i: int| 0 <= i < es.len() implies #[trigger] expr_size(es[i]) <= exprs_size(
            es,
        ) by {
            if i < es.len() - 1 {
                assert(es.drop_last()[i] == es[i]);
            }
        }
        if exprs_text(scope, es) is Some {
            assert forall|i: int| 0 <= i < es.len() implies #[trigger] expr_text(scope, es[i])
                == Some(exprs_text(scope, es)->0[i]) by {
                if i < es.len() - 1 {
                    assert(es.drop_last()[i] == es[i]);
                }
            }
        }
    }
}

proof fn lemma_fields_parts(scope: Seq<Seq<char>>, fs: Seq<FieldExpr>)
    ensures
        forall|i: int| 0 <= i < fs.len() ==> #[trigger] field_size(fs[i]) <= fields_size(fs),
        field_exprs_text(scope, fs) is Some ==> {
            &&& field_exprs_text(scope, fs)->0.len() == fs.len()
            &&& forall|i: int|
                0 <= i < fs.len() ==> #[trigger] field_expr_text(scope, fs[i]) == Some(
                    field_exprs_text(scope, fs)->0[i],
                )
        },
    decreases fs.len(),
{
    if fs.len() > 0 {
        lemma_fields_parts(scope, fs.drop_last());
        assert forall|i: int| 0 <= i < fs.len() implies #[trigger] field_size(fs[i])
            <= fields_size(fs) by {
            if i < fs.len() - 1 {
                assert(fs.drop_last()[i] == fs[i]);
            }
        }
        if field_exprs_text(scope, fs) is Some {
            assert forall|i: int| 0 <= i < fs.len() implies #[trigger] field_expr_text(
                scope,
                fs[i],
            ) == Some(field_exprs_text(scope, fs)->0[i]) by {
                if i < fs.len() - 1 {
                    assert(fs.drop_last()[i] == fs[i]);
                }
            }
        }
    }
}

/// The expression of an optional initialiser.
pub open spec fn init_expr(init: Option<Init>) -> Option<Expr> {
    match init {
        Some(i) => Some(i.expr),
        None => None,
    }
}

/// The text of `let mut id: ty = init;` (or without `= init`).
pub open spec fn let_text(scope: Seq<Seq<char>>, id: Seq<char>, ty: Ty, init: Option<Expr>) -> Option<
    Seq<char>,
> {
    match ty_text(scope, ty) {
        Ok(t) => match init {
            None => Some("let mut "@ + id + ": "@ + t + ";"@),
            Some(e) => match expr_text(scope, e) {
                Some(v) => Some("let mut "@ + id + ": "@ + t + " = "@ + v + ";"@),
                None => None,
            },
        },
        Err(_) => None,
    }
}

/// The expression of an optional borrowed initialiser.
pub open spec fn opt_init_expr(init: Option<&Init>) -> Option<Expr> {
    match init {
        Some(i) => Some(i.expr),
        None => None,
    }
}

/// The label written before `loop`, if any, from a borrowed label.
pub open spec fn opt_label_text(label: Option<&Label>) -> Seq<char> {
    match label {
        Some(l) => l.id@ + ": "@,
        None => Seq::empty(),
    }
}

/// The label written before `loop`, if any.
pub open spec fn loop_label_text(label: Option<Label>) -> Seq<char> {
    match label {
        Some(l) => l.id@ + ": "@,
        None => Seq::empty(),
    }
}

/// The Rust text of a statement under the lifetime variables in `scope`;
/// `None` where a part of it has no Rust text.
pub open spec fn stmt_text(scope: Seq<Seq<char>>, s: Stmt) -> Option<Seq<char>>
    decreases s,
{
    match s {
        Stmt::Let { label, id, ty, init } => let_text(scope, id@, ty, init_expr(init)),
        Stmt::If { condition, then_block, else_block } => match (
            expr_text(scope, condition),
            block_text(scope, then_block),
            block_text(scope, else_block),
        ) {
            (Some(c), Some(t), Some(e)) => Some(
                "if "@ + c + " { "@ + t + " } else { "@ + e + " }"@,
            ),
            _ => None,
        },
        Stmt::Expr { expr } => expr_text(scope, expr),
        Stmt::Loop { label, body } => match block_text(scope, body) {
            Some(b) => Some(loop_label_text(label) + "loop { "@ + b + " }"@),
            None => None,
        },
        Stmt::Break { label } => Some("break "@ + label@ + ";"@),
        Stmt::Continue { label } => Some("continue "@ + label@ + ";"@),
        Stmt::Return { expr } => match expr_text(scope, expr) {
            Some(e) => Some("return "@ + e + ";"@),
            None => None,
        },
        Stmt::Block(b) => block_text(scope, b),
        Stmt::Exists { binder } => block_text(scope + views(binder.vars@), binder.term),
    }
}

/// The texts of a list of statements; `None` if one has none.
pub open spec fn stmts_text(scope: Seq<Seq<char>>, ss: Seq<Stmt>) -> Option<Seq<Seq<char>>>
    decreases ss,
{
    if ss.len() == 0 {
        Some(Seq::empty())
    } else {
        match (stmts_text(scope, ss.drop_last()), stmt_text(scope, ss.last())) {
            (Some(init), Some(t)) => Some(init.push(t)),
            _ => None,
        }
    }
}

/// The Rust text of a block: its statements, one per line, between braces.
pub open spec fn block_text(scope: Seq<Seq<char>>, b: Block) -> Option<Seq<char>>
    decreases b,
{
    match stmts_text(scope, b.stmts@) {
        Some(ts) => Some("{ "@ + seq_join(ts, "\n"@) + " }"@),
        None => None,
    }
}

/// The number of statement and block nodes in a statement.
pub open spec fn stmt_size(s: Stmt) -> nat
    decreases s,
{
    match s {
        Stmt::If { then_block, else_block, .. } => 1 + block_size(then_block) + block_size(
            else_block,
        ),
        Stmt::Loop { body, .. } => 1 + block_size(body),
        Stmt::Block(b) => 1 + block_size(b),
        Stmt::Exists { binder } => 1 + block_size(binder.term),
        _ => 1,
    }
}

pub open spec fn stmts_size(ss: Seq<Stmt>) -> nat
    decreases ss,
{
    if ss.len() == 0 {
        0
    } else {
        stmts_size(ss.drop_last()) + stmt_size(ss.last())
    }
}

pub open spec fn block_size(b: Block) -> nat
    decreases b,
{
    1 + stmts_size(b.stmts@)
}

proof fn lemma_stmts_parts(scope: Seq<Seq<char>>, ss: Seq<Stmt>)
    ensures
        forall|i: int| 0 <= i < ss.len() ==> #[trigger] stmt_size(ss[i]) <= stmts_size(ss),
        stmts_text(scope, ss) is Some ==> {
            &&& stmts_text(scope, ss)->0.len() == ss.len()
            &&& forall|i: int|
                0 <= i < ss.len() ==> #[trigger] stmt_text(scope, ss[i]) == Some(
                    stmts_text(scope, ss)->0[i],
                )
        },
    decreases ss.len(),
{
    if ss.len() > 0 {
        lemma_stmts_parts(scope, ss.drop_last());
        assert forall|i: int| 0 <= i < ss.len() implies #[trigger] stmt_size(ss[i]) <= stmts_size(
            ss,
        ) by {
            if i < ss.len() - 1 {
                assert(ss.drop_last()[i] == ss[i]);
            }
        }
        if stmts_text(scope, ss) is Some {
            assert forall|i: int| 0 <= i < ss.len() implies #[trigger] stmt_text(scope, ss[i])
                == Some(stmts_text(scope, ss)->0[i]) by {
                if i < ss.len() - 1 {
                    assert(ss.drop_last()[i] == ss[i]);
                }
            }
        }
    }
}

/// Every lifetime variable of `inner` is one of `outer`.
pub open spec fn scope_within(inner: Seq<Seq<char>>, outer: Seq<Seq<char>>) -> bool {
    forall|v: Seq<char>| inner.contains(v) ==> outer.contains(v)
}

proof fn lemma_scope_within_extend(inner: Seq<Seq<char>>, outer: Seq<Seq<char>>, vars: Seq<Seq<char>>)
    requires
        scope_within(inner, outer),
    ensures
        scope_within(inner + vars, outer + vars),
{
    assert forall|v: Seq<char>| (inner + vars).contains(v) implies (outer + vars).contains(v) by {
        let i = choose|i: int| 0 <= i < (inner + vars).len() && (inner + vars)[i] == v;
        if i < inner.len() {
            assert(inner[i] == v);
            assert(inner.contains(v));
            let j = choose|j: int| 0 <= j < outer.len() && outer[j] == v;
            assert((outer + vars)[j] == v);
        } else {
            assert(vars[i - inner.len()] == v);
            assert((outer + vars)[outer.len() + i - inner.len()] == v);
        }
    }
}

/// A type that prints under a scope prints the same under any scope that binds
/// at least the same lifetime variables.
pub proof fn lemma_ty_text_larger_scope(inner: Seq<Seq<char>>, outer: Seq<Seq<char>>, ty: Ty)
    requires
        scope_within(inner, outer),
        ty_text(inner, ty) is Ok,
    ensures
        ty_text(outer, ty) == ty_text(inner, ty),
    decreases ty,
{
    match ty {
        Ty::RigidTy(r) => {
            lemma_params_text_larger_scope(inner, outer, r.parameters@);
        },
        _ => {},
    }
}

proof fn lemma_params_text_larger_scope(
    inner: Seq<Seq<char>>,
    outer: Seq<Seq<char>>,
    params: Seq<Parameter>,
)
    requires
        scope_within(inner, outer),
        params_text(inner, params) is Ok,
    ensures
        params_text(outer, params) == params_text(inner, params),
    decreases params,
{
    if params.len() > 0 {
        lemma_params_text_larger_scope(inner, outer, params.drop_last());
        lemma_param_text_larger_scope(inner, outer, params.last());
    }
}

proof fn lemma_param_text_larger_scope(inner: Seq<Seq<char>>, outer: Seq<Seq<char>>, p: Parameter)
    requires
        scope_within(inner, outer),
        param_text(inner, p) is Ok,
    ensures
        param_text(outer, p) == param_text(inner, p),
    decreases p,
{
    match p {
        Parameter::Ty(t) => lemma_ty_text_larger_scope(inner, outer, t),
        Parameter::Lt(l) => {},
    }
}

/// An expression that prints under a scope prints the same under any scope
/// that binds at least the same lifetime variables.
pub proof fn lemma_expr_text_larger_scope(inner: Seq<Seq<char>>, outer: Seq<Seq<char>>, e: Expr)
    requires
        scope_within(inner, outer),
        expr_text(inner, e) is Some,
    ensures
        expr_text(outer, e) == expr_text(inner, e),
    decreases e,
{
    match e {
        Expr::Assign { place, expr } => lemma_expr_text_larger_scope(inner, outer, *expr),
        Expr::Call { callee, args } => {
            lemma_expr_text_larger_scope(inner, outer, *callee);
            lemma_exprs_text_larger_scope(inner, outer, args@);
        },
        Expr::Turbofish { id, args } => lemma_params_text_larger_scope(inner, outer, args@),
        Expr::Struct { field_exprs, adt_id, turbofish } => {
            lemma_params_text_larger_scope(inner, outer, turbofish.parameters@);
            lemma_field_exprs_text_larger_scope(inner, outer, field_exprs@);
        },
        _ => {},
    }
}

proof fn lemma_exprs_text_larger_scope(inner: Seq<Seq<char>>, outer: Seq<Seq<char>>, es: Seq<Expr>)
    requires
        scope_within(inner, outer),
        exprs_text(inner, es) is Some,
    ensures
        exprs_text(outer, es) == exprs_text(inner, es),
    decreases es,
{
    if es.len() > 0 {
        lemma_exprs_text_larger_scope(inner, outer, es.drop_last());
        lemma_expr_text_larger_scope(inner, outer, es.last());
    }
}

proof fn lemma_field_expr_text_larger_scope(
    inner: Seq<Seq<char>>,
    outer: Seq<Seq<char>>,
    f: FieldExpr,
)
    requires
        scope_within(inner, outer),
        field_expr_text(inner, f) is Some,
    ensures
        field_expr_text(outer, f) == field_expr_text(inner, f),
    decreases f,
{
    lemma_expr_text_larger_scope(inner, outer, f.value);
}

proof fn lemma_field_exprs_text_larger_scope(
    inner: Seq<Seq<char>>,
    outer: Seq<Seq<char>>,
    fs: Seq<FieldExpr>,
)
    requires
        scope_within(inner, outer),
        field_exprs_text(inner, fs) is Some,
    ensures
        field_exprs_text(outer, fs) == field_exprs_text(inner, fs),
    decreases fs,
{
    if fs.len() > 0 {
        lemma_field_exprs_text_larger_scope(inner, outer, fs.drop_last());
        lemma_field_expr_text_larger_scope(inner, outer, fs.last());
    }
}

/// A statement that prints under a scope prints the same under any scope that
/// binds at least the same lifetime variables: an `exists` block prints the
/// same wherever it is nested.
pub proof fn lemma_stmt_text_larger_scope(inner: Seq<Seq<char>>, outer: Seq<Seq<char>>, s: Stmt)
    requires
        scope_within(inner, outer),
        stmt_text(inner, s) is Some,
    ensures
        stmt_text(outer, s) == stmt_text(inner, s),
    decreases s,
{
    match s {
        Stmt::Let { label, id, ty, init } => {
            lemma_ty_text_larger_scope(inner, outer, ty);
            if let Some(i) = init {
                lemma_expr_text_larger_scope(inner, outer, i.expr);
            }
        },
        Stmt::If { condition, then_block, else_block } => {
            lemma_expr_text_larger_scope(inner, outer, condition);
            lemma_block_text_larger_scope(inner, outer, then_block);
            lemma_block_text_larger_scope(inner, outer, else_block);
        },
        Stmt::Expr { expr } => lemma_expr_text_larger_scope(inner, outer, expr),
        Stmt::Loop { label, body } => lemma_block_text_larger_scope(inner, outer, body),
        Stmt::Return { expr } => lemma_expr_text_larger_scope(inner, outer, expr),
        Stmt::Block(b) => lemma_block_text_larger_scope(inner, outer, b),
        Stmt::Exists { binder } => {
            lemma_scope_within_extend(inner, outer, views(binder.vars@));
            lemma_block_text_larger_scope(
                inner + views(binder.vars@),
                outer + views(binder.vars@),
                binder.term,
            );
        },
        _ => {},
    }
}

proof fn lemma_stmts_text_larger_scope(inner: Seq<Seq<char>>, outer: Seq<Seq<char>>, ss: Seq<Stmt>)
    requires
        scope_within(inner, outer),
        stmts_text(inner, ss) is Some,
    ensures
        stmts_text(outer, ss) == stmts_text(inner, ss),
    decreases ss,
{
    if ss.len() > 0 {
        lemma_stmts_text_larger_scope(inner, outer, ss.drop_last());
        lemma_stmt_text_larger_scope(inner, outer, ss.last());
    }
}

/// A block that prints under a scope prints the same under any scope that
/// binds at least the same lifetime variables.
pub proof fn lemma_block_text_larger_scope(inner: Seq<Seq<char>>, outer: Seq<Seq<char>>, b: Block)
    requires
        scope_within(inner, outer),
        block_text(inner, b) is Some,
    ensures
        block_text(outer, b) == block_text(inner, b),
    decreases b,
{
    lemma_stmts_text_larger_scope(inner, outer, b.stmts@);
}

proof fn lemma_params_parts(scope: Seq<Seq<char>>, params: Seq<Parameter>)
    requires
        params_text(scope, params) is Ok,
    ensures
        params_text(scope, params)->Ok_0.len() == params.len(),
        forall|i: int|
            0 <= i < params.len() ==> #[trigger] param_text(scope, params[i]) == Ok::<
                Seq<char>,
                PrettyError,
            >(params_text(scope, params)->Ok_0[i]),
    decreases params.len(),
{
    if params.len() > 0 {
        lemma_params_parts(scope, params.drop_last());
        assert forall|i: int| 0 <= i < params.len() implies #[trigger] param_text(scope, params[i])
            == Ok::<Seq<char>, PrettyError>(params_text(scope, params)->Ok_0[i]) by {
            if i < params.len() - 1 {
                assert(params.drop_last()[i] == params[i]);
            }
        }
    }
}

/// A struct expression prints as its name, then its generic arguments in their
/// given order, separated by `, ` and between angle brackets (nothing at all
/// when they print as nothing), then its fields in their given order,
/// separated by `, ` and between `{ ` and ` }`. Each argument and each field
/// prints as it does on its own.
pub proof fn lemma_struct_expr_text(
    scope: Seq<Seq<char>>,
    field_exprs: Vec<FieldExpr>,
    adt_id: String,
    turbofish: Turbofish,
)
    requires
        expr_text(scope, (Expr::Struct { field_exprs, adt_id, turbofish })) is Some,
    ensures
        forall|i: int|
            0 <= i < turbofish.parameters@.len() ==> #[trigger] param_text(
                scope,
                turbofish.parameters@[i],
            ) is Ok,
        forall|i: int|
            0 <= i < field_exprs@.len() ==> #[trigger] field_expr_text(scope, field_exprs@[i]) is Some,
        ({
            let ps = Seq::new(
                turbofish.parameters@.len(),
                |i: int| param_text(scope, turbofish.parameters@[i])->Ok_0,
            );
            let fs = Seq::new(
                field_exprs@.len(),
                |i: int| field_expr_text(scope, field_exprs@[i])->0,
            );
            let args = seq_join(ps, ", "@);
            expr_text(scope, (Expr::Struct { field_exprs, adt_id, turbofish }))->0 == adt_id@ + (if args.len()
                == 0 {
                Seq::<char>::empty()
            } else {
                "<"@ + args + ">"@
            }) + " { "@ + seq_join(fs, ", "@) + " }"@
        }),
{
    let params = turbofish.parameters@;
    lemma_params_parts(scope, params);
    lemma_fields_parts(scope, field_exprs@);
    let ps = Seq::new(params.len(), |i: int| param_text(scope, params[i])->Ok_0);
    let fs = Seq::new(field_exprs@.len(), |i: int| field_expr_text(scope, field_exprs@[i])->0);
    assert(ps =~= params_text(scope, params)->Ok_0);
    assert(fs =~= field_exprs_text(scope, field_exprs@)->0);
}

/// A statement that is a block prints exactly as the block does, braces
/// included; a block prints as `{ `, its statements in their given order, one
/// per line, each as it prints on its own, and ` }`.
pub proof fn lemma_block_stmt_text(scope: Seq<Seq<char>>, b: Block)
    requires
        block_text(scope, b) is Some,
    ensures
        stmt_text(scope, Stmt::Block(b)) == block_text(scope, b),
        forall|i: int| 0 <= i < b.stmts@.len() ==> #[trigger] stmt_text(scope, b.stmts@[i]) is Some,
        block_text(scope, b)->0 == "{ "@ + seq_join(
            Seq::new(b.stmts@.len(), |i: int| stmt_text(scope, b.stmts@[i])->0),
            "\n"@,
        ) + " }"@,
{
    lemma_stmts_parts(scope, b.stmts@);
    assert(Seq::new(b.stmts@.len(), |i: int| stmt_text(scope, b.stmts@[i])->0) =~= stmts_text(
        scope,
        b.stmts@,
    )->0);
}

/// A field projection prints as the text of its prefix, a dot, and the field's
/// name or tuple index; so it begins with the text of its prefix.
pub proof fn lemma_field_projection_text(prefix: PlaceExpr, field_name: FieldName)
    ensures
        place_text((PlaceExpr::Field { prefix: Box::new(prefix), field_name })) == place_text(prefix) + "."@
            + match field_name {
            FieldName::Id(id) => id@,
            FieldName::Index(i) => decimal(i as nat),
        },
        place_text(prefix).is_prefix_of(
            place_text((PlaceExpr::Field { prefix: Box::new(prefix), field_name })),
        ),
{
    let whole = place_text((PlaceExpr::Field { prefix: Box::new(prefix), field_name }));
    assert(whole.subrange(0, place_text(prefix).len() as int) =~= place_text(prefix));
}

/// An error among the texts of a prefix of the generic arguments is the error
/// of all of them.
proof fn lemma_params_text_prefix_err(scope: Seq<Seq<char>>, params: Seq<Parameter>, k: int)
    requires
        0 <= k <= params.len(),
        params_text(scope, params.take(k)) is Err,
    ensures
        params_text(scope, params) == params_text(scope, params.take(k)),
    decreases params.len(),
{
    if k == params.len() {
        assert(params.take(k) =~= params);
    } else {
        assert(params.drop_last().take(k) =~= params.take(k));
        lemma_params_text_prefix_err(scope, params.drop_last(), k);
    }
}

/// Renders a-mir-formality terms as Rust source text.
pub struct RustBuilder {
    bound: Vec<String>,
}

impl View for RustBuilder {
    type V = Seq<Seq<char>>;

    /// The lifetime variables bound by the enclosing binders, outermost first.
    closed spec fn view(&self) -> Seq<Seq<char>> {
        views(self.bound@)
    }
}

impl RustBuilder {
    /// A builder outside every binder.
    pub fn new() -> (b: RustBuilder)
        ensures
            b@ == Seq::<Seq<char>>::empty(),
    {
        let b = RustBuilder { bound: Vec::new() };
        assert(b@ =~= Seq::<Seq<char>>::empty());
        b
    }

    /// Whether an enclosing binder introduces the lifetime variable `v`.
    fn is_bound(&self, v: &String) -> (b: bool)
        ensures
            b == self@.contains(v@),
    {
        let n = self.bound.len();
        let mut i: usize = 0;
        while i < n
            invariant
                n == self.bound@.len(),
                i <= n,
                forall|j: int| 0 <= j < i ==> self@[j] != v@,
            decreases n - i,
        {
            if self.bound[i] == *v {
                assert(self@[i as int] == v@);
                return true;
            }
            i = i + 1;
        }
        assert forall|j: int| 0 <= j < self@.len() implies self@[j] != v@ by {}
        false
    }

    /// The text of a lifetime.
    pub fn pretty_print_lt(&self, lt: &Lt) -> (r: Result<String, PrettyError>)
        ensures
            result_view(r) == lt_text(self@, *lt),
    {
        match lt {
            Lt::Static => Ok(String::from_str("'static")),
            Lt::Var(v) => {
                if self.is_bound(v) {
                    let s = String::new();
                    Ok(s)
                } else {
                    Err(PrettyError::UnboundLifetime)
                }
            },
        }
    }

    /// The text of a type.
    pub fn pretty_print_type(&self, ty: &Ty) -> (r: Result<String, PrettyError>)
        ensures
            result_view(r) == ty_text(self@, *ty),
        decreases ty,
    {
        match ty {
            Ty::RigidTy(r) => {
                let ps = match self.pretty_print_parameters(&r.parameters) {
                    Ok(ps) => ps,
                    Err(e) => return Err(e),
                };
                self.print_rigid(&r.name, &r.parameters, &ps)
            },
            _ => Err(PrettyError::Unsupported),
        }
    }

    /// The text of a generic argument.
    pub fn pretty_print_parameter(&self, p: &Parameter) -> (r: Result<String, PrettyError>)
        ensures
            result_view(r) == param_text(self@, *p),
        decreases p,
    {
        match p {
            Parameter::Ty(t) => self.pretty_print_type(t),
            Parameter::Lt(l) => self.pretty_print_lt(l),
        }
    }

    /// The texts of generic arguments, or the first error among them.
    fn pretty_print_parameters(&self, params: &Vec<Parameter>) -> (r: Result<Vec<String>, PrettyError>)
        ensures
            match r {
                Ok(v) => params_text(self@, params@) == Ok::<Seq<Seq<char>>, PrettyError>(views(v@)),
                Err(e) => params_text(self@, params@) == Err::<Seq<Seq<char>>, PrettyError>(e),
            },
        decreases params,
    {
        let mut out: Vec<String> = Vec::new();
        let n = params.len();
        assert(params@.take(0) =~= Seq::<Parameter>::empty());
        assert(views(out@) =~= Seq::<Seq<char>>::empty());
        let mut i: usize = 0;
        while i < n
            invariant
                n == params@.len(),
                i <= n,
                params_text(self@, params@.take(i as int)) == Ok::<Seq<Seq<char>>, PrettyError>(views(out@)),
            decreases n - i,
        {
            assert(params@.take(i + 1).drop_last() =~= params@.take(i as int));
            assert(params@.take(i + 1).last() == params@[i as int]);
            match self.pretty_print_parameter(&params[i]) {
                Ok(t) => {
                    let ghost before = out@;
                    out.push(t);
                    assert(out@.drop_last() =~= before);
                    assert(views(out@) =~= views(before).push(out@.last()@));
                },
                Err(e) => {
                    proof {
                        lemma_params_text_prefix_err(self@, params@, i + 1);
                    }
                    return Err(e);
                },
            }
            i = i + 1;
        }
        assert(params@.take(n as int) =~= params@);
        Ok(out)
    }

    /// The text of a rigid type, given the texts of its generic arguments.
    fn print_rigid(&self, name: &RigidName, params: &Vec<Parameter>, ps: &Vec<String>) -> (r: Result<
        String,
        PrettyError,
    >)
        ensures
            result_view(r) == rigid_text(*name, params@, views(ps@)),
    {
        assert(views(ps@).len() == ps@.len());
        match name {
            RigidName::ScalarId(s) => {
                if ps.len() == 0 {
                    Ok(String::from_str(scalar_str(s)))
                } else {
                    Err(PrettyError::Unsupported)
                }
            },
            RigidName::Tuple(n) => {
                if ps.len() == *n {
                    let mut out = String::from_str("(");
                    let joined = join_strings(ps, ", ");
                    out.append(joined.as_str());
                    if *n == 1 {
                        out.append(",");
                    } else {
                        assert(out@ + Seq::<char>::empty() =~= out@);
                    }
                    out.append(")");
                    Ok(out)
                } else {
                    Err(PrettyError::Unsupported)
                }
            },
            RigidName::AdtId(id) => {
                if ps.len() == 0 {
                    Ok(id.clone())
                } else {
                    let mut out = id.clone();
                    out.append("<");
                    let joined = join_strings(ps, ", ");
                    out.append(joined.as_str());
                    out.append(">");
                    Ok(out)
                }
            },
            RigidName::Ref(k) => {
                if params.len() == 2 && ps.len() == 2 && matches!(params[0], Parameter::Lt(_))
                    && matches!(params[1], Parameter::Ty(_)) {
                    let mut out = String::from_str("&");
                    out.append(ps[0].as_str());
                    out.append(" ");
                    out.append(ref_kind_str(k));
                    out.append(" ");
                    out.append(ps[1].as_str());
                    assert(views(ps@)[0] == ps@[0]@);
                    assert(views(ps@)[1] == ps@[1]@);
                    Ok(out)
                } else {
                    Err(PrettyError::Unsupported)
                }
            },
            _ => Err(PrettyError::Unsupported),
        }
    }
}

impl RustBuilder {
    /// The keyword of the scalar type of a literal.
    pub fn pretty_print_scalar(&self, ty: &Ty) -> (r: String)
        requires
            scalar_of(*ty) is Some,
        ensures
            r@ == scalar_text(scalar_of(*ty)->0),
    {
        match ty {
            Ty::RigidTy(r) => match &r.name {
                RigidName::ScalarId(s) => String::from_str(scalar_str(s)),
                _ => {
                    assert(false);
                    String::new()
                },
            },
            _ => {
                assert(false);
                String::new()
            },
        }
    }

    /// The text of a field name.
    pub fn build_field_name(&mut self, field_name: &FieldName) -> (r: String)
        ensures
            final(self)@ == old(self)@,
            r@ == field_name_text(*field_name),
    {
        match field_name {
            FieldName::Id(id) => id.clone(),
            FieldName::Index(i) => {
                let mut out = String::new();
                push_decimal(&mut out, *i);
                assert(out@ =~= decimal(*i as nat));
                out
            },
        }
    }

    /// The text of a place expression.
    pub fn build_place_expr(&mut self, place_expr: &PlaceExpr) -> (r: String)
        ensures
            final(self)@ == old(self)@,
            r@ == place_text(*place_expr),
        decreases place_expr,
    {
        match place_expr {
            PlaceExpr::Var(value_id) => value_id.clone(),
            PlaceExpr::Deref { prefix } => {
                let inner = self.build_place_expr(prefix);
                let mut out = String::from_str("*");
                out.append(inner.as_str());
                out
            },
            PlaceExpr::Parens(inner) => {
                let inner = self.build_place_expr(inner);
                let mut out = String::from_str("(");
                out.append(inner.as_str());
                out.append(")");
                out
            },
            PlaceExpr::Field { prefix, field_name } => {
                let mut out = self.build_place_expr(prefix);
                out.append(".");
                let name = self.build_field_name(field_name);
                out.append(name.as_str());
                out
            },
        }
    }

    /// The text of an expression.
    pub fn build_expr(&mut self, expr: &Expr) -> (r: String)
        requires
            expr_text(old(self)@, *expr) is Some,
        ensures
            final(self)@ == old(self)@,
            r@ == expr_text(old(self)@, *expr)->0,
        decreases expr_size(*expr),
    {
        let ghost scope = self@;
        match expr {
            Expr::Assign { place, expr } => {
                let mut out = self.build_place_expr(place);
                let value = self.build_expr(expr);
                out.append(" = ");
                out.append(value.as_str());
                out.append(";");
                out
            },
            Expr::Call { callee, args } => {
                proof {
                    lemma_exprs_parts(scope, args@);
                }
                let mut out = self.build_expr(callee);
                let ghost texts = exprs_text(scope, args@)->0;
                let mut parts: Vec<String> = Vec::new();
                let n = args.len();
                let mut i: usize = 0;
                while i < n
                    invariant
                        n == args@.len(),
                        i <= n,
                        self@ == scope,
                        texts.len() == n,
                        forall|j: int| 0 <= j < n ==> #[trigger] expr_text(scope, args@[j]) == Some(texts[j]),
                        forall|j: int| 0 <= j < n ==> #[trigger] expr_size(args@[j]) <= exprs_size(args@),
                        expr_size(*expr) == 1 + expr_size(**callee) + exprs_size(args@),
                        views(parts@) == texts.take(i as int),
                    decreases n - i,
                {
                    assert(expr_text(scope, args@[i as int]) == Some(texts[i as int]));
                    let t = self.build_expr(&args[i]);
                    assert(t@ == texts[i as int]);
                    let ghost before = parts@;
                    parts.push(t);
                    assert(parts@.drop_last() =~= before);
                    assert(views(parts@) =~= views(before).push(parts@.last()@));
                    assert(texts.take(i as int).push(texts[i as int]) =~= texts.take(i + 1));
                    i = i + 1;
                }
                assert(texts.take(n as int) =~= texts);
                let joined = iter_join(&parts, ", ");
                out.append("(");
                out.append(joined.as_str());
                out.append(")");
                out
            },
            Expr::Literal { value, ty } => {
                let mut out = String::new();
                push_decimal(&mut out, *value);
                assert(out@ =~= decimal(*value as nat));
                out.append("_");
                let scalar = self.pretty_print_scalar(ty);
                out.append(scalar.as_str());
                out
            },
            Expr::True => String::from_str("true"),
            Expr::False => String::from_str("false"),
            Expr::Ref { kind, lt, place } => {
                let kind = ref_kind_str(kind);
                let lt = self.pretty_print_lt(lt).unwrap();
                let place = self.build_place_expr(place);
                let mut out = String::from_str("&");
                out.append(lt.as_str());
                out.append(" ");
                out.append(kind);
                out.append(" ");
                out.append(place.as_str());
                out
            },
            Expr::Place(place_expr) => self.build_place_expr(place_expr),
            Expr::Turbofish { id, args } => {
                let params = self.pretty_print_parameters(args).unwrap();
                let joined = join_strings(&params, ", ");
                let mut out = id.clone();
                out.append("::<");
                out.append(joined.as_str());
                out.append(">");
                out
            },
            Expr::Struct { field_exprs, adt_id, turbofish } => {
                proof {
                    lemma_fields_parts(scope, field_exprs@);
                }
                let params = self.pretty_print_parameters(&turbofish.parameters).unwrap();
                let args = join_strings(&params, ", ");
                let turbofish_text = if args.as_str().is_empty() {
                    args
                } else {
                    let mut t = String::from_str("<");
                    t.append(args.as_str());
                    t.append(">");
                    t
                };
                let ghost texts = field_exprs_text(scope, field_exprs@)->0;
                let mut parts: Vec<String> = Vec::new();
                let n = field_exprs.len();
                let mut i: usize = 0;
                while i < n
                    invariant
                        n == field_exprs@.len(),
                        i <= n,
                        self@ == scope,
                        texts.len() == n,
                        forall|j: int| 0 <= j < n ==> #[trigger] field_expr_text(scope, field_exprs@[j]) == Some(texts[j]),
                        forall|j: int| 0 <= j < n ==> #[trigger] field_size(field_exprs@[j]) <= fields_size(field_exprs@),
                        expr_size(*expr) == 1 + fields_size(field_exprs@),
                        views(parts@) == texts.take(i as int),
                    decreases n - i,
                {
                    assert(field_expr_text(scope, field_exprs@[i as int]) == Some(texts[i as int]));
                    let t = self.build_field_expr(&field_exprs[i]);
                    assert(t@ == texts[i as int]);
                    let ghost before = parts@;
                    parts.push(t);
                    assert(parts@.drop_last() =~= before);
                    assert(views(parts@) =~= views(before).push(parts@.last()@));
                    assert(texts.take(i as int).push(texts[i as int]) =~= texts.take(i + 1));
                    i = i + 1;
                }
                assert(texts.take(n as int) =~= texts);
                let fields = iter_join(&parts, ", ");
                let mut out = adt_id.clone();
                out.append(turbofish_text.as_str());
                out.append(" { ");
                out.append(fields.as_str());
                out.append(" }");
                out
            },
        }
    }

    /// The text of one `field: value` of a struct expression.
    pub fn build_field_expr(&mut self, field_expr: &FieldExpr) -> (r: String)
        requires
            field_expr_text(old(self)@, *field_expr) is Some,
        ensures
            final(self)@ == old(self)@,
            r@ == field_expr_text(old(self)@, *field_expr)->0,
        decreases field_size(*field_expr),
    {
        let value = self.build_expr(&field_expr.value);
        match &field_expr.name {
            FieldName::Id(id) => {
                let mut out = id.clone();
                out.append(": ");
                out.append(value.as_str());
                out
            },
            FieldName::Index(_) => value,
        }
    }
}

impl RustBuilder {
    /// The text of a block: its statements, one per line, between braces.
    pub fn build_block(&mut self, block: &Block) -> (r: String)
        requires
            block_text(old(self)@, *block) is Some,
        ensures
            final(self)@ == old(self)@,
            r@ == block_text(old(self)@, *block)->0,
        decreases 2 * block_size(*block),
    {
        let ghost scope = self@;
        proof {
            lemma_stmts_parts(scope, block.stmts@);
        }
        let ghost texts = stmts_text(scope, block.stmts@)->0;
        let mut parts: Vec<String> = Vec::new();
        let n = block.stmts.len();
        let mut i: usize = 0;
        while i < n
            invariant
                n == block.stmts@.len(),
                i <= n,
                self@ == scope,
                texts.len() == n,
                forall|j: int| 0 <= j < n ==> #[trigger] stmt_text(scope, block.stmts@[j]) == Some(texts[j]),
                forall|j: int| 0 <= j < n ==> #[trigger] stmt_size(block.stmts@[j]) <= stmts_size(block.stmts@),
                block_size(*block) == 1 + stmts_size(block.stmts@),
                views(parts@) == texts.take(i as int),
            decreases n - i,
        {
            assert(stmt_text(scope, block.stmts@[i as int]) == Some(texts[i as int]));
            let t = self.build_stmt(&block.stmts[i]);
            assert(t@ == texts[i as int]);
            let ghost before = parts@;
            parts.push(t);
            assert(parts@.drop_last() =~= before);
            assert(views(parts@) =~= views(before).push(parts@.last()@));
            assert(texts.take(i as int).push(texts[i as int]) =~= texts.take(i + 1));
            i = i + 1;
        }
        assert(texts.take(n as int) =~= texts);
        let statements = join_strings(&parts, "\n");
        let mut out = String::from_str("{ ");
        out.append(statements.as_str());
        out.append(" }");
        out
    }

    /// The text of a statement.
    pub fn build_stmt(&mut self, stmt: &Stmt) -> (r: String)
        requires
            stmt_text(old(self)@, *stmt) is Some,
        ensures
            final(self)@ == old(self)@,
            r@ == stmt_text(old(self)@, *stmt)->0,
        decreases 2 * stmt_size(*stmt),
    {
        match stmt {
            Stmt::Let { label, id, ty, init } => self.build_let(label.as_ref(), id, ty, init.as_ref()),
            Stmt::If { condition, then_block, else_block } => self.build_if(
                condition,
                then_block,
                else_block,
            ),
            Stmt::Expr { expr } => self.build_expr(expr),
            Stmt::Loop { label, body } => self.build_loop(label.as_ref(), body),
            Stmt::Break { label } => self.build_break(label),
            Stmt::Continue { label } => self.build_continue(label),
            Stmt::Return { expr } => self.build_return(expr),
            Stmt::Block(block) => self.build_block(block),
            Stmt::Exists { binder } => self.build_exists(binder),
        }
    }

    /// The text of `let mut id: ty = init;`; the label is not printed.
    pub fn build_let(
        &mut self,
        _label: Option<&Label>,
        id: &String,
        ty: &Ty,
        init: Option<&Init>,
    ) -> (r: String)
        requires
            let_text(old(self)@, id@, *ty, opt_init_expr(init)) is Some,
        ensures
            final(self)@ == old(self)@,
            r@ == let_text(old(self)@, id@, *ty, opt_init_expr(init))->0,
    {
        let ty = self.pretty_print_type(ty).unwrap();
        let init = match init {
            Some(i) => {
                let value = self.build_expr(&i.expr);
                let mut t = String::from_str(" = ");
                t.append(value.as_str());
                t
            },
            None => String::new(),
        };
        let mut out = String::from_str("let mut ");
        out.append(id.as_str());
        out.append(": ");
        out.append(ty.as_str());
        out.append(init.as_str());
        out.append(";");
        out
    }

    /// The text of `if condition { then } else { else }`.
    pub fn build_if(&mut self, condition: &Expr, then_block: &Block, else_block: &Block) -> (r: String)
        requires
            expr_text(old(self)@, *condition) is Some,
            block_text(old(self)@, *then_block) is Some,
            block_text(old(self)@, *else_block) is Some,
        ensures
            final(self)@ == old(self)@,
            r@ == "if "@ + expr_text(old(self)@, *condition)->0 + " { "@ + block_text(
                old(self)@,
                *then_block,
            )->0 + " } else { "@ + block_text(old(self)@, *else_block)->0 + " }"@,
        decreases 2 * (block_size(*then_block) + block_size(*else_block)) + 1,
    {
        let condition = self.build_expr(condition);
        let then_block = self.build_block(then_block);
        let else_block = self.build_block(else_block);
        let mut out = String::from_str("if ");
        out.append(condition.as_str());
        out.append(" { ");
        out.append(then_block.as_str());
        out.append(" } else { ");
        out.append(else_block.as_str());
        out.append(" }");
        out
    }

    /// The text of `label: loop { body }` (without `label: ` when unlabelled).
    pub fn build_loop(&mut self, label: Option<&Label>, body: &Block) -> (r: String)
        requires
            block_text(old(self)@, *body) is Some,
        ensures
            final(self)@ == old(self)@,
            r@ == opt_label_text(label) + "loop { "@ + block_text(old(self)@, *body)->0 + " }"@,
        decreases 2 * block_size(*body) + 1,
    {
        let label = match label {
            Some(l) => {
                let mut t = l.id.clone();
                t.append(": ");
                t
            },
            None => String::new(),
        };
        let body = self.build_block(body);
        let mut out = label;
        out.append("loop { ");
        out.append(body.as_str());
        out.append(" }");
        out
    }

    /// The text of `break label;`.
    pub fn build_break(&mut self, label: &String) -> (r: String)
        ensures
            final(self)@ == old(self)@,
            r@ == "break "@ + label@ + ";"@,
    {
        let mut out = String::from_str("break ");
        out.append(label.as_str());
        out.append(";");
        out
    }

    /// The text of `continue label;`.
    pub fn build_continue(&mut self, label: &String) -> (r: String)
        ensures
            final(self)@ == old(self)@,
            r@ == "continue "@ + label@ + ";"@,
    {
        let mut out = String::from_str("continue ");
        out.append(label.as_str());
        out.append(";");
        out
    }

    /// The text of `return expr;`.
    pub fn build_return(&mut self, expr: &Expr) -> (r: String)
        requires
            expr_text(old(self)@, *expr) is Some,
        ensures
            final(self)@ == old(self)@,
            r@ == "return "@ + expr_text(old(self)@, *expr)->0 + ";"@,
    {
        let expr = self.build_expr(expr);
        let mut out = String::from_str("return ");
        out.append(expr.as_str());
        out.append(";");
        out
    }

    /// The text of the block under an `exists` binder, built with the binder's
    /// lifetime variables in scope; the builder's scope is the same afterwards.
    pub fn build_exists(&mut self, binder: &Binder<Block>) -> (r: String)
        requires
            block_text(old(self)@ + views(binder.vars@), binder.term) is Some,
        ensures
            final(self)@ == old(self)@,
            r@ == block_text(old(self)@ + views(binder.vars@), binder.term)->0,
        decreases 2 * block_size(binder.term) + 1,
    {
        let ghost scope = self@;
        let n = self.bound.len();
        let m = binder.vars.len();
        let mut i: usize = 0;
        while i < m
            invariant
                m == binder.vars@.len(),
                i <= m,
                n == scope.len(),
                self@ == scope + views(binder.vars@.take(i as int)),
            decreases m - i,
        {
            let ghost before = self@;
            self.bound.push(binder.vars[i].clone());
            assert(self@ =~= before.push(binder.vars@[i as int]@));
            assert(views(binder.vars@.take(i + 1)) =~= views(binder.vars@.take(i as int)).push(
                binder.vars@[i as int]@,
            ));
            i = i + 1;
        }
        assert(binder.vars@.take(m as int) =~= binder.vars@);
        let out = self.build_block(&binder.term);
        let ghost inner = self@;
        self.bound.truncate(n);
        assert(self@ =~= inner.take(n as int));
        assert(self@ =~= scope);
        out
    }
}

} // verus!
