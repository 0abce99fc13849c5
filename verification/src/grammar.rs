//! The fragment of the a-mir-formality grammar that the printers read:
//! programs, crates, functions, types and the statement/expression language.
//! Identifiers are held as plain strings.

use vstd::prelude::*;

verus! {

/// The scalar types of Rust.
pub enum ScalarId {
    U8,
    U16,
    U32,
    U64,
    U128,
    Usize,
    I8,
    I16,
    I32,
    I64,
    I128,
    Isize,
    Bool,
}

/// Shared or mutable borrows.
pub enum RefKind {
    Shared,
    Mut,
}

/// The head of a rigid type.
pub enum RigidName {
    AdtId(String),
    ScalarId(ScalarId),
    Ref(RefKind),
    Raw(RefKind),
    Tuple(usize),
    FnPtr(usize),
    FnDef(String),
}

/// A lifetime: `'static` or a named lifetime variable (held without its quote).
pub enum Lt {
    Static,
    Var(String),
}

/// A generic argument.
pub enum Parameter {
    Ty(Ty),
    Lt(Lt),
}

/// A rigid type: a head applied to its generic arguments.
pub struct RigidTy {
    pub name: RigidName,
    pub parameters: Vec<Parameter>,
}

/// A type. Only rigid types carry structure here; the others are named.
pub enum Ty {
    RigidTy(RigidTy),
    AliasTy(String),
    PredicateTy(String),
    Variable(String),
}

impl Ty {
    /// The rigid type `name<parameters>`.
    pub fn rigid(name: RigidName, parameters: Vec<Parameter>) -> (ty: Ty)
        ensures
            ty == Ty::RigidTy(RigidTy { name, parameters }),
    {
        Ty::RigidTy(RigidTy { name, parameters })
    }

    /// The type `bool`.
    pub fn bool() -> (ty: Ty)
        ensures
            ty matches Ty::RigidTy(r) && r.name == RigidName::ScalarId(ScalarId::Bool)
                && r.parameters@.len() == 0,
    {
        Ty::RigidTy(RigidTy { name: RigidName::ScalarId(ScalarId::Bool), parameters: Vec::new() })
    }
}

/// A term under a binder of lifetime variables.
pub struct Binder<T> {
    pub vars: Vec<String>,
    pub term: T,
}

impl<T> Binder<T> {
    /// A binder that binds nothing.
    pub fn dummy(term: T) -> (b: Binder<T>)
        ensures
            b.vars@.len() == 0,
            b.term == term,
    {
        Binder { vars: Vec::new(), term }
    }

    /// The bound variables and the term under the binder.
    pub fn open(&self) -> (r: (&Vec<String>, &T))
        ensures
            *r.0 == self.vars,
            *r.1 == self.term,
    {
        (&self.vars, &self.term)
    }
}

/// A label of a loop.
pub struct Label {
    pub id: String,
}

/// A place: a variable, possibly dereferenced, parenthesised or projected.
pub enum PlaceExpr {
    Var(String),
    Deref { prefix: Box<PlaceExpr> },
    Parens(Box<PlaceExpr>),
    Field { prefix: Box<PlaceExpr>, field_name: FieldName },
}

/// The name of a field: an identifier or a tuple index.
pub enum FieldName {
    Id(String),
    Index(usize),
}

/// The explicit generic arguments of a struct expression.
pub struct Turbofish {
    pub parameters: Vec<Parameter>,
}

/// One `field: value` of a struct expression.
pub struct FieldExpr {
    pub name: FieldName,
    pub value: Expr,
}

/// An expression.
pub enum Expr {
    Assign { place: PlaceExpr, expr: Box<Expr> },
    Call { callee: Box<Expr>, args: Vec<Expr> },
    Literal { value: usize, ty: Ty },
    True,
    False,
    Ref { kind: RefKind, lt: Lt, place: PlaceExpr },
    Place(PlaceExpr),
    Turbofish { id: String, args: Vec<Parameter> },
    Struct { field_exprs: Vec<FieldExpr>, adt_id: String, turbofish: Turbofish },
}

/// The initialiser of a `let`.
pub struct Init {
    pub expr: Expr,
}

/// A block of statements.
pub struct Block {
    pub stmts: Vec<Stmt>,
}

/// A statement.
pub enum Stmt {
    Let { label: Option<Label>, id: String, ty: Ty, init: Option<Init> },
    If { condition: Expr, then_block: Block, else_block: Block },
    Expr { expr: Expr },
    Loop { label: Option<Label>, body: Block },
    Break { label: String },
    Continue { label: String },
    Return { expr: Expr },
    Block(Block),
    Exists { binder: Binder<Block> },
}

/// The body of a function, if it has one.
pub enum MaybeFnBody {
    NoFnBody,
    FnBody(Block),
}

/// The signature and body of a function, under its binder.
pub struct FnBoundData {
    pub input_tys: Vec<Ty>,
    pub output_ty: Ty,
    pub body: MaybeFnBody,
}

/// A function item.
pub struct Fn {
    pub id: String,
    pub binder: Binder<FnBoundData>,
}

/// An item of a crate. Only functions carry their contents here; the other
/// kinds are named.
pub enum CrateItem {
    Fn(Fn),
    FeatureGate(String),
    Struct(String),
    Enum(String),
    Trait(String),
    TraitImpl(String),
    NegTraitImpl(String),
    Test(String),
}

/// A crate.
pub struct Crate {
    pub id: String,
    pub items: Vec<CrateItem>,
}

impl Crate {
    pub fn new(id: String, items: Vec<CrateItem>) -> (c: Crate)
        ensures
            c.id == id,
            c.items == items,
    {
        Crate { id, items }
    }
}

/// A program: a list of crates.
pub struct Program {
    pub crates: Vec<Crate>,
}

/// The Rust keyword of a scalar type.
pub open spec fn scalar_text(s: ScalarId) -> Seq<char> {
    match s {
        ScalarId::U8 => "u8"@,
        ScalarId::U16 => "u16"@,
        ScalarId::U32 => "u32"@,
        ScalarId::U64 => "u64"@,
        ScalarId::U128 => "u128"@,
        ScalarId::Usize => "usize"@,
        ScalarId::I8 => "i8"@,
        ScalarId::I16 => "i16"@,
        ScalarId::I32 => "i32"@,
        ScalarId::I64 => "i64"@,
        ScalarId::I128 => "i128"@,
        ScalarId::Isize => "isize"@,
        ScalarId::Bool => "bool"@,
    }
}

/// The keyword that follows `&` for a kind of borrow: nothing for a shared
/// borrow, `mut` for a mutable one.
pub open spec fn ref_kind_word(k: RefKind) -> Seq<char> {
    match k {
        RefKind::Shared => Seq::empty(),
        RefKind::Mut => "mut"@,
    }
}

/// The Rust keyword of a scalar type.
pub fn scalar_str(s: &ScalarId) -> (r: &'static str)
    ensures
        r@ == scalar_text(*s),
{
    match s {
        ScalarId::U8 => "u8",
        ScalarId::U16 => "u16",
        ScalarId::U32 => "u32",
        ScalarId::U64 => "u64",
        ScalarId::U128 => "u128",
        ScalarId::Usize => "usize",
        ScalarId::I8 => "i8",
        ScalarId::I16 => "i16",
        ScalarId::I32 => "i32",
        ScalarId::I64 => "i64",
        ScalarId::I128 => "i128",
        ScalarId::Isize => "isize",
        ScalarId::Bool => "bool",
    }
}

/// The keyword that follows `&` for a kind of borrow.
pub fn ref_kind_str(k: &RefKind) -> (r: &'static str)
    ensures
        r@ == ref_kind_word(*k),
{
    match k {
        RefKind::Shared => {
            proof { reveal_strlit(""); }
            ""
        },
        RefKind::Mut => "mut",
    }
}

} // verus!
