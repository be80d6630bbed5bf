//! The expression tree: data, never program text.

use vstd::prelude::*;

use crate::ir::primitives::{Identifier, RefPath};
use crate::json;
use crate::json::{Json, JsonMap, JsonV, Members};
use crate::keyed::{Keyed, TextMap};
use crate::wire::Wire;

verus! {

/// The closed set of pure functions of expressions.
#[derive(Debug, Clone, Copy, PartialEq, Eq, PartialOrd, Ord, Hash, Structural)]
pub enum PureFn {
    /// Equality of two values.
    Eq,
    /// Inequality of two values.
    Ne,
    /// Negation.
    Not,
    /// Conjunction of two or more booleans.
    And,
    /// Disjunction of two or more booleans.
    Or,
    /// Concatenation of one or more strings.
    Concat,
    /// Length of a string or an array.
    Len,
    /// The first value that is present.
    Coalesce,
    /// Access into a value by a literal path.
    JsonPath,
    /// Match of a string against a literal pattern.
    RegexMatch,
}

impl PureFn {
    /// The wire spelling.
    pub open spec fn wire(self) -> Seq<char> {
        match self {
            PureFn::Eq => "eq"@,
            PureFn::Ne => "ne"@,
            PureFn::Not => "not"@,
            PureFn::And => "and"@,
            PureFn::Or => "or"@,
            PureFn::Concat => "concat"@,
            PureFn::Len => "len"@,
            PureFn::Coalesce => "coalesce"@,
            PureFn::JsonPath => "jsonPath"@,
            PureFn::RegexMatch => "regexMatch"@,
        }
    }

    /// The wire spelling.
    pub fn wire_name(self) -> (r: &'static str)
        ensures
            r@ == self.wire(),
    {
        match self {
            PureFn::Eq => "eq",
            PureFn::Ne => "ne",
            PureFn::Not => "not",
            PureFn::And => "and",
            PureFn::Or => "or",
            PureFn::Concat => "concat",
            PureFn::Len => "len",
            PureFn::Coalesce => "coalesce",
            PureFn::JsonPath => "jsonPath",
            PureFn::RegexMatch => "regexMatch",
        }
    }
}

impl Wire for PureFn {
    open spec fn wire_json(&self) -> JsonV {
        JsonV::Text(self.wire())
    }

    fn to_json(&self) -> (r: Json) {
        Json::text(self.wire_name())
    }
}

/// Expression node: a literal, a reference or a function application.
#[derive(Debug, PartialEq, Eq)]
pub enum Expr {
    /// Literal JSON value.
    Lit(LitExpr),
    /// Reference into the closed scope grammar.
    Ref(RefExpr),
    /// Application of a pure function.
    Fn(FnExpr),
}

/// Literal JSON value.
#[derive(Debug, PartialEq, Eq, Clone)]
pub struct LitExpr {
    /// The literal value, verbatim.
    pub lit: Json,
}

/// Reference expression.
#[derive(Debug, PartialEq, Eq, Clone)]
pub struct RefExpr {
    /// The dotted reference path.
    pub reference: RefPath,
}

/// Application of a pure function.
#[derive(Debug, PartialEq, Eq)]
pub struct FnExpr {
    /// The pure function to apply.
    pub function: PureFn,
    /// Ordered argument expressions.
    pub args: Vec<Expr>,
}

/// The JSON form of an expression.
pub open spec fn expr_wire(e: Expr) -> JsonV
    decreases e,
{
    match e {
        Expr::Lit(l) => Members::none().with("lit"@, l.lit@).object(),
        Expr::Ref(r) => Members::none().with("ref"@, JsonV::Text(r.reference@)).object(),
        Expr::Fn(f) => Members::none().with("fn"@, JsonV::Text(f.function.wire())).with(
            "args"@,
            JsonV::Array(exprs_wire(f.args@)),
        ).object(),
    }
}

/// The JSON forms of a list of expressions.
pub open spec fn exprs_wire(es: Seq<Expr>) -> Seq<JsonV>
    decreases es,
{
    if es.len() == 0 {
        Seq::empty()
    } else {
        exprs_wire(es.drop_last()).push(expr_wire(es.last()))
    }
}

fn expr_json(e: &Expr) -> (r: Json)
    ensures
        r@ == expr_wire(*e),
    decreases e,
{
    match e {
        Expr::Lit(l) => JsonMap::new().with("lit", l.lit.clone()).object(),
        Expr::Ref(r) => JsonMap::new().with("ref", Json::text(r.reference.as_str())).object(),
        Expr::Fn(f) => {
            let args = exprs_json(&f.args);
            JsonMap::new().with("fn", Json::text(f.function.wire_name())).with(
                "args",
                args,
            ).object()
        },
    }
}

fn exprs_json(es: &Vec<Expr>) -> (r: Json)
    ensures
        r@ == JsonV::Array(exprs_wire(es@)),
    decreases es,
{
    let mut out: Vec<Json> = Vec::new();
    let mut i: usize = 0;
    assert(json::json_views(out@) =~= exprs_wire(es@.take(0)));
    while i < es.len()
        invariant
            i <= es@.len(),
            json::json_views(out@) == exprs_wire(es@.take(i as int)),
        decreases es@.len() - i,
    {
        assert(decreases_to!(*es => es@));
        assert(decreases_to!(es@ => es@[i as int]));
        let ghost before = out@;
        let item = expr_json(&es[i]);
        let ghost view = item@;
        out.push(item);
        assert(json::json_views(out@) =~= json::json_views(before).push(view));
        assert(es@.take(i + 1).drop_last() =~= es@.take(i as int));
        i = i + 1;
    }
    assert(es@.take(i as int) =~= es@);
    Json::array(out)
}

fn expr_copy(e: &Expr) -> (r: Expr)
    ensures
        expr_wire(r) == expr_wire(*e),
    decreases e,
{
    match e {
        Expr::Lit(l) => Expr::Lit(LitExpr { lit: l.lit.clone() }),
        Expr::Ref(r) => Expr::Ref(RefExpr { reference: r.reference.clone() }),
        Expr::Fn(f) => {
            let args = exprs_copy(&f.args);
            Expr::Fn(FnExpr { function: f.function, args })
        },
    }
}

fn exprs_copy(es: &Vec<Expr>) -> (r: Vec<Expr>)
    ensures
        exprs_wire(r@) == exprs_wire(es@),
    decreases es,
{
    let mut out: Vec<Expr> = Vec::new();
    let mut i: usize = 0;
    while i < es.len()
        invariant
            i <= es@.len(),
            exprs_wire(out@) == exprs_wire(es@.take(i as int)),
        decreases es@.len() - i,
    {
        assert(decreases_to!(*es => es@));
        assert(decreases_to!(es@ => es@[i as int]));
        let ghost before = out@;
        let item = expr_copy(&es[i]);
        out.push(item);
        assert(out@.drop_last() =~= before);
        assert(es@.take(i + 1).drop_last() =~= es@.take(i as int));
        i = i + 1;
    }
    assert(es@.take(i as int) =~= es@);
    out
}

impl Clone for Expr {
    fn clone(&self) -> (r: Self)
        ensures
            expr_wire(r) == expr_wire(*self),
    {
        expr_copy(self)
    }
}

impl Wire for Expr {
    open spec fn wire_json(&self) -> JsonV {
        expr_wire(*self)
    }

    fn to_json(&self) -> (r: Json) {
        expr_json(self)
    }
}

impl Expr {
    /// Builds a literal expression.
    pub fn lit(value: Json) -> (r: Self)
        ensures
            r == Expr::Lit(LitExpr { lit: value }),
    {
        Expr::Lit(LitExpr { lit: value })
    }

    /// Builds a reference expression.
    pub fn reference(path: RefPath) -> (r: Self)
        ensures
            r == Expr::Ref(RefExpr { reference: path }),
    {
        Expr::Ref(RefExpr { reference: path })
    }

    /// Builds a function application; its arity is not checked here.
    pub fn call(f: PureFn, args: Vec<Expr>) -> (r: Self)
        ensures
            r == Expr::Fn(FnExpr { function: f, args }),
    {
        Expr::Fn(FnExpr { function: f, args })
    }
}

/// Map of expressions, keyed by identifiers.
#[derive(Debug, PartialEq, Eq)]
pub struct ExprMap {
    entries: TextMap<Expr>,
}

impl ExprMap {
    /// The map, as contracts see it.
    pub closed spec fn view(&self) -> Keyed<Expr> {
        self.entries@
    }

    /// Creates an empty map.
    pub fn new() -> (r: Self)
        ensures
            r@ == Keyed::<Expr>::none(),
    {
        ExprMap { entries: TextMap::new() }
    }

    /// Sets `name` to `expr`.
    pub fn insert(&mut self, name: Identifier, expr: Expr)
        ensures
            final(self)@ == old(self)@.with(name@, expr),
    {
        self.entries.insert(name.as_str(), expr);
    }

    /// The expression under `name`.
    pub fn get(&self, name: &Identifier) -> (r: Option<&Expr>)
        ensures
            r is Some <==> self@.get(name@) is Some,
            r matches Some(e) ==> Some(*e) == self@.get(name@),
    {
        self.entries.get(name.as_str())
    }

    /// The number of entries.
    pub fn len(&self) -> (n: usize)
        ensures
            n == self@.entries.len(),
    {
        self.entries.len()
    }
}

impl Wire for ExprMap {
    open spec fn wire_json(&self) -> JsonV {
        crate::wire::wire_members(self@.entries).object()
    }

    fn to_json(&self) -> (r: Json) {
        self.entries.to_json()
    }
}

} // verus!
