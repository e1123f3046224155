//! The meaning of programs: what evaluating a term, or updating through it, yields.
//!
//! Every function here takes a step budget `fuel`; where it runs out, the
//! result ends in `Exn::Exhausted`.
use crate::ctx::{drop_vars, lookup, Bound, Ctx, Exn, ValX, Vars};
use crate::term::{Ast, Bind, FilterT, Fold, Lut, Native, NativeRun, NativeUpdate, Part, Pattern, Tailrec};
use crate::text::{caught, to_string};
use crate::val::{cmp, index, list_len, math, neg, set_index, CmpOp, Error, Fields, List, MathOp, Val};
use std::rc::Rc;
use vstd::prelude::*;

verus! {

/// A transformation of the value at a location, threaded through an update.
#[derive(Debug)]
pub enum Update {
    /// Replace the value by the outputs of a term, run in a context.
    Run(usize, Ctx),
    /// Replace `x` by `x op y`.
    Math(MathOp, Val),
    /// Replace `x` by `x // y`.
    Alt(Val),
    /// Replace the value by a constant.
    Assign(Val),
    /// Update through a term, in a context, with an inner transformation.
    Then(usize, Ctx, Box<Update>),
    /// Transform the value at each of the given indices, one after the other.
    At(Rc<List>, Box<Update>),
    /// Transform every element of an array or every value of an object.
    Each(Box<Update>),
}

/// How two operand outputs combine.
#[derive(Clone, Copy, Debug, PartialEq, Eq, Structural)]
pub enum BinOp {
    Obj,
    Math(MathOp),
    Cmp(CmpOp),
}

pub open spec fn one(x: ValX) -> Seq<ValX> {
    seq![x]
}

pub open spec fn fail(e: Error) -> Seq<ValX> {
    seq![Err(Exn::Fail(e))]
}

pub open spec fn lift(r: Result<Val, Error>) -> ValX {
    match r {
        Ok(v) => Ok(v),
        Err(e) => Err(Exn::Fail(e)),
    }
}

/// The context with its bindings replaced by `vars`, keeping its label count.
pub open spec fn with_vars(ctx: Ctx, vars: Rc<Vars>) -> Ctx {
    Ctx { vars, labels: ctx.labels }
}

/// Whether an output is kept by `//`: a truthy value, or a control signal.
pub open spec fn kept(y: ValX) -> bool {
    match y {
        Ok(x) => x.truthy(),
        Err(Exn::Fail(_)) => false,
        Err(_) => true,
    }
}

/// The outputs of `ys[i..]` that `//` keeps: ordinary errors and false
/// values are left out.
pub open spec fn keep_true(ys: Seq<ValX>, i: int) -> Seq<ValX>
    decreases ys.len() - i,
{
    if i < 0 || i >= ys.len() {
        seq![]
    } else {
        let rest = keep_true(ys, i + 1);
        if kept(ys[i]) {
            seq![ys[i]] + rest
        } else {
            rest
        }
    }
}

/// The array of the values of `ys[i..]`, or the first signal among them.
pub open spec fn collect(ys: Seq<ValX>, i: int) -> Result<List, Exn>
    decreases ys.len() - i,
{
    if i < 0 || i >= ys.len() {
        Ok(List::Nil)
    } else {
        match ys[i] {
            Err(e) => Err(e),
            Ok(y) => match collect(ys, i + 1) {
                Ok(t) => Ok(List::Cons(y, Rc::new(t))),
                Err(e) => Err(e),
            },
        }
    }
}

/// The negation of each of `ys[i..]`.
pub open spec fn neg_out(ys: Seq<ValX>, i: int) -> Seq<ValX>
    decreases ys.len() - i,
{
    if i < 0 || i >= ys.len() {
        seq![]
    } else {
        let y = match ys[i] {
            Ok(y) => lift(neg(y)),
            Err(e) => Err(e),
        };
        seq![y] + neg_out(ys, i + 1)
    }
}

/// Every pair of an output of the left operand and one of the right, left-major.
pub open spec fn pairs(xs: Seq<ValX>, ys: Seq<ValX>, i: int) -> Seq<(ValX, ValX)>
    decreases xs.len() - i,
{
    if i < 0 || i >= xs.len() {
        seq![]
    } else {
        pair_with(xs[i], ys, 0) + pairs(xs, ys, i + 1)
    }
}

/// The pairs of `x` with each of `ys[k..]`.
pub open spec fn pair_with(x: ValX, ys: Seq<ValX>, k: int) -> Seq<(ValX, ValX)>
    decreases ys.len() - k,
{
    if k < 0 || k >= ys.len() {
        seq![]
    } else {
        seq![(x, ys[k])] + pair_with(x, ys, k + 1)
    }
}

/// `x op y` for one pair of operand outputs.
pub open spec fn binop(op: BinOp, x: Val, y: Val) -> ValX {
    match op {
        BinOp::Obj => match x {
            Val::Str(k) => Ok(Val::Obj(Rc::new(Fields::Cons(k, y, Rc::new(Fields::Nil))))),
            _ => Err(Exn::Fail(Error::Key(x))),
        },
        BinOp::Math(o) => lift(math(x, o, y)),
        BinOp::Cmp(o) => Ok(Val::Bool(cmp(x, o, y))),
    }
}

/// `binop` applied to each of `ps[i..]`; a signal in a pair is passed on.
pub open spec fn binop_out(op: BinOp, ps: Seq<(ValX, ValX)>, i: int) -> Seq<ValX>
    decreases ps.len() - i,
{
    if i < 0 || i >= ps.len() {
        seq![]
    } else {
        let z = match ps[i] {
            (Err(e), _) => Err(e),
            (Ok(_), Err(e)) => Err(e),
            (Ok(x), Ok(y)) => binop(op, x, y),
        };
        seq![z] + binop_out(op, ps, i + 1)
    }
}

/// The elements of an array, as outputs.
pub open spec fn list_out(l: List) -> Seq<ValX>
    decreases l,
{
    match l {
        List::Nil => seq![],
        List::Cons(h, t) => seq![Ok(h)] + list_out(*t),
    }
}

/// The values of an object, as outputs.
pub open spec fn fields_out(f: Fields) -> Seq<ValX>
    decreases f,
{
    match f {
        Fields::Nil => seq![],
        Fields::Cons(_, v, t) => seq![Ok(v)] + fields_out(*t),
    }
}

/// `.[]` on a value.
pub open spec fn iter_out(v: Val) -> Seq<ValX> {
    match v {
        Val::Arr(l) => list_out(*l),
        Val::Obj(f) => fields_out(*f),
        _ => fail(Error::Type(v)),
    }
}

/// `y[i]` for each of the indices `is[j..]`.
pub open spec fn index_out(y: Val, is: Seq<ValX>, j: int) -> Seq<ValX>
    decreases is.len() - j,
{
    if j < 0 || j >= is.len() {
        seq![]
    } else {
        let z = match is[j] {
            Ok(i) => lift(index(y, i)),
            Err(e) => Err(e),
        };
        seq![z] + index_out(y, is, j + 1)
    }
}

/// The path step applied to each of `ys[j..]`, with `is` the outputs of its index term.
pub open spec fn path_out(part: Part, is: Seq<ValX>, ys: Seq<ValX>, j: int) -> Seq<ValX>
    decreases ys.len() - j,
{
    if j < 0 || j >= ys.len() {
        seq![]
    } else {
        let zs = match ys[j] {
            Ok(y) => match part {
                Part::Index(_) => index_out(y, is, 0),
                Part::Iter => iter_out(y),
            },
            Err(e) => seq![Err(e)],
        };
        zs + path_out(part, is, ys, j + 1)
    }
}

/// The outputs of `ys[j..]` as booleans of their truthiness.
pub open spec fn bool_out(ys: Seq<ValX>, j: int) -> Seq<ValX>
    decreases ys.len() - j,
{
    if j < 0 || j >= ys.len() {
        seq![]
    } else {
        let z = match ys[j] {
            Ok(y) => Ok(Val::Bool(y.truthy())),
            Err(e) => Err(e),
        };
        seq![z] + bool_out(ys, j + 1)
    }
}

/// The outputs of `ys[j..]` up to a break to label `l`, which ends them.
pub open spec fn until_break(l: u64, ys: Seq<ValX>, j: int) -> Seq<ValX>
    decreases ys.len() - j,
{
    if j < 0 || j >= ys.len() {
        seq![]
    } else {
        match ys[j] {
            Err(Exn::Break(b)) if b == l => seq![],
            y => seq![y] + until_break(l, ys, j + 1),
        }
    }
}

/// A tail call to `id` for each context of `cs[j..]`, on value `v`.
pub open spec fn throw_out(id: usize, cs: Seq<Result<Ctx, Exn>>, v: Val, j: int) -> Seq<ValX>
    decreases cs.len() - j,
{
    if j < 0 || j >= cs.len() {
        seq![]
    } else {
        let z = match cs[j] {
            Ok(c) => Err(Exn::TailCall(id, c.vars, v)),
            Err(e) => Err(e),
        };
        seq![z] + throw_out(id, cs, v, j + 1)
    }
}

/// What a built-in native filter yields on `v` in context `ctx`.
pub open spec fn native_run(n: Native, ctx: Ctx, v: Val) -> Seq<ValX> {
    match n.run {
        NativeRun::Error => fail(Error::Val(v)),
        NativeRun::ErrorOf => match lookup(*ctx.vars, 0) {
            Some(Bound::Var(x)) => fail(Error::Val(x)),
            _ => fail(Error::Unbound),
        },
        NativeRun::Empty => seq![],
        NativeRun::Not => one(Ok(Val::Bool(!v.truthy()))),
    }
}

/// What updating `v` through a built-in native filter yields.
pub open spec fn native_updated(n: Native, v: Val) -> Seq<ValX> {
    match n.update {
        NativeUpdate::Fail => fail(Error::PathExpr),
        NativeUpdate::Keep => one(Ok(v)),
    }
}

/// The update steps of a call: term `id` in each context of `cs[j..]`.
pub open spec fn call_items(id: usize, cs: Seq<Result<Ctx, Exn>>, j: int) -> Seq<Result<(usize, Ctx), Exn>>
    decreases cs.len() - j,
{
    if j < 0 || j >= cs.len() {
        seq![]
    } else {
        let z = match cs[j] {
            Ok(c) => Ok((id, c)),
            Err(e) => Err(e),
        };
        seq![z] + call_items(id, cs, j + 1)
    }
}

/// The update steps of a conditional: the chosen branch, for each of `ys[j..]`.
pub open spec fn ite_items(t: usize, e: usize, ctx: Ctx, ys: Seq<ValX>, j: int) -> Seq<Result<(usize, Ctx), Exn>>
    decreases ys.len() - j,
{
    if j < 0 || j >= ys.len() {
        seq![]
    } else {
        let z = match ys[j] {
            Ok(y) => Ok((if y.truthy() { t } else { e }, ctx)),
            Err(x) => Err(x),
        };
        seq![z] + ite_items(t, e, ctx, ys, j + 1)
    }
}

} // verus!

verus! {

/// The right-hand side of an update operator other than `|=`.
#[derive(Clone, Copy, Debug, PartialEq, Eq, Structural)]
pub enum Rhs {
    Math(MathOp),
    Alt,
    Assign,
}

pub open spec fn rhs_update(k: Rhs, y: Val) -> Update {
    match k {
        Rhs::Math(op) => Update::Math(op, y),
        Rhs::Alt => Update::Alt(y),
        Rhs::Assign => Update::Assign(y),
    }
}

pub open spec fn exhausted() -> Seq<ValX> {
    seq![Err(Exn::Exhausted)]
}

pub open spec fn lift_list(r: Result<List, Exn>) -> ValX {
    match r {
        Ok(l) => Ok(Val::Arr(Rc::new(l))),
        Err(e) => Err(e),
    }
}

/// The context in which a call binds its arguments: the caller's, without its
/// `skip` most recent bindings.
pub open spec fn call_ctx(ctx: Ctx, skip: usize) -> Ctx {
    Ctx { vars: Rc::new(drop_vars(*ctx.vars, skip as int)), labels: ctx.labels }
}

/// The context in which a native filter binds its arguments.
pub open spec fn native_ctx() -> Ctx {
    Ctx { vars: Rc::new(Vars::Nil), labels: 0 }
}

/// The outputs of term `t` in context `ctx` on input `v`.
pub open spec fn eval<F: FilterT<F>>(fuel: nat, lut: Lut<F>, t: usize, ctx: Ctx, v: Val) -> Seq<ValX>
    decreases fuel, 0int,
{
    if fuel == 0 {
        exhausted()
    } else if t >= lut.terms@.len() {
        fail(Error::Unbound)
    } else {
        let f = (fuel - 1) as nat;
        match lut.terms@[t as int] {
            Ast::Id => one(Ok(v)),
            Ast::ToString => one(Ok(to_string(v))),
            Ast::Int(n) => one(Ok(Val::Int(n))),
            Ast::Str(s) => one(Ok(Val::Str(s))),
            Ast::Arr(a) => one(lift_list(collect(eval(f, lut, a, ctx, v), 0))),
            Ast::ObjEmpty => one(Ok(Val::Obj(Rc::new(Fields::Nil)))),
            Ast::ObjSingle(k, x) => binop_out(
                BinOp::Obj,
                pairs(eval(f, lut, k, ctx, v), eval(f, lut, x, ctx, v), 0),
                0,
            ),
            Ast::TryCatch(b, c) => catch_out(f, lut, c, ctx, eval(f, lut, b, ctx, v), 0),
            Ast::Neg(a) => neg_out(eval(f, lut, a, ctx, v), 0),
            Ast::Pipe(l, None, r) => pipe_out(f, lut, r, ctx, eval(f, lut, l, ctx, v), 0),
            Ast::Pipe(l, Some(p), r) => run_ctxs(
                f,
                lut,
                r,
                binds_of(f, lut, p, ctx, eval(f, lut, l, ctx, v), 0),
                v,
                0,
            ),
            Ast::Comma(l, r) => eval(f, lut, l, ctx, v) + eval(f, lut, r, ctx, v),
            Ast::Alt(l, r) => {
                let ys = keep_true(eval(f, lut, l, ctx, v), 0);
                if ys.len() > 0 {
                    ys
                } else {
                    eval(f, lut, r, ctx, v)
                }
            },
            Ast::Ite(c, a, b) => ite_out(f, lut, a, b, ctx, v, eval(f, lut, c, ctx, v), 0),
            Ast::Path(a, part) => {
                let is = match part {
                    Part::Index(i) => eval(f, lut, i, ctx, v),
                    Part::Iter => seq![],
                };
                path_out(part, is, eval(f, lut, a, ctx, v), 0)
            },
            Ast::Update(p, g) => eval_update(f, lut, p, ctx, v, Update::Run(g, ctx)),
            Ast::UpdateMath(p, op, g) => update_each(
                f,
                lut,
                p,
                ctx,
                v,
                Rhs::Math(op),
                eval(f, lut, g, ctx, v),
                0,
            ),
            Ast::UpdateAlt(p, g) => update_each(f, lut, p, ctx, v, Rhs::Alt, eval(f, lut, g, ctx, v), 0),
            Ast::Assign(p, g) => update_each(f, lut, p, ctx, v, Rhs::Assign, eval(f, lut, g, ctx, v), 0),
            Ast::Logic(l, stop, r) => logic_out(f, lut, r, stop, ctx, v, eval(f, lut, l, ctx, v), 0),
            Ast::Math(l, op, r) => binop_out(
                BinOp::Math(op),
                pairs(eval(f, lut, l, ctx, v), eval(f, lut, r, ctx, v), 0),
                0,
            ),
            Ast::Cmp(l, op, r) => binop_out(
                BinOp::Cmp(op),
                pairs(eval(f, lut, l, ctx, v), eval(f, lut, r, ctx, v), 0),
                0,
            ),
            Ast::Fold(xs, p, init, upd, kind) => fold_out(
                f,
                lut,
                kind,
                upd,
                binds_of(f, lut, p, ctx, eval(f, lut, xs, ctx, v), 0),
                eval(f, lut, init, ctx, v),
                0,
            ),
            Ast::Var(i) => match lookup(*ctx.vars, i as int) {
                Some(Bound::Var(x)) => one(Ok(x)),
                Some(Bound::Fun(id, d)) => eval(f, lut, id, with_vars(ctx, d), v),
                Some(Bound::Label(l)) => one(Err(Exn::Break(l))),
                None => fail(Error::Unbound),
            },
            Ast::CallDef(id, args, skip, tr) => {
                let cs = bind_vars(f, lut, args@, 0, call_ctx(ctx, skip), ctx, v);
                match tr {
                    None => run_ctxs(f, lut, id, cs, v, 0),
                    Some(Tailrec::Throw) => throw_out(id, cs, v, 0),
                    Some(Tailrec::Catch) => catch_tail(
                        f,
                        lut,
                        id,
                        ctx.labels,
                        run_ctxs(f, lut, id, cs, v, 0),
                        0,
                    ),
                }
            },
            Ast::Native(id, args) => if id < lut.funs@.len() {
                native_out(f, lut, lut.funs@[id as int], bind_vars(f, lut, args@, 0, native_ctx(), ctx, v), v, 0)
            } else {
                fail(Error::Unbound)
            },
            Ast::Label(b) => if ctx.labels < u64::MAX {
                let c = ctx.spec_cons_label();
                until_break(c.labels, eval(f, lut, b, c, v), 0)
            } else {
                exhausted()
            },
        }
    }
}

/// The outputs of updating the locations that term `t` designates in `v` with `g`.
pub open spec fn eval_update<F: FilterT<F>>(fuel: nat, lut: Lut<F>, t: usize, ctx: Ctx, v: Val, g: Update) -> Seq<ValX>
    decreases fuel, 0int,
{
    if fuel == 0 {
        exhausted()
    } else if t >= lut.terms@.len() {
        fail(Error::Unbound)
    } else {
        let f = (fuel - 1) as nat;
        match lut.terms@[t as int] {
            Ast::Id => apply(f, lut, g, v),
            Ast::Path(a, Part::Index(i)) => match collect(eval(f, lut, i, ctx, v), 0) {
                Ok(l) => eval_update(f, lut, a, ctx, v, Update::At(Rc::new(l), Box::new(g))),
                Err(e) => seq![Err(e)],
            },
            Ast::Path(a, Part::Iter) => eval_update(f, lut, a, ctx, v, Update::Each(Box::new(g))),
            Ast::Pipe(l, None, r) => eval_update(f, lut, l, ctx, v, Update::Then(r, ctx, Box::new(g))),
            Ast::Pipe(l, Some(p), r) => reduce_upd(
                f,
                lut,
                g,
                call_items(r, binds_of(f, lut, p, ctx, eval(f, lut, l, ctx, v), 0), 0),
                0,
                v,
            ),
            Ast::Comma(l, r) => comma_upd(f, lut, r, ctx, g, eval_update(f, lut, l, ctx, v, g), 0),
            Ast::Ite(c, a, b) => reduce_upd(
                f,
                lut,
                g,
                ite_items(a, b, ctx, eval(f, lut, c, ctx, v), 0),
                0,
                v,
            ),
            Ast::Alt(l, r) => if keep_true(eval(f, lut, l, ctx, v), 0).len() > 0 {
                eval_update(f, lut, l, ctx, v, g)
            } else {
                eval_update(f, lut, r, ctx, v, g)
            },
            Ast::Var(i) => match lookup(*ctx.vars, i as int) {
                Some(Bound::Var(_)) => fail(Error::PathExpr),
                Some(Bound::Fun(id, d)) => eval_update(f, lut, id, with_vars(ctx, d), v, g),
                Some(Bound::Label(l)) => one(Err(Exn::Break(l))),
                None => fail(Error::Unbound),
            },
            Ast::CallDef(id, args, skip, _) => reduce_upd(
                f,
                lut,
                g,
                call_items(id, bind_vars(f, lut, args@, 0, call_ctx(ctx, skip), ctx, v), 0),
                0,
                v,
            ),
            Ast::Native(id, args) => if id < lut.funs@.len() {
                native_reduce(f, lut, lut.funs@[id as int], g, bind_vars(f, lut, args@, 0, native_ctx(), ctx, v), 0, v)
            } else {
                fail(Error::Unbound)
            },
            _ => fail(Error::PathExpr),
        }
    }
}

/// The outputs of transformation `g` on `v`.
pub open spec fn apply<F: FilterT<F>>(fuel: nat, lut: Lut<F>, g: Update, v: Val) -> Seq<ValX>
    decreases fuel, 0int,
{
    if fuel == 0 {
        exhausted()
    } else {
        let f = (fuel - 1) as nat;
        match g {
            Update::Run(t, c) => eval(f, lut, t, c, v),
            Update::Math(op, y) => one(lift(math(v, op, y))),
            Update::Alt(y) => one(Ok(if v.truthy() { v } else { y })),
            Update::Assign(y) => one(Ok(y)),
            Update::Then(r, c, h) => eval_update(f, lut, r, c, v, *h),
            Update::At(l, h) => one(at_all(f, lut, *h, *l, v)),
            Update::Each(h) => match v {
                Val::Arr(l) => one(lift_list(each_list(f, lut, *h, *l))),
                Val::Obj(fs) => one(
                    match each_fields(f, lut, *h, *fs) {
                        Ok(fs2) => Ok(Val::Obj(Rc::new(fs2))),
                        Err(e) => Err(e),
                    },
                ),
                _ => fail(Error::Type(v)),
            },
        }
    }
}

/// The new value at a location whose old value is `x`: the first output of
/// the transformation, or `x` where it has none.
pub open spec fn first_or(ys: Seq<ValX>, x: Val) -> ValX {
    if ys.len() == 0 {
        Ok(x)
    } else {
        ys[0]
    }
}

/// `v` with `h` applied at each index of `l`, in order.
pub open spec fn at_all<F: FilterT<F>>(fuel: nat, lut: Lut<F>, h: Update, l: List, v: Val) -> ValX
    decreases fuel, list_len(l),
{
    match l {
        List::Nil => Ok(v),
        List::Cons(i, t) => if fuel == 0 {
            Err(Exn::Exhausted)
        } else {
            match index(v, i) {
                Err(e) => Err(Exn::Fail(e)),
                Ok(x) => match first_or(apply((fuel - 1) as nat, lut, h, x), x) {
                    Err(e) => Err(e),
                    Ok(y) => match set_index(v, i, y) {
                        Err(e) => Err(Exn::Fail(e)),
                        Ok(v2) => at_all(fuel, lut, h, *t, v2),
                    },
                },
            }
        },
    }
}

pub open spec fn fields_len(f: Fields) -> nat
    decreases f,
{
    match f {
        Fields::Nil => 0,
        Fields::Cons(_, _, t) => 1 + fields_len(*t),
    }
}

/// The elements of `l`, each transformed by `h`.
pub open spec fn each_list<F: FilterT<F>>(fuel: nat, lut: Lut<F>, h: Update, l: List) -> Result<List, Exn>
    decreases fuel, list_len(l),
{
    match l {
        List::Nil => Ok(List::Nil),
        List::Cons(x, t) => if fuel == 0 {
            Err(Exn::Exhausted)
        } else {
            match first_or(apply((fuel - 1) as nat, lut, h, x), x) {
                Err(e) => Err(e),
                Ok(y) => match each_list(fuel, lut, h, *t) {
                    Err(e) => Err(e),
                    Ok(t2) => Ok(List::Cons(y, Rc::new(t2))),
                },
            }
        },
    }
}

/// The fields of `fs`, each value transformed by `h`.
pub open spec fn each_fields<F: FilterT<F>>(fuel: nat, lut: Lut<F>, h: Update, fs: Fields) -> Result<Fields, Exn>
    decreases fuel, fields_len(fs),
{
    match fs {
        Fields::Nil => Ok(Fields::Nil),
        Fields::Cons(k, x, t) => if fuel == 0 {
            Err(Exn::Exhausted)
        } else {
            match first_or(apply((fuel - 1) as nat, lut, h, x), x) {
                Err(e) => Err(e),
                Ok(y) => match each_fields(fuel, lut, h, *t) {
                    Err(e) => Err(e),
                    Ok(t2) => Ok(Fields::Cons(k, y, Rc::new(t2))),
                },
            }
        },
    }
}

/// Term `r` run on each value of `ys[j..]`.
pub open spec fn pipe_out<F: FilterT<F>>(fuel: nat, lut: Lut<F>, r: usize, ctx: Ctx, ys: Seq<ValX>, j: int) -> Seq<ValX>
    decreases fuel, ys.len() - j,
{
    if j < 0 || j >= ys.len() {
        seq![]
    } else if fuel == 0 {
        exhausted()
    } else {
        let zs = match ys[j] {
            Ok(y) => eval((fuel - 1) as nat, lut, r, ctx, y),
            Err(e) => seq![Err(e)],
        };
        zs + pipe_out(fuel, lut, r, ctx, ys, j + 1)
    }
}

/// Term `t` run on `v` in each context of `cs[j..]`.
pub open spec fn run_ctxs<F: FilterT<F>>(fuel: nat, lut: Lut<F>, t: usize, cs: Seq<Result<Ctx, Exn>>, v: Val, j: int) -> Seq<ValX>
    decreases fuel, cs.len() - j,
{
    if j < 0 || j >= cs.len() {
        seq![]
    } else if fuel == 0 {
        exhausted()
    } else {
        let zs = match cs[j] {
            Ok(c) => eval((fuel - 1) as nat, lut, t, c, v),
            Err(e) => seq![Err(e)],
        };
        zs + run_ctxs(fuel, lut, t, cs, v, j + 1)
    }
}

/// The branch chosen by each condition output of `ys[j..]`, run on `v`.
pub open spec fn ite_out<F: FilterT<F>>(fuel: nat, lut: Lut<F>, a: usize, b: usize, ctx: Ctx, v: Val, ys: Seq<ValX>, j: int) -> Seq<ValX>
    decreases fuel, ys.len() - j,
{
    if j < 0 || j >= ys.len() {
        seq![]
    } else if fuel == 0 {
        exhausted()
    } else {
        let zs = match ys[j] {
            Ok(y) => eval((fuel - 1) as nat, lut, if y.truthy() { a } else { b }, ctx, v),
            Err(e) => seq![Err(e)],
        };
        zs + ite_out(fuel, lut, a, b, ctx, v, ys, j + 1)
    }
}

/// The outputs `ys[j..]` up to the first error, which is replaced by the
/// outputs of the handler `c` on the error's value.
pub open spec fn catch_out<F: FilterT<F>>(fuel: nat, lut: Lut<F>, c: usize, ctx: Ctx, ys: Seq<ValX>, j: int) -> Seq<ValX>
    decreases fuel, ys.len() - j,
{
    if j < 0 || j >= ys.len() {
        seq![]
    } else if fuel == 0 {
        exhausted()
    } else {
        match ys[j] {
            Err(Exn::Fail(e)) => eval((fuel - 1) as nat, lut, c, ctx, caught(e)),
            y => seq![y] + catch_out(fuel, lut, c, ctx, ys, j + 1),
        }
    }
}

/// Short-circuit logic over each left output of `ys[j..]`.
pub open spec fn logic_out<F: FilterT<F>>(fuel: nat, lut: Lut<F>, r: usize, stop: bool, ctx: Ctx, v: Val, ys: Seq<ValX>, j: int) -> Seq<ValX>
    decreases fuel, ys.len() - j,
{
    if j < 0 || j >= ys.len() {
        seq![]
    } else if fuel == 0 {
        exhausted()
    } else {
        let zs = match ys[j] {
            Ok(x) => if x.truthy() == stop {
                one(Ok(Val::Bool(stop)))
            } else {
                bool_out(eval((fuel - 1) as nat, lut, r, ctx, v), 0)
            },
            Err(e) => seq![Err(e)],
        };
        zs + logic_out(fuel, lut, r, stop, ctx, v, ys, j + 1)
    }
}

/// The update of `v` through path `p`, once for each right-hand value of `ys[j..]`.
pub open spec fn update_each<F: FilterT<F>>(fuel: nat, lut: Lut<F>, p: usize, ctx: Ctx, v: Val, k: Rhs, ys: Seq<ValX>, j: int) -> Seq<ValX>
    decreases fuel, ys.len() - j,
{
    if j < 0 || j >= ys.len() {
        seq![]
    } else if fuel == 0 {
        exhausted()
    } else {
        let zs = match ys[j] {
            Ok(y) => eval_update((fuel - 1) as nat, lut, p, ctx, v, rhs_update(k, y)),
            Err(e) => seq![Err(e)],
        };
        zs + update_each(fuel, lut, p, ctx, v, k, ys, j + 1)
    }
}

/// The update through `r` of each value of `ys[j..]`.
pub open spec fn comma_upd<F: FilterT<F>>(fuel: nat, lut: Lut<F>, r: usize, ctx: Ctx, g: Update, ys: Seq<ValX>, j: int) -> Seq<ValX>
    decreases fuel, ys.len() - j,
{
    if j < 0 || j >= ys.len() {
        seq![]
    } else if fuel == 0 {
        exhausted()
    } else {
        let zs = match ys[j] {
            Ok(y) => eval_update((fuel - 1) as nat, lut, r, ctx, y, g),
            Err(e) => seq![Err(e)],
        };
        zs + comma_upd(fuel, lut, r, ctx, g, ys, j + 1)
    }
}

/// One value threaded through the updates of `items[j..]`, each taking the
/// last output of the one before.
pub open spec fn reduce_upd<F: FilterT<F>>(fuel: nat, lut: Lut<F>, g: Update, items: Seq<Result<(usize, Ctx), Exn>>, j: int, acc: Val) -> Seq<ValX>
    decreases fuel, items.len() - j,
{
    if j < 0 || j >= items.len() {
        one(Ok(acc))
    } else if fuel == 0 {
        exhausted()
    } else {
        match items[j] {
            Err(e) => seq![Err(e)],
            Ok((t, c)) => {
                let ys = eval_update((fuel - 1) as nat, lut, t, c, acc, g);
                if ys.len() == 0 {
                    seq![]
                } else {
                    match ys.last() {
                        Err(e) => seq![Err(e)],
                        Ok(a) => reduce_upd(fuel, lut, g, items, j + 1, a),
                    }
                }
            },
        }
    }
}

/// The fold started from each initial value of `inits[j..]`.
pub open spec fn fold_out<F: FilterT<F>>(fuel: nat, lut: Lut<F>, kind: Fold, upd: usize, binds: Seq<Result<Ctx, Exn>>, inits: Seq<ValX>, j: int) -> Seq<ValX>
    decreases fuel, inits.len() - j,
{
    if j < 0 || j >= inits.len() {
        seq![]
    } else if fuel == 0 {
        exhausted()
    } else {
        let zs = match inits[j] {
            Ok(i) => fold_run((fuel - 1) as nat, lut, kind, upd, binds, 0, i),
            Err(e) => seq![Err(e)],
        };
        zs + fold_out(fuel, lut, kind, upd, binds, inits, j + 1)
    }
}

/// One fold over the bindings `binds[j..]` from the state `acc`: each step runs
/// `upd` on the state and takes its last output as the next state; `reduce`
/// yields the final state, `foreach` the outputs of every step.
pub open spec fn fold_run<F: FilterT<F>>(fuel: nat, lut: Lut<F>, kind: Fold, upd: usize, binds: Seq<Result<Ctx, Exn>>, j: int, acc: Val) -> Seq<ValX>
    decreases fuel, binds.len() - j,
{
    if j < 0 || j >= binds.len() {
        if kind is Reduce {
            one(Ok(acc))
        } else {
            seq![]
        }
    } else if fuel == 0 {
        exhausted()
    } else {
        match binds[j] {
            Err(e) => seq![Err(e)],
            Ok(c) => {
                let ys = eval((fuel - 1) as nat, lut, upd, c, acc);
                let emitted = match kind {
                    Fold::Reduce => seq![],
                    Fold::Foreach(None) => ys,
                    Fold::Foreach(Some(p)) => pipe_out((fuel - 1) as nat, lut, p, c, ys, 0),
                };
                if ys.len() == 0 {
                    emitted
                } else {
                    match ys.last() {
                        Err(e) => if kind is Reduce {
                            seq![Err(e)]
                        } else {
                            emitted
                        },
                        Ok(a) => emitted + fold_run(fuel, lut, kind, upd, binds, j + 1, a),
                    }
                }
            },
        }
    }
}

/// The outputs `ys[j..]`, where each tail call to `id` is replaced by the
/// outputs of `id` restarted with the bindings and value that it carries.
pub open spec fn catch_tail<F: FilterT<F>>(fuel: nat, lut: Lut<F>, id: usize, labels: u64, ys: Seq<ValX>, j: int) -> Seq<ValX>
    decreases fuel, ys.len() - j,
{
    if j < 0 || j >= ys.len() {
        seq![]
    } else if fuel == 0 {
        exhausted()
    } else {
        let zs = match ys[j] {
            Err(Exn::TailCall(id2, vars, w)) if id2 == id => {
                let f = (fuel - 1) as nat;
                catch_tail(f, lut, id, labels, eval(f, lut, id, Ctx { vars, labels }, w), 0)
            },
            y => seq![y],
        };
        zs + catch_tail(fuel, lut, id, labels, ys, j + 1)
    }
}

/// The contexts that bind the arguments `args[i..]` on top of `acc`, one for
/// each combination of the values of the value arguments.
pub open spec fn bind_vars<F: FilterT<F>>(fuel: nat, lut: Lut<F>, args: Seq<Bind>, i: int, acc: Ctx, caller: Ctx, v: Val) -> Seq<Result<Ctx, Exn>>
    decreases fuel, args.len() - i,
{
    if i < 0 || i >= args.len() {
        seq![Ok(acc)]
    } else if fuel == 0 {
        seq![Err(Exn::Exhausted)]
    } else {
        match args[i] {
            Bind::Fun(a) => bind_vars(fuel, lut, args, i + 1, acc.spec_cons_fun(a, caller.vars), caller, v),
            Bind::Var(a) => {
                let f = (fuel - 1) as nat;
                bind_var_outs(f, lut, args, i, acc, caller, v, eval(f, lut, a, caller, v), 0)
            },
        }
    }
}

/// `bind_vars` continued after argument `i`, once for each of its values `ys[j..]`.
pub open spec fn bind_var_outs<F: FilterT<F>>(fuel: nat, lut: Lut<F>, args: Seq<Bind>, i: int, acc: Ctx, caller: Ctx, v: Val, ys: Seq<ValX>, j: int) -> Seq<Result<Ctx, Exn>>
    decreases fuel, ys.len() - j,
{
    if j < 0 || j >= ys.len() {
        seq![]
    } else if fuel == 0 {
        seq![Err(Exn::Exhausted)]
    } else {
        let zs = match ys[j] {
            Ok(y) => bind_vars((fuel - 1) as nat, lut, args, i + 1, acc.spec_cons_var(y), caller, v),
            Err(e) => seq![Err(e)],
        };
        zs + bind_var_outs(fuel, lut, args, i, acc, caller, v, ys, j + 1)
    }
}

/// The contexts that bind pattern `p` to each value of `ys[j..]`.
pub open spec fn binds_of<F: FilterT<F>>(fuel: nat, lut: Lut<F>, p: Pattern, ctx: Ctx, ys: Seq<ValX>, j: int) -> Seq<Result<Ctx, Exn>>
    decreases fuel, ys.len() - j,
{
    if j < 0 || j >= ys.len() {
        seq![]
    } else if fuel == 0 {
        seq![Err(Exn::Exhausted)]
    } else {
        let zs = match ys[j] {
            Ok(y) => bind_one((fuel - 1) as nat, lut, p, ctx, ctx, y),
            Err(e) => seq![Err(e)],
        };
        zs + binds_of(fuel, lut, p, ctx, ys, j + 1)
    }
}

/// The contexts that bind pattern `p` to `y` on top of `acc`; index terms run in `ctx0`.
pub open spec fn bind_one<F: FilterT<F>>(fuel: nat, lut: Lut<F>, p: Pattern, acc: Ctx, ctx0: Ctx, y: Val) -> Seq<Result<Ctx, Exn>>
    decreases fuel, 0int,
{
    match p {
        Pattern::Var => seq![Ok(acc.spec_cons_var(y))],
        Pattern::Idx(pats) => if fuel == 0 {
            seq![Err(Exn::Exhausted)]
        } else {
            bind_pats((fuel - 1) as nat, lut, pats@, 0, acc, ctx0, y)
        },
    }
}

/// The contexts that bind the sub-patterns `pats[i..]` of `y` on top of `acc`.
pub open spec fn bind_pats<F: FilterT<F>>(fuel: nat, lut: Lut<F>, pats: Seq<(usize, Pattern)>, i: int, acc: Ctx, ctx0: Ctx, y: Val) -> Seq<Result<Ctx, Exn>>
    decreases fuel, pats.len() - i,
{
    if i < 0 || i >= pats.len() {
        seq![Ok(acc)]
    } else if fuel == 0 {
        seq![Err(Exn::Exhausted)]
    } else {
        let f = (fuel - 1) as nat;
        let is = eval(f, lut, pats[i].0, ctx0, y);
        let cs = pat_idx(f, lut, pats[i].1, acc, ctx0, y, is, 0);
        bind_rest(f, lut, pats, i + 1, ctx0, y, cs, 0)
    }
}

/// The contexts that bind `p` to `y[k]` for each index `k` of `is[j..]`.
pub open spec fn pat_idx<F: FilterT<F>>(fuel: nat, lut: Lut<F>, p: Pattern, acc: Ctx, ctx0: Ctx, y: Val, is: Seq<ValX>, j: int) -> Seq<Result<Ctx, Exn>>
    decreases fuel, is.len() - j,
{
    if j < 0 || j >= is.len() {
        seq![]
    } else if fuel == 0 {
        seq![Err(Exn::Exhausted)]
    } else {
        let zs = match is[j] {
            Ok(k) => match index(y, k) {
                Ok(x) => bind_one((fuel - 1) as nat, lut, p, acc, ctx0, x),
                Err(e) => seq![Err(Exn::Fail(e))],
            },
            Err(e) => seq![Err(e)],
        };
        zs + pat_idx(fuel, lut, p, acc, ctx0, y, is, j + 1)
    }
}

/// `bind_pats` from sub-pattern `i` on, on top of each context of `cs[j..]`.
pub open spec fn bind_rest<F: FilterT<F>>(fuel: nat, lut: Lut<F>, pats: Seq<(usize, Pattern)>, i: int, ctx0: Ctx, y: Val, cs: Seq<Result<Ctx, Exn>>, j: int) -> Seq<Result<Ctx, Exn>>
    decreases fuel, cs.len() - j,
{
    if j < 0 || j >= cs.len() {
        seq![]
    } else if fuel == 0 {
        seq![Err(Exn::Exhausted)]
    } else {
        let zs = match cs[j] {
            Ok(c) => bind_pats((fuel - 1) as nat, lut, pats, i, c, ctx0, y),
            Err(e) => seq![Err(e)],
        };
        zs + bind_rest(fuel, lut, pats, i, ctx0, y, cs, j + 1)
    }
}

} // verus!

verus! {

/// The first `n` elements of a stream, or all of them where it has fewer.
pub open spec fn prefix(ys: Seq<ValX>, n: nat) -> Seq<ValX> {
    if n >= ys.len() {
        ys
    } else {
        ys.take(n as int)
    }
}

/// The first element of a stream, if it has one.
pub open spec fn first_of(ys: Seq<ValX>) -> Option<ValX> {
    if ys.len() > 0 {
        Some(ys[0])
    } else {
        None
    }
}

} // verus!

verus! {

/// Native filter `n` run on `v` in each context of `cs[j..]`.
pub open spec fn native_out<F: FilterT<F>>(fuel: nat, lut: Lut<F>, n: F, cs: Seq<Result<Ctx, Exn>>, v: Val, j: int) -> Seq<ValX>
    decreases cs.len() - j,
{
    if j < 0 || j >= cs.len() {
        seq![]
    } else if fuel == 0 {
        exhausted()
    } else {
        let zs = match cs[j] {
            Ok(c) => n.outputs((fuel - 1) as nat, lut, c, v),
            Err(e) => seq![Err(e)],
        };
        zs + native_out(fuel, lut, n, cs, v, j + 1)
    }
}

/// One value threaded through the updates by native filter `n` in each
/// context of `cs[j..]`, each taking the last output of the one before.
pub open spec fn native_reduce<F: FilterT<F>>(fuel: nat, lut: Lut<F>, n: F, g: Update, cs: Seq<Result<Ctx, Exn>>, j: int, acc: Val) -> Seq<ValX>
    decreases cs.len() - j,
{
    if j < 0 || j >= cs.len() {
        one(Ok(acc))
    } else if fuel == 0 {
        exhausted()
    } else {
        match cs[j] {
            Err(e) => seq![Err(e)],
            Ok(c) => {
                let ys = n.updated((fuel - 1) as nat, lut, c, acc, g);
                if ys.len() == 0 {
                    seq![]
                } else {
                    match ys.last() {
                        Err(e) => seq![Err(e)],
                        Ok(a) => native_reduce(fuel, lut, n, g, cs, j + 1, a),
                    }
                }
            },
        }
    }
}

} // verus!
