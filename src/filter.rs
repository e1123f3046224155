//! The evaluator: running a term, and updating a value through a term.
use crate::ctx::{copy_valx, get, skip_vars, Bound, Ctx, Exn, ValX, Vars};
use crate::ops::{
    binop_out, bool_out, call_items, cat, collect, fail, ite_items, keep_true, lift,
    lift_list, native_run, native_updated, neg_out, one, pairs, path_out, throw_out, until_break,
};
use crate::sem;
use crate::sem::{BinOp, Rhs, Update};
use crate::term::{Ast, Bind, FilterT, Fold, Lut, Native, Part, Pattern, Tailrec};
use crate::text::{caught_val, to_string_op};
use crate::val::{math_op, Error, Fields, List, Val};
use std::rc::Rc;
use vstd::prelude::*;

verus! {

impl Update {
    pub fn copy(&self) -> (r: Update)
        ensures
            r == *self,
        decreases self,
    {
        match self {
            Update::Run(t, c) => Update::Run(*t, c.copy()),
            Update::Math(op, y) => Update::Math(*op, y.copy()),
            Update::Alt(y) => Update::Alt(y.copy()),
            Update::Assign(y) => Update::Assign(y.copy()),
            Update::Then(r, c, h) => Update::Then(*r, c.copy(), Box::new((**h).copy())),
            Update::At(l, h) => Update::At(l.clone(), Box::new((**h).copy())),
            Update::Each(h) => Update::Each(Box::new((**h).copy())),
        }
    }
}

fn rhs_update(k: Rhs, y: Val) -> (r: Update)
    ensures
        r == sem::rhs_update(k, y),
{
    match k {
        Rhs::Math(op) => Update::Math(op, y),
        Rhs::Alt => Update::Alt(y),
        Rhs::Assign => Update::Assign(y),
    }
}

fn exhausted() -> (r: Vec<ValX>)
    ensures
        r@ == sem::exhausted(),
{
    one(Err(Exn::Exhausted))
}

fn with_vars(ctx: &Ctx, vars: Rc<Vars>) -> (r: Ctx)
    ensures
        r == sem::with_vars(*ctx, vars),
{
    Ctx { vars, labels: ctx.labels }
}

fn one_ctx(x: Result<Ctx, Exn>) -> (r: Vec<Result<Ctx, Exn>>)
    ensures
        r@ == seq![x],
{
    let mut r = Vec::new();
    r.push(x);
    proof {
        assert(r@ =~= seq![x]);
    }
    r
}

/// The first output of term `t` in context `ctx` on input `v`, within `fuel`
/// steps, run as far as `take` runs it for one output.
pub fn first<F: FilterT<F>>(fuel: u64, lut: &Lut<F>, t: usize, ctx: &Ctx, v: Val) -> (r: Option<ValX>)
    ensures
        r == sem::first_of(sem::eval(fuel as nat, *lut, t, *ctx, v)),
{
    let ys = take(fuel, 1, lut, t, ctx, v);
    if ys.len() > 0 {
        Some(copy_valx(&ys[0]))
    } else {
        None
    }
}

proof fn prefix_of_cat(a: Seq<ValX>, b: Seq<ValX>, n: nat)
    ensures
        a.len() >= n ==> sem::prefix(a + b, n) == sem::prefix(a, n),
        a.len() < n ==> sem::prefix(a + b, n) == a + sem::prefix(b, (n - a.len()) as nat),
{
    if a.len() >= n {
        assert(sem::prefix(a + b, n) =~= sem::prefix(a, n));
    } else {
        assert(sem::prefix(a + b, n) =~= a + sem::prefix(b, (n - a.len()) as nat));
    }
}

fn truncate(ys: Vec<ValX>, n: usize) -> (r: Vec<ValX>)
    ensures
        r@ == sem::prefix(ys@, n as nat),
{
    let mut ys = ys;
    if n < ys.len() {
        ys.truncate(n);
    }
    ys
}

/// The first `lim` outputs of term `t` in context `ctx` on input `v`, within
/// `fuel` steps. Through commas, pipes, conditionals and labels, a term is
/// run only as far as the outputs asked for need: the left side of a pipe
/// or the condition of an `if` yields its values one at a time.
pub fn take<F: FilterT<F>>(fuel: u64, lim: usize, lut: &Lut<F>, t: usize, ctx: &Ctx, v: Val) -> (r: Vec<ValX>)
    ensures
        r@ == sem::prefix(sem::eval(fuel as nat, *lut, t, *ctx, v), lim as nat),
    decreases fuel, 1int, 0int,
{
    if lim == 0 {
        return Vec::new();
    }
    if fuel > 0 && t < lut.terms.len() {
        let f = fuel - 1;
        match &lut.terms[t] {
            Ast::Comma(l, r) => {
                let xs = take(f, lim, lut, *l, ctx, v.copy());
                proof {
                    let a = sem::eval(f as nat, *lut, *l, *ctx, v);
                    let b = sem::eval(f as nat, *lut, *r, *ctx, v);
                    prefix_of_cat(a, b, lim as nat);
                }
                if xs.len() == lim {
                    return xs;
                }
                let ys = take(f, lim - xs.len(), lut, *r, ctx, v);
                return cat(xs, ys);
            },
            Ast::Pipe(l, None, r) => {
                return take_branches(fuel, lim, lut, *l, *r, *r, false, ctx, &v, 0);
            },
            Ast::Ite(c, a, b) => {
                return take_branches(fuel, lim, lut, *c, *a, *b, true, ctx, &v, 0);
            },
            Ast::Alt(l, r) => {
                let probe = take_kept(fuel, 1, lut, *l, ctx, &v, 0);
                return if probe.len() > 0 {
                    take_kept(fuel, lim, lut, *l, ctx, &v, 0)
                } else {
                    take(f, lim, lut, *r, ctx, v)
                };
            },
            Ast::Label(b) => if ctx.labels < u64::MAX {
                let c = ctx.cons_label();
                let ys = take(f, lim, lut, *b, &c, v);
                proof {
                    prefix_until_break(c.labels, sem::eval(f as nat, *lut, *b, c, v), 0, lim as nat);
                }
                return until_break(c.labels, &ys, 0);
            },
            _ => {},
        }
    }
    truncate(run(fuel, lut, t, ctx, v), lim)
}

/// The outputs of a pipe `l | a` (where `cond` is false), or of a conditional
/// `if l then a else b` on input `v` (where `cond` is true), from the `j`-th
/// output of `l` on.
pub open spec fn branches<F: FilterT<F>>(fuel: nat, lut: Lut<F>, l: usize, a: usize, b: usize, cond: bool, ctx: Ctx, v: Val, j: int) -> Seq<ValX> {
    let ys = sem::eval(fuel, lut, l, ctx, v);
    if cond {
        sem::ite_out(fuel, lut, a, b, ctx, v, ys, j)
    } else {
        sem::pipe_out(fuel, lut, a, ctx, ys, j)
    }
}

/// The first `lim` outputs of `branches(fuel - 1, ..)`, pulling the outputs of
/// `l` one at a time.
fn take_branches<F: FilterT<F>>(fuel: u64, lim: usize, lut: &Lut<F>, l: usize, a: usize, b: usize, cond: bool, ctx: &Ctx, v: &Val, j: usize) -> (o: Vec<ValX>)
    requires
        fuel > 0,
        j <= sem::eval((fuel - 1) as nat, *lut, l, *ctx, *v).len(),
    ensures
        o@ == sem::prefix(branches((fuel - 1) as nat, *lut, l, a, b, cond, *ctx, *v, j as int), lim as nat),
    decreases fuel, 0int, sem::eval((fuel - 1) as nat, *lut, l, *ctx, *v).len() - j,
{
    let f = fuel - 1;
    let ghost ys = sem::eval(f as nat, *lut, l, *ctx, *v);
    if lim == 0 {
        return Vec::new();
    }
    if j == usize::MAX {
        // `l` has at most `usize::MAX` outputs, so none is left from `j` on
        let all = run(f, lut, l, ctx, v.copy());
        proof {
            assert(all@.len() == ys.len());
            assert(j as int >= ys.len());
            let bs = branches(f as nat, *lut, l, a, b, cond, *ctx, *v, j as int);
            if cond {
                assert(bs == sem::ite_out(f as nat, *lut, a, b, *ctx, *v, ys, j as int));
            } else {
                assert(bs == sem::pipe_out(f as nat, *lut, a, *ctx, ys, j as int));
            }
            assert(bs =~= seq![]);
        }
        return Vec::new();
    }
    let xs = take(f, j + 1, lut, l, ctx, v.copy());
    if xs.len() <= j {
        return Vec::new();
    }
    proof {
        assert(xs@[j as int] == ys[j as int]);
    }
    if f == 0 {
        return truncate(exhausted(), lim);
    }
    let zs = match &xs[j] {
        Ok(y) => if cond {
            take(f - 1, lim, lut, if y.as_bool() { a } else { b }, ctx, v.copy())
        } else {
            take(f - 1, lim, lut, a, ctx, y.copy())
        },
        Err(e) => truncate(one(Err(e.copy())), lim),
    };
    proof {
        let first = match ys[j as int] {
            Ok(y) => if cond {
                sem::eval((f - 1) as nat, *lut, if y.truthy() { a } else { b }, *ctx, *v)
            } else {
                sem::eval((f - 1) as nat, *lut, a, *ctx, y)
            },
            Err(e) => seq![Err(e)],
        };
        let rest = branches(f as nat, *lut, l, a, b, cond, *ctx, *v, j + 1);
        assert(branches(f as nat, *lut, l, a, b, cond, *ctx, *v, j as int) == first + rest);
        prefix_of_cat(first, rest, lim as nat);
    }
    if zs.len() == lim {
        return zs;
    }
    let rest = take_branches(fuel, lim - zs.len(), lut, l, a, b, cond, ctx, v, j + 1);
    cat(zs, rest)
}

/// The first `lim` outputs that `//` keeps among the outputs of `l` (run with
/// `fuel - 1`) from the `j`-th on, pulling them one at a time.
fn take_kept<F: FilterT<F>>(fuel: u64, lim: usize, lut: &Lut<F>, l: usize, ctx: &Ctx, v: &Val, j: usize) -> (o: Vec<ValX>)
    requires
        fuel > 0,
        j <= sem::eval((fuel - 1) as nat, *lut, l, *ctx, *v).len(),
    ensures
        o@ == sem::prefix(sem::keep_true(sem::eval((fuel - 1) as nat, *lut, l, *ctx, *v), j as int), lim as nat),
    decreases fuel, 0int, sem::eval((fuel - 1) as nat, *lut, l, *ctx, *v).len() - j,
{
    let f = fuel - 1;
    let ghost ys = sem::eval(f as nat, *lut, l, *ctx, *v);
    if lim == 0 {
        return Vec::new();
    }
    if j == usize::MAX {
        // `l` has at most `usize::MAX` outputs, so none is left from `j` on
        let all = run(f, lut, l, ctx, v.copy());
        proof {
            assert(all@.len() == ys.len());
        }
        return Vec::new();
    }
    let xs = take(f, j + 1, lut, l, ctx, v.copy());
    if xs.len() <= j {
        return Vec::new();
    }
    proof {
        assert(xs@[j as int] == ys[j as int]);
    }
    let keep = match &xs[j] {
        Ok(y) => y.as_bool(),
        Err(Exn::Fail(_)) => false,
        Err(_) => true,
    };
    if keep {
        let head = one(copy_valx(&xs[j]));
        proof {
            prefix_of_cat(seq![ys[j as int]], sem::keep_true(ys, j + 1), lim as nat);
        }
        if lim == 1 {
            return head;
        }
        cat(head, take_kept(fuel, lim - 1, lut, l, ctx, v, j + 1))
    } else {
        take_kept(fuel, lim, lut, l, ctx, v, j + 1)
    }
}

/// Cutting the outputs of a label's body at a break, then taking `n` of
/// them, is taking `n` of the body's outputs, then cutting them.
proof fn prefix_until_break(l: u64, ys: Seq<ValX>, j: int, n: nat)
    requires
        0 <= j,
    ensures
        sem::prefix(sem::until_break(l, ys, j), n) == sem::until_break(l, sem::prefix(ys, (j + n) as nat), j),
    decreases ys.len() - j,
{
    let ps = sem::prefix(ys, (j + n) as nat);
    if j >= ys.len() {
        assert(ps.len() <= j);
    } else if n == 0 {
        assert(ps.len() == j);
        assert(sem::prefix(sem::until_break(l, ys, j), n) =~= seq![]);
    } else {
        assert(ps[j] == ys[j]);
        prefix_until_break(l, ys, j + 1, (n - 1) as nat);
        let ps1 = sem::prefix(ys, (j + 1 + (n - 1)) as nat);
        assert(ps1 == ps);
        match ys[j] {
            Err(Exn::Break(b)) if b == l => {},
            _ => {
                let u = sem::until_break(l, ys, j + 1);
                assert(sem::until_break(l, ys, j) == seq![ys[j]] + u);
                assert(sem::prefix(seq![ys[j]] + u, n) =~= seq![ys[j]] + sem::prefix(u, (n - 1) as nat));
            },
        }
    }
}

/// The outputs of term `t` in context `ctx` on input `v`, within `fuel` steps.
pub fn run<F: FilterT<F>>(fuel: u64, lut: &Lut<F>, t: usize, ctx: &Ctx, v: Val) -> (r: Vec<ValX>)
    ensures
        r@ == sem::eval(fuel as nat, *lut, t, *ctx, v),
    decreases fuel, 0int,
{
    if fuel == 0 {
        return exhausted();
    }
    if t >= lut.terms.len() {
        return fail(Error::Unbound);
    }
    let f = fuel - 1;
    match &lut.terms[t] {
        Ast::Id => one(Ok(v)),
        Ast::ToString => one(Ok(to_string_op(v))),
        Ast::Int(n) => one(Ok(Val::Int(*n))),
        Ast::Str(s) => one(Ok(Val::Str(s.clone()))),
        Ast::Arr(a) => one(lift_list(collect(&run(f, lut, *a, ctx, v), 0))),
        Ast::ObjEmpty => one(Ok(Val::Obj(Rc::new(Fields::Nil)))),
        Ast::ObjSingle(k, x) => {
            let ks = run(f, lut, *k, ctx, v.copy());
            let xs = run(f, lut, *x, ctx, v);
            binop_out(BinOp::Obj, &pairs(&ks, &xs, 0), 0)
        },
        Ast::TryCatch(b, c) => catch_out(f, lut, *c, ctx, &run(f, lut, *b, ctx, v), 0),
        Ast::Neg(a) => neg_out(&run(f, lut, *a, ctx, v), 0),
        Ast::Pipe(l, None, r) => pipe_out(f, lut, *r, ctx, &run(f, lut, *l, ctx, v), 0),
        Ast::Pipe(l, Some(p), r) => {
            let ys = run(f, lut, *l, ctx, v.copy());
            run_ctxs(f, lut, *r, &binds_of(f, lut, p, ctx, &ys, 0), &v, 0)
        },
        Ast::Comma(l, r) => {
            let ys = run(f, lut, *l, ctx, v.copy());
            cat(ys, run(f, lut, *r, ctx, v))
        },
        Ast::Alt(l, r) => {
            let ys = keep_true(&run(f, lut, *l, ctx, v.copy()), 0);
            if ys.len() > 0 {
                ys
            } else {
                run(f, lut, *r, ctx, v)
            }
        },
        Ast::Ite(c, a, b) => {
            let ys = run(f, lut, *c, ctx, v.copy());
            ite_out(f, lut, *a, *b, ctx, &v, &ys, 0)
        },
        Ast::Path(a, part) => {
            let is = match part {
                Part::Index(i) => run(f, lut, *i, ctx, v.copy()),
                Part::Iter => Vec::new(),
            };
            proof {
                if part is Iter {
                    assert(is@ =~= seq![]);
                }
            }
            path_out(*part, &is, &run(f, lut, *a, ctx, v), 0)
        },
        Ast::Update(p, g) => update(f, lut, *p, ctx, v, &Update::Run(*g, ctx.copy())),
        Ast::UpdateMath(p, op, g) => {
            let ys = run(f, lut, *g, ctx, v.copy());
            update_each(f, lut, *p, ctx, &v, Rhs::Math(*op), &ys, 0)
        },
        Ast::UpdateAlt(p, g) => {
            let ys = run(f, lut, *g, ctx, v.copy());
            update_each(f, lut, *p, ctx, &v, Rhs::Alt, &ys, 0)
        },
        Ast::Assign(p, g) => {
            let ys = run(f, lut, *g, ctx, v.copy());
            update_each(f, lut, *p, ctx, &v, Rhs::Assign, &ys, 0)
        },
        Ast::Logic(l, stop, r) => {
            let ys = run(f, lut, *l, ctx, v.copy());
            logic_out(f, lut, *r, *stop, ctx, &v, &ys, 0)
        },
        Ast::Math(l, op, r) => {
            let xs = run(f, lut, *l, ctx, v.copy());
            let ys = run(f, lut, *r, ctx, v);
            binop_out(BinOp::Math(*op), &pairs(&xs, &ys, 0), 0)
        },
        Ast::Cmp(l, op, r) => {
            let xs = run(f, lut, *l, ctx, v.copy());
            let ys = run(f, lut, *r, ctx, v);
            binop_out(BinOp::Cmp(*op), &pairs(&xs, &ys, 0), 0)
        },
        Ast::Fold(xs, p, init, upd, kind) => {
            let ys = run(f, lut, *xs, ctx, v.copy());
            let binds = binds_of(f, lut, p, ctx, &ys, 0);
            let inits = run(f, lut, *init, ctx, v);
            fold_out(f, lut, kind, *upd, &binds, &inits, 0)
        },
        Ast::Var(i) => match get(&*ctx.vars, *i) {
            Some(Bound::Var(x)) => one(Ok(x)),
            Some(Bound::Fun(id, d)) => run(f, lut, id, &with_vars(ctx, d), v),
            Some(Bound::Label(l)) => one(Err(Exn::Break(l))),
            None => fail(Error::Unbound),
        },
        Ast::CallDef(id, args, skip, tr) => {
            let start = Ctx { vars: skip_vars(&ctx.vars, *skip), labels: ctx.labels };
            let cs = bind_vars(f, lut, args, 0, start, ctx, &v);
            match tr {
                None => run_ctxs(f, lut, *id, &cs, &v, 0),
                Some(Tailrec::Throw) => throw_out(*id, &cs, &v, 0),
                Some(Tailrec::Catch) => {
                    let ys = run_ctxs(f, lut, *id, &cs, &v, 0);
                    catch_tail(f, lut, *id, ctx.labels, &ys, 0)
                },
            }
        },
        Ast::Native(id, args) => if *id < lut.funs.len() {
            let cs = bind_vars(f, lut, args, 0, Ctx::new(), ctx, &v);
            native_out(f, lut, &lut.funs[*id], &cs, &v, 0)
        } else {
            fail(Error::Unbound)
        },
        Ast::Label(b) => if ctx.labels < u64::MAX {
            let c = ctx.cons_label();
            let ys = run(f, lut, *b, &c, v);
            until_break(c.labels, &ys, 0)
        } else {
            exhausted()
        },
    }
}

/// The outputs of updating the locations that term `t` designates in `v` with `g`,
/// within `fuel` steps.
pub fn update<F: FilterT<F>>(fuel: u64, lut: &Lut<F>, t: usize, ctx: &Ctx, v: Val, g: &Update) -> (r: Vec<ValX>)
    ensures
        r@ == sem::eval_update(fuel as nat, *lut, t, *ctx, v, *g),
    decreases fuel, 0int,
{
    if fuel == 0 {
        return exhausted();
    }
    if t >= lut.terms.len() {
        return fail(Error::Unbound);
    }
    let f = fuel - 1;
    match &lut.terms[t] {
        Ast::Id => apply(f, lut, g, v),
        Ast::Path(a, Part::Index(i)) => match collect(&run(f, lut, *i, ctx, v.copy()), 0) {
            Ok(l) => update(f, lut, *a, ctx, v, &Update::At(Rc::new(l), Box::new(g.copy()))),
            Err(e) => one(Err(e)),
        },
        Ast::Path(a, Part::Iter) => update(f, lut, *a, ctx, v, &Update::Each(Box::new(g.copy()))),
        Ast::Pipe(l, None, r) => update(
            f,
            lut,
            *l,
            ctx,
            v,
            &Update::Then(*r, ctx.copy(), Box::new(g.copy())),
        ),
        Ast::Pipe(l, Some(p), r) => {
            let ys = run(f, lut, *l, ctx, v.copy());
            let items = call_items(*r, &binds_of(f, lut, p, ctx, &ys, 0), 0);
            reduce_upd(f, lut, g, &items, 0, v)
        },
        Ast::Comma(l, r) => {
            let ys = update(f, lut, *l, ctx, v, g);
            comma_upd(f, lut, *r, ctx, g, &ys, 0)
        },
        Ast::Ite(c, a, b) => {
            let ys = run(f, lut, *c, ctx, v.copy());
            reduce_upd(f, lut, g, &ite_items(*a, *b, ctx, &ys, 0), 0, v)
        },
        Ast::Alt(l, r) => if keep_true(&run(f, lut, *l, ctx, v.copy()), 0).len() > 0 {
            update(f, lut, *l, ctx, v, g)
        } else {
            update(f, lut, *r, ctx, v, g)
        },
        Ast::Var(i) => match get(&*ctx.vars, *i) {
            Some(Bound::Var(_)) => fail(Error::PathExpr),
            Some(Bound::Fun(id, d)) => update(f, lut, id, &with_vars(ctx, d), v, g),
            Some(Bound::Label(l)) => one(Err(Exn::Break(l))),
            None => fail(Error::Unbound),
        },
        Ast::CallDef(id, args, skip, _) => {
            let start = Ctx { vars: skip_vars(&ctx.vars, *skip), labels: ctx.labels };
            let cs = bind_vars(f, lut, args, 0, start, ctx, &v);
            reduce_upd(f, lut, g, &call_items(*id, &cs, 0), 0, v)
        },
        Ast::Native(id, args) => if *id < lut.funs.len() {
            let cs = bind_vars(f, lut, args, 0, Ctx::new(), ctx, &v);
            native_reduce(f, lut, &lut.funs[*id], g, &cs, 0, v)
        } else {
            fail(Error::Unbound)
        },
        _ => fail(Error::PathExpr),
    }
}

/// The outputs of transformation `g` on `v`, within `fuel` steps.
pub fn apply<F: FilterT<F>>(fuel: u64, lut: &Lut<F>, g: &Update, v: Val) -> (r: Vec<ValX>)
    ensures
        r@ == sem::apply(fuel as nat, *lut, *g, v),
    decreases fuel, 0int,
{
    if fuel == 0 {
        return exhausted();
    }
    let f = fuel - 1;
    match g {
        Update::Run(t, c) => run(f, lut, *t, c, v),
        Update::Math(op, y) => one(lift(math_op(v, *op, y.copy()))),
        Update::Alt(y) => one(Ok(if v.as_bool() { v } else { y.copy() })),
        Update::Assign(y) => one(Ok(y.copy())),
        Update::Then(r, c, h) => update(f, lut, *r, c, v, &**h),
        Update::At(l, h) => one(at_all(f, lut, &**h, &**l, v)),
        Update::Each(h) => match &v {
            Val::Arr(l) => one(lift_list(each_list(f, lut, &**h, &**l))),
            Val::Obj(fs) => one(
                match each_fields(f, lut, &**h, &**fs) {
                    Ok(fs2) => Ok(Val::Obj(Rc::new(fs2))),
                    Err(e) => Err(e),
                },
            ),
            _ => fail(Error::Type(v.copy())),
        },
    }
}

fn first_or(ys: &Vec<ValX>, x: Val) -> (r: ValX)
    ensures
        r == sem::first_or(ys@, x),
{
    if ys.len() == 0 {
        Ok(x)
    } else {
        copy_valx(&ys[0])
    }
}

fn at_all<F: FilterT<F>>(fuel: u64, lut: &Lut<F>, h: &Update, l: &List, v: Val) -> (r: ValX)
    ensures
        r == sem::at_all(fuel as nat, *lut, *h, *l, v),
    decreases fuel, crate::val::list_len(*l),
{
    match l {
        List::Nil => Ok(v),
        List::Cons(i, t) => if fuel == 0 {
            Err(Exn::Exhausted)
        } else {
            match v.index(i) {
                Err(e) => Err(Exn::Fail(e)),
                Ok(x) => match first_or(&apply(fuel - 1, lut, h, x.copy()), x) {
                    Err(e) => Err(e),
                    Ok(y) => match v.set_index(i, y) {
                        Err(e) => Err(Exn::Fail(e)),
                        Ok(v2) => at_all(fuel, lut, h, &**t, v2),
                    },
                },
            }
        },
    }
}

fn each_list<F: FilterT<F>>(fuel: u64, lut: &Lut<F>, h: &Update, l: &List) -> (r: Result<List, Exn>)
    ensures
        r == sem::each_list(fuel as nat, *lut, *h, *l),
    decreases fuel, crate::val::list_len(*l),
{
    match l {
        List::Nil => Ok(List::Nil),
        List::Cons(x, t) => if fuel == 0 {
            Err(Exn::Exhausted)
        } else {
            match first_or(&apply(fuel - 1, lut, h, x.copy()), x.copy()) {
                Err(e) => Err(e),
                Ok(y) => match each_list(fuel, lut, h, &**t) {
                    Err(e) => Err(e),
                    Ok(t2) => Ok(List::Cons(y, Rc::new(t2))),
                },
            }
        },
    }
}

fn each_fields<F: FilterT<F>>(fuel: u64, lut: &Lut<F>, h: &Update, fs: &Fields) -> (r: Result<Fields, Exn>)
    ensures
        r == sem::each_fields(fuel as nat, *lut, *h, *fs),
    decreases fuel, sem::fields_len(*fs),
{
    match fs {
        Fields::Nil => Ok(Fields::Nil),
        Fields::Cons(k, x, t) => if fuel == 0 {
            Err(Exn::Exhausted)
        } else {
            match first_or(&apply(fuel - 1, lut, h, x.copy()), x.copy()) {
                Err(e) => Err(e),
                Ok(y) => match each_fields(fuel, lut, h, &**t) {
                    Err(e) => Err(e),
                    Ok(t2) => Ok(Fields::Cons(k.clone(), y, Rc::new(t2))),
                },
            }
        },
    }
}

fn pipe_out<F: FilterT<F>>(fuel: u64, lut: &Lut<F>, r: usize, ctx: &Ctx, ys: &Vec<ValX>, j: usize) -> (o: Vec<ValX>)
    ensures
        o@ == sem::pipe_out(fuel as nat, *lut, r, *ctx, ys@, j as int),
    decreases fuel, ys.len() - j,
{
    if j >= ys.len() {
        Vec::new()
    } else if fuel == 0 {
        exhausted()
    } else {
        let zs = match &ys[j] {
            Ok(y) => run(fuel - 1, lut, r, ctx, y.copy()),
            Err(e) => one(Err(e.copy())),
        };
        cat(zs, pipe_out(fuel, lut, r, ctx, ys, j + 1))
    }
}

fn run_ctxs<F: FilterT<F>>(fuel: u64, lut: &Lut<F>, t: usize, cs: &Vec<Result<Ctx, Exn>>, v: &Val, j: usize) -> (o: Vec<ValX>)
    ensures
        o@ == sem::run_ctxs(fuel as nat, *lut, t, cs@, *v, j as int),
    decreases fuel, cs.len() - j,
{
    if j >= cs.len() {
        Vec::new()
    } else if fuel == 0 {
        exhausted()
    } else {
        let zs = match &cs[j] {
            Ok(c) => run(fuel - 1, lut, t, c, v.copy()),
            Err(e) => one(Err(e.copy())),
        };
        cat(zs, run_ctxs(fuel, lut, t, cs, v, j + 1))
    }
}

fn ite_out<F: FilterT<F>>(fuel: u64, lut: &Lut<F>, a: usize, b: usize, ctx: &Ctx, v: &Val, ys: &Vec<ValX>, j: usize) -> (o: Vec<ValX>)
    ensures
        o@ == sem::ite_out(fuel as nat, *lut, a, b, *ctx, *v, ys@, j as int),
    decreases fuel, ys.len() - j,
{
    if j >= ys.len() {
        Vec::new()
    } else if fuel == 0 {
        exhausted()
    } else {
        let zs = match &ys[j] {
            Ok(y) => run(fuel - 1, lut, if y.as_bool() { a } else { b }, ctx, v.copy()),
            Err(e) => one(Err(e.copy())),
        };
        cat(zs, ite_out(fuel, lut, a, b, ctx, v, ys, j + 1))
    }
}

fn catch_out<F: FilterT<F>>(fuel: u64, lut: &Lut<F>, c: usize, ctx: &Ctx, ys: &Vec<ValX>, j: usize) -> (o: Vec<ValX>)
    ensures
        o@ == sem::catch_out(fuel as nat, *lut, c, *ctx, ys@, j as int),
    decreases fuel, ys.len() - j,
{
    if j >= ys.len() {
        Vec::new()
    } else if fuel == 0 {
        exhausted()
    } else {
        match &ys[j] {
            Err(Exn::Fail(e)) => run(fuel - 1, lut, c, ctx, caught_val(e.copy())),
            y => cat(one(copy_valx(y)), catch_out(fuel, lut, c, ctx, ys, j + 1)),
        }
    }
}

fn logic_out<F: FilterT<F>>(fuel: u64, lut: &Lut<F>, r: usize, stop: bool, ctx: &Ctx, v: &Val, ys: &Vec<ValX>, j: usize) -> (o: Vec<ValX>)
    ensures
        o@ == sem::logic_out(fuel as nat, *lut, r, stop, *ctx, *v, ys@, j as int),
    decreases fuel, ys.len() - j,
{
    if j >= ys.len() {
        Vec::new()
    } else if fuel == 0 {
        exhausted()
    } else {
        let zs = match &ys[j] {
            Ok(x) => if x.as_bool() == stop {
                one(Ok(Val::Bool(stop)))
            } else {
                bool_out(&run(fuel - 1, lut, r, ctx, v.copy()), 0)
            },
            Err(e) => one(Err(e.copy())),
        };
        cat(zs, logic_out(fuel, lut, r, stop, ctx, v, ys, j + 1))
    }
}

fn update_each<F: FilterT<F>>(fuel: u64, lut: &Lut<F>, p: usize, ctx: &Ctx, v: &Val, k: Rhs, ys: &Vec<ValX>, j: usize) -> (o: Vec<ValX>)
    ensures
        o@ == sem::update_each(fuel as nat, *lut, p, *ctx, *v, k, ys@, j as int),
    decreases fuel, ys.len() - j,
{
    if j >= ys.len() {
        Vec::new()
    } else if fuel == 0 {
        exhausted()
    } else {
        let zs = match &ys[j] {
            Ok(y) => update(fuel - 1, lut, p, ctx, v.copy(), &rhs_update(k, y.copy())),
            Err(e) => one(Err(e.copy())),
        };
        cat(zs, update_each(fuel, lut, p, ctx, v, k, ys, j + 1))
    }
}

fn comma_upd<F: FilterT<F>>(fuel: u64, lut: &Lut<F>, r: usize, ctx: &Ctx, g: &Update, ys: &Vec<ValX>, j: usize) -> (o: Vec<ValX>)
    ensures
        o@ == sem::comma_upd(fuel as nat, *lut, r, *ctx, *g, ys@, j as int),
    decreases fuel, ys.len() - j,
{
    if j >= ys.len() {
        Vec::new()
    } else if fuel == 0 {
        exhausted()
    } else {
        let zs = match &ys[j] {
            Ok(y) => update(fuel - 1, lut, r, ctx, y.copy(), g),
            Err(e) => one(Err(e.copy())),
        };
        cat(zs, comma_upd(fuel, lut, r, ctx, g, ys, j + 1))
    }
}

fn reduce_upd<F: FilterT<F>>(fuel: u64, lut: &Lut<F>, g: &Update, items: &Vec<Result<(usize, Ctx), Exn>>, j: usize, acc: Val) -> (o: Vec<ValX>)
    ensures
        o@ == sem::reduce_upd(fuel as nat, *lut, *g, items@, j as int, acc),
    decreases fuel, items.len() - j,
{
    if j >= items.len() {
        one(Ok(acc))
    } else if fuel == 0 {
        exhausted()
    } else {
        match &items[j] {
            Err(e) => one(Err(e.copy())),
            Ok((t, c)) => {
                let ys = update(fuel - 1, lut, *t, c, acc, g);
                if ys.len() == 0 {
                    Vec::new()
                } else {
                    match &ys[ys.len() - 1] {
                        Err(e) => one(Err(e.copy())),
                        Ok(a) => reduce_upd(fuel, lut, g, items, j + 1, a.copy()),
                    }
                }
            },
        }
    }
}

fn fold_out<F: FilterT<F>>(fuel: u64, lut: &Lut<F>, kind: &Fold, upd: usize, binds: &Vec<Result<Ctx, Exn>>, inits: &Vec<ValX>, j: usize) -> (o: Vec<ValX>)
    ensures
        o@ == sem::fold_out(fuel as nat, *lut, *kind, upd, binds@, inits@, j as int),
    decreases fuel, inits.len() - j,
{
    if j >= inits.len() {
        Vec::new()
    } else if fuel == 0 {
        exhausted()
    } else {
        let zs = match &inits[j] {
            Ok(i) => fold_run(fuel - 1, lut, kind, upd, binds, 0, i.copy()),
            Err(e) => one(Err(e.copy())),
        };
        cat(zs, fold_out(fuel, lut, kind, upd, binds, inits, j + 1))
    }
}

fn fold_run<F: FilterT<F>>(fuel: u64, lut: &Lut<F>, kind: &Fold, upd: usize, binds: &Vec<Result<Ctx, Exn>>, j: usize, acc: Val) -> (o: Vec<ValX>)
    ensures
        o@ == sem::fold_run(fuel as nat, *lut, *kind, upd, binds@, j as int, acc),
    decreases fuel, binds.len() - j,
{
    if j >= binds.len() {
        if let Fold::Reduce = kind {
            one(Ok(acc))
        } else {
            Vec::new()
        }
    } else if fuel == 0 {
        exhausted()
    } else {
        match &binds[j] {
            Err(e) => one(Err(e.copy())),
            Ok(c) => {
                let ys = run(fuel - 1, lut, upd, c, acc);
                let emitted = match kind {
                    Fold::Reduce => Vec::new(),
                    Fold::Foreach(None) => {
                        let mut e = Vec::new();
                        let mut k: usize = 0;
                        while k < ys.len()
                            invariant
                                k <= ys.len(),
                                e@ =~= ys@.subrange(0, k as int),
                            decreases ys.len() - k,
                        {
                            e.push(copy_valx(&ys[k]));
                            k += 1;
                        }
                        e
                    },
                    Fold::Foreach(Some(p)) => pipe_out(fuel - 1, lut, *p, c, &ys, 0),
                };
                proof {
                    if kind is Reduce {
                        assert(emitted@ =~= seq![]);
                    }
                    if kind == Fold::Foreach(None) {
                        assert(emitted@ =~= ys@);
                    }
                }
                if ys.len() == 0 {
                    emitted
                } else {
                    match &ys[ys.len() - 1] {
                        Err(e) => if let Fold::Reduce = kind {
                            one(Err(e.copy()))
                        } else {
                            emitted
                        },
                        Ok(a) => cat(emitted, fold_run(fuel, lut, kind, upd, binds, j + 1, a.copy())),
                    }
                }
            },
        }
    }
}

fn catch_tail<F: FilterT<F>>(fuel: u64, lut: &Lut<F>, id: usize, labels: u64, ys: &Vec<ValX>, j: usize) -> (o: Vec<ValX>)
    ensures
        o@ == sem::catch_tail(fuel as nat, *lut, id, labels, ys@, j as int),
    decreases fuel, ys.len() - j,
{
    if j >= ys.len() {
        Vec::new()
    } else if fuel == 0 {
        exhausted()
    } else {
        let zs = match &ys[j] {
            Err(Exn::TailCall(id2, vars, w)) if *id2 == id => {
                let f = fuel - 1;
                let c = Ctx { vars: vars.clone(), labels };
                catch_tail(f, lut, id, labels, &run(f, lut, id, &c, w.copy()), 0)
            },
            y => one(copy_valx(y)),
        };
        cat(zs, catch_tail(fuel, lut, id, labels, ys, j + 1))
    }
}

fn bind_vars<F: FilterT<F>>(fuel: u64, lut: &Lut<F>, args: &Vec<Bind>, i: usize, acc: Ctx, caller: &Ctx, v: &Val) -> (o: Vec<Result<Ctx, Exn>>)
    ensures
        o@ == sem::bind_vars(fuel as nat, *lut, args@, i as int, acc, *caller, *v),
    decreases fuel, args.len() - i,
{
    if i >= args.len() {
        one_ctx(Ok(acc))
    } else if fuel == 0 {
        one_ctx(Err(Exn::Exhausted))
    } else {
        match &args[i] {
            Bind::Fun(a) => bind_vars(fuel, lut, args, i + 1, acc.cons_fun(*a, &caller.vars), caller, v),
            Bind::Var(a) => {
                let f = fuel - 1;
                let ys = run(f, lut, *a, caller, v.copy());
                bind_var_outs(f, lut, args, i, &acc, caller, v, &ys, 0)
            },
        }
    }
}

fn bind_var_outs<F: FilterT<F>>(fuel: u64, lut: &Lut<F>, args: &Vec<Bind>, i: usize, acc: &Ctx, caller: &Ctx, v: &Val, ys: &Vec<ValX>, j: usize) -> (o: Vec<Result<Ctx, Exn>>)
    requires
        i < args.len(),
    ensures
        o@ == sem::bind_var_outs(fuel as nat, *lut, args@, i as int, *acc, *caller, *v, ys@, j as int),
    decreases fuel, ys.len() - j,
{
    if j >= ys.len() {
        Vec::new()
    } else if fuel == 0 {
        one_ctx(Err(Exn::Exhausted))
    } else {
        let zs = match &ys[j] {
            Ok(y) => bind_vars(fuel - 1, lut, args, i + 1, acc.cons_var(y.copy()), caller, v),
            Err(e) => one_ctx(Err(e.copy())),
        };
        cat(zs, bind_var_outs(fuel, lut, args, i, acc, caller, v, ys, j + 1))
    }
}

fn binds_of<F: FilterT<F>>(fuel: u64, lut: &Lut<F>, p: &Pattern, ctx: &Ctx, ys: &Vec<ValX>, j: usize) -> (o: Vec<Result<Ctx, Exn>>)
    ensures
        o@ == sem::binds_of(fuel as nat, *lut, *p, *ctx, ys@, j as int),
    decreases fuel, ys.len() - j,
{
    if j >= ys.len() {
        Vec::new()
    } else if fuel == 0 {
        one_ctx(Err(Exn::Exhausted))
    } else {
        let zs = match &ys[j] {
            Ok(y) => bind_one(fuel - 1, lut, p, ctx, ctx, y),
            Err(e) => one_ctx(Err(e.copy())),
        };
        cat(zs, binds_of(fuel, lut, p, ctx, ys, j + 1))
    }
}

fn bind_one<F: FilterT<F>>(fuel: u64, lut: &Lut<F>, p: &Pattern, acc: &Ctx, ctx0: &Ctx, y: &Val) -> (o: Vec<Result<Ctx, Exn>>)
    ensures
        o@ == sem::bind_one(fuel as nat, *lut, *p, *acc, *ctx0, *y),
    decreases fuel, 0int,
{
    match p {
        Pattern::Var => one_ctx(Ok(acc.cons_var(y.copy()))),
        Pattern::Idx(pats) => if fuel == 0 {
            one_ctx(Err(Exn::Exhausted))
        } else {
            bind_pats(fuel - 1, lut, pats, 0, acc, ctx0, y)
        },
    }
}

fn bind_pats<F: FilterT<F>>(fuel: u64, lut: &Lut<F>, pats: &Vec<(usize, Pattern)>, i: usize, acc: &Ctx, ctx0: &Ctx, y: &Val) -> (o: Vec<Result<Ctx, Exn>>)
    ensures
        o@ == sem::bind_pats(fuel as nat, *lut, pats@, i as int, *acc, *ctx0, *y),
    decreases fuel, pats.len() - i,
{
    if i >= pats.len() {
        one_ctx(Ok(acc.copy()))
    } else if fuel == 0 {
        one_ctx(Err(Exn::Exhausted))
    } else {
        let f = fuel - 1;
        let is = run(f, lut, pats[i].0, ctx0, y.copy());
        let cs = pat_idx(f, lut, &pats[i].1, acc, ctx0, y, &is, 0);
        bind_rest(f, lut, pats, i + 1, ctx0, y, &cs, 0)
    }
}

fn pat_idx<F: FilterT<F>>(fuel: u64, lut: &Lut<F>, p: &Pattern, acc: &Ctx, ctx0: &Ctx, y: &Val, is: &Vec<ValX>, j: usize) -> (o: Vec<Result<Ctx, Exn>>)
    ensures
        o@ == sem::pat_idx(fuel as nat, *lut, *p, *acc, *ctx0, *y, is@, j as int),
    decreases fuel, is.len() - j,
{
    if j >= is.len() {
        Vec::new()
    } else if fuel == 0 {
        one_ctx(Err(Exn::Exhausted))
    } else {
        let zs = match &is[j] {
            Ok(k) => match y.index(k) {
                Ok(x) => bind_one(fuel - 1, lut, p, acc, ctx0, &x),
                Err(e) => one_ctx(Err(Exn::Fail(e))),
            },
            Err(e) => one_ctx(Err(e.copy())),
        };
        cat(zs, pat_idx(fuel, lut, p, acc, ctx0, y, is, j + 1))
    }
}

fn bind_rest<F: FilterT<F>>(fuel: u64, lut: &Lut<F>, pats: &Vec<(usize, Pattern)>, i: usize, ctx0: &Ctx, y: &Val, cs: &Vec<Result<Ctx, Exn>>, j: usize) -> (o: Vec<Result<Ctx, Exn>>)
    ensures
        o@ == sem::bind_rest(fuel as nat, *lut, pats@, i as int, *ctx0, *y, cs@, j as int),
    decreases fuel, cs.len() - j,
{
    if j >= cs.len() {
        Vec::new()
    } else if fuel == 0 {
        one_ctx(Err(Exn::Exhausted))
    } else {
        let zs = match &cs[j] {
            Ok(c) => bind_pats(fuel - 1, lut, pats, i, c, ctx0, y),
            Err(e) => one_ctx(Err(e.copy())),
        };
        cat(zs, bind_rest(fuel, lut, pats, i, ctx0, y, cs, j + 1))
    }
}

fn native_out<F: FilterT<F>>(fuel: u64, lut: &Lut<F>, n: &F, cs: &Vec<Result<Ctx, Exn>>, v: &Val, j: usize) -> (o: Vec<ValX>)
    ensures
        o@ == sem::native_out(fuel as nat, *lut, *n, cs@, *v, j as int),
    decreases cs.len() - j,
{
    if j >= cs.len() {
        Vec::new()
    } else if fuel == 0 {
        exhausted()
    } else {
        let zs = match &cs[j] {
            Ok(c) => n.run(fuel - 1, lut, c, v.copy()),
            Err(e) => one(Err(e.copy())),
        };
        cat(zs, native_out(fuel, lut, n, cs, v, j + 1))
    }
}

fn native_reduce<F: FilterT<F>>(fuel: u64, lut: &Lut<F>, n: &F, g: &Update, cs: &Vec<Result<Ctx, Exn>>, j: usize, acc: Val) -> (o: Vec<ValX>)
    ensures
        o@ == sem::native_reduce(fuel as nat, *lut, *n, *g, cs@, j as int, acc),
    decreases cs.len() - j,
{
    if j >= cs.len() {
        one(Ok(acc))
    } else if fuel == 0 {
        exhausted()
    } else {
        match &cs[j] {
            Err(e) => one(Err(e.copy())),
            Ok(c) => {
                let ys = n.update(fuel - 1, lut, c, acc, g);
                if ys.len() == 0 {
                    Vec::new()
                } else {
                    match &ys[ys.len() - 1] {
                        Err(e) => one(Err(e.copy())),
                        Ok(a) => native_reduce(fuel, lut, n, g, cs, j + 1, a.copy()),
                    }
                }
            },
        }
    }
}

/// A term, by its id in the lookup table.
#[derive(Clone, Copy, Debug, PartialEq, Eq, Structural)]
pub struct Id(pub usize);

impl Id {
    /// The outputs of the term on `v` in context `ctx`, within `fuel` steps.
    pub fn run<F: FilterT<F>>(&self, fuel: u64, lut: &Lut<F>, ctx: &Ctx, v: Val) -> (r: Vec<ValX>)
        ensures
            r@ == sem::eval(fuel as nat, *lut, self.0, *ctx, v),
    {
        run(fuel, lut, self.0, ctx, v)
    }

    /// The outputs of updating `v` with `g` through the term, within `fuel` steps.
    pub fn update<F: FilterT<F>>(&self, fuel: u64, lut: &Lut<F>, ctx: &Ctx, v: Val, g: &Update) -> (r: Vec<ValX>)
        ensures
            r@ == sem::eval_update(fuel as nat, *lut, self.0, *ctx, v, *g),
    {
        update(fuel, lut, self.0, ctx, v, g)
    }
}

/// The built-in native filters.
impl<F> FilterT<F> for Native {
    open spec fn outputs(&self, fuel: nat, lut: Lut<F>, ctx: Ctx, v: Val) -> Seq<ValX> {
        sem::native_run(*self, ctx, v)
    }

    open spec fn updated(&self, fuel: nat, lut: Lut<F>, ctx: Ctx, v: Val, g: Update) -> Seq<ValX> {
        sem::native_updated(*self, v)
    }

    fn run(&self, fuel: u64, lut: &Lut<F>, ctx: &Ctx, v: Val) -> (r: Vec<ValX>) {
        native_run(*self, ctx, &v)
    }

    fn update(&self, fuel: u64, lut: &Lut<F>, ctx: &Ctx, v: Val, g: &Update) -> (r: Vec<ValX>) {
        native_updated(*self, v)
    }
}

} // verus!
