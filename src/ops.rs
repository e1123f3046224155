//! Stream operations that run no term: filtering, collecting and combining outputs.
use crate::ctx::{copy_valx, get, Bound, Ctx, Exn, ValX};
use crate::sem;
use crate::sem::BinOp;
use crate::term::{Native, NativeRun, NativeUpdate};
use crate::val::{cmp_op, math_op, neg_op, Error, Fields, List, Val};
use std::rc::Rc;
use vstd::prelude::*;

verus! {

pub fn one(x: ValX) -> (r: Vec<ValX>)
    ensures
        r@ == seq![x],
{
    let mut r = Vec::new();
    r.push(x);
    proof {
        assert(r@ =~= seq![x]);
    }
    r
}

pub fn lift(r: Result<Val, Error>) -> (x: ValX)
    ensures
        x == sem::lift(r),
{
    match r {
        Ok(v) => Ok(v),
        Err(e) => Err(Exn::Fail(e)),
    }
}

pub fn lift_list(r: Result<List, Exn>) -> (x: ValX)
    ensures
        x == sem::lift_list(r),
{
    match r {
        Ok(l) => Ok(Val::Arr(Rc::new(l))),
        Err(e) => Err(e),
    }
}

pub fn fail(e: Error) -> (r: Vec<ValX>)
    ensures
        r@ == sem::fail(e),
{
    one(Err(Exn::Fail(e)))
}

/// Prepends `zs` to `rest`.
pub fn cat<T>(zs: Vec<T>, rest: Vec<T>) -> (r: Vec<T>)
    ensures
        r@ == zs@ + rest@,
{
    let mut zs = zs;
    let mut rest = rest;
    zs.append(&mut rest);
    zs
}

pub fn keep_true(ys: &Vec<ValX>, i: usize) -> (r: Vec<ValX>)
    ensures
        r@ == sem::keep_true(ys@, i as int),
    decreases ys.len() - i,
{
    if i >= ys.len() {
        Vec::new()
    } else {
        let rest = keep_true(ys, i + 1);
        let keep = match &ys[i] {
            Ok(y) => y.as_bool(),
            Err(Exn::Fail(_)) => false,
            Err(_) => true,
        };
        if keep {
            cat(one(copy_valx(&ys[i])), rest)
        } else {
            rest
        }
    }
}

pub fn collect(ys: &Vec<ValX>, i: usize) -> (r: Result<List, Exn>)
    ensures
        r == sem::collect(ys@, i as int),
    decreases ys.len() - i,
{
    if i >= ys.len() {
        Ok(List::Nil)
    } else {
        match &ys[i] {
            Err(e) => Err(e.copy()),
            Ok(y) => match collect(ys, i + 1) {
                Ok(t) => Ok(List::Cons(y.copy(), Rc::new(t))),
                Err(e) => Err(e),
            },
        }
    }
}

pub fn neg_out(ys: &Vec<ValX>, i: usize) -> (r: Vec<ValX>)
    ensures
        r@ == sem::neg_out(ys@, i as int),
    decreases ys.len() - i,
{
    if i >= ys.len() {
        Vec::new()
    } else {
        let y = match &ys[i] {
            Ok(y) => lift(neg_op(y.copy())),
            Err(e) => Err(e.copy()),
        };
        cat(one(y), neg_out(ys, i + 1))
    }
}

pub fn pair_with(x: &ValX, ys: &Vec<ValX>, k: usize) -> (r: Vec<(ValX, ValX)>)
    ensures
        r@ == sem::pair_with(*x, ys@, k as int),
    decreases ys.len() - k,
{
    if k >= ys.len() {
        Vec::new()
    } else {
        let mut r = Vec::new();
        r.push((copy_valx(x), copy_valx(&ys[k])));
        proof {
            assert(r@ =~= seq![(*x, ys@[k as int])]);
        }
        cat(r, pair_with(x, ys, k + 1))
    }
}

pub fn pairs(xs: &Vec<ValX>, ys: &Vec<ValX>, i: usize) -> (r: Vec<(ValX, ValX)>)
    ensures
        r@ == sem::pairs(xs@, ys@, i as int),
    decreases xs.len() - i,
{
    if i >= xs.len() {
        Vec::new()
    } else {
        cat(pair_with(&xs[i], ys, 0), pairs(xs, ys, i + 1))
    }
}

pub fn binop(op: BinOp, x: Val, y: Val) -> (r: ValX)
    ensures
        r == sem::binop(op, x, y),
{
    match op {
        BinOp::Obj => match x {
            Val::Str(k) => Ok(Val::Obj(Rc::new(Fields::Cons(k, y, Rc::new(Fields::Nil))))),
            _ => Err(Exn::Fail(Error::Key(x))),
        },
        BinOp::Math(o) => lift(math_op(x, o, y)),
        BinOp::Cmp(o) => Ok(Val::Bool(cmp_op(&x, o, &y))),
    }
}

pub fn binop_out(op: BinOp, ps: &Vec<(ValX, ValX)>, i: usize) -> (r: Vec<ValX>)
    ensures
        r@ == sem::binop_out(op, ps@, i as int),
    decreases ps.len() - i,
{
    if i >= ps.len() {
        Vec::new()
    } else {
        let z = match &ps[i] {
            (Err(e), _) => Err(e.copy()),
            (Ok(_), Err(e)) => Err(e.copy()),
            (Ok(x), Ok(y)) => binop(op, x.copy(), y.copy()),
        };
        cat(one(z), binop_out(op, ps, i + 1))
    }
}

pub fn list_out(l: &List) -> (r: Vec<ValX>)
    ensures
        r@ == sem::list_out(*l),
    decreases l,
{
    match l {
        List::Nil => Vec::new(),
        List::Cons(h, t) => cat(one(Ok(h.copy())), list_out(&**t)),
    }
}

pub fn fields_out(f: &Fields) -> (r: Vec<ValX>)
    ensures
        r@ == sem::fields_out(*f),
    decreases f,
{
    match f {
        Fields::Nil => Vec::new(),
        Fields::Cons(_, v, t) => cat(one(Ok(v.copy())), fields_out(&**t)),
    }
}

pub fn iter_out(v: &Val) -> (r: Vec<ValX>)
    ensures
        r@ == sem::iter_out(*v),
{
    match v {
        Val::Arr(l) => list_out(&**l),
        Val::Obj(f) => fields_out(&**f),
        _ => fail(Error::Type(v.copy())),
    }
}

pub fn index_out(y: &Val, is: &Vec<ValX>, j: usize) -> (r: Vec<ValX>)
    ensures
        r@ == sem::index_out(*y, is@, j as int),
    decreases is.len() - j,
{
    if j >= is.len() {
        Vec::new()
    } else {
        let z = match &is[j] {
            Ok(i) => lift(y.index(i)),
            Err(e) => Err(e.copy()),
        };
        cat(one(z), index_out(y, is, j + 1))
    }
}

pub fn path_out(part: crate::term::Part, is: &Vec<ValX>, ys: &Vec<ValX>, j: usize) -> (r: Vec<ValX>)
    ensures
        r@ == sem::path_out(part, is@, ys@, j as int),
    decreases ys.len() - j,
{
    if j >= ys.len() {
        Vec::new()
    } else {
        let zs = match &ys[j] {
            Ok(y) => match part {
                crate::term::Part::Index(_) => index_out(y, is, 0),
                crate::term::Part::Iter => iter_out(y),
            },
            Err(e) => one(Err(e.copy())),
        };
        cat(zs, path_out(part, is, ys, j + 1))
    }
}

pub fn bool_out(ys: &Vec<ValX>, j: usize) -> (r: Vec<ValX>)
    ensures
        r@ == sem::bool_out(ys@, j as int),
    decreases ys.len() - j,
{
    if j >= ys.len() {
        Vec::new()
    } else {
        let z = match &ys[j] {
            Ok(y) => Ok(Val::Bool(y.as_bool())),
            Err(e) => Err(e.copy()),
        };
        cat(one(z), bool_out(ys, j + 1))
    }
}

pub fn until_break(l: u64, ys: &Vec<ValX>, j: usize) -> (r: Vec<ValX>)
    ensures
        r@ == sem::until_break(l, ys@, j as int),
    decreases ys.len() - j,
{
    if j >= ys.len() {
        Vec::new()
    } else {
        match &ys[j] {
            Err(Exn::Break(b)) if *b == l => Vec::new(),
            y => cat(one(copy_valx(y)), until_break(l, ys, j + 1)),
        }
    }
}

pub fn throw_out(id: usize, cs: &Vec<Result<Ctx, Exn>>, v: &Val, j: usize) -> (r: Vec<ValX>)
    ensures
        r@ == sem::throw_out(id, cs@, *v, j as int),
    decreases cs.len() - j,
{
    if j >= cs.len() {
        Vec::new()
    } else {
        let z = match &cs[j] {
            Ok(c) => Err(Exn::TailCall(id, c.vars.clone(), v.copy())),
            Err(e) => Err(e.copy()),
        };
        cat(one(z), throw_out(id, cs, v, j + 1))
    }
}

pub fn native_run(n: Native, ctx: &Ctx, v: &Val) -> (r: Vec<ValX>)
    ensures
        r@ == sem::native_run(n, *ctx, *v),
{
    match n.run {
        NativeRun::Error => fail(Error::Val(v.copy())),
        NativeRun::ErrorOf => match get(&*ctx.vars, 0) {
            Some(Bound::Var(x)) => fail(Error::Val(x)),
            _ => fail(Error::Unbound),
        },
        NativeRun::Empty => Vec::new(),
        NativeRun::Not => one(Ok(Val::Bool(!v.as_bool()))),
    }
}

pub fn native_updated(n: Native, v: Val) -> (r: Vec<ValX>)
    ensures
        r@ == sem::native_updated(n, v),
{
    match n.update {
        NativeUpdate::Fail => fail(Error::PathExpr),
        NativeUpdate::Keep => one(Ok(v)),
    }
}

pub fn call_items(id: usize, cs: &Vec<Result<Ctx, Exn>>, j: usize) -> (r: Vec<Result<(usize, Ctx), Exn>>)
    ensures
        r@ == sem::call_items(id, cs@, j as int),
    decreases cs.len() - j,
{
    if j >= cs.len() {
        Vec::new()
    } else {
        let z = match &cs[j] {
            Ok(c) => Ok((id, c.copy())),
            Err(e) => Err(e.copy()),
        };
        let mut r = Vec::new();
        r.push(z);
        proof {
            assert(r@ =~= seq![z]);
        }
        cat(r, call_items(id, cs, j + 1))
    }
}

pub fn ite_items(t: usize, e: usize, ctx: &Ctx, ys: &Vec<ValX>, j: usize) -> (r: Vec<Result<(usize, Ctx), Exn>>)
    ensures
        r@ == sem::ite_items(t, e, *ctx, ys@, j as int),
    decreases ys.len() - j,
{
    if j >= ys.len() {
        Vec::new()
    } else {
        let z = match &ys[j] {
            Ok(y) => Ok((if y.as_bool() { t } else { e }, ctx.copy())),
            Err(x) => Err(x.copy()),
        };
        let mut r = Vec::new();
        r.push(z);
        proof {
            assert(r@ =~= seq![z]);
        }
        cat(r, ite_items(t, e, ctx, ys, j + 1))
    }
}

} // verus!
