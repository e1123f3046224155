//! Contexts: persistent chains of variable, closure and label bindings.
use crate::val::{Error, Val};
use std::rc::Rc;
use vstd::prelude::*;

verus! {

/// A chain of bindings, most recent first.
#[derive(Debug, PartialEq)]
pub enum Vars {
    Nil,
    /// A variable bound to a value.
    Var(Val, Rc<Vars>),
    /// A filter argument: a term with the bindings of its definition site.
    Fun(usize, Rc<Vars>, Rc<Vars>),
    /// A label, by its identifier.
    Label(u64, Rc<Vars>),
}

/// A binding, as found by a lookup.
#[derive(Debug, PartialEq)]
pub enum Bound {
    Var(Val),
    Fun(usize, Rc<Vars>),
    Label(u64),
}

/// The bindings in scope, and the number of labels introduced so far.
#[derive(Debug, PartialEq)]
pub struct Ctx {
    pub vars: Rc<Vars>,
    pub labels: u64,
}

/// A control signal: an error, a break to a label, or a tail call.
#[derive(Debug, PartialEq)]
pub enum Exn {
    Fail(Error),
    Break(u64),
    TailCall(usize, Rc<Vars>, Val),
    /// The step budget of the evaluation ran out.
    Exhausted,
}

/// A value or a control signal.
pub type ValX = Result<Val, Exn>;

/// The binding at position `i`, counting from the most recent.
pub open spec fn lookup(vars: Vars, i: int) -> Option<Bound>
    decreases vars,
{
    match vars {
        Vars::Nil => None,
        Vars::Var(v, t) => if i == 0 {
            Some(Bound::Var(v))
        } else {
            lookup(*t, i - 1)
        },
        Vars::Fun(id, d, t) => if i == 0 {
            Some(Bound::Fun(id, d))
        } else {
            lookup(*t, i - 1)
        },
        Vars::Label(l, t) => if i == 0 {
            Some(Bound::Label(l))
        } else {
            lookup(*t, i - 1)
        },
    }
}

/// The chain without its `n` most recent bindings.
pub open spec fn drop_vars(vars: Vars, n: int) -> Vars
    decreases vars,
{
    if n <= 0 {
        vars
    } else {
        match vars {
            Vars::Nil => Vars::Nil,
            Vars::Var(_, t) => drop_vars(*t, n - 1),
            Vars::Fun(_, _, t) => drop_vars(*t, n - 1),
            Vars::Label(_, t) => drop_vars(*t, n - 1),
        }
    }
}

pub fn get(vars: &Vars, i: usize) -> (r: Option<Bound>)
    ensures
        r == lookup(*vars, i as int),
    decreases vars,
{
    match vars {
        Vars::Nil => None,
        Vars::Var(v, t) => if i == 0 {
            Some(Bound::Var(v.copy()))
        } else {
            get(&**t, i - 1)
        },
        Vars::Fun(id, d, t) => if i == 0 {
            Some(Bound::Fun(*id, d.clone()))
        } else {
            get(&**t, i - 1)
        },
        Vars::Label(l, t) => if i == 0 {
            Some(Bound::Label(*l))
        } else {
            get(&**t, i - 1)
        },
    }
}

pub fn skip_vars(vars: &Rc<Vars>, n: usize) -> (r: Rc<Vars>)
    ensures
        *r == drop_vars(**vars, n as int),
    decreases n,
{
    if n == 0 {
        vars.clone()
    } else {
        match &**vars {
            Vars::Nil => vars.clone(),
            Vars::Var(_, t) => skip_vars(t, n - 1),
            Vars::Fun(_, _, t) => skip_vars(t, n - 1),
            Vars::Label(_, t) => skip_vars(t, n - 1),
        }
    }
}

impl Exn {
    pub fn copy(&self) -> (r: Exn)
        ensures
            r == *self,
    {
        match self {
            Exn::Fail(e) => Exn::Fail(e.copy()),
            Exn::Break(l) => Exn::Break(*l),
            Exn::TailCall(id, vars, v) => Exn::TailCall(*id, vars.clone(), v.copy()),
            Exn::Exhausted => Exn::Exhausted,
        }
    }
}

pub fn copy_valx(x: &ValX) -> (r: ValX)
    ensures
        r == *x,
{
    match x {
        Ok(v) => Ok(v.copy()),
        Err(e) => Err(e.copy()),
    }
}

impl Ctx {
    /// An empty context.
    pub fn new() -> (r: Ctx)
        ensures
            *r.vars == Vars::Nil,
            r.labels == 0,
    {
        Ctx { vars: Rc::new(Vars::Nil), labels: 0 }
    }

    pub fn copy(&self) -> (r: Ctx)
        ensures
            r == *self,
    {
        Ctx { vars: self.vars.clone(), labels: self.labels }
    }

    /// The context with `v` bound as the most recent variable.
    pub open spec fn spec_cons_var(self, v: Val) -> Ctx {
        Ctx { vars: Rc::new(Vars::Var(v, self.vars)), labels: self.labels }
    }

    pub fn cons_var(&self, v: Val) -> (r: Ctx)
        ensures
            r == self.spec_cons_var(v),
    {
        Ctx { vars: Rc::new(Vars::Var(v, self.vars.clone())), labels: self.labels }
    }

    /// The context with term `id` bound as a closure over `def`.
    pub open spec fn spec_cons_fun(self, id: usize, def: Rc<Vars>) -> Ctx {
        Ctx { vars: Rc::new(Vars::Fun(id, def, self.vars)), labels: self.labels }
    }

    pub fn cons_fun(&self, id: usize, def: &Rc<Vars>) -> (r: Ctx)
        ensures
            r == self.spec_cons_fun(id, *def),
    {
        Ctx { vars: Rc::new(Vars::Fun(id, def.clone(), self.vars.clone())), labels: self.labels }
    }

    /// The context with a fresh label, whose identifier is the new label count.
    pub open spec fn spec_cons_label(self) -> Ctx
        recommends
            self.labels < u64::MAX,
    {
        let l = (self.labels + 1) as u64;
        Ctx { vars: Rc::new(Vars::Label(l, self.vars)), labels: l }
    }

    pub fn cons_label(&self) -> (r: Ctx)
        requires
            self.labels < u64::MAX,
        ensures
            r == self.spec_cons_label(),
    {
        let l = self.labels + 1;
        Ctx { vars: Rc::new(Vars::Label(l, self.vars.clone())), labels: l }
    }
}

} // verus!
