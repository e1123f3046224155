//! The compiled program: terms addressed by integer ids in a lookup table.
use crate::ctx::{Ctx, ValX};
use crate::sem::Update;
use crate::val::{CmpOp, MathOp, Text, Val};
use std::rc::Rc;
use vstd::prelude::*;

verus! {

/// A destructuring pattern.
#[derive(Debug)]
pub enum Pattern {
    /// Bind the whole value to a variable.
    Var,
    /// Index the value by the outputs of each term, and bind each result to its sub-pattern.
    Idx(Vec<(usize, Pattern)>),
}

/// An argument of a call.
#[derive(Debug)]
pub enum Bind {
    /// A value argument: the outputs of the term are bound as variables.
    Var(usize),
    /// A filter argument: the term is bound as a closure over the caller's bindings.
    Fun(usize),
}

/// How a call takes part in tail recursion.
#[derive(Clone, Copy, Debug, PartialEq, Eq, Structural)]
pub enum Tailrec {
    /// The call signals a tail call instead of running its callee.
    Throw,
    /// The call runs its callee and restarts it in place on each matching tail call.
    Catch,
}

/// The kind of a fold.
#[derive(Debug)]
pub enum Fold {
    Reduce,
    Foreach(Option<usize>),
}

/// One step of a path.
#[derive(Clone, Copy, Debug, PartialEq, Eq, Structural)]
pub enum Part {
    /// `.[i]`, for every output of the term.
    Index(usize),
    /// `.[]`: every element of an array or every value of an object.
    Iter,
}

/// A term of the program; sub-terms are given by id.
#[derive(Debug)]
pub enum Ast {
    Id,
    ToString,
    Int(i64),
    Str(Rc<Text>),
    Arr(usize),
    ObjEmpty,
    ObjSingle(usize, usize),
    TryCatch(usize, usize),
    Neg(usize),
    Pipe(usize, Option<Pattern>, usize),
    Comma(usize, usize),
    Alt(usize, usize),
    Ite(usize, usize, usize),
    Path(usize, Part),
    Update(usize, usize),
    UpdateMath(usize, MathOp, usize),
    UpdateAlt(usize, usize),
    Assign(usize, usize),
    Logic(usize, bool, usize),
    Math(usize, MathOp, usize),
    Cmp(usize, CmpOp, usize),
    Fold(usize, Pattern, usize, usize, Fold),
    Var(usize),
    CallDef(usize, Vec<Bind>, usize, Option<Tailrec>),
    Native(usize, Vec<Bind>),
    Label(usize),
}

/// What a native filter computes from its input.
#[derive(Clone, Copy, Debug, PartialEq, Eq, Structural)]
pub enum NativeRun {
    /// Raise the input as an error.
    Error,
    /// Raise the value of its first argument as an error.
    ErrorOf,
    /// Yield nothing.
    Empty,
    /// Yield the negated truthiness of the input.
    Not,
}

/// What a native filter does as the target of an update.
#[derive(Clone, Copy, Debug, PartialEq, Eq, Structural)]
pub enum NativeUpdate {
    /// Fail: the filter is not a path.
    Fail,
    /// Leave the value as it is: the filter designates no location.
    Keep,
}

/// A filter implemented natively.
#[derive(Clone, Copy, Debug, PartialEq, Eq, Structural)]
pub struct Native {
    pub run: NativeRun,
    pub update: NativeUpdate,
}

impl Native {
    /// A native filter from its run behaviour, without support for updates.
    pub fn new(run: NativeRun) -> (r: Self)
        ensures
            r.run == run,
            r.update == NativeUpdate::Fail,
    {
        Native { run, update: NativeUpdate::Fail }
    }

    /// The filter with its update behaviour set to `update`.
    pub fn with_update(self, update: NativeUpdate) -> (r: Self)
        ensures
            r.run == self.run,
            r.update == update,
    {
        Native { update, ..self }
    }
}

/// The lookup table: terms and native filters, by id.
#[derive(Debug)]
pub struct Lut<F> {
    pub terms: Vec<Ast>,
    pub funs: Vec<F>,
}

/// A native filter: something that yields outputs for an input, and can be
/// the target of an update. `F` is the type of the native filters of the table.
///
/// A native call binds its arguments in a fresh context, then runs the filter
/// once for each resulting context; an update through it threads one value
/// through `update`, once for each context.
pub trait FilterT<F>: Sized {
    /// The outputs of the filter.
    spec fn outputs(&self, fuel: nat, lut: Lut<F>, ctx: Ctx, v: Val) -> Seq<ValX>;

    /// The outputs of updating, through the filter, `v` with `g`.
    spec fn updated(&self, fuel: nat, lut: Lut<F>, ctx: Ctx, v: Val, g: Update) -> Seq<ValX>;

    /// `f.run(.., ctx, v)` returns the outputs of `v | f` in the context `ctx`.
    fn run(&self, fuel: u64, lut: &Lut<F>, ctx: &Ctx, v: Val) -> (r: Vec<ValX>)
        ensures
            r@ == self.outputs(fuel as nat, *lut, *ctx, v),
    ;

    /// `p.update(.., ctx, v, g)` returns the outputs of updating `v` with `g` at the
    /// locations that `p` designates.
    fn update(&self, fuel: u64, lut: &Lut<F>, ctx: &Ctx, v: Val, g: &Update) -> (r: Vec<ValX>)
        ensures
            r@ == self.updated(fuel as nat, *lut, *ctx, v, *g),
    ;
}

} // verus!
