//! Laws of evaluation, proved over the meaning of programs.
use crate::ctx::{Ctx, Exn, ValX};
use crate::sem::{eval, eval_update, fail, first_of, keep_true, kept, until_break, Update};
use crate::term::{Ast, FilterT, Lut};
use crate::val::{fields_get, fields_set, Error, Fields, Text, Val};
use vstd::prelude::*;

verus! {

/// Running a term twice on the same input, in the same context and with the
/// same budget, yields the same outputs.
pub proof fn run_is_deterministic<F: FilterT<F>>(
    fuel: nat,
    lut: Lut<F>,
    t: usize,
    ctx: Ctx,
    v: Val,
    first_run: Seq<ValX>,
    second_run: Seq<ValX>,
)
    requires
        first_run == eval(fuel, lut, t, ctx, v),
        second_run == eval(fuel, lut, t, ctx, v),
    ensures
        first_run == second_run,
{
}

/// `(A, B), C` and `A, (B, C)` both yield the outputs of `A`, then those of
/// `B`, then those of `C`; the budget of each operand is that left at its depth.
pub proof fn comma_outputs_in_order<F: FilterT<F>>(
    fuel: nat,
    lut: Lut<F>,
    a: usize,
    b: usize,
    c: usize,
    ab: usize,
    ab_c: usize,
    bc: usize,
    a_bc: usize,
    ctx: Ctx,
    v: Val,
)
    requires
        ab < lut.terms@.len(),
        ab_c < lut.terms@.len(),
        bc < lut.terms@.len(),
        a_bc < lut.terms@.len(),
        lut.terms@[ab as int] == Ast::Comma(a, b),
        lut.terms@[ab_c as int] == Ast::Comma(ab, c),
        lut.terms@[bc as int] == Ast::Comma(b, c),
        lut.terms@[a_bc as int] == Ast::Comma(a, bc),
    ensures
        eval(fuel + 2, lut, ab_c, ctx, v) == eval(fuel, lut, a, ctx, v) + eval(fuel, lut, b, ctx, v)
            + eval(fuel + 1, lut, c, ctx, v),
        eval(fuel + 2, lut, a_bc, ctx, v) == eval(fuel + 1, lut, a, ctx, v) + (eval(
            fuel,
            lut,
            b,
            ctx,
            v,
        ) + eval(fuel, lut, c, ctx, v)),
{
    assert(eval(fuel + 2, lut, ab_c, ctx, v) == eval(fuel + 1, lut, ab, ctx, v) + eval(
        fuel + 1,
        lut,
        c,
        ctx,
        v,
    ));
    assert(eval(fuel + 1, lut, ab, ctx, v) == eval(fuel, lut, a, ctx, v) + eval(fuel, lut, b, ctx, v));
    assert(eval(fuel + 2, lut, a_bc, ctx, v) == eval(fuel + 1, lut, a, ctx, v) + eval(
        fuel + 1,
        lut,
        bc,
        ctx,
        v,
    ));
}

/// Comma is associative: `(A, B), C` and `A, (B, C)` yield the same outputs
/// with the same budget, namely those of `A`, then `B`, then `C`, wherever a
/// budget one step larger leaves the outputs of `A` and of `C` as they are.
pub proof fn comma_is_associative<F: FilterT<F>>(
    fuel: nat,
    lut: Lut<F>,
    a: usize,
    b: usize,
    c: usize,
    ab: usize,
    ab_c: usize,
    bc: usize,
    a_bc: usize,
    ctx: Ctx,
    v: Val,
)
    requires
        ab < lut.terms@.len(),
        ab_c < lut.terms@.len(),
        bc < lut.terms@.len(),
        a_bc < lut.terms@.len(),
        lut.terms@[ab as int] == Ast::Comma(a, b),
        lut.terms@[ab_c as int] == Ast::Comma(ab, c),
        lut.terms@[bc as int] == Ast::Comma(b, c),
        lut.terms@[a_bc as int] == Ast::Comma(a, bc),
        eval(fuel + 1, lut, a, ctx, v) == eval(fuel, lut, a, ctx, v),
        eval(fuel + 1, lut, c, ctx, v) == eval(fuel, lut, c, ctx, v),
    ensures
        eval(fuel + 2, lut, ab_c, ctx, v) == eval(fuel + 2, lut, a_bc, ctx, v),
        eval(fuel + 2, lut, ab_c, ctx, v) == eval(fuel, lut, a, ctx, v) + eval(fuel, lut, b, ctx, v)
            + eval(fuel, lut, c, ctx, v),
{
    comma_outputs_in_order(fuel, lut, a, b, c, ab, ab_c, bc, a_bc, ctx, v);
    let (x, y, z) = (eval(fuel, lut, a, ctx, v), eval(fuel, lut, b, ctx, v), eval(fuel, lut, c, ctx, v));
    assert(x + (y + z) =~= x + y + z);
}

/// The first output of `A, B` is the first output of `A` whenever `A` has
/// one, whatever `B` yields: `B` may fail or run out of budget.
pub proof fn comma_first_is_left_first<F: FilterT<F>>(
    fuel: nat,
    lut: Lut<F>,
    t: usize,
    a: usize,
    b: usize,
    ctx: Ctx,
    v: Val,
)
    requires
        t < lut.terms@.len(),
        lut.terms@[t as int] == Ast::Comma(a, b),
        eval(fuel, lut, a, ctx, v).len() > 0,
    ensures
        first_of(eval(fuel + 1, lut, t, ctx, v)) == Some(eval(fuel, lut, a, ctx, v)[0]),
{
    let xs = eval(fuel, lut, a, ctx, v);
    let ys = eval(fuel, lut, b, ctx, v);
    assert(eval(fuel + 1, lut, t, ctx, v) == xs + ys);
    assert((xs + ys)[0] == xs[0]);
}

/// Whether a term designates no location that an update could change.
pub open spec fn not_a_path(a: Ast) -> bool {
    match a {
        Ast::ToString | Ast::Int(_) | Ast::Str(_) | Ast::Arr(_) | Ast::ObjEmpty | Ast::ObjSingle(..) => true,
        Ast::TryCatch(..) | Ast::Neg(_) | Ast::Logic(..) | Ast::Math(..) | Ast::Cmp(..) => true,
        Ast::Update(..) | Ast::UpdateMath(..) | Ast::UpdateAlt(..) | Ast::Assign(..) => true,
        Ast::Fold(..) | Ast::Label(_) => true,
        _ => false,
    }
}

/// Updating through a term that is not a path fails with a path error, and
/// yields nothing else.
pub proof fn update_of_non_path_fails<F: FilterT<F>>(fuel: nat, lut: Lut<F>, t: usize, ctx: Ctx, v: Val, g: Update)
    requires
        t < lut.terms@.len(),
        not_a_path(lut.terms@[t as int]),
    ensures
        eval_update(fuel + 1, lut, t, ctx, v, g) == fail(Error::PathExpr),
{
}

/// The fields after the first.
pub open spec fn fields_rest(f: Fields) -> Fields {
    match f {
        Fields::Nil => Fields::Nil,
        Fields::Cons(_, _, t) => *t,
    }
}

/// Setting a key of an object makes it hold the new value, and leaves the
/// value under every other key as it was.
pub proof fn set_field_keeps_others(f: Fields, k: Text, x: Val, k2: Text)
    ensures
        fields_get(fields_set(f, k, x), k) == Some(x),
        k2 != k ==> fields_get(fields_set(f, k, x), k2) == fields_get(f, k2),
    decreases f,
{
    if f is Cons {
        set_field_keeps_others(fields_rest(f), k, x, k2);
    }
}

/// The outputs of `A // B`: where `A` has a truthy output or a control signal,
/// exactly those outputs of `A`, in order, and nothing of `B`; otherwise the
/// outputs of `B`. Ordinary errors and false values of `A` never show.
pub proof fn alternative_outputs<F: FilterT<F>>(fuel: nat, lut: Lut<F>, t: usize, a: usize, b: usize, ctx: Ctx, v: Val)
    requires
        t < lut.terms@.len(),
        lut.terms@[t as int] == Ast::Alt(a, b),
    ensures
        keep_true(eval(fuel, lut, a, ctx, v), 0).len() > 0 ==> eval(fuel + 1, lut, t, ctx, v)
            == keep_true(eval(fuel, lut, a, ctx, v), 0),
        keep_true(eval(fuel, lut, a, ctx, v), 0).len() == 0 ==> eval(fuel + 1, lut, t, ctx, v)
            == eval(fuel, lut, b, ctx, v),
        forall|k: int|
            0 <= k < keep_true(eval(fuel, lut, a, ctx, v), 0).len() ==> kept(
                #[trigger] keep_true(eval(fuel, lut, a, ctx, v), 0)[k],
            ),
{
    keep_true_keeps(eval(fuel, lut, a, ctx, v), 0);
}

/// Every output that `keep_true` keeps is a truthy value or a control signal.
pub proof fn keep_true_keeps(ys: Seq<ValX>, i: int)
    ensures
        forall|k: int| 0 <= k < keep_true(ys, i).len() ==> kept(#[trigger] keep_true(ys, i)[k]),
    decreases ys.len() - i,
{
    if 0 <= i < ys.len() {
        keep_true_keeps(ys, i + 1);
        let rest = keep_true(ys, i + 1);
        if kept(ys[i]) {
            assert forall|k: int| 0 <= k < keep_true(ys, i).len() implies kept(
                #[trigger] keep_true(ys, i)[k],
            ) by {
                if k > 0 {
                    assert(keep_true(ys, i)[k] == rest[k - 1]);
                }
            }
        }
    }
}

/// The outputs of a label's body up to a break to that label: a prefix of the
/// body's outputs from `j` on, holding no break to the label.
pub proof fn until_break_is_clean_prefix(l: u64, ys: Seq<ValX>, j: int)
    requires
        0 <= j <= ys.len(),
    ensures
        until_break(l, ys, j).len() <= ys.len() - j,
        until_break(l, ys, j) == ys.subrange(j, j + until_break(l, ys, j).len()),
        forall|k: int|
            0 <= k < until_break(l, ys, j).len() ==> #[trigger] until_break(l, ys, j)[k]
                != Err::<Val, Exn>(Exn::Break(l)),
    decreases ys.len() - j,
{
    if j < ys.len() {
        until_break_is_clean_prefix(l, ys, j + 1);
        let rest = until_break(l, ys, j + 1);
        if ys[j] != Err::<Val, Exn>(Exn::Break(l)) {
            assert(until_break(l, ys, j) == seq![ys[j]] + rest);
            assert(until_break(l, ys, j) =~= ys.subrange(j, j + until_break(l, ys, j).len()));
            assert forall|k: int| 0 <= k < until_break(l, ys, j).len() implies #[trigger] until_break(
                l,
                ys,
                j,
            )[k] != Err::<Val, Exn>(Exn::Break(l)) by {
                if k > 0 {
                    assert(until_break(l, ys, j)[k] == rest[k - 1]);
                }
            }
        } else {
            assert(until_break(l, ys, j) =~= ys.subrange(j, j));
        }
    } else {
        assert(until_break(l, ys, j) =~= ys.subrange(j, j));
    }
}

/// The outputs of `label $x | B` are the outputs of `B`, in a context with a
/// fresh label, up to the first break to that label; no break to it remains.
pub proof fn label_outputs<F: FilterT<F>>(fuel: nat, lut: Lut<F>, t: usize, b: usize, ctx: Ctx, v: Val)
    requires
        t < lut.terms@.len(),
        lut.terms@[t as int] == Ast::Label(b),
        ctx.labels < u64::MAX,
    ensures
        ({
            let c = ctx.spec_cons_label();
            let body = eval(fuel, lut, b, c, v);
            let out = eval(fuel + 1, lut, t, ctx, v);
            &&& out == body.subrange(0, out.len() as int)
            &&& forall|k: int| 0 <= k < out.len() ==> #[trigger] out[k] != Err::<Val, Exn>(Exn::Break(c.labels))
        }),
{
    let c = ctx.spec_cons_label();
    until_break_is_clean_prefix(c.labels, eval(fuel, lut, b, c, v), 0);
}

} // verus!
