use jaq_core::ctx::{Ctx, Exn, ValX};
use jaq_core::filter::{first, run, take, update, Id};
use jaq_core::sem::Update;
use jaq_core::term::{Ast, Bind, FilterT, Fold, Lut, Native, NativeRun, NativeUpdate, Part, Pattern, Tailrec};
use jaq_core::val::{list_of, text_of, CmpOp, Error, Fields, MathOp, Text, Val};
use std::rc::Rc;

const FUEL: u64 = 1000;
const ERROR: usize = 0;
const EMPTY: usize = 1;
const NOT: usize = 2;
const ERROR_OF: usize = 3;

fn text(s: &str) -> Rc<Text> {
    text_of(&s.chars().collect())
}

fn string(s: &str) -> Val {
    Val::Str(text(s))
}

fn arr(vs: Vec<Val>) -> Val {
    Val::Arr(list_of(&vs))
}

fn obj(kvs: Vec<(&str, Val)>) -> Val {
    let mut f = Rc::new(Fields::Nil);
    for (k, v) in kvs.into_iter().rev() {
        f = Rc::new(Fields::Cons(text(k), v, f));
    }
    Val::Obj(f)
}

fn lut(terms: Vec<Ast>) -> Lut<Native> {
    let funs = vec![
        Native::new(NativeRun::Error),
        Native::new(NativeRun::Empty).with_update(NativeUpdate::Keep),
        Native::new(NativeRun::Not),
        Native::new(NativeRun::ErrorOf),
    ];
    Lut { terms, funs }
}

fn oks(vs: Vec<Val>) -> Vec<ValX> {
    vs.into_iter().map(Ok).collect()
}

fn eval(terms: Vec<Ast>, v: Val) -> Vec<ValX> {
    run(FUEL, &lut(terms), 0, &Ctx::new(), v)
}

// `.key` as terms `1` to `3`, after the operator at `0`
fn field(key: &str) -> Vec<Ast> {
    vec![Ast::Path(2, Part::Index(3)), Ast::Id, Ast::Str(text(key))]
}

#[test]
fn lazy_is_lazy() {
    // `0, f` where `def f: f;` never ends: only the first output is pulled
    let terms = vec![Ast::Comma(1, 2), Ast::Int(0), Ast::CallDef(2, vec![], 0, None)];
    let lut = lut(terms);
    let r = first(u64::MAX, &lut, 0, &Ctx::new(), Val::Null);
    assert_eq!(r, Some(Ok(Val::Int(0))));
    // the full run of the same program stops only at the budget
    let all = run(50, &lut, 0, &Ctx::new(), Val::Null);
    assert_eq!(all[0], Ok(Val::Int(0)));
    assert_eq!(all.last(), Some(&Err(Exn::Exhausted)));
}

#[test]
fn run_twice_same_outputs() {
    // `1, 2 | . * 3`
    let terms = vec![
        Ast::Pipe(1, None, 4),
        Ast::Comma(2, 3),
        Ast::Int(1),
        Ast::Int(2),
        Ast::Math(5, MathOp::Mul, 6),
        Ast::Id,
        Ast::Int(3),
    ];
    let a = eval(terms, Val::Null);
    let terms = vec![
        Ast::Pipe(1, None, 4),
        Ast::Comma(2, 3),
        Ast::Int(1),
        Ast::Int(2),
        Ast::Math(5, MathOp::Mul, 6),
        Ast::Id,
        Ast::Int(3),
    ];
    let b = eval(terms, Val::Null);
    assert_eq!(a, b);
    assert_eq!(a, oks(vec![Val::Int(3), Val::Int(6)]));
}

#[test]
fn comma_first_skips_failing_right() {
    // `1, error("x")`: the first output is 1; the whole stream ends in the error
    let terms = vec![
        Ast::Comma(1, 2),
        Ast::Int(1),
        Ast::Pipe(3, None, 4),
        Ast::Str(text("x")),
        Ast::Native(ERROR, vec![]),
    ];
    let lut = lut(terms);
    assert_eq!(first(FUEL, &lut, 0, &Ctx::new(), Val::Null), Some(Ok(Val::Int(1))));
    let all = run(FUEL, &lut, 0, &Ctx::new(), Val::Null);
    assert_eq!(all, vec![Ok(Val::Int(1)), Err(Exn::Fail(Error::Val(string("x"))))]);
}

#[test]
fn comma_is_associative() {
    // `(1, 2), 3` and `1, (2, 3)`
    let left = vec![
        Ast::Comma(1, 4),
        Ast::Comma(2, 3),
        Ast::Int(1),
        Ast::Int(2),
        Ast::Int(3),
    ];
    let right = vec![
        Ast::Comma(1, 2),
        Ast::Int(1),
        Ast::Comma(3, 4),
        Ast::Int(2),
        Ast::Int(3),
    ];
    let expected = oks(vec![Val::Int(1), Val::Int(2), Val::Int(3)]);
    assert_eq!(eval(left, Val::Null), expected);
    assert_eq!(eval(right, Val::Null), expected);
}

// `false` as `0 == 1` and `null` as `{}.a`
fn alt_terms(left_first: Ast) -> Vec<Ast> {
    let mut t = vec![
        Ast::Alt(1, 4),
        Ast::Comma(2, 3),
        left_first,
        Ast::Path(5, Part::Index(6)),
        Ast::Int(5),
        Ast::ObjEmpty,
        Ast::Str(text("a")),
        Ast::Cmp(8, CmpOp::Eq, 9),
        Ast::Int(0),
        Ast::Int(1),
    ];
    t[3] = Ast::Path(5, Part::Index(6));
    t
}

#[test]
fn alternative_takes_right_when_left_all_false() {
    // `(false, null) // 5`
    let terms = alt_terms(Ast::Cmp(8, CmpOp::Eq, 9));
    assert_eq!(eval(terms, Val::Null), oks(vec![Val::Int(5)]));
}

#[test]
fn alternative_keeps_truthy_left_outputs() {
    // `(1, false) // 5`
    let mut terms = alt_terms(Ast::Int(1));
    terms[3] = Ast::Cmp(8, CmpOp::Eq, 9);
    assert_eq!(eval(terms, Val::Null), oks(vec![Val::Int(1)]));
}

#[test]
fn alternative_drops_left_errors() {
    // `(error("x"), 2) // 5`
    let terms = vec![
        Ast::Alt(1, 4),
        Ast::Comma(2, 3),
        Ast::Native(ERROR, vec![]),
        Ast::Int(2),
        Ast::Int(5),
    ];
    assert_eq!(eval(terms, Val::Null), oks(vec![Val::Int(2)]));
}

// `(1, 2, 3) as $x (0; . + $x)` with the given fold kind
fn fold_terms(kind: Fold) -> Vec<Ast> {
    vec![
        Ast::Fold(1, Pattern::Var, 6, 7, kind),
        Ast::Comma(2, 3),
        Ast::Int(1),
        Ast::Comma(4, 5),
        Ast::Int(2),
        Ast::Int(3),
        Ast::Int(0),
        Ast::Math(8, MathOp::Add, 9),
        Ast::Id,
        Ast::Var(0),
    ]
}

#[test]
fn reduce_sums() {
    assert_eq!(eval(fold_terms(Fold::Reduce), Val::Null), oks(vec![Val::Int(6)]));
}

#[test]
fn foreach_collects_every_state() {
    // `[foreach (1, 2, 3) as $x (0; . + $x)]`
    let mut terms = fold_terms(Fold::Foreach(None));
    let n = terms.len();
    let fold = std::mem::replace(&mut terms[0], Ast::Arr(n));
    terms.push(fold);
    let expected = arr(vec![Val::Int(1), Val::Int(3), Val::Int(6)]);
    assert_eq!(eval(terms, Val::Null), oks(vec![expected]));
}

#[test]
fn foreach_with_projection() {
    // `foreach (1, 2, 3) as $x (0; . + $x; . * 10)`
    let mut terms = fold_terms(Fold::Foreach(Some(10)));
    terms.push(Ast::Math(8, MathOp::Mul, 11));
    terms.push(Ast::Int(10));
    let expected = oks(vec![Val::Int(10), Val::Int(30), Val::Int(60)]);
    assert_eq!(eval(terms, Val::Null), expected);
}

// `.a |= . + 1`
fn incr_a() -> Vec<Ast> {
    let mut t = vec![Ast::Update(1, 3), Ast::Path(2, Part::Index(6)), Ast::Id];
    t.push(Ast::Math(4, MathOp::Add, 5));
    t.push(Ast::Id);
    t.push(Ast::Int(1));
    t.push(Ast::Str(text("a")));
    t
}

#[test]
fn update_field() {
    let v = obj(vec![("a", Val::Int(1))]);
    assert_eq!(eval(incr_a(), v), oks(vec![obj(vec![("a", Val::Int(2))])]));
}

#[test]
fn update_field_keeps_others() {
    let v = obj(vec![("a", Val::Int(1)), ("b", Val::Int(2))]);
    let expected = obj(vec![("a", Val::Int(2)), ("b", Val::Int(2))]);
    assert_eq!(eval(incr_a(), v), oks(vec![expected]));
}

#[test]
fn destructure_object() {
    // `{"a":1,"b":2} as {a: $x, b: $y} | $x + $y`
    let pat = Pattern::Idx(vec![(2, Pattern::Var), (3, Pattern::Var)]);
    let terms = vec![
        Ast::Pipe(1, Some(pat), 4),
        Ast::Id,
        Ast::Str(text("a")),
        Ast::Str(text("b")),
        Ast::Math(5, MathOp::Add, 6),
        Ast::Var(1),
        Ast::Var(0),
    ];
    let v = obj(vec![("a", Val::Int(1)), ("b", Val::Int(2))]);
    assert_eq!(eval(terms, v), oks(vec![Val::Int(3)]));
}

#[test]
fn destructure_array_nested() {
    // `[1, [2, 3]] as [$a, [$b, $c]] | $a + $b + $c` with indices as terms
    let inner = Pattern::Idx(vec![(3, Pattern::Var), (4, Pattern::Var)]);
    let pat = Pattern::Idx(vec![(3, Pattern::Var), (4, inner)]);
    let terms = vec![
        Ast::Pipe(1, Some(pat), 5),
        Ast::Id,
        Ast::Id,
        Ast::Int(0),
        Ast::Int(1),
        Ast::Math(6, MathOp::Add, 9),
        Ast::Math(7, MathOp::Add, 8),
        Ast::Var(2),
        Ast::Var(1),
        Ast::Var(0),
    ];
    let v = arr(vec![Val::Int(1), arr(vec![Val::Int(2), Val::Int(3)])]);
    assert_eq!(eval(terms, v), oks(vec![Val::Int(6)]));
}

#[test]
fn label_break_stops_cleanly() {
    // `label $out | (1, 2, 3, 4) | if . == 3 then break $out else . end`
    let terms = vec![
        Ast::Label(1),
        Ast::Pipe(2, None, 9),
        Ast::Comma(3, 4),
        Ast::Int(1),
        Ast::Comma(5, 6),
        Ast::Int(2),
        Ast::Comma(7, 8),
        Ast::Int(3),
        Ast::Int(4),
        Ast::Ite(10, 13, 11),
        Ast::Cmp(11, CmpOp::Eq, 12),
        Ast::Id,
        Ast::Int(3),
        Ast::Var(0),
    ];
    assert_eq!(eval(terms, Val::Null), oks(vec![Val::Int(1), Val::Int(2)]));
}

#[test]
fn break_without_label_propagates() {
    // an outer label's break passes through an inner label
    let terms = vec![Ast::Label(1), Ast::Label(2), Ast::Var(1)];
    assert_eq!(eval(terms, Val::Null), vec![]);
    let terms = vec![Ast::Label(1), Ast::Label(2), Ast::Var(0)];
    assert_eq!(eval(terms, Val::Null), vec![]);
}

#[test]
fn try_catch_error_value() {
    // `try error("boom") catch .`
    let terms = vec![
        Ast::TryCatch(1, 4),
        Ast::Pipe(2, None, 3),
        Ast::Str(text("boom")),
        Ast::Native(ERROR, vec![]),
        Ast::Id,
    ];
    assert_eq!(eval(terms, Val::Null), oks(vec![string("boom")]));
}

#[test]
fn try_catch_keeps_earlier_outputs() {
    // `try (1, error("x"), 2) catch .`
    let terms = vec![
        Ast::TryCatch(1, 8),
        Ast::Comma(2, 3),
        Ast::Int(1),
        Ast::Comma(4, 7),
        Ast::Pipe(5, None, 6),
        Ast::Str(text("x")),
        Ast::Native(ERROR, vec![]),
        Ast::Int(2),
        Ast::Id,
    ];
    assert_eq!(eval(terms, Val::Null), oks(vec![Val::Int(1), string("x")]));
}

#[test]
fn update_every_element() {
    // `[1, 2, 3] | .[] |= . + 1`
    let terms = vec![
        Ast::Update(1, 3),
        Ast::Path(2, Part::Iter),
        Ast::Id,
        Ast::Math(4, MathOp::Add, 5),
        Ast::Id,
        Ast::Int(1),
    ];
    let v = arr(vec![Val::Int(1), Val::Int(2), Val::Int(3)]);
    let expected = arr(vec![Val::Int(2), Val::Int(3), Val::Int(4)]);
    assert_eq!(eval(terms, v), oks(vec![expected]));
}

#[test]
fn update_non_path_fails() {
    // `1 |= . + 1`
    let terms = vec![
        Ast::Update(1, 2),
        Ast::Int(1),
        Ast::Math(3, MathOp::Add, 4),
        Ast::Id,
        Ast::Int(1),
    ];
    assert_eq!(eval(terms, Val::Null), vec![Err(Exn::Fail(Error::PathExpr))]);
}

#[test]
fn update_math_and_assign() {
    // `.a += 10`, `.a = 7`, `.b //= 3` on `{"a": 1}`
    let v = || obj(vec![("a", Val::Int(1))]);
    let mut t = vec![Ast::UpdateMath(1, MathOp::Add, 4)];
    t.extend(field("a"));
    t.push(Ast::Int(10));
    assert_eq!(eval(t, v()), oks(vec![obj(vec![("a", Val::Int(11))])]));
    let mut t = vec![Ast::Assign(1, 4)];
    t.extend(field("a"));
    t.push(Ast::Int(7));
    assert_eq!(eval(t, v()), oks(vec![obj(vec![("a", Val::Int(7))])]));
    let mut t = vec![Ast::UpdateAlt(1, 4)];
    t.extend(field("b"));
    t.push(Ast::Int(3));
    let expected = obj(vec![("a", Val::Int(1)), ("b", Val::Int(3))]);
    assert_eq!(eval(t, v()), oks(vec![expected]));
}

#[test]
fn native_update_behaviour() {
    // `empty |= 5` keeps the value; `not |= 5` is no path
    let terms = vec![Ast::Update(1, 2), Ast::Native(EMPTY, vec![]), Ast::Int(5)];
    assert_eq!(eval(terms, Val::Int(7)), oks(vec![Val::Int(7)]));
    let terms = vec![Ast::Update(1, 2), Ast::Native(NOT, vec![]), Ast::Int(5)];
    assert_eq!(eval(terms, Val::Int(7)), vec![Err(Exn::Fail(Error::PathExpr))]);
}

#[test]
fn native_builders() {
    let n = Native::new(NativeRun::Not);
    assert_eq!(n.update, NativeUpdate::Fail);
    let n = n.with_update(NativeUpdate::Keep);
    assert_eq!(n.run, NativeRun::Not);
    assert_eq!(n.update, NativeUpdate::Keep);
    let l = lut(vec![]);
    let r = n.update(FUEL, &l, &Ctx::new(), Val::Int(1), &Update::Assign(Val::Int(2)));
    assert_eq!(r, oks(vec![Val::Int(1)]));
    assert_eq!(n.run(FUEL, &l, &Ctx::new(), Val::Null), oks(vec![Val::Bool(true)]));
}

#[test]
fn cartesian_products_left_major() {
    // `(1, 2) + (10, 20)`
    let terms = vec![
        Ast::Math(1, MathOp::Add, 4),
        Ast::Comma(2, 3),
        Ast::Int(1),
        Ast::Int(2),
        Ast::Comma(5, 6),
        Ast::Int(10),
        Ast::Int(20),
    ];
    let expected = oks(vec![Val::Int(11), Val::Int(21), Val::Int(12), Val::Int(22)]);
    assert_eq!(eval(terms, Val::Null), expected);
}

#[test]
fn object_construction_and_key_error() {
    // `{("a", "b"): 1}` and `{(1): 2}`
    let terms = vec![
        Ast::ObjSingle(1, 4),
        Ast::Comma(2, 3),
        Ast::Str(text("a")),
        Ast::Str(text("b")),
        Ast::Int(1),
    ];
    let expected = oks(vec![obj(vec![("a", Val::Int(1))]), obj(vec![("b", Val::Int(1))])]);
    assert_eq!(eval(terms, Val::Null), expected);
    let terms = vec![Ast::ObjSingle(1, 2), Ast::Int(1), Ast::Int(2)];
    assert_eq!(eval(terms, Val::Null), vec![Err(Exn::Fail(Error::Key(Val::Int(1))))]);
}

#[test]
fn logic_short_circuits() {
    // `false and error`, `1 or error`, `1 and null`
    let terms = vec![Ast::Logic(1, false, 4), Ast::Cmp(2, CmpOp::Eq, 3), Ast::Int(0), Ast::Int(1), Ast::Native(ERROR, vec![])];
    assert_eq!(eval(terms, Val::Null), oks(vec![Val::Bool(false)]));
    let terms = vec![Ast::Logic(1, true, 2), Ast::Int(1), Ast::Native(ERROR, vec![])];
    assert_eq!(eval(terms, Val::Null), oks(vec![Val::Bool(true)]));
    let terms = vec![Ast::Logic(1, false, 2), Ast::Int(1), Ast::Id];
    assert_eq!(eval(terms, Val::Null), oks(vec![Val::Bool(false)]));
}

#[test]
fn errors_of_values() {
    // `.[0]` on 1, `-"a"`, and overflow of `+`
    let terms = vec![Ast::Path(1, Part::Index(2)), Ast::Id, Ast::Int(0)];
    let expected = vec![Err(Exn::Fail(Error::Index(Val::Int(1), Val::Int(0))))];
    assert_eq!(eval(terms, Val::Int(1)), expected);
    let terms = vec![Ast::Neg(1), Ast::Str(text("a"))];
    assert_eq!(eval(terms, Val::Null), vec![Err(Exn::Fail(Error::Type(string("a"))))]);
    let terms = vec![Ast::Math(1, MathOp::Add, 2), Ast::Int(i64::MAX), Ast::Int(1)];
    let expected = vec![Err(Exn::Fail(Error::Math(Val::Int(i64::MAX), MathOp::Add, Val::Int(1))))];
    assert_eq!(eval(terms, Val::Null), expected);
    let terms = vec![Ast::Var(0)];
    assert_eq!(eval(terms, Val::Null), vec![Err(Exn::Fail(Error::Unbound))]);
}

#[test]
fn string_and_array_addition() {
    let terms = vec![Ast::Math(1, MathOp::Add, 2), Ast::Str(text("ab")), Ast::Str(text("c"))];
    assert_eq!(eval(terms, Val::Null), oks(vec![string("abc")]));
    let terms = vec![Ast::Math(1, MathOp::Add, 2), Ast::Arr(3), Ast::Arr(4), Ast::Int(1), Ast::Int(2)];
    assert_eq!(eval(terms, Val::Null), oks(vec![arr(vec![Val::Int(1), Val::Int(2)])]));
}

#[test]
fn comparison_orders_values() {
    let terms = vec![Ast::Cmp(1, CmpOp::Lt, 2), Ast::Str(text("b")), Ast::Arr(3), Ast::Int(0)];
    assert_eq!(eval(terms, Val::Null), oks(vec![Val::Bool(true)]));
    let terms = vec![Ast::Cmp(1, CmpOp::Ge, 2), Ast::Str(text("ab")), Ast::Str(text("b"))];
    assert_eq!(eval(terms, Val::Null), oks(vec![Val::Bool(false)]));
}

#[test]
fn call_binds_arguments() {
    // `def f($a; g): $a + g; f(1, 2; 10)`
    let terms = vec![
        Ast::CallDef(4, vec![Bind::Var(1), Bind::Fun(3)], 0, None),
        Ast::Comma(2, 8),
        Ast::Int(1),
        Ast::Int(10),
        Ast::Math(5, MathOp::Add, 6),
        Ast::Var(1),
        Ast::Var(0),
        Ast::Id,
        Ast::Int(2),
    ];
    assert_eq!(eval(terms, Val::Null), oks(vec![Val::Int(11), Val::Int(12)]));
}

#[test]
fn tail_recursion_restarts_in_place() {
    // `def f: if . < 3 then . + 1 | f else . end; f`, the inner call a tail call
    let terms = vec![
        Ast::CallDef(1, vec![], 0, Some(Tailrec::Catch)),
        Ast::Ite(2, 5, 4),
        Ast::Cmp(4, CmpOp::Lt, 3),
        Ast::Int(3),
        Ast::Id,
        Ast::Pipe(6, None, 8),
        Ast::Math(4, MathOp::Add, 7),
        Ast::Int(1),
        Ast::CallDef(1, vec![], 0, Some(Tailrec::Throw)),
    ];
    assert_eq!(eval(terms, Val::Int(0)), oks(vec![Val::Int(3)]));
}

#[test]
fn budget_runs_out() {
    // `def f: f; f`
    let terms = vec![Ast::CallDef(0, vec![], 0, None)];
    assert_eq!(run(10, &lut(terms), 0, &Ctx::new(), Val::Null), vec![Err(Exn::Exhausted)]);
}

#[test]
fn filter_trait_on_terms() {
    let l = lut(vec![Ast::Path(1, Part::Iter), Ast::Id]);
    let v = arr(vec![Val::Int(1), Val::Int(2)]);
    assert_eq!(Id(0).run(FUEL, &l, &Ctx::new(), v.copy()), oks(vec![Val::Int(1), Val::Int(2)]));
    let r = Id(0).update(FUEL, &l, &Ctx::new(), v, &Update::Assign(Val::Null));
    assert_eq!(r, oks(vec![arr(vec![Val::Null, Val::Null])]));
    let r = update(FUEL, &l, 1, &Ctx::new(), Val::Int(4), &Update::Math(MathOp::Mul, Val::Int(2)));
    assert_eq!(r, oks(vec![Val::Int(8)]));
}

#[test]
fn tostring_gives_json_text() {
    let terms = vec![Ast::ToString];
    let v = arr(vec![
        Val::Int(1),
        string("a\"b"),
        obj(vec![("k", Val::Null), ("t", Val::Bool(true))]),
    ]);
    assert_eq!(eval(terms, v), oks(vec![string("[1,\"a\\\"b\",{\"k\":null,\"t\":true}]")]));
    assert_eq!(eval(vec![Ast::ToString], string("x")), oks(vec![string("x")]));
    assert_eq!(eval(vec![Ast::ToString], Val::Int(-120)), oks(vec![string("-120")]));
    let min = eval(vec![Ast::ToString], Val::Int(i64::MIN));
    assert_eq!(min, oks(vec![string("-9223372036854775808")]));
    assert_eq!(eval(vec![Ast::ToString], string("\n")), oks(vec![string("\n")]));
    let esc = eval(vec![Ast::ToString], arr(vec![string("\n\u{1}")]));
    assert_eq!(esc, oks(vec![string("[\"\\n\\u0001\"]")]));
}

#[test]
fn take_runs_only_what_is_needed() {
    // `(1, 2) | (., f)` where `def f: f;` never ends
    let terms = vec![
        Ast::Pipe(1, None, 4),
        Ast::Comma(2, 3),
        Ast::Int(1),
        Ast::Int(2),
        Ast::Comma(5, 6),
        Ast::Id,
        Ast::CallDef(6, vec![], 0, None),
    ];
    let lut = lut(terms);
    let r = take(u64::MAX, 1, &lut, 0, &Ctx::new(), Val::Null);
    assert_eq!(r, oks(vec![Val::Int(1)]));
    let r = take(40, 3, &lut, 0, &Ctx::new(), Val::Null);
    assert_eq!(r, vec![Ok(Val::Int(1)), Err(Exn::Exhausted), Ok(Val::Int(2))]);
    assert_eq!(take(FUEL, 0, &lut, 0, &Ctx::new(), Val::Null), vec![]);
}

#[test]
fn take_of_short_stream_is_whole_stream() {
    // `1, 2` asked for five outputs
    let terms = vec![Ast::Comma(1, 2), Ast::Int(1), Ast::Int(2)];
    let r = take(FUEL, 5, &lut(terms), 0, &Ctx::new(), Val::Null);
    assert_eq!(r, oks(vec![Val::Int(1), Val::Int(2)]));
}

#[test]
fn catch_describes_builtin_errors() {
    // `try .[0] catch .` on 1, and `try (1 |= 2) catch .`
    let terms = vec![Ast::TryCatch(1, 3), Ast::Path(2, Part::Index(4)), Ast::Id, Ast::Id, Ast::Int(0)];
    assert_eq!(eval(terms, Val::Int(1)), oks(vec![string("cannot index 1 with 0")]));
    let terms = vec![Ast::TryCatch(1, 4), Ast::Update(2, 3), Ast::Int(1), Ast::Int(2), Ast::Id];
    assert_eq!(eval(terms, Val::Null), oks(vec![string("invalid path expression")]));
    let terms = vec![
        Ast::TryCatch(1, 4),
        Ast::Math(2, MathOp::Mul, 3),
        Ast::Str(text("a")),
        Ast::Int(2),
        Ast::Id,
    ];
    assert_eq!(eval(terms, Val::Null), oks(vec![string("cannot compute \"a\" * 2")]));
}

#[test]
fn alternative_passes_breaks_on() {
    // `label $f | ((break $f) // 1), 2`: the break ends the label
    let terms = vec![
        Ast::Label(1),
        Ast::Comma(2, 5),
        Ast::Alt(3, 4),
        Ast::Var(0),
        Ast::Int(1),
        Ast::Int(2),
    ];
    assert_eq!(eval(terms, Val::Null), vec![]);
}

#[test]
fn native_reads_its_argument() {
    // `error("boom", "bang")`: the native runs once for each argument value
    let terms = vec![
        Ast::Native(ERROR_OF, vec![Bind::Var(1)]),
        Ast::Comma(2, 3),
        Ast::Str(text("boom")),
        Ast::Str(text("bang")),
    ];
    let expected = vec![
        Err(Exn::Fail(Error::Val(string("boom")))),
        Err(Exn::Fail(Error::Val(string("bang")))),
    ];
    assert_eq!(eval(terms, Val::Null), expected);
}

#[test]
fn first_is_lazy_through_pipes_labels_and_conditions() {
    // `(0, f) | .` where `def f: f;` never ends
    let terms = vec![
        Ast::Pipe(1, None, 4),
        Ast::Comma(2, 3),
        Ast::Int(0),
        Ast::CallDef(3, vec![], 0, None),
        Ast::Id,
    ];
    let r = first(u64::MAX, &lut(terms), 0, &Ctx::new(), Val::Null);
    assert_eq!(r, Some(Ok(Val::Int(0))));
    // `label $x | if (true, f) then 1 else 2 end`
    let terms = vec![
        Ast::Label(1),
        Ast::Ite(2, 5, 6),
        Ast::Comma(3, 4),
        Ast::Cmp(5, CmpOp::Eq, 5),
        Ast::CallDef(4, vec![], 0, None),
        Ast::Int(1),
        Ast::Int(2),
    ];
    let r = take(u64::MAX, 1, &lut(terms), 0, &Ctx::new(), Val::Null);
    assert_eq!(r, oks(vec![Val::Int(1)]));
}

#[test]
fn take_is_lazy_through_alternative() {
    // `(null, 3, f) // 4` where `def f: f;` never ends
    let terms = vec![
        Ast::Alt(1, 7),
        Ast::Comma(2, 5),
        Ast::Path(3, Part::Index(4)),
        Ast::ObjEmpty,
        Ast::Str(text("a")),
        Ast::Comma(6, 8),
        Ast::Int(3),
        Ast::Int(4),
        Ast::CallDef(8, vec![], 0, None),
    ];
    let r = take(u64::MAX, 1, &lut(terms), 0, &Ctx::new(), Val::Null);
    assert_eq!(r, oks(vec![Val::Int(3)]));
}
