//! JSON-like values, shared through `Rc` so that copies are cheap and equal.
use std::rc::Rc;
use vstd::prelude::*;

verus! {

/// A string, as a shared list of characters.
#[derive(Debug, PartialEq)]
pub enum Text {
    Nil,
    Cons(char, Rc<Text>),
}

/// A JSON-like value.
#[derive(Debug, PartialEq)]
pub enum Val {
    Null,
    Bool(bool),
    Int(i64),
    Str(Rc<Text>),
    Arr(Rc<List>),
    Obj(Rc<Fields>),
}

/// The elements of an array, first to last.
#[derive(Debug, PartialEq)]
pub enum List {
    Nil,
    Cons(Val, Rc<List>),
}

/// The fields of an object, in insertion order; keys are unique.
#[derive(Debug, PartialEq)]
pub enum Fields {
    Nil,
    Cons(Rc<Text>, Val, Rc<Fields>),
}

/// What a failing operation on values reports.
#[derive(Debug, PartialEq)]
pub enum Error {
    /// An error raised by the program itself, carrying a value.
    Val(Val),
    /// A value of the wrong kind for an operation.
    Type(Val),
    /// A value that cannot be indexed by another.
    Index(Val, Val),
    /// An arithmetic operation that is undefined on its operands or overflows.
    Math(Val, MathOp, Val),
    /// An object key that is not a string.
    Key(Val),
    /// An update whose target is not a path.
    PathExpr,
    /// A reference to a variable, term or native filter that does not exist.
    Unbound,
}

/// Binary arithmetic operators.
#[derive(Clone, Copy, Debug, PartialEq, Eq, Structural)]
pub enum MathOp {
    Add,
    Sub,
    Mul,
}

/// Binary comparison operators.
#[derive(Clone, Copy, Debug, PartialEq, Eq, Structural)]
pub enum CmpOp {
    Eq,
    Ne,
    Lt,
    Le,
    Gt,
    Ge,
}

impl Val {
    /// Returns a copy of `self`, sharing its contents.
    pub fn copy(&self) -> (r: Val)
        ensures
            r == *self,
    {
        match self {
            Val::Null => Val::Null,
            Val::Bool(b) => Val::Bool(*b),
            Val::Int(n) => Val::Int(*n),
            Val::Str(s) => Val::Str(s.clone()),
            Val::Arr(a) => Val::Arr(a.clone()),
            Val::Obj(o) => Val::Obj(o.clone()),
        }
    }

    /// Truthiness: everything but `null` and `false` is true.
    pub open spec fn truthy(self) -> bool {
        !(self is Null || self == Val::Bool(false))
    }

    pub fn as_bool(&self) -> (r: bool)
        ensures
            r == self.truthy(),
    {
        match self {
            Val::Null => false,
            Val::Bool(b) => *b,
            _ => true,
        }
    }
}

impl Error {
    pub fn copy(&self) -> (r: Error)
        ensures
            r == *self,
    {
        match self {
            Error::Val(v) => Error::Val(v.copy()),
            Error::Type(v) => Error::Type(v.copy()),
            Error::Index(v, i) => Error::Index(v.copy(), i.copy()),
            Error::Math(a, op, b) => Error::Math(a.copy(), *op, b.copy()),
            Error::Key(v) => Error::Key(v.copy()),
            Error::PathExpr => Error::PathExpr,
            Error::Unbound => Error::Unbound,
        }
    }
}

/// Number of elements of a list.
pub open spec fn list_len(l: List) -> nat
    decreases l,
{
    match l {
        List::Nil => 0,
        List::Cons(_, t) => 1 + list_len(*t),
    }
}

/// The element at position `i` of a list, if there is one.
pub open spec fn list_nth(l: List, i: int) -> Option<Val>
    decreases l,
{
    match l {
        List::Nil => None,
        List::Cons(h, t) => if i == 0 {
            Some(h)
        } else if i < 0 {
            None
        } else {
            list_nth(*t, i - 1)
        },
    }
}

/// The list with the element at position `i` replaced by `x`, if there is one.
pub open spec fn list_set(l: List, i: int, x: Val) -> Option<List>
    decreases l,
{
    match l {
        List::Nil => None,
        List::Cons(h, t) => if i == 0 {
            Some(List::Cons(x, t))
        } else if i < 0 {
            None
        } else {
            match list_set(*t, i - 1, x) {
                Some(t2) => Some(List::Cons(h, Rc::new(t2))),
                None => None,
            }
        },
    }
}

/// The value under key `k`, if there is one.
pub open spec fn fields_get(f: Fields, k: Text) -> Option<Val>
    decreases f,
{
    match f {
        Fields::Nil => None,
        Fields::Cons(k1, v, t) => if *k1 == k {
            Some(v)
        } else {
            fields_get(*t, k)
        },
    }
}

/// The fields with the value under `k` replaced by `x`, or `k: x` appended.
pub open spec fn fields_set(f: Fields, k: Text, x: Val) -> Fields
    decreases f,
{
    match f {
        Fields::Nil => Fields::Cons(Rc::new(k), x, Rc::new(Fields::Nil)),
        Fields::Cons(k1, v, t) => if *k1 == k {
            Fields::Cons(k1, x, t)
        } else {
            Fields::Cons(k1, v, Rc::new(fields_set(*t, k, x)))
        },
    }
}

/// `v[i]`: the element or field designated by `i`, `null` where it is absent.
pub open spec fn index(v: Val, i: Val) -> Result<Val, Error> {
    match (v, i) {
        (Val::Null, Val::Int(_)) => Ok(Val::Null),
        (Val::Null, Val::Str(_)) => Ok(Val::Null),
        (Val::Arr(l), Val::Int(n)) => match list_nth(*l, n as int) {
            Some(x) => Ok(x),
            None => Ok(Val::Null),
        },
        (Val::Obj(f), Val::Str(k)) => match fields_get(*f, *k) {
            Some(x) => Ok(x),
            None => Ok(Val::Null),
        },
        _ => Err(Error::Index(v, i)),
    }
}

/// `v` with the location designated by `i` set to `x`.
pub open spec fn set_index(v: Val, i: Val, x: Val) -> Result<Val, Error> {
    match (v, i) {
        (Val::Null, Val::Str(k)) => Ok(Val::Obj(Rc::new(fields_set(Fields::Nil, *k, x)))),
        (Val::Arr(l), Val::Int(n)) => match list_set(*l, n as int, x) {
            Some(l2) => Ok(Val::Arr(Rc::new(l2))),
            None => Err(Error::Index(v, i)),
        },
        (Val::Obj(f), Val::Str(k)) => Ok(Val::Obj(Rc::new(fields_set(*f, *k, x)))),
        _ => Err(Error::Index(v, i)),
    }
}

pub fn text_eq(a: &Text, b: &Text) -> (r: bool)
    ensures
        r == (*a == *b),
    decreases a,
{
    match (a, b) {
        (Text::Nil, Text::Nil) => true,
        (Text::Cons(c, t), Text::Cons(d, u)) => *c == *d && text_eq(&**t, &**u),
        _ => false,
    }
}

pub fn nth(l: &List, i: i64) -> (r: Option<Val>)
    ensures
        r == list_nth(*l, i as int),
    decreases l,
{
    match l {
        List::Nil => None,
        List::Cons(h, t) => if i == 0 {
            Some(h.copy())
        } else if i < 0 {
            None
        } else {
            nth(&**t, i - 1)
        },
    }
}

pub fn replace_nth(l: &List, i: i64, x: Val) -> (r: Option<List>)
    ensures
        r == list_set(*l, i as int, x),
    decreases l,
{
    match l {
        List::Nil => None,
        List::Cons(h, t) => if i == 0 {
            Some(List::Cons(x, t.clone()))
        } else if i < 0 {
            None
        } else {
            match replace_nth(&**t, i - 1, x) {
                Some(t2) => Some(List::Cons(h.copy(), Rc::new(t2))),
                None => None,
            }
        },
    }
}

pub fn get_field(f: &Fields, k: &Text) -> (r: Option<Val>)
    ensures
        r == fields_get(*f, *k),
    decreases f,
{
    match f {
        Fields::Nil => None,
        Fields::Cons(k1, v, t) => if text_eq(&**k1, k) {
            Some(v.copy())
        } else {
            get_field(&**t, k)
        },
    }
}

pub fn set_field(f: &Fields, k: &Rc<Text>, x: Val) -> (r: Fields)
    ensures
        r == fields_set(*f, **k, x),
    decreases f,
{
    match f {
        Fields::Nil => Fields::Cons(k.clone(), x, Rc::new(Fields::Nil)),
        Fields::Cons(k1, v, t) => if text_eq(&**k1, &**k) {
            Fields::Cons(k1.clone(), x, t.clone())
        } else {
            Fields::Cons(k1.clone(), v.copy(), Rc::new(set_field(&**t, k, x)))
        },
    }
}

impl Val {
    /// `self[i]`.
    pub fn index(&self, i: &Val) -> (r: Result<Val, Error>)
        ensures
            r == index(*self, *i),
    {
        match (self, i) {
            (Val::Null, Val::Int(_)) => Ok(Val::Null),
            (Val::Null, Val::Str(_)) => Ok(Val::Null),
            (Val::Arr(l), Val::Int(n)) => match nth(&**l, *n) {
                Some(x) => Ok(x),
                None => Ok(Val::Null),
            },
            (Val::Obj(f), Val::Str(k)) => match get_field(&**f, &**k) {
                Some(x) => Ok(x),
                None => Ok(Val::Null),
            },
            _ => Err(Error::Index(self.copy(), i.copy())),
        }
    }

    /// `self` with the location designated by `i` set to `x`.
    pub fn set_index(&self, i: &Val, x: Val) -> (r: Result<Val, Error>)
        ensures
            r == set_index(*self, *i, x),
    {
        match (self, i) {
            (Val::Null, Val::Str(k)) => Ok(Val::Obj(Rc::new(set_field(&Fields::Nil, k, x)))),
            (Val::Arr(l), Val::Int(n)) => match replace_nth(&**l, *n, x) {
                Some(l2) => Ok(Val::Arr(Rc::new(l2))),
                None => Err(Error::Index(self.copy(), i.copy())),
            },
            (Val::Obj(f), Val::Str(k)) => Ok(Val::Obj(Rc::new(set_field(&**f, k, x)))),
            _ => Err(Error::Index(self.copy(), i.copy())),
        }
    }
}

/// The characters of `a` followed by those of `b`.
pub open spec fn text_cat(a: Text, b: Text) -> Text
    decreases a,
{
    match a {
        Text::Nil => b,
        Text::Cons(c, t) => Text::Cons(c, Rc::new(text_cat(*t, b))),
    }
}

/// The elements of `a` followed by those of `b`.
pub open spec fn list_cat(a: List, b: List) -> List
    decreases a,
{
    match a {
        List::Nil => b,
        List::Cons(h, t) => List::Cons(h, Rc::new(list_cat(*t, b))),
    }
}

/// `x op y` on mathematical integers.
pub open spec fn int_math(op: MathOp, x: int, y: int) -> int {
    match op {
        MathOp::Add => x + y,
        MathOp::Sub => x - y,
        MathOp::Mul => x * y,
    }
}

/// `a op b`: integer arithmetic that fails on overflow; `+` also joins
/// strings and arrays and takes `null` as its neutral element.
pub open spec fn math(a: Val, op: MathOp, b: Val) -> Result<Val, Error> {
    match (a, b) {
        (Val::Int(x), Val::Int(y)) => {
            let z = int_math(op, x as int, y as int);
            if i64::MIN <= z <= i64::MAX {
                Ok(Val::Int(z as i64))
            } else {
                Err(Error::Math(a, op, b))
            }
        },
        (Val::Null, _) if op == MathOp::Add => Ok(b),
        (_, Val::Null) if op == MathOp::Add => Ok(a),
        (Val::Str(x), Val::Str(y)) if op == MathOp::Add => Ok(Val::Str(Rc::new(text_cat(*x, *y)))),
        (Val::Arr(x), Val::Arr(y)) if op == MathOp::Add => Ok(Val::Arr(Rc::new(list_cat(*x, *y)))),
        _ => Err(Error::Math(a, op, b)),
    }
}

/// `-a`, defined on integers only.
pub open spec fn neg(a: Val) -> Result<Val, Error> {
    match a {
        Val::Int(x) if x != i64::MIN => Ok(Val::Int((-x) as i64)),
        _ => Err(Error::Type(a)),
    }
}

/// Position of a value's kind in the order of values.
pub open spec fn rank(a: Val) -> int {
    match a {
        Val::Null => 0,
        Val::Bool(false) => 1,
        Val::Bool(true) => 2,
        Val::Int(_) => 3,
        Val::Str(_) => 4,
        Val::Arr(_) => 5,
        Val::Obj(_) => 6,
    }
}

pub open spec fn sign(x: int, y: int) -> int {
    if x < y {
        -1
    } else if x > y {
        1
    } else {
        0
    }
}

/// Lexicographic order of texts by code point: -1, 0 or 1.
pub open spec fn text_ord(a: Text, b: Text) -> int
    decreases a,
{
    match (a, b) {
        (Text::Nil, Text::Nil) => 0,
        (Text::Nil, _) => -1,
        (_, Text::Nil) => 1,
        (Text::Cons(c, t), Text::Cons(d, u)) => if c != d {
            sign(c as int, d as int)
        } else {
            text_ord(*t, *u)
        },
    }
}

/// The order of values: by kind first, then by content; -1, 0 or 1.
pub open spec fn val_ord(a: Val, b: Val) -> int
    decreases a, 0int,
{
    if rank(a) != rank(b) {
        sign(rank(a), rank(b))
    } else {
        match (a, b) {
            (Val::Int(x), Val::Int(y)) => sign(x as int, y as int),
            (Val::Str(x), Val::Str(y)) => text_ord(*x, *y),
            (Val::Arr(x), Val::Arr(y)) => list_ord(*x, *y),
            (Val::Obj(x), Val::Obj(y)) => fields_ord(*x, *y),
            _ => 0,
        }
    }
}

pub open spec fn list_ord(a: List, b: List) -> int
    decreases a, 1int,
{
    match (a, b) {
        (List::Nil, List::Nil) => 0,
        (List::Nil, _) => -1,
        (_, List::Nil) => 1,
        (List::Cons(x, t), List::Cons(y, u)) => {
            let c = val_ord(x, y);
            if c != 0 {
                c
            } else {
                list_ord(*t, *u)
            }
        },
    }
}

pub open spec fn fields_ord(a: Fields, b: Fields) -> int
    decreases a, 1int,
{
    match (a, b) {
        (Fields::Nil, Fields::Nil) => 0,
        (Fields::Nil, _) => -1,
        (_, Fields::Nil) => 1,
        (Fields::Cons(k, x, t), Fields::Cons(l, y, u)) => {
            let c = text_ord(*k, *l);
            let d = val_ord(x, y);
            if c != 0 {
                c
            } else if d != 0 {
                d
            } else {
                fields_ord(*t, *u)
            }
        },
    }
}

/// `a op b` as a boolean: equality is structural, the order that of `val_ord`.
pub open spec fn cmp(a: Val, op: CmpOp, b: Val) -> bool {
    match op {
        CmpOp::Eq => a == b,
        CmpOp::Ne => a != b,
        CmpOp::Lt => val_ord(a, b) < 0,
        CmpOp::Le => val_ord(a, b) <= 0,
        CmpOp::Gt => val_ord(a, b) > 0,
        CmpOp::Ge => val_ord(a, b) >= 0,
    }
}

pub fn cat_text(a: &Text, b: &Rc<Text>) -> (r: Rc<Text>)
    ensures
        *r == text_cat(*a, **b),
    decreases a,
{
    match a {
        Text::Nil => b.clone(),
        Text::Cons(c, t) => Rc::new(Text::Cons(*c, cat_text(&**t, b))),
    }
}

pub fn cat_list(a: &List, b: &Rc<List>) -> (r: Rc<List>)
    ensures
        *r == list_cat(*a, **b),
    decreases a,
{
    match a {
        List::Nil => b.clone(),
        List::Cons(h, t) => Rc::new(List::Cons(h.copy(), cat_list(&**t, b))),
    }
}

pub fn val_eq(a: &Val, b: &Val) -> (r: bool)
    ensures
        r == (*a == *b),
    decreases a, 0int,
{
    match (a, b) {
        (Val::Null, Val::Null) => true,
        (Val::Bool(x), Val::Bool(y)) => *x == *y,
        (Val::Int(x), Val::Int(y)) => *x == *y,
        (Val::Str(x), Val::Str(y)) => text_eq(&**x, &**y),
        (Val::Arr(x), Val::Arr(y)) => list_eq(&**x, &**y),
        (Val::Obj(x), Val::Obj(y)) => fields_eq(&**x, &**y),
        _ => false,
    }
}

pub fn list_eq(a: &List, b: &List) -> (r: bool)
    ensures
        r == (*a == *b),
    decreases a, 1int,
{
    match (a, b) {
        (List::Nil, List::Nil) => true,
        (List::Cons(x, t), List::Cons(y, u)) => val_eq(x, y) && list_eq(&**t, &**u),
        _ => false,
    }
}

pub fn fields_eq(a: &Fields, b: &Fields) -> (r: bool)
    ensures
        r == (*a == *b),
    decreases a, 1int,
{
    match (a, b) {
        (Fields::Nil, Fields::Nil) => true,
        (Fields::Cons(k, x, t), Fields::Cons(l, y, u)) => text_eq(&**k, &**l) && val_eq(x, y)
            && fields_eq(&**t, &**u),
        _ => false,
    }
}

fn sign_of(x: i64, y: i64) -> (r: i8)
    ensures
        r == sign(x as int, y as int),
{
    if x < y {
        -1
    } else if x > y {
        1
    } else {
        0
    }
}

fn rank_of(a: &Val) -> (r: i64)
    ensures
        r == rank(*a),
{
    match a {
        Val::Null => 0,
        Val::Bool(false) => 1,
        Val::Bool(true) => 2,
        Val::Int(_) => 3,
        Val::Str(_) => 4,
        Val::Arr(_) => 5,
        Val::Obj(_) => 6,
    }
}

fn ord_text(a: &Text, b: &Text) -> (r: i8)
    ensures
        r == text_ord(*a, *b),
    decreases a,
{
    match (a, b) {
        (Text::Nil, Text::Nil) => 0,
        (Text::Nil, _) => -1,
        (_, Text::Nil) => 1,
        (Text::Cons(c, t), Text::Cons(d, u)) => if *c != *d {
            sign_of(*c as i64, *d as i64)
        } else {
            ord_text(&**t, &**u)
        },
    }
}

fn ord_val(a: &Val, b: &Val) -> (r: i8)
    ensures
        r == val_ord(*a, *b),
    decreases a, 0int,
{
    let (ra, rb) = (rank_of(a), rank_of(b));
    if ra != rb {
        sign_of(ra, rb)
    } else {
        match (a, b) {
            (Val::Int(x), Val::Int(y)) => sign_of(*x, *y),
            (Val::Str(x), Val::Str(y)) => ord_text(&**x, &**y),
            (Val::Arr(x), Val::Arr(y)) => ord_list(&**x, &**y),
            (Val::Obj(x), Val::Obj(y)) => ord_fields(&**x, &**y),
            _ => 0,
        }
    }
}

fn ord_list(a: &List, b: &List) -> (r: i8)
    ensures
        r == list_ord(*a, *b),
    decreases a, 1int,
{
    match (a, b) {
        (List::Nil, List::Nil) => 0,
        (List::Nil, _) => -1,
        (_, List::Nil) => 1,
        (List::Cons(x, t), List::Cons(y, u)) => {
            let c = ord_val(x, y);
            if c != 0 {
                c
            } else {
                ord_list(&**t, &**u)
            }
        },
    }
}

fn ord_fields(a: &Fields, b: &Fields) -> (r: i8)
    ensures
        r == fields_ord(*a, *b),
    decreases a, 1int,
{
    match (a, b) {
        (Fields::Nil, Fields::Nil) => 0,
        (Fields::Nil, _) => -1,
        (_, Fields::Nil) => 1,
        (Fields::Cons(k, x, t), Fields::Cons(l, y, u)) => {
            let c = ord_text(&**k, &**l);
            let d = ord_val(x, y);
            if c != 0 {
                c
            } else if d != 0 {
                d
            } else {
                ord_fields(&**t, &**u)
            }
        },
    }
}

/// `a op b`.
pub fn math_op(a: Val, op: MathOp, b: Val) -> (r: Result<Val, Error>)
    ensures
        r == math(a, op, b),
{
    match (&a, &b) {
        (Val::Int(x), Val::Int(y)) => {
            let z = match op {
                MathOp::Add => x.checked_add(*y),
                MathOp::Sub => x.checked_sub(*y),
                MathOp::Mul => x.checked_mul(*y),
            };
            match z {
                Some(z) => Ok(Val::Int(z)),
                None => Err(Error::Math(a, op, b)),
            }
        },
        (Val::Null, _) if op == MathOp::Add => Ok(b),
        (_, Val::Null) if op == MathOp::Add => Ok(a),
        (Val::Str(x), Val::Str(y)) if op == MathOp::Add => Ok(Val::Str(cat_text(&**x, y))),
        (Val::Arr(x), Val::Arr(y)) if op == MathOp::Add => Ok(Val::Arr(cat_list(&**x, y))),
        _ => Err(Error::Math(a, op, b)),
    }
}

/// `-a`.
pub fn neg_op(a: Val) -> (r: Result<Val, Error>)
    ensures
        r == neg(a),
{
    match a {
        Val::Int(x) if x != i64::MIN => Ok(Val::Int(-x)),
        _ => Err(Error::Type(a)),
    }
}

/// `a op b`.
pub fn cmp_op(a: &Val, op: CmpOp, b: &Val) -> (r: bool)
    ensures
        r == cmp(*a, op, *b),
{
    match op {
        CmpOp::Eq => val_eq(a, b),
        CmpOp::Ne => !val_eq(a, b),
        CmpOp::Lt => ord_val(a, b) < 0,
        CmpOp::Le => ord_val(a, b) <= 0,
        CmpOp::Gt => ord_val(a, b) > 0,
        CmpOp::Ge => ord_val(a, b) >= 0,
    }
}

/// The characters of a text.
pub open spec fn text_seq(t: Text) -> Seq<char>
    decreases t,
{
    match t {
        Text::Nil => seq![],
        Text::Cons(c, u) => seq![c] + text_seq(*u),
    }
}

/// The elements of a list.
pub open spec fn list_seq(l: List) -> Seq<Val>
    decreases l,
{
    match l {
        List::Nil => seq![],
        List::Cons(h, t) => seq![h] + list_seq(*t),
    }
}

/// The text of the characters `cs`.
pub fn text_of(cs: &Vec<char>) -> (r: Rc<Text>)
    ensures
        text_seq(*r) == cs@,
{
    let mut t = Rc::new(Text::Nil);
    let mut i = cs.len();
    while i > 0
        invariant
            i <= cs.len(),
            text_seq(*t) == cs@.subrange(i as int, cs.len() as int),
        decreases i,
    {
        i -= 1;
        t = Rc::new(Text::Cons(cs[i], t));
        proof {
            assert(cs@.subrange(i as int, cs.len() as int) =~= seq![cs@[i as int]] + cs@.subrange(
                i + 1,
                cs.len() as int,
            ));
        }
    }
    proof {
        assert(cs@.subrange(0, cs.len() as int) =~= cs@);
    }
    t
}

/// The list of the values `vs`.
pub fn list_of(vs: &Vec<Val>) -> (r: Rc<List>)
    ensures
        list_seq(*r) == vs@,
{
    let mut l = Rc::new(List::Nil);
    let mut i = vs.len();
    while i > 0
        invariant
            i <= vs.len(),
            list_seq(*l) == vs@.subrange(i as int, vs.len() as int),
        decreases i,
    {
        i -= 1;
        l = Rc::new(List::Cons(vs[i].copy(), l));
        proof {
            assert(vs@.subrange(i as int, vs.len() as int) =~= seq![vs@[i as int]] + vs@.subrange(
                i + 1,
                vs.len() as int,
            ));
        }
    }
    proof {
        assert(vs@.subrange(0, vs.len() as int) =~= vs@);
    }
    l
}

} // verus!
