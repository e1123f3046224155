//! The JSON text of a value, as `tostring` gives it for non-strings.
use crate::val::{text_seq, Error, Fields, List, MathOp, Text, Val};
use std::rc::Rc;
use vstd::prelude::*;

verus! {

/// The characters of a shared text.
pub open spec fn chars(t: &Rc<Text>) -> Seq<char> {
    text_seq(**t)
}

/// The decimal digit for `d`.
pub open spec fn digit(d: nat) -> char {
    if d == 0 { '0' }
    else if d == 1 { '1' }
    else if d == 2 { '2' }
    else if d == 3 { '3' }
    else if d == 4 { '4' }
    else if d == 5 { '5' }
    else if d == 6 { '6' }
    else if d == 7 { '7' }
    else if d == 8 { '8' }
    else if d == 9 { '9' }
    else if d == 10 { 'a' }
    else if d == 11 { 'b' }
    else if d == 12 { 'c' }
    else if d == 13 { 'd' }
    else if d == 14 { 'e' }
    else { 'f' }
}

/// The decimal digits of `n`, most significant first.
pub open spec fn digits(n: nat) -> Seq<char>
    decreases n,
{
    if n < 10 {
        seq![digit(n)]
    } else {
        digits(n / 10) + seq![digit(n % 10)]
    }
}

/// How a character stands inside a JSON string.
pub open spec fn escape_char(c: char) -> Seq<char> {
    if c == '"' {
        seq!['\\', '"']
    } else if c == '\\' {
        seq!['\\', '\\']
    } else if c == '\n' {
        seq!['\\', 'n']
    } else if c == '\t' {
        seq!['\\', 't']
    } else if c == '\r' {
        seq!['\\', 'r']
    } else if (c as u32) < 32 {
        seq!['\\', 'u', '0', '0', digit((c as u32 / 16) as nat), digit((c as u32 % 16) as nat)]
    } else {
        seq![c]
    }
}

/// The characters of a text, escaped for a JSON string.
pub open spec fn escaped(t: Text) -> Seq<char>
    decreases t,
{
    match t {
        Text::Nil => seq![],
        Text::Cons(c, u) => escape_char(c) + escaped(*u),
    }
}

/// A text as a JSON string literal.
pub open spec fn quoted(t: Text) -> Seq<char> {
    seq!['"'] + escaped(t) + seq!['"']
}

/// The JSON text of a value.
pub open spec fn json(v: Val) -> Seq<char>
    decreases v, 0int,
{
    match v {
        Val::Null => seq!['n', 'u', 'l', 'l'],
        Val::Bool(true) => seq!['t', 'r', 'u', 'e'],
        Val::Bool(false) => seq!['f', 'a', 'l', 's', 'e'],
        Val::Int(n) => if n < 0 {
            seq!['-'] + digits((-n) as nat)
        } else {
            digits(n as nat)
        },
        Val::Str(t) => quoted(*t),
        Val::Arr(l) => seq!['['] + json_items(*l, true) + seq![']'],
        Val::Obj(f) => seq!['{'] + json_members(*f, true) + seq!['}'],
    }
}

/// The elements of an array in JSON, separated by commas.
pub open spec fn json_items(l: List, first: bool) -> Seq<char>
    decreases l, 1int,
{
    match l {
        List::Nil => seq![],
        List::Cons(h, t) => (if first { seq![] } else { seq![','] }) + json(h) + json_items(*t, false),
    }
}

/// The fields of an object in JSON, separated by commas.
pub open spec fn json_members(f: Fields, first: bool) -> Seq<char>
    decreases f, 1int,
{
    match f {
        Fields::Nil => seq![],
        Fields::Cons(k, v, t) => (if first { seq![] } else { seq![','] }) + quoted(*k) + seq![':']
            + json(v) + json_members(*t, false),
    }
}

fn digit_char(d: u32) -> (c: char)
    requires
        d < 16,
    ensures
        c == digit(d as nat),
{
    if d == 0 { '0' }
    else if d == 1 { '1' }
    else if d == 2 { '2' }
    else if d == 3 { '3' }
    else if d == 4 { '4' }
    else if d == 5 { '5' }
    else if d == 6 { '6' }
    else if d == 7 { '7' }
    else if d == 8 { '8' }
    else if d == 9 { '9' }
    else if d == 10 { 'a' }
    else if d == 11 { 'b' }
    else if d == 12 { 'c' }
    else if d == 13 { 'd' }
    else if d == 14 { 'e' }
    else { 'f' }
}

fn push(c: char, tail: Rc<Text>) -> (r: Rc<Text>)
    ensures
        text_seq(*r) == seq![c] + text_seq(*tail),
{
    Rc::new(Text::Cons(c, tail))
}

/// The digits of `n` in front of `tail`.
fn write_digits(n: u64, tail: Rc<Text>) -> (r: Rc<Text>)
    ensures
        text_seq(*r) == digits(n as nat) + text_seq(*tail),
    decreases n,
{
    if n < 10 {
        push(digit_char(n as u32), tail)
    } else {
        let d = digit_char((n % 10) as u32);
        let r = write_digits(n / 10, push(d, tail));
        proof {
            assert(digits(n as nat) == digits((n / 10) as nat) + seq![digit((n % 10) as nat)]);
            assert(digits((n / 10) as nat) + (seq![d] + text_seq(*tail)) =~= digits(n as nat)
                + text_seq(*tail));
        }
        r
    }
}

/// The escaped form of `c` in front of `tail`.
fn write_char(c: char, tail: Rc<Text>) -> (r: Rc<Text>)
    ensures
        text_seq(*r) == escape_char(c) + text_seq(*tail),
{
    let ghost s = chars(&tail);
    let r = if c == '"' {
        push('\\', push('"', tail))
    } else if c == '\\' {
        push('\\', push('\\', tail))
    } else if c == '\n' {
        push('\\', push('n', tail))
    } else if c == '\t' {
        push('\\', push('t', tail))
    } else if c == '\r' {
        push('\\', push('r', tail))
    } else if (c as u32) < 32 {
        let hi = digit_char(c as u32 / 16);
        let lo = digit_char(c as u32 % 16);
        push('\\', push('u', push('0', push('0', push(hi, push(lo, tail))))))
    } else {
        push(c, tail)
    };
    proof {
        assert(text_seq(*r) =~= escape_char(c) + s);
    }
    r
}

/// The escaped characters of `t` in front of `tail`.
fn write_escaped(t: &Text, tail: Rc<Text>) -> (r: Rc<Text>)
    ensures
        text_seq(*r) == escaped(*t) + text_seq(*tail),
    decreases t,
{
    match t {
        Text::Nil => {
            proof {
                assert(escaped(*t) + text_seq(*tail) =~= text_seq(*tail));
            }
            tail
        },
        Text::Cons(c, u) => {
            let rest = write_escaped(&**u, tail);
            let r = write_char(*c, rest);
            proof {
                assert(escape_char(*c) + (escaped(**u) + text_seq(*tail)) =~= escaped(*t)
                    + text_seq(*tail));
            }
            r
        },
    }
}

/// The string literal of `t` in front of `tail`.
fn write_quoted(t: &Text, tail: Rc<Text>) -> (r: Rc<Text>)
    ensures
        text_seq(*r) == quoted(*t) + text_seq(*tail),
{
    let ghost s = chars(&tail);
    let r = push('"', write_escaped(t, push('"', tail)));
    proof {
        assert(text_seq(*r) =~= quoted(*t) + s);
    }
    r
}

/// The JSON text of `v` in front of `tail`.
fn write_val(v: &Val, tail: Rc<Text>) -> (r: Rc<Text>)
    ensures
        text_seq(*r) == json(*v) + text_seq(*tail),
    decreases v, 0int,
{
    let ghost s = chars(&tail);
    let r = match v {
        Val::Null => push('n', push('u', push('l', push('l', tail)))),
        Val::Bool(true) => push('t', push('r', push('u', push('e', tail)))),
        Val::Bool(false) => push('f', push('a', push('l', push('s', push('e', tail))))),
        Val::Int(n) => if *n < 0 {
            let m: u64 = if *n == i64::MIN {
                9223372036854775808u64
            } else {
                (-*n) as u64
            };
            push('-', write_digits(m, tail))
        } else {
            write_digits(*n as u64, tail)
        },
        Val::Str(t) => write_quoted(&**t, tail),
        Val::Arr(l) => push('[', write_items(&**l, true, push(']', tail))),
        Val::Obj(f) => push('{', write_members(&**f, true, push('}', tail))),
    };
    proof {
        assert(text_seq(*r) =~= json(*v) + s);
    }
    r
}

fn write_items(l: &List, first: bool, tail: Rc<Text>) -> (r: Rc<Text>)
    ensures
        text_seq(*r) == json_items(*l, first) + text_seq(*tail),
    decreases l, 1int,
{
    let ghost s = chars(&tail);
    match l {
        List::Nil => {
            proof {
                assert(json_items(*l, first) + s =~= s);
            }
            tail
        },
        List::Cons(h, t) => {
            let rest = write_items(&**t, false, tail);
            let x = write_val(h, rest);
            let r = if first {
                x
            } else {
                push(',', x)
            };
            proof {
                assert(text_seq(*r) =~= json_items(*l, first) + s);
            }
            r
        },
    }
}

fn write_members(f: &Fields, first: bool, tail: Rc<Text>) -> (r: Rc<Text>)
    ensures
        text_seq(*r) == json_members(*f, first) + text_seq(*tail),
    decreases f, 1int,
{
    let ghost s = chars(&tail);
    match f {
        Fields::Nil => {
            proof {
                assert(json_members(*f, first) + s =~= s);
            }
            tail
        },
        Fields::Cons(k, v, t) => {
            let rest = write_members(&**t, false, tail);
            let x = write_quoted(&**k, push(':', write_val(v, rest)));
            let r = if first {
                x
            } else {
                push(',', x)
            };
            proof {
                assert(text_seq(*r) =~= json_members(*f, first) + s);
            }
            r
        },
    }
}

/// The text of the characters `s`.
pub open spec fn text_from(s: Seq<char>) -> Text
    decreases s.len(),
{
    if s.len() == 0 {
        Text::Nil
    } else {
        Text::Cons(s[0], Rc::new(text_from(s.drop_first())))
    }
}

/// A text is the text of its characters.
pub proof fn text_from_chars(t: &Text)
    ensures
        text_from(text_seq(*t)) == *t,
    decreases t,
{
    if let Text::Cons(c, u) = t {
        text_from_chars(&**u);
        assert(text_seq(*t).drop_first() =~= text_seq(**u));
    }
}

/// `tostring`: a string as it is, any other value as its JSON text.
pub open spec fn to_string(v: Val) -> Val {
    match v {
        Val::Str(_) => v,
        _ => Val::Str(Rc::new(text_from(json(v)))),
    }
}

/// The JSON text of `v`.
pub fn to_json(v: &Val) -> (r: Rc<Text>)
    ensures
        text_seq(*r) == json(*v),
        *r == text_from(json(*v)),
{
    let r = write_val(v, Rc::new(Text::Nil));
    proof {
        assert(json(*v) + seq![] =~= json(*v));
        text_from_chars(&*r);
    }
    r
}

/// `tostring` on `v`.
pub fn to_string_op(v: Val) -> (r: Val)
    ensures
        r == to_string(v),
{
    match v {
        Val::Str(_) => v,
        _ => Val::Str(to_json(&v)),
    }
}

} // verus!

verus! {

pub open spec fn words_type() -> Seq<char> {
    seq!['c', 'a', 'n', 'n', 'o', 't', ' ', 'u', 's', 'e', ' ']
}

pub open spec fn words_index() -> Seq<char> {
    seq!['c', 'a', 'n', 'n', 'o', 't', ' ', 'i', 'n', 'd', 'e', 'x', ' ']
}

pub open spec fn words_with() -> Seq<char> {
    seq![' ', 'w', 'i', 't', 'h', ' ']
}

pub open spec fn words_math() -> Seq<char> {
    seq!['c', 'a', 'n', 'n', 'o', 't', ' ', 'c', 'o', 'm', 'p', 'u', 't', 'e', ' ']
}

pub open spec fn words_key() -> Seq<char> {
    seq!['o', 'b', 'j', 'e', 'c', 't', ' ', 'k', 'e', 'y', ' ', 'i', 's', ' ', 'n', 'o', 't', ' ', 'a', ' ', 's', 't', 'r', 'i', 'n', 'g', ':', ' ']
}

pub open spec fn words_path() -> Seq<char> {
    seq!['i', 'n', 'v', 'a', 'l', 'i', 'd', ' ', 'p', 'a', 't', 'h', ' ', 'e', 'x', 'p', 'r', 'e', 's', 's', 'i', 'o', 'n']
}

pub open spec fn words_unbound() -> Seq<char> {
    seq!['u', 'n', 'b', 'o', 'u', 'n', 'd', ' ', 'r', 'e', 'f', 'e', 'r', 'e', 'n', 'c', 'e']
}

/// The character of an arithmetic operator.
pub open spec fn op_char(op: MathOp) -> char {
    match op {
        MathOp::Add => '+',
        MathOp::Sub => '-',
        MathOp::Mul => '*',
    }
}

/// A description of an error.
pub open spec fn message(e: Error) -> Seq<char> {
    match e {
        Error::Val(v) => json(v),
        Error::Type(v) => words_type() + json(v),
        Error::Index(v, i) => words_index() + json(v) + words_with() + json(i),
        Error::Math(a, op, b) => words_math() + json(a) + seq![' ', op_char(op), ' '] + json(b),
        Error::Key(k) => words_key() + json(k),
        Error::PathExpr => words_path(),
        Error::Unbound => words_unbound(),
    }
}

/// The value that `catch` receives for an error: the value that the program
/// raised, or else a string that describes the error.
pub open spec fn caught(e: Error) -> Val {
    match e {
        Error::Val(v) => v,
        _ => Val::Str(Rc::new(text_from(message(e)))),
    }
}

/// The characters `cs` in front of `tail`.
fn write_chars(cs: &Vec<char>, tail: Rc<Text>) -> (r: Rc<Text>)
    ensures
        text_seq(*r) == cs@ + text_seq(*tail),
{
    let ghost s = chars(&tail);
    let mut t = tail;
    let mut i = cs.len();
    while i > 0
        invariant
            i <= cs.len(),
            text_seq(*t) == cs@.subrange(i as int, cs.len() as int) + s,
        decreases i,
    {
        i -= 1;
        t = push(cs[i], t);
        proof {
            assert(cs@.subrange(i as int, cs.len() as int) =~= seq![cs@[i as int]] + cs@.subrange(
                i + 1,
                cs.len() as int,
            ));
        }
    }
    proof {
        assert(cs@.subrange(0, cs.len() as int) =~= cs@);
    }
    t
}

fn write_words_type(tail: Rc<Text>) -> (r: Rc<Text>)
    ensures
        text_seq(*r) == words_type() + text_seq(*tail),
{
    let cs: Vec<char> = vec!['c', 'a', 'n', 'n', 'o', 't', ' ', 'u', 's', 'e', ' '];
    proof {
        assert(cs@ == words_type());
    }
    write_chars(&cs, tail)
}

fn write_words_index(tail: Rc<Text>) -> (r: Rc<Text>)
    ensures
        text_seq(*r) == words_index() + text_seq(*tail),
{
    let cs: Vec<char> = vec!['c', 'a', 'n', 'n', 'o', 't', ' ', 'i', 'n', 'd', 'e', 'x', ' '];
    proof {
        assert(cs@ == words_index());
    }
    write_chars(&cs, tail)
}

fn write_words_with(tail: Rc<Text>) -> (r: Rc<Text>)
    ensures
        text_seq(*r) == words_with() + text_seq(*tail),
{
    let cs: Vec<char> = vec![' ', 'w', 'i', 't', 'h', ' '];
    proof {
        assert(cs@ == words_with());
    }
    write_chars(&cs, tail)
}

fn write_words_math(tail: Rc<Text>) -> (r: Rc<Text>)
    ensures
        text_seq(*r) == words_math() + text_seq(*tail),
{
    let cs: Vec<char> = vec!['c', 'a', 'n', 'n', 'o', 't', ' ', 'c', 'o', 'm', 'p', 'u', 't', 'e', ' '];
    proof {
        assert(cs@ == words_math());
    }
    write_chars(&cs, tail)
}

fn write_words_key(tail: Rc<Text>) -> (r: Rc<Text>)
    ensures
        text_seq(*r) == words_key() + text_seq(*tail),
{
    let cs: Vec<char> = vec!['o', 'b', 'j', 'e', 'c', 't', ' ', 'k', 'e', 'y', ' ', 'i', 's', ' ', 'n', 'o', 't', ' ', 'a', ' ', 's', 't', 'r', 'i', 'n', 'g', ':', ' '];
    proof {
        assert(cs@ == words_key());
    }
    write_chars(&cs, tail)
}

fn write_words_path(tail: Rc<Text>) -> (r: Rc<Text>)
    ensures
        text_seq(*r) == words_path() + text_seq(*tail),
{
    let cs: Vec<char> = vec!['i', 'n', 'v', 'a', 'l', 'i', 'd', ' ', 'p', 'a', 't', 'h', ' ', 'e', 'x', 'p', 'r', 'e', 's', 's', 'i', 'o', 'n'];
    proof {
        assert(cs@ == words_path());
    }
    write_chars(&cs, tail)
}

fn write_words_unbound(tail: Rc<Text>) -> (r: Rc<Text>)
    ensures
        text_seq(*r) == words_unbound() + text_seq(*tail),
{
    let cs: Vec<char> = vec!['u', 'n', 'b', 'o', 'u', 'n', 'd', ' ', 'r', 'e', 'f', 'e', 'r', 'e', 'n', 'c', 'e'];
    proof {
        assert(cs@ == words_unbound());
    }
    write_chars(&cs, tail)
}

fn write_message(e: &Error, tail: Rc<Text>) -> (r: Rc<Text>)
    ensures
        text_seq(*r) == message(*e) + text_seq(*tail),
{
    let ghost s = chars(&tail);
    let r = match e {
        Error::Val(v) => write_val(v, tail),
        Error::Type(v) => write_words_type(write_val(v, tail)),
        Error::Index(v, i) => write_words_index(write_val(v, write_words_with(write_val(i, tail)))),
        Error::Math(a, op, b) => {
            let c = match op {
                MathOp::Add => '+',
                MathOp::Sub => '-',
                MathOp::Mul => '*',
            };
            write_words_math(write_val(a, push(' ', push(c, push(' ', write_val(b, tail))))))
        },
        Error::Key(k) => write_words_key(write_val(k, tail)),
        Error::PathExpr => write_words_path(tail),
        Error::Unbound => write_words_unbound(tail),
    };
    proof {
        assert(text_seq(*r) =~= message(*e) + s);
    }
    r
}

/// The value that `catch` receives for `e`.
pub fn caught_val(e: Error) -> (r: Val)
    ensures
        r == caught(e),
{
    match e {
        Error::Val(v) => v,
        _ => {
            let t = write_message(&e, Rc::new(Text::Nil));
            proof {
                assert(message(e) + seq![] =~= message(e));
                text_from_chars(&*t);
            }
            Val::Str(t)
        },
    }
}

} // verus!
