//! C's integer expressions, as far as the programs here write them: how one is spelled, and
//! what it evaluates to.
//!
//! A program's answer is worked out in Rust while its C is written out as text. The laws that
//! tie the two together say that a value is what some expression evaluates to, where that
//! expression is spelled exactly as the text is and is parenthesised the way C's grammar reads
//! it: each operand of an operator binds at least as tightly as the operator, the right one
//! strictly tighter, and a cast applies to a primary expression. C's grammar reads such a text
//! one way only, so the text decides the value.

use vstd::prelude::*;
use vstd::wrapping::u64_specs;
use crate::text::decimal;

verus! {

/// A binary operator of C.
pub enum BinOp {
    Mul,
    Rem,
    Add,
    Sub,
    Shl,
    Shr,
    Lt,
    And,
    Xor,
    Or,
}

/// A type a value is cast to.
pub enum CastTo {
    LongLong,
    Unsigned,
    Int,
}

/// An expression: a variable (by its position among the names), a literal, an unsigned
/// literal (written with a `u` after it), a parenthesised
/// expression, a binary operation, or a cast.
pub enum CExpr {
    Name(u8),
    Num(u64),
    NumU(u64),
    Paren(Box<CExpr>),
    Bin(BinOp, Box<CExpr>, Box<CExpr>),
    Cast(CastTo, Box<CExpr>),
}

/// How C spells an operator.
pub open spec fn symbol(op: BinOp) -> Seq<char> {
    match op {
        BinOp::Mul => "*"@,
        BinOp::Rem => "%"@,
        BinOp::Add => "+"@,
        BinOp::Sub => "-"@,
        BinOp::Shl => "<<"@,
        BinOp::Shr => ">>"@,
        BinOp::Lt => "<"@,
        BinOp::And => "&"@,
        BinOp::Xor => "^"@,
        BinOp::Or => "|"@,
    }
}

/// How tightly an operator binds, in C's order: multiplication and remainder, addition, shifts,
/// comparison, and, exclusive or, or.
pub open spec fn precedence(op: BinOp) -> int {
    match op {
        BinOp::Mul | BinOp::Rem => 6,
        BinOp::Add | BinOp::Sub => 5,
        BinOp::Shl | BinOp::Shr => 4,
        BinOp::Lt => 3,
        BinOp::And => 2,
        BinOp::Xor => 1,
        BinOp::Or => 0,
    }
}

/// How tightly an expression binds as an operand: a binary operation as its operator does,
/// everything else tighter than any operator.
pub open spec fn binding(e: CExpr) -> int {
    match e {
        CExpr::Bin(op, _, _) => precedence(op),
        _ => 9,
    }
}

/// How C spells a cast.
pub open spec fn cast_text(to: CastTo) -> Seq<char> {
    match to {
        CastTo::LongLong => "(long long)"@,
        CastTo::Unsigned => "(unsigned)"@,
        CastTo::Int => "(int)"@,
    }
}

/// The text of an expression, each operator with a space either side.
pub open spec fn spelled(e: CExpr, names: Seq<Seq<char>>) -> Seq<char>
    decreases e,
{
    match e {
        CExpr::Name(i) => names[i as int],
        CExpr::Num(n) => decimal(n as int),
        CExpr::NumU(n) => decimal(n as int) + "u"@,
        CExpr::Paren(inner) => "("@ + spelled(*inner, names) + ")"@,
        CExpr::Bin(op, a, b) => spelled(*a, names) + " "@ + symbol(op) + " "@ + spelled(*b, names),
        CExpr::Cast(to, inner) => cast_text(to) + spelled(*inner, names),
    }
}

/// Whether an expression is parenthesised as C reads its text.
pub open spec fn parsed(e: CExpr) -> bool
    decreases e,
{
    match e {
        CExpr::Name(_) | CExpr::Num(_) | CExpr::NumU(_) => true,
        CExpr::Paren(inner) => parsed(*inner),
        CExpr::Bin(op, a, b) => parsed(*a) && parsed(*b) && binding(*a) >= precedence(op)
            && binding(*b) > precedence(op),
        CExpr::Cast(_, inner) => parsed(*inner) && binding(*inner) == 9,
    }
}

/// Whether an expression is what C reads a text as.
pub open spec fn reads_as(e: CExpr, names: Seq<Seq<char>>, text: Seq<char>) -> bool {
    parsed(e) && spelled(e, names) == text
}

/// What an expression evaluates to in `unsigned long long`, every name holding one: arithmetic
/// modulo two to the sixty four, shifts by less than the width, a comparison one or zero, a
/// cast to a thirty two bit type keeping the low thirty two bits.
pub open spec fn unsigned_value(e: CExpr, env: Seq<u64>) -> u64
    decreases e,
{
    match e {
        CExpr::Name(i) => env[i as int],
        CExpr::Num(n) => n,
        CExpr::NumU(n) => n,
        CExpr::Paren(inner) => unsigned_value(*inner, env),
        CExpr::Bin(op, a, b) => {
            let x = unsigned_value(*a, env);
            let y = unsigned_value(*b, env);
            match op {
                BinOp::Mul => u64_specs::wrapping_mul(x, y),
                BinOp::Rem => if y == 0 { 0 } else { x % y },
                BinOp::Add => u64_specs::wrapping_add(x, y),
                BinOp::Sub => u64_specs::wrapping_sub(x, y),
                BinOp::Shl => if y < 64 { x << y } else { 0 },
                BinOp::Shr => if y < 64 { x >> y } else { 0 },
                BinOp::Lt => if x < y { 1 } else { 0 },
                BinOp::And => x & y,
                BinOp::Xor => x ^ y,
                BinOp::Or => x | y,
            }
        },
        CExpr::Cast(to, inner) => match to {
            CastTo::LongLong => unsigned_value(*inner, env),
            CastTo::Unsigned | CastTo::Int => (unsigned_value(*inner, env) % 0x1_0000_0000) as u64,
        },
    }
}

/// What an expression evaluates to in `int` arithmetic widened to `long long` by its casts, the
/// names holding integers, for the expressions whose every value a `long long` holds: the
/// bitwise operators work on the two's complement bits, a cast to `unsigned` keeps the value
/// modulo two to the thirty two.
pub open spec fn signed_value(e: CExpr, env: Seq<int>) -> int
    decreases e,
{
    match e {
        CExpr::Name(i) => env[i as int],
        CExpr::Num(n) => n as int,
        CExpr::NumU(n) => n as int,
        CExpr::Paren(inner) => signed_value(*inner, env),
        CExpr::Bin(op, a, b) => {
            let x = signed_value(*a, env);
            let y = signed_value(*b, env);
            match op {
                BinOp::Mul => x * y,
                BinOp::Rem => crate::lang::c_remainder(x, y),
                BinOp::Add => x + y,
                BinOp::Sub => x - y,
                BinOp::Shl => ((x as i64) << (y as i64)) as int,
                BinOp::Shr => ((x as i64) >> (y as i64)) as int,
                BinOp::Lt => if x < y { 1 } else { 0 },
                BinOp::And => ((x as i64) & (y as i64)) as int,
                BinOp::Xor => ((x as i64) ^ (y as i64)) as int,
                BinOp::Or => ((x as i64) | (y as i64)) as int,
            }
        },
        CExpr::Cast(to, inner) => match to {
            CastTo::LongLong => signed_value(*inner, env),
            CastTo::Unsigned => signed_value(*inner, env) % 0x1_0000_0000,
            CastTo::Int => crate::lang::Ty::I32.wrap(signed_value(*inner, env)),
        },
    }
}

} // verus!
