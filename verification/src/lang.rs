//! The C integer types the cases are about, and C's arithmetic on them.
//!
//! A value is carried as an `i128`, which holds every value of every type here, and brought
//! back into a type the way C converts: modulo two to the width, read as signed where the
//! type is signed. That is what unsigned arithmetic is defined to do, and what every compiler
//! the corpus is run against does for a signed conversion.

use vstd::prelude::*;
use vstd::arithmetic::div_mod::*;
use vstd::arithmetic::power2::{pow2, lemma2_to64, lemma_pow2_pos, lemma_pow2_strictly_increases, lemma_pow2_unfold};
use crate::text::{decimal, push_decimal, push_digits};

verus! {

/// One of the C integer types.
#[derive(Clone, Copy, Debug, PartialEq, Eq, Structural)]
pub enum Ty {
    I8,
    U8,
    I16,
    U16,
    I32,
    U32,
    I64,
    U64,
}

impl Ty {
    /// How many bits a value of the type has.
    pub open spec fn width(self) -> nat {
        match self {
            Ty::I8 | Ty::U8 => 8,
            Ty::I16 | Ty::U16 => 16,
            Ty::I32 | Ty::U32 => 32,
            Ty::I64 | Ty::U64 => 64,
        }
    }

    /// Whether the type has a sign.
    pub open spec fn is_signed(self) -> bool {
        match self {
            Ty::I8 | Ty::I16 | Ty::I32 | Ty::I64 => true,
            _ => false,
        }
    }

    /// Two to the width: how many values the type has.
    pub open spec fn modulus(self) -> int {
        match self {
            Ty::I8 | Ty::U8 => 0x100,
            Ty::I16 | Ty::U16 => 0x1_0000,
            Ty::I32 | Ty::U32 => 0x1_0000_0000,
            Ty::I64 | Ty::U64 => 0x1_0000_0000_0000_0000,
        }
    }

    /// The least value of the type.
    pub open spec fn lowest(self) -> int {
        if self.is_signed() { -(self.modulus() / 2) } else { 0 }
    }

    /// The greatest value of the type.
    pub open spec fn highest(self) -> int {
        if self.is_signed() { self.modulus() / 2 - 1 } else { self.modulus() - 1 }
    }

    /// Whether a value is one of the type's.
    pub open spec fn contains(self, v: int) -> bool {
        self.lowest() <= v <= self.highest()
    }

    /// A value converted to the type: reduced modulo two to the width, and read as negative
    /// when the type is signed and the top bit is set.
    pub open spec fn wrap(self, v: int) -> int {
        let m = v % self.modulus();
        if m > self.highest() { m - self.modulus() } else { m }
    }

    /// The type a value of this type is promoted to before arithmetic.
    pub open spec fn promotion(self) -> Ty {
        match self {
            Ty::I8 | Ty::U8 | Ty::I16 | Ty::U16 => Ty::I32,
            other => other,
        }
    }

    /// The short name the axes use.
    pub open spec fn name_text(self) -> Seq<char> {
        match self {
            Ty::I8 => "i8"@,
            Ty::U8 => "u8"@,
            Ty::I16 => "i16"@,
            Ty::U16 => "u16"@,
            Ty::I32 => "i32"@,
            Ty::U32 => "u32"@,
            Ty::I64 => "i64"@,
            Ty::U64 => "u64"@,
        }
    }

    /// How the type is spelled in C.
    pub open spec fn c_text(self) -> Seq<char> {
        match self {
            Ty::I8 => "signed char"@,
            Ty::U8 => "unsigned char"@,
            Ty::I16 => "short"@,
            Ty::U16 => "unsigned short"@,
            Ty::I32 => "int"@,
            Ty::U32 => "unsigned int"@,
            Ty::I64 => "long long"@,
            Ty::U64 => "unsigned long long"@,
        }
    }

    /// The suffix a literal of the type carries.
    pub open spec fn suffix_text(self) -> Seq<char> {
        match self {
            Ty::I8 | Ty::I16 | Ty::I32 => Seq::empty(),
            Ty::U8 | Ty::U16 | Ty::U32 => "u"@,
            Ty::I64 => "ll"@,
            Ty::U64 => "ull"@,
        }
    }

    /// The `printf` conversion a value of the type is printed with, after the cast of
    /// [`Self::cast_text`]. Everything goes out through the widest type of its sign, so the
    /// width of the type under test never shows in the text.
    pub open spec fn format_text(self) -> Seq<char> {
        if self.is_signed() { "%lld"@ } else { "%llu"@ }
    }

    /// The cast in front of a printed value.
    pub open spec fn cast_text(self) -> Seq<char> {
        if self.is_signed() { "(long long)"@ } else { "(unsigned long long)"@ }
    }

    /// A value written as a C literal of the type.
    ///
    /// A negative value is parenthesized, so it can stand after a cast. The least value of
    /// `int` and of `long long` is written as the greatest minus one, since its magnitude is
    /// not a literal of the type.
    pub open spec fn literal_text(self, v: int) -> Seq<char> {
        if v >= 0 {
            decimal(v) + self.suffix_text()
        } else if (self == Ty::I32 || self == Ty::I64) && v == self.lowest() {
            "(-"@ + decimal(self.highest()) + self.suffix_text() + " - 1)"@
        } else {
            "(-"@ + decimal(-v) + self.suffix_text() + ")"@
        }
    }

    /// How many bits the type has.
    pub fn bits(self) -> (r: u32)
        ensures
            r == self.width(),
    {
        match self {
            Ty::I8 | Ty::U8 => 8,
            Ty::I16 | Ty::U16 => 16,
            Ty::I32 | Ty::U32 => 32,
            Ty::I64 | Ty::U64 => 64,
        }
    }

    /// Whether the type is signed.
    pub fn signed(self) -> (r: bool)
        ensures
            r == self.is_signed(),
    {
        match self {
            Ty::I8 | Ty::I16 | Ty::I32 | Ty::I64 => true,
            _ => false,
        }
    }

    /// The least value of the type.
    pub fn min(self) -> (r: i128)
        ensures
            r == self.lowest(),
    {
        match self {
            Ty::I8 => -0x80,
            Ty::I16 => -0x8000,
            Ty::I32 => -0x8000_0000,
            Ty::I64 => -0x8000_0000_0000_0000,
            _ => 0,
        }
    }

    /// The greatest value of the type.
    pub fn max(self) -> (r: i128)
        ensures
            r == self.highest(),
    {
        match self {
            Ty::I8 => 0x7f,
            Ty::U8 => 0xff,
            Ty::I16 => 0x7fff,
            Ty::U16 => 0xffff,
            Ty::I32 => 0x7fff_ffff,
            Ty::U32 => 0xffff_ffff,
            Ty::I64 => 0x7fff_ffff_ffff_ffff,
            Ty::U64 => 0xffff_ffff_ffff_ffff,
        }
    }

    /// Whether the type holds a value.
    pub fn holds(self, v: i128) -> (r: bool)
        ensures
            r == self.contains(v as int),
    {
        self.min() <= v && v <= self.max()
    }

    /// The type a value of this type is promoted to.
    pub fn promoted(self) -> (r: Ty)
        ensures
            r == self.promotion(),
    {
        match self {
            Ty::I8 | Ty::U8 | Ty::I16 | Ty::U16 => Ty::I32,
            other => other,
        }
    }

    /// A value converted to the type, the way C converts it.
    pub fn convert(self, v: i128) -> (r: i128)
        ensures
            r == self.wrap(v as int),
    {
        let m: u128 = match self {
            Ty::I8 | Ty::U8 => 0x100,
            Ty::I16 | Ty::U16 => 0x1_0000,
            Ty::I32 | Ty::U32 => 0x1_0000_0000,
            Ty::I64 | Ty::U64 => 0x1_0000_0000_0000_0000,
        };
        let reduced: u128 = if v >= 0 {
            (v as u128) % m
        } else {
            let below: u128 = (-(v + 1)) as u128;
            proof {
                lemma_mod_of_negative(below as int, m as int);
            }
            m - 1 - below % m
        };
        assert(reduced as int == (v as int) % self.modulus());
        let reduced = reduced as i128;
        if reduced > self.max() {
            reduced - (m as i128)
        } else {
            reduced
        }
    }

    /// The short name the axes use.
    pub fn name(self) -> (r: &'static str)
        ensures
            r@ == self.name_text(),
    {
        match self {
            Ty::I8 => "i8",
            Ty::U8 => "u8",
            Ty::I16 => "i16",
            Ty::U16 => "u16",
            Ty::I32 => "i32",
            Ty::U32 => "u32",
            Ty::I64 => "i64",
            Ty::U64 => "u64",
        }
    }

    /// How the type is spelled in C.
    pub fn c_name(self) -> (r: &'static str)
        ensures
            r@ == self.c_text(),
    {
        match self {
            Ty::I8 => "signed char",
            Ty::U8 => "unsigned char",
            Ty::I16 => "short",
            Ty::U16 => "unsigned short",
            Ty::I32 => "int",
            Ty::U32 => "unsigned int",
            Ty::I64 => "long long",
            Ty::U64 => "unsigned long long",
        }
    }

    /// The suffix a literal of the type carries.
    pub fn suffix(self) -> (r: &'static str)
        ensures
            r@ == self.suffix_text(),
    {
        match self {
            Ty::I8 | Ty::I16 | Ty::I32 => {
                proof {
                    reveal_strlit("");
                }
                ""
            },
            Ty::U8 | Ty::U16 | Ty::U32 => "u",
            Ty::I64 => "ll",
            Ty::U64 => "ull",
        }
    }

    /// The `printf` conversion for a value of the type.
    pub fn print_spec(self) -> (r: &'static str)
        ensures
            r@ == self.format_text(),
    {
        if self.signed() { "%lld" } else { "%llu" }
    }

    /// The cast in front of a printed value of the type.
    pub fn print_cast(self) -> (r: &'static str)
        ensures
            r@ == self.cast_text(),
    {
        if self.signed() { "(long long)" } else { "(unsigned long long)" }
    }

    /// A value written as a C literal of the type.
    pub fn literal(self, v: i128) -> (r: String)
        ensures
            r@ == self.literal_text(v as int),
    {
        let mut out = String::new();
        if v >= 0 {
            push_decimal(&mut out, v);
            out.append(self.suffix());
            assert(out@ =~= self.literal_text(v as int));
        } else if (self == Ty::I32 || self == Ty::I64) && v == self.min() {
            out.append("(-");
            push_decimal(&mut out, self.max());
            out.append(self.suffix());
            out.append(" - 1)");
            assert(out@ =~= self.literal_text(v as int));
        } else {
            out.append("(-");
            push_digits(&mut out, ((-(v + 1)) as u128) + 1);
            out.append(self.suffix());
            out.append(")");
            assert(out@ =~= self.literal_text(v as int));
        }
        out
    }
}

/// Reducing a negative number: `-(a + 1)` modulo `m` is `m - 1 - a % m`.
proof fn lemma_mod_of_negative(a: int, m: int)
    requires
        a >= 0,
        m > 0,
    ensures
        (-(a + 1)) % m == m - 1 - a % m,
{
    lemma_fundamental_div_mod(a, m);
    let q = a / m;
    let r = a % m;
    lemma_mod_bound(a, m);
    assert(-(a + 1) == (-q - 1) * m + (m - 1 - r)) by (nonlinear_arith)
        requires
            a == m * q + r,
    ;
    lemma_fundamental_div_mod_converse(-(a + 1), m, -q - 1, m - 1 - r);
}

/// Converting to a type always gives one of its values.
pub proof fn lemma_wrap_is_contained(ty: Ty, v: int)
    ensures
        ty.contains(ty.wrap(v)),
{
    lemma_mod_bound(v, ty.modulus());
}

/// A value the type already holds is left alone by the conversion.
pub proof fn lemma_wrap_keeps_contained(ty: Ty, v: int)
    requires
        ty.contains(v),
    ensures
        ty.wrap(v) == v,
{
    if v >= 0 {
        lemma_small_mod(v as nat, ty.modulus() as nat);
    } else {
        lemma_mod_of_negative(-v - 1, ty.modulus());
        lemma_small_mod((-v - 1) as nat, ty.modulus() as nat);
    }
}

/// Converting twice is converting once.
pub proof fn lemma_wrap_idempotent(ty: Ty, v: int)
    ensures
        ty.wrap(ty.wrap(v)) == ty.wrap(v),
{
    lemma_wrap_is_contained(ty, v);
    lemma_wrap_keeps_contained(ty, ty.wrap(v));
}

/// Two values a whole number of moduli apart convert to the same value: the conversion
/// only sees a value modulo two to the width.
pub proof fn lemma_wrap_periodic(ty: Ty, v: int, k: int)
    ensures
        ty.wrap(v + k * ty.modulus()) == ty.wrap(v),
{
    lemma_mod_multiples_vanish(k, v, ty.modulus());
    assert(k * ty.modulus() + v == v + k * ty.modulus());
}

/// Promotion never narrows: every value of a type is a value of the type it promotes to.
pub proof fn lemma_promotion_widens(ty: Ty, v: int)
    requires
        ty.contains(v),
    ensures
        ty.promotion().contains(v),
{
}

/// The magnitude of an integer.
pub open spec fn magnitude(a: int) -> int {
    if a >= 0 {
        a
    } else {
        -a
    }
}

/// C's `/`: the quotient rounded towards zero.
pub open spec fn c_quotient(a: int, b: int) -> int {
    if (a >= 0) == (b > 0) || a == 0 {
        magnitude(a) / magnitude(b)
    } else {
        -(magnitude(a) / magnitude(b))
    }
}

/// C's `%`: what is left, with the sign of the dividend.
pub open spec fn c_remainder(a: int, b: int) -> int {
    if a >= 0 {
        magnitude(a) % magnitude(b)
    } else {
        -(magnitude(a) % magnitude(b))
    }
}

/// C's division identity: the quotient times the divisor, plus the remainder, is the dividend,
/// and the remainder is smaller than the divisor.
pub proof fn lemma_division_identity(a: int, b: int)
    requires
        b != 0,
    ensures
        c_quotient(a, b) * b + c_remainder(a, b) == a,
        magnitude(c_remainder(a, b)) < magnitude(b),
{
    let ma = magnitude(a);
    let mb = magnitude(b);
    lemma_fundamental_div_mod(ma, mb);
    lemma_mod_bound(ma, mb);
    let q = ma / mb;
    let r = ma % mb;
    assert(ma == mb * q + r);
    if a == 0 {
        assert(q == 0 && r == 0) by {
            vstd::arithmetic::div_mod::lemma_basic_div(0, mb);
            lemma_small_mod(0, mb as nat);
        }
        assert(c_quotient(a, b) * b == 0) by (nonlinear_arith)
            requires
                c_quotient(a, b) == 0,
        ;
    } else if a > 0 && b > 0 {
        assert(c_quotient(a, b) * b + c_remainder(a, b) == a) by (nonlinear_arith)
            requires
                c_quotient(a, b) == q,
                c_remainder(a, b) == r,
                mb == b,
                ma == a,
                ma == mb * q + r,
        ;
    } else if a > 0 && b < 0 {
        assert(c_quotient(a, b) * b + c_remainder(a, b) == a) by (nonlinear_arith)
            requires
                c_quotient(a, b) == -q,
                c_remainder(a, b) == r,
                mb == -b,
                ma == a,
                ma == mb * q + r,
        ;
    } else if a < 0 && b > 0 {
        assert(c_quotient(a, b) * b + c_remainder(a, b) == a) by (nonlinear_arith)
            requires
                c_quotient(a, b) == -q,
                c_remainder(a, b) == -r,
                mb == b,
                ma == -a,
                ma == mb * q + r,
        ;
    } else {
        assert(c_quotient(a, b) * b + c_remainder(a, b) == a) by (nonlinear_arith)
            requires
                c_quotient(a, b) == q,
                c_remainder(a, b) == -r,
                mb == -b,
                ma == -a,
                ma == mb * q + r,
        ;
    }
}

/// Dividing a value of a type by anything at least two in size, of a sign the type allows,
/// gives a quotient and a remainder the type holds: the division never overflows, so doing it
/// in the type's own arithmetic, which wraps into the type, gives the same two numbers.
pub proof fn lemma_division_stays_in_type(ty: Ty, a: int, b: int)
    requires
        ty.contains(a),
        magnitude(b) >= 2,
        !ty.is_signed() ==> b > 0,
    ensures
        ty.contains(c_quotient(a, b)),
        ty.contains(c_remainder(a, b)),
        ty.wrap(c_quotient(a, b)) == c_quotient(a, b),
        ty.wrap(c_remainder(a, b)) == c_remainder(a, b),
{
    let ma = magnitude(a);
    let mb = magnitude(b);
    lemma_fundamental_div_mod(ma, mb);
    lemma_mod_bound(ma, mb);
    let q = ma / mb;
    let r = ma % mb;
    assert(q >= 0) by {
        vstd::arithmetic::div_mod::lemma_div_pos_is_pos(ma, mb);
    }
    assert(2 * q <= ma && r <= ma) by (nonlinear_arith)
        requires
            ma == mb * q + r,
            q >= 0,
            r >= 0,
            mb >= 2,
    ;
    assert(ty.modulus() >= 0x100);
    lemma_wrap_keeps_contained(ty, c_quotient(a, b));
    lemma_wrap_keeps_contained(ty, c_remainder(a, b));
}

/// C's `/` on two values, for a divisor that is not zero.
pub fn c_divide(a: i128, b: i128) -> (r: i128)
    requires
        b != 0,
        -0x1_0000_0000_0000_0000 <= a <= 0x1_0000_0000_0000_0000,
    ensures
        r == c_quotient(a as int, b as int),
{
    let ma: u128 = if a >= 0 { a as u128 } else { (-a) as u128 };
    let mb: u128 = if b > 0 { b as u128 } else { ((-(b + 1)) as u128) + 1 };
    let q = ma / mb;
    proof {
        vstd::arithmetic::div_mod::lemma_div_is_ordered_by_denominator(ma as int, 1, mb as int);
        vstd::arithmetic::div_mod::lemma_div_basics(ma as int);
    }
    if (a >= 0) == (b > 0) || a == 0 {
        q as i128
    } else {
        -(q as i128)
    }
}

/// C's `%` on two values, for a divisor that is not zero.
pub fn c_modulo(a: i128, b: i128) -> (r: i128)
    requires
        b != 0,
        -0x1_0000_0000_0000_0000 <= a <= 0x1_0000_0000_0000_0000,
    ensures
        r == c_remainder(a as int, b as int),
{
    let ma: u128 = if a >= 0 { a as u128 } else { (-a) as u128 };
    let mb: u128 = if b > 0 { b as u128 } else { ((-(b + 1)) as u128) + 1 };
    let m = ma % mb;
    proof {
        lemma_mod_bound(ma as int, mb as int);
    }
    if a >= 0 {
        m as i128
    } else {
        -(m as i128)
    }
}

/// The types a facet walks when it is about arithmetic at the width of a register: `int` and
/// wider, in both signednesses.
pub open spec fn wide_types() -> Seq<Ty> {
    seq![Ty::I32, Ty::U32, Ty::I64, Ty::U64]
}

/// The types a facet walks when it is about arithmetic at the width of a register.
pub fn wide() -> (r: Vec<Ty>)
    ensures
        r@ == wide_types(),
{
    let r = vec![Ty::I32, Ty::U32, Ty::I64, Ty::U64];
    assert(r@ =~= wide_types());
    r
}

/// Every type, narrowest first, each unsigned after its signed twin.
pub open spec fn all_types() -> Seq<Ty> {
    seq![Ty::I8, Ty::U8, Ty::I16, Ty::U16, Ty::I32, Ty::U32, Ty::I64, Ty::U64]
}

/// Every type, narrowest first.
pub fn all() -> (r: Vec<Ty>)
    ensures
        r@ == all_types(),
{
    let r = vec![Ty::I8, Ty::U8, Ty::I16, Ty::U16, Ty::I32, Ty::U32, Ty::I64, Ty::U64];
    assert(r@ =~= all_types());
    r
}

/// An operator of C on integers, the ones whose answer the generators work out ahead of the
/// compiler. `Not` and `Neg` are the unary ones; they ignore their second operand.
#[derive(Clone, Copy, Debug, PartialEq, Eq, Structural)]
pub enum Op {
    Add,
    Sub,
    Mul,
    Div,
    Rem,
    And,
    Or,
    Xor,
    Shl,
    Shr,
    Not,
    Neg,
}

impl Op {
    /// The short name the axes use.
    pub open spec fn name_text(self) -> Seq<char> {
        match self {
            Op::Add => "add"@,
            Op::Sub => "sub"@,
            Op::Mul => "mul"@,
            Op::Div => "div"@,
            Op::Rem => "rem"@,
            Op::And => "and"@,
            Op::Or => "or"@,
            Op::Xor => "xor"@,
            Op::Shl => "shl"@,
            Op::Shr => "shr"@,
            Op::Not => "not"@,
            Op::Neg => "neg"@,
        }
    }

    /// The short name the axes use.
    pub fn name(self) -> (r: &'static str)
        ensures
            r@ == self.name_text(),
    {
        match self {
            Op::Add => "add",
            Op::Sub => "sub",
            Op::Mul => "mul",
            Op::Div => "div",
            Op::Rem => "rem",
            Op::And => "and",
            Op::Or => "or",
            Op::Xor => "xor",
            Op::Shl => "shl",
            Op::Shr => "shr",
            Op::Not => "not",
            Op::Neg => "neg",
        }
    }

    /// How C spells the operator.
    pub open spec fn spelling_text(self) -> Seq<char> {
        match self {
            Op::Add => "+"@,
            Op::Sub => "-"@,
            Op::Mul => "*"@,
            Op::Div => "/"@,
            Op::Rem => "%"@,
            Op::And => "&"@,
            Op::Or => "|"@,
            Op::Xor => "^"@,
            Op::Shl => "<<"@,
            Op::Shr => ">>"@,
            Op::Not => "~"@,
            Op::Neg => "-"@,
        }
    }

    /// How C spells the operator.
    pub fn spelling(self) -> (r: &'static str)
        ensures
            r@ == self.spelling_text(),
    {
        match self {
            Op::Add => "+",
            Op::Sub => "-",
            Op::Mul => "*",
            Op::Div => "/",
            Op::Rem => "%",
            Op::And => "&",
            Op::Or => "|",
            Op::Xor => "^",
            Op::Shl => "<<",
            Op::Shr => ">>",
            Op::Not => "~",
            Op::Neg => "-",
        }
    }

    /// Whether the operator takes one operand.
    pub open spec fn unary(self) -> bool {
        self == Op::Not || self == Op::Neg
    }

    /// Whether the operator takes one operand.
    pub fn is_unary(self) -> (r: bool)
        ensures
            r == self.unary(),
    {
        match self {
            Op::Not | Op::Neg => true,
            _ => false,
        }
    }

    /// Whether the operator is a shift, whose right operand is a count.
    pub open spec fn shift(self) -> bool {
        self == Op::Shl || self == Op::Shr
    }

    /// Whether the operator is a shift.
    pub fn is_shift(self) -> (r: bool)
        ensures
            r == self.shift(),
    {
        match self {
            Op::Shl | Op::Shr => true,
            _ => false,
        }
    }
}

/// Every operator, in the order the folding facet writes them.
pub open spec fn all_ops() -> Seq<Op> {
    seq![
        Op::Add,
        Op::Sub,
        Op::Mul,
        Op::Div,
        Op::Rem,
        Op::And,
        Op::Or,
        Op::Xor,
        Op::Shl,
        Op::Shr,
        Op::Not,
        Op::Neg,
    ]
}

/// Every operator, in the order the folding facet writes them.
pub fn ops() -> (r: Vec<Op>)
    ensures
        r@ == all_ops(),
{
    let r = vec![
        Op::Add,
        Op::Sub,
        Op::Mul,
        Op::Div,
        Op::Rem,
        Op::And,
        Op::Or,
        Op::Xor,
        Op::Shl,
        Op::Shr,
        Op::Not,
        Op::Neg,
    ];
    assert(r@ =~= all_ops());
    r
}

/// The type an operator's answer has: both operands are promoted first, and for these
/// operators the answer has the promoted type.
pub open spec fn result_type(op: Op, ty: Ty) -> Ty {
    ty.promotion()
}

/// The type an operator's answer has.
pub fn result_ty(op: Op, ty: Ty) -> (r: Ty)
    ensures
        r == result_type(op, ty),
{
    ty.promoted()
}

/// An arithmetic answer in the promoted type `p`: undefined when a signed type cannot hold it,
/// reduced modulo two to the width when the type is unsigned.
pub open spec fn arithmetic_in(p: Ty, exact: int) -> Option<int> {
    if p.is_signed() {
        if p.contains(exact) {
            Some(exact)
        } else {
            None
        }
    } else {
        Some(p.wrap(exact))
    }
}

/// What a C expression `l op r` on two values of type `ty` evaluates to, or `None` where C
/// gives it no one answer: an overflow of a signed type, a division by zero, a remainder whose
/// quotient overflows, a shift by a negative count or by the width of the promoted type or
/// more, a left shift of a negative value, and a right shift of a negative value, whose answer
/// C leaves to the implementation. `~l` is the complement of `l` in the promoted type, and `-l`
/// its negation there.
pub open spec fn c_value(op: Op, ty: Ty, l: i128, r: i128) -> Option<int> {
    let p = ty.promotion();
    match op {
        Op::Add => arithmetic_in(p, l + r),
        Op::Sub => arithmetic_in(p, l - r),
        Op::Mul => arithmetic_in(p, l * r),
        Op::Div => if r == 0 {
            None
        } else {
            arithmetic_in(p, c_quotient(l as int, r as int))
        },
        Op::Rem => if r == 0 || arithmetic_in(p, c_quotient(l as int, r as int)) is None {
            None
        } else {
            Some(c_remainder(l as int, r as int))
        },
        Op::And => Some(p.wrap((l & r) as int)),
        Op::Or => Some(p.wrap((l | r) as int)),
        Op::Xor => Some(p.wrap((l ^ r) as int)),
        Op::Shl => if r < 0 || r >= p.width() || (p.is_signed() && l < 0) {
            None
        } else {
            arithmetic_in(p, l * pow2(r as nat))
        },
        Op::Shr => if r < 0 || r >= p.width() || l < 0 {
            None
        } else {
            Some((l as int) / (pow2(r as nat) as int))
        },
        Op::Not => Some(p.wrap(-l - 1)),
        Op::Neg => arithmetic_in(p, -l),
    }
}

/// Two to the power `e`.
fn power_of_two(e: i128) -> (r: u128)
    requires
        0 <= e < 64,
    ensures
        r == pow2(e as nat),
        1 <= r <= 0x8000_0000_0000_0000,
{
    let mut r: u128 = 1;
    let mut i: i128 = 0;
    proof {
        lemma2_to64();
        vstd::arithmetic::power2::lemma2_to64_rest();
        assert(pow2(0) == 1);
        if e < 63 {
            lemma_pow2_strictly_increases(e as nat, 63);
        }
    }
    while i < e
        invariant
            0 <= i <= e < 64,
            r == pow2(i as nat),
            pow2(e as nat) <= 0x8000_0000_0000_0000,
        decreases e - i,
    {
        proof {
            lemma_pow2_unfold((i + 1) as nat);
            if i + 1 < e {
                lemma_pow2_strictly_increases((i + 1) as nat, e as nat);
            }
        }
        r = r * 2;
        i += 1;
    }
    proof {
        lemma_pow2_pos(e as nat);
    }
    r
}

/// An arithmetic answer brought into the promoted type, or `None` where it overflows a signed
/// one.
fn arithmetic(p: Ty, exact: i128) -> (r: Option<i128>)
    ensures
        r == match arithmetic_in(p, exact as int) {
            Some(v) => Some(v as i128),
            None => None::<i128>,
        },
        arithmetic_in(p, exact as int) is Some ==> arithmetic_in(p, exact as int)->0 == r->0,
{
    if p.signed() {
        if p.holds(exact) {
            Some(exact)
        } else {
            None
        }
    } else {
        Some(p.convert(exact))
    }
}

/// Evaluates `l op r` the way C does on two values of type `ty`: both promoted, the answer in
/// the promoted type, `None` where the answer is undefined.
pub fn eval(op: Op, ty: Ty, l: i128, r: i128) -> (v: Option<i128>)
    requires
        ty.contains(l as int),
        ty.contains(r as int),
    ensures
        v is Some <==> c_value(op, ty, l, r) is Some,
        v is Some ==> v->0 == c_value(op, ty, l, r)->0,
{
    let p = ty.promoted();
    match op {
        Op::Add => arithmetic(p, l + r),
        Op::Sub => arithmetic(p, l - r),
        Op::Mul => {
            if p == Ty::U64 {
                let a = l as u128;
                let b = r as u128;
                assert(a * b < 0x1_0000_0000_0000_0000 * 0x1_0000_0000_0000_0000) by (nonlinear_arith)
                    requires
                        a < 0x1_0000_0000_0000_0000,
                        b < 0x1_0000_0000_0000_0000,
                ;
                let product = a * b;
                let low = (product % 0x1_0000_0000_0000_0000) as i128;
                proof {
                    lemma_small_mod(low as nat, 0x1_0000_0000_0000_0000);
                    assert(p.wrap(l * r) == low);
                }
                Some(low)
            } else {
                assert(-0x8000_0000_0000_0000 * 0x8000_0000_0000_0000 <= l * r <= 0x8000_0000_0000_0000
                    * 0x8000_0000_0000_0000) by (nonlinear_arith)
                    requires
                        -0x8000_0000_0000_0000 <= l <= 0x8000_0000_0000_0000,
                        -0x8000_0000_0000_0000 <= r <= 0x8000_0000_0000_0000,
                ;
                arithmetic(p, l * r)
            }
        },
        Op::Div => {
            if r == 0 {
                None
            } else {
                arithmetic(p, c_divide(l, r))
            }
        },
        Op::Rem => {
            if r == 0 {
                None
            } else {
                match arithmetic(p, c_divide(l, r)) {
                    None => None,
                    Some(_) => Some(c_modulo(l, r)),
                }
            }
        },
        Op::And => Some(p.convert(l & r)),
        Op::Or => Some(p.convert(l | r)),
        Op::Xor => Some(p.convert(l ^ r)),
        Op::Shl => {
            if r < 0 || r >= p.bits() as i128 || (p.signed() && l < 0) {
                None
            } else {
                let pw = power_of_two(r);
                let a = l as u128;
                assert(a * pw <= 0xffff_ffff_ffff_ffff * 0x8000_0000_0000_0000) by (nonlinear_arith)
                    requires
                        a <= 0xffff_ffff_ffff_ffff,
                        pw <= 0x8000_0000_0000_0000,
                ;
                let product = a * pw;
                arithmetic(p, product as i128)
            }
        },
        Op::Shr => {
            if r < 0 || r >= p.bits() as i128 || l < 0 {
                None
            } else {
                let pw = power_of_two(r);
                let a = l as u128;
                let q = a / pw;
                assert(q <= a) by {
                    vstd::arithmetic::div_mod::lemma_div_is_ordered_by_denominator(a as int, 1, pw as int);
                }
                Some(q as i128)
            }
        },
        Op::Not => Some(p.convert(-l - 1)),
        Op::Neg => arithmetic(p, -l),
    }
}

/// The unsigned type of the same width, for the cases about mixed signedness; an unsigned type,
/// and the widest signed one, are left as they are.
pub fn unsigned_twin(ty: Ty) -> (r: Ty)
    ensures
        r.width() == ty.width(),
        ty.is_signed() && ty != Ty::I64 ==> !r.is_signed(),
        !ty.is_signed() || ty == Ty::I64 ==> r == ty,
{
    match ty {
        Ty::I8 => Ty::U8,
        Ty::I16 => Ty::U16,
        Ty::I32 => Ty::U32,
        other => other,
    }
}

/// The signed type of the same width; a signed type, and the widest unsigned one, are left as
/// they are.
pub fn signed_twin(ty: Ty) -> (r: Ty)
    ensures
        r.width() == ty.width(),
        !ty.is_signed() && ty != Ty::U64 ==> r.is_signed(),
        ty.is_signed() || ty == Ty::U64 ==> r == ty,
{
    match ty {
        Ty::U8 => Ty::I8,
        Ty::U16 => Ty::I16,
        Ty::U32 => Ty::I32,
        other => other,
    }
}

} // verus!
