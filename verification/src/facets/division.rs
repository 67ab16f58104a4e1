//! Divisions by a constant, done often enough that a `div` against a multiply shows in the
//! clock, and pointer subtractions whose division is exact.
//!
//! Every case draws its dividends from one generator, walks them a thousand times, and adds up
//! the answers in `unsigned long long`, which is how C converts a signed answer.

use vstd::prelude::*;
use vstd::string::*;
use vstd::wrapping::u64_specs;
use crate::emit::{Program, input_global, input_read, indent, print_line};
use crate::lang::{Ty, c_quotient, c_remainder, c_divide, c_modulo};
use crate::text::{decimal};
use crate::facets::{Case, axis, tags_for};
use crate::text::decimal_string;

verus! {

/// How many generator states a division case draws before it starts dividing.
pub const DIVISION_STREAM: u32 = 2048;

/// How many times a division case walks its states: two million divisions in all.
pub const DIVISION_ROUNDS: u32 = 1024;

/// The seed the division cases start from, read through a `volatile` so nothing folds.
pub const DIVISION_SEED: u64 = 7;

/// The multiplier of the generator the dividends come from, Knuth's MMIX constant.
pub const MMIX_MUL: u64 = 6_364_136_223_846_793_005;

/// The addend of that generator.
pub const MMIX_ADD: u64 = 1_442_695_040_888_963_407;

/// One step of the dividend generator, in `unsigned long long`.
pub open spec fn mmix(state: u64) -> u64 {
    u64_specs::wrapping_add(u64_specs::wrapping_mul(state, MMIX_MUL), MMIX_ADD)
}

/// The generator's state after `k` steps from `seed`.
pub open spec fn mmix_after(seed: u64, k: nat) -> u64
    decreases k,
{
    if k == 0 {
        seed
    } else {
        mmix(mmix_after(seed, (k - 1) as nat))
    }
}

/// The generator the division cases draw their dividends from.
pub fn next_state(state: u64) -> (r: u64)
    ensures
        r == mmix(state),
{
    state.wrapping_mul(MMIX_MUL).wrapping_add(MMIX_ADD)
}

/// A type a program divides at, and how its dividend is drawn from a state.
///
/// The narrow ones are divided as `int`, which is how C promotes them. The widened ones are
/// sixty four bit divisions of a value that fits in thirty two. The last two could be anything.
#[derive(Clone, Copy, Debug, PartialEq, Eq, Structural)]
pub enum Dividend {
    U8,
    I8,
    U16,
    I16,
    U32,
    I32,
    U32Widened,
    I32Widened,
    U64,
    I64,
}

impl Dividend {
    /// The axis value.
    pub open spec fn name_text(self) -> Seq<char> {
        match self {
            Dividend::U8 => "u8"@,
            Dividend::I8 => "i8"@,
            Dividend::U16 => "u16"@,
            Dividend::I16 => "i16"@,
            Dividend::U32 => "u32"@,
            Dividend::I32 => "i32"@,
            Dividend::U32Widened => "u32-widened"@,
            Dividend::I32Widened => "i32-widened"@,
            Dividend::U64 => "u64"@,
            Dividend::I64 => "i64"@,
        }
    }

    /// The C that declares `x` from `state`.
    pub open spec fn declare_text(self) -> Seq<char> {
        match self {
            Dividend::U8 => "unsigned char x = (unsigned char)(state >> 33);"@,
            Dividend::I8 => "signed char x = (signed char)(state >> 33);"@,
            Dividend::U16 => "unsigned short x = (unsigned short)(state >> 33);"@,
            Dividend::I16 => "short x = (short)(state >> 33);"@,
            Dividend::U32 => "unsigned x = (unsigned)(state >> 32);"@,
            Dividend::I32 => "int x = (int)(state >> 32);"@,
            Dividend::U32Widened => "unsigned long long x = (unsigned)(state >> 32);"@,
            Dividend::I32Widened => "long long x = (int)(state >> 32);"@,
            Dividend::U64 => "unsigned long long x = state;"@,
            Dividend::I64 => "long long x = (long long)state;"@,
        }
    }

    /// Whether a negative divisor means anything for it.
    pub open spec fn is_signed(self) -> bool {
        match self {
            Dividend::I8 | Dividend::I16 | Dividend::I32 | Dividend::I32Widened
            | Dividend::I64 => true,
            _ => false,
        }
    }

    /// The value `x` gets from a state, as C converts it.
    pub open spec fn value_of(self, state: u64) -> int {
        match self {
            Dividend::U8 => Ty::U8.wrap((state >> 33u64) as int),
            Dividend::I8 => Ty::I8.wrap((state >> 33u64) as int),
            Dividend::U16 => Ty::U16.wrap((state >> 33u64) as int),
            Dividend::I16 => Ty::I16.wrap((state >> 33u64) as int),
            Dividend::U32 | Dividend::U32Widened => Ty::U32.wrap((state >> 32u64) as int),
            Dividend::I32 | Dividend::I32Widened => Ty::I32.wrap((state >> 32u64) as int),
            Dividend::U64 => state as int,
            Dividend::I64 => Ty::I64.wrap(state as int),
        }
    }

    /// The axis value.
    pub fn name(self) -> (r: &'static str)
        ensures
            r@ == self.name_text(),
    {
        match self {
            Dividend::U8 => "u8",
            Dividend::I8 => "i8",
            Dividend::U16 => "u16",
            Dividend::I16 => "i16",
            Dividend::U32 => "u32",
            Dividend::I32 => "i32",
            Dividend::U32Widened => "u32-widened",
            Dividend::I32Widened => "i32-widened",
            Dividend::U64 => "u64",
            Dividend::I64 => "i64",
        }
    }

    /// The C that declares `x` from `state`.
    pub fn declare(self) -> (r: &'static str)
        ensures
            r@ == self.declare_text(),
    {
        match self {
            Dividend::U8 => "unsigned char x = (unsigned char)(state >> 33);",
            Dividend::I8 => "signed char x = (signed char)(state >> 33);",
            Dividend::U16 => "unsigned short x = (unsigned short)(state >> 33);",
            Dividend::I16 => "short x = (short)(state >> 33);",
            Dividend::U32 => "unsigned x = (unsigned)(state >> 32);",
            Dividend::I32 => "int x = (int)(state >> 32);",
            Dividend::U32Widened => "unsigned long long x = (unsigned)(state >> 32);",
            Dividend::I32Widened => "long long x = (int)(state >> 32);",
            Dividend::U64 => "unsigned long long x = state;",
            Dividend::I64 => "long long x = (long long)state;",
        }
    }

    /// Whether a negative divisor means anything for it.
    pub fn signed(self) -> (r: bool)
        ensures
            r == self.is_signed(),
    {
        match self {
            Dividend::I8 | Dividend::I16 | Dividend::I32 | Dividend::I32Widened
            | Dividend::I64 => true,
            _ => false,
        }
    }

    /// The value `x` gets from a state.
    pub fn value(self, state: u64) -> (r: i128)
        ensures
            r == self.value_of(state),
            -0x1_0000_0000_0000_0000 < r < 0x1_0000_0000_0000_0000,
    {
        let high = (state >> 33u64) as i128;
        let top = (state >> 32u64) as i128;
        let r = match self {
            Dividend::U8 => Ty::U8.convert(high),
            Dividend::I8 => Ty::I8.convert(high),
            Dividend::U16 => Ty::U16.convert(high),
            Dividend::I16 => Ty::I16.convert(high),
            Dividend::U32 | Dividend::U32Widened => Ty::U32.convert(top),
            Dividend::I32 | Dividend::I32Widened => Ty::I32.convert(top),
            Dividend::U64 => state as i128,
            Dividend::I64 => Ty::I64.convert(state as i128),
        };
        proof {
            crate::lang::lemma_wrap_is_contained(Ty::U8, high as int);
            crate::lang::lemma_wrap_is_contained(Ty::I8, high as int);
            crate::lang::lemma_wrap_is_contained(Ty::U16, high as int);
            crate::lang::lemma_wrap_is_contained(Ty::I16, high as int);
            crate::lang::lemma_wrap_is_contained(Ty::U32, top as int);
            crate::lang::lemma_wrap_is_contained(Ty::I32, top as int);
            crate::lang::lemma_wrap_is_contained(Ty::I64, state as int);
        }
        r
    }
}

/// Every width a division happens at, with both signs.
pub open spec fn all_dividends() -> Seq<Dividend> {
    seq![
        Dividend::U8,
        Dividend::I8,
        Dividend::U16,
        Dividend::I16,
        Dividend::U32,
        Dividend::I32,
        Dividend::U32Widened,
        Dividend::I32Widened,
        Dividend::U64,
        Dividend::I64,
    ]
}

/// Every width a division happens at, with both signs.
pub fn dividends() -> (r: Vec<Dividend>)
    ensures
        r@ == all_dividends(),
{
    let r = vec![
        Dividend::U8,
        Dividend::I8,
        Dividend::U16,
        Dividend::I16,
        Dividend::U32,
        Dividend::I32,
        Dividend::U32Widened,
        Dividend::I32Widened,
        Dividend::U64,
        Dividend::I64,
    ];
    assert(r@ =~= all_dividends());
    r
}

/// What C's division or remainder gives.
pub open spec fn division_answer(x: int, divisor: int, remainder: bool) -> int {
    if remainder {
        c_remainder(x, divisor)
    } else {
        c_quotient(x, divisor)
    }
}

/// What the first `n` states of one walk add up to, each answer converted to
/// `unsigned long long` the way C converts it.
pub open spec fn division_pass(dividend: Dividend, divisor: int, remainder: bool, n: nat) -> u64
    decreases n,
{
    if n == 0 {
        0
    } else {
        u64_specs::wrapping_add(
            division_pass(dividend, divisor, remainder, (n - 1) as nat),
            Ty::U64.wrap(
                division_answer(
                    dividend.value_of(mmix_after(DIVISION_SEED, n)),
                    divisor,
                    remainder,
                ),
            ) as u64,
        )
    }
}

/// The type `x` is declared with in the C, and so the type whose own arithmetic divides it.
pub open spec fn own_ty(dividend: Dividend) -> Ty {
    match dividend {
        Dividend::U8 => Ty::U8,
        Dividend::I8 => Ty::I8,
        Dividend::U16 => Ty::U16,
        Dividend::I16 => Ty::I16,
        Dividend::U32 => Ty::U32,
        Dividend::I32 => Ty::I32,
        Dividend::U32Widened | Dividend::U64 => Ty::U64,
        Dividend::I32Widened | Dividend::I64 => Ty::I64,
    }
}

/// The same walk done in the dividend's own type: each answer is what that type's division or
/// remainder gives, which wraps into the type, and is then taken as `unsigned long long`.
pub open spec fn own_type_pass(dividend: Dividend, divisor: int, remainder: bool, n: nat) -> u64
    decreases n,
{
    if n == 0 {
        0
    } else {
        u64_specs::wrapping_add(
            own_type_pass(dividend, divisor, remainder, (n - 1) as nat),
            Ty::U64.wrap(
                own_ty(dividend).wrap(
                    division_answer(
                        dividend.value_of(mmix_after(DIVISION_SEED, n)),
                        divisor,
                        remainder,
                    ),
                ),
            ) as u64,
        )
    }
}

proof fn lemma_own_type_pass(dividend: Dividend, j: int, remainder: bool, n: nat)
    requires
        0 <= j < 4,
        divisor_value(j) < 0 ==> dividend.is_signed(),
    ensures
        own_type_pass(dividend, divisor_value(j), remainder, n) == division_pass(
            dividend,
            divisor_value(j),
            remainder,
            n,
        ),
    decreases n,
{
    if n > 0 {
        lemma_own_type_pass(dividend, j, remainder, (n - 1) as nat);
        let x = dividend.value_of(mmix_after(DIVISION_SEED, n));
        lemma_value_in_own_type(dividend, mmix_after(DIVISION_SEED, n));
        crate::lang::lemma_division_stays_in_type(own_ty(dividend), x, divisor_value(j));
    }
}

/// What a division case prints is what the walk gives when every division is done in the
/// dividend's own type: for each of the divisors, with a negative one only on a signed type,
/// no division overflows its type, so every step and every total is the same.
pub proof fn lemma_division_is_the_types_own(dividend: Dividend, j: int, remainder: bool)
    requires
        0 <= j < 4,
        divisor_value(j) < 0 ==> dividend.is_signed(),
    ensures
        forall|n: nat|
            #[trigger] own_type_pass(dividend, divisor_value(j), remainder, n) == division_pass(
                dividend,
                divisor_value(j),
                remainder,
                n,
            ),
        division_total(dividend, divisor_value(j), remainder) == u64_specs::wrapping_mul(
            own_type_pass(dividend, divisor_value(j), remainder, DIVISION_STREAM as nat),
            DIVISION_ROUNDS as u64,
        ),
{
    assert forall|n: nat|
        #[trigger] own_type_pass(dividend, divisor_value(j), remainder, n) == division_pass(
            dividend,
            divisor_value(j),
            remainder,
            n,
        ) by {
        lemma_own_type_pass(dividend, j, remainder, n);
    }
}

proof fn lemma_value_in_own_type(dividend: Dividend, state: u64)
    ensures
        own_ty(dividend).contains(dividend.value_of(state)),
{
    let high = (state >> 33u64) as int;
    let top = (state >> 32u64) as int;
    crate::lang::lemma_wrap_is_contained(Ty::U8, high);
    crate::lang::lemma_wrap_is_contained(Ty::I8, high);
    crate::lang::lemma_wrap_is_contained(Ty::U16, high);
    crate::lang::lemma_wrap_is_contained(Ty::I16, high);
    crate::lang::lemma_wrap_is_contained(Ty::U32, top);
    crate::lang::lemma_wrap_is_contained(Ty::I32, top);
    crate::lang::lemma_wrap_is_contained(Ty::I64, state as int);
}

/// What a division case prints: one walk's total, once for every round.
pub open spec fn division_total(dividend: Dividend, divisor: int, remainder: bool) -> u64 {
    u64_specs::wrapping_mul(
        division_pass(dividend, divisor, remainder, DIVISION_STREAM as nat),
        DIVISION_ROUNDS as u64,
    )
}

/// What a division case adds up, worked out the way the C works it out.
///
/// Every round walks the same states, so one walk times the rounds is the answer.
pub fn divided(dividend: Dividend, divisor: i128, remainder: bool) -> (r: u64)
    requires
        divisor != 0,
    ensures
        r == division_total(dividend, divisor as int, remainder),
{
    let mut state = DIVISION_SEED;
    let mut pass: u64 = 0;
    let mut i: u32 = 0;
    while i < DIVISION_STREAM
        invariant
            i <= DIVISION_STREAM,
            divisor != 0,
            state == mmix_after(DIVISION_SEED, i as nat),
            pass == division_pass(dividend, divisor as int, remainder, i as nat),
        decreases DIVISION_STREAM - i,
    {
        state = next_state(state);
        let x = dividend.value(state);
        let answer = if remainder {
            c_modulo(x, divisor)
        } else {
            c_divide(x, divisor)
        };
        let wrapped = Ty::U64.convert(answer);
        proof {
            crate::lang::lemma_wrap_is_contained(Ty::U64, answer as int);
        }
        pass = pass.wrapping_add(wrapped as u64);
        i += 1;
    }
    pass.wrapping_mul(DIVISION_ROUNDS as u64)
}

/// The lines of the walk every division case shares: the states drawn from the seed, and the
/// rounds that walk them with `state` holding the one this step divides.
pub open spec fn walk_lines() -> Seq<Seq<char>> {
    seq![
        input_read(Ty::U64, "seed"@),
        Seq::<char>::empty(),
        indent(1) + "static unsigned long long states[2048];"@,
        indent(1) + "unsigned long long drawn = seed;"@,
        indent(1) + "for (int i = 0; i < 2048; i++) {"@,
        indent(2) + "drawn = drawn * 6364136223846793005ull + 1442695040888963407ull;"@,
        indent(2) + "states[i] = drawn;"@,
        indent(1) + "}"@,
        indent(1) + "for (int round = 0; round < 1024; round++) {"@,
        indent(2) + "for (int i = 0; i < 2048; i++) {"@,
        indent(3) + "unsigned long long state = states[i];"@,
    ]
}

/// Writes the part every division case shares.
pub fn division_walk(program: &mut Program)
    ensures
        final(program).top_lines() == old(program).top_lines().push(
            input_global(Ty::U64, "seed"@, DIVISION_SEED as int),
        ),
        final(program).body_lines() == old(program).body_lines() + walk_lines(),
        final(program).expected_values() == old(program).expected_values(),
        final(program).purpose_text() == old(program).purpose_text(),
        final(program).include_lines() == old(program).include_lines(),
        final(program).sinks() == old(program).sinks(),
{
    let ghost body0 = program.body_lines();
    program.input(Ty::U64, "seed", DIVISION_SEED as i128);
    program.blank();
    program.line("static unsigned long long states[2048];");
    program.line("unsigned long long drawn = seed;");
    program.line("for (int i = 0; i < 2048; i++) {");
    program.line_at(1, "drawn = drawn * 6364136223846793005ull + 1442695040888963407ull;");
    program.line_at(1, "states[i] = drawn;");
    program.line("}");
    program.line("for (int round = 0; round < 1024; round++) {");
    program.line_at(1, "for (int i = 0; i < 2048; i++) {");
    program.line_at(2, "unsigned long long state = states[i];");
    assert(program.body_lines() =~~= body0 + walk_lines());
}

/// The divisors, by index: seven needs the extra add at thirty two bits and ten does not,
/// eight is a shift, and minus seven is the signed rewrite with the answer negated.
pub open spec fn divisor_value(j: int) -> int {
    if j == 0 {
        7
    } else if j == 1 {
        10
    } else if j == 2 {
        8
    } else {
        -7
    }
}

/// The axis value each divisor is written as.
pub open spec fn divisor_name(j: int) -> Seq<char> {
    if j == 0 {
        "7"@
    } else if j == 1 {
        "10"@
    } else if j == 2 {
        "8"@
    } else {
        "minus-7"@
    }
}

/// The axis value of the operation.
pub open spec fn op_name(remainder: bool) -> Seq<char> {
    if remainder {
        "remainder"@
    } else {
        "quotient"@
    }
}

/// The C operator of the operation.
pub open spec fn op_spelling(remainder: bool) -> Seq<char> {
    if remainder {
        "%"@
    } else {
        "/"@
    }
}

/// The `main` of a division case.
pub open spec fn division_body(dividend: Dividend, divisor: int, remainder: bool) -> Seq<
    Seq<char>,
> {
    seq![indent(1) + "unsigned long long total = 0;"@] + walk_lines() + seq![
        indent(3) + dividend.declare_text(),
        indent(3) + "total += (unsigned long long)(x "@ + op_spelling(remainder) + " ("@ + decimal(
            divisor,
        ) + "));"@,
        indent(2) + "}"@,
        indent(1) + "}"@,
        Seq::<char>::empty(),
        print_line(1, Ty::U64, "total"@),
    ]
}

/// Whether a case is the division of a width by a divisor, whole.
pub open spec fn is_division_case(c: Case, dividend: Dividend, j: int, remainder: bool) -> bool {
    let divisor = divisor_value(j);
    &&& c.axes_text() == seq![
        ("type"@, dividend.name_text()),
        ("divisor"@, divisor_name(j)),
        ("op"@, op_name(remainder)),
    ]
    &&& c.tags_text() == Seq::<Seq<char>>::empty()
    &&& c.program.purpose_text() == "the "@ + op_name(remainder) + " of "@ + dividend.name_text()
        + " values by "@ + decimal(divisor) + ", done many times"@
    &&& c.program.include_lines() == Seq::<Seq<char>>::empty()
    &&& c.program.top_lines() == seq![input_global(Ty::U64, "seed"@, DIVISION_SEED as int)]
    &&& c.program.body_lines() == division_body(dividend, divisor, remainder)
    &&& c.program.expected_values() == seq![division_total(dividend, divisor, remainder) as int]
    &&& !c.program.sinks()
}

/// The divisor at an index.
fn divisor_at(j: usize) -> (r: (&'static str, i128))
    requires
        j < 4,
    ensures
        r.0@ == divisor_name(j as int),
        r.1 == divisor_value(j as int),
{
    if j == 0 {
        ("7", 7)
    } else if j == 1 {
        ("10", 10)
    } else if j == 2 {
        ("8", 8)
    } else {
        ("minus-7", -7)
    }
}

/// One division case.
fn division_case(dividend: Dividend, j: usize, remainder: bool) -> (r: Case)
    requires
        j < 4,
    ensures
        is_division_case(r, dividend, j as int, remainder),
{
    let (name, divisor) = divisor_at(j);
    let op = if remainder { "remainder" } else { "quotient" };
    let spelling = if remainder { "%" } else { "/" };
    let shown = decimal_string(divisor);
    let mut purpose = String::from_str("the ");
    purpose.append(op);
    purpose.append(" of ");
    purpose.append(dividend.name());
    purpose.append(" values by ");
    purpose.append(shown.as_str());
    purpose.append(", done many times");
    let mut program = Program::new(purpose.as_str());
    program.line("unsigned long long total = 0;");
    division_walk(&mut program);
    program.line_at(2, dividend.declare());
    let mut add = String::from_str("total += (unsigned long long)(x ");
    add.append(spelling);
    add.append(" (");
    add.append(shown.as_str());
    add.append("));");
    program.line_at(2, add.as_str());
    program.line_at(1, "}");
    program.line("}");
    program.blank();
    let total = divided(dividend, divisor, remainder);
    program.check(Ty::U64, "total", total as i128);
    assert(program.top_lines() =~~= seq![input_global(Ty::U64, "seed"@, DIVISION_SEED as int)]);
    assert(program.body_lines() =~~= division_body(dividend, divisor as int, remainder));
    let axes = vec![axis("type", dividend.name()), axis("divisor", name), axis("op", op)];
    let r = Case { axes, tags: tags_for(false), program };
    assert(r.axes_text() =~= seq![
        ("type"@, dividend.name_text()),
        ("divisor"@, divisor_name(j as int)),
        ("op"@, op_name(remainder)),
    ]);
    assert(r.program.expected_values() =~= seq![
        division_total(dividend, divisor as int, remainder) as int,
    ]);
    r
}

/// Pushes a quotient and a remainder case for each of the first `count` divisors.
fn push_divisions(out: &mut Vec<Case>, dividend: Dividend, count: usize)
    requires
        count <= 4,
    ensures
        final(out)@.len() == old(out)@.len() + 2 * count,
        forall|k: int| 0 <= k < old(out)@.len() ==> final(out)@[k] == old(out)@[k],
        forall|m: int|
            0 <= m < 2 * count ==> is_division_case(
                #[trigger] final(out)@[old(out)@.len() + m],
                dividend,
                m / 2,
                m % 2 == 1,
            ),
{
    let ghost start = old(out)@;
    let mut j: usize = 0;
    while j < count
        invariant
            j <= count <= 4,
            out@.len() == start.len() + 2 * j,
            forall|k: int| 0 <= k < start.len() ==> out@[k] == start[k],
            forall|m: int|
                0 <= m < 2 * j ==> is_division_case(
                    #[trigger] out@[start.len() + m],
                    dividend,
                    m / 2,
                    m % 2 == 1,
                ),
        decreases count - j,
    {
        out.push(division_case(dividend, j, false));
        out.push(division_case(dividend, j, true));
        assert(out@[start.len() + 2 * j] == out@[start.len() + (2 * j) as int]);
        assert forall|m: int| 0 <= m < 2 * (j + 1) implies is_division_case(
            #[trigger] out@[start.len() + m],
            dividend,
            m / 2,
            m % 2 == 1,
        ) by {
            if m >= 2 * j {
                assert(m / 2 == j);
            }
        }
        j += 1;
    }
}

/// The width, divisor and operation of the division case at a position: each pair of widths
/// is an unsigned one with its three divisors, then the signed one with a fourth, negative one.
pub open spec fn division_point(k: int) -> (Dividend, int, bool) {
    let pair = k / 14;
    let rest = k % 14;
    if rest < 6 {
        (all_dividends()[2 * pair], rest / 2, rest % 2 == 1)
    } else {
        (all_dividends()[2 * pair + 1], (rest - 6) / 2, (rest - 6) % 2 == 1)
    }
}

/// A division or a remainder by a constant, done two million times over values nothing can see.
///
/// A division by a constant becomes a multiply by a magic number and a few shifts, three or
/// four cycles where the `div` it replaces is twenty to forty. Every width C divides at is
/// here, each with a divisor that needs the extra add, one that does not, a power of two, and a
/// negative one for the signed types, each as a quotient and as a remainder.
pub fn division() -> (r: Vec<Case>)
    ensures
        r@.len() == 70,
        forall|k: int|
            0 <= k < 70 ==> is_division_case(
                #[trigger] r@[k],
                division_point(k).0,
                division_point(k).1,
                division_point(k).2,
            ),
{
    let all = dividends();
    let mut out: Vec<Case> = Vec::new();
    let mut pair: usize = 0;
    while pair < 5
        invariant
            pair <= 5,
            all@ == all_dividends(),
            out@.len() == 14 * pair,
            forall|k: int|
                0 <= k < 14 * pair ==> is_division_case(
                    #[trigger] out@[k],
                    division_point(k).0,
                    division_point(k).1,
                    division_point(k).2,
                ),
        decreases 5 - pair,
    {
        let ghost before = out@;
        push_divisions(&mut out, all[2 * pair], 3);
        let ghost middle = out@;
        push_divisions(&mut out, all[2 * pair + 1], 4);
        assert forall|k: int| 0 <= k < 14 * (pair + 1) implies is_division_case(
            #[trigger] out@[k],
            division_point(k).0,
            division_point(k).1,
            division_point(k).2,
        ) by {
            if k < 14 * pair {
                assert(out@[k] == middle[k]);
                assert(middle[k] == before[k]);
            } else if k < 14 * pair + 6 {
                let m = k - 14 * pair;
                assert(k / 14 == pair && k % 14 == m);
                assert(out@[k] == middle[k]);
                assert(middle[before.len() + m] == middle[k]);
            } else {
                let m = k - 14 * pair - 6;
                assert(k / 14 == pair && k % 14 == m + 6);
                assert(out@[middle.len() + m] == out@[k]);
            }
        }
        pair += 1;
    }
    out
}

/// The sizes of the structures the exact division cases subtract pointers into.
pub open spec fn exact_sizes() -> Seq<int> {
    seq![12, 7]
}

/// What one walk of the pointer subtraction adds up over its first `n` states.
pub open spec fn exact_pass(n: nat) -> int
    decreases n,
{
    if n == 0 {
        0
    } else {
        let state = mmix_after(DIVISION_SEED, n);
        exact_pass((n - 1) as nat) + ((state >> 13u64) & 1023u64) as int - ((state >> 33u64)
            & 1023u64) as int
    }
}

/// The `main` of a pointer subtraction case.
pub open spec fn exact_body(size: int) -> Seq<Seq<char>> {
    seq![
        indent(1) + "static struct { char bytes["@ + decimal(size) + "]; } items[1024];"@,
        indent(1) + "long long total = 0;"@,
    ] + walk_lines() + seq![
        indent(3) + "int from = (int)((state >> 33) & 1023u);"@,
        indent(3) + "int to = (int)((state >> 13) & 1023u);"@,
        indent(3) + "total += &items[to] - &items[from];"@,
        indent(2) + "}"@,
        indent(1) + "}"@,
        Seq::<char>::empty(),
        print_line(1, Ty::I64, "total"@),
    ]
}

/// Whether a case is the pointer subtraction over structures of a size, whole.
pub open spec fn is_exact_case(c: Case, size: int) -> bool {
    &&& c.axes_text() == seq![
        ("type"@, "pointer"@),
        ("divisor"@, decimal(size)),
        ("op"@, "exact"@),
    ]
    &&& c.tags_text() == Seq::<Seq<char>>::empty()
    &&& c.program.purpose_text() == "pointers subtracted in an array of "@ + decimal(size)
        + " byte structures"@
    &&& c.program.include_lines() == Seq::<Seq<char>>::empty()
    &&& c.program.top_lines() == seq![input_global(Ty::U64, "seed"@, DIVISION_SEED as int)]
    &&& c.program.body_lines() == exact_body(size)
    &&& c.program.expected_values() == seq![
        exact_pass(DIVISION_STREAM as nat) * DIVISION_ROUNDS,
    ]
    &&& !c.program.sinks()
}

/// One pointer subtraction case.
fn exact_case(size: i128) -> (r: Case)
    requires
        0 <= size <= 1000,
    ensures
        is_exact_case(r, size as int),
{
    let shown = decimal_string(size);
    let mut purpose = String::from_str("pointers subtracted in an array of ");
    purpose.append(shown.as_str());
    purpose.append(" byte structures");
    let mut program = Program::new(purpose.as_str());
    let mut items = String::from_str("static struct { char bytes[");
    items.append(shown.as_str());
    items.append("]; } items[1024];");
    program.line(items.as_str());
    program.line("long long total = 0;");
    division_walk(&mut program);
    program.line_at(2, "int from = (int)((state >> 33) & 1023u);");
    program.line_at(2, "int to = (int)((state >> 13) & 1023u);");
    program.line_at(2, "total += &items[to] - &items[from];");
    program.line_at(1, "}");
    program.line("}");
    program.blank();
    let mut state = DIVISION_SEED;
    let mut pass: i128 = 0;
    let mut i: u32 = 0;
    while i < DIVISION_STREAM
        invariant
            i <= DIVISION_STREAM,
            state == mmix_after(DIVISION_SEED, i as nat),
            pass == exact_pass(i as nat),
            -1023 * i <= pass <= 1023 * i,
        decreases DIVISION_STREAM - i,
    {
        state = next_state(state);
        let from = (state >> 33u64) & 1023u64;
        let to = (state >> 13u64) & 1023u64;
        assert(from <= 1023 && to <= 1023) by (bit_vector)
            requires
                from == (state >> 33u64) & 1023u64,
                to == (state >> 13u64) & 1023u64,
        ;
        pass = pass + to as i128 - from as i128;
        i += 1;
    }
    program.check(Ty::I64, "total", pass * 1024);
    assert(program.top_lines() =~~= seq![input_global(Ty::U64, "seed"@, DIVISION_SEED as int)]);
    assert(program.body_lines() =~~= exact_body(size as int));
    let axes = vec![axis("type", "pointer"), axis("divisor", shown.as_str()), axis("op", "exact")];
    let r = Case { axes, tags: tags_for(false), program };
    assert(r.axes_text() =~= seq![
        ("type"@, "pointer"@),
        ("divisor"@, decimal(size as int)),
        ("op"@, "exact"@),
    ]);
    assert(r.program.expected_values() =~= seq![
        exact_pass(DIVISION_STREAM as nat) * DIVISION_ROUNDS,
    ]);
    r
}

/// A pointer subtraction over structures whose size is not a power of two.
///
/// C promises the two pointers are into the same array, so the byte difference is a multiple
/// of the size and the division has no remainder, and a compiler that knows that multiplies by
/// the inverse of the odd part of the size. Both indexes are masks rather than remainders, so
/// the only division is the one the subtraction makes.
pub fn exact_division() -> (r: Vec<Case>)
    ensures
        r@.len() == 2,
        is_exact_case(r@[0], 12),
        is_exact_case(r@[1], 7),
{
    let mut out: Vec<Case> = Vec::new();
    out.push(exact_case(12));
    out.push(exact_case(7));
    out
}

} // verus!
