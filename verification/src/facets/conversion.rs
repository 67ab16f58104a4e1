//! Diamonds that could become a conditional move, on conditions that hold a known share of the
//! time, and diamonds whose arms share a chain of operations.
//!
//! The condition comes from the stream generator, so the only thing a predictor can learn about
//! it is how often it holds. Twenty million rounds make the time the measurement, and the
//! generator adds up the same rounds to know what the program prints.

use vstd::prelude::*;
use vstd::string::*;
use vstd::wrapping::{i64_specs, u32_specs, u64_specs};
use crate::emit::{Program, input_global, input_read, indent, print_line};
use crate::lang::Ty;
use crate::text::{decimal, decimal_string};
use crate::facets::{Case, axis, gnu_when, tags_for};
use crate::facets::dispatch::{lcg, lcg_after, lcg_step};
use crate::cexpr::{BinOp, CExpr, CastTo, reads_as, signed_value, unsigned_value, spelled, parsed};

verus! {

/// How many times the rate and chain shapes go round.
pub const ROLLS: u32 = 20_000_000;

/// What one round of a rate shape adds, for the generator state of that round.
pub open spec fn roll_value(state: u32, rate: u32) -> u64 {
    let x = state >> 24u32;
    if (state >> 16u32) % 100 < rate {
        (x * 3) as u64
    } else {
        (x + 7) as u64
    }
}

/// What the first `n` rounds of a rate shape add up to, in `unsigned long long`.
pub open spec fn rolled_sum(seed: u32, rate: u32, n: nat) -> u64
    decreases n,
{
    if n == 0 {
        0
    } else {
        u64_specs::wrapping_add(
            rolled_sum(seed, rate, (n - 1) as nat),
            roll_value(lcg_after(seed, n), rate),
        )
    }
}

/// What one of the rate shapes adds up, worked out the way the C works it out.
pub fn rolled(seed: u32, rate: u32) -> (r: u64)
    ensures
        r == rolled_sum(seed, rate, ROLLS as nat),
{
    let mut state = seed;
    let mut total: u64 = 0;
    let mut i: u32 = 0;
    while i < ROLLS
        invariant
            i <= ROLLS,
            state == lcg_after(seed, i as nat),
            total == rolled_sum(seed, rate, i as nat),
        decreases ROLLS - i,
    {
        state = lcg_step(state);
        let x = state >> 24u32;
        assert(x < 256) by (bit_vector)
            requires
                x == state >> 24u32,
        ;
        let v: u32 = if (state >> 16u32) % 100 < rate {
            x * 3
        } else {
            x + 7
        };
        total = total.wrapping_add(v as u64);
        i += 1;
    }
    total
}

/// Which way a hint on the rate shapes leans.
#[derive(Clone, Copy, Debug, PartialEq, Eq, Structural)]
pub enum Lean {
    /// No hint.
    Unhinted,
    /// A hint that agrees with the rate: the condition usually holds.
    Right,
    /// A hint that says the opposite.
    Wrong,
}

impl Lean {
    /// The axis value.
    pub open spec fn name_text(self) -> Seq<char> {
        match self {
            Lean::Unhinted => "none"@,
            Lean::Right => "right"@,
            Lean::Wrong => "wrong"@,
        }
    }

    /// The condition of the diamond, with the hint on it.
    pub open spec fn test_text(self) -> Seq<char> {
        match self {
            Lean::Unhinted => "taken"@,
            Lean::Right => "__builtin_expect(taken, 1)"@,
            Lean::Wrong => "__builtin_expect(taken, 0)"@,
        }
    }

    /// The axis value.
    pub fn name(self) -> (r: &'static str)
        ensures
            r@ == self.name_text(),
    {
        match self {
            Lean::Unhinted => "none",
            Lean::Right => "right",
            Lean::Wrong => "wrong",
        }
    }

    /// The condition of the diamond, with the hint on it.
    pub fn test(self) -> (r: &'static str)
        ensures
            r@ == self.test_text(),
    {
        match self {
            Lean::Unhinted => "taken",
            Lean::Right => "__builtin_expect(taken, 1)",
            Lean::Wrong => "__builtin_expect(taken, 0)",
        }
    }
}

/// The rates the rate shapes are written at, in percent.
pub open spec fn rates() -> Seq<u32> {
    seq![50u32, 75, 90, 95, 99]
}

/// The `main` of a rate shape.
pub open spec fn rate_body(rate: u32, lean: Lean) -> Seq<Seq<char>> {
    seq![
        input_read(Ty::U32, "seed"@),
        Seq::<char>::empty(),
        indent(1) + "unsigned state = seed;"@,
        indent(1) + "unsigned long long total = 0;"@,
        indent(1) + "for (int i = 0; i < 20000000; i++) {"@,
        indent(2) + "state = state * 1103515245u + 12345u;"@,
        indent(2) + "unsigned x = state >> 24;"@,
        indent(2) + "int taken = (state >> 16) % 100u < "@ + decimal(rate as int) + "u;"@,
        indent(2) + "unsigned v;"@,
        indent(2) + "if ("@ + lean.test_text() + ") {"@,
        indent(3) + "v = x * 3u;"@,
        indent(2) + "} else {"@,
        indent(3) + "v = x + 7u;"@,
        indent(2) + "}"@,
        indent(2) + "total += v;"@,
        indent(1) + "}"@,
        Seq::<char>::empty(),
        print_line(1, Ty::U64, "total"@),
    ]
}

/// Whether a case is the rate shape for a rate and a hint, whole.
pub open spec fn is_rate_case(c: Case, rate: u32, lean: Lean) -> bool {
    &&& c.axes_text() == seq![
        ("shape"@, "at-a-rate"@),
        ("rate"@, decimal(rate as int)),
        ("hint"@, lean.name_text()),
    ]
    &&& c.tags_text() == gnu_when(lean != Lean::Unhinted)
    &&& c.program.purpose_text() == "a diamond with work in both arms, taken "@ + decimal(
        rate as int,
    ) + " times in a hundred, with "@ + lean.name_text() + " hint"@
    &&& c.program.include_lines() == Seq::<Seq<char>>::empty()
    &&& c.program.top_lines() == seq![input_global(Ty::U32, "seed"@, 7)]
    &&& c.program.body_lines() == rate_body(rate, lean)
    &&& c.program.expected_values() == seq![rolled_sum(7, rate, ROLLS as nat) as int]
    &&& !c.program.sinks()
}

/// The three hints at one rate print one number: what the diamond adds up at that rate. The
/// hint says which way the branch goes and changes nothing it computes.
pub proof fn lemma_hints_at_a_rate_agree(a: Case, b: Case, rate: u32, x: Lean, y: Lean)
    requires
        is_rate_case(a, rate, x),
        is_rate_case(b, rate, y),
    ensures
        a.program.expected_values() == b.program.expected_values(),
        a.program.expected_values() == seq![rolled_sum(7, rate, ROLLS as nat) as int],
{
}


/// The rate shape for one rate and one hint, given what its rounds add up to.
fn rate_case(rate: u32, lean: Lean, total: u64) -> (r: Case)
    requires
        total == rolled_sum(7, rate, ROLLS as nat),
    ensures
        is_rate_case(r, rate, lean),
{
    let shown = decimal_string(rate as i128);
    let mut purpose = String::from_str("a diamond with work in both arms, taken ");
    purpose.append(shown.as_str());
    purpose.append(" times in a hundred, with ");
    purpose.append(lean.name());
    purpose.append(" hint");
    let mut program = Program::new(purpose.as_str());
    program.input(Ty::U32, "seed", 7);
    program.blank();
    program.line("unsigned state = seed;");
    program.line("unsigned long long total = 0;");
    program.line("for (int i = 0; i < 20000000; i++) {");
    program.line_at(1, "state = state * 1103515245u + 12345u;");
    program.line_at(1, "unsigned x = state >> 24;");
    let mut taken = String::from_str("int taken = (state >> 16) % 100u < ");
    taken.append(shown.as_str());
    taken.append("u;");
    program.line_at(1, taken.as_str());
    program.line_at(1, "unsigned v;");
    let mut test = String::from_str("if (");
    test.append(lean.test());
    test.append(") {");
    program.line_at(1, test.as_str());
    program.line_at(2, "v = x * 3u;");
    program.line_at(1, "} else {");
    program.line_at(2, "v = x + 7u;");
    program.line_at(1, "}");
    program.line_at(1, "total += v;");
    program.line("}");
    program.blank();
    program.check(Ty::U64, "total", total as i128);
    assert(program.top_lines() =~~= seq![input_global(Ty::U32, "seed"@, 7)]);
    assert(program.body_lines() =~~= rate_body(rate, lean));
    let axes = vec![axis("shape", "at-a-rate"), axis("rate", shown.as_str()), axis("hint", lean.name())];
    let r = Case { axes, tags: tags_for(lean != Lean::Unhinted), program };
    assert(r.axes_text() =~= seq![
        ("shape"@, "at-a-rate"@),
        ("rate"@, decimal(rate as int)),
        ("hint"@, lean.name_text()),
    ]);
    assert(r.program.expected_values() =~= seq![rolled_sum(7, rate, ROLLS as nat) as int]);
    r
}

/// The points the rate facet walks: each rate with no hint, the right one and the wrong one.
pub open spec fn rate_points() -> Seq<(u32, Lean)> {
    let leans = seq![Lean::Unhinted, Lean::Right, Lean::Wrong];
    Seq::new(15, |i: int| (rates()[i / 3], leans[i % 3]))
}

/// A diamond with work in both arms, on a condition that holds a known share of the time.
///
/// A diamond whose arms do work is worth turning into a select only when the branch is close
/// enough to even that the machine misses it. Each rate is written with no hint, with the hint
/// that agrees with the rate and with the one that does not, so timing the three against each
/// other at each rate shows where a branch starts beating a conditional move. The three share
/// one answer, since a hint never changes what the program computes.
pub fn if_conversion_rate() -> (r: Vec<Case>)
    ensures
        r@.len() == 15,
        forall|i: int|
            0 <= i < 15 ==> is_rate_case(#[trigger] r@[i], rate_points()[i].0, rate_points()[i].1),
{
    let all: [u32; 5] = [50, 75, 90, 95, 99];
    let leans = [Lean::Unhinted, Lean::Right, Lean::Wrong];
    let mut out: Vec<Case> = Vec::new();
    let mut at: usize = 0;
    while at < 5
        invariant
            at <= 5,
            all@ == rates(),
            leans@ == seq![Lean::Unhinted, Lean::Right, Lean::Wrong],
            out@.len() == 3 * at,
            forall|k: int|
                0 <= k < 3 * at ==> is_rate_case(
                    #[trigger] out@[k],
                    rate_points()[k].0,
                    rate_points()[k].1,
                ),
        decreases 5 - at,
    {
        let rate = all[at];
        let total = rolled(7, rate);
        let mut which: usize = 0;
        while which < 3
            invariant
                at < 5,
                which <= 3,
                rate == rates()[at as int],
                total == rolled_sum(7, rate, ROLLS as nat),
                leans@ == seq![Lean::Unhinted, Lean::Right, Lean::Wrong],
                out@.len() == 3 * at + which,
                forall|k: int|
                    0 <= k < 3 * at + which ==> is_rate_case(
                        #[trigger] out@[k],
                        rate_points()[k].0,
                        rate_points()[k].1,
                    ),
            decreases 3 - which,
        {
            let ghost k = 3 * at + which;
            assert(k / 3 == at && k % 3 == which);
            out.push(rate_case(rate, leans[which], total));
            which += 1;
        }
        at += 1;
    }
    out
}

/// The value `mask` has in the chain shapes.
pub const CHAIN_MASK: i64 = 85;

/// A diamond whose two arms end in the same operations.
#[derive(Clone, Copy, Debug, PartialEq, Eq, Structural)]
pub enum ChainShape {
    /// Both arms add a widened `int`, differing only in what is widened.
    SharedWidening,
    /// Both arms add a widened masked `int`, differing only in what is masked.
    SharedMask,
    /// The control: one arm widens with a sign and the other without.
    DifferentWidening,
}

impl ChainShape {
    /// The axis value.
    pub open spec fn name_text(self) -> Seq<char> {
        match self {
            ChainShape::SharedWidening => "shared-widening"@,
            ChainShape::SharedMask => "shared-mask"@,
            ChainShape::DifferentWidening => "different-widening"@,
        }
    }

    /// One line saying what the compiler has to see.
    pub open spec fn purpose_text(self) -> Seq<char> {
        match self {
            ChainShape::SharedWidening =>
                "arms that both add a widened int, differing only in what is widened"@,
            ChainShape::SharedMask =>
                "arms that both add a widened masked int, differing only in what is masked"@,
            ChainShape::DifferentWidening =>
                "arms that both add, one widening with a sign and one without"@,
        }
    }

    /// What the arm taken when the condition holds adds, as C over `x` and `mask`.
    pub open spec fn taken_text(self) -> Seq<char> {
        match self {
            ChainShape::SharedMask => "(long long)((x * 3) ^ mask)"@,
            _ => "(long long)(x * 3)"@,
        }
    }

    /// What the other arm adds.
    pub open spec fn other_text(self) -> Seq<char> {
        match self {
            ChainShape::SharedWidening => "(long long)(x + 7)"@,
            ChainShape::SharedMask => "(long long)((x + 7) ^ mask)"@,
            ChainShape::DifferentWidening => "(long long)(unsigned)(x + 7)"@,
        }
    }

    /// What a round adds, given whether the condition held, `x` and `mask`.
    pub open spec fn step_of(self, taken: bool, x: i64, mask: i64) -> i64 {
        match self {
            ChainShape::SharedMask => if taken {
                ((x * 3) as i64) ^ mask
            } else {
                ((x + 7) as i64) ^ mask
            },
            _ => if taken {
                (x * 3) as i64
            } else {
                (x + 7) as i64
            },
        }
    }

    /// The axis value.
    pub fn name(self) -> (r: &'static str)
        ensures
            r@ == self.name_text(),
    {
        match self {
            ChainShape::SharedWidening => "shared-widening",
            ChainShape::SharedMask => "shared-mask",
            ChainShape::DifferentWidening => "different-widening",
        }
    }

    /// One line saying what the compiler has to see.
    pub fn purpose(self) -> (r: &'static str)
        ensures
            r@ == self.purpose_text(),
    {
        match self {
            ChainShape::SharedWidening =>
                "arms that both add a widened int, differing only in what is widened",
            ChainShape::SharedMask =>
                "arms that both add a widened masked int, differing only in what is masked",
            ChainShape::DifferentWidening =>
                "arms that both add, one widening with a sign and one without",
        }
    }

    /// What the arm taken when the condition holds adds.
    pub fn taken(self) -> (r: &'static str)
        ensures
            r@ == self.taken_text(),
    {
        match self {
            ChainShape::SharedMask => "(long long)((x * 3) ^ mask)",
            _ => "(long long)(x * 3)",
        }
    }

    /// What the other arm adds.
    pub fn other(self) -> (r: &'static str)
        ensures
            r@ == self.other_text(),
    {
        match self {
            ChainShape::SharedWidening => "(long long)(x + 7)",
            ChainShape::SharedMask => "(long long)((x + 7) ^ mask)",
            ChainShape::DifferentWidening => "(long long)(unsigned)(x + 7)",
        }
    }

    /// What a round adds, for the values a round can see: `x` is one byte.
    pub fn step(self, taken: bool, x: i64, mask: i64) -> (r: i64)
        requires
            0 <= x < 256,
        ensures
            r == self.step_of(taken, x, mask),
    {
        match self {
            ChainShape::SharedMask => if taken {
                (x * 3) ^ mask
            } else {
                (x + 7) ^ mask
            },
            _ => if taken {
                x * 3
            } else {
                x + 7
            },
        }
    }
}

/// The names a chain arm's C reads: the byte drawn this round, and the mask.
pub open spec fn chain_names() -> Seq<Seq<char>> {
    seq!["x"@, "mask"@]
}

/// The C one arm of a chain shape adds.
pub open spec fn arm_text(shape: ChainShape, taken: bool) -> Seq<char> {
    if taken {
        shape.taken_text()
    } else {
        shape.other_text()
    }
}

/// Whether some expression that C reads the text as evaluates to a value, with `x` and `mask`
/// holding the given numbers.
pub open spec fn arm_means(text: Seq<char>, x: int, mask: int, value: int) -> bool {
    exists|e: CExpr|
        #[trigger] reads_as(e, chain_names(), text) && signed_value(e, seq![x, mask]) == value
}

proof fn lemma_reads_witness(e: CExpr, text: Seq<char>, x: int, mask: int, value: int)
    requires
        reads_as(e, chain_names(), text),
        signed_value(e, seq![x, mask]) == value,
    ensures
        arm_means(text, x, mask, value),
{
}

/// What each arm of a chain round adds is what its C text evaluates to: for every byte `x`
/// and every mask an `int` holds, the value a round adds when the arm runs is the value of the
/// expression the arm's text is, read the way C reads it.
pub proof fn lemma_chain_arms_add_what_their_c_says(shape: ChainShape, taken: bool, x: i64, mask: i64)
    requires
        0 <= x < 256,
        -0x8000_0000 <= mask < 0x8000_0000,
    ensures
        arm_means(arm_text(shape, taken), x as int, mask as int, shape.step_of(taken, x, mask) as int),
{
    reveal_with_fuel(spelled, 6);
    reveal_with_fuel(parsed, 6);
    reveal_with_fuel(signed_value, 6);
    reveal_strlit("x");
    reveal_strlit("mask");
    reveal_strlit("(");
    reveal_strlit(")");
    reveal_strlit(" ");
    reveal_strlit("*");
    reveal_strlit("+");
    reveal_strlit("^");
    reveal_strlit("(long long)");
    reveal_strlit("(unsigned)");
    reveal_strlit("(long long)((x * 3) ^ mask)");
    reveal_strlit("(long long)(x * 3)");
    reveal_strlit("(long long)(x + 7)");
    reveal_strlit("(long long)((x + 7) ^ mask)");
    reveal_strlit("(long long)(unsigned)(x + 7)");
    assert(decimal(3) =~= seq!['3']);
    assert(decimal(7) =~= seq!['7']);
    let x_ = CExpr::Name(0);
    let m_ = CExpr::Name(1);
    let times = CExpr::Paren(Box::new(CExpr::Bin(BinOp::Mul, Box::new(x_), Box::new(CExpr::Num(3)))));
    let plus = CExpr::Paren(Box::new(CExpr::Bin(BinOp::Add, Box::new(x_), Box::new(CExpr::Num(7)))));
    let text = arm_text(shape, taken);
    let value = shape.step_of(taken, x, mask) as int;
    if shape == ChainShape::SharedMask {
        let e = CExpr::Cast(
            CastTo::LongLong,
            Box::new(CExpr::Paren(Box::new(CExpr::Bin(
                BinOp::Xor,
                Box::new(if taken { times } else { plus }),
                Box::new(m_),
            )))),
        );
        assert(spelled(e, chain_names()) =~= text);
        lemma_reads_witness(e, text, x as int, mask as int, value);
    } else if taken {
        let e = CExpr::Cast(CastTo::LongLong, Box::new(times));
        assert(spelled(e, chain_names()) =~= text);
        lemma_reads_witness(e, text, x as int, mask as int, value);
    } else if shape == ChainShape::SharedWidening {
        let e = CExpr::Cast(CastTo::LongLong, Box::new(plus));
        assert(spelled(e, chain_names()) =~= text);
        lemma_reads_witness(e, text, x as int, mask as int, value);
    } else {
        let e = CExpr::Cast(CastTo::LongLong, Box::new(CExpr::Cast(CastTo::Unsigned, Box::new(plus))));
        assert(spelled(e, chain_names()) =~= text);
        lemma_reads_witness(e, text, x as int, mask as int, value);
    }
}

/// The names a round's C reads: the generator state, and the byte drawn from it.
pub open spec fn round_names() -> Seq<Seq<char>> {
    seq!["state"@, "x"@]
}

/// The generator step's C text.
pub open spec fn step_text() -> Seq<char> {
    "state * 1103515245u + 12345u"@
}

/// What a round reads of the state, as C would, the state and `x` named by `round_names`:
/// the next state (kept to thirty two bits, as `unsigned` is), the drawn byte, and whether the
/// test holds; `None` where no expression C reads the texts as exists.
pub open spec fn round_reads(
    next: CExpr,
    draw: CExpr,
    test: CExpr,
    draw_text: Seq<char>,
    test_text: Seq<char>,
) -> bool {
    &&& reads_as(next, round_names(), step_text())
    &&& reads_as(draw, round_names(), draw_text)
    &&& reads_as(test, round_names(), test_text)
}

/// The state after one step, as the step's C evaluates it in `unsigned`.
pub open spec fn stepped(next: CExpr, state: u32) -> u32 {
    (unsigned_value(next, seq![state as u64, 0]) % 0x1_0000_0000) as u32
}

/// Whether a rate round adds `value` from `state`: the byte and the test read off the program's
/// C, and the value the arm the test picks computes on that byte.
pub open spec fn rate_round_means(state: u32, rate: u32, value: u64) -> bool {
    exists|next: CExpr, draw: CExpr, test: CExpr, taken: CExpr, other: CExpr|
        #[trigger] rate_round_reads(next, draw, test, taken, other, rate) && lcg(state) == stepped(
            next,
            state,
        ) && ({
            let s = lcg(state) as u64;
            let x = unsigned_value(draw, seq![s, 0]);
            let env = seq![s, x];
            value == if unsigned_value(test, env) != 0 {
                unsigned_value(taken, env)
            } else {
                unsigned_value(other, env)
            }
        })
}

/// The expressions of a rate round, read as C reads the rate shape's lines.
pub open spec fn rate_round_reads(
    next: CExpr,
    draw: CExpr,
    test: CExpr,
    taken: CExpr,
    other: CExpr,
    rate: u32,
) -> bool {
    &&& round_reads(
        next,
        draw,
        test,
        "state >> 24"@,
        "(state >> 16) % 100u < "@ + decimal(rate as int) + "u"@,
    )
    &&& reads_as(taken, round_names(), "x * 3u"@)
    &&& reads_as(other, round_names(), "x + 7u"@)
}

proof fn lemma_rate_round_witness(
    next: CExpr,
    draw: CExpr,
    test: CExpr,
    taken: CExpr,
    other: CExpr,
    rate: u32,
    state: u32,
    value: u64,
)
    requires
        rate_round_reads(next, draw, test, taken, other, rate),
        lcg(state) == stepped(next, state),
        ({
            let s = lcg(state) as u64;
            let x = unsigned_value(draw, seq![s, 0]);
            let env = seq![s, x];
            value == if unsigned_value(test, env) != 0 {
                unsigned_value(taken, env)
            } else {
                unsigned_value(other, env)
            }
        }),
    ensures
        rate_round_means(state, rate, value),
{
}

/// The C of a generator step, and what a step of the generator does in `unsigned`.
pub(crate) proof fn lemma_step_reads(state: u32) -> (next: CExpr)
    ensures
        reads_as(next, round_names(), step_text()),
        lcg(state) == stepped(next, state),
{
    reveal_with_fuel(spelled, 6);
    reveal_with_fuel(parsed, 6);
    reveal_with_fuel(unsigned_value, 6);
    reveal_with_fuel(crate::text::digits, 11);
    reveal_strlit("state");
    reveal_strlit("x");
    reveal_strlit(" ");
    reveal_strlit("*");
    reveal_strlit("+");
    reveal_strlit("u");
    reveal_strlit("state * 1103515245u + 12345u");
    let next = CExpr::Bin(
        BinOp::Add,
        Box::new(CExpr::Bin(BinOp::Mul, Box::new(CExpr::Name(0)), Box::new(CExpr::NumU(1103515245)))),
        Box::new(CExpr::NumU(12345)),
    );
    assert(decimal(1103515245) =~= seq!['1', '1', '0', '3', '5', '1', '5', '2', '4', '5']);
    assert(decimal(12345) =~= seq!['1', '2', '3', '4', '5']);
    assert(spelled(next, round_names()) =~= step_text());
    let s = state as u64;
    let wide = u64_specs::wrapping_add(u64_specs::wrapping_mul(s, 1103515245), 12345);
    assert(unsigned_value(next, seq![s, 0]) == wide);
    assert(s * 1103515245 + 12345 < 0x1_0000_0000_0000_0000) by (nonlinear_arith)
        requires
            s < 0x1_0000_0000,
    ;
    assert(lcg(state) as int == (s * 1103515245 + 12345) % 0x1_0000_0000) by (nonlinear_arith)
        requires
            s == state,
            lcg(state) == u32_specs::wrapping_add(u32_specs::wrapping_mul(state, 1103515245), 12345),
    {
        let m = (state as int * 1103515245) % 0x1_0000_0000;
        assert(u32_specs::wrapping_mul(state, 1103515245) as int == m);
        if m + 12345 > 0xffff_ffff {
            assert(lcg(state) as int == m + 12345 - 0x1_0000_0000);
        } else {
            assert(lcg(state) as int == m + 12345);
        }
        assert((s * 1103515245 + 12345) % 0x1_0000_0000 == (m + 12345) % 0x1_0000_0000);
    }
    next
}

#[verifier::rlimit(100)]
proof fn lemma_rate_lines(rate: u32, lean: Lean)
    ensures
        rate_body(rate, lean)[5] == indent(2) + "state = "@ + step_text() + ";"@,
        rate_body(rate, lean)[6] == indent(2) + "unsigned x = "@ + "state >> 24"@ + ";"@,
        rate_body(rate, lean)[7] == indent(2) + "int taken = "@ + ("(state >> 16) % 100u < "@
            + decimal(rate as int) + "u"@) + ";"@,
        rate_body(rate, lean)[10] == indent(3) + "v = "@ + "x * 3u"@ + ";"@,
        rate_body(rate, lean)[12] == indent(3) + "v = "@ + "x + 7u"@ + ";"@,
{
    reveal_strlit("state * 1103515245u + 12345u");
    reveal_strlit("state >> 24");
    reveal_strlit("(state >> 16) % 100u < ");
    reveal_strlit("x * 3u");
    reveal_strlit("x + 7u");
    reveal_strlit("state = state * 1103515245u + 12345u;");
    reveal_strlit("state = ");
    reveal_strlit(";");
    reveal_strlit("u");
    reveal_strlit("unsigned x = state >> 24;");
    reveal_strlit("unsigned x = ");
    reveal_strlit("int taken = (state >> 16) % 100u < ");
    reveal_strlit("int taken = ");
    reveal_strlit("u;");
    reveal_strlit("v = x * 3u;");
    reveal_strlit("v = x + 7u;");
    reveal_strlit("v = ");
    let b = rate_body(rate, lean);
    assert(b[5] =~= indent(2) + "state = "@ + step_text() + ";"@);
    assert(b[6] =~= indent(2) + "unsigned x = "@ + "state >> 24"@ + ";"@);
    assert(b[7] =~= indent(2) + "int taken = "@ + ("(state >> 16) % 100u < "@ + decimal(rate as int)
        + "u"@) + ";"@);
    assert(b[10] =~= indent(3) + "v = "@ + "x * 3u"@ + ";"@);
    assert(b[12] =~= indent(3) + "v = "@ + "x + 7u"@ + ";"@);
}

#[verifier::rlimit(100)]
proof fn lemma_rate_round_reads(state: u32, rate: u32)
    ensures
        rate_round_means(state, rate, roll_value(lcg(state), rate)),
{
    let next = lemma_step_reads(state);
    reveal_with_fuel(spelled, 6);
    reveal_with_fuel(parsed, 6);
    reveal_with_fuel(unsigned_value, 6);
    reveal_with_fuel(crate::text::digits, 3);
    reveal_strlit("state");
    reveal_strlit("x");
    reveal_strlit("(");
    reveal_strlit(")");
    reveal_strlit(" ");
    reveal_strlit("*");
    reveal_strlit("+");
    reveal_strlit("%");
    reveal_strlit("<");
    reveal_strlit(">>");
    reveal_strlit("u");
    reveal_strlit("state >> 24");
    reveal_strlit("(state >> 16) % 100u < ");
    reveal_strlit("x * 3u");
    reveal_strlit("x + 7u");
    assert(decimal(24) =~= seq!['2', '4']);
    assert(decimal(16) =~= seq!['1', '6']);
    assert(decimal(100) =~= seq!['1', '0', '0']);
    assert(decimal(3) =~= seq!['3']);
    assert(decimal(7) =~= seq!['7']);
    let st = CExpr::Name(0);
    let xn = CExpr::Name(1);
    let draw = CExpr::Bin(BinOp::Shr, Box::new(st), Box::new(CExpr::Num(24)));
    let test = CExpr::Bin(
        BinOp::Lt,
        Box::new(CExpr::Bin(
            BinOp::Rem,
            Box::new(CExpr::Paren(Box::new(CExpr::Bin(BinOp::Shr, Box::new(st), Box::new(CExpr::Num(16)))))),
            Box::new(CExpr::NumU(100)),
        )),
        Box::new(CExpr::NumU(rate as u64)),
    );
    let taken = CExpr::Bin(BinOp::Mul, Box::new(xn), Box::new(CExpr::NumU(3)));
    let other = CExpr::Bin(BinOp::Add, Box::new(xn), Box::new(CExpr::NumU(7)));
    assert(spelled(draw, round_names()) =~= "state >> 24"@);
    assert(spelled(test, round_names()) =~= "(state >> 16) % 100u < "@ + decimal(rate as int) + "u"@);
    assert(spelled(taken, round_names()) =~= "x * 3u"@);
    assert(spelled(other, round_names()) =~= "x + 7u"@);
    let n = lcg(state);
    let s = n as u64;
    let x = unsigned_value(draw, seq![s, 0]);
    assert(x == s >> 24u64);
    assert((s >> 24u64) == ((n >> 24u32) as u64) && (s >> 24u64) < 256) by (bit_vector)
        requires
            s == n as u64,
    ;
    assert((s >> 16u64) == ((n >> 16u32) as u64)) by (bit_vector)
        requires
            s == n as u64,
    ;
    let env = seq![s, x];
    assert(unsigned_value(CExpr::Name(1), env) == x);
    assert(unsigned_value(test, env) == if ((n >> 16u32) % 100) < rate { 1u64 } else { 0u64 });
    lemma_rate_round_witness(next, draw, test, taken, other, rate, state, roll_value(n, rate));
}

/// Each round of a rate shape adds what the program's C computes: the next state by the
/// generator's text in `unsigned`, the byte and the test read off their lines, and the arm the
/// test picks evaluated on that byte, for every state and every rate.
pub proof fn lemma_rate_round_is_the_c(state: u32, rate: u32, lean: Lean)
    ensures
        rate_round_means(state, rate, roll_value(lcg(state), rate)),
        rate_body(rate, lean)[5] == indent(2) + "state = "@ + step_text() + ";"@,
        rate_body(rate, lean)[6] == indent(2) + "unsigned x = "@ + "state >> 24"@ + ";"@,
        rate_body(rate, lean)[7] == indent(2) + "int taken = "@ + ("(state >> 16) % 100u < "@
            + decimal(rate as int) + "u"@) + ";"@,
        rate_body(rate, lean)[10] == indent(3) + "v = "@ + "x * 3u"@ + ";"@,
        rate_body(rate, lean)[12] == indent(3) + "v = "@ + "x + 7u"@ + ";"@,
{
    lemma_rate_round_reads(state, rate);
    lemma_rate_lines(rate, lean);
}

/// What the first `n` rounds of a chain shape add up to, in `long long`.
pub open spec fn chained_sum(seed: u32, shape: ChainShape, n: nat) -> i64
    decreases n,
{
    if n == 0 {
        0
    } else {
        let state = lcg_after(seed, n);
        i64_specs::wrapping_add(
            chained_sum(seed, shape, (n - 1) as nat),
            shape.step_of((state >> 16u32) % 100 < 50, (state >> 24u32) as i64, CHAIN_MASK),
        )
    }
}

/// What one of the chain shapes adds up, worked out the way the C works it out.
pub fn chained(seed: u32, shape: ChainShape) -> (r: i64)
    ensures
        r == chained_sum(seed, shape, ROLLS as nat),
{
    let mut state = seed;
    let mut total: i64 = 0;
    let mut i: u32 = 0;
    while i < ROLLS
        invariant
            i <= ROLLS,
            state == lcg_after(seed, i as nat),
            total == chained_sum(seed, shape, i as nat),
        decreases ROLLS - i,
    {
        state = lcg_step(state);
        let high = state >> 24u32;
        assert(high < 256) by (bit_vector)
            requires
                high == state >> 24u32,
        ;
        let taken = (state >> 16u32) % 100 < 50;
        total = total.wrapping_add(shape.step(taken, high as i64, CHAIN_MASK));
        i += 1;
    }
    total
}

/// The `main` of a chain shape.
pub open spec fn chain_body(shape: ChainShape) -> Seq<Seq<char>> {
    seq![
        input_read(Ty::U32, "seed"@),
        input_read(Ty::I32, "mask"@),
        Seq::<char>::empty(),
        indent(1) + "unsigned state = seed;"@,
        indent(1) + "long long total = 0;"@,
        indent(1) + "for (int i = 0; i < 20000000; i++) {"@,
        indent(2) + "state = state * 1103515245u + 12345u;"@,
        indent(2) + "int x = (int)(state >> 24);"@,
        indent(2) + "if ((state >> 16) % 100u < 50u) {"@,
        indent(3) + "total += "@ + shape.taken_text() + ";"@,
        indent(2) + "} else {"@,
        indent(3) + "total += "@ + shape.other_text() + ";"@,
        indent(2) + "}"@,
        indent(1) + "}"@,
        Seq::<char>::empty(),
        print_line(1, Ty::I64, "total"@),
    ]
}

/// Whether a case is the chain shape, whole.
pub open spec fn is_chain_case(c: Case, shape: ChainShape) -> bool {
    &&& c.axes_text() == seq![("shape"@, shape.name_text())]
    &&& c.tags_text() == Seq::<Seq<char>>::empty()
    &&& c.program.purpose_text() == shape.purpose_text()
    &&& c.program.include_lines() == Seq::<Seq<char>>::empty()
    &&& c.program.top_lines() == seq![
        input_global(Ty::U32, "seed"@, 7),
        input_global(Ty::I32, "mask"@, CHAIN_MASK as int),
    ]
    &&& c.program.body_lines() == chain_body(shape)
    &&& c.program.expected_values() == seq![chained_sum(7, shape, ROLLS as nat) as int]
    &&& !c.program.sinks()
}

/// One chain shape.
fn chain_case(shape: ChainShape) -> (r: Case)
    ensures
        is_chain_case(r, shape),
{
    let mut program = Program::new(shape.purpose());
    program.input(Ty::U32, "seed", 7);
    program.input(Ty::I32, "mask", CHAIN_MASK as i128);
    program.blank();
    program.line("unsigned state = seed;");
    program.line("long long total = 0;");
    program.line("for (int i = 0; i < 20000000; i++) {");
    program.line_at(1, "state = state * 1103515245u + 12345u;");
    program.line_at(1, "int x = (int)(state >> 24);");
    program.line_at(1, "if ((state >> 16) % 100u < 50u) {");
    let mut taken_line = String::from_str("total += ");
    taken_line.append(shape.taken());
    taken_line.append(";");
    program.line_at(2, taken_line.as_str());
    program.line_at(1, "} else {");
    let mut other = String::from_str("total += ");
    other.append(shape.other());
    other.append(";");
    program.line_at(2, other.as_str());
    program.line_at(1, "}");
    program.line("}");
    program.blank();
    let total = chained(7, shape);
    program.check(Ty::I64, "total", total as i128);
    assert(program.top_lines() =~~= seq![
        input_global(Ty::U32, "seed"@, 7),
        input_global(Ty::I32, "mask"@, CHAIN_MASK as int),
    ]);
    assert(program.body_lines() =~~= chain_body(shape));
    let axes = vec![axis("shape", shape.name())];
    let r = Case { axes, tags: tags_for(false), program };
    assert(r.axes_text() =~= seq![("shape"@, shape.name_text())]);
    assert(r.program.expected_values() =~= seq![chained_sum(7, shape, ROLLS as nat) as int]);
    r
}

/// Diamonds whose arms share a chain of operations and differ only at the bottom of it.
///
/// Factoring an operation both arms do out from under the branch, to a fixed point, leaves a
/// select between the two things at the bottom of the chain. The condition is the rate shapes'
/// generator at an even rate, so the branch is one no predictor learns. The last shape is the
/// control, where the two widenings differ and only the add can be shared.
pub fn if_conversion_chain() -> (r: Vec<Case>)
    ensures
        r@.len() == 3,
        is_chain_case(r@[0], ChainShape::SharedWidening),
        is_chain_case(r@[1], ChainShape::SharedMask),
        is_chain_case(r@[2], ChainShape::DifferentWidening),
{
    let mut out: Vec<Case> = Vec::new();
    out.push(chain_case(ChainShape::SharedWidening));
    out.push(chain_case(ChainShape::SharedMask));
    out.push(chain_case(ChainShape::DifferentWidening));
    out
}

/// Whether a chain round adds `value` from `state`: the next state, the byte and the test read
/// off the program's C, and the value of the arm the test picks on that byte and the mask.
pub open spec fn chain_round_means(state: u32, shape: ChainShape, value: i64) -> bool {
    exists|next: CExpr, draw: CExpr, test: CExpr|
        #[trigger] round_reads(
            next,
            draw,
            test,
            "(int)(state >> 24)"@,
            "(state >> 16) % 100u < 50u"@,
        ) && lcg(state) == stepped(next, state) && ({
            let env = seq![lcg(state) as u64, 0];
            value == shape.step_of(
                unsigned_value(test, env) != 0,
                unsigned_value(draw, env) as i64,
                CHAIN_MASK,
            )
        })
}

proof fn lemma_chain_round_witness(
    next: CExpr,
    draw: CExpr,
    test: CExpr,
    state: u32,
    shape: ChainShape,
    value: i64,
)
    requires
        round_reads(next, draw, test, "(int)(state >> 24)"@, "(state >> 16) % 100u < 50u"@),
        lcg(state) == stepped(next, state),
        ({
            let env = seq![lcg(state) as u64, 0];
            value == shape.step_of(
                unsigned_value(test, env) != 0,
                unsigned_value(draw, env) as i64,
                CHAIN_MASK,
            )
        }),
    ensures
        chain_round_means(state, shape, value),
{
}

/// What each round adds to a chain program's total is what its C computes from the state
/// before it: the generator's step, the byte and the test read off their lines, and the arm
/// the test picks (whose value the arms' law ties to its text), for every seed and round.
#[verifier::rlimit(100)]
pub proof fn lemma_chain_rounds_are_the_c(seed: u32, shape: ChainShape, n: nat)
    requires
        n > 0,
    ensures
        chain_round_means(
            lcg_after(seed, (n - 1) as nat),
            shape,
            i64_specs::wrapping_sub(
                chained_sum(seed, shape, n),
                chained_sum(seed, shape, (n - 1) as nat),
            ),
        ),
        chain_body(shape)[6] == indent(2) + "state = "@ + step_text() + ";"@,
        chain_body(shape)[7] == indent(2) + "int x = "@ + "(int)(state >> 24)"@ + ";"@,
        chain_body(shape)[8] == indent(2) + "if ("@ + "(state >> 16) % 100u < 50u"@ + ") {"@,
        chain_body(shape)[9] == indent(3) + "total += "@ + arm_text(shape, true) + ";"@,
        chain_body(shape)[11] == indent(3) + "total += "@ + arm_text(shape, false) + ";"@,
{
    let state = lcg_after(seed, (n - 1) as nat);
    let next = lemma_step_reads(state);
    reveal_with_fuel(spelled, 6);
    reveal_with_fuel(parsed, 6);
    reveal_with_fuel(unsigned_value, 6);
    reveal_with_fuel(crate::text::digits, 3);
    reveal_strlit("state");
    reveal_strlit("(");
    reveal_strlit(")");
    reveal_strlit(" ");
    reveal_strlit("%");
    reveal_strlit("<");
    reveal_strlit(">>");
    reveal_strlit("u");
    reveal_strlit("(int)");
    reveal_strlit("(int)(state >> 24)");
    reveal_strlit("(state >> 16) % 100u < 50u");
    assert(decimal(24) =~= seq!['2', '4']);
    assert(decimal(16) =~= seq!['1', '6']);
    assert(decimal(100) =~= seq!['1', '0', '0']);
    assert(decimal(50) =~= seq!['5', '0']);
    let st = CExpr::Name(0);
    let draw = CExpr::Cast(
        CastTo::Int,
        Box::new(CExpr::Paren(Box::new(CExpr::Bin(BinOp::Shr, Box::new(st), Box::new(CExpr::Num(24)))))),
    );
    let test = CExpr::Bin(
        BinOp::Lt,
        Box::new(CExpr::Bin(
            BinOp::Rem,
            Box::new(CExpr::Paren(Box::new(CExpr::Bin(BinOp::Shr, Box::new(st), Box::new(CExpr::Num(16)))))),
            Box::new(CExpr::NumU(100)),
        )),
        Box::new(CExpr::NumU(50)),
    );
    assert(spelled(draw, round_names()) =~= "(int)(state >> 24)"@);
    assert(spelled(test, round_names()) =~= "(state >> 16) % 100u < 50u"@);
    let m = lcg(state);
    let s = m as u64;
    assert((s >> 24u64) == ((m >> 24u32) as u64) && (s >> 24u64) < 256) by (bit_vector)
        requires
            s == m as u64,
    ;
    assert((s >> 16u64) == ((m >> 16u32) as u64)) by (bit_vector)
        requires
            s == m as u64,
    ;
    let env = seq![s, 0];
    assert(unsigned_value(draw, env) == (m >> 24u32) as u64);
    assert(unsigned_value(test, env) == if ((m >> 16u32) % 100) < 50 { 1u64 } else { 0u64 });
    assert(lcg_after(seed, n) == m);
    let prev = chained_sum(seed, shape, (n - 1) as nat);
    let v = shape.step_of((m >> 16u32) % 100 < 50, (m >> 24u32) as i64, CHAIN_MASK);
    assert(chained_sum(seed, shape, n) == i64_specs::wrapping_add(prev, v));
    assert(i64_specs::wrapping_sub(i64_specs::wrapping_add(prev, v), prev) == v);
    lemma_chain_round_witness(next, draw, test, state, shape, v);
    reveal_strlit("state = state * 1103515245u + 12345u;");
    reveal_strlit("state = ");
    reveal_strlit(";");
    reveal_strlit("state * 1103515245u + 12345u");
    reveal_strlit("int x = (int)(state >> 24);");
    reveal_strlit("int x = ");
    reveal_strlit("if ((state >> 16) % 100u < 50u) {");
    reveal_strlit("if (");
    reveal_strlit(") {");
    let b = chain_body(shape);
    assert(b[6] =~= indent(2) + "state = "@ + step_text() + ";"@);
    assert(b[7] =~= indent(2) + "int x = "@ + "(int)(state >> 24)"@ + ";"@);
    assert(b[8] =~= indent(2) + "if ("@ + "(state >> 16) % 100u < 50u"@ + ") {"@);
}

/// What each round adds to a rate program's total is what its C computes from the state before
/// it, for every seed, rate and round.
pub proof fn lemma_rate_rounds_are_the_c(seed: u32, rate: u32, n: nat)
    requires
        n > 0,
    ensures
        rate_round_means(
            lcg_after(seed, (n - 1) as nat),
            rate,
            u64_specs::wrapping_sub(rolled_sum(seed, rate, n), rolled_sum(seed, rate, (n - 1) as nat)),
        ),
{
    let state = lcg_after(seed, (n - 1) as nat);
    lemma_rate_round_reads(state, rate);
    let prev = rolled_sum(seed, rate, (n - 1) as nat);
    let v = roll_value(lcg(state), rate);
    assert(lcg_after(seed, n) == lcg(state));
    assert(u64_specs::wrapping_sub(u64_specs::wrapping_add(prev, v), prev) == v);
}

/// The control widens one arm without a sign, which is the same number for a byte, so it adds
/// up exactly what the plain shared widening does, round for round.
pub proof fn lemma_control_adds_what_the_plain_shape_does(seed: u32, n: nat)
    ensures
        chained_sum(seed, ChainShape::DifferentWidening, n) == chained_sum(
            seed,
            ChainShape::SharedWidening,
            n,
        ),
    decreases n,
{
    if n > 0 {
        lemma_control_adds_what_the_plain_shape_does(seed, (n - 1) as nat);
    }
}

} // verus!
