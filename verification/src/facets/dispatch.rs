//! Switches called often enough that how they were lowered shows up in the clock.
//!
//! Every case here dispatches a switch ten million times on a stream of values filled from a
//! linear congruential generator, and the generator works the answer out from one pass over
//! the stream, since the count is a whole number of passes.

use vstd::prelude::*;
use vstd::string::*;
use vstd::wrapping::{u32_specs, u64_specs};
use crate::emit::{Program, input_global, input_read, indent, print_line};
use crate::lang::Ty;
use crate::text::{decimal, push_decimal};
use crate::facets::{Case, SEED, axis};
use crate::cexpr::{BinOp, CExpr, reads_as, unsigned_value, spelled, parsed};
use crate::facets::conversion::{lemma_step_reads, round_names, step_text, stepped};
use crate::facets::draws::{KNOWN_DRAWS, draw, drawn, unaligned, lemma_draws_cover};

verus! {

/// How many values a dispatch stream holds: a power of two, so the walk over it is an `and`,
/// and long enough that no branch predictor learns it.
pub const STREAM: i128 = 4096;

/// How many times a dispatch case goes round its loop, a whole number of passes over the
/// stream.
pub const DISPATCHES: i128 = 10_240_000;

/// The multiplier of the generator that fills an unpredictable stream.
pub const LCG_MUL: u32 = 1_103_515_245;

/// The addend of the generator.
pub const LCG_ADD: u32 = 12_345;

/// One step of the stream generator, in `unsigned` arithmetic.
pub open spec fn lcg(state: u32) -> u32 {
    u32_specs::wrapping_add(u32_specs::wrapping_mul(state, LCG_MUL), LCG_ADD)
}

/// The generator's state after `k` steps from `seed`.
pub open spec fn lcg_after(seed: u32, k: nat) -> u32
    decreases k,
{
    if k == 0 {
        seed
    } else {
        lcg(lcg_after(seed, (k - 1) as nat))
    }
}

/// One step of the stream generator.
pub fn lcg_step(state: u32) -> (r: u32)
    ensures
        r == lcg(state),
{
    state.wrapping_mul(LCG_MUL).wrapping_add(LCG_ADD)
}

/// The answers of the shape that is deliberately not a line: no single multiple and offset
/// gives all sixteen.
pub open spec fn scatter_table() -> Seq<int> {
    seq![7, 3, 91, 4, 55, 6, 2, 80, 9, 41, 11, 12, 63, 14, 15, 16]
}

/// One of the scattered answers.
pub fn scatter(step: usize) -> (r: i128)
    requires
        step < 16,
    ensures
        r == scatter_table()[step as int],
{
    let table: [i128; 16] = [7, 3, 91, 4, 55, 6, 2, 80, 9, 41, 11, 12, 63, 14, 15, 16];
    assert(table@.map_values(|v: i128| v as int) =~= scatter_table());
    assert(table@[step as int] as int == scatter_table()[step as int]);
    table[step]
}

/// The label range and the answers of one switch this facet dispatches.
#[derive(Clone, Copy, Debug, PartialEq, Eq, Structural)]
pub enum SwitchShape {
    /// Answers on a line, one more than the step.
    Affine,
    /// Answers that are no line.
    Scattered,
    /// Every label gives one.
    ConstantArms,
    /// Labels from minus eight.
    BelowZero,
    /// Labels at the top of `int`, answers three times the step plus one.
    NearTheEdge,
    /// The last label falls into the default.
    SharedDefault,
    /// Five labels, scattered answers.
    FiveLabels,
    /// Six labels, scattered answers.
    SixLabels,
    /// Seven labels, scattered answers.
    SevenLabels,
    /// Eight labels, scattered answers.
    EightLabels,
    /// A label at every other value.
    Holes,
    /// Answers over a million.
    WideAnswers,
    /// Answers just below zero.
    NegativeAnswers,
    /// A switch on the value masked to sixteen labels.
    Masked,
    /// A switch on the value masked to four labels.
    MaskedFour,
}

impl SwitchShape {
    /// The lowest label.
    pub open spec fn base_of(self) -> int {
        match self {
            SwitchShape::ConstantArms => 9,
            SwitchShape::BelowZero => -8,
            SwitchShape::NearTheEdge => 2_147_483_627,
            _ => 0,
        }
    }

    /// How many labels there are.
    pub open spec fn labels_of(self) -> int {
        match self {
            SwitchShape::ConstantArms | SwitchShape::EightLabels => 8,
            SwitchShape::FiveLabels => 5,
            SwitchShape::SixLabels => 6,
            SwitchShape::SevenLabels => 7,
            SwitchShape::MaskedFour => 4,
            _ => 16,
        }
    }

    /// How many values the stream draws from, counting up from the base: wider than the
    /// labels, so a fifth of the dispatches reach the default.
    pub open spec fn span_of(self) -> int {
        match self {
            SwitchShape::ConstantArms | SwitchShape::EightLabels => 10,
            SwitchShape::FiveLabels => 7,
            SwitchShape::SixLabels => 8,
            SwitchShape::SevenLabels => 9,
            SwitchShape::Holes => 36,
            _ => 20,
        }
    }

    /// Whether the switch is on the value masked to its labels.
    pub open spec fn is_masked(self) -> bool {
        self == SwitchShape::Masked || self == SwitchShape::MaskedFour
    }

    /// The axis value, which is also the name of the emitted function once its dashes are
    /// underscores.
    pub open spec fn name_text(self) -> Seq<char> {
        match self {
            SwitchShape::Affine => "affine"@,
            SwitchShape::Scattered => "scattered"@,
            SwitchShape::ConstantArms => "constant-arms"@,
            SwitchShape::BelowZero => "below-zero"@,
            SwitchShape::NearTheEdge => "near-the-edge"@,
            SwitchShape::SharedDefault => "shared-default"@,
            SwitchShape::FiveLabels => "five-labels"@,
            SwitchShape::SixLabels => "six-labels"@,
            SwitchShape::SevenLabels => "seven-labels"@,
            SwitchShape::EightLabels => "eight-labels"@,
            SwitchShape::Holes => "holes"@,
            SwitchShape::WideAnswers => "wide-answers"@,
            SwitchShape::NegativeAnswers => "negative-answers"@,
            SwitchShape::Masked => "masked"@,
            SwitchShape::MaskedFour => "masked-four"@,
        }
    }

    /// The lowest label.
    pub fn base(self) -> (r: i128)
        ensures
            r == self.base_of(),
    {
        match self {
            SwitchShape::ConstantArms => 9,
            SwitchShape::BelowZero => -8,
            SwitchShape::NearTheEdge => 2_147_483_627,
            _ => 0,
        }
    }

    /// How many labels there are.
    pub fn labels(self) -> (r: i128)
        ensures
            r == self.labels_of(),
    {
        match self {
            SwitchShape::ConstantArms | SwitchShape::EightLabels => 8,
            SwitchShape::FiveLabels => 5,
            SwitchShape::SixLabels => 6,
            SwitchShape::SevenLabels => 7,
            SwitchShape::MaskedFour => 4,
            _ => 16,
        }
    }

    /// How many values the stream draws from.
    pub fn span(self) -> (r: i128)
        ensures
            r == self.span_of(),
    {
        match self {
            SwitchShape::ConstantArms | SwitchShape::EightLabels => 10,
            SwitchShape::FiveLabels => 7,
            SwitchShape::SixLabels => 8,
            SwitchShape::SevenLabels => 9,
            SwitchShape::Holes => 36,
            _ => 20,
        }
    }

    /// Whether the switch is on the value masked to its labels.
    pub fn masked(self) -> (r: bool)
        ensures
            r == self.is_masked(),
    {
        self == SwitchShape::Masked || self == SwitchShape::MaskedFour
    }

    /// The axis value.
    pub fn name(self) -> (r: &'static str)
        ensures
            r@ == self.name_text(),
    {
        match self {
            SwitchShape::Affine => "affine",
            SwitchShape::Scattered => "scattered",
            SwitchShape::ConstantArms => "constant-arms",
            SwitchShape::BelowZero => "below-zero",
            SwitchShape::NearTheEdge => "near-the-edge",
            SwitchShape::SharedDefault => "shared-default",
            SwitchShape::FiveLabels => "five-labels",
            SwitchShape::SixLabels => "six-labels",
            SwitchShape::SevenLabels => "seven-labels",
            SwitchShape::EightLabels => "eight-labels",
            SwitchShape::Holes => "holes",
            SwitchShape::WideAnswers => "wide-answers",
            SwitchShape::NegativeAnswers => "negative-answers",
            SwitchShape::Masked => "masked",
            SwitchShape::MaskedFour => "masked-four",
        }
    }
}

/// Every shape, in the order the facet walks them.
pub open spec fn all_shapes() -> Seq<SwitchShape> {
    seq![
        SwitchShape::Affine,
        SwitchShape::Scattered,
        SwitchShape::ConstantArms,
        SwitchShape::BelowZero,
        SwitchShape::NearTheEdge,
        SwitchShape::SharedDefault,
        SwitchShape::FiveLabels,
        SwitchShape::SixLabels,
        SwitchShape::SevenLabels,
        SwitchShape::EightLabels,
        SwitchShape::Holes,
        SwitchShape::WideAnswers,
        SwitchShape::NegativeAnswers,
        SwitchShape::Masked,
        SwitchShape::MaskedFour,
    ]
}

/// Every shape, in the order the facet walks them.
pub fn shapes() -> (r: Vec<SwitchShape>)
    ensures
        r@ == all_shapes(),
{
    let r = vec![
        SwitchShape::Affine,
        SwitchShape::Scattered,
        SwitchShape::ConstantArms,
        SwitchShape::BelowZero,
        SwitchShape::NearTheEdge,
        SwitchShape::SharedDefault,
        SwitchShape::FiveLabels,
        SwitchShape::SixLabels,
        SwitchShape::SevenLabels,
        SwitchShape::EightLabels,
        SwitchShape::Holes,
        SwitchShape::WideAnswers,
        SwitchShape::NegativeAnswers,
        SwitchShape::Masked,
        SwitchShape::MaskedFour,
    ];
    assert(r@ =~= all_shapes());
    r
}

/// The label the arm at `step` answers for: one apart, or two apart for `holes`.
pub open spec fn label_of(shape: SwitchShape, step: int) -> int {
    if shape == SwitchShape::Holes {
        shape.base_of() + 2 * step
    } else {
        shape.base_of() + step
    }
}

/// The answer of the arm at a step in range, for the shapes that are not masked.
pub open spec fn arm_answer(shape: SwitchShape, step: int) -> int {
    match shape {
        SwitchShape::Affine | SwitchShape::BelowZero => step + 1,
        SwitchShape::NearTheEdge => 3 * step + 1,
        SwitchShape::ConstantArms => 1,
        SwitchShape::WideAnswers => scatter_table()[step] * 1_000_003,
        SwitchShape::NegativeAnswers => -scatter_table()[step],
        SwitchShape::SharedDefault => if step == shape.labels_of() - 1 {
            0
        } else {
            step + 1
        },
        _ => scatter_table()[step],
    }
}

/// The answer one of these switches gives for a value, with zero for the default.
///
/// A masked switch looks at the value modulo its label count, so every value reaches a label.
/// `holes` sends a value between two labels to the default.
pub open spec fn answer_of(shape: SwitchShape, value: int) -> int {
    let raw = value - shape.base_of();
    if shape.is_masked() {
        scatter_table()[raw % shape.labels_of()]
    } else if shape == SwitchShape::Holes && raw % 2 != 0 {
        0
    } else {
        let step = if shape == SwitchShape::Holes { raw / 2 } else { raw };
        if step < 0 || step >= shape.labels_of() {
            0
        } else {
            arm_answer(shape, step)
        }
    }
}

/// The label a shape's arm at `step` answers for.
pub fn dispatch_label(shape: SwitchShape, step: i128) -> (r: i128)
    requires
        shape == SwitchShape::Holes ==> i128::MIN <= 2 * step <= i128::MAX,
        i128::MIN <= label_of(shape, step as int) <= i128::MAX,
    ensures
        r == label_of(shape, step as int),
{
    if shape == SwitchShape::Holes {
        shape.base() + 2 * step
    } else {
        shape.base() + step
    }
}

/// What the arm at `step` returns, for a step in range.
fn arm(shape: SwitchShape, step: i128) -> (r: i128)
    requires
        0 <= step < shape.labels_of(),
        !shape.is_masked(),
    ensures
        r == arm_answer(shape, step as int),
{
    match shape {
        SwitchShape::Affine | SwitchShape::BelowZero => step + 1,
        SwitchShape::NearTheEdge => 3 * step + 1,
        SwitchShape::ConstantArms => 1,
        SwitchShape::WideAnswers => scatter(step as usize) * 1_000_003,
        SwitchShape::NegativeAnswers => -scatter(step as usize),
        SwitchShape::SharedDefault => {
            if step == shape.labels() - 1 {
                0
            } else {
                step + 1
            }
        },
        _ => scatter(step as usize),
    }
}

proof fn lemma_lowest_bit(x: i128)
    ensures
        (x & 1) == x % 2,
{
    assert((x & 1) == x % 2) by (bit_vector);
}

proof fn lemma_half(x: i128)
    requires
        x % 2 == 0,
    ensures
        x >> 1 == x / 2,
{
    assert(x % 2 == 0 ==> x >> 1 == x / 2) by (bit_vector);
}

proof fn lemma_low_bits(x: i128)
    ensures
        x & 15 == x % 16,
        x & 3 == x % 4,
{
    assert(x & 15 == x % 16) by (bit_vector);
    assert(x & 3 == x % 4) by (bit_vector);
}

/// The answer one of these switches gives for a value, with zero for the default.
pub fn dispatch_answer(shape: SwitchShape, value: i128) -> (r: i128)
    requires
        i128::MIN <= value - shape.base_of() <= i128::MAX,
    ensures
        r == answer_of(shape, value as int),
{
    let raw = value - shape.base();
    if shape.masked() {
        proof {
            lemma_low_bits(raw);
        }
        let index = raw & (shape.labels() - 1);
        return scatter(index as usize);
    }
    let low = raw & 1;
    proof {
        lemma_lowest_bit(raw);
    }
    let odd = low != 0;
    if shape == SwitchShape::Holes && odd {
        return 0;
    }
    let step = if shape == SwitchShape::Holes {
        assert(raw as int % 2 == 0);
        proof {
            lemma_half(raw);
        }
        raw >> 1
    } else {
        raw
    };
    if step < 0 || step >= shape.labels() {
        return 0;
    }
    arm(shape, step)
}

/// Answers stay small: no dispatch answer is a hundred million or more away from zero.
pub proof fn lemma_answer_bounded(shape: SwitchShape, value: int)
    ensures
        -100_000_000 < answer_of(shape, value) < 100_000_000,
{
    let raw = value - shape.base_of();
    if shape.is_masked() {
        assert(0 <= raw % shape.labels_of() < shape.labels_of());
    }
    let s = scatter_table();
    assert(forall|i: int| 0 <= i < 16 ==> 0 < #[trigger] s[i] < 100);
}

/// A name with its dashes turned into underscores, so C accepts it.
pub open spec fn underscored(s: Seq<char>) -> Seq<char> {
    s.map_values(|c: char| if c == '-' { '_' } else { c })
}

/// A name with its dashes turned into underscores.
pub fn underscore(s: &str) -> (r: String)
    ensures
        r@ == underscored(s@),
{
    let mut out = String::new();
    let n = s.unicode_len();
    let mut i: usize = 0;
    while i < n
        invariant
            n == s@.len(),
            i <= n,
            out@ == underscored(s@).take(i as int),
        decreases n - i,
    {
        let c = s.get_char(i);
        if c == '-' {
            crate::text::push_char(&mut out, '_');
        } else {
            crate::text::push_char(&mut out, c);
        }
        assert(underscored(s@).take(i + 1) =~= underscored(s@).take(i as int).push(
            underscored(s@)[i as int],
        ));
        i += 1;
    }
    assert(underscored(s@).take(n as int) =~= underscored(s@));
    out
}

/// The C name of a shape's function.
pub fn dispatch_name(shape: SwitchShape) -> (r: String)
    ensures
        r@ == underscored(shape.name_text()),
{
    underscore(shape.name())
}

/// Where the stream's value at `at` sits above the base: counting round the span for the
/// in-order stream, and bits sixteen and up of the generator for the unpredictable one, since
/// the low bits of a generator like this have short periods.
pub open spec fn stream_step(shape: SwitchShape, ordered: bool, at: int) -> int {
    if ordered {
        (at + SEED) % shape.span_of()
    } else {
        ((lcg_after(SEED as u32, (at + 1) as nat) >> 16u32) as int) % shape.span_of()
    }
}

/// The values a stream holds, in the order the fill writes them.
pub open spec fn stream_of(shape: SwitchShape, ordered: bool) -> Seq<int> {
    Seq::new(STREAM as nat, |at: int| shape.base_of() + stream_step(shape, ordered, at))
}

/// The values a stream holds, in the order the fill writes them.
///
/// This is the same arithmetic the emitted C does, written twice on purpose, because the
/// expected answer has to come from the generator rather than from a reference compiler.
pub fn dispatch_stream(shape: SwitchShape, ordered: bool) -> (r: Vec<i128>)
    ensures
        r@.map_values(|v: i128| v as int) == stream_of(shape, ordered),
{
    let span = shape.span();
    let base = shape.base();
    let mut state: u32 = SEED as u32;
    let mut out: Vec<i128> = Vec::new();
    let mut at: i128 = 0;
    while at < STREAM
        invariant
            0 <= at <= STREAM,
            span == shape.span_of(),
            base == shape.base_of(),
            out@.len() == at,
            !ordered ==> state == lcg_after(SEED as u32, at as nat),
            forall|i: int|
                0 <= i < at ==> #[trigger] out@[i] as int == shape.base_of() + stream_step(
                    shape,
                    ordered,
                    i,
                ),
        decreases STREAM - at,
    {
        let step: i128 = if ordered {
            (((at + SEED) as u128) % (span as u128)) as i128
        } else {
            state = lcg_step(state);
            ((state >> 16u32) % (span as u32)) as i128
        };
        out.push(base + step);
        at += 1;
    }
    assert(out@.map_values(|v: i128| v as int) =~= stream_of(shape, ordered));
    out
}

/// Every value of a stream is within the span above the base.
pub proof fn lemma_stream_in_span(shape: SwitchShape, ordered: bool)
    ensures
        stream_of(shape, ordered).len() == STREAM,
        forall|i: int|
            0 <= i < STREAM ==> shape.base_of() <= #[trigger] stream_of(shape, ordered)[i]
                < shape.base_of() + shape.span_of(),
{
    assert forall|i: int| 0 <= i < STREAM implies shape.base_of() <= #[trigger] stream_of(
        shape,
        ordered,
    )[i] < shape.base_of() + shape.span_of() by {
        let span = shape.span_of();
        if ordered {
            vstd::arithmetic::div_mod::lemma_mod_bound(i + SEED, span);
        } else {
            let x = (lcg_after(SEED as u32, (i + 1) as nat) >> 16u32) as int;
            vstd::arithmetic::div_mod::lemma_mod_bound(x, span);
        }
    }
}

/// Whether a stream holds the value `k` above the base somewhere.
pub open spec fn stream_takes(shape: SwitchShape, ordered: bool, k: int) -> bool {
    exists|at: int| 0 <= at < STREAM && #[trigger] stream_of(shape, ordered)[at] == shape.base_of() + k
}

/// Whether shifting a stream by `p` places moves one of its values.
pub open spec fn stream_moves(shape: SwitchShape, ordered: bool, p: int) -> bool {
    exists|i: int|
        0 <= i && i + p < STREAM && #[trigger] stream_of(shape, ordered)[i] != stream_of(
            shape,
            ordered,
        )[i + p]
}

/// What a stream is made of. The unpredictable one takes every value of its span, so every
/// label and the default too, and it has no period of sixty four or less; the in-order one
/// counts round the span from the seed.
pub proof fn lemma_stream_reaches_every_value(shape: SwitchShape)
    ensures
        stream_of(shape, false).len() == STREAM,
        forall|k: int| 0 <= k < shape.span_of() ==> #[trigger] stream_takes(shape, false, k),
        shape.labels_of() < shape.span_of(),
        exists|at: int|
            0 <= at < STREAM && #[trigger] stream_of(shape, false)[at] >= shape.base_of()
                + shape.labels_of(),
        forall|p: int| 1 <= p <= 64 ==> #[trigger] stream_moves(shape, false, p),
        forall|at: int|
            0 <= at < STREAM ==> #[trigger] stream_of(shape, true)[at] == shape.base_of() + (at
                + SEED) % shape.span_of(),
{
    let span = shape.span_of();
    let base = shape.base_of();
    let s = stream_of(shape, false);
    lemma_draws_cover(span);
    assert forall|at: int| 0 <= at < STREAM implies #[trigger] s[at] == base + draw(at) % span by {}
    assert forall|k: int| 0 <= k < span implies #[trigger] stream_takes(shape, false, k) by {
        assert(drawn(span, k));
        let at = choose|at: int| 0 <= at < KNOWN_DRAWS && #[trigger] draw(at) % span == k;
        assert(s[at] == base + k);
    }
    assert(drawn(span, shape.labels_of()));
    let at = choose|at: int| 0 <= at < KNOWN_DRAWS && #[trigger] draw(at) % span
        == shape.labels_of();
    assert(s[at] >= base + shape.labels_of());
    assert forall|p: int| 1 <= p <= 64 implies #[trigger] stream_moves(shape, false, p) by {
        assert(unaligned(span, p));
        let i = choose|i: int| 0 <= i <= 2 && #[trigger] draw(i) % span != draw(i + p) % span;
        assert(s[i] != s[i + p]);
    }
}

/// What a switch adds up over a list of values.
pub open spec fn answer_sum(shape: SwitchShape, values: Seq<int>) -> int
    decreases values.len(),
{
    if values.len() == 0 {
        0
    } else {
        answer_sum(shape, values.drop_last()) + answer_of(shape, values.last())
    }
}

/// What one pass over a stream adds up to.
pub open spec fn per_pass(shape: SwitchShape, ordered: bool) -> int {
    answer_sum(shape, stream_of(shape, ordered))
}

proof fn lemma_answer_sum_bounded(shape: SwitchShape, values: Seq<int>)
    ensures
        -100_000_000 * values.len() <= answer_sum(shape, values) <= 100_000_000 * values.len(),
    decreases values.len(),
{
    if values.len() > 0 {
        lemma_answer_sum_bounded(shape, values.drop_last());
        lemma_answer_bounded(shape, values.last());
    }
}

/// Adds up what a switch answers over a list of values.
fn sum_answers(shape: SwitchShape, values: &Vec<i128>) -> (r: i128)
    requires
        values@.len() <= STREAM,
        forall|i: int|
            0 <= i < values@.len() ==> -0x1000_0000_0000_0000 <= #[trigger] values@[i]
                <= 0x1000_0000_0000_0000,
    ensures
        r == answer_sum(shape, values@.map_values(|v: i128| v as int)),
{
    let n = values.len();
    let ghost all = values@.map_values(|v: i128| v as int);
    let mut total: i128 = 0;
    let mut i: usize = 0;
    assert(all.take(0) =~= Seq::<int>::empty());
    while i < n
        invariant
            n == values@.len(),
            n <= STREAM,
            all == values@.map_values(|v: i128| v as int),
            forall|k: int|
                0 <= k < values@.len() ==> -0x1000_0000_0000_0000 <= #[trigger] values@[k]
                    <= 0x1000_0000_0000_0000,
            i <= n,
            total == answer_sum(shape, all.take(i as int)),
        decreases n - i,
    {
        proof {
            lemma_answer_sum_bounded(shape, all.take(i as int));
            lemma_answer_bounded(shape, values@[i as int] as int);
        }
        let a = dispatch_answer(shape, values[i]);
        assert(all.take(i + 1).drop_last() =~= all.take(i as int));
        total = total + a;
        i += 1;
    }
    assert(all.take(n as int) =~= all);
    total
}

/// What one pass over a shape's stream adds up to.
pub fn pass_total(shape: SwitchShape, ordered: bool) -> (r: i128)
    ensures
        r == per_pass(shape, ordered),
        -409_600_000_000 <= r <= 409_600_000_000,
{
    let values = dispatch_stream(shape, ordered);
    proof {
        lemma_stream_in_span(shape, ordered);
        assert forall|i: int| 0 <= i < values@.len() implies -0x1000_0000_0000_0000
            <= #[trigger] values@[i] <= 0x1000_0000_0000_0000 by {
            assert(values@.map_values(|v: i128| v as int)[i] == stream_of(shape, ordered)[i]);
        }
        lemma_answer_sum_bounded(shape, stream_of(shape, ordered));
    }
    sum_answers(shape, &values)
}

/// The line that opens a shape's function.
pub open spec fn switch_open(shape: SwitchShape) -> Seq<char> {
    "static int "@ + underscored(shape.name_text()) + "(int value) {"@
}

/// The line that opens the switch: on the value, or on the value masked to the labels.
pub open spec fn switch_head(shape: SwitchShape) -> Seq<char> {
    if shape.is_masked() {
        "    switch (value & "@ + decimal(shape.labels_of() - 1) + ") {"@
    } else {
        "    switch (value) {"@
    }
}

/// The line for the arm at a step. The last label of `shared-default` has no body, so it falls
/// into the default.
pub open spec fn arm_line(shape: SwitchShape, step: int) -> Seq<char> {
    let label = label_of(shape, step);
    if shape == SwitchShape::SharedDefault && step == shape.labels_of() - 1 {
        "    case "@ + decimal(label) + ":"@
    } else {
        "    case "@ + decimal(label) + ": return "@ + decimal(answer_of(shape, label)) + ";"@
    }
}

/// The whole function a dispatch case calls, one arm per label.
pub open spec fn switch_lines(shape: SwitchShape) -> Seq<Seq<char>> {
    seq![switch_open(shape), switch_head(shape)] + Seq::new(
        shape.labels_of() as nat,
        |step: int| arm_line(shape, step),
    ) + seq!["    default: return 0;"@, "    }"@, "}"@]
}

/// Writes the switch a dispatch case calls, one arm per label.
pub fn dispatch_switch(program: &mut Program, shape: SwitchShape)
    ensures
        final(program).top_lines() == old(program).top_lines() + switch_lines(shape),
        final(program).purpose_text() == old(program).purpose_text(),
        final(program).include_lines() == old(program).include_lines(),
        final(program).body_lines() == old(program).body_lines(),
        final(program).expected_values() == old(program).expected_values(),
        final(program).sinks() == old(program).sinks(),
{
    let ghost start = program.top_lines();
    let mut open = String::from_str("static int ");
    let name = dispatch_name(shape);
    open.append(name.as_str());
    open.append("(int value) {");
    program.top(open.as_str());
    if shape.masked() {
        let mut head = String::from_str("    switch (value & ");
        push_decimal(&mut head, shape.labels() - 1);
        head.append(") {");
        program.top(head.as_str());
    } else {
        program.top("    switch (value) {");
    }
    let labels = shape.labels();
    let ghost arms = Seq::new(shape.labels_of() as nat, |step: int| arm_line(shape, step));
    let mut step: i128 = 0;
    assert(program.top_lines() =~= start + seq![switch_open(shape), switch_head(shape)]
        + arms.take(0));
    while step < labels
        invariant
            labels == shape.labels_of(),
            0 <= step <= labels,
            arms == Seq::new(shape.labels_of() as nat, |step: int| arm_line(shape, step)),
            program.top_lines() == start + seq![switch_open(shape), switch_head(shape)]
                + arms.take(step as int),
            program.purpose_text() == old(program).purpose_text(),
            program.include_lines() == old(program).include_lines(),
            program.body_lines() == old(program).body_lines(),
            program.expected_values() == old(program).expected_values(),
            program.sinks() == old(program).sinks(),
        decreases labels - step,
    {
        let label = dispatch_label(shape, step);
        let mut line = String::from_str("    case ");
        push_decimal(&mut line, label);
        if shape == SwitchShape::SharedDefault && step == labels - 1 {
            line.append(":");
        } else {
            line.append(": return ");
            push_decimal(&mut line, dispatch_answer(shape, label));
            line.append(";");
        }
        assert(line@ == arm_line(shape, step as int));
        program.top(line.as_str());
        assert(arms.take(step + 1) =~= arms.take(step as int).push(arm_line(shape, step as int)));
        step += 1;
    }
    program.top("    default: return 0;");
    program.top("    }");
    program.top("}");
    assert(arms.take(labels as int) =~= arms);
    assert(program.top_lines() =~= start + switch_lines(shape));
}

/// What goes in front of the stream's step: nothing when the labels start at zero, so the
/// emitted C reads the way somebody would have written it.
pub open spec fn base_prefix(shape: SwitchShape) -> Seq<char> {
    if shape.base_of() == 0 {
        Seq::empty()
    } else {
        decimal(shape.base_of()) + " + "@
    }
}

/// The statements that fill the stream.
pub open spec fn fill_lines(shape: SwitchShape, ordered: bool) -> Seq<Seq<char>> {
    if ordered {
        seq![
            indent(1) + "for (int at = 0; at < 4096; at++) {"@,
            indent(2) + "stream[at] = "@ + base_prefix(shape) + "(at + seed) % "@ + decimal(
                shape.span_of(),
            ) + ";"@,
        ]
    } else {
        seq![
            indent(1) + "unsigned int state = (unsigned int)seed;"@,
            indent(1) + "for (int at = 0; at < 4096; at++) {"@,
            indent(2) + "state = state * 1103515245u + 12345u;"@,
            indent(2) + "stream[at] = "@ + base_prefix(shape) + "(int)((state >> 16) % "@
                + decimal(shape.span_of()) + "u);"@,
        ]
    }
}

/// The statements of a dispatch case's `main`: the opaque seed and count, the fill, and the
/// loop that dispatches.
pub open spec fn loop_lines(shape: SwitchShape, ordered: bool) -> Seq<Seq<char>> {
    seq![
        input_read(Ty::I32, "seed"@),
        input_read(Ty::I32, "count"@),
        Seq::<char>::empty(),
        indent(1) + "int stream[4096];"@,
    ] + fill_lines(shape, ordered) + walk_lines(shape)
}

/// The globals a dispatch case reads its seed and count from.
pub open spec fn loop_globals() -> Seq<Seq<char>> {
    seq![input_global(Ty::I32, "seed"@, SEED as int), input_global(Ty::I32, "count"@, DISPATCHES as int)]
}

/// Writes the statements that fill the stream.
fn write_fill(program: &mut Program, shape: SwitchShape, ordered: bool)
    ensures
        final(program).body_lines() == old(program).body_lines() + fill_lines(shape, ordered),
        final(program).top_lines() == old(program).top_lines(),
        final(program).expected_values() == old(program).expected_values(),
        final(program).purpose_text() == old(program).purpose_text(),
        final(program).include_lines() == old(program).include_lines(),
        final(program).sinks() == old(program).sinks(),
{
    let ghost body1 = program.body_lines();
    let mut from = String::new();
    if shape.base() != 0 {
        push_decimal(&mut from, shape.base());
        from.append(" + ");
    }
    assert(from@ =~= base_prefix(shape));
    if ordered {
        program.line("for (int at = 0; at < 4096; at++) {");
        let mut fill = String::from_str("stream[at] = ");
        fill.append(from.as_str());
        fill.append("(at + seed) % ");
        push_decimal(&mut fill, shape.span());
        fill.append(";");
        program.line_at(1, fill.as_str());
        assert(fill@ =~= "stream[at] = "@ + base_prefix(shape) + "(at + seed) % "@ + decimal(
            shape.span_of(),
        ) + ";"@);
        assert(program.body_lines() =~~= body1 + fill_lines(shape, ordered));
    } else {
        program.line("unsigned int state = (unsigned int)seed;");
        program.line("for (int at = 0; at < 4096; at++) {");
        program.line_at(1, "state = state * 1103515245u + 12345u;");
        let mut fill = String::from_str("stream[at] = ");
        fill.append(from.as_str());
        fill.append("(int)((state >> 16) % ");
        push_decimal(&mut fill, shape.span());
        fill.append("u);");
        program.line_at(1, fill.as_str());
        assert(fill@ =~= "stream[at] = "@ + base_prefix(shape) + "(int)((state >> 16) % "@
            + decimal(shape.span_of()) + "u);"@);
        assert(program.body_lines() =~~= body1 + fill_lines(shape, ordered));
    }
}

/// The statements after the fill: the loop that dispatches and the check on its total.
pub open spec fn walk_lines(shape: SwitchShape) -> Seq<Seq<char>> {
    seq![
        indent(1) + "}"@,
        Seq::<char>::empty(),
        indent(1) + "long long total = 0;"@,
        indent(1) + "for (int at = 0; at < count; at++) {"@,
        indent(2) + "total += "@ + underscored(shape.name_text()) + "(stream[at & 4095]);"@,
        indent(1) + "}"@,
        Seq::<char>::empty(),
        print_line(1, Ty::I64, "total"@),
    ]
}

/// Writes the loop that dispatches and the check on what it added up to.
fn write_dispatches(program: &mut Program, shape: SwitchShape, total: i128)
    ensures
        final(program).body_lines() == old(program).body_lines() + walk_lines(shape),
        final(program).expected_values() == old(program).expected_values().push(total as int),
        final(program).top_lines() == old(program).top_lines(),
        final(program).purpose_text() == old(program).purpose_text(),
        final(program).include_lines() == old(program).include_lines(),
        final(program).sinks() == old(program).sinks(),
{
    let ghost body0 = program.body_lines();
    program.line("}");
    program.blank();
    program.line("long long total = 0;");
    program.line("for (int at = 0; at < count; at++) {");
    let name = dispatch_name(shape);
    let mut call = String::from_str("total += ");
    call.append(name.as_str());
    call.append("(stream[at & 4095]);");
    program.line_at(1, call.as_str());
    program.line("}");
    program.blank();
    program.check(Ty::I64, "total", total);
    assert(program.body_lines() =~~= body0 + walk_lines(shape));
}

/// Writes the fill, the dispatch loop and the check on what the loop added up to.
///
/// The count is a whole number of passes over the stream, so the answer is one pass times
/// the number of passes.
pub fn dispatch_loop(program: &mut Program, shape: SwitchShape, ordered: bool)
    ensures
        final(program).top_lines() == old(program).top_lines() + loop_globals(),
        final(program).body_lines() == old(program).body_lines() + loop_lines(shape, ordered),
        final(program).expected_values() == old(program).expected_values().push(
            per_pass(shape, ordered) * (DISPATCHES / STREAM),
        ),
        final(program).purpose_text() == old(program).purpose_text(),
        final(program).include_lines() == old(program).include_lines(),
        final(program).sinks() == old(program).sinks(),
{
    let ghost top0 = program.top_lines();
    let ghost body0 = program.body_lines();
    let per_pass = pass_total(shape, ordered);
    program.input(Ty::I32, "seed", SEED);
    program.input(Ty::I32, "count", DISPATCHES);
    program.blank();
    program.line("int stream[4096];");
    let ghost body1 = program.body_lines();
    write_fill(program, shape, ordered);
    assert(per_pass * 2500 <= 1_024_000_000_000_000 && per_pass * 2500 >= -1_024_000_000_000_000)
        by (nonlinear_arith)
        requires
            -409_600_000_000 <= per_pass <= 409_600_000_000,
    ;
    write_dispatches(program, shape, per_pass * (DISPATCHES / STREAM));
    assert(program.top_lines() =~= top0 + loop_globals());
    assert(program.body_lines() =~= body0 + loop_lines(shape, ordered));
}

/// The stream axis value.
pub open spec fn stream_name(ordered: bool) -> Seq<char> {
    if ordered { "in-order"@ } else { "unpredictable"@ }
}

/// Whether a case is the dispatch program for a shape on a stream, whole: its axes, what it is
/// for, the switch and the loop it is made of, and the total it prints.
pub open spec fn is_dispatch_case(c: Case, shape: SwitchShape, ordered: bool) -> bool {
    &&& c.axes_text() == seq![("shape"@, shape.name_text()), ("stream"@, stream_name(ordered))]
    &&& c.tags_text() == Seq::<Seq<char>>::empty()
    &&& c.program.purpose_text() == "the "@ + shape.name_text() + " shape dispatched on "@
        + stream_name(ordered) + " values"@
    &&& c.program.include_lines() == Seq::<Seq<char>>::empty()
    &&& c.program.top_lines() == switch_lines(shape) + loop_globals()
    &&& c.program.body_lines() == loop_lines(shape, ordered)
    &&& c.program.expected_values() == seq![per_pass(shape, ordered) * (DISPATCHES / STREAM)]
    &&& !c.program.sinks()
}

/// The points the facet walks: every shape on the unpredictable stream, and the two paired
/// shapes on the in-order stream as well, right after their unpredictable one.
pub open spec fn dispatch_points() -> Seq<(SwitchShape, bool)> {
    seq![
        (SwitchShape::Affine, false),
        (SwitchShape::Affine, true),
        (SwitchShape::Scattered, false),
        (SwitchShape::Scattered, true),
        (SwitchShape::ConstantArms, false),
        (SwitchShape::BelowZero, false),
        (SwitchShape::NearTheEdge, false),
        (SwitchShape::SharedDefault, false),
        (SwitchShape::FiveLabels, false),
        (SwitchShape::SixLabels, false),
        (SwitchShape::SevenLabels, false),
        (SwitchShape::EightLabels, false),
        (SwitchShape::Holes, false),
        (SwitchShape::WideAnswers, false),
        (SwitchShape::NegativeAnswers, false),
        (SwitchShape::Masked, false),
        (SwitchShape::MaskedFour, false),
    ]
}

/// The dispatch program for one shape on one stream.
pub fn dispatch_case(shape: SwitchShape, ordered: bool) -> (r: Case)
    ensures
        is_dispatch_case(r, shape, ordered),
{
    let stream = if ordered { "in-order" } else { "unpredictable" };
    let mut purpose = String::from_str("the ");
    purpose.append(shape.name());
    purpose.append(" shape dispatched on ");
    purpose.append(stream);
    purpose.append(" values");
    let mut program = Program::new(purpose.as_str());
    dispatch_switch(&mut program, shape);
    dispatch_loop(&mut program, shape, ordered);
    let axes = vec![axis("shape", shape.name()), axis("stream", stream)];
    let r = Case { axes, tags: Vec::new(), program };
    assert(r.axes_text() =~= seq![("shape"@, shape.name_text()), ("stream"@, stream_name(ordered))]);
    assert(r.tags_text() =~= Seq::<Seq<char>>::empty());
    assert(r.program.top_lines() =~= switch_lines(shape) + loop_globals());
    assert(r.program.body_lines() =~= loop_lines(shape, ordered));
    assert(r.program.expected_values() =~= seq![per_pass(shape, ordered) * (DISPATCHES / STREAM)]);
    r
}

/// A switch called often enough that how it was lowered shows up in the clock, for every
/// shape, and on an in-order stream too for the two shapes that are paired.
///
/// The pair is the argument: the same switch on a stream the predictor learns and on one it
/// does not, so the mispredict share can be read off rather than assumed.
pub fn dispatch_cases() -> (r: Vec<Case>)
    ensures
        r@.len() == dispatch_points().len(),
        forall|i: int|
            0 <= i < r@.len() ==> is_dispatch_case(
                #[trigger] r@[i],
                dispatch_points()[i].0,
                dispatch_points()[i].1,
            ),
{
    let all = shapes();
    let mut out: Vec<Case> = Vec::new();
    let mut i: usize = 0;
    let ghost points = dispatch_points();
    while i < all.len()
        invariant
            all@ == all_shapes(),
            points == dispatch_points(),
            i <= all@.len(),
            out@.len() == if i <= 1 { 2 * i } else if i == 2 { 4 } else { i + 2 } as int,
            forall|k: int|
                0 <= k < out@.len() ==> is_dispatch_case(
                    #[trigger] out@[k],
                    points[k].0,
                    points[k].1,
                ),
        decreases all@.len() - i,
    {
        let shape = all[i];
        out.push(dispatch_case(shape, false));
        if shape == SwitchShape::Affine || shape == SwitchShape::Scattered {
            out.push(dispatch_case(shape, true));
        }
        i += 1;
    }
    out
}

/// How many opcodes the interpreter has, counting the one that falls to the default.
pub const OPCODES: u32 = 9;

/// The opcode the interpreter's stream holds at a position.
pub open spec fn op_at(i: int) -> int {
    ((lcg_after(SEED as u32, (i + 1) as nat) >> 16u32) as int) % (OPCODES as int)
}

/// The operand the interpreter's stream holds at a position, one byte.
pub open spec fn arg_at(i: int) -> u64 {
    ((lcg_after(SEED as u32, (i + 1) as nat) >> 8u32) & 255u32) as u64
}

/// The accumulator rotated left by three.
pub open spec fn rotl3(a: u64) -> u64 {
    (a << 3u64) | (a >> 61u64)
}

/// The accumulator rotated right by five.
pub open spec fn rotr5(a: u64) -> u64 {
    (a >> 5u64) | (a << 59u64)
}

/// What one of the interpreter's arms does to the accumulator, in `unsigned long long`.
///
/// Every arm keeps every bit it is given: the shifts are rotates and the multiply is by an
/// odd number, so two runs that started differently never meet.
pub open spec fn interpret(op: int, acc: u64, operand: u64) -> u64 {
    if op == 0 {
        u64_specs::wrapping_add(acc, operand)
    } else if op == 1 {
        u64_specs::wrapping_sub(acc, operand)
    } else if op == 2 {
        acc ^ operand
    } else if op == 3 {
        rotl3(acc) ^ operand
    } else if op == 4 {
        u64_specs::wrapping_add(rotr5(acc), operand)
    } else if op == 5 {
        u64_specs::wrapping_add(acc, (operand << 1u64))
    } else if op == 6 {
        u64_specs::wrapping_sub(acc, (operand >> 1u64))
    } else if op == 7 {
        u64_specs::wrapping_add(u64_specs::wrapping_mul(acc, 3), 1)
    } else {
        acc
    }
}

/// The accumulator after `k` dispatches from `start`, the stream walked round and round.
pub open spec fn interpreted(start: u64, k: nat) -> u64
    decreases k,
{
    if k == 0 {
        start
    } else {
        let i = (k - 1) % (STREAM as int);
        interpret(op_at(i), interpreted(start, (k - 1) as nat), arg_at(i))
    }
}

/// The C of the interpreter's arms, in opcode order.
pub open spec fn step_texts() -> Seq<Seq<char>> {
    seq![
        "acc + operand"@,
        "acc - operand"@,
        "acc ^ operand"@,
        "((acc << 3) | (acc >> 61)) ^ operand"@,
        "((acc >> 5) | (acc << 59)) + operand"@,
        "acc + (operand << 1)"@,
        "acc - (operand >> 1)"@,
        "acc * 3 + 1"@,
    ]
}

/// The names an interpreter arm's C reads.
pub open spec fn arm_names() -> Seq<Seq<char>> {
    seq!["acc"@, "operand"@]
}

/// Whether some expression that C reads the text as evaluates to a value in `unsigned long
/// long`, with `acc` and `operand` holding the given numbers.
pub open spec fn step_means(text: Seq<char>, acc: u64, operand: u64, value: u64) -> bool {
    exists|e: CExpr|
        #[trigger] reads_as(e, arm_names(), text) && unsigned_value(e, seq![acc, operand]) == value
}

proof fn lemma_step_witness(e: CExpr, text: Seq<char>, acc: u64, operand: u64, value: u64)
    requires
        reads_as(e, arm_names(), text),
        unsigned_value(e, seq![acc, operand]) == value,
    ensures
        step_means(text, acc, operand, value),
{
}

/// Each dispatch of the interpreter does what the C of its arm says: for every opcode, every
/// accumulator and every operand, the accumulator it gives is the value, in `unsigned long
/// long`, of the expression that arm returns, read the way C reads it.
pub proof fn lemma_interpreter_arms_do_what_their_c_says(op: int, acc: u64, operand: u64)
    requires
        0 <= op < 8,
    ensures
        step_means(step_texts()[op], acc, operand, interpret(op, acc, operand)),
{
    reveal_with_fuel(spelled, 6);
    reveal_with_fuel(parsed, 6);
    reveal_with_fuel(unsigned_value, 6);
    reveal_with_fuel(crate::text::digits, 3);
    reveal_strlit("acc");
    reveal_strlit("operand");
    reveal_strlit("(");
    reveal_strlit(")");
    reveal_strlit(" ");
    reveal_strlit("*");
    reveal_strlit("+");
    reveal_strlit("-");
    reveal_strlit("^");
    reveal_strlit("|");
    reveal_strlit("<<");
    reveal_strlit(">>");
    reveal_strlit("acc + operand");
    reveal_strlit("acc - operand");
    reveal_strlit("acc ^ operand");
    reveal_strlit("((acc << 3) | (acc >> 61)) ^ operand");
    reveal_strlit("((acc >> 5) | (acc << 59)) + operand");
    reveal_strlit("acc + (operand << 1)");
    reveal_strlit("acc - (operand >> 1)");
    reveal_strlit("acc * 3 + 1");
    let a = CExpr::Name(0);
    let o = CExpr::Name(1);
    let text = step_texts()[op];
    let value = interpret(op, acc, operand);
    let e = if op == 0 {
        CExpr::Bin(BinOp::Add, Box::new(a), Box::new(o))
    } else if op == 1 {
        CExpr::Bin(BinOp::Sub, Box::new(a), Box::new(o))
    } else if op == 2 {
        CExpr::Bin(BinOp::Xor, Box::new(a), Box::new(o))
    } else if op == 3 {
        CExpr::Bin(
            BinOp::Xor,
            Box::new(CExpr::Paren(Box::new(CExpr::Bin(
                BinOp::Or,
                Box::new(CExpr::Paren(Box::new(CExpr::Bin(BinOp::Shl, Box::new(a), Box::new(CExpr::Num(3)))))),
                Box::new(CExpr::Paren(Box::new(CExpr::Bin(BinOp::Shr, Box::new(a), Box::new(CExpr::Num(61)))))),
            )))),
            Box::new(o),
        )
    } else if op == 4 {
        CExpr::Bin(
            BinOp::Add,
            Box::new(CExpr::Paren(Box::new(CExpr::Bin(
                BinOp::Or,
                Box::new(CExpr::Paren(Box::new(CExpr::Bin(BinOp::Shr, Box::new(a), Box::new(CExpr::Num(5)))))),
                Box::new(CExpr::Paren(Box::new(CExpr::Bin(BinOp::Shl, Box::new(a), Box::new(CExpr::Num(59)))))),
            )))),
            Box::new(o),
        )
    } else if op == 5 {
        CExpr::Bin(
            BinOp::Add,
            Box::new(a),
            Box::new(CExpr::Paren(Box::new(CExpr::Bin(BinOp::Shl, Box::new(o), Box::new(CExpr::Num(1)))))),
        )
    } else if op == 6 {
        CExpr::Bin(
            BinOp::Sub,
            Box::new(a),
            Box::new(CExpr::Paren(Box::new(CExpr::Bin(BinOp::Shr, Box::new(o), Box::new(CExpr::Num(1)))))),
        )
    } else {
        CExpr::Bin(
            BinOp::Add,
            Box::new(CExpr::Bin(BinOp::Mul, Box::new(a), Box::new(CExpr::Num(3)))),
            Box::new(CExpr::Num(1)),
        )
    };
    assert(decimal(1) =~= seq!['1']);
    assert(decimal(3) =~= seq!['3']);
    assert(decimal(5) =~= seq!['5']);
    assert(decimal(61) =~= seq!['6', '1']);
    assert(decimal(59) =~= seq!['5', '9']);
    assert(spelled(e, arm_names()) =~= text);
    assert(parsed(e));
    assert(unsigned_value(e, seq![acc, operand]) == value);
    lemma_step_witness(e, text, acc, operand, value);
}

/// Whether the interpreter's stream holds `op` and `arg` at the position whose state is drawn
/// from `state`: the next state by the generator's C, the opcode and the operand by the C of
/// their lines.
pub open spec fn stream_means(state: u32, op: int, arg: u64) -> bool {
    exists|next: CExpr, eop: CExpr, earg: CExpr|
        #[trigger] stream_reads(next, eop, earg) && lcg(state) == stepped(next, state) && op
            == unsigned_value(eop, seq![lcg(state) as u64, 0]) && arg == unsigned_value(
            earg,
            seq![lcg(state) as u64, 0],
        )
}

/// The expressions the stream fill's lines are, read as C reads them.
pub open spec fn stream_reads(next: CExpr, eop: CExpr, earg: CExpr) -> bool {
    &&& reads_as(next, round_names(), step_text())
    &&& reads_as(eop, round_names(), "(state >> 16) % 9u"@)
    &&& reads_as(earg, round_names(), "(state >> 8) & 255u"@)
}

proof fn lemma_stream_witness(next: CExpr, eop: CExpr, earg: CExpr, state: u32, op: int, arg: u64)
    requires
        stream_reads(next, eop, earg),
        lcg(state) == stepped(next, state),
        op == unsigned_value(eop, seq![lcg(state) as u64, 0]),
        arg == unsigned_value(earg, seq![lcg(state) as u64, 0]),
    ensures
        stream_means(state, op, arg),
{
}

/// The opcode and the operand at every position of the interpreter's stream are what the C
/// that fills the stream computes there: the generator's step from the state before, then the
/// opcode and the operand lines on the new state.
#[verifier::rlimit(100)]
pub proof fn lemma_interpreter_stream_is_the_c(i: int)
    requires
        i >= 0,
    ensures
        stream_means(lcg_after(SEED as u32, i as nat), op_at(i), arg_at(i)),
        interpreter_body()[7] == indent(2) + "state = "@ + step_text() + ";"@,
        interpreter_body()[8] == indent(2) + "ops[at] = (unsigned char)("@ + "(state >> 16) % 9u"@
            + ");"@,
        interpreter_body()[9] == indent(2) + "args[at] = "@ + "(state >> 8) & 255u"@ + ";"@,
{
    let state = lcg_after(SEED as u32, i as nat);
    let next = lemma_step_reads(state);
    reveal_with_fuel(spelled, 6);
    reveal_with_fuel(parsed, 6);
    reveal_with_fuel(unsigned_value, 6);
    reveal_with_fuel(crate::text::digits, 4);
    reveal_strlit("state");
    reveal_strlit("(");
    reveal_strlit(")");
    reveal_strlit(" ");
    reveal_strlit("%");
    reveal_strlit("&");
    reveal_strlit(">>");
    reveal_strlit("u");
    reveal_strlit("(state >> 16) % 9u");
    reveal_strlit("(state >> 8) & 255u");
    assert(decimal(16) =~= seq!['1', '6']);
    assert(decimal(9) =~= seq!['9']);
    assert(decimal(8) =~= seq!['8']);
    assert(decimal(255) =~= seq!['2', '5', '5']);
    let st = CExpr::Name(0);
    let eop = CExpr::Bin(
        BinOp::Rem,
        Box::new(CExpr::Paren(Box::new(CExpr::Bin(BinOp::Shr, Box::new(st), Box::new(CExpr::Num(16)))))),
        Box::new(CExpr::NumU(9)),
    );
    let earg = CExpr::Bin(
        BinOp::And,
        Box::new(CExpr::Paren(Box::new(CExpr::Bin(BinOp::Shr, Box::new(st), Box::new(CExpr::Num(8)))))),
        Box::new(CExpr::NumU(255)),
    );
    assert(spelled(eop, round_names()) =~= "(state >> 16) % 9u"@);
    assert(spelled(earg, round_names()) =~= "(state >> 8) & 255u"@);
    let m = lcg(state);
    let s = m as u64;
    assert((s >> 16u64) == ((m >> 16u32) as u64)) by (bit_vector)
        requires
            s == m as u64,
    ;
    assert((s >> 8u64) & 255u64 == (((m >> 8u32) & 255u32) as u64)) by (bit_vector)
        requires
            s == m as u64,
    ;
    assert(lcg_after(SEED as u32, (i + 1) as nat) == m);
    assert(unsigned_value(eop, seq![s, 0]) as int == op_at(i));
    assert(unsigned_value(earg, seq![s, 0]) == arg_at(i));
    lemma_stream_witness(next, eop, earg, state, op_at(i), arg_at(i));
    reveal_strlit("state = state * 1103515245u + 12345u;");
    reveal_strlit("state = ");
    reveal_strlit(";");
    reveal_strlit("state * 1103515245u + 12345u");
    reveal_strlit("ops[at] = (unsigned char)((state >> 16) % 9u);");
    reveal_strlit("ops[at] = (unsigned char)(");
    reveal_strlit(");");
    reveal_strlit("args[at] = (state >> 8) & 255u;");
    reveal_strlit("args[at] = ");
    let b = interpreter_body();
    assert(b[7] =~= indent(2) + "state = "@ + step_text() + ";"@);
    assert(b[8] =~= indent(2) + "ops[at] = (unsigned char)("@ + "(state >> 16) % 9u"@ + ");"@);
    assert(b[9] =~= indent(2) + "args[at] = "@ + "(state >> 8) & 255u"@ + ";"@);
}

/// The C of the interpreter's arms, in opcode order.
pub fn steps() -> (r: Vec<&'static str>)
    ensures
        r@.map_values(|s: &str| s@) == step_texts(),
{
    let r = vec![
        "acc + operand",
        "acc - operand",
        "acc ^ operand",
        "((acc << 3) | (acc >> 61)) ^ operand",
        "((acc >> 5) | (acc << 59)) + operand",
        "acc + (operand << 1)",
        "acc - (operand >> 1)",
        "acc * 3 + 1",
    ];
    assert(r@.map_values(|s: &str| s@) =~= step_texts());
    r
}

fn interpret_step(op: usize, acc: u64, operand: u64) -> (r: u64)
    ensures
        r == interpret(op as int, acc, operand),
{
    if op == 0 {
        acc.wrapping_add(operand)
    } else if op == 1 {
        acc.wrapping_sub(operand)
    } else if op == 2 {
        acc ^ operand
    } else if op == 3 {
        ((acc << 3u64) | (acc >> 61u64)) ^ operand
    } else if op == 4 {
        ((acc >> 5u64) | (acc << 59u64)).wrapping_add(operand)
    } else if op == 5 {
        acc.wrapping_add(operand << 1u64)
    } else if op == 6 {
        acc.wrapping_sub(operand >> 1u64)
    } else if op == 7 {
        acc.wrapping_mul(3).wrapping_add(1)
    } else {
        acc
    }
}

/// The interpreter's loop, from a starting accumulator, which is what the emitted C does.
///
/// Taking the start as an argument is what lets the answer be held to depending on it.
pub fn interpreter_run(start: u64) -> (r: u64)
    ensures
        r == interpreted(start, DISPATCHES as nat),
{
    let mut state: u32 = SEED as u32;
    let mut ops: Vec<usize> = Vec::new();
    let mut args: Vec<u64> = Vec::new();
    let mut i: usize = 0;
    while i < 4096
        invariant
            i <= 4096,
            ops@.len() == i,
            args@.len() == i,
            state == lcg_after(SEED as u32, i as nat),
            forall|k: int| 0 <= k < i ==> #[trigger] ops@[k] as int == op_at(k),
            forall|k: int| 0 <= k < i ==> #[trigger] args@[k] == arg_at(k),
        decreases 4096 - i,
    {
        state = lcg_step(state);
        ops.push(((state >> 16u32) % OPCODES) as usize);
        args.push(((state >> 8u32) & 255u32) as u64);
        i += 1;
    }
    let mut acc: u64 = start;
    let mut at: usize = 0;
    while at < 10_240_000
        invariant
            at <= 10_240_000,
            ops@.len() == 4096,
            args@.len() == 4096,
            forall|k: int| 0 <= k < 4096 ==> #[trigger] ops@[k] as int == op_at(k),
            forall|k: int| 0 <= k < 4096 ==> #[trigger] args@[k] == arg_at(k),
            acc == interpreted(start, at as nat),
        decreases 10_240_000 - at,
    {
        let index = at & 4095;
        assert(index == at % 4096) by (bit_vector)
            requires
                index == at & 4095,
        ;
        acc = interpret_step(ops[index], acc, args[index]);
        at += 1;
    }
    acc
}

/// What the interpreter's accumulator holds when the loop stops, started from one.
pub fn interpreter_answer() -> (r: i128)
    ensures
        r == interpreted(1, DISPATCHES as nat),
{
    interpreter_run(1) as i128
}

proof fn lemma_times_three_injective(a: u64, b: u64)
    requires
        u64_specs::wrapping_mul(a, 3) == u64_specs::wrapping_mul(b, 3),
    ensures
        a == b,
{
    let m: int = 0x1_0000_0000_0000_0000;
    let ta = a as int * 3;
    let tb = b as int * 3;
    vstd::arithmetic::div_mod::lemma_fundamental_div_mod(ta, m);
    vstd::arithmetic::div_mod::lemma_fundamental_div_mod(tb, m);
    vstd::arithmetic::div_mod::lemma_mod_bound(ta, m);
    vstd::arithmetic::div_mod::lemma_mod_bound(tb, m);
    let qa = ta / m;
    let qb = tb / m;
    assert(0 <= qa <= 2) by {
        vstd::arithmetic::div_mod::lemma_div_pos_is_pos(ta, m);
        vstd::arithmetic::div_mod::lemma_div_is_ordered(ta, 3 * m - 1, m);
        vstd::arithmetic::div_mod::lemma_div_by_multiple(3, m);
        assert((3 * m - 1) / m == 2) by {
            vstd::arithmetic::div_mod::lemma_fundamental_div_mod_converse(3 * m - 1, m, 2, m - 1);
        }
    }
    assert(0 <= qb <= 2) by {
        vstd::arithmetic::div_mod::lemma_div_pos_is_pos(tb, m);
        vstd::arithmetic::div_mod::lemma_div_is_ordered(tb, 3 * m - 1, m);
        assert((3 * m - 1) / m == 2) by {
            vstd::arithmetic::div_mod::lemma_fundamental_div_mod_converse(3 * m - 1, m, 2, m - 1);
        }
    }
    assert(ta % m == tb % m);
    assert(3 * (a as int - b as int) == (qa - qb) * m);
}

/// No arm of the interpreter throws the accumulator away: for a given opcode and operand, two
/// different accumulators go in and two different ones come out.
pub proof fn lemma_interpret_injective(op: int, a: u64, b: u64, operand: u64)
    requires
        interpret(op, a, operand) == interpret(op, b, operand),
    ensures
        a == b,
{
    if op == 2 {
        assert(a ^ operand == b ^ operand ==> a == b) by (bit_vector);
    } else if op == 3 {
        assert(((a << 3u64) | (a >> 61u64)) ^ operand == ((b << 3u64) | (b >> 61u64)) ^ operand
            ==> a == b) by (bit_vector);
    } else if op == 4 {
        assert(((a >> 5u64) | (a << 59u64)) == ((b >> 5u64) | (b << 59u64)) ==> a == b)
            by (bit_vector);
    } else if op == 7 {
        lemma_times_three_injective(a, b);
    }
}

/// The interpreter's answer still depends on where its loop started: two different starting
/// accumulators give two different answers however many dispatches follow, so the printed
/// number is evidence about every step of the run.
pub proof fn lemma_interpreted_injective(a: u64, b: u64, k: nat)
    requires
        interpreted(a, k) == interpreted(b, k),
    ensures
        a == b,
    decreases k,
{
    if k > 0 {
        let i = (k - 1) % (STREAM as int);
        lemma_interpret_injective(
            op_at(i),
            interpreted(a, (k - 1) as nat),
            interpreted(b, (k - 1) as nat),
            arg_at(i),
        );
        lemma_interpreted_injective(a, b, (k - 1) as nat);
    }
}

/// The interpreter's `step` function, one arm per opcode and the default for the last.
pub open spec fn interpreter_top() -> Seq<Seq<char>> {
    seq![
        "static unsigned long long step(int op, unsigned long long acc,"@,
        "                               unsigned int operand) {"@,
        "    switch (op) {"@,
    ] + Seq::new(8, |op: int| "    case "@ + decimal(op) + ": return "@ + step_texts()[op] + ";"@)
        + seq!["    default: return acc;"@, "    }"@, "}"@] + loop_globals()
}

/// The interpreter's `main`: the opcode and operand streams, and the loop that carries the
/// accumulator from one dispatch to the next.
pub open spec fn interpreter_body() -> Seq<Seq<char>> {
    seq![
        input_read(Ty::I32, "seed"@),
        input_read(Ty::I32, "count"@),
        Seq::<char>::empty(),
        indent(1) + "unsigned char ops[4096];"@,
        indent(1) + "unsigned int args[4096];"@,
        indent(1) + "unsigned int state = (unsigned int)seed;"@,
        indent(1) + "for (int at = 0; at < 4096; at++) {"@,
        indent(2) + "state = state * 1103515245u + 12345u;"@,
        indent(2) + "ops[at] = (unsigned char)((state >> 16) % 9u);"@,
        indent(2) + "args[at] = (state >> 8) & 255u;"@,
        indent(1) + "}"@,
        Seq::<char>::empty(),
        indent(1) + "unsigned long long acc = 1;"@,
        indent(1) + "for (int at = 0; at < count; at++) {"@,
        indent(2) + "acc = step(ops[at & 4095], acc, args[at & 4095]);"@,
        indent(1) + "}"@,
        Seq::<char>::empty(),
        print_line(1, Ty::U64, "acc"@),
    ]
}

/// Whether a case is the bytecode interpreter, whole.
pub open spec fn is_interpreter_case(c: Case) -> bool {
    &&& c.axes_text() == seq![("shape"@, "interpreter"@), ("stream"@, "unpredictable"@)]
    &&& c.tags_text() == Seq::<Seq<char>>::empty()
    &&& c.program.purpose_text() == "a bytecode interpreter dispatching on an opcode stream"@
    &&& c.program.include_lines() == Seq::<Seq<char>>::empty()
    &&& c.program.top_lines() == interpreter_top()
    &&& c.program.body_lines() == interpreter_body()
    &&& c.program.expected_values() == seq![interpreted(1, DISPATCHES as nat) as int]
    &&& !c.program.sinks()
}

/// A bytecode interpreter, which is the shape a hot switch really has.
///
/// The accumulator carries from one step to the next, so the loop is bound by the latency of
/// the dispatch. Everything is unsigned, so every arm is defined for every accumulator,
/// including the ones that have wrapped.
pub fn interpreter() -> (r: Case)
    ensures
        is_interpreter_case(r),
{
    let mut program = Program::new("a bytecode interpreter dispatching on an opcode stream");
    program.top("static unsigned long long step(int op, unsigned long long acc,");
    program.top("                               unsigned int operand) {");
    program.top("    switch (op) {");
    let works = steps();
    assert(works@.len() == works@.map_values(|s: &str| s@).len());
    let ghost head = program.top_lines();
    let ghost arms = Seq::new(8, |op: int| "    case "@ + decimal(op) + ": return "@ + step_texts()[op] + ";"@);
    let mut op: usize = 0;
    while op < 8
        invariant
            op <= 8,
            works@.map_values(|s: &str| s@) == step_texts(),
            works@.len() == 8,
            arms == Seq::new(8, |op: int| "    case "@ + decimal(op) + ": return "@ + step_texts()[op] + ";"@),
            program.top_lines() == head + arms.take(op as int),
            program.body_lines() == Seq::<Seq<char>>::empty(),
            program.expected_values() == Seq::<int>::empty(),
            program.include_lines() == Seq::<Seq<char>>::empty(),
            program.purpose_text() == "a bytecode interpreter dispatching on an opcode stream"@,
            !program.sinks(),
        decreases 8 - op,
    {
        let mut line = String::from_str("    case ");
        push_decimal(&mut line, op as i128);
        line.append(": return ");
        line.append(works[op]);
        line.append(";");
        assert(works@[op as int]@ == step_texts()[op as int]);
        program.top(line.as_str());
        assert(program.top_lines() =~~= head + arms.take(op + 1));
        op += 1;
    }
    program.top("    default: return acc;");
    program.top("    }");
    program.top("}");
    program.input(Ty::I32, "seed", SEED);
    program.input(Ty::I32, "count", DISPATCHES);
    program.blank();
    program.line("unsigned char ops[4096];");
    program.line("unsigned int args[4096];");
    program.line("unsigned int state = (unsigned int)seed;");
    program.line("for (int at = 0; at < 4096; at++) {");
    program.line_at(1, "state = state * 1103515245u + 12345u;");
    program.line_at(1, "ops[at] = (unsigned char)((state >> 16) % 9u);");
    program.line_at(1, "args[at] = (state >> 8) & 255u;");
    program.line("}");
    program.blank();
    program.line("unsigned long long acc = 1;");
    program.line("for (int at = 0; at < count; at++) {");
    program.line_at(1, "acc = step(ops[at & 4095], acc, args[at & 4095]);");
    program.line("}");
    program.blank();
    program.check(Ty::U64, "acc", interpreter_answer());
    assert(arms.take(8) =~= arms);
    assert(program.top_lines() =~~= interpreter_top());
    assert(program.body_lines() =~~= interpreter_body());
    let axes = vec![axis("shape", "interpreter"), axis("stream", "unpredictable")];
    let r = Case { axes, tags: Vec::new(), program };
    assert(r.axes_text() =~= seq![("shape"@, "interpreter"@), ("stream"@, "unpredictable"@)]);
    assert(r.tags_text() =~= Seq::<Seq<char>>::empty());
    assert(r.program.expected_values() =~= seq![interpreted(1, DISPATCHES as nat) as int]);
    r
}

/// The word a `names` arm returns for a step.
pub open spec fn word_text(step: int) -> Seq<char> {
    if step == 0 {
        "hydrogen"@
    } else if step == 1 {
        "helium"@
    } else if step == 2 {
        "lithium"@
    } else if step == 3 {
        "beryllium"@
    } else if step == 4 {
        "boron"@
    } else if step == 5 {
        "carbon"@
    } else if step == 6 {
        "nitrogen"@
    } else if step == 7 {
        "oxygen"@
    } else if step == 8 {
        "fluorine"@
    } else if step == 9 {
        "neon"@
    } else if step == 10 {
        "sodium"@
    } else if step == 11 {
        "magnesium"@
    } else if step == 12 {
        "aluminium"@
    } else if step == 13 {
        "silicon"@
    } else if step == 14 {
        "phosphorus"@
    } else {
        "sulfur"@
    }
}

/// The word a `names` arm returns for a step.
pub fn word(step: usize) -> (r: &'static str)
    requires
        step < 16,
    ensures
        r@ == word_text(step as int),
        r@.len() >= 4,
{
    if step == 0 {
        proof {
            reveal_strlit("hydrogen");
        }
        "hydrogen"
    } else if step == 1 {
        proof {
            reveal_strlit("helium");
        }
        "helium"
    } else if step == 2 {
        proof {
            reveal_strlit("lithium");
        }
        "lithium"
    } else if step == 3 {
        proof {
            reveal_strlit("beryllium");
        }
        "beryllium"
    } else if step == 4 {
        proof {
            reveal_strlit("boron");
        }
        "boron"
    } else if step == 5 {
        proof {
            reveal_strlit("carbon");
        }
        "carbon"
    } else if step == 6 {
        proof {
            reveal_strlit("nitrogen");
        }
        "nitrogen"
    } else if step == 7 {
        proof {
            reveal_strlit("oxygen");
        }
        "oxygen"
    } else if step == 8 {
        proof {
            reveal_strlit("fluorine");
        }
        "fluorine"
    } else if step == 9 {
        proof {
            reveal_strlit("neon");
        }
        "neon"
    } else if step == 10 {
        proof {
            reveal_strlit("sodium");
        }
        "sodium"
    } else if step == 11 {
        proof {
            reveal_strlit("magnesium");
        }
        "magnesium"
    } else if step == 12 {
        proof {
            reveal_strlit("aluminium");
        }
        "aluminium"
    } else if step == 13 {
        proof {
            reveal_strlit("silicon");
        }
        "silicon"
    } else if step == 14 {
        proof {
            reveal_strlit("phosphorus");
        }
        "phosphorus"
    } else {
        proof {
            reveal_strlit("sulfur");
        }
        "sulfur"
    }
}

/// The characters the `into-letters` shape returns pointers into.
pub open spec fn letters_text() -> Seq<char> {
    "abcdefghijklmnopqrstuvwxyzABCDEFGHIJKLMNOPQRSTUVWXYZ0123456789"@
}

/// How far into the letters the `into-letters` arm for a step points, with the default at
/// fifty eight. Scattered, so the only lowering left is a table, and at least four short of
/// the end, so four bytes read from it are inside.
pub open spec fn letter_offset_of(step: int) -> int {
    if step < 0 { 58 } else { scatter_table()[step] * 5 % 56 }
}

/// How far into the letters the `into-letters` arm for a step points.
pub fn letter_offset(step: i128) -> (r: i128)
    requires
        step < 16,
    ensures
        r == letter_offset_of(step as int),
        0 <= r <= 58,
{
    if step < 0 {
        58
    } else {
        let x = scatter(step as usize) * 5;
        ((x as u128) % 56) as i128
    }
}

/// The shapes whose arms return addresses rather than numbers.
#[derive(Clone, Copy, Debug, PartialEq, Eq, Structural)]
pub enum AddressedShape {
    /// A word per label.
    Names,
    /// A word per label, with the labels two apart.
    NamesWithHoles,
    /// A pointer into one string per label.
    IntoLetters,
}

impl AddressedShape {
    /// The axis value.
    pub open spec fn name_text(self) -> Seq<char> {
        match self {
            AddressedShape::Names => "names"@,
            AddressedShape::NamesWithHoles => "names-with-holes"@,
            AddressedShape::IntoLetters => "into-letters"@,
        }
    }

    /// How many values the stream draws from.
    pub open spec fn span_of(self) -> int {
        if self == AddressedShape::NamesWithHoles { 36 } else { 20 }
    }

    /// The axis value.
    pub fn name(self) -> (r: &'static str)
        ensures
            r@ == self.name_text(),
    {
        match self {
            AddressedShape::Names => "names",
            AddressedShape::NamesWithHoles => "names-with-holes",
            AddressedShape::IntoLetters => "into-letters",
        }
    }

    /// How many values the stream draws from.
    pub fn span(self) -> (r: i128)
        ensures
            r == self.span_of(),
    {
        if self == AddressedShape::NamesWithHoles { 36 } else { 20 }
    }
}

/// Which arm a value reaches in one of the addressed shapes, or none for the default. The
/// labels start at zero, and are two apart in `names-with-holes`.
pub open spec fn addressed_step_of(shape: AddressedShape, value: int) -> Option<int> {
    if shape == AddressedShape::NamesWithHoles && value % 2 != 0 {
        None
    } else {
        let step = if shape == AddressedShape::NamesWithHoles { value / 2 } else { value };
        if 0 <= step < 16 { Some(step) } else { None }
    }
}

/// Which arm a value reaches in one of the addressed shapes, or `None` for the default.
pub fn addressed_step(shape: AddressedShape, value: i128) -> (r: Option<i128>)
    ensures
        r == (match addressed_step_of(shape, value as int) {
            Some(s) => Some(s as i128),
            None => None,
        }),
{
    let mut step = value;
    if shape == AddressedShape::NamesWithHoles {
        proof {
            lemma_lowest_bit(value);
        }
        if value & 1 != 0 {
            return None;
        }
        proof {
            lemma_half(value);
        }
        step = value >> 1;
    }
    if 0 <= step && step < 16 {
        Some(step)
    } else {
        None
    }
}

/// The string one of the addressed shapes returns for a value.
#[verifier::opaque]
pub open spec fn reply_text(shape: AddressedShape, value: int) -> Seq<char> {
    if shape == AddressedShape::IntoLetters {
        let step = match addressed_step_of(shape, value) {
            Some(s) => s,
            None => -1,
        };
        letters_text().subrange(letter_offset_of(step), 62)
    } else {
        match addressed_step_of(shape, value) {
            Some(s) => word_text(s),
            None => "none"@,
        }
    }
}

/// The byte `at` into the string one of the addressed shapes returns for a value.
pub fn addressed_byte(shape: AddressedShape, value: i128, at: usize) -> (r: i128)
    requires
        at < 4,
    ensures
        r == reply_text(shape, value as int)[at as int] as int,
        0 <= r <= 0xffff_ffff,
{
    let step = addressed_step(shape, value);
    let c = if shape == AddressedShape::IntoLetters {
        let from = match step {
            Some(s) => letter_offset(s),
            None => letter_offset(-1),
        };
        let letters = "abcdefghijklmnopqrstuvwxyzABCDEFGHIJKLMNOPQRSTUVWXYZ0123456789";
        proof {
            reveal_strlit("abcdefghijklmnopqrstuvwxyzABCDEFGHIJKLMNOPQRSTUVWXYZ0123456789");
        }
        letters.get_char(from as usize + at)
    } else {
        match step {
            Some(s) => word(s as usize).get_char(at),
            None => {
                proof {
                    reveal_strlit("none");
                }
                "none".get_char(at)
            },
        }
    };
    proof {
        reveal(reply_text);
    }
    c as u32 as i128
}

/// The value the unpredictable stream of an addressed shape holds at a position: its labels
/// start at zero.
pub open spec fn addressed_value(shape: AddressedShape, at: int) -> int {
    ((lcg_after(SEED as u32, (at + 1) as nat) >> 16u32) as int) % shape.span_of()
}

/// What the dispatch at a position reads: the byte of what came back that the position picks.
pub open spec fn addressed_read(shape: AddressedShape, at: int) -> int {
    reply_text(shape, addressed_value(shape, at))[at % 4] as int
}

/// What the first `n` dispatches of a pass add up to.
pub open spec fn addressed_sum(shape: AddressedShape, n: nat) -> int
    decreases n,
{
    if n == 0 {
        0
    } else {
        addressed_sum(shape, (n - 1) as nat) + addressed_read(shape, n - 1)
    }
}

/// What one pass of an addressed case adds up to.
pub open spec fn addressed_pass(shape: AddressedShape) -> int {
    addressed_sum(shape, STREAM as nat)
}

/// What one pass of an addressed case adds up to.
#[verifier::rlimit(100)]
pub fn addressed_total(shape: AddressedShape) -> (r: i128)
    ensures
        r == addressed_pass(shape),
        0 <= r <= 4096 * 0x1_0000_0000,
{
    let span = shape.span() as u32;
    let mut state: u32 = SEED as u32;
    let mut total: i128 = 0;
    let mut at: usize = 0;
    while at < 4096
        invariant
            at <= 4096,
            span == shape.span_of(),
            state == lcg_after(SEED as u32, at as nat),
            total == addressed_sum(shape, at as nat),
            0 <= total <= at * 0x1_0000_0000,
        decreases 4096 - at,
    {
        state = lcg_step(state);
        let value = ((state >> 16u32) % span) as i128;
        assert(value as int == addressed_value(shape, at as int));
        let index = at & 3;
        assert(index == at % 4) by (bit_vector)
            requires
                index == at & 3,
        ;
        let byte = addressed_byte(shape, value, index);
        assert(byte == addressed_read(shape, at as int));
        total = total + byte;
        at += 1;
    }
    total
}

/// The text an arm of an addressed shape returns, as C.
pub open spec fn reply_c(shape: AddressedShape, step: int) -> Seq<char> {
    if shape == AddressedShape::IntoLetters {
        "letters + "@ + decimal(letter_offset_of(step))
    } else {
        "\""@ + word_text(step) + "\""@
    }
}

/// The label an arm of an addressed shape answers for.
pub open spec fn addressed_label(shape: AddressedShape, step: int) -> int {
    if shape == AddressedShape::NamesWithHoles { 2 * step } else { step }
}

/// The function an addressed case calls, and the globals it reads.
pub open spec fn addressed_top(shape: AddressedShape) -> Seq<Seq<char>> {
    (if shape == AddressedShape::IntoLetters {
        seq!["static const char letters[] = \""@ + letters_text() + "\";"@]
    } else {
        Seq::<Seq<char>>::empty()
    }) + seq![
        "static const char *"@ + underscored(shape.name_text()) + "(int value) {"@,
        "    switch (value) {"@,
    ] + Seq::new(
        16,
        |step: int|
            "    case "@ + decimal(addressed_label(shape, step)) + ": return "@ + reply_c(shape, step)
                + ";"@,
    ) + seq![
        if shape == AddressedShape::IntoLetters {
            "    default: return letters + "@ + decimal(58) + ";"@
        } else {
            "    default: return \""@ + "none"@ + "\";"@
        },
        "    }"@,
        "}"@,
    ] + loop_globals()
}

/// The `main` of an addressed case.
pub open spec fn addressed_body(shape: AddressedShape) -> Seq<Seq<char>> {
    seq![
        input_read(Ty::I32, "seed"@),
        input_read(Ty::I32, "count"@),
        Seq::<char>::empty(),
        indent(1) + "int stream[4096];"@,
        indent(1) + "unsigned int state = (unsigned int)seed;"@,
        indent(1) + "for (int at = 0; at < 4096; at++) {"@,
        indent(2) + "state = state * 1103515245u + 12345u;"@,
        indent(2) + "stream[at] = (int)((state >> 16) % "@ + decimal(shape.span_of()) + "u);"@,
        indent(1) + "}"@,
        Seq::<char>::empty(),
        indent(1) + "long long total = 0;"@,
        indent(1) + "for (int at = 0; at < count; at++) {"@,
        indent(2) + "total += "@ + underscored(shape.name_text()) + "(stream[at & 4095])[at & 3];"@,
        indent(1) + "}"@,
        Seq::<char>::empty(),
        print_line(1, Ty::I64, "total"@),
    ]
}

/// Whether a case is the program for an addressed shape, whole.
pub open spec fn is_addressed_case(c: Case, shape: AddressedShape) -> bool {
    &&& c.axes_text() == seq![("shape"@, shape.name_text()), ("stream"@, "unpredictable"@)]
    &&& c.tags_text() == Seq::<Seq<char>>::empty()
    &&& c.program.purpose_text() == "the "@ + shape.name_text()
        + " shape dispatched on unpredictable values"@
    &&& c.program.include_lines() == Seq::<Seq<char>>::empty()
    &&& c.program.top_lines() == addressed_top(shape)
    &&& c.program.body_lines() == addressed_body(shape)
    &&& c.program.expected_values() == seq![addressed_pass(shape) * (DISPATCHES / STREAM)]
    &&& !c.program.sinks()
}

/// Writes the switch of an addressed shape.
fn addressed_switch(program: &mut Program, shape: AddressedShape)
    ensures
        final(program).top_lines() == old(program).top_lines() + addressed_top(shape).take(
            addressed_top(shape).len() - 2,
        ),
        final(program).body_lines() == old(program).body_lines(),
        final(program).expected_values() == old(program).expected_values(),
        final(program).purpose_text() == old(program).purpose_text(),
        final(program).include_lines() == old(program).include_lines(),
        final(program).sinks() == old(program).sinks(),
{
    let ghost top0 = program.top_lines();
    let name = dispatch_name_of(shape.name());
    if shape == AddressedShape::IntoLetters {
        program.top(
            "static const char letters[] = \"abcdefghijklmnopqrstuvwxyzABCDEFGHIJKLMNOPQRSTUVWXYZ0123456789\";",
        );
        proof {
            reveal_strlit("abcdefghijklmnopqrstuvwxyzABCDEFGHIJKLMNOPQRSTUVWXYZ0123456789");
            reveal_strlit("static const char letters[] = \"");
            reveal_strlit("\";");
            reveal_strlit(
                "static const char letters[] = \"abcdefghijklmnopqrstuvwxyzABCDEFGHIJKLMNOPQRSTUVWXYZ0123456789\";",
            );
        }
        assert("static const char letters[] = \"abcdefghijklmnopqrstuvwxyzABCDEFGHIJKLMNOPQRSTUVWXYZ0123456789\";"@
            =~= "static const char letters[] = \""@ + letters_text() + "\";"@);
    }
    let ghost top1 = program.top_lines();
    let mut open = String::from_str("static const char *");
    open.append(name.as_str());
    open.append("(int value) {");
    program.top(open.as_str());
    program.top("    switch (value) {");
    let ghost arms = Seq::new(
        16,
        |step: int|
            "    case "@ + decimal(addressed_label(shape, step)) + ": return "@ + reply_c(shape, step)
                + ";"@,
    );
    let ghost head = program.top_lines();
    let mut step: i128 = 0;
    while step < 16
        invariant
            0 <= step <= 16,
            arms == Seq::new(
                16,
                |step: int|
                    "    case "@ + decimal(addressed_label(shape, step)) + ": return "@ + reply_c(
                        shape,
                        step,
                    ) + ";"@,
            ),
            program.top_lines() == head + arms.take(step as int),
            program.body_lines() == old(program).body_lines(),
            program.expected_values() == old(program).expected_values(),
            program.purpose_text() == old(program).purpose_text(),
            program.include_lines() == old(program).include_lines(),
            program.sinks() == old(program).sinks(),
        decreases 16 - step,
    {
        let label = if shape == AddressedShape::NamesWithHoles { 2 * step } else { step };
        let mut line = String::from_str("    case ");
        push_decimal(&mut line, label);
        line.append(": return ");
        if shape == AddressedShape::IntoLetters {
            line.append("letters + ");
            push_decimal(&mut line, letter_offset(step));
        } else {
            line.append("\"");
            line.append(word(step as usize));
            line.append("\"");
        }
        line.append(";");
        program.top(line.as_str());
        assert(program.top_lines() =~~= head + arms.take(step + 1));
        step += 1;
    }
    if shape == AddressedShape::IntoLetters {
        let mut last = String::from_str("    default: return letters + ");
        push_decimal(&mut last, letter_offset(-1));
        last.append(";");
        program.top(last.as_str());
    } else {
        let mut last = String::from_str("    default: return \"");
        last.append("none");
        last.append("\";");
        program.top(last.as_str());
    }
    program.top("    }");
    program.top("}");
    assert(arms.take(16) =~= arms);
    assert(program.top_lines() =~~= top0 + addressed_top(shape).take(addressed_top(shape).len() - 2));
}

/// A name with its dashes turned into underscores.
fn dispatch_name_of(name: &str) -> (r: String)
    ensures
        r@ == underscored(name@),
{
    underscore(name)
}

/// The program for one addressed shape, dispatched on the unpredictable stream.
///
/// Each dispatch reads one of the first four bytes of what came back, picked by where the loop
/// is, so the address is really used.
pub fn addressed_case(shape: AddressedShape) -> (r: Case)
    ensures
        is_addressed_case(r, shape),
{
    let mut purpose = String::from_str("the ");
    purpose.append(shape.name());
    purpose.append(" shape dispatched on unpredictable values");
    let mut program = Program::new(purpose.as_str());
    addressed_switch(&mut program, shape);
    let per_pass = addressed_total(shape);
    program.input(Ty::I32, "seed", SEED);
    program.input(Ty::I32, "count", DISPATCHES);
    program.blank();
    program.line("int stream[4096];");
    program.line("unsigned int state = (unsigned int)seed;");
    program.line("for (int at = 0; at < 4096; at++) {");
    program.line_at(1, "state = state * 1103515245u + 12345u;");
    let mut fill = String::from_str("stream[at] = (int)((state >> 16) % ");
    push_decimal(&mut fill, shape.span());
    fill.append("u);");
    program.line_at(1, fill.as_str());
    program.line("}");
    program.blank();
    program.line("long long total = 0;");
    program.line("for (int at = 0; at < count; at++) {");
    let name = dispatch_name_of(shape.name());
    let mut call = String::from_str("total += ");
    call.append(name.as_str());
    call.append("(stream[at & 4095])[at & 3];");
    program.line_at(1, call.as_str());
    program.line("}");
    program.blank();
    assert(per_pass * 2500 <= 0x1000_0000_0000_0000) by (nonlinear_arith)
        requires
            0 <= per_pass <= 4096 * 0x1_0000_0000,
    ;
    program.check(Ty::I64, "total", per_pass * (DISPATCHES / STREAM));
    assert(program.top_lines() =~~= addressed_top(shape));
    assert(program.body_lines() =~~= addressed_body(shape));
    let axes = vec![axis("shape", shape.name()), axis("stream", "unpredictable")];
    let r = Case { axes, tags: Vec::new(), program };
    assert(r.axes_text() =~= seq![("shape"@, shape.name_text()), ("stream"@, "unpredictable"@)]);
    assert(r.tags_text() =~= Seq::<Seq<char>>::empty());
    assert(r.program.expected_values() =~= seq![addressed_pass(shape) * (DISPATCHES / STREAM)]);
    r
}

/// The shapes whose arms hand back an address rather than a number, dispatched on
/// unpredictable values: names, names with holes between their labels, and pointers into one
/// string of letters.
pub fn addresses() -> (r: Vec<Case>)
    ensures
        r@.len() == 3,
        is_addressed_case(r@[0], AddressedShape::Names),
        is_addressed_case(r@[1], AddressedShape::NamesWithHoles),
        is_addressed_case(r@[2], AddressedShape::IntoLetters),
{
    let mut out: Vec<Case> = Vec::new();
    out.push(addressed_case(AddressedShape::Names));
    out.push(addressed_case(AddressedShape::NamesWithHoles));
    out.push(addressed_case(AddressedShape::IntoLetters));
    out
}

/// Every case of the switch dispatch facet: each shape on its streams, the interpreter, and
/// the three shapes whose arms return addresses.
pub fn switch_dispatch() -> (r: Vec<Case>)
    ensures
        r@.len() == dispatch_points().len() + 4,
        forall|i: int|
            0 <= i < dispatch_points().len() ==> is_dispatch_case(
                #[trigger] r@[i],
                dispatch_points()[i].0,
                dispatch_points()[i].1,
            ),
        is_interpreter_case(r@[dispatch_points().len() as int]),
        is_addressed_case(r@[dispatch_points().len() as int + 1], AddressedShape::Names),
        is_addressed_case(r@[dispatch_points().len() as int + 2], AddressedShape::NamesWithHoles),
        is_addressed_case(r@[dispatch_points().len() as int + 3], AddressedShape::IntoLetters),
{
    let mut out = dispatch_cases();
    let ghost first = out@;
    out.push(interpreter());
    let mut addressed = addresses();
    out.append(&mut addressed);
    assert(forall|i: int| 0 <= i < first.len() ==> out@[i] == first[i]);
    out
}

} // verus!
