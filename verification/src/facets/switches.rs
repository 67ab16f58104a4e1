//! Switches whose value is one case most of the time, and switches whose labels come in runs
//! that share an arm.
//!
//! A switch that falls into the wrong arm for one value in forty still prints a number, so
//! every case here walks enough values to reach every arm and adds up what it got, and the
//! generator adds up the same arms to know the total.

use vstd::prelude::*;
use vstd::string::*;
use vstd::wrapping::u64_specs;
use crate::emit::{Program, input_global, input_read, indent, print_line};
use crate::lang::{Ty, c_remainder};
use crate::text::{decimal, push_decimal, decimal_string};
use crate::facets::{Case, axis, gnu_when, tags_for};
use crate::facets::dispatch::{lcg_after, lcg_step};
use crate::facets::conversion::{Lean, ROLLS};

verus! {

/// How many labels the hot case shapes have, past the point where the clusters are searched.
pub const HOT_LABELS: i128 = 40;

/// The label the hot case shapes take most of the time, one in the middle so that a balanced
/// search reaches it last rather than first.
pub const HOT_LABEL: i128 = 23;

/// The label the wrong hint in the hot case shapes names.
pub const COLD_LABEL: i128 = 5;

/// What the arm for a label returns: not a line through the labels, so nothing can replace the
/// switch with arithmetic.
pub open spec fn hot_arm_of(label: int) -> int {
    c_remainder(label * 7919, 1000) + 1
}

/// What the arm for a label returns.
pub fn hot_arm(label: i128) -> (r: i128)
    requires
        i128::MIN <= label * 7919 <= i128::MAX,
    ensures
        r == hot_arm_of(label as int),
{
    if label >= 0 {
        label * 7919 % 1000 + 1
    } else {
        let magnitude = (-label) * 7919;
        1 - magnitude % 1000
    }
}

/// Where the draw has to fall under for the hot label, out of 128, for a rate in percent.
pub open spec fn hot_bar_of(rate: u32) -> int {
    (rate * 128 + 50) / 100
}

/// Where the draw in the hot case shapes has to fall under for the hot label, out of 128 so
/// that the draw is a mask rather than a division.
pub fn hot_bar(rate: u32) -> (r: u32)
    requires
        rate * 128 + 50 <= u32::MAX,
    ensures
        r == hot_bar_of(rate),
{
    (rate * 128 + 50) / 100
}

/// The label a round of a hot case shape asks about, for the generator state of that round.
pub open spec fn hot_label_of(state: u32, rate: u32) -> int {
    if ((state >> 16u32) & 127u32) < hot_bar_of(rate) {
        HOT_LABEL as int
    } else {
        ((((state >> 24u32) * 40) as u32) >> 8u32) as int
    }
}

/// What the switch of a hot case shape returns for a value: the arm of the first label whose
/// case is that value, or the default.
pub open spec fn hot_found(value: int, stride: int, at: int) -> int
    decreases HOT_LABELS - at,
{
    if at >= HOT_LABELS || at < 0 {
        0
    } else if at * stride == value {
        hot_arm_of(at)
    } else {
        hot_found(value, stride, at + 1)
    }
}

/// What the first `n` rounds of a hot case shape add up to, in `unsigned long long`.
pub open spec fn hot_sum(seed: u32, rate: u32, stride: int, n: nat) -> u64
    decreases n,
{
    if n == 0 {
        0
    } else {
        u64_specs::wrapping_add(
            hot_sum(seed, rate, stride, (n - 1) as nat),
            hot_found(hot_label_of(lcg_after(seed, n), rate) * stride, stride, 0) as u64,
        )
    }
}

/// With labels a positive stride apart, the switch finds the arm of the label it is asked
/// about.
proof fn lemma_hot_found(label: int, stride: int, at: int)
    requires
        0 <= at <= label < HOT_LABELS,
        stride >= 1,
    ensures
        hot_found(label * stride, stride, at) == hot_arm_of(label),
    decreases label - at,
{
    if at < label {
        assert(at * stride < label * stride) by (nonlinear_arith)
            requires
                at < label,
                stride >= 1,
        ;
        lemma_hot_found(label, stride, at + 1);
    }
}

/// What one of the hot case shapes adds up, worked out the way the C works it out.
pub fn hot_rolled(seed: u32, rate: u32, stride: i128) -> (r: u64)
    requires
        rate <= 100,
        1 <= stride <= 1000,
    ensures
        r == hot_sum(seed, rate, stride as int, ROLLS as nat),
{
    let bar = hot_bar(rate);
    let mut state = seed;
    let mut total: u64 = 0;
    let mut i: u32 = 0;
    while i < ROLLS
        invariant
            i <= ROLLS,
            rate <= 100,
            1 <= stride <= 1000,
            bar == hot_bar_of(rate),
            state == lcg_after(seed, i as nat),
            total == hot_sum(seed, rate, stride as int, i as nat),
        decreases ROLLS - i,
    {
        state = lcg_step(state);
        let high = state >> 24u32;
        assert(high < 256) by (bit_vector)
            requires
                high == state >> 24u32,
        ;
        let scaled = high * 40;
        let drawn = scaled >> 8u32;
        assert(drawn < 40) by (bit_vector)
            requires
                drawn == scaled >> 8u32,
                scaled <= 10200,
        ;
        let label: i128 = if (state >> 16u32) & 127u32 < bar {
            HOT_LABEL
        } else {
            drawn as i128
        };
        assert(label == hot_label_of(state, rate));
        proof {
            lemma_hot_found(label as int, stride as int, 0);
        }
        let found = hot_arm(label);
        assert(1 <= found <= 1000);
        total = total.wrapping_add(found as u64);
        i += 1;
    }
    total
}

/// A switch density: how far apart its labels are.
#[derive(Clone, Copy, Debug, PartialEq, Eq, Structural)]
pub enum Density {
    /// Consecutive labels.
    Dense,
    /// Labels seventeen apart.
    Sparse,
}

impl Density {
    /// The axis value.
    pub open spec fn name_text(self) -> Seq<char> {
        match self {
            Density::Dense => "dense"@,
            Density::Sparse => "sparse"@,
        }
    }

    /// How far apart the labels are.
    pub open spec fn stride_of(self) -> int {
        match self {
            Density::Dense => 1,
            Density::Sparse => 17,
        }
    }

    /// The axis value.
    pub fn name(self) -> (r: &'static str)
        ensures
            r@ == self.name_text(),
    {
        match self {
            Density::Dense => "dense",
            Density::Sparse => "sparse",
        }
    }

    /// How far apart the labels are.
    pub fn stride(self) -> (r: i128)
        ensures
            r == self.stride_of(),
    {
        match self {
            Density::Dense => 1,
            Density::Sparse => 17,
        }
    }
}

/// What the switch of a hot case shape is on: the value, or the value with a hint naming the
/// hot label or a cold one.
pub open spec fn hot_operand(lean: Lean, stride: int) -> Seq<char> {
    match lean {
        Lean::Right => "__builtin_expect(value, "@ + decimal(HOT_LABEL * stride) + ")"@,
        Lean::Wrong => "__builtin_expect(value, "@ + decimal(COLD_LABEL * stride) + ")"@,
        Lean::Unhinted => "value"@,
    }
}

/// The line for one label of a hot case shape.
pub open spec fn hot_case_line(label: int, stride: int) -> Seq<char> {
    "    case "@ + decimal(label * stride) + ": return "@ + decimal(hot_arm_of(label)) + ";"@
}

/// The lines before `main` of a hot case shape.
pub open spec fn hot_top(lean: Lean, stride: int) -> Seq<Seq<char>> {
    seq!["static int classify(int value) {"@, "    switch ("@ + hot_operand(lean, stride) + ") {"@]
        + Seq::new(40, |label: int| hot_case_line(label, stride)) + seq![
        "    default: return 0;"@,
        "    }"@,
        "}"@,
        input_global(Ty::U32, "seed"@, 7),
        input_global(Ty::I32, "step"@, stride),
    ]
}

/// The `main` of a hot case shape.
pub open spec fn hot_body(rate: u32) -> Seq<Seq<char>> {
    seq![
        input_read(Ty::U32, "seed"@),
        input_read(Ty::I32, "step"@),
        Seq::<char>::empty(),
        indent(1) + "unsigned state = seed;"@,
        indent(1) + "unsigned long long total = 0;"@,
        indent(1) + "for (int i = 0; i < 20000000; i++) {"@,
        indent(2) + "state = state * 1103515245u + 12345u;"@,
        indent(2) + "int label = ((state >> 16) & 127u) < "@ + decimal(hot_bar_of(rate))
            + "u ? 23 : (int)(((state >> 24) * 40u) >> 8);"@,
        indent(2) + "total += (unsigned long long)classify(label * step);"@,
        indent(1) + "}"@,
        Seq::<char>::empty(),
        print_line(1, Ty::U64, "total"@),
    ]
}

/// Whether a case is the hot case shape for a density, a rate and a hint, whole.
pub open spec fn is_hot_case(c: Case, density: Density, rate: u32, lean: Lean) -> bool {
    &&& c.axes_text() == seq![
        ("density"@, density.name_text()),
        ("shape"@, "hot-case"@),
        ("rate"@, decimal(rate as int)),
        ("hint"@, lean.name_text()),
    ]
    &&& c.tags_text() == gnu_when(lean != Lean::Unhinted)
    &&& c.program.purpose_text() == "a "@ + density.name_text()
        + " switch on a value that is one case "@ + decimal(rate as int)
        + " times in a hundred, with "@ + lean.name_text() + " hint"@
    &&& c.program.include_lines() == Seq::<Seq<char>>::empty()
    &&& c.program.top_lines() == hot_top(lean, density.stride_of())
    &&& c.program.body_lines() == hot_body(rate)
    &&& c.program.expected_values() == seq![
        hot_sum(7, rate, density.stride_of(), ROLLS as nat) as int,
    ]
    &&& !c.program.sinks()
}


/// Writes the switch of a hot case shape.
fn hot_switch(program: &mut Program, lean: Lean, stride: i128)
    requires
        1 <= stride <= 1000,
    ensures
        final(program).top_lines() == old(program).top_lines() + hot_top(lean, stride as int).take(
            45,
        ),
        final(program).purpose_text() == old(program).purpose_text(),
        final(program).include_lines() == old(program).include_lines(),
        final(program).body_lines() == old(program).body_lines(),
        final(program).expected_values() == old(program).expected_values(),
        final(program).sinks() == old(program).sinks(),
{
    let ghost start = program.top_lines();
    let ghost s = stride as int;
    let mut head = String::from_str("    switch (");
    match lean {
        Lean::Right => {
            head.append("__builtin_expect(value, ");
            push_decimal(&mut head, HOT_LABEL * stride);
            head.append(")");
        },
        Lean::Wrong => {
            head.append("__builtin_expect(value, ");
            push_decimal(&mut head, COLD_LABEL * stride);
            head.append(")");
        },
        Lean::Unhinted => {
            head.append("value");
        },
    }
    head.append(") {");
    assert(head@ == "    switch ("@ + hot_operand(lean, s) + ") {"@);
    program.top("static int classify(int value) {");
    program.top(head.as_str());
    let ghost arms = Seq::new(40, |label: int| hot_case_line(label, s));
    let mut label: i128 = 0;
    assert(program.top_lines() =~= start + seq![
        "static int classify(int value) {"@,
        "    switch ("@ + hot_operand(lean, s) + ") {"@,
    ] + arms.take(0));
    while label < HOT_LABELS
        invariant
            0 <= label <= HOT_LABELS,
            1 <= stride <= 1000,
            s == stride as int,
            arms == Seq::new(40, |label: int| hot_case_line(label, s)),
            program.top_lines() == start + seq![
                "static int classify(int value) {"@,
                "    switch ("@ + hot_operand(lean, s) + ") {"@,
            ] + arms.take(label as int),
            program.purpose_text() == old(program).purpose_text(),
            program.include_lines() == old(program).include_lines(),
            program.body_lines() == old(program).body_lines(),
            program.expected_values() == old(program).expected_values(),
            program.sinks() == old(program).sinks(),
        decreases HOT_LABELS - label,
    {
        assert(label * stride <= 40 * 1000) by (nonlinear_arith)
            requires
                0 <= label <= 40,
                1 <= stride <= 1000,
        ;
        let mut line = String::from_str("    case ");
        push_decimal(&mut line, label * stride);
        line.append(": return ");
        push_decimal(&mut line, hot_arm(label));
        line.append(";");
        assert(line@ == hot_case_line(label as int, s));
        program.top(line.as_str());
        assert(arms.take(label + 1) =~= arms.take(label as int).push(
            hot_case_line(label as int, s),
        ));
        label += 1;
    }
    program.top("    default: return 0;");
    program.top("    }");
    program.top("}");
    assert(arms.take(40) =~= arms);
    assert(program.top_lines() =~= start + hot_top(lean, s).take(45));
}

/// One hot case shape, given what its rounds add up to.
fn hot_case(density: Density, rate: u32, lean: Lean, total: u64) -> (r: Case)
    requires
        rate <= 100,
        total == hot_sum(7, rate, density.stride_of(), ROLLS as nat),
    ensures
        is_hot_case(r, density, rate, lean),
{
    let stride = density.stride();
    let shown = decimal_string(rate as i128);
    let mut purpose = String::from_str("a ");
    purpose.append(density.name());
    purpose.append(" switch on a value that is one case ");
    purpose.append(shown.as_str());
    purpose.append(" times in a hundred, with ");
    purpose.append(lean.name());
    purpose.append(" hint");
    let mut program = Program::new(purpose.as_str());
    hot_switch(&mut program, lean, stride);
    program.input(Ty::U32, "seed", 7);
    program.input(Ty::I32, "step", stride);
    program.blank();
    program.line("unsigned state = seed;");
    program.line("unsigned long long total = 0;");
    program.line("for (int i = 0; i < 20000000; i++) {");
    program.line_at(1, "state = state * 1103515245u + 12345u;");
    let bar = hot_bar(rate);
    let mut draw = String::from_str("int label = ((state >> 16) & 127u) < ");
    push_decimal(&mut draw, bar as i128);
    draw.append("u ? 23 : (int)(((state >> 24) * 40u) >> 8);");
    program.line_at(1, draw.as_str());
    program.line_at(1, "total += (unsigned long long)classify(label * step);");
    program.line("}");
    program.blank();
    program.check(Ty::U64, "total", total as i128);
    assert(program.top_lines() =~~= hot_top(lean, stride as int));
    assert(program.body_lines() =~~= hot_body(rate));
    let axes = vec![
        axis("density", density.name()),
        axis("shape", "hot-case"),
        axis("rate", shown.as_str()),
        axis("hint", lean.name()),
    ];
    let r = Case { axes, tags: tags_for(lean != Lean::Unhinted), program };
    assert(r.axes_text() =~= seq![
        ("density"@, density.name_text()),
        ("shape"@, "hot-case"@),
        ("rate"@, decimal(rate as int)),
        ("hint"@, lean.name_text()),
    ]);
    assert(r.program.expected_values() =~= seq![
        hot_sum(7, rate, density.stride_of(), ROLLS as nat) as int,
    ]);
    r
}

/// The points the hot case facet walks: each density at each rate, with no hint, the right
/// one and the wrong one.
pub open spec fn hot_points() -> Seq<(Density, u32, Lean)> {
    let densities = seq![Density::Dense, Density::Sparse];
    let hot_rates = seq![75u32, 95];
    let leans = seq![Lean::Unhinted, Lean::Right, Lean::Wrong];
    Seq::new(12, |i: int| (densities[i / 6], hot_rates[(i / 3) % 2], leans[i % 3]))
}

/// A switch on a value that is one case most of the time, with and without a hint saying
/// which.
///
/// A case a hint makes hot is tested on its own, ahead of the search or the table, so the
/// common value is one compare and a taken branch. The value is the hot label `rate` times in
/// a hundred and any label the rest of the time, drawn with a mask and a multiply rather than
/// a `%` so that no division in the loop is what gets timed. A hint never changes the answer,
/// so the three spellings at one density and rate share it.
pub fn switch_hot_case() -> (r: Vec<Case>)
    ensures
        r@.len() == 12,
        forall|i: int|
            0 <= i < 12 ==> is_hot_case(
                #[trigger] r@[i],
                hot_points()[i].0,
                hot_points()[i].1,
                hot_points()[i].2,
            ),
{
    let densities = [Density::Dense, Density::Sparse];
    let hot_rates: [u32; 2] = [75, 95];
    let leans = [Lean::Unhinted, Lean::Right, Lean::Wrong];
    let mut out: Vec<Case> = Vec::new();
    let mut at: usize = 0;
    while at < 4
        invariant
            at <= 4,
            densities@ == seq![Density::Dense, Density::Sparse],
            hot_rates@ == seq![75u32, 95],
            leans@ == seq![Lean::Unhinted, Lean::Right, Lean::Wrong],
            out@.len() == 3 * at,
            forall|k: int|
                0 <= k < 3 * at ==> is_hot_case(
                    #[trigger] out@[k],
                    hot_points()[k].0,
                    hot_points()[k].1,
                    hot_points()[k].2,
                ),
        decreases 4 - at,
    {
        let density = densities[at / 2];
        let rate = hot_rates[at % 2];
        let total = hot_rolled(7, rate, density.stride());
        let mut which: usize = 0;
        while which < 3
            invariant
                at < 4,
                which <= 3,
                density == seq![Density::Dense, Density::Sparse][(at / 2) as int],
                rate == seq![75u32, 95][at as int % 2],
                total == hot_sum(7, rate, density.stride_of(), ROLLS as nat),
                leans@ == seq![Lean::Unhinted, Lean::Right, Lean::Wrong],
                out@.len() == 3 * at + which,
                forall|k: int|
                    0 <= k < 3 * at + which ==> is_hot_case(
                        #[trigger] out@[k],
                        hot_points()[k].0,
                        hot_points()[k].1,
                        hot_points()[k].2,
                    ),
            decreases 3 - which,
        {
            let ghost k = 3 * at + which;
            assert(k / 6 == at / 2 && (k / 3) % 2 == at % 2 && k % 3 == which);
            out.push(hot_case(density, rate, leans[which], total));
            which += 1;
        }
        at += 1;
    }
    out
}

/// Where a run of labels starts, in the shapes that do not need a particular value.
pub const RUN_BASE: i128 = 10;

/// How far either side of a run the walk goes, so the label next to the run is asked about too.
pub const RUN_PAD: i128 = 3;

/// How long each run is in the shapes that have more than one of them.
pub const RUN_LENGTH: i128 = 8;

/// The lines a walk adds before `main`: the first value and the count, both opaque.
pub open spec fn walk_top(first: int, count: int) -> Seq<Seq<char>> {
    seq![input_global(Ty::I32, "first"@, first), input_global(Ty::I32, "count"@, count)]
}

/// The `main` a walk writes: it calls the switch on `count` values from `first` and prints
/// what they add up to.
pub open spec fn walk_body(call: Seq<char>) -> Seq<Seq<char>> {
    seq![
        input_read(Ty::I32, "first"@),
        input_read(Ty::I32, "count"@),
        Seq::<char>::empty(),
        indent(1) + "long long total = 0;"@,
        indent(1) + "for (int step = 0; step < count; step++) {"@,
        indent(2) + "total += "@ + call + "(first + step);"@,
        indent(1) + "}"@,
        Seq::<char>::empty(),
        print_line(1, Ty::I64, "total"@),
    ]
}

/// Emits the walk that drives one of these switches, and the check on what it added up to.
pub fn walk(program: &mut Program, call: &str, first: i128, count: i128, total: i128)
    ensures
        final(program).top_lines() == old(program).top_lines() + walk_top(
            first as int,
            count as int,
        ),
        final(program).body_lines() == old(program).body_lines() + walk_body(call@),
        final(program).expected_values() == old(program).expected_values().push(total as int),
        final(program).purpose_text() == old(program).purpose_text(),
        final(program).include_lines() == old(program).include_lines(),
        final(program).sinks() == old(program).sinks(),
{
    let ghost top0 = program.top_lines();
    let ghost body0 = program.body_lines();
    program.input(Ty::I32, "first", first);
    program.input(Ty::I32, "count", count);
    program.blank();
    program.line("long long total = 0;");
    program.line("for (int step = 0; step < count; step++) {");
    let mut line = String::from_str("total += ");
    line.append(call);
    line.append("(first + step);");
    program.line_at(1, line.as_str());
    program.line("}");
    program.blank();
    program.check(Ty::I64, "total", total);
    assert(program.top_lines() =~~= top0 + walk_top(first as int, count as int));
    assert(program.body_lines() =~~= body0 + walk_body(call@));
}

/// The lines that write the `default` arm and close the switch and the function.
pub open spec fn close_lines() -> Seq<Seq<char>> {
    seq!["    default:"@, "        return 0;"@, "    }"@, "}"@]
}

/// Writes the `default` arm and closes the switch and the function around it.
pub fn close(program: &mut Program)
    ensures
        final(program).top_lines() == old(program).top_lines() + close_lines(),
        final(program).body_lines() == old(program).body_lines(),
        final(program).expected_values() == old(program).expected_values(),
        final(program).purpose_text() == old(program).purpose_text(),
        final(program).include_lines() == old(program).include_lines(),
        final(program).sinks() == old(program).sinks(),
{
    let ghost top0 = program.top_lines();
    program.top("    default:");
    program.top("        return 0;");
    program.top("    }");
    program.top("}");
    assert(program.top_lines() =~~= top0 + close_lines());
}

/// The label line for one value.
pub open spec fn label_line(value: int) -> Seq<char> {
    "    case "@ + decimal(value) + ":"@
}

/// The label lines for `count` consecutive values from `low`.
pub open spec fn label_lines(low: int, count: nat) -> Seq<Seq<char>> {
    Seq::new(count, |k: int| label_line(low + k))
}

/// The line that ends a run with its arm.
pub open spec fn return_line(arm: int) -> Seq<char> {
    "        return "@ + decimal(arm) + ";"@
}

/// Writes a label for each of `count` consecutive values from `low`, all falling into the arm
/// written next.
fn push_labels(program: &mut Program, low: i128, count: i128)
    requires
        0 <= count,
        -1_000_000_000 <= low <= 1_000_000_000,
        count <= 1_000_000_000,
    ensures
        final(program).top_lines() == old(program).top_lines() + label_lines(
            low as int,
            count as nat,
        ),
        final(program).body_lines() == old(program).body_lines(),
        final(program).expected_values() == old(program).expected_values(),
        final(program).purpose_text() == old(program).purpose_text(),
        final(program).include_lines() == old(program).include_lines(),
        final(program).sinks() == old(program).sinks(),
{
    let ghost top0 = program.top_lines();
    let ghost all = label_lines(low as int, count as nat);
    let mut k: i128 = 0;
    assert(all.take(0) =~= Seq::<Seq<char>>::empty());
    while k < count
        invariant
            0 <= k <= count,
            -1_000_000_000 <= low <= 1_000_000_000,
            count <= 1_000_000_000,
            all == label_lines(low as int, count as nat),
            program.top_lines() =~= top0 + all.take(k as int),
            program.body_lines() == old(program).body_lines(),
            program.expected_values() == old(program).expected_values(),
            program.purpose_text() == old(program).purpose_text(),
            program.include_lines() == old(program).include_lines(),
            program.sinks() == old(program).sinks(),
        decreases count - k,
    {
        let mut line = String::from_str("    case ");
        push_decimal(&mut line, low + k);
        line.append(":");
        program.top(line.as_str());
        assert(all.take(k + 1) =~= all.take(k as int).push(label_line(low + k)));
        k += 1;
    }
    assert(all.take(count as int) =~= all);
}

/// Writes the line that ends a run with its arm.
fn push_return(program: &mut Program, arm: i128)
    ensures
        final(program).top_lines() == old(program).top_lines().push(return_line(arm as int)),
        final(program).body_lines() == old(program).body_lines(),
        final(program).expected_values() == old(program).expected_values(),
        final(program).purpose_text() == old(program).purpose_text(),
        final(program).include_lines() == old(program).include_lines(),
        final(program).sinks() == old(program).sinks(),
{
    let mut line = String::from_str("        return ");
    push_decimal(&mut line, arm);
    line.append(";");
    program.top(line.as_str());
}

/// Whether a case is a run shape: its axes, its purpose, its switch and its walk.
pub open spec fn is_run_case(
    c: Case,
    shape: Seq<char>,
    variant: Seq<char>,
    purpose: Seq<char>,
    function: Seq<Seq<char>>,
    call: Seq<char>,
    first: int,
    count: int,
    total: int,
) -> bool {
    &&& c.axes_text() == seq![("shape"@, shape), ("variant"@, variant)]
    &&& c.tags_text() == Seq::<Seq<char>>::empty()
    &&& c.program.purpose_text() == purpose
    &&& c.program.include_lines() == Seq::<Seq<char>>::empty()
    &&& c.program.top_lines() == function + walk_top(first, count)
    &&& c.program.body_lines() == walk_body(call)
    &&& c.program.expected_values() == seq![total]
    &&& !c.program.sinks()
}

/// The function of the one run shape.
pub open spec fn one_run_lines(length: int) -> Seq<Seq<char>> {
    seq!["static int in_run(int value) {"@, "    switch (value) {"@] + label_lines(
        RUN_BASE as int,
        length as nat,
    ) + seq!["        return 1;"@] + close_lines()
}

/// Wraps a program up as a case of the run facet.
fn run_case(program: Program, shape: &str, variant: &str) -> (r: Case)
    ensures
        r.axes_text() == seq![("shape"@, shape@), ("variant"@, variant@)],
        r.tags_text() == Seq::<Seq<char>>::empty(),
        r.program == program,
{
    let r = Case { axes: vec![axis("shape", shape), axis("variant", variant)], tags: tags_for(false), program };
    assert(r.axes_text() =~= seq![("shape"@, shape@), ("variant"@, variant@)]);
    r
}

/// One run of a length, all sharing an arm.
fn one_run_case(length: i128) -> (r: Case)
    requires
        1 <= length <= 100,
    ensures
        is_run_case(
            r,
            "one-run"@,
            decimal(length as int),
            "one run of "@ + decimal(length as int) + " labels sharing an arm"@,
            one_run_lines(length as int),
            "in_run"@,
            RUN_BASE - RUN_PAD,
            length + 2 * RUN_PAD,
            length as int,
        ),
{
    let shown = decimal_string(length);
    let mut purpose = String::from_str("one run of ");
    purpose.append(shown.as_str());
    purpose.append(" labels sharing an arm");
    let mut program = Program::new(purpose.as_str());
    program.top("static int in_run(int value) {");
    program.top("    switch (value) {");
    push_labels(&mut program, RUN_BASE, length);
    program.top("        return 1;");
    close(&mut program);
    walk(&mut program, "in_run", RUN_BASE - RUN_PAD, length + 2 * RUN_PAD, length);
    assert(program.top_lines() =~~= one_run_lines(length as int) + walk_top(
        RUN_BASE - RUN_PAD,
        length + 2 * RUN_PAD,
    ));
    assert(program.body_lines() =~~= walk_body("in_run"@));
    assert(program.expected_values() =~= seq![length as int]);
    run_case(program, "one-run", shown.as_str())
}

/// The arms of the several runs shape: each run of labels, then the line that ends it.
pub open spec fn several_lines(arms: nat) -> Seq<Seq<char>>
    decreases arms,
{
    if arms == 0 {
        Seq::empty()
    } else {
        several_lines((arms - 1) as nat) + label_lines(
            RUN_BASE + (arms - 1) * RUN_LENGTH,
            RUN_LENGTH as nat,
        ) + seq![return_line(arms as int)]
    }
}

/// The function of the several runs shape.
pub open spec fn several_runs_lines(arms: int) -> Seq<Seq<char>> {
    seq!["static int which_run(int value) {"@, "    switch (value) {"@] + several_lines(
        arms as nat,
    ) + close_lines()
}

/// One plus two up to `n`.
pub open spec fn triangle(n: nat) -> int
    decreases n,
{
    if n == 0 {
        0
    } else {
        n + triangle((n - 1) as nat)
    }
}

/// Adjacent runs of a count, each to its own arm.
fn several_runs_case(arms: i128) -> (r: Case)
    requires
        1 <= arms <= 33,
    ensures
        is_run_case(
            r,
            "several-runs"@,
            decimal(arms as int),
            decimal(arms as int) + " runs of 8 labels, each to its own arm"@,
            several_runs_lines(arms as int),
            "which_run"@,
            RUN_BASE - RUN_PAD,
            arms * RUN_LENGTH + 2 * RUN_PAD,
            RUN_LENGTH * triangle(arms as nat),
        ),
{
    let shown = decimal_string(arms);
    let mut purpose = String::from_str(shown.as_str());
    purpose.append(" runs of 8 labels, each to its own arm");
    let mut program = Program::new(purpose.as_str());
    program.top("static int which_run(int value) {");
    program.top("    switch (value) {");
    let ghost head = program.top_lines();
    let mut arm: i128 = 0;
    let mut sum: i128 = 0;
    while arm < arms
        invariant
            0 <= arm <= arms <= 33,
            sum == triangle(arm as nat),
            0 <= sum <= arm * 33,
            program.top_lines() == head + several_lines(arm as nat),
            program.body_lines() == Seq::<Seq<char>>::empty(),
            program.expected_values() == Seq::<int>::empty(),
            program.purpose_text() == purpose@,
            program.include_lines() == Seq::<Seq<char>>::empty(),
            !program.sinks(),
        decreases arms - arm,
    {
        push_labels(&mut program, RUN_BASE + arm * RUN_LENGTH, RUN_LENGTH);
        push_return(&mut program, arm + 1);
        assert(program.top_lines() =~~= head + several_lines((arm + 1) as nat));
        sum = sum + arm + 1;
        arm += 1;
    }
    close(&mut program);
    assert(sum <= 33 * 33) by (nonlinear_arith)
        requires
            0 <= sum <= arm * 33,
            arm <= 33,
    ;
    let total = RUN_LENGTH * sum;
    walk(&mut program, "which_run", RUN_BASE - RUN_PAD, arms * RUN_LENGTH + 2 * RUN_PAD, total);
    assert(program.top_lines() =~~= several_runs_lines(arms as int) + walk_top(
        RUN_BASE - RUN_PAD,
        arms * RUN_LENGTH + 2 * RUN_PAD,
    ));
    assert(program.body_lines() =~~= walk_body("which_run"@));
    assert(program.expected_values() =~= seq![RUN_LENGTH * triangle(arms as nat)]);
    run_case(program, "several-runs", shown.as_str())
}

/// The function of the look-alike shape: five arms that each add a different constant.
pub open spec fn look_alike_lines() -> Seq<Seq<char>> {
    seq!["static int pick(int value) {"@, "    int out;"@, "    switch (value) {"@] + Seq::new(
        15,
        |i: int|
            if i % 3 == 0 {
                label_line(RUN_BASE + i / 3)
            } else if i % 3 == 1 {
                "        out = value + "@ + decimal(i / 3 + 1) + ";"@
            } else {
                "        break;"@
            },
    ) + seq![
        "    default:"@,
        "        out = 0;"@,
        "        break;"@,
        "    }"@,
        "    return out;"@,
        "}"@,
    ]
}

/// What the look-alike walk adds up: each label plus its own constant, and nothing outside.
pub open spec fn look_alike_total(n: nat) -> int
    decreases n,
{
    if n == 0 {
        0
    } else {
        look_alike_total((n - 1) as nat) + RUN_BASE + (n - 1) + (n - 1) + 1
    }
}

/// Consecutive labels whose arms are written the same way and are not the same arm.
fn look_alike_case() -> (r: Case)
    ensures
        is_run_case(
            r,
            "look-alike-arms"@,
            "five"@,
            "consecutive labels whose arms look alike and are not"@,
            look_alike_lines(),
            "pick"@,
            RUN_BASE - RUN_PAD,
            5 + 2 * RUN_PAD,
            look_alike_total(5),
        ),
{
    let mut program = Program::new("consecutive labels whose arms look alike and are not");
    program.top("static int pick(int value) {");
    program.top("    int out;");
    program.top("    switch (value) {");
    let ghost head = program.top_lines();
    let ghost arms = Seq::new(
        15,
        |i: int|
            if i % 3 == 0 {
                label_line(RUN_BASE + i / 3)
            } else if i % 3 == 1 {
                "        out = value + "@ + decimal(i / 3 + 1) + ";"@
            } else {
                "        break;"@
            },
    );
    let mut step: i128 = 0;
    let mut total: i128 = 0;
    assert(arms.take(0) =~= Seq::<Seq<char>>::empty());
    while step < 5
        invariant
            0 <= step <= 5,
            total == look_alike_total(step as nat),
            total <= step * 20,
            arms == Seq::new(
                15,
                |i: int|
                    if i % 3 == 0 {
                        label_line(RUN_BASE + i / 3)
                    } else if i % 3 == 1 {
                        "        out = value + "@ + decimal(i / 3 + 1) + ";"@
                    } else {
                        "        break;"@
                    },
            ),
            program.top_lines() =~~= head + arms.take(3 * step),
            program.body_lines() == Seq::<Seq<char>>::empty(),
            program.expected_values() == Seq::<int>::empty(),
            program.purpose_text() == "consecutive labels whose arms look alike and are not"@,
            program.include_lines() == Seq::<Seq<char>>::empty(),
            !program.sinks(),
        decreases 5 - step,
    {
        let mut label = String::from_str("    case ");
        push_decimal(&mut label, RUN_BASE + step);
        label.append(":");
        program.top(label.as_str());
        let mut assign = String::from_str("        out = value + ");
        push_decimal(&mut assign, step + 1);
        assign.append(";");
        program.top(assign.as_str());
        program.top("        break;");
        assert(arms[3 * step] == label_line(RUN_BASE + step));
        assert(arms[3 * step + 1] == "        out = value + "@ + decimal(step + 1) + ";"@);
        assert(arms.take(3 * step + 3) =~~= arms.take(3 * step).push(label@).push(assign@).push(
            "        break;"@,
        ));
        total = total + RUN_BASE + step + step + 1;
        step += 1;
    }
    program.top("    default:");
    program.top("        out = 0;");
    program.top("        break;");
    program.top("    }");
    program.top("    return out;");
    program.top("}");
    assert(arms.take(15) =~= arms);
    walk(&mut program, "pick", RUN_BASE - RUN_PAD, 5 + 2 * RUN_PAD, total);
    assert(program.top_lines() =~~= look_alike_lines() + walk_top(
        RUN_BASE - RUN_PAD,
        5 + 2 * RUN_PAD,
    ));
    assert(program.body_lines() =~~= walk_body("pick"@));
    assert(program.expected_values() =~= seq![look_alike_total(5)]);
    run_case(program, "look-alike-arms", "five")
}

/// The runs of the mixed shape: lowest label, highest label and arm.
pub open spec fn mixed_runs() -> Seq<(int, int, int)> {
    seq![(10, 15, 1), (40, 45, 2), (300, 311, 3)]
}

/// The single labels of the mixed shape, each with its arm.
pub open spec fn mixed_singles() -> Seq<(int, int)> {
    seq![(100, 4), (250, 5), (600, 6), (1500, 7), (4000, 8)]
}

/// The arm of the first run that holds a value.
pub open spec fn in_runs(runs: Seq<(int, int, int)>, value: int) -> Option<int>
    decreases runs.len(),
{
    if runs.len() == 0 {
        None
    } else if runs[0].0 <= value <= runs[0].1 {
        Some(runs[0].2)
    } else {
        in_runs(runs.drop_first(), value)
    }
}

/// The arm of the first single label that is a value.
pub open spec fn in_singles(singles: Seq<(int, int)>, value: int) -> Option<int>
    decreases singles.len(),
{
    if singles.len() == 0 {
        None
    } else if singles[0].0 == value {
        Some(singles[0].1)
    } else {
        in_singles(singles.drop_first(), value)
    }
}

/// What the mixed switch returns for a value: the arm of its run, else of its single label,
/// else the default.
pub open spec fn mixed_answer(value: int) -> int {
    match in_runs(mixed_runs(), value) {
        Some(arm) => arm,
        None => match in_singles(mixed_singles(), value) {
            Some(arm) => arm,
            None => 0,
        },
    }
}

/// The values the mixed walk asks about: both ends of every run and their neighbours, then
/// every single label and its neighbours.
pub open spec fn run_probes(runs: Seq<(int, int, int)>) -> Seq<int>
    decreases runs.len(),
{
    if runs.len() == 0 {
        Seq::empty()
    } else {
        let (low, high, _) = runs.last();
        run_probes(runs.drop_last()) + seq![low - 1, low, low + 1, high - 1, high, high + 1]
    }
}

/// The values the mixed walk asks about around each single label.
pub open spec fn single_probes(singles: Seq<(int, int)>) -> Seq<int>
    decreases singles.len(),
{
    if singles.len() == 0 {
        Seq::empty()
    } else {
        let (value, _) = singles.last();
        single_probes(singles.drop_last()) + seq![value - 1, value, value + 1]
    }
}

/// Every value the mixed walk asks about, in order.
pub open spec fn mixed_probes() -> Seq<int> {
    run_probes(mixed_runs()) + single_probes(mixed_singles())
}

/// What the mixed switch adds up over some values.
pub open spec fn mixed_sum(values: Seq<int>) -> int
    decreases values.len(),
{
    if values.len() == 0 {
        0
    } else {
        mixed_sum(values.drop_last()) + mixed_answer(values.last())
    }
}

/// Numbers separated by a comma and a space.
pub open spec fn listed(values: Seq<int>) -> Seq<char>
    decreases values.len(),
{
    if values.len() == 0 {
        Seq::empty()
    } else if values.len() == 1 {
        decimal(values[0])
    } else {
        listed(values.drop_last()) + ", "@ + decimal(values.last())
    }
}

/// The arms of the mixed switch that are runs.
pub open spec fn run_block_lines(runs: Seq<(int, int, int)>) -> Seq<Seq<char>>
    decreases runs.len(),
{
    if runs.len() == 0 {
        Seq::empty()
    } else {
        let (low, high, arm) = runs.last();
        run_block_lines(runs.drop_last()) + label_lines(low, (high - low + 1) as nat) + seq![
            return_line(arm),
        ]
    }
}

/// The arms of the mixed switch that are single labels.
pub open spec fn single_lines(singles: Seq<(int, int)>) -> Seq<Seq<char>>
    decreases singles.len(),
{
    if singles.len() == 0 {
        Seq::empty()
    } else {
        let (value, arm) = singles.last();
        single_lines(singles.drop_last()) + seq![
            "    case "@ + decimal(value) + ": return "@ + decimal(arm) + ";"@,
        ]
    }
}

/// The lines before `main` of the mixed shape.
pub open spec fn mixed_top() -> Seq<Seq<char>> {
    seq!["static int mixed(int value) {"@, "    switch (value) {"@] + run_block_lines(mixed_runs())
        + single_lines(mixed_singles()) + close_lines() + seq![
        "static const int probes[] = { "@ + listed(mixed_probes()) + " };"@,
        input_global(Ty::I32, "bump"@, 0),
        input_global(Ty::I32, "count"@, mixed_probes().len() as int),
    ]
}

/// The `main` of the mixed shape.
pub open spec fn mixed_body() -> Seq<Seq<char>> {
    seq![
        input_read(Ty::I32, "bump"@),
        input_read(Ty::I32, "count"@),
        Seq::<char>::empty(),
        indent(1) + "long long total = 0;"@,
        indent(1) + "for (int at = 0; at < count; at++) {"@,
        indent(2) + "total += mixed(probes[at] + bump);"@,
        indent(1) + "}"@,
        Seq::<char>::empty(),
        print_line(1, Ty::I64, "total"@),
    ]
}

/// Whether a case is the mixed shape, whole.
pub open spec fn is_mixed_case(c: Case) -> bool {
    &&& c.axes_text() == seq![("shape"@, "runs-and-singles"@), ("variant"@, "mixed"@)]
    &&& c.tags_text() == Seq::<Seq<char>>::empty()
    &&& c.program.purpose_text() == "runs and scattered single labels in one switch"@
    &&& c.program.include_lines() == Seq::<Seq<char>>::empty()
    &&& c.program.top_lines() == mixed_top()
    &&& c.program.body_lines() == mixed_body()
    &&& c.program.expected_values() == seq![mixed_sum(mixed_probes())]
    &&& !c.program.sinks()
}

/// The runs of the mixed shape, as the program holds them.
fn mixed_run_table() -> (r: [(i128, i128, i128); 3])
    ensures
        r@.map_values(|t: (i128, i128, i128)| (t.0 as int, t.1 as int, t.2 as int))
            == mixed_runs(),
{
    let r = [(10, 15, 1), (40, 45, 2), (300, 311, 3)];
    assert(r@.map_values(|t: (i128, i128, i128)| (t.0 as int, t.1 as int, t.2 as int))
        =~= mixed_runs());
    r
}

/// The single labels of the mixed shape, as the program holds them.
fn mixed_single_table() -> (r: [(i128, i128); 5])
    ensures
        r@.map_values(|t: (i128, i128)| (t.0 as int, t.1 as int)) == mixed_singles(),
{
    let r = [(100, 4), (250, 5), (600, 6), (1500, 7), (4000, 8)];
    assert(r@.map_values(|t: (i128, i128)| (t.0 as int, t.1 as int)) =~= mixed_singles());
    r
}

/// What the mixed switch returns for a value.
pub fn mixed_arm(value: i128) -> (r: i128)
    ensures
        r == mixed_answer(value as int),
{
    let runs = mixed_run_table();
    let ghost rs = mixed_runs();
    let mut i: usize = 0;
    assert(rs.subrange(0, 3) =~= rs);
    while i < 3
        invariant
            i <= 3,
            rs == mixed_runs(),
            runs@.map_values(|t: (i128, i128, i128)| (t.0 as int, t.1 as int, t.2 as int)) == rs,
            in_runs(rs, value as int) == in_runs(rs.subrange(i as int, 3), value as int),
        decreases 3 - i,
    {
        let (low, high, arm) = runs[i];
        assert(rs.subrange(i as int, 3)[0] == (low as int, high as int, arm as int));
        assert(rs.subrange(i as int, 3).drop_first() =~= rs.subrange(i + 1, 3));
        if low <= value && value <= high {
            return arm;
        }
        i += 1;
    }
    assert(rs.subrange(3, 3) =~= Seq::<(int, int, int)>::empty());
    let singles = mixed_single_table();
    let ghost ss = mixed_singles();
    let mut j: usize = 0;
    assert(ss.subrange(0, 5) =~= ss);
    while j < 5
        invariant
            j <= 5,
            ss == mixed_singles(),
            in_runs(mixed_runs(), value as int) is None,
            singles@.map_values(|t: (i128, i128)| (t.0 as int, t.1 as int)) == ss,
            in_singles(ss, value as int) == in_singles(ss.subrange(j as int, 5), value as int),
        decreases 5 - j,
    {
        let (single, arm) = singles[j];
        assert(ss.subrange(j as int, 5)[0] == (single as int, arm as int));
        assert(ss.subrange(j as int, 5).drop_first() =~= ss.subrange(j + 1, 5));
        if value == single {
            return arm;
        }
        j += 1;
    }
    assert(ss.subrange(5, 5) =~= Seq::<(int, int)>::empty());
    0
}

/// Runs and scattered single labels in one statement.
///
/// Part of the switch is dense enough to be a range test and part of it is so spread out that
/// nothing but a comparison will do, so a compiler that picks one lowering for the whole
/// statement gets one half of it wrong. The walk asks about both ends of every run, the label
/// just outside each, and every single label and its neighbours, through an opaque bump so the
/// calls are not a list of constants.
pub fn runs_and_singles() -> (r: Case)
    ensures
        is_mixed_case(r),
{
    let mut program = Program::new("runs and scattered single labels in one switch");
    program.top("static int mixed(int value) {");
    program.top("    switch (value) {");
    let runs = mixed_run_table();
    let singles = mixed_single_table();
    let ghost rs = mixed_runs();
    let ghost ss = mixed_singles();
    let ghost head = program.top_lines();
    let mut probes: Vec<i128> = Vec::new();
    let mut i: usize = 0;
    assert(rs.take(0) =~= Seq::<(int, int, int)>::empty());
    while i < 3
        invariant
            i <= 3,
            rs == mixed_runs(),
            runs@.map_values(|t: (i128, i128, i128)| (t.0 as int, t.1 as int, t.2 as int)) == rs,
            program.top_lines() =~~= head + run_block_lines(rs.take(i as int)),
            probes@.map_values(|v: i128| v as int) == run_probes(rs.take(i as int)),
            probes@.len() == 6 * i,
            program.body_lines() == Seq::<Seq<char>>::empty(),
            program.expected_values() == Seq::<int>::empty(),
            program.purpose_text() == "runs and scattered single labels in one switch"@,
            program.include_lines() == Seq::<Seq<char>>::empty(),
            !program.sinks(),
        decreases 3 - i,
    {
        let (low, high, arm) = runs[i];
        assert(rs[i as int] == (low as int, high as int, arm as int));
        assert(rs.take(i + 1).drop_last() =~= rs.take(i as int));
        assert(rs.take(i + 1).last() == rs[i as int]);
        push_labels(&mut program, low, high - low + 1);
        push_return(&mut program, arm);
        let ghost before = probes@;
        probes.push(low - 1);
        probes.push(low);
        probes.push(low + 1);
        probes.push(high - 1);
        probes.push(high);
        probes.push(high + 1);
        assert(probes@.map_values(|v: i128| v as int) =~= before.map_values(|v: i128| v as int)
            + seq![low - 1, low as int, low + 1, high - 1, high as int, high + 1]);
        i += 1;
    }
    assert(rs.take(3) =~= rs);
    let ghost middle = program.top_lines();
    let ghost run_part = probes@.map_values(|v: i128| v as int);
    let mut j: usize = 0;
    assert(ss.take(0) =~= Seq::<(int, int)>::empty());
    while j < 5
        invariant
            j <= 5,
            ss == mixed_singles(),
            singles@.map_values(|t: (i128, i128)| (t.0 as int, t.1 as int)) == ss,
            run_part == run_probes(mixed_runs()),
            program.top_lines() =~~= middle + single_lines(ss.take(j as int)),
            probes@.map_values(|v: i128| v as int) == run_part + single_probes(ss.take(j as int)),
            probes@.len() == 18 + 3 * j,
            program.body_lines() == Seq::<Seq<char>>::empty(),
            program.expected_values() == Seq::<int>::empty(),
            program.purpose_text() == "runs and scattered single labels in one switch"@,
            program.include_lines() == Seq::<Seq<char>>::empty(),
            !program.sinks(),
        decreases 5 - j,
    {
        let (value, arm) = singles[j];
        assert(ss[j as int] == (value as int, arm as int));
        assert(ss.take(j + 1).drop_last() =~= ss.take(j as int));
        assert(ss.take(j + 1).last() == ss[j as int]);
        let mut line = String::from_str("    case ");
        push_decimal(&mut line, value);
        line.append(": return ");
        push_decimal(&mut line, arm);
        line.append(";");
        program.top(line.as_str());
        let ghost before = probes@;
        probes.push(value - 1);
        probes.push(value);
        probes.push(value + 1);
        assert(probes@.map_values(|v: i128| v as int) =~= before.map_values(|v: i128| v as int)
            + seq![value - 1, value as int, value + 1]);
        j += 1;
    }
    assert(ss.take(5) =~= ss);
    close(&mut program);
    let ghost all = mixed_probes();
    assert(probes@.map_values(|v: i128| v as int) =~= all);
    let n = probes.len();
    let mut total: i128 = 0;
    let mut written = String::new();
    let mut k: usize = 0;
    assert(all.take(0) =~= Seq::<int>::empty());
    while k < n
        invariant
            k <= n,
            n == probes@.len(),
            n == 33,
            all == mixed_probes(),
            probes@.map_values(|v: i128| v as int) == all,
            total == mixed_sum(all.take(k as int)),
            -9 * k <= total <= 8 * k,
            written@ == listed(all.take(k as int)),
        decreases n - k,
    {
        let value = probes[k];
        assert(all[k as int] == value as int);
        assert(all.take(k + 1).drop_last() =~= all.take(k as int));
        let arm = mixed_arm(value);
        assert(0 <= arm <= 8) by {
            assert(mixed_runs()[0].2 == 1 && mixed_runs()[1].2 == 2 && mixed_runs()[2].2 == 3);
            reveal_with_fuel(in_runs, 4);
            reveal_with_fuel(in_singles, 6);
        }
        total = total + arm;
        if k > 0 {
            written.append(", ");
        }
        push_decimal(&mut written, value);
        k += 1;
    }
    assert(all.take(33) =~= all);
    let mut line = String::from_str("static const int probes[] = { ");
    line.append(written.as_str());
    line.append(" };");
    program.top(line.as_str());
    program.input(Ty::I32, "bump", 0);
    program.input(Ty::I32, "count", n as i128);
    program.blank();
    program.line("long long total = 0;");
    program.line("for (int at = 0; at < count; at++) {");
    program.line_at(1, "total += mixed(probes[at] + bump);");
    program.line("}");
    program.blank();
    program.check(Ty::I64, "total", total);
    assert(program.top_lines() =~~= mixed_top());
    assert(program.body_lines() =~~= mixed_body());
    assert(program.expected_values() =~= seq![mixed_sum(mixed_probes())]);
    run_case(program, "runs-and-singles", "mixed")
}

/// The lowest label of the run at an edge of a type: the last three values, or the first.
pub open spec fn edge_low(ty: Ty, top: bool) -> int {
    if top {
        ty.highest() - 2
    } else {
        ty.lowest()
    }
}

/// Where the walk at an edge starts: six values from the end, or the first value.
pub open spec fn edge_first(ty: Ty, top: bool) -> int {
    if top {
        ty.highest() - 5
    } else {
        ty.lowest()
    }
}

/// Which edge, as the axis spells it.
pub open spec fn edge_name(top: bool) -> Seq<char> {
    if top {
        "top"@
    } else {
        "bottom"@
    }
}

/// The lines before `main` of a run at an edge.
pub open spec fn edge_top(ty: Ty, top: bool) -> Seq<Seq<char>> {
    seq!["static int at_edge("@ + ty.c_text() + " value) {"@, "    switch (value) {"@] + Seq::new(
        3,
        |k: int| "    case "@ + ty.literal_text(edge_low(ty, top) + k) + ":"@,
    ) + seq!["        return 1;"@] + close_lines() + seq![
        input_global(ty, "first"@, edge_first(ty, top)),
        input_global(Ty::I32, "count"@, 6),
    ]
}

/// The `main` of a run at an edge.
pub open spec fn edge_body(ty: Ty) -> Seq<Seq<char>> {
    seq![
        input_read(ty, "first"@),
        input_read(Ty::I32, "count"@),
        Seq::<char>::empty(),
        indent(1) + "long long total = 0;"@,
        indent(1) + "for (int step = 0; step < count; step++) {"@,
        indent(2) + "total += at_edge(first + ("@ + ty.c_text() + ")step);"@,
        indent(1) + "}"@,
        Seq::<char>::empty(),
        print_line(1, Ty::I64, "total"@),
    ]
}

/// Whether a case is the run at an edge of a type, whole.
pub open spec fn is_edge_case(c: Case, ty: Ty, top: bool) -> bool {
    &&& c.axes_text() == seq![
        ("shape"@, "edge-run"@),
        ("variant"@, ty.name_text() + "-"@ + edge_name(top)),
    ]
    &&& c.tags_text() == Seq::<Seq<char>>::empty()
    &&& c.program.purpose_text() == "a run of 3 labels reaching the "@ + edge_name(top) + " of "@
        + ty.c_text()
    &&& c.program.include_lines() == Seq::<Seq<char>>::empty()
    &&& c.program.top_lines() == edge_top(ty, top)
    &&& c.program.body_lines() == edge_body(ty)
    &&& c.program.expected_values() == seq![3int]
    &&& !c.program.sinks()
}

/// A run that reaches the last value of its type.
///
/// A range test subtracts the low label and compares against the length of the run, and the
/// length is one past the high label minus the low one. When the run reaches the end of the
/// type that addition overflows, and a compiler that computes it in the type of the switch
/// rather than in something wider produces a test that is off by the whole range.
fn edge_case(ty: Ty, top: bool) -> (r: Case)
    requires
        ty == Ty::I32 || ty == Ty::U32,
    ensures
        is_edge_case(r, ty, top),
{
    let edge = if top { "top" } else { "bottom" };
    let low = if top { ty.max() - 3 + 1 } else { ty.min() };
    let first = if top { ty.max() - 6 + 1 } else { ty.min() };
    let mut purpose = String::from_str("a run of 3 labels reaching the ");
    purpose.append(edge);
    purpose.append(" of ");
    purpose.append(ty.c_name());
    let mut program = Program::new(purpose.as_str());
    let mut open = String::from_str("static int at_edge(");
    open.append(ty.c_name());
    open.append(" value) {");
    program.top(open.as_str());
    program.top("    switch (value) {");
    let ghost head = program.top_lines();
    let ghost labels = Seq::new(
        3,
        |k: int| "    case "@ + ty.literal_text(edge_low(ty, top) + k) + ":"@,
    );
    let mut k: i128 = 0;
    while k < 3
        invariant
            0 <= k <= 3,
            ty == Ty::I32 || ty == Ty::U32,
            low == edge_low(ty, top),
            labels == Seq::new(
                3,
                |k: int| "    case "@ + ty.literal_text(edge_low(ty, top) + k) + ":"@,
            ),
            program.top_lines() =~~= head + labels.take(k as int),
            program.body_lines() == Seq::<Seq<char>>::empty(),
            program.expected_values() == Seq::<int>::empty(),
            program.purpose_text() == purpose@,
            program.include_lines() == Seq::<Seq<char>>::empty(),
            !program.sinks(),
        decreases 3 - k,
    {
        let mut line = String::from_str("    case ");
        let literal = ty.literal(low + k);
        line.append(literal.as_str());
        line.append(":");
        program.top(line.as_str());
        assert(labels.take(k + 1) =~= labels.take(k as int).push(line@));
        k += 1;
    }
    program.top("        return 1;");
    close(&mut program);
    program.input(ty, "first", first);
    program.input(Ty::I32, "count", 6);
    program.blank();
    program.line("long long total = 0;");
    program.line("for (int step = 0; step < count; step++) {");
    let mut call = String::from_str("total += at_edge(first + (");
    call.append(ty.c_name());
    call.append(")step);");
    program.line_at(1, call.as_str());
    program.line("}");
    program.blank();
    program.check(Ty::I64, "total", 3);
    assert(labels.take(3) =~= labels);
    assert(program.top_lines() =~~= edge_top(ty, top));
    assert(program.body_lines() =~~= edge_body(ty));
    assert(program.expected_values() =~= seq![3int]);
    let mut variant = String::from_str(ty.name());
    variant.append("-");
    variant.append(edge);
    run_case(program, "edge-run", variant.as_str())
}

/// What the classifier returns for a character: one arm for lower case letters, one for upper
/// case, one for digits, one for the three spaces, and the default for the rest.
pub open spec fn kind_of(c: char) -> int {
    if 'a' as int <= c as int <= 'z' as int {
        1
    } else if 'A' as int <= c as int <= 'Z' as int {
        2
    } else if '0' as int <= c as int <= '9' as int {
        3
    } else if c == ' ' || c == '\t' || c == '\n' {
        4
    } else {
        0
    }
}

/// The text the classifier walks over.
pub open spec fn classifier_text() -> Seq<char> {
    "The quick brown fox jumps over 13 lazy dogs.\tTwice, at 07:45.\n"@
}

/// What the classifier adds up over some text.
pub open spec fn kind_sum(text: Seq<char>) -> int
    decreases text.len(),
{
    if text.len() == 0 {
        0
    } else {
        kind_sum(text.drop_last()) + kind_of(text.last())
    }
}

/// The text as a C string literal spells it: tab and newline escaped.
pub open spec fn escaped(text: Seq<char>) -> Seq<char>
    decreases text.len(),
{
    if text.len() == 0 {
        Seq::empty()
    } else {
        escaped(text.drop_last()) + if text.last() == '\t' {
            "\\t"@
        } else if text.last() == '\n' {
            "\\n"@
        } else {
            seq![text.last()]
        }
    }
}

/// The labels for a range of characters.
pub open spec fn char_labels(low: char, count: nat) -> Seq<Seq<char>> {
    Seq::new(count, |k: int| "    case '"@ + seq![(low as int + k) as char] + "':"@)
}

/// The lines before `main` of a classifier over a parameter type.
pub open spec fn classifier_top(name: Seq<char>) -> Seq<Seq<char>> {
    seq!["static int kind("@ + name + " c) {"@, "    switch (c) {"@] + char_labels('a', 26) + seq![
        return_line(1),
    ] + char_labels('A', 26) + seq![return_line(2)] + char_labels('0', 10) + seq![
        return_line(3),
        "    case ' ':"@,
        "    case '\\t':"@,
        "    case '\\n':"@,
        "        return 4;"@,
    ] + close_lines() + seq![
        "static volatile "@ + name + " text[] = \""@ + escaped(classifier_text()) + "\";"@,
        input_global(Ty::I32, "count"@, classifier_text().len() as int),
    ]
}

/// The `main` of a classifier.
pub open spec fn classifier_body() -> Seq<Seq<char>> {
    seq![
        input_read(Ty::I32, "count"@),
        Seq::<char>::empty(),
        indent(1) + "long long total = 0;"@,
        indent(1) + "for (int at = 0; at < count; at++) {"@,
        indent(2) + "total += kind(text[at]);"@,
        indent(1) + "}"@,
        Seq::<char>::empty(),
        print_line(1, Ty::I64, "total"@),
    ]
}

/// Whether a case is the classifier over a parameter type, whole.
pub open spec fn is_classifier_case(c: Case, name: Seq<char>, variant: Seq<char>) -> bool {
    &&& c.axes_text() == seq![("shape"@, "classifier"@), ("variant"@, variant)]
    &&& c.tags_text() == Seq::<Seq<char>>::empty()
    &&& c.program.purpose_text() == "a character classifier written over "@ + name
    &&& c.program.include_lines() == Seq::<Seq<char>>::empty()
    &&& c.program.top_lines() == classifier_top(name)
    &&& c.program.body_lines() == classifier_body()
    &&& c.program.expected_values() == seq![kind_sum(classifier_text())]
    &&& !c.program.sinks()
}

/// Writes a label for each character from `low` to `high`.
fn push_char_labels(program: &mut Program, low: u8, high: u8)
    requires
        low <= high < 128,
    ensures
        final(program).top_lines() == old(program).top_lines() + char_labels(
            low as char,
            (high - low + 1) as nat,
        ),
        final(program).body_lines() == old(program).body_lines(),
        final(program).expected_values() == old(program).expected_values(),
        final(program).purpose_text() == old(program).purpose_text(),
        final(program).include_lines() == old(program).include_lines(),
        final(program).sinks() == old(program).sinks(),
{
    let ghost top0 = program.top_lines();
    let ghost all = char_labels(low as char, (high - low + 1) as nat);
    let mut letter: u8 = low;
    assert(all.take(0) =~= Seq::<Seq<char>>::empty());
    while letter <= high
        invariant
            low <= letter <= high + 1,
            high < 128,
            all == char_labels(low as char, (high - low + 1) as nat),
            program.top_lines() =~= top0 + all.take(letter - low),
            program.body_lines() == old(program).body_lines(),
            program.expected_values() == old(program).expected_values(),
            program.purpose_text() == old(program).purpose_text(),
            program.include_lines() == old(program).include_lines(),
            program.sinks() == old(program).sinks(),
        decreases high + 1 - letter,
    {
        let mut line = String::from_str("    case '");
        crate::text::push_char(&mut line, letter as char);
        line.append("':");
        let ghost k = letter - low;
        assert((low as char) as int + k == letter as int);
        assert(line@ =~= "    case '"@ + seq![((low as char) as int + k) as char] + "':"@);
        program.top(line.as_str());
        assert(all.take(k + 1) =~= all.take(k).push(line@));
        letter += 1;
    }
    assert(all.take(high - low + 1) =~= all);
}

/// A character classifier, written the way people write them.
///
/// Twenty six letters to one arm, twenty six more to another, ten digits to a third and three
/// spaces to a fourth: sixty five labels and four answers, the front of every lexer. The text
/// is all ASCII, so whether a plain `char` is signed does not change the answer, which is what
/// makes it fair to run the same expected output against both spellings of the parameter.
fn classifier_case(name: &str, variant: &str) -> (r: Case)
    ensures
        is_classifier_case(r, name@, variant@),
{
    let mut purpose = String::from_str("a character classifier written over ");
    purpose.append(name);
    let mut program = Program::new(purpose.as_str());
    let mut open = String::from_str("static int kind(");
    open.append(name);
    open.append(" c) {");
    program.top(open.as_str());
    program.top("    switch (c) {");
    push_char_labels(&mut program, 97, 122);
    push_return(&mut program, 1);
    push_char_labels(&mut program, 65, 90);
    push_return(&mut program, 2);
    push_char_labels(&mut program, 48, 57);
    push_return(&mut program, 3);
    program.top("    case ' ':");
    program.top("    case '\\t':");
    program.top("    case '\\n':");
    program.top("        return 4;");
    close(&mut program);
    let text = "The quick brown fox jumps over 13 lazy dogs.\tTwice, at 07:45.\n";
    proof {
        reveal_strlit("The quick brown fox jumps over 13 lazy dogs.\tTwice, at 07:45.\n");
    }
    let ghost chars = classifier_text();
    let n: usize = 62;
    let mut total: i128 = 0;
    let mut written = String::new();
    let mut at: usize = 0;
    assert(chars.take(0) =~= Seq::<char>::empty());
    while at < n
        invariant
            at <= n,
            n == chars.len(),
            chars == classifier_text(),
            text@ == chars,
            n == 62,
            total == kind_sum(chars.take(at as int)),
            0 <= total <= 4 * at,
            written@ == escaped(chars.take(at as int)),
        decreases n - at,
    {
        let c = text.get_char(at);
        assert(chars.take(at + 1).drop_last() =~= chars.take(at as int));
        assert(chars.take(at + 1).last() == c);
        let code = c as u32;
        let kind: i128 = if 97 <= code && code <= 122 {
            1
        } else if 65 <= code && code <= 90 {
            2
        } else if 48 <= code && code <= 57 {
            3
        } else if code == 32 || code == 9 || code == 10 {
            4
        } else {
            0
        };
        assert(kind == kind_of(c));
        total = total + kind;
        if code == 9 {
            written.append("\\t");
        } else if code == 10 {
            written.append("\\n");
        } else {
            crate::text::push_char(&mut written, c);
        }
        assert(written@ =~= escaped(chars.take(at + 1)));
        at += 1;
    }
    assert(chars.take(62) =~= chars);
    let mut line = String::from_str("static volatile ");
    line.append(name);
    line.append(" text[] = \"");
    line.append(written.as_str());
    line.append("\";");
    program.top(line.as_str());
    program.input(Ty::I32, "count", n as i128);
    program.blank();
    program.line("long long total = 0;");
    program.line("for (int at = 0; at < count; at++) {");
    program.line_at(1, "total += kind(text[at]);");
    program.line("}");
    program.blank();
    program.check(Ty::I64, "total", total);
    assert(program.top_lines() =~~= classifier_top(name@));
    assert(program.body_lines() =~~= classifier_body());
    assert(program.expected_values() =~= seq![kind_sum(classifier_text())]);
    run_case(program, "classifier", variant)
}

/// Whether a case is the one run shape of a length.
pub open spec fn is_one_run_case(c: Case, length: int) -> bool {
    is_run_case(
        c,
        "one-run"@,
        decimal(length),
        "one run of "@ + decimal(length) + " labels sharing an arm"@,
        one_run_lines(length),
        "in_run"@,
        RUN_BASE - RUN_PAD,
        length + 2 * RUN_PAD,
        length,
    )
}

/// Whether a case is the several runs shape of a count.
pub open spec fn is_several_runs_case(c: Case, arms: int) -> bool {
    is_run_case(
        c,
        "several-runs"@,
        decimal(arms),
        decimal(arms) + " runs of 8 labels, each to its own arm"@,
        several_runs_lines(arms),
        "which_run"@,
        RUN_BASE - RUN_PAD,
        arms * RUN_LENGTH + 2 * RUN_PAD,
        RUN_LENGTH * triangle(arms as nat),
    )
}

/// Whether a case is the look-alike shape.
pub open spec fn is_look_alike_case(c: Case) -> bool {
    is_run_case(
        c,
        "look-alike-arms"@,
        "five"@,
        "consecutive labels whose arms look alike and are not"@,
        look_alike_lines(),
        "pick"@,
        RUN_BASE - RUN_PAD,
        5 + 2 * RUN_PAD,
        look_alike_total(5),
    )
}

/// A single run of labels sharing one arm, at three lengths.
pub fn one_run() -> (r: Vec<Case>)
    ensures
        r@.len() == 3,
        is_one_run_case(r@[0], 4),
        is_one_run_case(r@[1], 26),
        is_one_run_case(r@[2], 100),
{
    let mut out: Vec<Case> = Vec::new();
    out.push(one_run_case(4));
    out.push(one_run_case(26));
    out.push(one_run_case(100));
    out
}

/// Several runs, each sharing its own arm, either side of the point where clusters are searched.
pub fn several_runs() -> (r: Vec<Case>)
    ensures
        r@.len() == 4,
        is_several_runs_case(r@[0], 2),
        is_several_runs_case(r@[1], 4),
        is_several_runs_case(r@[2], 31),
        is_several_runs_case(r@[3], 33),
{
    let mut out: Vec<Case> = Vec::new();
    out.push(several_runs_case(2));
    out.push(several_runs_case(4));
    out.push(several_runs_case(31));
    out.push(several_runs_case(33));
    out
}

/// A run that ends at the least or the greatest value of its type, signed and unsigned.
pub fn runs_at_the_edge() -> (r: Vec<Case>)
    ensures
        r@.len() == 4,
        is_edge_case(r@[0], Ty::I32, false),
        is_edge_case(r@[1], Ty::I32, true),
        is_edge_case(r@[2], Ty::U32, false),
        is_edge_case(r@[3], Ty::U32, true),
{
    let mut out: Vec<Case> = Vec::new();
    out.push(edge_case(Ty::I32, false));
    out.push(edge_case(Ty::I32, true));
    out.push(edge_case(Ty::U32, false));
    out.push(edge_case(Ty::U32, true));
    out
}

/// The character classifier, on plain and on unsigned characters.
pub fn classifiers() -> (r: Vec<Case>)
    ensures
        r@.len() == 2,
        is_classifier_case(r@[0], "char"@, "char"@),
        is_classifier_case(r@[1], "unsigned char"@, "unsigned-char"@),
{
    let mut out: Vec<Case> = Vec::new();
    out.push(classifier_case("char", "char"));
    out.push(classifier_case("unsigned char", "unsigned-char"));
    out
}

/// Arms that look alike and differ in one constant.
pub fn look_alike_arms() -> (r: Vec<Case>)
    ensures
        r@.len() == 1,
        is_look_alike_case(r@[0]),
{
    let mut out: Vec<Case> = Vec::new();
    out.push(look_alike_case());
    out
}

/// Stretches of consecutive labels that all go to one arm.
///
/// A stretch that shares an arm is one subtraction and one unsigned comparison however long it
/// is, and a compiler that walks the labels one at a time instead emits a test per label for
/// nothing. The value under test always comes out of a `volatile`, and so does the number of
/// times the walk runs, so neither the switch nor the walk is folded away before the back end
/// sees it. One run at three lengths, adjacent runs either side of the cluster limit, runs
/// mixed with single labels, runs at both edges of both `int` types, a character classifier
/// over both spellings of its parameter, and the negative control whose arms only look alike.
pub fn switch_runs() -> (r: Vec<Case>)
    ensures
        r@.len() == 15,
        is_one_run_case(r@[0], 4),
        is_one_run_case(r@[1], 26),
        is_one_run_case(r@[2], 100),
        is_several_runs_case(r@[3], 2),
        is_several_runs_case(r@[4], 4),
        is_several_runs_case(r@[5], 31),
        is_several_runs_case(r@[6], 33),
        is_mixed_case(r@[7]),
        is_edge_case(r@[8], Ty::I32, false),
        is_edge_case(r@[9], Ty::I32, true),
        is_edge_case(r@[10], Ty::U32, false),
        is_edge_case(r@[11], Ty::U32, true),
        is_classifier_case(r@[12], "char"@, "char"@),
        is_classifier_case(r@[13], "unsigned char"@, "unsigned-char"@),
        is_look_alike_case(r@[14]),
{
    let mut out = one_run();
    let mut more = several_runs();
    out.append(&mut more);
    out.push(runs_and_singles());
    let mut edges = runs_at_the_edge();
    out.append(&mut edges);
    let mut classes = classifiers();
    out.append(&mut classes);
    let mut alike = look_alike_arms();
    out.append(&mut alike);
    out
}

} // verus!
