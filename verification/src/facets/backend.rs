//! Everything below the machine independent IR: branch layout, conditional moves and the
//! switches whose value the program says is usually one thing.
//!
//! Almost any compiler gets these answers right. What separates them is the shape of the code,
//! which shows in the size and the time rather than in the output, and every case here is
//! still self checking, because a backend that gets the right shape and the wrong answer is the
//! worst outcome of all.

use vstd::prelude::*;
use vstd::string::*;
use vstd::wrapping::{u32_specs, u64_specs, i64_specs};
use crate::emit::{Program, input_global, input_read, indent, print_line};
use crate::lang::{Ty, wide_types};
use crate::facets::{Case, axis, gnu_when, tags_for};

use crate::facets::conversion::{ChainShape, if_conversion_chain, if_conversion_rate, is_chain_case, is_rate_case, rate_points};
use crate::facets::dispatch::{AddressedShape, dispatch_points, is_addressed_case, is_dispatch_case, is_interpreter_case, switch_dispatch};
use crate::facets::division::{division, division_point, exact_division, is_division_case, is_exact_case};
use crate::facets::folds::{address_fold, address_shapes_list, compare_fold, compare_point, frame_address, is_address_case, is_compare_case, is_frame_case, is_load_case, load_fold, load_shapes_list};
use crate::facets::lowering::{is_lowering_case, lowering_counts, spacings, switch_lowering};
use crate::facets::machine::{SpillShape, access_shapes_list, bag_kinds, block_layout, calling_convention, chain_counts, if_conversion, int_call_counts, is_access_case, is_bag_case, is_chains_case, is_cold_case, is_int_call_case, is_pressure_case, is_select_case, is_spill_case, is_varargs_case, layout_shapes_list, pressure_counts, pressure_shapes_list, register_alloc, register_pressure, scheduling, scheduling_memory, select_shapes_list, spill_counts};
use crate::facets::memory::{constant_store_point, is_constant_store_case, is_slot_case, is_store_case, slot_shapes_list, stack_slots, store_fold, store_fold_constant, store_shapes_list};
use crate::facets::peephole::{bit_liveness, compare_elim, flag_point, is_flag_case, is_pattern_case, is_peephole_case, is_widen_case, machine_peephole, narrow_types, patterns_list, peephole_point, selection, widen_shapes_list};
use crate::facets::switches::{hot_points, is_classifier_case, is_edge_case, is_hot_case, is_look_alike_case, is_mixed_case, is_one_run_case, is_several_runs_case, switch_hot_case, switch_runs};
use crate::facets::Batch;
verus! {

/// How a branch condition is written: plain, or with one of the two spellings of a hint.
#[derive(Clone, Copy, Debug, PartialEq, Eq, Structural)]
pub enum Hint {
    /// The condition on its own.
    Plain,
    /// `__builtin_expect`, which says which way and nothing more.
    Builtin,
    /// `__builtin_expect_with_probability`, which says how strongly.
    Probability,
}

impl Hint {
    /// The axis value.
    pub open spec fn name_text(self) -> Seq<char> {
        match self {
            Hint::Plain => "none"@,
            Hint::Builtin => "builtin"@,
            Hint::Probability => "probability"@,
        }
    }

    /// The axis value.
    pub fn name(self) -> (r: &'static str)
        ensures
            r@ == self.name_text(),
    {
        match self {
            Hint::Plain => "none",
            Hint::Builtin => "builtin",
            Hint::Probability => "probability",
        }
    }
}

/// A condition with a hint wrapped around it, or the condition on its own.
pub open spec fn hinted_text(hint: Hint, condition: Seq<char>, likely: bool) -> Seq<char> {
    match hint {
        Hint::Builtin => "__builtin_expect("@ + condition + ", "@ + (if likely {
            "1"@
        } else {
            "0"@
        }) + ")"@,
        Hint::Probability => "__builtin_expect_with_probability("@ + condition + ", 1, "@ + (
        if likely {
            "0.99"@
        } else {
            "0.01"@
        }) + ")"@,
        Hint::Plain => condition,
    }
}

/// A condition with a hint wrapped around it, or the condition on its own.
pub fn hinted(hint: Hint, condition: &str, likely: bool) -> (r: String)
    ensures
        r@ == hinted_text(hint, condition@, likely),
{
    match hint {
        Hint::Builtin => {
            let mut out = String::from_str("__builtin_expect(");
            out.append(condition);
            out.append(", ");
            out.append(if likely { "1" } else { "0" });
            out.append(")");
            out
        },
        Hint::Probability => {
            let mut out = String::from_str("__builtin_expect_with_probability(");
            out.append(condition);
            out.append(", 1, ");
            out.append(if likely { "0.99" } else { "0.01" });
            out.append(")");
            out
        },
        Hint::Plain => String::from_str(condition),
    }
}

/// The branch shapes a hint is worth putting on.
#[derive(Clone, Copy, Debug, PartialEq, Eq, Structural)]
pub enum HintedShape {
    /// A call on the rare arm.
    RareCall,
    /// The common arm is the `then`.
    HotThen,
    /// A condition widened by a double negation.
    WidenedCondition,
    /// Three rare tests in a row, the common arm at the bottom.
    RareChain,
}

impl HintedShape {
    /// The axis value.
    pub open spec fn name_text(self) -> Seq<char> {
        match self {
            HintedShape::RareCall => "rare-call"@,
            HintedShape::HotThen => "hot-then"@,
            HintedShape::WidenedCondition => "widened-condition"@,
            HintedShape::RareChain => "rare-chain"@,
        }
    }

    /// The condition, before a hint is wrapped around it.
    pub open spec fn condition_text(self) -> Seq<char> {
        match self {
            HintedShape::RareCall => "rare != 0"@,
            HintedShape::HotThen => "rare == 0"@,
            HintedShape::WidenedCondition => "!!(rare == 1)"@,
            HintedShape::RareChain => "rare == 1"@,
        }
    }

    /// Whether the condition is the one that nearly always holds.
    pub open spec fn is_likely(self) -> bool {
        self == HintedShape::HotThen
    }

    /// The axis value.
    pub fn name(self) -> (r: &'static str)
        ensures
            r@ == self.name_text(),
    {
        match self {
            HintedShape::RareCall => "rare-call",
            HintedShape::HotThen => "hot-then",
            HintedShape::WidenedCondition => "widened-condition",
            HintedShape::RareChain => "rare-chain",
        }
    }

    /// The condition, before a hint is wrapped around it.
    pub fn condition(self) -> (r: &'static str)
        ensures
            r@ == self.condition_text(),
    {
        match self {
            HintedShape::RareCall => "rare != 0",
            HintedShape::HotThen => "rare == 0",
            HintedShape::WidenedCondition => "!!(rare == 1)",
            HintedShape::RareChain => "rare == 1",
        }
    }

    /// Whether the condition is the one that nearly always holds.
    pub fn likely(self) -> (r: bool)
        ensures
            r == self.is_likely(),
    {
        self == HintedShape::HotThen
    }
}

/// The three tests of the rare chain, in the order they are written.
pub open spec fn chain_condition(at: int) -> Seq<char> {
    if at == 0 {
        "rare == 1"@
    } else if at == 1 {
        "rare == 2"@
    } else {
        "rare == 3"@
    }
}

/// The statements inside the hot loop of a hinted shape.
pub open spec fn layout_loop_lines(shape: HintedShape, hint: Hint) -> Seq<Seq<char>> {
    let test = hinted_text(hint, shape.condition_text(), shape.is_likely());
    match shape {
        HintedShape::HotThen => seq![
            indent(2) + "if ("@ + test + ") {"@,
            indent(3) + "total += 1;"@,
            indent(2) + "} else {"@,
            indent(3) + "cold();"@,
            indent(2) + "}"@,
        ],
        HintedShape::RareChain => seq![
            indent(2) + "if"@ + " ("@ + hinted_text(hint, chain_condition(0), false) + ") {"@,
            indent(3) + "cold();"@,
            indent(2) + "} else if"@ + " ("@ + hinted_text(hint, chain_condition(1), false)
                + ") {"@,
            indent(3) + "cold();"@,
            indent(2) + "} else if"@ + " ("@ + hinted_text(hint, chain_condition(2), false)
                + ") {"@,
            indent(3) + "cold();"@,
            indent(2) + "} else {"@,
            indent(3) + "total += 1;"@,
            indent(2) + "}"@,
        ],
        _ => seq![
            indent(2) + "if ("@ + test + ") {"@,
            indent(3) + "cold();"@,
            indent(2) + "}"@,
            indent(2) + "total += 1;"@,
        ],
    }
}

/// The declarations of a hinted case: the cold function, reached through a volatile pointer so
/// no compiler can inline it away, and the opaque input.
pub open spec fn layout_top() -> Seq<Seq<char>> {
    seq![
        "static volatile int oops_count;"@,
        "static void oops(void) {"@,
        "    oops_count = oops_count + 1;"@,
        "}"@,
        "static void (*volatile cold)(void) = oops;"@,
        input_global(Ty::I32, "rare"@, 0),
    ]
}

/// The `main` of a hinted case.
pub open spec fn layout_body(shape: HintedShape, hint: Hint) -> Seq<Seq<char>> {
    seq![
        input_read(Ty::I32, "rare"@),
        Seq::<char>::empty(),
        indent(1) + "long long total = 0;"@,
        indent(1) + "for (int i = 0; i < 1000; i++) {"@,
    ] + layout_loop_lines(shape, hint) + seq![
        indent(1) + "}"@,
        Seq::<char>::empty(),
        print_line(1, Ty::I64, "total"@),
    ]
}

/// Whether a case is the hinted layout program for a shape and a hint, whole.
pub open spec fn is_layout_case(c: Case, shape: HintedShape, hint: Hint) -> bool {
    &&& c.axes_text() == seq![("shape"@, shape.name_text()), ("hint"@, hint.name_text())]
    &&& c.tags_text() == gnu_when(hint != Hint::Plain)
    &&& c.program.purpose_text() == "a "@ + shape.name_text() + " branch in a hot loop, with the "@
        + hint.name_text() + " hint on it"@
    &&& c.program.include_lines() == Seq::<Seq<char>>::empty()
    &&& c.program.top_lines() == layout_top()
    &&& c.program.body_lines() == layout_body(shape, hint)
    &&& c.program.expected_values() == seq![1000int]
    &&& !c.program.sinks()
}

/// The hint is the only thing that tells two layout cases of one shape apart: they declare the
/// same things, print the same answer, and their `main`s have the same lines in the same places,
/// the plain one holding each condition bare.
pub proof fn lemma_hints_keep_the_answer(
    shape: HintedShape,
    first: Hint,
    second: Hint,
    a: Case,
    b: Case,
)
    requires
        is_layout_case(a, shape, first),
        is_layout_case(b, shape, second),
    ensures
        a.program.expected_values() == b.program.expected_values(),
        a.program.top_lines() == b.program.top_lines(),
        a.program.include_lines() == b.program.include_lines(),
        a.program.body_lines().len() == b.program.body_lines().len(),
        forall|condition: Seq<char>, likely: bool|
            #[trigger] hinted_text(Hint::Plain, condition, likely) == condition,
{
}

/// Writes the statements inside the hot loop of a hinted shape.
fn layout_loop(program: &mut Program, shape: HintedShape, hint: Hint)
    ensures
        final(program).body_lines() == old(program).body_lines() + layout_loop_lines(shape, hint),
        final(program).top_lines() == old(program).top_lines(),
        final(program).expected_values() == old(program).expected_values(),
        final(program).purpose_text() == old(program).purpose_text(),
        final(program).include_lines() == old(program).include_lines(),
        final(program).sinks() == old(program).sinks(),
{
    let ghost body0 = program.body_lines();
    let test = hinted(hint, shape.condition(), shape.likely());
    match shape {
        HintedShape::HotThen => {
            let mut line = String::from_str("if (");
            line.append(test.as_str());
            line.append(") {");
            program.line_at(1, line.as_str());
            program.line_at(2, "total += 1;");
            program.line_at(1, "} else {");
            program.line_at(2, "cold();");
            program.line_at(1, "}");
        },
        HintedShape::RareChain => {
            let mut at: usize = 0;
            let ghost chain = seq![
                indent(2) + "if"@ + " ("@ + hinted_text(hint, chain_condition(0), false) + ") {"@,
                indent(3) + "cold();"@,
                indent(2) + "} else if"@ + " ("@ + hinted_text(hint, chain_condition(1), false)
                    + ") {"@,
                indent(3) + "cold();"@,
                indent(2) + "} else if"@ + " ("@ + hinted_text(hint, chain_condition(2), false)
                    + ") {"@,
                indent(3) + "cold();"@,
            ];
            while at < 3
                invariant
                    at <= 3,
                    chain == seq![
                        indent(2) + "if"@ + " ("@ + hinted_text(hint, chain_condition(0), false)
                            + ") {"@,
                        indent(3) + "cold();"@,
                        indent(2) + "} else if"@ + " ("@ + hinted_text(
                            hint,
                            chain_condition(1),
                            false,
                        ) + ") {"@,
                        indent(3) + "cold();"@,
                        indent(2) + "} else if"@ + " ("@ + hinted_text(
                            hint,
                            chain_condition(2),
                            false,
                        ) + ") {"@,
                        indent(3) + "cold();"@,
                    ],
                    program.body_lines() =~~= body0 + chain.take(2 * at),
                    program.top_lines() == old(program).top_lines(),
                    program.expected_values() == old(program).expected_values(),
                    program.purpose_text() == old(program).purpose_text(),
                    program.include_lines() == old(program).include_lines(),
                    program.sinks() == old(program).sinks(),
                decreases 3 - at,
            {
                let condition = if at == 0 {
                    "rare == 1"
                } else if at == 1 {
                    "rare == 2"
                } else {
                    "rare == 3"
                };
                let test = hinted(hint, condition, false);
                let mut line = String::from_str(if at == 0 { "if" } else { "} else if" });
                line.append(" (");
                line.append(test.as_str());
                line.append(") {");
                program.line_at(1, line.as_str());
                program.line_at(2, "cold();");
                assert(program.body_lines() =~~= body0 + chain.take(2 * at + 2));
                at += 1;
            }
            program.line_at(1, "} else {");
            program.line_at(2, "total += 1;");
            program.line_at(1, "}");
        },
        _ => {
            let mut line = String::from_str("if (");
            line.append(test.as_str());
            line.append(") {");
            program.line_at(1, line.as_str());
            program.line_at(2, "cold();");
            program.line_at(1, "}");
            program.line_at(1, "total += 1;");
        },
    }
    assert(program.body_lines() =~~= body0 + layout_loop_lines(shape, hint));
}

/// A branch the program itself says which way it goes, in a hot loop.
///
/// The cold arm is a call through a `volatile` function pointer, so it stays a call in every
/// compiler and the arm stays the heavy one it was written to be. The case without a hint is
/// plain C17; the two with one are tagged `gnu`.
pub fn layout_case(shape: HintedShape, hint: Hint) -> (r: Case)
    ensures
        is_layout_case(r, shape, hint),
{
    let mut purpose = String::from_str("a ");
    purpose.append(shape.name());
    purpose.append(" branch in a hot loop, with the ");
    purpose.append(hint.name());
    purpose.append(" hint on it");
    let mut program = Program::new(purpose.as_str());
    program.top("static volatile int oops_count;");
    program.top("static void oops(void) {");
    program.top("    oops_count = oops_count + 1;");
    program.top("}");
    program.top("static void (*volatile cold)(void) = oops;");
    program.input(Ty::I32, "rare", 0);
    program.blank();
    program.line("long long total = 0;");
    program.line("for (int i = 0; i < 1000; i++) {");
    layout_loop(&mut program, shape, hint);
    program.line("}");
    program.blank();
    program.check(Ty::I64, "total", 1000);
    assert(program.top_lines() =~~= layout_top());
    assert(program.body_lines() =~~= layout_body(shape, hint));
    let axes = vec![axis("shape", shape.name()), axis("hint", hint.name())];
    let r = Case { axes, tags: tags_for(hint != Hint::Plain), program };
    assert(r.axes_text() =~= seq![("shape"@, shape.name_text()), ("hint"@, hint.name_text())]);
    assert(r.program.expected_values() =~= seq![1000int]);
    r
}

/// The points the layout facet walks: every shape with each of the three spellings.
pub open spec fn layout_points() -> Seq<(HintedShape, Hint)> {
    let shapes = seq![
        HintedShape::RareCall,
        HintedShape::HotThen,
        HintedShape::WidenedCondition,
        HintedShape::RareChain,
    ];
    let hints = seq![Hint::Plain, Hint::Builtin, Hint::Probability];
    Seq::new(12, |i: int| (shapes[i / 3], hints[i % 3]))
}

/// Branches the program itself says which way they go, every shape written once without a hint
/// and once with each spelling of one, so three objects built from one program differ only in
/// the hint.
pub fn expect_layout() -> (r: Vec<Case>)
    ensures
        r@.len() == 12,
        forall|i: int|
            0 <= i < 12 ==> is_layout_case(#[trigger] r@[i], layout_points()[i].0, layout_points()[i].1),
{
    let shapes = [
        HintedShape::RareCall,
        HintedShape::HotThen,
        HintedShape::WidenedCondition,
        HintedShape::RareChain,
    ];
    let hints = [Hint::Plain, Hint::Builtin, Hint::Probability];
    let mut out: Vec<Case> = Vec::new();
    let mut i: usize = 0;
    while i < 12
        invariant
            i <= 12,
            shapes@ == seq![
                HintedShape::RareCall,
                HintedShape::HotThen,
                HintedShape::WidenedCondition,
                HintedShape::RareChain,
            ],
            hints@ == seq![Hint::Plain, Hint::Builtin, Hint::Probability],
            out@.len() == i,
            forall|k: int|
                0 <= k < i ==> is_layout_case(
                    #[trigger] out@[k],
                    layout_points()[k].0,
                    layout_points()[k].1,
                ),
        decreases 12 - i,
    {
        out.push(layout_case(shapes[i / 3], hints[i % 3]));
        i += 1;
    }
    out
}

/// Every backend facet, one batch per facet in the order the phase walks them.
#[verifier::rlimit(100)]
pub fn generate() -> (r: Vec<Batch>)
    ensures
        r@.len() == 27,
        r@[0] is Single,
        r@[0]->cases@.len() == 40,
        forall|k: int|
            0 <= k < 40 ==> is_pattern_case(
                #[trigger] r@[0]->cases@[k],
                wide_types()[k / 10],
                patterns_list()[k % 10],
            ),
        r@[1] is Single,
        r@[1]->cases@.len() == 60,
        forall|k: int|
            0 <= k < 60 ==> is_pressure_case(
                #[trigger] r@[1]->cases@[k],
                wide_types()[k / 15],
                pressure_counts()[(k % 15) / 5],
                pressure_shapes_list()[k % 5],
            ),
        r@[2] is Single,
        r@[2]->cases@.len() == 40,
        forall|k: int|
            0 <= k < 40 ==> is_spill_case(
                #[trigger] r@[2]->cases@[k],
                wide_types()[k / 10],
                spill_counts()[(k % 10) / 2],
                if k % 2 == 0 {
                    SpillShape::Straight
                } else {
                    SpillShape::InALoop
                },
            ),
        r@[3] is Single,
        r@[3]->cases@.len() == 12,
        forall|k: int|
            0 <= k < 12 ==> is_chains_case(
                #[trigger] r@[3]->cases@[k],
                if k < 6 {
                    Ty::U32
                } else {
                    Ty::U64
                },
                chain_counts()[(k % 6) / 2],
                if k % 2 == 0 {
                    8
                } else {
                    32
                },
            ),
        r@[4] is Single,
        r@[4]->cases@.len() == 8,
        forall|k: int|
            0 <= k < 8 ==> is_access_case(
                #[trigger] r@[4]->cases@[k],
                if k < 4 {
                    Ty::U32
                } else {
                    Ty::U64
                },
                access_shapes_list()[k % 4],
            ),
        r@[5] is Single,
        r@[5]->cases@.len() == 4,
        forall|k: int| 0 <= k < 4 ==> is_cold_case(#[trigger] r@[5]->cases@[k], layout_shapes_list()[k]),
        r@[6] is Single,
        r@[6]->cases@.len() == 12,
        forall|i: int|
            0 <= i < 12 ==> is_layout_case(#[trigger] r@[6]->cases@[i], layout_points()[i].0, layout_points()[i].1),
        r@[7] is Single,
        r@[7]->cases@.len() == 20,
        forall|k: int|
            0 <= k < 20 ==> is_select_case(
                #[trigger] r@[7]->cases@[k],
                wide_types()[k / 5],
                select_shapes_list()[k % 5],
            ),
        r@[8] is Single,
        r@[8]->cases@.len() == 15,
        forall|i: int|
            0 <= i < 15 ==> is_rate_case(#[trigger] r@[8]->cases@[i], rate_points()[i].0, rate_points()[i].1),
        r@[9] is Single,
        r@[9]->cases@.len() == 3,
        is_chain_case(r@[9]->cases@[0], ChainShape::SharedWidening),
        is_chain_case(r@[9]->cases@[1], ChainShape::SharedMask),
        is_chain_case(r@[9]->cases@[2], ChainShape::DifferentWidening),
        r@[10] is Single,
        r@[10]->cases@.len() == 15,
        forall|k: int|
            0 <= k < 15 ==> is_lowering_case(
                #[trigger] r@[10]->cases@[k],
                spacings()[k / 5],
                lowering_counts()[k % 5],
            ),
        r@[11] is Single,
        r@[11]->cases@.len() == 12,
        forall|i: int|
            0 <= i < 12 ==> is_hot_case(
                #[trigger] r@[11]->cases@[i],
                hot_points()[i].0,
                hot_points()[i].1,
                hot_points()[i].2,
            ),
        r@[12] is Single,
        r@[12]->cases@.len() == 15,
        is_one_run_case(r@[12]->cases@[0], 4),
        is_one_run_case(r@[12]->cases@[1], 26),
        is_one_run_case(r@[12]->cases@[2], 100),
        is_several_runs_case(r@[12]->cases@[3], 2),
        is_several_runs_case(r@[12]->cases@[4], 4),
        is_several_runs_case(r@[12]->cases@[5], 31),
        is_several_runs_case(r@[12]->cases@[6], 33),
        is_mixed_case(r@[12]->cases@[7]),
        is_edge_case(r@[12]->cases@[8], Ty::I32, false),
        is_edge_case(r@[12]->cases@[9], Ty::I32, true),
        is_edge_case(r@[12]->cases@[10], Ty::U32, false),
        is_edge_case(r@[12]->cases@[11], Ty::U32, true),
        is_classifier_case(r@[12]->cases@[12], "char"@, "char"@),
        is_classifier_case(r@[12]->cases@[13], "unsigned char"@, "unsigned-char"@),
        is_look_alike_case(r@[12]->cases@[14]),
        r@[13] is Single,
        r@[13]->cases@.len() == dispatch_points().len() + 4,
        forall|i: int|
            0 <= i < dispatch_points().len() ==> is_dispatch_case(
                #[trigger] r@[13]->cases@[i],
                dispatch_points()[i].0,
                dispatch_points()[i].1,
            ),
        is_interpreter_case(r@[13]->cases@[dispatch_points().len() as int]),
        is_addressed_case(r@[13]->cases@[dispatch_points().len() as int + 1], AddressedShape::Names),
        is_addressed_case(r@[13]->cases@[dispatch_points().len() as int + 2], AddressedShape::NamesWithHoles),
        is_addressed_case(r@[13]->cases@[dispatch_points().len() as int + 3], AddressedShape::IntoLetters),
        r@[14] is Single,
        r@[14]->cases@.len() == 70,
        forall|k: int|
            0 <= k < 70 ==> is_division_case(
                #[trigger] r@[14]->cases@[k],
                division_point(k).0,
                division_point(k).1,
                division_point(k).2,
            ),
        r@[15] is Single,
        r@[15]->cases@.len() == 2,
        is_exact_case(r@[15]->cases@[0], 12),
        is_exact_case(r@[15]->cases@[1], 7),
        r@[16] is Single,
        r@[16]->cases@.len() == 10,
        forall|k: int| 0 <= k < 5 ==> is_int_call_case(#[trigger] r@[16]->cases@[k], int_call_counts()[k]),
        forall|k: int|
            5 <= k < 9 ==> is_bag_case(
                #[trigger] r@[16]->cases@[k],
                bag_kinds()[k - 5].0,
                bag_kinds()[k - 5].1,
            ),
        is_varargs_case(r@[16]->cases@[9]),
        r@[17] is Single,
        r@[17]->cases@.len() == 22,
        forall|k: int|
            0 <= k < 22 ==> is_peephole_case(
                #[trigger] r@[17]->cases@[k],
                peephole_point(k).0,
                peephole_point(k).1,
            ),
        r@[18] is Single,
        r@[18]->cases@.len() == 28,
        forall|k: int|
            0 <= k < 28 ==> is_widen_case(
                #[trigger] r@[18]->cases@[k],
                narrow_types()[k / 7],
                widen_shapes_list()[k % 7],
            ),
        r@[19] is Single,
        r@[19]->cases@.len() == 26,
        forall|k: int|
            0 <= k < 26 ==> is_flag_case(
                #[trigger] r@[19]->cases@[k],
                flag_point(k).0,
                flag_point(k).1,
            ),
        r@[20] is Single,
        r@[20]->cases@.len() == 28,
        forall|k: int|
            0 <= k < 28 ==> is_address_case(
                #[trigger] r@[20]->cases@[k],
                wide_types()[k / 7],
                address_shapes_list()[k % 7],
            ),
        r@[21] is Single,
        r@[21]->cases@.len() == 40,
        forall|k: int|
            0 <= k < 40 ==> is_load_case(
                #[trigger] r@[21]->cases@[k],
                wide_types()[k / 10],
                load_shapes_list()[k % 10],
            ),
        r@[22] is Single,
        r@[22]->cases@.len() == 56,
        forall|k: int|
            0 <= k < 56 ==> is_store_case(#[trigger] r@[22]->cases@[k], wide_types()[k / 14], store_shapes_list()[k % 14]),
        r@[23] is Single,
        r@[23]->cases@.len() == 118,
        forall|k: int|
            0 <= k < 118 ==> is_constant_store_case(
                #[trigger] r@[23]->cases@[k],
                constant_store_point(k).0,
                constant_store_point(k).1,
            ),
        r@[24] is Single,
        r@[24]->cases@.len() == 118,
        forall|k: int|
            0 <= k < 118 ==> is_compare_case(
                #[trigger] r@[24]->cases@[k],
                compare_point(k).0,
                compare_point(k).1,
            ),
        r@[25] is Single,
        r@[25]->cases@.len() == 6,
        forall|k: int| 0 <= k < 6 ==> is_frame_case(#[trigger] r@[25]->cases@[k], k + 1),
        r@[26] is Single,
        r@[26]->cases@.len() == 6,
        forall|k: int| 0 <= k < 6 ==> is_slot_case(#[trigger] r@[26]->cases@[k], slot_shapes_list()[k]),
{
    let mut out: Vec<Batch> = Vec::new();
    out.push(Batch::Single { cases: selection() });
    out.push(Batch::Single { cases: register_pressure() });
    out.push(Batch::Single { cases: register_alloc() });
    out.push(Batch::Single { cases: scheduling() });
    out.push(Batch::Single { cases: scheduling_memory() });
    out.push(Batch::Single { cases: block_layout() });
    out.push(Batch::Single { cases: expect_layout() });
    out.push(Batch::Single { cases: if_conversion() });
    out.push(Batch::Single { cases: if_conversion_rate() });
    out.push(Batch::Single { cases: if_conversion_chain() });
    out.push(Batch::Single { cases: switch_lowering() });
    out.push(Batch::Single { cases: switch_hot_case() });
    out.push(Batch::Single { cases: switch_runs() });
    out.push(Batch::Single { cases: switch_dispatch() });
    out.push(Batch::Single { cases: division() });
    out.push(Batch::Single { cases: exact_division() });
    out.push(Batch::Single { cases: calling_convention() });
    out.push(Batch::Single { cases: machine_peephole() });
    out.push(Batch::Single { cases: bit_liveness() });
    out.push(Batch::Single { cases: compare_elim() });
    out.push(Batch::Single { cases: address_fold() });
    out.push(Batch::Single { cases: load_fold() });
    out.push(Batch::Single { cases: store_fold() });
    out.push(Batch::Single { cases: store_fold_constant() });
    out.push(Batch::Single { cases: compare_fold() });
    out.push(Batch::Single { cases: frame_address() });
    out.push(Batch::Single { cases: stack_slots() });
    out
}

} // verus!
