//! The transformations that need loop structure: what may be hoisted out of a loop, and the
//! shapes a loop has to be put into before anything else can work on it.
//!
//! Every loop here has a trip count the generator knows, so the generator runs the loop itself
//! and records the answer.

use vstd::prelude::*;
use vstd::string::*;
use crate::emit::{Program, input_global, input_read, indent, print_line};
use crate::lang::{Ty, wide, wide_types};
use crate::text::{decimal, push_decimal};
use crate::facets::{Case, axis, tags_for, line3, line_at3, text3};

use crate::facets::loop_passes::{dead_bounds_list, idioms_list, induction_variable, is_dead_case, is_idiom_case, is_induction_case, is_invariant_case, is_rotate_case, is_traversal_case, is_unroll_case, is_unswitch_case, loop_deletion, loop_idiom, loop_invariant, loop_restructure, loop_rotate, loop_spellings_list, loop_unroll, loop_unswitch, traversals_list, trip_bounds_list};
use crate::facets::Batch;
verus! {

/// Whether a value fits the accumulator, so a case that would overflow is never emitted.
pub fn fits(ty: Ty, value: i128) -> (r: bool)
    ensures
        r == ty.promotion().contains(value as int),
{
    ty.promoted().holds(value)
}

/// The shapes that decide whether an invariant computation is allowed out of its loop.
#[derive(Clone, Copy, Debug, PartialEq, Eq, Structural)]
pub enum HoistShape {
    GlobalLoad,
    GlobalLoadWritten,
    LoadThatMayNotRun,
    LoadThatAlwaysRuns,
    DivideAtTheBottom,
    DivideThatMayNotRun,
    DivideUnderATest,
    VolatileLoad,
    AChainOfThree,
    OutOfANest,
    UnderPressure,
    AnArrayElement,
    ACallWithNothingInIt,
    AStoreOfSomethingInvariant,
}

impl HoistShape {
    /// The axis value.
    pub open spec fn name_text(self) -> Seq<char> {
        match self {
            HoistShape::GlobalLoad => "global-load"@,
            HoistShape::GlobalLoadWritten => "global-load-written"@,
            HoistShape::LoadThatMayNotRun => "load-that-may-not-run"@,
            HoistShape::LoadThatAlwaysRuns => "load-that-always-runs"@,
            HoistShape::DivideAtTheBottom => "divide-at-the-bottom"@,
            HoistShape::DivideThatMayNotRun => "divide-that-may-not-run"@,
            HoistShape::DivideUnderATest => "divide-under-a-test"@,
            HoistShape::VolatileLoad => "volatile-load"@,
            HoistShape::AChainOfThree => "a-chain-of-three"@,
            HoistShape::OutOfANest => "out-of-a-nest"@,
            HoistShape::UnderPressure => "under-pressure"@,
            HoistShape::AnArrayElement => "an-array-element"@,
            HoistShape::ACallWithNothingInIt => "a-call-with-nothing-in-it"@,
            HoistShape::AStoreOfSomethingInvariant => "a-store-of-something-invariant"@,
        }
    }

    /// The axis value.
    pub fn name(self) -> (r: &'static str)
        ensures
            r@ == self.name_text(),
    {
        match self {
            HoistShape::GlobalLoad => "global-load",
            HoistShape::GlobalLoadWritten => "global-load-written",
            HoistShape::LoadThatMayNotRun => "load-that-may-not-run",
            HoistShape::LoadThatAlwaysRuns => "load-that-always-runs",
            HoistShape::DivideAtTheBottom => "divide-at-the-bottom",
            HoistShape::DivideThatMayNotRun => "divide-that-may-not-run",
            HoistShape::DivideUnderATest => "divide-under-a-test",
            HoistShape::VolatileLoad => "volatile-load",
            HoistShape::AChainOfThree => "a-chain-of-three",
            HoistShape::OutOfANest => "out-of-a-nest",
            HoistShape::UnderPressure => "under-pressure",
            HoistShape::AnArrayElement => "an-array-element",
            HoistShape::ACallWithNothingInIt => "a-call-with-nothing-in-it",
            HoistShape::AStoreOfSomethingInvariant => "a-store-of-something-invariant",
        }
    }
}

/// The shapes in the order the facet walks them.
pub open spec fn hoist_shapes() -> Seq<HoistShape> {
    seq![
        HoistShape::GlobalLoad,
        HoistShape::GlobalLoadWritten,
        HoistShape::LoadThatMayNotRun,
        HoistShape::LoadThatAlwaysRuns,
        HoistShape::DivideAtTheBottom,
        HoistShape::DivideThatMayNotRun,
        HoistShape::DivideUnderATest,
        HoistShape::VolatileLoad,
        HoistShape::AChainOfThree,
        HoistShape::OutOfANest,
        HoistShape::UnderPressure,
        HoistShape::AnArrayElement,
        HoistShape::ACallWithNothingInIt,
        HoistShape::AStoreOfSomethingInvariant,
    ]
}

/// The purpose line of a hoisting shape.
pub open spec fn hoist_purpose(ty: Ty, shape: HoistShape) -> Seq<char> {
    let c = ty.c_text();
    match shape {
        HoistShape::GlobalLoad => "a "@ + c + " loop reading a global nothing in it writes"@,
        HoistShape::GlobalLoadWritten => "a "@ + c + " loop reading a global the body writes"@,
        HoistShape::LoadThatMayNotRun => "a "@ + c
            + " loop that never runs, over a pointer that is null"@,
        HoistShape::LoadThatAlwaysRuns => "a "@ + c
            + " loop that always runs, over a valid pointer"@,
        HoistShape::DivideAtTheBottom => "an invariant divide in a "@ + c
            + " loop that always runs"@,
        HoistShape::DivideThatMayNotRun => "an invariant divide by zero in a "@ + c
            + " loop that never runs"@,
        HoistShape::DivideUnderATest => "an invariant divide by zero under a false test, "@ + c,
        HoistShape::VolatileLoad => "a volatile read a "@ + c + " loop must do every iteration"@,
        HoistShape::AChainOfThree => "three invariant computations feeding each other, "@ + c,
        HoistShape::OutOfANest => "an invariant in the inner loop of a "@ + c + " nest"@,
        HoistShape::UnderPressure => "a cheap invariant in a "@ + c
            + " loop with no registers spare"@,
        HoistShape::AnArrayElement => "an invariant index into a global array, "@ + c,
        HoistShape::ACallWithNothingInIt => "an invariant call to a pure function, "@ + c,
        HoistShape::AStoreOfSomethingInvariant => "an invariant value a "@ + c
            + " loop stores every iteration"@,
    }
}

/// The names of the inputs the under-pressure shape holds live.
pub open spec fn pressure_names() -> Seq<Seq<char>> {
    seq!["a"@, "b"@, "c"@, "d"@, "e"@, "f"@, "g"@, "h"@]
}

/// The lines before `main` of a hoisting shape.
pub open spec fn hoist_top(ty: Ty, shape: HoistShape) -> Seq<Seq<char>> {
    match shape {
        HoistShape::GlobalLoad => seq!["static int seed;"@, input_global(Ty::I32, "start"@, 3)],
        HoistShape::GlobalLoadWritten => seq![
            "static int seed;"@,
            Seq::<char>::empty(),
            "static void bump(void) {"@,
            "    seed++;"@,
            "}"@,
            input_global(Ty::I32, "start"@, 3),
        ],
        HoistShape::LoadThatMayNotRun => seq![input_global(Ty::I32, "bound"@, 0)],
        HoistShape::LoadThatAlwaysRuns => seq![input_global(Ty::I32, "bound"@, 8)],
        HoistShape::DivideAtTheBottom => seq![
            input_global(ty, "top"@, 84),
            input_global(ty, "bottom"@, 4),
            input_global(Ty::I32, "bound"@, 8),
        ],
        HoistShape::DivideThatMayNotRun => seq![
            input_global(ty, "top"@, 84),
            input_global(ty, "bottom"@, 0),
            input_global(Ty::I32, "bound"@, 0),
        ],
        HoistShape::DivideUnderATest => seq![
            input_global(ty, "top"@, 84),
            input_global(ty, "bottom"@, 0),
        ],
        HoistShape::VolatileLoad => seq!["static volatile int watched = 5;"@],
        HoistShape::AChainOfThree => seq![
            input_global(ty, "a"@, 3),
            input_global(ty, "b"@, 5),
            input_global(ty, "c"@, 2),
        ],
        HoistShape::OutOfANest => seq![input_global(ty, "a"@, 3), input_global(ty, "b"@, 5)],
        HoistShape::UnderPressure => Seq::new(
            8,
            |at: int| input_global(ty, pressure_names()[at], at + 1),
        ),
        HoistShape::AnArrayElement => seq![
            "static int table[8] = {0, 1, 4, 9, 16, 25, 36, 49};"@,
            input_global(Ty::I32, "which"@, 3),
        ],
        HoistShape::ACallWithNothingInIt => seq![
            "static int square(int of) {"@,
            "    return of * of;"@,
            "}"@,
            input_global(Ty::I32, "a"@, 3),
        ],
        HoistShape::AStoreOfSomethingInvariant => seq![
            "static int written;"@,
            input_global(ty, "a"@, 3),
            input_global(ty, "b"@, 5),
        ],
    }
}

/// The first lines of a loop over eight iterations that accumulates into `total`.
pub open spec fn eight_loop(ty: Ty) -> Seq<Seq<char>> {
    seq![indent(1) + ty.c_text() + " total = 0;"@, indent(1) + "for (int i = 0; i < 8; i++) {"@]
}

/// The `main` of a hoisting shape, up to the check on the total.
pub open spec fn hoist_body(ty: Ty, shape: HoistShape) -> Seq<Seq<char>> {
    let c = ty.c_text();
    let i1 = indent(1);
    let i2 = indent(2);
    let i3 = indent(3);
    let e = Seq::<char>::empty();
    let total = i1 + c + " total = 0;"@;
    match shape {
        HoistShape::GlobalLoad => seq![
            input_read(Ty::I32, "start"@),
            e,
            i1 + "seed = start;"@,
        ] + eight_loop(ty) + seq![i2 + "total += ("@ + c + ")(seed + i);"@, i1 + "}"@],
        HoistShape::GlobalLoadWritten => seq![
            input_read(Ty::I32, "start"@),
            e,
            i1 + "seed = start;"@,
        ] + eight_loop(ty) + seq![
            i2 + "total += ("@ + c + ")seed;"@,
            i2 + "bump();"@,
            i1 + "}"@,
        ],
        HoistShape::LoadThatMayNotRun => seq![
            input_read(Ty::I32, "bound"@),
            e,
            i1 + "static int cell = 41;"@,
            i1 + "int *at = bound ? &cell : (int *)0;"@,
            total,
            i1 + "for (int i = 0; i < bound; i++) {"@,
            i2 + "total += ("@ + c + ")*at;"@,
            i1 + "}"@,
        ],
        HoistShape::LoadThatAlwaysRuns => seq![
            input_read(Ty::I32, "bound"@),
            e,
            i1 + "static int cell = 41;"@,
            i1 + "int *at = bound ? &cell : (int *)0;"@,
            total,
            i1 + "int i = 0;"@,
            i1 + "do {"@,
            i2 + "total += ("@ + c + ")(*at + i);"@,
            i2 + "i++;"@,
            i1 + "} while (i < bound);"@,
        ],
        HoistShape::DivideAtTheBottom => seq![
            input_read(ty, "top"@),
            input_read(ty, "bottom"@),
            input_read(Ty::I32, "bound"@),
            e,
            total,
            i1 + "int i = 0;"@,
            i1 + "do {"@,
            i2 + "total += top / bottom + ("@ + c + ")i;"@,
            i2 + "i++;"@,
            i1 + "} while (i < bound);"@,
        ],
        HoistShape::DivideThatMayNotRun => seq![
            input_read(ty, "top"@),
            input_read(ty, "bottom"@),
            input_read(Ty::I32, "bound"@),
            e,
            total,
            i1 + "for (int i = 0; i < bound; i++) {"@,
            i2 + "total += top / bottom;"@,
            i1 + "}"@,
        ],
        HoistShape::DivideUnderATest => seq![
            input_read(ty, "top"@),
            input_read(ty, "bottom"@),
            e,
        ] + eight_loop(ty) + seq![
            i2 + "if (bottom) {"@,
            i3 + "total += top / bottom;"@,
            i2 + "} else {"@,
            i3 + "total += ("@ + c + ")i;"@,
            i2 + "}"@,
            i1 + "}"@,
        ],
        HoistShape::VolatileLoad => seq![e] + eight_loop(ty) + seq![
            i2 + "total += ("@ + c + ")(watched + i);"@,
            i1 + "}"@,
        ],
        HoistShape::AChainOfThree => seq![
            input_read(ty, "a"@),
            input_read(ty, "b"@),
            input_read(ty, "c"@),
            e,
        ] + eight_loop(ty) + seq![
            i2 + "total += (a * b + c) * (a + b) + ("@ + c + ")i;"@,
            i1 + "}"@,
        ],
        HoistShape::OutOfANest => seq![
            input_read(ty, "a"@),
            input_read(ty, "b"@),
            e,
            total,
            i1 + "for (int o = 0; o < 4; o++) {"@,
            i2 + "for (int i = 0; i < 4; i++) {"@,
            i3 + "total += a * b + ("@ + c + ")(o + i);"@,
            i2 + "}"@,
            i1 + "}"@,
        ],
        HoistShape::UnderPressure => Seq::new(8, |at: int| input_read(ty, pressure_names()[at]))
            + seq![e, total] + Seq::new(8, |at: int| i1 + c + " v"@ + decimal(at) + " = 0;"@)
            + seq![i1 + "for (int i = 0; i < 8; i++) {"@] + Seq::new(
            8,
            |at: int| i2 + "v"@ + decimal(at) + " += "@ + pressure_names()[at] + " + ("@ + c
                + ")i;"@,
        ) + seq![
            i2 + "total += a + b;"@,
            i1 + "}"@,
            e,
            i1 + "total += v0 + v1 + v2 + v3 + v4 + v5 + v6 + v7;"@,
        ],
        HoistShape::AnArrayElement => seq![input_read(Ty::I32, "which"@), e] + eight_loop(ty)
            + seq![i2 + "total += ("@ + c + ")(table[which & 7] + i);"@, i1 + "}"@],
        HoistShape::ACallWithNothingInIt => seq![input_read(Ty::I32, "a"@), e] + eight_loop(ty)
            + seq![i2 + "total += ("@ + c + ")(square(a) + i);"@, i1 + "}"@],
        HoistShape::AStoreOfSomethingInvariant => seq![
            input_read(ty, "a"@),
            input_read(ty, "b"@),
            e,
        ] + eight_loop(ty) + seq![
            i2 + "written = (int)(a + b);"@,
            i2 + "total += ("@ + c + ")i;"@,
            i1 + "}"@,
            e,
            print_line(1, Ty::I32, "written"@),
        ],
    }
}

/// What a counted loop adds when each of its `n` iterations adds `start` and the counter.
pub open spec fn ramp_sum(start: int, n: nat) -> int
    decreases n,
{
    if n == 0 {
        0
    } else {
        ramp_sum(start, (n - 1) as nat) + start + (n - 1)
    }
}

/// What a counted loop adds when each of its `n` iterations adds `start` and the counter.
pub fn ramp(start: i128, n: i128) -> (r: i128)
    requires
        0 <= n <= 100,
        -1_000_000 <= start <= 1_000_000,
    ensures
        r == ramp_sum(start as int, n as nat),
        0 <= start <= 1000 ==> 0 <= r <= 1100 * n,
{
    let mut total: i128 = 0;
    let mut at: i128 = 0;
    while at < n
        invariant
            0 <= at <= n <= 100,
            -1_000_000 <= start <= 1_000_000,
            total == ramp_sum(start as int, at as nat),
            -1_000_000 * at <= total <= 1_000_100 * at,
            0 <= start <= 1000 ==> 0 <= total <= 1100 * at,
        decreases n - at,
    {
        assert(-1_000_000 * (at + 1) <= total + start + at <= 1_000_100 * (at + 1)) by (nonlinear_arith)
            requires
                -1_000_000 * at <= total <= 1_000_100 * at,
                -1_000_000 <= start <= 1_000_000,
                0 <= at < 100,
        ;
        total = total + start + at;
        at += 1;
    }
    total
}

/// The inner loops of the nest: each outer iteration adds a four iteration ramp from fifteen
/// plus the outer counter.
pub open spec fn nest_sum(n: nat) -> int
    decreases n,
{
    if n == 0 {
        0
    } else {
        nest_sum((n - 1) as nat) + ramp_sum(15 + (n - 1), 4)
    }
}

/// The accumulators under pressure: the `k`th starts from the `k`th input, one more than `k`.
pub open spec fn pressure_sum(n: nat) -> int
    decreases n,
{
    if n == 0 {
        0
    } else {
        pressure_sum((n - 1) as nat) + ramp_sum(n as int, 8)
    }
}

/// What a hoisting shape adds up to: each loop worked out from the values its inputs hold.
pub open spec fn hoist_total(shape: HoistShape) -> int {
    match shape {
        HoistShape::GlobalLoad | HoistShape::GlobalLoadWritten => ramp_sum(3, 8),
        HoistShape::LoadThatMayNotRun | HoistShape::DivideThatMayNotRun => 0,
        HoistShape::LoadThatAlwaysRuns => ramp_sum(41, 8),
        HoistShape::DivideAtTheBottom => ramp_sum(84int / 4, 8),
        HoistShape::DivideUnderATest | HoistShape::AStoreOfSomethingInvariant => ramp_sum(0, 8),
        HoistShape::VolatileLoad => ramp_sum(5, 8),
        HoistShape::AChainOfThree => ramp_sum(136, 8),
        HoistShape::OutOfANest => nest_sum(4),
        HoistShape::UnderPressure => pressure_sum(8) + 8int * (1 + 2),
        HoistShape::AnArrayElement | HoistShape::ACallWithNothingInIt => ramp_sum(3int * 3, 8),
    }
}

/// The checks a hoisting shape makes before the one on its total.
pub open spec fn hoist_checks(shape: HoistShape) -> Seq<int> {
    if shape == HoistShape::AStoreOfSomethingInvariant {
        seq![8]
    } else {
        Seq::empty()
    }
}

/// Whether a program is the hoisting shape at a type, whole.
pub open spec fn is_hoisted(p: Program, ty: Ty, shape: HoistShape) -> bool {
    &&& p.purpose_text() == hoist_purpose(ty, shape)
    &&& p.include_lines() == Seq::<Seq<char>>::empty()
    &&& p.top_lines() == hoist_top(ty, shape)
    &&& p.body_lines() == hoist_body(ty, shape) + seq![
        Seq::<char>::empty(),
        print_line(1, ty.promotion(), "total"@),
    ]
    &&& p.expected_values() == hoist_checks(shape).push(hoist_total(shape))
    &&& !p.sinks()
}

/// The input names of the pressure shape.
fn pressure_name(at: usize) -> (r: &'static str)
    requires
        at < 8,
    ensures
        r@ == pressure_names()[at as int],
{
    if at == 0 {
        "a"
    } else if at == 1 {
        "b"
    } else if at == 2 {
        "c"
    } else if at == 3 {
        "d"
    } else if at == 4 {
        "e"
    } else if at == 5 {
        "f"
    } else if at == 6 {
        "g"
    } else {
        "h"
    }
}

/// Writes the eight inputs of the pressure shape.
fn pressure_inputs(program: &mut Program, ty: Ty)
    ensures
        final(program).top_lines() == old(program).top_lines() + Seq::new(
            8,
            |at: int| input_global(ty, pressure_names()[at], at + 1),
        ),
        final(program).body_lines() == old(program).body_lines() + Seq::new(
            8,
            |at: int| input_read(ty, pressure_names()[at]),
        ),
        final(program).expected_values() == old(program).expected_values(),
        final(program).purpose_text() == old(program).purpose_text(),
        final(program).include_lines() == old(program).include_lines(),
        final(program).sinks() == old(program).sinks(),
{
    let ghost top0 = program.top_lines();
    let ghost body0 = program.body_lines();
    let ghost tops = Seq::new(8, |at: int| input_global(ty, pressure_names()[at], at + 1));
    let ghost reads = Seq::new(8, |at: int| input_read(ty, pressure_names()[at]));
    let mut at: usize = 0;
    assert(tops.take(0) =~= Seq::<Seq<char>>::empty());
    assert(reads.take(0) =~= Seq::<Seq<char>>::empty());
    while at < 8
        invariant
            at <= 8,
            tops == Seq::new(8, |at: int| input_global(ty, pressure_names()[at], at + 1)),
            reads == Seq::new(8, |at: int| input_read(ty, pressure_names()[at])),
            program.top_lines() =~= top0 + tops.take(at as int),
            program.body_lines() =~= body0 + reads.take(at as int),
            program.expected_values() == old(program).expected_values(),
            program.purpose_text() == old(program).purpose_text(),
            program.include_lines() == old(program).include_lines(),
            program.sinks() == old(program).sinks(),
        decreases 8 - at,
    {
        program.input(ty, pressure_name(at), at as i128 + 1);
        assert(tops.take(at + 1) =~= tops.take(at as int).push(tops[at as int]));
        assert(reads.take(at + 1) =~= reads.take(at as int).push(reads[at as int]));
        at += 1;
    }
    assert(tops.take(8) =~= tops);
    assert(reads.take(8) =~= reads);
}

/// Writes the eight accumulators of the pressure shape, then the loop that keeps them all live.
fn pressure_loop(program: &mut Program, ty: Ty)
    ensures
        final(program).body_lines() == old(program).body_lines() + Seq::new(
            8,
            |at: int| indent(1) + ty.c_text() + " v"@ + decimal(at) + " = 0;"@,
        ) + seq![indent(1) + "for (int i = 0; i < 8; i++) {"@] + Seq::new(
            8,
            |at: int| indent(2) + "v"@ + decimal(at) + " += "@ + pressure_names()[at] + " + ("@
                + ty.c_text() + ")i;"@,
        ),
        final(program).top_lines() == old(program).top_lines(),
        final(program).expected_values() == old(program).expected_values(),
        final(program).purpose_text() == old(program).purpose_text(),
        final(program).include_lines() == old(program).include_lines(),
        final(program).sinks() == old(program).sinks(),
{
    let ghost body0 = program.body_lines();
    let c = ty.c_name();
    let ghost decls = Seq::new(
        8,
        |at: int| indent(1) + ty.c_text() + " v"@ + decimal(at) + " = 0;"@,
    );
    let ghost steps = Seq::new(
        8,
        |at: int| indent(2) + "v"@ + decimal(at) + " += "@ + pressure_names()[at] + " + ("@
            + ty.c_text() + ")i;"@,
    );
    let mut at: usize = 0;
    assert(decls.take(0) =~= Seq::<Seq<char>>::empty());
    while at < 8
        invariant
            at <= 8,
            decls == Seq::new(
                8,
                |at: int| indent(1) + ty.c_text() + " v"@ + decimal(at) + " = 0;"@,
            ),
            c@ == ty.c_text(),
            program.body_lines() =~= body0 + decls.take(at as int),
            program.top_lines() == old(program).top_lines(),
            program.expected_values() == old(program).expected_values(),
            program.purpose_text() == old(program).purpose_text(),
            program.include_lines() == old(program).include_lines(),
            program.sinks() == old(program).sinks(),
        decreases 8 - at,
    {
        let mut line = String::from_str(c);
        line.append(" v");
        push_decimal(&mut line, at as i128);
        line.append(" = 0;");
        program.line(line.as_str());
        assert(decls[at as int] =~= indent(1) + line@);
        assert(decls.take(at + 1) =~= decls.take(at as int).push(indent(1) + line@));
        at += 1;
    }
    assert(decls.take(8) =~= decls);
    program.line("for (int i = 0; i < 8; i++) {");
    let ghost middle = program.body_lines();
    let mut at: usize = 0;
    assert(steps.take(0) =~= Seq::<Seq<char>>::empty());
    while at < 8
        invariant
            at <= 8,
            steps == Seq::new(
                8,
                |at: int| indent(2) + "v"@ + decimal(at) + " += "@ + pressure_names()[at] + " + ("@
                    + ty.c_text() + ")i;"@,
            ),
            c@ == ty.c_text(),
            program.body_lines() =~= middle + steps.take(at as int),
            program.top_lines() == old(program).top_lines(),
            program.expected_values() == old(program).expected_values(),
            program.purpose_text() == old(program).purpose_text(),
            program.include_lines() == old(program).include_lines(),
            program.sinks() == old(program).sinks(),
        decreases 8 - at,
    {
        let mut line = String::from_str("v");
        push_decimal(&mut line, at as i128);
        line.append(" += ");
        line.append(pressure_name(at));
        line.append(" + (");
        line.append(c);
        line.append(")i;");
        program.line_at(1, line.as_str());
        assert(steps[at as int] =~= indent(2) + line@);
        assert(steps.take(at + 1) =~= steps.take(at as int).push(indent(2) + line@));
        at += 1;
    }
    assert(steps.take(8) =~= steps);
    assert(program.body_lines() =~= body0 + decls + seq![indent(1) + "for (int i = 0; i < 8; i++) {"@]
        + steps);
}

/// Writes the first lines of a loop over eight iterations that accumulates into `total`.
fn push_eight_loop(program: &mut Program, ty: Ty)
    ensures
        final(program).body_lines() == old(program).body_lines() + eight_loop(ty),
        final(program).top_lines() == old(program).top_lines(),
        final(program).expected_values() == old(program).expected_values(),
        final(program).purpose_text() == old(program).purpose_text(),
        final(program).include_lines() == old(program).include_lines(),
        final(program).sinks() == old(program).sinks(),
{
    let ghost body0 = program.body_lines();
    proof {
        reveal_strlit("");
    }
    line3(program, "", ty.c_name(), " total = 0;");
    program.line("for (int i = 0; i < 8; i++) {");
    assert(program.body_lines() =~~= body0 + eight_loop(ty));
}

/// Writes the line that starts the total.
fn push_total(program: &mut Program, ty: Ty)
    ensures
        final(program).body_lines() == old(program).body_lines().push(
            indent(1) + ty.c_text() + " total = 0;"@,
        ),
        final(program).top_lines() == old(program).top_lines(),
        final(program).expected_values() == old(program).expected_values(),
        final(program).purpose_text() == old(program).purpose_text(),
        final(program).include_lines() == old(program).include_lines(),
        final(program).sinks() == old(program).sinks(),
{
    proof {
        reveal_strlit("");
    }
    line3(program, "", ty.c_name(), " total = 0;");
    assert(indent(1) + ""@ + ty.c_text() + " total = 0;"@ =~= indent(1) + ty.c_text()
        + " total = 0;"@);
}

/// The purpose line of a hoisting shape.
fn hoist_purpose_text(ty: Ty, shape: HoistShape) -> (r: String)
    ensures
        r@ == hoist_purpose(ty, shape),
{
    let c = ty.c_name();
    match shape {
        HoistShape::GlobalLoad => text3("a ", c, " loop reading a global nothing in it writes"),
        HoistShape::GlobalLoadWritten => text3("a ", c, " loop reading a global the body writes"),
        HoistShape::LoadThatMayNotRun => text3(
            "a ",
            c,
            " loop that never runs, over a pointer that is null",
        ),
        HoistShape::LoadThatAlwaysRuns => text3(
            "a ",
            c,
            " loop that always runs, over a valid pointer",
        ),
        HoistShape::DivideAtTheBottom => text3(
            "an invariant divide in a ",
            c,
            " loop that always runs",
        ),
        HoistShape::DivideThatMayNotRun => text3(
            "an invariant divide by zero in a ",
            c,
            " loop that never runs",
        ),
        HoistShape::DivideUnderATest => {
            proof {
                reveal_strlit("");
            }
            let r = text3("an invariant divide by zero under a false test, ", c, "");
            assert(r@ =~= hoist_purpose(ty, shape));
            r
        },
        HoistShape::VolatileLoad => text3("a volatile read a ", c, " loop must do every iteration"),
        HoistShape::AChainOfThree => {
            proof {
                reveal_strlit("");
            }
            let r = text3("three invariant computations feeding each other, ", c, "");
            assert(r@ =~= hoist_purpose(ty, shape));
            r
        },
        HoistShape::OutOfANest => text3("an invariant in the inner loop of a ", c, " nest"),
        HoistShape::UnderPressure => text3(
            "a cheap invariant in a ",
            c,
            " loop with no registers spare",
        ),
        HoistShape::AnArrayElement => {
            proof {
                reveal_strlit("");
            }
            let r = text3("an invariant index into a global array, ", c, "");
            assert(r@ =~= hoist_purpose(ty, shape));
            r
        },
        HoistShape::ACallWithNothingInIt => {
            proof {
                reveal_strlit("");
            }
            let r = text3("an invariant call to a pure function, ", c, "");
            assert(r@ =~= hoist_purpose(ty, shape));
            r
        },
        HoistShape::AStoreOfSomethingInvariant => text3(
            "an invariant value a ",
            c,
            " loop stores every iteration",
        ),
    }
}

/// What a hoisting shape adds up to, worked out the way the loop works it out.
fn hoist_sum(shape: HoistShape) -> (r: i128)
    ensures
        r == hoist_total(shape),
{
    match shape {
        HoistShape::GlobalLoad | HoistShape::GlobalLoadWritten => ramp(3, 8),
        HoistShape::LoadThatMayNotRun | HoistShape::DivideThatMayNotRun => 0,
        HoistShape::LoadThatAlwaysRuns => ramp(41, 8),
        HoistShape::DivideAtTheBottom => ramp(21, 8),
        HoistShape::DivideUnderATest | HoistShape::AStoreOfSomethingInvariant => ramp(0, 8),
        HoistShape::VolatileLoad => ramp(5, 8),
        HoistShape::AChainOfThree => {
            ramp(136, 8)
        },
        HoistShape::OutOfANest => {
            let mut total: i128 = 0;
            let mut o: i128 = 0;
            while o < 4
                invariant
                    0 <= o <= 4,
                    total == nest_sum(o as nat),
                    0 <= total <= 100 * o,
                decreases 4 - o,
            {
                let inner = ramp(15 + o, 4);
                assert(inner <= 100) by {
                    reveal_with_fuel(ramp_sum, 5);
                }
                assert(inner >= 0) by {
                    reveal_with_fuel(ramp_sum, 5);
                }
                total = total + inner;
                o += 1;
            }
            total
        },
        HoistShape::UnderPressure => {
            let mut held: i128 = 0;
            let mut start: i128 = 1;
            while start <= 8
                invariant
                    1 <= start <= 9,
                    held == pressure_sum((start - 1) as nat),
                    0 <= held <= 100 * start,
                decreases 9 - start,
            {
                let run = ramp(start, 8);
                assert(0 <= run <= 100) by {
                    reveal_with_fuel(ramp_sum, 9);
                }
                held = held + run;
                start += 1;
            }
            held + 8 * (1 + 2)
        },
        HoistShape::AnArrayElement | HoistShape::ACallWithNothingInIt => ramp(9, 8),
    }
}

/// Writes the hoisting shapes about loads and divides.
fn hoist_write_loads(program: &mut Program, ty: Ty, shape: HoistShape)
    requires
        old(program).top_lines() == Seq::<Seq<char>>::empty(),
        old(program).body_lines() == Seq::<Seq<char>>::empty(),
        old(program).expected_values() == Seq::<int>::empty(),
        old(program).include_lines() == Seq::<Seq<char>>::empty(),
        !old(program).sinks(),
        shape == HoistShape::GlobalLoad || shape == HoistShape::GlobalLoadWritten || shape
            == HoistShape::LoadThatMayNotRun || shape == HoistShape::LoadThatAlwaysRuns || shape
            == HoistShape::DivideAtTheBottom || shape == HoistShape::DivideThatMayNotRun || shape
            == HoistShape::DivideUnderATest,
    ensures
        final(program).top_lines() == hoist_top(ty, shape),
        final(program).body_lines() == hoist_body(ty, shape),
        final(program).expected_values() == hoist_checks(shape),
        final(program).purpose_text() == old(program).purpose_text(),
        final(program).include_lines() == Seq::<Seq<char>>::empty(),
        !final(program).sinks(),
{
    let c = ty.c_name();
    match shape {
        HoistShape::GlobalLoad => {
            program.top("static int seed;");
            program.input(Ty::I32, "start", 3);
            program.blank();
            program.line("seed = start;");
            push_eight_loop(program, ty);
            line_at3(program, 1, "total += (", c, ")(seed + i);");
            program.line("}");
            assert(program.top_lines() =~~= hoist_top(ty, shape));
            assert(program.body_lines() =~~= hoist_body(ty, shape));
            assert(program.expected_values() =~= hoist_checks(shape));
        },
        HoistShape::GlobalLoadWritten => {
            program.top("static int seed;");
            program.top("");
            program.top("static void bump(void) {");
            program.top("    seed++;");
            program.top("}");
            program.input(Ty::I32, "start", 3);
            program.blank();
            program.line("seed = start;");
            push_eight_loop(program, ty);
            line_at3(program, 1, "total += (", c, ")seed;");
            program.line_at(1, "bump();");
            program.line("}");
            proof {
                reveal_strlit("");
            }
            assert(program.top_lines() =~~= hoist_top(ty, shape));
            assert(program.body_lines() =~~= hoist_body(ty, shape));
            assert(program.expected_values() =~= hoist_checks(shape));
        },
        HoistShape::LoadThatMayNotRun => {
            program.input(Ty::I32, "bound", 0);
            program.blank();
            program.line("static int cell = 41;");
            program.line("int *at = bound ? &cell : (int *)0;");
            push_total(program, ty);
            program.line("for (int i = 0; i < bound; i++) {");
            line_at3(program, 1, "total += (", c, ")*at;");
            program.line("}");
            assert(program.top_lines() =~~= hoist_top(ty, shape));
            assert(program.body_lines() =~~= hoist_body(ty, shape));
            assert(program.expected_values() =~= hoist_checks(shape));
        },
        HoistShape::LoadThatAlwaysRuns => {
            program.input(Ty::I32, "bound", 8);
            program.blank();
            program.line("static int cell = 41;");
            program.line("int *at = bound ? &cell : (int *)0;");
            push_total(program, ty);
            program.line("int i = 0;");
            program.line("do {");
            line_at3(program, 1, "total += (", c, ")(*at + i);");
            program.line_at(1, "i++;");
            program.line("} while (i < bound);");
            assert(program.top_lines() =~~= hoist_top(ty, shape));
            assert(program.body_lines() =~~= hoist_body(ty, shape));
            assert(program.expected_values() =~= hoist_checks(shape));
        },
        HoistShape::DivideAtTheBottom => {
            program.input(ty, "top", 84);
            program.input(ty, "bottom", 4);
            program.input(Ty::I32, "bound", 8);
            program.blank();
            push_total(program, ty);
            program.line("int i = 0;");
            program.line("do {");
            line_at3(program, 1, "total += top / bottom + (", c, ")i;");
            program.line_at(1, "i++;");
            program.line("} while (i < bound);");
            assert(program.top_lines() =~~= hoist_top(ty, shape));
            assert(program.body_lines() =~~= hoist_body(ty, shape));
            assert(program.expected_values() =~= hoist_checks(shape));
        },
        HoistShape::DivideThatMayNotRun => {
            program.input(ty, "top", 84);
            program.input(ty, "bottom", 0);
            program.input(Ty::I32, "bound", 0);
            program.blank();
            push_total(program, ty);
            program.line("for (int i = 0; i < bound; i++) {");
            program.line_at(1, "total += top / bottom;");
            program.line("}");
            assert(program.top_lines() =~~= hoist_top(ty, shape));
            assert(program.body_lines() =~~= hoist_body(ty, shape));
            assert(program.expected_values() =~= hoist_checks(shape));
        },
        HoistShape::DivideUnderATest => {
            program.input(ty, "top", 84);
            program.input(ty, "bottom", 0);
            program.blank();
            push_eight_loop(program, ty);
            program.line_at(1, "if (bottom) {");
            program.line_at(2, "total += top / bottom;");
            program.line_at(1, "} else {");
            line_at3(program, 2, "total += (", c, ")i;");
            program.line_at(1, "}");
            program.line("}");
            assert(program.top_lines() =~~= hoist_top(ty, shape));
            assert(program.body_lines() =~~= hoist_body(ty, shape));
            assert(program.expected_values() =~= hoist_checks(shape));
        },
        _ => {
        },
    }
}

/// Writes the hoisting shapes about invariant values.
fn hoist_write_values(program: &mut Program, ty: Ty, shape: HoistShape)
    requires
        old(program).top_lines() == Seq::<Seq<char>>::empty(),
        old(program).body_lines() == Seq::<Seq<char>>::empty(),
        old(program).expected_values() == Seq::<int>::empty(),
        old(program).include_lines() == Seq::<Seq<char>>::empty(),
        !old(program).sinks(),
        shape == HoistShape::VolatileLoad || shape == HoistShape::AChainOfThree || shape
            == HoistShape::OutOfANest || shape == HoistShape::UnderPressure || shape
            == HoistShape::AnArrayElement || shape == HoistShape::ACallWithNothingInIt || shape
            == HoistShape::AStoreOfSomethingInvariant,
    ensures
        final(program).top_lines() == hoist_top(ty, shape),
        final(program).body_lines() == hoist_body(ty, shape),
        final(program).expected_values() == hoist_checks(shape),
        final(program).purpose_text() == old(program).purpose_text(),
        final(program).include_lines() == Seq::<Seq<char>>::empty(),
        !final(program).sinks(),
{
    let c = ty.c_name();
    match shape {
        HoistShape::VolatileLoad => {
            program.top("static volatile int watched = 5;");
            program.blank();
            push_eight_loop(program, ty);
            line_at3(program, 1, "total += (", c, ")(watched + i);");
            program.line("}");
            assert(program.top_lines() =~~= hoist_top(ty, shape));
            assert(program.body_lines() =~~= hoist_body(ty, shape));
            assert(program.expected_values() =~= hoist_checks(shape));
        },
        HoistShape::AChainOfThree => {
            program.input(ty, "a", 3);
            program.input(ty, "b", 5);
            program.input(ty, "c", 2);
            program.blank();
            push_eight_loop(program, ty);
            line_at3(program, 1, "total += (a * b + c) * (a + b) + (", c, ")i;");
            program.line("}");
            assert(program.top_lines() =~~= hoist_top(ty, shape));
            assert(program.body_lines() =~~= hoist_body(ty, shape));
            assert(program.expected_values() =~= hoist_checks(shape));
        },
        HoistShape::OutOfANest => {
            program.input(ty, "a", 3);
            program.input(ty, "b", 5);
            program.blank();
            push_total(program, ty);
            program.line("for (int o = 0; o < 4; o++) {");
            program.line_at(1, "for (int i = 0; i < 4; i++) {");
            line_at3(program, 2, "total += a * b + (", c, ")(o + i);");
            program.line_at(1, "}");
            program.line("}");
            assert(program.top_lines() =~~= hoist_top(ty, shape));
            assert(program.body_lines() =~~= hoist_body(ty, shape));
            assert(program.expected_values() =~= hoist_checks(shape));
        },
        HoistShape::UnderPressure => {
            pressure_inputs(program, ty);
            program.blank();
            push_total(program, ty);
            pressure_loop(program, ty);
            program.line_at(1, "total += a + b;");
            program.line("}");
            program.blank();
            program.line("total += v0 + v1 + v2 + v3 + v4 + v5 + v6 + v7;");
            assert(program.top_lines() =~~= hoist_top(ty, shape));
            assert(program.body_lines() =~~= hoist_body(ty, shape));
            assert(program.expected_values() =~= hoist_checks(shape));
        },
        HoistShape::AnArrayElement => {
            program.top("static int table[8] = {0, 1, 4, 9, 16, 25, 36, 49};");
            program.input(Ty::I32, "which", 3);
            program.blank();
            push_eight_loop(program, ty);
            line_at3(program, 1, "total += (", c, ")(table[which & 7] + i);");
            program.line("}");
            assert(program.top_lines() =~~= hoist_top(ty, shape));
            assert(program.body_lines() =~~= hoist_body(ty, shape));
            assert(program.expected_values() =~= hoist_checks(shape));
        },
        HoistShape::ACallWithNothingInIt => {
            program.top("static int square(int of) {");
            program.top("    return of * of;");
            program.top("}");
            program.input(Ty::I32, "a", 3);
            program.blank();
            push_eight_loop(program, ty);
            line_at3(program, 1, "total += (", c, ")(square(a) + i);");
            program.line("}");
            assert(program.top_lines() =~~= hoist_top(ty, shape));
            assert(program.body_lines() =~~= hoist_body(ty, shape));
            assert(program.expected_values() =~= hoist_checks(shape));
        },
        HoistShape::AStoreOfSomethingInvariant => {
            program.top("static int written;");
            program.input(ty, "a", 3);
            program.input(ty, "b", 5);
            program.blank();
            push_eight_loop(program, ty);
            program.line_at(1, "written = (int)(a + b);");
            line_at3(program, 1, "total += (", c, ")i;");
            program.line("}");
            program.blank();
            program.check(Ty::I32, "written", 8);
            assert(program.top_lines() =~~= hoist_top(ty, shape));
            assert(program.body_lines() =~~= hoist_body(ty, shape));
            assert(program.expected_values() =~= hoist_checks(shape));
        },
        _ => {
        },
    }
}

/// One shape of the hoisting question, or nothing where the accumulator cannot hold the
/// answer.
///
/// Every operand a compiler is not allowed to know comes out of a `volatile` global, including
/// the ones whose value is zero: a divisor written as a literal zero is undefined behaviour the
/// compiler may do anything with, and a divisor read at run time that happens to be zero on a
/// path nothing takes is an ordinary program that has to work.
pub fn hoisted(ty: Ty, shape: HoistShape) -> (r: Option<Program>)
    ensures
        r is Some <==> ty.promotion().contains(hoist_total(shape)),
        r matches Some(p) ==> is_hoisted(p, ty, shape),
{
    let purpose = hoist_purpose_text(ty, shape);
    let mut program = Program::new(purpose.as_str());
    match shape {
        HoistShape::GlobalLoad | HoistShape::GlobalLoadWritten | HoistShape::LoadThatMayNotRun
        | HoistShape::LoadThatAlwaysRuns | HoistShape::DivideAtTheBottom
        | HoistShape::DivideThatMayNotRun | HoistShape::DivideUnderATest => {
            hoist_write_loads(&mut program, ty, shape);
        },
        _ => {
            hoist_write_values(&mut program, ty, shape);
        },
    }
    let total = hoist_sum(shape);
    if !fits(ty, total) {
        return None;
    }
    program.blank();
    program.check(ty.promoted(), "total", total);
    assert(program.body_lines() =~= hoist_body(ty, shape) + seq![
        Seq::<char>::empty(),
        print_line(1, ty.promotion(), "total"@),
    ]);
    Some(program)
}

/// The header of a loop that counts `i` up from zero while it is below a bound.
pub open spec fn counted_header(depth: nat, counter: Seq<char>, trips: int) -> Seq<char> {
    indent(depth) + "for (int "@ + counter + " = 0; "@ + counter + " < "@ + decimal(trips) + "; "@
        + counter + "++) {"@
}

/// What a loop of `trips` iterations adds when each adds the same value and its counter:
/// `trips` times the value, plus zero, one, and so on up to `trips - 1`.
pub open spec fn counted_run(trips: int, per: int) -> int {
    trips * per + trips * (trips - 1) / 2
}

/// How many times a hoisting shape's loop runs, read off its text: the bound in the header of
/// a counted loop, or the value the opaque `bound` its loop tests against is given.
pub open spec fn trips_read(ty: Ty, shape: HoistShape, trips: int) -> bool {
    match shape {
        HoistShape::LoadThatMayNotRun | HoistShape::LoadThatAlwaysRuns
        | HoistShape::DivideAtTheBottom | HoistShape::DivideThatMayNotRun => hoist_top(
            ty,
            shape,
        ).contains(input_global(Ty::I32, "bound"@, trips)),
        _ => hoist_body(ty, shape).contains(counted_header(1, "i"@, trips)),
    }
}

/// What each iteration of a hoisting shape's loop adds besides its counter, read off the
/// values the program declares: the global's start, the cell, the quotient of the two inputs,
/// the volatile, the chain of three inputs, the table's element, the square; nothing where the
/// else arm or the store leaves only the counter.
pub open spec fn per_read(ty: Ty, shape: HoistShape, per: int) -> bool {
    let top = hoist_top(ty, shape);
    match shape {
        HoistShape::GlobalLoad | HoistShape::GlobalLoadWritten => top.contains(
            input_global(Ty::I32, "start"@, per),
        ),
        HoistShape::LoadThatMayNotRun | HoistShape::LoadThatAlwaysRuns => hoist_body(
            ty,
            shape,
        ).contains(indent(1) + "static int cell = "@ + decimal(per) + ";"@),
        HoistShape::DivideAtTheBottom => exists|t: int, b: int|
            #![trigger input_global(ty, "top"@, t), input_global(ty, "bottom"@, b)]
            top.contains(input_global(ty, "top"@, t)) && top.contains(
                input_global(ty, "bottom"@, b),
            ) && 0 <= t && 0 < b && per == t / b,
        HoistShape::DivideUnderATest => top.contains(input_global(ty, "bottom"@, 0)) && per == 0,
        HoistShape::VolatileLoad => top.contains(
            "static volatile int watched = "@ + decimal(per) + ";"@,
        ),
        HoistShape::AChainOfThree => exists|a: int, b: int, c: int|
            #![trigger input_global(ty, "a"@, a), input_global(ty, "b"@, b), input_global(ty, "c"@, c)]
            top == seq![
                input_global(ty, "a"@, a),
                input_global(ty, "b"@, b),
                input_global(ty, "c"@, c),
            ] && per == (a * b + c) * (a + b),
        HoistShape::AnArrayElement => exists|w: int|
            #![trigger input_global(Ty::I32, "which"@, w)]
            top == seq![
                "static int table[8] = {0, 1, 4, 9, 16, 25, 36, 49};"@,
                input_global(Ty::I32, "which"@, w),
            ] && 0 <= w < 8 && per == w * w,
        HoistShape::ACallWithNothingInIt => exists|a: int|
            #![trigger input_global(Ty::I32, "a"@, a)]
            top.contains(input_global(Ty::I32, "a"@, a)) && top.contains(
                "    return of * of;"@,
            ) && per == a * a,
        _ => per == 0,
    }
}

/// Whether a total is one loop's run as the shape's text reads.
pub open spec fn runs_as_read(ty: Ty, shape: HoistShape, total: int) -> bool {
    exists|trips: int, per: int|
        #[trigger] counted_run(trips, per) == total && trips_read(ty, shape, trips) && per_read(
            ty,
            shape,
            per,
        )
}

proof fn lemma_runs_witness(ty: Ty, shape: HoistShape, total: int, trips: int, per: int)
    requires
        counted_run(trips, per) == total,
        trips_read(ty, shape, trips),
        per_read(ty, shape, per),
    ensures
        runs_as_read(ty, shape, total),
{
}

/// A ramp is a counted run.
proof fn lemma_ramp_is_a_run(start: int, n: nat)
    ensures
        ramp_sum(start, n) == counted_run(n as int, start),
    decreases n,
{
    if n > 0 {
        lemma_ramp_is_a_run(start, (n - 1) as nat);
        let m = n - 1;
        assert(ramp_sum(start, n) == ramp_sum(start, (n - 1) as nat) + start + m);
        let x = m * (m - 1);
        assert(n * (n - 1) == x + 2 * m) by (nonlinear_arith)
            requires
                m == n - 1,
                x == m * (m - 1),
        ;
        assert((x + 2 * m) / 2 == x / 2 + m);
        assert(n * start == m * start + start) by (nonlinear_arith)
            requires
                m == n - 1,
        ;
        assert(counted_run(m, start) == m * start + x / 2);
        assert(counted_run(n as int, start) == n * start + (x + 2 * m) / 2);
    } else {
        assert(counted_run(0, start) == 0);
    }
}

/// What a hoisting program prints is its loop run for every iteration its text says, each
/// adding the value the program declares for its invariant part and the counter: for every
/// type, and every shape but the nest and the one under pressure, whose laws follow.
pub proof fn lemma_hoist_total_is_the_loop_run(ty: Ty, shape: HoistShape)
    requires
        shape != HoistShape::OutOfANest,
        shape != HoistShape::UnderPressure,
    ensures
        runs_as_read(ty, shape, hoist_total(shape)),
{
    reveal_strlit("for (int ");
    reveal_strlit(" = 0; ");
    reveal_strlit(" < ");
    reveal_strlit("; ");
    reveal_strlit("++) {");
    reveal_strlit("i");
    reveal_strlit("for (int i = 0; i < 8; i++) {");
    reveal_strlit("static int cell = ");
    reveal_strlit("static int cell = 41;");
    reveal_strlit(";");
    reveal_strlit("static volatile int watched = ");
    reveal_strlit("static volatile int watched = 5;");
    reveal_with_fuel(crate::text::digits, 3);
    assert(decimal(8) =~= seq!['8']);
    assert(decimal(5) =~= seq!['5']);
    assert(decimal(41) =~= seq!['4', '1']);
    let top = hoist_top(ty, shape);
    let body = hoist_body(ty, shape);
    let header = counted_header(1, "i"@, 8);
    assert(eight_loop(ty)[1] =~= header);
    let cell = indent(1) + "static int cell = "@ + decimal(41) + ";"@;
    assert(indent(1) + "static int cell = 41;"@ =~= cell);
    match shape {
        HoistShape::GlobalLoad | HoistShape::GlobalLoadWritten => {
            lemma_ramp_is_a_run(3, 8);
            assert(body[4] == header);
            assert(top.last() == input_global(Ty::I32, "start"@, 3));
            lemma_runs_witness(ty, shape, hoist_total(shape), 8, 3);
            assert(runs_as_read(ty, shape, hoist_total(shape)));
        },
        HoistShape::LoadThatMayNotRun => {
            assert(top[0] == input_global(Ty::I32, "bound"@, 0));
            assert(body[2] == cell);
            lemma_runs_witness(ty, shape, hoist_total(shape), 0, 41);
            assert(runs_as_read(ty, shape, hoist_total(shape)));
        },
        HoistShape::LoadThatAlwaysRuns => {
            lemma_ramp_is_a_run(41, 8);
            assert(top[0] == input_global(Ty::I32, "bound"@, 8));
            assert(body[2] == cell);
            lemma_runs_witness(ty, shape, hoist_total(shape), 8, 41);
            assert(runs_as_read(ty, shape, hoist_total(shape)));
        },
        HoistShape::DivideAtTheBottom => {
            lemma_ramp_is_a_run(21, 8);
            assert(top[2] == input_global(Ty::I32, "bound"@, 8));
            assert(top[0] == input_global(ty, "top"@, 84));
            assert(top[1] == input_global(ty, "bottom"@, 4));
            assert(per_read(ty, shape, 21));
            lemma_runs_witness(ty, shape, hoist_total(shape), 8, 21);
            assert(runs_as_read(ty, shape, hoist_total(shape)));
        },
        HoistShape::DivideThatMayNotRun => {
            assert(top[2] == input_global(Ty::I32, "bound"@, 0));
            lemma_runs_witness(ty, shape, hoist_total(shape), 0, 0);
            assert(runs_as_read(ty, shape, hoist_total(shape)));
        },
        HoistShape::DivideUnderATest => {
            lemma_ramp_is_a_run(0, 8);
            assert(body[4] == header);
            assert(top[1] == input_global(ty, "bottom"@, 0));
            lemma_runs_witness(ty, shape, hoist_total(shape), 8, 0);
            assert(runs_as_read(ty, shape, hoist_total(shape)));
        },
        HoistShape::VolatileLoad => {
            lemma_ramp_is_a_run(5, 8);
            assert(body[2] == header);
            assert(top[0] =~= "static volatile int watched = "@ + decimal(5) + ";"@);
            lemma_runs_witness(ty, shape, hoist_total(shape), 8, 5);
            assert(runs_as_read(ty, shape, hoist_total(shape)));
        },
        HoistShape::AChainOfThree => {
            lemma_ramp_is_a_run(136, 8);
            assert(body[5] == header);
            assert(per_read(ty, shape, 136));
            lemma_runs_witness(ty, shape, hoist_total(shape), 8, 136);
            assert(runs_as_read(ty, shape, hoist_total(shape)));
        },
        HoistShape::AnArrayElement => {
            lemma_ramp_is_a_run(9, 8);
            assert(body[3] == header);
            assert(per_read(ty, shape, 9));
            lemma_runs_witness(ty, shape, hoist_total(shape), 8, 9);
            assert(runs_as_read(ty, shape, hoist_total(shape)));
        },
        HoistShape::ACallWithNothingInIt => {
            lemma_ramp_is_a_run(9, 8);
            assert(body[3] == header);
            assert(top[1] == "    return of * of;"@);
            assert(top[3] == input_global(Ty::I32, "a"@, 3));
            assert(per_read(ty, shape, 9));
            lemma_runs_witness(ty, shape, hoist_total(shape), 8, 9);
            assert(runs_as_read(ty, shape, hoist_total(shape)));
        },
        _ => {
            lemma_ramp_is_a_run(0, 8);
            assert(body[4] == header);
            lemma_runs_witness(ty, shape, hoist_total(shape), 8, 0);
            assert(runs_as_read(ty, shape, hoist_total(shape)));
        },
    }
}

/// What a nest of two counted loops adds when each inner iteration adds the same value and
/// both counters.
pub open spec fn nest_run(outer: int, inner: int, per: int) -> int {
    outer * inner * per + inner * (outer * (outer - 1) / 2) + outer * (inner * (inner - 1) / 2)
}

/// Whether a total is the nest's run as the nest shape's text reads: the two bounds from the
/// two headers, the value from the two inputs it multiplies.
pub open spec fn nest_as_read(ty: Ty, total: int) -> bool {
    exists|outer: int, inner: int, a: int, b: int|
        #[trigger] nest_run(outer, inner, a * b) == total && hoist_body(
            ty,
            HoistShape::OutOfANest,
        ).contains(counted_header(1, "o"@, outer)) && hoist_body(
            ty,
            HoistShape::OutOfANest,
        ).contains(counted_header(2, "i"@, inner)) && hoist_top(ty, HoistShape::OutOfANest)
            == seq![input_global(ty, "a"@, a), input_global(ty, "b"@, b)]
}

/// What the nest prints is the nest run for every iteration of both its loops, each adding the
/// product of its two inputs and both counters.
pub proof fn lemma_nest_total_is_the_nest_run(ty: Ty)
    ensures
        nest_as_read(ty, hoist_total(HoistShape::OutOfANest)),
{
    reveal_strlit("for (int ");
    reveal_strlit(" = 0; ");
    reveal_strlit(" < ");
    reveal_strlit("; ");
    reveal_strlit("++) {");
    reveal_strlit("i");
    reveal_strlit("o");
    reveal_strlit("for (int o = 0; o < 4; o++) {");
    reveal_strlit("for (int i = 0; i < 4; i++) {");
    assert(decimal(4) =~= seq!['4']);
    reveal_with_fuel(nest_sum, 5);
    reveal_with_fuel(ramp_sum, 5);
    let body = hoist_body(ty, HoistShape::OutOfANest);
    assert(body[4] =~= counted_header(1, "o"@, 4));
    assert(body[5] =~= counted_header(2, "i"@, 4));
    assert(nest_run(4, 4, 3int * 5) == 288);
    assert(hoist_total(HoistShape::OutOfANest) == 288);
    assert(nest_run(4, 4, 3int * 5) == hoist_total(HoistShape::OutOfANest));
}

/// What the pressure shape adds: eight accumulators, each a run from its own input, and the
/// first two inputs once more every iteration.
pub open spec fn pressure_run(trips: int, values: Seq<int>) -> int {
    counted_run(trips, values[0]) + counted_run(trips, values[1]) + counted_run(trips, values[2])
        + counted_run(trips, values[3]) + counted_run(trips, values[4]) + counted_run(
        trips,
        values[5],
    ) + counted_run(trips, values[6]) + counted_run(trips, values[7]) + trips * (values[0]
        + values[1])
}

/// Whether a total is the pressure shape's run as its text reads: the bound from the header,
/// the eight values from the eight inputs.
pub open spec fn pressure_as_read(ty: Ty, total: int) -> bool {
    exists|trips: int, values: Seq<int>|
        #[trigger] pressure_run(trips, values) == total && values.len() == 8 && hoist_body(
            ty,
            HoistShape::UnderPressure,
        ).contains(counted_header(1, "i"@, trips)) && hoist_top(ty, HoistShape::UnderPressure)
            == Seq::new(8, |k: int| input_global(ty, pressure_names()[k], values[k]))
}

/// What the pressure shape prints is its eight accumulators run for every iteration, each from
/// its own input, with the first two inputs added once more each iteration.
pub proof fn lemma_pressure_total_is_the_run(ty: Ty)
    ensures
        pressure_as_read(ty, hoist_total(HoistShape::UnderPressure)),
{
    reveal_strlit("for (int ");
    reveal_strlit(" = 0; ");
    reveal_strlit(" < ");
    reveal_strlit("; ");
    reveal_strlit("++) {");
    reveal_strlit("i");
    reveal_strlit("for (int i = 0; i < 8; i++) {");
    assert(decimal(8) =~= seq!['8']);
    reveal_with_fuel(pressure_sum, 9);
    reveal_with_fuel(ramp_sum, 9);
    let values = seq![1int, 2, 3, 4, 5, 6, 7, 8];
    let body = hoist_body(ty, HoistShape::UnderPressure);
    assert(body[18] =~= counted_header(1, "i"@, 8));
    assert(hoist_top(ty, HoistShape::UnderPressure) =~= Seq::new(
        8,
        |k: int| input_global(ty, pressure_names()[k], values[k]),
    ));
    assert(ramp_sum(1, 8) == 36);
    assert(ramp_sum(2, 8) == 44);
    assert(ramp_sum(3, 8) == 52);
    assert(ramp_sum(4, 8) == 60);
    assert(ramp_sum(5, 8) == 68);
    assert(ramp_sum(6, 8) == 76);
    assert(ramp_sum(7, 8) == 84);
    assert(ramp_sum(8, 8) == 92);
    assert(hoist_total(HoistShape::UnderPressure) == 536);
    assert(pressure_run(8, values) == 536);
}

/// Every hoisting total is small: no loop here adds more than a few hundred a time.
proof fn lemma_hoist_total_small(shape: HoistShape)
    ensures
        0 <= hoist_total(shape) <= 2000,
{
    reveal_with_fuel(ramp_sum, 9);
    reveal_with_fuel(nest_sum, 5);
    reveal_with_fuel(pressure_sum, 9);
    assert(ramp_sum(1, 8) == 36);
    assert(ramp_sum(2, 8) == 44);
    assert(ramp_sum(3, 8) == 52);
    assert(ramp_sum(4, 8) == 60);
    assert(ramp_sum(5, 8) == 68);
    assert(ramp_sum(6, 8) == 76);
    assert(ramp_sum(7, 8) == 84);
    assert(ramp_sum(8, 8) == 92);
}

/// Whether a case is the hoisting shape at a type, whole.
pub open spec fn is_hoist_case(c: Case, ty: Ty, shape: HoistShape) -> bool {
    &&& c.axes_text() == seq![("type"@, ty.name_text()), ("shape"@, shape.name_text())]
    &&& c.tags_text() == Seq::<Seq<char>>::empty()
    &&& is_hoisted(c.program, ty, shape)
}

/// The shapes that decide whether an invariant computation is allowed out of its loop.
///
/// Half of these fault rather than print the wrong answer if a compiler gets them wrong: a
/// division hoisted out of a loop that never runs divides by zero, and a load hoisted out of a
/// loop that never runs reads through a null pointer. The other half are the ones where the
/// output cannot tell and the compiler's own remark can, such as a volatile read that has to
/// happen every iteration. Every total fits every wide type, so every point has its case.
pub fn loop_hoist() -> (r: Vec<Case>)
    ensures
        r@.len() == 56,
        forall|k: int|
            0 <= k < 56 ==> is_hoist_case(#[trigger] r@[k], wide_types()[k / 14], hoist_shapes()[k % 14]),
{
    let types = wide();
    let shapes = [
        HoistShape::GlobalLoad,
        HoistShape::GlobalLoadWritten,
        HoistShape::LoadThatMayNotRun,
        HoistShape::LoadThatAlwaysRuns,
        HoistShape::DivideAtTheBottom,
        HoistShape::DivideThatMayNotRun,
        HoistShape::DivideUnderATest,
        HoistShape::VolatileLoad,
        HoistShape::AChainOfThree,
        HoistShape::OutOfANest,
        HoistShape::UnderPressure,
        HoistShape::AnArrayElement,
        HoistShape::ACallWithNothingInIt,
        HoistShape::AStoreOfSomethingInvariant,
    ];
    assert(shapes@ =~= hoist_shapes());
    let mut out: Vec<Case> = Vec::new();
    let mut k: usize = 0;
    while k < 56
        invariant
            k <= 56,
            types@ == wide_types(),
            shapes@ == hoist_shapes(),
            out@.len() == k,
            forall|i: int|
                0 <= i < k ==> is_hoist_case(#[trigger] out@[i], wide_types()[i / 14], hoist_shapes()[i % 14]),
        decreases 56 - k,
    {
        let ty = types[k / 14];
        let shape = shapes[k % 14];
        proof {
            lemma_hoist_total_small(shape);
        }
        let made = hoisted(ty, shape);
        match made {
            Some(program) => {
                let axes = vec![axis("type", ty.name()), axis("shape", shape.name())];
                let case = Case { axes, tags: tags_for(false), program };
                assert(case.axes_text() =~= seq![("type"@, ty.name_text()), ("shape"@, shape.name_text())]);
                out.push(case);
            },
            None => {
                assert(false);
            },
        }
        k += 1;
    }
    out
}

/// The shapes a loop has to be put into before anything else can work on it, and the header
/// copying that turns a `while` into a `do`.
#[derive(Clone, Copy, Debug, PartialEq, Eq, Structural)]
pub enum LoopShape {
    TwoExitsOneJoin,
    TwoLatches,
    HeaderManyPreds,
    LiveOutOnce,
    LiveOutTwice,
    LiveOutMultiExit,
    AlreadyCanonical,
    Irreducible,
    WhileToDoWhile,
    EntryProvable,
    EntryDisprovable,
    EntryUnknown,
    HeaderStore,
    HeaderOverSizeLimit,
    HeaderOverSpeedLimit,
    LiveOutFromHeader,
}

impl LoopShape {
    /// The axis value.
    pub open spec fn name_text(self) -> Seq<char> {
        match self {
            LoopShape::TwoExitsOneJoin => "two-exits-one-join"@,
            LoopShape::TwoLatches => "two-latches"@,
            LoopShape::HeaderManyPreds => "header-many-preds"@,
            LoopShape::LiveOutOnce => "live-out-once"@,
            LoopShape::LiveOutTwice => "live-out-twice"@,
            LoopShape::LiveOutMultiExit => "live-out-multi-exit"@,
            LoopShape::AlreadyCanonical => "already-canonical"@,
            LoopShape::Irreducible => "irreducible"@,
            LoopShape::WhileToDoWhile => "while-to-do-while"@,
            LoopShape::EntryProvable => "entry-provable"@,
            LoopShape::EntryDisprovable => "entry-disprovable"@,
            LoopShape::EntryUnknown => "entry-unknown"@,
            LoopShape::HeaderStore => "header-store"@,
            LoopShape::HeaderOverSizeLimit => "header-over-size-limit"@,
            LoopShape::HeaderOverSpeedLimit => "header-over-speed-limit"@,
            LoopShape::LiveOutFromHeader => "live-out-from-header"@,
        }
    }

    /// What the purpose line says after the type.
    pub open spec fn about_text(self) -> Seq<char> {
        match self {
            LoopShape::TwoExitsOneJoin => " loop with two exits that leave to one block"@,
            LoopShape::TwoLatches => " loop whose `continue` gives it a second back edge"@,
            LoopShape::HeaderManyPreds => " loop two blocks outside it jump into"@,
            LoopShape::LiveOutOnce => " loop whose counter is read once afterwards"@,
            LoopShape::LiveOutTwice => " loop whose counter is read twice afterwards"@,
            LoopShape::LiveOutMultiExit => " loop read afterwards that leaves two ways"@,
            LoopShape::AlreadyCanonical => " loop that is already in all five shapes"@,
            LoopShape::Irreducible => " cycle of two blocks entered at both of them"@,
            LoopShape::WhileToDoWhile => " `while` loop, which should end up a `do`"@,
            LoopShape::EntryProvable => " loop the ranges can prove runs at least once"@,
            LoopShape::EntryDisprovable => " loop the ranges can prove never runs"@,
            LoopShape::EntryUnknown => " loop whose entry test the ranges cannot settle"@,
            LoopShape::HeaderStore => " loop whose test writes to memory"@,
            LoopShape::HeaderOverSizeLimit => " loop header over the -Os limit of five"@,
            LoopShape::HeaderOverSpeedLimit => " loop header over the -O1 limit of twenty"@,
            LoopShape::LiveOutFromHeader => " loop whose header defines a value read after the loop"@,
        }
    }

    /// The axis value.
    pub fn name(self) -> (r: &'static str)
        ensures
            r@ == self.name_text(),
    {
        match self {
            LoopShape::TwoExitsOneJoin => "two-exits-one-join",
            LoopShape::TwoLatches => "two-latches",
            LoopShape::HeaderManyPreds => "header-many-preds",
            LoopShape::LiveOutOnce => "live-out-once",
            LoopShape::LiveOutTwice => "live-out-twice",
            LoopShape::LiveOutMultiExit => "live-out-multi-exit",
            LoopShape::AlreadyCanonical => "already-canonical",
            LoopShape::Irreducible => "irreducible",
            LoopShape::WhileToDoWhile => "while-to-do-while",
            LoopShape::EntryProvable => "entry-provable",
            LoopShape::EntryDisprovable => "entry-disprovable",
            LoopShape::EntryUnknown => "entry-unknown",
            LoopShape::HeaderStore => "header-store",
            LoopShape::HeaderOverSizeLimit => "header-over-size-limit",
            LoopShape::HeaderOverSpeedLimit => "header-over-speed-limit",
            LoopShape::LiveOutFromHeader => "live-out-from-header",
        }
    }

    /// What the purpose line says after the type.
    pub fn about(self) -> (r: &'static str)
        ensures
            r@ == self.about_text(),
    {
        match self {
            LoopShape::TwoExitsOneJoin => " loop with two exits that leave to one block",
            LoopShape::TwoLatches => " loop whose `continue` gives it a second back edge",
            LoopShape::HeaderManyPreds => " loop two blocks outside it jump into",
            LoopShape::LiveOutOnce => " loop whose counter is read once afterwards",
            LoopShape::LiveOutTwice => " loop whose counter is read twice afterwards",
            LoopShape::LiveOutMultiExit => " loop read afterwards that leaves two ways",
            LoopShape::AlreadyCanonical => " loop that is already in all five shapes",
            LoopShape::Irreducible => " cycle of two blocks entered at both of them",
            LoopShape::WhileToDoWhile => " `while` loop, which should end up a `do`",
            LoopShape::EntryProvable => " loop the ranges can prove runs at least once",
            LoopShape::EntryDisprovable => " loop the ranges can prove never runs",
            LoopShape::EntryUnknown => " loop whose entry test the ranges cannot settle",
            LoopShape::HeaderStore => " loop whose test writes to memory",
            LoopShape::HeaderOverSizeLimit => " loop header over the -Os limit of five",
            LoopShape::HeaderOverSpeedLimit => " loop header over the -O1 limit of twenty",
            LoopShape::LiveOutFromHeader => " loop whose header defines a value read after the loop",
        }
    }
}

/// The shapes in the order the facet walks them.
pub open spec fn loop_shapes() -> Seq<LoopShape> {
    seq![
        LoopShape::TwoExitsOneJoin,
        LoopShape::TwoLatches,
        LoopShape::HeaderManyPreds,
        LoopShape::LiveOutOnce,
        LoopShape::LiveOutTwice,
        LoopShape::LiveOutMultiExit,
        LoopShape::AlreadyCanonical,
        LoopShape::Irreducible,
        LoopShape::WhileToDoWhile,
        LoopShape::EntryProvable,
        LoopShape::EntryDisprovable,
        LoopShape::EntryUnknown,
        LoopShape::HeaderStore,
        LoopShape::HeaderOverSizeLimit,
        LoopShape::HeaderOverSpeedLimit,
        LoopShape::LiveOutFromHeader,
    ]
}

/// The purpose line of a loop shape.
pub open spec fn shape_purpose(ty: Ty, shape: LoopShape) -> Seq<char> {
    (if shape == LoopShape::WhileToDoWhile {
        "a plain "@
    } else {
        "a "@
    }) + ty.c_text() + shape.about_text()
}

/// The sum the header of an over-the-limit shape tests: `(i ^ 1) + ... + (i ^ terms)`.
pub open spec fn xor_sum(i: u64, terms: nat) -> int
    decreases terms,
{
    if terms == 0 {
        0
    } else {
        xor_sum(i, (terms - 1) as nat) + (i ^ (terms as u64)) as int
    }
}

/// The first counter value from `i` whose header sum reaches the bound, searched as far as
/// sixty four, which is far past where any header here stops.
pub open spec fn xor_trips(terms: nat, bound: int, i: u64) -> u64
    decreases 64 - i,
{
    if i >= 64 || xor_sum(i, terms) >= bound {
        i
    } else {
        xor_trips(terms, bound, (i + 1) as u64)
    }
}

/// How many terms the header of an over-the-limit shape has.
pub open spec fn header_terms(shape: LoopShape) -> nat {
    if shape == LoopShape::HeaderOverSizeLimit {
        3
    } else {
        11
    }
}

/// The bound an over-the-limit shape reads: four past what its header sums to at the start.
pub open spec fn header_bound(shape: LoopShape) -> int {
    xor_sum(0, header_terms(shape)) + 4
}

/// The terms of an over-the-limit header, joined with a plus.
pub open spec fn header_text(terms: nat) -> Seq<char>
    decreases terms,
{
    if terms == 0 {
        Seq::empty()
    } else if terms == 1 {
        "(i ^ 1)"@
    } else {
        header_text((terms - 1) as nat) + " + (i ^ "@ + decimal(terms as int) + ")"@
    }
}

/// What the two-latch loop adds over its first `n` iterations.
pub open spec fn latch_sum(n: nat) -> int
    decreases n,
{
    if n == 0 {
        0
    } else {
        let at = n - 1;
        latch_sum((n - 1) as nat) + if at % 3 == 0 {
            1int
        } else if at % 3 == 1 {
            12
        } else {
            13
        }
    }
}

/// What the irreducible cycle adds over its first `n` steps: the counter on the even block
/// and twice it on the odd one.
pub open spec fn cycle_sum(n: nat) -> int
    decreases n,
{
    if n == 0 {
        0
    } else {
        let at = n - 1;
        cycle_sum((n - 1) as nat) + if at % 2 == 0 {
            at
        } else {
            2 * at
        }
    }
}

/// What the loop whose header defines a value adds: every multiple of three below twenty.
pub open spec fn thirds_sum(n: nat) -> int
    decreases n,
{
    if n == 0 {
        0
    } else {
        thirds_sum((n - 1) as nat) + 3 * (n - 1)
    }
}

/// What a loop shape adds up to.
pub open spec fn shape_total(shape: LoopShape) -> int {
    match shape {
        LoopShape::TwoExitsOneJoin => ramp_sum(0, 5),
        LoopShape::TwoLatches => latch_sum(12),
        LoopShape::HeaderManyPreds | LoopShape::AlreadyCanonical => ramp_sum(0, 8),
        LoopShape::LiveOutOnce | LoopShape::LiveOutTwice | LoopShape::WhileToDoWhile => ramp_sum(
            0,
            10,
        ),
        LoopShape::LiveOutMultiExit => ramp_sum(0, 6),
        LoopShape::Irreducible => cycle_sum(8),
        LoopShape::EntryProvable => ramp_sum(0, (13nat % 8 + 1) as nat),
        LoopShape::EntryDisprovable => 0,
        LoopShape::EntryUnknown => ramp_sum(0, 9),
        LoopShape::HeaderStore => ramp_sum(1, 7),
        LoopShape::HeaderOverSizeLimit | LoopShape::HeaderOverSpeedLimit => ramp_sum(
            0,
            xor_trips(header_terms(shape), header_bound(shape), 0) as nat,
        ),
        LoopShape::LiveOutFromHeader => thirds_sum(7),
    }
}

/// The checks a loop shape makes before the one on its total.
pub open spec fn shape_checks(shape: LoopShape) -> Seq<int> {
    match shape {
        LoopShape::LiveOutOnce => seq![10],
        LoopShape::LiveOutTwice => seq![10, 20],
        LoopShape::LiveOutMultiExit => seq![6],
        LoopShape::LiveOutFromHeader => seq![21],
        _ => Seq::empty(),
    }
}

/// The lines before `main` of a loop shape.
pub open spec fn shape_top(shape: LoopShape) -> Seq<Seq<char>> {
    match shape {
        LoopShape::TwoExitsOneJoin => seq![
            input_global(Ty::I32, "first"@, 5),
            input_global(Ty::I32, "second"@, 9),
        ],
        LoopShape::TwoLatches => Seq::empty(),
        LoopShape::HeaderManyPreds => seq![input_global(Ty::I32, "which"@, 1)],
        LoopShape::LiveOutOnce | LoopShape::LiveOutTwice | LoopShape::WhileToDoWhile => seq![
            input_global(Ty::I32, "bound"@, 10),
        ],
        LoopShape::LiveOutMultiExit => seq![
            input_global(Ty::I32, "bound"@, 10),
            input_global(Ty::I32, "stop"@, 6),
        ],
        LoopShape::AlreadyCanonical => seq![input_global(Ty::I32, "bound"@, 8)],
        LoopShape::Irreducible => seq![input_global(Ty::I32, "start_odd"@, 0)],
        LoopShape::EntryProvable | LoopShape::EntryDisprovable => seq![
            input_global(Ty::U32, "seed"@, 13),
        ],
        LoopShape::EntryUnknown => seq![input_global(Ty::U32, "bound"@, 9)],
        LoopShape::HeaderStore => seq![
            "static int counter;"@,
            Seq::<char>::empty(),
            "static int step(void) {"@,
            "    counter++;"@,
            "    return counter < 8;"@,
            "}"@,
        ],
        LoopShape::HeaderOverSizeLimit | LoopShape::HeaderOverSpeedLimit => seq![
            input_global(Ty::I32, "bound"@, header_bound(shape)),
        ],
        LoopShape::LiveOutFromHeader => seq![input_global(Ty::I32, "bound"@, 20)],
    }
}

/// The `main` of a loop shape, up to the check on the total.
pub open spec fn shape_body(ty: Ty, shape: LoopShape) -> Seq<Seq<char>> {
    let c = ty.c_text();
    let i1 = indent(1);
    let i2 = indent(2);
    let i3 = indent(3);
    let e = Seq::<char>::empty();
    let total = i1 + c + " total = 0;"@;
    let add_i = i2 + "total += ("@ + c + ")i;"@;
    match shape {
        LoopShape::TwoExitsOneJoin => seq![
            input_read(Ty::I32, "first"@),
            input_read(Ty::I32, "second"@),
            e,
            total,
            i1 + "for (int i = 0; i < 16; i++) {"@,
            i2 + "if (i == first) break;"@,
            i2 + "if (i == second) break;"@,
            add_i,
            i1 + "}"@,
        ],
        LoopShape::TwoLatches => seq![
            total,
            i1 + "for (int i = 0; i < 12; i++) {"@,
            i2 + "switch (i % 3) {"@,
            i2 + "case 0:"@,
            i3 + "total += 1;"@,
            i3 + "continue;"@,
            i2 + "case 1:"@,
            i3 + "total += 2;"@,
            i3 + "break;"@,
            i2 + "default:"@,
            i3 + "total += 3;"@,
            i3 + "break;"@,
            i2 + "}"@,
            i2 + "total += 10;"@,
            i1 + "}"@,
        ],
        LoopShape::HeaderManyPreds => seq![
            input_read(Ty::I32, "which"@),
            e,
            total,
            i1 + "int i = 0;"@,
            i1 + "if (which) goto top;"@,
            i1 + "total += 1;"@,
            i1 + "goto top;"@,
            i1 + "top:"@,
            i1 + "while (i < 8) {"@,
            add_i,
            i2 + "i++;"@,
            i1 + "}"@,
        ],
        LoopShape::LiveOutOnce | LoopShape::LiveOutTwice => seq![
            input_read(Ty::I32, "bound"@),
            e,
            total,
            i1 + "int i;"@,
            i1 + "for (i = 0; i < bound; i++) {"@,
            add_i,
            i1 + "}"@,
            e,
            print_line(1, Ty::I32, "i"@),
        ] + if shape == LoopShape::LiveOutTwice {
            seq![print_line(1, Ty::I32, "i * 2"@)]
        } else {
            Seq::empty()
        },
        LoopShape::LiveOutMultiExit => seq![
            input_read(Ty::I32, "bound"@),
            input_read(Ty::I32, "stop"@),
            e,
            total,
            i1 + "int i;"@,
            i1 + "for (i = 0; i < bound; i++) {"@,
            i2 + "if (i == stop) break;"@,
            add_i,
            i1 + "}"@,
            e,
            print_line(1, Ty::I32, "i"@),
        ],
        LoopShape::AlreadyCanonical => seq![
            input_read(Ty::I32, "bound"@),
            e,
            total,
            i1 + "int i = 0;"@,
            i1 + "if (0 < bound) {"@,
            i2 + "do {"@,
            i3 + "total += ("@ + c + ")i;"@,
            i3 + "i++;"@,
            i2 + "} while (i < bound);"@,
            i1 + "}"@,
        ],
        LoopShape::Irreducible => seq![
            input_read(Ty::I32, "start_odd"@),
            e,
            total,
            i1 + "int i = 0;"@,
            i1 + "if (start_odd) goto odd;"@,
            i1 + "even:"@,
            i1 + "if (i >= 8) goto done;"@,
            i1 + "total += ("@ + c + ")i;"@,
            i1 + "i++;"@,
            i1 + "goto odd;"@,
            i1 + "odd:"@,
            i1 + "if (i >= 8) goto done;"@,
            i1 + "total += ("@ + c + ")(2 * i);"@,
            i1 + "i++;"@,
            i1 + "goto even;"@,
            i1 + "done:;"@,
        ],
        LoopShape::WhileToDoWhile => seq![
            input_read(Ty::I32, "bound"@),
            e,
            total,
            i1 + "int i = 0;"@,
            i1 + "while (i < bound) {"@,
            add_i,
            i2 + "i++;"@,
            i1 + "}"@,
        ],
        LoopShape::EntryProvable => seq![
            input_read(Ty::U32, "seed"@),
            e,
            i1 + "unsigned bound = seed % 8u + 1u;"@,
            total,
            i1 + "unsigned i = 0;"@,
            i1 + "while (i < bound) {"@,
            add_i,
            i2 + "i++;"@,
            i1 + "}"@,
        ],
        LoopShape::EntryDisprovable => seq![
            input_read(Ty::U32, "seed"@),
            e,
            i1 + "unsigned bound = seed % 4u;"@,
            total,
            i1 + "unsigned i = 8;"@,
            i1 + "while (i < bound) {"@,
            add_i,
            i2 + "i++;"@,
            i1 + "}"@,
        ],
        LoopShape::EntryUnknown => seq![
            input_read(Ty::U32, "bound"@),
            e,
            total,
            i1 + "unsigned i = 0;"@,
            i1 + "while (i < bound) {"@,
            add_i,
            i2 + "i++;"@,
            i1 + "}"@,
        ],
        LoopShape::HeaderStore => seq![
            total,
            i1 + "while (step()) {"@,
            i2 + "total += ("@ + c + ")counter;"@,
            i1 + "}"@,
        ],
        LoopShape::HeaderOverSizeLimit | LoopShape::HeaderOverSpeedLimit => seq![
            input_read(Ty::I32, "bound"@),
            e,
            total,
            i1 + "int i = 0;"@,
            i1 + "while ("@ + header_text(header_terms(shape)) + " < bound) {"@,
            add_i,
            i2 + "i++;"@,
            i1 + "}"@,
        ],
        LoopShape::LiveOutFromHeader => seq![
            input_read(Ty::I32, "bound"@),
            e,
            total,
            i1 + "int i = 0;"@,
            i1 + "int last = 0;"@,
            i1 + "while ((last = i * 3) < bound) {"@,
            i2 + "total += ("@ + c + ")last;"@,
            i2 + "i++;"@,
            i1 + "}"@,
            e,
            print_line(1, Ty::I32, "last"@),
        ],
    }
}

/// Whether a program is the loop shape at a type, whole.
pub open spec fn is_shaped(p: Program, ty: Ty, shape: LoopShape) -> bool {
    &&& p.purpose_text() == shape_purpose(ty, shape)
    &&& p.include_lines() == Seq::<Seq<char>>::empty()
    &&& p.top_lines() == shape_top(shape)
    &&& p.body_lines() == shape_body(ty, shape) + seq![
        Seq::<char>::empty(),
        print_line(1, ty.promotion(), "total"@),
    ]
    &&& p.expected_values() == shape_checks(shape).push(shape_total(shape))
    &&& !p.sinks()
}

/// The header sum of an over-the-limit shape, for a counter below sixty four.
fn xor_total(i: u64, terms: u64) -> (r: i128)
    requires
        i < 64,
        terms <= 64,
    ensures
        r == xor_sum(i, terms as nat),
        0 <= r <= 128 * terms,
{
    let mut total: i128 = 0;
    let mut k: u64 = 0;
    while k < terms
        invariant
            k <= terms <= 64,
            i < 64,
            total == xor_sum(i, k as nat),
            0 <= total <= 128 * k,
        decreases terms - k,
    {
        k += 1;
        let term = i ^ k;
        assert(term < 128) by (bit_vector)
            requires
                term == i ^ k,
                i < 64,
                k <= 64,
        ;
        total = total + term as i128;
    }
    total
}

/// The trip count of an over-the-limit shape, searched the way the program's header runs.
fn header_trips(terms: u64, bound: i128) -> (r: u64)
    requires
        terms <= 64,
    ensures
        r == xor_trips(terms as nat, bound as int, 0),
        r <= 64,
{
    let mut i: u64 = 0;
    while i < 64 && xor_total(i, terms) < bound
        invariant
            i <= 64,
            terms <= 64,
            xor_trips(terms as nat, bound as int, 0) == xor_trips(terms as nat, bound as int, i),
        decreases 64 - i,
    {
        i += 1;
    }
    i
}

/// The header of an over-the-limit shape.
fn header_line(terms: u64) -> (r: String)
    requires
        1 <= terms <= 64,
    ensures
        r@ == header_text(terms as nat),
{
    let mut r = String::from_str("(i ^ 1)");
    let mut k: u64 = 1;
    while k < terms
        invariant
            1 <= k <= terms <= 64,
            r@ == header_text(k as nat),
        decreases terms - k,
    {
        k += 1;
        r.append(" + (i ^ ");
        push_decimal(&mut r, k as i128);
        r.append(")");
    }
    r
}

/// What a loop shape adds up to, worked out the way the loop works it out.
fn shape_sum(shape: LoopShape) -> (r: i128)
    ensures
        r == shape_total(shape),
        0 <= r <= 100_000,
{
    proof {
        reveal_with_fuel(ramp_sum, 11);
    }
    match shape {
        LoopShape::TwoExitsOneJoin => ramp(0, 5),
        LoopShape::TwoLatches => {
            let mut total: i128 = 0;
            let mut at: i128 = 0;
            while at < 12
                invariant
                    0 <= at <= 12,
                    total == latch_sum(at as nat),
                    0 <= total <= 13 * at,
                decreases 12 - at,
            {
                total = total + if at % 3 == 0 {
                    1
                } else if at % 3 == 1 {
                    12
                } else {
                    13
                };
                at += 1;
            }
            total
        },
        LoopShape::HeaderManyPreds | LoopShape::AlreadyCanonical => ramp(0, 8),
        LoopShape::LiveOutOnce | LoopShape::LiveOutTwice | LoopShape::WhileToDoWhile => ramp(0, 10),
        LoopShape::LiveOutMultiExit => ramp(0, 6),
        LoopShape::Irreducible => {
            let mut total: i128 = 0;
            let mut at: i128 = 0;
            while at < 8
                invariant
                    0 <= at <= 8,
                    total == cycle_sum(at as nat),
                    0 <= total <= 16 * at,
                decreases 8 - at,
            {
                total = total + if at % 2 == 0 {
                    at
                } else {
                    2 * at
                };
                at += 1;
            }
            total
        },
        LoopShape::EntryProvable => {
            let bound: i128 = 13 % 8 + 1;
            ramp(0, bound)
        },
        LoopShape::EntryDisprovable => 0,
        LoopShape::EntryUnknown => ramp(0, 9),
        LoopShape::HeaderStore => ramp(1, 7),
        LoopShape::HeaderOverSizeLimit | LoopShape::HeaderOverSpeedLimit => {
            let terms: u64 = if shape == LoopShape::HeaderOverSizeLimit { 3 } else { 11 };
            let bound = xor_total(0, terms) + 4;
            let trips = header_trips(terms, bound);
            ramp(0, trips as i128)
        },
        LoopShape::LiveOutFromHeader => {
            let mut total: i128 = 0;
            let mut i: i128 = 0;
            while i * 3 < 20
                invariant
                    0 <= i <= 7,
                    total == thirds_sum(i as nat),
                    0 <= total <= 18 * i,
                decreases 7 - i,
            {
                total = total + i * 3;
                i += 1;
            }
            assert(i == 7);
            total
        },
    }
}

/// Writes the loop shapes about exits, latches and what is read afterwards.
fn shape_write_exits(program: &mut Program, ty: Ty, shape: LoopShape)
    requires
        old(program).top_lines() == Seq::<Seq<char>>::empty(),
        old(program).body_lines() == Seq::<Seq<char>>::empty(),
        old(program).expected_values() == Seq::<int>::empty(),
        old(program).include_lines() == Seq::<Seq<char>>::empty(),
        !old(program).sinks(),
        shape == LoopShape::TwoExitsOneJoin || shape == LoopShape::TwoLatches || shape
            == LoopShape::HeaderManyPreds || shape == LoopShape::LiveOutOnce || shape
            == LoopShape::LiveOutTwice || shape == LoopShape::LiveOutMultiExit,
    ensures
        final(program).top_lines() == shape_top(shape),
        final(program).body_lines() == shape_body(ty, shape),
        final(program).expected_values() == shape_checks(shape),
        final(program).purpose_text() == old(program).purpose_text(),
        final(program).include_lines() == Seq::<Seq<char>>::empty(),
        !final(program).sinks(),
{
    let c = ty.c_name();
    match shape {
        LoopShape::TwoExitsOneJoin => {
            program.input(Ty::I32, "first", 5);
            program.input(Ty::I32, "second", 9);
            program.blank();
            push_total(program, ty);
            program.line("for (int i = 0; i < 16; i++) {");
            program.line_at(1, "if (i == first) break;");
            program.line_at(1, "if (i == second) break;");
            line_at3(program, 1, "total += (", c, ")i;");
            program.line("}");
        },
        LoopShape::TwoLatches => {
            push_total(program, ty);
            program.line("for (int i = 0; i < 12; i++) {");
            program.line_at(1, "switch (i % 3) {");
            program.line_at(1, "case 0:");
            program.line_at(2, "total += 1;");
            program.line_at(2, "continue;");
            program.line_at(1, "case 1:");
            program.line_at(2, "total += 2;");
            program.line_at(2, "break;");
            program.line_at(1, "default:");
            program.line_at(2, "total += 3;");
            program.line_at(2, "break;");
            program.line_at(1, "}");
            program.line_at(1, "total += 10;");
            program.line("}");
        },
        LoopShape::HeaderManyPreds => {
            program.input(Ty::I32, "which", 1);
            program.blank();
            push_total(program, ty);
            program.line("int i = 0;");
            program.line("if (which) goto top;");
            program.line("total += 1;");
            program.line("goto top;");
            program.line("top:");
            program.line("while (i < 8) {");
            line_at3(program, 1, "total += (", c, ")i;");
            program.line_at(1, "i++;");
            program.line("}");
        },
        LoopShape::LiveOutOnce | LoopShape::LiveOutTwice => {
            program.input(Ty::I32, "bound", 10);
            program.blank();
            push_total(program, ty);
            program.line("int i;");
            program.line("for (i = 0; i < bound; i++) {");
            line_at3(program, 1, "total += (", c, ")i;");
            program.line("}");
            program.blank();
            program.check(Ty::I32, "i", 10);
            if shape == LoopShape::LiveOutTwice {
                program.check(Ty::I32, "i * 2", 20);
            }
        },
        _ => {
            program.input(Ty::I32, "bound", 10);
            program.input(Ty::I32, "stop", 6);
            program.blank();
            push_total(program, ty);
            program.line("int i;");
            program.line("for (i = 0; i < bound; i++) {");
            program.line_at(1, "if (i == stop) break;");
            line_at3(program, 1, "total += (", c, ")i;");
            program.line("}");
            program.blank();
            program.check(Ty::I32, "i", 6);
        },
    }
    assert(program.top_lines() =~~= shape_top(shape));
    assert(program.body_lines() =~~= shape_body(ty, shape));
    assert(program.expected_values() =~= shape_checks(shape));
}

/// Writes the loop shapes about how a loop is entered.
fn shape_write_entries(program: &mut Program, ty: Ty, shape: LoopShape)
    requires
        old(program).top_lines() == Seq::<Seq<char>>::empty(),
        old(program).body_lines() == Seq::<Seq<char>>::empty(),
        old(program).expected_values() == Seq::<int>::empty(),
        old(program).include_lines() == Seq::<Seq<char>>::empty(),
        !old(program).sinks(),
        shape == LoopShape::AlreadyCanonical || shape == LoopShape::Irreducible || shape
            == LoopShape::WhileToDoWhile || shape == LoopShape::EntryProvable || shape
            == LoopShape::EntryDisprovable || shape == LoopShape::EntryUnknown,
    ensures
        final(program).top_lines() == shape_top(shape),
        final(program).body_lines() == shape_body(ty, shape),
        final(program).expected_values() == shape_checks(shape),
        final(program).purpose_text() == old(program).purpose_text(),
        final(program).include_lines() == Seq::<Seq<char>>::empty(),
        !final(program).sinks(),
{
    let c = ty.c_name();
    match shape {
        LoopShape::AlreadyCanonical => {
            program.input(Ty::I32, "bound", 8);
            program.blank();
            push_total(program, ty);
            program.line("int i = 0;");
            program.line("if (0 < bound) {");
            program.line_at(1, "do {");
            line_at3(program, 2, "total += (", c, ")i;");
            program.line_at(2, "i++;");
            program.line_at(1, "} while (i < bound);");
            program.line("}");
        },
        LoopShape::Irreducible => {
            program.input(Ty::I32, "start_odd", 0);
            program.blank();
            push_total(program, ty);
            program.line("int i = 0;");
            program.line("if (start_odd) goto odd;");
            program.line("even:");
            program.line("if (i >= 8) goto done;");
            line3(program, "total += (", c, ")i;");
            program.line("i++;");
            program.line("goto odd;");
            program.line("odd:");
            program.line("if (i >= 8) goto done;");
            line3(program, "total += (", c, ")(2 * i);");
            program.line("i++;");
            program.line("goto even;");
            program.line("done:;");
        },
        LoopShape::WhileToDoWhile => {
            program.input(Ty::I32, "bound", 10);
            program.blank();
            push_total(program, ty);
            program.line("int i = 0;");
            program.line("while (i < bound) {");
            line_at3(program, 1, "total += (", c, ")i;");
            program.line_at(1, "i++;");
            program.line("}");
        },
        LoopShape::EntryProvable => {
            program.input(Ty::U32, "seed", 13);
            program.blank();
            program.line("unsigned bound = seed % 8u + 1u;");
            push_total(program, ty);
            program.line("unsigned i = 0;");
            program.line("while (i < bound) {");
            line_at3(program, 1, "total += (", c, ")i;");
            program.line_at(1, "i++;");
            program.line("}");
        },
        LoopShape::EntryDisprovable => {
            program.input(Ty::U32, "seed", 13);
            program.blank();
            program.line("unsigned bound = seed % 4u;");
            push_total(program, ty);
            program.line("unsigned i = 8;");
            program.line("while (i < bound) {");
            line_at3(program, 1, "total += (", c, ")i;");
            program.line_at(1, "i++;");
            program.line("}");
        },
        _ => {
            program.input(Ty::U32, "bound", 9);
            program.blank();
            push_total(program, ty);
            program.line("unsigned i = 0;");
            program.line("while (i < bound) {");
            line_at3(program, 1, "total += (", c, ")i;");
            program.line_at(1, "i++;");
            program.line("}");
        },
    }
    assert(program.top_lines() =~~= shape_top(shape));
    assert(program.body_lines() =~~= shape_body(ty, shape));
    assert(program.expected_values() =~= shape_checks(shape));
}

/// Writes the loop shapes about what the header does.
fn shape_write_headers(program: &mut Program, ty: Ty, shape: LoopShape)
    requires
        old(program).top_lines() == Seq::<Seq<char>>::empty(),
        old(program).body_lines() == Seq::<Seq<char>>::empty(),
        old(program).expected_values() == Seq::<int>::empty(),
        old(program).include_lines() == Seq::<Seq<char>>::empty(),
        !old(program).sinks(),
        shape == LoopShape::HeaderStore || shape == LoopShape::HeaderOverSizeLimit || shape
            == LoopShape::HeaderOverSpeedLimit || shape == LoopShape::LiveOutFromHeader,
    ensures
        final(program).top_lines() == shape_top(shape),
        final(program).body_lines() == shape_body(ty, shape),
        final(program).expected_values() == shape_checks(shape),
        final(program).purpose_text() == old(program).purpose_text(),
        final(program).include_lines() == Seq::<Seq<char>>::empty(),
        !final(program).sinks(),
{
    let c = ty.c_name();
    match shape {
        LoopShape::HeaderStore => {
            program.top("static int counter;");
            program.top("");
            program.top("static int step(void) {");
            program.top("    counter++;");
            program.top("    return counter < 8;");
            program.top("}");
            push_total(program, ty);
            program.line("while (step()) {");
            line_at3(program, 1, "total += (", c, ")counter;");
            program.line("}");
            proof {
                reveal_strlit("");
            }
        },
        LoopShape::HeaderOverSizeLimit | LoopShape::HeaderOverSpeedLimit => {
            let terms: u64 = if shape == LoopShape::HeaderOverSizeLimit { 3 } else { 11 };
            let bound = xor_total(0, terms) + 4;
            program.input(Ty::I32, "bound", bound);
            program.blank();
            push_total(program, ty);
            program.line("int i = 0;");
            let header = header_line(terms);
            line3(program, "while (", header.as_str(), " < bound) {");
            line_at3(program, 1, "total += (", c, ")i;");
            program.line_at(1, "i++;");
            program.line("}");
        },
        _ => {
            program.input(Ty::I32, "bound", 20);
            program.blank();
            push_total(program, ty);
            program.line("int i = 0;");
            program.line("int last = 0;");
            program.line("while ((last = i * 3) < bound) {");
            line_at3(program, 1, "total += (", c, ")last;");
            program.line_at(1, "i++;");
            program.line("}");
            program.blank();
            program.check(Ty::I32, "last", 21);
        },
    }
    assert(program.top_lines() =~~= shape_top(shape));
    assert(program.body_lines() =~~= shape_body(ty, shape));
    assert(program.expected_values() =~= shape_checks(shape));
}

/// The purpose line of a loop shape.
fn shape_purpose_text(ty: Ty, shape: LoopShape) -> (r: String)
    ensures
        r@ == shape_purpose(ty, shape),
{
    text3(if shape == LoopShape::WhileToDoWhile { "a plain " } else { "a " }, ty.c_name(), shape.about())
}

/// The program for one loop shape, or nothing when the answer will not fit the accumulator.
///
/// The shapes share one frame, a loop that accumulates and a check afterwards, and differ in a
/// handful of lines. The bound is an input wherever the point of the shape is that the compiler
/// cannot see the trip count, and where the point is that the ranges can see it, the case still
/// reads an input and narrows it with arithmetic, because a literal would be settled by constant
/// folding long before the ranges were asked.
pub fn shaped(ty: Ty, shape: LoopShape) -> (r: Option<Program>)
    ensures
        r is Some <==> ty.promotion().contains(shape_total(shape)),
        r matches Some(p) ==> is_shaped(p, ty, shape),
{
    let purpose = shape_purpose_text(ty, shape);
    let mut program = Program::new(purpose.as_str());
    match shape {
        LoopShape::TwoExitsOneJoin | LoopShape::TwoLatches | LoopShape::HeaderManyPreds
        | LoopShape::LiveOutOnce | LoopShape::LiveOutTwice | LoopShape::LiveOutMultiExit => {
            shape_write_exits(&mut program, ty, shape);
        },
        LoopShape::AlreadyCanonical | LoopShape::Irreducible | LoopShape::WhileToDoWhile
        | LoopShape::EntryProvable | LoopShape::EntryDisprovable | LoopShape::EntryUnknown => {
            shape_write_entries(&mut program, ty, shape);
        },
        _ => {
            shape_write_headers(&mut program, ty, shape);
        },
    }
    let total = shape_sum(shape);
    if !fits(ty, total) {
        return None;
    }
    program.blank();
    program.check(ty.promoted(), "total", total);
    assert(program.body_lines() =~= shape_body(ty, shape) + seq![
        Seq::<char>::empty(),
        print_line(1, ty.promotion(), "total"@),
    ]);
    Some(program)
}

/// Whether a case is the loop shape at a type, whole.
pub open spec fn is_shape_case(c: Case, ty: Ty, shape: LoopShape) -> bool {
    &&& c.axes_text() == seq![("type"@, ty.name_text()), ("shape"@, shape.name_text())]
    &&& c.tags_text() == Seq::<Seq<char>>::empty()
    &&& is_shaped(c.program, ty, shape)
}

/// The shapes a loop has to be put into, and the header copying that turns a `while` into a
/// `do`.
///
/// Every other loop case prints the right number whatever shape the loop came out in, and that
/// is the gap these fill: they still print a number the generator worked out, and they are the
/// programs to point a compiler's remarks at. The first eight are canonicalization and the last
/// eight are header copying, including a loop the ranges can prove never runs and headers over
/// either size limit.
pub fn loop_shape() -> (r: Vec<Case>)
    ensures
        r@.len() == 64,
        forall|k: int|
            0 <= k < 64 ==> is_shape_case(#[trigger] r@[k], wide_types()[k / 16], loop_shapes()[k % 16]),
{
    let types = wide();
    let shapes = [
        LoopShape::TwoExitsOneJoin,
        LoopShape::TwoLatches,
        LoopShape::HeaderManyPreds,
        LoopShape::LiveOutOnce,
        LoopShape::LiveOutTwice,
        LoopShape::LiveOutMultiExit,
        LoopShape::AlreadyCanonical,
        LoopShape::Irreducible,
        LoopShape::WhileToDoWhile,
        LoopShape::EntryProvable,
        LoopShape::EntryDisprovable,
        LoopShape::EntryUnknown,
        LoopShape::HeaderStore,
        LoopShape::HeaderOverSizeLimit,
        LoopShape::HeaderOverSpeedLimit,
        LoopShape::LiveOutFromHeader,
    ];
    assert(shapes@ =~= loop_shapes());
    let mut out: Vec<Case> = Vec::new();
    let mut k: usize = 0;
    while k < 64
        invariant
            k <= 64,
            types@ == wide_types(),
            shapes@ == loop_shapes(),
            out@.len() == k,
            forall|i: int|
                0 <= i < k ==> is_shape_case(#[trigger] out@[i], wide_types()[i / 16], loop_shapes()[i % 16]),
        decreases 64 - k,
    {
        let ty = types[k / 16];
        let shape = shapes[k % 16];
        let total = shape_sum(shape);
        let made = shaped(ty, shape);
        match made {
            Some(program) => {
                let axes = vec![axis("type", ty.name()), axis("shape", shape.name())];
                let case = Case { axes, tags: tags_for(false), program };
                assert(case.axes_text() =~= seq![("type"@, ty.name_text()), ("shape"@, shape.name_text())]);
                out.push(case);
            },
            None => {
                assert(0 <= total <= 100_000);
                assert(false);
            },
        }
        k += 1;
    }
    out
}

/// What `n` iterations add when the counter starts at `start` and moves by `step`.
pub open spec fn stride_total(start: int, step: int, n: nat) -> int
    decreases n,
{
    if n == 0 {
        0
    } else {
        stride_total(start, step, (n - 1) as nat) + start + (n - 1) * step
    }
}

/// The loop shapes whose trip count is the thing being tested.
#[derive(Clone, Copy, Debug, PartialEq, Eq, Structural)]
pub enum TripShape {
    ExitOnNotEqual,
    StepDoesNotDivide,
    StartsPastTheLimit,
    UnsignedWrapsRound,
    CountsDown,
    WalksAPointer,
    DerivedCounter,
    TwoExits,
    InnerDependsOnOuter,
    UnknownLimit,
}

impl TripShape {
    /// The axis value.
    pub open spec fn name_text(self) -> Seq<char> {
        match self {
            TripShape::ExitOnNotEqual => "exit-on-not-equal"@,
            TripShape::StepDoesNotDivide => "step-does-not-divide"@,
            TripShape::StartsPastTheLimit => "starts-past-the-limit"@,
            TripShape::UnsignedWrapsRound => "unsigned-wraps-round"@,
            TripShape::CountsDown => "counts-down"@,
            TripShape::WalksAPointer => "walks-a-pointer"@,
            TripShape::DerivedCounter => "derived-counter"@,
            TripShape::TwoExits => "two-exits"@,
            TripShape::InnerDependsOnOuter => "inner-depends-on-outer"@,
            TripShape::UnknownLimit => "unknown-limit"@,
        }
    }

    /// The axis value.
    pub fn name(self) -> (r: &'static str)
        ensures
            r@ == self.name_text(),
    {
        match self {
            TripShape::ExitOnNotEqual => "exit-on-not-equal",
            TripShape::StepDoesNotDivide => "step-does-not-divide",
            TripShape::StartsPastTheLimit => "starts-past-the-limit",
            TripShape::UnsignedWrapsRound => "unsigned-wraps-round",
            TripShape::CountsDown => "counts-down",
            TripShape::WalksAPointer => "walks-a-pointer",
            TripShape::DerivedCounter => "derived-counter",
            TripShape::TwoExits => "two-exits",
            TripShape::InnerDependsOnOuter => "inner-depends-on-outer",
            TripShape::UnknownLimit => "unknown-limit",
        }
    }
}

/// The shapes in the order the facet walks them.
pub open spec fn trip_shapes() -> Seq<TripShape> {
    seq![
        TripShape::ExitOnNotEqual,
        TripShape::StepDoesNotDivide,
        TripShape::StartsPastTheLimit,
        TripShape::UnsignedWrapsRound,
        TripShape::CountsDown,
        TripShape::WalksAPointer,
        TripShape::DerivedCounter,
        TripShape::TwoExits,
        TripShape::InnerDependsOnOuter,
        TripShape::UnknownLimit,
    ]
}

/// What the triangle of loops adds: the inner loop of the `i`th outer iteration counts `i`
/// times and adds its own counter.
pub open spec fn triangle_total(n: nat) -> int
    decreases n,
{
    if n == 0 {
        0
    } else {
        triangle_total((n - 1) as nat) + ramp_sum(0, (n - 1) as nat)
    }
}

/// The lines before `main` of a trip count shape: the opaque input, when it has one.
pub open spec fn trip_top(shape: TripShape) -> Seq<Seq<char>> {
    match shape {
        TripShape::StartsPastTheLimit => seq![input_global(Ty::I32, "start"@, 20)],
        TripShape::TwoExits => seq![input_global(Ty::I32, "stop"@, 5)],
        TripShape::UnknownLimit => seq![input_global(Ty::I32, "limit"@, 7)],
        _ => Seq::empty(),
    }
}

/// The statements of a trip count shape, before the checks.
pub open spec fn trip_body(shape: TripShape) -> Seq<Seq<char>> {
    let i1 = indent(1);
    let i2 = indent(2);
    let i3 = indent(3);
    let e = Seq::<char>::empty();
    match shape {
        TripShape::ExitOnNotEqual => seq![
            i1 + "int counted = 0;"@,
            i1 + "int total = 0;"@,
            i1 + "for (int i = 0; i != 10; i += 2) {"@,
            i2 + "counted++;"@,
            i2 + "total += i;"@,
            i1 + "}"@,
        ],
        TripShape::StepDoesNotDivide => seq![
            i1 + "int counted = 0;"@,
            i1 + "int last = -1;"@,
            i1 + "for (int i = 0; i < 10; i += 3) {"@,
            i2 + "counted++;"@,
            i2 + "last = i;"@,
            i1 + "}"@,
        ],
        TripShape::StartsPastTheLimit => seq![
            input_read(Ty::I32, "start"@),
            e,
            i1 + "int counted = 0;"@,
            i1 + "int touched = 0;"@,
            i1 + "for (int i = start; i < 10; i++) {"@,
            i2 + "counted++;"@,
            i2 + "touched = 100;"@,
            i1 + "}"@,
        ],
        TripShape::UnsignedWrapsRound => seq![
            i1 + "int counted = 0;"@,
            i1 + "unsigned int total = 0u;"@,
            i1 + "for (unsigned int i = 4294967288u; i != 4u; i++) {"@,
            i2 + "counted++;"@,
            i2 + "total += 1u;"@,
            i1 + "}"@,
        ],
        TripShape::CountsDown => seq![
            i1 + "int counted = 0;"@,
            i1 + "int total = 0;"@,
            i1 + "for (int i = 10; i > 0; i -= 3) {"@,
            i2 + "counted++;"@,
            i2 + "total += i;"@,
            i1 + "}"@,
        ],
        TripShape::WalksAPointer => seq![
            i1 + "int values[12];"@,
            i1 + "for (int i = 0; i < 12; i++) {"@,
            i2 + "values[i] = i * 2;"@,
            i1 + "}"@,
            i1 + "int counted = 0;"@,
            i1 + "int total = 0;"@,
            i1 + "for (int *at = values; at != values + 12; at += 3) {"@,
            i2 + "counted++;"@,
            i2 + "total += *at;"@,
            i1 + "}"@,
        ],
        TripShape::DerivedCounter => seq![
            i1 + "int counted = 0;"@,
            i1 + "int derived = 1;"@,
            i1 + "int total = 0;"@,
            i1 + "for (int i = 0; i < 9; i++) {"@,
            i2 + "derived = i * 3 + 1;"@,
            i2 + "total += derived;"@,
            i2 + "counted++;"@,
            i1 + "}"@,
        ],
        TripShape::TwoExits => seq![
            input_read(Ty::I32, "stop"@),
            e,
            i1 + "int counted = 0;"@,
            i1 + "int reason = 0;"@,
            i1 + "for (int i = 0; i < 20; i++) {"@,
            i2 + "if (i == stop) { reason = 1; break; }"@,
            i2 + "counted++;"@,
            i1 + "}"@,
        ],
        TripShape::InnerDependsOnOuter => seq![
            i1 + "int counted = 0;"@,
            i1 + "int total = 0;"@,
            i1 + "for (int i = 0; i < 8; i++) {"@,
            i2 + "for (int j = 0; j < i; j++) {"@,
            i3 + "counted++;"@,
            i3 + "total += j;"@,
            i2 + "}"@,
            i1 + "}"@,
        ],
        TripShape::UnknownLimit => seq![
            input_read(Ty::I32, "limit"@),
            e,
            i1 + "int counted = 0;"@,
            i1 + "int total = 0;"@,
            i1 + "for (int i = 0; i < limit; i++) {"@,
            i2 + "counted++;"@,
            i2 + "total += i;"@,
            i1 + "}"@,
        ],
    }
}

/// What a trip count shape checks, in order: each name it prints with its type.
pub open spec fn trip_prints(shape: TripShape) -> Seq<(Ty, Seq<char>)> {
    match shape {
        TripShape::StepDoesNotDivide => seq![(Ty::I32, "counted"@), (Ty::I32, "last"@)],
        TripShape::StartsPastTheLimit => seq![(Ty::I32, "counted"@), (Ty::I32, "touched"@)],
        TripShape::UnsignedWrapsRound => seq![(Ty::I32, "counted"@), (Ty::U32, "total"@)],
        TripShape::DerivedCounter => seq![
            (Ty::I32, "counted"@),
            (Ty::I32, "derived"@),
            (Ty::I32, "total"@),
        ],
        TripShape::TwoExits => seq![(Ty::I32, "counted"@), (Ty::I32, "reason"@)],
        _ => seq![(Ty::I32, "counted"@), (Ty::I32, "total"@)],
    }
}

/// What a trip count shape prints: each loop's count and what it added, run the way C runs
/// it.
pub open spec fn trip_expected(shape: TripShape) -> Seq<int> {
    match shape {
        TripShape::ExitOnNotEqual => seq![5, stride_total(0, 2, 5)],
        TripShape::StepDoesNotDivide => seq![4, 3int * 3],
        TripShape::StartsPastTheLimit => seq![0, 0],
        TripShape::UnsignedWrapsRound => seq![12, 12],
        TripShape::CountsDown => seq![4, stride_total(10, -3, 4)],
        TripShape::WalksAPointer => seq![4, 2int * stride_total(0, 3, 4)],
        TripShape::DerivedCounter => seq![9, 8int * 3 + 1, stride_total(1, 3, 9)],
        TripShape::TwoExits => seq![5, 1],
        TripShape::InnerDependsOnOuter => seq![ramp_sum(0, 8), triangle_total(8)],
        TripShape::UnknownLimit => seq![7, ramp_sum(0, 7)],
    }
}

/// The print lines for a list of checks.
pub open spec fn print_lines(prints: Seq<(Ty, Seq<char>)>) -> Seq<Seq<char>> {
    prints.map_values(|p: (Ty, Seq<char>)| print_line(1, p.0, p.1))
}

/// Whether a case is the trip count shape, whole.
pub open spec fn is_trip_case(c: Case, shape: TripShape) -> bool {
    &&& c.axes_text() == seq![("shape"@, shape.name_text())]
    &&& c.tags_text() == Seq::<Seq<char>>::empty()
    &&& c.program.purpose_text() == "a loop that "@ + shape.name_text()
        + ", counted by the generator"@
    &&& c.program.include_lines() == Seq::<Seq<char>>::empty()
    &&& c.program.top_lines() == trip_top(shape)
    &&& c.program.body_lines() == trip_body(shape) + seq![Seq::<char>::empty()] + print_lines(
        trip_prints(shape),
    )
    &&& c.program.expected_values() == trip_expected(shape)
    &&& !c.program.sinks()
}

/// The counts of the trip count shapes, each worked out by running the loop.
fn trip_values(shape: TripShape) -> (r: Vec<i128>)
    ensures
        r@.map_values(|v: i128| v as int) == trip_expected(shape),
{
    let r: Vec<i128> = match shape {
        TripShape::ExitOnNotEqual => {
            let mut counted: i128 = 0;
            let mut total: i128 = 0;
            let mut i: i128 = 0;
            while i != 10
                invariant
                    i == 2 * counted,
                    0 <= counted <= 5,
                    total == stride_total(0, 2, counted as nat),
                    0 <= total <= 10 * counted,
                decreases 10 - i,
            {
                counted += 1;
                total += i;
                i += 2;
            }
            vec![counted, total]
        },
        TripShape::StepDoesNotDivide => {
            let mut counted: i128 = 0;
            let mut last: i128 = -1;
            let mut i: i128 = 0;
            while i < 10
                invariant
                    i == 3 * counted,
                    0 <= counted <= 4,
                    last == if counted == 0 {
                        -1
                    } else {
                        3 * (counted - 1)
                    },
                decreases 12 - i,
            {
                counted += 1;
                last = i;
                i += 3;
            }
            vec![counted, last]
        },
        TripShape::StartsPastTheLimit => {
            let mut counted: i128 = 0;
            let mut touched: i128 = 0;
            let mut i: i128 = 20;
            while i < 10
                invariant
                    i == 20,
                    counted == 0,
                    touched == 0,
                decreases 10 - i,
            {
                counted += 1;
                touched = 100;
                i += 1;
            }
            vec![counted, touched]
        },
        TripShape::UnsignedWrapsRound => {
            let mut counted: i128 = 0;
            let mut i: u32 = 4_294_967_288;
            while i != 4
                invariant
                    0 <= counted <= 12,
                    i == if counted < 8 {
                        4_294_967_288 + counted
                    } else {
                        counted - 8
                    },
                decreases 12 - counted,
            {
                counted += 1;
                i = i.wrapping_add(1);
            }
            vec![counted, counted]
        },
        TripShape::CountsDown => {
            let mut counted: i128 = 0;
            let mut total: i128 = 0;
            let mut i: i128 = 10;
            while i > 0
                invariant
                    i == 10 - 3 * counted,
                    0 <= counted <= 4,
                    total == stride_total(10, -3, counted as nat),
                    0 <= total <= 10 * counted,
                decreases i + 3,
            {
                counted += 1;
                total += i;
                i -= 3;
            }
            vec![counted, total]
        },
        TripShape::WalksAPointer => {
            let mut counted: i128 = 0;
            let mut total: i128 = 0;
            let mut at: i128 = 0;
            while at != 12
                invariant
                    at == 3 * counted,
                    0 <= counted <= 4,
                    total == 2 * stride_total(0, 3, counted as nat),
                    0 <= total <= 24 * counted,
                decreases 12 - at,
            {
                counted += 1;
                total += at * 2;
                at += 3;
            }
            vec![counted, total]
        },
        TripShape::DerivedCounter => {
            let mut total: i128 = 0;
            let mut i: i128 = 0;
            while i < 9
                invariant
                    0 <= i <= 9,
                    total == stride_total(1, 3, i as nat),
                    0 <= total <= 30 * i,
                decreases 9 - i,
            {
                total += i * 3 + 1;
                i += 1;
            }
            vec![9, 8 * 3 + 1, total]
        },
        TripShape::TwoExits => vec![5, 1],
        TripShape::InnerDependsOnOuter => {
            let mut counted: i128 = 0;
            let mut total: i128 = 0;
            let mut i: i128 = 0;
            while i < 8
                invariant
                    0 <= i <= 8,
                    counted == ramp_sum(0, i as nat),
                    total == triangle_total(i as nat),
                    0 <= counted <= 8 * i,
                    0 <= total <= 64 * i,
                decreases 8 - i,
            {
                let mut j: i128 = 0;
                while j < i
                    invariant
                        0 <= j <= i < 8,
                        counted == ramp_sum(0, i as nat) + j,
                        total == triangle_total(i as nat) + ramp_sum(0, j as nat),
                        0 <= counted <= 8 * i + j,
                        0 <= total <= 64 * i + 8 * j,
                    decreases i - j,
                {
                    counted += 1;
                    total += j;
                    j += 1;
                }
                i += 1;
            }
            vec![counted, total]
        },
        TripShape::UnknownLimit => vec![7, ramp(0, 7)],
    };
    assert(r@.map_values(|v: i128| v as int) =~= trip_expected(shape));
    r
}

/// What a trip count shape checks, in order.
fn trip_print_list(shape: TripShape) -> (r: Vec<(Ty, &'static str)>)
    ensures
        r@.map_values(|p: (Ty, &str)| (p.0, p.1@)) == trip_prints(shape),
{
    let r = match shape {
        TripShape::StepDoesNotDivide => vec![(Ty::I32, "counted"), (Ty::I32, "last")],
        TripShape::StartsPastTheLimit => vec![(Ty::I32, "counted"), (Ty::I32, "touched")],
        TripShape::UnsignedWrapsRound => vec![(Ty::I32, "counted"), (Ty::U32, "total")],
        TripShape::DerivedCounter => vec![
            (Ty::I32, "counted"),
            (Ty::I32, "derived"),
            (Ty::I32, "total"),
        ],
        TripShape::TwoExits => vec![(Ty::I32, "counted"), (Ty::I32, "reason")],
        _ => vec![(Ty::I32, "counted"), (Ty::I32, "total")],
    };
    assert(r@.map_values(|p: (Ty, &str)| (p.0, p.1@)) =~= trip_prints(shape));
    r
}

/// Writes the statements of a trip count shape.
fn trip_write(program: &mut Program, shape: TripShape)
    requires
        old(program).top_lines() == Seq::<Seq<char>>::empty(),
        old(program).body_lines() == Seq::<Seq<char>>::empty(),
    ensures
        final(program).top_lines() == trip_top(shape),
        final(program).body_lines() == trip_body(shape),
        final(program).expected_values() == old(program).expected_values(),
        final(program).purpose_text() == old(program).purpose_text(),
        final(program).include_lines() == old(program).include_lines(),
        final(program).sinks() == old(program).sinks(),
{
    match shape {
        TripShape::ExitOnNotEqual => {
            program.line("int counted = 0;");
            program.line("int total = 0;");
            program.line("for (int i = 0; i != 10; i += 2) {");
            program.line_at(1, "counted++;");
            program.line_at(1, "total += i;");
            program.line("}");
        },
        TripShape::StepDoesNotDivide => {
            program.line("int counted = 0;");
            program.line("int last = -1;");
            program.line("for (int i = 0; i < 10; i += 3) {");
            program.line_at(1, "counted++;");
            program.line_at(1, "last = i;");
            program.line("}");
        },
        TripShape::StartsPastTheLimit => {
            program.input(Ty::I32, "start", 20);
            program.blank();
            program.line("int counted = 0;");
            program.line("int touched = 0;");
            program.line("for (int i = start; i < 10; i++) {");
            program.line_at(1, "counted++;");
            program.line_at(1, "touched = 100;");
            program.line("}");
        },
        TripShape::UnsignedWrapsRound => {
            program.line("int counted = 0;");
            program.line("unsigned int total = 0u;");
            program.line("for (unsigned int i = 4294967288u; i != 4u; i++) {");
            program.line_at(1, "counted++;");
            program.line_at(1, "total += 1u;");
            program.line("}");
        },
        TripShape::CountsDown => {
            program.line("int counted = 0;");
            program.line("int total = 0;");
            program.line("for (int i = 10; i > 0; i -= 3) {");
            program.line_at(1, "counted++;");
            program.line_at(1, "total += i;");
            program.line("}");
        },
        TripShape::WalksAPointer => {
            program.line("int values[12];");
            program.line("for (int i = 0; i < 12; i++) {");
            program.line_at(1, "values[i] = i * 2;");
            program.line("}");
            program.line("int counted = 0;");
            program.line("int total = 0;");
            program.line("for (int *at = values; at != values + 12; at += 3) {");
            program.line_at(1, "counted++;");
            program.line_at(1, "total += *at;");
            program.line("}");
        },
        TripShape::DerivedCounter => {
            program.line("int counted = 0;");
            program.line("int derived = 1;");
            program.line("int total = 0;");
            program.line("for (int i = 0; i < 9; i++) {");
            program.line_at(1, "derived = i * 3 + 1;");
            program.line_at(1, "total += derived;");
            program.line_at(1, "counted++;");
            program.line("}");
        },
        TripShape::TwoExits => {
            program.input(Ty::I32, "stop", 5);
            program.blank();
            program.line("int counted = 0;");
            program.line("int reason = 0;");
            program.line("for (int i = 0; i < 20; i++) {");
            program.line_at(1, "if (i == stop) { reason = 1; break; }");
            program.line_at(1, "counted++;");
            program.line("}");
        },
        TripShape::InnerDependsOnOuter => {
            program.line("int counted = 0;");
            program.line("int total = 0;");
            program.line("for (int i = 0; i < 8; i++) {");
            program.line_at(1, "for (int j = 0; j < i; j++) {");
            program.line_at(2, "counted++;");
            program.line_at(2, "total += j;");
            program.line_at(1, "}");
            program.line("}");
        },
        TripShape::UnknownLimit => {
            program.input(Ty::I32, "limit", 7);
            program.blank();
            program.line("int counted = 0;");
            program.line("int total = 0;");
            program.line("for (int i = 0; i < limit; i++) {");
            program.line_at(1, "counted++;");
            program.line_at(1, "total += i;");
            program.line("}");
        },
    }
    assert(program.top_lines() =~~= trip_top(shape));
    assert(program.body_lines() =~~= trip_body(shape));
}

/// One trip count shape.
fn trip_case(shape: TripShape) -> (r: Case)
    ensures
        is_trip_case(r, shape),
{
    let mut purpose = String::from_str("a loop that ");
    purpose.append(shape.name());
    purpose.append(", counted by the generator");
    let mut program = Program::new(purpose.as_str());
    trip_write(&mut program, shape);
    program.blank();
    let prints = trip_print_list(shape);
    let values = trip_values(shape);
    let ghost wanted = trip_prints(shape);
    let ghost head = program.body_lines();
    assert(wanted.len() == trip_expected(shape).len());
    assert(prints@.len() == values@.len());
    let mut k: usize = 0;
    assert(print_lines(wanted.take(0)) =~= Seq::<Seq<char>>::empty());
    while k < prints.len()
        invariant
            k <= prints@.len() == values@.len(),
            wanted == trip_prints(shape),
            prints@.map_values(|p: (Ty, &str)| (p.0, p.1@)) == wanted,
            values@.map_values(|v: i128| v as int) == trip_expected(shape),
            program.body_lines() =~= head + print_lines(wanted.take(k as int)),
            program.expected_values() =~= values@.map_values(|v: i128| v as int).take(k as int),
            program.top_lines() == trip_top(shape),
            program.purpose_text() == purpose@,
            program.include_lines() == Seq::<Seq<char>>::empty(),
            !program.sinks(),
        decreases prints@.len() - k,
    {
        let (ty, name) = prints[k];
        program.check(ty, name, values[k]);
        assert(wanted[k as int] == (ty, name@));
        assert(print_lines(wanted.take(k + 1)) =~= print_lines(wanted.take(k as int)).push(
            print_line(1, ty, name@),
        ));
        assert(values@.map_values(|v: i128| v as int).take(k + 1) =~= values@.map_values(
            |v: i128| v as int,
        ).take(k as int).push(values@[k as int] as int));
        k += 1;
    }
    assert(wanted.take(prints@.len() as int) =~= wanted);
    assert(values@.map_values(|v: i128| v as int).take(values@.len() as int) =~= values@.map_values(
        |v: i128| v as int,
    ));
    assert(program.body_lines() =~= trip_body(shape) + seq![Seq::<char>::empty()] + print_lines(
        trip_prints(shape),
    ));
    assert(program.expected_values() =~= trip_expected(shape));
    let axes = vec![axis("shape", shape.name())];
    let r = Case { axes, tags: tags_for(false), program };
    assert(r.axes_text() =~= seq![("shape"@, shape.name_text())]);
    r
}

/// The loop shapes whose trip count is the thing being tested.
///
/// A wrong trip count is the worst bug the optimizer can have, because it turns into a loop
/// that runs the wrong number of times after unrolling and no later pass notices. So every
/// case counts its own iterations and prints the count, worked out here by running the same
/// recurrence. The shapes are the ones where the arithmetic is not the obvious subtraction: an
/// exit on `!=`, a step that does not divide the distance, an unsigned counter that wraps, and
/// a counter that starts past its limit and runs no times at all.
pub fn trip_counts() -> (r: Vec<Case>)
    ensures
        r@.len() == 10,
        forall|k: int| 0 <= k < 10 ==> is_trip_case(#[trigger] r@[k], trip_shapes()[k]),
{
    let shapes = [
        TripShape::ExitOnNotEqual,
        TripShape::StepDoesNotDivide,
        TripShape::StartsPastTheLimit,
        TripShape::UnsignedWrapsRound,
        TripShape::CountsDown,
        TripShape::WalksAPointer,
        TripShape::DerivedCounter,
        TripShape::TwoExits,
        TripShape::InnerDependsOnOuter,
        TripShape::UnknownLimit,
    ];
    assert(shapes@ =~= trip_shapes());
    let mut out: Vec<Case> = Vec::new();
    let mut k: usize = 0;
    while k < 10
        invariant
            k <= 10,
            shapes@ == trip_shapes(),
            out@.len() == k,
            forall|i: int| 0 <= i < k ==> is_trip_case(#[trigger] out@[i], trip_shapes()[i]),
        decreases 10 - k,
    {
        out.push(trip_case(shapes[k]));
        k += 1;
    }
    out
}

/// Every loop facet, one batch per facet in the order the phase walks them.
#[verifier::rlimit(100)]
pub fn generate() -> (r: Vec<Batch>)
    ensures
        r@.len() == 11,
        r@[0] is Single,
        r@[0]->cases@.len() == 32,
        forall|k: int| 0 <= k < 32 ==> is_invariant_case(#[trigger] r@[0]->cases@[k], wide_types()[k / 8], seq![1i128, 2i128, 3i128, 4i128, 7i128, 8i128, 16i128, 100i128][k % 8]),
        r@[1] is Single,
        r@[1]->cases@.len() == 56,
        forall|k: int|
            0 <= k < 56 ==> is_hoist_case(#[trigger] r@[1]->cases@[k], wide_types()[k / 14], hoist_shapes()[k % 14]),
        r@[2] is Single,
        r@[2]->cases@.len() == 32,
        forall|k: int| 0 <= k < 32 ==> is_induction_case(#[trigger] r@[2]->cases@[k], wide_types()[k / 8], seq![1i128, 2i128, 3i128, 4i128, 7i128, 8i128, 16i128, 100i128][k % 8]),
        r@[3] is Single,
        r@[3]->cases@.len() == 10,
        forall|k: int| 0 <= k < 10 ==> is_trip_case(#[trigger] r@[3]->cases@[k], trip_shapes()[k]),
        r@[4] is Single,
        r@[4]->cases@.len() == 64,
        forall|k: int| 0 <= k < 64 ==> is_unswitch_case(#[trigger] r@[4]->cases@[k], wide_types()[k / 16], seq![1i128, 2i128, 3i128, 4i128, 7i128, 8i128, 16i128, 100i128][(k / 2) % 8], seq![0i128, 1i128][k % 2]),
        r@[5] is Single,
        r@[5]->cases@.len() == 64,
        forall|k: int| 0 <= k < 64 ==> is_unroll_case(#[trigger] r@[5]->cases@[k], wide_types()[k / 16], seq![1i128, 2i128, 3i128, 4i128, 7i128, 8i128, 16i128, 100i128][(k / 2) % 8], trip_bounds_list()[k % 2]),
        r@[6] is Single,
        r@[6]->cases@.len() == 64,
        forall|k: int| 0 <= k < 64 ==> is_idiom_case(#[trigger] r@[6]->cases@[k], wide_types()[k / 16], seq![4i128, 7i128, 16i128, 100i128][(k / 4) % 4], idioms_list()[k % 4]),
        r@[7] is Single,
        r@[7]->cases@.len() == 24,
        forall|k: int| 0 <= k < 24 ==> is_dead_case(#[trigger] r@[7]->cases@[k], wide_types()[k / 6], seq![4i128, 16i128, 100i128][(k / 2) % 3], dead_bounds_list()[k % 2]),
        r@[8] is Single,
        r@[8]->cases@.len() == 64,
        forall|k: int| 0 <= k < 64 ==> is_rotate_case(#[trigger] r@[8]->cases@[k], wide_types()[k / 16], seq![1i128, 2i128, 7i128, 16i128][(k / 4) % 4], loop_spellings_list()[k % 4]),
        r@[9] is Single,
        r@[9]->cases@.len() == 64,
        forall|k: int|
            0 <= k < 64 ==> is_shape_case(#[trigger] r@[9]->cases@[k], wide_types()[k / 16], loop_shapes()[k % 16]),
        r@[10] is Single,
        r@[10]->cases@.len() == 48,
        forall|k: int| 0 <= k < 48 ==> is_traversal_case(#[trigger] r@[10]->cases@[k], wide_types()[k / 12], seq![4i128, 8i128, 16i128][(k / 4) % 3], traversals_list()[k % 4]),
{
    let mut out: Vec<Batch> = Vec::new();
    out.push(Batch::Single { cases: loop_invariant() });
    out.push(Batch::Single { cases: loop_hoist() });
    out.push(Batch::Single { cases: induction_variable() });
    out.push(Batch::Single { cases: trip_counts() });
    out.push(Batch::Single { cases: loop_unswitch() });
    out.push(Batch::Single { cases: loop_unroll() });
    out.push(Batch::Single { cases: loop_idiom() });
    out.push(Batch::Single { cases: loop_deletion() });
    out.push(Batch::Single { cases: loop_rotate() });
    out.push(Batch::Single { cases: loop_shape() });
    out.push(Batch::Single { cases: loop_restructure() });
    out
}

} // verus!
