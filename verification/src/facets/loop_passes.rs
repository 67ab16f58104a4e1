//! The loop passes that are measured rather than caught: hoisting an invariant, reducing
//! induction variables, unswitching, unrolling, recognizing library idioms, deleting dead
//! loops and rotating them.
//!
//! Each program still prints what the generator worked out for it, as a formula of its trip
//! count, so a pass that changed the iteration changes the number.

use vstd::prelude::*;
use vstd::string::*;
use crate::emit::{Program, input_global, input_read, indent, print_line};
use crate::lang::{Ty, wide, wide_types};
use crate::text::{decimal, push_decimal, decimal_string};
use crate::facets::{Case, axis, tags_for, lit, lit_text};

verus! {


/// The lines before `main`.
pub open spec fn invariant_top(ty: Ty, trips: i128) -> Seq<Seq<char>> {
    seq![
    input_global(ty, "a"@, 3int),
    input_global(ty, "b"@, 5int),
]
}

/// The statements of `main`.
pub open spec fn invariant_body(ty: Ty, trips: i128) -> Seq<Seq<char>> {
    seq![
    input_read(ty, "a"@),
    input_read(ty, "b"@),
    Seq::<char>::empty(),
    indent(1) + ty.c_text() + " total = 0;"@,
    indent(1) + "for (int i = 0; i < "@ + decimal(trips as int) + "; i++) {"@,
    indent(2) + "total += a * b + ("@ + ty.c_text() + ")i;"@,
    indent(1) + "}"@,
    Seq::<char>::empty(),
]
}

/// The headers.
pub open spec fn invariant_includes(ty: Ty, trips: i128) -> Seq<Seq<char>> {
    Seq::empty()
}

/// What the program prints.
pub open spec fn invariant_expected(ty: Ty, trips: i128) -> Seq<int> {
    Seq::empty()
}

/// Writes the program.
#[verifier::rlimit(100)]
fn invariant_write(program: &mut Program, ty: Ty, trips: i128)
    requires
        old(program).top_lines() == Seq::<Seq<char>>::empty(),
        old(program).body_lines() == Seq::<Seq<char>>::empty(),
        old(program).expected_values() == Seq::<int>::empty(),
        old(program).include_lines() == Seq::<Seq<char>>::empty(),
        !old(program).sinks(),
        1 <= trips <= 100,
    ensures
        final(program).top_lines() == invariant_top(ty, trips),
        final(program).body_lines() == invariant_body(ty, trips),
        final(program).expected_values() == invariant_expected(ty, trips),
        final(program).include_lines() == invariant_includes(ty, trips),
        !final(program).sinks(),
        final(program).purpose_text() == old(program).purpose_text(),
{
    let c = ty.c_name();
    program.input(ty, "a", 3);
    program.input(ty, "b", 5);
    program.blank();
    let mut text1 = String::from_str(c);
    text1.append(" total = 0;");
    program.line(text1.as_str());
    let mut text2 = String::from_str("for (int i = 0; i < ");
    push_decimal(&mut text2, trips);
    text2.append("; i++) {");
    program.line(text2.as_str());
    let mut text3 = String::from_str("total += a * b + (");
    text3.append(c);
    text3.append(")i;");
    program.line_at(1, text3.as_str());
    program.line("}");
    program.blank();
    assert(program.top_lines() =~~= invariant_top(ty, trips));
    assert(program.body_lines() =~~= invariant_body(ty, trips));
    assert(program.expected_values() =~= invariant_expected(ty, trips));
    assert(program.include_lines() =~~= invariant_includes(ty, trips));
}

/// Whether a case is the invariant program for its point, whole.
pub open spec fn is_invariant_case(c: Case, ty: Ty, trips: i128) -> bool {
    &&& c.axes_text() == seq![("type"@, ty.name_text()), ("trips"@, decimal(trips as int))]
    &&& c.tags_text() == Seq::<Seq<char>>::empty()
    &&& c.program.purpose_text() == "an invariant multiply inside a "@ + decimal(trips as int) + " iteration "@ + ty.c_text() + " loop"@
    &&& c.program.include_lines() == invariant_includes(ty, trips)
    &&& c.program.top_lines() == invariant_top(ty, trips)
    &&& c.program.body_lines() == invariant_body(ty, trips).push(print_line(1, ty.promotion(), "total"@))
    &&& c.program.expected_values() == seq![15 * trips + trips * (trips - 1) / 2]
    &&& !c.program.sinks()
}

/// The invariant program for one point.
fn invariant_case(ty: Ty, trips: i128) -> (r: Case)
    requires
        1 <= trips <= 100,
    ensures
        is_invariant_case(r, ty, trips),
{
    let mut purpose = String::new();
    purpose.append("an invariant multiply inside a ");
    push_decimal(&mut purpose, trips);
    purpose.append(" iteration ");
    purpose.append(ty.c_name());
    purpose.append(" loop");
    assert(purpose@ =~= "an invariant multiply inside a "@ + decimal(trips as int) + " iteration "@ + ty.c_text() + " loop"@);
    let mut program = Program::new(purpose.as_str());
    invariant_write(&mut program, ty, trips);
    assert(0 <= trips * (trips - 1) <= 100 * 99 && 0 <= trips * (trips + 1) <= 100 * 101) by (nonlinear_arith)
        requires
            1 <= trips <= 100,
    ;
    program.check(ty.promoted(), "total", 15 * trips + trips * (trips - 1) / 2);
    let axes = vec![axis("type", ty.name()), axis("trips", decimal_string(trips).as_str())];
    let r = Case { axes, tags: tags_for(false), program };
    assert(r.axes_text() =~= seq![("type"@, ty.name_text()), ("trips"@, decimal(trips as int))]);
    assert(r.tags_text() =~= Seq::<Seq<char>>::empty());
    assert(r.program.expected_values() =~= seq![15 * trips + trips * (trips - 1) / 2]);
    r
}

/// An invariant multiply inside a loop, on every type at the width of a register and every trip count.
///
/// The multiply is expensive enough that hoisting it shows in the size and the time, and the
/// variant part is the counter, so the loop cannot be deleted. Every total fits the promoted type.
pub fn loop_invariant() -> (r: Vec<Case>)
    ensures
        r@.len() == 32,
        forall|k: int| 0 <= k < 32 ==> is_invariant_case(#[trigger] r@[k], wide_types()[k / 8], seq![1i128, 2i128, 3i128, 4i128, 7i128, 8i128, 16i128, 100i128][k % 8]),
{
    let types = wide();
    let trips_all: [i128; 8] = [1, 2, 3, 4, 7, 8, 16, 100];
    let mut out: Vec<Case> = Vec::new();
    let mut k: usize = 0;
    while k < 32
        invariant
            k <= 32,
            types@ == wide_types(),
            trips_all@ == seq![1i128, 2i128, 3i128, 4i128, 7i128, 8i128, 16i128, 100i128],
            out@.len() == k,
            forall|i: int| 0 <= i < k ==> is_invariant_case(#[trigger] out@[i], wide_types()[i / 8], seq![1i128, 2i128, 3i128, 4i128, 7i128, 8i128, 16i128, 100i128][i % 8]),
        decreases 32 - k,
    {
        out.push(invariant_case(types[k / 8], trips_all[k % 8]));
        k += 1;
    }
    out
}

/// The lines before `main`.
pub open spec fn induction_top(ty: Ty, trips: i128) -> Seq<Seq<char>> {
    Seq::empty()
}

/// The statements of `main`.
pub open spec fn induction_body(ty: Ty, trips: i128) -> Seq<Seq<char>> {
    seq![
    indent(1) + ty.c_text() + " scaled = 0, walked = 0;"@,
    indent(1) + "int counted = 0;"@,
    indent(1) + ty.c_text() + " buffer["@ + decimal(trips as int) + "];"@,
    indent(1) + "for (int i = 0; i < "@ + decimal(trips as int) + "; i++) {"@,
    indent(2) + "buffer[i] = ("@ + ty.c_text() + ")i;"@,
    indent(2) + "scaled += ("@ + ty.c_text() + ")(i * 4);"@,
    indent(2) + "walked += buffer[i];"@,
    indent(2) + "counted++;"@,
    indent(1) + "}"@,
    Seq::<char>::empty(),
]
}

/// The headers.
pub open spec fn induction_includes(ty: Ty, trips: i128) -> Seq<Seq<char>> {
    Seq::empty()
}

/// What the program prints.
pub open spec fn induction_expected(ty: Ty, trips: i128) -> Seq<int> {
    Seq::empty()
}

/// Writes the program.
#[verifier::rlimit(100)]
fn induction_write(program: &mut Program, ty: Ty, trips: i128)
    requires
        old(program).top_lines() == Seq::<Seq<char>>::empty(),
        old(program).body_lines() == Seq::<Seq<char>>::empty(),
        old(program).expected_values() == Seq::<int>::empty(),
        old(program).include_lines() == Seq::<Seq<char>>::empty(),
        !old(program).sinks(),
        1 <= trips <= 100,
    ensures
        final(program).top_lines() == induction_top(ty, trips),
        final(program).body_lines() == induction_body(ty, trips),
        final(program).expected_values() == induction_expected(ty, trips),
        final(program).include_lines() == induction_includes(ty, trips),
        !final(program).sinks(),
        final(program).purpose_text() == old(program).purpose_text(),
{
    let c = ty.c_name();
    let mut text1 = String::from_str(c);
    text1.append(" scaled = 0, walked = 0;");
    program.line(text1.as_str());
    program.line("int counted = 0;");
    let mut text2 = String::from_str(c);
    text2.append(" buffer[");
    push_decimal(&mut text2, trips);
    text2.append("];");
    program.line(text2.as_str());
    let mut text3 = String::from_str("for (int i = 0; i < ");
    push_decimal(&mut text3, trips);
    text3.append("; i++) {");
    program.line(text3.as_str());
    let mut text4 = String::from_str("buffer[i] = (");
    text4.append(c);
    text4.append(")i;");
    program.line_at(1, text4.as_str());
    let mut text5 = String::from_str("scaled += (");
    text5.append(c);
    text5.append(")(i * 4);");
    program.line_at(1, text5.as_str());
    program.line_at(1, "walked += buffer[i];");
    program.line_at(1, "counted++;");
    program.line("}");
    program.blank();
    assert(program.top_lines() =~~= induction_top(ty, trips));
    assert(program.body_lines() =~~= induction_body(ty, trips));
    assert(program.expected_values() =~= induction_expected(ty, trips));
    assert(program.include_lines() =~~= induction_includes(ty, trips));
}

/// Whether a case is the induction program for its point, whole.
pub open spec fn is_induction_case(c: Case, ty: Ty, trips: i128) -> bool {
    &&& c.axes_text() == seq![("type"@, ty.name_text()), ("trips"@, decimal(trips as int))]
    &&& c.tags_text() == Seq::<Seq<char>>::empty()
    &&& c.program.purpose_text() == "three induction variables over "@ + decimal(trips as int) + " iterations on "@ + ty.c_text()
    &&& c.program.include_lines() == induction_includes(ty, trips)
    &&& c.program.top_lines() == induction_top(ty, trips)
    &&& c.program.body_lines() == induction_body(ty, trips).push(print_line(1, ty.promotion(), "scaled"@)).push(print_line(1, ty.promotion(), "walked"@)).push(print_line(1, Ty::I32, "counted"@))
    &&& c.program.expected_values() == seq![2 * (trips * (trips - 1)), trips * (trips - 1) / 2, trips as int]
    &&& !c.program.sinks()
}

/// The induction program for one point.
fn induction_case(ty: Ty, trips: i128) -> (r: Case)
    requires
        1 <= trips <= 100,
    ensures
        is_induction_case(r, ty, trips),
{
    let mut purpose = String::new();
    purpose.append("three induction variables over ");
    push_decimal(&mut purpose, trips);
    purpose.append(" iterations on ");
    purpose.append(ty.c_name());
    assert(purpose@ =~= "three induction variables over "@ + decimal(trips as int) + " iterations on "@ + ty.c_text());
    let mut program = Program::new(purpose.as_str());
    induction_write(&mut program, ty, trips);
    assert(0 <= trips * (trips - 1) <= 100 * 99 && 0 <= trips * (trips + 1) <= 100 * 101) by (nonlinear_arith)
        requires
            1 <= trips <= 100,
    ;
    program.check(ty.promoted(), "scaled", 2 * (trips * (trips - 1)));
    program.check(ty.promoted(), "walked", trips * (trips - 1) / 2);
    program.check(Ty::I32, "counted", trips);
    let axes = vec![axis("type", ty.name()), axis("trips", decimal_string(trips).as_str())];
    let r = Case { axes, tags: tags_for(false), program };
    assert(r.axes_text() =~= seq![("type"@, ty.name_text()), ("trips"@, decimal(trips as int))]);
    assert(r.tags_text() =~= Seq::<Seq<char>>::empty());
    assert(r.program.expected_values() =~= seq![2 * (trips * (trips - 1)), trips * (trips - 1) / 2, trips as int]);
    r
}

/// Three variables that step by a constant amount in one loop, on every type at the width of a
/// register and every trip count.
///
/// An array walk, a scaled offset and a counter are one induction variable rewritten three
/// times, and printing all three at the end checks that the rewrite kept them in step. The buffer
/// is as long as the loop, which never runs fewer than once.
pub fn induction_variable() -> (r: Vec<Case>)
    ensures
        r@.len() == 32,
        forall|k: int| 0 <= k < 32 ==> is_induction_case(#[trigger] r@[k], wide_types()[k / 8], seq![1i128, 2i128, 3i128, 4i128, 7i128, 8i128, 16i128, 100i128][k % 8]),
{
    let types = wide();
    let trips_all: [i128; 8] = [1, 2, 3, 4, 7, 8, 16, 100];
    let mut out: Vec<Case> = Vec::new();
    let mut k: usize = 0;
    while k < 32
        invariant
            k <= 32,
            types@ == wide_types(),
            trips_all@ == seq![1i128, 2i128, 3i128, 4i128, 7i128, 8i128, 16i128, 100i128],
            out@.len() == k,
            forall|i: int| 0 <= i < k ==> is_induction_case(#[trigger] out@[i], wide_types()[i / 8], seq![1i128, 2i128, 3i128, 4i128, 7i128, 8i128, 16i128, 100i128][i % 8]),
        decreases 32 - k,
    {
        out.push(induction_case(types[k / 8], trips_all[k % 8]));
        k += 1;
    }
    out
}

/// The lines before `main`.
pub open spec fn unswitch_top(ty: Ty, trips: i128, flag: i128) -> Seq<Seq<char>> {
    seq![
    input_global(Ty::I32, "flag"@, flag as int),
]
}

/// The statements of `main`.
pub open spec fn unswitch_body(ty: Ty, trips: i128, flag: i128) -> Seq<Seq<char>> {
    seq![
    input_read(Ty::I32, "flag"@),
    Seq::<char>::empty(),
    indent(1) + ty.c_text() + " total = 0;"@,
    indent(1) + "for (int i = 0; i < "@ + decimal(trips as int) + "; i++) {"@,
    indent(2) + "if (flag) {"@,
    indent(3) + "total += ("@ + ty.c_text() + ")(i * 2);"@,
    indent(2) + "} else {"@,
    indent(3) + "total += ("@ + ty.c_text() + ")(i + 1);"@,
    indent(2) + "}"@,
    indent(1) + "}"@,
    Seq::<char>::empty(),
]
}

/// The headers.
pub open spec fn unswitch_includes(ty: Ty, trips: i128, flag: i128) -> Seq<Seq<char>> {
    Seq::empty()
}

/// What the program prints.
pub open spec fn unswitch_expected(ty: Ty, trips: i128, flag: i128) -> Seq<int> {
    Seq::empty()
}

/// Writes the program.
#[verifier::rlimit(100)]
fn unswitch_write(program: &mut Program, ty: Ty, trips: i128, flag: i128)
    requires
        old(program).top_lines() == Seq::<Seq<char>>::empty(),
        old(program).body_lines() == Seq::<Seq<char>>::empty(),
        old(program).expected_values() == Seq::<int>::empty(),
        old(program).include_lines() == Seq::<Seq<char>>::empty(),
        !old(program).sinks(),
        1 <= trips <= 100,
        0 <= flag <= 1,
    ensures
        final(program).top_lines() == unswitch_top(ty, trips, flag),
        final(program).body_lines() == unswitch_body(ty, trips, flag),
        final(program).expected_values() == unswitch_expected(ty, trips, flag),
        final(program).include_lines() == unswitch_includes(ty, trips, flag),
        !final(program).sinks(),
        final(program).purpose_text() == old(program).purpose_text(),
{
    let c = ty.c_name();
    program.input(Ty::I32, "flag", flag);
    program.blank();
    let mut text1 = String::from_str(c);
    text1.append(" total = 0;");
    program.line(text1.as_str());
    let mut text2 = String::from_str("for (int i = 0; i < ");
    push_decimal(&mut text2, trips);
    text2.append("; i++) {");
    program.line(text2.as_str());
    program.line_at(1, "if (flag) {");
    let mut text3 = String::from_str("total += (");
    text3.append(c);
    text3.append(")(i * 2);");
    program.line_at(2, text3.as_str());
    program.line_at(1, "} else {");
    let mut text4 = String::from_str("total += (");
    text4.append(c);
    text4.append(")(i + 1);");
    program.line_at(2, text4.as_str());
    program.line_at(1, "}");
    program.line("}");
    program.blank();
    assert(program.top_lines() =~~= unswitch_top(ty, trips, flag));
    assert(program.body_lines() =~~= unswitch_body(ty, trips, flag));
    assert(program.expected_values() =~= unswitch_expected(ty, trips, flag));
    assert(program.include_lines() =~~= unswitch_includes(ty, trips, flag));
}

/// Whether a case is the unswitch program for its point, whole.
pub open spec fn is_unswitch_case(c: Case, ty: Ty, trips: i128, flag: i128) -> bool {
    &&& c.axes_text() == seq![("type"@, ty.name_text()), ("trips"@, decimal(trips as int)), ("flag"@, decimal(flag as int))]
    &&& c.tags_text() == Seq::<Seq<char>>::empty()
    &&& c.program.purpose_text() == "an invariant test inside a "@ + decimal(trips as int) + " iteration "@ + ty.c_text() + " loop, flag "@ + decimal(flag as int)
    &&& c.program.include_lines() == unswitch_includes(ty, trips, flag)
    &&& c.program.top_lines() == unswitch_top(ty, trips, flag)
    &&& c.program.body_lines() == unswitch_body(ty, trips, flag).push(print_line(1, ty.promotion(), "total"@))
    &&& c.program.expected_values() == seq![if flag == 1 { trips * (trips - 1) } else { trips * (trips + 1) / 2 }]
    &&& !c.program.sinks()
}

/// The unswitch program for one point.
fn unswitch_case(ty: Ty, trips: i128, flag: i128) -> (r: Case)
    requires
        1 <= trips <= 100,
        0 <= flag <= 1,
    ensures
        is_unswitch_case(r, ty, trips, flag),
{
    let mut purpose = String::new();
    purpose.append("an invariant test inside a ");
    push_decimal(&mut purpose, trips);
    purpose.append(" iteration ");
    purpose.append(ty.c_name());
    purpose.append(" loop, flag ");
    push_decimal(&mut purpose, flag);
    assert(purpose@ =~= "an invariant test inside a "@ + decimal(trips as int) + " iteration "@ + ty.c_text() + " loop, flag "@ + decimal(flag as int));
    let mut program = Program::new(purpose.as_str());
    unswitch_write(&mut program, ty, trips, flag);
    assert(0 <= trips * (trips - 1) <= 100 * 99 && 0 <= trips * (trips + 1) <= 100 * 101) by (nonlinear_arith)
        requires
            1 <= trips <= 100,
    ;
    program.check(ty.promoted(), "total", if flag == 1 { trips * (trips - 1) } else { trips * (trips + 1) / 2 });
    let axes = vec![axis("type", ty.name()), axis("trips", decimal_string(trips).as_str()), axis("flag", decimal_string(flag).as_str())];
    let r = Case { axes, tags: tags_for(false), program };
    assert(r.axes_text() =~= seq![("type"@, ty.name_text()), ("trips"@, decimal(trips as int)), ("flag"@, decimal(flag as int))]);
    assert(r.tags_text() =~= Seq::<Seq<char>>::empty());
    assert(r.program.expected_values() =~= seq![if flag == 1 { trips * (trips - 1) } else { trips * (trips + 1) / 2 }]);
    r
}

/// A test the loop never changes, with the flag each way, on every type at the width of a
/// register and every trip count.
///
/// The flag comes out of a `volatile` global, so the test cannot be folded, and a compiler that
/// unswitches the loop makes two loops and picks one before entering either.
pub fn loop_unswitch() -> (r: Vec<Case>)
    ensures
        r@.len() == 64,
        forall|k: int| 0 <= k < 64 ==> is_unswitch_case(#[trigger] r@[k], wide_types()[k / 16], seq![1i128, 2i128, 3i128, 4i128, 7i128, 8i128, 16i128, 100i128][(k / 2) % 8], seq![0i128, 1i128][k % 2]),
{
    let types = wide();
    let trips_all: [i128; 8] = [1, 2, 3, 4, 7, 8, 16, 100];
    let flag_all: [i128; 2] = [0, 1];
    let mut out: Vec<Case> = Vec::new();
    let mut k: usize = 0;
    while k < 64
        invariant
            k <= 64,
            types@ == wide_types(),
            trips_all@ == seq![1i128, 2i128, 3i128, 4i128, 7i128, 8i128, 16i128, 100i128],
            flag_all@ == seq![0i128, 1i128],
            out@.len() == k,
            forall|i: int| 0 <= i < k ==> is_unswitch_case(#[trigger] out@[i], wide_types()[i / 16], seq![1i128, 2i128, 3i128, 4i128, 7i128, 8i128, 16i128, 100i128][(i / 2) % 8], seq![0i128, 1i128][i % 2]),
        decreases 64 - k,
    {
        out.push(unswitch_case(types[k / 16], trips_all[(k / 2) % 8], flag_all[k % 2]));
        k += 1;
    }
    out
}

/// Whether the trip count is written in the program or read at run time.
#[derive(Clone, Copy, Debug, PartialEq, Eq, Structural)]
pub enum TripBound {
    Known,
    Unknown,
}

impl TripBound {
    /// The axis value.
    pub open spec fn name_text(self) -> Seq<char> {
        match self {
            TripBound::Known => "known"@,
            TripBound::Unknown => "unknown"@,
        }
    }

    /// The axis value.
    pub fn name(self) -> (r: &'static str)
        ensures
            r@ == self.name_text(),
    {
        match self {
            TripBound::Known => "known",
            TripBound::Unknown => "unknown",
        }
    }

    /// How the purpose line says it.
    pub open spec fn words_text(self) -> Seq<char> {
        match self {
            TripBound::Known => "a known"@,
            TripBound::Unknown => "an unknown"@,
        }
    }

    /// How the purpose line says it.
    pub fn words(self) -> (r: &'static str)
        ensures
            r@ == self.words_text(),
    {
        match self {
            TripBound::Known => "a known",
            TripBound::Unknown => "an unknown",
        }
    }
}

/// The shapes in the order the facet walks them.
pub open spec fn trip_bounds_list() -> Seq<TripBound> {
    seq![
        TripBound::Known,
        TripBound::Unknown,
    ]
}

/// The shapes in the order the facet walks them.
fn trip_bounds_array() -> (r: Vec<TripBound>)
    ensures
        r@ == trip_bounds_list(),
{
    let r = vec![
        TripBound::Known,
        TripBound::Unknown,
    ];
    assert(r@ =~= trip_bounds_list());
    r
}

/// The lines before `main`.
pub open spec fn unroll_top(ty: Ty, trips: i128, shape: TripBound) -> Seq<Seq<char>> {
    match shape {
        TripBound::Known => Seq::empty(),
        TripBound::Unknown => seq![
            input_global(Ty::I32, "limit"@, trips as int),
        ],
    }
}

/// The statements of `main`.
pub open spec fn unroll_body(ty: Ty, trips: i128, shape: TripBound) -> Seq<Seq<char>> {
    match shape {
        TripBound::Known => seq![
            Seq::<char>::empty(),
            indent(1) + ty.c_text() + " total = 0;"@,
            indent(1) + "for (int i = 0; i < "@ + decimal(trips as int) + "; i++) {"@,
            indent(2) + "total += ("@ + ty.c_text() + ")(i * 3 + 1);"@,
            indent(1) + "}"@,
            Seq::<char>::empty(),
        ],
        TripBound::Unknown => seq![
            input_read(Ty::I32, "limit"@),
            Seq::<char>::empty(),
            indent(1) + ty.c_text() + " total = 0;"@,
            indent(1) + "for (int i = 0; i < limit; i++) {"@,
            indent(2) + "total += ("@ + ty.c_text() + ")(i * 3 + 1);"@,
            indent(1) + "}"@,
            Seq::<char>::empty(),
        ],
    }
}

/// The headers.
pub open spec fn unroll_includes(ty: Ty, trips: i128, shape: TripBound) -> Seq<Seq<char>> {
    match shape {
        TripBound::Known => Seq::empty(),
        TripBound::Unknown => Seq::empty(),
    }
}

/// What the program prints.
pub open spec fn unroll_expected(ty: Ty, trips: i128, shape: TripBound) -> Seq<int> {
    match shape {
        TripBound::Known => Seq::empty(),
        TripBound::Unknown => Seq::empty(),
    }
}

/// Writes some of the shapes.
#[verifier::rlimit(100)]
fn unroll_write_0(program: &mut Program, ty: Ty, trips: i128, shape: TripBound)
    requires
        old(program).top_lines() == Seq::<Seq<char>>::empty(),
        old(program).body_lines() == Seq::<Seq<char>>::empty(),
        old(program).expected_values() == Seq::<int>::empty(),
        old(program).include_lines() == Seq::<Seq<char>>::empty(),
        !old(program).sinks(),
        1 <= trips <= 100,
        shape == TripBound::Known || shape == TripBound::Unknown,
    ensures
        final(program).top_lines() == unroll_top(ty, trips, shape),
        final(program).body_lines() == unroll_body(ty, trips, shape),
        final(program).expected_values() == unroll_expected(ty, trips, shape),
        final(program).include_lines() == unroll_includes(ty, trips, shape),
        !final(program).sinks(),
        final(program).purpose_text() == old(program).purpose_text(),
{
    let c = ty.c_name();
    match shape {
        TripBound::Known => {
            program.blank();
            let mut text1 = String::from_str(c);
            text1.append(" total = 0;");
            program.line(text1.as_str());
            let mut text2 = String::from_str("for (int i = 0; i < ");
            push_decimal(&mut text2, trips);
            text2.append("; i++) {");
            program.line(text2.as_str());
            let mut text3 = String::from_str("total += (");
            text3.append(c);
            text3.append(")(i * 3 + 1);");
            program.line_at(1, text3.as_str());
            program.line("}");
            program.blank();
            assert(program.top_lines() =~~= unroll_top(ty, trips, shape));
            assert(program.body_lines() =~~= unroll_body(ty, trips, shape));
            assert(program.expected_values() =~= unroll_expected(ty, trips, shape));
            assert(program.include_lines() =~~= unroll_includes(ty, trips, shape));
        },
        TripBound::Unknown => {
            program.input(Ty::I32, "limit", trips);
            program.blank();
            let mut text1 = String::from_str(c);
            text1.append(" total = 0;");
            program.line(text1.as_str());
            program.line("for (int i = 0; i < limit; i++) {");
            let mut text2 = String::from_str("total += (");
            text2.append(c);
            text2.append(")(i * 3 + 1);");
            program.line_at(1, text2.as_str());
            program.line("}");
            program.blank();
            assert(program.top_lines() =~~= unroll_top(ty, trips, shape));
            assert(program.body_lines() =~~= unroll_body(ty, trips, shape));
            assert(program.expected_values() =~= unroll_expected(ty, trips, shape));
            assert(program.include_lines() =~~= unroll_includes(ty, trips, shape));
        },
    }
}

/// Writes a shape.
fn unroll_write(program: &mut Program, ty: Ty, trips: i128, shape: TripBound)
    requires
        old(program).top_lines() == Seq::<Seq<char>>::empty(),
        old(program).body_lines() == Seq::<Seq<char>>::empty(),
        old(program).expected_values() == Seq::<int>::empty(),
        old(program).include_lines() == Seq::<Seq<char>>::empty(),
        !old(program).sinks(),
        1 <= trips <= 100,
    ensures
        final(program).top_lines() == unroll_top(ty, trips, shape),
        final(program).body_lines() == unroll_body(ty, trips, shape),
        final(program).expected_values() == unroll_expected(ty, trips, shape),
        final(program).include_lines() == unroll_includes(ty, trips, shape),
        !final(program).sinks(),
        final(program).purpose_text() == old(program).purpose_text(),
{
    match shape {
        TripBound::Known | TripBound::Unknown => {
            unroll_write_0(program, ty, trips, shape);
        },
    }
}

/// Whether a case is the unroll program for its point, whole.
pub open spec fn is_unroll_case(c: Case, ty: Ty, trips: i128, shape: TripBound) -> bool {
    &&& c.axes_text() == seq![("type"@, ty.name_text()), ("trips"@, decimal(trips as int)), ("bound"@, shape.name_text())]
    &&& c.tags_text() == Seq::<Seq<char>>::empty()
    &&& c.program.purpose_text() == "a "@ + decimal(trips as int) + " iteration "@ + ty.c_text() + " loop with "@ + shape.words_text()
    &&& c.program.include_lines() == unroll_includes(ty, trips, shape)
    &&& c.program.top_lines() == unroll_top(ty, trips, shape)
    &&& c.program.body_lines() == unroll_body(ty, trips, shape).push(print_line(1, ty.promotion(), "total"@))
    &&& c.program.expected_values() == seq![3 * (trips * (trips - 1) / 2) + trips]
    &&& !c.program.sinks()
}

/// The unroll program for one point.
fn unroll_case(ty: Ty, trips: i128, shape: TripBound) -> (r: Case)
    requires
        1 <= trips <= 100,
    ensures
        is_unroll_case(r, ty, trips, shape),
{
    let mut purpose = String::new();
    purpose.append("a ");
    push_decimal(&mut purpose, trips);
    purpose.append(" iteration ");
    purpose.append(ty.c_name());
    purpose.append(" loop with ");
    purpose.append(shape.words());
    assert(purpose@ =~= "a "@ + decimal(trips as int) + " iteration "@ + ty.c_text() + " loop with "@ + shape.words_text());
    let mut program = Program::new(purpose.as_str());
    unroll_write(&mut program, ty, trips, shape);
    assert(0 <= trips * (trips - 1) <= 100 * 99 && 0 <= trips * (trips + 1) <= 100 * 101) by (nonlinear_arith)
        requires
            1 <= trips <= 100,
    ;
    program.check(ty.promoted(), "total", 3 * (trips * (trips - 1) / 2) + trips);
    let axes = vec![axis("type", ty.name()), axis("trips", decimal_string(trips).as_str()), axis("bound", shape.name())];
    let r = Case { axes, tags: tags_for(false), program };
    assert(r.axes_text() =~= seq![("type"@, ty.name_text()), ("trips"@, decimal(trips as int)), ("bound"@, shape.name_text())]);
    assert(r.tags_text() =~= Seq::<Seq<char>>::empty());
    assert(r.program.expected_values() =~= seq![3 * (trips * (trips - 1) / 2) + trips]);
    r
}

/// Loops with a trip count written in the program and the same loops with it read at run time,
/// on every type at the width of a register and every trip count.
///
/// The written ones are what a compiler unrolls; the others are the control, since a trip count
/// out of a `volatile` global cannot be unrolled fully.
pub fn loop_unroll() -> (r: Vec<Case>)
    ensures
        r@.len() == 64,
        forall|k: int| 0 <= k < 64 ==> is_unroll_case(#[trigger] r@[k], wide_types()[k / 16], seq![1i128, 2i128, 3i128, 4i128, 7i128, 8i128, 16i128, 100i128][(k / 2) % 8], trip_bounds_list()[k % 2]),
{
    let types = wide();
    let trips_all: [i128; 8] = [1, 2, 3, 4, 7, 8, 16, 100];
    let shape_all = trip_bounds_array();
    let mut out: Vec<Case> = Vec::new();
    let mut k: usize = 0;
    while k < 64
        invariant
            k <= 64,
            types@ == wide_types(),
            trips_all@ == seq![1i128, 2i128, 3i128, 4i128, 7i128, 8i128, 16i128, 100i128],
            shape_all@ == trip_bounds_list(),
            out@.len() == k,
            forall|i: int| 0 <= i < k ==> is_unroll_case(#[trigger] out@[i], wide_types()[i / 16], seq![1i128, 2i128, 3i128, 4i128, 7i128, 8i128, 16i128, 100i128][(i / 2) % 8], trip_bounds_list()[i % 2]),
        decreases 64 - k,
    {
        out.push(unroll_case(types[k / 16], trips_all[(k / 2) % 8], shape_all[k % 2]));
        k += 1;
    }
    out
}

/// Whether the trip count is written in the program or read at run time.
#[derive(Clone, Copy, Debug, PartialEq, Eq, Structural)]
pub enum DeadBound {
    Known,
    Unknown,
}

impl DeadBound {
    /// The axis value.
    pub open spec fn name_text(self) -> Seq<char> {
        match self {
            DeadBound::Known => "known"@,
            DeadBound::Unknown => "unknown"@,
        }
    }

    /// The axis value.
    pub fn name(self) -> (r: &'static str)
        ensures
            r@ == self.name_text(),
    {
        match self {
            DeadBound::Known => "known",
            DeadBound::Unknown => "unknown",
        }
    }

    /// How the purpose line says it.
    pub open spec fn words_text(self) -> Seq<char> {
        match self {
            DeadBound::Known => "a known"@,
            DeadBound::Unknown => "an unknown"@,
        }
    }

    /// How the purpose line says it.
    pub fn words(self) -> (r: &'static str)
        ensures
            r@ == self.words_text(),
    {
        match self {
            DeadBound::Known => "a known",
            DeadBound::Unknown => "an unknown",
        }
    }
}

/// The shapes in the order the facet walks them.
pub open spec fn dead_bounds_list() -> Seq<DeadBound> {
    seq![
        DeadBound::Known,
        DeadBound::Unknown,
    ]
}

/// The shapes in the order the facet walks them.
fn dead_bounds_array() -> (r: Vec<DeadBound>)
    ensures
        r@ == dead_bounds_list(),
{
    let r = vec![
        DeadBound::Known,
        DeadBound::Unknown,
    ];
    assert(r@ =~= dead_bounds_list());
    r
}

/// The lines before `main`.
pub open spec fn dead_top(ty: Ty, trips: i128, shape: DeadBound) -> Seq<Seq<char>> {
    match shape {
        DeadBound::Known => Seq::empty(),
        DeadBound::Unknown => seq![
            input_global(Ty::I32, "limit"@, trips as int),
        ],
    }
}

/// The statements of `main`.
pub open spec fn dead_body(ty: Ty, trips: i128, shape: DeadBound) -> Seq<Seq<char>> {
    match shape {
        DeadBound::Known => seq![
            Seq::<char>::empty(),
            indent(1) + ty.c_text() + " unread = 0;"@,
            indent(1) + "for (int i = 0; i < "@ + decimal(trips as int) + "; i++) {"@,
            indent(2) + "unread += ("@ + ty.c_text() + ")(i * 7 + 1);"@,
            indent(1) + "}"@,
            Seq::<char>::empty(),
            indent(1) + ty.c_text() + " total = 0;"@,
            indent(1) + "for (int i = 0; i < "@ + decimal(trips as int) + "; i++) {"@,
            indent(2) + "total += ("@ + ty.c_text() + ")i;"@,
            indent(1) + "}"@,
            Seq::<char>::empty(),
        ],
        DeadBound::Unknown => seq![
            input_read(Ty::I32, "limit"@),
            Seq::<char>::empty(),
            indent(1) + ty.c_text() + " unread = 0;"@,
            indent(1) + "for (int i = 0; i < limit; i++) {"@,
            indent(2) + "unread += ("@ + ty.c_text() + ")(i * 7 + 1);"@,
            indent(1) + "}"@,
            Seq::<char>::empty(),
            indent(1) + ty.c_text() + " total = 0;"@,
            indent(1) + "for (int i = 0; i < limit; i++) {"@,
            indent(2) + "total += ("@ + ty.c_text() + ")i;"@,
            indent(1) + "}"@,
            Seq::<char>::empty(),
        ],
    }
}

/// The headers.
pub open spec fn dead_includes(ty: Ty, trips: i128, shape: DeadBound) -> Seq<Seq<char>> {
    match shape {
        DeadBound::Known => Seq::empty(),
        DeadBound::Unknown => Seq::empty(),
    }
}

/// What the program prints.
pub open spec fn dead_expected(ty: Ty, trips: i128, shape: DeadBound) -> Seq<int> {
    match shape {
        DeadBound::Known => Seq::empty(),
        DeadBound::Unknown => Seq::empty(),
    }
}

/// Writes some of the shapes.
#[verifier::rlimit(100)]
fn dead_write_0(program: &mut Program, ty: Ty, trips: i128, shape: DeadBound)
    requires
        old(program).top_lines() == Seq::<Seq<char>>::empty(),
        old(program).body_lines() == Seq::<Seq<char>>::empty(),
        old(program).expected_values() == Seq::<int>::empty(),
        old(program).include_lines() == Seq::<Seq<char>>::empty(),
        !old(program).sinks(),
        1 <= trips <= 100,
        shape == DeadBound::Known || shape == DeadBound::Unknown,
    ensures
        final(program).top_lines() == dead_top(ty, trips, shape),
        final(program).body_lines() == dead_body(ty, trips, shape),
        final(program).expected_values() == dead_expected(ty, trips, shape),
        final(program).include_lines() == dead_includes(ty, trips, shape),
        !final(program).sinks(),
        final(program).purpose_text() == old(program).purpose_text(),
{
    let c = ty.c_name();
    match shape {
        DeadBound::Known => {
            program.blank();
            let mut text1 = String::from_str(c);
            text1.append(" unread = 0;");
            program.line(text1.as_str());
            let mut text2 = String::from_str("for (int i = 0; i < ");
            push_decimal(&mut text2, trips);
            text2.append("; i++) {");
            program.line(text2.as_str());
            let mut text3 = String::from_str("unread += (");
            text3.append(c);
            text3.append(")(i * 7 + 1);");
            program.line_at(1, text3.as_str());
            program.line("}");
            program.blank();
            let mut text4 = String::from_str(c);
            text4.append(" total = 0;");
            program.line(text4.as_str());
            let mut text5 = String::from_str("for (int i = 0; i < ");
            push_decimal(&mut text5, trips);
            text5.append("; i++) {");
            program.line(text5.as_str());
            let mut text6 = String::from_str("total += (");
            text6.append(c);
            text6.append(")i;");
            program.line_at(1, text6.as_str());
            program.line("}");
            program.blank();
            assert(program.top_lines() =~~= dead_top(ty, trips, shape));
            assert(program.body_lines() =~~= dead_body(ty, trips, shape));
            assert(program.expected_values() =~= dead_expected(ty, trips, shape));
            assert(program.include_lines() =~~= dead_includes(ty, trips, shape));
        },
        DeadBound::Unknown => {
            program.input(Ty::I32, "limit", trips);
            program.blank();
            let mut text1 = String::from_str(c);
            text1.append(" unread = 0;");
            program.line(text1.as_str());
            program.line("for (int i = 0; i < limit; i++) {");
            let mut text2 = String::from_str("unread += (");
            text2.append(c);
            text2.append(")(i * 7 + 1);");
            program.line_at(1, text2.as_str());
            program.line("}");
            program.blank();
            let mut text3 = String::from_str(c);
            text3.append(" total = 0;");
            program.line(text3.as_str());
            program.line("for (int i = 0; i < limit; i++) {");
            let mut text4 = String::from_str("total += (");
            text4.append(c);
            text4.append(")i;");
            program.line_at(1, text4.as_str());
            program.line("}");
            program.blank();
            assert(program.top_lines() =~~= dead_top(ty, trips, shape));
            assert(program.body_lines() =~~= dead_body(ty, trips, shape));
            assert(program.expected_values() =~= dead_expected(ty, trips, shape));
            assert(program.include_lines() =~~= dead_includes(ty, trips, shape));
        },
    }
}

/// Writes a shape.
fn dead_write(program: &mut Program, ty: Ty, trips: i128, shape: DeadBound)
    requires
        old(program).top_lines() == Seq::<Seq<char>>::empty(),
        old(program).body_lines() == Seq::<Seq<char>>::empty(),
        old(program).expected_values() == Seq::<int>::empty(),
        old(program).include_lines() == Seq::<Seq<char>>::empty(),
        !old(program).sinks(),
        1 <= trips <= 100,
    ensures
        final(program).top_lines() == dead_top(ty, trips, shape),
        final(program).body_lines() == dead_body(ty, trips, shape),
        final(program).expected_values() == dead_expected(ty, trips, shape),
        final(program).include_lines() == dead_includes(ty, trips, shape),
        !final(program).sinks(),
        final(program).purpose_text() == old(program).purpose_text(),
{
    match shape {
        DeadBound::Known | DeadBound::Unknown => {
            dead_write_0(program, ty, trips, shape);
        },
    }
}

/// Whether a case is the dead program for its point, whole.
pub open spec fn is_dead_case(c: Case, ty: Ty, trips: i128, shape: DeadBound) -> bool {
    &&& c.axes_text() == seq![("type"@, ty.name_text()), ("trips"@, decimal(trips as int)), ("bound"@, shape.name_text())]
    &&& c.tags_text() == Seq::<Seq<char>>::empty()
    &&& c.program.purpose_text() == "a dead "@ + decimal(trips as int) + " iteration "@ + ty.c_text() + " loop with an "@ + shape.name_text() + " bound"@
    &&& c.program.include_lines() == dead_includes(ty, trips, shape)
    &&& c.program.top_lines() == dead_top(ty, trips, shape)
    &&& c.program.body_lines() == dead_body(ty, trips, shape).push(print_line(1, ty.promotion(), "total"@))
    &&& c.program.expected_values() == seq![trips * (trips - 1) / 2]
    &&& !c.program.sinks()
}

/// The dead program for one point.
fn dead_case(ty: Ty, trips: i128, shape: DeadBound) -> (r: Case)
    requires
        1 <= trips <= 100,
    ensures
        is_dead_case(r, ty, trips, shape),
{
    let mut purpose = String::new();
    purpose.append("a dead ");
    push_decimal(&mut purpose, trips);
    purpose.append(" iteration ");
    purpose.append(ty.c_name());
    purpose.append(" loop with an ");
    purpose.append(shape.name());
    purpose.append(" bound");
    assert(purpose@ =~= "a dead "@ + decimal(trips as int) + " iteration "@ + ty.c_text() + " loop with an "@ + shape.name_text() + " bound"@);
    let mut program = Program::new(purpose.as_str());
    dead_write(&mut program, ty, trips, shape);
    assert(0 <= trips * (trips - 1) <= 100 * 99 && 0 <= trips * (trips + 1) <= 100 * 101) by (nonlinear_arith)
        requires
            1 <= trips <= 100,
    ;
    program.check(ty.promoted(), "total", trips * (trips - 1) / 2);
    let axes = vec![axis("type", ty.name()), axis("trips", decimal_string(trips).as_str()), axis("bound", shape.name())];
    let r = Case { axes, tags: tags_for(false), program };
    assert(r.axes_text() =~= seq![("type"@, ty.name_text()), ("trips"@, decimal(trips as int)), ("bound"@, shape.name_text())]);
    assert(r.tags_text() =~= Seq::<Seq<char>>::empty());
    assert(r.program.expected_values() =~= seq![trips * (trips - 1) / 2]);
    r
}

/// A loop whose result nobody reads beside a live one, with the bound written and read at run
/// time, on every type at the width of a register.
///
/// A loop computing into a local nothing uses can be deleted once it is seen to end, and one
/// with an unknown bound can be too; the live loop gives the program an answer to check.
pub fn loop_deletion() -> (r: Vec<Case>)
    ensures
        r@.len() == 24,
        forall|k: int| 0 <= k < 24 ==> is_dead_case(#[trigger] r@[k], wide_types()[k / 6], seq![4i128, 16i128, 100i128][(k / 2) % 3], dead_bounds_list()[k % 2]),
{
    let types = wide();
    let trips_all: [i128; 3] = [4, 16, 100];
    let shape_all = dead_bounds_array();
    let mut out: Vec<Case> = Vec::new();
    let mut k: usize = 0;
    while k < 24
        invariant
            k <= 24,
            types@ == wide_types(),
            trips_all@ == seq![4i128, 16i128, 100i128],
            shape_all@ == dead_bounds_list(),
            out@.len() == k,
            forall|i: int| 0 <= i < k ==> is_dead_case(#[trigger] out@[i], wide_types()[i / 6], seq![4i128, 16i128, 100i128][(i / 2) % 3], dead_bounds_list()[i % 2]),
        decreases 24 - k,
    {
        out.push(dead_case(types[k / 6], trips_all[(k / 2) % 3], shape_all[k % 2]));
        k += 1;
    }
    out
}

/// One iteration written as each of the loops C has.
#[derive(Clone, Copy, Debug, PartialEq, Eq, Structural)]
pub enum LoopSpelling {
    For,
    While,
    DoWhile,
    Goto,
}

impl LoopSpelling {
    /// The axis value.
    pub open spec fn name_text(self) -> Seq<char> {
        match self {
            LoopSpelling::For => "for"@,
            LoopSpelling::While => "while"@,
            LoopSpelling::DoWhile => "do-while"@,
            LoopSpelling::Goto => "goto"@,
        }
    }

    /// The axis value.
    pub fn name(self) -> (r: &'static str)
        ensures
            r@ == self.name_text(),
    {
        match self {
            LoopSpelling::For => "for",
            LoopSpelling::While => "while",
            LoopSpelling::DoWhile => "do-while",
            LoopSpelling::Goto => "goto",
        }
    }
}

/// The shapes in the order the facet walks them.
pub open spec fn loop_spellings_list() -> Seq<LoopSpelling> {
    seq![
        LoopSpelling::For,
        LoopSpelling::While,
        LoopSpelling::DoWhile,
        LoopSpelling::Goto,
    ]
}

/// The shapes in the order the facet walks them.
fn loop_spellings_array() -> (r: Vec<LoopSpelling>)
    ensures
        r@ == loop_spellings_list(),
{
    let r = vec![
        LoopSpelling::For,
        LoopSpelling::While,
        LoopSpelling::DoWhile,
        LoopSpelling::Goto,
    ];
    assert(r@ =~= loop_spellings_list());
    r
}

/// The lines before `main`.
pub open spec fn rotate_top(ty: Ty, trips: i128, shape: LoopSpelling) -> Seq<Seq<char>> {
    match shape {
        LoopSpelling::For => Seq::empty(),
        LoopSpelling::While => Seq::empty(),
        LoopSpelling::DoWhile => Seq::empty(),
        LoopSpelling::Goto => Seq::empty(),
    }
}

/// The statements of `main`.
pub open spec fn rotate_body(ty: Ty, trips: i128, shape: LoopSpelling) -> Seq<Seq<char>> {
    match shape {
        LoopSpelling::For => seq![
            indent(1) + ty.c_text() + " total = 0;"@,
            indent(1) + "int i = 0;"@,
            indent(1) + "for (i = 0; i < "@ + decimal(trips as int) + "; i++) {"@,
            indent(2) + "total += ("@ + ty.c_text() + ")(i + 1);"@,
            indent(1) + "}"@,
            Seq::<char>::empty(),
        ],
        LoopSpelling::While => seq![
            indent(1) + ty.c_text() + " total = 0;"@,
            indent(1) + "int i = 0;"@,
            indent(1) + "while (i < "@ + decimal(trips as int) + ") {"@,
            indent(2) + "total += ("@ + ty.c_text() + ")(i + 1);"@,
            indent(2) + "i++;"@,
            indent(1) + "}"@,
            Seq::<char>::empty(),
        ],
        LoopSpelling::DoWhile => seq![
            indent(1) + ty.c_text() + " total = 0;"@,
            indent(1) + "int i = 0;"@,
            indent(1) + "if (0 < "@ + decimal(trips as int) + ") {"@,
            indent(2) + "do {"@,
            indent(3) + "total += ("@ + ty.c_text() + ")(i + 1);"@,
            indent(3) + "i++;"@,
            indent(2) + "} while (i < "@ + decimal(trips as int) + ");"@,
            indent(1) + "}"@,
            Seq::<char>::empty(),
        ],
        LoopSpelling::Goto => seq![
            indent(1) + ty.c_text() + " total = 0;"@,
            indent(1) + "int i = 0;"@,
            indent(1) + "top:"@,
            indent(1) + "if (i < "@ + decimal(trips as int) + ") {"@,
            indent(2) + "total += ("@ + ty.c_text() + ")(i + 1);"@,
            indent(2) + "i++;"@,
            indent(2) + "goto top;"@,
            indent(1) + "}"@,
            Seq::<char>::empty(),
        ],
    }
}

/// The headers.
pub open spec fn rotate_includes(ty: Ty, trips: i128, shape: LoopSpelling) -> Seq<Seq<char>> {
    match shape {
        LoopSpelling::For => Seq::empty(),
        LoopSpelling::While => Seq::empty(),
        LoopSpelling::DoWhile => Seq::empty(),
        LoopSpelling::Goto => Seq::empty(),
    }
}

/// What the program prints.
pub open spec fn rotate_expected(ty: Ty, trips: i128, shape: LoopSpelling) -> Seq<int> {
    match shape {
        LoopSpelling::For => Seq::empty(),
        LoopSpelling::While => Seq::empty(),
        LoopSpelling::DoWhile => Seq::empty(),
        LoopSpelling::Goto => Seq::empty(),
    }
}

/// Writes some of the shapes.
#[verifier::rlimit(100)]
fn rotate_write_0(program: &mut Program, ty: Ty, trips: i128, shape: LoopSpelling)
    requires
        old(program).top_lines() == Seq::<Seq<char>>::empty(),
        old(program).body_lines() == Seq::<Seq<char>>::empty(),
        old(program).expected_values() == Seq::<int>::empty(),
        old(program).include_lines() == Seq::<Seq<char>>::empty(),
        !old(program).sinks(),
        1 <= trips <= 100,
        shape == LoopSpelling::For || shape == LoopSpelling::While,
    ensures
        final(program).top_lines() == rotate_top(ty, trips, shape),
        final(program).body_lines() == rotate_body(ty, trips, shape),
        final(program).expected_values() == rotate_expected(ty, trips, shape),
        final(program).include_lines() == rotate_includes(ty, trips, shape),
        !final(program).sinks(),
        final(program).purpose_text() == old(program).purpose_text(),
{
    let c = ty.c_name();
    match shape {
        LoopSpelling::For => {
            let mut text1 = String::from_str(c);
            text1.append(" total = 0;");
            program.line(text1.as_str());
            program.line("int i = 0;");
            let mut text2 = String::from_str("for (i = 0; i < ");
            push_decimal(&mut text2, trips);
            text2.append("; i++) {");
            program.line(text2.as_str());
            let mut text3 = String::from_str("total += (");
            text3.append(c);
            text3.append(")(i + 1);");
            program.line_at(1, text3.as_str());
            program.line("}");
            program.blank();
            assert(program.top_lines() =~~= rotate_top(ty, trips, shape));
            assert(program.body_lines() =~~= rotate_body(ty, trips, shape));
            assert(program.expected_values() =~= rotate_expected(ty, trips, shape));
            assert(program.include_lines() =~~= rotate_includes(ty, trips, shape));
        },
        LoopSpelling::While => {
            let mut text1 = String::from_str(c);
            text1.append(" total = 0;");
            program.line(text1.as_str());
            program.line("int i = 0;");
            let mut text2 = String::from_str("while (i < ");
            push_decimal(&mut text2, trips);
            text2.append(") {");
            program.line(text2.as_str());
            let mut text3 = String::from_str("total += (");
            text3.append(c);
            text3.append(")(i + 1);");
            program.line_at(1, text3.as_str());
            program.line_at(1, "i++;");
            program.line("}");
            program.blank();
            assert(program.top_lines() =~~= rotate_top(ty, trips, shape));
            assert(program.body_lines() =~~= rotate_body(ty, trips, shape));
            assert(program.expected_values() =~= rotate_expected(ty, trips, shape));
            assert(program.include_lines() =~~= rotate_includes(ty, trips, shape));
        },
        _ => {},
    }
}

/// Writes some of the shapes.
#[verifier::rlimit(100)]
fn rotate_write_1(program: &mut Program, ty: Ty, trips: i128, shape: LoopSpelling)
    requires
        old(program).top_lines() == Seq::<Seq<char>>::empty(),
        old(program).body_lines() == Seq::<Seq<char>>::empty(),
        old(program).expected_values() == Seq::<int>::empty(),
        old(program).include_lines() == Seq::<Seq<char>>::empty(),
        !old(program).sinks(),
        1 <= trips <= 100,
        shape == LoopSpelling::DoWhile || shape == LoopSpelling::Goto,
    ensures
        final(program).top_lines() == rotate_top(ty, trips, shape),
        final(program).body_lines() == rotate_body(ty, trips, shape),
        final(program).expected_values() == rotate_expected(ty, trips, shape),
        final(program).include_lines() == rotate_includes(ty, trips, shape),
        !final(program).sinks(),
        final(program).purpose_text() == old(program).purpose_text(),
{
    let c = ty.c_name();
    match shape {
        LoopSpelling::DoWhile => {
            let mut text1 = String::from_str(c);
            text1.append(" total = 0;");
            program.line(text1.as_str());
            program.line("int i = 0;");
            let mut text2 = String::from_str("if (0 < ");
            push_decimal(&mut text2, trips);
            text2.append(") {");
            program.line(text2.as_str());
            program.line_at(1, "do {");
            let mut text3 = String::from_str("total += (");
            text3.append(c);
            text3.append(")(i + 1);");
            program.line_at(2, text3.as_str());
            program.line_at(2, "i++;");
            let mut text4 = String::from_str("} while (i < ");
            push_decimal(&mut text4, trips);
            text4.append(");");
            program.line_at(1, text4.as_str());
            program.line("}");
            program.blank();
            assert(program.top_lines() =~~= rotate_top(ty, trips, shape));
            assert(program.body_lines() =~~= rotate_body(ty, trips, shape));
            assert(program.expected_values() =~= rotate_expected(ty, trips, shape));
            assert(program.include_lines() =~~= rotate_includes(ty, trips, shape));
        },
        LoopSpelling::Goto => {
            let mut text1 = String::from_str(c);
            text1.append(" total = 0;");
            program.line(text1.as_str());
            program.line("int i = 0;");
            program.line("top:");
            let mut text2 = String::from_str("if (i < ");
            push_decimal(&mut text2, trips);
            text2.append(") {");
            program.line(text2.as_str());
            let mut text3 = String::from_str("total += (");
            text3.append(c);
            text3.append(")(i + 1);");
            program.line_at(1, text3.as_str());
            program.line_at(1, "i++;");
            program.line_at(1, "goto top;");
            program.line("}");
            program.blank();
            assert(program.top_lines() =~~= rotate_top(ty, trips, shape));
            assert(program.body_lines() =~~= rotate_body(ty, trips, shape));
            assert(program.expected_values() =~= rotate_expected(ty, trips, shape));
            assert(program.include_lines() =~~= rotate_includes(ty, trips, shape));
        },
        _ => {},
    }
}

/// Writes a shape.
fn rotate_write(program: &mut Program, ty: Ty, trips: i128, shape: LoopSpelling)
    requires
        old(program).top_lines() == Seq::<Seq<char>>::empty(),
        old(program).body_lines() == Seq::<Seq<char>>::empty(),
        old(program).expected_values() == Seq::<int>::empty(),
        old(program).include_lines() == Seq::<Seq<char>>::empty(),
        !old(program).sinks(),
        1 <= trips <= 100,
    ensures
        final(program).top_lines() == rotate_top(ty, trips, shape),
        final(program).body_lines() == rotate_body(ty, trips, shape),
        final(program).expected_values() == rotate_expected(ty, trips, shape),
        final(program).include_lines() == rotate_includes(ty, trips, shape),
        !final(program).sinks(),
        final(program).purpose_text() == old(program).purpose_text(),
{
    match shape {
        LoopSpelling::For | LoopSpelling::While => {
            rotate_write_0(program, ty, trips, shape);
        },
        LoopSpelling::DoWhile | LoopSpelling::Goto => {
            rotate_write_1(program, ty, trips, shape);
        },
    }
}

/// Whether a case is the rotate program for its point, whole.
pub open spec fn is_rotate_case(c: Case, ty: Ty, trips: i128, shape: LoopSpelling) -> bool {
    &&& c.axes_text() == seq![("type"@, ty.name_text()), ("trips"@, decimal(trips as int)), ("shape"@, shape.name_text())]
    &&& c.tags_text() == Seq::<Seq<char>>::empty()
    &&& c.program.purpose_text() == "a "@ + decimal(trips as int) + " iteration "@ + ty.c_text() + " loop written as a "@ + shape.name_text()
    &&& c.program.include_lines() == rotate_includes(ty, trips, shape)
    &&& c.program.top_lines() == rotate_top(ty, trips, shape)
    &&& c.program.body_lines() == rotate_body(ty, trips, shape).push(print_line(1, ty.promotion(), "total"@))
    &&& c.program.expected_values() == seq![trips * (trips + 1) / 2]
    &&& !c.program.sinks()
}

/// The rotate program for one point.
fn rotate_case(ty: Ty, trips: i128, shape: LoopSpelling) -> (r: Case)
    requires
        1 <= trips <= 100,
    ensures
        is_rotate_case(r, ty, trips, shape),
{
    let mut purpose = String::new();
    purpose.append("a ");
    push_decimal(&mut purpose, trips);
    purpose.append(" iteration ");
    purpose.append(ty.c_name());
    purpose.append(" loop written as a ");
    purpose.append(shape.name());
    assert(purpose@ =~= "a "@ + decimal(trips as int) + " iteration "@ + ty.c_text() + " loop written as a "@ + shape.name_text());
    let mut program = Program::new(purpose.as_str());
    rotate_write(&mut program, ty, trips, shape);
    assert(0 <= trips * (trips - 1) <= 100 * 99 && 0 <= trips * (trips + 1) <= 100 * 101) by (nonlinear_arith)
        requires
            1 <= trips <= 100,
    ;
    program.check(ty.promoted(), "total", trips * (trips + 1) / 2);
    let axes = vec![axis("type", ty.name()), axis("trips", decimal_string(trips).as_str()), axis("shape", shape.name())];
    let r = Case { axes, tags: tags_for(false), program };
    assert(r.axes_text() =~= seq![("type"@, ty.name_text()), ("trips"@, decimal(trips as int)), ("shape"@, shape.name_text())]);
    assert(r.tags_text() =~= Seq::<Seq<char>>::empty());
    assert(r.program.expected_values() =~= seq![trips * (trips + 1) / 2]);
    r
}

/// The same loop written as a `for`, a `while`, a guarded `do while` and a `goto`, on every type
/// at the width of a register.
///
/// A compiler that rotates loops turns the first two into something close to the third, so the
/// four side by side say whether rotation happened. The `do while` carries the guard rotation
/// inserts, so all four describe the same iteration.
pub fn loop_rotate() -> (r: Vec<Case>)
    ensures
        r@.len() == 64,
        forall|k: int| 0 <= k < 64 ==> is_rotate_case(#[trigger] r@[k], wide_types()[k / 16], seq![1i128, 2i128, 7i128, 16i128][(k / 4) % 4], loop_spellings_list()[k % 4]),
{
    let types = wide();
    let trips_all: [i128; 4] = [1, 2, 7, 16];
    let shape_all = loop_spellings_array();
    let mut out: Vec<Case> = Vec::new();
    let mut k: usize = 0;
    while k < 64
        invariant
            k <= 64,
            types@ == wide_types(),
            trips_all@ == seq![1i128, 2i128, 7i128, 16i128],
            shape_all@ == loop_spellings_list(),
            out@.len() == k,
            forall|i: int| 0 <= i < k ==> is_rotate_case(#[trigger] out@[i], wide_types()[i / 16], seq![1i128, 2i128, 7i128, 16i128][(i / 4) % 4], loop_spellings_list()[i % 4]),
        decreases 64 - k,
    {
        out.push(rotate_case(types[k / 16], trips_all[(k / 4) % 4], shape_all[k % 4]));
        k += 1;
    }
    out
}

/// A loop that is a library function in disguise.
#[derive(Clone, Copy, Debug, PartialEq, Eq, Structural)]
pub enum Idiom {
    Fill,
    Copy,
    Sum,
    Count,
}

impl Idiom {
    /// The axis value.
    pub open spec fn name_text(self) -> Seq<char> {
        match self {
            Idiom::Fill => "fill"@,
            Idiom::Copy => "copy"@,
            Idiom::Sum => "sum"@,
            Idiom::Count => "count"@,
        }
    }

    /// The axis value.
    pub fn name(self) -> (r: &'static str)
        ensures
            r@ == self.name_text(),
    {
        match self {
            Idiom::Fill => "fill",
            Idiom::Copy => "copy",
            Idiom::Sum => "sum",
            Idiom::Count => "count",
        }
    }
}

/// The shapes in the order the facet walks them.
pub open spec fn idioms_list() -> Seq<Idiom> {
    seq![
        Idiom::Fill,
        Idiom::Copy,
        Idiom::Sum,
        Idiom::Count,
    ]
}

/// The shapes in the order the facet walks them.
fn idioms_array() -> (r: Vec<Idiom>)
    ensures
        r@ == idioms_list(),
{
    let r = vec![
        Idiom::Fill,
        Idiom::Copy,
        Idiom::Sum,
        Idiom::Count,
    ];
    assert(r@ =~= idioms_list());
    r
}

/// The lines before `main`.
pub open spec fn idiom_top(ty: Ty, trips: i128, shape: Idiom) -> Seq<Seq<char>> {
    match shape {
        Idiom::Fill => Seq::empty(),
        Idiom::Copy => Seq::empty(),
        Idiom::Sum => Seq::empty(),
        Idiom::Count => Seq::empty(),
    }
}

/// The statements of `main`.
pub open spec fn idiom_body(ty: Ty, trips: i128, shape: Idiom) -> Seq<Seq<char>> {
    match shape {
        Idiom::Fill => seq![
            indent(1) + ty.c_text() + " source["@ + decimal(trips as int) + "];"@,
            indent(1) + ty.c_text() + " target["@ + decimal(trips as int) + "];"@,
            indent(1) + "for (int i = 0; i < "@ + decimal(trips as int) + "; i++) {"@,
            indent(2) + "source[i] = ("@ + ty.c_text() + ")(i + 1);"@,
            indent(1) + "}"@,
            Seq::<char>::empty(),
            indent(1) + "for (int i = 0; i < "@ + decimal(trips as int) + "; i++) {"@,
            indent(2) + "target[i] = "@ + lit_text(ty, 0int) + ";"@,
            indent(1) + "}"@,
            Seq::<char>::empty(),
            print_line(1, ty.promotion(), "target[0]"@),
            print_line(1, ty.promotion(), "target["@ + decimal(trips - 1 as int) + "]"@),
        ],
        Idiom::Copy => seq![
            indent(1) + ty.c_text() + " source["@ + decimal(trips as int) + "];"@,
            indent(1) + ty.c_text() + " target["@ + decimal(trips as int) + "];"@,
            indent(1) + "for (int i = 0; i < "@ + decimal(trips as int) + "; i++) {"@,
            indent(2) + "source[i] = ("@ + ty.c_text() + ")(i + 1);"@,
            indent(1) + "}"@,
            Seq::<char>::empty(),
            indent(1) + "for (int i = 0; i < "@ + decimal(trips as int) + "; i++) {"@,
            indent(2) + "target[i] = source[i];"@,
            indent(1) + "}"@,
            Seq::<char>::empty(),
            print_line(1, ty.promotion(), "target[0]"@),
            print_line(1, ty.promotion(), "target["@ + decimal(trips - 1 as int) + "]"@),
        ],
        Idiom::Sum => seq![
            indent(1) + ty.c_text() + " source["@ + decimal(trips as int) + "];"@,
            indent(1) + ty.c_text() + " target["@ + decimal(trips as int) + "];"@,
            indent(1) + "for (int i = 0; i < "@ + decimal(trips as int) + "; i++) {"@,
            indent(2) + "source[i] = ("@ + ty.c_text() + ")(i + 1);"@,
            indent(1) + "}"@,
            Seq::<char>::empty(),
            indent(1) + ty.c_text() + " total = 0;"@,
            indent(1) + "for (int i = 0; i < "@ + decimal(trips as int) + "; i++) {"@,
            indent(2) + "total += source[i];"@,
            indent(1) + "}"@,
            Seq::<char>::empty(),
            print_line(1, ty.promotion(), "total"@),
        ],
        Idiom::Count => seq![
            indent(1) + ty.c_text() + " source["@ + decimal(trips as int) + "];"@,
            indent(1) + ty.c_text() + " target["@ + decimal(trips as int) + "];"@,
            indent(1) + "for (int i = 0; i < "@ + decimal(trips as int) + "; i++) {"@,
            indent(2) + "source[i] = ("@ + ty.c_text() + ")(i + 1);"@,
            indent(1) + "}"@,
            Seq::<char>::empty(),
            indent(1) + "int matches = 0;"@,
            indent(1) + "for (int i = 0; i < "@ + decimal(trips as int) + "; i++) {"@,
            indent(2) + "if (source[i] % "@ + lit_text(ty, 3int) + " == 0) {"@,
            indent(3) + "matches++;"@,
            indent(2) + "}"@,
            indent(1) + "}"@,
            Seq::<char>::empty(),
            print_line(1, Ty::I32, "matches"@),
        ],
    }
}

/// The headers.
pub open spec fn idiom_includes(ty: Ty, trips: i128, shape: Idiom) -> Seq<Seq<char>> {
    match shape {
        Idiom::Fill => Seq::empty(),
        Idiom::Copy => Seq::empty(),
        Idiom::Sum => Seq::empty(),
        Idiom::Count => Seq::empty(),
    }
}

/// What the program prints.
pub open spec fn idiom_expected(ty: Ty, trips: i128, shape: Idiom) -> Seq<int> {
    match shape {
        Idiom::Fill => seq![
            0int,
            0int,
        ],
        Idiom::Copy => seq![
            1int,
            trips as int,
        ],
        Idiom::Sum => seq![
            trips * (trips + 1) / 2,
        ],
        Idiom::Count => seq![
            trips / 3,
        ],
    }
}

/// Writes some of the shapes.
#[verifier::rlimit(100)]
fn idiom_write_0(program: &mut Program, ty: Ty, trips: i128, shape: Idiom)
    requires
        old(program).top_lines() == Seq::<Seq<char>>::empty(),
        old(program).body_lines() == Seq::<Seq<char>>::empty(),
        old(program).expected_values() == Seq::<int>::empty(),
        old(program).include_lines() == Seq::<Seq<char>>::empty(),
        !old(program).sinks(),
        1 <= trips <= 100,
        shape == Idiom::Fill || shape == Idiom::Copy,
    ensures
        final(program).top_lines() == idiom_top(ty, trips, shape),
        final(program).body_lines() == idiom_body(ty, trips, shape),
        final(program).expected_values() == idiom_expected(ty, trips, shape),
        final(program).include_lines() == idiom_includes(ty, trips, shape),
        !final(program).sinks(),
        final(program).purpose_text() == old(program).purpose_text(),
{
    let c = ty.c_name();
    match shape {
        Idiom::Fill => {
            let mut text1 = String::from_str(c);
            text1.append(" source[");
            push_decimal(&mut text1, trips);
            text1.append("];");
            program.line(text1.as_str());
            let mut text2 = String::from_str(c);
            text2.append(" target[");
            push_decimal(&mut text2, trips);
            text2.append("];");
            program.line(text2.as_str());
            let mut text3 = String::from_str("for (int i = 0; i < ");
            push_decimal(&mut text3, trips);
            text3.append("; i++) {");
            program.line(text3.as_str());
            let mut text4 = String::from_str("source[i] = (");
            text4.append(c);
            text4.append(")(i + 1);");
            program.line_at(1, text4.as_str());
            program.line("}");
            program.blank();
            let mut text5 = String::from_str("for (int i = 0; i < ");
            push_decimal(&mut text5, trips);
            text5.append("; i++) {");
            program.line(text5.as_str());
            let mut text6 = String::from_str("target[i] = ");
            let literal7 = lit(ty, 0);
            text6.append(literal7.as_str());
            text6.append(";");
            program.line_at(1, text6.as_str());
            program.line("}");
            program.blank();
            program.check(ty.promoted(), "target[0]", 0);
            let mut text8 = String::from_str("target[");
            push_decimal(&mut text8, trips - 1);
            text8.append("]");
            program.check(ty.promoted(), text8.as_str(), 0);
            assert(program.top_lines() =~~= idiom_top(ty, trips, shape));
            assert(program.body_lines() =~~= idiom_body(ty, trips, shape));
            assert(program.expected_values() =~= idiom_expected(ty, trips, shape));
            assert(program.include_lines() =~~= idiom_includes(ty, trips, shape));
        },
        Idiom::Copy => {
            let mut text1 = String::from_str(c);
            text1.append(" source[");
            push_decimal(&mut text1, trips);
            text1.append("];");
            program.line(text1.as_str());
            let mut text2 = String::from_str(c);
            text2.append(" target[");
            push_decimal(&mut text2, trips);
            text2.append("];");
            program.line(text2.as_str());
            let mut text3 = String::from_str("for (int i = 0; i < ");
            push_decimal(&mut text3, trips);
            text3.append("; i++) {");
            program.line(text3.as_str());
            let mut text4 = String::from_str("source[i] = (");
            text4.append(c);
            text4.append(")(i + 1);");
            program.line_at(1, text4.as_str());
            program.line("}");
            program.blank();
            let mut text5 = String::from_str("for (int i = 0; i < ");
            push_decimal(&mut text5, trips);
            text5.append("; i++) {");
            program.line(text5.as_str());
            program.line_at(1, "target[i] = source[i];");
            program.line("}");
            program.blank();
            program.check(ty.promoted(), "target[0]", 1);
            let mut text6 = String::from_str("target[");
            push_decimal(&mut text6, trips - 1);
            text6.append("]");
            program.check(ty.promoted(), text6.as_str(), trips);
            assert(program.top_lines() =~~= idiom_top(ty, trips, shape));
            assert(program.body_lines() =~~= idiom_body(ty, trips, shape));
            assert(program.expected_values() =~= idiom_expected(ty, trips, shape));
            assert(program.include_lines() =~~= idiom_includes(ty, trips, shape));
        },
        _ => {},
    }
}

/// Writes some of the shapes.
#[verifier::rlimit(100)]
fn idiom_write_1(program: &mut Program, ty: Ty, trips: i128, shape: Idiom)
    requires
        old(program).top_lines() == Seq::<Seq<char>>::empty(),
        old(program).body_lines() == Seq::<Seq<char>>::empty(),
        old(program).expected_values() == Seq::<int>::empty(),
        old(program).include_lines() == Seq::<Seq<char>>::empty(),
        !old(program).sinks(),
        1 <= trips <= 100,
        shape == Idiom::Sum || shape == Idiom::Count,
    ensures
        final(program).top_lines() == idiom_top(ty, trips, shape),
        final(program).body_lines() == idiom_body(ty, trips, shape),
        final(program).expected_values() == idiom_expected(ty, trips, shape),
        final(program).include_lines() == idiom_includes(ty, trips, shape),
        !final(program).sinks(),
        final(program).purpose_text() == old(program).purpose_text(),
{
    let c = ty.c_name();
    match shape {
        Idiom::Sum => {
            assert(0 <= trips * (trips + 1) <= 100 * 101) by (nonlinear_arith) requires 1 <= trips <= 100;
            let mut text1 = String::from_str(c);
            text1.append(" source[");
            push_decimal(&mut text1, trips);
            text1.append("];");
            program.line(text1.as_str());
            let mut text2 = String::from_str(c);
            text2.append(" target[");
            push_decimal(&mut text2, trips);
            text2.append("];");
            program.line(text2.as_str());
            let mut text3 = String::from_str("for (int i = 0; i < ");
            push_decimal(&mut text3, trips);
            text3.append("; i++) {");
            program.line(text3.as_str());
            let mut text4 = String::from_str("source[i] = (");
            text4.append(c);
            text4.append(")(i + 1);");
            program.line_at(1, text4.as_str());
            program.line("}");
            program.blank();
            let mut text5 = String::from_str(c);
            text5.append(" total = 0;");
            program.line(text5.as_str());
            let mut text6 = String::from_str("for (int i = 0; i < ");
            push_decimal(&mut text6, trips);
            text6.append("; i++) {");
            program.line(text6.as_str());
            program.line_at(1, "total += source[i];");
            program.line("}");
            program.blank();
            program.check(ty.promoted(), "total", trips * (trips + 1) / 2);
            assert(program.top_lines() =~~= idiom_top(ty, trips, shape));
            assert(program.body_lines() =~~= idiom_body(ty, trips, shape));
            assert(program.expected_values() =~= idiom_expected(ty, trips, shape));
            assert(program.include_lines() =~~= idiom_includes(ty, trips, shape));
        },
        Idiom::Count => {
            let mut text1 = String::from_str(c);
            text1.append(" source[");
            push_decimal(&mut text1, trips);
            text1.append("];");
            program.line(text1.as_str());
            let mut text2 = String::from_str(c);
            text2.append(" target[");
            push_decimal(&mut text2, trips);
            text2.append("];");
            program.line(text2.as_str());
            let mut text3 = String::from_str("for (int i = 0; i < ");
            push_decimal(&mut text3, trips);
            text3.append("; i++) {");
            program.line(text3.as_str());
            let mut text4 = String::from_str("source[i] = (");
            text4.append(c);
            text4.append(")(i + 1);");
            program.line_at(1, text4.as_str());
            program.line("}");
            program.blank();
            program.line("int matches = 0;");
            let mut text5 = String::from_str("for (int i = 0; i < ");
            push_decimal(&mut text5, trips);
            text5.append("; i++) {");
            program.line(text5.as_str());
            let mut text6 = String::from_str("if (source[i] % ");
            let literal7 = lit(ty, 3);
            text6.append(literal7.as_str());
            text6.append(" == 0) {");
            program.line_at(1, text6.as_str());
            program.line_at(2, "matches++;");
            program.line_at(1, "}");
            program.line("}");
            program.blank();
            program.check(Ty::I32, "matches", trips / 3);
            assert(program.top_lines() =~~= idiom_top(ty, trips, shape));
            assert(program.body_lines() =~~= idiom_body(ty, trips, shape));
            assert(program.expected_values() =~= idiom_expected(ty, trips, shape));
            assert(program.include_lines() =~~= idiom_includes(ty, trips, shape));
        },
        _ => {},
    }
}

/// Writes a shape.
fn idiom_write(program: &mut Program, ty: Ty, trips: i128, shape: Idiom)
    requires
        old(program).top_lines() == Seq::<Seq<char>>::empty(),
        old(program).body_lines() == Seq::<Seq<char>>::empty(),
        old(program).expected_values() == Seq::<int>::empty(),
        old(program).include_lines() == Seq::<Seq<char>>::empty(),
        !old(program).sinks(),
        1 <= trips <= 100,
    ensures
        final(program).top_lines() == idiom_top(ty, trips, shape),
        final(program).body_lines() == idiom_body(ty, trips, shape),
        final(program).expected_values() == idiom_expected(ty, trips, shape),
        final(program).include_lines() == idiom_includes(ty, trips, shape),
        !final(program).sinks(),
        final(program).purpose_text() == old(program).purpose_text(),
{
    match shape {
        Idiom::Fill | Idiom::Copy => {
            idiom_write_0(program, ty, trips, shape);
        },
        Idiom::Sum | Idiom::Count => {
            idiom_write_1(program, ty, trips, shape);
        },
    }
}

/// Whether a case is the idiom program for its point, whole.
pub open spec fn is_idiom_case(c: Case, ty: Ty, trips: i128, shape: Idiom) -> bool {
    &&& c.axes_text() == seq![("type"@, ty.name_text()), ("trips"@, decimal(trips as int)), ("kind"@, shape.name_text())]
    &&& c.tags_text() == Seq::<Seq<char>>::empty()
    &&& c.program.purpose_text() == "a "@ + decimal(trips as int) + " element "@ + shape.name_text() + " over "@ + ty.c_text() + ", which is a library call in disguise"@
    &&& c.program.include_lines() == idiom_includes(ty, trips, shape)
    &&& c.program.top_lines() == idiom_top(ty, trips, shape)
    &&& c.program.body_lines() == idiom_body(ty, trips, shape)
    &&& c.program.expected_values() == idiom_expected(ty, trips, shape)
    &&& !c.program.sinks()
}

/// The idiom program for one point.
fn idiom_case(ty: Ty, trips: i128, shape: Idiom) -> (r: Case)
    requires
        1 <= trips <= 100,
    ensures
        is_idiom_case(r, ty, trips, shape),
{
    let mut purpose = String::new();
    purpose.append("a ");
    push_decimal(&mut purpose, trips);
    purpose.append(" element ");
    purpose.append(shape.name());
    purpose.append(" over ");
    purpose.append(ty.c_name());
    purpose.append(", which is a library call in disguise");
    assert(purpose@ =~= "a "@ + decimal(trips as int) + " element "@ + shape.name_text() + " over "@ + ty.c_text() + ", which is a library call in disguise"@);
    let mut program = Program::new(purpose.as_str());
    idiom_write(&mut program, ty, trips, shape);
    let axes = vec![axis("type", ty.name()), axis("trips", decimal_string(trips).as_str()), axis("kind", shape.name())];
    let r = Case { axes, tags: tags_for(false), program };
    assert(r.axes_text() =~= seq![("type"@, ty.name_text()), ("trips"@, decimal(trips as int)), ("kind"@, shape.name_text())]);
    assert(r.tags_text() =~= Seq::<Seq<char>>::empty());
    assert(r.program.expected_values() =~= idiom_expected(ty, trips, shape));
    r
}

/// Loops that are really `memset`, `memcpy`, a reduction and a count, on every type at the width
/// of a register.
///
/// Recognizing them is worth a large factor and getting the tail of the array wrong is the
/// classic way to get it wrong, so the fill and the copy check the first and the last element,
/// the sum its total and the count how many elements are a multiple of three.
pub fn loop_idiom() -> (r: Vec<Case>)
    ensures
        r@.len() == 64,
        forall|k: int| 0 <= k < 64 ==> is_idiom_case(#[trigger] r@[k], wide_types()[k / 16], seq![4i128, 7i128, 16i128, 100i128][(k / 4) % 4], idioms_list()[k % 4]),
{
    let types = wide();
    let trips_all: [i128; 4] = [4, 7, 16, 100];
    let shape_all = idioms_array();
    let mut out: Vec<Case> = Vec::new();
    let mut k: usize = 0;
    while k < 64
        invariant
            k <= 64,
            types@ == wide_types(),
            trips_all@ == seq![4i128, 7i128, 16i128, 100i128],
            shape_all@ == idioms_list(),
            out@.len() == k,
            forall|i: int| 0 <= i < k ==> is_idiom_case(#[trigger] out@[i], wide_types()[i / 16], seq![4i128, 7i128, 16i128, 100i128][(i / 4) % 4], idioms_list()[i % 4]),
        decreases 64 - k,
    {
        out.push(idiom_case(types[k / 16], trips_all[(k / 4) % 4], shape_all[k % 4]));
        k += 1;
    }
    out
}

/// Nested loops walked in one order or the other, or split or run as one.
#[derive(Clone, Copy, Debug, PartialEq, Eq, Structural)]
pub enum Traversal {
    RowMajor,
    ColumnMajor,
    TwoLoops,
    Fused,
}

impl Traversal {
    /// The axis value.
    pub open spec fn name_text(self) -> Seq<char> {
        match self {
            Traversal::RowMajor => "row-major"@,
            Traversal::ColumnMajor => "column-major"@,
            Traversal::TwoLoops => "two-loops"@,
            Traversal::Fused => "fused"@,
        }
    }

    /// The axis value.
    pub fn name(self) -> (r: &'static str)
        ensures
            r@ == self.name_text(),
    {
        match self {
            Traversal::RowMajor => "row-major",
            Traversal::ColumnMajor => "column-major",
            Traversal::TwoLoops => "two-loops",
            Traversal::Fused => "fused",
        }
    }
}

/// The shapes in the order the facet walks them.
pub open spec fn traversals_list() -> Seq<Traversal> {
    seq![
        Traversal::RowMajor,
        Traversal::ColumnMajor,
        Traversal::TwoLoops,
        Traversal::Fused,
    ]
}

/// The shapes in the order the facet walks them.
fn traversals_array() -> (r: Vec<Traversal>)
    ensures
        r@ == traversals_list(),
{
    let r = vec![
        Traversal::RowMajor,
        Traversal::ColumnMajor,
        Traversal::TwoLoops,
        Traversal::Fused,
    ];
    assert(r@ =~= traversals_list());
    r
}

/// The lines before `main`.
pub open spec fn traversal_top(ty: Ty, side: i128, shape: Traversal) -> Seq<Seq<char>> {
    match shape {
        Traversal::RowMajor => Seq::empty(),
        Traversal::ColumnMajor => Seq::empty(),
        Traversal::TwoLoops => Seq::empty(),
        Traversal::Fused => Seq::empty(),
    }
}

/// The statements of `main`.
pub open spec fn traversal_body(ty: Ty, side: i128, shape: Traversal) -> Seq<Seq<char>> {
    match shape {
        Traversal::RowMajor => seq![
            indent(1) + "static "@ + ty.c_text() + " grid["@ + decimal(side as int) + "]["@ + decimal(side as int) + "];"@,
            indent(1) + ty.c_text() + " total = 0;"@,
            Seq::<char>::empty(),
            indent(1) + "for (int r = 0; r < "@ + decimal(side as int) + "; r++) {"@,
            indent(2) + "for (int c = 0; c < "@ + decimal(side as int) + "; c++) {"@,
            indent(3) + "grid[r][c] = ("@ + ty.c_text() + ")(r * "@ + decimal(side as int) + " + c);"@,
            indent(3) + "total += grid[r][c];"@,
            indent(2) + "}"@,
            indent(1) + "}"@,
            Seq::<char>::empty(),
        ],
        Traversal::ColumnMajor => seq![
            indent(1) + "static "@ + ty.c_text() + " grid["@ + decimal(side as int) + "]["@ + decimal(side as int) + "];"@,
            indent(1) + ty.c_text() + " total = 0;"@,
            Seq::<char>::empty(),
            indent(1) + "for (int c = 0; c < "@ + decimal(side as int) + "; c++) {"@,
            indent(2) + "for (int r = 0; r < "@ + decimal(side as int) + "; r++) {"@,
            indent(3) + "grid[r][c] = ("@ + ty.c_text() + ")(r * "@ + decimal(side as int) + " + c);"@,
            indent(3) + "total += grid[r][c];"@,
            indent(2) + "}"@,
            indent(1) + "}"@,
            Seq::<char>::empty(),
        ],
        Traversal::TwoLoops => seq![
            indent(1) + "static "@ + ty.c_text() + " grid["@ + decimal(side as int) + "]["@ + decimal(side as int) + "];"@,
            indent(1) + ty.c_text() + " total = 0;"@,
            Seq::<char>::empty(),
            indent(1) + "for (int r = 0; r < "@ + decimal(side as int) + "; r++) {"@,
            indent(2) + "for (int c = 0; c < "@ + decimal(side as int) + "; c++) {"@,
            indent(3) + "grid[r][c] = ("@ + ty.c_text() + ")(r * "@ + decimal(side as int) + " + c);"@,
            indent(2) + "}"@,
            indent(1) + "}"@,
            indent(1) + "for (int r = 0; r < "@ + decimal(side as int) + "; r++) {"@,
            indent(2) + "for (int c = 0; c < "@ + decimal(side as int) + "; c++) {"@,
            indent(3) + "total += grid[r][c];"@,
            indent(2) + "}"@,
            indent(1) + "}"@,
            Seq::<char>::empty(),
        ],
        Traversal::Fused => seq![
            indent(1) + "static "@ + ty.c_text() + " grid["@ + decimal(side as int) + "]["@ + decimal(side as int) + "];"@,
            indent(1) + ty.c_text() + " total = 0;"@,
            Seq::<char>::empty(),
            indent(1) + "for (int at = 0; at < "@ + decimal(side * side as int) + "; at++) {"@,
            indent(2) + "int r = at / "@ + decimal(side as int) + ";"@,
            indent(2) + "int c = at % "@ + decimal(side as int) + ";"@,
            indent(2) + "grid[r][c] = ("@ + ty.c_text() + ")(r * "@ + decimal(side as int) + " + c);"@,
            indent(2) + "total += grid[r][c];"@,
            indent(1) + "}"@,
            Seq::<char>::empty(),
        ],
    }
}

/// The headers.
pub open spec fn traversal_includes(ty: Ty, side: i128, shape: Traversal) -> Seq<Seq<char>> {
    match shape {
        Traversal::RowMajor => Seq::empty(),
        Traversal::ColumnMajor => Seq::empty(),
        Traversal::TwoLoops => Seq::empty(),
        Traversal::Fused => Seq::empty(),
    }
}

/// What the program prints.
pub open spec fn traversal_expected(ty: Ty, side: i128, shape: Traversal) -> Seq<int> {
    match shape {
        Traversal::RowMajor => Seq::empty(),
        Traversal::ColumnMajor => Seq::empty(),
        Traversal::TwoLoops => Seq::empty(),
        Traversal::Fused => Seq::empty(),
    }
}

/// Writes some of the shapes.
#[verifier::rlimit(100)]
fn traversal_write_0(program: &mut Program, ty: Ty, side: i128, shape: Traversal)
    requires
        old(program).top_lines() == Seq::<Seq<char>>::empty(),
        old(program).body_lines() == Seq::<Seq<char>>::empty(),
        old(program).expected_values() == Seq::<int>::empty(),
        old(program).include_lines() == Seq::<Seq<char>>::empty(),
        !old(program).sinks(),
        1 <= side <= 16,
        shape == Traversal::RowMajor,
    ensures
        final(program).top_lines() == traversal_top(ty, side, shape),
        final(program).body_lines() == traversal_body(ty, side, shape),
        final(program).expected_values() == traversal_expected(ty, side, shape),
        final(program).include_lines() == traversal_includes(ty, side, shape),
        !final(program).sinks(),
        final(program).purpose_text() == old(program).purpose_text(),
{
    let c = ty.c_name();
    match shape {
        Traversal::RowMajor => {
            let mut text1 = String::from_str("static ");
            text1.append(c);
            text1.append(" grid[");
            push_decimal(&mut text1, side);
            text1.append("][");
            push_decimal(&mut text1, side);
            text1.append("];");
            program.line(text1.as_str());
            let mut text2 = String::from_str(c);
            text2.append(" total = 0;");
            program.line(text2.as_str());
            program.blank();
            let mut text3 = String::from_str("for (int r = 0; r < ");
            push_decimal(&mut text3, side);
            text3.append("; r++) {");
            program.line(text3.as_str());
            let mut text4 = String::from_str("for (int c = 0; c < ");
            push_decimal(&mut text4, side);
            text4.append("; c++) {");
            program.line_at(1, text4.as_str());
            let mut text5 = String::from_str("grid[r][c] = (");
            text5.append(c);
            text5.append(")(r * ");
            push_decimal(&mut text5, side);
            text5.append(" + c);");
            program.line_at(2, text5.as_str());
            program.line_at(2, "total += grid[r][c];");
            program.line_at(1, "}");
            program.line("}");
            program.blank();
            assert(program.top_lines() =~~= traversal_top(ty, side, shape));
            assert(program.body_lines() =~~= traversal_body(ty, side, shape));
            assert(program.expected_values() =~= traversal_expected(ty, side, shape));
            assert(program.include_lines() =~~= traversal_includes(ty, side, shape));
        },
        _ => {},
    }
}

/// Writes some of the shapes.
#[verifier::rlimit(100)]
fn traversal_write_1(program: &mut Program, ty: Ty, side: i128, shape: Traversal)
    requires
        old(program).top_lines() == Seq::<Seq<char>>::empty(),
        old(program).body_lines() == Seq::<Seq<char>>::empty(),
        old(program).expected_values() == Seq::<int>::empty(),
        old(program).include_lines() == Seq::<Seq<char>>::empty(),
        !old(program).sinks(),
        1 <= side <= 16,
        shape == Traversal::ColumnMajor,
    ensures
        final(program).top_lines() == traversal_top(ty, side, shape),
        final(program).body_lines() == traversal_body(ty, side, shape),
        final(program).expected_values() == traversal_expected(ty, side, shape),
        final(program).include_lines() == traversal_includes(ty, side, shape),
        !final(program).sinks(),
        final(program).purpose_text() == old(program).purpose_text(),
{
    let c = ty.c_name();
    match shape {
        Traversal::ColumnMajor => {
            let mut text1 = String::from_str("static ");
            text1.append(c);
            text1.append(" grid[");
            push_decimal(&mut text1, side);
            text1.append("][");
            push_decimal(&mut text1, side);
            text1.append("];");
            program.line(text1.as_str());
            let mut text2 = String::from_str(c);
            text2.append(" total = 0;");
            program.line(text2.as_str());
            program.blank();
            let mut text3 = String::from_str("for (int c = 0; c < ");
            push_decimal(&mut text3, side);
            text3.append("; c++) {");
            program.line(text3.as_str());
            let mut text4 = String::from_str("for (int r = 0; r < ");
            push_decimal(&mut text4, side);
            text4.append("; r++) {");
            program.line_at(1, text4.as_str());
            let mut text5 = String::from_str("grid[r][c] = (");
            text5.append(c);
            text5.append(")(r * ");
            push_decimal(&mut text5, side);
            text5.append(" + c);");
            program.line_at(2, text5.as_str());
            program.line_at(2, "total += grid[r][c];");
            program.line_at(1, "}");
            program.line("}");
            program.blank();
            assert(program.top_lines() =~~= traversal_top(ty, side, shape));
            assert(program.body_lines() =~~= traversal_body(ty, side, shape));
            assert(program.expected_values() =~= traversal_expected(ty, side, shape));
            assert(program.include_lines() =~~= traversal_includes(ty, side, shape));
        },
        _ => {},
    }
}

/// Writes some of the shapes.
#[verifier::rlimit(100)]
fn traversal_write_2(program: &mut Program, ty: Ty, side: i128, shape: Traversal)
    requires
        old(program).top_lines() == Seq::<Seq<char>>::empty(),
        old(program).body_lines() == Seq::<Seq<char>>::empty(),
        old(program).expected_values() == Seq::<int>::empty(),
        old(program).include_lines() == Seq::<Seq<char>>::empty(),
        !old(program).sinks(),
        1 <= side <= 16,
        shape == Traversal::TwoLoops,
    ensures
        final(program).top_lines() == traversal_top(ty, side, shape),
        final(program).body_lines() == traversal_body(ty, side, shape),
        final(program).expected_values() == traversal_expected(ty, side, shape),
        final(program).include_lines() == traversal_includes(ty, side, shape),
        !final(program).sinks(),
        final(program).purpose_text() == old(program).purpose_text(),
{
    let c = ty.c_name();
    match shape {
        Traversal::TwoLoops => {
            let mut text1 = String::from_str("static ");
            text1.append(c);
            text1.append(" grid[");
            push_decimal(&mut text1, side);
            text1.append("][");
            push_decimal(&mut text1, side);
            text1.append("];");
            program.line(text1.as_str());
            let mut text2 = String::from_str(c);
            text2.append(" total = 0;");
            program.line(text2.as_str());
            program.blank();
            let mut text3 = String::from_str("for (int r = 0; r < ");
            push_decimal(&mut text3, side);
            text3.append("; r++) {");
            program.line(text3.as_str());
            let mut text4 = String::from_str("for (int c = 0; c < ");
            push_decimal(&mut text4, side);
            text4.append("; c++) {");
            program.line_at(1, text4.as_str());
            let mut text5 = String::from_str("grid[r][c] = (");
            text5.append(c);
            text5.append(")(r * ");
            push_decimal(&mut text5, side);
            text5.append(" + c);");
            program.line_at(2, text5.as_str());
            program.line_at(1, "}");
            program.line("}");
            let mut text6 = String::from_str("for (int r = 0; r < ");
            push_decimal(&mut text6, side);
            text6.append("; r++) {");
            program.line(text6.as_str());
            let mut text7 = String::from_str("for (int c = 0; c < ");
            push_decimal(&mut text7, side);
            text7.append("; c++) {");
            program.line_at(1, text7.as_str());
            program.line_at(2, "total += grid[r][c];");
            program.line_at(1, "}");
            program.line("}");
            program.blank();
            assert(program.top_lines() =~~= traversal_top(ty, side, shape));
            assert(program.body_lines() =~~= traversal_body(ty, side, shape));
            assert(program.expected_values() =~= traversal_expected(ty, side, shape));
            assert(program.include_lines() =~~= traversal_includes(ty, side, shape));
        },
        _ => {},
    }
}

/// Writes some of the shapes.
#[verifier::rlimit(100)]
fn traversal_write_3(program: &mut Program, ty: Ty, side: i128, shape: Traversal)
    requires
        old(program).top_lines() == Seq::<Seq<char>>::empty(),
        old(program).body_lines() == Seq::<Seq<char>>::empty(),
        old(program).expected_values() == Seq::<int>::empty(),
        old(program).include_lines() == Seq::<Seq<char>>::empty(),
        !old(program).sinks(),
        1 <= side <= 16,
        shape == Traversal::Fused,
    ensures
        final(program).top_lines() == traversal_top(ty, side, shape),
        final(program).body_lines() == traversal_body(ty, side, shape),
        final(program).expected_values() == traversal_expected(ty, side, shape),
        final(program).include_lines() == traversal_includes(ty, side, shape),
        !final(program).sinks(),
        final(program).purpose_text() == old(program).purpose_text(),
{
    let c = ty.c_name();
    match shape {
        Traversal::Fused => {
            assert(1 <= side * side <= 256) by (nonlinear_arith) requires 1 <= side <= 16;
            let mut text1 = String::from_str("static ");
            text1.append(c);
            text1.append(" grid[");
            push_decimal(&mut text1, side);
            text1.append("][");
            push_decimal(&mut text1, side);
            text1.append("];");
            program.line(text1.as_str());
            let mut text2 = String::from_str(c);
            text2.append(" total = 0;");
            program.line(text2.as_str());
            program.blank();
            let mut text3 = String::from_str("for (int at = 0; at < ");
            push_decimal(&mut text3, side * side);
            text3.append("; at++) {");
            program.line(text3.as_str());
            let mut text4 = String::from_str("int r = at / ");
            push_decimal(&mut text4, side);
            text4.append(";");
            program.line_at(1, text4.as_str());
            let mut text5 = String::from_str("int c = at % ");
            push_decimal(&mut text5, side);
            text5.append(";");
            program.line_at(1, text5.as_str());
            let mut text6 = String::from_str("grid[r][c] = (");
            text6.append(c);
            text6.append(")(r * ");
            push_decimal(&mut text6, side);
            text6.append(" + c);");
            program.line_at(1, text6.as_str());
            program.line_at(1, "total += grid[r][c];");
            program.line("}");
            program.blank();
            assert(program.top_lines() =~~= traversal_top(ty, side, shape));
            assert(program.body_lines() =~~= traversal_body(ty, side, shape));
            assert(program.expected_values() =~= traversal_expected(ty, side, shape));
            assert(program.include_lines() =~~= traversal_includes(ty, side, shape));
        },
        _ => {},
    }
}

/// Writes a shape.
fn traversal_write(program: &mut Program, ty: Ty, side: i128, shape: Traversal)
    requires
        old(program).top_lines() == Seq::<Seq<char>>::empty(),
        old(program).body_lines() == Seq::<Seq<char>>::empty(),
        old(program).expected_values() == Seq::<int>::empty(),
        old(program).include_lines() == Seq::<Seq<char>>::empty(),
        !old(program).sinks(),
        1 <= side <= 16,
    ensures
        final(program).top_lines() == traversal_top(ty, side, shape),
        final(program).body_lines() == traversal_body(ty, side, shape),
        final(program).expected_values() == traversal_expected(ty, side, shape),
        final(program).include_lines() == traversal_includes(ty, side, shape),
        !final(program).sinks(),
        final(program).purpose_text() == old(program).purpose_text(),
{
    match shape {
        Traversal::RowMajor => {
            traversal_write_0(program, ty, side, shape);
        },
        Traversal::ColumnMajor => {
            traversal_write_1(program, ty, side, shape);
        },
        Traversal::TwoLoops => {
            traversal_write_2(program, ty, side, shape);
        },
        Traversal::Fused => {
            traversal_write_3(program, ty, side, shape);
        },
    }
}

/// Whether a case is the traversal program for its point, whole.
pub open spec fn is_traversal_case(c: Case, ty: Ty, side: i128, shape: Traversal) -> bool {
    &&& c.axes_text() == seq![("type"@, ty.name_text()), ("side"@, decimal(side as int)), ("shape"@, shape.name_text())]
    &&& c.tags_text() == Seq::<Seq<char>>::empty()
    &&& c.program.purpose_text() == "a "@ + decimal(side as int) + " by "@ + decimal(side as int) + " "@ + ty.c_text() + " traversal, "@ + shape.name_text()
    &&& c.program.include_lines() == traversal_includes(ty, side, shape)
    &&& c.program.top_lines() == traversal_top(ty, side, shape)
    &&& c.program.body_lines() == traversal_body(ty, side, shape).push(print_line(1, ty.promotion(), "total"@))
    &&& c.program.expected_values() == seq![(side * side) * (side * side - 1) / 2]
    &&& !c.program.sinks()
}

/// The traversal program for one point.
fn traversal_case(ty: Ty, side: i128, shape: Traversal) -> (r: Case)
    requires
        1 <= side <= 16,
    ensures
        is_traversal_case(r, ty, side, shape),
{
    let mut purpose = String::new();
    purpose.append("a ");
    push_decimal(&mut purpose, side);
    purpose.append(" by ");
    push_decimal(&mut purpose, side);
    purpose.append(" ");
    purpose.append(ty.c_name());
    purpose.append(" traversal, ");
    purpose.append(shape.name());
    assert(purpose@ =~= "a "@ + decimal(side as int) + " by "@ + decimal(side as int) + " "@ + ty.c_text() + " traversal, "@ + shape.name_text());
    let mut program = Program::new(purpose.as_str());
    traversal_write(&mut program, ty, side, shape);
    assert(1 <= side * side <= 256 && 0 <= (side * side) * (side * side - 1) <= 256 * 255) by (nonlinear_arith)
        requires
            1 <= side <= 16,
    ;
    program.check(ty.promoted(), "total", (side * side) * (side * side - 1) / 2);
    let axes = vec![axis("type", ty.name()), axis("side", decimal_string(side).as_str()), axis("shape", shape.name())];
    let r = Case { axes, tags: tags_for(false), program };
    assert(r.axes_text() =~= seq![("type"@, ty.name_text()), ("side"@, decimal(side as int)), ("shape"@, shape.name_text())]);
    assert(r.tags_text() =~= Seq::<Seq<char>>::empty());
    assert(r.program.expected_values() =~= seq![(side * side) * (side * side - 1) / 2]);
    r
}

/// Nested loops walked row by row, column by column, split in two and fused into one, on every
/// type at the width of a register and three sizes of grid.
///
/// Interchange is about locality, so both orders are written out; fusion is the same question
/// from the other side. Every element holds its own position, so every program prints the sum of
/// the numbers below the area of the grid.
pub fn loop_restructure() -> (r: Vec<Case>)
    ensures
        r@.len() == 48,
        forall|k: int| 0 <= k < 48 ==> is_traversal_case(#[trigger] r@[k], wide_types()[k / 12], seq![4i128, 8i128, 16i128][(k / 4) % 3], traversals_list()[k % 4]),
{
    let types = wide();
    let side_all: [i128; 3] = [4, 8, 16];
    let shape_all = traversals_array();
    let mut out: Vec<Case> = Vec::new();
    let mut k: usize = 0;
    while k < 48
        invariant
            k <= 48,
            types@ == wide_types(),
            side_all@ == seq![4i128, 8i128, 16i128],
            shape_all@ == traversals_list(),
            out@.len() == k,
            forall|i: int| 0 <= i < k ==> is_traversal_case(#[trigger] out@[i], wide_types()[i / 12], seq![4i128, 8i128, 16i128][(i / 4) % 3], traversals_list()[i % 4]),
        decreases 48 - k,
    {
        out.push(traversal_case(types[k / 12], side_all[(k / 4) % 3], shape_all[k % 4]));
        k += 1;
    }
    out
}

/// A loop with its trip count written in the program and the same loop with it read at run time
/// print the same total.
pub proof fn lemma_unroll_bound_keeps_the_answer(a: Case, b: Case, ty: Ty, trips: i128)
    requires
        is_unroll_case(a, ty, trips, TripBound::Known),
        is_unroll_case(b, ty, trips, TripBound::Unknown),
    ensures
        a.program.expected_values() == b.program.expected_values(),
{
}

/// The four spellings of one loop print the same total.
pub proof fn lemma_rotations_agree(a: Case, b: Case, ty: Ty, trips: i128, x: LoopSpelling, y: LoopSpelling)
    requires
        is_rotate_case(a, ty, trips, x),
        is_rotate_case(b, ty, trips, y),
    ensures
        a.program.expected_values() == b.program.expected_values(),
{
}

/// The four traversals of one grid print the same total: the sum of the numbers below its area.
pub proof fn lemma_traversals_agree(a: Case, b: Case, ty: Ty, side: i128, x: Traversal, y: Traversal)
    requires
        is_traversal_case(a, ty, side, x),
        is_traversal_case(b, ty, side, y),
    ensures
        a.program.expected_values() == b.program.expected_values(),
        a.program.expected_values() == seq![(side * side) * (side * side - 1) / 2],
{
}

/// A dead loop with its bound written and one with it read at run time print the same total.
pub proof fn lemma_dead_bound_keeps_the_answer(a: Case, b: Case, ty: Ty, trips: i128)
    requires
        is_dead_case(a, ty, trips, DeadBound::Known),
        is_dead_case(b, ty, trips, DeadBound::Unknown),
    ensures
        a.program.expected_values() == b.program.expected_values(),
{
}

} // verus!
