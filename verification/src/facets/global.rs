//! What needs the whole function: repeated expressions, loads a store already answered,
//! computations that move, constants reaching a use across a join, ranges a guard decided,
//! references that may name one object, and aggregates that never escape.
//!
//! The answer depends on a path through the control flow graph rather than on a window of
//! straight line code, so a wrong transformation shows on one path and the program prints it.

use vstd::prelude::*;
use vstd::string::*;
use crate::emit::{Program, input_global, input_read, indent, print_line};
use crate::lang::{Ty, Op, c_value, eval, wide, wide_types, lemma_wrap_keeps_contained};
use crate::text::{decimal, push_decimal};
use crate::facets::{Case, axis, tags_for, lit, lit_text};

use crate::facets::Batch;
verus! {

/// The same expression computed twice, and what stands between the two.
#[derive(Clone, Copy, Debug, PartialEq, Eq, Structural)]
pub enum RepeatShape {
    Straight,
    AcrossIf,
    Partial,
    AcrossCall,
}

impl RepeatShape {
    /// The axis value.
    pub open spec fn name_text(self) -> Seq<char> {
        match self {
            RepeatShape::Straight => "straight"@,
            RepeatShape::AcrossIf => "across-if"@,
            RepeatShape::Partial => "partial"@,
            RepeatShape::AcrossCall => "across-call"@,
        }
    }

    /// The axis value.
    pub fn name(self) -> (r: &'static str)
        ensures
            r@ == self.name_text(),
    {
        match self {
            RepeatShape::Straight => "straight",
            RepeatShape::AcrossIf => "across-if",
            RepeatShape::Partial => "partial",
            RepeatShape::AcrossCall => "across-call",
        }
    }
}

/// The shapes in the order the facet walks them.
pub open spec fn repeat_shapes_list() -> Seq<RepeatShape> {
    seq![
        RepeatShape::Straight,
        RepeatShape::AcrossIf,
        RepeatShape::Partial,
        RepeatShape::AcrossCall,
    ]
}

/// The shapes in the order the facet walks them.
fn repeat_shapes_array() -> (r: Vec<RepeatShape>)
    ensures
        r@ == repeat_shapes_list(),
{
    let r = vec![
        RepeatShape::Straight,
        RepeatShape::AcrossIf,
        RepeatShape::Partial,
        RepeatShape::AcrossCall,
    ];
    assert(r@ =~= repeat_shapes_list());
    r
}

/// The lines before `main`.
pub open spec fn repeat_top(ty: Ty, shape: RepeatShape) -> Seq<Seq<char>> {
    match shape {
        RepeatShape::Straight => seq![
            input_global(ty, "a"@, 6int),
            input_global(ty, "b"@, 7int),
            input_global(Ty::I32, "flag"@, 1int),
        ],
        RepeatShape::AcrossIf => seq![
            input_global(ty, "a"@, 6int),
            input_global(ty, "b"@, 7int),
            input_global(Ty::I32, "flag"@, 1int),
        ],
        RepeatShape::Partial => seq![
            input_global(ty, "a"@, 6int),
            input_global(ty, "b"@, 7int),
            input_global(Ty::I32, "flag"@, 1int),
        ],
        RepeatShape::AcrossCall => seq![
            input_global(ty, "a"@, 6int),
            input_global(ty, "b"@, 7int),
            input_global(Ty::I32, "flag"@, 1int),
            "static "@ + ty.c_text() + " identity("@ + ty.c_text() + " value) {"@,
            "    return value;"@,
            "}"@,
        ],
    }
}

/// The statements of `main`.
pub open spec fn repeat_body(ty: Ty, shape: RepeatShape) -> Seq<Seq<char>> {
    match shape {
        RepeatShape::Straight => seq![
            input_read(ty, "a"@),
            input_read(ty, "b"@),
            input_read(Ty::I32, "flag"@),
            Seq::<char>::empty(),
            indent(1) + ty.c_text() + " first = a * b;"@,
            indent(1) + ty.c_text() + " second = a * b;"@,
            indent(1) + ty.c_text() + " total = first + second;"@,
            Seq::<char>::empty(),
        ],
        RepeatShape::AcrossIf => seq![
            input_read(ty, "a"@),
            input_read(ty, "b"@),
            input_read(Ty::I32, "flag"@),
            Seq::<char>::empty(),
            indent(1) + ty.c_text() + " total = 0;"@,
            indent(1) + "if (flag) {"@,
            indent(2) + "total = a * b;"@,
            indent(1) + "} else {"@,
            indent(2) + "total = a * b;"@,
            indent(1) + "}"@,
            indent(1) + "total = total + a * b;"@,
            Seq::<char>::empty(),
        ],
        RepeatShape::Partial => seq![
            input_read(ty, "a"@),
            input_read(ty, "b"@),
            input_read(Ty::I32, "flag"@),
            Seq::<char>::empty(),
            indent(1) + ty.c_text() + " total = a * b;"@,
            indent(1) + "if (flag) {"@,
            indent(2) + "total = total + a * b;"@,
            indent(1) + "} else {"@,
            indent(2) + "total = total + "@ + lit_text(ty, 0int) + ";"@,
            indent(1) + "}"@,
            Seq::<char>::empty(),
        ],
        RepeatShape::AcrossCall => seq![
            input_read(ty, "a"@),
            input_read(ty, "b"@),
            input_read(Ty::I32, "flag"@),
            Seq::<char>::empty(),
            indent(1) + ty.c_text() + " first = a * b;"@,
            indent(1) + ty.c_text() + " kept = identity(first);"@,
            indent(1) + ty.c_text() + " total = kept + a * b;"@,
            Seq::<char>::empty(),
        ],
    }
}

/// The headers.
pub open spec fn repeat_includes(ty: Ty, shape: RepeatShape) -> Seq<Seq<char>> {
    match shape {
        RepeatShape::Straight => Seq::empty(),
        RepeatShape::AcrossIf => Seq::empty(),
        RepeatShape::Partial => Seq::empty(),
        RepeatShape::AcrossCall => Seq::empty(),
    }
}

/// What the program prints.
pub open spec fn repeat_expected(ty: Ty, shape: RepeatShape) -> Seq<int> {
    match shape {
        RepeatShape::Straight => Seq::empty(),
        RepeatShape::AcrossIf => Seq::empty(),
        RepeatShape::Partial => Seq::empty(),
        RepeatShape::AcrossCall => Seq::empty(),
    }
}

/// Writes some of the shapes.
#[verifier::rlimit(100)]
fn repeat_write_0(program: &mut Program, ty: Ty, shape: RepeatShape)
    requires
        old(program).top_lines() == Seq::<Seq<char>>::empty(),
        old(program).body_lines() == Seq::<Seq<char>>::empty(),
        old(program).expected_values() == Seq::<int>::empty(),
        old(program).include_lines() == Seq::<Seq<char>>::empty(),
        !old(program).sinks(),
        shape == RepeatShape::Straight || shape == RepeatShape::AcrossIf,
    ensures
        final(program).top_lines() == repeat_top(ty, shape),
        final(program).body_lines() == repeat_body(ty, shape),
        final(program).expected_values() == repeat_expected(ty, shape),
        final(program).include_lines() == repeat_includes(ty, shape),
        !final(program).sinks(),
        final(program).purpose_text() == old(program).purpose_text(),
{
    let c = ty.c_name();
    match shape {
        RepeatShape::Straight => {
            program.input(ty, "a", 6);
            program.input(ty, "b", 7);
            program.input(Ty::I32, "flag", 1);
            program.blank();
            let mut text1 = String::from_str(c);
            text1.append(" first = a * b;");
            program.line(text1.as_str());
            let mut text2 = String::from_str(c);
            text2.append(" second = a * b;");
            program.line(text2.as_str());
            let mut text3 = String::from_str(c);
            text3.append(" total = first + second;");
            program.line(text3.as_str());
            program.blank();
            assert(program.top_lines() =~~= repeat_top(ty, shape));
            assert(program.body_lines() =~~= repeat_body(ty, shape));
            assert(program.expected_values() =~= repeat_expected(ty, shape));
            assert(program.include_lines() =~~= repeat_includes(ty, shape));
        },
        RepeatShape::AcrossIf => {
            program.input(ty, "a", 6);
            program.input(ty, "b", 7);
            program.input(Ty::I32, "flag", 1);
            program.blank();
            let mut text1 = String::from_str(c);
            text1.append(" total = 0;");
            program.line(text1.as_str());
            program.line("if (flag) {");
            program.line_at(1, "total = a * b;");
            program.line("} else {");
            program.line_at(1, "total = a * b;");
            program.line("}");
            program.line("total = total + a * b;");
            program.blank();
            assert(program.top_lines() =~~= repeat_top(ty, shape));
            assert(program.body_lines() =~~= repeat_body(ty, shape));
            assert(program.expected_values() =~= repeat_expected(ty, shape));
            assert(program.include_lines() =~~= repeat_includes(ty, shape));
        },
        _ => {},
    }
}

/// Writes some of the shapes.
#[verifier::rlimit(100)]
fn repeat_write_1(program: &mut Program, ty: Ty, shape: RepeatShape)
    requires
        old(program).top_lines() == Seq::<Seq<char>>::empty(),
        old(program).body_lines() == Seq::<Seq<char>>::empty(),
        old(program).expected_values() == Seq::<int>::empty(),
        old(program).include_lines() == Seq::<Seq<char>>::empty(),
        !old(program).sinks(),
        shape == RepeatShape::Partial || shape == RepeatShape::AcrossCall,
    ensures
        final(program).top_lines() == repeat_top(ty, shape),
        final(program).body_lines() == repeat_body(ty, shape),
        final(program).expected_values() == repeat_expected(ty, shape),
        final(program).include_lines() == repeat_includes(ty, shape),
        !final(program).sinks(),
        final(program).purpose_text() == old(program).purpose_text(),
{
    let c = ty.c_name();
    match shape {
        RepeatShape::Partial => {
            program.input(ty, "a", 6);
            program.input(ty, "b", 7);
            program.input(Ty::I32, "flag", 1);
            program.blank();
            let mut text1 = String::from_str(c);
            text1.append(" total = a * b;");
            program.line(text1.as_str());
            program.line("if (flag) {");
            program.line_at(1, "total = total + a * b;");
            program.line("} else {");
            let mut text2 = String::from_str("total = total + ");
            let literal3 = lit(ty, 0);
            text2.append(literal3.as_str());
            text2.append(";");
            program.line_at(1, text2.as_str());
            program.line("}");
            program.blank();
            assert(program.top_lines() =~~= repeat_top(ty, shape));
            assert(program.body_lines() =~~= repeat_body(ty, shape));
            assert(program.expected_values() =~= repeat_expected(ty, shape));
            assert(program.include_lines() =~~= repeat_includes(ty, shape));
        },
        RepeatShape::AcrossCall => {
            program.input(ty, "a", 6);
            program.input(ty, "b", 7);
            program.input(Ty::I32, "flag", 1);
            program.blank();
            let mut text1 = String::from_str("static ");
            text1.append(c);
            text1.append(" identity(");
            text1.append(c);
            text1.append(" value) {");
            program.top(text1.as_str());
            program.top("    return value;");
            program.top("}");
            let mut text2 = String::from_str(c);
            text2.append(" first = a * b;");
            program.line(text2.as_str());
            let mut text3 = String::from_str(c);
            text3.append(" kept = identity(first);");
            program.line(text3.as_str());
            let mut text4 = String::from_str(c);
            text4.append(" total = kept + a * b;");
            program.line(text4.as_str());
            program.blank();
            assert(program.top_lines() =~~= repeat_top(ty, shape));
            assert(program.body_lines() =~~= repeat_body(ty, shape));
            assert(program.expected_values() =~= repeat_expected(ty, shape));
            assert(program.include_lines() =~~= repeat_includes(ty, shape));
        },
        _ => {},
    }
}

/// Writes a shape.
fn repeat_write(program: &mut Program, ty: Ty, shape: RepeatShape)
    requires
        old(program).top_lines() == Seq::<Seq<char>>::empty(),
        old(program).body_lines() == Seq::<Seq<char>>::empty(),
        old(program).expected_values() == Seq::<int>::empty(),
        old(program).include_lines() == Seq::<Seq<char>>::empty(),
        !old(program).sinks(),
    ensures
        final(program).top_lines() == repeat_top(ty, shape),
        final(program).body_lines() == repeat_body(ty, shape),
        final(program).expected_values() == repeat_expected(ty, shape),
        final(program).include_lines() == repeat_includes(ty, shape),
        !final(program).sinks(),
        final(program).purpose_text() == old(program).purpose_text(),
{
    match shape {
        RepeatShape::Straight | RepeatShape::AcrossIf => {
            repeat_write_0(program, ty, shape);
        },
        RepeatShape::Partial | RepeatShape::AcrossCall => {
            repeat_write_1(program, ty, shape);
        },
    }
}

/// Whether a case is the repeat program for its point, whole.
pub open spec fn is_repeat_case(c: Case, ty: Ty, shape: RepeatShape) -> bool {
    &&& c.axes_text() == seq![("type"@, ty.name_text()), ("shape"@, shape.name_text())]
    &&& c.tags_text() == Seq::<Seq<char>>::empty()
    &&& c.program.purpose_text() == "a repeated "@ + ty.c_text() + " expression, "@ + shape.name_text()
    &&& c.program.include_lines() == repeat_includes(ty, shape)
    &&& c.program.top_lines() == repeat_top(ty, shape)
    &&& c.program.body_lines() == repeat_body(ty, shape).push(print_line(1, ty.promotion(), "total"@))
    &&& c.program.expected_values() == seq![c_value(Op::Add, ty, c_value(Op::Mul, ty, 6, 7)->0 as i128, c_value(Op::Mul, ty, 6, 7)->0 as i128)->0]
    &&& !c.program.sinks()
}

/// The repeat program for one point.
fn repeat_case(ty: Ty, shape: RepeatShape) -> (r: Case)
    requires
        wide_types().contains(ty),
    ensures
        is_repeat_case(r, ty, shape),
{
    let mut purpose = String::new();
    purpose.append("a repeated ");
    purpose.append(ty.c_name());
    purpose.append(" expression, ");
    purpose.append(shape.name());
    assert(purpose@ =~= "a repeated "@ + ty.c_text() + " expression, "@ + shape.name_text());
    let mut program = Program::new(purpose.as_str());
    repeat_write(&mut program, ty, shape);
    let multiplied = eval(Op::Mul, ty, 6, 7);
    assert(multiplied is Some);
    let product = multiplied.unwrap();
    proof {
        lemma_wrap_keeps_contained(ty, 42);
    }
    assert(product == 42);
    let added = eval(Op::Add, ty, product, product);
    assert(added is Some);
    let value = added.unwrap();
    program.check(ty.promoted(), "total", value);
    let axes = vec![axis("type", ty.name()), axis("shape", shape.name())];
    let r = Case { axes, tags: tags_for(false), program };
    assert(r.axes_text() =~= seq![("type"@, ty.name_text()), ("shape"@, shape.name_text())]);
    assert(r.tags_text() =~= Seq::<Seq<char>>::empty());
    assert(r.program.expected_values() =~= seq![c_value(Op::Add, ty, c_value(Op::Mul, ty, 6, 7)->0 as i128, c_value(Op::Mul, ty, 6, 7)->0 as i128)->0]);
    r
}

/// The same expression computed more than once, on every type at the width of a register.
///
/// In a straight line anybody sees it; across an `if` it needs the expression available on both
/// paths; on one path only it is partially redundant; and through a call it needs the callee not
/// to write what it reads. Every program prints the product of six and seven, twice.
pub fn common_subexpr() -> (r: Vec<Case>)
    ensures
        r@.len() == 16,
        forall|k: int| 0 <= k < 16 ==> is_repeat_case(#[trigger] r@[k], wide_types()[k / 4], repeat_shapes_list()[k % 4]),
{
    let types = wide();
    let shape_all = repeat_shapes_array();
    let mut out: Vec<Case> = Vec::new();
    let mut k: usize = 0;
    while k < 16
        invariant
            k <= 16,
            types@ == wide_types(),
            shape_all@ == repeat_shapes_list(),
            out@.len() == k,
            forall|i: int| 0 <= i < k ==> is_repeat_case(#[trigger] out@[i], wide_types()[i / 4], repeat_shapes_list()[i % 4]),
        decreases 16 - k,
    {
        out.push(repeat_case(types[k / 4], shape_all[k % 4]));
        k += 1;
    }
    out
}

/// A load a store already answered, and what stands between the two.
#[derive(Clone, Copy, Debug, PartialEq, Eq, Structural)]
pub enum ForwardShape {
    SameSlot,
    OtherSlotBetween,
    AcrossBranch,
    ThroughPointer,
}

impl ForwardShape {
    /// The axis value.
    pub open spec fn name_text(self) -> Seq<char> {
        match self {
            ForwardShape::SameSlot => "same-slot"@,
            ForwardShape::OtherSlotBetween => "other-slot-between"@,
            ForwardShape::AcrossBranch => "across-branch"@,
            ForwardShape::ThroughPointer => "through-pointer"@,
        }
    }

    /// The axis value.
    pub fn name(self) -> (r: &'static str)
        ensures
            r@ == self.name_text(),
    {
        match self {
            ForwardShape::SameSlot => "same-slot",
            ForwardShape::OtherSlotBetween => "other-slot-between",
            ForwardShape::AcrossBranch => "across-branch",
            ForwardShape::ThroughPointer => "through-pointer",
        }
    }
}

/// The shapes in the order the facet walks them.
pub open spec fn forward_shapes_list() -> Seq<ForwardShape> {
    seq![
        ForwardShape::SameSlot,
        ForwardShape::OtherSlotBetween,
        ForwardShape::AcrossBranch,
        ForwardShape::ThroughPointer,
    ]
}

/// The shapes in the order the facet walks them.
fn forward_shapes_array() -> (r: Vec<ForwardShape>)
    ensures
        r@ == forward_shapes_list(),
{
    let r = vec![
        ForwardShape::SameSlot,
        ForwardShape::OtherSlotBetween,
        ForwardShape::AcrossBranch,
        ForwardShape::ThroughPointer,
    ];
    assert(r@ =~= forward_shapes_list());
    r
}

/// The lines before `main` of each shape.
pub open spec fn forward_top(ty: Ty, shape: ForwardShape) -> Seq<Seq<char>> {
    match shape {
        ForwardShape::SameSlot => seq![
            input_global(ty, "value"@, 41int),
            input_global(Ty::I32, "flag"@, 1int),
        ],
        ForwardShape::OtherSlotBetween => seq![
            input_global(ty, "value"@, 41int),
            input_global(Ty::I32, "flag"@, 1int),
        ],
        ForwardShape::AcrossBranch => seq![
            input_global(ty, "value"@, 41int),
            input_global(Ty::I32, "flag"@, 1int),
        ],
        ForwardShape::ThroughPointer => seq![
            input_global(ty, "value"@, 41int),
            input_global(Ty::I32, "flag"@, 1int),
        ],
    }
}

/// The statements of `main` of each shape.
pub open spec fn forward_body(ty: Ty, shape: ForwardShape) -> Seq<Seq<char>> {
    match shape {
        ForwardShape::SameSlot => seq![
            input_read(ty, "value"@),
            input_read(Ty::I32, "flag"@),
            Seq::<char>::empty(),
            indent(1) + ty.c_text() + " slots[4];"@,
            indent(1) + "slots[0] = value;"@,
            indent(1) + ty.c_text() + " read = slots[0];"@,
            Seq::<char>::empty(),
            print_line(1, ty.promotion(), "read"@),
        ],
        ForwardShape::OtherSlotBetween => seq![
            input_read(ty, "value"@),
            input_read(Ty::I32, "flag"@),
            Seq::<char>::empty(),
            indent(1) + ty.c_text() + " slots[4];"@,
            indent(1) + "slots[0] = value;"@,
            indent(1) + "slots[2] = value + "@ + lit_text(ty, 100int) + ";"@,
            indent(1) + ty.c_text() + " read = slots[0];"@,
            Seq::<char>::empty(),
            print_line(1, ty.promotion(), "read"@),
        ],
        ForwardShape::AcrossBranch => seq![
            input_read(ty, "value"@),
            input_read(Ty::I32, "flag"@),
            Seq::<char>::empty(),
            indent(1) + ty.c_text() + " slots[4];"@,
            indent(1) + "slots[0] = value;"@,
            indent(1) + "if (flag) {"@,
            indent(2) + "slots[1] = value + "@ + lit_text(ty, 1int) + ";"@,
            indent(1) + "}"@,
            indent(1) + ty.c_text() + " read = slots[0];"@,
            Seq::<char>::empty(),
            print_line(1, ty.promotion(), "read"@),
        ],
        ForwardShape::ThroughPointer => seq![
            input_read(ty, "value"@),
            input_read(Ty::I32, "flag"@),
            Seq::<char>::empty(),
            indent(1) + ty.c_text() + " slots[4];"@,
            indent(1) + ty.c_text() + " *at = &slots[0];"@,
            indent(1) + "*at = value;"@,
            indent(1) + ty.c_text() + " read = *at;"@,
            Seq::<char>::empty(),
            print_line(1, ty.promotion(), "read"@),
        ],
    }
}

/// The headers of each shape.
pub open spec fn forward_includes(ty: Ty, shape: ForwardShape) -> Seq<Seq<char>> {
    match shape {
        ForwardShape::SameSlot => Seq::empty(),
        ForwardShape::OtherSlotBetween => Seq::empty(),
        ForwardShape::AcrossBranch => Seq::empty(),
        ForwardShape::ThroughPointer => Seq::empty(),
    }
}

/// What the program prints of each shape.
pub open spec fn forward_expected(ty: Ty, shape: ForwardShape) -> Seq<int> {
    match shape {
        ForwardShape::SameSlot => seq![
            41int,
        ],
        ForwardShape::OtherSlotBetween => seq![
            41int,
        ],
        ForwardShape::AcrossBranch => seq![
            41int,
        ],
        ForwardShape::ThroughPointer => seq![
            41int,
        ],
    }
}

/// Whether the shape asks for the volatile sink.
pub open spec fn forward_sinks(shape: ForwardShape) -> bool {
    match shape {
        ForwardShape::SameSlot => false,
        ForwardShape::OtherSlotBetween => false,
        ForwardShape::AcrossBranch => false,
        ForwardShape::ThroughPointer => false,
    }
}

/// Writes some of the shapes.
#[verifier::rlimit(100)]
fn forward_write_0(program: &mut Program, ty: Ty, shape: ForwardShape)
    requires
        old(program).top_lines() == Seq::<Seq<char>>::empty(),
        old(program).body_lines() == Seq::<Seq<char>>::empty(),
        old(program).expected_values() == Seq::<int>::empty(),
        old(program).include_lines() == Seq::<Seq<char>>::empty(),
        !old(program).sinks(),
        shape == ForwardShape::SameSlot || shape == ForwardShape::OtherSlotBetween || shape == ForwardShape::AcrossBranch || shape == ForwardShape::ThroughPointer,
    ensures
        final(program).top_lines() == forward_top(ty, shape),
        final(program).body_lines() == forward_body(ty, shape),
        final(program).expected_values() == forward_expected(ty, shape),
        final(program).include_lines() == forward_includes(ty, shape),
        final(program).sinks() == forward_sinks(shape),
        final(program).purpose_text() == old(program).purpose_text(),
{
    let c = ty.c_name();
    match shape {
        ForwardShape::SameSlot => {
            program.input(ty, "value", 41);
            program.input(Ty::I32, "flag", 1);
            program.blank();
            let mut text1 = String::from_str(c);
            text1.append(" slots[4];");
            program.line(text1.as_str());
            program.line("slots[0] = value;");
            let mut text2 = String::from_str(c);
            text2.append(" read = slots[0];");
            program.line(text2.as_str());
            program.blank();
            program.check(ty.promoted(), "read", 41);
            assert(program.top_lines() =~~= forward_top(ty, shape));
            assert(program.body_lines() =~~= forward_body(ty, shape));
            assert(program.expected_values() =~= forward_expected(ty, shape));
            assert(program.include_lines() =~~= forward_includes(ty, shape));
        },
        ForwardShape::OtherSlotBetween => {
            program.input(ty, "value", 41);
            program.input(Ty::I32, "flag", 1);
            program.blank();
            let mut text1 = String::from_str(c);
            text1.append(" slots[4];");
            program.line(text1.as_str());
            program.line("slots[0] = value;");
            let mut text2 = String::from_str("slots[2] = value + ");
            let literal3 = lit(ty, 100);
            text2.append(literal3.as_str());
            text2.append(";");
            program.line(text2.as_str());
            let mut text4 = String::from_str(c);
            text4.append(" read = slots[0];");
            program.line(text4.as_str());
            program.blank();
            program.check(ty.promoted(), "read", 41);
            assert(program.top_lines() =~~= forward_top(ty, shape));
            assert(program.body_lines() =~~= forward_body(ty, shape));
            assert(program.expected_values() =~= forward_expected(ty, shape));
            assert(program.include_lines() =~~= forward_includes(ty, shape));
        },
        ForwardShape::AcrossBranch => {
            program.input(ty, "value", 41);
            program.input(Ty::I32, "flag", 1);
            program.blank();
            let mut text1 = String::from_str(c);
            text1.append(" slots[4];");
            program.line(text1.as_str());
            program.line("slots[0] = value;");
            program.line("if (flag) {");
            let mut text2 = String::from_str("slots[1] = value + ");
            let literal3 = lit(ty, 1);
            text2.append(literal3.as_str());
            text2.append(";");
            program.line_at(1, text2.as_str());
            program.line("}");
            let mut text4 = String::from_str(c);
            text4.append(" read = slots[0];");
            program.line(text4.as_str());
            program.blank();
            program.check(ty.promoted(), "read", 41);
            assert(program.top_lines() =~~= forward_top(ty, shape));
            assert(program.body_lines() =~~= forward_body(ty, shape));
            assert(program.expected_values() =~= forward_expected(ty, shape));
            assert(program.include_lines() =~~= forward_includes(ty, shape));
        },
        ForwardShape::ThroughPointer => {
            program.input(ty, "value", 41);
            program.input(Ty::I32, "flag", 1);
            program.blank();
            let mut text1 = String::from_str(c);
            text1.append(" slots[4];");
            program.line(text1.as_str());
            let mut text2 = String::from_str(c);
            text2.append(" *at = &slots[0];");
            program.line(text2.as_str());
            program.line("*at = value;");
            let mut text3 = String::from_str(c);
            text3.append(" read = *at;");
            program.line(text3.as_str());
            program.blank();
            program.check(ty.promoted(), "read", 41);
            assert(program.top_lines() =~~= forward_top(ty, shape));
            assert(program.body_lines() =~~= forward_body(ty, shape));
            assert(program.expected_values() =~= forward_expected(ty, shape));
            assert(program.include_lines() =~~= forward_includes(ty, shape));
        },
    }
}

/// Writes a shape.
fn forward_write(program: &mut Program, ty: Ty, shape: ForwardShape)
    requires
        old(program).top_lines() == Seq::<Seq<char>>::empty(),
        old(program).body_lines() == Seq::<Seq<char>>::empty(),
        old(program).expected_values() == Seq::<int>::empty(),
        old(program).include_lines() == Seq::<Seq<char>>::empty(),
        !old(program).sinks(),
    ensures
        final(program).top_lines() == forward_top(ty, shape),
        final(program).body_lines() == forward_body(ty, shape),
        final(program).expected_values() == forward_expected(ty, shape),
        final(program).include_lines() == forward_includes(ty, shape),
        final(program).sinks() == forward_sinks(shape),
        final(program).purpose_text() == old(program).purpose_text(),
{
    match shape {
        ForwardShape::SameSlot | ForwardShape::OtherSlotBetween | ForwardShape::AcrossBranch | ForwardShape::ThroughPointer => {
            forward_write_0(program, ty, shape);
        },
    }
}

/// Whether a case is the forward shape at a type, whole.
pub open spec fn is_forward_case(c: Case, ty: Ty, shape: ForwardShape) -> bool {
    &&& c.axes_text() == seq![("type"@, ty.name_text()), ("shape"@, shape.name_text())]
    &&& c.tags_text() == Seq::<Seq<char>>::empty()
    &&& c.program.purpose_text() == "a "@ + ty.c_text() + " load a store already answered, "@ + shape.name_text()
    &&& c.program.include_lines() == forward_includes(ty, shape)
    &&& c.program.top_lines() == forward_top(ty, shape)
    &&& c.program.body_lines() == forward_body(ty, shape)
    &&& c.program.expected_values() == forward_expected(ty, shape)
    &&& c.program.sinks() == forward_sinks(shape)
}

/// One forward shape at one type.
fn forward_case(ty: Ty, shape: ForwardShape) -> (r: Case)
    ensures
        is_forward_case(r, ty, shape),
{
    let mut purpose = String::new();
    purpose.append("a ");
    purpose.append(ty.c_name());
    purpose.append(" load a store already answered, ");
    purpose.append(shape.name());
    let mut program = Program::new(purpose.as_str());
    forward_write(&mut program, ty, shape);
    let axes = vec![axis("type", ty.name()), axis("shape", shape.name())];
    let r = Case { axes, tags: tags_for(false), program };
    assert(r.axes_text() =~= seq![("type"@, ty.name_text()), ("shape"@, shape.name_text())]);
    assert(r.tags_text() =~= Seq::<Seq<char>>::empty());
    r
}

/// A load a store already answered, on every type at the width of a register.
///
/// The store and the load are separated by a store somewhere else, a branch, or a pointer, and
/// the value read is the value written whether or not the load survived.
pub fn load_forwarding() -> (r: Vec<Case>)
    ensures
        r@.len() == 16,
        forall|k: int|
            0 <= k < 16 ==> is_forward_case(
                #[trigger] r@[k],
                wide_types()[k / 4],
                forward_shapes_list()[k % 4],
            ),
{
    let types = wide();
    let shapes = forward_shapes_array();
    let mut out: Vec<Case> = Vec::new();
    let mut k: usize = 0;
    while k < 16
        invariant
            k <= 16,
            types@ == wide_types(),
            shapes@ == forward_shapes_list(),
            out@.len() == k,
            forall|i: int|
                0 <= i < k ==> is_forward_case(
                    #[trigger] out@[i],
                    wide_types()[i / 4],
                    forward_shapes_list()[i % 4],
                ),
        decreases 16 - k,
    {
        out.push(forward_case(types[k / 4], shapes[k % 4]));
        k += 1;
    }
    out
}

/// What a walk back from a load to the store that answers it has to do on the way.
#[derive(Clone, Copy, Debug, PartialEq, Eq, Structural)]
pub enum WalkShape {
    PhiTranslation,
    AcrossOpaqueCall,
    AcrossReadingCall,
    VolatileStore,
    LongChain,
    CopiedOver,
}

impl WalkShape {
    /// The axis value.
    pub open spec fn name_text(self) -> Seq<char> {
        match self {
            WalkShape::PhiTranslation => "phi-translation"@,
            WalkShape::AcrossOpaqueCall => "across-opaque-call"@,
            WalkShape::AcrossReadingCall => "across-reading-call"@,
            WalkShape::VolatileStore => "volatile-store"@,
            WalkShape::LongChain => "long-chain"@,
            WalkShape::CopiedOver => "copied-over"@,
        }
    }

    /// The axis value.
    pub fn name(self) -> (r: &'static str)
        ensures
            r@ == self.name_text(),
    {
        match self {
            WalkShape::PhiTranslation => "phi-translation",
            WalkShape::AcrossOpaqueCall => "across-opaque-call",
            WalkShape::AcrossReadingCall => "across-reading-call",
            WalkShape::VolatileStore => "volatile-store",
            WalkShape::LongChain => "long-chain",
            WalkShape::CopiedOver => "copied-over",
        }
    }
}

/// The shapes in the order the facet walks them.
pub open spec fn walk_shapes_list() -> Seq<WalkShape> {
    seq![
        WalkShape::PhiTranslation,
        WalkShape::AcrossOpaqueCall,
        WalkShape::AcrossReadingCall,
        WalkShape::VolatileStore,
        WalkShape::LongChain,
        WalkShape::CopiedOver,
    ]
}

/// The shapes in the order the facet walks them.
fn walk_shapes_array() -> (r: Vec<WalkShape>)
    ensures
        r@ == walk_shapes_list(),
{
    let r = vec![
        WalkShape::PhiTranslation,
        WalkShape::AcrossOpaqueCall,
        WalkShape::AcrossReadingCall,
        WalkShape::VolatileStore,
        WalkShape::LongChain,
        WalkShape::CopiedOver,
    ];
    assert(r@ =~= walk_shapes_list());
    r
}

/// The lines before `main` of each shape.
pub open spec fn walk_top(ty: Ty, shape: WalkShape) -> Seq<Seq<char>> {
    match shape {
        WalkShape::PhiTranslation => seq![
            input_global(ty, "value"@, 41int),
            input_global(Ty::I32, "flag"@, 1int),
        ],
        WalkShape::AcrossOpaqueCall => seq![
            input_global(ty, "value"@, 41int),
            input_global(Ty::I32, "flag"@, 1int),
            "static "@ + ty.c_text() + " *slot;"@,
            "static void bump(void) {"@,
            "    *slot += 1;"@,
            "}"@,
        ],
        WalkShape::AcrossReadingCall => seq![
            input_global(ty, "value"@, 41int),
            input_global(Ty::I32, "flag"@, 1int),
            "static "@ + ty.c_text() + " doubled("@ + ty.c_text() + " of) {"@,
            "    return of + of;"@,
            "}"@,
        ],
        WalkShape::VolatileStore => seq![
            input_global(ty, "value"@, 41int),
            input_global(Ty::I32, "flag"@, 1int),
        ],
        WalkShape::LongChain => seq![
            input_global(ty, "value"@, 41int),
            input_global(Ty::I32, "flag"@, 1int),
        ],
        WalkShape::CopiedOver => seq![
            input_global(ty, "value"@, 41int),
            input_global(Ty::I32, "flag"@, 1int),
        ],
    }
}

/// The statements of `main` of each shape.
pub open spec fn walk_body(ty: Ty, shape: WalkShape) -> Seq<Seq<char>> {
    match shape {
        WalkShape::PhiTranslation => seq![
            input_read(ty, "value"@),
            input_read(Ty::I32, "flag"@),
            Seq::<char>::empty(),
            indent(1) + ty.c_text() + " slots[4];"@,
            indent(1) + "slots[0] = value;"@,
            indent(1) + "slots[1] = value + "@ + lit_text(ty, 1int) + ";"@,
            indent(1) + ty.c_text() + " *at;"@,
            indent(1) + "if (flag) {"@,
            indent(2) + "at = &slots[0];"@,
            indent(1) + "} else {"@,
            indent(2) + "at = &slots[1];"@,
            indent(1) + "}"@,
            indent(1) + ty.c_text() + " read = *at;"@,
            Seq::<char>::empty(),
            print_line(1, ty.promotion(), "read"@),
        ],
        WalkShape::AcrossOpaqueCall => seq![
            input_read(ty, "value"@),
            input_read(Ty::I32, "flag"@),
            Seq::<char>::empty(),
            indent(1) + ty.c_text() + " slots[4];"@,
            indent(1) + "slots[0] = value;"@,
            indent(1) + "slot = &slots[0];"@,
            indent(1) + "bump();"@,
            indent(1) + ty.c_text() + " read = slots[0];"@,
            Seq::<char>::empty(),
            print_line(1, ty.promotion(), "read - "@ + lit_text(ty, 1int)),
        ],
        WalkShape::AcrossReadingCall => seq![
            input_read(ty, "value"@),
            input_read(Ty::I32, "flag"@),
            Seq::<char>::empty(),
            indent(1) + ty.c_text() + " slots[4];"@,
            indent(1) + "slots[0] = value;"@,
            indent(1) + ty.c_text() + " elsewhere = doubled(value);"@,
            indent(1) + "slots[2] = elsewhere;"@,
            indent(1) + ty.c_text() + " read = slots[0];"@,
            Seq::<char>::empty(),
            print_line(1, ty.promotion(), "read"@),
        ],
        WalkShape::VolatileStore => seq![
            input_read(ty, "value"@),
            input_read(Ty::I32, "flag"@),
            Seq::<char>::empty(),
            indent(1) + "volatile "@ + ty.c_text() + " slot;"@,
            indent(1) + "slot = value;"@,
            indent(1) + ty.c_text() + " read = slot;"@,
            Seq::<char>::empty(),
            print_line(1, ty.promotion(), "read"@),
        ],
        WalkShape::LongChain => seq![
            input_read(ty, "value"@),
            input_read(Ty::I32, "flag"@),
            Seq::<char>::empty(),
            indent(1) + ty.c_text() + " slots[40];"@,
            indent(1) + "slots[0] = value;"@,
            ] + Seq::new(32, |i: int| chain_store(ty, i + 1)) + seq![
            indent(1) + ty.c_text() + " read = slots[0];"@,
            Seq::<char>::empty(),
            print_line(1, ty.promotion(), "read"@),
        ],
        WalkShape::CopiedOver => seq![
            input_read(ty, "value"@),
            input_read(Ty::I32, "flag"@),
            Seq::<char>::empty(),
            indent(1) + ty.c_text() + " source[4];"@,
            indent(1) + ty.c_text() + " slots[4];"@,
            indent(1) + "for (int i = 0; i < 4; i++) {"@,
            indent(2) + "source[i] = value + ("@ + ty.c_text() + ")i;"@,
            indent(2) + "slots[i] = 0;"@,
            indent(1) + "}"@,
            indent(1) + "for (int i = 0; i < 4; i++) {"@,
            indent(2) + "slots[i] = source[i];"@,
            indent(1) + "}"@,
            indent(1) + ty.c_text() + " read = slots[0];"@,
            Seq::<char>::empty(),
            print_line(1, ty.promotion(), "read"@),
        ],
    }
}

/// The headers of each shape.
pub open spec fn walk_includes(ty: Ty, shape: WalkShape) -> Seq<Seq<char>> {
    match shape {
        WalkShape::PhiTranslation => Seq::empty(),
        WalkShape::AcrossOpaqueCall => Seq::empty(),
        WalkShape::AcrossReadingCall => Seq::empty(),
        WalkShape::VolatileStore => Seq::empty(),
        WalkShape::LongChain => Seq::empty(),
        WalkShape::CopiedOver => Seq::empty(),
    }
}

/// What the program prints of each shape.
pub open spec fn walk_expected(ty: Ty, shape: WalkShape) -> Seq<int> {
    match shape {
        WalkShape::PhiTranslation => seq![
            41int,
        ],
        WalkShape::AcrossOpaqueCall => seq![
            41int,
        ],
        WalkShape::AcrossReadingCall => seq![
            41int,
        ],
        WalkShape::VolatileStore => seq![
            41int,
        ],
        WalkShape::LongChain => seq![
            41int,
        ],
        WalkShape::CopiedOver => seq![
            41int,
        ],
    }
}

/// Whether the shape asks for the volatile sink.
pub open spec fn walk_sinks(shape: WalkShape) -> bool {
    match shape {
        WalkShape::PhiTranslation => false,
        WalkShape::AcrossOpaqueCall => false,
        WalkShape::AcrossReadingCall => false,
        WalkShape::VolatileStore => false,
        WalkShape::LongChain => false,
        WalkShape::CopiedOver => false,
    }
}

/// Writes some of the shapes.
#[verifier::rlimit(100)]
fn walk_write_0(program: &mut Program, ty: Ty, shape: WalkShape)
    requires
        old(program).top_lines() == Seq::<Seq<char>>::empty(),
        old(program).body_lines() == Seq::<Seq<char>>::empty(),
        old(program).expected_values() == Seq::<int>::empty(),
        old(program).include_lines() == Seq::<Seq<char>>::empty(),
        !old(program).sinks(),
        shape == WalkShape::PhiTranslation,
    ensures
        final(program).top_lines() == walk_top(ty, shape),
        final(program).body_lines() == walk_body(ty, shape),
        final(program).expected_values() == walk_expected(ty, shape),
        final(program).include_lines() == walk_includes(ty, shape),
        final(program).sinks() == walk_sinks(shape),
        final(program).purpose_text() == old(program).purpose_text(),
{
    let c = ty.c_name();
    match shape {
        WalkShape::PhiTranslation => {
            program.input(ty, "value", 41);
            program.input(Ty::I32, "flag", 1);
            program.blank();
            let mut text1 = String::from_str(c);
            text1.append(" slots[4];");
            program.line(text1.as_str());
            program.line("slots[0] = value;");
            let mut text2 = String::from_str("slots[1] = value + ");
            let literal3 = lit(ty, 1);
            text2.append(literal3.as_str());
            text2.append(";");
            program.line(text2.as_str());
            let mut text4 = String::from_str(c);
            text4.append(" *at;");
            program.line(text4.as_str());
            program.line("if (flag) {");
            program.line_at(1, "at = &slots[0];");
            program.line("} else {");
            program.line_at(1, "at = &slots[1];");
            program.line("}");
            let mut text5 = String::from_str(c);
            text5.append(" read = *at;");
            program.line(text5.as_str());
            program.blank();
            program.check(ty.promoted(), "read", 41);
            assert(program.top_lines() =~~= walk_top(ty, shape));
            assert(program.body_lines() =~~= walk_body(ty, shape));
            assert(program.expected_values() =~= walk_expected(ty, shape));
            assert(program.include_lines() =~~= walk_includes(ty, shape));
        },
        _ => {},
    }
}

/// Writes some of the shapes.
#[verifier::rlimit(100)]
fn walk_write_1(program: &mut Program, ty: Ty, shape: WalkShape)
    requires
        old(program).top_lines() == Seq::<Seq<char>>::empty(),
        old(program).body_lines() == Seq::<Seq<char>>::empty(),
        old(program).expected_values() == Seq::<int>::empty(),
        old(program).include_lines() == Seq::<Seq<char>>::empty(),
        !old(program).sinks(),
        shape == WalkShape::AcrossOpaqueCall,
    ensures
        final(program).top_lines() == walk_top(ty, shape),
        final(program).body_lines() == walk_body(ty, shape),
        final(program).expected_values() == walk_expected(ty, shape),
        final(program).include_lines() == walk_includes(ty, shape),
        final(program).sinks() == walk_sinks(shape),
        final(program).purpose_text() == old(program).purpose_text(),
{
    let c = ty.c_name();
    match shape {
        WalkShape::AcrossOpaqueCall => {
            program.input(ty, "value", 41);
            program.input(Ty::I32, "flag", 1);
            program.blank();
            let mut text1 = String::from_str("static ");
            text1.append(c);
            text1.append(" *slot;");
            program.top(text1.as_str());
            program.top("static void bump(void) {");
            program.top("    *slot += 1;");
            program.top("}");
            let mut text2 = String::from_str(c);
            text2.append(" slots[4];");
            program.line(text2.as_str());
            program.line("slots[0] = value;");
            program.line("slot = &slots[0];");
            program.line("bump();");
            let mut text3 = String::from_str(c);
            text3.append(" read = slots[0];");
            program.line(text3.as_str());
            program.blank();
            let mut text4 = String::from_str("read - ");
            let literal5 = lit(ty, 1);
            text4.append(literal5.as_str());
            program.check(ty.promoted(), text4.as_str(), 41);
            assert(program.top_lines() =~~= walk_top(ty, shape));
            assert(program.body_lines() =~~= walk_body(ty, shape));
            assert(program.expected_values() =~= walk_expected(ty, shape));
            assert(program.include_lines() =~~= walk_includes(ty, shape));
        },
        _ => {},
    }
}

/// Writes some of the shapes.
#[verifier::rlimit(100)]
fn walk_write_2(program: &mut Program, ty: Ty, shape: WalkShape)
    requires
        old(program).top_lines() == Seq::<Seq<char>>::empty(),
        old(program).body_lines() == Seq::<Seq<char>>::empty(),
        old(program).expected_values() == Seq::<int>::empty(),
        old(program).include_lines() == Seq::<Seq<char>>::empty(),
        !old(program).sinks(),
        shape == WalkShape::AcrossReadingCall,
    ensures
        final(program).top_lines() == walk_top(ty, shape),
        final(program).body_lines() == walk_body(ty, shape),
        final(program).expected_values() == walk_expected(ty, shape),
        final(program).include_lines() == walk_includes(ty, shape),
        final(program).sinks() == walk_sinks(shape),
        final(program).purpose_text() == old(program).purpose_text(),
{
    let c = ty.c_name();
    match shape {
        WalkShape::AcrossReadingCall => {
            program.input(ty, "value", 41);
            program.input(Ty::I32, "flag", 1);
            program.blank();
            let mut text1 = String::from_str("static ");
            text1.append(c);
            text1.append(" doubled(");
            text1.append(c);
            text1.append(" of) {");
            program.top(text1.as_str());
            program.top("    return of + of;");
            program.top("}");
            let mut text2 = String::from_str(c);
            text2.append(" slots[4];");
            program.line(text2.as_str());
            program.line("slots[0] = value;");
            let mut text3 = String::from_str(c);
            text3.append(" elsewhere = doubled(value);");
            program.line(text3.as_str());
            program.line("slots[2] = elsewhere;");
            let mut text4 = String::from_str(c);
            text4.append(" read = slots[0];");
            program.line(text4.as_str());
            program.blank();
            program.check(ty.promoted(), "read", 41);
            assert(program.top_lines() =~~= walk_top(ty, shape));
            assert(program.body_lines() =~~= walk_body(ty, shape));
            assert(program.expected_values() =~= walk_expected(ty, shape));
            assert(program.include_lines() =~~= walk_includes(ty, shape));
        },
        _ => {},
    }
}

/// Writes some of the shapes.
#[verifier::rlimit(100)]
fn walk_write_3(program: &mut Program, ty: Ty, shape: WalkShape)
    requires
        old(program).top_lines() == Seq::<Seq<char>>::empty(),
        old(program).body_lines() == Seq::<Seq<char>>::empty(),
        old(program).expected_values() == Seq::<int>::empty(),
        old(program).include_lines() == Seq::<Seq<char>>::empty(),
        !old(program).sinks(),
        shape == WalkShape::VolatileStore,
    ensures
        final(program).top_lines() == walk_top(ty, shape),
        final(program).body_lines() == walk_body(ty, shape),
        final(program).expected_values() == walk_expected(ty, shape),
        final(program).include_lines() == walk_includes(ty, shape),
        final(program).sinks() == walk_sinks(shape),
        final(program).purpose_text() == old(program).purpose_text(),
{
    let c = ty.c_name();
    match shape {
        WalkShape::VolatileStore => {
            program.input(ty, "value", 41);
            program.input(Ty::I32, "flag", 1);
            program.blank();
            let mut text1 = String::from_str("volatile ");
            text1.append(c);
            text1.append(" slot;");
            program.line(text1.as_str());
            program.line("slot = value;");
            let mut text2 = String::from_str(c);
            text2.append(" read = slot;");
            program.line(text2.as_str());
            program.blank();
            program.check(ty.promoted(), "read", 41);
            assert(program.top_lines() =~~= walk_top(ty, shape));
            assert(program.body_lines() =~~= walk_body(ty, shape));
            assert(program.expected_values() =~= walk_expected(ty, shape));
            assert(program.include_lines() =~~= walk_includes(ty, shape));
        },
        _ => {},
    }
}

/// Writes some of the shapes.
#[verifier::rlimit(100)]
fn walk_write_4(program: &mut Program, ty: Ty, shape: WalkShape)
    requires
        old(program).top_lines() == Seq::<Seq<char>>::empty(),
        old(program).body_lines() == Seq::<Seq<char>>::empty(),
        old(program).expected_values() == Seq::<int>::empty(),
        old(program).include_lines() == Seq::<Seq<char>>::empty(),
        !old(program).sinks(),
        shape == WalkShape::LongChain,
    ensures
        final(program).top_lines() == walk_top(ty, shape),
        final(program).body_lines() == walk_body(ty, shape),
        final(program).expected_values() == walk_expected(ty, shape),
        final(program).include_lines() == walk_includes(ty, shape),
        final(program).sinks() == walk_sinks(shape),
        final(program).purpose_text() == old(program).purpose_text(),
{
    let c = ty.c_name();
    match shape {
        WalkShape::LongChain => {
            program.input(ty, "value", 41);
            program.input(Ty::I32, "flag", 1);
            program.blank();
            let mut text1 = String::from_str(c);
            text1.append(" slots[40];");
            program.line(text1.as_str());
            program.line("slots[0] = value;");
            write_chain_stores(program, ty);
            let mut text2 = String::from_str(c);
            text2.append(" read = slots[0];");
            program.line(text2.as_str());
            program.blank();
            program.check(ty.promoted(), "read", 41);
            assert(program.top_lines() =~~= walk_top(ty, shape));
            assert(program.body_lines() =~~= walk_body(ty, shape));
            assert(program.expected_values() =~= walk_expected(ty, shape));
            assert(program.include_lines() =~~= walk_includes(ty, shape));
        },
        _ => {},
    }
}

/// Writes some of the shapes.
#[verifier::rlimit(100)]
fn walk_write_5(program: &mut Program, ty: Ty, shape: WalkShape)
    requires
        old(program).top_lines() == Seq::<Seq<char>>::empty(),
        old(program).body_lines() == Seq::<Seq<char>>::empty(),
        old(program).expected_values() == Seq::<int>::empty(),
        old(program).include_lines() == Seq::<Seq<char>>::empty(),
        !old(program).sinks(),
        shape == WalkShape::CopiedOver,
    ensures
        final(program).top_lines() == walk_top(ty, shape),
        final(program).body_lines() == walk_body(ty, shape),
        final(program).expected_values() == walk_expected(ty, shape),
        final(program).include_lines() == walk_includes(ty, shape),
        final(program).sinks() == walk_sinks(shape),
        final(program).purpose_text() == old(program).purpose_text(),
{
    let c = ty.c_name();
    match shape {
        WalkShape::CopiedOver => {
            program.input(ty, "value", 41);
            program.input(Ty::I32, "flag", 1);
            program.blank();
            let mut text1 = String::from_str(c);
            text1.append(" source[4];");
            program.line(text1.as_str());
            let mut text2 = String::from_str(c);
            text2.append(" slots[4];");
            program.line(text2.as_str());
            program.line("for (int i = 0; i < 4; i++) {");
            let mut text3 = String::from_str("source[i] = value + (");
            text3.append(c);
            text3.append(")i;");
            program.line_at(1, text3.as_str());
            program.line_at(1, "slots[i] = 0;");
            program.line("}");
            program.line("for (int i = 0; i < 4; i++) {");
            program.line_at(1, "slots[i] = source[i];");
            program.line("}");
            let mut text4 = String::from_str(c);
            text4.append(" read = slots[0];");
            program.line(text4.as_str());
            program.blank();
            program.check(ty.promoted(), "read", 41);
            assert(program.top_lines() =~~= walk_top(ty, shape));
            assert(program.body_lines() =~~= walk_body(ty, shape));
            assert(program.expected_values() =~= walk_expected(ty, shape));
            assert(program.include_lines() =~~= walk_includes(ty, shape));
        },
        _ => {},
    }
}

/// Writes a shape.
fn walk_write(program: &mut Program, ty: Ty, shape: WalkShape)
    requires
        old(program).top_lines() == Seq::<Seq<char>>::empty(),
        old(program).body_lines() == Seq::<Seq<char>>::empty(),
        old(program).expected_values() == Seq::<int>::empty(),
        old(program).include_lines() == Seq::<Seq<char>>::empty(),
        !old(program).sinks(),
    ensures
        final(program).top_lines() == walk_top(ty, shape),
        final(program).body_lines() == walk_body(ty, shape),
        final(program).expected_values() == walk_expected(ty, shape),
        final(program).include_lines() == walk_includes(ty, shape),
        final(program).sinks() == walk_sinks(shape),
        final(program).purpose_text() == old(program).purpose_text(),
{
    match shape {
        WalkShape::PhiTranslation => {
            walk_write_0(program, ty, shape);
        },
        WalkShape::AcrossOpaqueCall => {
            walk_write_1(program, ty, shape);
        },
        WalkShape::AcrossReadingCall => {
            walk_write_2(program, ty, shape);
        },
        WalkShape::VolatileStore => {
            walk_write_3(program, ty, shape);
        },
        WalkShape::LongChain => {
            walk_write_4(program, ty, shape);
        },
        WalkShape::CopiedOver => {
            walk_write_5(program, ty, shape);
        },
    }
}

/// Whether a case is the walk shape at a type, whole.
pub open spec fn is_walk_case(c: Case, ty: Ty, shape: WalkShape) -> bool {
    &&& c.axes_text() == seq![("type"@, ty.name_text()), ("shape"@, shape.name_text())]
    &&& c.tags_text() == Seq::<Seq<char>>::empty()
    &&& c.program.purpose_text() == "a "@ + ty.c_text() + " load and a walk that has to "@ + shape.name_text()
    &&& c.program.include_lines() == walk_includes(ty, shape)
    &&& c.program.top_lines() == walk_top(ty, shape)
    &&& c.program.body_lines() == walk_body(ty, shape)
    &&& c.program.expected_values() == walk_expected(ty, shape)
    &&& c.program.sinks() == walk_sinks(shape)
}

/// One walk shape at one type.
fn walk_case(ty: Ty, shape: WalkShape) -> (r: Case)
    ensures
        is_walk_case(r, ty, shape),
{
    let mut purpose = String::new();
    purpose.append("a ");
    purpose.append(ty.c_name());
    purpose.append(" load and a walk that has to ");
    purpose.append(shape.name());
    let mut program = Program::new(purpose.as_str());
    walk_write(&mut program, ty, shape);
    let axes = vec![axis("type", ty.name()), axis("shape", shape.name())];
    let r = Case { axes, tags: tags_for(false), program };
    assert(r.axes_text() =~= seq![("type"@, ty.name_text()), ("shape"@, shape.name_text())]);
    assert(r.tags_text() =~= Seq::<Seq<char>>::empty());
    r
}

/// How far back a load is allowed to look, on every type at the width of a register.
///
/// The walk carries an address back through a join, stops at a call that may write the place,
/// passes one that touches nothing, forwards nothing across a `volatile` access, gives up on a
/// long chain without answering from the wrong store, and cannot see through a copying loop.
/// Every program prints forty one.
pub fn load_forwarding_walk() -> (r: Vec<Case>)
    ensures
        r@.len() == 24,
        forall|k: int|
            0 <= k < 24 ==> is_walk_case(
                #[trigger] r@[k],
                wide_types()[k / 6],
                walk_shapes_list()[k % 6],
            ),
{
    let types = wide();
    let shapes = walk_shapes_array();
    let mut out: Vec<Case> = Vec::new();
    let mut k: usize = 0;
    while k < 24
        invariant
            k <= 24,
            types@ == wide_types(),
            shapes@ == walk_shapes_list(),
            out@.len() == k,
            forall|i: int|
                0 <= i < k ==> is_walk_case(
                    #[trigger] out@[i],
                    wide_types()[i / 6],
                    walk_shapes_list()[i % 6],
                ),
        decreases 24 - k,
    {
        out.push(walk_case(types[k / 6], shapes[k % 6]));
        k += 1;
    }
    out
}

/// Which way a computation moves: up out of both arms, down into one, or past a store.
#[derive(Clone, Copy, Debug, PartialEq, Eq, Structural)]
pub enum MotionDirection {
    HoistFromBothArms,
    SinkIntoOneArm,
    HoistPastStore,
}

impl MotionDirection {
    /// The axis value.
    pub open spec fn name_text(self) -> Seq<char> {
        match self {
            MotionDirection::HoistFromBothArms => "hoist-from-both-arms"@,
            MotionDirection::SinkIntoOneArm => "sink-into-one-arm"@,
            MotionDirection::HoistPastStore => "hoist-past-store"@,
        }
    }

    /// The axis value.
    pub fn name(self) -> (r: &'static str)
        ensures
            r@ == self.name_text(),
    {
        match self {
            MotionDirection::HoistFromBothArms => "hoist-from-both-arms",
            MotionDirection::SinkIntoOneArm => "sink-into-one-arm",
            MotionDirection::HoistPastStore => "hoist-past-store",
        }
    }
}

/// The shapes in the order the facet walks them.
pub open spec fn motion_directions_list() -> Seq<MotionDirection> {
    seq![
        MotionDirection::HoistFromBothArms,
        MotionDirection::SinkIntoOneArm,
        MotionDirection::HoistPastStore,
    ]
}

/// The shapes in the order the facet walks them.
fn motion_directions_array() -> (r: Vec<MotionDirection>)
    ensures
        r@ == motion_directions_list(),
{
    let r = vec![
        MotionDirection::HoistFromBothArms,
        MotionDirection::SinkIntoOneArm,
        MotionDirection::HoistPastStore,
    ];
    assert(r@ =~= motion_directions_list());
    r
}

/// The lines before `main`.
pub open spec fn moved_top(ty: Ty, shape: MotionDirection) -> Seq<Seq<char>> {
    match shape {
        MotionDirection::HoistFromBothArms => seq![
            input_global(ty, "a"@, 4int),
            input_global(ty, "b"@, 9int),
            input_global(Ty::I32, "flag"@, 0int),
        ],
        MotionDirection::SinkIntoOneArm => seq![
            input_global(ty, "a"@, 4int),
            input_global(ty, "b"@, 9int),
            input_global(Ty::I32, "flag"@, 0int),
        ],
        MotionDirection::HoistPastStore => seq![
            input_global(ty, "a"@, 4int),
            input_global(ty, "b"@, 9int),
            input_global(Ty::I32, "flag"@, 0int),
        ],
    }
}

/// The statements of `main`.
pub open spec fn moved_body(ty: Ty, shape: MotionDirection) -> Seq<Seq<char>> {
    match shape {
        MotionDirection::HoistFromBothArms => seq![
            input_read(ty, "a"@),
            input_read(ty, "b"@),
            input_read(Ty::I32, "flag"@),
            Seq::<char>::empty(),
            indent(1) + ty.c_text() + " total;"@,
            indent(1) + "if (flag) {"@,
            indent(2) + "total = a * b + "@ + lit_text(ty, 1int) + ";"@,
            indent(1) + "} else {"@,
            indent(2) + "total = a * b + "@ + lit_text(ty, 1int) + ";"@,
            indent(1) + "}"@,
            Seq::<char>::empty(),
        ],
        MotionDirection::SinkIntoOneArm => seq![
            input_read(ty, "a"@),
            input_read(ty, "b"@),
            input_read(Ty::I32, "flag"@),
            Seq::<char>::empty(),
            indent(1) + ty.c_text() + " product = a * b;"@,
            indent(1) + ty.c_text() + " total;"@,
            indent(1) + "if (flag) {"@,
            indent(2) + "total = product + "@ + lit_text(ty, 2int) + ";"@,
            indent(1) + "} else {"@,
            indent(2) + "total = product + "@ + lit_text(ty, 1int) + ";"@,
            indent(1) + "}"@,
            Seq::<char>::empty(),
        ],
        MotionDirection::HoistPastStore => seq![
            input_read(ty, "a"@),
            input_read(ty, "b"@),
            input_read(Ty::I32, "flag"@),
            Seq::<char>::empty(),
            indent(1) + ty.c_text() + " scratch[2];"@,
            indent(1) + "scratch[0] = a;"@,
            indent(1) + ty.c_text() + " product = a * b;"@,
            indent(1) + "scratch[1] = b;"@,
            indent(1) + ty.c_text() + " total = product + "@ + lit_text(ty, 1int) + ";"@,
            Seq::<char>::empty(),
        ],
    }
}

/// The headers.
pub open spec fn moved_includes(ty: Ty, shape: MotionDirection) -> Seq<Seq<char>> {
    match shape {
        MotionDirection::HoistFromBothArms => Seq::empty(),
        MotionDirection::SinkIntoOneArm => Seq::empty(),
        MotionDirection::HoistPastStore => Seq::empty(),
    }
}

/// What the program prints.
pub open spec fn moved_expected(ty: Ty, shape: MotionDirection) -> Seq<int> {
    match shape {
        MotionDirection::HoistFromBothArms => Seq::empty(),
        MotionDirection::SinkIntoOneArm => Seq::empty(),
        MotionDirection::HoistPastStore => Seq::empty(),
    }
}

/// Writes some of the shapes.
#[verifier::rlimit(100)]
fn moved_write_0(program: &mut Program, ty: Ty, shape: MotionDirection)
    requires
        old(program).top_lines() == Seq::<Seq<char>>::empty(),
        old(program).body_lines() == Seq::<Seq<char>>::empty(),
        old(program).expected_values() == Seq::<int>::empty(),
        old(program).include_lines() == Seq::<Seq<char>>::empty(),
        !old(program).sinks(),
        shape == MotionDirection::HoistFromBothArms || shape == MotionDirection::SinkIntoOneArm || shape == MotionDirection::HoistPastStore,
    ensures
        final(program).top_lines() == moved_top(ty, shape),
        final(program).body_lines() == moved_body(ty, shape),
        final(program).expected_values() == moved_expected(ty, shape),
        final(program).include_lines() == moved_includes(ty, shape),
        !final(program).sinks(),
        final(program).purpose_text() == old(program).purpose_text(),
{
    let c = ty.c_name();
    match shape {
        MotionDirection::HoistFromBothArms => {
            program.input(ty, "a", 4);
            program.input(ty, "b", 9);
            program.input(Ty::I32, "flag", 0);
            program.blank();
            let mut text1 = String::from_str(c);
            text1.append(" total;");
            program.line(text1.as_str());
            program.line("if (flag) {");
            let mut text2 = String::from_str("total = a * b + ");
            let literal3 = lit(ty, 1);
            text2.append(literal3.as_str());
            text2.append(";");
            program.line_at(1, text2.as_str());
            program.line("} else {");
            let mut text4 = String::from_str("total = a * b + ");
            let literal5 = lit(ty, 1);
            text4.append(literal5.as_str());
            text4.append(";");
            program.line_at(1, text4.as_str());
            program.line("}");
            program.blank();
            assert(program.top_lines() =~~= moved_top(ty, shape));
            assert(program.body_lines() =~~= moved_body(ty, shape));
            assert(program.expected_values() =~= moved_expected(ty, shape));
            assert(program.include_lines() =~~= moved_includes(ty, shape));
        },
        MotionDirection::SinkIntoOneArm => {
            program.input(ty, "a", 4);
            program.input(ty, "b", 9);
            program.input(Ty::I32, "flag", 0);
            program.blank();
            let mut text1 = String::from_str(c);
            text1.append(" product = a * b;");
            program.line(text1.as_str());
            let mut text2 = String::from_str(c);
            text2.append(" total;");
            program.line(text2.as_str());
            program.line("if (flag) {");
            let mut text3 = String::from_str("total = product + ");
            let literal4 = lit(ty, 2);
            text3.append(literal4.as_str());
            text3.append(";");
            program.line_at(1, text3.as_str());
            program.line("} else {");
            let mut text5 = String::from_str("total = product + ");
            let literal6 = lit(ty, 1);
            text5.append(literal6.as_str());
            text5.append(";");
            program.line_at(1, text5.as_str());
            program.line("}");
            program.blank();
            assert(program.top_lines() =~~= moved_top(ty, shape));
            assert(program.body_lines() =~~= moved_body(ty, shape));
            assert(program.expected_values() =~= moved_expected(ty, shape));
            assert(program.include_lines() =~~= moved_includes(ty, shape));
        },
        MotionDirection::HoistPastStore => {
            program.input(ty, "a", 4);
            program.input(ty, "b", 9);
            program.input(Ty::I32, "flag", 0);
            program.blank();
            let mut text1 = String::from_str(c);
            text1.append(" scratch[2];");
            program.line(text1.as_str());
            program.line("scratch[0] = a;");
            let mut text2 = String::from_str(c);
            text2.append(" product = a * b;");
            program.line(text2.as_str());
            program.line("scratch[1] = b;");
            let mut text3 = String::from_str(c);
            text3.append(" total = product + ");
            let literal4 = lit(ty, 1);
            text3.append(literal4.as_str());
            text3.append(";");
            program.line(text3.as_str());
            program.blank();
            assert(program.top_lines() =~~= moved_top(ty, shape));
            assert(program.body_lines() =~~= moved_body(ty, shape));
            assert(program.expected_values() =~= moved_expected(ty, shape));
            assert(program.include_lines() =~~= moved_includes(ty, shape));
        },
    }
}

/// Writes a shape.
fn moved_write(program: &mut Program, ty: Ty, shape: MotionDirection)
    requires
        old(program).top_lines() == Seq::<Seq<char>>::empty(),
        old(program).body_lines() == Seq::<Seq<char>>::empty(),
        old(program).expected_values() == Seq::<int>::empty(),
        old(program).include_lines() == Seq::<Seq<char>>::empty(),
        !old(program).sinks(),
    ensures
        final(program).top_lines() == moved_top(ty, shape),
        final(program).body_lines() == moved_body(ty, shape),
        final(program).expected_values() == moved_expected(ty, shape),
        final(program).include_lines() == moved_includes(ty, shape),
        !final(program).sinks(),
        final(program).purpose_text() == old(program).purpose_text(),
{
    match shape {
        MotionDirection::HoistFromBothArms | MotionDirection::SinkIntoOneArm | MotionDirection::HoistPastStore => {
            moved_write_0(program, ty, shape);
        },
    }
}

/// Whether a case is the moved program for its point, whole.
pub open spec fn is_moved_case(c: Case, ty: Ty, shape: MotionDirection) -> bool {
    &&& c.axes_text() == seq![("type"@, ty.name_text()), ("shape"@, shape.name_text())]
    &&& c.tags_text() == Seq::<Seq<char>>::empty()
    &&& c.program.purpose_text() == shape.name_text() + " for "@ + ty.c_text()
    &&& c.program.include_lines() == moved_includes(ty, shape)
    &&& c.program.top_lines() == moved_top(ty, shape)
    &&& c.program.body_lines() == moved_body(ty, shape).push(print_line(1, ty.promotion(), "total"@))
    &&& c.program.expected_values() == seq![c_value(Op::Add, ty, c_value(Op::Mul, ty, 4, 9)->0 as i128, 1)->0]
    &&& !c.program.sinks()
}

/// The moved program for one point.
fn moved_case(ty: Ty, shape: MotionDirection) -> (r: Case)
    requires
        wide_types().contains(ty),
    ensures
        is_moved_case(r, ty, shape),
{
    let mut purpose = String::new();
    purpose.append(shape.name());
    purpose.append(" for ");
    purpose.append(ty.c_name());
    assert(purpose@ =~= shape.name_text() + " for "@ + ty.c_text());
    let mut program = Program::new(purpose.as_str());
    moved_write(&mut program, ty, shape);
    let multiplied = eval(Op::Mul, ty, 4, 9);
    assert(multiplied is Some);
    let product = multiplied.unwrap();
    proof {
        lemma_wrap_keeps_contained(ty, 36);
    }
    assert(product == 36);
    let added = eval(Op::Add, ty, product, 1);
    assert(added is Some);
    let value = added.unwrap();
    program.check(ty.promoted(), "total", value);
    let axes = vec![axis("type", ty.name()), axis("shape", shape.name())];
    let r = Case { axes, tags: tags_for(false), program };
    assert(r.axes_text() =~= seq![("type"@, ty.name_text()), ("shape"@, shape.name_text())]);
    assert(r.tags_text() =~= Seq::<Seq<char>>::empty());
    assert(r.program.expected_values() =~= seq![c_value(Op::Add, ty, c_value(Op::Mul, ty, 4, 9)->0 as i128, 1)->0]);
    r
}

/// A computation that can move to where it runs less often, on every type at the width of a
/// register.
///
/// Hoisting does once before a branch what both arms do; sinking pushes into one arm what only
/// that arm uses. Both leave the answer alone, four times nine plus one.
pub fn code_motion() -> (r: Vec<Case>)
    ensures
        r@.len() == 12,
        forall|k: int| 0 <= k < 12 ==> is_moved_case(#[trigger] r@[k], wide_types()[k / 3], motion_directions_list()[k % 3]),
{
    let types = wide();
    let shape_all = motion_directions_array();
    let mut out: Vec<Case> = Vec::new();
    let mut k: usize = 0;
    while k < 12
        invariant
            k <= 12,
            types@ == wide_types(),
            shape_all@ == motion_directions_list(),
            out@.len() == k,
            forall|i: int| 0 <= i < k ==> is_moved_case(#[trigger] out@[i], wide_types()[i / 3], motion_directions_list()[i % 3]),
        decreases 12 - k,
    {
        out.push(moved_case(types[k / 3], shape_all[k % 3]));
        k += 1;
    }
    out
}

/// How a constant reaches its use.
#[derive(Clone, Copy, Debug, PartialEq, Eq, Structural)]
pub enum KnownShape {
    Direct,
    ThroughCopy,
    SameOnBothArms,
    ThroughArray,
}

impl KnownShape {
    /// The axis value.
    pub open spec fn name_text(self) -> Seq<char> {
        match self {
            KnownShape::Direct => "direct"@,
            KnownShape::ThroughCopy => "through-copy"@,
            KnownShape::SameOnBothArms => "same-on-both-arms"@,
            KnownShape::ThroughArray => "through-array"@,
        }
    }

    /// The axis value.
    pub fn name(self) -> (r: &'static str)
        ensures
            r@ == self.name_text(),
    {
        match self {
            KnownShape::Direct => "direct",
            KnownShape::ThroughCopy => "through-copy",
            KnownShape::SameOnBothArms => "same-on-both-arms",
            KnownShape::ThroughArray => "through-array",
        }
    }
}

/// The shapes in the order the facet walks them.
pub open spec fn known_shapes_list() -> Seq<KnownShape> {
    seq![
        KnownShape::Direct,
        KnownShape::ThroughCopy,
        KnownShape::SameOnBothArms,
        KnownShape::ThroughArray,
    ]
}

/// The shapes in the order the facet walks them.
fn known_shapes_array() -> (r: Vec<KnownShape>)
    ensures
        r@ == known_shapes_list(),
{
    let r = vec![
        KnownShape::Direct,
        KnownShape::ThroughCopy,
        KnownShape::SameOnBothArms,
        KnownShape::ThroughArray,
    ];
    assert(r@ =~= known_shapes_list());
    r
}

/// The lines before `main`.
pub open spec fn known_top(ty: Ty, shape: KnownShape) -> Seq<Seq<char>> {
    match shape {
        KnownShape::Direct => seq![
            input_global(Ty::I32, "flag"@, 1int),
        ],
        KnownShape::ThroughCopy => seq![
            input_global(Ty::I32, "flag"@, 1int),
        ],
        KnownShape::SameOnBothArms => seq![
            input_global(Ty::I32, "flag"@, 1int),
        ],
        KnownShape::ThroughArray => seq![
            input_global(Ty::I32, "flag"@, 1int),
        ],
    }
}

/// The statements of `main`.
pub open spec fn known_body(ty: Ty, shape: KnownShape) -> Seq<Seq<char>> {
    match shape {
        KnownShape::Direct => seq![
            input_read(Ty::I32, "flag"@),
            Seq::<char>::empty(),
            indent(1) + ty.c_text() + " value = "@ + lit_text(ty, 21int) + ";"@,
            Seq::<char>::empty(),
        ],
        KnownShape::ThroughCopy => seq![
            input_read(Ty::I32, "flag"@),
            Seq::<char>::empty(),
            indent(1) + ty.c_text() + " first = "@ + lit_text(ty, 21int) + ";"@,
            indent(1) + ty.c_text() + " value = first;"@,
            Seq::<char>::empty(),
        ],
        KnownShape::SameOnBothArms => seq![
            input_read(Ty::I32, "flag"@),
            Seq::<char>::empty(),
            indent(1) + ty.c_text() + " value;"@,
            indent(1) + "if (flag) {"@,
            indent(2) + "value = "@ + lit_text(ty, 21int) + ";"@,
            indent(1) + "} else {"@,
            indent(2) + "value = "@ + lit_text(ty, 21int) + ";"@,
            indent(1) + "}"@,
            Seq::<char>::empty(),
        ],
        KnownShape::ThroughArray => seq![
            input_read(Ty::I32, "flag"@),
            Seq::<char>::empty(),
            indent(1) + ty.c_text() + " table[3] = { "@ + lit_text(ty, 21int) + ", "@ + lit_text(ty, 22int) + ", "@ + lit_text(ty, 23int) + " };"@,
            indent(1) + ty.c_text() + " value = table[0];"@,
            Seq::<char>::empty(),
        ],
    }
}

/// The headers.
pub open spec fn known_includes(ty: Ty, shape: KnownShape) -> Seq<Seq<char>> {
    match shape {
        KnownShape::Direct => Seq::empty(),
        KnownShape::ThroughCopy => Seq::empty(),
        KnownShape::SameOnBothArms => Seq::empty(),
        KnownShape::ThroughArray => Seq::empty(),
    }
}

/// What the program prints.
pub open spec fn known_expected(ty: Ty, shape: KnownShape) -> Seq<int> {
    match shape {
        KnownShape::Direct => Seq::empty(),
        KnownShape::ThroughCopy => Seq::empty(),
        KnownShape::SameOnBothArms => Seq::empty(),
        KnownShape::ThroughArray => Seq::empty(),
    }
}

/// Writes some of the shapes.
#[verifier::rlimit(100)]
fn known_write_0(program: &mut Program, ty: Ty, shape: KnownShape)
    requires
        old(program).top_lines() == Seq::<Seq<char>>::empty(),
        old(program).body_lines() == Seq::<Seq<char>>::empty(),
        old(program).expected_values() == Seq::<int>::empty(),
        old(program).include_lines() == Seq::<Seq<char>>::empty(),
        !old(program).sinks(),
        shape == KnownShape::Direct || shape == KnownShape::ThroughCopy || shape == KnownShape::SameOnBothArms || shape == KnownShape::ThroughArray,
    ensures
        final(program).top_lines() == known_top(ty, shape),
        final(program).body_lines() == known_body(ty, shape),
        final(program).expected_values() == known_expected(ty, shape),
        final(program).include_lines() == known_includes(ty, shape),
        !final(program).sinks(),
        final(program).purpose_text() == old(program).purpose_text(),
{
    let c = ty.c_name();
    match shape {
        KnownShape::Direct => {
            program.input(Ty::I32, "flag", 1);
            program.blank();
            let mut text1 = String::from_str(c);
            text1.append(" value = ");
            let literal2 = lit(ty, 21);
            text1.append(literal2.as_str());
            text1.append(";");
            program.line(text1.as_str());
            program.blank();
            assert(program.top_lines() =~~= known_top(ty, shape));
            assert(program.body_lines() =~~= known_body(ty, shape));
            assert(program.expected_values() =~= known_expected(ty, shape));
            assert(program.include_lines() =~~= known_includes(ty, shape));
        },
        KnownShape::ThroughCopy => {
            program.input(Ty::I32, "flag", 1);
            program.blank();
            let mut text1 = String::from_str(c);
            text1.append(" first = ");
            let literal2 = lit(ty, 21);
            text1.append(literal2.as_str());
            text1.append(";");
            program.line(text1.as_str());
            let mut text3 = String::from_str(c);
            text3.append(" value = first;");
            program.line(text3.as_str());
            program.blank();
            assert(program.top_lines() =~~= known_top(ty, shape));
            assert(program.body_lines() =~~= known_body(ty, shape));
            assert(program.expected_values() =~= known_expected(ty, shape));
            assert(program.include_lines() =~~= known_includes(ty, shape));
        },
        KnownShape::SameOnBothArms => {
            program.input(Ty::I32, "flag", 1);
            program.blank();
            let mut text1 = String::from_str(c);
            text1.append(" value;");
            program.line(text1.as_str());
            program.line("if (flag) {");
            let mut text2 = String::from_str("value = ");
            let literal3 = lit(ty, 21);
            text2.append(literal3.as_str());
            text2.append(";");
            program.line_at(1, text2.as_str());
            program.line("} else {");
            let mut text4 = String::from_str("value = ");
            let literal5 = lit(ty, 21);
            text4.append(literal5.as_str());
            text4.append(";");
            program.line_at(1, text4.as_str());
            program.line("}");
            program.blank();
            assert(program.top_lines() =~~= known_top(ty, shape));
            assert(program.body_lines() =~~= known_body(ty, shape));
            assert(program.expected_values() =~= known_expected(ty, shape));
            assert(program.include_lines() =~~= known_includes(ty, shape));
        },
        KnownShape::ThroughArray => {
            program.input(Ty::I32, "flag", 1);
            program.blank();
            let mut text1 = String::from_str(c);
            text1.append(" table[3] = { ");
            let literal2 = lit(ty, 21);
            text1.append(literal2.as_str());
            text1.append(", ");
            let literal3 = lit(ty, 22);
            text1.append(literal3.as_str());
            text1.append(", ");
            let literal4 = lit(ty, 23);
            text1.append(literal4.as_str());
            text1.append(" };");
            program.line(text1.as_str());
            let mut text5 = String::from_str(c);
            text5.append(" value = table[0];");
            program.line(text5.as_str());
            program.blank();
            assert(program.top_lines() =~~= known_top(ty, shape));
            assert(program.body_lines() =~~= known_body(ty, shape));
            assert(program.expected_values() =~= known_expected(ty, shape));
            assert(program.include_lines() =~~= known_includes(ty, shape));
        },
    }
}

/// Writes a shape.
fn known_write(program: &mut Program, ty: Ty, shape: KnownShape)
    requires
        old(program).top_lines() == Seq::<Seq<char>>::empty(),
        old(program).body_lines() == Seq::<Seq<char>>::empty(),
        old(program).expected_values() == Seq::<int>::empty(),
        old(program).include_lines() == Seq::<Seq<char>>::empty(),
        !old(program).sinks(),
    ensures
        final(program).top_lines() == known_top(ty, shape),
        final(program).body_lines() == known_body(ty, shape),
        final(program).expected_values() == known_expected(ty, shape),
        final(program).include_lines() == known_includes(ty, shape),
        !final(program).sinks(),
        final(program).purpose_text() == old(program).purpose_text(),
{
    match shape {
        KnownShape::Direct | KnownShape::ThroughCopy | KnownShape::SameOnBothArms | KnownShape::ThroughArray => {
            known_write_0(program, ty, shape);
        },
    }
}

/// Whether a case is the known program for its point, whole.
pub open spec fn is_known_case(c: Case, ty: Ty, shape: KnownShape) -> bool {
    &&& c.axes_text() == seq![("type"@, ty.name_text()), ("shape"@, shape.name_text())]
    &&& c.tags_text() == Seq::<Seq<char>>::empty()
    &&& c.program.purpose_text() == "a known "@ + ty.c_text() + " value reaching a use, "@ + shape.name_text()
    &&& c.program.include_lines() == known_includes(ty, shape)
    &&& c.program.top_lines() == known_top(ty, shape)
    &&& c.program.body_lines() == known_body(ty, shape).push(print_line(1, ty.promotion(), "value + value"@))
    &&& c.program.expected_values() == seq![c_value(Op::Add, ty, 21, 21)->0]
    &&& !c.program.sinks()
}

/// The known program for one point.
fn known_case(ty: Ty, shape: KnownShape) -> (r: Case)
    requires
        wide_types().contains(ty),
    ensures
        is_known_case(r, ty, shape),
{
    let mut purpose = String::new();
    purpose.append("a known ");
    purpose.append(ty.c_name());
    purpose.append(" value reaching a use, ");
    purpose.append(shape.name());
    assert(purpose@ =~= "a known "@ + ty.c_text() + " value reaching a use, "@ + shape.name_text());
    let mut program = Program::new(purpose.as_str());
    known_write(&mut program, ty, shape);
    let added = eval(Op::Add, ty, 21, 21);
    assert(added is Some);
    let value = added.unwrap();
    program.check(ty.promoted(), "value + value", value);
    let axes = vec![axis("type", ty.name()), axis("shape", shape.name())];
    let r = Case { axes, tags: tags_for(false), program };
    assert(r.axes_text() =~= seq![("type"@, ty.name_text()), ("shape"@, shape.name_text())]);
    assert(r.tags_text() =~= Seq::<Seq<char>>::empty());
    assert(r.program.expected_values() =~= seq![c_value(Op::Add, ty, 21, 21)->0]);
    r
}

/// A value that is the same constant however the program got there, on every type at the width
/// of a register.
///
/// The last two need reasoning about a join and about an array rather than about one
/// assignment, which is what separates constant propagation from a peephole.
pub fn constant_propagation() -> (r: Vec<Case>)
    ensures
        r@.len() == 16,
        forall|k: int| 0 <= k < 16 ==> is_known_case(#[trigger] r@[k], wide_types()[k / 4], known_shapes_list()[k % 4]),
{
    let types = wide();
    let shape_all = known_shapes_array();
    let mut out: Vec<Case> = Vec::new();
    let mut k: usize = 0;
    while k < 16
        invariant
            k <= 16,
            types@ == wide_types(),
            shape_all@ == known_shapes_list(),
            out@.len() == k,
            forall|i: int| 0 <= i < k ==> is_known_case(#[trigger] out@[i], wide_types()[i / 4], known_shapes_list()[i % 4]),
        decreases 16 - k,
    {
        out.push(known_case(types[k / 4], shape_all[k % 4]));
        k += 1;
    }
    out
}

/// Two references, and whether they can name the same object.
#[derive(Clone, Copy, Debug, PartialEq, Eq, Structural)]
pub enum ReferencePair {
    DistinctLocals,
    DistinctIndices,
    Restrict,
    MayAlias,
}

impl ReferencePair {
    /// The axis value.
    pub open spec fn name_text(self) -> Seq<char> {
        match self {
            ReferencePair::DistinctLocals => "distinct-locals"@,
            ReferencePair::DistinctIndices => "distinct-indices"@,
            ReferencePair::Restrict => "restrict"@,
            ReferencePair::MayAlias => "may-alias"@,
        }
    }

    /// The axis value.
    pub fn name(self) -> (r: &'static str)
        ensures
            r@ == self.name_text(),
    {
        match self {
            ReferencePair::DistinctLocals => "distinct-locals",
            ReferencePair::DistinctIndices => "distinct-indices",
            ReferencePair::Restrict => "restrict",
            ReferencePair::MayAlias => "may-alias",
        }
    }
}

/// The shapes in the order the facet walks them.
pub open spec fn reference_pairs_list() -> Seq<ReferencePair> {
    seq![
        ReferencePair::DistinctLocals,
        ReferencePair::DistinctIndices,
        ReferencePair::Restrict,
        ReferencePair::MayAlias,
    ]
}

/// The shapes in the order the facet walks them.
fn reference_pairs_array() -> (r: Vec<ReferencePair>)
    ensures
        r@ == reference_pairs_list(),
{
    let r = vec![
        ReferencePair::DistinctLocals,
        ReferencePair::DistinctIndices,
        ReferencePair::Restrict,
        ReferencePair::MayAlias,
    ];
    assert(r@ =~= reference_pairs_list());
    r
}

/// The lines before `main`.
pub open spec fn pair_top(ty: Ty, shape: ReferencePair) -> Seq<Seq<char>> {
    match shape {
        ReferencePair::DistinctLocals => seq![
            input_global(ty, "seed"@, 5int),
        ],
        ReferencePair::DistinctIndices => seq![
            input_global(ty, "seed"@, 5int),
        ],
        ReferencePair::Restrict => seq![
            input_global(ty, "seed"@, 5int),
            "static "@ + ty.c_text() + " combine("@ + ty.c_text() + " *restrict left, "@ + ty.c_text() + " *restrict right) {"@,
            "    *left += 1;"@,
            "    *right += 2;"@,
            "    return *left + *right;"@,
            "}"@,
        ],
        ReferencePair::MayAlias => seq![
            input_global(ty, "seed"@, 5int),
        ],
    }
}

/// The statements of `main`.
pub open spec fn pair_body(ty: Ty, shape: ReferencePair) -> Seq<Seq<char>> {
    match shape {
        ReferencePair::DistinctLocals => seq![
            input_read(ty, "seed"@),
            Seq::<char>::empty(),
            indent(1) + ty.c_text() + " left = seed;"@,
            indent(1) + ty.c_text() + " right = seed;"@,
            indent(1) + ty.c_text() + " *pl = &left, *pr = &right;"@,
            indent(1) + "*pl = seed + "@ + lit_text(ty, 1int) + ";"@,
            indent(1) + "*pr = seed + "@ + lit_text(ty, 2int) + ";"@,
            indent(1) + ty.c_text() + " total = *pl + *pr;"@,
            Seq::<char>::empty(),
        ],
        ReferencePair::DistinctIndices => seq![
            input_read(ty, "seed"@),
            Seq::<char>::empty(),
            indent(1) + ty.c_text() + " buffer[4] = { 0 };"@,
            indent(1) + "buffer[0] = seed + "@ + lit_text(ty, 1int) + ";"@,
            indent(1) + "buffer[3] = seed + "@ + lit_text(ty, 2int) + ";"@,
            indent(1) + ty.c_text() + " total = buffer[0] + buffer[3];"@,
            Seq::<char>::empty(),
        ],
        ReferencePair::Restrict => seq![
            input_read(ty, "seed"@),
            Seq::<char>::empty(),
            indent(1) + ty.c_text() + " left = seed, right = seed;"@,
            indent(1) + ty.c_text() + " total = combine(&left, &right);"@,
            Seq::<char>::empty(),
        ],
        ReferencePair::MayAlias => seq![
            input_read(ty, "seed"@),
            Seq::<char>::empty(),
            indent(1) + ty.c_text() + " shared = seed;"@,
            indent(1) + ty.c_text() + " *pl = &shared, *pr = &shared;"@,
            indent(1) + "*pl = seed + "@ + lit_text(ty, 1int) + ";"@,
            indent(1) + "*pr = seed + "@ + lit_text(ty, 2int) + ";"@,
            indent(1) + ty.c_text() + " total = *pl + *pr;"@,
            Seq::<char>::empty(),
        ],
    }
}

/// The headers.
pub open spec fn pair_includes(ty: Ty, shape: ReferencePair) -> Seq<Seq<char>> {
    match shape {
        ReferencePair::DistinctLocals => Seq::empty(),
        ReferencePair::DistinctIndices => Seq::empty(),
        ReferencePair::Restrict => Seq::empty(),
        ReferencePair::MayAlias => Seq::empty(),
    }
}

/// What the program prints.
pub open spec fn pair_expected(ty: Ty, shape: ReferencePair) -> Seq<int> {
    match shape {
        ReferencePair::DistinctLocals => Seq::empty(),
        ReferencePair::DistinctIndices => Seq::empty(),
        ReferencePair::Restrict => Seq::empty(),
        ReferencePair::MayAlias => Seq::empty(),
    }
}

/// Writes some of the shapes.
#[verifier::rlimit(100)]
fn pair_write_0(program: &mut Program, ty: Ty, shape: ReferencePair)
    requires
        old(program).top_lines() == Seq::<Seq<char>>::empty(),
        old(program).body_lines() == Seq::<Seq<char>>::empty(),
        old(program).expected_values() == Seq::<int>::empty(),
        old(program).include_lines() == Seq::<Seq<char>>::empty(),
        !old(program).sinks(),
        shape == ReferencePair::DistinctLocals || shape == ReferencePair::DistinctIndices,
    ensures
        final(program).top_lines() == pair_top(ty, shape),
        final(program).body_lines() == pair_body(ty, shape),
        final(program).expected_values() == pair_expected(ty, shape),
        final(program).include_lines() == pair_includes(ty, shape),
        !final(program).sinks(),
        final(program).purpose_text() == old(program).purpose_text(),
{
    let c = ty.c_name();
    match shape {
        ReferencePair::DistinctLocals => {
            program.input(ty, "seed", 5);
            program.blank();
            let mut text1 = String::from_str(c);
            text1.append(" left = seed;");
            program.line(text1.as_str());
            let mut text2 = String::from_str(c);
            text2.append(" right = seed;");
            program.line(text2.as_str());
            let mut text3 = String::from_str(c);
            text3.append(" *pl = &left, *pr = &right;");
            program.line(text3.as_str());
            let mut text4 = String::from_str("*pl = seed + ");
            let literal5 = lit(ty, 1);
            text4.append(literal5.as_str());
            text4.append(";");
            program.line(text4.as_str());
            let mut text6 = String::from_str("*pr = seed + ");
            let literal7 = lit(ty, 2);
            text6.append(literal7.as_str());
            text6.append(";");
            program.line(text6.as_str());
            let mut text8 = String::from_str(c);
            text8.append(" total = *pl + *pr;");
            program.line(text8.as_str());
            program.blank();
            assert(program.top_lines() =~~= pair_top(ty, shape));
            assert(program.body_lines() =~~= pair_body(ty, shape));
            assert(program.expected_values() =~= pair_expected(ty, shape));
            assert(program.include_lines() =~~= pair_includes(ty, shape));
        },
        ReferencePair::DistinctIndices => {
            program.input(ty, "seed", 5);
            program.blank();
            let mut text1 = String::from_str(c);
            text1.append(" buffer[4] = { 0 };");
            program.line(text1.as_str());
            let mut text2 = String::from_str("buffer[0] = seed + ");
            let literal3 = lit(ty, 1);
            text2.append(literal3.as_str());
            text2.append(";");
            program.line(text2.as_str());
            let mut text4 = String::from_str("buffer[3] = seed + ");
            let literal5 = lit(ty, 2);
            text4.append(literal5.as_str());
            text4.append(";");
            program.line(text4.as_str());
            let mut text6 = String::from_str(c);
            text6.append(" total = buffer[0] + buffer[3];");
            program.line(text6.as_str());
            program.blank();
            assert(program.top_lines() =~~= pair_top(ty, shape));
            assert(program.body_lines() =~~= pair_body(ty, shape));
            assert(program.expected_values() =~= pair_expected(ty, shape));
            assert(program.include_lines() =~~= pair_includes(ty, shape));
        },
        _ => {},
    }
}

/// Writes some of the shapes.
#[verifier::rlimit(100)]
fn pair_write_1(program: &mut Program, ty: Ty, shape: ReferencePair)
    requires
        old(program).top_lines() == Seq::<Seq<char>>::empty(),
        old(program).body_lines() == Seq::<Seq<char>>::empty(),
        old(program).expected_values() == Seq::<int>::empty(),
        old(program).include_lines() == Seq::<Seq<char>>::empty(),
        !old(program).sinks(),
        shape == ReferencePair::Restrict || shape == ReferencePair::MayAlias,
    ensures
        final(program).top_lines() == pair_top(ty, shape),
        final(program).body_lines() == pair_body(ty, shape),
        final(program).expected_values() == pair_expected(ty, shape),
        final(program).include_lines() == pair_includes(ty, shape),
        !final(program).sinks(),
        final(program).purpose_text() == old(program).purpose_text(),
{
    let c = ty.c_name();
    match shape {
        ReferencePair::Restrict => {
            program.input(ty, "seed", 5);
            program.blank();
            let mut text1 = String::from_str("static ");
            text1.append(c);
            text1.append(" combine(");
            text1.append(c);
            text1.append(" *restrict left, ");
            text1.append(c);
            text1.append(" *restrict right) {");
            program.top(text1.as_str());
            program.top("    *left += 1;");
            program.top("    *right += 2;");
            program.top("    return *left + *right;");
            program.top("}");
            let mut text2 = String::from_str(c);
            text2.append(" left = seed, right = seed;");
            program.line(text2.as_str());
            let mut text3 = String::from_str(c);
            text3.append(" total = combine(&left, &right);");
            program.line(text3.as_str());
            program.blank();
            assert(program.top_lines() =~~= pair_top(ty, shape));
            assert(program.body_lines() =~~= pair_body(ty, shape));
            assert(program.expected_values() =~= pair_expected(ty, shape));
            assert(program.include_lines() =~~= pair_includes(ty, shape));
        },
        ReferencePair::MayAlias => {
            program.input(ty, "seed", 5);
            program.blank();
            let mut text1 = String::from_str(c);
            text1.append(" shared = seed;");
            program.line(text1.as_str());
            let mut text2 = String::from_str(c);
            text2.append(" *pl = &shared, *pr = &shared;");
            program.line(text2.as_str());
            let mut text3 = String::from_str("*pl = seed + ");
            let literal4 = lit(ty, 1);
            text3.append(literal4.as_str());
            text3.append(";");
            program.line(text3.as_str());
            let mut text5 = String::from_str("*pr = seed + ");
            let literal6 = lit(ty, 2);
            text5.append(literal6.as_str());
            text5.append(";");
            program.line(text5.as_str());
            let mut text7 = String::from_str(c);
            text7.append(" total = *pl + *pr;");
            program.line(text7.as_str());
            program.blank();
            assert(program.top_lines() =~~= pair_top(ty, shape));
            assert(program.body_lines() =~~= pair_body(ty, shape));
            assert(program.expected_values() =~= pair_expected(ty, shape));
            assert(program.include_lines() =~~= pair_includes(ty, shape));
        },
        _ => {},
    }
}

/// Writes a shape.
fn pair_write(program: &mut Program, ty: Ty, shape: ReferencePair)
    requires
        old(program).top_lines() == Seq::<Seq<char>>::empty(),
        old(program).body_lines() == Seq::<Seq<char>>::empty(),
        old(program).expected_values() == Seq::<int>::empty(),
        old(program).include_lines() == Seq::<Seq<char>>::empty(),
        !old(program).sinks(),
    ensures
        final(program).top_lines() == pair_top(ty, shape),
        final(program).body_lines() == pair_body(ty, shape),
        final(program).expected_values() == pair_expected(ty, shape),
        final(program).include_lines() == pair_includes(ty, shape),
        !final(program).sinks(),
        final(program).purpose_text() == old(program).purpose_text(),
{
    match shape {
        ReferencePair::DistinctLocals | ReferencePair::DistinctIndices => {
            pair_write_0(program, ty, shape);
        },
        ReferencePair::Restrict | ReferencePair::MayAlias => {
            pair_write_1(program, ty, shape);
        },
    }
}

/// The two numbers a pair program adds: the second store twice when the references are one
/// object, the two stores otherwise.
pub open spec fn pair_sum(shape: ReferencePair) -> (i128, i128) {
    if shape == ReferencePair::MayAlias {
        (7, 7)
    } else {
        (6, 7)
    }
}

/// Whether a case is the pair program for its point, whole.
pub open spec fn is_pair_case(c: Case, ty: Ty, shape: ReferencePair) -> bool {
    &&& c.axes_text() == seq![("type"@, ty.name_text()), ("shape"@, shape.name_text())]
    &&& c.tags_text() == Seq::<Seq<char>>::empty()
    &&& c.program.purpose_text() == "two "@ + ty.c_text() + " references, "@ + shape.name_text()
    &&& c.program.include_lines() == pair_includes(ty, shape)
    &&& c.program.top_lines() == pair_top(ty, shape)
    &&& c.program.body_lines() == pair_body(ty, shape).push(print_line(1, ty.promotion(), "total"@))
    &&& c.program.expected_values() == seq![c_value(Op::Add, ty, pair_sum(shape).0, pair_sum(shape).1)->0]
    &&& !c.program.sinks()
}

/// The pair program for one point.
fn pair_case(ty: Ty, shape: ReferencePair) -> (r: Case)
    requires
        wide_types().contains(ty),
    ensures
        is_pair_case(r, ty, shape),
{
    let mut purpose = String::new();
    purpose.append("two ");
    purpose.append(ty.c_name());
    purpose.append(" references, ");
    purpose.append(shape.name());
    assert(purpose@ =~= "two "@ + ty.c_text() + " references, "@ + shape.name_text());
    let mut program = Program::new(purpose.as_str());
    pair_write(&mut program, ty, shape);
    let (x, y): (i128, i128) = if shape == ReferencePair::MayAlias {
        (7, 7)
    } else {
        (6, 7)
    };
    let added = eval(Op::Add, ty, x, y);
    assert(added is Some);
    let value = added.unwrap();
    program.check(ty.promoted(), "total", value);
    let axes = vec![axis("type", ty.name()), axis("shape", shape.name())];
    let r = Case { axes, tags: tags_for(false), program };
    assert(r.axes_text() =~= seq![("type"@, ty.name_text()), ("shape"@, shape.name_text())]);
    assert(r.tags_text() =~= Seq::<Seq<char>>::empty());
    assert(r.program.expected_values() =~= seq![c_value(Op::Add, ty, pair_sum(shape).0, pair_sum(shape).1)->0]);
    r
}

/// Two references that may or may not name one object, on every type at the width of a register.
///
/// Distinct locals, distinct indices and `restrict` pointers are independent; the control has
/// both pointers name one object, so the second store wins and a compiler that decided the two
/// were independent prints the other number.
pub fn alias_analysis() -> (r: Vec<Case>)
    ensures
        r@.len() == 16,
        forall|k: int| 0 <= k < 16 ==> is_pair_case(#[trigger] r@[k], wide_types()[k / 4], reference_pairs_list()[k % 4]),
{
    let types = wide();
    let shape_all = reference_pairs_array();
    let mut out: Vec<Case> = Vec::new();
    let mut k: usize = 0;
    while k < 16
        invariant
            k <= 16,
            types@ == wide_types(),
            shape_all@ == reference_pairs_list(),
            out@.len() == k,
            forall|i: int| 0 <= i < k ==> is_pair_case(#[trigger] out@[i], wide_types()[i / 4], reference_pairs_list()[i % 4]),
        decreases 16 - k,
    {
        out.push(pair_case(types[k / 4], shape_all[k % 4]));
        k += 1;
    }
    out
}

/// The layer of the aliasing answer a pair of references is decided by.
#[derive(Clone, Copy, Debug, PartialEq, Eq, Structural)]
pub enum AliasLayer {
    DistinctTypes,
    CharPointer,
    UnionPun,
    ComputedSameIndex,
    EscapedLocal,
}

impl AliasLayer {
    /// The axis value.
    pub open spec fn name_text(self) -> Seq<char> {
        match self {
            AliasLayer::DistinctTypes => "distinct-types"@,
            AliasLayer::CharPointer => "char-pointer"@,
            AliasLayer::UnionPun => "union-pun"@,
            AliasLayer::ComputedSameIndex => "computed-same-index"@,
            AliasLayer::EscapedLocal => "escaped-local"@,
        }
    }

    /// The axis value.
    pub fn name(self) -> (r: &'static str)
        ensures
            r@ == self.name_text(),
    {
        match self {
            AliasLayer::DistinctTypes => "distinct-types",
            AliasLayer::CharPointer => "char-pointer",
            AliasLayer::UnionPun => "union-pun",
            AliasLayer::ComputedSameIndex => "computed-same-index",
            AliasLayer::EscapedLocal => "escaped-local",
        }
    }
}

/// The shapes in the order the facet walks them.
pub open spec fn alias_layers_list_list() -> Seq<AliasLayer> {
    seq![
        AliasLayer::DistinctTypes,
        AliasLayer::CharPointer,
        AliasLayer::UnionPun,
        AliasLayer::ComputedSameIndex,
        AliasLayer::EscapedLocal,
    ]
}

/// The shapes in the order the facet walks them.
fn alias_layers_list_array() -> (r: Vec<AliasLayer>)
    ensures
        r@ == alias_layers_list_list(),
{
    let r = vec![
        AliasLayer::DistinctTypes,
        AliasLayer::CharPointer,
        AliasLayer::UnionPun,
        AliasLayer::ComputedSameIndex,
        AliasLayer::EscapedLocal,
    ];
    assert(r@ =~= alias_layers_list_list());
    r
}

/// The lines before `main`.
pub open spec fn layer_top(ty: Ty, shape: AliasLayer) -> Seq<Seq<char>> {
    match shape {
        AliasLayer::DistinctTypes => seq![
            input_global(ty, "seed"@, 5int),
            input_global(Ty::I32, "index"@, 1int),
        ],
        AliasLayer::CharPointer => seq![
            input_global(ty, "seed"@, 5int),
            input_global(Ty::I32, "index"@, 1int),
        ],
        AliasLayer::UnionPun => seq![
            input_global(ty, "seed"@, 5int),
            input_global(Ty::I32, "index"@, 1int),
            "union both { "@ + ty.c_text() + " whole; unsigned char parts["@ + decimal((ty.width() / 8) as int) + "]; };"@,
        ],
        AliasLayer::ComputedSameIndex => seq![
            input_global(ty, "seed"@, 5int),
            input_global(Ty::I32, "index"@, 1int),
        ],
        AliasLayer::EscapedLocal => seq![
            input_global(ty, "seed"@, 5int),
            input_global(Ty::I32, "index"@, 1int),
            "static "@ + ty.c_text() + " *kept;"@,
            "static void keep("@ + ty.c_text() + " *of) {"@,
            "    kept = of;"@,
            "}"@,
            "static void overwrite(void) {"@,
            "    *kept = *kept + 2;"@,
            "}"@,
        ],
    }
}

/// The statements of `main`.
pub open spec fn layer_body(ty: Ty, shape: AliasLayer) -> Seq<Seq<char>> {
    match shape {
        AliasLayer::DistinctTypes => seq![
            input_read(ty, "seed"@),
            input_read(Ty::I32, "index"@),
            Seq::<char>::empty(),
            indent(1) + ty.c_text() + " left = seed;"@,
            indent(1) + "short right = 1;"@,
            indent(1) + ty.c_text() + " *pl = &left;"@,
            indent(1) + "short *pr = &right;"@,
            indent(1) + "*pl = seed + "@ + lit_text(ty, 1int) + ";"@,
            indent(1) + "*pr = 2;"@,
            indent(1) + ty.c_text() + " total = *pl + ("@ + ty.c_text() + ")*pr;"@,
            Seq::<char>::empty(),
        ],
        AliasLayer::CharPointer => seq![
            input_read(ty, "seed"@),
            input_read(Ty::I32, "index"@),
            Seq::<char>::empty(),
            indent(1) + ty.c_text() + " object = seed;"@,
            indent(1) + ty.c_text() + " *at = &object;"@,
            indent(1) + "unsigned char *bytes = (unsigned char *)&object;"@,
            indent(1) + "*at = seed + "@ + lit_text(ty, 1int) + ";"@,
            indent(1) + "for (int i = 0; i < "@ + decimal((ty.width() / 8) as int) + "; i++) {"@,
            indent(2) + "bytes[i] = 0;"@,
            indent(1) + "}"@,
            indent(1) + ty.c_text() + " total = *at + "@ + lit_text(ty, 7int) + ";"@,
            Seq::<char>::empty(),
        ],
        AliasLayer::UnionPun => seq![
            input_read(ty, "seed"@),
            input_read(Ty::I32, "index"@),
            Seq::<char>::empty(),
            indent(1) + "union both holder;"@,
            indent(1) + "holder.whole = seed + "@ + lit_text(ty, 1int) + ";"@,
            indent(1) + "for (int i = 0; i < "@ + decimal((ty.width() / 8) as int) + "; i++) {"@,
            indent(2) + "holder.parts[i] = 0;"@,
            indent(1) + "}"@,
            indent(1) + ty.c_text() + " total = holder.whole + "@ + lit_text(ty, 7int) + ";"@,
            Seq::<char>::empty(),
        ],
        AliasLayer::ComputedSameIndex => seq![
            input_read(ty, "seed"@),
            input_read(Ty::I32, "index"@),
            Seq::<char>::empty(),
            indent(1) + ty.c_text() + " buffer[4] = { 0 };"@,
            indent(1) + "int here = index;"@,
            indent(1) + "int there = index * 3 - 2;"@,
            indent(1) + "buffer[here] = seed + "@ + lit_text(ty, 1int) + ";"@,
            indent(1) + "buffer[there] = seed + "@ + lit_text(ty, 2int) + ";"@,
            indent(1) + ty.c_text() + " total = buffer[here] + buffer[there];"@,
            Seq::<char>::empty(),
        ],
        AliasLayer::EscapedLocal => seq![
            input_read(ty, "seed"@),
            input_read(Ty::I32, "index"@),
            Seq::<char>::empty(),
            indent(1) + ty.c_text() + " local = seed;"@,
            indent(1) + "keep(&local);"@,
            indent(1) + "local = seed + "@ + lit_text(ty, 1int) + ";"@,
            indent(1) + "overwrite();"@,
            indent(1) + ty.c_text() + " total = local;"@,
            Seq::<char>::empty(),
        ],
    }
}

/// The headers.
pub open spec fn layer_includes(ty: Ty, shape: AliasLayer) -> Seq<Seq<char>> {
    match shape {
        AliasLayer::DistinctTypes => Seq::empty(),
        AliasLayer::CharPointer => Seq::empty(),
        AliasLayer::UnionPun => Seq::empty(),
        AliasLayer::ComputedSameIndex => Seq::empty(),
        AliasLayer::EscapedLocal => Seq::empty(),
    }
}

/// What the program prints.
pub open spec fn layer_expected(ty: Ty, shape: AliasLayer) -> Seq<int> {
    match shape {
        AliasLayer::DistinctTypes => Seq::empty(),
        AliasLayer::CharPointer => Seq::empty(),
        AliasLayer::UnionPun => Seq::empty(),
        AliasLayer::ComputedSameIndex => Seq::empty(),
        AliasLayer::EscapedLocal => Seq::empty(),
    }
}

/// Writes some of the shapes.
#[verifier::rlimit(100)]
fn layer_write_0(program: &mut Program, ty: Ty, shape: AliasLayer)
    requires
        old(program).top_lines() == Seq::<Seq<char>>::empty(),
        old(program).body_lines() == Seq::<Seq<char>>::empty(),
        old(program).expected_values() == Seq::<int>::empty(),
        old(program).include_lines() == Seq::<Seq<char>>::empty(),
        !old(program).sinks(),
        shape == AliasLayer::DistinctTypes || shape == AliasLayer::CharPointer,
    ensures
        final(program).top_lines() == layer_top(ty, shape),
        final(program).body_lines() == layer_body(ty, shape),
        final(program).expected_values() == layer_expected(ty, shape),
        final(program).include_lines() == layer_includes(ty, shape),
        !final(program).sinks(),
        final(program).purpose_text() == old(program).purpose_text(),
{
    let c = ty.c_name();
    match shape {
        AliasLayer::DistinctTypes => {
            program.input(ty, "seed", 5);
            program.input(Ty::I32, "index", 1);
            program.blank();
            let mut text1 = String::from_str(c);
            text1.append(" left = seed;");
            program.line(text1.as_str());
            program.line("short right = 1;");
            let mut text2 = String::from_str(c);
            text2.append(" *pl = &left;");
            program.line(text2.as_str());
            program.line("short *pr = &right;");
            let mut text3 = String::from_str("*pl = seed + ");
            let literal4 = lit(ty, 1);
            text3.append(literal4.as_str());
            text3.append(";");
            program.line(text3.as_str());
            program.line("*pr = 2;");
            let mut text5 = String::from_str(c);
            text5.append(" total = *pl + (");
            text5.append(c);
            text5.append(")*pr;");
            program.line(text5.as_str());
            program.blank();
            assert(program.top_lines() =~~= layer_top(ty, shape));
            assert(program.body_lines() =~~= layer_body(ty, shape));
            assert(program.expected_values() =~= layer_expected(ty, shape));
            assert(program.include_lines() =~~= layer_includes(ty, shape));
        },
        AliasLayer::CharPointer => {
            program.input(ty, "seed", 5);
            program.input(Ty::I32, "index", 1);
            program.blank();
            let mut text1 = String::from_str(c);
            text1.append(" object = seed;");
            program.line(text1.as_str());
            let mut text2 = String::from_str(c);
            text2.append(" *at = &object;");
            program.line(text2.as_str());
            program.line("unsigned char *bytes = (unsigned char *)&object;");
            let mut text3 = String::from_str("*at = seed + ");
            let literal4 = lit(ty, 1);
            text3.append(literal4.as_str());
            text3.append(";");
            program.line(text3.as_str());
            let mut text5 = String::from_str("for (int i = 0; i < ");
            push_decimal(&mut text5, (ty.bits() / 8) as i128);
            text5.append("; i++) {");
            program.line(text5.as_str());
            program.line_at(1, "bytes[i] = 0;");
            program.line("}");
            let mut text6 = String::from_str(c);
            text6.append(" total = *at + ");
            let literal7 = lit(ty, 7);
            text6.append(literal7.as_str());
            text6.append(";");
            program.line(text6.as_str());
            program.blank();
            assert(program.top_lines() =~~= layer_top(ty, shape));
            assert(program.body_lines() =~~= layer_body(ty, shape));
            assert(program.expected_values() =~= layer_expected(ty, shape));
            assert(program.include_lines() =~~= layer_includes(ty, shape));
        },
        _ => {},
    }
}

/// Writes some of the shapes.
#[verifier::rlimit(100)]
fn layer_write_1(program: &mut Program, ty: Ty, shape: AliasLayer)
    requires
        old(program).top_lines() == Seq::<Seq<char>>::empty(),
        old(program).body_lines() == Seq::<Seq<char>>::empty(),
        old(program).expected_values() == Seq::<int>::empty(),
        old(program).include_lines() == Seq::<Seq<char>>::empty(),
        !old(program).sinks(),
        shape == AliasLayer::UnionPun || shape == AliasLayer::ComputedSameIndex,
    ensures
        final(program).top_lines() == layer_top(ty, shape),
        final(program).body_lines() == layer_body(ty, shape),
        final(program).expected_values() == layer_expected(ty, shape),
        final(program).include_lines() == layer_includes(ty, shape),
        !final(program).sinks(),
        final(program).purpose_text() == old(program).purpose_text(),
{
    let c = ty.c_name();
    match shape {
        AliasLayer::UnionPun => {
            program.input(ty, "seed", 5);
            program.input(Ty::I32, "index", 1);
            program.blank();
            let mut text1 = String::from_str("union both { ");
            text1.append(c);
            text1.append(" whole; unsigned char parts[");
            push_decimal(&mut text1, (ty.bits() / 8) as i128);
            text1.append("]; };");
            program.top(text1.as_str());
            program.line("union both holder;");
            let mut text2 = String::from_str("holder.whole = seed + ");
            let literal3 = lit(ty, 1);
            text2.append(literal3.as_str());
            text2.append(";");
            program.line(text2.as_str());
            let mut text4 = String::from_str("for (int i = 0; i < ");
            push_decimal(&mut text4, (ty.bits() / 8) as i128);
            text4.append("; i++) {");
            program.line(text4.as_str());
            program.line_at(1, "holder.parts[i] = 0;");
            program.line("}");
            let mut text5 = String::from_str(c);
            text5.append(" total = holder.whole + ");
            let literal6 = lit(ty, 7);
            text5.append(literal6.as_str());
            text5.append(";");
            program.line(text5.as_str());
            program.blank();
            assert(program.top_lines() =~~= layer_top(ty, shape));
            assert(program.body_lines() =~~= layer_body(ty, shape));
            assert(program.expected_values() =~= layer_expected(ty, shape));
            assert(program.include_lines() =~~= layer_includes(ty, shape));
        },
        AliasLayer::ComputedSameIndex => {
            program.input(ty, "seed", 5);
            program.input(Ty::I32, "index", 1);
            program.blank();
            let mut text1 = String::from_str(c);
            text1.append(" buffer[4] = { 0 };");
            program.line(text1.as_str());
            program.line("int here = index;");
            program.line("int there = index * 3 - 2;");
            let mut text2 = String::from_str("buffer[here] = seed + ");
            let literal3 = lit(ty, 1);
            text2.append(literal3.as_str());
            text2.append(";");
            program.line(text2.as_str());
            let mut text4 = String::from_str("buffer[there] = seed + ");
            let literal5 = lit(ty, 2);
            text4.append(literal5.as_str());
            text4.append(";");
            program.line(text4.as_str());
            let mut text6 = String::from_str(c);
            text6.append(" total = buffer[here] + buffer[there];");
            program.line(text6.as_str());
            program.blank();
            assert(program.top_lines() =~~= layer_top(ty, shape));
            assert(program.body_lines() =~~= layer_body(ty, shape));
            assert(program.expected_values() =~= layer_expected(ty, shape));
            assert(program.include_lines() =~~= layer_includes(ty, shape));
        },
        _ => {},
    }
}

/// Writes some of the shapes.
#[verifier::rlimit(100)]
fn layer_write_2(program: &mut Program, ty: Ty, shape: AliasLayer)
    requires
        old(program).top_lines() == Seq::<Seq<char>>::empty(),
        old(program).body_lines() == Seq::<Seq<char>>::empty(),
        old(program).expected_values() == Seq::<int>::empty(),
        old(program).include_lines() == Seq::<Seq<char>>::empty(),
        !old(program).sinks(),
        shape == AliasLayer::EscapedLocal,
    ensures
        final(program).top_lines() == layer_top(ty, shape),
        final(program).body_lines() == layer_body(ty, shape),
        final(program).expected_values() == layer_expected(ty, shape),
        final(program).include_lines() == layer_includes(ty, shape),
        !final(program).sinks(),
        final(program).purpose_text() == old(program).purpose_text(),
{
    let c = ty.c_name();
    match shape {
        AliasLayer::EscapedLocal => {
            program.input(ty, "seed", 5);
            program.input(Ty::I32, "index", 1);
            program.blank();
            let mut text1 = String::from_str("static ");
            text1.append(c);
            text1.append(" *kept;");
            program.top(text1.as_str());
            let mut text2 = String::from_str("static void keep(");
            text2.append(c);
            text2.append(" *of) {");
            program.top(text2.as_str());
            program.top("    kept = of;");
            program.top("}");
            program.top("static void overwrite(void) {");
            program.top("    *kept = *kept + 2;");
            program.top("}");
            let mut text3 = String::from_str(c);
            text3.append(" local = seed;");
            program.line(text3.as_str());
            program.line("keep(&local);");
            let mut text4 = String::from_str("local = seed + ");
            let literal5 = lit(ty, 1);
            text4.append(literal5.as_str());
            text4.append(";");
            program.line(text4.as_str());
            program.line("overwrite();");
            let mut text6 = String::from_str(c);
            text6.append(" total = local;");
            program.line(text6.as_str());
            program.blank();
            assert(program.top_lines() =~~= layer_top(ty, shape));
            assert(program.body_lines() =~~= layer_body(ty, shape));
            assert(program.expected_values() =~= layer_expected(ty, shape));
            assert(program.include_lines() =~~= layer_includes(ty, shape));
        },
        _ => {},
    }
}

/// Writes a shape.
fn layer_write(program: &mut Program, ty: Ty, shape: AliasLayer)
    requires
        old(program).top_lines() == Seq::<Seq<char>>::empty(),
        old(program).body_lines() == Seq::<Seq<char>>::empty(),
        old(program).expected_values() == Seq::<int>::empty(),
        old(program).include_lines() == Seq::<Seq<char>>::empty(),
        !old(program).sinks(),
    ensures
        final(program).top_lines() == layer_top(ty, shape),
        final(program).body_lines() == layer_body(ty, shape),
        final(program).expected_values() == layer_expected(ty, shape),
        final(program).include_lines() == layer_includes(ty, shape),
        !final(program).sinks(),
        final(program).purpose_text() == old(program).purpose_text(),
{
    match shape {
        AliasLayer::DistinctTypes | AliasLayer::CharPointer => {
            layer_write_0(program, ty, shape);
        },
        AliasLayer::UnionPun | AliasLayer::ComputedSameIndex => {
            layer_write_1(program, ty, shape);
        },
        AliasLayer::EscapedLocal => {
            layer_write_2(program, ty, shape);
        },
    }
}

/// What a layer program prints: seven where the bytes were zeroed under a whole value, the sum
/// C gives otherwise.
pub open spec fn layer_total(ty: Ty, shape: AliasLayer) -> int {
    match shape {
        AliasLayer::CharPointer | AliasLayer::UnionPun => 7,
        AliasLayer::ComputedSameIndex => c_value(Op::Add, ty, 7, 7)->0,
        _ => c_value(Op::Add, ty, 6, 2)->0,
    }
}

/// Whether a case is the layer program for its point, whole.
pub open spec fn is_layer_case(c: Case, ty: Ty, shape: AliasLayer) -> bool {
    &&& c.axes_text() == seq![("type"@, ty.name_text()), ("shape"@, shape.name_text())]
    &&& c.tags_text() == Seq::<Seq<char>>::empty()
    &&& c.program.purpose_text() == shape.name_text() + " references to "@ + ty.c_text()
    &&& c.program.include_lines() == layer_includes(ty, shape)
    &&& c.program.top_lines() == layer_top(ty, shape)
    &&& c.program.body_lines() == layer_body(ty, shape).push(print_line(1, ty.promotion(), "total"@))
    &&& c.program.expected_values() == seq![layer_total(ty, shape)]
    &&& !c.program.sinks()
}

/// The layer program for one point.
fn layer_case(ty: Ty, shape: AliasLayer) -> (r: Case)
    requires
        wide_types().contains(ty),
    ensures
        is_layer_case(r, ty, shape),
{
    let mut purpose = String::new();
    purpose.append(shape.name());
    purpose.append(" references to ");
    purpose.append(ty.c_name());
    assert(purpose@ =~= shape.name_text() + " references to "@ + ty.c_text());
    let mut program = Program::new(purpose.as_str());
    layer_write(&mut program, ty, shape);
    let value: i128 = match shape {
        AliasLayer::CharPointer | AliasLayer::UnionPun => 7,
        AliasLayer::ComputedSameIndex => {
            let added = eval(Op::Add, ty, 7, 7);
            assert(added is Some);
            added.unwrap()
        },
        _ => {
            let added = eval(Op::Add, ty, 6, 2);
            assert(added is Some);
            added.unwrap()
        },
    };
    program.check(ty.promoted(), "total", value);
    let axes = vec![axis("type", ty.name()), axis("shape", shape.name())];
    let r = Case { axes, tags: tags_for(false), program };
    assert(r.axes_text() =~= seq![("type"@, ty.name_text()), ("shape"@, shape.name_text())]);
    assert(r.tags_text() =~= Seq::<Seq<char>>::empty());
    assert(r.program.expected_values() =~= seq![layer_total(ty, shape)]);
    r
}

/// The layers an aliasing answer may come from, one program each, on every type at the width of
/// a register.
///
/// The type rules and `restrict` are promises the language makes; a `char` pointer touching
/// anything and an escaped local no longer being private are promises the compiler makes back;
/// and two computed indices that are equal are the control. A wrong layer is a wrong number.
pub fn alias_layers() -> (r: Vec<Case>)
    ensures
        r@.len() == 20,
        forall|k: int| 0 <= k < 20 ==> is_layer_case(#[trigger] r@[k], wide_types()[k / 5], alias_layers_list_list()[k % 5]),
{
    let types = wide();
    let shape_all = alias_layers_list_array();
    let mut out: Vec<Case> = Vec::new();
    let mut k: usize = 0;
    while k < 20
        invariant
            k <= 20,
            types@ == wide_types(),
            shape_all@ == alias_layers_list_list(),
            out@.len() == k,
            forall|i: int| 0 <= i < k ==> is_layer_case(#[trigger] out@[i], wide_types()[i / 5], alias_layers_list_list()[i % 5]),
        decreases 20 - k,
    {
        out.push(layer_case(types[k / 5], shape_all[k % 5]));
        k += 1;
    }
    out
}

/// An aggregate or address taken local that never escapes.
#[derive(Clone, Copy, Debug, PartialEq, Eq, Structural)]
pub enum Aggregate {
    Struct,
    NestedStruct,
    ArrayConstantIndex,
    AddressTaken,
    Union,
}

impl Aggregate {
    /// The axis value.
    pub open spec fn name_text(self) -> Seq<char> {
        match self {
            Aggregate::Struct => "struct"@,
            Aggregate::NestedStruct => "nested-struct"@,
            Aggregate::ArrayConstantIndex => "array-constant-index"@,
            Aggregate::AddressTaken => "address-taken"@,
            Aggregate::Union => "union"@,
        }
    }

    /// The axis value.
    pub fn name(self) -> (r: &'static str)
        ensures
            r@ == self.name_text(),
    {
        match self {
            Aggregate::Struct => "struct",
            Aggregate::NestedStruct => "nested-struct",
            Aggregate::ArrayConstantIndex => "array-constant-index",
            Aggregate::AddressTaken => "address-taken",
            Aggregate::Union => "union",
        }
    }
}

/// The shapes in the order the facet walks them.
pub open spec fn aggregates_list() -> Seq<Aggregate> {
    seq![
        Aggregate::Struct,
        Aggregate::NestedStruct,
        Aggregate::ArrayConstantIndex,
        Aggregate::AddressTaken,
        Aggregate::Union,
    ]
}

/// The shapes in the order the facet walks them.
fn aggregates_array() -> (r: Vec<Aggregate>)
    ensures
        r@ == aggregates_list(),
{
    let r = vec![
        Aggregate::Struct,
        Aggregate::NestedStruct,
        Aggregate::ArrayConstantIndex,
        Aggregate::AddressTaken,
        Aggregate::Union,
    ];
    assert(r@ =~= aggregates_list());
    r
}

/// The lines before `main`.
pub open spec fn split_top(ty: Ty, shape: Aggregate) -> Seq<Seq<char>> {
    match shape {
        Aggregate::Struct => seq![
            input_global(ty, "seed"@, 8int),
            "struct pair { "@ + ty.c_text() + " first; "@ + ty.c_text() + " second; };"@,
        ],
        Aggregate::NestedStruct => seq![
            input_global(ty, "seed"@, 8int),
            "struct inner { "@ + ty.c_text() + " value; };"@,
            "struct outer { struct inner one; struct inner two; };"@,
        ],
        Aggregate::ArrayConstantIndex => seq![
            input_global(ty, "seed"@, 8int),
        ],
        Aggregate::AddressTaken => seq![
            input_global(ty, "seed"@, 8int),
        ],
        Aggregate::Union => seq![
            input_global(ty, "seed"@, 8int),
            "union holder { "@ + ty.c_text() + " value; "@ + ty.c_text() + " again; };"@,
        ],
    }
}

/// The statements of `main`.
pub open spec fn split_body(ty: Ty, shape: Aggregate) -> Seq<Seq<char>> {
    match shape {
        Aggregate::Struct => seq![
            input_read(ty, "seed"@),
            Seq::<char>::empty(),
            indent(1) + "struct pair p;"@,
            indent(1) + "p.first = seed;"@,
            indent(1) + "p.second = seed + "@ + lit_text(ty, 1int) + ";"@,
            indent(1) + ty.c_text() + " total = p.first + p.second;"@,
            Seq::<char>::empty(),
        ],
        Aggregate::NestedStruct => seq![
            input_read(ty, "seed"@),
            Seq::<char>::empty(),
            indent(1) + "struct outer o;"@,
            indent(1) + "o.one.value = seed;"@,
            indent(1) + "o.two.value = seed + "@ + lit_text(ty, 1int) + ";"@,
            indent(1) + ty.c_text() + " total = o.one.value + o.two.value;"@,
            Seq::<char>::empty(),
        ],
        Aggregate::ArrayConstantIndex => seq![
            input_read(ty, "seed"@),
            Seq::<char>::empty(),
            indent(1) + ty.c_text() + " slots[8];"@,
            indent(1) + "slots[2] = seed;"@,
            indent(1) + "slots[5] = seed + "@ + lit_text(ty, 1int) + ";"@,
            indent(1) + ty.c_text() + " total = slots[2] + slots[5];"@,
            Seq::<char>::empty(),
        ],
        Aggregate::AddressTaken => seq![
            input_read(ty, "seed"@),
            Seq::<char>::empty(),
            indent(1) + ty.c_text() + " one = seed;"@,
            indent(1) + ty.c_text() + " two = seed + "@ + lit_text(ty, 1int) + ";"@,
            indent(1) + ty.c_text() + " *at = &one;"@,
            indent(1) + "*at = one;"@,
            indent(1) + ty.c_text() + " total = *at + two;"@,
            Seq::<char>::empty(),
        ],
        Aggregate::Union => seq![
            input_read(ty, "seed"@),
            Seq::<char>::empty(),
            indent(1) + "union holder u;"@,
            indent(1) + "u.value = seed;"@,
            indent(1) + ty.c_text() + " total = u.again + seed + "@ + lit_text(ty, 1int) + ";"@,
            Seq::<char>::empty(),
        ],
    }
}

/// The headers.
pub open spec fn split_includes(ty: Ty, shape: Aggregate) -> Seq<Seq<char>> {
    match shape {
        Aggregate::Struct => Seq::empty(),
        Aggregate::NestedStruct => Seq::empty(),
        Aggregate::ArrayConstantIndex => Seq::empty(),
        Aggregate::AddressTaken => Seq::empty(),
        Aggregate::Union => Seq::empty(),
    }
}

/// What the program prints.
pub open spec fn split_expected(ty: Ty, shape: Aggregate) -> Seq<int> {
    match shape {
        Aggregate::Struct => Seq::empty(),
        Aggregate::NestedStruct => Seq::empty(),
        Aggregate::ArrayConstantIndex => Seq::empty(),
        Aggregate::AddressTaken => Seq::empty(),
        Aggregate::Union => Seq::empty(),
    }
}

/// Writes some of the shapes.
#[verifier::rlimit(100)]
fn split_write_0(program: &mut Program, ty: Ty, shape: Aggregate)
    requires
        old(program).top_lines() == Seq::<Seq<char>>::empty(),
        old(program).body_lines() == Seq::<Seq<char>>::empty(),
        old(program).expected_values() == Seq::<int>::empty(),
        old(program).include_lines() == Seq::<Seq<char>>::empty(),
        !old(program).sinks(),
        shape == Aggregate::Struct || shape == Aggregate::NestedStruct || shape == Aggregate::ArrayConstantIndex,
    ensures
        final(program).top_lines() == split_top(ty, shape),
        final(program).body_lines() == split_body(ty, shape),
        final(program).expected_values() == split_expected(ty, shape),
        final(program).include_lines() == split_includes(ty, shape),
        !final(program).sinks(),
        final(program).purpose_text() == old(program).purpose_text(),
{
    let c = ty.c_name();
    match shape {
        Aggregate::Struct => {
            program.input(ty, "seed", 8);
            program.blank();
            let mut text1 = String::from_str("struct pair { ");
            text1.append(c);
            text1.append(" first; ");
            text1.append(c);
            text1.append(" second; };");
            program.top(text1.as_str());
            program.line("struct pair p;");
            program.line("p.first = seed;");
            let mut text2 = String::from_str("p.second = seed + ");
            let literal3 = lit(ty, 1);
            text2.append(literal3.as_str());
            text2.append(";");
            program.line(text2.as_str());
            let mut text4 = String::from_str(c);
            text4.append(" total = p.first + p.second;");
            program.line(text4.as_str());
            program.blank();
            assert(program.top_lines() =~~= split_top(ty, shape));
            assert(program.body_lines() =~~= split_body(ty, shape));
            assert(program.expected_values() =~= split_expected(ty, shape));
            assert(program.include_lines() =~~= split_includes(ty, shape));
        },
        Aggregate::NestedStruct => {
            program.input(ty, "seed", 8);
            program.blank();
            let mut text1 = String::from_str("struct inner { ");
            text1.append(c);
            text1.append(" value; };");
            program.top(text1.as_str());
            program.top("struct outer { struct inner one; struct inner two; };");
            program.line("struct outer o;");
            program.line("o.one.value = seed;");
            let mut text2 = String::from_str("o.two.value = seed + ");
            let literal3 = lit(ty, 1);
            text2.append(literal3.as_str());
            text2.append(";");
            program.line(text2.as_str());
            let mut text4 = String::from_str(c);
            text4.append(" total = o.one.value + o.two.value;");
            program.line(text4.as_str());
            program.blank();
            assert(program.top_lines() =~~= split_top(ty, shape));
            assert(program.body_lines() =~~= split_body(ty, shape));
            assert(program.expected_values() =~= split_expected(ty, shape));
            assert(program.include_lines() =~~= split_includes(ty, shape));
        },
        Aggregate::ArrayConstantIndex => {
            program.input(ty, "seed", 8);
            program.blank();
            let mut text1 = String::from_str(c);
            text1.append(" slots[8];");
            program.line(text1.as_str());
            program.line("slots[2] = seed;");
            let mut text2 = String::from_str("slots[5] = seed + ");
            let literal3 = lit(ty, 1);
            text2.append(literal3.as_str());
            text2.append(";");
            program.line(text2.as_str());
            let mut text4 = String::from_str(c);
            text4.append(" total = slots[2] + slots[5];");
            program.line(text4.as_str());
            program.blank();
            assert(program.top_lines() =~~= split_top(ty, shape));
            assert(program.body_lines() =~~= split_body(ty, shape));
            assert(program.expected_values() =~= split_expected(ty, shape));
            assert(program.include_lines() =~~= split_includes(ty, shape));
        },
        _ => {},
    }
}

/// Writes some of the shapes.
#[verifier::rlimit(100)]
fn split_write_1(program: &mut Program, ty: Ty, shape: Aggregate)
    requires
        old(program).top_lines() == Seq::<Seq<char>>::empty(),
        old(program).body_lines() == Seq::<Seq<char>>::empty(),
        old(program).expected_values() == Seq::<int>::empty(),
        old(program).include_lines() == Seq::<Seq<char>>::empty(),
        !old(program).sinks(),
        shape == Aggregate::AddressTaken || shape == Aggregate::Union,
    ensures
        final(program).top_lines() == split_top(ty, shape),
        final(program).body_lines() == split_body(ty, shape),
        final(program).expected_values() == split_expected(ty, shape),
        final(program).include_lines() == split_includes(ty, shape),
        !final(program).sinks(),
        final(program).purpose_text() == old(program).purpose_text(),
{
    let c = ty.c_name();
    match shape {
        Aggregate::AddressTaken => {
            program.input(ty, "seed", 8);
            program.blank();
            let mut text1 = String::from_str(c);
            text1.append(" one = seed;");
            program.line(text1.as_str());
            let mut text2 = String::from_str(c);
            text2.append(" two = seed + ");
            let literal3 = lit(ty, 1);
            text2.append(literal3.as_str());
            text2.append(";");
            program.line(text2.as_str());
            let mut text4 = String::from_str(c);
            text4.append(" *at = &one;");
            program.line(text4.as_str());
            program.line("*at = one;");
            let mut text5 = String::from_str(c);
            text5.append(" total = *at + two;");
            program.line(text5.as_str());
            program.blank();
            assert(program.top_lines() =~~= split_top(ty, shape));
            assert(program.body_lines() =~~= split_body(ty, shape));
            assert(program.expected_values() =~= split_expected(ty, shape));
            assert(program.include_lines() =~~= split_includes(ty, shape));
        },
        Aggregate::Union => {
            program.input(ty, "seed", 8);
            program.blank();
            let mut text1 = String::from_str("union holder { ");
            text1.append(c);
            text1.append(" value; ");
            text1.append(c);
            text1.append(" again; };");
            program.top(text1.as_str());
            program.line("union holder u;");
            program.line("u.value = seed;");
            let mut text2 = String::from_str(c);
            text2.append(" total = u.again + seed + ");
            let literal3 = lit(ty, 1);
            text2.append(literal3.as_str());
            text2.append(";");
            program.line(text2.as_str());
            program.blank();
            assert(program.top_lines() =~~= split_top(ty, shape));
            assert(program.body_lines() =~~= split_body(ty, shape));
            assert(program.expected_values() =~= split_expected(ty, shape));
            assert(program.include_lines() =~~= split_includes(ty, shape));
        },
        _ => {},
    }
}

/// Writes a shape.
fn split_write(program: &mut Program, ty: Ty, shape: Aggregate)
    requires
        old(program).top_lines() == Seq::<Seq<char>>::empty(),
        old(program).body_lines() == Seq::<Seq<char>>::empty(),
        old(program).expected_values() == Seq::<int>::empty(),
        old(program).include_lines() == Seq::<Seq<char>>::empty(),
        !old(program).sinks(),
    ensures
        final(program).top_lines() == split_top(ty, shape),
        final(program).body_lines() == split_body(ty, shape),
        final(program).expected_values() == split_expected(ty, shape),
        final(program).include_lines() == split_includes(ty, shape),
        !final(program).sinks(),
        final(program).purpose_text() == old(program).purpose_text(),
{
    match shape {
        Aggregate::Struct | Aggregate::NestedStruct | Aggregate::ArrayConstantIndex => {
            split_write_0(program, ty, shape);
        },
        Aggregate::AddressTaken | Aggregate::Union => {
            split_write_1(program, ty, shape);
        },
    }
}

/// Whether a case is the split program for its point, whole.
pub open spec fn is_split_case(c: Case, ty: Ty, shape: Aggregate) -> bool {
    &&& c.axes_text() == seq![("type"@, ty.name_text()), ("shape"@, shape.name_text())]
    &&& c.tags_text() == Seq::<Seq<char>>::empty()
    &&& c.program.purpose_text() == "a non-escaping "@ + ty.c_text() + " aggregate, "@ + shape.name_text()
    &&& c.program.include_lines() == split_includes(ty, shape)
    &&& c.program.top_lines() == split_top(ty, shape)
    &&& c.program.body_lines() == split_body(ty, shape).push(print_line(1, ty.promotion(), "total"@))
    &&& c.program.expected_values() == seq![c_value(Op::Add, ty, 8, 9)->0]
    &&& !c.program.sinks()
}

/// The split program for one point.
fn split_case(ty: Ty, shape: Aggregate) -> (r: Case)
    requires
        wide_types().contains(ty),
    ensures
        is_split_case(r, ty, shape),
{
    let mut purpose = String::new();
    purpose.append("a non-escaping ");
    purpose.append(ty.c_name());
    purpose.append(" aggregate, ");
    purpose.append(shape.name());
    assert(purpose@ =~= "a non-escaping "@ + ty.c_text() + " aggregate, "@ + shape.name_text());
    let mut program = Program::new(purpose.as_str());
    split_write(&mut program, ty, shape);
    let added = eval(Op::Add, ty, 8, 9);
    assert(added is Some);
    let value = added.unwrap();
    program.check(ty.promoted(), "total", value);
    let axes = vec![axis("type", ty.name()), axis("shape", shape.name())];
    let r = Case { axes, tags: tags_for(false), program };
    assert(r.axes_text() =~= seq![("type"@, ty.name_text()), ("shape"@, shape.name_text())]);
    assert(r.tags_text() =~= Seq::<Seq<char>>::empty());
    assert(r.program.expected_values() =~= seq![c_value(Op::Add, ty, 8, 9)->0]);
    r
}

/// Aggregates and address taken locals that never escape, on every type at the width of a
/// register.
///
/// Each can be split into plain values because nothing outside the function sees the memory; the
/// answer, eight and nine, is what is checked, and the frame size says whether it happened.
pub fn scalar_replacement() -> (r: Vec<Case>)
    ensures
        r@.len() == 20,
        forall|k: int| 0 <= k < 20 ==> is_split_case(#[trigger] r@[k], wide_types()[k / 5], aggregates_list()[k % 5]),
{
    let types = wide();
    let shape_all = aggregates_array();
    let mut out: Vec<Case> = Vec::new();
    let mut k: usize = 0;
    while k < 20
        invariant
            k <= 20,
            types@ == wide_types(),
            shape_all@ == aggregates_list(),
            out@.len() == k,
            forall|i: int| 0 <= i < k ==> is_split_case(#[trigger] out@[i], wide_types()[i / 5], aggregates_list()[i % 5]),
        decreases 20 - k,
    {
        out.push(split_case(types[k / 5], shape_all[k % 5]));
        k += 1;
    }
    out
}

/// One of the stores a long walk has to pass: another slot, the value plus its position.
pub open spec fn chain_store(ty: Ty, at: int) -> Seq<char> {
    indent(1) + "slots["@ + decimal(at) + "] = value + "@ + lit_text(ty, at) + ";"@
}

/// Writes the thirty two stores to other slots a long walk has to pass.
fn write_chain_stores(program: &mut Program, ty: Ty)
    ensures
        final(program).body_lines() == old(program).body_lines() + Seq::new(
            32,
            |i: int| chain_store(ty, i + 1),
        ),
        final(program).top_lines() == old(program).top_lines(),
        final(program).expected_values() == old(program).expected_values(),
        final(program).include_lines() == old(program).include_lines(),
        final(program).sinks() == old(program).sinks(),
        final(program).purpose_text() == old(program).purpose_text(),
{
    let ghost before = program.body_lines();
    let mut at: i128 = 1;
    while at < 33
        invariant
            1 <= at <= 33,
            program.body_lines() == before + Seq::new((at - 1) as nat, |i: int| chain_store(ty, i + 1)),
            program.top_lines() == old(program).top_lines(),
            program.expected_values() == old(program).expected_values(),
            program.include_lines() == old(program).include_lines(),
            program.sinks() == old(program).sinks(),
            program.purpose_text() == old(program).purpose_text(),
        decreases 33 - at,
    {
        let mut text = String::from_str("slots[");
        push_decimal(&mut text, at);
        text.append("] = value + ");
        let literal = lit(ty, at);
        text.append(literal.as_str());
        text.append(";");
        program.line(text.as_str());
        assert(indent(1) + text@ =~= chain_store(ty, at as int));
        assert(before + Seq::new(at as nat, |i: int| chain_store(ty, i + 1)) =~= (before + Seq::new(
            (at - 1) as nat,
            |i: int| chain_store(ty, i + 1),
        )).push(indent(1) + text@));
        at += 1;
    }
}

/// The statements of a range program: the guards, and a halving only a signed type can ask
/// about.
pub open spec fn range_body(ty: Ty) -> Seq<Seq<char>> {
    if ty.is_signed() {
        seq![
            input_read(ty, "raw"@),
            Seq::<char>::empty(),
            indent(1) + ty.c_text() + " bounded = raw % "@ + lit_text(ty, 100int) + ";"@,
            indent(1) + ty.c_text() + " masked = raw & "@ + lit_text(ty, 63int) + ";"@,
            Seq::<char>::empty(),
            print_line(1, Ty::I32, "bounded < "@ + lit_text(ty, 100int)),
            print_line(1, Ty::I32, "masked < "@ + lit_text(ty, 64int)),
            print_line(1, Ty::I32, "masked >= "@ + lit_text(ty, 0int)),
            Seq::<char>::empty(),
            indent(1) + "int guarded;"@,
            indent(1) + "if (raw > "@ + lit_text(ty, 10int) + ") {"@,
            indent(2) + "guarded = raw > "@ + lit_text(ty, 5int) + ";"@,
            indent(1) + "} else {"@,
            indent(2) + "guarded = raw <= "@ + lit_text(ty, 10int) + ";"@,
            indent(1) + "}"@,
            print_line(1, Ty::I32, "guarded"@),
            indent(1) + "int halved;"@,
            indent(1) + "if (raw >= "@ + lit_text(ty, 0int) + ") {"@,
            indent(2) + "halved = (raw / "@ + lit_text(ty, 2int) + ") >= "@ + lit_text(ty, 0int) + ";"@,
            indent(1) + "} else {"@,
            indent(2) + "halved = (raw / "@ + lit_text(ty, 2int) + ") <= "@ + lit_text(ty, 0int) + ";"@,
            indent(1) + "}"@,
            print_line(1, Ty::I32, "halved"@),
        ]
    } else {
        seq![
            input_read(ty, "raw"@),
            Seq::<char>::empty(),
            indent(1) + ty.c_text() + " bounded = raw % "@ + lit_text(ty, 100int) + ";"@,
            indent(1) + ty.c_text() + " masked = raw & "@ + lit_text(ty, 63int) + ";"@,
            Seq::<char>::empty(),
            print_line(1, Ty::I32, "bounded < "@ + lit_text(ty, 100int)),
            print_line(1, Ty::I32, "masked < "@ + lit_text(ty, 64int)),
            print_line(1, Ty::I32, "masked >= "@ + lit_text(ty, 0int)),
            Seq::<char>::empty(),
            indent(1) + "int guarded;"@,
            indent(1) + "if (raw > "@ + lit_text(ty, 10int) + ") {"@,
            indent(2) + "guarded = raw > "@ + lit_text(ty, 5int) + ";"@,
            indent(1) + "} else {"@,
            indent(2) + "guarded = raw <= "@ + lit_text(ty, 10int) + ";"@,
            indent(1) + "}"@,
            print_line(1, Ty::I32, "guarded"@),
        ]
    }
}

/// What a range program prints: one for every question, four of them or five.
pub open spec fn range_expected(ty: Ty) -> Seq<int> {
    if ty.is_signed() {
        seq![
            1int,
            1int,
            1int,
            1int,
            1int,
        ]
    } else {
        seq![
            1int,
            1int,
            1int,
            1int,
        ]
    }
}

/// Whether a case is the range program for a type, whole.
pub open spec fn is_range_case(c: Case, ty: Ty) -> bool {
    &&& c.axes_text() == seq![("type"@, ty.name_text())]
    &&& c.tags_text() == Seq::<Seq<char>>::empty()
    &&& c.program.purpose_text() == "questions a guard on a "@ + ty.c_text() + " already answered"@
    &&& c.program.include_lines() == Seq::<Seq<char>>::empty()
    &&& c.program.top_lines() == seq![input_global(ty, "raw"@, 40)]
    &&& c.program.body_lines() == range_body(ty)
    &&& c.program.expected_values() == range_expected(ty)
    &&& !c.program.sinks()
}

/// Writes the range program for a signed type.
#[verifier::rlimit(100)]
fn range_write_signed(program: &mut Program, ty: Ty)
    requires
        ty.is_signed(),
        old(program).top_lines() == Seq::<Seq<char>>::empty(),
        old(program).body_lines() == Seq::<Seq<char>>::empty(),
        old(program).expected_values() == Seq::<int>::empty(),
        old(program).include_lines() == Seq::<Seq<char>>::empty(),
        !old(program).sinks(),
    ensures
        final(program).top_lines() == seq![input_global(ty, "raw"@, 40)],
        final(program).body_lines() == range_body(ty),
        final(program).expected_values() == range_expected(ty),
        final(program).include_lines() == Seq::<Seq<char>>::empty(),
        !final(program).sinks(),
        final(program).purpose_text() == old(program).purpose_text(),
{
    let c = ty.c_name();
    program.input(ty, "raw", 40);
    program.blank();
    let mut text1 = String::from_str(c);
    text1.append(" bounded = raw % ");
    let literal2 = lit(ty, 100);
    text1.append(literal2.as_str());
    text1.append(";");
    program.line(text1.as_str());
    let mut text3 = String::from_str(c);
    text3.append(" masked = raw & ");
    let literal4 = lit(ty, 63);
    text3.append(literal4.as_str());
    text3.append(";");
    program.line(text3.as_str());
    program.blank();
    let mut text5 = String::from_str("bounded < ");
    let literal6 = lit(ty, 100);
    text5.append(literal6.as_str());
    program.check(Ty::I32, text5.as_str(), 1);
    let mut text7 = String::from_str("masked < ");
    let literal8 = lit(ty, 64);
    text7.append(literal8.as_str());
    program.check(Ty::I32, text7.as_str(), 1);
    let mut text9 = String::from_str("masked >= ");
    let literal10 = lit(ty, 0);
    text9.append(literal10.as_str());
    program.check(Ty::I32, text9.as_str(), 1);
    program.blank();
    program.line("int guarded;");
    let mut text11 = String::from_str("if (raw > ");
    let literal12 = lit(ty, 10);
    text11.append(literal12.as_str());
    text11.append(") {");
    program.line(text11.as_str());
    let mut text13 = String::from_str("guarded = raw > ");
    let literal14 = lit(ty, 5);
    text13.append(literal14.as_str());
    text13.append(";");
    program.line_at(1, text13.as_str());
    program.line("} else {");
    let mut text15 = String::from_str("guarded = raw <= ");
    let literal16 = lit(ty, 10);
    text15.append(literal16.as_str());
    text15.append(";");
    program.line_at(1, text15.as_str());
    program.line("}");
    program.check(Ty::I32, "guarded", 1);
    program.line("int halved;");
    let mut text17 = String::from_str("if (raw >= ");
    let literal18 = lit(ty, 0);
    text17.append(literal18.as_str());
    text17.append(") {");
    program.line(text17.as_str());
    let mut text19 = String::from_str("halved = (raw / ");
    let literal20 = lit(ty, 2);
    text19.append(literal20.as_str());
    text19.append(") >= ");
    let literal21 = lit(ty, 0);
    text19.append(literal21.as_str());
    text19.append(";");
    program.line_at(1, text19.as_str());
    program.line("} else {");
    let mut text22 = String::from_str("halved = (raw / ");
    let literal23 = lit(ty, 2);
    text22.append(literal23.as_str());
    text22.append(") <= ");
    let literal24 = lit(ty, 0);
    text22.append(literal24.as_str());
    text22.append(";");
    program.line_at(1, text22.as_str());
    program.line("}");
    program.check(Ty::I32, "halved", 1);
    assert(program.top_lines() =~~= seq![input_global(ty, "raw"@, 40)]);
    assert(program.body_lines() =~~= range_body(ty));
    assert(program.expected_values() =~= range_expected(ty));
}

/// Writes the range program for an unsigned type.
#[verifier::rlimit(100)]
fn range_write_unsigned(program: &mut Program, ty: Ty)
    requires
        !ty.is_signed(),
        old(program).top_lines() == Seq::<Seq<char>>::empty(),
        old(program).body_lines() == Seq::<Seq<char>>::empty(),
        old(program).expected_values() == Seq::<int>::empty(),
        old(program).include_lines() == Seq::<Seq<char>>::empty(),
        !old(program).sinks(),
    ensures
        final(program).top_lines() == seq![input_global(ty, "raw"@, 40)],
        final(program).body_lines() == range_body(ty),
        final(program).expected_values() == range_expected(ty),
        final(program).include_lines() == Seq::<Seq<char>>::empty(),
        !final(program).sinks(),
        final(program).purpose_text() == old(program).purpose_text(),
{
    let c = ty.c_name();
    program.input(ty, "raw", 40);
    program.blank();
    let mut text1 = String::from_str(c);
    text1.append(" bounded = raw % ");
    let literal2 = lit(ty, 100);
    text1.append(literal2.as_str());
    text1.append(";");
    program.line(text1.as_str());
    let mut text3 = String::from_str(c);
    text3.append(" masked = raw & ");
    let literal4 = lit(ty, 63);
    text3.append(literal4.as_str());
    text3.append(";");
    program.line(text3.as_str());
    program.blank();
    let mut text5 = String::from_str("bounded < ");
    let literal6 = lit(ty, 100);
    text5.append(literal6.as_str());
    program.check(Ty::I32, text5.as_str(), 1);
    let mut text7 = String::from_str("masked < ");
    let literal8 = lit(ty, 64);
    text7.append(literal8.as_str());
    program.check(Ty::I32, text7.as_str(), 1);
    let mut text9 = String::from_str("masked >= ");
    let literal10 = lit(ty, 0);
    text9.append(literal10.as_str());
    program.check(Ty::I32, text9.as_str(), 1);
    program.blank();
    program.line("int guarded;");
    let mut text11 = String::from_str("if (raw > ");
    let literal12 = lit(ty, 10);
    text11.append(literal12.as_str());
    text11.append(") {");
    program.line(text11.as_str());
    let mut text13 = String::from_str("guarded = raw > ");
    let literal14 = lit(ty, 5);
    text13.append(literal14.as_str());
    text13.append(";");
    program.line_at(1, text13.as_str());
    program.line("} else {");
    let mut text15 = String::from_str("guarded = raw <= ");
    let literal16 = lit(ty, 10);
    text15.append(literal16.as_str());
    text15.append(";");
    program.line_at(1, text15.as_str());
    program.line("}");
    program.check(Ty::I32, "guarded", 1);
    assert(program.top_lines() =~~= seq![input_global(ty, "raw"@, 40)]);
    assert(program.body_lines() =~~= range_body(ty));
    assert(program.expected_values() =~= range_expected(ty));
}

/// The range program for one type.
fn range_case(ty: Ty) -> (r: Case)
    ensures
        is_range_case(r, ty),
{
    let mut purpose = String::from_str("questions a guard on a ");
    purpose.append(ty.c_name());
    purpose.append(" already answered");
    let mut program = Program::new(purpose.as_str());
    if ty.signed() {
        range_write_signed(&mut program, ty);
    } else {
        range_write_unsigned(&mut program, ty);
    }
    let axes = vec![axis("type", ty.name())];
    let r = Case { axes, tags: tags_for(false), program };
    assert(r.axes_text() =~= seq![("type"@, ty.name_text())]);
    r
}

/// Comparisons whose answer a range already decided, one program per type at the width of a
/// register.
///
/// A value is guarded into a range and then asked a question the guard already answered, and the
/// answer is printed, so a wrong range is a wrong number rather than a branch never taken. The
/// guarded answer is collected and printed after the branch, since only one arm runs.
pub fn value_range() -> (r: Vec<Case>)
    ensures
        r@.len() == 4,
        forall|k: int| 0 <= k < 4 ==> is_range_case(#[trigger] r@[k], wide_types()[k]),
{
    let types = wide();
    let mut out: Vec<Case> = Vec::new();
    let mut k: usize = 0;
    while k < 4
        invariant
            k <= 4,
            types@ == wide_types(),
            out@.len() == k,
            forall|i: int| 0 <= i < k ==> is_range_case(#[trigger] out@[i], wide_types()[i]),
        decreases 4 - k,
    {
        out.push(range_case(types[k]));
        k += 1;
    }
    out
}

/// One copy in a chain: each takes the one before it.
pub open spec fn copy_line(ty: Ty, step: int) -> Seq<char> {
    indent(1) + ty.c_text() + " c"@ + decimal(step) + " = c"@ + decimal(step - 1) + ";"@
}

/// Whether a case is the chain of `depth` copies for a type, whole.
pub open spec fn is_copy_case(c: Case, ty: Ty, depth: int) -> bool {
    &&& c.axes_text() == seq![("type"@, ty.name_text()), ("depth"@, decimal(depth))]
    &&& c.tags_text() == Seq::<Seq<char>>::empty()
    &&& c.program.purpose_text() == "a chain of "@ + decimal(depth) + " "@ + ty.c_text()
        + " copies"@
    &&& c.program.include_lines() == Seq::<Seq<char>>::empty()
    &&& c.program.top_lines() == seq![input_global(ty, "start"@, 12)]
    &&& c.program.body_lines() == seq![
        input_read(ty, "start"@),
        Seq::empty(),
        indent(1) + ty.c_text() + " c0 = start;"@,
    ] + Seq::new((depth - 1) as nat, |s: int| copy_line(ty, s + 1)) + seq![
        Seq::empty(),
        print_line(1, ty.promotion(), "c"@ + decimal(depth - 1)),
    ]
    &&& c.program.expected_values() == seq![12int]
    &&& !c.program.sinks()
}

/// The chain of `depth` copies for one type.
fn copy_case(ty: Ty, depth: i128) -> (r: Case)
    requires
        1 <= depth <= 32,
    ensures
        is_copy_case(r, ty, depth as int),
{
    let c = ty.c_name();
    let mut purpose = String::from_str("a chain of ");
    push_decimal(&mut purpose, depth);
    purpose.append(" ");
    purpose.append(c);
    purpose.append(" copies");
    let mut program = Program::new(purpose.as_str());
    program.input(ty, "start", 12);
    program.blank();
    let mut first = String::from_str(c);
    first.append(" c0 = start;");
    program.line(first.as_str());
    let ghost before = program.body_lines();
    let mut step: i128 = 1;
    while step < depth
        invariant
            1 <= step <= depth <= 32,
            c@ == ty.c_text(),
            program.body_lines() == before + Seq::new((step - 1) as nat, |s: int| copy_line(ty, s + 1)),
            program.top_lines() == seq![input_global(ty, "start"@, 12)],
            program.purpose_text() == purpose@,
            program.include_lines() == Seq::<Seq<char>>::empty(),
            program.expected_values() == Seq::<int>::empty(),
            !program.sinks(),
        decreases depth - step,
    {
        let mut text = String::from_str(c);
        text.append(" c");
        push_decimal(&mut text, step);
        text.append(" = c");
        push_decimal(&mut text, step - 1);
        text.append(";");
        program.line(text.as_str());
        assert(indent(1) + text@ =~= copy_line(ty, step as int));
        assert(before + Seq::new(step as nat, |s: int| copy_line(ty, s + 1)) =~= (before + Seq::new(
            (step - 1) as nat,
            |s: int| copy_line(ty, s + 1),
        )).push(indent(1) + text@));
        step += 1;
    }
    program.blank();
    let mut last = String::from_str("c");
    push_decimal(&mut last, depth - 1);
    program.check(ty.promoted(), last.as_str(), 12);
    assert(program.body_lines() =~~= seq![
        input_read(ty, "start"@),
        Seq::empty(),
        indent(1) + ty.c_text() + " c0 = start;"@,
    ] + Seq::new((depth - 1) as nat, |s: int| copy_line(ty, s + 1)) + seq![
        Seq::empty(),
        print_line(1, ty.promotion(), "c"@ + decimal(depth - 1)),
    ]);
    let mut deep = String::new();
    push_decimal(&mut deep, depth);
    let axes = vec![axis("type", ty.name()), axis("depth", deep.as_str())];
    let r = Case { axes, tags: tags_for(false), program };
    assert(r.axes_text() =~= seq![("type"@, ty.name_text()), ("depth"@, decimal(depth as int))]);
    assert(r.program.expected_values() =~= seq![12int]);
    r
}

/// A chain of copies that should collapse to nothing, on every type at the width of a register
/// and three lengths.
pub fn copy_propagation() -> (r: Vec<Case>)
    ensures
        r@.len() == 12,
        forall|k: int|
            0 <= k < 12 ==> is_copy_case(#[trigger] r@[k], wide_types()[k / 3], seq![2int, 8, 32][k % 3]),
{
    let types = wide();
    let depths: [i128; 3] = [2, 8, 32];
    let mut out: Vec<Case> = Vec::new();
    let mut k: usize = 0;
    while k < 12
        invariant
            k <= 12,
            types@ == wide_types(),
            depths@ == seq![2i128, 8, 32],
            out@.len() == k,
            forall|i: int|
                0 <= i < k ==> is_copy_case(#[trigger] out@[i], wide_types()[i / 3], seq![2int, 8, 32][i % 3]),
        decreases 12 - k,
    {
        let depth = depths[k % 3];
        assert(depth as int == seq![2int, 8, 32][k as int % 3]);
        out.push(copy_case(types[k / 3], depth));
        k += 1;
    }
    out
}

/// Where a range at a program point comes from, or the guard it must not remove.
#[derive(Clone, Copy, Debug, PartialEq, Eq, Structural)]
pub enum RangeSource {
    BothEdges,
    SwitchArms,
    InvertedCondition,
    RelationBetweenTwo,
    ThroughACast,
    CarriedRoundALoop,
    GuardKeepsTheDivide,
    GuardKeepsTheShift,
    GuardKeepsTheIndex,
}

impl RangeSource {
    /// The axis value.
    pub open spec fn name_text(self) -> Seq<char> {
        match self {
            RangeSource::BothEdges => "both-edges"@,
            RangeSource::SwitchArms => "switch-arms"@,
            RangeSource::InvertedCondition => "inverted-condition"@,
            RangeSource::RelationBetweenTwo => "relation-between-two"@,
            RangeSource::ThroughACast => "through-a-cast"@,
            RangeSource::CarriedRoundALoop => "carried-round-a-loop"@,
            RangeSource::GuardKeepsTheDivide => "guard-keeps-the-divide"@,
            RangeSource::GuardKeepsTheShift => "guard-keeps-the-shift"@,
            RangeSource::GuardKeepsTheIndex => "guard-keeps-the-index"@,
        }
    }

    /// The axis value.
    pub fn name(self) -> (r: &'static str)
        ensures
            r@ == self.name_text(),
    {
        match self {
            RangeSource::BothEdges => "both-edges",
            RangeSource::SwitchArms => "switch-arms",
            RangeSource::InvertedCondition => "inverted-condition",
            RangeSource::RelationBetweenTwo => "relation-between-two",
            RangeSource::ThroughACast => "through-a-cast",
            RangeSource::CarriedRoundALoop => "carried-round-a-loop",
            RangeSource::GuardKeepsTheDivide => "guard-keeps-the-divide",
            RangeSource::GuardKeepsTheShift => "guard-keeps-the-shift",
            RangeSource::GuardKeepsTheIndex => "guard-keeps-the-index",
        }
    }
}

/// The shapes in the order the facet walks them.
pub open spec fn range_sources_list() -> Seq<RangeSource> {
    seq![
        RangeSource::BothEdges,
        RangeSource::SwitchArms,
        RangeSource::InvertedCondition,
        RangeSource::RelationBetweenTwo,
        RangeSource::ThroughACast,
        RangeSource::CarriedRoundALoop,
        RangeSource::GuardKeepsTheDivide,
        RangeSource::GuardKeepsTheShift,
        RangeSource::GuardKeepsTheIndex,
    ]
}

/// The shapes in the order the facet walks them.
fn range_sources_array() -> (r: Vec<RangeSource>)
    ensures
        r@ == range_sources_list(),
{
    let r = vec![
        RangeSource::BothEdges,
        RangeSource::SwitchArms,
        RangeSource::InvertedCondition,
        RangeSource::RelationBetweenTwo,
        RangeSource::ThroughACast,
        RangeSource::CarriedRoundALoop,
        RangeSource::GuardKeepsTheDivide,
        RangeSource::GuardKeepsTheShift,
        RangeSource::GuardKeepsTheIndex,
    ];
    assert(r@ =~= range_sources_list());
    r
}

/// The lines before `main` of each shape.
pub open spec fn place_top(shape: RangeSource) -> Seq<Seq<char>> {
    match shape {
        RangeSource::BothEdges => seq![
            input_global(Ty::I32, "x"@, 20int),
        ],
        RangeSource::SwitchArms => seq![
            input_global(Ty::I32, "pick"@, 9int),
        ],
        RangeSource::InvertedCondition => seq![
            input_global(Ty::I32, "x"@, 20int),
            input_global(Ty::I32, "y"@, 2int),
        ],
        RangeSource::RelationBetweenTwo => seq![
            input_global(Ty::I32, "a"@, 3int),
            input_global(Ty::I32, "b"@, 8int),
            input_global(Ty::I32, "c"@, 11int),
        ],
        RangeSource::ThroughACast => seq![
            input_global(Ty::I32, "x"@, 1000int),
        ],
        RangeSource::CarriedRoundALoop => seq![
            input_global(Ty::I32, "limit"@, 10int),
        ],
        RangeSource::GuardKeepsTheDivide => seq![
            input_global(Ty::I32, "divisor"@, 0int),
            input_global(Ty::I32, "numerator"@, 84int),
        ],
        RangeSource::GuardKeepsTheShift => seq![
            input_global(Ty::I32, "count"@, 32int),
            input_global(Ty::I32, "x"@, 1int),
        ],
        RangeSource::GuardKeepsTheIndex => seq![
            input_global(Ty::I32, "index"@, 4int),
        ],
    }
}

/// The statements of `main` of each shape.
pub open spec fn place_body(shape: RangeSource) -> Seq<Seq<char>> {
    match shape {
        RangeSource::BothEdges => seq![
            input_read(Ty::I32, "x"@),
            Seq::<char>::empty(),
            indent(1) + "int settled;"@,
            indent(1) + "if (x > 10) {"@,
            indent(2) + "settled = (x > 5) && (x >= 11);"@,
            indent(1) + "} else {"@,
            indent(2) + "settled = (x <= 10) && (x < 11);"@,
            indent(1) + "}"@,
            Seq::<char>::empty(),
            print_line(1, Ty::I32, "settled"@),
        ],
        RangeSource::SwitchArms => seq![
            input_read(Ty::I32, "pick"@),
            Seq::<char>::empty(),
            indent(1) + "int settled = 0;"@,
            indent(1) + "switch (pick) {"@,
            indent(2) + "case 1: settled = (pick == 1) && (pick < 2); break;"@,
            indent(2) + "case 2: settled = (pick == 2) && (pick > 1); break;"@,
            indent(2) + "case 3: settled = (pick == 3) && (pick > 2); break;"@,
            indent(2) + "default: settled = (pick != 1) && (pick != 2) && (pick != 3);"@,
            indent(3) + "break;"@,
            indent(1) + "}"@,
            Seq::<char>::empty(),
            print_line(1, Ty::I32, "settled"@),
        ],
        RangeSource::InvertedCondition => seq![
            input_read(Ty::I32, "x"@),
            input_read(Ty::I32, "y"@),
            Seq::<char>::empty(),
            indent(1) + "int both = (x > 10) & (y < 5);"@,
            indent(1) + "int deeper = both & (x < 100);"@,
            indent(1) + "int settled = 1;"@,
            indent(1) + "if (deeper) {"@,
            indent(2) + "settled = (x > 5) && (y < 10) && (x < 1000);"@,
            indent(1) + "}"@,
            Seq::<char>::empty(),
            print_line(1, Ty::I32, "settled"@),
        ],
        RangeSource::RelationBetweenTwo => seq![
            input_read(Ty::I32, "a"@),
            input_read(Ty::I32, "b"@),
            input_read(Ty::I32, "c"@),
            Seq::<char>::empty(),
            indent(1) + "int settled = 1;"@,
            indent(1) + "if (a < b) {"@,
            indent(2) + "if (b < c) {"@,
            indent(3) + "settled = (a < c) && (a != c) && (c > a);"@,
            indent(2) + "}"@,
            indent(1) + "}"@,
            Seq::<char>::empty(),
            print_line(1, Ty::I32, "settled"@),
        ],
        RangeSource::ThroughACast => seq![
            input_read(Ty::I32, "x"@),
            Seq::<char>::empty(),
            indent(1) + "unsigned char narrow = (unsigned char)x;"@,
            indent(1) + "int wide = (int)narrow;"@,
            indent(1) + "signed char signed_narrow = (signed char)(x & 63);"@,
            indent(1) + "int signed_wide = (int)signed_narrow;"@,
            Seq::<char>::empty(),
            print_line(1, Ty::I32, "wide >= 0 && wide <= 255"@),
            print_line(1, Ty::I32, "signed_wide >= 0 && signed_wide <= 63"@),
        ],
        RangeSource::CarriedRoundALoop => seq![
            input_read(Ty::I32, "limit"@),
            Seq::<char>::empty(),
            indent(1) + "int inside = 1;"@,
            indent(1) + "int i = 0;"@,
            indent(1) + "for (i = 0; i < limit; i++) {"@,
            indent(2) + "inside = inside && (i >= 0) && (i < limit);"@,
            indent(1) + "}"@,
            Seq::<char>::empty(),
            print_line(1, Ty::I32, "inside"@),
            print_line(1, Ty::I32, "i >= limit"@),
        ],
        RangeSource::GuardKeepsTheDivide => seq![
            input_read(Ty::I32, "divisor"@),
            input_read(Ty::I32, "numerator"@),
            Seq::<char>::empty(),
            indent(1) + "int quotient;"@,
            indent(1) + "if (divisor != 0) {"@,
            indent(2) + "quotient = numerator / divisor;"@,
            indent(1) + "} else {"@,
            indent(2) + "quotient = 7;"@,
            indent(1) + "}"@,
            Seq::<char>::empty(),
            print_line(1, Ty::I32, "quotient == 7"@),
        ],
        RangeSource::GuardKeepsTheShift => seq![
            input_read(Ty::I32, "count"@),
            input_read(Ty::I32, "x"@),
            Seq::<char>::empty(),
            indent(1) + "int shifted;"@,
            indent(1) + "if (count < 32) {"@,
            indent(2) + "shifted = x << count;"@,
            indent(1) + "} else {"@,
            indent(2) + "shifted = 0;"@,
            indent(1) + "}"@,
            Seq::<char>::empty(),
            print_line(1, Ty::I32, "shifted == 0"@),
        ],
        RangeSource::GuardKeepsTheIndex => seq![
            input_read(Ty::I32, "index"@),
            Seq::<char>::empty(),
            indent(1) + "int table[4] = { 10, 20, 30, 40 };"@,
            indent(1) + "int picked;"@,
            indent(1) + "if (index >= 0 && index < 4) {"@,
            indent(2) + "picked = table[index];"@,
            indent(1) + "} else {"@,
            indent(2) + "picked = 9;"@,
            indent(1) + "}"@,
            Seq::<char>::empty(),
            print_line(1, Ty::I32, "picked == 9"@),
        ],
    }
}

/// The headers of each shape.
pub open spec fn place_includes(shape: RangeSource) -> Seq<Seq<char>> {
    match shape {
        RangeSource::BothEdges => Seq::empty(),
        RangeSource::SwitchArms => Seq::empty(),
        RangeSource::InvertedCondition => Seq::empty(),
        RangeSource::RelationBetweenTwo => Seq::empty(),
        RangeSource::ThroughACast => Seq::empty(),
        RangeSource::CarriedRoundALoop => Seq::empty(),
        RangeSource::GuardKeepsTheDivide => Seq::empty(),
        RangeSource::GuardKeepsTheShift => Seq::empty(),
        RangeSource::GuardKeepsTheIndex => Seq::empty(),
    }
}

/// What the program prints of each shape.
pub open spec fn place_expected(shape: RangeSource) -> Seq<int> {
    match shape {
        RangeSource::BothEdges => seq![
            1int,
        ],
        RangeSource::SwitchArms => seq![
            1int,
        ],
        RangeSource::InvertedCondition => seq![
            1int,
        ],
        RangeSource::RelationBetweenTwo => seq![
            1int,
        ],
        RangeSource::ThroughACast => seq![
            1int,
            1int,
        ],
        RangeSource::CarriedRoundALoop => seq![
            1int,
            1int,
        ],
        RangeSource::GuardKeepsTheDivide => seq![
            1int,
        ],
        RangeSource::GuardKeepsTheShift => seq![
            1int,
        ],
        RangeSource::GuardKeepsTheIndex => seq![
            1int,
        ],
    }
}

/// Whether the shape asks for the volatile sink.
pub open spec fn place_sinks(shape: RangeSource) -> bool {
    match shape {
        RangeSource::BothEdges => false,
        RangeSource::SwitchArms => false,
        RangeSource::InvertedCondition => false,
        RangeSource::RelationBetweenTwo => false,
        RangeSource::ThroughACast => false,
        RangeSource::CarriedRoundALoop => false,
        RangeSource::GuardKeepsTheDivide => false,
        RangeSource::GuardKeepsTheShift => false,
        RangeSource::GuardKeepsTheIndex => false,
    }
}

/// Writes some of the shapes.
#[verifier::rlimit(100)]
fn place_write_0(program: &mut Program, shape: RangeSource)
    requires
        old(program).top_lines() == Seq::<Seq<char>>::empty(),
        old(program).body_lines() == Seq::<Seq<char>>::empty(),
        old(program).expected_values() == Seq::<int>::empty(),
        old(program).include_lines() == Seq::<Seq<char>>::empty(),
        !old(program).sinks(),
        shape == RangeSource::BothEdges || shape == RangeSource::SwitchArms || shape == RangeSource::InvertedCondition,
    ensures
        final(program).top_lines() == place_top(shape),
        final(program).body_lines() == place_body(shape),
        final(program).expected_values() == place_expected(shape),
        final(program).include_lines() == place_includes(shape),
        final(program).sinks() == place_sinks(shape),
        final(program).purpose_text() == old(program).purpose_text(),
{
    match shape {
        RangeSource::BothEdges => {
            program.input(Ty::I32, "x", 20);
            program.blank();
            program.line("int settled;");
            program.line("if (x > 10) {");
            program.line_at(1, "settled = (x > 5) && (x >= 11);");
            program.line("} else {");
            program.line_at(1, "settled = (x <= 10) && (x < 11);");
            program.line("}");
            program.blank();
            program.check(Ty::I32, "settled", 1);
            assert(program.top_lines() =~~= place_top(shape));
            assert(program.body_lines() =~~= place_body(shape));
            assert(program.expected_values() =~= place_expected(shape));
            assert(program.include_lines() =~~= place_includes(shape));
        },
        RangeSource::SwitchArms => {
            program.input(Ty::I32, "pick", 9);
            program.blank();
            program.line("int settled = 0;");
            program.line("switch (pick) {");
            program.line_at(1, "case 1: settled = (pick == 1) && (pick < 2); break;");
            program.line_at(1, "case 2: settled = (pick == 2) && (pick > 1); break;");
            program.line_at(1, "case 3: settled = (pick == 3) && (pick > 2); break;");
            program.line_at(1, "default: settled = (pick != 1) && (pick != 2) && (pick != 3);");
            program.line_at(2, "break;");
            program.line("}");
            program.blank();
            program.check(Ty::I32, "settled", 1);
            assert(program.top_lines() =~~= place_top(shape));
            assert(program.body_lines() =~~= place_body(shape));
            assert(program.expected_values() =~= place_expected(shape));
            assert(program.include_lines() =~~= place_includes(shape));
        },
        RangeSource::InvertedCondition => {
            program.input(Ty::I32, "x", 20);
            program.input(Ty::I32, "y", 2);
            program.blank();
            program.line("int both = (x > 10) & (y < 5);");
            program.line("int deeper = both & (x < 100);");
            program.line("int settled = 1;");
            program.line("if (deeper) {");
            program.line_at(1, "settled = (x > 5) && (y < 10) && (x < 1000);");
            program.line("}");
            program.blank();
            program.check(Ty::I32, "settled", 1);
            assert(program.top_lines() =~~= place_top(shape));
            assert(program.body_lines() =~~= place_body(shape));
            assert(program.expected_values() =~= place_expected(shape));
            assert(program.include_lines() =~~= place_includes(shape));
        },
        _ => {},
    }
}

/// Writes some of the shapes.
#[verifier::rlimit(100)]
fn place_write_1(program: &mut Program, shape: RangeSource)
    requires
        old(program).top_lines() == Seq::<Seq<char>>::empty(),
        old(program).body_lines() == Seq::<Seq<char>>::empty(),
        old(program).expected_values() == Seq::<int>::empty(),
        old(program).include_lines() == Seq::<Seq<char>>::empty(),
        !old(program).sinks(),
        shape == RangeSource::RelationBetweenTwo || shape == RangeSource::ThroughACast || shape == RangeSource::CarriedRoundALoop,
    ensures
        final(program).top_lines() == place_top(shape),
        final(program).body_lines() == place_body(shape),
        final(program).expected_values() == place_expected(shape),
        final(program).include_lines() == place_includes(shape),
        final(program).sinks() == place_sinks(shape),
        final(program).purpose_text() == old(program).purpose_text(),
{
    match shape {
        RangeSource::RelationBetweenTwo => {
            program.input(Ty::I32, "a", 3);
            program.input(Ty::I32, "b", 8);
            program.input(Ty::I32, "c", 11);
            program.blank();
            program.line("int settled = 1;");
            program.line("if (a < b) {");
            program.line_at(1, "if (b < c) {");
            program.line_at(2, "settled = (a < c) && (a != c) && (c > a);");
            program.line_at(1, "}");
            program.line("}");
            program.blank();
            program.check(Ty::I32, "settled", 1);
            assert(program.top_lines() =~~= place_top(shape));
            assert(program.body_lines() =~~= place_body(shape));
            assert(program.expected_values() =~= place_expected(shape));
            assert(program.include_lines() =~~= place_includes(shape));
        },
        RangeSource::ThroughACast => {
            program.input(Ty::I32, "x", 1000);
            program.blank();
            program.line("unsigned char narrow = (unsigned char)x;");
            program.line("int wide = (int)narrow;");
            program.line("signed char signed_narrow = (signed char)(x & 63);");
            program.line("int signed_wide = (int)signed_narrow;");
            program.blank();
            program.check(Ty::I32, "wide >= 0 && wide <= 255", 1);
            program.check(Ty::I32, "signed_wide >= 0 && signed_wide <= 63", 1);
            assert(program.top_lines() =~~= place_top(shape));
            assert(program.body_lines() =~~= place_body(shape));
            assert(program.expected_values() =~= place_expected(shape));
            assert(program.include_lines() =~~= place_includes(shape));
        },
        RangeSource::CarriedRoundALoop => {
            program.input(Ty::I32, "limit", 10);
            program.blank();
            program.line("int inside = 1;");
            program.line("int i = 0;");
            program.line("for (i = 0; i < limit; i++) {");
            program.line_at(1, "inside = inside && (i >= 0) && (i < limit);");
            program.line("}");
            program.blank();
            program.check(Ty::I32, "inside", 1);
            program.check(Ty::I32, "i >= limit", 1);
            assert(program.top_lines() =~~= place_top(shape));
            assert(program.body_lines() =~~= place_body(shape));
            assert(program.expected_values() =~= place_expected(shape));
            assert(program.include_lines() =~~= place_includes(shape));
        },
        _ => {},
    }
}

/// Writes some of the shapes.
#[verifier::rlimit(100)]
fn place_write_2(program: &mut Program, shape: RangeSource)
    requires
        old(program).top_lines() == Seq::<Seq<char>>::empty(),
        old(program).body_lines() == Seq::<Seq<char>>::empty(),
        old(program).expected_values() == Seq::<int>::empty(),
        old(program).include_lines() == Seq::<Seq<char>>::empty(),
        !old(program).sinks(),
        shape == RangeSource::GuardKeepsTheDivide || shape == RangeSource::GuardKeepsTheShift || shape == RangeSource::GuardKeepsTheIndex,
    ensures
        final(program).top_lines() == place_top(shape),
        final(program).body_lines() == place_body(shape),
        final(program).expected_values() == place_expected(shape),
        final(program).include_lines() == place_includes(shape),
        final(program).sinks() == place_sinks(shape),
        final(program).purpose_text() == old(program).purpose_text(),
{
    match shape {
        RangeSource::GuardKeepsTheDivide => {
            program.input(Ty::I32, "divisor", 0);
            program.input(Ty::I32, "numerator", 84);
            program.blank();
            program.line("int quotient;");
            program.line("if (divisor != 0) {");
            program.line_at(1, "quotient = numerator / divisor;");
            program.line("} else {");
            program.line_at(1, "quotient = 7;");
            program.line("}");
            program.blank();
            program.check(Ty::I32, "quotient == 7", 1);
            assert(program.top_lines() =~~= place_top(shape));
            assert(program.body_lines() =~~= place_body(shape));
            assert(program.expected_values() =~= place_expected(shape));
            assert(program.include_lines() =~~= place_includes(shape));
        },
        RangeSource::GuardKeepsTheShift => {
            program.input(Ty::I32, "count", 32);
            program.input(Ty::I32, "x", 1);
            program.blank();
            program.line("int shifted;");
            program.line("if (count < 32) {");
            program.line_at(1, "shifted = x << count;");
            program.line("} else {");
            program.line_at(1, "shifted = 0;");
            program.line("}");
            program.blank();
            program.check(Ty::I32, "shifted == 0", 1);
            assert(program.top_lines() =~~= place_top(shape));
            assert(program.body_lines() =~~= place_body(shape));
            assert(program.expected_values() =~= place_expected(shape));
            assert(program.include_lines() =~~= place_includes(shape));
        },
        RangeSource::GuardKeepsTheIndex => {
            program.input(Ty::I32, "index", 4);
            program.blank();
            program.line("int table[4] = { 10, 20, 30, 40 };");
            program.line("int picked;");
            program.line("if (index >= 0 && index < 4) {");
            program.line_at(1, "picked = table[index];");
            program.line("} else {");
            program.line_at(1, "picked = 9;");
            program.line("}");
            program.blank();
            program.check(Ty::I32, "picked == 9", 1);
            assert(program.top_lines() =~~= place_top(shape));
            assert(program.body_lines() =~~= place_body(shape));
            assert(program.expected_values() =~= place_expected(shape));
            assert(program.include_lines() =~~= place_includes(shape));
        },
        _ => {},
    }
}

/// Writes a shape.
fn place_write(program: &mut Program, shape: RangeSource)
    requires
        old(program).top_lines() == Seq::<Seq<char>>::empty(),
        old(program).body_lines() == Seq::<Seq<char>>::empty(),
        old(program).expected_values() == Seq::<int>::empty(),
        old(program).include_lines() == Seq::<Seq<char>>::empty(),
        !old(program).sinks(),
    ensures
        final(program).top_lines() == place_top(shape),
        final(program).body_lines() == place_body(shape),
        final(program).expected_values() == place_expected(shape),
        final(program).include_lines() == place_includes(shape),
        final(program).sinks() == place_sinks(shape),
        final(program).purpose_text() == old(program).purpose_text(),
{
    match shape {
        RangeSource::BothEdges | RangeSource::SwitchArms | RangeSource::InvertedCondition => {
            place_write_0(program, shape);
        },
        RangeSource::RelationBetweenTwo | RangeSource::ThroughACast | RangeSource::CarriedRoundALoop => {
            place_write_1(program, shape);
        },
        RangeSource::GuardKeepsTheDivide | RangeSource::GuardKeepsTheShift | RangeSource::GuardKeepsTheIndex => {
            place_write_2(program, shape);
        },
    }
}

/// Whether a case is the place shape, whole.
pub open spec fn is_place_case(c: Case, shape: RangeSource) -> bool {
    &&& c.axes_text() == seq![("shape"@, shape.name_text())]
    &&& c.tags_text() == Seq::<Seq<char>>::empty()
    &&& c.program.purpose_text() == "a range that comes from "@ + shape.name_text()
    &&& c.program.include_lines() == place_includes(shape)
    &&& c.program.top_lines() == place_top(shape)
    &&& c.program.body_lines() == place_body(shape)
    &&& c.program.expected_values() == place_expected(shape)
    &&& c.program.sinks() == place_sinks(shape)
}

/// One place shape.
fn place_case(shape: RangeSource) -> (r: Case)
    ensures
        is_place_case(r, shape),
{
    let mut purpose = String::new();
    purpose.append("a range that comes from ");
    purpose.append(shape.name());
    let mut program = Program::new(purpose.as_str());
    place_write(&mut program, shape);
    let axes = vec![axis("shape", shape.name())];
    let r = Case { axes, tags: tags_for(false), program };
    assert(r.axes_text() =~= seq![("shape"@, shape.name_text())]);
    assert(r.tags_text() =~= Seq::<Seq<char>>::empty());
    r
}

/// The places a range comes from, and the places it must not be used.
///
/// A range holds at a program point rather than at a definition: on the false edge as well as
/// the true one, in the arms and the default of a switch, backwards through the operation that
/// built a condition, between two unknowns, through a cast and round a loop. The last three have
/// a guard doing real work against a zero divisor, a shift by the width and an index past the
/// end, so a compiler that removed it traps or reads out of bounds. Every program prints one.
pub fn value_range_places() -> (r: Vec<Case>)
    ensures
        r@.len() == 9,
        forall|k: int| 0 <= k < 9 ==> is_place_case(#[trigger] r@[k], range_sources_list()[k]),
{
    let shapes = range_sources_array();
    let mut out: Vec<Case> = Vec::new();
    let mut k: usize = 0;
    while k < 9
        invariant
            k <= 9,
            shapes@ == range_sources_list(),
            out@.len() == k,
            forall|i: int| 0 <= i < k ==> is_place_case(#[trigger] out@[i], range_sources_list()[i]),
        decreases 9 - k,
    {
        out.push(place_case(shapes[k]));
        k += 1;
    }
    out
}

/// What a walk back from a load meets before the store that answers it.
#[derive(Clone, Copy, Debug, PartialEq, Eq, Structural)]
pub enum WalkBack {
    SkipOtherObject,
    SkipOtherIndex,
    StoppedByCall,
    StoppedByMayAlias,
    MergeAtJoin,
    OverALoop,
    ClobberedInALoop,
}

impl WalkBack {
    /// The axis value.
    pub open spec fn name_text(self) -> Seq<char> {
        match self {
            WalkBack::SkipOtherObject => "skip-other-object"@,
            WalkBack::SkipOtherIndex => "skip-other-index"@,
            WalkBack::StoppedByCall => "stopped-by-call"@,
            WalkBack::StoppedByMayAlias => "stopped-by-may-alias"@,
            WalkBack::MergeAtJoin => "merge-at-join"@,
            WalkBack::OverALoop => "over-a-loop"@,
            WalkBack::ClobberedInALoop => "clobbered-in-a-loop"@,
        }
    }

    /// The axis value.
    pub fn name(self) -> (r: &'static str)
        ensures
            r@ == self.name_text(),
    {
        match self {
            WalkBack::SkipOtherObject => "skip-other-object",
            WalkBack::SkipOtherIndex => "skip-other-index",
            WalkBack::StoppedByCall => "stopped-by-call",
            WalkBack::StoppedByMayAlias => "stopped-by-may-alias",
            WalkBack::MergeAtJoin => "merge-at-join",
            WalkBack::OverALoop => "over-a-loop",
            WalkBack::ClobberedInALoop => "clobbered-in-a-loop",
        }
    }
}

/// The shapes in the order the facet walks them.
pub open spec fn walk_backs_list() -> Seq<WalkBack> {
    seq![
        WalkBack::SkipOtherObject,
        WalkBack::SkipOtherIndex,
        WalkBack::StoppedByCall,
        WalkBack::StoppedByMayAlias,
        WalkBack::MergeAtJoin,
        WalkBack::OverALoop,
        WalkBack::ClobberedInALoop,
    ]
}

/// The shapes in the order the facet walks them.
fn walk_backs_array() -> (r: Vec<WalkBack>)
    ensures
        r@ == walk_backs_list(),
{
    let r = vec![
        WalkBack::SkipOtherObject,
        WalkBack::SkipOtherIndex,
        WalkBack::StoppedByCall,
        WalkBack::StoppedByMayAlias,
        WalkBack::MergeAtJoin,
        WalkBack::OverALoop,
        WalkBack::ClobberedInALoop,
    ];
    assert(r@ =~= walk_backs_list());
    r
}

/// The lines before `main`.
pub open spec fn back_top(ty: Ty, shape: WalkBack) -> Seq<Seq<char>> {
    match shape {
        WalkBack::SkipOtherObject => seq![
            input_global(ty, "value"@, 41int),
            input_global(Ty::I32, "flag"@, 1int),
        ],
        WalkBack::SkipOtherIndex => seq![
            input_global(ty, "value"@, 41int),
            input_global(Ty::I32, "flag"@, 1int),
        ],
        WalkBack::StoppedByCall => seq![
            input_global(ty, "value"@, 41int),
            input_global(Ty::I32, "flag"@, 1int),
            "static void put("@ + ty.c_text() + " *at, "@ + ty.c_text() + " v) {"@,
            "    *at = v;"@,
            "}"@,
        ],
        WalkBack::StoppedByMayAlias => seq![
            input_global(ty, "value"@, 41int),
            input_global(Ty::I32, "flag"@, 1int),
        ],
        WalkBack::MergeAtJoin => seq![
            input_global(ty, "value"@, 41int),
            input_global(Ty::I32, "flag"@, 1int),
        ],
        WalkBack::OverALoop => seq![
            input_global(ty, "value"@, 41int),
            input_global(Ty::I32, "flag"@, 1int),
        ],
        WalkBack::ClobberedInALoop => seq![
            input_global(ty, "value"@, 41int),
            input_global(Ty::I32, "flag"@, 1int),
        ],
    }
}

/// The statements of `main`.
pub open spec fn back_body(ty: Ty, shape: WalkBack) -> Seq<Seq<char>> {
    match shape {
        WalkBack::SkipOtherObject => seq![
            input_read(ty, "value"@),
            input_read(Ty::I32, "flag"@),
            Seq::<char>::empty(),
            indent(1) + ty.c_text() + " one[2];"@,
            indent(1) + ty.c_text() + " two[2];"@,
            indent(1) + "one[0] = value;"@,
            indent(1) + "two[0] = value + "@ + lit_text(ty, 1int) + ";"@,
            indent(1) + ty.c_text() + " read = one[0];"@,
            Seq::<char>::empty(),
        ],
        WalkBack::SkipOtherIndex => seq![
            input_read(ty, "value"@),
            input_read(Ty::I32, "flag"@),
            Seq::<char>::empty(),
            indent(1) + ty.c_text() + " one[2];"@,
            indent(1) + "one[0] = value;"@,
            indent(1) + "one[1] = value + "@ + lit_text(ty, 1int) + ";"@,
            indent(1) + ty.c_text() + " read = one[0];"@,
            Seq::<char>::empty(),
        ],
        WalkBack::StoppedByCall => seq![
            input_read(ty, "value"@),
            input_read(Ty::I32, "flag"@),
            Seq::<char>::empty(),
            indent(1) + ty.c_text() + " one[2];"@,
            indent(1) + "one[0] = value;"@,
            indent(1) + "put(&one[0], value + "@ + lit_text(ty, 1int) + ");"@,
            indent(1) + ty.c_text() + " read = one[0];"@,
            Seq::<char>::empty(),
        ],
        WalkBack::StoppedByMayAlias => seq![
            input_read(ty, "value"@),
            input_read(Ty::I32, "flag"@),
            Seq::<char>::empty(),
            indent(1) + ty.c_text() + " one[2];"@,
            indent(1) + ty.c_text() + " two[2];"@,
            indent(1) + "one[0] = value;"@,
            indent(1) + "two[0] = value;"@,
            indent(1) + ty.c_text() + " *at = flag ? &one[0] : &two[0];"@,
            indent(1) + "*at = value + "@ + lit_text(ty, 1int) + ";"@,
            indent(1) + ty.c_text() + " read = one[0];"@,
            Seq::<char>::empty(),
        ],
        WalkBack::MergeAtJoin => seq![
            input_read(ty, "value"@),
            input_read(Ty::I32, "flag"@),
            Seq::<char>::empty(),
            indent(1) + ty.c_text() + " one[2];"@,
            indent(1) + "if (flag) {"@,
            indent(2) + "one[0] = value + "@ + lit_text(ty, 1int) + ";"@,
            indent(1) + "} else {"@,
            indent(2) + "one[0] = value;"@,
            indent(1) + "}"@,
            indent(1) + ty.c_text() + " read = one[0];"@,
            Seq::<char>::empty(),
        ],
        WalkBack::OverALoop => seq![
            input_read(ty, "value"@),
            input_read(Ty::I32, "flag"@),
            Seq::<char>::empty(),
            indent(1) + ty.c_text() + " one[2];"@,
            indent(1) + ty.c_text() + " two[2];"@,
            indent(1) + "one[0] = value;"@,
            indent(1) + "for (int i = 0; i < 4; i++) {"@,
            indent(2) + "two[i & 1] = ("@ + ty.c_text() + ")i;"@,
            indent(1) + "}"@,
            indent(1) + ty.c_text() + " read = one[0];"@,
            Seq::<char>::empty(),
        ],
        WalkBack::ClobberedInALoop => seq![
            input_read(ty, "value"@),
            input_read(Ty::I32, "flag"@),
            Seq::<char>::empty(),
            indent(1) + ty.c_text() + " one[2];"@,
            indent(1) + "one[0] = value;"@,
            indent(1) + "for (int i = 0; i < 1; i++) {"@,
            indent(2) + "one[0] = one[0] + "@ + lit_text(ty, 1int) + ";"@,
            indent(1) + "}"@,
            indent(1) + ty.c_text() + " read = one[0];"@,
            Seq::<char>::empty(),
        ],
    }
}

/// The headers.
pub open spec fn back_includes(ty: Ty, shape: WalkBack) -> Seq<Seq<char>> {
    match shape {
        WalkBack::SkipOtherObject => Seq::empty(),
        WalkBack::SkipOtherIndex => Seq::empty(),
        WalkBack::StoppedByCall => Seq::empty(),
        WalkBack::StoppedByMayAlias => Seq::empty(),
        WalkBack::MergeAtJoin => Seq::empty(),
        WalkBack::OverALoop => Seq::empty(),
        WalkBack::ClobberedInALoop => Seq::empty(),
    }
}

/// What the program prints.
pub open spec fn back_expected(ty: Ty, shape: WalkBack) -> Seq<int> {
    match shape {
        WalkBack::SkipOtherObject => Seq::empty(),
        WalkBack::SkipOtherIndex => Seq::empty(),
        WalkBack::StoppedByCall => Seq::empty(),
        WalkBack::StoppedByMayAlias => Seq::empty(),
        WalkBack::MergeAtJoin => Seq::empty(),
        WalkBack::OverALoop => Seq::empty(),
        WalkBack::ClobberedInALoop => Seq::empty(),
    }
}

/// Writes some of the shapes.
#[verifier::rlimit(100)]
fn back_write_0(program: &mut Program, ty: Ty, shape: WalkBack)
    requires
        old(program).top_lines() == Seq::<Seq<char>>::empty(),
        old(program).body_lines() == Seq::<Seq<char>>::empty(),
        old(program).expected_values() == Seq::<int>::empty(),
        old(program).include_lines() == Seq::<Seq<char>>::empty(),
        !old(program).sinks(),
        shape == WalkBack::SkipOtherObject || shape == WalkBack::SkipOtherIndex || shape == WalkBack::StoppedByCall,
    ensures
        final(program).top_lines() == back_top(ty, shape),
        final(program).body_lines() == back_body(ty, shape),
        final(program).expected_values() == back_expected(ty, shape),
        final(program).include_lines() == back_includes(ty, shape),
        !final(program).sinks(),
        final(program).purpose_text() == old(program).purpose_text(),
{
    let c = ty.c_name();
    match shape {
        WalkBack::SkipOtherObject => {
            program.input(ty, "value", 41);
            program.input(Ty::I32, "flag", 1);
            program.blank();
            let mut text1 = String::from_str(c);
            text1.append(" one[2];");
            program.line(text1.as_str());
            let mut text2 = String::from_str(c);
            text2.append(" two[2];");
            program.line(text2.as_str());
            program.line("one[0] = value;");
            let mut text3 = String::from_str("two[0] = value + ");
            let literal4 = lit(ty, 1);
            text3.append(literal4.as_str());
            text3.append(";");
            program.line(text3.as_str());
            let mut text5 = String::from_str(c);
            text5.append(" read = one[0];");
            program.line(text5.as_str());
            program.blank();
            assert(program.top_lines() =~~= back_top(ty, shape));
            assert(program.body_lines() =~~= back_body(ty, shape));
            assert(program.expected_values() =~= back_expected(ty, shape));
            assert(program.include_lines() =~~= back_includes(ty, shape));
        },
        WalkBack::SkipOtherIndex => {
            program.input(ty, "value", 41);
            program.input(Ty::I32, "flag", 1);
            program.blank();
            let mut text1 = String::from_str(c);
            text1.append(" one[2];");
            program.line(text1.as_str());
            program.line("one[0] = value;");
            let mut text2 = String::from_str("one[1] = value + ");
            let literal3 = lit(ty, 1);
            text2.append(literal3.as_str());
            text2.append(";");
            program.line(text2.as_str());
            let mut text4 = String::from_str(c);
            text4.append(" read = one[0];");
            program.line(text4.as_str());
            program.blank();
            assert(program.top_lines() =~~= back_top(ty, shape));
            assert(program.body_lines() =~~= back_body(ty, shape));
            assert(program.expected_values() =~= back_expected(ty, shape));
            assert(program.include_lines() =~~= back_includes(ty, shape));
        },
        WalkBack::StoppedByCall => {
            program.input(ty, "value", 41);
            program.input(Ty::I32, "flag", 1);
            program.blank();
            let mut text1 = String::from_str("static void put(");
            text1.append(c);
            text1.append(" *at, ");
            text1.append(c);
            text1.append(" v) {");
            program.top(text1.as_str());
            program.top("    *at = v;");
            program.top("}");
            let mut text2 = String::from_str(c);
            text2.append(" one[2];");
            program.line(text2.as_str());
            program.line("one[0] = value;");
            let mut text3 = String::from_str("put(&one[0], value + ");
            let literal4 = lit(ty, 1);
            text3.append(literal4.as_str());
            text3.append(");");
            program.line(text3.as_str());
            let mut text5 = String::from_str(c);
            text5.append(" read = one[0];");
            program.line(text5.as_str());
            program.blank();
            assert(program.top_lines() =~~= back_top(ty, shape));
            assert(program.body_lines() =~~= back_body(ty, shape));
            assert(program.expected_values() =~= back_expected(ty, shape));
            assert(program.include_lines() =~~= back_includes(ty, shape));
        },
        _ => {},
    }
}

/// Writes some of the shapes.
#[verifier::rlimit(100)]
fn back_write_1(program: &mut Program, ty: Ty, shape: WalkBack)
    requires
        old(program).top_lines() == Seq::<Seq<char>>::empty(),
        old(program).body_lines() == Seq::<Seq<char>>::empty(),
        old(program).expected_values() == Seq::<int>::empty(),
        old(program).include_lines() == Seq::<Seq<char>>::empty(),
        !old(program).sinks(),
        shape == WalkBack::StoppedByMayAlias || shape == WalkBack::MergeAtJoin || shape == WalkBack::OverALoop,
    ensures
        final(program).top_lines() == back_top(ty, shape),
        final(program).body_lines() == back_body(ty, shape),
        final(program).expected_values() == back_expected(ty, shape),
        final(program).include_lines() == back_includes(ty, shape),
        !final(program).sinks(),
        final(program).purpose_text() == old(program).purpose_text(),
{
    let c = ty.c_name();
    match shape {
        WalkBack::StoppedByMayAlias => {
            program.input(ty, "value", 41);
            program.input(Ty::I32, "flag", 1);
            program.blank();
            let mut text1 = String::from_str(c);
            text1.append(" one[2];");
            program.line(text1.as_str());
            let mut text2 = String::from_str(c);
            text2.append(" two[2];");
            program.line(text2.as_str());
            program.line("one[0] = value;");
            program.line("two[0] = value;");
            let mut text3 = String::from_str(c);
            text3.append(" *at = flag ? &one[0] : &two[0];");
            program.line(text3.as_str());
            let mut text4 = String::from_str("*at = value + ");
            let literal5 = lit(ty, 1);
            text4.append(literal5.as_str());
            text4.append(";");
            program.line(text4.as_str());
            let mut text6 = String::from_str(c);
            text6.append(" read = one[0];");
            program.line(text6.as_str());
            program.blank();
            assert(program.top_lines() =~~= back_top(ty, shape));
            assert(program.body_lines() =~~= back_body(ty, shape));
            assert(program.expected_values() =~= back_expected(ty, shape));
            assert(program.include_lines() =~~= back_includes(ty, shape));
        },
        WalkBack::MergeAtJoin => {
            program.input(ty, "value", 41);
            program.input(Ty::I32, "flag", 1);
            program.blank();
            let mut text1 = String::from_str(c);
            text1.append(" one[2];");
            program.line(text1.as_str());
            program.line("if (flag) {");
            let mut text2 = String::from_str("one[0] = value + ");
            let literal3 = lit(ty, 1);
            text2.append(literal3.as_str());
            text2.append(";");
            program.line_at(1, text2.as_str());
            program.line("} else {");
            program.line_at(1, "one[0] = value;");
            program.line("}");
            let mut text4 = String::from_str(c);
            text4.append(" read = one[0];");
            program.line(text4.as_str());
            program.blank();
            assert(program.top_lines() =~~= back_top(ty, shape));
            assert(program.body_lines() =~~= back_body(ty, shape));
            assert(program.expected_values() =~= back_expected(ty, shape));
            assert(program.include_lines() =~~= back_includes(ty, shape));
        },
        WalkBack::OverALoop => {
            program.input(ty, "value", 41);
            program.input(Ty::I32, "flag", 1);
            program.blank();
            let mut text1 = String::from_str(c);
            text1.append(" one[2];");
            program.line(text1.as_str());
            let mut text2 = String::from_str(c);
            text2.append(" two[2];");
            program.line(text2.as_str());
            program.line("one[0] = value;");
            program.line("for (int i = 0; i < 4; i++) {");
            let mut text3 = String::from_str("two[i & 1] = (");
            text3.append(c);
            text3.append(")i;");
            program.line_at(1, text3.as_str());
            program.line("}");
            let mut text4 = String::from_str(c);
            text4.append(" read = one[0];");
            program.line(text4.as_str());
            program.blank();
            assert(program.top_lines() =~~= back_top(ty, shape));
            assert(program.body_lines() =~~= back_body(ty, shape));
            assert(program.expected_values() =~= back_expected(ty, shape));
            assert(program.include_lines() =~~= back_includes(ty, shape));
        },
        _ => {},
    }
}

/// Writes some of the shapes.
#[verifier::rlimit(100)]
fn back_write_2(program: &mut Program, ty: Ty, shape: WalkBack)
    requires
        old(program).top_lines() == Seq::<Seq<char>>::empty(),
        old(program).body_lines() == Seq::<Seq<char>>::empty(),
        old(program).expected_values() == Seq::<int>::empty(),
        old(program).include_lines() == Seq::<Seq<char>>::empty(),
        !old(program).sinks(),
        shape == WalkBack::ClobberedInALoop,
    ensures
        final(program).top_lines() == back_top(ty, shape),
        final(program).body_lines() == back_body(ty, shape),
        final(program).expected_values() == back_expected(ty, shape),
        final(program).include_lines() == back_includes(ty, shape),
        !final(program).sinks(),
        final(program).purpose_text() == old(program).purpose_text(),
{
    let c = ty.c_name();
    match shape {
        WalkBack::ClobberedInALoop => {
            program.input(ty, "value", 41);
            program.input(Ty::I32, "flag", 1);
            program.blank();
            let mut text1 = String::from_str(c);
            text1.append(" one[2];");
            program.line(text1.as_str());
            program.line("one[0] = value;");
            program.line("for (int i = 0; i < 1; i++) {");
            let mut text2 = String::from_str("one[0] = one[0] + ");
            let literal3 = lit(ty, 1);
            text2.append(literal3.as_str());
            text2.append(";");
            program.line_at(1, text2.as_str());
            program.line("}");
            let mut text4 = String::from_str(c);
            text4.append(" read = one[0];");
            program.line(text4.as_str());
            program.blank();
            assert(program.top_lines() =~~= back_top(ty, shape));
            assert(program.body_lines() =~~= back_body(ty, shape));
            assert(program.expected_values() =~= back_expected(ty, shape));
            assert(program.include_lines() =~~= back_includes(ty, shape));
        },
        _ => {},
    }
}

/// Writes a shape.
fn back_write(program: &mut Program, ty: Ty, shape: WalkBack)
    requires
        old(program).top_lines() == Seq::<Seq<char>>::empty(),
        old(program).body_lines() == Seq::<Seq<char>>::empty(),
        old(program).expected_values() == Seq::<int>::empty(),
        old(program).include_lines() == Seq::<Seq<char>>::empty(),
        !old(program).sinks(),
    ensures
        final(program).top_lines() == back_top(ty, shape),
        final(program).body_lines() == back_body(ty, shape),
        final(program).expected_values() == back_expected(ty, shape),
        final(program).include_lines() == back_includes(ty, shape),
        !final(program).sinks(),
        final(program).purpose_text() == old(program).purpose_text(),
{
    match shape {
        WalkBack::SkipOtherObject | WalkBack::SkipOtherIndex | WalkBack::StoppedByCall => {
            back_write_0(program, ty, shape);
        },
        WalkBack::StoppedByMayAlias | WalkBack::MergeAtJoin | WalkBack::OverALoop => {
            back_write_1(program, ty, shape);
        },
        WalkBack::ClobberedInALoop => {
            back_write_2(program, ty, shape);
        },
    }
}

/// Whether a write after the first store reaches the load, so it reads forty two.
pub open spec fn back_reaches(shape: WalkBack) -> bool {
    shape == WalkBack::StoppedByCall || shape == WalkBack::StoppedByMayAlias || shape == WalkBack::MergeAtJoin || shape == WalkBack::ClobberedInALoop
}

/// Whether a case is the back program for its point, whole.
pub open spec fn is_back_case(c: Case, ty: Ty, shape: WalkBack) -> bool {
    &&& c.axes_text() == seq![("type"@, ty.name_text()), ("shape"@, shape.name_text())]
    &&& c.tags_text() == Seq::<Seq<char>>::empty()
    &&& c.program.purpose_text() == "the walk back from a "@ + ty.c_text() + " load, "@ + shape.name_text()
    &&& c.program.include_lines() == back_includes(ty, shape)
    &&& c.program.top_lines() == back_top(ty, shape)
    &&& c.program.body_lines() == back_body(ty, shape).push(print_line(1, ty.promotion(), "read"@))
    &&& c.program.expected_values() == seq![if back_reaches(shape) { c_value(Op::Add, ty, 41, 1)->0 } else { 41 }]
    &&& !c.program.sinks()
}

/// The back program for one point.
fn back_case(ty: Ty, shape: WalkBack) -> (r: Case)
    requires
        wide_types().contains(ty),
    ensures
        is_back_case(r, ty, shape),
{
    let mut purpose = String::new();
    purpose.append("the walk back from a ");
    purpose.append(ty.c_name());
    purpose.append(" load, ");
    purpose.append(shape.name());
    assert(purpose@ =~= "the walk back from a "@ + ty.c_text() + " load, "@ + shape.name_text());
    let mut program = Program::new(purpose.as_str());
    back_write(&mut program, ty, shape);
    let added = eval(Op::Add, ty, 41, 1);
    assert(added is Some);
    let next = added.unwrap();
    let value: i128 = if shape == WalkBack::StoppedByCall || shape == WalkBack::StoppedByMayAlias || shape == WalkBack::MergeAtJoin || shape == WalkBack::ClobberedInALoop {
        next
    } else {
        41
    };
    program.check(ty.promoted(), "read", value);
    let axes = vec![axis("type", ty.name()), axis("shape", shape.name())];
    let r = Case { axes, tags: tags_for(false), program };
    assert(r.axes_text() =~= seq![("type"@, ty.name_text()), ("shape"@, shape.name_text())]);
    assert(r.tags_text() =~= Seq::<Seq<char>>::empty());
    assert(r.program.expected_values() =~= seq![if back_reaches(shape) { c_value(Op::Add, ty, 41, 1)->0 } else { 41 }]);
    r
}

/// The walk back from a load through the writes before it, on every type at the width of a
/// register.
///
/// It may skip another object and another index and a loop that writes elsewhere; it must stop
/// at a call handed the address, at a store through a pointer that may be the same place, at a
/// join where two stores answer, and at a loop that writes the place. A walk past a write that
/// mattered reads forty one where the program prints forty two.
pub fn memory_ssa() -> (r: Vec<Case>)
    ensures
        r@.len() == 28,
        forall|k: int| 0 <= k < 28 ==> is_back_case(#[trigger] r@[k], wide_types()[k / 7], walk_backs_list()[k % 7]),
{
    let types = wide();
    let shape_all = walk_backs_array();
    let mut out: Vec<Case> = Vec::new();
    let mut k: usize = 0;
    while k < 28
        invariant
            k <= 28,
            types@ == wide_types(),
            shape_all@ == walk_backs_list(),
            out@.len() == k,
            forall|i: int| 0 <= i < k ==> is_back_case(#[trigger] out@[i], wide_types()[i / 7], walk_backs_list()[i % 7]),
        decreases 28 - k,
    {
        out.push(back_case(types[k / 7], shape_all[k % 7]));
        k += 1;
    }
    out
}

/// Every range program, whatever its type, prints one for every question it asks.
pub proof fn lemma_range_answers_are_yes(c: Case, ty: Ty)
    requires
        is_range_case(c, ty),
    ensures
        forall|i: int| 0 <= i < c.program.expected_values().len() ==> c.program.expected_values()[i] == 1,
{
}

/// Every place a range comes from prints one for every question it asks.
pub proof fn lemma_range_places_answer_yes(c: Case, shape: RangeSource)
    requires
        is_place_case(c, shape),
    ensures
        forall|i: int| 0 <= i < c.program.expected_values().len() ==> c.program.expected_values()[i] == 1,
{
}

/// The walk back from a load prints the old value or the new one, forty one or forty two, on
/// every type at the width of a register.
pub proof fn lemma_walk_back_reads_a_written_value(c: Case, ty: Ty, shape: WalkBack)
    requires
        is_back_case(c, ty, shape),
        wide_types().contains(ty),
    ensures
        c.program.expected_values() == seq![41int] || c.program.expected_values() == seq![42int],
{
    let p = ty.promotion();
    assert(p == ty);
    assert(ty.contains(42));
}

/// The facets that need the whole function that this library builds, one batch per facet in
/// the order the phase walks them.
#[verifier::rlimit(100)]
pub fn generate() -> (r: Vec<Batch>)
    ensures
        r@.len() == 12,
        r@[0] is Single,
        r@[0]->cases@.len() == 16,
        forall|k: int| 0 <= k < 16 ==> is_repeat_case(#[trigger] r@[0]->cases@[k], wide_types()[k / 4], repeat_shapes_list()[k % 4]),
        r@[1] is Single,
        r@[1]->cases@.len() == 16,
        forall|k: int|
            0 <= k < 16 ==> is_forward_case(
                #[trigger] r@[1]->cases@[k],
                wide_types()[k / 4],
                forward_shapes_list()[k % 4],
            ),
        r@[2] is Single,
        r@[2]->cases@.len() == 24,
        forall|k: int|
            0 <= k < 24 ==> is_walk_case(
                #[trigger] r@[2]->cases@[k],
                wide_types()[k / 6],
                walk_shapes_list()[k % 6],
            ),
        r@[3] is Single,
        r@[3]->cases@.len() == 12,
        forall|k: int| 0 <= k < 12 ==> is_moved_case(#[trigger] r@[3]->cases@[k], wide_types()[k / 3], motion_directions_list()[k % 3]),
        r@[4] is Single,
        r@[4]->cases@.len() == 12,
        forall|k: int|
            0 <= k < 12 ==> is_copy_case(#[trigger] r@[4]->cases@[k], wide_types()[k / 3], seq![2int, 8, 32][k % 3]),
        r@[5] is Single,
        r@[5]->cases@.len() == 16,
        forall|k: int| 0 <= k < 16 ==> is_known_case(#[trigger] r@[5]->cases@[k], wide_types()[k / 4], known_shapes_list()[k % 4]),
        r@[6] is Single,
        r@[6]->cases@.len() == 4,
        forall|k: int| 0 <= k < 4 ==> is_range_case(#[trigger] r@[6]->cases@[k], wide_types()[k]),
        r@[7] is Single,
        r@[7]->cases@.len() == 9,
        forall|k: int| 0 <= k < 9 ==> is_place_case(#[trigger] r@[7]->cases@[k], range_sources_list()[k]),
        r@[8] is Single,
        r@[8]->cases@.len() == 16,
        forall|k: int| 0 <= k < 16 ==> is_pair_case(#[trigger] r@[8]->cases@[k], wide_types()[k / 4], reference_pairs_list()[k % 4]),
        r@[9] is Single,
        r@[9]->cases@.len() == 20,
        forall|k: int| 0 <= k < 20 ==> is_layer_case(#[trigger] r@[9]->cases@[k], wide_types()[k / 5], alias_layers_list_list()[k % 5]),
        r@[10] is Single,
        r@[10]->cases@.len() == 28,
        forall|k: int| 0 <= k < 28 ==> is_back_case(#[trigger] r@[10]->cases@[k], wide_types()[k / 7], walk_backs_list()[k % 7]),
        r@[11] is Single,
        r@[11]->cases@.len() == 20,
        forall|k: int| 0 <= k < 20 ==> is_split_case(#[trigger] r@[11]->cases@[k], wide_types()[k / 5], aggregates_list()[k % 5]),
{
    let mut out: Vec<Batch> = Vec::new();
    out.push(Batch::Single { cases: common_subexpr() });
    out.push(Batch::Single { cases: load_forwarding() });
    out.push(Batch::Single { cases: load_forwarding_walk() });
    out.push(Batch::Single { cases: code_motion() });
    out.push(Batch::Single { cases: copy_propagation() });
    out.push(Batch::Single { cases: constant_propagation() });
    out.push(Batch::Single { cases: value_range() });
    out.push(Batch::Single { cases: value_range_places() });
    out.push(Batch::Single { cases: alias_analysis() });
    out.push(Batch::Single { cases: alias_layers() });
    out.push(Batch::Single { cases: memory_ssa() });
    out.push(Batch::Single { cases: scalar_replacement() });
    out
}

} // verus!
