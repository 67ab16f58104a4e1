//! Code generation below the machine independent IR: instruction selection, how many values
//! are live at once, the order instructions issue in, branch layout, conditional moves and
//! the calling convention.
//!
//! These are the cases where the size and the time say more than the answer does, and every
//! one of them still prints a number a wrong lowering changes.

use vstd::prelude::*;
use vstd::string::*;
use crate::emit::{Program, include_line, input_global, input_read, indent, print_line};
use crate::lang::{Ty, wide, wide_types, lemma_wrap_is_contained};
use crate::facets::{Case, axis, tags_for, lit, lit_text, ints};
use crate::text::{decimal, push_decimal, decimal_string};

verus! {

/// A branch in a hot loop that almost always goes one way.
#[derive(Clone, Copy, Debug, PartialEq, Eq, Structural)]
pub enum LayoutShape {
    RareThen,
    RareElse,
    EarlyExit,
    ChainOfTests,
}

impl LayoutShape {
    /// The axis value.
    pub open spec fn name_text(self) -> Seq<char> {
        match self {
            LayoutShape::RareThen => "rare-then"@,
            LayoutShape::RareElse => "rare-else"@,
            LayoutShape::EarlyExit => "early-exit"@,
            LayoutShape::ChainOfTests => "chain-of-tests"@,
        }
    }

    /// The axis value.
    pub fn name(self) -> (r: &'static str)
        ensures
            r@ == self.name_text(),
    {
        match self {
            LayoutShape::RareThen => "rare-then",
            LayoutShape::RareElse => "rare-else",
            LayoutShape::EarlyExit => "early-exit",
            LayoutShape::ChainOfTests => "chain-of-tests",
        }
    }
}

/// The shapes in the order the facet walks them.
pub open spec fn layout_shapes_list() -> Seq<LayoutShape> {
    seq![
        LayoutShape::RareThen,
        LayoutShape::RareElse,
        LayoutShape::EarlyExit,
        LayoutShape::ChainOfTests,
    ]
}

/// The shapes in the order the facet walks them.
fn layout_shapes_array() -> (r: Vec<LayoutShape>)
    ensures
        r@ == layout_shapes_list(),
{
    let r = vec![
        LayoutShape::RareThen,
        LayoutShape::RareElse,
        LayoutShape::EarlyExit,
        LayoutShape::ChainOfTests,
    ];
    assert(r@ =~= layout_shapes_list());
    r
}

/// The lines before `main` of each shape.
pub open spec fn cold_top(shape: LayoutShape) -> Seq<Seq<char>> {
    match shape {
        LayoutShape::RareThen => seq![
            input_global(Ty::I32, "rare"@, 0int),
        ],
        LayoutShape::RareElse => seq![
            input_global(Ty::I32, "rare"@, 0int),
        ],
        LayoutShape::EarlyExit => seq![
            input_global(Ty::I32, "rare"@, 0int),
        ],
        LayoutShape::ChainOfTests => seq![
            input_global(Ty::I32, "rare"@, 0int),
        ],
    }
}

/// The statements of `main` of each shape.
pub open spec fn cold_body(shape: LayoutShape) -> Seq<Seq<char>> {
    match shape {
        LayoutShape::RareThen => seq![
            input_read(Ty::I32, "rare"@),
            Seq::<char>::empty(),
            indent(1) + "long long total = 0;"@,
            indent(1) + "for (int i = 0; i < 1000; i++) {"@,
            indent(2) + "if (rare) {"@,
            indent(3) + "total += 1000;"@,
            indent(2) + "} else {"@,
            indent(3) + "total += 1;"@,
            indent(2) + "}"@,
            indent(1) + "}"@,
            Seq::<char>::empty(),
            print_line(1, Ty::I64, "total"@),
        ],
        LayoutShape::RareElse => seq![
            input_read(Ty::I32, "rare"@),
            Seq::<char>::empty(),
            indent(1) + "long long total = 0;"@,
            indent(1) + "for (int i = 0; i < 1000; i++) {"@,
            indent(2) + "if (!rare) {"@,
            indent(3) + "total += 1;"@,
            indent(2) + "} else {"@,
            indent(3) + "total += 1000;"@,
            indent(2) + "}"@,
            indent(1) + "}"@,
            Seq::<char>::empty(),
            print_line(1, Ty::I64, "total"@),
        ],
        LayoutShape::EarlyExit => seq![
            input_read(Ty::I32, "rare"@),
            Seq::<char>::empty(),
            indent(1) + "long long total = 0;"@,
            indent(1) + "for (int i = 0; i < 1000; i++) {"@,
            indent(2) + "if (rare) {"@,
            indent(3) + "break;"@,
            indent(2) + "}"@,
            indent(2) + "total += 1;"@,
            indent(1) + "}"@,
            Seq::<char>::empty(),
            print_line(1, Ty::I64, "total"@),
        ],
        LayoutShape::ChainOfTests => seq![
            input_read(Ty::I32, "rare"@),
            Seq::<char>::empty(),
            indent(1) + "long long total = 0;"@,
            indent(1) + "for (int i = 0; i < 1000; i++) {"@,
            indent(2) + "if (rare == 1) {"@,
            indent(3) + "total += 1000;"@,
            indent(2) + "} else if (rare == 2) {"@,
            indent(3) + "total += 2000;"@,
            indent(2) + "} else if (rare == 3) {"@,
            indent(3) + "total += 3000;"@,
            indent(2) + "} else {"@,
            indent(3) + "total += 1;"@,
            indent(2) + "}"@,
            indent(1) + "}"@,
            Seq::<char>::empty(),
            print_line(1, Ty::I64, "total"@),
        ],
    }
}

/// The headers of each shape.
pub open spec fn cold_includes(shape: LayoutShape) -> Seq<Seq<char>> {
    match shape {
        LayoutShape::RareThen => Seq::empty(),
        LayoutShape::RareElse => Seq::empty(),
        LayoutShape::EarlyExit => Seq::empty(),
        LayoutShape::ChainOfTests => Seq::empty(),
    }
}

/// What the program prints of each shape.
pub open spec fn cold_expected(shape: LayoutShape) -> Seq<int> {
    match shape {
        LayoutShape::RareThen => seq![
            1000int,
        ],
        LayoutShape::RareElse => seq![
            1000int,
        ],
        LayoutShape::EarlyExit => seq![
            1000int,
        ],
        LayoutShape::ChainOfTests => seq![
            1000int,
        ],
    }
}

/// Whether the shape asks for the volatile sink.
pub open spec fn cold_sinks(shape: LayoutShape) -> bool {
    match shape {
        LayoutShape::RareThen => false,
        LayoutShape::RareElse => false,
        LayoutShape::EarlyExit => false,
        LayoutShape::ChainOfTests => false,
    }
}

/// Writes some of the shapes.
#[verifier::rlimit(100)]
fn cold_write_0(program: &mut Program, shape: LayoutShape)
    requires
        old(program).top_lines() == Seq::<Seq<char>>::empty(),
        old(program).body_lines() == Seq::<Seq<char>>::empty(),
        old(program).expected_values() == Seq::<int>::empty(),
        old(program).include_lines() == Seq::<Seq<char>>::empty(),
        !old(program).sinks(),
        shape == LayoutShape::RareThen || shape == LayoutShape::RareElse || shape == LayoutShape::EarlyExit || shape == LayoutShape::ChainOfTests,
    ensures
        final(program).top_lines() == cold_top(shape),
        final(program).body_lines() == cold_body(shape),
        final(program).expected_values() == cold_expected(shape),
        final(program).include_lines() == cold_includes(shape),
        final(program).sinks() == cold_sinks(shape),
        final(program).purpose_text() == old(program).purpose_text(),
{
    match shape {
        LayoutShape::RareThen => {
            program.input(Ty::I32, "rare", 0);
            program.blank();
            program.line("long long total = 0;");
            program.line("for (int i = 0; i < 1000; i++) {");
            program.line_at(1, "if (rare) {");
            program.line_at(2, "total += 1000;");
            program.line_at(1, "} else {");
            program.line_at(2, "total += 1;");
            program.line_at(1, "}");
            program.line("}");
            program.blank();
            program.check(Ty::I64, "total", 1000);
            assert(program.top_lines() =~~= cold_top(shape));
            assert(program.body_lines() =~~= cold_body(shape));
            assert(program.expected_values() =~= cold_expected(shape));
            assert(program.include_lines() =~~= cold_includes(shape));
        },
        LayoutShape::RareElse => {
            program.input(Ty::I32, "rare", 0);
            program.blank();
            program.line("long long total = 0;");
            program.line("for (int i = 0; i < 1000; i++) {");
            program.line_at(1, "if (!rare) {");
            program.line_at(2, "total += 1;");
            program.line_at(1, "} else {");
            program.line_at(2, "total += 1000;");
            program.line_at(1, "}");
            program.line("}");
            program.blank();
            program.check(Ty::I64, "total", 1000);
            assert(program.top_lines() =~~= cold_top(shape));
            assert(program.body_lines() =~~= cold_body(shape));
            assert(program.expected_values() =~= cold_expected(shape));
            assert(program.include_lines() =~~= cold_includes(shape));
        },
        LayoutShape::EarlyExit => {
            program.input(Ty::I32, "rare", 0);
            program.blank();
            program.line("long long total = 0;");
            program.line("for (int i = 0; i < 1000; i++) {");
            program.line_at(1, "if (rare) {");
            program.line_at(2, "break;");
            program.line_at(1, "}");
            program.line_at(1, "total += 1;");
            program.line("}");
            program.blank();
            program.check(Ty::I64, "total", 1000);
            assert(program.top_lines() =~~= cold_top(shape));
            assert(program.body_lines() =~~= cold_body(shape));
            assert(program.expected_values() =~= cold_expected(shape));
            assert(program.include_lines() =~~= cold_includes(shape));
        },
        LayoutShape::ChainOfTests => {
            program.input(Ty::I32, "rare", 0);
            program.blank();
            program.line("long long total = 0;");
            program.line("for (int i = 0; i < 1000; i++) {");
            program.line_at(1, "if (rare == 1) {");
            program.line_at(2, "total += 1000;");
            program.line_at(1, "} else if (rare == 2) {");
            program.line_at(2, "total += 2000;");
            program.line_at(1, "} else if (rare == 3) {");
            program.line_at(2, "total += 3000;");
            program.line_at(1, "} else {");
            program.line_at(2, "total += 1;");
            program.line_at(1, "}");
            program.line("}");
            program.blank();
            program.check(Ty::I64, "total", 1000);
            assert(program.top_lines() =~~= cold_top(shape));
            assert(program.body_lines() =~~= cold_body(shape));
            assert(program.expected_values() =~= cold_expected(shape));
            assert(program.include_lines() =~~= cold_includes(shape));
        },
    }
}

/// Writes a shape.
fn cold_write(program: &mut Program, shape: LayoutShape)
    requires
        old(program).top_lines() == Seq::<Seq<char>>::empty(),
        old(program).body_lines() == Seq::<Seq<char>>::empty(),
        old(program).expected_values() == Seq::<int>::empty(),
        old(program).include_lines() == Seq::<Seq<char>>::empty(),
        !old(program).sinks(),
    ensures
        final(program).top_lines() == cold_top(shape),
        final(program).body_lines() == cold_body(shape),
        final(program).expected_values() == cold_expected(shape),
        final(program).include_lines() == cold_includes(shape),
        final(program).sinks() == cold_sinks(shape),
        final(program).purpose_text() == old(program).purpose_text(),
{
    match shape {
        LayoutShape::RareThen | LayoutShape::RareElse | LayoutShape::EarlyExit | LayoutShape::ChainOfTests => {
            cold_write_0(program, shape);
        },
    }
}

/// Whether a case is the cold shape, whole.
pub open spec fn is_cold_case(c: Case, shape: LayoutShape) -> bool {
    &&& c.axes_text() == seq![("shape"@, shape.name_text())]
    &&& c.tags_text() == Seq::<Seq<char>>::empty()
    &&& c.program.purpose_text() == "a "@ + shape.name_text() + " branch inside a hot loop"@
    &&& c.program.include_lines() == cold_includes(shape)
    &&& c.program.top_lines() == cold_top(shape)
    &&& c.program.body_lines() == cold_body(shape)
    &&& c.program.expected_values() == cold_expected(shape)
    &&& c.program.sinks() == cold_sinks(shape)
}

/// One cold shape.
fn cold_case(shape: LayoutShape) -> (r: Case)
    ensures
        is_cold_case(r, shape),
{
    let mut purpose = String::new();
    purpose.append("a ");
    purpose.append(shape.name());
    purpose.append(" branch inside a hot loop");
    let mut program = Program::new(purpose.as_str());
    cold_write(&mut program, shape);
    let axes = vec![axis("shape", shape.name())];
    let r = Case { axes, tags: tags_for(false), program };
    assert(r.axes_text() =~= seq![("shape"@, shape.name_text())]);
    assert(r.tags_text() =~= Seq::<Seq<char>>::empty());
    r
}

/// Branches that almost always go one way, inside a loop of a thousand rounds.
///
/// The condition is read from a `volatile` global, so it cannot be folded, and its value is such
/// that one side runs every time and the other never does. A layout that lets the common path
/// fall through pays nothing; one that puts the cold block in the middle pays a taken branch
/// every time round.
pub fn block_layout() -> (r: Vec<Case>)
    ensures
        r@.len() == 4,
        forall|k: int| 0 <= k < 4 ==> is_cold_case(#[trigger] r@[k], layout_shapes_list()[k]),
{
    let shapes = layout_shapes_array();
    let mut out: Vec<Case> = Vec::new();
    let mut k: usize = 0;
    while k < 4
        invariant
            k <= 4,
            shapes@ == layout_shapes_list(),
            out@.len() == k,
            forall|i: int| 0 <= i < k ==> is_cold_case(#[trigger] out@[i], layout_shapes_list()[i]),
        decreases 4 - k,
    {
        out.push(cold_case(shapes[k]));
        k += 1;
    }
    out
}

/// A choice between two values on a condition no predictor can learn.
#[derive(Clone, Copy, Debug, PartialEq, Eq, Structural)]
pub enum SelectShape {
    Select,
    Min,
    ConditionalAdd,
    Abs,
    Clamp,
}

impl SelectShape {
    /// The axis value.
    pub open spec fn name_text(self) -> Seq<char> {
        match self {
            SelectShape::Select => "select"@,
            SelectShape::Min => "min"@,
            SelectShape::ConditionalAdd => "conditional-add"@,
            SelectShape::Abs => "abs"@,
            SelectShape::Clamp => "clamp"@,
        }
    }

    /// The axis value.
    pub fn name(self) -> (r: &'static str)
        ensures
            r@ == self.name_text(),
    {
        match self {
            SelectShape::Select => "select",
            SelectShape::Min => "min",
            SelectShape::ConditionalAdd => "conditional-add",
            SelectShape::Abs => "abs",
            SelectShape::Clamp => "clamp",
        }
    }
}

/// The shapes in the order the facet walks them.
pub open spec fn select_shapes_list() -> Seq<SelectShape> {
    seq![
        SelectShape::Select,
        SelectShape::Min,
        SelectShape::ConditionalAdd,
        SelectShape::Abs,
        SelectShape::Clamp,
    ]
}

/// The shapes in the order the facet walks them.
fn select_shapes_array() -> (r: Vec<SelectShape>)
    ensures
        r@ == select_shapes_list(),
{
    let r = vec![
        SelectShape::Select,
        SelectShape::Min,
        SelectShape::ConditionalAdd,
        SelectShape::Abs,
        SelectShape::Clamp,
    ];
    assert(r@ =~= select_shapes_list());
    r
}

/// The lines before `main` of each shape.
pub open spec fn select_top(ty: Ty, shape: SelectShape) -> Seq<Seq<char>> {
    match shape {
        SelectShape::Select => seq![
            input_global(ty, "a"@, 20int),
            input_global(ty, "b"@, 12int),
        ],
        SelectShape::Min => seq![
            input_global(ty, "a"@, 20int),
            input_global(ty, "b"@, 12int),
        ],
        SelectShape::ConditionalAdd => seq![
            input_global(ty, "a"@, 20int),
            input_global(ty, "b"@, 12int),
        ],
        SelectShape::Abs => seq![
            input_global(ty, "a"@, 20int),
            input_global(ty, "b"@, 12int),
        ],
        SelectShape::Clamp => seq![
            input_global(ty, "a"@, 20int),
            input_global(ty, "b"@, 12int),
        ],
    }
}

/// The statements of `main` of each shape.
pub open spec fn select_body(ty: Ty, shape: SelectShape) -> Seq<Seq<char>> {
    match shape {
        SelectShape::Select => seq![
            input_read(ty, "a"@),
            input_read(ty, "b"@),
            Seq::<char>::empty(),
            indent(1) + ty.c_text() + " total = 0;"@,
            indent(1) + "for (int i = 0; i < 1000; i++) {"@,
            indent(2) + "int odd = i & 1;"@,
            indent(2) + "total += odd ? a : b;"@,
            indent(1) + "}"@,
            Seq::<char>::empty(),
            print_line(1, ty.promotion(), "total"@),
        ],
        SelectShape::Min => seq![
            input_read(ty, "a"@),
            input_read(ty, "b"@),
            Seq::<char>::empty(),
            indent(1) + ty.c_text() + " total = 0;"@,
            indent(1) + "for (int i = 0; i < 1000; i++) {"@,
            indent(2) + "int odd = i & 1;"@,
            indent(2) + ty.c_text() + " left = odd ? a : b;"@,
            indent(2) + "total += left < b ? left : b;"@,
            indent(1) + "}"@,
            Seq::<char>::empty(),
            print_line(1, ty.promotion(), "total"@),
        ],
        SelectShape::ConditionalAdd => seq![
            input_read(ty, "a"@),
            input_read(ty, "b"@),
            Seq::<char>::empty(),
            indent(1) + ty.c_text() + " total = 0;"@,
            indent(1) + "for (int i = 0; i < 1000; i++) {"@,
            indent(2) + "int odd = i & 1;"@,
            indent(2) + "if (odd) {"@,
            indent(3) + "total += a;"@,
            indent(2) + "}"@,
            indent(1) + "}"@,
            Seq::<char>::empty(),
            print_line(1, ty.promotion(), "total"@),
        ],
        SelectShape::Abs => seq![
            input_read(ty, "a"@),
            input_read(ty, "b"@),
            Seq::<char>::empty(),
            indent(1) + ty.c_text() + " total = 0;"@,
            indent(1) + "for (int i = 0; i < 1000; i++) {"@,
            indent(2) + "int odd = i & 1;"@,
            indent(2) + ty.c_text() + " shifted = odd ? a : b;"@,
            indent(2) + "total += shifted > "@ + lit_text(ty, 0int) + " ? shifted : "@ + lit_text(ty, 0int) + " - shifted;"@,
            indent(1) + "}"@,
            Seq::<char>::empty(),
            print_line(1, ty.promotion(), "total"@),
        ],
        SelectShape::Clamp => seq![
            input_read(ty, "a"@),
            input_read(ty, "b"@),
            Seq::<char>::empty(),
            indent(1) + ty.c_text() + " total = 0;"@,
            indent(1) + "for (int i = 0; i < 1000; i++) {"@,
            indent(2) + "int odd = i & 1;"@,
            indent(2) + ty.c_text() + " raw = odd ? a : b;"@,
            indent(2) + ty.c_text() + " low = raw < "@ + lit_text(ty, 15int) + " ? "@ + lit_text(ty, 15int) + " : raw;"@,
            indent(2) + "total += low > "@ + lit_text(ty, 18int) + " ? "@ + lit_text(ty, 18int) + " : low;"@,
            indent(1) + "}"@,
            Seq::<char>::empty(),
            print_line(1, ty.promotion(), "total"@),
        ],
    }
}

/// The headers of each shape.
pub open spec fn select_includes(ty: Ty, shape: SelectShape) -> Seq<Seq<char>> {
    match shape {
        SelectShape::Select => Seq::empty(),
        SelectShape::Min => Seq::empty(),
        SelectShape::ConditionalAdd => Seq::empty(),
        SelectShape::Abs => Seq::empty(),
        SelectShape::Clamp => Seq::empty(),
    }
}

/// What the program prints of each shape.
pub open spec fn select_expected(ty: Ty, shape: SelectShape) -> Seq<int> {
    match shape {
        SelectShape::Select => seq![
            (500 * 20 + 500 * 12) as int,
        ],
        SelectShape::Min => seq![
            (1000 * 12) as int,
        ],
        SelectShape::ConditionalAdd => seq![
            (500 * 20) as int,
        ],
        SelectShape::Abs => seq![
            (500 * 20 + 500 * 12) as int,
        ],
        SelectShape::Clamp => seq![
            (500 * 18 + 500 * 15) as int,
        ],
    }
}

/// Whether the shape asks for the volatile sink.
pub open spec fn select_sinks(shape: SelectShape) -> bool {
    match shape {
        SelectShape::Select => false,
        SelectShape::Min => false,
        SelectShape::ConditionalAdd => false,
        SelectShape::Abs => false,
        SelectShape::Clamp => false,
    }
}

/// Writes some of the shapes.
#[verifier::rlimit(100)]
fn select_write_0(program: &mut Program, ty: Ty, shape: SelectShape)
    requires
        old(program).top_lines() == Seq::<Seq<char>>::empty(),
        old(program).body_lines() == Seq::<Seq<char>>::empty(),
        old(program).expected_values() == Seq::<int>::empty(),
        old(program).include_lines() == Seq::<Seq<char>>::empty(),
        !old(program).sinks(),
        shape == SelectShape::Select || shape == SelectShape::Min || shape == SelectShape::ConditionalAdd,
    ensures
        final(program).top_lines() == select_top(ty, shape),
        final(program).body_lines() == select_body(ty, shape),
        final(program).expected_values() == select_expected(ty, shape),
        final(program).include_lines() == select_includes(ty, shape),
        final(program).sinks() == select_sinks(shape),
        final(program).purpose_text() == old(program).purpose_text(),
{
    let c = ty.c_name();
    match shape {
        SelectShape::Select => {
            program.input(ty, "a", 20);
            program.input(ty, "b", 12);
            program.blank();
            let mut text1 = String::from_str(c);
            text1.append(" total = 0;");
            program.line(text1.as_str());
            program.line("for (int i = 0; i < 1000; i++) {");
            program.line_at(1, "int odd = i & 1;");
            program.line_at(1, "total += odd ? a : b;");
            program.line("}");
            program.blank();
            program.check(ty.promoted(), "total", 500 * 20 + 500 * 12);
            assert(program.top_lines() =~~= select_top(ty, shape));
            assert(program.body_lines() =~~= select_body(ty, shape));
            assert(program.expected_values() =~= select_expected(ty, shape));
            assert(program.include_lines() =~~= select_includes(ty, shape));
        },
        SelectShape::Min => {
            program.input(ty, "a", 20);
            program.input(ty, "b", 12);
            program.blank();
            let mut text1 = String::from_str(c);
            text1.append(" total = 0;");
            program.line(text1.as_str());
            program.line("for (int i = 0; i < 1000; i++) {");
            program.line_at(1, "int odd = i & 1;");
            let mut text2 = String::from_str(c);
            text2.append(" left = odd ? a : b;");
            program.line_at(1, text2.as_str());
            program.line_at(1, "total += left < b ? left : b;");
            program.line("}");
            program.blank();
            program.check(ty.promoted(), "total", 1000 * 12);
            assert(program.top_lines() =~~= select_top(ty, shape));
            assert(program.body_lines() =~~= select_body(ty, shape));
            assert(program.expected_values() =~= select_expected(ty, shape));
            assert(program.include_lines() =~~= select_includes(ty, shape));
        },
        SelectShape::ConditionalAdd => {
            program.input(ty, "a", 20);
            program.input(ty, "b", 12);
            program.blank();
            let mut text1 = String::from_str(c);
            text1.append(" total = 0;");
            program.line(text1.as_str());
            program.line("for (int i = 0; i < 1000; i++) {");
            program.line_at(1, "int odd = i & 1;");
            program.line_at(1, "if (odd) {");
            program.line_at(2, "total += a;");
            program.line_at(1, "}");
            program.line("}");
            program.blank();
            program.check(ty.promoted(), "total", 500 * 20);
            assert(program.top_lines() =~~= select_top(ty, shape));
            assert(program.body_lines() =~~= select_body(ty, shape));
            assert(program.expected_values() =~= select_expected(ty, shape));
            assert(program.include_lines() =~~= select_includes(ty, shape));
        },
        _ => {},
    }
}

/// Writes some of the shapes.
#[verifier::rlimit(100)]
fn select_write_1(program: &mut Program, ty: Ty, shape: SelectShape)
    requires
        old(program).top_lines() == Seq::<Seq<char>>::empty(),
        old(program).body_lines() == Seq::<Seq<char>>::empty(),
        old(program).expected_values() == Seq::<int>::empty(),
        old(program).include_lines() == Seq::<Seq<char>>::empty(),
        !old(program).sinks(),
        shape == SelectShape::Abs || shape == SelectShape::Clamp,
    ensures
        final(program).top_lines() == select_top(ty, shape),
        final(program).body_lines() == select_body(ty, shape),
        final(program).expected_values() == select_expected(ty, shape),
        final(program).include_lines() == select_includes(ty, shape),
        final(program).sinks() == select_sinks(shape),
        final(program).purpose_text() == old(program).purpose_text(),
{
    let c = ty.c_name();
    match shape {
        SelectShape::Abs => {
            program.input(ty, "a", 20);
            program.input(ty, "b", 12);
            program.blank();
            let mut text1 = String::from_str(c);
            text1.append(" total = 0;");
            program.line(text1.as_str());
            program.line("for (int i = 0; i < 1000; i++) {");
            program.line_at(1, "int odd = i & 1;");
            let mut text2 = String::from_str(c);
            text2.append(" shifted = odd ? a : b;");
            program.line_at(1, text2.as_str());
            let mut text3 = String::from_str("total += shifted > ");
            let literal4 = lit(ty, 0);
            text3.append(literal4.as_str());
            text3.append(" ? shifted : ");
            let literal5 = lit(ty, 0);
            text3.append(literal5.as_str());
            text3.append(" - shifted;");
            program.line_at(1, text3.as_str());
            program.line("}");
            program.blank();
            program.check(ty.promoted(), "total", 500 * 20 + 500 * 12);
            assert(program.top_lines() =~~= select_top(ty, shape));
            assert(program.body_lines() =~~= select_body(ty, shape));
            assert(program.expected_values() =~= select_expected(ty, shape));
            assert(program.include_lines() =~~= select_includes(ty, shape));
        },
        SelectShape::Clamp => {
            program.input(ty, "a", 20);
            program.input(ty, "b", 12);
            program.blank();
            let mut text1 = String::from_str(c);
            text1.append(" total = 0;");
            program.line(text1.as_str());
            program.line("for (int i = 0; i < 1000; i++) {");
            program.line_at(1, "int odd = i & 1;");
            let mut text2 = String::from_str(c);
            text2.append(" raw = odd ? a : b;");
            program.line_at(1, text2.as_str());
            let mut text3 = String::from_str(c);
            text3.append(" low = raw < ");
            let literal4 = lit(ty, 15);
            text3.append(literal4.as_str());
            text3.append(" ? ");
            let literal5 = lit(ty, 15);
            text3.append(literal5.as_str());
            text3.append(" : raw;");
            program.line_at(1, text3.as_str());
            let mut text6 = String::from_str("total += low > ");
            let literal7 = lit(ty, 18);
            text6.append(literal7.as_str());
            text6.append(" ? ");
            let literal8 = lit(ty, 18);
            text6.append(literal8.as_str());
            text6.append(" : low;");
            program.line_at(1, text6.as_str());
            program.line("}");
            program.blank();
            program.check(ty.promoted(), "total", 500 * 18 + 500 * 15);
            assert(program.top_lines() =~~= select_top(ty, shape));
            assert(program.body_lines() =~~= select_body(ty, shape));
            assert(program.expected_values() =~= select_expected(ty, shape));
            assert(program.include_lines() =~~= select_includes(ty, shape));
        },
        _ => {},
    }
}

/// Writes a shape.
fn select_write(program: &mut Program, ty: Ty, shape: SelectShape)
    requires
        old(program).top_lines() == Seq::<Seq<char>>::empty(),
        old(program).body_lines() == Seq::<Seq<char>>::empty(),
        old(program).expected_values() == Seq::<int>::empty(),
        old(program).include_lines() == Seq::<Seq<char>>::empty(),
        !old(program).sinks(),
    ensures
        final(program).top_lines() == select_top(ty, shape),
        final(program).body_lines() == select_body(ty, shape),
        final(program).expected_values() == select_expected(ty, shape),
        final(program).include_lines() == select_includes(ty, shape),
        final(program).sinks() == select_sinks(shape),
        final(program).purpose_text() == old(program).purpose_text(),
{
    match shape {
        SelectShape::Select | SelectShape::Min | SelectShape::ConditionalAdd => {
            select_write_0(program, ty, shape);
        },
        SelectShape::Abs | SelectShape::Clamp => {
            select_write_1(program, ty, shape);
        },
    }
}

/// Whether a case is the select shape at a type, whole.
pub open spec fn is_select_case(c: Case, ty: Ty, shape: SelectShape) -> bool {
    &&& c.axes_text() == seq![("type"@, ty.name_text()), ("shape"@, shape.name_text())]
    &&& c.tags_text() == Seq::<Seq<char>>::empty()
    &&& c.program.purpose_text() == "a "@ + shape.name_text() + " on "@ + ty.c_text() + " with an unpredictable condition"@
    &&& c.program.include_lines() == select_includes(ty, shape)
    &&& c.program.top_lines() == select_top(ty, shape)
    &&& c.program.body_lines() == select_body(ty, shape)
    &&& c.program.expected_values() == select_expected(ty, shape)
    &&& c.program.sinks() == select_sinks(shape)
}

/// One select shape at one type.
fn select_case(ty: Ty, shape: SelectShape) -> (r: Case)
    ensures
        is_select_case(r, ty, shape),
{
    let mut purpose = String::new();
    purpose.append("a ");
    purpose.append(shape.name());
    purpose.append(" on ");
    purpose.append(ty.c_name());
    purpose.append(" with an unpredictable condition");
    let mut program = Program::new(purpose.as_str());
    select_write(&mut program, ty, shape);
    let axes = vec![axis("type", ty.name()), axis("shape", shape.name())];
    let r = Case { axes, tags: tags_for(false), program };
    assert(r.axes_text() =~= seq![("type"@, ty.name_text()), ("shape"@, shape.name_text())]);
    assert(r.tags_text() =~= Seq::<Seq<char>>::empty());
    r
}

/// A choice on a condition that flips every iteration, on every type at the width of a register.
///
/// The condition is the low bit of the loop counter, so a branch predictor gets it wrong half
/// the time and a conditional move is the better code. A select, a minimum, a conditional
/// addition, an absolute value and a clamp, each over a thousand rounds; every total fits the
/// promoted type.
pub fn if_conversion() -> (r: Vec<Case>)
    ensures
        r@.len() == 20,
        forall|k: int|
            0 <= k < 20 ==> is_select_case(
                #[trigger] r@[k],
                wide_types()[k / 5],
                select_shapes_list()[k % 5],
            ),
{
    let types = wide();
    let shapes = select_shapes_array();
    let mut out: Vec<Case> = Vec::new();
    let mut k: usize = 0;
    while k < 20
        invariant
            k <= 20,
            types@ == wide_types(),
            shapes@ == select_shapes_list(),
            out@.len() == k,
            forall|i: int|
                0 <= i < k ==> is_select_case(
                    #[trigger] out@[i],
                    wide_types()[i / 5],
                    select_shapes_list()[i % 5],
                ),
        decreases 20 - k,
    {
        out.push(select_case(types[k / 5], shapes[k % 5]));
        k += 1;
    }
    out
}

/// How a loop touches memory at an index nothing can work out ahead of time.
#[derive(Clone, Copy, Debug, PartialEq, Eq, Structural)]
pub enum AccessShape {
    ReadAfterWrite,
    WriteAfterRead,
    TwoWrites,
    ReadOnly,
}

impl AccessShape {
    /// The axis value.
    pub open spec fn name_text(self) -> Seq<char> {
        match self {
            AccessShape::ReadAfterWrite => "read-after-write"@,
            AccessShape::WriteAfterRead => "write-after-read"@,
            AccessShape::TwoWrites => "two-writes"@,
            AccessShape::ReadOnly => "read-only"@,
        }
    }

    /// The axis value.
    pub fn name(self) -> (r: &'static str)
        ensures
            r@ == self.name_text(),
    {
        match self {
            AccessShape::ReadAfterWrite => "read-after-write",
            AccessShape::WriteAfterRead => "write-after-read",
            AccessShape::TwoWrites => "two-writes",
            AccessShape::ReadOnly => "read-only",
        }
    }
}

/// The shapes in the order the facet walks them.
pub open spec fn access_shapes_list() -> Seq<AccessShape> {
    seq![
        AccessShape::ReadAfterWrite,
        AccessShape::WriteAfterRead,
        AccessShape::TwoWrites,
        AccessShape::ReadOnly,
    ]
}

/// The shapes in the order the facet walks them.
fn access_shapes_array() -> (r: Vec<AccessShape>)
    ensures
        r@ == access_shapes_list(),
{
    let r = vec![
        AccessShape::ReadAfterWrite,
        AccessShape::WriteAfterRead,
        AccessShape::TwoWrites,
        AccessShape::ReadOnly,
    ];
    assert(r@ =~= access_shapes_list());
    r
}

/// The lines before `main` of each shape.
pub open spec fn access_top(ty: Ty, shape: AccessShape) -> Seq<Seq<char>> {
    match shape {
        AccessShape::ReadAfterWrite => seq![
            input_global(ty, "seed"@, 1int),
            input_global(Ty::I32, "start"@, 0int),
        ],
        AccessShape::WriteAfterRead => seq![
            input_global(ty, "seed"@, 1int),
            input_global(Ty::I32, "start"@, 0int),
        ],
        AccessShape::TwoWrites => seq![
            input_global(ty, "seed"@, 1int),
            input_global(Ty::I32, "start"@, 0int),
            input_global(Ty::I32, "gap"@, 0int),
        ],
        AccessShape::ReadOnly => seq![
            input_global(ty, "seed"@, 1int),
            input_global(Ty::I32, "start"@, 0int),
        ],
    }
}

/// The statements of `main` of each shape.
pub open spec fn access_body(ty: Ty, shape: AccessShape) -> Seq<Seq<char>> {
    match shape {
        AccessShape::ReadAfterWrite => seq![
            input_read(ty, "seed"@),
            input_read(Ty::I32, "start"@),
            Seq::<char>::empty(),
            indent(1) + ty.c_text() + " buffer["@ + "16"@ + "];"@,
            indent(1) + "for (int i = 0; i < "@ + "16"@ + "; i++) {"@,
            indent(2) + "buffer[i] = seed + ("@ + ty.c_text() + ")i;"@,
            indent(1) + "}"@,
            indent(1) + ty.c_text() + " total = 0;"@,
            indent(1) + "for (int i = 0; i < "@ + "64"@ + "; i++) {"@,
            indent(2) + "int at = (i * 7 + start) & "@ + "15"@ + ";"@,
            indent(2) + "buffer[at] = buffer[at] * "@ + lit_text(ty, 3int) + " + "@ + lit_text(ty, 1int) + ";"@,
            indent(2) + "total = total * "@ + lit_text(ty, 5int) + " + buffer[at];"@,
            indent(1) + "}"@,
            Seq::<char>::empty(),
        ],
        AccessShape::WriteAfterRead => seq![
            input_read(ty, "seed"@),
            input_read(Ty::I32, "start"@),
            Seq::<char>::empty(),
            indent(1) + ty.c_text() + " buffer["@ + "16"@ + "];"@,
            indent(1) + "for (int i = 0; i < "@ + "16"@ + "; i++) {"@,
            indent(2) + "buffer[i] = seed + ("@ + ty.c_text() + ")i;"@,
            indent(1) + "}"@,
            indent(1) + ty.c_text() + " total = 0;"@,
            indent(1) + "for (int i = 0; i < "@ + "64"@ + "; i++) {"@,
            indent(2) + "int at = (i * 7 + start) & "@ + "15"@ + ";"@,
            indent(2) + ty.c_text() + " seen = buffer[at];"@,
            indent(2) + "buffer[at] = seen * "@ + lit_text(ty, 3int) + " + "@ + lit_text(ty, 1int) + ";"@,
            indent(2) + "total = total * "@ + lit_text(ty, 5int) + " + seen;"@,
            indent(1) + "}"@,
            Seq::<char>::empty(),
        ],
        AccessShape::TwoWrites => seq![
            input_read(ty, "seed"@),
            input_read(Ty::I32, "start"@),
            input_read(Ty::I32, "gap"@),
            Seq::<char>::empty(),
            indent(1) + ty.c_text() + " buffer["@ + "16"@ + "];"@,
            indent(1) + "for (int i = 0; i < "@ + "16"@ + "; i++) {"@,
            indent(2) + "buffer[i] = seed + ("@ + ty.c_text() + ")i;"@,
            indent(1) + "}"@,
            indent(1) + ty.c_text() + " total = 0;"@,
            indent(1) + "for (int i = 0; i < "@ + "64"@ + "; i++) {"@,
            indent(2) + "int at = (i * 7 + start) & "@ + "15"@ + ";"@,
            indent(2) + "buffer[at] = total + "@ + lit_text(ty, 1int) + ";"@,
            indent(2) + "buffer[(at + gap) & "@ + "15"@ + "] = total + "@ + lit_text(ty, 2int) + ";"@,
            indent(2) + "total = total * "@ + lit_text(ty, 5int) + " + buffer[at];"@,
            indent(1) + "}"@,
            Seq::<char>::empty(),
        ],
        AccessShape::ReadOnly => seq![
            input_read(ty, "seed"@),
            input_read(Ty::I32, "start"@),
            Seq::<char>::empty(),
            indent(1) + ty.c_text() + " buffer["@ + "16"@ + "];"@,
            indent(1) + "for (int i = 0; i < "@ + "16"@ + "; i++) {"@,
            indent(2) + "buffer[i] = seed + ("@ + ty.c_text() + ")i;"@,
            indent(1) + "}"@,
            indent(1) + ty.c_text() + " total = 0;"@,
            indent(1) + "for (int i = 0; i < "@ + "64"@ + "; i++) {"@,
            indent(2) + "int at = (i * 7 + start) & "@ + "15"@ + ";"@,
            indent(2) + "total = total * "@ + lit_text(ty, 5int) + " + buffer[at] + buffer[(at + 3) & "@ + "15"@ + "];"@,
            indent(1) + "}"@,
            Seq::<char>::empty(),
        ],
    }
}

/// The headers of each shape.
pub open spec fn access_includes(ty: Ty, shape: AccessShape) -> Seq<Seq<char>> {
    match shape {
        AccessShape::ReadAfterWrite => Seq::empty(),
        AccessShape::WriteAfterRead => Seq::empty(),
        AccessShape::TwoWrites => Seq::empty(),
        AccessShape::ReadOnly => Seq::empty(),
    }
}

/// What the program prints of each shape.
pub open spec fn access_expected(ty: Ty, shape: AccessShape) -> Seq<int> {
    match shape {
        AccessShape::ReadAfterWrite => Seq::empty(),
        AccessShape::WriteAfterRead => Seq::empty(),
        AccessShape::TwoWrites => Seq::empty(),
        AccessShape::ReadOnly => Seq::empty(),
    }
}

/// Whether the shape asks for the volatile sink.
pub open spec fn access_sinks(shape: AccessShape) -> bool {
    match shape {
        AccessShape::ReadAfterWrite => false,
        AccessShape::WriteAfterRead => false,
        AccessShape::TwoWrites => false,
        AccessShape::ReadOnly => false,
    }
}

/// Writes some of the shapes.
#[verifier::rlimit(100)]
fn access_write_0(program: &mut Program, ty: Ty, shape: AccessShape)
    requires
        old(program).top_lines() == Seq::<Seq<char>>::empty(),
        old(program).body_lines() == Seq::<Seq<char>>::empty(),
        old(program).expected_values() == Seq::<int>::empty(),
        old(program).include_lines() == Seq::<Seq<char>>::empty(),
        !old(program).sinks(),
        shape == AccessShape::ReadAfterWrite,
    ensures
        final(program).top_lines() == access_top(ty, shape),
        final(program).body_lines() == access_body(ty, shape),
        final(program).expected_values() == access_expected(ty, shape),
        final(program).include_lines() == access_includes(ty, shape),
        final(program).sinks() == access_sinks(shape),
        final(program).purpose_text() == old(program).purpose_text(),
{
    let c = ty.c_name();
    match shape {
        AccessShape::ReadAfterWrite => {
            program.input(ty, "seed", 1);
            program.input(Ty::I32, "start", 0);
            program.blank();
            let mut text1 = String::from_str(c);
            text1.append(" buffer[");
            text1.append("16");
            text1.append("];");
            program.line(text1.as_str());
            let mut text2 = String::from_str("for (int i = 0; i < ");
            text2.append("16");
            text2.append("; i++) {");
            program.line(text2.as_str());
            let mut text3 = String::from_str("buffer[i] = seed + (");
            text3.append(c);
            text3.append(")i;");
            program.line_at(1, text3.as_str());
            program.line("}");
            let mut text4 = String::from_str(c);
            text4.append(" total = 0;");
            program.line(text4.as_str());
            let mut text5 = String::from_str("for (int i = 0; i < ");
            text5.append("64");
            text5.append("; i++) {");
            program.line(text5.as_str());
            let mut text6 = String::from_str("int at = (i * 7 + start) & ");
            text6.append("15");
            text6.append(";");
            program.line_at(1, text6.as_str());
            let mut text7 = String::from_str("buffer[at] = buffer[at] * ");
            let literal8 = lit(ty, 3);
            text7.append(literal8.as_str());
            text7.append(" + ");
            let literal9 = lit(ty, 1);
            text7.append(literal9.as_str());
            text7.append(";");
            program.line_at(1, text7.as_str());
            let mut text10 = String::from_str("total = total * ");
            let literal11 = lit(ty, 5);
            text10.append(literal11.as_str());
            text10.append(" + buffer[at];");
            program.line_at(1, text10.as_str());
            program.line("}");
            program.blank();
            assert(program.top_lines() =~~= access_top(ty, shape));
            assert(program.body_lines() =~~= access_body(ty, shape));
            assert(program.expected_values() =~= access_expected(ty, shape));
            assert(program.include_lines() =~~= access_includes(ty, shape));
        },
        _ => {},
    }
}

/// Writes some of the shapes.
#[verifier::rlimit(100)]
#[verifier::spinoff_prover]
fn access_write_1(program: &mut Program, ty: Ty, shape: AccessShape)
    requires
        old(program).top_lines() == Seq::<Seq<char>>::empty(),
        old(program).body_lines() == Seq::<Seq<char>>::empty(),
        old(program).expected_values() == Seq::<int>::empty(),
        old(program).include_lines() == Seq::<Seq<char>>::empty(),
        !old(program).sinks(),
        shape == AccessShape::WriteAfterRead,
    ensures
        final(program).top_lines() == access_top(ty, shape),
        final(program).body_lines() == access_body(ty, shape),
        final(program).expected_values() == access_expected(ty, shape),
        final(program).include_lines() == access_includes(ty, shape),
        final(program).sinks() == access_sinks(shape),
        final(program).purpose_text() == old(program).purpose_text(),
{
    let c = ty.c_name();
    match shape {
        AccessShape::WriteAfterRead => {
            program.input(ty, "seed", 1);
            program.input(Ty::I32, "start", 0);
            program.blank();
            let mut text1 = String::from_str(c);
            text1.append(" buffer[");
            text1.append("16");
            text1.append("];");
            program.line(text1.as_str());
            let mut text2 = String::from_str("for (int i = 0; i < ");
            text2.append("16");
            text2.append("; i++) {");
            program.line(text2.as_str());
            let mut text3 = String::from_str("buffer[i] = seed + (");
            text3.append(c);
            text3.append(")i;");
            program.line_at(1, text3.as_str());
            program.line("}");
            let mut text4 = String::from_str(c);
            text4.append(" total = 0;");
            program.line(text4.as_str());
            let mut text5 = String::from_str("for (int i = 0; i < ");
            text5.append("64");
            text5.append("; i++) {");
            program.line(text5.as_str());
            let mut text6 = String::from_str("int at = (i * 7 + start) & ");
            text6.append("15");
            text6.append(";");
            program.line_at(1, text6.as_str());
            let mut text7 = String::from_str(c);
            text7.append(" seen = buffer[at];");
            program.line_at(1, text7.as_str());
            let mut text8 = String::from_str("buffer[at] = seen * ");
            let literal9 = lit(ty, 3);
            text8.append(literal9.as_str());
            text8.append(" + ");
            let literal10 = lit(ty, 1);
            text8.append(literal10.as_str());
            text8.append(";");
            program.line_at(1, text8.as_str());
            let mut text11 = String::from_str("total = total * ");
            let literal12 = lit(ty, 5);
            text11.append(literal12.as_str());
            text11.append(" + seen;");
            program.line_at(1, text11.as_str());
            program.line("}");
            program.blank();
            assert(program.top_lines() =~~= access_top(ty, shape));
            assert(program.body_lines() =~~= access_body(ty, shape));
            assert(program.expected_values() =~= access_expected(ty, shape));
            assert(program.include_lines() =~~= access_includes(ty, shape));
        },
        _ => {},
    }
}

/// Writes some of the shapes.
#[verifier::rlimit(100)]
fn access_write_2(program: &mut Program, ty: Ty, shape: AccessShape)
    requires
        old(program).top_lines() == Seq::<Seq<char>>::empty(),
        old(program).body_lines() == Seq::<Seq<char>>::empty(),
        old(program).expected_values() == Seq::<int>::empty(),
        old(program).include_lines() == Seq::<Seq<char>>::empty(),
        !old(program).sinks(),
        shape == AccessShape::TwoWrites,
    ensures
        final(program).top_lines() == access_top(ty, shape),
        final(program).body_lines() == access_body(ty, shape),
        final(program).expected_values() == access_expected(ty, shape),
        final(program).include_lines() == access_includes(ty, shape),
        final(program).sinks() == access_sinks(shape),
        final(program).purpose_text() == old(program).purpose_text(),
{
    let c = ty.c_name();
    match shape {
        AccessShape::TwoWrites => {
            program.input(ty, "seed", 1);
            program.input(Ty::I32, "start", 0);
            program.input(Ty::I32, "gap", 0);
            program.blank();
            let mut text1 = String::from_str(c);
            text1.append(" buffer[");
            text1.append("16");
            text1.append("];");
            program.line(text1.as_str());
            let mut text2 = String::from_str("for (int i = 0; i < ");
            text2.append("16");
            text2.append("; i++) {");
            program.line(text2.as_str());
            let mut text3 = String::from_str("buffer[i] = seed + (");
            text3.append(c);
            text3.append(")i;");
            program.line_at(1, text3.as_str());
            program.line("}");
            let mut text4 = String::from_str(c);
            text4.append(" total = 0;");
            program.line(text4.as_str());
            let mut text5 = String::from_str("for (int i = 0; i < ");
            text5.append("64");
            text5.append("; i++) {");
            program.line(text5.as_str());
            let mut text6 = String::from_str("int at = (i * 7 + start) & ");
            text6.append("15");
            text6.append(";");
            program.line_at(1, text6.as_str());
            let mut text7 = String::from_str("buffer[at] = total + ");
            let literal8 = lit(ty, 1);
            text7.append(literal8.as_str());
            text7.append(";");
            program.line_at(1, text7.as_str());
            let mut text9 = String::from_str("buffer[(at + gap) & ");
            text9.append("15");
            text9.append("] = total + ");
            let literal10 = lit(ty, 2);
            text9.append(literal10.as_str());
            text9.append(";");
            program.line_at(1, text9.as_str());
            let mut text11 = String::from_str("total = total * ");
            let literal12 = lit(ty, 5);
            text11.append(literal12.as_str());
            text11.append(" + buffer[at];");
            program.line_at(1, text11.as_str());
            program.line("}");
            program.blank();
            assert(program.top_lines() =~~= access_top(ty, shape));
            assert(program.body_lines() =~~= access_body(ty, shape));
            assert(program.expected_values() =~= access_expected(ty, shape));
            assert(program.include_lines() =~~= access_includes(ty, shape));
        },
        _ => {},
    }
}

/// Writes some of the shapes.
#[verifier::rlimit(100)]
fn access_write_3(program: &mut Program, ty: Ty, shape: AccessShape)
    requires
        old(program).top_lines() == Seq::<Seq<char>>::empty(),
        old(program).body_lines() == Seq::<Seq<char>>::empty(),
        old(program).expected_values() == Seq::<int>::empty(),
        old(program).include_lines() == Seq::<Seq<char>>::empty(),
        !old(program).sinks(),
        shape == AccessShape::ReadOnly,
    ensures
        final(program).top_lines() == access_top(ty, shape),
        final(program).body_lines() == access_body(ty, shape),
        final(program).expected_values() == access_expected(ty, shape),
        final(program).include_lines() == access_includes(ty, shape),
        final(program).sinks() == access_sinks(shape),
        final(program).purpose_text() == old(program).purpose_text(),
{
    let c = ty.c_name();
    match shape {
        AccessShape::ReadOnly => {
            program.input(ty, "seed", 1);
            program.input(Ty::I32, "start", 0);
            program.blank();
            let mut text1 = String::from_str(c);
            text1.append(" buffer[");
            text1.append("16");
            text1.append("];");
            program.line(text1.as_str());
            let mut text2 = String::from_str("for (int i = 0; i < ");
            text2.append("16");
            text2.append("; i++) {");
            program.line(text2.as_str());
            let mut text3 = String::from_str("buffer[i] = seed + (");
            text3.append(c);
            text3.append(")i;");
            program.line_at(1, text3.as_str());
            program.line("}");
            let mut text4 = String::from_str(c);
            text4.append(" total = 0;");
            program.line(text4.as_str());
            let mut text5 = String::from_str("for (int i = 0; i < ");
            text5.append("64");
            text5.append("; i++) {");
            program.line(text5.as_str());
            let mut text6 = String::from_str("int at = (i * 7 + start) & ");
            text6.append("15");
            text6.append(";");
            program.line_at(1, text6.as_str());
            let mut text7 = String::from_str("total = total * ");
            let literal8 = lit(ty, 5);
            text7.append(literal8.as_str());
            text7.append(" + buffer[at] + buffer[(at + 3) & ");
            text7.append("15");
            text7.append("];");
            program.line_at(1, text7.as_str());
            program.line("}");
            program.blank();
            assert(program.top_lines() =~~= access_top(ty, shape));
            assert(program.body_lines() =~~= access_body(ty, shape));
            assert(program.expected_values() =~= access_expected(ty, shape));
            assert(program.include_lines() =~~= access_includes(ty, shape));
        },
        _ => {},
    }
}

/// Writes a shape.
fn access_write(program: &mut Program, ty: Ty, shape: AccessShape)
    requires
        old(program).top_lines() == Seq::<Seq<char>>::empty(),
        old(program).body_lines() == Seq::<Seq<char>>::empty(),
        old(program).expected_values() == Seq::<int>::empty(),
        old(program).include_lines() == Seq::<Seq<char>>::empty(),
        !old(program).sinks(),
    ensures
        final(program).top_lines() == access_top(ty, shape),
        final(program).body_lines() == access_body(ty, shape),
        final(program).expected_values() == access_expected(ty, shape),
        final(program).include_lines() == access_includes(ty, shape),
        final(program).sinks() == access_sinks(shape),
        final(program).purpose_text() == old(program).purpose_text(),
{
    match shape {
        AccessShape::ReadAfterWrite => {
            access_write_0(program, ty, shape);
        },
        AccessShape::WriteAfterRead => {
            access_write_1(program, ty, shape);
        },
        AccessShape::TwoWrites => {
            access_write_2(program, ty, shape);
        },
        AccessShape::ReadOnly => {
            access_write_3(program, ty, shape);
        },
    }
}

/// The element the loop reaches in round `i`: seven elements on from the last, around a buffer
/// of sixteen. Seven and sixteen have no factor in common, so every element comes up once before
/// any comes up twice.
pub open spec fn access_at(i: int) -> int {
    (i * 7) % 16
}

/// The buffer before the loop: the seed, one, plus the position.
pub open spec fn access_start(ty: Ty) -> Seq<int> {
    Seq::new(16, |i: int| ty.wrap(1 + i))
}

/// One round of the loop, on the buffer and the running total, in the arithmetic of the
/// promoted type.
pub open spec fn access_step(ty: Ty, shape: AccessShape, buffer: Seq<int>, total: int, i: int) -> (
    Seq<int>,
    int,
) {
    let at = access_at(i);
    let p = ty.promotion();
    match shape {
        AccessShape::ReadAfterWrite => {
            let b = buffer.update(at, p.wrap(buffer[at] * 3 + 1));
            (b, p.wrap(total * 5 + b[at]))
        },
        AccessShape::WriteAfterRead => {
            let seen = buffer[at];
            (buffer.update(at, p.wrap(seen * 3 + 1)), p.wrap(total * 5 + seen))
        },
        AccessShape::TwoWrites => {
            let b = buffer.update(at, p.wrap(total + 1)).update(at, p.wrap(total + 2));
            (b, p.wrap(total * 5 + b[at]))
        },
        AccessShape::ReadOnly => (buffer, p.wrap(total * 5 + buffer[at] + buffer[(at + 3) % 16])),
    }
}

/// The buffer and the total after `n` rounds.
pub open spec fn access_run(ty: Ty, shape: AccessShape, n: nat) -> (Seq<int>, int)
    decreases n,
{
    if n == 0 {
        (access_start(ty), 0)
    } else {
        let before = access_run(ty, shape, (n - 1) as nat);
        access_step(ty, shape, before.0, before.1, n - 1)
    }
}

/// What the program prints: the total after the sixty four rounds it runs.
pub open spec fn access_answer(ty: Ty, shape: AccessShape) -> int {
    access_run(ty, shape, 64).1
}

/// Runs the loop the program runs and returns the total it prints.
fn access_total(ty: Ty, shape: AccessShape) -> (r: i128)
    requires
        ty == Ty::U32 || ty == Ty::U64,
    ensures
        r == access_answer(ty, shape),
{
    let p = ty.promoted();
    let mut buffer: Vec<i128> = Vec::new();
    let mut i: i128 = 0;
    while i < 16
        invariant
            0 <= i <= 16,
            ty == Ty::U32 || ty == Ty::U64,
            buffer@.len() == i,
            forall|j: int| 0 <= j < i ==> buffer@[j] == ty.wrap(1 + j),
        decreases 16 - i,
    {
        buffer.push(ty.convert(1 + i));
        i += 1;
    }
    assert(ints(buffer@) =~= access_start(ty));
    proof {
        assert forall|j: int| 0 <= j < 16 implies ty.contains(#[trigger] buffer@[j] as int) by {
            lemma_wrap_is_contained(ty, 1 + j);
        }
    }
    let mut total: i128 = 0;
    let mut round: i128 = 0;
    while round < 64
        invariant
            0 <= round <= 64,
            ty == Ty::U32 || ty == Ty::U64,
            p == ty,
            buffer@.len() == 16,
            ints(buffer@) == access_run(ty, shape, round as nat).0,
            total == access_run(ty, shape, round as nat).1,
            ty.contains(total as int),
            forall|j: int| 0 <= j < 16 ==> ty.contains(#[trigger] buffer@[j] as int),
        decreases 64 - round,
    {
        let ghost before = ints(buffer@);
        let ghost sum = total as int;
        let at = ((round * 7) % 16) as usize;
        assert(at as int == access_at(round as int));
        match shape {
            AccessShape::ReadAfterWrite => {
                let v = p.convert(buffer[at] * 3 + 1);
                buffer.set(at, v);
                total = p.convert(total * 5 + buffer[at]);
                proof {
                    lemma_wrap_is_contained(ty, before[at as int] * 3 + 1);
                }
            },
            AccessShape::WriteAfterRead => {
                let seen = buffer[at];
                let v = p.convert(seen * 3 + 1);
                buffer.set(at, v);
                total = p.convert(total * 5 + seen);
                proof {
                    lemma_wrap_is_contained(ty, seen * 3 + 1);
                }
            },
            AccessShape::TwoWrites => {
                let first = p.convert(total + 1);
                buffer.set(at, first);
                let second = p.convert(total + 2);
                buffer.set(at, second);
                total = p.convert(total * 5 + buffer[at]);
                proof {
                    lemma_wrap_is_contained(ty, sum + 2);
                }
            },
            AccessShape::ReadOnly => {
                let other = (at + 3) % 16;
                total = p.convert(total * 5 + buffer[at] + buffer[other]);
            },
        }
        proof {
            lemma_wrap_is_contained(ty, total as int);
            let after = access_step(ty, shape, before, sum, round as int);
            assert(ints(buffer@) =~= after.0);
        }
        round += 1;
    }
    total
}

/// Whether a case is the memory access program for a type and a shape, whole.
pub open spec fn is_access_case(c: Case, ty: Ty, shape: AccessShape) -> bool {
    &&& c.axes_text() == seq![("type"@, ty.name_text()), ("access"@, shape.name_text())]
    &&& c.tags_text() == Seq::<Seq<char>>::empty()
    &&& c.program.purpose_text() == "a "@ + shape.name_text()
        + " memory access in a loop the compiler cannot unpick"@
    &&& c.program.include_lines() == access_includes(ty, shape)
    &&& c.program.top_lines() == access_top(ty, shape)
    &&& c.program.body_lines() == access_body(ty, shape).push(
        print_line(1, ty.promotion(), "total"@),
    )
    &&& c.program.expected_values() == seq![access_answer(ty, shape)]
    &&& !c.program.sinks()
}

/// The memory access program for one type and one shape.
fn access_case(ty: Ty, shape: AccessShape) -> (r: Case)
    requires
        ty == Ty::U32 || ty == Ty::U64,
    ensures
        is_access_case(r, ty, shape),
{
    let mut purpose = String::from_str("a ");
    purpose.append(shape.name());
    purpose.append(" memory access in a loop the compiler cannot unpick");
    let mut program = Program::new(purpose.as_str());
    access_write(&mut program, ty, shape);
    let total = access_total(ty, shape);
    program.check(ty.promoted(), "total", total);
    let axes = vec![axis("type", ty.name()), axis("access", shape.name())];
    let r = Case { axes, tags: tags_for(false), program };
    assert(r.axes_text() =~= seq![("type"@, ty.name_text()), ("access"@, shape.name_text())]);
    assert(r.program.expected_values() =~= seq![access_answer(ty, shape)]);
    r
}

/// Work with a memory access in the middle of it, which nothing may be reordered around, on the
/// two unsigned types at the width of a register.
///
/// Each program puts a store and a load next to each other at an index worked out from the loop
/// counter and a value read out of a `volatile` global, so no compiler can decide the two are
/// different places, and each prints a total that comes out different if the two are swapped.
/// The read-only shape is the control: the same address arithmetic and no store. Sixty four
/// rounds of multiplying by five wrap every type many times over, and wrapping is defined only
/// for the unsigned ones, so the signed types have no program.
pub fn scheduling_memory() -> (r: Vec<Case>)
    ensures
        r@.len() == 8,
        forall|k: int|
            0 <= k < 8 ==> is_access_case(
                #[trigger] r@[k],
                if k < 4 {
                    Ty::U32
                } else {
                    Ty::U64
                },
                access_shapes_list()[k % 4],
            ),
{
    let types = wide();
    let shapes = access_shapes_array();
    let mut out: Vec<Case> = Vec::new();
    let mut t: usize = 0;
    while t < 4
        invariant
            t <= 4,
            types@ == wide_types(),
            shapes@ == access_shapes_list(),
            out@.len() == 4 * (t / 2),
            forall|k: int|
                0 <= k < out@.len() ==> is_access_case(
                    #[trigger] out@[k],
                    if k < 4 {
                        Ty::U32
                    } else {
                        Ty::U64
                    },
                    access_shapes_list()[k % 4],
                ),
        decreases 4 - t,
    {
        let ty = types[t];
        if !ty.signed() {
            let mut s: usize = 0;
            while s < 4
                invariant
                    t == 1 || t == 3,
                    s <= 4,
                    ty == wide_types()[t as int],
                    shapes@ == access_shapes_list(),
                    out@.len() == 4 * (t / 2) + s,
                    forall|k: int|
                        0 <= k < out@.len() ==> is_access_case(
                            #[trigger] out@[k],
                            if k < 4 {
                                Ty::U32
                            } else {
                                Ty::U64
                            },
                            access_shapes_list()[k % 4],
                        ),
                decreases 4 - s,
            {
                out.push(access_case(ty, shapes[s]));
                s += 1;
            }
        }
        t += 1;
    }
    out
}

/// The definition of live value `at`: the seed plus its own position.
pub open spec fn value_def(ty: Ty, at: int) -> Seq<char> {
    indent(1) + ty.c_text() + " v"@ + decimal(at) + " = seed + "@ + lit_text(ty, at) + ";"@
}

/// The definitions of the first `live` values, in order.
pub open spec fn value_defs(ty: Ty, live: nat) -> Seq<Seq<char>> {
    Seq::new(live, |at: int| value_def(ty, at))
}

/// The additions of `live` values into the total, back to front, so the value defined first
/// is the one needed last.
pub open spec fn value_adds(into: Seq<char>, depth: nat, live: nat) -> Seq<Seq<char>> {
    Seq::new(live, |j: int| indent(depth) + into + " += v"@ + decimal(live - 1 - j) + ";"@)
}

/// What `live` values the seed, one, plus their positions add up to.
pub open spec fn live_sum(live: int) -> int {
    live * (live + 1) / 2
}

/// Writes the definitions of the first `live` values.
fn write_value_defs(program: &mut Program, ty: Ty, live: i128)
    requires
        0 <= live <= 64,
    ensures
        final(program).body_lines() == old(program).body_lines() + value_defs(ty, live as nat),
        final(program).top_lines() == old(program).top_lines(),
        final(program).expected_values() == old(program).expected_values(),
        final(program).include_lines() == old(program).include_lines(),
        final(program).sinks() == old(program).sinks(),
        final(program).purpose_text() == old(program).purpose_text(),
{
    let ghost before = program.body_lines();
    let mut at: i128 = 0;
    while at < live
        invariant
            0 <= at <= live <= 64,
            program.body_lines() == before + value_defs(ty, at as nat),
            program.top_lines() == old(program).top_lines(),
            program.expected_values() == old(program).expected_values(),
            program.include_lines() == old(program).include_lines(),
            program.sinks() == old(program).sinks(),
            program.purpose_text() == old(program).purpose_text(),
        decreases live - at,
    {
        let mut text = String::from_str(ty.c_name());
        text.append(" v");
        push_decimal(&mut text, at);
        text.append(" = seed + ");
        let literal = lit(ty, at);
        text.append(literal.as_str());
        text.append(";");
        program.line(text.as_str());
        assert(indent(1) + text@ =~= value_def(ty, at as int));
        assert(value_defs(ty, (at + 1) as nat) =~= value_defs(ty, at as nat).push(
            value_def(ty, at as int),
        ));
        assert(before + value_defs(ty, (at + 1) as nat) =~= (before + value_defs(
            ty,
            at as nat,
        )).push(value_def(ty, at as int)));
        at += 1;
    }
}

/// Writes the additions of `live` values into `into`, back to front, at `depth` levels
/// inside `main`.
fn write_value_adds(program: &mut Program, into: &str, depth: usize, live: i128)
    requires
        depth < 4,
        0 <= live <= 64,
    ensures
        final(program).body_lines() == old(program).body_lines() + value_adds(
            into@,
            (depth + 1) as nat,
            live as nat,
        ),
        final(program).top_lines() == old(program).top_lines(),
        final(program).expected_values() == old(program).expected_values(),
        final(program).include_lines() == old(program).include_lines(),
        final(program).sinks() == old(program).sinks(),
        final(program).purpose_text() == old(program).purpose_text(),
{
    let ghost before = program.body_lines();
    let mut j: i128 = 0;
    while j < live
        invariant
            depth < 4,
            0 <= j <= live <= 64,
            program.body_lines() == before + value_adds(into@, (depth + 1) as nat, live as nat).take(
                j as int,
            ),
            program.top_lines() == old(program).top_lines(),
            program.expected_values() == old(program).expected_values(),
            program.include_lines() == old(program).include_lines(),
            program.sinks() == old(program).sinks(),
            program.purpose_text() == old(program).purpose_text(),
        decreases live - j,
    {
        let mut text = String::from_str(into);
        text.append(" += v");
        push_decimal(&mut text, live - 1 - j);
        text.append(";");
        program.line_at(depth, text.as_str());
        let ghost adds = value_adds(into@, (depth + 1) as nat, live as nat);
        assert(indent((depth + 1) as nat) + text@ =~= adds[j as int]);
        assert(before + adds.take(j + 1) =~= (before + adds.take(j as int)).push(adds[j as int]));
        j += 1;
    }
    assert(value_adds(into@, (depth + 1) as nat, live as nat).take(live as int) =~= value_adds(
        into@,
        (depth + 1) as nat,
        live as nat,
    ));
}

/// Whether the values are added up inside a loop or once, straight through.
#[derive(Clone, Copy, Debug, PartialEq, Eq, Structural)]
pub enum SpillShape {
    Straight,
    InALoop,
}

impl SpillShape {
    /// The axis value.
    pub open spec fn name_text(self) -> Seq<char> {
        match self {
            SpillShape::Straight => "straight"@,
            SpillShape::InALoop => "in-a-loop"@,
        }
    }

    /// The axis value.
    pub fn name(self) -> (r: &'static str)
        ensures
            r@ == self.name_text(),
    {
        match self {
            SpillShape::Straight => "straight",
            SpillShape::InALoop => "in-a-loop",
        }
    }
}

/// The statements of a register allocation program.
pub open spec fn spill_body(ty: Ty, live: nat, shape: SpillShape) -> Seq<Seq<char>> {
    seq![input_read(ty, "seed"@), Seq::empty()] + value_defs(ty, live) + seq![
        Seq::empty(),
        indent(1) + ty.c_text() + " total = 0;"@,
    ] + match shape {
        SpillShape::Straight => value_adds("total"@, 1, live),
        SpillShape::InALoop => seq![indent(1) + "for (int i = 0; i < 4; i++) {"@] + value_adds("total"@, 2, live) + seq![indent(1) + "}"@],
    } + seq![Seq::empty(), print_line(1, ty.promotion(), "total"@)]
}

/// What a register allocation program prints: every value once, or four times in the loop.
pub open spec fn spill_total(live: int, shape: SpillShape) -> int {
    match shape {
        SpillShape::Straight => live_sum(live),
        SpillShape::InALoop => live_sum(live) * 4,
    }
}

/// Whether a case is the register allocation program for a type, a count and a shape, whole.
pub open spec fn is_spill_case(c: Case, ty: Ty, live: int, shape: SpillShape) -> bool {
    &&& c.axes_text() == seq![
        ("type"@, ty.name_text()),
        ("live"@, decimal(live)),
        ("shape"@, shape.name_text()),
    ]
    &&& c.tags_text() == Seq::<Seq<char>>::empty()
    &&& c.program.purpose_text() == decimal(live) + " live "@ + ty.c_text() + " values at once, "@
        + shape.name_text()
    &&& c.program.include_lines() == Seq::<Seq<char>>::empty()
    &&& c.program.top_lines() == seq![input_global(ty, "seed"@, 1)]
    &&& c.program.body_lines() == spill_body(ty, live as nat, shape)
    &&& c.program.expected_values() == seq![spill_total(live, shape)]
    &&& !c.program.sinks()
}


/// The register allocation program for one type, count and shape.
fn spill_case(ty: Ty, live: i128, shape: SpillShape) -> (r: Case)
    requires
        1 <= live <= 64,
    ensures
        is_spill_case(r, ty, live as int, shape),
{
    let count = decimal_string(live);
    let mut purpose = String::from_str(count.as_str());
    purpose.append(" live ");
    purpose.append(ty.c_name());
    purpose.append(" values at once, ");
    purpose.append(shape.name());
    let mut program = Program::new(purpose.as_str());
    program.input(ty, "seed", 1);
    program.blank();
    write_value_defs(&mut program, ty, live);
    program.blank();
    let mut start = String::from_str(ty.c_name());
    start.append(" total = 0;");
    program.line(start.as_str());
    assert(live * (live + 1) <= 64 * 65) by (nonlinear_arith)
        requires
            1 <= live <= 64,
    ;
    let sum: i128 = live * (live + 1) / 2;
    let total = match shape {
        SpillShape::InALoop => {
            program.line("for (int i = 0; i < 4; i++) {");
            write_value_adds(&mut program, "total", 1, live);
            program.line("}");
            sum * 4
        },
        SpillShape::Straight => {
            write_value_adds(&mut program, "total", 0, live);
            sum
        },
    };
    program.blank();
    program.check(ty.promoted(), "total", total);
    assert(program.body_lines() =~~= spill_body(ty, live as nat, shape));
    assert(program.top_lines() =~~= seq![input_global(ty, "seed"@, 1)]);
    let axes = vec![axis("type", ty.name()), axis("live", count.as_str()), axis("shape", shape.name())];
    let r = Case { axes, tags: tags_for(false), program };
    assert(r.axes_text() =~= seq![
        ("type"@, ty.name_text()),
        ("live"@, decimal(live as int)),
        ("shape"@, shape.name_text()),
    ]);
    assert(r.program.expected_values() =~= seq![spill_total(live as int, shape)]);
    r
}

/// The counts of live values the register allocation programs walk.
pub open spec fn spill_counts() -> Seq<int> {
    seq![4, 8, 16, 32, 64]
}

/// More values live at once than the machine has registers, on every type at the width of a
/// register.
///
/// The count walks from comfortably inside any register file to well past every one of them,
/// and the values are added up back to front, so the value defined first is needed last and the
/// simplest spill heuristic guesses wrong. Every total fits the promoted type.
pub fn register_alloc() -> (r: Vec<Case>)
    ensures
        r@.len() == 40,
        forall|k: int|
            0 <= k < 40 ==> is_spill_case(
                #[trigger] r@[k],
                wide_types()[k / 10],
                spill_counts()[(k % 10) / 2],
                if k % 2 == 0 {
                    SpillShape::Straight
                } else {
                    SpillShape::InALoop
                },
            ),
{
    let types = wide();
    let counts: [i128; 5] = [4, 8, 16, 32, 64];
    let mut out: Vec<Case> = Vec::new();
    let mut k: usize = 0;
    while k < 40
        invariant
            k <= 40,
            types@ == wide_types(),
            counts@ == seq![4i128, 8, 16, 32, 64],
            out@.len() == k,
            forall|i: int|
                0 <= i < k ==> is_spill_case(
                    #[trigger] out@[i],
                    wide_types()[i / 10],
                    spill_counts()[(i % 10) / 2],
                    if i % 2 == 0 {
                        SpillShape::Straight
                    } else {
                        SpillShape::InALoop
                    },
                ),
        decreases 40 - k,
    {
        let shape = if k % 2 == 0 {
            SpillShape::Straight
        } else {
            SpillShape::InALoop
        };
        let live = counts[(k % 10) / 2];
        assert(live as int == spill_counts()[(k as int % 10) / 2]);
        out.push(spill_case(types[k / 10], live, shape));
        k += 1;
    }
    out
}

/// What the values are held across while they are all live.
#[derive(Clone, Copy, Debug, PartialEq, Eq, Structural)]
pub enum PressureShape {
    AcrossACall,
    ThroughALoop,
    BothClasses,
    OneArmOnly,
    CallOffThePath,
}

impl PressureShape {
    /// The axis value.
    pub open spec fn name_text(self) -> Seq<char> {
        match self {
            PressureShape::AcrossACall => "across-a-call"@,
            PressureShape::ThroughALoop => "through-a-loop"@,
            PressureShape::BothClasses => "both-classes"@,
            PressureShape::OneArmOnly => "one-arm-only"@,
            PressureShape::CallOffThePath => "call-off-the-path"@,
        }
    }

    /// The axis value.
    pub fn name(self) -> (r: &'static str)
        ensures
            r@ == self.name_text(),
    {
        match self {
            PressureShape::AcrossACall => "across-a-call",
            PressureShape::ThroughALoop => "through-a-loop",
            PressureShape::BothClasses => "both-classes",
            PressureShape::OneArmOnly => "one-arm-only",
            PressureShape::CallOffThePath => "call-off-the-path",
        }
    }

    /// Whether the shape calls a function the compiler cannot see into.
    pub open spec fn calls(self) -> bool {
        self == PressureShape::AcrossACall || self == PressureShape::CallOffThePath
    }
}

/// The shapes in the order the facet walks them.
pub open spec fn pressure_shapes_list() -> Seq<PressureShape> {
    seq![
        PressureShape::AcrossACall,
        PressureShape::ThroughALoop,
        PressureShape::BothClasses,
        PressureShape::OneArmOnly,
        PressureShape::CallOffThePath,
    ]
}

/// The lines before `main` of a pressure program: the function the call shapes call, then the
/// inputs.
pub open spec fn pressure_top(ty: Ty, shape: PressureShape) -> Seq<Seq<char>> {
    (if shape.calls() {
        seq![
            "static "@ + ty.c_text() + " opaque("@ + ty.c_text() + " v) {"@,
            "    return v + 1;"@,
            "}"@,
        ]
    } else {
        Seq::empty()
    }) + seq![input_global(ty, "seed"@, 1), input_global(Ty::I32, "flag"@, 1)]
}

/// What stands between the definitions and the reads in a pressure program.
pub open spec fn pressure_middle(ty: Ty, live: nat, shape: PressureShape) -> Seq<Seq<char>> {
    let c = ty.c_text();
    match shape {
        PressureShape::AcrossACall => seq![indent(1) + c + " kept = opaque(seed);"@],
        PressureShape::ThroughALoop => seq![
            indent(1) + c + " kept = 0;"@,
            indent(1) + "for (int i = 0; i < 4; i++) {"@,
            indent(2) + "kept = kept + 1;"@,
            indent(1) + "}"@,
        ],
        PressureShape::CallOffThePath => seq![
            indent(1) + c + " kept = 0;"@,
            indent(1) + "if (flag == 0) {"@,
            indent(2) + "kept = opaque(seed);"@,
            indent(1) + "} else {"@,
        ] + value_adds("kept"@, 2, live) + seq![indent(1) + "}"@],
        PressureShape::BothClasses => seq![
            indent(1) + "double d0 = 1.0, d1 = 2.0, d2 = 3.0, d3 = 4.0;"@,
            indent(1) + "double dsum = d0 + d1 + d2 + d3;"@,
            indent(1) + c + " kept = ("@ + c + ")dsum;"@,
        ],
        PressureShape::OneArmOnly => seq![
            indent(1) + c + " kept = 0;"@,
            indent(1) + "if (flag) {"@,
            indent(2) + "kept = ("@ + c + ")1;"@,
            indent(1) + "} else {"@,
            indent(2) + "kept = ("@ + c + ")2;"@,
            indent(1) + "}"@,
        ],
    }
}

/// The statements of a pressure program. The shape with the call off the path has read the
/// values already, inside the arm, and reading them again would put them back on every path.
pub open spec fn pressure_body(ty: Ty, live: nat, shape: PressureShape) -> Seq<Seq<char>> {
    seq![input_read(ty, "seed"@), input_read(Ty::I32, "flag"@), Seq::empty()] + value_defs(
        ty,
        live,
    ) + seq![Seq::empty()] + pressure_middle(ty, live, shape) + seq![
        Seq::empty(),
        indent(1) + ty.c_text() + " total = kept;"@,
    ] + (if shape == PressureShape::CallOffThePath {
        Seq::empty()
    } else {
        value_adds("total"@, 1, live)
    }) + seq![Seq::empty(), print_line(1, ty.promotion(), "total"@)]
}

/// What `kept` adds to the values in each shape.
pub open spec fn pressure_extra(shape: PressureShape) -> int {
    match shape {
        PressureShape::AcrossACall => 2,
        PressureShape::ThroughALoop => 4,
        PressureShape::CallOffThePath => 0,
        PressureShape::BothClasses => 10,
        PressureShape::OneArmOnly => 1,
    }
}

/// Whether a case is the pressure program for a type, a count and a shape, whole.
pub open spec fn is_pressure_case(c: Case, ty: Ty, live: int, shape: PressureShape) -> bool {
    &&& c.axes_text() == seq![
        ("type"@, ty.name_text()),
        ("live"@, decimal(live)),
        ("shape"@, shape.name_text()),
    ]
    &&& c.tags_text() == Seq::<Seq<char>>::empty()
    &&& c.program.purpose_text() == decimal(live) + " live "@ + ty.c_text() + " values held "@
        + shape.name_text() + ", which is what the pressure model counts"@
    &&& c.program.include_lines() == Seq::<Seq<char>>::empty()
    &&& c.program.top_lines() == pressure_top(ty, shape)
    &&& c.program.body_lines() == pressure_body(ty, live as nat, shape)
    &&& c.program.expected_values() == seq![live_sum(live) + pressure_extra(shape)]
    &&& !c.program.sinks()
}

/// Writes what stands between the definitions and the reads.
fn write_pressure_middle(program: &mut Program, ty: Ty, live: i128, shape: PressureShape)
    requires
        0 <= live <= 64,
    ensures
        final(program).body_lines() == old(program).body_lines() + pressure_middle(
            ty,
            live as nat,
            shape,
        ),
        final(program).top_lines() == old(program).top_lines(),
        final(program).expected_values() == old(program).expected_values(),
        final(program).include_lines() == old(program).include_lines(),
        final(program).sinks() == old(program).sinks(),
        final(program).purpose_text() == old(program).purpose_text(),
{
    let c = ty.c_name();
    let ghost before = program.body_lines();
    let mut kept = String::from_str(c);
    kept.append(" kept = 0;");
    match shape {
        PressureShape::AcrossACall => {
            let mut call = String::from_str(c);
            call.append(" kept = opaque(seed);");
            program.line(call.as_str());
        },
        PressureShape::ThroughALoop => {
            program.line(kept.as_str());
            program.line("for (int i = 0; i < 4; i++) {");
            program.line_at(1, "kept = kept + 1;");
            program.line("}");
        },
        PressureShape::CallOffThePath => {
            program.line(kept.as_str());
            program.line("if (flag == 0) {");
            program.line_at(1, "kept = opaque(seed);");
            program.line("} else {");
            write_value_adds(program, "kept", 1, live);
            program.line("}");
        },
        PressureShape::BothClasses => {
            program.line("double d0 = 1.0, d1 = 2.0, d2 = 3.0, d3 = 4.0;");
            program.line("double dsum = d0 + d1 + d2 + d3;");
            let mut cast = String::from_str(c);
            cast.append(" kept = (");
            cast.append(c);
            cast.append(")dsum;");
            program.line(cast.as_str());
        },
        PressureShape::OneArmOnly => {
            program.line(kept.as_str());
            program.line("if (flag) {");
            let mut one = String::from_str("kept = (");
            one.append(c);
            one.append(")1;");
            program.line_at(1, one.as_str());
            program.line("} else {");
            let mut two = String::from_str("kept = (");
            two.append(c);
            two.append(")2;");
            program.line_at(1, two.as_str());
            program.line("}");
        },
    }
    assert(program.body_lines() =~~= before + pressure_middle(ty, live as nat, shape));
}

/// The pressure program for one type, count and shape.
#[verifier::rlimit(100)]
fn pressure_case(ty: Ty, live: i128, shape: PressureShape) -> (r: Case)
    requires
        1 <= live <= 64,
    ensures
        is_pressure_case(r, ty, live as int, shape),
{
    let count = decimal_string(live);
    let c = ty.c_name();
    let mut purpose = String::from_str(count.as_str());
    purpose.append(" live ");
    purpose.append(c);
    purpose.append(" values held ");
    purpose.append(shape.name());
    purpose.append(", which is what the pressure model counts");
    let mut program = Program::new(purpose.as_str());
    if shape == PressureShape::AcrossACall || shape == PressureShape::CallOffThePath {
        let mut head = String::from_str("static ");
        head.append(c);
        head.append(" opaque(");
        head.append(c);
        head.append(" v) {");
        program.top(head.as_str());
        program.top("    return v + 1;");
        program.top("}");
    }
    program.input(ty, "seed", 1);
    program.input(Ty::I32, "flag", 1);
    assert(program.top_lines() =~~= pressure_top(ty, shape));
    program.blank();
    write_value_defs(&mut program, ty, live);
    program.blank();
    write_pressure_middle(&mut program, ty, live, shape);
    program.blank();
    let mut start = String::from_str(c);
    start.append(" total = kept;");
    program.line(start.as_str());
    if shape != PressureShape::CallOffThePath {
        write_value_adds(&mut program, "total", 0, live);
    }
    assert(live * (live + 1) <= 64 * 65) by (nonlinear_arith)
        requires
            1 <= live <= 64,
    ;
    let extra: i128 = match shape {
        PressureShape::AcrossACall => 2,
        PressureShape::ThroughALoop => 4,
        PressureShape::CallOffThePath => 0,
        PressureShape::BothClasses => 10,
        PressureShape::OneArmOnly => 1,
    };
    program.blank();
    program.check(ty.promoted(), "total", live * (live + 1) / 2 + extra);
    assert(program.body_lines() =~~= pressure_body(ty, live as nat, shape));
    let axes = vec![axis("type", ty.name()), axis("live", count.as_str()), axis("shape", shape.name())];
    let r = Case { axes, tags: tags_for(false), program };
    assert(r.axes_text() =~= seq![
        ("type"@, ty.name_text()),
        ("live"@, decimal(live as int)),
        ("shape"@, shape.name_text()),
    ]);
    assert(r.program.expected_values() =~= seq![live_sum(live as int) + pressure_extra(shape)]);
    r
}

/// The counts of live values the pressure programs walk.
pub open spec fn pressure_counts() -> Seq<int> {
    seq![6, 12, 24]
}

/// How many values are live at once, and the decisions made from that number, on every type at
/// the width of a register.
///
/// Each shape is one of those decisions: values held across a call, where they want callee
/// saved registers; through a loop, where a spill is paid every round; beside doubles, which are
/// a second register file; across one arm of a branch only; and read in the arm without the
/// call, so that a count taken on the function as written puts the call in the middle of every
/// value and a count taken on the control flow graph does not. Every total fits the promoted
/// type.
pub fn register_pressure() -> (r: Vec<Case>)
    ensures
        r@.len() == 60,
        forall|k: int|
            0 <= k < 60 ==> is_pressure_case(
                #[trigger] r@[k],
                wide_types()[k / 15],
                pressure_counts()[(k % 15) / 5],
                pressure_shapes_list()[k % 5],
            ),
{
    let types = wide();
    let counts: [i128; 3] = [6, 12, 24];
    let shapes: [PressureShape; 5] = [
        PressureShape::AcrossACall,
        PressureShape::ThroughALoop,
        PressureShape::BothClasses,
        PressureShape::OneArmOnly,
        PressureShape::CallOffThePath,
    ];
    let mut out: Vec<Case> = Vec::new();
    let mut k: usize = 0;
    while k < 60
        invariant
            k <= 60,
            types@ == wide_types(),
            counts@ == seq![6i128, 12, 24],
            shapes@ == pressure_shapes_list(),
            out@.len() == k,
            forall|i: int|
                0 <= i < k ==> is_pressure_case(
                    #[trigger] out@[i],
                    wide_types()[i / 15],
                    pressure_counts()[(i % 15) / 5],
                    pressure_shapes_list()[i % 5],
                ),
        decreases 60 - k,
    {
        let live = counts[(k % 15) / 5];
        assert(live as int == pressure_counts()[(k as int % 15) / 5]);
        out.push(pressure_case(types[k / 15], live, shapes[k % 5]));
        k += 1;
    }
    out
}

/// The start of chain `ch`: the seed plus the chain's position.
pub open spec fn chain_init(ty: Ty, ch: int) -> Seq<char> {
    indent(1) + ty.c_text() + " c"@ + decimal(ch) + " = seed + "@ + lit_text(ty, ch) + ";"@
}

/// One step of chain `ch`: multiply by three and add one.
pub open spec fn chain_step(ty: Ty, ch: int) -> Seq<char> {
    indent(2) + "c"@ + decimal(ch) + " = c"@ + decimal(ch) + " * "@ + lit_text(ty, 3) + " + "@
        + lit_text(ty, 1) + ";"@
}

/// One step of every chain, the chains side by side.
pub open spec fn chain_round(ty: Ty, chains: nat) -> Seq<Seq<char>> {
    Seq::new(chains, |ch: int| chain_step(ty, ch))
}

/// A block of lines written `n` times over.
pub open spec fn repeated(lines: Seq<Seq<char>>, n: nat) -> Seq<Seq<char>>
    decreases n,
{
    if n == 0 {
        Seq::empty()
    } else {
        repeated(lines, (n - 1) as nat) + lines
    }
}

/// The statements of a scheduling program: the chains started, stepped `length` times inside a
/// loop of four rounds, and added up.
pub open spec fn chains_body(ty: Ty, chains: nat, length: nat) -> Seq<Seq<char>> {
    seq![input_read(ty, "seed"@), Seq::empty()] + Seq::new(chains, |ch: int| chain_init(ty, ch))
        + seq![indent(1) + "for (int i = 0; i < 4; i++) {"@] + repeated(
        chain_round(ty, chains),
        length,
    ) + seq![indent(1) + "}"@, Seq::empty(), indent(1) + ty.c_text() + " total = 0;"@]
        + Seq::new(chains, |ch: int| indent(1) + "total += c"@ + decimal(ch) + ";"@) + seq![
        Seq::empty(),
        print_line(1, ty.promotion(), "total"@),
    ]
}

/// A chain starting at `start` after `steps` steps of multiplying by three and adding one, in
/// the arithmetic of the promoted type.
pub open spec fn chain_value(ty: Ty, start: int, steps: nat) -> int
    decreases steps,
{
    if steps == 0 {
        start
    } else {
        ty.promotion().wrap(chain_value(ty, start, (steps - 1) as nat) * 3 + 1)
    }
}

/// What the first `chains` chains add up to after four rounds of `length` steps each.
pub open spec fn chains_total(ty: Ty, chains: nat, length: nat) -> int
    decreases chains,
{
    if chains == 0 {
        0
    } else {
        ty.promotion().wrap(
            chains_total(ty, (chains - 1) as nat, length) + chain_value(ty, chains as int, 4 * length),
        )
    }
}

/// Whether a case is the scheduling program for a type, a chain count and a length, whole.
pub open spec fn is_chains_case(c: Case, ty: Ty, chains: int, length: int) -> bool {
    &&& c.axes_text() == seq![
        ("type"@, ty.name_text()),
        ("chains"@, decimal(chains)),
        ("length"@, decimal(length)),
    ]
    &&& c.tags_text() == Seq::<Seq<char>>::empty()
    &&& c.program.purpose_text() == decimal(chains) + " independent "@ + ty.c_text()
        + " chains of "@ + decimal(length) + " steps"@
    &&& c.program.include_lines() == Seq::<Seq<char>>::empty()
    &&& c.program.top_lines() == seq![input_global(ty, "seed"@, 1)]
    &&& c.program.body_lines() == chains_body(ty, chains as nat, length as nat)
    &&& c.program.expected_values() == seq![chains_total(ty, chains as nat, length as nat)]
    &&& !c.program.sinks()
}

/// Writes `length` rounds of steps of every chain.
fn write_rounds(program: &mut Program, ty: Ty, chains: i128, length: i128)
    requires
        1 <= chains <= 4,
        1 <= length <= 32,
    ensures
        final(program).body_lines() == old(program).body_lines() + repeated(
            chain_round(ty, chains as nat),
            length as nat,
        ),
        final(program).top_lines() == old(program).top_lines(),
        final(program).expected_values() == old(program).expected_values(),
        final(program).include_lines() == old(program).include_lines(),
        final(program).sinks() == old(program).sinks(),
        final(program).purpose_text() == old(program).purpose_text(),
{
    let ghost before = program.body_lines();
    let ghost round = chain_round(ty, chains as nat);
    let mut r: i128 = 0;
    while r < length
        invariant
            0 <= r <= length <= 32,
            1 <= chains <= 4,
            round == chain_round(ty, chains as nat),
            program.body_lines() == before + repeated(round, r as nat),
            program.top_lines() == old(program).top_lines(),
            program.expected_values() == old(program).expected_values(),
            program.include_lines() == old(program).include_lines(),
            program.sinks() == old(program).sinks(),
            program.purpose_text() == old(program).purpose_text(),
        decreases length - r,
    {
        let ghost start = program.body_lines();
        let mut ch: i128 = 0;
        while ch < chains
            invariant
                0 <= ch <= chains <= 4,
                round == chain_round(ty, chains as nat),
                program.body_lines() == start + round.take(ch as int),
                program.top_lines() == old(program).top_lines(),
                program.expected_values() == old(program).expected_values(),
                program.include_lines() == old(program).include_lines(),
                program.sinks() == old(program).sinks(),
                program.purpose_text() == old(program).purpose_text(),
            decreases chains - ch,
        {
            let mut text = String::from_str("c");
            push_decimal(&mut text, ch);
            text.append(" = c");
            push_decimal(&mut text, ch);
            text.append(" * ");
            let three = lit(ty, 3);
            text.append(three.as_str());
            text.append(" + ");
            let one = lit(ty, 1);
            text.append(one.as_str());
            text.append(";");
            program.line_at(1, text.as_str());
            assert(indent(2) + text@ =~= round[ch as int]);
            assert(start + round.take(ch + 1) =~= (start + round.take(ch as int)).push(
                round[ch as int],
            ));
            ch += 1;
        }
        assert(round.take(chains as int) =~= round);
        assert(before + repeated(round, (r + 1) as nat) =~= before + repeated(round, r as nat)
            + round);
        r += 1;
    }
}

/// The total of the first `chains` chains, worked out the way the program works it out.
fn chains_answer(ty: Ty, chains: i128, length: i128) -> (r: i128)
    requires
        ty == Ty::U32 || ty == Ty::U64,
        0 <= chains <= 4,
        0 <= length <= 32,
    ensures
        r == chains_total(ty, chains as nat, length as nat),
    decreases chains,
{
    if chains == 0 {
        return 0;
    }
    let before = chains_answer(ty, chains - 1, length);
    let p = ty.promoted();
    let mut value: i128 = chains;
    let mut s: i128 = 0;
    while s < 4 * length
        invariant
            ty == Ty::U32 || ty == Ty::U64,
            p == ty,
            1 <= chains <= 4,
            0 <= s <= 4 * length <= 128,
            value == chain_value(ty, chains as int, s as nat),
            0 <= value < 0x1_0000_0000_0000_0000,
        decreases 4 * length - s,
    {
        proof {
            lemma_wrap_is_contained(ty, value * 3 + 1);
        }
        value = p.convert(value * 3 + 1);
        s += 1;
    }
    proof {
        lemma_wrap_is_contained(ty, chains_total(ty, (chains - 1) as nat, length as nat));
        if chains > 1 {
            lemma_wrap_is_contained(ty, chains_total(ty, (chains - 2) as nat, length as nat)
                + chain_value(ty, (chains - 1) as int, 4 * length as nat));
        }
    }
    p.convert(before + value)
}

/// The scheduling program for one type, chain count and length.
fn chains_case(ty: Ty, chains: i128, length: i128) -> (r: Case)
    requires
        ty == Ty::U32 || ty == Ty::U64,
        1 <= chains <= 4,
        1 <= length <= 32,
    ensures
        is_chains_case(r, ty, chains as int, length as int),
{
    let c = ty.c_name();
    let count = decimal_string(chains);
    let steps = decimal_string(length);
    let mut purpose = String::from_str(count.as_str());
    purpose.append(" independent ");
    purpose.append(c);
    purpose.append(" chains of ");
    purpose.append(steps.as_str());
    purpose.append(" steps");
    let mut program = Program::new(purpose.as_str());
    program.input(ty, "seed", 1);
    program.blank();
    let ghost before = program.body_lines();
    let mut ch: i128 = 0;
    while ch < chains
        invariant
            0 <= ch <= chains <= 4,
            c@ == ty.c_text(),
            program.body_lines() == before + Seq::new(ch as nat, |i: int| chain_init(ty, i)),
            program.top_lines() == seq![input_global(ty, "seed"@, 1)],
            program.purpose_text() == purpose@,
            program.include_lines() == Seq::<Seq<char>>::empty(),
            program.expected_values() == Seq::<int>::empty(),
            !program.sinks(),
        decreases chains - ch,
    {
        let mut text = String::from_str(c);
        text.append(" c");
        push_decimal(&mut text, ch);
        text.append(" = seed + ");
        let literal = lit(ty, ch);
        text.append(literal.as_str());
        text.append(";");
        program.line(text.as_str());
        assert(indent(1) + text@ =~= chain_init(ty, ch as int));
        assert(before + Seq::new((ch + 1) as nat, |i: int| chain_init(ty, i)) =~= (before
            + Seq::new(ch as nat, |i: int| chain_init(ty, i))).push(indent(1) + text@));
        ch += 1;
    }
    program.line("for (int i = 0; i < 4; i++) {");
    write_rounds(&mut program, ty, chains, length);
    program.line("}");
    program.blank();
    let mut start = String::from_str(c);
    start.append(" total = 0;");
    program.line(start.as_str());
    let ghost middle = program.body_lines();
    let mut ch: i128 = 0;
    while ch < chains
        invariant
            0 <= ch <= chains <= 4,
            program.body_lines() == middle + Seq::new(
                ch as nat,
                |i: int| indent(1) + "total += c"@ + decimal(i) + ";"@,
            ),
            program.top_lines() == seq![input_global(ty, "seed"@, 1)],
            program.purpose_text() == purpose@,
            program.include_lines() == Seq::<Seq<char>>::empty(),
            program.expected_values() == Seq::<int>::empty(),
            !program.sinks(),
        decreases chains - ch,
    {
        let mut text = String::from_str("total += c");
        push_decimal(&mut text, ch);
        text.append(";");
        program.line(text.as_str());
        assert(indent(1) + text@ =~= indent(1) + "total += c"@ + decimal(ch as int) + ";"@);
        assert(middle + Seq::new((ch + 1) as nat, |i: int| indent(1) + "total += c"@ + decimal(i)
            + ";"@) =~= (middle + Seq::new(
            ch as nat,
            |i: int| indent(1) + "total += c"@ + decimal(i) + ";"@,
        )).push(indent(1) + text@));
        ch += 1;
    }
    program.blank();
    let total = chains_answer(ty, chains, length);
    program.check(ty.promoted(), "total", total);
    assert(program.body_lines() =~~= chains_body(ty, chains as nat, length as nat));
    let axes = vec![axis("type", ty.name()), axis("chains", count.as_str()), axis("length", steps.as_str())];
    let r = Case { axes, tags: tags_for(false), program };
    assert(r.axes_text() =~= seq![
        ("type"@, ty.name_text()),
        ("chains"@, decimal(chains as int)),
        ("length"@, decimal(length as int)),
    ]);
    assert(r.program.expected_values() =~= seq![chains_total(ty, chains as nat, length as nat)]);
    r
}

/// The chain counts and lengths the scheduling programs walk.
pub open spec fn chain_counts() -> Seq<int> {
    seq![1, 2, 4]
}

/// The same work as one long chain and as several short ones, on the two unsigned types at the
/// width of a register.
///
/// A chain of dependent multiplies issues one at a time, and the same multiplies split into
/// independent chains issue side by side, so the answer is the same and the time differs by
/// close to the number of chains. The chains are stepped in unsigned arithmetic on purpose:
/// thirty two steps of multiplying by three wrap every type many times over, and wrapping is
/// defined only for the unsigned ones.
pub fn scheduling() -> (r: Vec<Case>)
    ensures
        r@.len() == 12,
        forall|k: int|
            0 <= k < 12 ==> is_chains_case(
                #[trigger] r@[k],
                if k < 6 {
                    Ty::U32
                } else {
                    Ty::U64
                },
                chain_counts()[(k % 6) / 2],
                if k % 2 == 0 {
                    8
                } else {
                    32
                },
            ),
{
    let counts: [i128; 3] = [1, 2, 4];
    let mut out: Vec<Case> = Vec::new();
    let mut k: usize = 0;
    while k < 12
        invariant
            k <= 12,
            counts@ == seq![1i128, 2, 4],
            out@.len() == k,
            forall|i: int|
                0 <= i < k ==> is_chains_case(
                    #[trigger] out@[i],
                    if i < 6 {
                        Ty::U32
                    } else {
                        Ty::U64
                    },
                    chain_counts()[(i % 6) / 2],
                    if i % 2 == 0 {
                        8
                    } else {
                        32
                    },
                ),
        decreases 12 - k,
    {
        let ty = if k < 6 {
            Ty::U32
        } else {
            Ty::U64
        };
        let chains = counts[(k % 6) / 2];
        assert(chains as int == chain_counts()[(k as int % 6) / 2]);
        let length: i128 = if k % 2 == 0 {
            8
        } else {
            32
        };
        out.push(chains_case(ty, chains, length));
        k += 1;
    }
    out
}

/// Parts joined with a separator between each two of them.
pub open spec fn sep_join(parts: Seq<Seq<char>>, sep: Seq<char>) -> Seq<char>
    decreases parts.len(),
{
    if parts.len() == 0 {
        Seq::empty()
    } else if parts.len() == 1 {
        parts[0]
    } else {
        sep_join(parts.drop_last(), sep) + sep + parts.last()
    }
}

/// The parts `pre`, a position, `post`, for the first `n` positions.
pub open spec fn numbered(pre: Seq<char>, post: Seq<char>, n: nat) -> Seq<Seq<char>> {
    Seq::new(n, |at: int| pre + decimal(at) + post)
}

/// Numbered parts joined with a separator, such as `a0, a1, a2`.
fn numbered_join(pre: &str, post: &str, sep: &str, n: i128) -> (r: String)
    requires
        0 <= n <= 64,
    ensures
        r@ == sep_join(numbered(pre@, post@, n as nat), sep@),
{
    let mut r = String::new();
    let mut at: i128 = 0;
    while at < n
        invariant
            0 <= at <= n <= 64,
            r@ == sep_join(numbered(pre@, post@, at as nat), sep@),
        decreases n - at,
    {
        let ghost before = r@;
        if at > 0 {
            r.append(sep);
        }
        r.append(pre);
        push_decimal(&mut r, at);
        r.append(post);
        let ghost parts = numbered(pre@, post@, (at + 1) as nat);
        assert(parts.drop_last() =~= numbered(pre@, post@, at as nat));
        if at == 0 {
            assert(before =~= Seq::<char>::empty());
            assert(r@ =~= parts[0]);
        } else {
            assert(r@ =~= before + sep@ + parts.last());
        }
        at += 1;
    }
    r
}

/// The function an integer argument program calls, before `main`.
pub open spec fn int_call_top(count: int) -> Seq<Seq<char>> {
    seq![
        "static long long total"@ + decimal(count) + "("@ + sep_join(
            numbered("long long a"@, Seq::empty(), count as nat),
            ", "@,
        ) + ") {"@,
        "    return "@ + sep_join(numbered("a"@, Seq::empty(), count as nat), " + "@) + ";"@,
        "}"@,
        input_global(Ty::I64, "seed"@, 1),
    ]
}

/// Whether a case is the call with `count` integer arguments, whole.
pub open spec fn is_int_call_case(c: Case, count: int) -> bool {
    &&& c.axes_text() == seq![("count"@, decimal(count)), ("kind"@, "integer"@)]
    &&& c.tags_text() == Seq::<Seq<char>>::empty()
    &&& c.program.purpose_text() == "a call with "@ + decimal(count) + " integer arguments"@
    &&& c.program.include_lines() == Seq::<Seq<char>>::empty()
    &&& c.program.top_lines() == int_call_top(count)
    &&& c.program.body_lines() == seq![
        input_read(Ty::I64, "seed"@),
        Seq::empty(),
        print_line(
            1,
            Ty::I64,
            "total"@ + decimal(count) + "("@ + sep_join(
                numbered("seed + "@, Seq::empty(), count as nat),
                ", "@,
            ) + ")"@,
        ),
    ]
    &&& c.program.expected_values() == seq![live_sum(count)]
    &&& !c.program.sinks()
}

/// The call with `count` integer arguments, each the seed plus its position.
fn int_call_case(count: i128) -> (r: Case)
    requires
        1 <= count <= 16,
    ensures
        is_int_call_case(r, count as int),
{
    proof {
        reveal_strlit("");
        assert(""@ =~= Seq::<char>::empty());
    }
    let n = decimal_string(count);
    let mut purpose = String::from_str("a call with ");
    purpose.append(n.as_str());
    purpose.append(" integer arguments");
    let mut program = Program::new(purpose.as_str());
    let params = numbered_join("long long a", "", ", ", count);
    let mut head = String::from_str("static long long total");
    head.append(n.as_str());
    head.append("(");
    head.append(params.as_str());
    head.append(") {");
    program.top(head.as_str());
    let sum = numbered_join("a", "", " + ", count);
    let mut back = String::from_str("    return ");
    back.append(sum.as_str());
    back.append(";");
    program.top(back.as_str());
    program.top("}");
    program.input(Ty::I64, "seed", 1);
    program.blank();
    let args = numbered_join("seed + ", "", ", ", count);
    let mut call = String::from_str("total");
    call.append(n.as_str());
    call.append("(");
    call.append(args.as_str());
    call.append(")");
    assert(count * (count + 1) <= 16 * 17) by (nonlinear_arith)
        requires
            1 <= count <= 16,
    ;
    program.check(Ty::I64, call.as_str(), count * (count + 1) / 2);
    assert(program.top_lines() =~~= int_call_top(count as int));
    assert(program.body_lines() =~~= seq![
        input_read(Ty::I64, "seed"@),
        Seq::empty(),
        print_line(1, Ty::I64, call@),
    ]);
    let axes = vec![axis("count", n.as_str()), axis("kind", "integer")];
    let r = Case { axes, tags: tags_for(false), program };
    assert(r.axes_text() =~= seq![("count"@, decimal(count as int)), ("kind"@, "integer"@)]);
    assert(r.program.expected_values() =~= seq![live_sum(count as int)]);
    r
}

/// The struct an aggregate program passes, and the functions that build it and add it up.
pub open spec fn bag_top(fields: int) -> Seq<Seq<char>> {
    seq![
        "struct bag { "@ + sep_join(numbered("long long f"@, ";"@, fields as nat), " "@) + " };"@,
        "static long long total(struct bag value) {"@,
        "    return "@ + sep_join(numbered("value.f"@, Seq::empty(), fields as nat), " + "@)
            + ";"@,
        "}"@,
        "static struct bag build(long long seed) {"@,
        "    struct bag out;"@,
    ] + Seq::new(
        fields as nat,
        |at: int| "    out.f"@ + decimal(at) + " = seed + "@ + decimal(at) + ";"@,
    ) + seq!["    return out;"@, "}"@, input_global(Ty::I64, "seed"@, 1)]
}

/// Whether a case is the struct of `fields` fields passed by value, whole.
pub open spec fn is_bag_case(c: Case, name: Seq<char>, fields: int) -> bool {
    &&& c.axes_text() == seq![("count"@, decimal(fields)), ("kind"@, name)]
    &&& c.tags_text() == Seq::<Seq<char>>::empty()
    &&& c.program.purpose_text() == "a struct of "@ + decimal(fields) + " fields passed by value"@
    &&& c.program.include_lines() == Seq::<Seq<char>>::empty()
    &&& c.program.top_lines() == bag_top(fields)
    &&& c.program.body_lines() == seq![
        input_read(Ty::I64, "seed"@),
        Seq::empty(),
        indent(1) + "struct bag made = build(seed);"@,
        print_line(1, Ty::I64, "total(made)"@),
    ]
    &&& c.program.expected_values() == seq![live_sum(fields)]
    &&& !c.program.sinks()
}

/// The struct of `fields` fields, each the seed plus its position, passed by value.
fn bag_case(name: &str, fields: i128) -> (r: Case)
    requires
        1 <= fields <= 16,
    ensures
        is_bag_case(r, name@, fields as int),
{
    proof {
        reveal_strlit("");
        assert(""@ =~= Seq::<char>::empty());
    }
    let n = decimal_string(fields);
    let mut purpose = String::from_str("a struct of ");
    purpose.append(n.as_str());
    purpose.append(" fields passed by value");
    let mut program = Program::new(purpose.as_str());
    let members = numbered_join("long long f", ";", " ", fields);
    let mut bag = String::from_str("struct bag { ");
    bag.append(members.as_str());
    bag.append(" };");
    program.top(bag.as_str());
    program.top("static long long total(struct bag value) {");
    let sum = numbered_join("value.f", "", " + ", fields);
    let mut back = String::from_str("    return ");
    back.append(sum.as_str());
    back.append(";");
    program.top(back.as_str());
    program.top("}");
    program.top("static struct bag build(long long seed) {");
    program.top("    struct bag out;");
    let ghost before = program.top_lines();
    let mut at: i128 = 0;
    while at < fields
        invariant
            0 <= at <= fields <= 16,
            program.top_lines() == before + Seq::new(
                at as nat,
                |i: int| "    out.f"@ + decimal(i) + " = seed + "@ + decimal(i) + ";"@,
            ),
            program.body_lines() == Seq::<Seq<char>>::empty(),
            program.purpose_text() == purpose@,
            program.include_lines() == Seq::<Seq<char>>::empty(),
            program.expected_values() == Seq::<int>::empty(),
            !program.sinks(),
        decreases fields - at,
    {
        let mut text = String::from_str("    out.f");
        push_decimal(&mut text, at);
        text.append(" = seed + ");
        push_decimal(&mut text, at);
        text.append(";");
        program.top(text.as_str());
        assert(before + Seq::new(
            (at + 1) as nat,
            |i: int| "    out.f"@ + decimal(i) + " = seed + "@ + decimal(i) + ";"@,
        ) =~= (before + Seq::new(
            at as nat,
            |i: int| "    out.f"@ + decimal(i) + " = seed + "@ + decimal(i) + ";"@,
        )).push(text@));
        at += 1;
    }
    program.top("    return out;");
    program.top("}");
    program.input(Ty::I64, "seed", 1);
    program.blank();
    program.line("struct bag made = build(seed);");
    assert(fields * (fields + 1) <= 16 * 17) by (nonlinear_arith)
        requires
            1 <= fields <= 16,
    ;
    program.check(Ty::I64, "total(made)", fields * (fields + 1) / 2);
    assert(program.top_lines() =~~= bag_top(fields as int));
    assert(program.body_lines() =~~= seq![
        input_read(Ty::I64, "seed"@),
        Seq::empty(),
        indent(1) + "struct bag made = build(seed);"@,
        print_line(1, Ty::I64, "total(made)"@),
    ]);
    let axes = vec![axis("count", n.as_str()), axis("kind", name)];
    let r = Case { axes, tags: tags_for(false), program };
    assert(r.axes_text() =~= seq![("count"@, decimal(fields as int)), ("kind"@, name@)]);
    assert(r.program.expected_values() =~= seq![live_sum(fields as int)]);
    r
}

/// The function the variable argument program calls, before `main`.
pub open spec fn varargs_top() -> Seq<Seq<char>> {
    seq![
        "static long long total(int count, ...) {"@,
        "    va_list rest;"@,
        "    long long sum = 0;"@,
        "    va_start(rest, count);"@,
        "    for (int at = 0; at < count; at++) {"@,
        "        sum += va_arg(rest, long long);"@,
        "    }"@,
        "    va_end(rest);"@,
        "    return sum;"@,
        "}"@,
        input_global(Ty::I64, "seed"@, 1),
    ]
}

/// The call through a variable argument list.
pub open spec fn varargs_call() -> Seq<char> {
    "total(6, seed, seed + 1, seed + 2, seed + 3, seed + 4, seed + 5)"@
}

/// Whether a case is the call through a variable argument list, whole.
pub open spec fn is_varargs_case(c: Case) -> bool {
    &&& c.axes_text() == seq![("count"@, "6"@), ("kind"@, "varargs"@)]
    &&& c.tags_text() == seq!["headers"@]
    &&& c.program.purpose_text() == "a variable argument list"@
    &&& c.program.include_lines() == seq![include_line("stdarg.h"@)]
    &&& c.program.top_lines() == varargs_top()
    &&& c.program.body_lines() == seq![
        input_read(Ty::I64, "seed"@),
        Seq::empty(),
        print_line(1, Ty::I64, varargs_call()),
    ]
    &&& c.program.expected_values() == seq![21int]
    &&& !c.program.sinks()
}

/// The call through a variable argument list, six arguments the seed plus their positions.
fn varargs_case() -> (r: Case)
    ensures
        is_varargs_case(r),
{
    let mut program = Program::new("a variable argument list");
    program.include_header("stdarg.h");
    program.top("static long long total(int count, ...) {");
    program.top("    va_list rest;");
    program.top("    long long sum = 0;");
    program.top("    va_start(rest, count);");
    program.top("    for (int at = 0; at < count; at++) {");
    program.top("        sum += va_arg(rest, long long);");
    program.top("    }");
    program.top("    va_end(rest);");
    program.top("    return sum;");
    program.top("}");
    program.input(Ty::I64, "seed", 1);
    program.blank();
    program.check(Ty::I64, "total(6, seed, seed + 1, seed + 2, seed + 3, seed + 4, seed + 5)", 21);
    assert(program.top_lines() =~~= varargs_top());
    assert(program.include_lines() =~~= seq![include_line("stdarg.h"@)]);
    assert(program.body_lines() =~~= seq![
        input_read(Ty::I64, "seed"@),
        Seq::empty(),
        print_line(1, Ty::I64, varargs_call()),
    ]);
    let axes = vec![axis("count", "6"), axis("kind", "varargs")];
    let tags = vec![String::from_str("headers")];
    let r = Case { axes, tags, program };
    assert(r.axes_text() =~= seq![("count"@, "6"@), ("kind"@, "varargs"@)]);
    assert(r.tags_text() =~= seq!["headers"@]);
    assert(r.program.expected_values() =~= seq![21int]);
    r
}

/// The argument counts of the integer calls.
pub open spec fn int_call_counts() -> Seq<int> {
    seq![1, 4, 6, 8, 16]
}

/// The names and field counts of the structs passed by value.
pub open spec fn bag_kinds() -> Seq<(Seq<char>, int)> {
    seq![("one-field"@, 1), ("two-fields"@, 2), ("four-fields"@, 4), ("sixteen-fields"@, 16)]
}

/// Arguments by count, structs by size, and a variable argument list.
///
/// Integer arguments past the number the convention passes in registers go on the stack; a
/// struct passed by value goes in registers, in pieces, or through memory depending on its size;
/// and a variable argument list is its own convention. Every argument and every field is the seed
/// plus its position, so a slot passed in the wrong place changes the sum.
pub fn calling_convention() -> (r: Vec<Case>)
    ensures
        r@.len() == 10,
        forall|k: int| 0 <= k < 5 ==> is_int_call_case(#[trigger] r@[k], int_call_counts()[k]),
        forall|k: int|
            5 <= k < 9 ==> is_bag_case(
                #[trigger] r@[k],
                bag_kinds()[k - 5].0,
                bag_kinds()[k - 5].1,
            ),
        is_varargs_case(r@[9]),
{
    let counts: [i128; 5] = [1, 4, 6, 8, 16];
    let mut out: Vec<Case> = Vec::new();
    let mut k: usize = 0;
    while k < 5
        invariant
            k <= 5,
            counts@ == seq![1i128, 4, 6, 8, 16],
            out@.len() == k,
            forall|i: int| 0 <= i < k ==> is_int_call_case(#[trigger] out@[i], int_call_counts()[i]),
        decreases 5 - k,
    {
        out.push(int_call_case(counts[k]));
        k += 1;
    }
    let names: [&str; 4] = ["one-field", "two-fields", "four-fields", "sixteen-fields"];
    let sizes: [i128; 4] = [1, 2, 4, 16];
    let mut k: usize = 0;
    while k < 4
        invariant
            k <= 4,
            names@.len() == 4,
            names@[0]@ == "one-field"@,
            names@[1]@ == "two-fields"@,
            names@[2]@ == "four-fields"@,
            names@[3]@ == "sixteen-fields"@,
            sizes@ == seq![1i128, 2, 4, 16],
            out@.len() == 5 + k,
            forall|i: int| 0 <= i < 5 ==> is_int_call_case(#[trigger] out@[i], int_call_counts()[i]),
            forall|i: int|
                5 <= i < 5 + k ==> is_bag_case(
                    #[trigger] out@[i],
                    bag_kinds()[i - 5].0,
                    bag_kinds()[i - 5].1,
                ),
        decreases 4 - k,
    {
        out.push(bag_case(names[k], sizes[k]));
        k += 1;
    }
    out.push(varargs_case());
    out
}

} // verus!
