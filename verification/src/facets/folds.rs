//! Memory operands the back end can take into the instruction that reads them: a load compared
//! against a value, a load consumed by arithmetic, one address shared by several readers, and
//! an address into the frame handed to a counted number of users.
//!
//! The arrays here are filled the same way throughout, so that `buffer[3]` holds the seed plus
//! three in every program and the answers can be read against each other.

use vstd::prelude::*;
use vstd::string::*;
use crate::emit::{Program, input_global, input_read, indent, print_line, sink_line};
use crate::lang::{Ty, all, all_types, wide, wide_types};
use crate::facets::{Case, axis, tags_for, lit, lit_text};
use crate::text::{decimal, push_decimal};

verus! {

/// A load compared against another value, and what stands between the two.
#[derive(Clone, Copy, Debug, PartialEq, Eq, Structural)]
pub enum CompareShape {
    EqualRight,
    EqualLeft,
    LessRight,
    LessLeft,
    ConstantEqual,
    ConstantOrdered,
    ConstantReversed,
    BigConstant,
    Branch,
    ByteAndBranch,
    TwoReaders,
    StoreBetween,
    CallBetween,
    IndexWrittenBetween,
    ComparisonInAnotherBlock,
}

impl CompareShape {
    /// The axis value.
    pub open spec fn name_text(self) -> Seq<char> {
        match self {
            CompareShape::EqualRight => "equal-right"@,
            CompareShape::EqualLeft => "equal-left"@,
            CompareShape::LessRight => "less-right"@,
            CompareShape::LessLeft => "less-left"@,
            CompareShape::ConstantEqual => "constant-equal"@,
            CompareShape::ConstantOrdered => "constant-ordered"@,
            CompareShape::ConstantReversed => "constant-reversed"@,
            CompareShape::BigConstant => "big-constant"@,
            CompareShape::Branch => "branch"@,
            CompareShape::ByteAndBranch => "byte-and-branch"@,
            CompareShape::TwoReaders => "two-readers"@,
            CompareShape::StoreBetween => "store-between"@,
            CompareShape::CallBetween => "call-between"@,
            CompareShape::IndexWrittenBetween => "index-written-between"@,
            CompareShape::ComparisonInAnotherBlock => "comparison-in-another-block"@,
        }
    }

    /// The axis value.
    pub fn name(self) -> (r: &'static str)
        ensures
            r@ == self.name_text(),
    {
        match self {
            CompareShape::EqualRight => "equal-right",
            CompareShape::EqualLeft => "equal-left",
            CompareShape::LessRight => "less-right",
            CompareShape::LessLeft => "less-left",
            CompareShape::ConstantEqual => "constant-equal",
            CompareShape::ConstantOrdered => "constant-ordered",
            CompareShape::ConstantReversed => "constant-reversed",
            CompareShape::BigConstant => "big-constant",
            CompareShape::Branch => "branch",
            CompareShape::ByteAndBranch => "byte-and-branch",
            CompareShape::TwoReaders => "two-readers",
            CompareShape::StoreBetween => "store-between",
            CompareShape::CallBetween => "call-between",
            CompareShape::IndexWrittenBetween => "index-written-between",
            CompareShape::ComparisonInAnotherBlock => "comparison-in-another-block",
        }
    }
}

/// The shapes in the order the facet walks them.
pub open spec fn compare_shapes_list() -> Seq<CompareShape> {
    seq![
        CompareShape::EqualRight,
        CompareShape::EqualLeft,
        CompareShape::LessRight,
        CompareShape::LessLeft,
        CompareShape::ConstantEqual,
        CompareShape::ConstantOrdered,
        CompareShape::ConstantReversed,
        CompareShape::BigConstant,
        CompareShape::Branch,
        CompareShape::ByteAndBranch,
        CompareShape::TwoReaders,
        CompareShape::StoreBetween,
        CompareShape::CallBetween,
        CompareShape::IndexWrittenBetween,
        CompareShape::ComparisonInAnotherBlock,
    ]
}

/// The shapes in the order the facet walks them.
fn compare_shapes_array() -> (r: Vec<CompareShape>)
    ensures
        r@ == compare_shapes_list(),
{
    let r = vec![
        CompareShape::EqualRight,
        CompareShape::EqualLeft,
        CompareShape::LessRight,
        CompareShape::LessLeft,
        CompareShape::ConstantEqual,
        CompareShape::ConstantOrdered,
        CompareShape::ConstantReversed,
        CompareShape::BigConstant,
        CompareShape::Branch,
        CompareShape::ByteAndBranch,
        CompareShape::TwoReaders,
        CompareShape::StoreBetween,
        CompareShape::CallBetween,
        CompareShape::IndexWrittenBetween,
        CompareShape::ComparisonInAnotherBlock,
    ];
    assert(r@ =~= compare_shapes_list());
    r
}

/// The lines before `main` of each shape.
pub open spec fn compare_top(ty: Ty, shape: CompareShape) -> Seq<Seq<char>> {
    match shape {
        CompareShape::EqualRight => seq![
            input_global(ty, "seed"@, 5int),
            input_global(Ty::I32, "at"@, 3int),
        ],
        CompareShape::EqualLeft => seq![
            input_global(ty, "seed"@, 5int),
            input_global(Ty::I32, "at"@, 3int),
        ],
        CompareShape::LessRight => seq![
            input_global(ty, "seed"@, 5int),
            input_global(Ty::I32, "at"@, 3int),
        ],
        CompareShape::LessLeft => seq![
            input_global(ty, "seed"@, 5int),
            input_global(Ty::I32, "at"@, 3int),
        ],
        CompareShape::ConstantEqual => seq![
            input_global(ty, "seed"@, 5int),
            input_global(Ty::I32, "at"@, 3int),
        ],
        CompareShape::ConstantOrdered => seq![
            input_global(ty, "seed"@, 5int),
            input_global(Ty::I32, "at"@, 3int),
        ],
        CompareShape::ConstantReversed => seq![
            input_global(ty, "seed"@, 5int),
            input_global(Ty::I32, "at"@, 3int),
        ],
        CompareShape::BigConstant => seq![
            input_global(ty, "seed"@, 5int),
            input_global(Ty::I32, "at"@, 3int),
        ],
        CompareShape::Branch => seq![
            input_global(ty, "seed"@, 5int),
            input_global(Ty::I32, "at"@, 3int),
        ],
        CompareShape::ByteAndBranch => seq![
            input_global(ty, "seed"@, 5int),
            input_global(Ty::I32, "at"@, 3int),
        ],
        CompareShape::TwoReaders => seq![
            input_global(ty, "seed"@, 5int),
            input_global(Ty::I32, "at"@, 3int),
        ],
        CompareShape::StoreBetween => seq![
            input_global(ty, "seed"@, 5int),
            input_global(Ty::I32, "at"@, 3int),
            input_global(Ty::I32, "other"@, 6int),
        ],
        CompareShape::CallBetween => seq![
            input_global(ty, "seed"@, 5int),
            input_global(Ty::I32, "at"@, 3int),
            "static volatile int noise_count;"@,
            "static void noise(void) {"@,
            "    noise_count = noise_count + 1;"@,
            "}"@,
            "static void (*volatile jump)(void) = noise;"@,
        ],
        CompareShape::IndexWrittenBetween => seq![
            input_global(ty, "seed"@, 5int),
            input_global(Ty::I32, "at"@, 3int),
            input_global(Ty::I32, "other"@, 6int),
        ],
        CompareShape::ComparisonInAnotherBlock => seq![
            input_global(ty, "seed"@, 5int),
            input_global(Ty::I32, "at"@, 3int),
            input_global(Ty::I32, "flag"@, 1int),
        ],
    }
}

/// The statements of `main` of each shape.
pub open spec fn compare_body(ty: Ty, shape: CompareShape) -> Seq<Seq<char>> {
    match shape {
        CompareShape::EqualRight => seq![
            input_read(ty, "seed"@),
            input_read(Ty::I32, "at"@),
            Seq::<char>::empty(),
            indent(1) + ty.c_text() + " buffer[8];"@,
            indent(1) + "for (int i = 0; i < 8; i++) {"@,
            indent(2) + "buffer[i] = seed + ("@ + ty.c_text() + ")i;"@,
            indent(1) + "}"@,
            indent(1) + "int total = (seed == buffer[at]) ? 4 : 7;"@,
            Seq::<char>::empty(),
            print_line(1, Ty::I32, "total"@),
        ],
        CompareShape::EqualLeft => seq![
            input_read(ty, "seed"@),
            input_read(Ty::I32, "at"@),
            Seq::<char>::empty(),
            indent(1) + ty.c_text() + " buffer[8];"@,
            indent(1) + "for (int i = 0; i < 8; i++) {"@,
            indent(2) + "buffer[i] = seed + ("@ + ty.c_text() + ")i;"@,
            indent(1) + "}"@,
            indent(1) + "int total = (buffer[at] == seed) ? 4 : 7;"@,
            Seq::<char>::empty(),
            print_line(1, Ty::I32, "total"@),
        ],
        CompareShape::LessRight => seq![
            input_read(ty, "seed"@),
            input_read(Ty::I32, "at"@),
            Seq::<char>::empty(),
            indent(1) + ty.c_text() + " buffer[8];"@,
            indent(1) + "for (int i = 0; i < 8; i++) {"@,
            indent(2) + "buffer[i] = seed + ("@ + ty.c_text() + ")i;"@,
            indent(1) + "}"@,
            indent(1) + "int total = (seed < buffer[at]) ? 4 : 7;"@,
            Seq::<char>::empty(),
            print_line(1, Ty::I32, "total"@),
        ],
        CompareShape::LessLeft => seq![
            input_read(ty, "seed"@),
            input_read(Ty::I32, "at"@),
            Seq::<char>::empty(),
            indent(1) + ty.c_text() + " buffer[8];"@,
            indent(1) + "for (int i = 0; i < 8; i++) {"@,
            indent(2) + "buffer[i] = seed + ("@ + ty.c_text() + ")i;"@,
            indent(1) + "}"@,
            indent(1) + "int total = (buffer[at] < seed) ? 4 : 7;"@,
            Seq::<char>::empty(),
            print_line(1, Ty::I32, "total"@),
        ],
        CompareShape::ConstantEqual => seq![
            input_read(ty, "seed"@),
            input_read(Ty::I32, "at"@),
            Seq::<char>::empty(),
            indent(1) + ty.c_text() + " buffer[8];"@,
            indent(1) + "for (int i = 0; i < 8; i++) {"@,
            indent(2) + "buffer[i] = seed + ("@ + ty.c_text() + ")i;"@,
            indent(1) + "}"@,
            indent(1) + "int total = (buffer[at] == 8) ? 4 : 7;"@,
            Seq::<char>::empty(),
            print_line(1, Ty::I32, "total"@),
        ],
        CompareShape::ConstantOrdered => seq![
            input_read(ty, "seed"@),
            input_read(Ty::I32, "at"@),
            Seq::<char>::empty(),
            indent(1) + ty.c_text() + " buffer[8];"@,
            indent(1) + "for (int i = 0; i < 8; i++) {"@,
            indent(2) + "buffer[i] = seed + ("@ + ty.c_text() + ")i;"@,
            indent(1) + "}"@,
            indent(1) + "int total = (buffer[at] < 10) ? 4 : 7;"@,
            Seq::<char>::empty(),
            print_line(1, Ty::I32, "total"@),
        ],
        CompareShape::ConstantReversed => seq![
            input_read(ty, "seed"@),
            input_read(Ty::I32, "at"@),
            Seq::<char>::empty(),
            indent(1) + ty.c_text() + " buffer[8];"@,
            indent(1) + "for (int i = 0; i < 8; i++) {"@,
            indent(2) + "buffer[i] = seed + ("@ + ty.c_text() + ")i;"@,
            indent(1) + "}"@,
            indent(1) + "int total = (10 < buffer[at]) ? 4 : 7;"@,
            Seq::<char>::empty(),
            print_line(1, Ty::I32, "total"@),
        ],
        CompareShape::BigConstant => seq![
            input_read(ty, "seed"@),
            input_read(Ty::I32, "at"@),
            Seq::<char>::empty(),
            indent(1) + ty.c_text() + " buffer[8];"@,
            indent(1) + "for (int i = 0; i < 8; i++) {"@,
            indent(2) + "buffer[i] = seed + ("@ + ty.c_text() + ")i;"@,
            indent(1) + "}"@,
            indent(1) + "int total = (buffer[at] < 4660) ? 4 : 7;"@,
            Seq::<char>::empty(),
            print_line(1, Ty::I32, "total"@),
        ],
        CompareShape::Branch => seq![
            input_read(ty, "seed"@),
            input_read(Ty::I32, "at"@),
            Seq::<char>::empty(),
            indent(1) + ty.c_text() + " buffer[8];"@,
            indent(1) + "for (int i = 0; i < 8; i++) {"@,
            indent(2) + "buffer[i] = seed + ("@ + ty.c_text() + ")i;"@,
            indent(1) + "}"@,
            indent(1) + "int total = 0;"@,
            indent(1) + "if (buffer[at] > seed) {"@,
            indent(2) + "total = total + 9;"@,
            indent(1) + "}"@,
            indent(1) + "total = total + 3;"@,
            Seq::<char>::empty(),
            print_line(1, Ty::I32, "total"@),
        ],
        CompareShape::ByteAndBranch => seq![
            input_read(ty, "seed"@),
            input_read(Ty::I32, "at"@),
            Seq::<char>::empty(),
            indent(1) + ty.c_text() + " buffer[8];"@,
            indent(1) + "for (int i = 0; i < 8; i++) {"@,
            indent(2) + "buffer[i] = seed + ("@ + ty.c_text() + ")i;"@,
            indent(1) + "}"@,
            indent(1) + "int answer = (buffer[at] > seed);"@,
            indent(1) + "int total = answer;"@,
            indent(1) + "if (answer) {"@,
            indent(2) + "total = total + 9;"@,
            indent(1) + "}"@,
            Seq::<char>::empty(),
            print_line(1, Ty::I32, "total"@),
        ],
        CompareShape::TwoReaders => seq![
            input_read(ty, "seed"@),
            input_read(Ty::I32, "at"@),
            Seq::<char>::empty(),
            indent(1) + ty.c_text() + " buffer[8];"@,
            indent(1) + "for (int i = 0; i < 8; i++) {"@,
            indent(2) + "buffer[i] = seed + ("@ + ty.c_text() + ")i;"@,
            indent(1) + "}"@,
            indent(1) + ty.c_text() + " value = buffer[at];"@,
            indent(1) + "int total = (seed < value) ? 4 : 7;"@,
            indent(1) + "total = total + (int)value;"@,
            Seq::<char>::empty(),
            print_line(1, Ty::I32, "total"@),
        ],
        CompareShape::StoreBetween => seq![
            input_read(ty, "seed"@),
            input_read(Ty::I32, "at"@),
            input_read(Ty::I32, "other"@),
            Seq::<char>::empty(),
            indent(1) + ty.c_text() + " buffer[8];"@,
            indent(1) + "for (int i = 0; i < 8; i++) {"@,
            indent(2) + "buffer[i] = seed + ("@ + ty.c_text() + ")i;"@,
            indent(1) + "}"@,
            indent(1) + ty.c_text() + " value = buffer[at];"@,
            indent(1) + "buffer[other] = seed;"@,
            indent(1) + "int total = (seed < value) ? 4 : 7;"@,
            indent(1) + "total = total + (int)buffer[other];"@,
            Seq::<char>::empty(),
            print_line(1, Ty::I32, "total"@),
        ],
        CompareShape::CallBetween => seq![
            input_read(ty, "seed"@),
            input_read(Ty::I32, "at"@),
            Seq::<char>::empty(),
            indent(1) + ty.c_text() + " buffer[8];"@,
            indent(1) + "for (int i = 0; i < 8; i++) {"@,
            indent(2) + "buffer[i] = seed + ("@ + ty.c_text() + ")i;"@,
            indent(1) + "}"@,
            indent(1) + ty.c_text() + " value = buffer[at];"@,
            indent(1) + "jump();"@,
            indent(1) + "int total = (seed < value) ? 4 : 7;"@,
            Seq::<char>::empty(),
            print_line(1, Ty::I32, "total"@),
        ],
        CompareShape::IndexWrittenBetween => seq![
            input_read(ty, "seed"@),
            input_read(Ty::I32, "at"@),
            input_read(Ty::I32, "other"@),
            Seq::<char>::empty(),
            indent(1) + ty.c_text() + " buffer[8];"@,
            indent(1) + "for (int i = 0; i < 8; i++) {"@,
            indent(2) + "buffer[i] = seed + ("@ + ty.c_text() + ")i;"@,
            indent(1) + "}"@,
            indent(1) + ty.c_text() + " value = buffer[at];"@,
            indent(1) + "at = other;"@,
            indent(1) + "int total = (value < 10) ? 4 : 7;"@,
            indent(1) + "total = total + (int)buffer[at];"@,
            Seq::<char>::empty(),
            print_line(1, Ty::I32, "total"@),
        ],
        CompareShape::ComparisonInAnotherBlock => seq![
            input_read(ty, "seed"@),
            input_read(Ty::I32, "at"@),
            input_read(Ty::I32, "flag"@),
            Seq::<char>::empty(),
            indent(1) + ty.c_text() + " buffer[8];"@,
            indent(1) + "for (int i = 0; i < 8; i++) {"@,
            indent(2) + "buffer[i] = seed + ("@ + ty.c_text() + ")i;"@,
            indent(1) + "}"@,
            indent(1) + ty.c_text() + " value = buffer[at];"@,
            indent(1) + "int total = 3;"@,
            indent(1) + "if (flag) {"@,
            indent(2) + "total = (seed < value) ? 4 : 7;"@,
            indent(1) + "}"@,
            Seq::<char>::empty(),
            print_line(1, Ty::I32, "total"@),
        ],
    }
}

/// The headers of each shape.
pub open spec fn compare_includes(ty: Ty, shape: CompareShape) -> Seq<Seq<char>> {
    match shape {
        CompareShape::EqualRight => Seq::empty(),
        CompareShape::EqualLeft => Seq::empty(),
        CompareShape::LessRight => Seq::empty(),
        CompareShape::LessLeft => Seq::empty(),
        CompareShape::ConstantEqual => Seq::empty(),
        CompareShape::ConstantOrdered => Seq::empty(),
        CompareShape::ConstantReversed => Seq::empty(),
        CompareShape::BigConstant => Seq::empty(),
        CompareShape::Branch => Seq::empty(),
        CompareShape::ByteAndBranch => Seq::empty(),
        CompareShape::TwoReaders => Seq::empty(),
        CompareShape::StoreBetween => Seq::empty(),
        CompareShape::CallBetween => Seq::empty(),
        CompareShape::IndexWrittenBetween => Seq::empty(),
        CompareShape::ComparisonInAnotherBlock => Seq::empty(),
    }
}

/// What the program prints of each shape.
pub open spec fn compare_expected(ty: Ty, shape: CompareShape) -> Seq<int> {
    match shape {
        CompareShape::EqualRight => seq![
            7int,
        ],
        CompareShape::EqualLeft => seq![
            7int,
        ],
        CompareShape::LessRight => seq![
            4int,
        ],
        CompareShape::LessLeft => seq![
            7int,
        ],
        CompareShape::ConstantEqual => seq![
            4int,
        ],
        CompareShape::ConstantOrdered => seq![
            4int,
        ],
        CompareShape::ConstantReversed => seq![
            7int,
        ],
        CompareShape::BigConstant => seq![
            4int,
        ],
        CompareShape::Branch => seq![
            12int,
        ],
        CompareShape::ByteAndBranch => seq![
            10int,
        ],
        CompareShape::TwoReaders => seq![
            12int,
        ],
        CompareShape::StoreBetween => seq![
            9int,
        ],
        CompareShape::CallBetween => seq![
            4int,
        ],
        CompareShape::IndexWrittenBetween => seq![
            15int,
        ],
        CompareShape::ComparisonInAnotherBlock => seq![
            4int,
        ],
    }
}

/// Whether the shape asks for the volatile sink.
pub open spec fn compare_sinks(shape: CompareShape) -> bool {
    match shape {
        CompareShape::EqualRight => false,
        CompareShape::EqualLeft => false,
        CompareShape::LessRight => false,
        CompareShape::LessLeft => false,
        CompareShape::ConstantEqual => false,
        CompareShape::ConstantOrdered => false,
        CompareShape::ConstantReversed => false,
        CompareShape::BigConstant => false,
        CompareShape::Branch => false,
        CompareShape::ByteAndBranch => false,
        CompareShape::TwoReaders => false,
        CompareShape::StoreBetween => false,
        CompareShape::CallBetween => false,
        CompareShape::IndexWrittenBetween => false,
        CompareShape::ComparisonInAnotherBlock => false,
    }
}

/// Writes some of the shapes.
#[verifier::rlimit(100)]
fn compare_write_0(program: &mut Program, ty: Ty, shape: CompareShape)
    requires
        old(program).top_lines() == Seq::<Seq<char>>::empty(),
        old(program).body_lines() == Seq::<Seq<char>>::empty(),
        old(program).expected_values() == Seq::<int>::empty(),
        old(program).include_lines() == Seq::<Seq<char>>::empty(),
        !old(program).sinks(),
        shape == CompareShape::EqualRight || shape == CompareShape::EqualLeft || shape == CompareShape::LessRight || shape == CompareShape::LessLeft,
    ensures
        final(program).top_lines() == compare_top(ty, shape),
        final(program).body_lines() == compare_body(ty, shape),
        final(program).expected_values() == compare_expected(ty, shape),
        final(program).include_lines() == compare_includes(ty, shape),
        final(program).sinks() == compare_sinks(shape),
        final(program).purpose_text() == old(program).purpose_text(),
{
    let c = ty.c_name();
    match shape {
        CompareShape::EqualRight => {
            program.input(ty, "seed", 5);
            program.input(Ty::I32, "at", 3);
            program.blank();
            let mut text1 = String::from_str(c);
            text1.append(" buffer[8];");
            program.line(text1.as_str());
            program.line("for (int i = 0; i < 8; i++) {");
            let mut text2 = String::from_str("buffer[i] = seed + (");
            text2.append(c);
            text2.append(")i;");
            program.line_at(1, text2.as_str());
            program.line("}");
            program.line("int total = (seed == buffer[at]) ? 4 : 7;");
            program.blank();
            program.check(Ty::I32, "total", 7);
            assert(program.top_lines() =~~= compare_top(ty, shape));
            assert(program.body_lines() =~~= compare_body(ty, shape));
            assert(program.expected_values() =~= compare_expected(ty, shape));
            assert(program.include_lines() =~~= compare_includes(ty, shape));
        },
        CompareShape::EqualLeft => {
            program.input(ty, "seed", 5);
            program.input(Ty::I32, "at", 3);
            program.blank();
            let mut text1 = String::from_str(c);
            text1.append(" buffer[8];");
            program.line(text1.as_str());
            program.line("for (int i = 0; i < 8; i++) {");
            let mut text2 = String::from_str("buffer[i] = seed + (");
            text2.append(c);
            text2.append(")i;");
            program.line_at(1, text2.as_str());
            program.line("}");
            program.line("int total = (buffer[at] == seed) ? 4 : 7;");
            program.blank();
            program.check(Ty::I32, "total", 7);
            assert(program.top_lines() =~~= compare_top(ty, shape));
            assert(program.body_lines() =~~= compare_body(ty, shape));
            assert(program.expected_values() =~= compare_expected(ty, shape));
            assert(program.include_lines() =~~= compare_includes(ty, shape));
        },
        CompareShape::LessRight => {
            program.input(ty, "seed", 5);
            program.input(Ty::I32, "at", 3);
            program.blank();
            let mut text1 = String::from_str(c);
            text1.append(" buffer[8];");
            program.line(text1.as_str());
            program.line("for (int i = 0; i < 8; i++) {");
            let mut text2 = String::from_str("buffer[i] = seed + (");
            text2.append(c);
            text2.append(")i;");
            program.line_at(1, text2.as_str());
            program.line("}");
            program.line("int total = (seed < buffer[at]) ? 4 : 7;");
            program.blank();
            program.check(Ty::I32, "total", 4);
            assert(program.top_lines() =~~= compare_top(ty, shape));
            assert(program.body_lines() =~~= compare_body(ty, shape));
            assert(program.expected_values() =~= compare_expected(ty, shape));
            assert(program.include_lines() =~~= compare_includes(ty, shape));
        },
        CompareShape::LessLeft => {
            program.input(ty, "seed", 5);
            program.input(Ty::I32, "at", 3);
            program.blank();
            let mut text1 = String::from_str(c);
            text1.append(" buffer[8];");
            program.line(text1.as_str());
            program.line("for (int i = 0; i < 8; i++) {");
            let mut text2 = String::from_str("buffer[i] = seed + (");
            text2.append(c);
            text2.append(")i;");
            program.line_at(1, text2.as_str());
            program.line("}");
            program.line("int total = (buffer[at] < seed) ? 4 : 7;");
            program.blank();
            program.check(Ty::I32, "total", 7);
            assert(program.top_lines() =~~= compare_top(ty, shape));
            assert(program.body_lines() =~~= compare_body(ty, shape));
            assert(program.expected_values() =~= compare_expected(ty, shape));
            assert(program.include_lines() =~~= compare_includes(ty, shape));
        },
        _ => {},
    }
}

/// Writes some of the shapes.
#[verifier::rlimit(100)]
fn compare_write_1(program: &mut Program, ty: Ty, shape: CompareShape)
    requires
        old(program).top_lines() == Seq::<Seq<char>>::empty(),
        old(program).body_lines() == Seq::<Seq<char>>::empty(),
        old(program).expected_values() == Seq::<int>::empty(),
        old(program).include_lines() == Seq::<Seq<char>>::empty(),
        !old(program).sinks(),
        shape == CompareShape::ConstantEqual || shape == CompareShape::ConstantOrdered || shape == CompareShape::ConstantReversed || shape == CompareShape::BigConstant,
    ensures
        final(program).top_lines() == compare_top(ty, shape),
        final(program).body_lines() == compare_body(ty, shape),
        final(program).expected_values() == compare_expected(ty, shape),
        final(program).include_lines() == compare_includes(ty, shape),
        final(program).sinks() == compare_sinks(shape),
        final(program).purpose_text() == old(program).purpose_text(),
{
    let c = ty.c_name();
    match shape {
        CompareShape::ConstantEqual => {
            program.input(ty, "seed", 5);
            program.input(Ty::I32, "at", 3);
            program.blank();
            let mut text1 = String::from_str(c);
            text1.append(" buffer[8];");
            program.line(text1.as_str());
            program.line("for (int i = 0; i < 8; i++) {");
            let mut text2 = String::from_str("buffer[i] = seed + (");
            text2.append(c);
            text2.append(")i;");
            program.line_at(1, text2.as_str());
            program.line("}");
            program.line("int total = (buffer[at] == 8) ? 4 : 7;");
            program.blank();
            program.check(Ty::I32, "total", 4);
            assert(program.top_lines() =~~= compare_top(ty, shape));
            assert(program.body_lines() =~~= compare_body(ty, shape));
            assert(program.expected_values() =~= compare_expected(ty, shape));
            assert(program.include_lines() =~~= compare_includes(ty, shape));
        },
        CompareShape::ConstantOrdered => {
            program.input(ty, "seed", 5);
            program.input(Ty::I32, "at", 3);
            program.blank();
            let mut text1 = String::from_str(c);
            text1.append(" buffer[8];");
            program.line(text1.as_str());
            program.line("for (int i = 0; i < 8; i++) {");
            let mut text2 = String::from_str("buffer[i] = seed + (");
            text2.append(c);
            text2.append(")i;");
            program.line_at(1, text2.as_str());
            program.line("}");
            program.line("int total = (buffer[at] < 10) ? 4 : 7;");
            program.blank();
            program.check(Ty::I32, "total", 4);
            assert(program.top_lines() =~~= compare_top(ty, shape));
            assert(program.body_lines() =~~= compare_body(ty, shape));
            assert(program.expected_values() =~= compare_expected(ty, shape));
            assert(program.include_lines() =~~= compare_includes(ty, shape));
        },
        CompareShape::ConstantReversed => {
            program.input(ty, "seed", 5);
            program.input(Ty::I32, "at", 3);
            program.blank();
            let mut text1 = String::from_str(c);
            text1.append(" buffer[8];");
            program.line(text1.as_str());
            program.line("for (int i = 0; i < 8; i++) {");
            let mut text2 = String::from_str("buffer[i] = seed + (");
            text2.append(c);
            text2.append(")i;");
            program.line_at(1, text2.as_str());
            program.line("}");
            program.line("int total = (10 < buffer[at]) ? 4 : 7;");
            program.blank();
            program.check(Ty::I32, "total", 7);
            assert(program.top_lines() =~~= compare_top(ty, shape));
            assert(program.body_lines() =~~= compare_body(ty, shape));
            assert(program.expected_values() =~= compare_expected(ty, shape));
            assert(program.include_lines() =~~= compare_includes(ty, shape));
        },
        CompareShape::BigConstant => {
            program.input(ty, "seed", 5);
            program.input(Ty::I32, "at", 3);
            program.blank();
            let mut text1 = String::from_str(c);
            text1.append(" buffer[8];");
            program.line(text1.as_str());
            program.line("for (int i = 0; i < 8; i++) {");
            let mut text2 = String::from_str("buffer[i] = seed + (");
            text2.append(c);
            text2.append(")i;");
            program.line_at(1, text2.as_str());
            program.line("}");
            program.line("int total = (buffer[at] < 4660) ? 4 : 7;");
            program.blank();
            program.check(Ty::I32, "total", 4);
            assert(program.top_lines() =~~= compare_top(ty, shape));
            assert(program.body_lines() =~~= compare_body(ty, shape));
            assert(program.expected_values() =~= compare_expected(ty, shape));
            assert(program.include_lines() =~~= compare_includes(ty, shape));
        },
        _ => {},
    }
}

/// Writes some of the shapes.
#[verifier::rlimit(100)]
fn compare_write_2(program: &mut Program, ty: Ty, shape: CompareShape)
    requires
        old(program).top_lines() == Seq::<Seq<char>>::empty(),
        old(program).body_lines() == Seq::<Seq<char>>::empty(),
        old(program).expected_values() == Seq::<int>::empty(),
        old(program).include_lines() == Seq::<Seq<char>>::empty(),
        !old(program).sinks(),
        shape == CompareShape::Branch || shape == CompareShape::ByteAndBranch || shape == CompareShape::TwoReaders || shape == CompareShape::StoreBetween,
    ensures
        final(program).top_lines() == compare_top(ty, shape),
        final(program).body_lines() == compare_body(ty, shape),
        final(program).expected_values() == compare_expected(ty, shape),
        final(program).include_lines() == compare_includes(ty, shape),
        final(program).sinks() == compare_sinks(shape),
        final(program).purpose_text() == old(program).purpose_text(),
{
    let c = ty.c_name();
    match shape {
        CompareShape::Branch => {
            program.input(ty, "seed", 5);
            program.input(Ty::I32, "at", 3);
            program.blank();
            let mut text1 = String::from_str(c);
            text1.append(" buffer[8];");
            program.line(text1.as_str());
            program.line("for (int i = 0; i < 8; i++) {");
            let mut text2 = String::from_str("buffer[i] = seed + (");
            text2.append(c);
            text2.append(")i;");
            program.line_at(1, text2.as_str());
            program.line("}");
            program.line("int total = 0;");
            program.line("if (buffer[at] > seed) {");
            program.line_at(1, "total = total + 9;");
            program.line("}");
            program.line("total = total + 3;");
            program.blank();
            program.check(Ty::I32, "total", 12);
            assert(program.top_lines() =~~= compare_top(ty, shape));
            assert(program.body_lines() =~~= compare_body(ty, shape));
            assert(program.expected_values() =~= compare_expected(ty, shape));
            assert(program.include_lines() =~~= compare_includes(ty, shape));
        },
        CompareShape::ByteAndBranch => {
            program.input(ty, "seed", 5);
            program.input(Ty::I32, "at", 3);
            program.blank();
            let mut text1 = String::from_str(c);
            text1.append(" buffer[8];");
            program.line(text1.as_str());
            program.line("for (int i = 0; i < 8; i++) {");
            let mut text2 = String::from_str("buffer[i] = seed + (");
            text2.append(c);
            text2.append(")i;");
            program.line_at(1, text2.as_str());
            program.line("}");
            program.line("int answer = (buffer[at] > seed);");
            program.line("int total = answer;");
            program.line("if (answer) {");
            program.line_at(1, "total = total + 9;");
            program.line("}");
            program.blank();
            program.check(Ty::I32, "total", 10);
            assert(program.top_lines() =~~= compare_top(ty, shape));
            assert(program.body_lines() =~~= compare_body(ty, shape));
            assert(program.expected_values() =~= compare_expected(ty, shape));
            assert(program.include_lines() =~~= compare_includes(ty, shape));
        },
        CompareShape::TwoReaders => {
            program.input(ty, "seed", 5);
            program.input(Ty::I32, "at", 3);
            program.blank();
            let mut text1 = String::from_str(c);
            text1.append(" buffer[8];");
            program.line(text1.as_str());
            program.line("for (int i = 0; i < 8; i++) {");
            let mut text2 = String::from_str("buffer[i] = seed + (");
            text2.append(c);
            text2.append(")i;");
            program.line_at(1, text2.as_str());
            program.line("}");
            let mut text3 = String::from_str(c);
            text3.append(" value = buffer[at];");
            program.line(text3.as_str());
            program.line("int total = (seed < value) ? 4 : 7;");
            program.line("total = total + (int)value;");
            program.blank();
            program.check(Ty::I32, "total", 12);
            assert(program.top_lines() =~~= compare_top(ty, shape));
            assert(program.body_lines() =~~= compare_body(ty, shape));
            assert(program.expected_values() =~= compare_expected(ty, shape));
            assert(program.include_lines() =~~= compare_includes(ty, shape));
        },
        CompareShape::StoreBetween => {
            program.input(ty, "seed", 5);
            program.input(Ty::I32, "at", 3);
            program.input(Ty::I32, "other", 6);
            program.blank();
            let mut text1 = String::from_str(c);
            text1.append(" buffer[8];");
            program.line(text1.as_str());
            program.line("for (int i = 0; i < 8; i++) {");
            let mut text2 = String::from_str("buffer[i] = seed + (");
            text2.append(c);
            text2.append(")i;");
            program.line_at(1, text2.as_str());
            program.line("}");
            let mut text3 = String::from_str(c);
            text3.append(" value = buffer[at];");
            program.line(text3.as_str());
            program.line("buffer[other] = seed;");
            program.line("int total = (seed < value) ? 4 : 7;");
            program.line("total = total + (int)buffer[other];");
            program.blank();
            program.check(Ty::I32, "total", 9);
            assert(program.top_lines() =~~= compare_top(ty, shape));
            assert(program.body_lines() =~~= compare_body(ty, shape));
            assert(program.expected_values() =~= compare_expected(ty, shape));
            assert(program.include_lines() =~~= compare_includes(ty, shape));
        },
        _ => {},
    }
}

/// Writes some of the shapes.
#[verifier::rlimit(100)]
fn compare_write_3(program: &mut Program, ty: Ty, shape: CompareShape)
    requires
        old(program).top_lines() == Seq::<Seq<char>>::empty(),
        old(program).body_lines() == Seq::<Seq<char>>::empty(),
        old(program).expected_values() == Seq::<int>::empty(),
        old(program).include_lines() == Seq::<Seq<char>>::empty(),
        !old(program).sinks(),
        shape == CompareShape::CallBetween || shape == CompareShape::IndexWrittenBetween || shape == CompareShape::ComparisonInAnotherBlock,
    ensures
        final(program).top_lines() == compare_top(ty, shape),
        final(program).body_lines() == compare_body(ty, shape),
        final(program).expected_values() == compare_expected(ty, shape),
        final(program).include_lines() == compare_includes(ty, shape),
        final(program).sinks() == compare_sinks(shape),
        final(program).purpose_text() == old(program).purpose_text(),
{
    let c = ty.c_name();
    match shape {
        CompareShape::CallBetween => {
            program.input(ty, "seed", 5);
            program.input(Ty::I32, "at", 3);
            program.top("static volatile int noise_count;");
            program.top("static void noise(void) {");
            program.top("    noise_count = noise_count + 1;");
            program.top("}");
            program.top("static void (*volatile jump)(void) = noise;");
            program.blank();
            let mut text1 = String::from_str(c);
            text1.append(" buffer[8];");
            program.line(text1.as_str());
            program.line("for (int i = 0; i < 8; i++) {");
            let mut text2 = String::from_str("buffer[i] = seed + (");
            text2.append(c);
            text2.append(")i;");
            program.line_at(1, text2.as_str());
            program.line("}");
            let mut text3 = String::from_str(c);
            text3.append(" value = buffer[at];");
            program.line(text3.as_str());
            program.line("jump();");
            program.line("int total = (seed < value) ? 4 : 7;");
            program.blank();
            program.check(Ty::I32, "total", 4);
            assert(program.top_lines() =~~= compare_top(ty, shape));
            assert(program.body_lines() =~~= compare_body(ty, shape));
            assert(program.expected_values() =~= compare_expected(ty, shape));
            assert(program.include_lines() =~~= compare_includes(ty, shape));
        },
        CompareShape::IndexWrittenBetween => {
            program.input(ty, "seed", 5);
            program.input(Ty::I32, "at", 3);
            program.input(Ty::I32, "other", 6);
            program.blank();
            let mut text1 = String::from_str(c);
            text1.append(" buffer[8];");
            program.line(text1.as_str());
            program.line("for (int i = 0; i < 8; i++) {");
            let mut text2 = String::from_str("buffer[i] = seed + (");
            text2.append(c);
            text2.append(")i;");
            program.line_at(1, text2.as_str());
            program.line("}");
            let mut text3 = String::from_str(c);
            text3.append(" value = buffer[at];");
            program.line(text3.as_str());
            program.line("at = other;");
            program.line("int total = (value < 10) ? 4 : 7;");
            program.line("total = total + (int)buffer[at];");
            program.blank();
            program.check(Ty::I32, "total", 15);
            assert(program.top_lines() =~~= compare_top(ty, shape));
            assert(program.body_lines() =~~= compare_body(ty, shape));
            assert(program.expected_values() =~= compare_expected(ty, shape));
            assert(program.include_lines() =~~= compare_includes(ty, shape));
        },
        CompareShape::ComparisonInAnotherBlock => {
            program.input(ty, "seed", 5);
            program.input(Ty::I32, "at", 3);
            program.input(Ty::I32, "flag", 1);
            program.blank();
            let mut text1 = String::from_str(c);
            text1.append(" buffer[8];");
            program.line(text1.as_str());
            program.line("for (int i = 0; i < 8; i++) {");
            let mut text2 = String::from_str("buffer[i] = seed + (");
            text2.append(c);
            text2.append(")i;");
            program.line_at(1, text2.as_str());
            program.line("}");
            let mut text3 = String::from_str(c);
            text3.append(" value = buffer[at];");
            program.line(text3.as_str());
            program.line("int total = 3;");
            program.line("if (flag) {");
            program.line_at(1, "total = (seed < value) ? 4 : 7;");
            program.line("}");
            program.blank();
            program.check(Ty::I32, "total", 4);
            assert(program.top_lines() =~~= compare_top(ty, shape));
            assert(program.body_lines() =~~= compare_body(ty, shape));
            assert(program.expected_values() =~= compare_expected(ty, shape));
            assert(program.include_lines() =~~= compare_includes(ty, shape));
        },
        _ => {},
    }
}

/// Writes a shape.
fn compare_write(program: &mut Program, ty: Ty, shape: CompareShape)
    requires
        old(program).top_lines() == Seq::<Seq<char>>::empty(),
        old(program).body_lines() == Seq::<Seq<char>>::empty(),
        old(program).expected_values() == Seq::<int>::empty(),
        old(program).include_lines() == Seq::<Seq<char>>::empty(),
        !old(program).sinks(),
    ensures
        final(program).top_lines() == compare_top(ty, shape),
        final(program).body_lines() == compare_body(ty, shape),
        final(program).expected_values() == compare_expected(ty, shape),
        final(program).include_lines() == compare_includes(ty, shape),
        final(program).sinks() == compare_sinks(shape),
        final(program).purpose_text() == old(program).purpose_text(),
{
    match shape {
        CompareShape::EqualRight | CompareShape::EqualLeft | CompareShape::LessRight | CompareShape::LessLeft => {
            compare_write_0(program, ty, shape);
        },
        CompareShape::ConstantEqual | CompareShape::ConstantOrdered | CompareShape::ConstantReversed | CompareShape::BigConstant => {
            compare_write_1(program, ty, shape);
        },
        CompareShape::Branch | CompareShape::ByteAndBranch | CompareShape::TwoReaders | CompareShape::StoreBetween => {
            compare_write_2(program, ty, shape);
        },
        CompareShape::CallBetween | CompareShape::IndexWrittenBetween | CompareShape::ComparisonInAnotherBlock => {
            compare_write_3(program, ty, shape);
        },
    }
}

/// Whether a case is the compare shape at a type, whole.
pub open spec fn is_compare_case(c: Case, ty: Ty, shape: CompareShape) -> bool {
    &&& c.axes_text() == seq![("type"@, ty.name_text()), ("shape"@, shape.name_text())]
    &&& c.tags_text() == Seq::<Seq<char>>::empty()
    &&& c.program.purpose_text() == "one "@ + ty.c_text() + " load compared, "@ + shape.name_text()
    &&& c.program.include_lines() == compare_includes(ty, shape)
    &&& c.program.top_lines() == compare_top(ty, shape)
    &&& c.program.body_lines() == compare_body(ty, shape)
    &&& c.program.expected_values() == compare_expected(ty, shape)
    &&& c.program.sinks() == compare_sinks(shape)
}

/// One compare shape at one type.
fn compare_case(ty: Ty, shape: CompareShape) -> (r: Case)
    ensures
        is_compare_case(r, ty, shape),
{
    let mut purpose = String::new();
    purpose.append("one ");
    purpose.append(ty.c_name());
    purpose.append(" load compared, ");
    purpose.append(shape.name());
    let mut program = Program::new(purpose.as_str());
    compare_write(&mut program, ty, shape);
    let axes = vec![axis("type", ty.name()), axis("shape", shape.name())];
    let r = Case { axes, tags: tags_for(false), program };
    assert(r.axes_text() =~= seq![("type"@, ty.name_text()), ("shape"@, shape.name_text())]);
    assert(r.tags_text() =~= Seq::<Seq<char>>::empty());
    r
}

/// The number of compare cases before those of the type at position `t`: the two byte types have no program for the big constant, which does not fit a byte.
pub open spec fn compare_base(t: int) -> int {
    if t == 0 {
        0
    } else if t == 1 {
        14
    } else if t == 2 {
        28
    } else if t == 3 {
        43
    } else if t == 4 {
        58
    } else if t == 5 {
        73
    } else if t == 6 {
        88
    } else if t == 7 {
        103
    } else {
        118
    }
}

/// The type and shape of the compare case at position `k`.
pub open spec fn compare_point(k: int) -> (Ty, CompareShape) {
    if k < 14 {
        (all_types()[0], compare_shapes_list()[if (k) < 7 { (k) } else { (k) + 1 }])
    } else if k < 28 {
        (all_types()[1], compare_shapes_list()[if (k - 14) < 7 { (k - 14) } else { (k - 14) + 1 }])
    } else if k < 43 {
        (all_types()[2], compare_shapes_list()[(k - 28)])
    } else if k < 58 {
        (all_types()[3], compare_shapes_list()[(k - 43)])
    } else if k < 73 {
        (all_types()[4], compare_shapes_list()[(k - 58)])
    } else if k < 88 {
        (all_types()[5], compare_shapes_list()[(k - 73)])
    } else if k < 103 {
        (all_types()[6], compare_shapes_list()[(k - 88)])
    } else {
        (all_types()[7], compare_shapes_list()[(k - 103)])
    }
}

/// Whether the pair has no compare program.
pub open spec fn compare_skipped(ty: Ty, shape: CompareShape) -> bool {
    shape == CompareShape::BigConstant && ty.width() == 8
}

/// One load compared against a value, on every type.
///
/// A comparison can take one of its sides straight from memory, and which side that is decides
/// whether the condition has to be turned over. The shapes are the equality and the ordering with
/// the load on either side, the comparisons against a constant, a constant too big for the short
/// encoding, the answer branched on or kept, and the reasons the load and the comparison are not
/// one instruction.
pub fn compare_fold() -> (r: Vec<Case>)
    ensures
        r@.len() == 118,
        forall|k: int|
            0 <= k < 118 ==> is_compare_case(
                #[trigger] r@[k],
                compare_point(k).0,
                compare_point(k).1,
            ),
{
    let types = all();
    let shapes = compare_shapes_array();
    let mut out: Vec<Case> = Vec::new();
    let mut t: usize = 0;
    while t < 8
        invariant
            t <= 8,
            types@ == all_types(),
            shapes@ == compare_shapes_list(),
            out@.len() == compare_base(t as int),
            forall|k: int|
                0 <= k < out@.len() ==> is_compare_case(
                    #[trigger] out@[k],
                    compare_point(k).0,
                    compare_point(k).1,
                ),
        decreases 8 - t,
    {
        let ty = types[t];
        let base = out.len();
        let ghost skips = compare_skipped(ty, CompareShape::BigConstant);
        assert(compare_base(t + 1) == base + if skips { 14int } else { 15int });
        let mut s: usize = 0;
        while s < 15
            invariant
                t < 8,
                s <= 15,
                ty == all_types()[t as int],
                skips == compare_skipped(ty, CompareShape::BigConstant),
                types@ == all_types(),
                shapes@ == compare_shapes_list(),
                base == compare_base(t as int),
                compare_base(t + 1) == base + if skips { 14int } else { 15int },
                out@.len() == base + if skips && s > 7 {
                    s - 1
                } else {
                    s as int
                },
                forall|k: int|
                    0 <= k < out@.len() ==> is_compare_case(
                        #[trigger] out@[k],
                        compare_point(k).0,
                        compare_point(k).1,
                    ),
            decreases 15 - s,
        {
            let shape = shapes[s];
            if !(shape == CompareShape::BigConstant && ty.bits() == 8) {
                let ghost k = out@.len() as int;
                let ghost j: int = if skips && s > 7 { s - 1 } else { s as int };
                assert(compare_point(k) == (ty, shape)) by {
                    if t == 0 {
                        assert(k - 0 == j);
                    } else if t == 1 {
                        assert(k - 14 == j);
                    } else if t == 2 {
                        assert(k - 28 == j);
                    } else if t == 3 {
                        assert(k - 43 == j);
                    } else if t == 4 {
                        assert(k - 58 == j);
                    } else if t == 5 {
                        assert(k - 73 == j);
                    } else if t == 6 {
                        assert(k - 88 == j);
                    } else if t == 7 {
                        assert(k - 103 == j);
                    }
                }
                out.push(compare_case(ty, shape));
            }
            s += 1;
        }
        t += 1;
    }
    out
}

/// A load consumed by arithmetic, and what stands between the two.
#[derive(Clone, Copy, Debug, PartialEq, Eq, Structural)]
pub enum LoadShape {
    OneReader,
    TwoReaders,
    StoreBetween,
    CallBetween,
    LoadBetween,
    IndexWrittenBetween,
    SubtractLeft,
    SubtractRight,
    ReaderInAnotherBlock,
    NarrowerLoad,
}

impl LoadShape {
    /// The axis value.
    pub open spec fn name_text(self) -> Seq<char> {
        match self {
            LoadShape::OneReader => "one-reader"@,
            LoadShape::TwoReaders => "two-readers"@,
            LoadShape::StoreBetween => "store-between"@,
            LoadShape::CallBetween => "call-between"@,
            LoadShape::LoadBetween => "load-between"@,
            LoadShape::IndexWrittenBetween => "index-written-between"@,
            LoadShape::SubtractLeft => "subtract-left"@,
            LoadShape::SubtractRight => "subtract-right"@,
            LoadShape::ReaderInAnotherBlock => "reader-in-another-block"@,
            LoadShape::NarrowerLoad => "narrower-load"@,
        }
    }

    /// The axis value.
    pub fn name(self) -> (r: &'static str)
        ensures
            r@ == self.name_text(),
    {
        match self {
            LoadShape::OneReader => "one-reader",
            LoadShape::TwoReaders => "two-readers",
            LoadShape::StoreBetween => "store-between",
            LoadShape::CallBetween => "call-between",
            LoadShape::LoadBetween => "load-between",
            LoadShape::IndexWrittenBetween => "index-written-between",
            LoadShape::SubtractLeft => "subtract-left",
            LoadShape::SubtractRight => "subtract-right",
            LoadShape::ReaderInAnotherBlock => "reader-in-another-block",
            LoadShape::NarrowerLoad => "narrower-load",
        }
    }
}

/// The shapes in the order the facet walks them.
pub open spec fn load_shapes_list() -> Seq<LoadShape> {
    seq![
        LoadShape::OneReader,
        LoadShape::TwoReaders,
        LoadShape::StoreBetween,
        LoadShape::CallBetween,
        LoadShape::LoadBetween,
        LoadShape::IndexWrittenBetween,
        LoadShape::SubtractLeft,
        LoadShape::SubtractRight,
        LoadShape::ReaderInAnotherBlock,
        LoadShape::NarrowerLoad,
    ]
}

/// The shapes in the order the facet walks them.
fn load_shapes_array() -> (r: Vec<LoadShape>)
    ensures
        r@ == load_shapes_list(),
{
    let r = vec![
        LoadShape::OneReader,
        LoadShape::TwoReaders,
        LoadShape::StoreBetween,
        LoadShape::CallBetween,
        LoadShape::LoadBetween,
        LoadShape::IndexWrittenBetween,
        LoadShape::SubtractLeft,
        LoadShape::SubtractRight,
        LoadShape::ReaderInAnotherBlock,
        LoadShape::NarrowerLoad,
    ];
    assert(r@ =~= load_shapes_list());
    r
}

/// The lines before `main` of each shape.
pub open spec fn load_top(ty: Ty, shape: LoadShape) -> Seq<Seq<char>> {
    match shape {
        LoadShape::OneReader => seq![
            input_global(ty, "seed"@, 5int),
            input_global(Ty::I32, "at"@, 3int),
        ],
        LoadShape::TwoReaders => seq![
            input_global(ty, "seed"@, 5int),
            input_global(Ty::I32, "at"@, 3int),
        ],
        LoadShape::StoreBetween => seq![
            input_global(ty, "seed"@, 5int),
            input_global(Ty::I32, "at"@, 3int),
            input_global(Ty::I32, "other"@, 6int),
        ],
        LoadShape::CallBetween => seq![
            input_global(ty, "seed"@, 5int),
            input_global(Ty::I32, "at"@, 3int),
            "static volatile int noise_count;"@,
            "static void noise(void) {"@,
            "    noise_count = noise_count + 1;"@,
            "}"@,
            "static void (*volatile jump)(void) = noise;"@,
        ],
        LoadShape::LoadBetween => seq![
            input_global(ty, "first"@, 4int),
            input_global(ty, "second"@, 9int),
        ],
        LoadShape::IndexWrittenBetween => seq![
            input_global(ty, "seed"@, 5int),
            input_global(Ty::I32, "at"@, 3int),
            input_global(Ty::I32, "other"@, 6int),
        ],
        LoadShape::SubtractLeft => seq![
            input_global(ty, "seed"@, 5int),
            input_global(Ty::I32, "at"@, 3int),
        ],
        LoadShape::SubtractRight => seq![
            input_global(ty, "seed"@, 5int),
            input_global(Ty::I32, "at"@, 3int),
        ],
        LoadShape::ReaderInAnotherBlock => seq![
            input_global(ty, "seed"@, 5int),
            input_global(Ty::I32, "at"@, 3int),
            input_global(Ty::I32, "flag"@, 1int),
        ],
        LoadShape::NarrowerLoad => seq![
            input_global(ty, "seed"@, 5int),
            input_global(Ty::I32, "at"@, 3int),
        ],
    }
}

/// The statements of `main` of each shape.
pub open spec fn load_body(ty: Ty, shape: LoadShape) -> Seq<Seq<char>> {
    match shape {
        LoadShape::OneReader => seq![
            input_read(ty, "seed"@),
            input_read(Ty::I32, "at"@),
            Seq::<char>::empty(),
            indent(1) + ty.c_text() + " buffer[8];"@,
            indent(1) + "for (int i = 0; i < 8; i++) {"@,
            indent(2) + "buffer[i] = seed + ("@ + ty.c_text() + ")i;"@,
            indent(1) + "}"@,
            indent(1) + ty.c_text() + " total = seed + buffer[at];"@,
            Seq::<char>::empty(),
            print_line(1, ty.promotion(), "total"@),
        ],
        LoadShape::TwoReaders => seq![
            input_read(ty, "seed"@),
            input_read(Ty::I32, "at"@),
            Seq::<char>::empty(),
            indent(1) + ty.c_text() + " buffer[8];"@,
            indent(1) + "for (int i = 0; i < 8; i++) {"@,
            indent(2) + "buffer[i] = seed + ("@ + ty.c_text() + ")i;"@,
            indent(1) + "}"@,
            indent(1) + ty.c_text() + " value = buffer[at];"@,
            indent(1) + ty.c_text() + " total = (seed + value) + (value & "@ + lit_text(ty, 12int) + ");"@,
            Seq::<char>::empty(),
            print_line(1, ty.promotion(), "total"@),
        ],
        LoadShape::StoreBetween => seq![
            input_read(ty, "seed"@),
            input_read(Ty::I32, "at"@),
            input_read(Ty::I32, "other"@),
            Seq::<char>::empty(),
            indent(1) + ty.c_text() + " buffer[8];"@,
            indent(1) + "for (int i = 0; i < 8; i++) {"@,
            indent(2) + "buffer[i] = seed + ("@ + ty.c_text() + ")i;"@,
            indent(1) + "}"@,
            indent(1) + ty.c_text() + " value = buffer[at];"@,
            indent(1) + "buffer[other] = seed;"@,
            indent(1) + ty.c_text() + " total = seed + value;"@,
            sink_line(1, "buffer[0]"@),
            Seq::<char>::empty(),
            print_line(1, ty.promotion(), "total"@),
        ],
        LoadShape::CallBetween => seq![
            input_read(ty, "seed"@),
            input_read(Ty::I32, "at"@),
            Seq::<char>::empty(),
            indent(1) + ty.c_text() + " buffer[8];"@,
            indent(1) + "for (int i = 0; i < 8; i++) {"@,
            indent(2) + "buffer[i] = seed + ("@ + ty.c_text() + ")i;"@,
            indent(1) + "}"@,
            indent(1) + ty.c_text() + " value = buffer[at];"@,
            indent(1) + "jump();"@,
            indent(1) + ty.c_text() + " total = seed + value;"@,
            Seq::<char>::empty(),
            print_line(1, ty.promotion(), "total"@),
        ],
        LoadShape::LoadBetween => seq![
            input_read(ty, "first"@),
            input_read(ty, "second"@),
            Seq::<char>::empty(),
            indent(1) + ty.c_text() + " total = second - first;"@,
            Seq::<char>::empty(),
            print_line(1, ty.promotion(), "total"@),
        ],
        LoadShape::IndexWrittenBetween => seq![
            input_read(ty, "seed"@),
            input_read(Ty::I32, "at"@),
            input_read(Ty::I32, "other"@),
            Seq::<char>::empty(),
            indent(1) + ty.c_text() + " buffer[8];"@,
            indent(1) + "for (int i = 0; i < 8; i++) {"@,
            indent(2) + "buffer[i] = seed + ("@ + ty.c_text() + ")i;"@,
            indent(1) + "}"@,
            indent(1) + ty.c_text() + " value = buffer[at];"@,
            indent(1) + "at = other;"@,
            indent(1) + ty.c_text() + " total = value + buffer[at];"@,
            Seq::<char>::empty(),
            print_line(1, ty.promotion(), "total"@),
        ],
        LoadShape::SubtractLeft => seq![
            input_read(ty, "seed"@),
            input_read(Ty::I32, "at"@),
            Seq::<char>::empty(),
            indent(1) + ty.c_text() + " buffer[8];"@,
            indent(1) + "for (int i = 0; i < 8; i++) {"@,
            indent(2) + "buffer[i] = seed + ("@ + ty.c_text() + ")i;"@,
            indent(1) + "}"@,
            indent(1) + ty.c_text() + " total = buffer[at] - seed;"@,
            Seq::<char>::empty(),
            print_line(1, ty.promotion(), "total"@),
        ],
        LoadShape::SubtractRight => seq![
            input_read(ty, "seed"@),
            input_read(Ty::I32, "at"@),
            Seq::<char>::empty(),
            indent(1) + ty.c_text() + " buffer[8];"@,
            indent(1) + "for (int i = 0; i < 8; i++) {"@,
            indent(2) + "buffer[i] = seed + ("@ + ty.c_text() + ")i;"@,
            indent(1) + "}"@,
            indent(1) + ty.c_text() + " total = (seed + "@ + lit_text(ty, 9int) + ") - buffer[at];"@,
            Seq::<char>::empty(),
            print_line(1, ty.promotion(), "total"@),
        ],
        LoadShape::ReaderInAnotherBlock => seq![
            input_read(ty, "seed"@),
            input_read(Ty::I32, "at"@),
            input_read(Ty::I32, "flag"@),
            Seq::<char>::empty(),
            indent(1) + ty.c_text() + " buffer[8];"@,
            indent(1) + "for (int i = 0; i < 8; i++) {"@,
            indent(2) + "buffer[i] = seed + ("@ + ty.c_text() + ")i;"@,
            indent(1) + "}"@,
            indent(1) + ty.c_text() + " value = buffer[at];"@,
            indent(1) + ty.c_text() + " total = seed;"@,
            indent(1) + "if (flag) {"@,
            indent(2) + "total = seed + value;"@,
            indent(1) + "}"@,
            Seq::<char>::empty(),
            print_line(1, ty.promotion(), "total"@),
        ],
        LoadShape::NarrowerLoad => seq![
            input_read(ty, "seed"@),
            input_read(Ty::I32, "at"@),
            Seq::<char>::empty(),
            indent(1) + "unsigned char bytes[8];"@,
            indent(1) + "for (int i = 0; i < 8; i++) {"@,
            indent(2) + "bytes[i] = (unsigned char)(seed + i);"@,
            indent(1) + "}"@,
            indent(1) + ty.c_text() + " total = seed + bytes[at];"@,
            Seq::<char>::empty(),
            print_line(1, ty.promotion(), "total"@),
        ],
    }
}

/// The headers of each shape.
pub open spec fn load_includes(ty: Ty, shape: LoadShape) -> Seq<Seq<char>> {
    match shape {
        LoadShape::OneReader => Seq::empty(),
        LoadShape::TwoReaders => Seq::empty(),
        LoadShape::StoreBetween => Seq::empty(),
        LoadShape::CallBetween => Seq::empty(),
        LoadShape::LoadBetween => Seq::empty(),
        LoadShape::IndexWrittenBetween => Seq::empty(),
        LoadShape::SubtractLeft => Seq::empty(),
        LoadShape::SubtractRight => Seq::empty(),
        LoadShape::ReaderInAnotherBlock => Seq::empty(),
        LoadShape::NarrowerLoad => Seq::empty(),
    }
}

/// What the program prints of each shape.
pub open spec fn load_expected(ty: Ty, shape: LoadShape) -> Seq<int> {
    match shape {
        LoadShape::OneReader => seq![
            13int,
        ],
        LoadShape::TwoReaders => seq![
            21int,
        ],
        LoadShape::StoreBetween => seq![
            13int,
        ],
        LoadShape::CallBetween => seq![
            13int,
        ],
        LoadShape::LoadBetween => seq![
            5int,
        ],
        LoadShape::IndexWrittenBetween => seq![
            19int,
        ],
        LoadShape::SubtractLeft => seq![
            3int,
        ],
        LoadShape::SubtractRight => seq![
            6int,
        ],
        LoadShape::ReaderInAnotherBlock => seq![
            13int,
        ],
        LoadShape::NarrowerLoad => seq![
            13int,
        ],
    }
}

/// Whether the shape asks for the volatile sink.
pub open spec fn load_sinks(shape: LoadShape) -> bool {
    match shape {
        LoadShape::OneReader => false,
        LoadShape::TwoReaders => false,
        LoadShape::StoreBetween => true,
        LoadShape::CallBetween => false,
        LoadShape::LoadBetween => false,
        LoadShape::IndexWrittenBetween => false,
        LoadShape::SubtractLeft => false,
        LoadShape::SubtractRight => false,
        LoadShape::ReaderInAnotherBlock => false,
        LoadShape::NarrowerLoad => false,
    }
}

/// Writes some of the shapes.
#[verifier::rlimit(100)]
fn load_write_0(program: &mut Program, ty: Ty, shape: LoadShape)
    requires
        old(program).top_lines() == Seq::<Seq<char>>::empty(),
        old(program).body_lines() == Seq::<Seq<char>>::empty(),
        old(program).expected_values() == Seq::<int>::empty(),
        old(program).include_lines() == Seq::<Seq<char>>::empty(),
        !old(program).sinks(),
        shape == LoadShape::OneReader || shape == LoadShape::TwoReaders || shape == LoadShape::StoreBetween || shape == LoadShape::CallBetween,
    ensures
        final(program).top_lines() == load_top(ty, shape),
        final(program).body_lines() == load_body(ty, shape),
        final(program).expected_values() == load_expected(ty, shape),
        final(program).include_lines() == load_includes(ty, shape),
        final(program).sinks() == load_sinks(shape),
        final(program).purpose_text() == old(program).purpose_text(),
{
    let c = ty.c_name();
    match shape {
        LoadShape::OneReader => {
            program.input(ty, "seed", 5);
            program.input(Ty::I32, "at", 3);
            program.blank();
            let mut text1 = String::from_str(c);
            text1.append(" buffer[8];");
            program.line(text1.as_str());
            program.line("for (int i = 0; i < 8; i++) {");
            let mut text2 = String::from_str("buffer[i] = seed + (");
            text2.append(c);
            text2.append(")i;");
            program.line_at(1, text2.as_str());
            program.line("}");
            let mut text3 = String::from_str(c);
            text3.append(" total = seed + buffer[at];");
            program.line(text3.as_str());
            program.blank();
            program.check(ty.promoted(), "total", 13);
            assert(program.top_lines() =~~= load_top(ty, shape));
            assert(program.body_lines() =~~= load_body(ty, shape));
            assert(program.expected_values() =~= load_expected(ty, shape));
            assert(program.include_lines() =~~= load_includes(ty, shape));
        },
        LoadShape::TwoReaders => {
            program.input(ty, "seed", 5);
            program.input(Ty::I32, "at", 3);
            program.blank();
            let mut text1 = String::from_str(c);
            text1.append(" buffer[8];");
            program.line(text1.as_str());
            program.line("for (int i = 0; i < 8; i++) {");
            let mut text2 = String::from_str("buffer[i] = seed + (");
            text2.append(c);
            text2.append(")i;");
            program.line_at(1, text2.as_str());
            program.line("}");
            let mut text3 = String::from_str(c);
            text3.append(" value = buffer[at];");
            program.line(text3.as_str());
            let mut text4 = String::from_str(c);
            text4.append(" total = (seed + value) + (value & ");
            let literal5 = lit(ty, 12);
            text4.append(literal5.as_str());
            text4.append(");");
            program.line(text4.as_str());
            program.blank();
            program.check(ty.promoted(), "total", 21);
            assert(program.top_lines() =~~= load_top(ty, shape));
            assert(program.body_lines() =~~= load_body(ty, shape));
            assert(program.expected_values() =~= load_expected(ty, shape));
            assert(program.include_lines() =~~= load_includes(ty, shape));
        },
        LoadShape::StoreBetween => {
            program.input(ty, "seed", 5);
            program.input(Ty::I32, "at", 3);
            program.input(Ty::I32, "other", 6);
            program.blank();
            let mut text1 = String::from_str(c);
            text1.append(" buffer[8];");
            program.line(text1.as_str());
            program.line("for (int i = 0; i < 8; i++) {");
            let mut text2 = String::from_str("buffer[i] = seed + (");
            text2.append(c);
            text2.append(")i;");
            program.line_at(1, text2.as_str());
            program.line("}");
            let mut text3 = String::from_str(c);
            text3.append(" value = buffer[at];");
            program.line(text3.as_str());
            program.line("buffer[other] = seed;");
            let mut text4 = String::from_str(c);
            text4.append(" total = seed + value;");
            program.line(text4.as_str());
            program.sink("buffer[0]");
            program.blank();
            program.check(ty.promoted(), "total", 13);
            assert(program.top_lines() =~~= load_top(ty, shape));
            assert(program.body_lines() =~~= load_body(ty, shape));
            assert(program.expected_values() =~= load_expected(ty, shape));
            assert(program.include_lines() =~~= load_includes(ty, shape));
        },
        LoadShape::CallBetween => {
            program.input(ty, "seed", 5);
            program.input(Ty::I32, "at", 3);
            program.top("static volatile int noise_count;");
            program.top("static void noise(void) {");
            program.top("    noise_count = noise_count + 1;");
            program.top("}");
            program.top("static void (*volatile jump)(void) = noise;");
            program.blank();
            let mut text1 = String::from_str(c);
            text1.append(" buffer[8];");
            program.line(text1.as_str());
            program.line("for (int i = 0; i < 8; i++) {");
            let mut text2 = String::from_str("buffer[i] = seed + (");
            text2.append(c);
            text2.append(")i;");
            program.line_at(1, text2.as_str());
            program.line("}");
            let mut text3 = String::from_str(c);
            text3.append(" value = buffer[at];");
            program.line(text3.as_str());
            program.line("jump();");
            let mut text4 = String::from_str(c);
            text4.append(" total = seed + value;");
            program.line(text4.as_str());
            program.blank();
            program.check(ty.promoted(), "total", 13);
            assert(program.top_lines() =~~= load_top(ty, shape));
            assert(program.body_lines() =~~= load_body(ty, shape));
            assert(program.expected_values() =~= load_expected(ty, shape));
            assert(program.include_lines() =~~= load_includes(ty, shape));
        },
        _ => {},
    }
}

/// Writes some of the shapes.
#[verifier::rlimit(100)]
fn load_write_1(program: &mut Program, ty: Ty, shape: LoadShape)
    requires
        old(program).top_lines() == Seq::<Seq<char>>::empty(),
        old(program).body_lines() == Seq::<Seq<char>>::empty(),
        old(program).expected_values() == Seq::<int>::empty(),
        old(program).include_lines() == Seq::<Seq<char>>::empty(),
        !old(program).sinks(),
        shape == LoadShape::LoadBetween || shape == LoadShape::IndexWrittenBetween || shape == LoadShape::SubtractLeft || shape == LoadShape::SubtractRight,
    ensures
        final(program).top_lines() == load_top(ty, shape),
        final(program).body_lines() == load_body(ty, shape),
        final(program).expected_values() == load_expected(ty, shape),
        final(program).include_lines() == load_includes(ty, shape),
        final(program).sinks() == load_sinks(shape),
        final(program).purpose_text() == old(program).purpose_text(),
{
    let c = ty.c_name();
    match shape {
        LoadShape::LoadBetween => {
            program.input(ty, "first", 4);
            program.input(ty, "second", 9);
            program.blank();
            let mut text1 = String::from_str(c);
            text1.append(" total = second - first;");
            program.line(text1.as_str());
            program.blank();
            program.check(ty.promoted(), "total", 5);
            assert(program.top_lines() =~~= load_top(ty, shape));
            assert(program.body_lines() =~~= load_body(ty, shape));
            assert(program.expected_values() =~= load_expected(ty, shape));
            assert(program.include_lines() =~~= load_includes(ty, shape));
        },
        LoadShape::IndexWrittenBetween => {
            program.input(ty, "seed", 5);
            program.input(Ty::I32, "at", 3);
            program.input(Ty::I32, "other", 6);
            program.blank();
            let mut text1 = String::from_str(c);
            text1.append(" buffer[8];");
            program.line(text1.as_str());
            program.line("for (int i = 0; i < 8; i++) {");
            let mut text2 = String::from_str("buffer[i] = seed + (");
            text2.append(c);
            text2.append(")i;");
            program.line_at(1, text2.as_str());
            program.line("}");
            let mut text3 = String::from_str(c);
            text3.append(" value = buffer[at];");
            program.line(text3.as_str());
            program.line("at = other;");
            let mut text4 = String::from_str(c);
            text4.append(" total = value + buffer[at];");
            program.line(text4.as_str());
            program.blank();
            program.check(ty.promoted(), "total", 19);
            assert(program.top_lines() =~~= load_top(ty, shape));
            assert(program.body_lines() =~~= load_body(ty, shape));
            assert(program.expected_values() =~= load_expected(ty, shape));
            assert(program.include_lines() =~~= load_includes(ty, shape));
        },
        LoadShape::SubtractLeft => {
            program.input(ty, "seed", 5);
            program.input(Ty::I32, "at", 3);
            program.blank();
            let mut text1 = String::from_str(c);
            text1.append(" buffer[8];");
            program.line(text1.as_str());
            program.line("for (int i = 0; i < 8; i++) {");
            let mut text2 = String::from_str("buffer[i] = seed + (");
            text2.append(c);
            text2.append(")i;");
            program.line_at(1, text2.as_str());
            program.line("}");
            let mut text3 = String::from_str(c);
            text3.append(" total = buffer[at] - seed;");
            program.line(text3.as_str());
            program.blank();
            program.check(ty.promoted(), "total", 3);
            assert(program.top_lines() =~~= load_top(ty, shape));
            assert(program.body_lines() =~~= load_body(ty, shape));
            assert(program.expected_values() =~= load_expected(ty, shape));
            assert(program.include_lines() =~~= load_includes(ty, shape));
        },
        LoadShape::SubtractRight => {
            program.input(ty, "seed", 5);
            program.input(Ty::I32, "at", 3);
            program.blank();
            let mut text1 = String::from_str(c);
            text1.append(" buffer[8];");
            program.line(text1.as_str());
            program.line("for (int i = 0; i < 8; i++) {");
            let mut text2 = String::from_str("buffer[i] = seed + (");
            text2.append(c);
            text2.append(")i;");
            program.line_at(1, text2.as_str());
            program.line("}");
            let mut text3 = String::from_str(c);
            text3.append(" total = (seed + ");
            let literal4 = lit(ty, 9);
            text3.append(literal4.as_str());
            text3.append(") - buffer[at];");
            program.line(text3.as_str());
            program.blank();
            program.check(ty.promoted(), "total", 6);
            assert(program.top_lines() =~~= load_top(ty, shape));
            assert(program.body_lines() =~~= load_body(ty, shape));
            assert(program.expected_values() =~= load_expected(ty, shape));
            assert(program.include_lines() =~~= load_includes(ty, shape));
        },
        _ => {},
    }
}

/// Writes some of the shapes.
#[verifier::rlimit(100)]
fn load_write_2(program: &mut Program, ty: Ty, shape: LoadShape)
    requires
        old(program).top_lines() == Seq::<Seq<char>>::empty(),
        old(program).body_lines() == Seq::<Seq<char>>::empty(),
        old(program).expected_values() == Seq::<int>::empty(),
        old(program).include_lines() == Seq::<Seq<char>>::empty(),
        !old(program).sinks(),
        shape == LoadShape::ReaderInAnotherBlock || shape == LoadShape::NarrowerLoad,
    ensures
        final(program).top_lines() == load_top(ty, shape),
        final(program).body_lines() == load_body(ty, shape),
        final(program).expected_values() == load_expected(ty, shape),
        final(program).include_lines() == load_includes(ty, shape),
        final(program).sinks() == load_sinks(shape),
        final(program).purpose_text() == old(program).purpose_text(),
{
    let c = ty.c_name();
    match shape {
        LoadShape::ReaderInAnotherBlock => {
            program.input(ty, "seed", 5);
            program.input(Ty::I32, "at", 3);
            program.input(Ty::I32, "flag", 1);
            program.blank();
            let mut text1 = String::from_str(c);
            text1.append(" buffer[8];");
            program.line(text1.as_str());
            program.line("for (int i = 0; i < 8; i++) {");
            let mut text2 = String::from_str("buffer[i] = seed + (");
            text2.append(c);
            text2.append(")i;");
            program.line_at(1, text2.as_str());
            program.line("}");
            let mut text3 = String::from_str(c);
            text3.append(" value = buffer[at];");
            program.line(text3.as_str());
            let mut text4 = String::from_str(c);
            text4.append(" total = seed;");
            program.line(text4.as_str());
            program.line("if (flag) {");
            program.line_at(1, "total = seed + value;");
            program.line("}");
            program.blank();
            program.check(ty.promoted(), "total", 13);
            assert(program.top_lines() =~~= load_top(ty, shape));
            assert(program.body_lines() =~~= load_body(ty, shape));
            assert(program.expected_values() =~= load_expected(ty, shape));
            assert(program.include_lines() =~~= load_includes(ty, shape));
        },
        LoadShape::NarrowerLoad => {
            program.input(ty, "seed", 5);
            program.input(Ty::I32, "at", 3);
            program.blank();
            program.line("unsigned char bytes[8];");
            program.line("for (int i = 0; i < 8; i++) {");
            program.line_at(1, "bytes[i] = (unsigned char)(seed + i);");
            program.line("}");
            let mut text1 = String::from_str(c);
            text1.append(" total = seed + bytes[at];");
            program.line(text1.as_str());
            program.blank();
            program.check(ty.promoted(), "total", 13);
            assert(program.top_lines() =~~= load_top(ty, shape));
            assert(program.body_lines() =~~= load_body(ty, shape));
            assert(program.expected_values() =~= load_expected(ty, shape));
            assert(program.include_lines() =~~= load_includes(ty, shape));
        },
        _ => {},
    }
}

/// Writes a shape.
fn load_write(program: &mut Program, ty: Ty, shape: LoadShape)
    requires
        old(program).top_lines() == Seq::<Seq<char>>::empty(),
        old(program).body_lines() == Seq::<Seq<char>>::empty(),
        old(program).expected_values() == Seq::<int>::empty(),
        old(program).include_lines() == Seq::<Seq<char>>::empty(),
        !old(program).sinks(),
    ensures
        final(program).top_lines() == load_top(ty, shape),
        final(program).body_lines() == load_body(ty, shape),
        final(program).expected_values() == load_expected(ty, shape),
        final(program).include_lines() == load_includes(ty, shape),
        final(program).sinks() == load_sinks(shape),
        final(program).purpose_text() == old(program).purpose_text(),
{
    match shape {
        LoadShape::OneReader | LoadShape::TwoReaders | LoadShape::StoreBetween | LoadShape::CallBetween => {
            load_write_0(program, ty, shape);
        },
        LoadShape::LoadBetween | LoadShape::IndexWrittenBetween | LoadShape::SubtractLeft | LoadShape::SubtractRight => {
            load_write_1(program, ty, shape);
        },
        LoadShape::ReaderInAnotherBlock | LoadShape::NarrowerLoad => {
            load_write_2(program, ty, shape);
        },
    }
}

/// Whether a case is the load shape at a type, whole.
pub open spec fn is_load_case(c: Case, ty: Ty, shape: LoadShape) -> bool {
    &&& c.axes_text() == seq![("type"@, ty.name_text()), ("shape"@, shape.name_text())]
    &&& c.tags_text() == Seq::<Seq<char>>::empty()
    &&& c.program.purpose_text() == "one "@ + ty.c_text() + " load, "@ + shape.name_text()
    &&& c.program.include_lines() == load_includes(ty, shape)
    &&& c.program.top_lines() == load_top(ty, shape)
    &&& c.program.body_lines() == load_body(ty, shape)
    &&& c.program.expected_values() == load_expected(ty, shape)
    &&& c.program.sinks() == load_sinks(shape)
}

/// One load shape at one type.
fn load_case(ty: Ty, shape: LoadShape) -> (r: Case)
    ensures
        is_load_case(r, ty, shape),
{
    let mut purpose = String::new();
    purpose.append("one ");
    purpose.append(ty.c_name());
    purpose.append(" load, ");
    purpose.append(shape.name());
    let mut program = Program::new(purpose.as_str());
    load_write(&mut program, ty, shape);
    let axes = vec![axis("type", ty.name()), axis("shape", shape.name())];
    let r = Case { axes, tags: tags_for(false), program };
    assert(r.axes_text() =~= seq![("type"@, ty.name_text()), ("shape"@, shape.name_text())]);
    assert(r.tags_text() =~= Seq::<Seq<char>>::empty());
    r
}

/// A load one arithmetic instruction reads, and everything that stops it moving into that
/// instruction, on every type at the width of a register.
///
/// The axis is the reason rather than the operator: one reader against two, a store, a call and
/// another load in the way, a register the address reads written in between, a reader in another
/// block, the left of a subtraction, and a byte load read at a wider width. The load in the way is
/// two `volatile` reads whose order the program fixed.
pub fn load_fold() -> (r: Vec<Case>)
    ensures
        r@.len() == 40,
        forall|k: int|
            0 <= k < 40 ==> is_load_case(
                #[trigger] r@[k],
                wide_types()[k / 10],
                load_shapes_list()[k % 10],
            ),
{
    let types = wide();
    let shapes = load_shapes_array();
    let mut out: Vec<Case> = Vec::new();
    let mut k: usize = 0;
    while k < 40
        invariant
            k <= 40,
            types@ == wide_types(),
            shapes@ == load_shapes_list(),
            out@.len() == k,
            forall|i: int|
                0 <= i < k ==> is_load_case(
                    #[trigger] out@[i],
                    wide_types()[i / 10],
                    load_shapes_list()[i % 10],
                ),
        decreases 40 - k,
    {
        out.push(load_case(types[k / 10], shapes[k % 10]));
        k += 1;
    }
    out
}

/// Several readers of one address, and what keeps them apart.
#[derive(Clone, Copy, Debug, PartialEq, Eq, Structural)]
pub enum AddressShape {
    SeveralOffsets,
    StoreThenLoad,
    ComputedIndex,
    BaseWrittenBetween,
    ReaderInAnotherBlock,
    FilledThenRead,
    GlobalManyReaders,
}

impl AddressShape {
    /// The axis value.
    pub open spec fn name_text(self) -> Seq<char> {
        match self {
            AddressShape::SeveralOffsets => "several-offsets"@,
            AddressShape::StoreThenLoad => "store-then-load"@,
            AddressShape::ComputedIndex => "computed-index"@,
            AddressShape::BaseWrittenBetween => "base-written-between"@,
            AddressShape::ReaderInAnotherBlock => "reader-in-another-block"@,
            AddressShape::FilledThenRead => "filled-then-read"@,
            AddressShape::GlobalManyReaders => "global-many-readers"@,
        }
    }

    /// The axis value.
    pub fn name(self) -> (r: &'static str)
        ensures
            r@ == self.name_text(),
    {
        match self {
            AddressShape::SeveralOffsets => "several-offsets",
            AddressShape::StoreThenLoad => "store-then-load",
            AddressShape::ComputedIndex => "computed-index",
            AddressShape::BaseWrittenBetween => "base-written-between",
            AddressShape::ReaderInAnotherBlock => "reader-in-another-block",
            AddressShape::FilledThenRead => "filled-then-read",
            AddressShape::GlobalManyReaders => "global-many-readers",
        }
    }
}

/// The shapes in the order the facet walks them.
pub open spec fn address_shapes_list() -> Seq<AddressShape> {
    seq![
        AddressShape::SeveralOffsets,
        AddressShape::StoreThenLoad,
        AddressShape::ComputedIndex,
        AddressShape::BaseWrittenBetween,
        AddressShape::ReaderInAnotherBlock,
        AddressShape::FilledThenRead,
        AddressShape::GlobalManyReaders,
    ]
}

/// The shapes in the order the facet walks them.
fn address_shapes_array() -> (r: Vec<AddressShape>)
    ensures
        r@ == address_shapes_list(),
{
    let r = vec![
        AddressShape::SeveralOffsets,
        AddressShape::StoreThenLoad,
        AddressShape::ComputedIndex,
        AddressShape::BaseWrittenBetween,
        AddressShape::ReaderInAnotherBlock,
        AddressShape::FilledThenRead,
        AddressShape::GlobalManyReaders,
    ];
    assert(r@ =~= address_shapes_list());
    r
}

/// The lines before `main` of each shape.
pub open spec fn address_top(ty: Ty, shape: AddressShape) -> Seq<Seq<char>> {
    match shape {
        AddressShape::SeveralOffsets => seq![
            input_global(ty, "seed"@, 5int),
        ],
        AddressShape::StoreThenLoad => seq![
            input_global(ty, "seed"@, 5int),
            input_global(Ty::I32, "at"@, 3int),
        ],
        AddressShape::ComputedIndex => seq![
            input_global(ty, "seed"@, 5int),
            input_global(Ty::I32, "at"@, 3int),
        ],
        AddressShape::BaseWrittenBetween => seq![
            input_global(ty, "seed"@, 5int),
        ],
        AddressShape::ReaderInAnotherBlock => seq![
            input_global(ty, "seed"@, 5int),
            input_global(Ty::I32, "at"@, 3int),
            input_global(Ty::I32, "flag"@, 1int),
        ],
        AddressShape::FilledThenRead => seq![
            input_global(ty, "seed"@, 5int),
        ],
        AddressShape::GlobalManyReaders => seq![
            input_global(ty, "seed"@, 5int),
            "static "@ + ty.c_text() + " shared[4];"@,
        ],
    }
}

/// The statements of `main` of each shape.
pub open spec fn address_body(ty: Ty, shape: AddressShape) -> Seq<Seq<char>> {
    match shape {
        AddressShape::SeveralOffsets => seq![
            input_read(ty, "seed"@),
            Seq::<char>::empty(),
            indent(1) + ty.c_text() + " buffer[8] = { 0 };"@,
            indent(1) + ty.c_text() + " *q = &buffer[0];"@,
            indent(1) + "q[0] = seed;"@,
            indent(1) + "q[3] = seed + "@ + lit_text(ty, 1int) + ";"@,
            indent(1) + "q[7] = seed + "@ + lit_text(ty, 2int) + ";"@,
            indent(1) + ty.c_text() + " total = q[0] + q[3] + q[7];"@,
            Seq::<char>::empty(),
            print_line(1, ty.promotion(), "total"@),
        ],
        AddressShape::StoreThenLoad => seq![
            input_read(ty, "seed"@),
            input_read(Ty::I32, "at"@),
            Seq::<char>::empty(),
            indent(1) + ty.c_text() + " buffer[8] = { 0 };"@,
            indent(1) + "buffer[at] = seed + "@ + lit_text(ty, 1int) + ";"@,
            indent(1) + ty.c_text() + " total = buffer[at];"@,
            Seq::<char>::empty(),
            print_line(1, ty.promotion(), "total"@),
        ],
        AddressShape::ComputedIndex => seq![
            input_read(ty, "seed"@),
            input_read(Ty::I32, "at"@),
            Seq::<char>::empty(),
            indent(1) + ty.c_text() + " buffer[8] = { 0 };"@,
            indent(1) + "buffer[at] = seed;"@,
            indent(1) + "buffer[at + 1] = seed + "@ + lit_text(ty, 1int) + ";"@,
            indent(1) + ty.c_text() + " total = buffer[at] + buffer[at + 1];"@,
            Seq::<char>::empty(),
            print_line(1, ty.promotion(), "total"@),
        ],
        AddressShape::BaseWrittenBetween => seq![
            input_read(ty, "seed"@),
            Seq::<char>::empty(),
            indent(1) + ty.c_text() + " buffer[8] = { 0 };"@,
            indent(1) + ty.c_text() + " *q = &buffer[2];"@,
            indent(1) + "q[0] = seed;"@,
            indent(1) + "q = &buffer[5];"@,
            indent(1) + "q[0] = seed + "@ + lit_text(ty, 1int) + ";"@,
            indent(1) + ty.c_text() + " total = buffer[2] + buffer[5];"@,
            Seq::<char>::empty(),
            print_line(1, ty.promotion(), "total"@),
        ],
        AddressShape::ReaderInAnotherBlock => seq![
            input_read(ty, "seed"@),
            input_read(Ty::I32, "at"@),
            input_read(Ty::I32, "flag"@),
            Seq::<char>::empty(),
            indent(1) + ty.c_text() + " buffer[8] = { 0 };"@,
            indent(1) + ty.c_text() + " *q = &buffer[at];"@,
            indent(1) + "q[0] = seed;"@,
            indent(1) + "if (flag) {"@,
            indent(2) + "q[1] = seed + "@ + lit_text(ty, 1int) + ";"@,
            indent(1) + "}"@,
            indent(1) + ty.c_text() + " total = buffer[3] + buffer[4];"@,
            Seq::<char>::empty(),
            print_line(1, ty.promotion(), "total"@),
        ],
        AddressShape::FilledThenRead => seq![
            input_read(ty, "seed"@),
            Seq::<char>::empty(),
            indent(1) + ty.c_text() + " grid[8];"@,
            indent(1) + "for (int i = 0; i < 8; i++) {"@,
            indent(2) + "grid[i] = seed + ("@ + ty.c_text() + ")i;"@,
            indent(1) + "}"@,
            indent(1) + ty.c_text() + " total = 0;"@,
            indent(1) + "for (int i = 0; i < 8; i++) {"@,
            indent(2) + "total += grid[i];"@,
            indent(1) + "}"@,
            Seq::<char>::empty(),
            print_line(1, ty.promotion(), "total"@),
        ],
        AddressShape::GlobalManyReaders => seq![
            input_read(ty, "seed"@),
            Seq::<char>::empty(),
            indent(1) + "shared[0] = seed;"@,
            indent(1) + "shared[1] = seed + "@ + lit_text(ty, 1int) + ";"@,
            indent(1) + "shared[2] = seed + "@ + lit_text(ty, 2int) + ";"@,
            indent(1) + "shared[3] = seed + "@ + lit_text(ty, 3int) + ";"@,
            indent(1) + ty.c_text() + " total = shared[0] + shared[1] + shared[2] + shared[3];"@,
            Seq::<char>::empty(),
            print_line(1, ty.promotion(), "total"@),
        ],
    }
}

/// The headers of each shape.
pub open spec fn address_includes(ty: Ty, shape: AddressShape) -> Seq<Seq<char>> {
    match shape {
        AddressShape::SeveralOffsets => Seq::empty(),
        AddressShape::StoreThenLoad => Seq::empty(),
        AddressShape::ComputedIndex => Seq::empty(),
        AddressShape::BaseWrittenBetween => Seq::empty(),
        AddressShape::ReaderInAnotherBlock => Seq::empty(),
        AddressShape::FilledThenRead => Seq::empty(),
        AddressShape::GlobalManyReaders => Seq::empty(),
    }
}

/// What the program prints of each shape.
pub open spec fn address_expected(ty: Ty, shape: AddressShape) -> Seq<int> {
    match shape {
        AddressShape::SeveralOffsets => seq![
            18int,
        ],
        AddressShape::StoreThenLoad => seq![
            6int,
        ],
        AddressShape::ComputedIndex => seq![
            11int,
        ],
        AddressShape::BaseWrittenBetween => seq![
            11int,
        ],
        AddressShape::ReaderInAnotherBlock => seq![
            11int,
        ],
        AddressShape::FilledThenRead => seq![
            68int,
        ],
        AddressShape::GlobalManyReaders => seq![
            26int,
        ],
    }
}

/// Whether the shape asks for the volatile sink.
pub open spec fn address_sinks(shape: AddressShape) -> bool {
    match shape {
        AddressShape::SeveralOffsets => false,
        AddressShape::StoreThenLoad => false,
        AddressShape::ComputedIndex => false,
        AddressShape::BaseWrittenBetween => false,
        AddressShape::ReaderInAnotherBlock => false,
        AddressShape::FilledThenRead => false,
        AddressShape::GlobalManyReaders => false,
    }
}

/// Writes some of the shapes.
#[verifier::rlimit(100)]
fn address_write_0(program: &mut Program, ty: Ty, shape: AddressShape)
    requires
        old(program).top_lines() == Seq::<Seq<char>>::empty(),
        old(program).body_lines() == Seq::<Seq<char>>::empty(),
        old(program).expected_values() == Seq::<int>::empty(),
        old(program).include_lines() == Seq::<Seq<char>>::empty(),
        !old(program).sinks(),
        shape == AddressShape::SeveralOffsets || shape == AddressShape::StoreThenLoad || shape == AddressShape::ComputedIndex || shape == AddressShape::BaseWrittenBetween,
    ensures
        final(program).top_lines() == address_top(ty, shape),
        final(program).body_lines() == address_body(ty, shape),
        final(program).expected_values() == address_expected(ty, shape),
        final(program).include_lines() == address_includes(ty, shape),
        final(program).sinks() == address_sinks(shape),
        final(program).purpose_text() == old(program).purpose_text(),
{
    let c = ty.c_name();
    match shape {
        AddressShape::SeveralOffsets => {
            program.input(ty, "seed", 5);
            program.blank();
            let mut text1 = String::from_str(c);
            text1.append(" buffer[8] = { 0 };");
            program.line(text1.as_str());
            let mut text2 = String::from_str(c);
            text2.append(" *q = &buffer[0];");
            program.line(text2.as_str());
            program.line("q[0] = seed;");
            let mut text3 = String::from_str("q[3] = seed + ");
            let literal4 = lit(ty, 1);
            text3.append(literal4.as_str());
            text3.append(";");
            program.line(text3.as_str());
            let mut text5 = String::from_str("q[7] = seed + ");
            let literal6 = lit(ty, 2);
            text5.append(literal6.as_str());
            text5.append(";");
            program.line(text5.as_str());
            let mut text7 = String::from_str(c);
            text7.append(" total = q[0] + q[3] + q[7];");
            program.line(text7.as_str());
            program.blank();
            program.check(ty.promoted(), "total", 18);
            assert(program.top_lines() =~~= address_top(ty, shape));
            assert(program.body_lines() =~~= address_body(ty, shape));
            assert(program.expected_values() =~= address_expected(ty, shape));
            assert(program.include_lines() =~~= address_includes(ty, shape));
        },
        AddressShape::StoreThenLoad => {
            program.input(ty, "seed", 5);
            program.input(Ty::I32, "at", 3);
            program.blank();
            let mut text1 = String::from_str(c);
            text1.append(" buffer[8] = { 0 };");
            program.line(text1.as_str());
            let mut text2 = String::from_str("buffer[at] = seed + ");
            let literal3 = lit(ty, 1);
            text2.append(literal3.as_str());
            text2.append(";");
            program.line(text2.as_str());
            let mut text4 = String::from_str(c);
            text4.append(" total = buffer[at];");
            program.line(text4.as_str());
            program.blank();
            program.check(ty.promoted(), "total", 6);
            assert(program.top_lines() =~~= address_top(ty, shape));
            assert(program.body_lines() =~~= address_body(ty, shape));
            assert(program.expected_values() =~= address_expected(ty, shape));
            assert(program.include_lines() =~~= address_includes(ty, shape));
        },
        AddressShape::ComputedIndex => {
            program.input(ty, "seed", 5);
            program.input(Ty::I32, "at", 3);
            program.blank();
            let mut text1 = String::from_str(c);
            text1.append(" buffer[8] = { 0 };");
            program.line(text1.as_str());
            program.line("buffer[at] = seed;");
            let mut text2 = String::from_str("buffer[at + 1] = seed + ");
            let literal3 = lit(ty, 1);
            text2.append(literal3.as_str());
            text2.append(";");
            program.line(text2.as_str());
            let mut text4 = String::from_str(c);
            text4.append(" total = buffer[at] + buffer[at + 1];");
            program.line(text4.as_str());
            program.blank();
            program.check(ty.promoted(), "total", 11);
            assert(program.top_lines() =~~= address_top(ty, shape));
            assert(program.body_lines() =~~= address_body(ty, shape));
            assert(program.expected_values() =~= address_expected(ty, shape));
            assert(program.include_lines() =~~= address_includes(ty, shape));
        },
        AddressShape::BaseWrittenBetween => {
            program.input(ty, "seed", 5);
            program.blank();
            let mut text1 = String::from_str(c);
            text1.append(" buffer[8] = { 0 };");
            program.line(text1.as_str());
            let mut text2 = String::from_str(c);
            text2.append(" *q = &buffer[2];");
            program.line(text2.as_str());
            program.line("q[0] = seed;");
            program.line("q = &buffer[5];");
            let mut text3 = String::from_str("q[0] = seed + ");
            let literal4 = lit(ty, 1);
            text3.append(literal4.as_str());
            text3.append(";");
            program.line(text3.as_str());
            let mut text5 = String::from_str(c);
            text5.append(" total = buffer[2] + buffer[5];");
            program.line(text5.as_str());
            program.blank();
            program.check(ty.promoted(), "total", 11);
            assert(program.top_lines() =~~= address_top(ty, shape));
            assert(program.body_lines() =~~= address_body(ty, shape));
            assert(program.expected_values() =~= address_expected(ty, shape));
            assert(program.include_lines() =~~= address_includes(ty, shape));
        },
        _ => {},
    }
}

/// Writes some of the shapes.
#[verifier::rlimit(100)]
fn address_write_1(program: &mut Program, ty: Ty, shape: AddressShape)
    requires
        old(program).top_lines() == Seq::<Seq<char>>::empty(),
        old(program).body_lines() == Seq::<Seq<char>>::empty(),
        old(program).expected_values() == Seq::<int>::empty(),
        old(program).include_lines() == Seq::<Seq<char>>::empty(),
        !old(program).sinks(),
        shape == AddressShape::ReaderInAnotherBlock || shape == AddressShape::FilledThenRead || shape == AddressShape::GlobalManyReaders,
    ensures
        final(program).top_lines() == address_top(ty, shape),
        final(program).body_lines() == address_body(ty, shape),
        final(program).expected_values() == address_expected(ty, shape),
        final(program).include_lines() == address_includes(ty, shape),
        final(program).sinks() == address_sinks(shape),
        final(program).purpose_text() == old(program).purpose_text(),
{
    let c = ty.c_name();
    match shape {
        AddressShape::ReaderInAnotherBlock => {
            program.input(ty, "seed", 5);
            program.input(Ty::I32, "at", 3);
            program.input(Ty::I32, "flag", 1);
            program.blank();
            let mut text1 = String::from_str(c);
            text1.append(" buffer[8] = { 0 };");
            program.line(text1.as_str());
            let mut text2 = String::from_str(c);
            text2.append(" *q = &buffer[at];");
            program.line(text2.as_str());
            program.line("q[0] = seed;");
            program.line("if (flag) {");
            let mut text3 = String::from_str("q[1] = seed + ");
            let literal4 = lit(ty, 1);
            text3.append(literal4.as_str());
            text3.append(";");
            program.line_at(1, text3.as_str());
            program.line("}");
            let mut text5 = String::from_str(c);
            text5.append(" total = buffer[3] + buffer[4];");
            program.line(text5.as_str());
            program.blank();
            program.check(ty.promoted(), "total", 11);
            assert(program.top_lines() =~~= address_top(ty, shape));
            assert(program.body_lines() =~~= address_body(ty, shape));
            assert(program.expected_values() =~= address_expected(ty, shape));
            assert(program.include_lines() =~~= address_includes(ty, shape));
        },
        AddressShape::FilledThenRead => {
            program.input(ty, "seed", 5);
            program.blank();
            let mut text1 = String::from_str(c);
            text1.append(" grid[8];");
            program.line(text1.as_str());
            program.line("for (int i = 0; i < 8; i++) {");
            let mut text2 = String::from_str("grid[i] = seed + (");
            text2.append(c);
            text2.append(")i;");
            program.line_at(1, text2.as_str());
            program.line("}");
            let mut text3 = String::from_str(c);
            text3.append(" total = 0;");
            program.line(text3.as_str());
            program.line("for (int i = 0; i < 8; i++) {");
            program.line_at(1, "total += grid[i];");
            program.line("}");
            program.blank();
            program.check(ty.promoted(), "total", 68);
            assert(program.top_lines() =~~= address_top(ty, shape));
            assert(program.body_lines() =~~= address_body(ty, shape));
            assert(program.expected_values() =~= address_expected(ty, shape));
            assert(program.include_lines() =~~= address_includes(ty, shape));
        },
        AddressShape::GlobalManyReaders => {
            program.input(ty, "seed", 5);
            program.blank();
            let mut text1 = String::from_str("static ");
            text1.append(c);
            text1.append(" shared[4];");
            program.top(text1.as_str());
            program.line("shared[0] = seed;");
            let mut text2 = String::from_str("shared[1] = seed + ");
            let literal3 = lit(ty, 1);
            text2.append(literal3.as_str());
            text2.append(";");
            program.line(text2.as_str());
            let mut text4 = String::from_str("shared[2] = seed + ");
            let literal5 = lit(ty, 2);
            text4.append(literal5.as_str());
            text4.append(";");
            program.line(text4.as_str());
            let mut text6 = String::from_str("shared[3] = seed + ");
            let literal7 = lit(ty, 3);
            text6.append(literal7.as_str());
            text6.append(";");
            program.line(text6.as_str());
            let mut text8 = String::from_str(c);
            text8.append(" total = shared[0] + shared[1] + shared[2] + shared[3];");
            program.line(text8.as_str());
            program.blank();
            program.check(ty.promoted(), "total", 26);
            assert(program.top_lines() =~~= address_top(ty, shape));
            assert(program.body_lines() =~~= address_body(ty, shape));
            assert(program.expected_values() =~= address_expected(ty, shape));
            assert(program.include_lines() =~~= address_includes(ty, shape));
        },
        _ => {},
    }
}

/// Writes a shape.
fn address_write(program: &mut Program, ty: Ty, shape: AddressShape)
    requires
        old(program).top_lines() == Seq::<Seq<char>>::empty(),
        old(program).body_lines() == Seq::<Seq<char>>::empty(),
        old(program).expected_values() == Seq::<int>::empty(),
        old(program).include_lines() == Seq::<Seq<char>>::empty(),
        !old(program).sinks(),
    ensures
        final(program).top_lines() == address_top(ty, shape),
        final(program).body_lines() == address_body(ty, shape),
        final(program).expected_values() == address_expected(ty, shape),
        final(program).include_lines() == address_includes(ty, shape),
        final(program).sinks() == address_sinks(shape),
        final(program).purpose_text() == old(program).purpose_text(),
{
    match shape {
        AddressShape::SeveralOffsets | AddressShape::StoreThenLoad | AddressShape::ComputedIndex | AddressShape::BaseWrittenBetween => {
            address_write_0(program, ty, shape);
        },
        AddressShape::ReaderInAnotherBlock | AddressShape::FilledThenRead | AddressShape::GlobalManyReaders => {
            address_write_1(program, ty, shape);
        },
    }
}

/// Whether a case is the address shape at a type, whole.
pub open spec fn is_address_case(c: Case, ty: Ty, shape: AddressShape) -> bool {
    &&& c.axes_text() == seq![("type"@, ty.name_text()), ("shape"@, shape.name_text())]
    &&& c.tags_text() == Seq::<Seq<char>>::empty()
    &&& c.program.purpose_text() == "one "@ + ty.c_text() + " address, "@ + shape.name_text()
    &&& c.program.include_lines() == address_includes(ty, shape)
    &&& c.program.top_lines() == address_top(ty, shape)
    &&& c.program.body_lines() == address_body(ty, shape)
    &&& c.program.expected_values() == address_expected(ty, shape)
    &&& c.program.sinks() == address_sinks(shape)
}

/// One address shape at one type.
fn address_case(ty: Ty, shape: AddressShape) -> (r: Case)
    ensures
        is_address_case(r, ty, shape),
{
    let mut purpose = String::new();
    purpose.append("one ");
    purpose.append(ty.c_name());
    purpose.append(" address, ");
    purpose.append(shape.name());
    let mut program = Program::new(purpose.as_str());
    address_write(&mut program, ty, shape);
    let axes = vec![axis("type", ty.name()), axis("shape", shape.name())];
    let r = Case { axes, tags: tags_for(false), program };
    assert(r.axes_text() =~= seq![("type"@, ty.name_text()), ("shape"@, shape.name_text())]);
    assert(r.tags_text() =~= Seq::<Seq<char>>::empty());
    r
}

/// One address read by several instructions, on every type at the width of a register.
///
/// An address that several readers take as a memory operand can be worked out once into a
/// register or written into each reader. The shapes are three displacements off one base, a store
/// and a load of one place, a scaled index, a base written between two readers, a reader in
/// another block, an array filled and read in two loops, and a global read four times.
pub fn address_fold() -> (r: Vec<Case>)
    ensures
        r@.len() == 28,
        forall|k: int|
            0 <= k < 28 ==> is_address_case(
                #[trigger] r@[k],
                wide_types()[k / 7],
                address_shapes_list()[k % 7],
            ),
{
    let types = wide();
    let shapes = address_shapes_array();
    let mut out: Vec<Case> = Vec::new();
    let mut k: usize = 0;
    while k < 28
        invariant
            k <= 28,
            types@ == wide_types(),
            shapes@ == address_shapes_list(),
            out@.len() == k,
            forall|i: int|
                0 <= i < k ==> is_address_case(
                    #[trigger] out@[i],
                    wide_types()[i / 7],
                    address_shapes_list()[i % 7],
                ),
        decreases 28 - k,
    {
        out.push(address_case(types[k / 7], shapes[k % 7]));
        k += 1;
    }
    out
}

/// A count written out, as the frame address axis names it.
pub open spec fn spelled_text(n: int) -> Seq<char> {
    if n == 1 {
        "one"@
    } else if n == 2 {
        "two"@
    } else if n == 3 {
        "three"@
    } else if n == 4 {
        "four"@
    } else if n == 5 {
        "five"@
    } else {
        "six"@
    }
}

/// A count from one to six written out.
fn spelled(n: i128) -> (r: &'static str)
    requires
        1 <= n <= 6,
    ensures
        r@ == spelled_text(n as int),
{
    if n == 1 {
        "one"
    } else if n == 2 {
        "two"
    } else if n == 3 {
        "three"
    } else if n == 4 {
        "four"
    } else if n == 5 {
        "five"
    } else {
        "six"
    }
}

/// What is added to the seed at an offset: nothing at the first, a `long long` literal after.
pub open spec fn room_more(at: int) -> Seq<char> {
    if at == 0 {
        Seq::empty()
    } else {
        " + "@ + lit_text(Ty::I64, at)
    }
}

/// The store at one offset of the frame array.
pub open spec fn room_write(at: int) -> Seq<char> {
    indent(1) + "room["@ + decimal(at) + "] = seed"@ + room_more(at) + ";"@
}

/// The stores at the first `n` offsets, in order.
pub open spec fn room_writes(n: nat) -> Seq<Seq<char>>
    decreases n,
{
    if n == 0 {
        Seq::empty()
    } else {
        room_writes((n - 1) as nat).push(room_write(n - 1))
    }
}

/// The reads of the first `n` offsets joined by plus signs.
pub open spec fn room_reads(n: nat) -> Seq<char>
    decreases n,
{
    if n <= 1 {
        "room[0]"@
    } else {
        room_reads((n - 1) as nat) + " + room["@ + decimal(n - 1) + "]"@
    }
}

/// The statements of a frame address program with `n` offsets.
pub open spec fn frame_body(n: nat) -> Seq<Seq<char>> {
    seq![input_read(Ty::I64, "seed"@), Seq::empty(), indent(1) + "long long room["@ + decimal(
        n as int,
    ) + "];"@] + room_writes(n) + seq![
        indent(1) + "long long total = "@ + room_reads(n) + ";"@,
        Seq::empty(),
        print_line(1, Ty::I64, "total"@),
    ]
}

/// What a frame address program with `n` offsets prints: every offset holds the seed, five,
/// plus its own position.
pub open spec fn frame_total(n: int) -> int {
    n * 5 + n * (n - 1) / 2
}

/// Whether a case is the frame address program with `n` offsets, whole.
pub open spec fn is_frame_case(c: Case, n: int) -> bool {
    &&& c.axes_text() == seq![("offsets"@, spelled_text(n))]
    &&& c.tags_text() == Seq::<Seq<char>>::empty()
    &&& c.program.purpose_text() == "one frame address, used at "@ + spelled_text(n)
        + " offsets"@
    &&& c.program.include_lines() == Seq::<Seq<char>>::empty()
    &&& c.program.top_lines() == seq![input_global(Ty::I64, "seed"@, 5)]
    &&& c.program.body_lines() == frame_body(n as nat)
    &&& c.program.expected_values() == seq![frame_total(n)]
    &&& !c.program.sinks()
}

/// The frame address program with `offsets` offsets.
fn frame_case(offsets: i128) -> (r: Case)
    requires
        1 <= offsets <= 6,
    ensures
        is_frame_case(r, offsets as int),
{
    let name = spelled(offsets);
    let mut purpose = String::from_str("one frame address, used at ");
    purpose.append(name);
    purpose.append(" offsets");
    let mut program = Program::new(purpose.as_str());
    program.input(Ty::I64, "seed", 5);
    program.blank();
    let mut room = String::from_str("long long room[");
    push_decimal(&mut room, offsets);
    room.append("];");
    program.line(room.as_str());
    let ghost before = program.body_lines();
    let mut reads = String::from_str("room[0]");
    let mut at: i128 = 0;
    while at < offsets
        invariant
            0 <= at <= offsets <= 6,
            program.body_lines() == before + room_writes(at as nat),
            program.top_lines() == seq![input_global(Ty::I64, "seed"@, 5)],
            program.purpose_text() == "one frame address, used at "@ + spelled_text(
                offsets as int,
            ) + " offsets"@,
            program.include_lines() == Seq::<Seq<char>>::empty(),
            program.expected_values() == Seq::<int>::empty(),
            !program.sinks(),
            reads@ == room_reads(if at == 0 { 1nat } else { at as nat }),
        decreases offsets - at,
    {
        let mut store = String::from_str("room[");
        push_decimal(&mut store, at);
        store.append("] = seed");
        if at != 0 {
            store.append(" + ");
            let literal = lit(Ty::I64, at);
            store.append(literal.as_str());
            assert(store@ == "room["@ + decimal(at as int) + "] = seed"@ + room_more(at as int));
        } else {
            assert(store@ == "room["@ + decimal(at as int) + "] = seed"@ + room_more(at as int));
        }
        store.append(";");
        program.line(store.as_str());
        assert(indent(1) + store@ =~= room_write(at as int));
        assert(before + room_writes((at + 1) as nat) =~= (before + room_writes(at as nat)).push(
            room_write(at as int),
        ));
        if at != 0 {
            reads.append(" + room[");
            push_decimal(&mut reads, at);
            reads.append("]");
            assert(reads@ =~= room_reads((at + 1) as nat));
        }
        at += 1;
    }
    let mut total = String::from_str("long long total = ");
    total.append(reads.as_str());
    total.append(";");
    program.line(total.as_str());
    program.blank();
    assert(0 <= offsets * (offsets - 1) <= 30) by (nonlinear_arith)
        requires
            1 <= offsets <= 6,
    ;
    program.check(Ty::I64, "total", offsets * 5 + offsets * (offsets - 1) / 2);
    assert(program.body_lines() =~~= frame_body(offsets as nat));
    let axes = vec![axis("offsets", name)];
    let r = Case { axes, tags: tags_for(false), program };
    assert(r.axes_text() =~= seq![("offsets"@, spelled_text(offsets as int))]);
    assert(r.program.expected_values() =~= seq![frame_total(offsets as int)]);
    r
}

/// One local used at a counted number of offsets, one program per count from one to six.
///
/// An address into the frame is a distance from the stack pointer, and a memory operand based on
/// the stack pointer costs an index byte, so there is a count of users past which working the
/// address out once into a register is the better of the two. Every offset is written and then
/// read, and every one is in the sum, so a compiler that loses one prints a different number.
pub fn frame_address() -> (r: Vec<Case>)
    ensures
        r@.len() == 6,
        forall|k: int| 0 <= k < 6 ==> is_frame_case(#[trigger] r@[k], k + 1),
{
    let mut out: Vec<Case> = Vec::new();
    let mut n: i128 = 1;
    while n <= 6
        invariant
            1 <= n <= 7,
            out@.len() == n - 1,
            forall|k: int| 0 <= k < n - 1 ==> is_frame_case(#[trigger] out@[k], k + 1),
        decreases 7 - n,
    {
        out.push(frame_case(n));
        n += 1;
    }
    out
}

} // verus!
