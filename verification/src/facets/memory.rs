//! Loads and stores the back end can fold into the instruction that uses them: a memory
//! operand read and written back with an operation between, against a register or a constant,
//! and the reasons the three are not one instruction.
//!
//! Every answer is arithmetic on a small array the program fills from an opaque seed, and the
//! index the answer is read back at holds what the written index holds without saying so, so
//! a store is never simply handed to the reader.

use vstd::prelude::*;
use vstd::string::*;
use crate::emit::{Program, input_global, input_read, indent, print_line};
use crate::lang::{Ty, all, all_types, wide, wide_types};
use crate::facets::{Case, axis, tags_for, lit, lit_text};

verus! {

/// A load, an operation against a constant, and a store back to the same place.
#[derive(Clone, Copy, Debug, PartialEq, Eq, Structural)]
pub enum ConstantStoreShape {
    Add,
    Subtract,
    SubtractReversed,
    BitwiseOr,
    BitwiseAnd,
    ExclusiveOr,
    BigConstant,
    TwoReaders,
    AnswerRead,
    StoreBetween,
    CallBetween,
    OtherPlace,
    OtherOffset,
    IndexWrittenBetween,
    FrameSlots,
}

impl ConstantStoreShape {
    /// The axis value.
    pub open spec fn name_text(self) -> Seq<char> {
        match self {
            ConstantStoreShape::Add => "add"@,
            ConstantStoreShape::Subtract => "subtract"@,
            ConstantStoreShape::SubtractReversed => "subtract-reversed"@,
            ConstantStoreShape::BitwiseOr => "bitwise-or"@,
            ConstantStoreShape::BitwiseAnd => "bitwise-and"@,
            ConstantStoreShape::ExclusiveOr => "exclusive-or"@,
            ConstantStoreShape::BigConstant => "big-constant"@,
            ConstantStoreShape::TwoReaders => "two-readers"@,
            ConstantStoreShape::AnswerRead => "answer-read"@,
            ConstantStoreShape::StoreBetween => "store-between"@,
            ConstantStoreShape::CallBetween => "call-between"@,
            ConstantStoreShape::OtherPlace => "other-place"@,
            ConstantStoreShape::OtherOffset => "other-offset"@,
            ConstantStoreShape::IndexWrittenBetween => "index-written-between"@,
            ConstantStoreShape::FrameSlots => "frame-slots"@,
        }
    }

    /// The axis value.
    pub fn name(self) -> (r: &'static str)
        ensures
            r@ == self.name_text(),
    {
        match self {
            ConstantStoreShape::Add => "add",
            ConstantStoreShape::Subtract => "subtract",
            ConstantStoreShape::SubtractReversed => "subtract-reversed",
            ConstantStoreShape::BitwiseOr => "bitwise-or",
            ConstantStoreShape::BitwiseAnd => "bitwise-and",
            ConstantStoreShape::ExclusiveOr => "exclusive-or",
            ConstantStoreShape::BigConstant => "big-constant",
            ConstantStoreShape::TwoReaders => "two-readers",
            ConstantStoreShape::AnswerRead => "answer-read",
            ConstantStoreShape::StoreBetween => "store-between",
            ConstantStoreShape::CallBetween => "call-between",
            ConstantStoreShape::OtherPlace => "other-place",
            ConstantStoreShape::OtherOffset => "other-offset",
            ConstantStoreShape::IndexWrittenBetween => "index-written-between",
            ConstantStoreShape::FrameSlots => "frame-slots",
        }
    }
}

/// The shapes in the order the facet walks them.
pub open spec fn constant_store_shapes_list() -> Seq<ConstantStoreShape> {
    seq![
        ConstantStoreShape::Add,
        ConstantStoreShape::Subtract,
        ConstantStoreShape::SubtractReversed,
        ConstantStoreShape::BitwiseOr,
        ConstantStoreShape::BitwiseAnd,
        ConstantStoreShape::ExclusiveOr,
        ConstantStoreShape::BigConstant,
        ConstantStoreShape::TwoReaders,
        ConstantStoreShape::AnswerRead,
        ConstantStoreShape::StoreBetween,
        ConstantStoreShape::CallBetween,
        ConstantStoreShape::OtherPlace,
        ConstantStoreShape::OtherOffset,
        ConstantStoreShape::IndexWrittenBetween,
        ConstantStoreShape::FrameSlots,
    ]
}

/// The shapes in the order the facet walks them.
fn constant_store_shapes_array() -> (r: Vec<ConstantStoreShape>)
    ensures
        r@ == constant_store_shapes_list(),
{
    let r = vec![
        ConstantStoreShape::Add,
        ConstantStoreShape::Subtract,
        ConstantStoreShape::SubtractReversed,
        ConstantStoreShape::BitwiseOr,
        ConstantStoreShape::BitwiseAnd,
        ConstantStoreShape::ExclusiveOr,
        ConstantStoreShape::BigConstant,
        ConstantStoreShape::TwoReaders,
        ConstantStoreShape::AnswerRead,
        ConstantStoreShape::StoreBetween,
        ConstantStoreShape::CallBetween,
        ConstantStoreShape::OtherPlace,
        ConstantStoreShape::OtherOffset,
        ConstantStoreShape::IndexWrittenBetween,
        ConstantStoreShape::FrameSlots,
    ];
    assert(r@ =~= constant_store_shapes_list());
    r
}

/// The lines before `main` of each shape.
pub open spec fn constant_store_top(ty: Ty, shape: ConstantStoreShape) -> Seq<Seq<char>> {
    match shape {
        ConstantStoreShape::Add => seq![
            input_global(ty, "seed"@, 5int),
            input_global(Ty::I32, "at"@, 3int),
            input_global(Ty::I32, "back"@, 3int),
        ],
        ConstantStoreShape::Subtract => seq![
            input_global(ty, "seed"@, 5int),
            input_global(Ty::I32, "at"@, 3int),
            input_global(Ty::I32, "back"@, 3int),
        ],
        ConstantStoreShape::SubtractReversed => seq![
            input_global(ty, "seed"@, 5int),
            input_global(Ty::I32, "at"@, 3int),
            input_global(Ty::I32, "back"@, 3int),
        ],
        ConstantStoreShape::BitwiseOr => seq![
            input_global(ty, "seed"@, 5int),
            input_global(Ty::I32, "at"@, 3int),
            input_global(Ty::I32, "back"@, 3int),
        ],
        ConstantStoreShape::BitwiseAnd => seq![
            input_global(ty, "seed"@, 5int),
            input_global(Ty::I32, "at"@, 3int),
            input_global(Ty::I32, "back"@, 3int),
        ],
        ConstantStoreShape::ExclusiveOr => seq![
            input_global(ty, "seed"@, 5int),
            input_global(Ty::I32, "at"@, 3int),
            input_global(Ty::I32, "back"@, 3int),
        ],
        ConstantStoreShape::BigConstant => seq![
            input_global(ty, "seed"@, 5int),
            input_global(Ty::I32, "at"@, 3int),
            input_global(Ty::I32, "back"@, 3int),
        ],
        ConstantStoreShape::TwoReaders => seq![
            input_global(ty, "seed"@, 5int),
            input_global(Ty::I32, "at"@, 3int),
            input_global(Ty::I32, "back"@, 3int),
        ],
        ConstantStoreShape::AnswerRead => seq![
            input_global(ty, "seed"@, 5int),
            input_global(Ty::I32, "at"@, 3int),
            input_global(Ty::I32, "back"@, 3int),
        ],
        ConstantStoreShape::StoreBetween => seq![
            input_global(ty, "seed"@, 5int),
            input_global(Ty::I32, "at"@, 3int),
            input_global(Ty::I32, "back"@, 3int),
            input_global(Ty::I32, "other"@, 6int),
        ],
        ConstantStoreShape::CallBetween => seq![
            input_global(ty, "seed"@, 5int),
            input_global(Ty::I32, "at"@, 3int),
            input_global(Ty::I32, "back"@, 3int),
            "static volatile int noise_count;"@,
            "static void noise(void) {"@,
            "    noise_count = noise_count + 1;"@,
            "}"@,
            "static void (*volatile jump)(void) = noise;"@,
        ],
        ConstantStoreShape::OtherPlace => seq![
            input_global(ty, "seed"@, 5int),
            input_global(Ty::I32, "at"@, 3int),
            input_global(Ty::I32, "back"@, 3int),
            input_global(Ty::I32, "other"@, 6int),
        ],
        ConstantStoreShape::OtherOffset => seq![
            input_global(ty, "seed"@, 5int),
            input_global(Ty::I32, "at"@, 3int),
            input_global(Ty::I32, "back"@, 3int),
        ],
        ConstantStoreShape::IndexWrittenBetween => seq![
            input_global(ty, "seed"@, 5int),
            input_global(Ty::I32, "at"@, 3int),
            input_global(Ty::I32, "back"@, 3int),
            input_global(Ty::I32, "other"@, 6int),
        ],
        ConstantStoreShape::FrameSlots => seq![
            input_global(ty, "seed"@, 5int),
            "static "@ + ty.c_text() + " *volatile hold;"@,
        ],
    }
}

/// The statements of `main` of each shape.
pub open spec fn constant_store_body(ty: Ty, shape: ConstantStoreShape) -> Seq<Seq<char>> {
    match shape {
        ConstantStoreShape::Add => seq![
            input_read(ty, "seed"@),
            input_read(Ty::I32, "at"@),
            input_read(Ty::I32, "back"@),
            Seq::<char>::empty(),
            indent(1) + ty.c_text() + " buffer[8];"@,
            indent(1) + "for (int i = 0; i < 8; i++) {"@,
            indent(2) + "buffer[i] = seed + ("@ + ty.c_text() + ")i;"@,
            indent(1) + "}"@,
            indent(1) + "buffer[at] += 5;"@,
            indent(1) + ty.c_text() + " total = buffer[back];"@,
            Seq::<char>::empty(),
            print_line(1, ty.promotion(), "total"@),
        ],
        ConstantStoreShape::Subtract => seq![
            input_read(ty, "seed"@),
            input_read(Ty::I32, "at"@),
            input_read(Ty::I32, "back"@),
            Seq::<char>::empty(),
            indent(1) + ty.c_text() + " buffer[8];"@,
            indent(1) + "for (int i = 0; i < 8; i++) {"@,
            indent(2) + "buffer[i] = seed + ("@ + ty.c_text() + ")i;"@,
            indent(1) + "}"@,
            indent(1) + "buffer[at] -= 5;"@,
            indent(1) + ty.c_text() + " total = buffer[back];"@,
            Seq::<char>::empty(),
            print_line(1, ty.promotion(), "total"@),
        ],
        ConstantStoreShape::SubtractReversed => seq![
            input_read(ty, "seed"@),
            input_read(Ty::I32, "at"@),
            input_read(Ty::I32, "back"@),
            Seq::<char>::empty(),
            indent(1) + ty.c_text() + " buffer[8];"@,
            indent(1) + "for (int i = 0; i < 8; i++) {"@,
            indent(2) + "buffer[i] = seed + ("@ + ty.c_text() + ")i;"@,
            indent(1) + "}"@,
            indent(1) + "buffer[at] = 20 - buffer[at];"@,
            indent(1) + ty.c_text() + " total = buffer[back];"@,
            Seq::<char>::empty(),
            print_line(1, ty.promotion(), "total"@),
        ],
        ConstantStoreShape::BitwiseOr => seq![
            input_read(ty, "seed"@),
            input_read(Ty::I32, "at"@),
            input_read(Ty::I32, "back"@),
            Seq::<char>::empty(),
            indent(1) + ty.c_text() + " buffer[8];"@,
            indent(1) + "for (int i = 0; i < 8; i++) {"@,
            indent(2) + "buffer[i] = seed + ("@ + ty.c_text() + ")i;"@,
            indent(1) + "}"@,
            indent(1) + "buffer[at] |= 5;"@,
            indent(1) + ty.c_text() + " total = buffer[back];"@,
            Seq::<char>::empty(),
            print_line(1, ty.promotion(), "total"@),
        ],
        ConstantStoreShape::BitwiseAnd => seq![
            input_read(ty, "seed"@),
            input_read(Ty::I32, "at"@),
            input_read(Ty::I32, "back"@),
            Seq::<char>::empty(),
            indent(1) + ty.c_text() + " buffer[8];"@,
            indent(1) + "for (int i = 0; i < 8; i++) {"@,
            indent(2) + "buffer[i] = seed + ("@ + ty.c_text() + ")i;"@,
            indent(1) + "}"@,
            indent(1) + "buffer[at] &= 12;"@,
            indent(1) + ty.c_text() + " total = buffer[back];"@,
            Seq::<char>::empty(),
            print_line(1, ty.promotion(), "total"@),
        ],
        ConstantStoreShape::ExclusiveOr => seq![
            input_read(ty, "seed"@),
            input_read(Ty::I32, "at"@),
            input_read(Ty::I32, "back"@),
            Seq::<char>::empty(),
            indent(1) + ty.c_text() + " buffer[8];"@,
            indent(1) + "for (int i = 0; i < 8; i++) {"@,
            indent(2) + "buffer[i] = seed + ("@ + ty.c_text() + ")i;"@,
            indent(1) + "}"@,
            indent(1) + "buffer[at] ^= 5;"@,
            indent(1) + ty.c_text() + " total = buffer[back];"@,
            Seq::<char>::empty(),
            print_line(1, ty.promotion(), "total"@),
        ],
        ConstantStoreShape::BigConstant => seq![
            input_read(ty, "seed"@),
            input_read(Ty::I32, "at"@),
            input_read(Ty::I32, "back"@),
            Seq::<char>::empty(),
            indent(1) + ty.c_text() + " buffer[8];"@,
            indent(1) + "for (int i = 0; i < 8; i++) {"@,
            indent(2) + "buffer[i] = seed + ("@ + ty.c_text() + ")i;"@,
            indent(1) + "}"@,
            indent(1) + "buffer[at] += 4660;"@,
            indent(1) + ty.c_text() + " total = buffer[back];"@,
            Seq::<char>::empty(),
            print_line(1, ty.promotion(), "total"@),
        ],
        ConstantStoreShape::TwoReaders => seq![
            input_read(ty, "seed"@),
            input_read(Ty::I32, "at"@),
            input_read(Ty::I32, "back"@),
            Seq::<char>::empty(),
            indent(1) + ty.c_text() + " buffer[8];"@,
            indent(1) + "for (int i = 0; i < 8; i++) {"@,
            indent(2) + "buffer[i] = seed + ("@ + ty.c_text() + ")i;"@,
            indent(1) + "}"@,
            indent(1) + ty.c_text() + " value = buffer[at];"@,
            indent(1) + "buffer[at] = value + 5;"@,
            indent(1) + ty.c_text() + " total = buffer[back] + value;"@,
            Seq::<char>::empty(),
            print_line(1, ty.promotion(), "total"@),
        ],
        ConstantStoreShape::AnswerRead => seq![
            input_read(ty, "seed"@),
            input_read(Ty::I32, "at"@),
            input_read(Ty::I32, "back"@),
            Seq::<char>::empty(),
            indent(1) + ty.c_text() + " buffer[8];"@,
            indent(1) + "for (int i = 0; i < 8; i++) {"@,
            indent(2) + "buffer[i] = seed + ("@ + ty.c_text() + ")i;"@,
            indent(1) + "}"@,
            indent(1) + ty.c_text() + " sum = buffer[at] + 5;"@,
            indent(1) + "buffer[at] = sum;"@,
            indent(1) + ty.c_text() + " total = buffer[back] + sum;"@,
            Seq::<char>::empty(),
            print_line(1, ty.promotion(), "total"@),
        ],
        ConstantStoreShape::StoreBetween => seq![
            input_read(ty, "seed"@),
            input_read(Ty::I32, "at"@),
            input_read(Ty::I32, "back"@),
            input_read(Ty::I32, "other"@),
            Seq::<char>::empty(),
            indent(1) + ty.c_text() + " buffer[8];"@,
            indent(1) + "for (int i = 0; i < 8; i++) {"@,
            indent(2) + "buffer[i] = seed + ("@ + ty.c_text() + ")i;"@,
            indent(1) + "}"@,
            indent(1) + ty.c_text() + " value = buffer[at];"@,
            indent(1) + "buffer[other] = seed;"@,
            indent(1) + "buffer[at] = value + 5;"@,
            indent(1) + ty.c_text() + " total = buffer[back] + buffer[other];"@,
            Seq::<char>::empty(),
            print_line(1, ty.promotion(), "total"@),
        ],
        ConstantStoreShape::CallBetween => seq![
            input_read(ty, "seed"@),
            input_read(Ty::I32, "at"@),
            input_read(Ty::I32, "back"@),
            Seq::<char>::empty(),
            indent(1) + ty.c_text() + " buffer[8];"@,
            indent(1) + "for (int i = 0; i < 8; i++) {"@,
            indent(2) + "buffer[i] = seed + ("@ + ty.c_text() + ")i;"@,
            indent(1) + "}"@,
            indent(1) + ty.c_text() + " value = buffer[at];"@,
            indent(1) + "jump();"@,
            indent(1) + "buffer[at] = value + 5;"@,
            indent(1) + ty.c_text() + " total = buffer[back];"@,
            Seq::<char>::empty(),
            print_line(1, ty.promotion(), "total"@),
        ],
        ConstantStoreShape::OtherPlace => seq![
            input_read(ty, "seed"@),
            input_read(Ty::I32, "at"@),
            input_read(Ty::I32, "back"@),
            input_read(Ty::I32, "other"@),
            Seq::<char>::empty(),
            indent(1) + ty.c_text() + " buffer[8];"@,
            indent(1) + "for (int i = 0; i < 8; i++) {"@,
            indent(2) + "buffer[i] = seed + ("@ + ty.c_text() + ")i;"@,
            indent(1) + "}"@,
            indent(1) + "buffer[other] = buffer[at] + 5;"@,
            indent(1) + ty.c_text() + " total = buffer[back] + buffer[other];"@,
            Seq::<char>::empty(),
            print_line(1, ty.promotion(), "total"@),
        ],
        ConstantStoreShape::OtherOffset => seq![
            input_read(ty, "seed"@),
            input_read(Ty::I32, "at"@),
            input_read(Ty::I32, "back"@),
            Seq::<char>::empty(),
            indent(1) + ty.c_text() + " buffer[8];"@,
            indent(1) + "for (int i = 0; i < 8; i++) {"@,
            indent(2) + "buffer[i] = seed + ("@ + ty.c_text() + ")i;"@,
            indent(1) + "}"@,
            indent(1) + "buffer[at + 1] = buffer[at] + 5;"@,
            indent(1) + ty.c_text() + " total = buffer[back] + buffer[back + 1];"@,
            Seq::<char>::empty(),
            print_line(1, ty.promotion(), "total"@),
        ],
        ConstantStoreShape::IndexWrittenBetween => seq![
            input_read(ty, "seed"@),
            input_read(Ty::I32, "at"@),
            input_read(Ty::I32, "back"@),
            input_read(Ty::I32, "other"@),
            Seq::<char>::empty(),
            indent(1) + ty.c_text() + " buffer[8];"@,
            indent(1) + "for (int i = 0; i < 8; i++) {"@,
            indent(2) + "buffer[i] = seed + ("@ + ty.c_text() + ")i;"@,
            indent(1) + "}"@,
            indent(1) + ty.c_text() + " value = buffer[at];"@,
            indent(1) + "at = other;"@,
            indent(1) + "buffer[at] = value + 5;"@,
            indent(1) + ty.c_text() + " total = buffer[back] + buffer[other];"@,
            Seq::<char>::empty(),
            print_line(1, ty.promotion(), "total"@),
        ],
        ConstantStoreShape::FrameSlots => seq![
            input_read(ty, "seed"@),
            Seq::<char>::empty(),
            indent(1) + ty.c_text() + " one = seed;"@,
            indent(1) + ty.c_text() + " two = seed + "@ + lit_text(ty, 1int) + ";"@,
            indent(1) + "hold = &one;"@,
            indent(1) + "hold = &two;"@,
            indent(1) + "two = one + 5;"@,
            indent(1) + ty.c_text() + " total = one + two;"@,
            Seq::<char>::empty(),
            print_line(1, ty.promotion(), "total"@),
        ],
    }
}

/// The headers of each shape.
pub open spec fn constant_store_includes(ty: Ty, shape: ConstantStoreShape) -> Seq<Seq<char>> {
    match shape {
        ConstantStoreShape::Add => Seq::empty(),
        ConstantStoreShape::Subtract => Seq::empty(),
        ConstantStoreShape::SubtractReversed => Seq::empty(),
        ConstantStoreShape::BitwiseOr => Seq::empty(),
        ConstantStoreShape::BitwiseAnd => Seq::empty(),
        ConstantStoreShape::ExclusiveOr => Seq::empty(),
        ConstantStoreShape::BigConstant => Seq::empty(),
        ConstantStoreShape::TwoReaders => Seq::empty(),
        ConstantStoreShape::AnswerRead => Seq::empty(),
        ConstantStoreShape::StoreBetween => Seq::empty(),
        ConstantStoreShape::CallBetween => Seq::empty(),
        ConstantStoreShape::OtherPlace => Seq::empty(),
        ConstantStoreShape::OtherOffset => Seq::empty(),
        ConstantStoreShape::IndexWrittenBetween => Seq::empty(),
        ConstantStoreShape::FrameSlots => Seq::empty(),
    }
}

/// What the program prints of each shape.
pub open spec fn constant_store_expected(ty: Ty, shape: ConstantStoreShape) -> Seq<int> {
    match shape {
        ConstantStoreShape::Add => seq![
            13int,
        ],
        ConstantStoreShape::Subtract => seq![
            3int,
        ],
        ConstantStoreShape::SubtractReversed => seq![
            12int,
        ],
        ConstantStoreShape::BitwiseOr => seq![
            13int,
        ],
        ConstantStoreShape::BitwiseAnd => seq![
            8int,
        ],
        ConstantStoreShape::ExclusiveOr => seq![
            13int,
        ],
        ConstantStoreShape::BigConstant => seq![
            4668int,
        ],
        ConstantStoreShape::TwoReaders => seq![
            21int,
        ],
        ConstantStoreShape::AnswerRead => seq![
            26int,
        ],
        ConstantStoreShape::StoreBetween => seq![
            18int,
        ],
        ConstantStoreShape::CallBetween => seq![
            13int,
        ],
        ConstantStoreShape::OtherPlace => seq![
            21int,
        ],
        ConstantStoreShape::OtherOffset => seq![
            21int,
        ],
        ConstantStoreShape::IndexWrittenBetween => seq![
            21int,
        ],
        ConstantStoreShape::FrameSlots => seq![
            15int,
        ],
    }
}

/// Whether the shape asks for the volatile sink.
pub open spec fn constant_store_sinks(shape: ConstantStoreShape) -> bool {
    match shape {
        ConstantStoreShape::Add => false,
        ConstantStoreShape::Subtract => false,
        ConstantStoreShape::SubtractReversed => false,
        ConstantStoreShape::BitwiseOr => false,
        ConstantStoreShape::BitwiseAnd => false,
        ConstantStoreShape::ExclusiveOr => false,
        ConstantStoreShape::BigConstant => false,
        ConstantStoreShape::TwoReaders => false,
        ConstantStoreShape::AnswerRead => false,
        ConstantStoreShape::StoreBetween => false,
        ConstantStoreShape::CallBetween => false,
        ConstantStoreShape::OtherPlace => false,
        ConstantStoreShape::OtherOffset => false,
        ConstantStoreShape::IndexWrittenBetween => false,
        ConstantStoreShape::FrameSlots => false,
    }
}

/// Writes some of the shapes.
#[verifier::rlimit(100)]
fn constant_store_write_0(program: &mut Program, ty: Ty, shape: ConstantStoreShape)
    requires
        old(program).top_lines() == Seq::<Seq<char>>::empty(),
        old(program).body_lines() == Seq::<Seq<char>>::empty(),
        old(program).expected_values() == Seq::<int>::empty(),
        old(program).include_lines() == Seq::<Seq<char>>::empty(),
        !old(program).sinks(),
        shape == ConstantStoreShape::Add || shape == ConstantStoreShape::Subtract || shape == ConstantStoreShape::SubtractReversed || shape == ConstantStoreShape::BitwiseOr,
    ensures
        final(program).top_lines() == constant_store_top(ty, shape),
        final(program).body_lines() == constant_store_body(ty, shape),
        final(program).expected_values() == constant_store_expected(ty, shape),
        final(program).include_lines() == constant_store_includes(ty, shape),
        final(program).sinks() == constant_store_sinks(shape),
        final(program).purpose_text() == old(program).purpose_text(),
{
    let c = ty.c_name();
    match shape {
        ConstantStoreShape::Add => {
            program.input(ty, "seed", 5);
            program.input(Ty::I32, "at", 3);
            program.input(Ty::I32, "back", 3);
            program.blank();
            let mut text1 = String::from_str(c);
            text1.append(" buffer[8];");
            program.line(text1.as_str());
            program.line("for (int i = 0; i < 8; i++) {");
            let mut text2 = String::from_str("buffer[i] = seed + (");
            text2.append(c);
            text2.append(")i;");
            program.line_at(1, text2.as_str());
            program.line("}");
            program.line("buffer[at] += 5;");
            let mut text3 = String::from_str(c);
            text3.append(" total = buffer[back];");
            program.line(text3.as_str());
            program.blank();
            program.check(ty.promoted(), "total", 13);
            assert(program.top_lines() =~~= constant_store_top(ty, shape));
            assert(program.body_lines() =~~= constant_store_body(ty, shape));
            assert(program.expected_values() =~= constant_store_expected(ty, shape));
            assert(program.include_lines() =~~= constant_store_includes(ty, shape));
        },
        ConstantStoreShape::Subtract => {
            program.input(ty, "seed", 5);
            program.input(Ty::I32, "at", 3);
            program.input(Ty::I32, "back", 3);
            program.blank();
            let mut text1 = String::from_str(c);
            text1.append(" buffer[8];");
            program.line(text1.as_str());
            program.line("for (int i = 0; i < 8; i++) {");
            let mut text2 = String::from_str("buffer[i] = seed + (");
            text2.append(c);
            text2.append(")i;");
            program.line_at(1, text2.as_str());
            program.line("}");
            program.line("buffer[at] -= 5;");
            let mut text3 = String::from_str(c);
            text3.append(" total = buffer[back];");
            program.line(text3.as_str());
            program.blank();
            program.check(ty.promoted(), "total", 3);
            assert(program.top_lines() =~~= constant_store_top(ty, shape));
            assert(program.body_lines() =~~= constant_store_body(ty, shape));
            assert(program.expected_values() =~= constant_store_expected(ty, shape));
            assert(program.include_lines() =~~= constant_store_includes(ty, shape));
        },
        ConstantStoreShape::SubtractReversed => {
            program.input(ty, "seed", 5);
            program.input(Ty::I32, "at", 3);
            program.input(Ty::I32, "back", 3);
            program.blank();
            let mut text1 = String::from_str(c);
            text1.append(" buffer[8];");
            program.line(text1.as_str());
            program.line("for (int i = 0; i < 8; i++) {");
            let mut text2 = String::from_str("buffer[i] = seed + (");
            text2.append(c);
            text2.append(")i;");
            program.line_at(1, text2.as_str());
            program.line("}");
            program.line("buffer[at] = 20 - buffer[at];");
            let mut text3 = String::from_str(c);
            text3.append(" total = buffer[back];");
            program.line(text3.as_str());
            program.blank();
            program.check(ty.promoted(), "total", 12);
            assert(program.top_lines() =~~= constant_store_top(ty, shape));
            assert(program.body_lines() =~~= constant_store_body(ty, shape));
            assert(program.expected_values() =~= constant_store_expected(ty, shape));
            assert(program.include_lines() =~~= constant_store_includes(ty, shape));
        },
        ConstantStoreShape::BitwiseOr => {
            program.input(ty, "seed", 5);
            program.input(Ty::I32, "at", 3);
            program.input(Ty::I32, "back", 3);
            program.blank();
            let mut text1 = String::from_str(c);
            text1.append(" buffer[8];");
            program.line(text1.as_str());
            program.line("for (int i = 0; i < 8; i++) {");
            let mut text2 = String::from_str("buffer[i] = seed + (");
            text2.append(c);
            text2.append(")i;");
            program.line_at(1, text2.as_str());
            program.line("}");
            program.line("buffer[at] |= 5;");
            let mut text3 = String::from_str(c);
            text3.append(" total = buffer[back];");
            program.line(text3.as_str());
            program.blank();
            program.check(ty.promoted(), "total", 13);
            assert(program.top_lines() =~~= constant_store_top(ty, shape));
            assert(program.body_lines() =~~= constant_store_body(ty, shape));
            assert(program.expected_values() =~= constant_store_expected(ty, shape));
            assert(program.include_lines() =~~= constant_store_includes(ty, shape));
        },
        _ => {},
    }
}

/// Writes some of the shapes.
#[verifier::rlimit(100)]
fn constant_store_write_1(program: &mut Program, ty: Ty, shape: ConstantStoreShape)
    requires
        old(program).top_lines() == Seq::<Seq<char>>::empty(),
        old(program).body_lines() == Seq::<Seq<char>>::empty(),
        old(program).expected_values() == Seq::<int>::empty(),
        old(program).include_lines() == Seq::<Seq<char>>::empty(),
        !old(program).sinks(),
        shape == ConstantStoreShape::BitwiseAnd || shape == ConstantStoreShape::ExclusiveOr || shape == ConstantStoreShape::BigConstant || shape == ConstantStoreShape::TwoReaders,
    ensures
        final(program).top_lines() == constant_store_top(ty, shape),
        final(program).body_lines() == constant_store_body(ty, shape),
        final(program).expected_values() == constant_store_expected(ty, shape),
        final(program).include_lines() == constant_store_includes(ty, shape),
        final(program).sinks() == constant_store_sinks(shape),
        final(program).purpose_text() == old(program).purpose_text(),
{
    let c = ty.c_name();
    match shape {
        ConstantStoreShape::BitwiseAnd => {
            program.input(ty, "seed", 5);
            program.input(Ty::I32, "at", 3);
            program.input(Ty::I32, "back", 3);
            program.blank();
            let mut text1 = String::from_str(c);
            text1.append(" buffer[8];");
            program.line(text1.as_str());
            program.line("for (int i = 0; i < 8; i++) {");
            let mut text2 = String::from_str("buffer[i] = seed + (");
            text2.append(c);
            text2.append(")i;");
            program.line_at(1, text2.as_str());
            program.line("}");
            program.line("buffer[at] &= 12;");
            let mut text3 = String::from_str(c);
            text3.append(" total = buffer[back];");
            program.line(text3.as_str());
            program.blank();
            program.check(ty.promoted(), "total", 8);
            assert(program.top_lines() =~~= constant_store_top(ty, shape));
            assert(program.body_lines() =~~= constant_store_body(ty, shape));
            assert(program.expected_values() =~= constant_store_expected(ty, shape));
            assert(program.include_lines() =~~= constant_store_includes(ty, shape));
        },
        ConstantStoreShape::ExclusiveOr => {
            program.input(ty, "seed", 5);
            program.input(Ty::I32, "at", 3);
            program.input(Ty::I32, "back", 3);
            program.blank();
            let mut text1 = String::from_str(c);
            text1.append(" buffer[8];");
            program.line(text1.as_str());
            program.line("for (int i = 0; i < 8; i++) {");
            let mut text2 = String::from_str("buffer[i] = seed + (");
            text2.append(c);
            text2.append(")i;");
            program.line_at(1, text2.as_str());
            program.line("}");
            program.line("buffer[at] ^= 5;");
            let mut text3 = String::from_str(c);
            text3.append(" total = buffer[back];");
            program.line(text3.as_str());
            program.blank();
            program.check(ty.promoted(), "total", 13);
            assert(program.top_lines() =~~= constant_store_top(ty, shape));
            assert(program.body_lines() =~~= constant_store_body(ty, shape));
            assert(program.expected_values() =~= constant_store_expected(ty, shape));
            assert(program.include_lines() =~~= constant_store_includes(ty, shape));
        },
        ConstantStoreShape::BigConstant => {
            program.input(ty, "seed", 5);
            program.input(Ty::I32, "at", 3);
            program.input(Ty::I32, "back", 3);
            program.blank();
            let mut text1 = String::from_str(c);
            text1.append(" buffer[8];");
            program.line(text1.as_str());
            program.line("for (int i = 0; i < 8; i++) {");
            let mut text2 = String::from_str("buffer[i] = seed + (");
            text2.append(c);
            text2.append(")i;");
            program.line_at(1, text2.as_str());
            program.line("}");
            program.line("buffer[at] += 4660;");
            let mut text3 = String::from_str(c);
            text3.append(" total = buffer[back];");
            program.line(text3.as_str());
            program.blank();
            program.check(ty.promoted(), "total", 4668);
            assert(program.top_lines() =~~= constant_store_top(ty, shape));
            assert(program.body_lines() =~~= constant_store_body(ty, shape));
            assert(program.expected_values() =~= constant_store_expected(ty, shape));
            assert(program.include_lines() =~~= constant_store_includes(ty, shape));
        },
        ConstantStoreShape::TwoReaders => {
            program.input(ty, "seed", 5);
            program.input(Ty::I32, "at", 3);
            program.input(Ty::I32, "back", 3);
            program.blank();
            let mut text1 = String::from_str(c);
            text1.append(" buffer[8];");
            program.line(text1.as_str());
            program.line("for (int i = 0; i < 8; i++) {");
            let mut text2 = String::from_str("buffer[i] = seed + (");
            text2.append(c);
            text2.append(")i;");
            program.line_at(1, text2.as_str());
            program.line("}");
            let mut text3 = String::from_str(c);
            text3.append(" value = buffer[at];");
            program.line(text3.as_str());
            program.line("buffer[at] = value + 5;");
            let mut text4 = String::from_str(c);
            text4.append(" total = buffer[back] + value;");
            program.line(text4.as_str());
            program.blank();
            program.check(ty.promoted(), "total", 21);
            assert(program.top_lines() =~~= constant_store_top(ty, shape));
            assert(program.body_lines() =~~= constant_store_body(ty, shape));
            assert(program.expected_values() =~= constant_store_expected(ty, shape));
            assert(program.include_lines() =~~= constant_store_includes(ty, shape));
        },
        _ => {},
    }
}

/// Writes some of the shapes.
#[verifier::rlimit(100)]
fn constant_store_write_2(program: &mut Program, ty: Ty, shape: ConstantStoreShape)
    requires
        old(program).top_lines() == Seq::<Seq<char>>::empty(),
        old(program).body_lines() == Seq::<Seq<char>>::empty(),
        old(program).expected_values() == Seq::<int>::empty(),
        old(program).include_lines() == Seq::<Seq<char>>::empty(),
        !old(program).sinks(),
        shape == ConstantStoreShape::AnswerRead || shape == ConstantStoreShape::StoreBetween || shape == ConstantStoreShape::CallBetween || shape == ConstantStoreShape::OtherPlace,
    ensures
        final(program).top_lines() == constant_store_top(ty, shape),
        final(program).body_lines() == constant_store_body(ty, shape),
        final(program).expected_values() == constant_store_expected(ty, shape),
        final(program).include_lines() == constant_store_includes(ty, shape),
        final(program).sinks() == constant_store_sinks(shape),
        final(program).purpose_text() == old(program).purpose_text(),
{
    let c = ty.c_name();
    match shape {
        ConstantStoreShape::AnswerRead => {
            program.input(ty, "seed", 5);
            program.input(Ty::I32, "at", 3);
            program.input(Ty::I32, "back", 3);
            program.blank();
            let mut text1 = String::from_str(c);
            text1.append(" buffer[8];");
            program.line(text1.as_str());
            program.line("for (int i = 0; i < 8; i++) {");
            let mut text2 = String::from_str("buffer[i] = seed + (");
            text2.append(c);
            text2.append(")i;");
            program.line_at(1, text2.as_str());
            program.line("}");
            let mut text3 = String::from_str(c);
            text3.append(" sum = buffer[at] + 5;");
            program.line(text3.as_str());
            program.line("buffer[at] = sum;");
            let mut text4 = String::from_str(c);
            text4.append(" total = buffer[back] + sum;");
            program.line(text4.as_str());
            program.blank();
            program.check(ty.promoted(), "total", 26);
            assert(program.top_lines() =~~= constant_store_top(ty, shape));
            assert(program.body_lines() =~~= constant_store_body(ty, shape));
            assert(program.expected_values() =~= constant_store_expected(ty, shape));
            assert(program.include_lines() =~~= constant_store_includes(ty, shape));
        },
        ConstantStoreShape::StoreBetween => {
            program.input(ty, "seed", 5);
            program.input(Ty::I32, "at", 3);
            program.input(Ty::I32, "back", 3);
            program.input(Ty::I32, "other", 6);
            program.blank();
            let mut text1 = String::from_str(c);
            text1.append(" buffer[8];");
            program.line(text1.as_str());
            program.line("for (int i = 0; i < 8; i++) {");
            let mut text2 = String::from_str("buffer[i] = seed + (");
            text2.append(c);
            text2.append(")i;");
            program.line_at(1, text2.as_str());
            program.line("}");
            let mut text3 = String::from_str(c);
            text3.append(" value = buffer[at];");
            program.line(text3.as_str());
            program.line("buffer[other] = seed;");
            program.line("buffer[at] = value + 5;");
            let mut text4 = String::from_str(c);
            text4.append(" total = buffer[back] + buffer[other];");
            program.line(text4.as_str());
            program.blank();
            program.check(ty.promoted(), "total", 18);
            assert(program.top_lines() =~~= constant_store_top(ty, shape));
            assert(program.body_lines() =~~= constant_store_body(ty, shape));
            assert(program.expected_values() =~= constant_store_expected(ty, shape));
            assert(program.include_lines() =~~= constant_store_includes(ty, shape));
        },
        ConstantStoreShape::CallBetween => {
            program.input(ty, "seed", 5);
            program.input(Ty::I32, "at", 3);
            program.input(Ty::I32, "back", 3);
            program.top("static volatile int noise_count;");
            program.top("static void noise(void) {");
            program.top("    noise_count = noise_count + 1;");
            program.top("}");
            program.top("static void (*volatile jump)(void) = noise;");
            program.blank();
            let mut text1 = String::from_str(c);
            text1.append(" buffer[8];");
            program.line(text1.as_str());
            program.line("for (int i = 0; i < 8; i++) {");
            let mut text2 = String::from_str("buffer[i] = seed + (");
            text2.append(c);
            text2.append(")i;");
            program.line_at(1, text2.as_str());
            program.line("}");
            let mut text3 = String::from_str(c);
            text3.append(" value = buffer[at];");
            program.line(text3.as_str());
            program.line("jump();");
            program.line("buffer[at] = value + 5;");
            let mut text4 = String::from_str(c);
            text4.append(" total = buffer[back];");
            program.line(text4.as_str());
            program.blank();
            program.check(ty.promoted(), "total", 13);
            assert(program.top_lines() =~~= constant_store_top(ty, shape));
            assert(program.body_lines() =~~= constant_store_body(ty, shape));
            assert(program.expected_values() =~= constant_store_expected(ty, shape));
            assert(program.include_lines() =~~= constant_store_includes(ty, shape));
        },
        ConstantStoreShape::OtherPlace => {
            program.input(ty, "seed", 5);
            program.input(Ty::I32, "at", 3);
            program.input(Ty::I32, "back", 3);
            program.input(Ty::I32, "other", 6);
            program.blank();
            let mut text1 = String::from_str(c);
            text1.append(" buffer[8];");
            program.line(text1.as_str());
            program.line("for (int i = 0; i < 8; i++) {");
            let mut text2 = String::from_str("buffer[i] = seed + (");
            text2.append(c);
            text2.append(")i;");
            program.line_at(1, text2.as_str());
            program.line("}");
            program.line("buffer[other] = buffer[at] + 5;");
            let mut text3 = String::from_str(c);
            text3.append(" total = buffer[back] + buffer[other];");
            program.line(text3.as_str());
            program.blank();
            program.check(ty.promoted(), "total", 21);
            assert(program.top_lines() =~~= constant_store_top(ty, shape));
            assert(program.body_lines() =~~= constant_store_body(ty, shape));
            assert(program.expected_values() =~= constant_store_expected(ty, shape));
            assert(program.include_lines() =~~= constant_store_includes(ty, shape));
        },
        _ => {},
    }
}

/// Writes some of the shapes.
#[verifier::rlimit(100)]
fn constant_store_write_3(program: &mut Program, ty: Ty, shape: ConstantStoreShape)
    requires
        old(program).top_lines() == Seq::<Seq<char>>::empty(),
        old(program).body_lines() == Seq::<Seq<char>>::empty(),
        old(program).expected_values() == Seq::<int>::empty(),
        old(program).include_lines() == Seq::<Seq<char>>::empty(),
        !old(program).sinks(),
        shape == ConstantStoreShape::OtherOffset || shape == ConstantStoreShape::IndexWrittenBetween || shape == ConstantStoreShape::FrameSlots,
    ensures
        final(program).top_lines() == constant_store_top(ty, shape),
        final(program).body_lines() == constant_store_body(ty, shape),
        final(program).expected_values() == constant_store_expected(ty, shape),
        final(program).include_lines() == constant_store_includes(ty, shape),
        final(program).sinks() == constant_store_sinks(shape),
        final(program).purpose_text() == old(program).purpose_text(),
{
    let c = ty.c_name();
    match shape {
        ConstantStoreShape::OtherOffset => {
            program.input(ty, "seed", 5);
            program.input(Ty::I32, "at", 3);
            program.input(Ty::I32, "back", 3);
            program.blank();
            let mut text1 = String::from_str(c);
            text1.append(" buffer[8];");
            program.line(text1.as_str());
            program.line("for (int i = 0; i < 8; i++) {");
            let mut text2 = String::from_str("buffer[i] = seed + (");
            text2.append(c);
            text2.append(")i;");
            program.line_at(1, text2.as_str());
            program.line("}");
            program.line("buffer[at + 1] = buffer[at] + 5;");
            let mut text3 = String::from_str(c);
            text3.append(" total = buffer[back] + buffer[back + 1];");
            program.line(text3.as_str());
            program.blank();
            program.check(ty.promoted(), "total", 21);
            assert(program.top_lines() =~~= constant_store_top(ty, shape));
            assert(program.body_lines() =~~= constant_store_body(ty, shape));
            assert(program.expected_values() =~= constant_store_expected(ty, shape));
            assert(program.include_lines() =~~= constant_store_includes(ty, shape));
        },
        ConstantStoreShape::IndexWrittenBetween => {
            program.input(ty, "seed", 5);
            program.input(Ty::I32, "at", 3);
            program.input(Ty::I32, "back", 3);
            program.input(Ty::I32, "other", 6);
            program.blank();
            let mut text1 = String::from_str(c);
            text1.append(" buffer[8];");
            program.line(text1.as_str());
            program.line("for (int i = 0; i < 8; i++) {");
            let mut text2 = String::from_str("buffer[i] = seed + (");
            text2.append(c);
            text2.append(")i;");
            program.line_at(1, text2.as_str());
            program.line("}");
            let mut text3 = String::from_str(c);
            text3.append(" value = buffer[at];");
            program.line(text3.as_str());
            program.line("at = other;");
            program.line("buffer[at] = value + 5;");
            let mut text4 = String::from_str(c);
            text4.append(" total = buffer[back] + buffer[other];");
            program.line(text4.as_str());
            program.blank();
            program.check(ty.promoted(), "total", 21);
            assert(program.top_lines() =~~= constant_store_top(ty, shape));
            assert(program.body_lines() =~~= constant_store_body(ty, shape));
            assert(program.expected_values() =~= constant_store_expected(ty, shape));
            assert(program.include_lines() =~~= constant_store_includes(ty, shape));
        },
        ConstantStoreShape::FrameSlots => {
            program.input(ty, "seed", 5);
            let mut text1 = String::from_str("static ");
            text1.append(c);
            text1.append(" *volatile hold;");
            program.top(text1.as_str());
            program.blank();
            let mut text2 = String::from_str(c);
            text2.append(" one = seed;");
            program.line(text2.as_str());
            let mut text3 = String::from_str(c);
            text3.append(" two = seed + ");
            let literal4 = lit(ty, 1);
            text3.append(literal4.as_str());
            text3.append(";");
            program.line(text3.as_str());
            program.line("hold = &one;");
            program.line("hold = &two;");
            program.line("two = one + 5;");
            let mut text5 = String::from_str(c);
            text5.append(" total = one + two;");
            program.line(text5.as_str());
            program.blank();
            program.check(ty.promoted(), "total", 15);
            assert(program.top_lines() =~~= constant_store_top(ty, shape));
            assert(program.body_lines() =~~= constant_store_body(ty, shape));
            assert(program.expected_values() =~= constant_store_expected(ty, shape));
            assert(program.include_lines() =~~= constant_store_includes(ty, shape));
        },
        _ => {},
    }
}

/// Writes a shape.
fn constant_store_write(program: &mut Program, ty: Ty, shape: ConstantStoreShape)
    requires
        old(program).top_lines() == Seq::<Seq<char>>::empty(),
        old(program).body_lines() == Seq::<Seq<char>>::empty(),
        old(program).expected_values() == Seq::<int>::empty(),
        old(program).include_lines() == Seq::<Seq<char>>::empty(),
        !old(program).sinks(),
    ensures
        final(program).top_lines() == constant_store_top(ty, shape),
        final(program).body_lines() == constant_store_body(ty, shape),
        final(program).expected_values() == constant_store_expected(ty, shape),
        final(program).include_lines() == constant_store_includes(ty, shape),
        final(program).sinks() == constant_store_sinks(shape),
        final(program).purpose_text() == old(program).purpose_text(),
{
    match shape {
        ConstantStoreShape::Add | ConstantStoreShape::Subtract | ConstantStoreShape::SubtractReversed | ConstantStoreShape::BitwiseOr => {
            constant_store_write_0(program, ty, shape);
        },
        ConstantStoreShape::BitwiseAnd | ConstantStoreShape::ExclusiveOr | ConstantStoreShape::BigConstant | ConstantStoreShape::TwoReaders => {
            constant_store_write_1(program, ty, shape);
        },
        ConstantStoreShape::AnswerRead | ConstantStoreShape::StoreBetween | ConstantStoreShape::CallBetween | ConstantStoreShape::OtherPlace => {
            constant_store_write_2(program, ty, shape);
        },
        ConstantStoreShape::OtherOffset | ConstantStoreShape::IndexWrittenBetween | ConstantStoreShape::FrameSlots => {
            constant_store_write_3(program, ty, shape);
        },
    }
}

/// Whether a case is the constant store shape at a type, whole.
pub open spec fn is_constant_store_case(c: Case, ty: Ty, shape: ConstantStoreShape) -> bool {
    &&& c.axes_text() == seq![("type"@, ty.name_text()), ("shape"@, shape.name_text())]
    &&& c.tags_text() == Seq::<Seq<char>>::empty()
    &&& c.program.purpose_text() == "one "@ + ty.c_text()
        + " read and written against a constant, "@ + shape.name_text()
    &&& c.program.include_lines() == constant_store_includes(ty, shape)
    &&& c.program.top_lines() == constant_store_top(ty, shape)
    &&& c.program.body_lines() == constant_store_body(ty, shape)
    &&& c.program.expected_values() == constant_store_expected(ty, shape)
    &&& c.program.sinks() == constant_store_sinks(shape)
}

/// One constant store shape at one type.
fn constant_store_case(ty: Ty, shape: ConstantStoreShape) -> (r: Case)
    ensures
        is_constant_store_case(r, ty, shape),
{
    let mut purpose = String::from_str("one ");
    purpose.append(ty.c_name());
    purpose.append(" read and written against a constant, ");
    purpose.append(shape.name());
    let mut program = Program::new(purpose.as_str());
    constant_store_write(&mut program, ty, shape);
    let axes = vec![axis("type", ty.name()), axis("shape", shape.name())];
    let r = Case { axes, tags: tags_for(false), program };
    assert(r.axes_text() =~= seq![("type"@, ty.name_text()), ("shape"@, shape.name_text())]);
    r
}

/// The type and shape of the case at a position: every type and every shape, except the big
/// constant at the two byte types, which has no program because the constant does not fit a
/// byte.
pub open spec fn constant_store_point(k: int) -> (Ty, ConstantStoreShape) {
    if k < 28 {
        let s = k % 14;
        (all_types()[k / 14], constant_store_shapes_list()[if s < 6 {
            s
        } else {
            s + 1
        }])
    } else {
        (all_types()[(k - 28) / 15 + 2], constant_store_shapes_list()[(k - 28) % 15])
    }
}

/// One load, an operation against a constant and a store, on every type.
///
/// The read-modify-write with an immediate carries an addressing mode and an immediate at once
/// and no register of its own. Every type is here because the widths are the whole question: C
/// promotes a narrow operand to `int` and narrows the answer on the way back into memory. The
/// shapes are the five operations that have a memory destination, the subtraction both ways
/// round, a constant too big for the short form of the encoding, and the reasons the load, the
/// operation and the store are not one instruction.
pub fn store_fold_constant() -> (r: Vec<Case>)
    ensures
        r@.len() == 118,
        forall|k: int|
            0 <= k < 118 ==> is_constant_store_case(
                #[trigger] r@[k],
                constant_store_point(k).0,
                constant_store_point(k).1,
            ),
{
    let types = all();
    let shapes = constant_store_shapes_array();
    let mut out: Vec<Case> = Vec::new();
    let mut t: usize = 0;
    while t < 8
        invariant
            t <= 8,
            types@ == all_types(),
            shapes@ == constant_store_shapes_list(),
            out@.len() == if t < 2 {
                14 * t
            } else {
                28 + 15 * (t - 2)
            },
            forall|k: int|
                0 <= k < out@.len() ==> is_constant_store_case(
                    #[trigger] out@[k],
                    constant_store_point(k).0,
                    constant_store_point(k).1,
                ),
        decreases 8 - t,
    {
        let ty = types[t];
        let base = out.len();
        let mut s: usize = 0;
        while s < 15
            invariant
                t < 8,
                s <= 15,
                ty == all_types()[t as int],
                types@ == all_types(),
                shapes@ == constant_store_shapes_list(),
                base == if t < 2 {
                    14 * t
                } else {
                    28 + 15 * (t - 2)
                },
                out@.len() == base + if t < 2 && s > 6 {
                    s - 1
                } else {
                    s as int
                },
                forall|k: int|
                    0 <= k < out@.len() ==> is_constant_store_case(
                        #[trigger] out@[k],
                        constant_store_point(k).0,
                        constant_store_point(k).1,
                    ),
            decreases 15 - s,
        {
            let shape = shapes[s];
            if !(shape == ConstantStoreShape::BigConstant && ty.bits() == 8) {
                let ghost k = out@.len() as int;
                assert(constant_store_point(k) == (ty, shape)) by {
                    if t < 2 {
                        assert(k / 14 == t as int);
                        assert(k % 14 == if s < 6 { s as int } else { s - 1 });
                    } else {
                        assert((k - 28) / 15 + 2 == t as int);
                        assert((k - 28) % 15 == s as int);
                    }
                }
                out.push(constant_store_case(ty, shape));
            }
            s += 1;
        }
        t += 1;
    }
    out
}
/// A load, an operation against a register, and a store back to the same place.
#[derive(Clone, Copy, Debug, PartialEq, Eq, Structural)]
pub enum StoreShape {
    Add,
    Subtract,
    SubtractReversed,
    BitwiseOr,
    BitwiseAnd,
    ExclusiveOr,
    TwoReaders,
    AnswerRead,
    StoreBetween,
    CallBetween,
    OtherPlace,
    OtherOffset,
    IndexWrittenBetween,
    FrameSlots,
}

impl StoreShape {
    /// The axis value.
    pub open spec fn name_text(self) -> Seq<char> {
        match self {
            StoreShape::Add => "add"@,
            StoreShape::Subtract => "subtract"@,
            StoreShape::SubtractReversed => "subtract-reversed"@,
            StoreShape::BitwiseOr => "bitwise-or"@,
            StoreShape::BitwiseAnd => "bitwise-and"@,
            StoreShape::ExclusiveOr => "exclusive-or"@,
            StoreShape::TwoReaders => "two-readers"@,
            StoreShape::AnswerRead => "answer-read"@,
            StoreShape::StoreBetween => "store-between"@,
            StoreShape::CallBetween => "call-between"@,
            StoreShape::OtherPlace => "other-place"@,
            StoreShape::OtherOffset => "other-offset"@,
            StoreShape::IndexWrittenBetween => "index-written-between"@,
            StoreShape::FrameSlots => "frame-slots"@,
        }
    }

    /// The axis value.
    pub fn name(self) -> (r: &'static str)
        ensures
            r@ == self.name_text(),
    {
        match self {
            StoreShape::Add => "add",
            StoreShape::Subtract => "subtract",
            StoreShape::SubtractReversed => "subtract-reversed",
            StoreShape::BitwiseOr => "bitwise-or",
            StoreShape::BitwiseAnd => "bitwise-and",
            StoreShape::ExclusiveOr => "exclusive-or",
            StoreShape::TwoReaders => "two-readers",
            StoreShape::AnswerRead => "answer-read",
            StoreShape::StoreBetween => "store-between",
            StoreShape::CallBetween => "call-between",
            StoreShape::OtherPlace => "other-place",
            StoreShape::OtherOffset => "other-offset",
            StoreShape::IndexWrittenBetween => "index-written-between",
            StoreShape::FrameSlots => "frame-slots",
        }
    }
}

/// The shapes in the order the facet walks them.
pub open spec fn store_shapes_list() -> Seq<StoreShape> {
    seq![
        StoreShape::Add,
        StoreShape::Subtract,
        StoreShape::SubtractReversed,
        StoreShape::BitwiseOr,
        StoreShape::BitwiseAnd,
        StoreShape::ExclusiveOr,
        StoreShape::TwoReaders,
        StoreShape::AnswerRead,
        StoreShape::StoreBetween,
        StoreShape::CallBetween,
        StoreShape::OtherPlace,
        StoreShape::OtherOffset,
        StoreShape::IndexWrittenBetween,
        StoreShape::FrameSlots,
    ]
}

/// The shapes in the order the facet walks them.
fn store_shapes_array() -> (r: Vec<StoreShape>)
    ensures
        r@ == store_shapes_list(),
{
    let r = vec![
        StoreShape::Add,
        StoreShape::Subtract,
        StoreShape::SubtractReversed,
        StoreShape::BitwiseOr,
        StoreShape::BitwiseAnd,
        StoreShape::ExclusiveOr,
        StoreShape::TwoReaders,
        StoreShape::AnswerRead,
        StoreShape::StoreBetween,
        StoreShape::CallBetween,
        StoreShape::OtherPlace,
        StoreShape::OtherOffset,
        StoreShape::IndexWrittenBetween,
        StoreShape::FrameSlots,
    ];
    assert(r@ =~= store_shapes_list());
    r
}

/// The lines before `main` of each shape.
pub open spec fn store_top(ty: Ty, shape: StoreShape) -> Seq<Seq<char>> {
    match shape {
        StoreShape::Add => seq![
            input_global(ty, "seed"@, 5int),
            input_global(Ty::I32, "at"@, 3int),
            input_global(Ty::I32, "back"@, 3int),
        ],
        StoreShape::Subtract => seq![
            input_global(ty, "seed"@, 5int),
            input_global(Ty::I32, "at"@, 3int),
            input_global(Ty::I32, "back"@, 3int),
        ],
        StoreShape::SubtractReversed => seq![
            input_global(ty, "seed"@, 5int),
            input_global(Ty::I32, "at"@, 3int),
            input_global(Ty::I32, "back"@, 3int),
        ],
        StoreShape::BitwiseOr => seq![
            input_global(ty, "seed"@, 5int),
            input_global(Ty::I32, "at"@, 3int),
            input_global(Ty::I32, "back"@, 3int),
        ],
        StoreShape::BitwiseAnd => seq![
            input_global(ty, "seed"@, 5int),
            input_global(Ty::I32, "at"@, 3int),
            input_global(Ty::I32, "back"@, 3int),
            input_global(ty, "mask"@, 12int),
        ],
        StoreShape::ExclusiveOr => seq![
            input_global(ty, "seed"@, 5int),
            input_global(Ty::I32, "at"@, 3int),
            input_global(Ty::I32, "back"@, 3int),
        ],
        StoreShape::TwoReaders => seq![
            input_global(ty, "seed"@, 5int),
            input_global(Ty::I32, "at"@, 3int),
            input_global(Ty::I32, "back"@, 3int),
        ],
        StoreShape::AnswerRead => seq![
            input_global(ty, "seed"@, 5int),
            input_global(Ty::I32, "at"@, 3int),
            input_global(Ty::I32, "back"@, 3int),
        ],
        StoreShape::StoreBetween => seq![
            input_global(ty, "seed"@, 5int),
            input_global(Ty::I32, "at"@, 3int),
            input_global(Ty::I32, "back"@, 3int),
            input_global(Ty::I32, "other"@, 6int),
        ],
        StoreShape::CallBetween => seq![
            input_global(ty, "seed"@, 5int),
            input_global(Ty::I32, "at"@, 3int),
            input_global(Ty::I32, "back"@, 3int),
            "static volatile int noise_count;"@,
            "static void noise(void) {"@,
            "    noise_count = noise_count + 1;"@,
            "}"@,
            "static void (*volatile jump)(void) = noise;"@,
        ],
        StoreShape::OtherPlace => seq![
            input_global(ty, "seed"@, 5int),
            input_global(Ty::I32, "at"@, 3int),
            input_global(Ty::I32, "back"@, 3int),
            input_global(Ty::I32, "other"@, 6int),
        ],
        StoreShape::OtherOffset => seq![
            input_global(ty, "seed"@, 5int),
            input_global(Ty::I32, "at"@, 3int),
            input_global(Ty::I32, "back"@, 3int),
        ],
        StoreShape::IndexWrittenBetween => seq![
            input_global(ty, "seed"@, 5int),
            input_global(Ty::I32, "at"@, 3int),
            input_global(Ty::I32, "back"@, 3int),
            input_global(Ty::I32, "other"@, 6int),
        ],
        StoreShape::FrameSlots => seq![
            input_global(ty, "seed"@, 5int),
            "static "@ + ty.c_text() + " *volatile hold;"@,
        ],
    }
}

/// The statements of `main` of each shape.
pub open spec fn store_body(ty: Ty, shape: StoreShape) -> Seq<Seq<char>> {
    match shape {
        StoreShape::Add => seq![
            input_read(ty, "seed"@),
            input_read(Ty::I32, "at"@),
            input_read(Ty::I32, "back"@),
            Seq::<char>::empty(),
            indent(1) + ty.c_text() + " buffer[8];"@,
            indent(1) + "for (int i = 0; i < 8; i++) {"@,
            indent(2) + "buffer[i] = seed + ("@ + ty.c_text() + ")i;"@,
            indent(1) + "}"@,
            indent(1) + "buffer[at] += seed;"@,
            indent(1) + ty.c_text() + " total = buffer[back];"@,
            Seq::<char>::empty(),
            print_line(1, ty.promotion(), "total"@),
        ],
        StoreShape::Subtract => seq![
            input_read(ty, "seed"@),
            input_read(Ty::I32, "at"@),
            input_read(Ty::I32, "back"@),
            Seq::<char>::empty(),
            indent(1) + ty.c_text() + " buffer[8];"@,
            indent(1) + "for (int i = 0; i < 8; i++) {"@,
            indent(2) + "buffer[i] = seed + ("@ + ty.c_text() + ")i;"@,
            indent(1) + "}"@,
            indent(1) + "buffer[at] -= seed;"@,
            indent(1) + ty.c_text() + " total = buffer[back];"@,
            Seq::<char>::empty(),
            print_line(1, ty.promotion(), "total"@),
        ],
        StoreShape::SubtractReversed => seq![
            input_read(ty, "seed"@),
            input_read(Ty::I32, "at"@),
            input_read(Ty::I32, "back"@),
            Seq::<char>::empty(),
            indent(1) + ty.c_text() + " buffer[8];"@,
            indent(1) + "for (int i = 0; i < 8; i++) {"@,
            indent(2) + "buffer[i] = seed + ("@ + ty.c_text() + ")i;"@,
            indent(1) + "}"@,
            indent(1) + "buffer[at] = (seed + "@ + lit_text(ty, 20int) + ") - buffer[at];"@,
            indent(1) + ty.c_text() + " total = buffer[back];"@,
            Seq::<char>::empty(),
            print_line(1, ty.promotion(), "total"@),
        ],
        StoreShape::BitwiseOr => seq![
            input_read(ty, "seed"@),
            input_read(Ty::I32, "at"@),
            input_read(Ty::I32, "back"@),
            Seq::<char>::empty(),
            indent(1) + ty.c_text() + " buffer[8];"@,
            indent(1) + "for (int i = 0; i < 8; i++) {"@,
            indent(2) + "buffer[i] = seed + ("@ + ty.c_text() + ")i;"@,
            indent(1) + "}"@,
            indent(1) + "buffer[at] |= seed;"@,
            indent(1) + ty.c_text() + " total = buffer[back];"@,
            Seq::<char>::empty(),
            print_line(1, ty.promotion(), "total"@),
        ],
        StoreShape::BitwiseAnd => seq![
            input_read(ty, "seed"@),
            input_read(Ty::I32, "at"@),
            input_read(Ty::I32, "back"@),
            input_read(ty, "mask"@),
            Seq::<char>::empty(),
            indent(1) + ty.c_text() + " buffer[8];"@,
            indent(1) + "for (int i = 0; i < 8; i++) {"@,
            indent(2) + "buffer[i] = seed + ("@ + ty.c_text() + ")i;"@,
            indent(1) + "}"@,
            indent(1) + "buffer[at] &= mask;"@,
            indent(1) + ty.c_text() + " total = buffer[back];"@,
            Seq::<char>::empty(),
            print_line(1, ty.promotion(), "total"@),
        ],
        StoreShape::ExclusiveOr => seq![
            input_read(ty, "seed"@),
            input_read(Ty::I32, "at"@),
            input_read(Ty::I32, "back"@),
            Seq::<char>::empty(),
            indent(1) + ty.c_text() + " buffer[8];"@,
            indent(1) + "for (int i = 0; i < 8; i++) {"@,
            indent(2) + "buffer[i] = seed + ("@ + ty.c_text() + ")i;"@,
            indent(1) + "}"@,
            indent(1) + "buffer[at] ^= seed;"@,
            indent(1) + ty.c_text() + " total = buffer[back];"@,
            Seq::<char>::empty(),
            print_line(1, ty.promotion(), "total"@),
        ],
        StoreShape::TwoReaders => seq![
            input_read(ty, "seed"@),
            input_read(Ty::I32, "at"@),
            input_read(Ty::I32, "back"@),
            Seq::<char>::empty(),
            indent(1) + ty.c_text() + " buffer[8];"@,
            indent(1) + "for (int i = 0; i < 8; i++) {"@,
            indent(2) + "buffer[i] = seed + ("@ + ty.c_text() + ")i;"@,
            indent(1) + "}"@,
            indent(1) + ty.c_text() + " value = buffer[at];"@,
            indent(1) + "buffer[at] = value + seed;"@,
            indent(1) + ty.c_text() + " total = buffer[back] + value;"@,
            Seq::<char>::empty(),
            print_line(1, ty.promotion(), "total"@),
        ],
        StoreShape::AnswerRead => seq![
            input_read(ty, "seed"@),
            input_read(Ty::I32, "at"@),
            input_read(Ty::I32, "back"@),
            Seq::<char>::empty(),
            indent(1) + ty.c_text() + " buffer[8];"@,
            indent(1) + "for (int i = 0; i < 8; i++) {"@,
            indent(2) + "buffer[i] = seed + ("@ + ty.c_text() + ")i;"@,
            indent(1) + "}"@,
            indent(1) + ty.c_text() + " sum = buffer[at] + seed;"@,
            indent(1) + "buffer[at] = sum;"@,
            indent(1) + ty.c_text() + " total = buffer[back] + sum;"@,
            Seq::<char>::empty(),
            print_line(1, ty.promotion(), "total"@),
        ],
        StoreShape::StoreBetween => seq![
            input_read(ty, "seed"@),
            input_read(Ty::I32, "at"@),
            input_read(Ty::I32, "back"@),
            input_read(Ty::I32, "other"@),
            Seq::<char>::empty(),
            indent(1) + ty.c_text() + " buffer[8];"@,
            indent(1) + "for (int i = 0; i < 8; i++) {"@,
            indent(2) + "buffer[i] = seed + ("@ + ty.c_text() + ")i;"@,
            indent(1) + "}"@,
            indent(1) + ty.c_text() + " value = buffer[at];"@,
            indent(1) + "buffer[other] = seed;"@,
            indent(1) + "buffer[at] = value + seed;"@,
            indent(1) + ty.c_text() + " total = buffer[back] + buffer[other];"@,
            Seq::<char>::empty(),
            print_line(1, ty.promotion(), "total"@),
        ],
        StoreShape::CallBetween => seq![
            input_read(ty, "seed"@),
            input_read(Ty::I32, "at"@),
            input_read(Ty::I32, "back"@),
            Seq::<char>::empty(),
            indent(1) + ty.c_text() + " buffer[8];"@,
            indent(1) + "for (int i = 0; i < 8; i++) {"@,
            indent(2) + "buffer[i] = seed + ("@ + ty.c_text() + ")i;"@,
            indent(1) + "}"@,
            indent(1) + ty.c_text() + " value = buffer[at];"@,
            indent(1) + "jump();"@,
            indent(1) + "buffer[at] = value + seed;"@,
            indent(1) + ty.c_text() + " total = buffer[back];"@,
            Seq::<char>::empty(),
            print_line(1, ty.promotion(), "total"@),
        ],
        StoreShape::OtherPlace => seq![
            input_read(ty, "seed"@),
            input_read(Ty::I32, "at"@),
            input_read(Ty::I32, "back"@),
            input_read(Ty::I32, "other"@),
            Seq::<char>::empty(),
            indent(1) + ty.c_text() + " buffer[8];"@,
            indent(1) + "for (int i = 0; i < 8; i++) {"@,
            indent(2) + "buffer[i] = seed + ("@ + ty.c_text() + ")i;"@,
            indent(1) + "}"@,
            indent(1) + "buffer[other] = buffer[at] + seed;"@,
            indent(1) + ty.c_text() + " total = buffer[back] + buffer[other];"@,
            Seq::<char>::empty(),
            print_line(1, ty.promotion(), "total"@),
        ],
        StoreShape::OtherOffset => seq![
            input_read(ty, "seed"@),
            input_read(Ty::I32, "at"@),
            input_read(Ty::I32, "back"@),
            Seq::<char>::empty(),
            indent(1) + ty.c_text() + " buffer[8];"@,
            indent(1) + "for (int i = 0; i < 8; i++) {"@,
            indent(2) + "buffer[i] = seed + ("@ + ty.c_text() + ")i;"@,
            indent(1) + "}"@,
            indent(1) + "buffer[at + 1] = buffer[at] + seed;"@,
            indent(1) + ty.c_text() + " total = buffer[back] + buffer[back + 1];"@,
            Seq::<char>::empty(),
            print_line(1, ty.promotion(), "total"@),
        ],
        StoreShape::IndexWrittenBetween => seq![
            input_read(ty, "seed"@),
            input_read(Ty::I32, "at"@),
            input_read(Ty::I32, "back"@),
            input_read(Ty::I32, "other"@),
            Seq::<char>::empty(),
            indent(1) + ty.c_text() + " buffer[8];"@,
            indent(1) + "for (int i = 0; i < 8; i++) {"@,
            indent(2) + "buffer[i] = seed + ("@ + ty.c_text() + ")i;"@,
            indent(1) + "}"@,
            indent(1) + ty.c_text() + " value = buffer[at];"@,
            indent(1) + "at = other;"@,
            indent(1) + "buffer[at] = value + seed;"@,
            indent(1) + ty.c_text() + " total = buffer[back] + buffer[other];"@,
            Seq::<char>::empty(),
            print_line(1, ty.promotion(), "total"@),
        ],
        StoreShape::FrameSlots => seq![
            input_read(ty, "seed"@),
            Seq::<char>::empty(),
            indent(1) + ty.c_text() + " one = seed;"@,
            indent(1) + ty.c_text() + " two = seed + "@ + lit_text(ty, 1int) + ";"@,
            indent(1) + "hold = &one;"@,
            indent(1) + "hold = &two;"@,
            indent(1) + "two = one + seed;"@,
            indent(1) + ty.c_text() + " total = one + two;"@,
            Seq::<char>::empty(),
            print_line(1, ty.promotion(), "total"@),
        ],
    }
}

/// The headers of each shape.
pub open spec fn store_includes(ty: Ty, shape: StoreShape) -> Seq<Seq<char>> {
    match shape {
        StoreShape::Add => Seq::empty(),
        StoreShape::Subtract => Seq::empty(),
        StoreShape::SubtractReversed => Seq::empty(),
        StoreShape::BitwiseOr => Seq::empty(),
        StoreShape::BitwiseAnd => Seq::empty(),
        StoreShape::ExclusiveOr => Seq::empty(),
        StoreShape::TwoReaders => Seq::empty(),
        StoreShape::AnswerRead => Seq::empty(),
        StoreShape::StoreBetween => Seq::empty(),
        StoreShape::CallBetween => Seq::empty(),
        StoreShape::OtherPlace => Seq::empty(),
        StoreShape::OtherOffset => Seq::empty(),
        StoreShape::IndexWrittenBetween => Seq::empty(),
        StoreShape::FrameSlots => Seq::empty(),
    }
}

/// What the program prints of each shape.
pub open spec fn store_expected(ty: Ty, shape: StoreShape) -> Seq<int> {
    match shape {
        StoreShape::Add => seq![
            13int,
        ],
        StoreShape::Subtract => seq![
            3int,
        ],
        StoreShape::SubtractReversed => seq![
            17int,
        ],
        StoreShape::BitwiseOr => seq![
            13int,
        ],
        StoreShape::BitwiseAnd => seq![
            8int,
        ],
        StoreShape::ExclusiveOr => seq![
            13int,
        ],
        StoreShape::TwoReaders => seq![
            21int,
        ],
        StoreShape::AnswerRead => seq![
            26int,
        ],
        StoreShape::StoreBetween => seq![
            18int,
        ],
        StoreShape::CallBetween => seq![
            13int,
        ],
        StoreShape::OtherPlace => seq![
            21int,
        ],
        StoreShape::OtherOffset => seq![
            21int,
        ],
        StoreShape::IndexWrittenBetween => seq![
            21int,
        ],
        StoreShape::FrameSlots => seq![
            15int,
        ],
    }
}

/// Whether the shape asks for the volatile sink.
pub open spec fn store_sinks(shape: StoreShape) -> bool {
    match shape {
        StoreShape::Add => false,
        StoreShape::Subtract => false,
        StoreShape::SubtractReversed => false,
        StoreShape::BitwiseOr => false,
        StoreShape::BitwiseAnd => false,
        StoreShape::ExclusiveOr => false,
        StoreShape::TwoReaders => false,
        StoreShape::AnswerRead => false,
        StoreShape::StoreBetween => false,
        StoreShape::CallBetween => false,
        StoreShape::OtherPlace => false,
        StoreShape::OtherOffset => false,
        StoreShape::IndexWrittenBetween => false,
        StoreShape::FrameSlots => false,
    }
}

/// Writes some of the shapes.
#[verifier::rlimit(100)]
fn store_write_0(program: &mut Program, ty: Ty, shape: StoreShape)
    requires
        old(program).top_lines() == Seq::<Seq<char>>::empty(),
        old(program).body_lines() == Seq::<Seq<char>>::empty(),
        old(program).expected_values() == Seq::<int>::empty(),
        old(program).include_lines() == Seq::<Seq<char>>::empty(),
        !old(program).sinks(),
        shape == StoreShape::Add || shape == StoreShape::Subtract || shape == StoreShape::SubtractReversed || shape == StoreShape::BitwiseOr,
    ensures
        final(program).top_lines() == store_top(ty, shape),
        final(program).body_lines() == store_body(ty, shape),
        final(program).expected_values() == store_expected(ty, shape),
        final(program).include_lines() == store_includes(ty, shape),
        final(program).sinks() == store_sinks(shape),
        final(program).purpose_text() == old(program).purpose_text(),
{
    let c = ty.c_name();
    match shape {
        StoreShape::Add => {
            program.input(ty, "seed", 5);
            program.input(Ty::I32, "at", 3);
            program.input(Ty::I32, "back", 3);
            program.blank();
            let mut text1 = String::from_str(c);
            text1.append(" buffer[8];");
            program.line(text1.as_str());
            program.line("for (int i = 0; i < 8; i++) {");
            let mut text2 = String::from_str("buffer[i] = seed + (");
            text2.append(c);
            text2.append(")i;");
            program.line_at(1, text2.as_str());
            program.line("}");
            program.line("buffer[at] += seed;");
            let mut text3 = String::from_str(c);
            text3.append(" total = buffer[back];");
            program.line(text3.as_str());
            program.blank();
            program.check(ty.promoted(), "total", 13);
            assert(program.top_lines() =~~= store_top(ty, shape));
            assert(program.body_lines() =~~= store_body(ty, shape));
            assert(program.expected_values() =~= store_expected(ty, shape));
            assert(program.include_lines() =~~= store_includes(ty, shape));
        },
        StoreShape::Subtract => {
            program.input(ty, "seed", 5);
            program.input(Ty::I32, "at", 3);
            program.input(Ty::I32, "back", 3);
            program.blank();
            let mut text1 = String::from_str(c);
            text1.append(" buffer[8];");
            program.line(text1.as_str());
            program.line("for (int i = 0; i < 8; i++) {");
            let mut text2 = String::from_str("buffer[i] = seed + (");
            text2.append(c);
            text2.append(")i;");
            program.line_at(1, text2.as_str());
            program.line("}");
            program.line("buffer[at] -= seed;");
            let mut text3 = String::from_str(c);
            text3.append(" total = buffer[back];");
            program.line(text3.as_str());
            program.blank();
            program.check(ty.promoted(), "total", 3);
            assert(program.top_lines() =~~= store_top(ty, shape));
            assert(program.body_lines() =~~= store_body(ty, shape));
            assert(program.expected_values() =~= store_expected(ty, shape));
            assert(program.include_lines() =~~= store_includes(ty, shape));
        },
        StoreShape::SubtractReversed => {
            program.input(ty, "seed", 5);
            program.input(Ty::I32, "at", 3);
            program.input(Ty::I32, "back", 3);
            program.blank();
            let mut text1 = String::from_str(c);
            text1.append(" buffer[8];");
            program.line(text1.as_str());
            program.line("for (int i = 0; i < 8; i++) {");
            let mut text2 = String::from_str("buffer[i] = seed + (");
            text2.append(c);
            text2.append(")i;");
            program.line_at(1, text2.as_str());
            program.line("}");
            let mut text3 = String::from_str("buffer[at] = (seed + ");
            let literal4 = lit(ty, 20);
            text3.append(literal4.as_str());
            text3.append(") - buffer[at];");
            program.line(text3.as_str());
            let mut text5 = String::from_str(c);
            text5.append(" total = buffer[back];");
            program.line(text5.as_str());
            program.blank();
            program.check(ty.promoted(), "total", 17);
            assert(program.top_lines() =~~= store_top(ty, shape));
            assert(program.body_lines() =~~= store_body(ty, shape));
            assert(program.expected_values() =~= store_expected(ty, shape));
            assert(program.include_lines() =~~= store_includes(ty, shape));
        },
        StoreShape::BitwiseOr => {
            program.input(ty, "seed", 5);
            program.input(Ty::I32, "at", 3);
            program.input(Ty::I32, "back", 3);
            program.blank();
            let mut text1 = String::from_str(c);
            text1.append(" buffer[8];");
            program.line(text1.as_str());
            program.line("for (int i = 0; i < 8; i++) {");
            let mut text2 = String::from_str("buffer[i] = seed + (");
            text2.append(c);
            text2.append(")i;");
            program.line_at(1, text2.as_str());
            program.line("}");
            program.line("buffer[at] |= seed;");
            let mut text3 = String::from_str(c);
            text3.append(" total = buffer[back];");
            program.line(text3.as_str());
            program.blank();
            program.check(ty.promoted(), "total", 13);
            assert(program.top_lines() =~~= store_top(ty, shape));
            assert(program.body_lines() =~~= store_body(ty, shape));
            assert(program.expected_values() =~= store_expected(ty, shape));
            assert(program.include_lines() =~~= store_includes(ty, shape));
        },
        _ => {},
    }
}

/// Writes some of the shapes.
#[verifier::rlimit(100)]
fn store_write_1(program: &mut Program, ty: Ty, shape: StoreShape)
    requires
        old(program).top_lines() == Seq::<Seq<char>>::empty(),
        old(program).body_lines() == Seq::<Seq<char>>::empty(),
        old(program).expected_values() == Seq::<int>::empty(),
        old(program).include_lines() == Seq::<Seq<char>>::empty(),
        !old(program).sinks(),
        shape == StoreShape::BitwiseAnd || shape == StoreShape::ExclusiveOr || shape == StoreShape::TwoReaders || shape == StoreShape::AnswerRead,
    ensures
        final(program).top_lines() == store_top(ty, shape),
        final(program).body_lines() == store_body(ty, shape),
        final(program).expected_values() == store_expected(ty, shape),
        final(program).include_lines() == store_includes(ty, shape),
        final(program).sinks() == store_sinks(shape),
        final(program).purpose_text() == old(program).purpose_text(),
{
    let c = ty.c_name();
    match shape {
        StoreShape::BitwiseAnd => {
            program.input(ty, "seed", 5);
            program.input(Ty::I32, "at", 3);
            program.input(Ty::I32, "back", 3);
            program.input(ty, "mask", 12);
            program.blank();
            let mut text1 = String::from_str(c);
            text1.append(" buffer[8];");
            program.line(text1.as_str());
            program.line("for (int i = 0; i < 8; i++) {");
            let mut text2 = String::from_str("buffer[i] = seed + (");
            text2.append(c);
            text2.append(")i;");
            program.line_at(1, text2.as_str());
            program.line("}");
            program.line("buffer[at] &= mask;");
            let mut text3 = String::from_str(c);
            text3.append(" total = buffer[back];");
            program.line(text3.as_str());
            program.blank();
            program.check(ty.promoted(), "total", 8);
            assert(program.top_lines() =~~= store_top(ty, shape));
            assert(program.body_lines() =~~= store_body(ty, shape));
            assert(program.expected_values() =~= store_expected(ty, shape));
            assert(program.include_lines() =~~= store_includes(ty, shape));
        },
        StoreShape::ExclusiveOr => {
            program.input(ty, "seed", 5);
            program.input(Ty::I32, "at", 3);
            program.input(Ty::I32, "back", 3);
            program.blank();
            let mut text1 = String::from_str(c);
            text1.append(" buffer[8];");
            program.line(text1.as_str());
            program.line("for (int i = 0; i < 8; i++) {");
            let mut text2 = String::from_str("buffer[i] = seed + (");
            text2.append(c);
            text2.append(")i;");
            program.line_at(1, text2.as_str());
            program.line("}");
            program.line("buffer[at] ^= seed;");
            let mut text3 = String::from_str(c);
            text3.append(" total = buffer[back];");
            program.line(text3.as_str());
            program.blank();
            program.check(ty.promoted(), "total", 13);
            assert(program.top_lines() =~~= store_top(ty, shape));
            assert(program.body_lines() =~~= store_body(ty, shape));
            assert(program.expected_values() =~= store_expected(ty, shape));
            assert(program.include_lines() =~~= store_includes(ty, shape));
        },
        StoreShape::TwoReaders => {
            program.input(ty, "seed", 5);
            program.input(Ty::I32, "at", 3);
            program.input(Ty::I32, "back", 3);
            program.blank();
            let mut text1 = String::from_str(c);
            text1.append(" buffer[8];");
            program.line(text1.as_str());
            program.line("for (int i = 0; i < 8; i++) {");
            let mut text2 = String::from_str("buffer[i] = seed + (");
            text2.append(c);
            text2.append(")i;");
            program.line_at(1, text2.as_str());
            program.line("}");
            let mut text3 = String::from_str(c);
            text3.append(" value = buffer[at];");
            program.line(text3.as_str());
            program.line("buffer[at] = value + seed;");
            let mut text4 = String::from_str(c);
            text4.append(" total = buffer[back] + value;");
            program.line(text4.as_str());
            program.blank();
            program.check(ty.promoted(), "total", 21);
            assert(program.top_lines() =~~= store_top(ty, shape));
            assert(program.body_lines() =~~= store_body(ty, shape));
            assert(program.expected_values() =~= store_expected(ty, shape));
            assert(program.include_lines() =~~= store_includes(ty, shape));
        },
        StoreShape::AnswerRead => {
            program.input(ty, "seed", 5);
            program.input(Ty::I32, "at", 3);
            program.input(Ty::I32, "back", 3);
            program.blank();
            let mut text1 = String::from_str(c);
            text1.append(" buffer[8];");
            program.line(text1.as_str());
            program.line("for (int i = 0; i < 8; i++) {");
            let mut text2 = String::from_str("buffer[i] = seed + (");
            text2.append(c);
            text2.append(")i;");
            program.line_at(1, text2.as_str());
            program.line("}");
            let mut text3 = String::from_str(c);
            text3.append(" sum = buffer[at] + seed;");
            program.line(text3.as_str());
            program.line("buffer[at] = sum;");
            let mut text4 = String::from_str(c);
            text4.append(" total = buffer[back] + sum;");
            program.line(text4.as_str());
            program.blank();
            program.check(ty.promoted(), "total", 26);
            assert(program.top_lines() =~~= store_top(ty, shape));
            assert(program.body_lines() =~~= store_body(ty, shape));
            assert(program.expected_values() =~= store_expected(ty, shape));
            assert(program.include_lines() =~~= store_includes(ty, shape));
        },
        _ => {},
    }
}

/// Writes some of the shapes.
#[verifier::rlimit(100)]
fn store_write_2(program: &mut Program, ty: Ty, shape: StoreShape)
    requires
        old(program).top_lines() == Seq::<Seq<char>>::empty(),
        old(program).body_lines() == Seq::<Seq<char>>::empty(),
        old(program).expected_values() == Seq::<int>::empty(),
        old(program).include_lines() == Seq::<Seq<char>>::empty(),
        !old(program).sinks(),
        shape == StoreShape::StoreBetween || shape == StoreShape::CallBetween || shape == StoreShape::OtherPlace || shape == StoreShape::OtherOffset,
    ensures
        final(program).top_lines() == store_top(ty, shape),
        final(program).body_lines() == store_body(ty, shape),
        final(program).expected_values() == store_expected(ty, shape),
        final(program).include_lines() == store_includes(ty, shape),
        final(program).sinks() == store_sinks(shape),
        final(program).purpose_text() == old(program).purpose_text(),
{
    let c = ty.c_name();
    match shape {
        StoreShape::StoreBetween => {
            program.input(ty, "seed", 5);
            program.input(Ty::I32, "at", 3);
            program.input(Ty::I32, "back", 3);
            program.input(Ty::I32, "other", 6);
            program.blank();
            let mut text1 = String::from_str(c);
            text1.append(" buffer[8];");
            program.line(text1.as_str());
            program.line("for (int i = 0; i < 8; i++) {");
            let mut text2 = String::from_str("buffer[i] = seed + (");
            text2.append(c);
            text2.append(")i;");
            program.line_at(1, text2.as_str());
            program.line("}");
            let mut text3 = String::from_str(c);
            text3.append(" value = buffer[at];");
            program.line(text3.as_str());
            program.line("buffer[other] = seed;");
            program.line("buffer[at] = value + seed;");
            let mut text4 = String::from_str(c);
            text4.append(" total = buffer[back] + buffer[other];");
            program.line(text4.as_str());
            program.blank();
            program.check(ty.promoted(), "total", 18);
            assert(program.top_lines() =~~= store_top(ty, shape));
            assert(program.body_lines() =~~= store_body(ty, shape));
            assert(program.expected_values() =~= store_expected(ty, shape));
            assert(program.include_lines() =~~= store_includes(ty, shape));
        },
        StoreShape::CallBetween => {
            program.input(ty, "seed", 5);
            program.input(Ty::I32, "at", 3);
            program.input(Ty::I32, "back", 3);
            program.top("static volatile int noise_count;");
            program.top("static void noise(void) {");
            program.top("    noise_count = noise_count + 1;");
            program.top("}");
            program.top("static void (*volatile jump)(void) = noise;");
            program.blank();
            let mut text1 = String::from_str(c);
            text1.append(" buffer[8];");
            program.line(text1.as_str());
            program.line("for (int i = 0; i < 8; i++) {");
            let mut text2 = String::from_str("buffer[i] = seed + (");
            text2.append(c);
            text2.append(")i;");
            program.line_at(1, text2.as_str());
            program.line("}");
            let mut text3 = String::from_str(c);
            text3.append(" value = buffer[at];");
            program.line(text3.as_str());
            program.line("jump();");
            program.line("buffer[at] = value + seed;");
            let mut text4 = String::from_str(c);
            text4.append(" total = buffer[back];");
            program.line(text4.as_str());
            program.blank();
            program.check(ty.promoted(), "total", 13);
            assert(program.top_lines() =~~= store_top(ty, shape));
            assert(program.body_lines() =~~= store_body(ty, shape));
            assert(program.expected_values() =~= store_expected(ty, shape));
            assert(program.include_lines() =~~= store_includes(ty, shape));
        },
        StoreShape::OtherPlace => {
            program.input(ty, "seed", 5);
            program.input(Ty::I32, "at", 3);
            program.input(Ty::I32, "back", 3);
            program.input(Ty::I32, "other", 6);
            program.blank();
            let mut text1 = String::from_str(c);
            text1.append(" buffer[8];");
            program.line(text1.as_str());
            program.line("for (int i = 0; i < 8; i++) {");
            let mut text2 = String::from_str("buffer[i] = seed + (");
            text2.append(c);
            text2.append(")i;");
            program.line_at(1, text2.as_str());
            program.line("}");
            program.line("buffer[other] = buffer[at] + seed;");
            let mut text3 = String::from_str(c);
            text3.append(" total = buffer[back] + buffer[other];");
            program.line(text3.as_str());
            program.blank();
            program.check(ty.promoted(), "total", 21);
            assert(program.top_lines() =~~= store_top(ty, shape));
            assert(program.body_lines() =~~= store_body(ty, shape));
            assert(program.expected_values() =~= store_expected(ty, shape));
            assert(program.include_lines() =~~= store_includes(ty, shape));
        },
        StoreShape::OtherOffset => {
            program.input(ty, "seed", 5);
            program.input(Ty::I32, "at", 3);
            program.input(Ty::I32, "back", 3);
            program.blank();
            let mut text1 = String::from_str(c);
            text1.append(" buffer[8];");
            program.line(text1.as_str());
            program.line("for (int i = 0; i < 8; i++) {");
            let mut text2 = String::from_str("buffer[i] = seed + (");
            text2.append(c);
            text2.append(")i;");
            program.line_at(1, text2.as_str());
            program.line("}");
            program.line("buffer[at + 1] = buffer[at] + seed;");
            let mut text3 = String::from_str(c);
            text3.append(" total = buffer[back] + buffer[back + 1];");
            program.line(text3.as_str());
            program.blank();
            program.check(ty.promoted(), "total", 21);
            assert(program.top_lines() =~~= store_top(ty, shape));
            assert(program.body_lines() =~~= store_body(ty, shape));
            assert(program.expected_values() =~= store_expected(ty, shape));
            assert(program.include_lines() =~~= store_includes(ty, shape));
        },
        _ => {},
    }
}

/// Writes some of the shapes.
#[verifier::rlimit(100)]
fn store_write_3(program: &mut Program, ty: Ty, shape: StoreShape)
    requires
        old(program).top_lines() == Seq::<Seq<char>>::empty(),
        old(program).body_lines() == Seq::<Seq<char>>::empty(),
        old(program).expected_values() == Seq::<int>::empty(),
        old(program).include_lines() == Seq::<Seq<char>>::empty(),
        !old(program).sinks(),
        shape == StoreShape::IndexWrittenBetween || shape == StoreShape::FrameSlots,
    ensures
        final(program).top_lines() == store_top(ty, shape),
        final(program).body_lines() == store_body(ty, shape),
        final(program).expected_values() == store_expected(ty, shape),
        final(program).include_lines() == store_includes(ty, shape),
        final(program).sinks() == store_sinks(shape),
        final(program).purpose_text() == old(program).purpose_text(),
{
    let c = ty.c_name();
    match shape {
        StoreShape::IndexWrittenBetween => {
            program.input(ty, "seed", 5);
            program.input(Ty::I32, "at", 3);
            program.input(Ty::I32, "back", 3);
            program.input(Ty::I32, "other", 6);
            program.blank();
            let mut text1 = String::from_str(c);
            text1.append(" buffer[8];");
            program.line(text1.as_str());
            program.line("for (int i = 0; i < 8; i++) {");
            let mut text2 = String::from_str("buffer[i] = seed + (");
            text2.append(c);
            text2.append(")i;");
            program.line_at(1, text2.as_str());
            program.line("}");
            let mut text3 = String::from_str(c);
            text3.append(" value = buffer[at];");
            program.line(text3.as_str());
            program.line("at = other;");
            program.line("buffer[at] = value + seed;");
            let mut text4 = String::from_str(c);
            text4.append(" total = buffer[back] + buffer[other];");
            program.line(text4.as_str());
            program.blank();
            program.check(ty.promoted(), "total", 21);
            assert(program.top_lines() =~~= store_top(ty, shape));
            assert(program.body_lines() =~~= store_body(ty, shape));
            assert(program.expected_values() =~= store_expected(ty, shape));
            assert(program.include_lines() =~~= store_includes(ty, shape));
        },
        StoreShape::FrameSlots => {
            program.input(ty, "seed", 5);
            let mut text1 = String::from_str("static ");
            text1.append(c);
            text1.append(" *volatile hold;");
            program.top(text1.as_str());
            program.blank();
            let mut text2 = String::from_str(c);
            text2.append(" one = seed;");
            program.line(text2.as_str());
            let mut text3 = String::from_str(c);
            text3.append(" two = seed + ");
            let literal4 = lit(ty, 1);
            text3.append(literal4.as_str());
            text3.append(";");
            program.line(text3.as_str());
            program.line("hold = &one;");
            program.line("hold = &two;");
            program.line("two = one + seed;");
            let mut text5 = String::from_str(c);
            text5.append(" total = one + two;");
            program.line(text5.as_str());
            program.blank();
            program.check(ty.promoted(), "total", 15);
            assert(program.top_lines() =~~= store_top(ty, shape));
            assert(program.body_lines() =~~= store_body(ty, shape));
            assert(program.expected_values() =~= store_expected(ty, shape));
            assert(program.include_lines() =~~= store_includes(ty, shape));
        },
        _ => {},
    }
}

/// Writes a shape.
fn store_write(program: &mut Program, ty: Ty, shape: StoreShape)
    requires
        old(program).top_lines() == Seq::<Seq<char>>::empty(),
        old(program).body_lines() == Seq::<Seq<char>>::empty(),
        old(program).expected_values() == Seq::<int>::empty(),
        old(program).include_lines() == Seq::<Seq<char>>::empty(),
        !old(program).sinks(),
    ensures
        final(program).top_lines() == store_top(ty, shape),
        final(program).body_lines() == store_body(ty, shape),
        final(program).expected_values() == store_expected(ty, shape),
        final(program).include_lines() == store_includes(ty, shape),
        final(program).sinks() == store_sinks(shape),
        final(program).purpose_text() == old(program).purpose_text(),
{
    match shape {
        StoreShape::Add | StoreShape::Subtract | StoreShape::SubtractReversed | StoreShape::BitwiseOr => {
            store_write_0(program, ty, shape);
        },
        StoreShape::BitwiseAnd | StoreShape::ExclusiveOr | StoreShape::TwoReaders | StoreShape::AnswerRead => {
            store_write_1(program, ty, shape);
        },
        StoreShape::StoreBetween | StoreShape::CallBetween | StoreShape::OtherPlace | StoreShape::OtherOffset => {
            store_write_2(program, ty, shape);
        },
        StoreShape::IndexWrittenBetween | StoreShape::FrameSlots => {
            store_write_3(program, ty, shape);
        },
    }
}

/// Whether a case is the store shape at a type, whole.
pub open spec fn is_store_case(c: Case, ty: Ty, shape: StoreShape) -> bool {
    &&& c.axes_text() == seq![("type"@, ty.name_text()), ("shape"@, shape.name_text())]
    &&& c.tags_text() == Seq::<Seq<char>>::empty()
    &&& c.program.purpose_text() == "one "@ + ty.c_text() + " read and write, "@ + shape.name_text()
    &&& c.program.include_lines() == store_includes(ty, shape)
    &&& c.program.top_lines() == store_top(ty, shape)
    &&& c.program.body_lines() == store_body(ty, shape)
    &&& c.program.expected_values() == store_expected(ty, shape)
    &&& c.program.sinks() == store_sinks(shape)
}

/// One store shape at one type.
fn store_case(ty: Ty, shape: StoreShape) -> (r: Case)
    ensures
        is_store_case(r, ty, shape),
{
    let mut purpose = String::from_str("one ");
    purpose.append(ty.c_name());
    purpose.append(" read and write, ");
    purpose.append(shape.name());
    let mut program = Program::new(purpose.as_str());
    store_write(&mut program, ty, shape);
    let axes = vec![axis("type", ty.name()), axis("shape", shape.name())];
    let r = Case { axes, tags: tags_for(false), program };
    assert(r.axes_text() =~= seq![("type"@, ty.name_text()), ("shape"@, shape.name_text())]);
    r
}

/// A load, arithmetic against a register, and a store of the answer to the same place.
///
/// On a machine with a memory destination the three are one instruction. The shapes are the
/// five operations that have one, the subtraction both ways round, and then the reasons they
/// are not one: the loaded word read again, the answer read again, a store or a call in
/// between, another place or another offset, the index written in between, and two locals
/// whose addresses got out so that both are in the frame.
pub fn store_fold() -> (r: Vec<Case>)
    ensures
        r@.len() == 56,
        forall|k: int|
            0 <= k < 56 ==> is_store_case(#[trigger] r@[k], wide_types()[k / 14], store_shapes_list()[k % 14]),
{
    let types = wide();
    let shapes = store_shapes_array();
    let mut out: Vec<Case> = Vec::new();
    let mut k: usize = 0;
    while k < 56
        invariant
            k <= 56,
            types@ == wide_types(),
            shapes@ == store_shapes_list(),
            out@.len() == k,
            forall|i: int|
                0 <= i < k ==> is_store_case(#[trigger] out@[i], wide_types()[i / 14], store_shapes_list()[i % 14]),
        decreases 56 - k,
    {
        out.push(store_case(types[k / 14], shapes[k % 14]));
        k += 1;
    }
    out
}

/// Two runs of frame bytes, and whether they may share.
#[derive(Clone, Copy, Debug, PartialEq, Eq, Structural)]
pub enum SlotShape {
    TwoScopes,
    BothAtOnce,
    AddressEscapes,
    WideAlignment,
    SpilledAroundACall,
    ScopeInALoop,
}

impl SlotShape {
    /// The axis value.
    pub open spec fn name_text(self) -> Seq<char> {
        match self {
            SlotShape::TwoScopes => "two-scopes"@,
            SlotShape::BothAtOnce => "both-at-once"@,
            SlotShape::AddressEscapes => "address-escapes"@,
            SlotShape::WideAlignment => "wide-alignment"@,
            SlotShape::SpilledAroundACall => "spilled-around-a-call"@,
            SlotShape::ScopeInALoop => "scope-in-a-loop"@,
        }
    }

    /// The axis value.
    pub fn name(self) -> (r: &'static str)
        ensures
            r@ == self.name_text(),
    {
        match self {
            SlotShape::TwoScopes => "two-scopes",
            SlotShape::BothAtOnce => "both-at-once",
            SlotShape::AddressEscapes => "address-escapes",
            SlotShape::WideAlignment => "wide-alignment",
            SlotShape::SpilledAroundACall => "spilled-around-a-call",
            SlotShape::ScopeInALoop => "scope-in-a-loop",
        }
    }
}

/// The shapes in the order the facet walks them.
pub open spec fn slot_shapes_list() -> Seq<SlotShape> {
    seq![
        SlotShape::TwoScopes,
        SlotShape::BothAtOnce,
        SlotShape::AddressEscapes,
        SlotShape::WideAlignment,
        SlotShape::SpilledAroundACall,
        SlotShape::ScopeInALoop,
    ]
}

/// The shapes in the order the facet walks them.
fn slot_shapes_array() -> (r: Vec<SlotShape>)
    ensures
        r@ == slot_shapes_list(),
{
    let r = vec![
        SlotShape::TwoScopes,
        SlotShape::BothAtOnce,
        SlotShape::AddressEscapes,
        SlotShape::WideAlignment,
        SlotShape::SpilledAroundACall,
        SlotShape::ScopeInALoop,
    ];
    assert(r@ =~= slot_shapes_list());
    r
}

/// What filling an eight element array with `seed + i` and adding it all up gives, from a seed.
pub open spec fn frame_counted(from: int) -> int {
    8 * from + 8 * 7 / 2
}

/// What filling an eight element array with `seed + i` and adding it all up gives, from a seed.
fn counted(from: i128) -> (r: i128)
    requires
        -1000 <= from <= 1000,
    ensures
        r == frame_counted(from as int),
{
    8 * from + 8 * 7 / 2
}

/// The lines before `main` of each shape.
pub open spec fn slot_top(shape: SlotShape) -> Seq<Seq<char>> {
    match shape {
        SlotShape::TwoScopes => seq![
            input_global(Ty::I64, "seed"@, 5int),
        ],
        SlotShape::BothAtOnce => seq![
            input_global(Ty::I64, "seed"@, 5int),
        ],
        SlotShape::AddressEscapes => seq![
            "static long long *escaped;"@,
            "static void stash(long long *p) {"@,
            "    escaped = p;"@,
            "}"@,
            input_global(Ty::I64, "seed"@, 5int),
        ],
        SlotShape::WideAlignment => seq![
            input_global(Ty::I64, "seed"@, 5int),
        ],
        SlotShape::SpilledAroundACall => seq![
            "static long long opaque(long long v) {"@,
            "    return v + 1;"@,
            "}"@,
            input_global(Ty::I64, "seed"@, 5int),
        ],
        SlotShape::ScopeInALoop => seq![
            input_global(Ty::I64, "seed"@, 5int),
        ],
    }
}

/// The statements of `main` of each shape.
pub open spec fn slot_body(shape: SlotShape) -> Seq<Seq<char>> {
    match shape {
        SlotShape::TwoScopes => seq![
            input_read(Ty::I64, "seed"@),
            Seq::<char>::empty(),
            indent(1) + "long long total = 0;"@,
            indent(1) + "{"@,
            indent(2) + "long long first[8];"@,
            indent(2) + "for (int i = 0; i < 8; i++) {"@,
            indent(3) + "first[i] = seed + i;"@,
            indent(2) + "}"@,
            indent(2) + "for (int i = 0; i < 8; i++) {"@,
            indent(3) + "total += first[i];"@,
            indent(2) + "}"@,
            indent(1) + "}"@,
            indent(1) + "{"@,
            indent(2) + "long long second[8];"@,
            indent(2) + "for (int i = 0; i < 8; i++) {"@,
            indent(3) + "second[i] = seed + 10 + i;"@,
            indent(2) + "}"@,
            indent(2) + "for (int i = 0; i < 8; i++) {"@,
            indent(3) + "total += second[i];"@,
            indent(2) + "}"@,
            indent(1) + "}"@,
            Seq::<char>::empty(),
            print_line(1, Ty::I64, "total"@),
        ],
        SlotShape::BothAtOnce => seq![
            input_read(Ty::I64, "seed"@),
            Seq::<char>::empty(),
            indent(1) + "long long total = 0;"@,
            indent(1) + "long long first[8];"@,
            indent(1) + "long long second[8];"@,
            indent(1) + "for (int i = 0; i < 8; i++) {"@,
            indent(2) + "first[i] = seed + i;"@,
            indent(2) + "second[i] = seed + 10 + i;"@,
            indent(1) + "}"@,
            indent(1) + "for (int i = 0; i < 8; i++) {"@,
            indent(2) + "total += first[i] * 2 + second[i];"@,
            indent(1) + "}"@,
            Seq::<char>::empty(),
            print_line(1, Ty::I64, "total"@),
        ],
        SlotShape::AddressEscapes => seq![
            input_read(Ty::I64, "seed"@),
            Seq::<char>::empty(),
            indent(1) + "long long total = 0;"@,
            indent(1) + "long long kept[8];"@,
            indent(1) + "for (int i = 0; i < 8; i++) {"@,
            indent(2) + "kept[i] = seed + i;"@,
            indent(1) + "}"@,
            indent(1) + "stash(kept);"@,
            indent(1) + "{"@,
            indent(2) + "long long other[8];"@,
            indent(2) + "for (int i = 0; i < 8; i++) {"@,
            indent(3) + "other[i] = seed + 10 + i;"@,
            indent(2) + "}"@,
            indent(2) + "for (int i = 0; i < 8; i++) {"@,
            indent(3) + "total += other[i];"@,
            indent(2) + "}"@,
            indent(1) + "}"@,
            indent(1) + "for (int i = 0; i < 8; i++) {"@,
            indent(2) + "total += escaped[i];"@,
            indent(1) + "}"@,
            Seq::<char>::empty(),
            print_line(1, Ty::I64, "total"@),
        ],
        SlotShape::WideAlignment => seq![
            input_read(Ty::I64, "seed"@),
            Seq::<char>::empty(),
            indent(1) + "long long total = 0;"@,
            indent(1) + "{"@,
            indent(2) + "long double wide[8];"@,
            indent(2) + "for (int i = 0; i < 8; i++) {"@,
            indent(3) + "wide[i] = (long double)(seed + i);"@,
            indent(2) + "}"@,
            indent(2) + "for (int i = 0; i < 8; i++) {"@,
            indent(3) + "total += (long long)wide[i];"@,
            indent(2) + "}"@,
            indent(1) + "}"@,
            indent(1) + "{"@,
            indent(2) + "long long narrow[8];"@,
            indent(2) + "for (int i = 0; i < 8; i++) {"@,
            indent(3) + "narrow[i] = seed + 10 + i;"@,
            indent(2) + "}"@,
            indent(2) + "for (int i = 0; i < 8; i++) {"@,
            indent(3) + "total += narrow[i];"@,
            indent(2) + "}"@,
            indent(1) + "}"@,
            Seq::<char>::empty(),
            print_line(1, Ty::I64, "total"@),
        ],
        SlotShape::SpilledAroundACall => seq![
            input_read(Ty::I64, "seed"@),
            Seq::<char>::empty(),
            indent(1) + "long long total = 0;"@,
            indent(1) + "{"@,
            indent(2) + "long long room[8];"@,
            indent(2) + "for (int i = 0; i < 8; i++) {"@,
            indent(3) + "room[i] = seed + i;"@,
            indent(2) + "}"@,
            indent(2) + "for (int i = 0; i < 8; i++) {"@,
            indent(3) + "total += room[i];"@,
            indent(2) + "}"@,
            indent(1) + "}"@,
            Seq::<char>::empty(),
            indent(1) + "long long v0 = seed + 0;"@,
            indent(1) + "long long v1 = seed + 1;"@,
            indent(1) + "long long v2 = seed + 2;"@,
            indent(1) + "long long v3 = seed + 3;"@,
            indent(1) + "long long v4 = seed + 4;"@,
            indent(1) + "long long v5 = seed + 5;"@,
            indent(1) + "long long v6 = seed + 6;"@,
            indent(1) + "long long v7 = seed + 7;"@,
            indent(1) + "long long v8 = seed + 8;"@,
            indent(1) + "long long v9 = seed + 9;"@,
            indent(1) + "long long v10 = seed + 10;"@,
            indent(1) + "long long v11 = seed + 11;"@,
            indent(1) + "long long kept = opaque(seed);"@,
            indent(1) + "total += v0 + v1 + v2 + v3 + v4 + v5 + v6 + v7 + v8 + v9 + v10 + v11 + kept;"@,
            Seq::<char>::empty(),
            print_line(1, Ty::I64, "total"@),
        ],
        SlotShape::ScopeInALoop => seq![
            input_read(Ty::I64, "seed"@),
            Seq::<char>::empty(),
            indent(1) + "long long total = 0;"@,
            indent(1) + "for (int k = 0; k < 4; k++) {"@,
            indent(2) + "long long room[8];"@,
            indent(2) + "for (int i = 0; i < 8; i++) {"@,
            indent(3) + "room[i] = seed + i + k;"@,
            indent(2) + "}"@,
            indent(2) + "for (int i = 0; i < 8; i++) {"@,
            indent(3) + "total += room[i];"@,
            indent(2) + "}"@,
            indent(1) + "}"@,
            indent(1) + "{"@,
            indent(2) + "long long after[8];"@,
            indent(2) + "for (int i = 0; i < 8; i++) {"@,
            indent(3) + "after[i] = seed + 10 + i;"@,
            indent(2) + "}"@,
            indent(2) + "for (int i = 0; i < 8; i++) {"@,
            indent(3) + "total += after[i];"@,
            indent(2) + "}"@,
            indent(1) + "}"@,
            Seq::<char>::empty(),
            print_line(1, Ty::I64, "total"@),
        ],
    }
}

/// The headers of each shape.
pub open spec fn slot_includes(shape: SlotShape) -> Seq<Seq<char>> {
    match shape {
        SlotShape::TwoScopes => Seq::empty(),
        SlotShape::BothAtOnce => Seq::empty(),
        SlotShape::AddressEscapes => Seq::empty(),
        SlotShape::WideAlignment => Seq::empty(),
        SlotShape::SpilledAroundACall => Seq::empty(),
        SlotShape::ScopeInALoop => Seq::empty(),
    }
}

/// What the program prints of each shape.
pub open spec fn slot_expected(shape: SlotShape) -> Seq<int> {
    match shape {
        SlotShape::TwoScopes => seq![
            frame_counted(5) + frame_counted(15),
        ],
        SlotShape::BothAtOnce => seq![
            2 * frame_counted(5) + frame_counted(15),
        ],
        SlotShape::AddressEscapes => seq![
            frame_counted(5) + frame_counted(15),
        ],
        SlotShape::WideAlignment => seq![
            frame_counted(5) + frame_counted(15),
        ],
        SlotShape::SpilledAroundACall => seq![
            frame_counted(5) + 12 * 5 + 12 * 11 / 2 + 5 + 1,
        ],
        SlotShape::ScopeInALoop => seq![
            4 * frame_counted(5) + 8 * (4 * 3 / 2) + frame_counted(15),
        ],
    }
}

/// Whether the shape asks for the volatile sink.
pub open spec fn slot_sinks(shape: SlotShape) -> bool {
    match shape {
        SlotShape::TwoScopes => false,
        SlotShape::BothAtOnce => false,
        SlotShape::AddressEscapes => false,
        SlotShape::WideAlignment => false,
        SlotShape::SpilledAroundACall => false,
        SlotShape::ScopeInALoop => false,
    }
}

/// Writes some of the shapes.
#[verifier::rlimit(100)]
fn slot_write_0(program: &mut Program, shape: SlotShape)
    requires
        old(program).top_lines() == Seq::<Seq<char>>::empty(),
        old(program).body_lines() == Seq::<Seq<char>>::empty(),
        old(program).expected_values() == Seq::<int>::empty(),
        old(program).include_lines() == Seq::<Seq<char>>::empty(),
        !old(program).sinks(),
        shape == SlotShape::TwoScopes || shape == SlotShape::BothAtOnce || shape == SlotShape::AddressEscapes,
    ensures
        final(program).top_lines() == slot_top(shape),
        final(program).body_lines() == slot_body(shape),
        final(program).expected_values() == slot_expected(shape),
        final(program).include_lines() == slot_includes(shape),
        final(program).sinks() == slot_sinks(shape),
        final(program).purpose_text() == old(program).purpose_text(),
{
    match shape {
        SlotShape::TwoScopes => {
            program.input(Ty::I64, "seed", 5);
            program.blank();
            program.line("long long total = 0;");
            program.line("{");
            program.line_at(1, "long long first[8];");
            program.line_at(1, "for (int i = 0; i < 8; i++) {");
            program.line_at(2, "first[i] = seed + i;");
            program.line_at(1, "}");
            program.line_at(1, "for (int i = 0; i < 8; i++) {");
            program.line_at(2, "total += first[i];");
            program.line_at(1, "}");
            program.line("}");
            program.line("{");
            program.line_at(1, "long long second[8];");
            program.line_at(1, "for (int i = 0; i < 8; i++) {");
            program.line_at(2, "second[i] = seed + 10 + i;");
            program.line_at(1, "}");
            program.line_at(1, "for (int i = 0; i < 8; i++) {");
            program.line_at(2, "total += second[i];");
            program.line_at(1, "}");
            program.line("}");
            program.blank();
            program.check(Ty::I64, "total", counted(5) + counted(15));
            assert(program.top_lines() =~~= slot_top(shape));
            assert(program.body_lines() =~~= slot_body(shape));
            assert(program.expected_values() =~= slot_expected(shape));
            assert(program.include_lines() =~~= slot_includes(shape));
        },
        SlotShape::BothAtOnce => {
            program.input(Ty::I64, "seed", 5);
            program.blank();
            program.line("long long total = 0;");
            program.line("long long first[8];");
            program.line("long long second[8];");
            program.line("for (int i = 0; i < 8; i++) {");
            program.line_at(1, "first[i] = seed + i;");
            program.line_at(1, "second[i] = seed + 10 + i;");
            program.line("}");
            program.line("for (int i = 0; i < 8; i++) {");
            program.line_at(1, "total += first[i] * 2 + second[i];");
            program.line("}");
            program.blank();
            program.check(Ty::I64, "total", 2 * counted(5) + counted(15));
            assert(program.top_lines() =~~= slot_top(shape));
            assert(program.body_lines() =~~= slot_body(shape));
            assert(program.expected_values() =~= slot_expected(shape));
            assert(program.include_lines() =~~= slot_includes(shape));
        },
        SlotShape::AddressEscapes => {
            program.top("static long long *escaped;");
            program.top("static void stash(long long *p) {");
            program.top("    escaped = p;");
            program.top("}");
            program.input(Ty::I64, "seed", 5);
            program.blank();
            program.line("long long total = 0;");
            program.line("long long kept[8];");
            program.line("for (int i = 0; i < 8; i++) {");
            program.line_at(1, "kept[i] = seed + i;");
            program.line("}");
            program.line("stash(kept);");
            program.line("{");
            program.line_at(1, "long long other[8];");
            program.line_at(1, "for (int i = 0; i < 8; i++) {");
            program.line_at(2, "other[i] = seed + 10 + i;");
            program.line_at(1, "}");
            program.line_at(1, "for (int i = 0; i < 8; i++) {");
            program.line_at(2, "total += other[i];");
            program.line_at(1, "}");
            program.line("}");
            program.line("for (int i = 0; i < 8; i++) {");
            program.line_at(1, "total += escaped[i];");
            program.line("}");
            program.blank();
            program.check(Ty::I64, "total", counted(5) + counted(15));
            assert(program.top_lines() =~~= slot_top(shape));
            assert(program.body_lines() =~~= slot_body(shape));
            assert(program.expected_values() =~= slot_expected(shape));
            assert(program.include_lines() =~~= slot_includes(shape));
        },
        _ => {},
    }
}

/// Writes some of the shapes.
#[verifier::rlimit(100)]
fn slot_write_1(program: &mut Program, shape: SlotShape)
    requires
        old(program).top_lines() == Seq::<Seq<char>>::empty(),
        old(program).body_lines() == Seq::<Seq<char>>::empty(),
        old(program).expected_values() == Seq::<int>::empty(),
        old(program).include_lines() == Seq::<Seq<char>>::empty(),
        !old(program).sinks(),
        shape == SlotShape::WideAlignment || shape == SlotShape::SpilledAroundACall || shape == SlotShape::ScopeInALoop,
    ensures
        final(program).top_lines() == slot_top(shape),
        final(program).body_lines() == slot_body(shape),
        final(program).expected_values() == slot_expected(shape),
        final(program).include_lines() == slot_includes(shape),
        final(program).sinks() == slot_sinks(shape),
        final(program).purpose_text() == old(program).purpose_text(),
{
    match shape {
        SlotShape::WideAlignment => {
            program.input(Ty::I64, "seed", 5);
            program.blank();
            program.line("long long total = 0;");
            program.line("{");
            program.line_at(1, "long double wide[8];");
            program.line_at(1, "for (int i = 0; i < 8; i++) {");
            program.line_at(2, "wide[i] = (long double)(seed + i);");
            program.line_at(1, "}");
            program.line_at(1, "for (int i = 0; i < 8; i++) {");
            program.line_at(2, "total += (long long)wide[i];");
            program.line_at(1, "}");
            program.line("}");
            program.line("{");
            program.line_at(1, "long long narrow[8];");
            program.line_at(1, "for (int i = 0; i < 8; i++) {");
            program.line_at(2, "narrow[i] = seed + 10 + i;");
            program.line_at(1, "}");
            program.line_at(1, "for (int i = 0; i < 8; i++) {");
            program.line_at(2, "total += narrow[i];");
            program.line_at(1, "}");
            program.line("}");
            program.blank();
            program.check(Ty::I64, "total", counted(5) + counted(15));
            assert(program.top_lines() =~~= slot_top(shape));
            assert(program.body_lines() =~~= slot_body(shape));
            assert(program.expected_values() =~= slot_expected(shape));
            assert(program.include_lines() =~~= slot_includes(shape));
        },
        SlotShape::SpilledAroundACall => {
            program.top("static long long opaque(long long v) {");
            program.top("    return v + 1;");
            program.top("}");
            program.input(Ty::I64, "seed", 5);
            program.blank();
            program.line("long long total = 0;");
            program.line("{");
            program.line_at(1, "long long room[8];");
            program.line_at(1, "for (int i = 0; i < 8; i++) {");
            program.line_at(2, "room[i] = seed + i;");
            program.line_at(1, "}");
            program.line_at(1, "for (int i = 0; i < 8; i++) {");
            program.line_at(2, "total += room[i];");
            program.line_at(1, "}");
            program.line("}");
            program.blank();
            program.line("long long v0 = seed + 0;");
            program.line("long long v1 = seed + 1;");
            program.line("long long v2 = seed + 2;");
            program.line("long long v3 = seed + 3;");
            program.line("long long v4 = seed + 4;");
            program.line("long long v5 = seed + 5;");
            program.line("long long v6 = seed + 6;");
            program.line("long long v7 = seed + 7;");
            program.line("long long v8 = seed + 8;");
            program.line("long long v9 = seed + 9;");
            program.line("long long v10 = seed + 10;");
            program.line("long long v11 = seed + 11;");
            program.line("long long kept = opaque(seed);");
            program.line("total += v0 + v1 + v2 + v3 + v4 + v5 + v6 + v7 + v8 + v9 + v10 + v11 + kept;");
            program.blank();
            program.check(Ty::I64, "total", counted(5) + 12 * 5 + 12 * 11 / 2 + 5 + 1);
            assert(program.top_lines() =~~= slot_top(shape));
            assert(program.body_lines() =~~= slot_body(shape));
            assert(program.expected_values() =~= slot_expected(shape));
            assert(program.include_lines() =~~= slot_includes(shape));
        },
        SlotShape::ScopeInALoop => {
            program.input(Ty::I64, "seed", 5);
            program.blank();
            program.line("long long total = 0;");
            program.line("for (int k = 0; k < 4; k++) {");
            program.line_at(1, "long long room[8];");
            program.line_at(1, "for (int i = 0; i < 8; i++) {");
            program.line_at(2, "room[i] = seed + i + k;");
            program.line_at(1, "}");
            program.line_at(1, "for (int i = 0; i < 8; i++) {");
            program.line_at(2, "total += room[i];");
            program.line_at(1, "}");
            program.line("}");
            program.line("{");
            program.line_at(1, "long long after[8];");
            program.line_at(1, "for (int i = 0; i < 8; i++) {");
            program.line_at(2, "after[i] = seed + 10 + i;");
            program.line_at(1, "}");
            program.line_at(1, "for (int i = 0; i < 8; i++) {");
            program.line_at(2, "total += after[i];");
            program.line_at(1, "}");
            program.line("}");
            program.blank();
            program.check(Ty::I64, "total", 4 * counted(5) + 8 * (4 * 3 / 2) + counted(15));
            assert(program.top_lines() =~~= slot_top(shape));
            assert(program.body_lines() =~~= slot_body(shape));
            assert(program.expected_values() =~= slot_expected(shape));
            assert(program.include_lines() =~~= slot_includes(shape));
        },
        _ => {},
    }
}

/// Writes a shape.
fn slot_write(program: &mut Program, shape: SlotShape)
    requires
        old(program).top_lines() == Seq::<Seq<char>>::empty(),
        old(program).body_lines() == Seq::<Seq<char>>::empty(),
        old(program).expected_values() == Seq::<int>::empty(),
        old(program).include_lines() == Seq::<Seq<char>>::empty(),
        !old(program).sinks(),
    ensures
        final(program).top_lines() == slot_top(shape),
        final(program).body_lines() == slot_body(shape),
        final(program).expected_values() == slot_expected(shape),
        final(program).include_lines() == slot_includes(shape),
        final(program).sinks() == slot_sinks(shape),
        final(program).purpose_text() == old(program).purpose_text(),
{
    match shape {
        SlotShape::TwoScopes | SlotShape::BothAtOnce | SlotShape::AddressEscapes => {
            slot_write_0(program, shape);
        },
        SlotShape::WideAlignment | SlotShape::SpilledAroundACall | SlotShape::ScopeInALoop => {
            slot_write_1(program, shape);
        },
    }
}

/// Whether a case is the frame bytes shape, whole.
pub open spec fn is_slot_case(c: Case, shape: SlotShape) -> bool {
    &&& c.axes_text() == seq![("shape"@, shape.name_text())]
    &&& c.tags_text() == Seq::<Seq<char>>::empty()
    &&& c.program.purpose_text() == "two runs of frame bytes, "@ + shape.name_text()
    &&& c.program.include_lines() == slot_includes(shape)
    &&& c.program.top_lines() == slot_top(shape)
    &&& c.program.body_lines() == slot_body(shape)
    &&& c.program.expected_values() == slot_expected(shape)
    &&& c.program.sinks() == slot_sinks(shape)
}

/// One frame bytes shape.
fn slot_case(shape: SlotShape) -> (r: Case)
    ensures
        is_slot_case(r, shape),
{
    let mut purpose = String::from_str("two runs of frame bytes, ");
    purpose.append(shape.name());
    let mut program = Program::new(purpose.as_str());
    slot_write(&mut program, shape);
    let axes = vec![axis("shape", shape.name())];
    let r = Case { axes, tags: tags_for(false), program };
    assert(r.axes_text() =~= seq![("shape"@, shape.name_text())]);
    r
}

/// Locals that could share frame bytes, and the ones that must not.
///
/// A back end that lays every local end to end takes a frame as large as all of them added
/// together. One that shares takes a frame as large as the most it needs at once, so these are
/// written in pairs: a shape where two things are never both wanted, and the same amount of C
/// where they are. The shape worth having is the one where the answer is no: the last mention
/// of a name is the call that hands its address out, and every read after that goes through the
/// global the call stored it in. Every array is in scope where it is read, so nothing here is
/// undefined.
pub fn stack_slots() -> (r: Vec<Case>)
    ensures
        r@.len() == 6,
        forall|k: int| 0 <= k < 6 ==> is_slot_case(#[trigger] r@[k], slot_shapes_list()[k]),
{
    let shapes = slot_shapes_array();
    let mut out: Vec<Case> = Vec::new();
    let mut k: usize = 0;
    while k < 6
        invariant
            k <= 6,
            shapes@ == slot_shapes_list(),
            out@.len() == k,
            forall|i: int| 0 <= i < k ==> is_slot_case(#[trigger] out@[i], slot_shapes_list()[i]),
        decreases 6 - k,
    {
        out.push(slot_case(shapes[k]));
        k += 1;
    }
    out
}

} // verus!
