//! Rewrites on machine instructions: pairs a peephole rule takes, comparisons whose condition
//! bits something before them already set, and widenings whose upper bits nothing reads.
//!
//! Each program feeds its operands in through `volatile` globals, so none of these folds away
//! before the back end sees it, and each prints a number a wrong rewrite changes.

use vstd::prelude::*;
use vstd::string::*;
use crate::emit::{Program, input_global, input_read, indent, print_line};
use crate::lang::{Ty, wide, wide_types};
use crate::facets::{Case, axis, tags_for, lit, lit_text};

verus! {

/// The narrow types, whose every operand C promotes to `int` before using it.
pub open spec fn narrow_types() -> Seq<Ty> {
    seq![Ty::I8, Ty::U8, Ty::I16, Ty::U16]
}

/// The narrow types, narrowest first.
pub fn narrow() -> (r: Vec<Ty>)
    ensures
        r@ == narrow_types(),
{
    let r = vec![Ty::I8, Ty::U8, Ty::I16, Ty::U16];
    assert(r@ =~= narrow_types());
    r
}

/// A comparison whose condition bits something before it may already have set.
#[derive(Clone, Copy, Debug, PartialEq, Eq, Structural)]
pub enum FlagShape {
    SameComparison,
    ByteAndBranch,
    AfterAnd,
    AfterOr,
    AfterSub,
    AfterSubOrdered,
    WrittenInBetween,
}

impl FlagShape {
    /// The axis value.
    pub open spec fn name_text(self) -> Seq<char> {
        match self {
            FlagShape::SameComparison => "same-comparison"@,
            FlagShape::ByteAndBranch => "byte-and-branch"@,
            FlagShape::AfterAnd => "after-and"@,
            FlagShape::AfterOr => "after-or"@,
            FlagShape::AfterSub => "after-sub"@,
            FlagShape::AfterSubOrdered => "after-sub-ordered"@,
            FlagShape::WrittenInBetween => "written-in-between"@,
        }
    }

    /// The axis value.
    pub fn name(self) -> (r: &'static str)
        ensures
            r@ == self.name_text(),
    {
        match self {
            FlagShape::SameComparison => "same-comparison",
            FlagShape::ByteAndBranch => "byte-and-branch",
            FlagShape::AfterAnd => "after-and",
            FlagShape::AfterOr => "after-or",
            FlagShape::AfterSub => "after-sub",
            FlagShape::AfterSubOrdered => "after-sub-ordered",
            FlagShape::WrittenInBetween => "written-in-between",
        }
    }

    /// What the purpose line says the value went through.
    pub open spec fn phrase_text(self) -> Seq<char> {
        match self {
            FlagShape::SameComparison => "compared with the same pair twice"@,
            FlagShape::ByteAndBranch => "compared once for a value and once for a branch"@,
            FlagShape::AfterAnd => "masked and then asked whether it is zero"@,
            FlagShape::AfterOr => "joined and then asked whether it is zero"@,
            FlagShape::AfterSub => "subtracted and then asked whether the answer is zero"@,
            FlagShape::AfterSubOrdered => "subtracted and then asked which side of zero it is on"@,
            FlagShape::WrittenInBetween => "masked, written over, and then asked whether it is zero"@,
        }
    }

    /// What the purpose line says the value went through.
    pub fn phrase(self) -> (r: &'static str)
        ensures
            r@ == self.phrase_text(),
    {
        match self {
            FlagShape::SameComparison => "compared with the same pair twice",
            FlagShape::ByteAndBranch => "compared once for a value and once for a branch",
            FlagShape::AfterAnd => "masked and then asked whether it is zero",
            FlagShape::AfterOr => "joined and then asked whether it is zero",
            FlagShape::AfterSub => "subtracted and then asked whether the answer is zero",
            FlagShape::AfterSubOrdered => "subtracted and then asked which side of zero it is on",
            FlagShape::WrittenInBetween => "masked, written over, and then asked whether it is zero",
        }
    }
}

/// The shapes in the order the facet walks them.
pub open spec fn flag_shapes_list() -> Seq<FlagShape> {
    seq![
        FlagShape::SameComparison,
        FlagShape::ByteAndBranch,
        FlagShape::AfterAnd,
        FlagShape::AfterOr,
        FlagShape::AfterSub,
        FlagShape::AfterSubOrdered,
        FlagShape::WrittenInBetween,
    ]
}

/// The shapes in the order the facet walks them.
fn flag_shapes_array() -> (r: Vec<FlagShape>)
    ensures
        r@ == flag_shapes_list(),
{
    let r = vec![
        FlagShape::SameComparison,
        FlagShape::ByteAndBranch,
        FlagShape::AfterAnd,
        FlagShape::AfterOr,
        FlagShape::AfterSub,
        FlagShape::AfterSubOrdered,
        FlagShape::WrittenInBetween,
    ];
    assert(r@ =~= flag_shapes_list());
    r
}

/// The lines before `main` of each shape.
pub open spec fn flag_top(ty: Ty, shape: FlagShape) -> Seq<Seq<char>> {
    match shape {
        FlagShape::SameComparison => seq![
            input_global(ty, "a"@, 40int),
            input_global(ty, "b"@, 15int),
        ],
        FlagShape::ByteAndBranch => seq![
            input_global(ty, "a"@, 40int),
            input_global(ty, "b"@, 15int),
        ],
        FlagShape::AfterAnd => seq![
            input_global(ty, "a"@, 40int),
            input_global(ty, "mask"@, 24int),
        ],
        FlagShape::AfterOr => seq![
            input_global(ty, "a"@, 40int),
            input_global(ty, "b"@, 3int),
        ],
        FlagShape::AfterSub => seq![
            input_global(ty, "a"@, 40int),
            input_global(ty, "b"@, 40int),
        ],
        FlagShape::AfterSubOrdered => seq![
            input_global(ty, "a"@, 15int),
            input_global(ty, "b"@, 40int),
        ],
        FlagShape::WrittenInBetween => seq![
            input_global(ty, "a"@, 40int),
            input_global(ty, "mask"@, 24int),
            input_global(ty, "spare"@, 0int),
        ],
    }
}

/// The statements of `main` of each shape.
pub open spec fn flag_body(ty: Ty, shape: FlagShape) -> Seq<Seq<char>> {
    match shape {
        FlagShape::SameComparison => seq![
            input_read(ty, "a"@),
            input_read(ty, "b"@),
            Seq::<char>::empty(),
            indent(1) + "int same = (a == b);"@,
            indent(1) + "int differ = (a != b);"@,
            indent(1) + "int total = same * 4 + differ;"@,
            Seq::<char>::empty(),
            print_line(1, Ty::I32, "total"@),
        ],
        FlagShape::ByteAndBranch => seq![
            input_read(ty, "a"@),
            input_read(ty, "b"@),
            Seq::<char>::empty(),
            indent(1) + "int total = (a == b);"@,
            indent(1) + "if (a != b) {"@,
            indent(2) + "total = total + 7;"@,
            indent(1) + "}"@,
            Seq::<char>::empty(),
            print_line(1, Ty::I32, "total"@),
        ],
        FlagShape::AfterAnd => seq![
            input_read(ty, "a"@),
            input_read(ty, "mask"@),
            Seq::<char>::empty(),
            indent(1) + ty.c_text() + " masked = ("@ + ty.c_text() + ")(a & mask);"@,
            indent(1) + "int total = 0;"@,
            indent(1) + "if (masked) {"@,
            indent(2) + "total = total + 3;"@,
            indent(1) + "}"@,
            indent(1) + "total = total + (int)masked * 2;"@,
            Seq::<char>::empty(),
            print_line(1, Ty::I32, "total"@),
        ],
        FlagShape::AfterOr => seq![
            input_read(ty, "a"@),
            input_read(ty, "b"@),
            Seq::<char>::empty(),
            indent(1) + ty.c_text() + " joined = ("@ + ty.c_text() + ")(a | b);"@,
            indent(1) + "int total = (joined != 0) ? 5 : 9;"@,
            indent(1) + "total = total + (int)(joined & 7);"@,
            Seq::<char>::empty(),
            print_line(1, Ty::I32, "total"@),
        ],
        FlagShape::AfterSub => seq![
            input_read(ty, "a"@),
            input_read(ty, "b"@),
            Seq::<char>::empty(),
            indent(1) + ty.c_text() + " d = ("@ + ty.c_text() + ")(a - b);"@,
            indent(1) + "int total = (d == 0) ? 6 : 9;"@,
            indent(1) + "total = total + (int)d;"@,
            Seq::<char>::empty(),
            print_line(1, Ty::I32, "total"@),
        ],
        FlagShape::AfterSubOrdered => seq![
            input_read(ty, "a"@),
            input_read(ty, "b"@),
            Seq::<char>::empty(),
            indent(1) + ty.c_text() + " d = ("@ + ty.c_text() + ")(a - b);"@,
            indent(1) + "int total = (d < 0) ? 4 : 8;"@,
            indent(1) + "total = total + (int)(d + 30);"@,
            Seq::<char>::empty(),
            print_line(1, Ty::I32, "total"@),
        ],
        FlagShape::WrittenInBetween => seq![
            input_read(ty, "a"@),
            input_read(ty, "mask"@),
            input_read(ty, "spare"@),
            Seq::<char>::empty(),
            indent(1) + ty.c_text() + " value = ("@ + ty.c_text() + ")(a & mask);"@,
            indent(1) + "int first = (value != 0);"@,
            indent(1) + "value = spare;"@,
            indent(1) + "int second = (value == 0);"@,
            indent(1) + "int total = first * 10 + second;"@,
            Seq::<char>::empty(),
            print_line(1, Ty::I32, "total"@),
        ],
    }
}

/// The headers of each shape.
pub open spec fn flag_includes(ty: Ty, shape: FlagShape) -> Seq<Seq<char>> {
    match shape {
        FlagShape::SameComparison => Seq::empty(),
        FlagShape::ByteAndBranch => Seq::empty(),
        FlagShape::AfterAnd => Seq::empty(),
        FlagShape::AfterOr => Seq::empty(),
        FlagShape::AfterSub => Seq::empty(),
        FlagShape::AfterSubOrdered => Seq::empty(),
        FlagShape::WrittenInBetween => Seq::empty(),
    }
}

/// What the program prints of each shape.
pub open spec fn flag_expected(ty: Ty, shape: FlagShape) -> Seq<int> {
    match shape {
        FlagShape::SameComparison => seq![
            1int,
        ],
        FlagShape::ByteAndBranch => seq![
            7int,
        ],
        FlagShape::AfterAnd => seq![
            19int,
        ],
        FlagShape::AfterOr => seq![
            8int,
        ],
        FlagShape::AfterSub => seq![
            6int,
        ],
        FlagShape::AfterSubOrdered => seq![
            9int,
        ],
        FlagShape::WrittenInBetween => seq![
            11int,
        ],
    }
}

/// Whether the shape asks for the volatile sink.
pub open spec fn flag_sinks(shape: FlagShape) -> bool {
    match shape {
        FlagShape::SameComparison => false,
        FlagShape::ByteAndBranch => false,
        FlagShape::AfterAnd => false,
        FlagShape::AfterOr => false,
        FlagShape::AfterSub => false,
        FlagShape::AfterSubOrdered => false,
        FlagShape::WrittenInBetween => false,
    }
}

/// Writes some of the shapes.
#[verifier::rlimit(100)]
fn flag_write_0(program: &mut Program, ty: Ty, shape: FlagShape)
    requires
        old(program).top_lines() == Seq::<Seq<char>>::empty(),
        old(program).body_lines() == Seq::<Seq<char>>::empty(),
        old(program).expected_values() == Seq::<int>::empty(),
        old(program).include_lines() == Seq::<Seq<char>>::empty(),
        !old(program).sinks(),
        shape == FlagShape::SameComparison || shape == FlagShape::ByteAndBranch || shape == FlagShape::AfterAnd || shape == FlagShape::AfterOr,
    ensures
        final(program).top_lines() == flag_top(ty, shape),
        final(program).body_lines() == flag_body(ty, shape),
        final(program).expected_values() == flag_expected(ty, shape),
        final(program).include_lines() == flag_includes(ty, shape),
        final(program).sinks() == flag_sinks(shape),
        final(program).purpose_text() == old(program).purpose_text(),
{
    let c = ty.c_name();
    match shape {
        FlagShape::SameComparison => {
            program.input(ty, "a", 40);
            program.input(ty, "b", 15);
            program.blank();
            program.line("int same = (a == b);");
            program.line("int differ = (a != b);");
            program.line("int total = same * 4 + differ;");
            program.blank();
            program.check(Ty::I32, "total", 1);
            assert(program.top_lines() =~~= flag_top(ty, shape));
            assert(program.body_lines() =~~= flag_body(ty, shape));
            assert(program.expected_values() =~= flag_expected(ty, shape));
            assert(program.include_lines() =~~= flag_includes(ty, shape));
        },
        FlagShape::ByteAndBranch => {
            program.input(ty, "a", 40);
            program.input(ty, "b", 15);
            program.blank();
            program.line("int total = (a == b);");
            program.line("if (a != b) {");
            program.line_at(1, "total = total + 7;");
            program.line("}");
            program.blank();
            program.check(Ty::I32, "total", 7);
            assert(program.top_lines() =~~= flag_top(ty, shape));
            assert(program.body_lines() =~~= flag_body(ty, shape));
            assert(program.expected_values() =~= flag_expected(ty, shape));
            assert(program.include_lines() =~~= flag_includes(ty, shape));
        },
        FlagShape::AfterAnd => {
            program.input(ty, "a", 40);
            program.input(ty, "mask", 24);
            program.blank();
            let mut text1 = String::from_str(c);
            text1.append(" masked = (");
            text1.append(c);
            text1.append(")(a & mask);");
            program.line(text1.as_str());
            program.line("int total = 0;");
            program.line("if (masked) {");
            program.line_at(1, "total = total + 3;");
            program.line("}");
            program.line("total = total + (int)masked * 2;");
            program.blank();
            program.check(Ty::I32, "total", 19);
            assert(program.top_lines() =~~= flag_top(ty, shape));
            assert(program.body_lines() =~~= flag_body(ty, shape));
            assert(program.expected_values() =~= flag_expected(ty, shape));
            assert(program.include_lines() =~~= flag_includes(ty, shape));
        },
        FlagShape::AfterOr => {
            program.input(ty, "a", 40);
            program.input(ty, "b", 3);
            program.blank();
            let mut text1 = String::from_str(c);
            text1.append(" joined = (");
            text1.append(c);
            text1.append(")(a | b);");
            program.line(text1.as_str());
            program.line("int total = (joined != 0) ? 5 : 9;");
            program.line("total = total + (int)(joined & 7);");
            program.blank();
            program.check(Ty::I32, "total", 8);
            assert(program.top_lines() =~~= flag_top(ty, shape));
            assert(program.body_lines() =~~= flag_body(ty, shape));
            assert(program.expected_values() =~= flag_expected(ty, shape));
            assert(program.include_lines() =~~= flag_includes(ty, shape));
        },
        _ => {},
    }
}

/// Writes some of the shapes.
#[verifier::rlimit(100)]
fn flag_write_1(program: &mut Program, ty: Ty, shape: FlagShape)
    requires
        old(program).top_lines() == Seq::<Seq<char>>::empty(),
        old(program).body_lines() == Seq::<Seq<char>>::empty(),
        old(program).expected_values() == Seq::<int>::empty(),
        old(program).include_lines() == Seq::<Seq<char>>::empty(),
        !old(program).sinks(),
        shape == FlagShape::AfterSub || shape == FlagShape::AfterSubOrdered || shape == FlagShape::WrittenInBetween,
    ensures
        final(program).top_lines() == flag_top(ty, shape),
        final(program).body_lines() == flag_body(ty, shape),
        final(program).expected_values() == flag_expected(ty, shape),
        final(program).include_lines() == flag_includes(ty, shape),
        final(program).sinks() == flag_sinks(shape),
        final(program).purpose_text() == old(program).purpose_text(),
{
    let c = ty.c_name();
    match shape {
        FlagShape::AfterSub => {
            program.input(ty, "a", 40);
            program.input(ty, "b", 40);
            program.blank();
            let mut text1 = String::from_str(c);
            text1.append(" d = (");
            text1.append(c);
            text1.append(")(a - b);");
            program.line(text1.as_str());
            program.line("int total = (d == 0) ? 6 : 9;");
            program.line("total = total + (int)d;");
            program.blank();
            program.check(Ty::I32, "total", 6);
            assert(program.top_lines() =~~= flag_top(ty, shape));
            assert(program.body_lines() =~~= flag_body(ty, shape));
            assert(program.expected_values() =~= flag_expected(ty, shape));
            assert(program.include_lines() =~~= flag_includes(ty, shape));
        },
        FlagShape::AfterSubOrdered => {
            program.input(ty, "a", 15);
            program.input(ty, "b", 40);
            program.blank();
            let mut text1 = String::from_str(c);
            text1.append(" d = (");
            text1.append(c);
            text1.append(")(a - b);");
            program.line(text1.as_str());
            program.line("int total = (d < 0) ? 4 : 8;");
            program.line("total = total + (int)(d + 30);");
            program.blank();
            program.check(Ty::I32, "total", 9);
            assert(program.top_lines() =~~= flag_top(ty, shape));
            assert(program.body_lines() =~~= flag_body(ty, shape));
            assert(program.expected_values() =~= flag_expected(ty, shape));
            assert(program.include_lines() =~~= flag_includes(ty, shape));
        },
        FlagShape::WrittenInBetween => {
            program.input(ty, "a", 40);
            program.input(ty, "mask", 24);
            program.input(ty, "spare", 0);
            program.blank();
            let mut text1 = String::from_str(c);
            text1.append(" value = (");
            text1.append(c);
            text1.append(")(a & mask);");
            program.line(text1.as_str());
            program.line("int first = (value != 0);");
            program.line("value = spare;");
            program.line("int second = (value == 0);");
            program.line("int total = first * 10 + second;");
            program.blank();
            program.check(Ty::I32, "total", 11);
            assert(program.top_lines() =~~= flag_top(ty, shape));
            assert(program.body_lines() =~~= flag_body(ty, shape));
            assert(program.expected_values() =~= flag_expected(ty, shape));
            assert(program.include_lines() =~~= flag_includes(ty, shape));
        },
        _ => {},
    }
}

/// Writes a shape.
fn flag_write(program: &mut Program, ty: Ty, shape: FlagShape)
    requires
        old(program).top_lines() == Seq::<Seq<char>>::empty(),
        old(program).body_lines() == Seq::<Seq<char>>::empty(),
        old(program).expected_values() == Seq::<int>::empty(),
        old(program).include_lines() == Seq::<Seq<char>>::empty(),
        !old(program).sinks(),
    ensures
        final(program).top_lines() == flag_top(ty, shape),
        final(program).body_lines() == flag_body(ty, shape),
        final(program).expected_values() == flag_expected(ty, shape),
        final(program).include_lines() == flag_includes(ty, shape),
        final(program).sinks() == flag_sinks(shape),
        final(program).purpose_text() == old(program).purpose_text(),
{
    match shape {
        FlagShape::SameComparison | FlagShape::ByteAndBranch | FlagShape::AfterAnd | FlagShape::AfterOr => {
            flag_write_0(program, ty, shape);
        },
        FlagShape::AfterSub | FlagShape::AfterSubOrdered | FlagShape::WrittenInBetween => {
            flag_write_1(program, ty, shape);
        },
    }
}

/// Whether a case is the flag shape at a type, whole.
pub open spec fn is_flag_case(c: Case, ty: Ty, shape: FlagShape) -> bool {
    &&& c.axes_text() == seq![("type"@, ty.name_text()), ("shape"@, shape.name_text())]
    &&& c.tags_text() == Seq::<Seq<char>>::empty()
    &&& c.program.purpose_text() == "a "@ + ty.c_text() + " "@ + shape.phrase_text()
    &&& c.program.include_lines() == flag_includes(ty, shape)
    &&& c.program.top_lines() == flag_top(ty, shape)
    &&& c.program.body_lines() == flag_body(ty, shape)
    &&& c.program.expected_values() == flag_expected(ty, shape)
    &&& c.program.sinks() == flag_sinks(shape)
}

/// One flag shape at one type.
fn flag_case(ty: Ty, shape: FlagShape) -> (r: Case)
    ensures
        is_flag_case(r, ty, shape),
{
    let mut purpose = String::new();
    purpose.append("a ");
    purpose.append(ty.c_name());
    purpose.append(" ");
    purpose.append(shape.phrase());
    let mut program = Program::new(purpose.as_str());
    flag_write(&mut program, ty, shape);
    let axes = vec![axis("type", ty.name()), axis("shape", shape.name())];
    let r = Case { axes, tags: tags_for(false), program };
    assert(r.axes_text() =~= seq![("type"@, ty.name_text()), ("shape"@, shape.name_text())]);
    assert(r.tags_text() =~= Seq::<Seq<char>>::empty());
    r
}

/// The number of flag cases before those of the type at position `t`: an unsigned type has no program for the ordered question after a subtraction, since an unsigned value is never below zero.
pub open spec fn flag_base(t: int) -> int {
    if t == 0 {
        0
    } else if t == 1 {
        7
    } else if t == 2 {
        13
    } else if t == 3 {
        20
    } else {
        26
    }
}

/// The type and shape of the flag case at position `k`.
pub open spec fn flag_point(k: int) -> (Ty, FlagShape) {
    if k < 7 {
        (wide_types()[0], flag_shapes_list()[(k)])
    } else if k < 13 {
        (wide_types()[1], flag_shapes_list()[if (k - 7) < 5 { (k - 7) } else { (k - 7) + 1 }])
    } else if k < 20 {
        (wide_types()[2], flag_shapes_list()[(k - 13)])
    } else {
        (wide_types()[3], flag_shapes_list()[if (k - 20) < 5 { (k - 20) } else { (k - 20) + 1 }])
    }
}

/// Whether the pair has no flag program.
pub open spec fn flag_skipped(ty: Ty, shape: FlagShape) -> bool {
    shape == FlagShape::AfterSubOrdered && !ty.is_signed()
}

/// A comparison the machine has already made, on every type at the width of a register.
///
/// A comparison sets a few bits and the instruction behind it reads them, so a comparison that
/// sets the bits already there can go. The same comparison twice and a comparison against zero
/// behind arithmetic that set the bits on its way past are the shapes that put them there; a
/// subtraction agrees with such a comparison about the zero bit alone, and a plain move between
/// the two touches no bits at all.
pub fn compare_elim() -> (r: Vec<Case>)
    ensures
        r@.len() == 26,
        forall|k: int|
            0 <= k < 26 ==> is_flag_case(
                #[trigger] r@[k],
                flag_point(k).0,
                flag_point(k).1,
            ),
{
    let types = wide();
    let shapes = flag_shapes_array();
    let mut out: Vec<Case> = Vec::new();
    let mut t: usize = 0;
    while t < 4
        invariant
            t <= 4,
            types@ == wide_types(),
            shapes@ == flag_shapes_list(),
            out@.len() == flag_base(t as int),
            forall|k: int|
                0 <= k < out@.len() ==> is_flag_case(
                    #[trigger] out@[k],
                    flag_point(k).0,
                    flag_point(k).1,
                ),
        decreases 4 - t,
    {
        let ty = types[t];
        let base = out.len();
        let ghost skips = flag_skipped(ty, FlagShape::AfterSubOrdered);
        assert(flag_base(t + 1) == base + if skips { 6int } else { 7int });
        let mut s: usize = 0;
        while s < 7
            invariant
                t < 4,
                s <= 7,
                ty == wide_types()[t as int],
                skips == flag_skipped(ty, FlagShape::AfterSubOrdered),
                types@ == wide_types(),
                shapes@ == flag_shapes_list(),
                base == flag_base(t as int),
                flag_base(t + 1) == base + if skips { 6int } else { 7int },
                out@.len() == base + if skips && s > 5 {
                    s - 1
                } else {
                    s as int
                },
                forall|k: int|
                    0 <= k < out@.len() ==> is_flag_case(
                        #[trigger] out@[k],
                        flag_point(k).0,
                        flag_point(k).1,
                    ),
            decreases 7 - s,
        {
            let shape = shapes[s];
            if !(shape == FlagShape::AfterSubOrdered && !ty.signed()) {
                let ghost k = out@.len() as int;
                let ghost j: int = if skips && s > 5 { s - 1 } else { s as int };
                assert(flag_point(k) == (ty, shape)) by {
                    if t == 0 {
                        assert(k - 0 == j);
                    } else if t == 1 {
                        assert(k - 7 == j);
                    } else if t == 2 {
                        assert(k - 13 == j);
                    } else if t == 3 {
                        assert(k - 20 == j);
                    }
                }
                out.push(flag_case(ty, shape));
            }
            s += 1;
        }
        t += 1;
    }
    out
}

/// A pair of machine instructions a peephole rule rewrites into one or none.
#[derive(Clone, Copy, Debug, PartialEq, Eq, Structural)]
pub enum PeepholeShape {
    CompareAfterSubtract,
    TestAgainstZero,
    RedundantMove,
    LoadThenMask,
    DoubleNegate,
    ShiftPair,
}

impl PeepholeShape {
    /// The axis value.
    pub open spec fn name_text(self) -> Seq<char> {
        match self {
            PeepholeShape::CompareAfterSubtract => "compare-after-subtract"@,
            PeepholeShape::TestAgainstZero => "test-against-zero"@,
            PeepholeShape::RedundantMove => "redundant-move"@,
            PeepholeShape::LoadThenMask => "load-then-mask"@,
            PeepholeShape::DoubleNegate => "double-negate"@,
            PeepholeShape::ShiftPair => "shift-pair"@,
        }
    }

    /// The axis value.
    pub fn name(self) -> (r: &'static str)
        ensures
            r@ == self.name_text(),
    {
        match self {
            PeepholeShape::CompareAfterSubtract => "compare-after-subtract",
            PeepholeShape::TestAgainstZero => "test-against-zero",
            PeepholeShape::RedundantMove => "redundant-move",
            PeepholeShape::LoadThenMask => "load-then-mask",
            PeepholeShape::DoubleNegate => "double-negate",
            PeepholeShape::ShiftPair => "shift-pair",
        }
    }
}

/// The shapes in the order the facet walks them.
pub open spec fn peephole_shapes_list() -> Seq<PeepholeShape> {
    seq![
        PeepholeShape::CompareAfterSubtract,
        PeepholeShape::TestAgainstZero,
        PeepholeShape::RedundantMove,
        PeepholeShape::LoadThenMask,
        PeepholeShape::DoubleNegate,
        PeepholeShape::ShiftPair,
    ]
}

/// The shapes in the order the facet walks them.
fn peephole_shapes_array() -> (r: Vec<PeepholeShape>)
    ensures
        r@ == peephole_shapes_list(),
{
    let r = vec![
        PeepholeShape::CompareAfterSubtract,
        PeepholeShape::TestAgainstZero,
        PeepholeShape::RedundantMove,
        PeepholeShape::LoadThenMask,
        PeepholeShape::DoubleNegate,
        PeepholeShape::ShiftPair,
    ];
    assert(r@ =~= peephole_shapes_list());
    r
}

/// The lines before `main` of each shape.
pub open spec fn peephole_top(ty: Ty, shape: PeepholeShape) -> Seq<Seq<char>> {
    match shape {
        PeepholeShape::CompareAfterSubtract => seq![
            input_global(ty, "a"@, 40int),
            input_global(ty, "b"@, 15int),
        ],
        PeepholeShape::TestAgainstZero => seq![
            input_global(ty, "a"@, 40int),
            input_global(ty, "b"@, 15int),
        ],
        PeepholeShape::RedundantMove => seq![
            input_global(ty, "a"@, 40int),
            input_global(ty, "b"@, 15int),
        ],
        PeepholeShape::LoadThenMask => seq![
            input_global(ty, "a"@, 40int),
            input_global(ty, "b"@, 15int),
        ],
        PeepholeShape::DoubleNegate => seq![
            input_global(ty, "a"@, 40int),
            input_global(ty, "b"@, 15int),
        ],
        PeepholeShape::ShiftPair => seq![
            input_global(ty, "a"@, 40int),
            input_global(ty, "b"@, 15int),
        ],
    }
}

/// The statements of `main` of each shape.
pub open spec fn peephole_body(ty: Ty, shape: PeepholeShape) -> Seq<Seq<char>> {
    match shape {
        PeepholeShape::CompareAfterSubtract => seq![
            input_read(ty, "a"@),
            input_read(ty, "b"@),
            Seq::<char>::empty(),
            indent(1) + ty.c_text() + " difference = a - b;"@,
            indent(1) + "int positive = difference > "@ + lit_text(ty, 0int) + ";"@,
            indent(1) + ty.c_text() + " total = difference + ("@ + ty.c_text() + ")positive;"@,
            Seq::<char>::empty(),
            print_line(1, ty.promotion(), "total"@),
        ],
        PeepholeShape::TestAgainstZero => seq![
            input_read(ty, "a"@),
            input_read(ty, "b"@),
            Seq::<char>::empty(),
            indent(1) + ty.c_text() + " masked = a & "@ + lit_text(ty, 7int) + ";"@,
            indent(1) + "int zero = masked == "@ + lit_text(ty, 0int) + ";"@,
            indent(1) + ty.c_text() + " total = masked + ("@ + ty.c_text() + ")zero;"@,
            Seq::<char>::empty(),
            print_line(1, ty.promotion(), "total"@),
        ],
        PeepholeShape::RedundantMove => seq![
            input_read(ty, "a"@),
            input_read(ty, "b"@),
            Seq::<char>::empty(),
            indent(1) + ty.c_text() + " copy = a;"@,
            indent(1) + ty.c_text() + " again = copy;"@,
            indent(1) + ty.c_text() + " total = again - b;"@,
            Seq::<char>::empty(),
            print_line(1, ty.promotion(), "total"@),
        ],
        PeepholeShape::LoadThenMask => seq![
            input_read(ty, "a"@),
            input_read(ty, "b"@),
            Seq::<char>::empty(),
            indent(1) + ty.c_text() + " table[2] = { a, b };"@,
            indent(1) + ty.c_text() + " total = table[0] & "@ + lit_text(ty, 255int) + ";"@,
            Seq::<char>::empty(),
            print_line(1, ty.promotion(), "total"@),
        ],
        PeepholeShape::DoubleNegate => seq![
            input_read(ty, "a"@),
            input_read(ty, "b"@),
            Seq::<char>::empty(),
            indent(1) + ty.c_text() + " total = -(-(a - b));"@,
            Seq::<char>::empty(),
            print_line(1, ty.promotion(), "total"@),
        ],
        PeepholeShape::ShiftPair => seq![
            input_read(ty, "a"@),
            input_read(ty, "b"@),
            Seq::<char>::empty(),
            indent(1) + ty.c_text() + " total = (a << 2) >> 2;"@,
            Seq::<char>::empty(),
            print_line(1, ty.promotion(), "total"@),
        ],
    }
}

/// The headers of each shape.
pub open spec fn peephole_includes(ty: Ty, shape: PeepholeShape) -> Seq<Seq<char>> {
    match shape {
        PeepholeShape::CompareAfterSubtract => Seq::empty(),
        PeepholeShape::TestAgainstZero => Seq::empty(),
        PeepholeShape::RedundantMove => Seq::empty(),
        PeepholeShape::LoadThenMask => Seq::empty(),
        PeepholeShape::DoubleNegate => Seq::empty(),
        PeepholeShape::ShiftPair => Seq::empty(),
    }
}

/// What the program prints of each shape.
pub open spec fn peephole_expected(ty: Ty, shape: PeepholeShape) -> Seq<int> {
    match shape {
        PeepholeShape::CompareAfterSubtract => seq![
            26int,
        ],
        PeepholeShape::TestAgainstZero => seq![
            1int,
        ],
        PeepholeShape::RedundantMove => seq![
            25int,
        ],
        PeepholeShape::LoadThenMask => seq![
            40int,
        ],
        PeepholeShape::DoubleNegate => seq![
            25int,
        ],
        PeepholeShape::ShiftPair => seq![
            40int,
        ],
    }
}

/// Whether the shape asks for the volatile sink.
pub open spec fn peephole_sinks(shape: PeepholeShape) -> bool {
    match shape {
        PeepholeShape::CompareAfterSubtract => false,
        PeepholeShape::TestAgainstZero => false,
        PeepholeShape::RedundantMove => false,
        PeepholeShape::LoadThenMask => false,
        PeepholeShape::DoubleNegate => false,
        PeepholeShape::ShiftPair => false,
    }
}

/// Writes some of the shapes.
#[verifier::rlimit(100)]
fn peephole_write_0(program: &mut Program, ty: Ty, shape: PeepholeShape)
    requires
        old(program).top_lines() == Seq::<Seq<char>>::empty(),
        old(program).body_lines() == Seq::<Seq<char>>::empty(),
        old(program).expected_values() == Seq::<int>::empty(),
        old(program).include_lines() == Seq::<Seq<char>>::empty(),
        !old(program).sinks(),
        shape == PeepholeShape::CompareAfterSubtract || shape == PeepholeShape::TestAgainstZero || shape == PeepholeShape::RedundantMove,
    ensures
        final(program).top_lines() == peephole_top(ty, shape),
        final(program).body_lines() == peephole_body(ty, shape),
        final(program).expected_values() == peephole_expected(ty, shape),
        final(program).include_lines() == peephole_includes(ty, shape),
        final(program).sinks() == peephole_sinks(shape),
        final(program).purpose_text() == old(program).purpose_text(),
{
    let c = ty.c_name();
    match shape {
        PeepholeShape::CompareAfterSubtract => {
            program.input(ty, "a", 40);
            program.input(ty, "b", 15);
            program.blank();
            let mut text1 = String::from_str(c);
            text1.append(" difference = a - b;");
            program.line(text1.as_str());
            let mut text2 = String::from_str("int positive = difference > ");
            let literal3 = lit(ty, 0);
            text2.append(literal3.as_str());
            text2.append(";");
            program.line(text2.as_str());
            let mut text4 = String::from_str(c);
            text4.append(" total = difference + (");
            text4.append(c);
            text4.append(")positive;");
            program.line(text4.as_str());
            program.blank();
            program.check(ty.promoted(), "total", 26);
            assert(program.top_lines() =~~= peephole_top(ty, shape));
            assert(program.body_lines() =~~= peephole_body(ty, shape));
            assert(program.expected_values() =~= peephole_expected(ty, shape));
            assert(program.include_lines() =~~= peephole_includes(ty, shape));
        },
        PeepholeShape::TestAgainstZero => {
            program.input(ty, "a", 40);
            program.input(ty, "b", 15);
            program.blank();
            let mut text1 = String::from_str(c);
            text1.append(" masked = a & ");
            let literal2 = lit(ty, 7);
            text1.append(literal2.as_str());
            text1.append(";");
            program.line(text1.as_str());
            let mut text3 = String::from_str("int zero = masked == ");
            let literal4 = lit(ty, 0);
            text3.append(literal4.as_str());
            text3.append(";");
            program.line(text3.as_str());
            let mut text5 = String::from_str(c);
            text5.append(" total = masked + (");
            text5.append(c);
            text5.append(")zero;");
            program.line(text5.as_str());
            program.blank();
            program.check(ty.promoted(), "total", 1);
            assert(program.top_lines() =~~= peephole_top(ty, shape));
            assert(program.body_lines() =~~= peephole_body(ty, shape));
            assert(program.expected_values() =~= peephole_expected(ty, shape));
            assert(program.include_lines() =~~= peephole_includes(ty, shape));
        },
        PeepholeShape::RedundantMove => {
            program.input(ty, "a", 40);
            program.input(ty, "b", 15);
            program.blank();
            let mut text1 = String::from_str(c);
            text1.append(" copy = a;");
            program.line(text1.as_str());
            let mut text2 = String::from_str(c);
            text2.append(" again = copy;");
            program.line(text2.as_str());
            let mut text3 = String::from_str(c);
            text3.append(" total = again - b;");
            program.line(text3.as_str());
            program.blank();
            program.check(ty.promoted(), "total", 25);
            assert(program.top_lines() =~~= peephole_top(ty, shape));
            assert(program.body_lines() =~~= peephole_body(ty, shape));
            assert(program.expected_values() =~= peephole_expected(ty, shape));
            assert(program.include_lines() =~~= peephole_includes(ty, shape));
        },
        _ => {},
    }
}

/// Writes some of the shapes.
#[verifier::rlimit(100)]
fn peephole_write_1(program: &mut Program, ty: Ty, shape: PeepholeShape)
    requires
        old(program).top_lines() == Seq::<Seq<char>>::empty(),
        old(program).body_lines() == Seq::<Seq<char>>::empty(),
        old(program).expected_values() == Seq::<int>::empty(),
        old(program).include_lines() == Seq::<Seq<char>>::empty(),
        !old(program).sinks(),
        shape == PeepholeShape::LoadThenMask || shape == PeepholeShape::DoubleNegate || shape == PeepholeShape::ShiftPair,
    ensures
        final(program).top_lines() == peephole_top(ty, shape),
        final(program).body_lines() == peephole_body(ty, shape),
        final(program).expected_values() == peephole_expected(ty, shape),
        final(program).include_lines() == peephole_includes(ty, shape),
        final(program).sinks() == peephole_sinks(shape),
        final(program).purpose_text() == old(program).purpose_text(),
{
    let c = ty.c_name();
    match shape {
        PeepholeShape::LoadThenMask => {
            program.input(ty, "a", 40);
            program.input(ty, "b", 15);
            program.blank();
            let mut text1 = String::from_str(c);
            text1.append(" table[2] = { a, b };");
            program.line(text1.as_str());
            let mut text2 = String::from_str(c);
            text2.append(" total = table[0] & ");
            let literal3 = lit(ty, 255);
            text2.append(literal3.as_str());
            text2.append(";");
            program.line(text2.as_str());
            program.blank();
            program.check(ty.promoted(), "total", 40);
            assert(program.top_lines() =~~= peephole_top(ty, shape));
            assert(program.body_lines() =~~= peephole_body(ty, shape));
            assert(program.expected_values() =~= peephole_expected(ty, shape));
            assert(program.include_lines() =~~= peephole_includes(ty, shape));
        },
        PeepholeShape::DoubleNegate => {
            program.input(ty, "a", 40);
            program.input(ty, "b", 15);
            program.blank();
            let mut text1 = String::from_str(c);
            text1.append(" total = -(-(a - b));");
            program.line(text1.as_str());
            program.blank();
            program.check(ty.promoted(), "total", 25);
            assert(program.top_lines() =~~= peephole_top(ty, shape));
            assert(program.body_lines() =~~= peephole_body(ty, shape));
            assert(program.expected_values() =~= peephole_expected(ty, shape));
            assert(program.include_lines() =~~= peephole_includes(ty, shape));
        },
        PeepholeShape::ShiftPair => {
            program.input(ty, "a", 40);
            program.input(ty, "b", 15);
            program.blank();
            let mut text1 = String::from_str(c);
            text1.append(" total = (a << 2) >> 2;");
            program.line(text1.as_str());
            program.blank();
            program.check(ty.promoted(), "total", 40);
            assert(program.top_lines() =~~= peephole_top(ty, shape));
            assert(program.body_lines() =~~= peephole_body(ty, shape));
            assert(program.expected_values() =~= peephole_expected(ty, shape));
            assert(program.include_lines() =~~= peephole_includes(ty, shape));
        },
        _ => {},
    }
}

/// Writes a shape.
fn peephole_write(program: &mut Program, ty: Ty, shape: PeepholeShape)
    requires
        old(program).top_lines() == Seq::<Seq<char>>::empty(),
        old(program).body_lines() == Seq::<Seq<char>>::empty(),
        old(program).expected_values() == Seq::<int>::empty(),
        old(program).include_lines() == Seq::<Seq<char>>::empty(),
        !old(program).sinks(),
    ensures
        final(program).top_lines() == peephole_top(ty, shape),
        final(program).body_lines() == peephole_body(ty, shape),
        final(program).expected_values() == peephole_expected(ty, shape),
        final(program).include_lines() == peephole_includes(ty, shape),
        final(program).sinks() == peephole_sinks(shape),
        final(program).purpose_text() == old(program).purpose_text(),
{
    match shape {
        PeepholeShape::CompareAfterSubtract | PeepholeShape::TestAgainstZero | PeepholeShape::RedundantMove => {
            peephole_write_0(program, ty, shape);
        },
        PeepholeShape::LoadThenMask | PeepholeShape::DoubleNegate | PeepholeShape::ShiftPair => {
            peephole_write_1(program, ty, shape);
        },
    }
}

/// Whether a case is the peephole shape at a type, whole.
pub open spec fn is_peephole_case(c: Case, ty: Ty, shape: PeepholeShape) -> bool {
    &&& c.axes_text() == seq![("type"@, ty.name_text()), ("shape"@, shape.name_text())]
    &&& c.tags_text() == Seq::<Seq<char>>::empty()
    &&& c.program.purpose_text() == "the "@ + shape.name_text() + " peephole on "@ + ty.c_text()
    &&& c.program.include_lines() == peephole_includes(ty, shape)
    &&& c.program.top_lines() == peephole_top(ty, shape)
    &&& c.program.body_lines() == peephole_body(ty, shape)
    &&& c.program.expected_values() == peephole_expected(ty, shape)
    &&& c.program.sinks() == peephole_sinks(shape)
}

/// One peephole shape at one type.
fn peephole_case(ty: Ty, shape: PeepholeShape) -> (r: Case)
    ensures
        is_peephole_case(r, ty, shape),
{
    let mut purpose = String::new();
    purpose.append("the ");
    purpose.append(shape.name());
    purpose.append(" peephole on ");
    purpose.append(ty.c_name());
    let mut program = Program::new(purpose.as_str());
    peephole_write(&mut program, ty, shape);
    let axes = vec![axis("type", ty.name()), axis("shape", shape.name())];
    let r = Case { axes, tags: tags_for(false), program };
    assert(r.axes_text() =~= seq![("type"@, ty.name_text()), ("shape"@, shape.name_text())]);
    assert(r.tags_text() =~= Seq::<Seq<char>>::empty());
    r
}

/// The number of peephole cases before those of the type at position `t`: an unsigned type has no double negation program.
pub open spec fn peephole_base(t: int) -> int {
    if t == 0 {
        0
    } else if t == 1 {
        6
    } else if t == 2 {
        11
    } else if t == 3 {
        17
    } else {
        22
    }
}

/// The type and shape of the peephole case at position `k`.
pub open spec fn peephole_point(k: int) -> (Ty, PeepholeShape) {
    if k < 6 {
        (wide_types()[0], peephole_shapes_list()[(k)])
    } else if k < 11 {
        (wide_types()[1], peephole_shapes_list()[if (k - 6) < 4 { (k - 6) } else { (k - 6) + 1 }])
    } else if k < 17 {
        (wide_types()[2], peephole_shapes_list()[(k - 11)])
    } else {
        (wide_types()[3], peephole_shapes_list()[if (k - 17) < 4 { (k - 17) } else { (k - 17) + 1 }])
    }
}

/// Whether the pair has no peephole program.
pub open spec fn peephole_skipped(ty: Ty, shape: PeepholeShape) -> bool {
    shape == PeepholeShape::DoubleNegate && !ty.is_signed()
}

/// The peephole rules on pairs of machine instructions, on every type at the width of a register.
///
/// A comparison behind a subtraction, a test against zero behind a mask, a move of a move, a
/// mask behind a load, a double negation and a pair of shifts. The double negation is asked of
/// the signed types only, and every answer fits the promoted type.
pub fn machine_peephole() -> (r: Vec<Case>)
    ensures
        r@.len() == 22,
        forall|k: int|
            0 <= k < 22 ==> is_peephole_case(
                #[trigger] r@[k],
                peephole_point(k).0,
                peephole_point(k).1,
            ),
{
    let types = wide();
    let shapes = peephole_shapes_array();
    let mut out: Vec<Case> = Vec::new();
    let mut t: usize = 0;
    while t < 4
        invariant
            t <= 4,
            types@ == wide_types(),
            shapes@ == peephole_shapes_list(),
            out@.len() == peephole_base(t as int),
            forall|k: int|
                0 <= k < out@.len() ==> is_peephole_case(
                    #[trigger] out@[k],
                    peephole_point(k).0,
                    peephole_point(k).1,
                ),
        decreases 4 - t,
    {
        let ty = types[t];
        let base = out.len();
        let ghost skips = peephole_skipped(ty, PeepholeShape::DoubleNegate);
        assert(peephole_base(t + 1) == base + if skips { 5int } else { 6int });
        let mut s: usize = 0;
        while s < 6
            invariant
                t < 4,
                s <= 6,
                ty == wide_types()[t as int],
                skips == peephole_skipped(ty, PeepholeShape::DoubleNegate),
                types@ == wide_types(),
                shapes@ == peephole_shapes_list(),
                base == peephole_base(t as int),
                peephole_base(t + 1) == base + if skips { 5int } else { 6int },
                out@.len() == base + if skips && s > 4 {
                    s - 1
                } else {
                    s as int
                },
                forall|k: int|
                    0 <= k < out@.len() ==> is_peephole_case(
                        #[trigger] out@[k],
                        peephole_point(k).0,
                        peephole_point(k).1,
                    ),
            decreases 6 - s,
        {
            let shape = shapes[s];
            if !(shape == PeepholeShape::DoubleNegate && !ty.signed()) {
                let ghost k = out@.len() as int;
                let ghost j: int = if skips && s > 4 { s - 1 } else { s as int };
                assert(peephole_point(k) == (ty, shape)) by {
                    if t == 0 {
                        assert(k - 0 == j);
                    } else if t == 1 {
                        assert(k - 6 == j);
                    } else if t == 2 {
                        assert(k - 11 == j);
                    } else if t == 3 {
                        assert(k - 17 == j);
                    }
                }
                out.push(peephole_case(ty, shape));
            }
            s += 1;
        }
        t += 1;
    }
    out
}

/// A widening whose upper bits nothing may read, and where its reader stands.
#[derive(Clone, Copy, Debug, PartialEq, Eq, Structural)]
pub enum WidenShape {
    InAnotherBlock,
    InALoop,
    BothArms,
    ChainOfWidths,
    StoredNarrow,
    NarrowedFromADouble,
    UpperBitsRead,
}

impl WidenShape {
    /// The axis value.
    pub open spec fn name_text(self) -> Seq<char> {
        match self {
            WidenShape::InAnotherBlock => "in-another-block"@,
            WidenShape::InALoop => "in-a-loop"@,
            WidenShape::BothArms => "both-arms"@,
            WidenShape::ChainOfWidths => "chain-of-widths"@,
            WidenShape::StoredNarrow => "stored-narrow"@,
            WidenShape::NarrowedFromADouble => "narrowed-from-a-double"@,
            WidenShape::UpperBitsRead => "upper-bits-read"@,
        }
    }

    /// The axis value.
    pub fn name(self) -> (r: &'static str)
        ensures
            r@ == self.name_text(),
    {
        match self {
            WidenShape::InAnotherBlock => "in-another-block",
            WidenShape::InALoop => "in-a-loop",
            WidenShape::BothArms => "both-arms",
            WidenShape::ChainOfWidths => "chain-of-widths",
            WidenShape::StoredNarrow => "stored-narrow",
            WidenShape::NarrowedFromADouble => "narrowed-from-a-double",
            WidenShape::UpperBitsRead => "upper-bits-read",
        }
    }

    /// What the purpose line says of the widened value.
    pub open spec fn phrase_text(self) -> Seq<char> {
        match self {
            WidenShape::InAnotherBlock => "whose only reader is in another block"@,
            WidenShape::InALoop => "whose only reader is in a loop"@,
            WidenShape::BothArms => "widened in both arms and read narrow at the join"@,
            WidenShape::ChainOfWidths => "widened twice and read back at its own width"@,
            WidenShape::StoredNarrow => "whose only reader is a store at its own width"@,
            WidenShape::NarrowedFromADouble => "narrowed out of a double by the selector"@,
            WidenShape::UpperBitsRead => "read whole as well as narrow"@,
        }
    }

    /// What the purpose line says of the widened value.
    pub fn phrase(self) -> (r: &'static str)
        ensures
            r@ == self.phrase_text(),
    {
        match self {
            WidenShape::InAnotherBlock => "whose only reader is in another block",
            WidenShape::InALoop => "whose only reader is in a loop",
            WidenShape::BothArms => "widened in both arms and read narrow at the join",
            WidenShape::ChainOfWidths => "widened twice and read back at its own width",
            WidenShape::StoredNarrow => "whose only reader is a store at its own width",
            WidenShape::NarrowedFromADouble => "narrowed out of a double by the selector",
            WidenShape::UpperBitsRead => "read whole as well as narrow",
        }
    }
}

/// The shapes in the order the facet walks them.
pub open spec fn widen_shapes_list() -> Seq<WidenShape> {
    seq![
        WidenShape::InAnotherBlock,
        WidenShape::InALoop,
        WidenShape::BothArms,
        WidenShape::ChainOfWidths,
        WidenShape::StoredNarrow,
        WidenShape::NarrowedFromADouble,
        WidenShape::UpperBitsRead,
    ]
}

/// The shapes in the order the facet walks them.
fn widen_shapes_array() -> (r: Vec<WidenShape>)
    ensures
        r@ == widen_shapes_list(),
{
    let r = vec![
        WidenShape::InAnotherBlock,
        WidenShape::InALoop,
        WidenShape::BothArms,
        WidenShape::ChainOfWidths,
        WidenShape::StoredNarrow,
        WidenShape::NarrowedFromADouble,
        WidenShape::UpperBitsRead,
    ];
    assert(r@ =~= widen_shapes_list());
    r
}

/// The lines before `main` of each shape.
pub open spec fn widen_top(ty: Ty, shape: WidenShape) -> Seq<Seq<char>> {
    match shape {
        WidenShape::InAnotherBlock => seq![
            input_global(ty, "a"@, 40int),
            input_global(Ty::I32, "flag"@, 1int),
        ],
        WidenShape::InALoop => seq![
            input_global(ty, "a"@, 5int),
            input_global(Ty::I32, "count"@, 3int),
        ],
        WidenShape::BothArms => seq![
            input_global(ty, "a"@, 40int),
            input_global(ty, "b"@, 15int),
            input_global(Ty::I32, "flag"@, 1int),
        ],
        WidenShape::ChainOfWidths => seq![
            input_global(ty, "a"@, 40int),
            input_global(Ty::I32, "flag"@, 1int),
        ],
        WidenShape::StoredNarrow => seq![
            input_global(ty, "a"@, 40int),
            input_global(Ty::I32, "flag"@, 1int),
        ],
        WidenShape::NarrowedFromADouble => seq![
            "static volatile double source_in = 40.75;"@,
            input_global(Ty::I32, "flag"@, 1int),
        ],
        WidenShape::UpperBitsRead => if ty.is_signed() {
            seq![
                input_global(ty, "a"@, -56int),
                input_global(Ty::I32, "flag"@, 1int),
            ]
        } else {
            seq![
                input_global(ty, "a"@, 200int),
                input_global(Ty::I32, "flag"@, 1int),
            ]
        },
    }
}

/// The statements of `main` of each shape.
pub open spec fn widen_body(ty: Ty, shape: WidenShape) -> Seq<Seq<char>> {
    match shape {
        WidenShape::InAnotherBlock => seq![
            input_read(ty, "a"@),
            input_read(Ty::I32, "flag"@),
            Seq::<char>::empty(),
            indent(1) + "int wide = a;"@,
            indent(1) + ty.c_text() + " low = "@ + lit_text(ty, 0int) + ";"@,
            indent(1) + "if (flag) {"@,
            indent(2) + "low = ("@ + ty.c_text() + ")wide;"@,
            indent(1) + "}"@,
            indent(1) + ty.c_text() + " total = low;"@,
            Seq::<char>::empty(),
            print_line(1, ty.promotion(), "total"@),
        ],
        WidenShape::InALoop => seq![
            input_read(ty, "a"@),
            input_read(Ty::I32, "count"@),
            Seq::<char>::empty(),
            indent(1) + "int wide = a;"@,
            indent(1) + ty.c_text() + " total = "@ + lit_text(ty, 0int) + ";"@,
            indent(1) + "for (int i = 0; i < count; i = i + 1) {"@,
            indent(2) + "total = ("@ + ty.c_text() + ")(total + ("@ + ty.c_text() + ")wide);"@,
            indent(1) + "}"@,
            Seq::<char>::empty(),
            print_line(1, ty.promotion(), "total"@),
        ],
        WidenShape::BothArms => seq![
            input_read(ty, "a"@),
            input_read(ty, "b"@),
            input_read(Ty::I32, "flag"@),
            Seq::<char>::empty(),
            indent(1) + "int wide;"@,
            indent(1) + "if (flag) {"@,
            indent(2) + "wide = a;"@,
            indent(1) + "} else {"@,
            indent(2) + "wide = b;"@,
            indent(1) + "}"@,
            indent(1) + ty.c_text() + " total = ("@ + ty.c_text() + ")wide;"@,
            Seq::<char>::empty(),
            print_line(1, ty.promotion(), "total"@),
        ],
        WidenShape::ChainOfWidths => seq![
            input_read(ty, "a"@),
            input_read(Ty::I32, "flag"@),
            Seq::<char>::empty(),
            indent(1) + "int wide = a;"@,
            indent(1) + "long long wider = wide;"@,
            indent(1) + ty.c_text() + " low = "@ + lit_text(ty, 0int) + ";"@,
            indent(1) + "if (flag) {"@,
            indent(2) + "low = ("@ + ty.c_text() + ")wider;"@,
            indent(1) + "}"@,
            indent(1) + ty.c_text() + " total = low;"@,
            Seq::<char>::empty(),
            print_line(1, ty.promotion(), "total"@),
        ],
        WidenShape::StoredNarrow => seq![
            input_read(ty, "a"@),
            input_read(Ty::I32, "flag"@),
            Seq::<char>::empty(),
            indent(1) + ty.c_text() + " buffer[4] = { 0 };"@,
            indent(1) + "int wide = a;"@,
            indent(1) + "if (flag) {"@,
            indent(2) + "buffer[2] = ("@ + ty.c_text() + ")wide;"@,
            indent(1) + "}"@,
            indent(1) + ty.c_text() + " total = buffer[2];"@,
            Seq::<char>::empty(),
            print_line(1, ty.promotion(), "total"@),
        ],
        WidenShape::NarrowedFromADouble => seq![
            input_read(Ty::I32, "flag"@),
            Seq::<char>::empty(),
            indent(1) + "double source = source_in;"@,
            indent(1) + ty.c_text() + " total = ("@ + ty.c_text() + ")source;"@,
            indent(1) + "if (flag) {"@,
            indent(2) + "total = ("@ + ty.c_text() + ")(source + 1.0);"@,
            indent(1) + "}"@,
            Seq::<char>::empty(),
            print_line(1, ty.promotion(), "total"@),
        ],
        WidenShape::UpperBitsRead => if ty.is_signed() {
            seq![
                input_read(ty, "a"@),
                input_read(Ty::I32, "flag"@),
                Seq::<char>::empty(),
                indent(1) + "int wide = a;"@,
                indent(1) + ty.c_text() + " low = "@ + lit_text(ty, 0int) + ";"@,
                indent(1) + "int beyond = 0;"@,
                indent(1) + "if (flag) {"@,
                indent(2) + "low = ("@ + ty.c_text() + ")wide;"@,
                indent(2) + "beyond = wide < 0;"@,
                indent(1) + "}"@,
                indent(1) + ty.c_text() + " total = ("@ + ty.c_text() + ")(low + ("@ + ty.c_text() + ")beyond);"@,
                Seq::<char>::empty(),
                print_line(1, ty.promotion(), "total"@),
            ]
        } else {
            seq![
                input_read(ty, "a"@),
                input_read(Ty::I32, "flag"@),
                Seq::<char>::empty(),
                indent(1) + "int wide = a;"@,
                indent(1) + ty.c_text() + " low = "@ + lit_text(ty, 0int) + ";"@,
                indent(1) + "int beyond = 0;"@,
                indent(1) + "if (flag) {"@,
                indent(2) + "low = ("@ + ty.c_text() + ")wide;"@,
                indent(2) + "beyond = wide > 127;"@,
                indent(1) + "}"@,
                indent(1) + ty.c_text() + " total = ("@ + ty.c_text() + ")(low + ("@ + ty.c_text() + ")beyond);"@,
                Seq::<char>::empty(),
                print_line(1, ty.promotion(), "total"@),
            ]
        },
    }
}

/// The headers of each shape.
pub open spec fn widen_includes(ty: Ty, shape: WidenShape) -> Seq<Seq<char>> {
    match shape {
        WidenShape::InAnotherBlock => Seq::empty(),
        WidenShape::InALoop => Seq::empty(),
        WidenShape::BothArms => Seq::empty(),
        WidenShape::ChainOfWidths => Seq::empty(),
        WidenShape::StoredNarrow => Seq::empty(),
        WidenShape::NarrowedFromADouble => Seq::empty(),
        WidenShape::UpperBitsRead => if ty.is_signed() {
            Seq::empty()
        } else {
            Seq::empty()
        },
    }
}

/// What the program prints of each shape.
pub open spec fn widen_expected(ty: Ty, shape: WidenShape) -> Seq<int> {
    match shape {
        WidenShape::InAnotherBlock => seq![
            40int,
        ],
        WidenShape::InALoop => seq![
            15int,
        ],
        WidenShape::BothArms => seq![
            40int,
        ],
        WidenShape::ChainOfWidths => seq![
            40int,
        ],
        WidenShape::StoredNarrow => seq![
            40int,
        ],
        WidenShape::NarrowedFromADouble => seq![
            41int,
        ],
        WidenShape::UpperBitsRead => if ty.is_signed() {
            seq![
                -55int,
            ]
        } else {
            seq![
                201int,
            ]
        },
    }
}

/// Whether the shape asks for the volatile sink.
pub open spec fn widen_sinks(shape: WidenShape) -> bool {
    match shape {
        WidenShape::InAnotherBlock => false,
        WidenShape::InALoop => false,
        WidenShape::BothArms => false,
        WidenShape::ChainOfWidths => false,
        WidenShape::StoredNarrow => false,
        WidenShape::NarrowedFromADouble => false,
        WidenShape::UpperBitsRead => false,
    }
}

/// Writes some of the shapes.
#[verifier::rlimit(100)]
fn widen_write_0(program: &mut Program, ty: Ty, shape: WidenShape)
    requires
        old(program).top_lines() == Seq::<Seq<char>>::empty(),
        old(program).body_lines() == Seq::<Seq<char>>::empty(),
        old(program).expected_values() == Seq::<int>::empty(),
        old(program).include_lines() == Seq::<Seq<char>>::empty(),
        !old(program).sinks(),
        shape == WidenShape::InAnotherBlock || shape == WidenShape::InALoop || shape == WidenShape::BothArms,
    ensures
        final(program).top_lines() == widen_top(ty, shape),
        final(program).body_lines() == widen_body(ty, shape),
        final(program).expected_values() == widen_expected(ty, shape),
        final(program).include_lines() == widen_includes(ty, shape),
        final(program).sinks() == widen_sinks(shape),
        final(program).purpose_text() == old(program).purpose_text(),
{
    let c = ty.c_name();
    match shape {
        WidenShape::InAnotherBlock => {
            program.input(ty, "a", 40);
            program.input(Ty::I32, "flag", 1);
            program.blank();
            program.line("int wide = a;");
            let mut text1 = String::from_str(c);
            text1.append(" low = ");
            let literal2 = lit(ty, 0);
            text1.append(literal2.as_str());
            text1.append(";");
            program.line(text1.as_str());
            program.line("if (flag) {");
            let mut text3 = String::from_str("low = (");
            text3.append(c);
            text3.append(")wide;");
            program.line_at(1, text3.as_str());
            program.line("}");
            let mut text4 = String::from_str(c);
            text4.append(" total = low;");
            program.line(text4.as_str());
            program.blank();
            program.check(ty.promoted(), "total", 40);
            assert(program.top_lines() =~~= widen_top(ty, shape));
            assert(program.body_lines() =~~= widen_body(ty, shape));
            assert(program.expected_values() =~= widen_expected(ty, shape));
            assert(program.include_lines() =~~= widen_includes(ty, shape));
        },
        WidenShape::InALoop => {
            program.input(ty, "a", 5);
            program.input(Ty::I32, "count", 3);
            program.blank();
            program.line("int wide = a;");
            let mut text1 = String::from_str(c);
            text1.append(" total = ");
            let literal2 = lit(ty, 0);
            text1.append(literal2.as_str());
            text1.append(";");
            program.line(text1.as_str());
            program.line("for (int i = 0; i < count; i = i + 1) {");
            let mut text3 = String::from_str("total = (");
            text3.append(c);
            text3.append(")(total + (");
            text3.append(c);
            text3.append(")wide);");
            program.line_at(1, text3.as_str());
            program.line("}");
            program.blank();
            program.check(ty.promoted(), "total", 15);
            assert(program.top_lines() =~~= widen_top(ty, shape));
            assert(program.body_lines() =~~= widen_body(ty, shape));
            assert(program.expected_values() =~= widen_expected(ty, shape));
            assert(program.include_lines() =~~= widen_includes(ty, shape));
        },
        WidenShape::BothArms => {
            program.input(ty, "a", 40);
            program.input(ty, "b", 15);
            program.input(Ty::I32, "flag", 1);
            program.blank();
            program.line("int wide;");
            program.line("if (flag) {");
            program.line_at(1, "wide = a;");
            program.line("} else {");
            program.line_at(1, "wide = b;");
            program.line("}");
            let mut text1 = String::from_str(c);
            text1.append(" total = (");
            text1.append(c);
            text1.append(")wide;");
            program.line(text1.as_str());
            program.blank();
            program.check(ty.promoted(), "total", 40);
            assert(program.top_lines() =~~= widen_top(ty, shape));
            assert(program.body_lines() =~~= widen_body(ty, shape));
            assert(program.expected_values() =~= widen_expected(ty, shape));
            assert(program.include_lines() =~~= widen_includes(ty, shape));
        },
        _ => {},
    }
}

/// Writes some of the shapes.
#[verifier::rlimit(100)]
fn widen_write_1(program: &mut Program, ty: Ty, shape: WidenShape)
    requires
        old(program).top_lines() == Seq::<Seq<char>>::empty(),
        old(program).body_lines() == Seq::<Seq<char>>::empty(),
        old(program).expected_values() == Seq::<int>::empty(),
        old(program).include_lines() == Seq::<Seq<char>>::empty(),
        !old(program).sinks(),
        shape == WidenShape::ChainOfWidths || shape == WidenShape::StoredNarrow || shape == WidenShape::NarrowedFromADouble,
    ensures
        final(program).top_lines() == widen_top(ty, shape),
        final(program).body_lines() == widen_body(ty, shape),
        final(program).expected_values() == widen_expected(ty, shape),
        final(program).include_lines() == widen_includes(ty, shape),
        final(program).sinks() == widen_sinks(shape),
        final(program).purpose_text() == old(program).purpose_text(),
{
    let c = ty.c_name();
    match shape {
        WidenShape::ChainOfWidths => {
            program.input(ty, "a", 40);
            program.input(Ty::I32, "flag", 1);
            program.blank();
            program.line("int wide = a;");
            program.line("long long wider = wide;");
            let mut text1 = String::from_str(c);
            text1.append(" low = ");
            let literal2 = lit(ty, 0);
            text1.append(literal2.as_str());
            text1.append(";");
            program.line(text1.as_str());
            program.line("if (flag) {");
            let mut text3 = String::from_str("low = (");
            text3.append(c);
            text3.append(")wider;");
            program.line_at(1, text3.as_str());
            program.line("}");
            let mut text4 = String::from_str(c);
            text4.append(" total = low;");
            program.line(text4.as_str());
            program.blank();
            program.check(ty.promoted(), "total", 40);
            assert(program.top_lines() =~~= widen_top(ty, shape));
            assert(program.body_lines() =~~= widen_body(ty, shape));
            assert(program.expected_values() =~= widen_expected(ty, shape));
            assert(program.include_lines() =~~= widen_includes(ty, shape));
        },
        WidenShape::StoredNarrow => {
            program.input(ty, "a", 40);
            program.input(Ty::I32, "flag", 1);
            program.blank();
            let mut text1 = String::from_str(c);
            text1.append(" buffer[4] = { 0 };");
            program.line(text1.as_str());
            program.line("int wide = a;");
            program.line("if (flag) {");
            let mut text2 = String::from_str("buffer[2] = (");
            text2.append(c);
            text2.append(")wide;");
            program.line_at(1, text2.as_str());
            program.line("}");
            let mut text3 = String::from_str(c);
            text3.append(" total = buffer[2];");
            program.line(text3.as_str());
            program.blank();
            program.check(ty.promoted(), "total", 40);
            assert(program.top_lines() =~~= widen_top(ty, shape));
            assert(program.body_lines() =~~= widen_body(ty, shape));
            assert(program.expected_values() =~= widen_expected(ty, shape));
            assert(program.include_lines() =~~= widen_includes(ty, shape));
        },
        WidenShape::NarrowedFromADouble => {
            program.top("static volatile double source_in = 40.75;");
            program.input(Ty::I32, "flag", 1);
            program.blank();
            program.line("double source = source_in;");
            let mut text1 = String::from_str(c);
            text1.append(" total = (");
            text1.append(c);
            text1.append(")source;");
            program.line(text1.as_str());
            program.line("if (flag) {");
            let mut text2 = String::from_str("total = (");
            text2.append(c);
            text2.append(")(source + 1.0);");
            program.line_at(1, text2.as_str());
            program.line("}");
            program.blank();
            program.check(ty.promoted(), "total", 41);
            assert(program.top_lines() =~~= widen_top(ty, shape));
            assert(program.body_lines() =~~= widen_body(ty, shape));
            assert(program.expected_values() =~= widen_expected(ty, shape));
            assert(program.include_lines() =~~= widen_includes(ty, shape));
        },
        _ => {},
    }
}

/// Writes some of the shapes.
#[verifier::rlimit(100)]
fn widen_write_2(program: &mut Program, ty: Ty, shape: WidenShape)
    requires
        old(program).top_lines() == Seq::<Seq<char>>::empty(),
        old(program).body_lines() == Seq::<Seq<char>>::empty(),
        old(program).expected_values() == Seq::<int>::empty(),
        old(program).include_lines() == Seq::<Seq<char>>::empty(),
        !old(program).sinks(),
        shape == WidenShape::UpperBitsRead,
    ensures
        final(program).top_lines() == widen_top(ty, shape),
        final(program).body_lines() == widen_body(ty, shape),
        final(program).expected_values() == widen_expected(ty, shape),
        final(program).include_lines() == widen_includes(ty, shape),
        final(program).sinks() == widen_sinks(shape),
        final(program).purpose_text() == old(program).purpose_text(),
{
    let c = ty.c_name();
    match shape {
        WidenShape::UpperBitsRead => {
            if ty.signed() {
                program.input(ty, "a", -56);
                program.input(Ty::I32, "flag", 1);
                program.blank();
                program.line("int wide = a;");
                let mut text1 = String::from_str(c);
                text1.append(" low = ");
                let literal2 = lit(ty, 0);
                text1.append(literal2.as_str());
                text1.append(";");
                program.line(text1.as_str());
                program.line("int beyond = 0;");
                program.line("if (flag) {");
                let mut text3 = String::from_str("low = (");
                text3.append(c);
                text3.append(")wide;");
                program.line_at(1, text3.as_str());
                program.line_at(1, "beyond = wide < 0;");
                program.line("}");
                let mut text4 = String::from_str(c);
                text4.append(" total = (");
                text4.append(c);
                text4.append(")(low + (");
                text4.append(c);
                text4.append(")beyond);");
                program.line(text4.as_str());
                program.blank();
                program.check(ty.promoted(), "total", -55);
            } else {
                program.input(ty, "a", 200);
                program.input(Ty::I32, "flag", 1);
                program.blank();
                program.line("int wide = a;");
                let mut text1 = String::from_str(c);
                text1.append(" low = ");
                let literal2 = lit(ty, 0);
                text1.append(literal2.as_str());
                text1.append(";");
                program.line(text1.as_str());
                program.line("int beyond = 0;");
                program.line("if (flag) {");
                let mut text3 = String::from_str("low = (");
                text3.append(c);
                text3.append(")wide;");
                program.line_at(1, text3.as_str());
                program.line_at(1, "beyond = wide > 127;");
                program.line("}");
                let mut text4 = String::from_str(c);
                text4.append(" total = (");
                text4.append(c);
                text4.append(")(low + (");
                text4.append(c);
                text4.append(")beyond);");
                program.line(text4.as_str());
                program.blank();
                program.check(ty.promoted(), "total", 201);
            }
            assert(program.top_lines() =~~= widen_top(ty, shape));
            assert(program.body_lines() =~~= widen_body(ty, shape));
            assert(program.expected_values() =~= widen_expected(ty, shape));
            assert(program.include_lines() =~~= widen_includes(ty, shape));
        },
        _ => {},
    }
}

/// Writes a shape.
fn widen_write(program: &mut Program, ty: Ty, shape: WidenShape)
    requires
        old(program).top_lines() == Seq::<Seq<char>>::empty(),
        old(program).body_lines() == Seq::<Seq<char>>::empty(),
        old(program).expected_values() == Seq::<int>::empty(),
        old(program).include_lines() == Seq::<Seq<char>>::empty(),
        !old(program).sinks(),
    ensures
        final(program).top_lines() == widen_top(ty, shape),
        final(program).body_lines() == widen_body(ty, shape),
        final(program).expected_values() == widen_expected(ty, shape),
        final(program).include_lines() == widen_includes(ty, shape),
        final(program).sinks() == widen_sinks(shape),
        final(program).purpose_text() == old(program).purpose_text(),
{
    match shape {
        WidenShape::InAnotherBlock | WidenShape::InALoop | WidenShape::BothArms => {
            widen_write_0(program, ty, shape);
        },
        WidenShape::ChainOfWidths | WidenShape::StoredNarrow | WidenShape::NarrowedFromADouble => {
            widen_write_1(program, ty, shape);
        },
        WidenShape::UpperBitsRead => {
            widen_write_2(program, ty, shape);
        },
    }
}

/// Whether a case is the widen shape at a type, whole.
pub open spec fn is_widen_case(c: Case, ty: Ty, shape: WidenShape) -> bool {
    &&& c.axes_text() == seq![("type"@, ty.name_text()), ("shape"@, shape.name_text())]
    &&& c.tags_text() == Seq::<Seq<char>>::empty()
    &&& c.program.purpose_text() == "a widened "@ + ty.c_text() + " "@ + shape.phrase_text()
    &&& c.program.include_lines() == widen_includes(ty, shape)
    &&& c.program.top_lines() == widen_top(ty, shape)
    &&& c.program.body_lines() == widen_body(ty, shape)
    &&& c.program.expected_values() == widen_expected(ty, shape)
    &&& c.program.sinks() == widen_sinks(shape)
}

/// One widen shape at one type.
fn widen_case(ty: Ty, shape: WidenShape) -> (r: Case)
    ensures
        is_widen_case(r, ty, shape),
{
    let mut purpose = String::new();
    purpose.append("a widened ");
    purpose.append(ty.c_name());
    purpose.append(" ");
    purpose.append(shape.phrase());
    let mut program = Program::new(purpose.as_str());
    widen_write(&mut program, ty, shape);
    let axes = vec![axis("type", ty.name()), axis("shape", shape.name())];
    let r = Case { axes, tags: tags_for(false), program };
    assert(r.axes_text() =~= seq![("type"@, ty.name_text()), ("shape"@, shape.name_text())]);
    assert(r.tags_text() =~= Seq::<Seq<char>>::empty());
    r
}

/// A widening whose upper bits nothing reads, on the four narrow types.
///
/// C promotes every narrow operand to `int`, and the widenings a peephole cannot take are the
/// ones with a block boundary between them and their reader. Five shapes put the reader in
/// another block, behind a back edge, at a join, after a second widening or in a store; one
/// narrows out of a double; and the last reads the widened value whole with the top bit of its
/// own type set, so a wrong count prints a different number.
pub fn bit_liveness() -> (r: Vec<Case>)
    ensures
        r@.len() == 28,
        forall|k: int|
            0 <= k < 28 ==> is_widen_case(
                #[trigger] r@[k],
                narrow_types()[k / 7],
                widen_shapes_list()[k % 7],
            ),
{
    let types = narrow();
    let shapes = widen_shapes_array();
    let mut out: Vec<Case> = Vec::new();
    let mut k: usize = 0;
    while k < 28
        invariant
            k <= 28,
            types@ == narrow_types(),
            shapes@ == widen_shapes_list(),
            out@.len() == k,
            forall|i: int|
                0 <= i < k ==> is_widen_case(
                    #[trigger] out@[i],
                    narrow_types()[i / 7],
                    widen_shapes_list()[i % 7],
                ),
        decreases 28 - k,
    {
        out.push(widen_case(types[k / 7], shapes[k % 7]));
        k += 1;
    }
    out
}

/// An expression a target usually has one instruction for.
#[derive(Clone, Copy, Debug, PartialEq, Eq, Structural)]
pub enum Pattern {
    MultiplyAdd,
    ShiftAdd,
    NegateAdd,
    Min,
    Max,
    CompareSet,
    MaskLow,
    TestBit,
    RoundDown,
    Average,
}

impl Pattern {
    /// The axis value.
    pub open spec fn name_text(self) -> Seq<char> {
        match self {
            Pattern::MultiplyAdd => "multiply-add"@,
            Pattern::ShiftAdd => "shift-add"@,
            Pattern::NegateAdd => "negate-add"@,
            Pattern::Min => "min"@,
            Pattern::Max => "max"@,
            Pattern::CompareSet => "compare-set"@,
            Pattern::MaskLow => "mask-low"@,
            Pattern::TestBit => "test-bit"@,
            Pattern::RoundDown => "round-down"@,
            Pattern::Average => "average"@,
        }
    }

    /// The axis value.
    pub fn name(self) -> (r: &'static str)
        ensures
            r@ == self.name_text(),
    {
        match self {
            Pattern::MultiplyAdd => "multiply-add",
            Pattern::ShiftAdd => "shift-add",
            Pattern::NegateAdd => "negate-add",
            Pattern::Min => "min",
            Pattern::Max => "max",
            Pattern::CompareSet => "compare-set",
            Pattern::MaskLow => "mask-low",
            Pattern::TestBit => "test-bit",
            Pattern::RoundDown => "round-down",
            Pattern::Average => "average",
        }
    }

    /// The C expression the pattern is written as.
    pub open spec fn expr_text(self) -> Seq<char> {
        match self {
            Pattern::MultiplyAdd => "a * b + c"@,
            Pattern::ShiftAdd => "(a << 3) + b"@,
            Pattern::NegateAdd => "c - a"@,
            Pattern::Min => "a < b ? a : b"@,
            Pattern::Max => "a > b ? a : b"@,
            Pattern::CompareSet => "(a < b) + (b < c)"@,
            Pattern::MaskLow => "a & 0xff"@,
            Pattern::TestBit => "(a >> 2) & 1"@,
            Pattern::RoundDown => "a & ~(unsigned)7"@,
            Pattern::Average => "(a >> 1) + (b >> 1)"@,
        }
    }

    /// The C expression the pattern is written as.
    pub fn expr(self) -> (r: &'static str)
        ensures
            r@ == self.expr_text(),
    {
        match self {
            Pattern::MultiplyAdd => "a * b + c",
            Pattern::ShiftAdd => "(a << 3) + b",
            Pattern::NegateAdd => "c - a",
            Pattern::Min => "a < b ? a : b",
            Pattern::Max => "a > b ? a : b",
            Pattern::CompareSet => "(a < b) + (b < c)",
            Pattern::MaskLow => "a & 0xff",
            Pattern::TestBit => "(a >> 2) & 1",
            Pattern::RoundDown => "a & ~(unsigned)7",
            Pattern::Average => "(a >> 1) + (b >> 1)",
        }
    }
}

/// The shapes in the order the facet walks them.
pub open spec fn patterns_list() -> Seq<Pattern> {
    seq![
        Pattern::MultiplyAdd,
        Pattern::ShiftAdd,
        Pattern::NegateAdd,
        Pattern::Min,
        Pattern::Max,
        Pattern::CompareSet,
        Pattern::MaskLow,
        Pattern::TestBit,
        Pattern::RoundDown,
        Pattern::Average,
    ]
}

/// The shapes in the order the facet walks them.
fn patterns_array() -> (r: Vec<Pattern>)
    ensures
        r@ == patterns_list(),
{
    let r = vec![
        Pattern::MultiplyAdd,
        Pattern::ShiftAdd,
        Pattern::NegateAdd,
        Pattern::Min,
        Pattern::Max,
        Pattern::CompareSet,
        Pattern::MaskLow,
        Pattern::TestBit,
        Pattern::RoundDown,
        Pattern::Average,
    ];
    assert(r@ =~= patterns_list());
    r
}

/// What a pattern evaluates to on non-negative operands, which is all the programs use.
pub open spec fn pattern_value(p: Pattern, a: int, b: int, c: int) -> int {
    match p {
        Pattern::MultiplyAdd => a * b + c,
        Pattern::ShiftAdd => a * 8 + b,
        Pattern::NegateAdd => c - a,
        Pattern::Min => if a < b {
            a
        } else {
            b
        },
        Pattern::Max => if a > b {
            a
        } else {
            b
        },
        Pattern::CompareSet => (if a < b {
            1int
        } else {
            0
        }) + (if b < c {
            1int
        } else {
            0
        }),
        Pattern::MaskLow => a % 256,
        Pattern::TestBit => (a / 4) % 2,
        Pattern::RoundDown => a - a % 8,
        Pattern::Average => a / 2 + b / 2,
    }
}

/// The lines before `main` of each shape.
pub open spec fn pattern_top(ty: Ty, shape: Pattern) -> Seq<Seq<char>> {
    match shape {
        Pattern::MultiplyAdd => seq![
            input_global(ty, "a"@, 20int),
            input_global(ty, "b"@, 12int),
            input_global(ty, "c"@, 100int),
        ],
        Pattern::ShiftAdd => seq![
            input_global(ty, "a"@, 20int),
            input_global(ty, "b"@, 12int),
            input_global(ty, "c"@, 100int),
        ],
        Pattern::NegateAdd => seq![
            input_global(ty, "a"@, 20int),
            input_global(ty, "b"@, 12int),
            input_global(ty, "c"@, 100int),
        ],
        Pattern::Min => seq![
            input_global(ty, "a"@, 20int),
            input_global(ty, "b"@, 12int),
            input_global(ty, "c"@, 100int),
        ],
        Pattern::Max => seq![
            input_global(ty, "a"@, 20int),
            input_global(ty, "b"@, 12int),
            input_global(ty, "c"@, 100int),
        ],
        Pattern::CompareSet => seq![
            input_global(ty, "a"@, 20int),
            input_global(ty, "b"@, 12int),
            input_global(ty, "c"@, 100int),
        ],
        Pattern::MaskLow => seq![
            input_global(ty, "a"@, 20int),
            input_global(ty, "b"@, 12int),
            input_global(ty, "c"@, 100int),
        ],
        Pattern::TestBit => seq![
            input_global(ty, "a"@, 20int),
            input_global(ty, "b"@, 12int),
            input_global(ty, "c"@, 100int),
        ],
        Pattern::RoundDown => seq![
            input_global(ty, "a"@, 20int),
            input_global(ty, "b"@, 12int),
            input_global(ty, "c"@, 100int),
        ],
        Pattern::Average => seq![
            input_global(ty, "a"@, 20int),
            input_global(ty, "b"@, 12int),
            input_global(ty, "c"@, 100int),
        ],
    }
}

/// The statements of `main` of each shape.
pub open spec fn pattern_body(ty: Ty, shape: Pattern) -> Seq<Seq<char>> {
    match shape {
        Pattern::MultiplyAdd => seq![
            input_read(ty, "a"@),
            input_read(ty, "b"@),
            input_read(ty, "c"@),
            Seq::<char>::empty(),
            print_line(1, ty.promotion(), "a * b + c"@),
        ],
        Pattern::ShiftAdd => seq![
            input_read(ty, "a"@),
            input_read(ty, "b"@),
            input_read(ty, "c"@),
            Seq::<char>::empty(),
            print_line(1, ty.promotion(), "(a << 3) + b"@),
        ],
        Pattern::NegateAdd => seq![
            input_read(ty, "a"@),
            input_read(ty, "b"@),
            input_read(ty, "c"@),
            Seq::<char>::empty(),
            print_line(1, ty.promotion(), "c - a"@),
        ],
        Pattern::Min => seq![
            input_read(ty, "a"@),
            input_read(ty, "b"@),
            input_read(ty, "c"@),
            Seq::<char>::empty(),
            print_line(1, ty.promotion(), "a < b ? a : b"@),
        ],
        Pattern::Max => seq![
            input_read(ty, "a"@),
            input_read(ty, "b"@),
            input_read(ty, "c"@),
            Seq::<char>::empty(),
            print_line(1, ty.promotion(), "a > b ? a : b"@),
        ],
        Pattern::CompareSet => seq![
            input_read(ty, "a"@),
            input_read(ty, "b"@),
            input_read(ty, "c"@),
            Seq::<char>::empty(),
            print_line(1, ty.promotion(), "(a < b) + (b < c)"@),
        ],
        Pattern::MaskLow => seq![
            input_read(ty, "a"@),
            input_read(ty, "b"@),
            input_read(ty, "c"@),
            Seq::<char>::empty(),
            print_line(1, ty.promotion(), "a & 0xff"@),
        ],
        Pattern::TestBit => seq![
            input_read(ty, "a"@),
            input_read(ty, "b"@),
            input_read(ty, "c"@),
            Seq::<char>::empty(),
            print_line(1, ty.promotion(), "(a >> 2) & 1"@),
        ],
        Pattern::RoundDown => seq![
            input_read(ty, "a"@),
            input_read(ty, "b"@),
            input_read(ty, "c"@),
            Seq::<char>::empty(),
            print_line(1, ty.promotion(), "a & ~(unsigned)7"@),
        ],
        Pattern::Average => seq![
            input_read(ty, "a"@),
            input_read(ty, "b"@),
            input_read(ty, "c"@),
            Seq::<char>::empty(),
            print_line(1, ty.promotion(), "(a >> 1) + (b >> 1)"@),
        ],
    }
}

/// The headers of each shape.
pub open spec fn pattern_includes(ty: Ty, shape: Pattern) -> Seq<Seq<char>> {
    match shape {
        Pattern::MultiplyAdd => Seq::empty(),
        Pattern::ShiftAdd => Seq::empty(),
        Pattern::NegateAdd => Seq::empty(),
        Pattern::Min => Seq::empty(),
        Pattern::Max => Seq::empty(),
        Pattern::CompareSet => Seq::empty(),
        Pattern::MaskLow => Seq::empty(),
        Pattern::TestBit => Seq::empty(),
        Pattern::RoundDown => Seq::empty(),
        Pattern::Average => Seq::empty(),
    }
}

/// What the program prints of each shape.
pub open spec fn pattern_expected(ty: Ty, shape: Pattern) -> Seq<int> {
    match shape {
        Pattern::MultiplyAdd => seq![
            340int,
        ],
        Pattern::ShiftAdd => seq![
            172int,
        ],
        Pattern::NegateAdd => seq![
            80int,
        ],
        Pattern::Min => seq![
            12int,
        ],
        Pattern::Max => seq![
            20int,
        ],
        Pattern::CompareSet => seq![
            1int,
        ],
        Pattern::MaskLow => seq![
            20int,
        ],
        Pattern::TestBit => seq![
            1int,
        ],
        Pattern::RoundDown => seq![
            16int,
        ],
        Pattern::Average => seq![
            16int,
        ],
    }
}

/// Whether the shape asks for the volatile sink.
pub open spec fn pattern_sinks(shape: Pattern) -> bool {
    match shape {
        Pattern::MultiplyAdd => false,
        Pattern::ShiftAdd => false,
        Pattern::NegateAdd => false,
        Pattern::Min => false,
        Pattern::Max => false,
        Pattern::CompareSet => false,
        Pattern::MaskLow => false,
        Pattern::TestBit => false,
        Pattern::RoundDown => false,
        Pattern::Average => false,
    }
}

/// Writes some of the shapes.
#[verifier::rlimit(100)]
fn pattern_write_0(program: &mut Program, ty: Ty, shape: Pattern)
    requires
        old(program).top_lines() == Seq::<Seq<char>>::empty(),
        old(program).body_lines() == Seq::<Seq<char>>::empty(),
        old(program).expected_values() == Seq::<int>::empty(),
        old(program).include_lines() == Seq::<Seq<char>>::empty(),
        !old(program).sinks(),
        shape == Pattern::MultiplyAdd || shape == Pattern::ShiftAdd || shape == Pattern::NegateAdd || shape == Pattern::Min || shape == Pattern::Max,
    ensures
        final(program).top_lines() == pattern_top(ty, shape),
        final(program).body_lines() == pattern_body(ty, shape),
        final(program).expected_values() == pattern_expected(ty, shape),
        final(program).include_lines() == pattern_includes(ty, shape),
        final(program).sinks() == pattern_sinks(shape),
        final(program).purpose_text() == old(program).purpose_text(),
{
    let c = ty.c_name();
    match shape {
        Pattern::MultiplyAdd => {
            program.input(ty, "a", 20);
            program.input(ty, "b", 12);
            program.input(ty, "c", 100);
            program.blank();
            program.check(ty.promoted(), "a * b + c", 340);
            assert(program.top_lines() =~~= pattern_top(ty, shape));
            assert(program.body_lines() =~~= pattern_body(ty, shape));
            assert(program.expected_values() =~= pattern_expected(ty, shape));
            assert(program.include_lines() =~~= pattern_includes(ty, shape));
        },
        Pattern::ShiftAdd => {
            program.input(ty, "a", 20);
            program.input(ty, "b", 12);
            program.input(ty, "c", 100);
            program.blank();
            program.check(ty.promoted(), "(a << 3) + b", 172);
            assert(program.top_lines() =~~= pattern_top(ty, shape));
            assert(program.body_lines() =~~= pattern_body(ty, shape));
            assert(program.expected_values() =~= pattern_expected(ty, shape));
            assert(program.include_lines() =~~= pattern_includes(ty, shape));
        },
        Pattern::NegateAdd => {
            program.input(ty, "a", 20);
            program.input(ty, "b", 12);
            program.input(ty, "c", 100);
            program.blank();
            program.check(ty.promoted(), "c - a", 80);
            assert(program.top_lines() =~~= pattern_top(ty, shape));
            assert(program.body_lines() =~~= pattern_body(ty, shape));
            assert(program.expected_values() =~= pattern_expected(ty, shape));
            assert(program.include_lines() =~~= pattern_includes(ty, shape));
        },
        Pattern::Min => {
            program.input(ty, "a", 20);
            program.input(ty, "b", 12);
            program.input(ty, "c", 100);
            program.blank();
            program.check(ty.promoted(), "a < b ? a : b", 12);
            assert(program.top_lines() =~~= pattern_top(ty, shape));
            assert(program.body_lines() =~~= pattern_body(ty, shape));
            assert(program.expected_values() =~= pattern_expected(ty, shape));
            assert(program.include_lines() =~~= pattern_includes(ty, shape));
        },
        Pattern::Max => {
            program.input(ty, "a", 20);
            program.input(ty, "b", 12);
            program.input(ty, "c", 100);
            program.blank();
            program.check(ty.promoted(), "a > b ? a : b", 20);
            assert(program.top_lines() =~~= pattern_top(ty, shape));
            assert(program.body_lines() =~~= pattern_body(ty, shape));
            assert(program.expected_values() =~= pattern_expected(ty, shape));
            assert(program.include_lines() =~~= pattern_includes(ty, shape));
        },
        _ => {},
    }
}

/// Writes some of the shapes.
#[verifier::rlimit(100)]
fn pattern_write_1(program: &mut Program, ty: Ty, shape: Pattern)
    requires
        old(program).top_lines() == Seq::<Seq<char>>::empty(),
        old(program).body_lines() == Seq::<Seq<char>>::empty(),
        old(program).expected_values() == Seq::<int>::empty(),
        old(program).include_lines() == Seq::<Seq<char>>::empty(),
        !old(program).sinks(),
        shape == Pattern::CompareSet || shape == Pattern::MaskLow || shape == Pattern::TestBit || shape == Pattern::RoundDown || shape == Pattern::Average,
    ensures
        final(program).top_lines() == pattern_top(ty, shape),
        final(program).body_lines() == pattern_body(ty, shape),
        final(program).expected_values() == pattern_expected(ty, shape),
        final(program).include_lines() == pattern_includes(ty, shape),
        final(program).sinks() == pattern_sinks(shape),
        final(program).purpose_text() == old(program).purpose_text(),
{
    let c = ty.c_name();
    match shape {
        Pattern::CompareSet => {
            program.input(ty, "a", 20);
            program.input(ty, "b", 12);
            program.input(ty, "c", 100);
            program.blank();
            program.check(ty.promoted(), "(a < b) + (b < c)", 1);
            assert(program.top_lines() =~~= pattern_top(ty, shape));
            assert(program.body_lines() =~~= pattern_body(ty, shape));
            assert(program.expected_values() =~= pattern_expected(ty, shape));
            assert(program.include_lines() =~~= pattern_includes(ty, shape));
        },
        Pattern::MaskLow => {
            program.input(ty, "a", 20);
            program.input(ty, "b", 12);
            program.input(ty, "c", 100);
            program.blank();
            program.check(ty.promoted(), "a & 0xff", 20);
            assert(program.top_lines() =~~= pattern_top(ty, shape));
            assert(program.body_lines() =~~= pattern_body(ty, shape));
            assert(program.expected_values() =~= pattern_expected(ty, shape));
            assert(program.include_lines() =~~= pattern_includes(ty, shape));
        },
        Pattern::TestBit => {
            program.input(ty, "a", 20);
            program.input(ty, "b", 12);
            program.input(ty, "c", 100);
            program.blank();
            program.check(ty.promoted(), "(a >> 2) & 1", 1);
            assert(program.top_lines() =~~= pattern_top(ty, shape));
            assert(program.body_lines() =~~= pattern_body(ty, shape));
            assert(program.expected_values() =~= pattern_expected(ty, shape));
            assert(program.include_lines() =~~= pattern_includes(ty, shape));
        },
        Pattern::RoundDown => {
            program.input(ty, "a", 20);
            program.input(ty, "b", 12);
            program.input(ty, "c", 100);
            program.blank();
            program.check(ty.promoted(), "a & ~(unsigned)7", 16);
            assert(program.top_lines() =~~= pattern_top(ty, shape));
            assert(program.body_lines() =~~= pattern_body(ty, shape));
            assert(program.expected_values() =~= pattern_expected(ty, shape));
            assert(program.include_lines() =~~= pattern_includes(ty, shape));
        },
        Pattern::Average => {
            program.input(ty, "a", 20);
            program.input(ty, "b", 12);
            program.input(ty, "c", 100);
            program.blank();
            program.check(ty.promoted(), "(a >> 1) + (b >> 1)", 16);
            assert(program.top_lines() =~~= pattern_top(ty, shape));
            assert(program.body_lines() =~~= pattern_body(ty, shape));
            assert(program.expected_values() =~= pattern_expected(ty, shape));
            assert(program.include_lines() =~~= pattern_includes(ty, shape));
        },
        _ => {},
    }
}

/// Writes a shape.
fn pattern_write(program: &mut Program, ty: Ty, shape: Pattern)
    requires
        old(program).top_lines() == Seq::<Seq<char>>::empty(),
        old(program).body_lines() == Seq::<Seq<char>>::empty(),
        old(program).expected_values() == Seq::<int>::empty(),
        old(program).include_lines() == Seq::<Seq<char>>::empty(),
        !old(program).sinks(),
    ensures
        final(program).top_lines() == pattern_top(ty, shape),
        final(program).body_lines() == pattern_body(ty, shape),
        final(program).expected_values() == pattern_expected(ty, shape),
        final(program).include_lines() == pattern_includes(ty, shape),
        final(program).sinks() == pattern_sinks(shape),
        final(program).purpose_text() == old(program).purpose_text(),
{
    match shape {
        Pattern::MultiplyAdd | Pattern::ShiftAdd | Pattern::NegateAdd | Pattern::Min | Pattern::Max => {
            pattern_write_0(program, ty, shape);
        },
        Pattern::CompareSet | Pattern::MaskLow | Pattern::TestBit | Pattern::RoundDown | Pattern::Average => {
            pattern_write_1(program, ty, shape);
        },
    }
}

/// Whether a case is the pattern shape at a type, whole.
pub open spec fn is_pattern_case(c: Case, ty: Ty, shape: Pattern) -> bool {
    &&& c.axes_text() == seq![("type"@, ty.name_text()), ("pattern"@, shape.name_text())]
    &&& c.tags_text() == Seq::<Seq<char>>::empty()
    &&& c.program.purpose_text() == "the "@ + shape.name_text() + " pattern on "@ + ty.c_text()
    &&& c.program.include_lines() == pattern_includes(ty, shape)
    &&& c.program.top_lines() == pattern_top(ty, shape)
    &&& c.program.body_lines() == pattern_body(ty, shape)
    &&& c.program.expected_values() == pattern_expected(ty, shape)
    &&& c.program.sinks() == pattern_sinks(shape)
}

/// One pattern shape at one type.
fn pattern_case(ty: Ty, shape: Pattern) -> (r: Case)
    ensures
        is_pattern_case(r, ty, shape),
{
    let mut purpose = String::new();
    purpose.append("the ");
    purpose.append(shape.name());
    purpose.append(" pattern on ");
    purpose.append(ty.c_name());
    let mut program = Program::new(purpose.as_str());
    pattern_write(&mut program, ty, shape);
    let axes = vec![axis("type", ty.name()), axis("pattern", shape.name())];
    let r = Case { axes, tags: tags_for(false), program };
    assert(r.axes_text() =~= seq![("type"@, ty.name_text()), ("pattern"@, shape.name_text())]);
    assert(r.tags_text() =~= Seq::<Seq<char>>::empty());
    r
}

/// Expressions a target usually has one instruction for, on every type at the width of a
/// register.
///
/// Each is several operations in C and one instruction on at least one target, so a compiler
/// that emits the arithmetic literally is correct and slow. The operands are twenty, twelve and
/// a hundred, small enough that nothing overflows on any of the types, and what each program
/// prints is the pattern evaluated on them.
pub fn selection() -> (r: Vec<Case>)
    ensures
        r@.len() == 40,
        forall|k: int|
            0 <= k < 40 ==> is_pattern_case(
                #[trigger] r@[k],
                wide_types()[k / 10],
                patterns_list()[k % 10],
            ),
{
    let types = wide();
    let shapes = patterns_array();
    let mut out: Vec<Case> = Vec::new();
    let mut k: usize = 0;
    while k < 40
        invariant
            k <= 40,
            types@ == wide_types(),
            shapes@ == patterns_list(),
            out@.len() == k,
            forall|i: int|
                0 <= i < k ==> is_pattern_case(
                    #[trigger] out@[i],
                    wide_types()[i / 10],
                    patterns_list()[i % 10],
                ),
        decreases 40 - k,
    {
        out.push(pattern_case(types[k / 10], shapes[k % 10]));
        k += 1;
    }
    out
}

/// Every selection program prints its pattern evaluated on the operands it reads.
pub proof fn lemma_pattern_prints_its_value(ty: Ty, p: Pattern)
    ensures
        pattern_expected(ty, p) == seq![pattern_value(p, 20, 12, 100)],
{
    assert(pattern_expected(ty, p) =~= seq![pattern_value(p, 20, 12, 100)]);
}

} // verus!
