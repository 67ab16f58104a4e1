//! The three things a language runtime asks for that no other facet covers: objects whose
//! size is only known at run time, the widest floating type, and the jump out of a function
//! that never returns from it.
//!
//! None of these is an optimization. Each is a constraint on what the optimizer may do, and a
//! compiler that gets the transformations right and these wrong still fails to build anything
//! real. Nothing here prints a size or a floating value, so no answer depends on the machine.

use vstd::prelude::*;
use vstd::string::*;
use crate::emit::{Program, include_line, input_global, input_read, indent, print_line};
use crate::lang::Ty;
use crate::facets::{Case, axis, gnu_when, tags_for};

use crate::facets::Batch;
verus! {

/// The shapes of an object whose size is learned at run time.
#[derive(Clone, Copy, Debug, PartialEq, Eq, Structural)]
pub enum VlaShape {
    OneDimension,
    TwoDimensions,
    AsAParameter,
    PointerToARow,
    SizeChangesEachTime,
    JumpingOutOfTheScope,
    Alloca,
    AllocaInALoop,
    BothInOneFrame,
}

impl VlaShape {
    /// The axis value.
    pub open spec fn name_text(self) -> Seq<char> {
        match self {
            VlaShape::OneDimension => "one-dimension"@,
            VlaShape::TwoDimensions => "two-dimensions"@,
            VlaShape::AsAParameter => "as-a-parameter"@,
            VlaShape::PointerToARow => "pointer-to-a-row"@,
            VlaShape::SizeChangesEachTime => "size-changes-each-time"@,
            VlaShape::JumpingOutOfTheScope => "jumping-out-of-the-scope"@,
            VlaShape::Alloca => "alloca"@,
            VlaShape::AllocaInALoop => "alloca-in-a-loop"@,
            VlaShape::BothInOneFrame => "both-in-one-frame"@,
        }
    }

    /// The axis value.
    pub fn name(self) -> (r: &'static str)
        ensures
            r@ == self.name_text(),
    {
        match self {
            VlaShape::OneDimension => "one-dimension",
            VlaShape::TwoDimensions => "two-dimensions",
            VlaShape::AsAParameter => "as-a-parameter",
            VlaShape::PointerToARow => "pointer-to-a-row",
            VlaShape::SizeChangesEachTime => "size-changes-each-time",
            VlaShape::JumpingOutOfTheScope => "jumping-out-of-the-scope",
            VlaShape::Alloca => "alloca",
            VlaShape::AllocaInALoop => "alloca-in-a-loop",
            VlaShape::BothInOneFrame => "both-in-one-frame",
        }
    }

    /// Whether the shape needs a GCC extension.
    pub open spec fn is_gnu(self) -> bool {
        self == VlaShape::Alloca || self == VlaShape::AllocaInALoop || self == VlaShape::BothInOneFrame
    }

    /// Whether the shape needs a GCC extension.
    pub fn gnu(self) -> (r: bool)
        ensures
            r == self.is_gnu(),
    {
        self == VlaShape::Alloca || self == VlaShape::AllocaInALoop || self == VlaShape::BothInOneFrame
    }
}

/// The lines before `main` of each shape.
pub open spec fn vla_top(shape: VlaShape) -> Seq<Seq<char>> {
    match shape {
        VlaShape::OneDimension => seq![
            input_global(Ty::I32, "count"@, 6int),
        ],
        VlaShape::TwoDimensions => seq![
            input_global(Ty::I32, "rows"@, 3int),
            input_global(Ty::I32, "cols"@, 4int),
        ],
        VlaShape::AsAParameter => seq![
            "static int corner(int rows, int cols, int grid[rows][cols]) {"@,
            "    return grid[rows - 1][cols - 1];"@,
            "}"@,
            "static int total(int rows, int cols, int grid[rows][cols]) {"@,
            "    int sum = 0;"@,
            "    for (int i = 0; i < rows; i++) {"@,
            "        for (int j = 0; j < cols; j++) {"@,
            "            sum = sum + grid[i][j];"@,
            "        }"@,
            "    }"@,
            "    return sum;"@,
            "}"@,
            input_global(Ty::I32, "rows"@, 3int),
            input_global(Ty::I32, "cols"@, 4int),
        ],
        VlaShape::PointerToARow => seq![
            input_global(Ty::I32, "rows"@, 3int),
            input_global(Ty::I32, "cols"@, 4int),
        ],
        VlaShape::SizeChangesEachTime => seq![
            input_global(Ty::I32, "base"@, 2int),
        ],
        VlaShape::JumpingOutOfTheScope => seq![
            input_global(Ty::I32, "count"@, 4int),
        ],
        VlaShape::Alloca => seq![
            input_global(Ty::I32, "count"@, 8int),
        ],
        VlaShape::AllocaInALoop => seq![
            input_global(Ty::I32, "rounds"@, 4int),
        ],
        VlaShape::BothInOneFrame => seq![
            input_global(Ty::I32, "count"@, 5int),
        ],
    }
}

/// The statements of `main` of each shape.
pub open spec fn vla_body(shape: VlaShape) -> Seq<Seq<char>> {
    match shape {
        VlaShape::OneDimension => seq![
            input_read(Ty::I32, "count"@),
            Seq::<char>::empty(),
            indent(1) + "int values[count];"@,
            indent(1) + "for (int i = 0; i < count; i++) {"@,
            indent(2) + "values[i] = i * i;"@,
            indent(1) + "}"@,
            indent(1) + "int total = 0;"@,
            indent(1) + "for (int i = 0; i < count; i++) {"@,
            indent(2) + "total = total + values[i];"@,
            indent(1) + "}"@,
            Seq::<char>::empty(),
            print_line(1, Ty::I32, "total"@),
            print_line(1, Ty::I32, "values[0] + values[count - 1]"@),
        ],
        VlaShape::TwoDimensions => seq![
            input_read(Ty::I32, "rows"@),
            input_read(Ty::I32, "cols"@),
            Seq::<char>::empty(),
            indent(1) + "int grid[rows][cols];"@,
            indent(1) + "for (int i = 0; i < rows; i++) {"@,
            indent(2) + "for (int j = 0; j < cols; j++) {"@,
            indent(3) + "grid[i][j] = i * 10 + j;"@,
            indent(2) + "}"@,
            indent(1) + "}"@,
            indent(1) + "int total = 0;"@,
            indent(1) + "for (int i = 0; i < rows; i++) {"@,
            indent(2) + "for (int j = 0; j < cols; j++) {"@,
            indent(3) + "total = total + grid[i][j];"@,
            indent(2) + "}"@,
            indent(1) + "}"@,
            Seq::<char>::empty(),
            print_line(1, Ty::I32, "total"@),
            print_line(1, Ty::I32, "grid[2][3]"@),
            print_line(1, Ty::I32, "grid[0][0]"@),
        ],
        VlaShape::AsAParameter => seq![
            input_read(Ty::I32, "rows"@),
            input_read(Ty::I32, "cols"@),
            Seq::<char>::empty(),
            indent(1) + "int grid[rows][cols];"@,
            indent(1) + "for (int i = 0; i < rows; i++) {"@,
            indent(2) + "for (int j = 0; j < cols; j++) {"@,
            indent(3) + "grid[i][j] = i * 10 + j;"@,
            indent(2) + "}"@,
            indent(1) + "}"@,
            Seq::<char>::empty(),
            print_line(1, Ty::I32, "total(rows, cols, grid)"@),
            print_line(1, Ty::I32, "corner(rows, cols, grid)"@),
        ],
        VlaShape::PointerToARow => seq![
            input_read(Ty::I32, "rows"@),
            input_read(Ty::I32, "cols"@),
            Seq::<char>::empty(),
            indent(1) + "int grid[rows][cols];"@,
            indent(1) + "for (int i = 0; i < rows; i++) {"@,
            indent(2) + "for (int j = 0; j < cols; j++) {"@,
            indent(3) + "grid[i][j] = i * 10 + j;"@,
            indent(2) + "}"@,
            indent(1) + "}"@,
            indent(1) + "int (*row)[cols] = grid;"@,
            indent(1) + "int walked = 0;"@,
            indent(1) + "for (int i = 0; i < rows; i++) {"@,
            indent(2) + "walked = walked + (*row)[i];"@,
            indent(2) + "row = row + 1;"@,
            indent(1) + "}"@,
            Seq::<char>::empty(),
            print_line(1, Ty::I32, "walked"@),
        ],
        VlaShape::SizeChangesEachTime => seq![
            input_read(Ty::I32, "base"@),
            Seq::<char>::empty(),
            indent(1) + "int total = 0;"@,
            indent(1) + "for (int round = 0; round < 5; round++) {"@,
            indent(2) + "int room = base + round;"@,
            indent(2) + "int values[room];"@,
            indent(2) + "for (int j = 0; j < room; j++) {"@,
            indent(3) + "values[j] = j + 1;"@,
            indent(2) + "}"@,
            indent(2) + "total = total + values[room - 1];"@,
            indent(1) + "}"@,
            Seq::<char>::empty(),
            print_line(1, Ty::I32, "total"@),
        ],
        VlaShape::JumpingOutOfTheScope => seq![
            input_read(Ty::I32, "count"@),
            Seq::<char>::empty(),
            indent(1) + "int total = 0;"@,
            indent(1) + "for (int round = 0; round < 3; round++) {"@,
            indent(2) + "int values[count + round];"@,
            indent(2) + "for (int j = 0; j < count + round; j++) {"@,
            indent(3) + "values[j] = 1;"@,
            indent(2) + "}"@,
            indent(2) + "total = total + values[0] + values[count + round - 1];"@,
            indent(2) + "if (round == 1) {"@,
            indent(3) + "goto done;"@,
            indent(2) + "}"@,
            indent(1) + "}"@,
            indent(1) + "done:"@,
            Seq::<char>::empty(),
            print_line(1, Ty::I32, "total"@),
        ],
        VlaShape::Alloca => seq![
            input_read(Ty::I32, "count"@),
            Seq::<char>::empty(),
            indent(1) + "unsigned char *room = (unsigned char *)__builtin_alloca(count);"@,
            indent(1) + "for (int i = 0; i < count; i++) {"@,
            indent(2) + "room[i] = (unsigned char)(i * 3);"@,
            indent(1) + "}"@,
            indent(1) + "int total = 0;"@,
            indent(1) + "for (int i = 0; i < count; i++) {"@,
            indent(2) + "total = total + room[i];"@,
            indent(1) + "}"@,
            Seq::<char>::empty(),
            print_line(1, Ty::I32, "total"@),
            print_line(1, Ty::I32, "room[count - 1]"@),
        ],
        VlaShape::AllocaInALoop => seq![
            input_read(Ty::I32, "rounds"@),
            Seq::<char>::empty(),
            indent(1) + "int total = 0;"@,
            indent(1) + "for (int i = 0; i < rounds; i++) {"@,
            indent(2) + "unsigned char *room = (unsigned char *)__builtin_alloca(i + 1);"@,
            indent(2) + "room[i] = (unsigned char)(i + 1);"@,
            indent(2) + "total = total + room[i];"@,
            indent(1) + "}"@,
            Seq::<char>::empty(),
            print_line(1, Ty::I32, "total"@),
        ],
        VlaShape::BothInOneFrame => seq![
            input_read(Ty::I32, "count"@),
            Seq::<char>::empty(),
            indent(1) + "int values[count];"@,
            indent(1) + "unsigned char *room = (unsigned char *)__builtin_alloca(count);"@,
            indent(1) + "for (int i = 0; i < count; i++) {"@,
            indent(2) + "values[i] = i + 1;"@,
            indent(2) + "room[i] = (unsigned char)(i * 2);"@,
            indent(1) + "}"@,
            indent(1) + "int from_array = 0;"@,
            indent(1) + "int from_alloca = 0;"@,
            indent(1) + "for (int i = 0; i < count; i++) {"@,
            indent(2) + "from_array = from_array + values[i];"@,
            indent(2) + "from_alloca = from_alloca + room[i];"@,
            indent(1) + "}"@,
            Seq::<char>::empty(),
            print_line(1, Ty::I32, "from_array"@),
            print_line(1, Ty::I32, "from_alloca"@),
            print_line(1, Ty::I32, "from_array + from_alloca"@),
        ],
    }
}

/// The headers of each shape.
pub open spec fn vla_includes(shape: VlaShape) -> Seq<Seq<char>> {
    match shape {
        VlaShape::OneDimension => Seq::empty(),
        VlaShape::TwoDimensions => Seq::empty(),
        VlaShape::AsAParameter => Seq::empty(),
        VlaShape::PointerToARow => Seq::empty(),
        VlaShape::SizeChangesEachTime => Seq::empty(),
        VlaShape::JumpingOutOfTheScope => Seq::empty(),
        VlaShape::Alloca => Seq::empty(),
        VlaShape::AllocaInALoop => Seq::empty(),
        VlaShape::BothInOneFrame => Seq::empty(),
    }
}

/// What the program prints of each shape.
pub open spec fn vla_expected(shape: VlaShape) -> Seq<int> {
    match shape {
        VlaShape::OneDimension => seq![
            55int,
            25int,
        ],
        VlaShape::TwoDimensions => seq![
            138int,
            23int,
            0int,
        ],
        VlaShape::AsAParameter => seq![
            138int,
            23int,
        ],
        VlaShape::PointerToARow => seq![
            33int,
        ],
        VlaShape::SizeChangesEachTime => seq![
            20int,
        ],
        VlaShape::JumpingOutOfTheScope => seq![
            4int,
        ],
        VlaShape::Alloca => seq![
            84int,
            21int,
        ],
        VlaShape::AllocaInALoop => seq![
            10int,
        ],
        VlaShape::BothInOneFrame => seq![
            15int,
            20int,
            35int,
        ],
    }
}

/// Whether the shape asks for the volatile sink.
pub open spec fn vla_sinks(shape: VlaShape) -> bool {
    match shape {
        VlaShape::OneDimension => false,
        VlaShape::TwoDimensions => false,
        VlaShape::AsAParameter => false,
        VlaShape::PointerToARow => false,
        VlaShape::SizeChangesEachTime => false,
        VlaShape::JumpingOutOfTheScope => false,
        VlaShape::Alloca => false,
        VlaShape::AllocaInALoop => false,
        VlaShape::BothInOneFrame => false,
    }
}

/// Writes the shapes OneDimension, TwoDimensions, AsAParameter.
#[verifier::rlimit(100)]
fn vla_write_0(program: &mut Program, shape: VlaShape)
    requires
        old(program).top_lines() == Seq::<Seq<char>>::empty(),
        old(program).body_lines() == Seq::<Seq<char>>::empty(),
        old(program).expected_values() == Seq::<int>::empty(),
        old(program).include_lines() == Seq::<Seq<char>>::empty(),
        !old(program).sinks(),
        shape == VlaShape::OneDimension || shape == VlaShape::TwoDimensions || shape == VlaShape::AsAParameter,
    ensures
        final(program).top_lines() == vla_top(shape),
        final(program).body_lines() == vla_body(shape),
        final(program).expected_values() == vla_expected(shape),
        final(program).include_lines() == vla_includes(shape),
        final(program).sinks() == vla_sinks(shape),
        final(program).purpose_text() == old(program).purpose_text(),
{
    match shape {
        VlaShape::OneDimension => {
            program.input(Ty::I32, "count", 6);
            program.blank();
            program.line("int values[count];");
            program.line("for (int i = 0; i < count; i++) {");
            program.line_at(1, "values[i] = i * i;");
            program.line("}");
            program.line("int total = 0;");
            program.line("for (int i = 0; i < count; i++) {");
            program.line_at(1, "total = total + values[i];");
            program.line("}");
            program.blank();
            program.check(Ty::I32, "total", 55);
            program.check(Ty::I32, "values[0] + values[count - 1]", 25);
            assert(program.top_lines() =~~= vla_top(shape));
            assert(program.body_lines() =~~= vla_body(shape));
            assert(program.expected_values() =~= vla_expected(shape));
            assert(program.include_lines() =~~= vla_includes(shape));
        },
        VlaShape::TwoDimensions => {
            program.input(Ty::I32, "rows", 3);
            program.input(Ty::I32, "cols", 4);
            program.blank();
            program.line("int grid[rows][cols];");
            program.line("for (int i = 0; i < rows; i++) {");
            program.line_at(1, "for (int j = 0; j < cols; j++) {");
            program.line_at(2, "grid[i][j] = i * 10 + j;");
            program.line_at(1, "}");
            program.line("}");
            program.line("int total = 0;");
            program.line("for (int i = 0; i < rows; i++) {");
            program.line_at(1, "for (int j = 0; j < cols; j++) {");
            program.line_at(2, "total = total + grid[i][j];");
            program.line_at(1, "}");
            program.line("}");
            program.blank();
            program.check(Ty::I32, "total", 138);
            program.check(Ty::I32, "grid[2][3]", 23);
            program.check(Ty::I32, "grid[0][0]", 0);
            assert(program.top_lines() =~~= vla_top(shape));
            assert(program.body_lines() =~~= vla_body(shape));
            assert(program.expected_values() =~= vla_expected(shape));
            assert(program.include_lines() =~~= vla_includes(shape));
        },
        VlaShape::AsAParameter => {
            program.top("static int corner(int rows, int cols, int grid[rows][cols]) {");
            program.top("    return grid[rows - 1][cols - 1];");
            program.top("}");
            program.top("static int total(int rows, int cols, int grid[rows][cols]) {");
            program.top("    int sum = 0;");
            program.top("    for (int i = 0; i < rows; i++) {");
            program.top("        for (int j = 0; j < cols; j++) {");
            program.top("            sum = sum + grid[i][j];");
            program.top("        }");
            program.top("    }");
            program.top("    return sum;");
            program.top("}");
            program.input(Ty::I32, "rows", 3);
            program.input(Ty::I32, "cols", 4);
            program.blank();
            program.line("int grid[rows][cols];");
            program.line("for (int i = 0; i < rows; i++) {");
            program.line_at(1, "for (int j = 0; j < cols; j++) {");
            program.line_at(2, "grid[i][j] = i * 10 + j;");
            program.line_at(1, "}");
            program.line("}");
            program.blank();
            program.check(Ty::I32, "total(rows, cols, grid)", 138);
            program.check(Ty::I32, "corner(rows, cols, grid)", 23);
            assert(program.top_lines() =~~= vla_top(shape));
            assert(program.body_lines() =~~= vla_body(shape));
            assert(program.expected_values() =~= vla_expected(shape));
            assert(program.include_lines() =~~= vla_includes(shape));
        },
        _ => {},
    }
}

/// Writes the shapes PointerToARow, SizeChangesEachTime, JumpingOutOfTheScope.
#[verifier::rlimit(100)]
fn vla_write_1(program: &mut Program, shape: VlaShape)
    requires
        old(program).top_lines() == Seq::<Seq<char>>::empty(),
        old(program).body_lines() == Seq::<Seq<char>>::empty(),
        old(program).expected_values() == Seq::<int>::empty(),
        old(program).include_lines() == Seq::<Seq<char>>::empty(),
        !old(program).sinks(),
        shape == VlaShape::PointerToARow || shape == VlaShape::SizeChangesEachTime || shape == VlaShape::JumpingOutOfTheScope,
    ensures
        final(program).top_lines() == vla_top(shape),
        final(program).body_lines() == vla_body(shape),
        final(program).expected_values() == vla_expected(shape),
        final(program).include_lines() == vla_includes(shape),
        final(program).sinks() == vla_sinks(shape),
        final(program).purpose_text() == old(program).purpose_text(),
{
    match shape {
        VlaShape::PointerToARow => {
            program.input(Ty::I32, "rows", 3);
            program.input(Ty::I32, "cols", 4);
            program.blank();
            program.line("int grid[rows][cols];");
            program.line("for (int i = 0; i < rows; i++) {");
            program.line_at(1, "for (int j = 0; j < cols; j++) {");
            program.line_at(2, "grid[i][j] = i * 10 + j;");
            program.line_at(1, "}");
            program.line("}");
            program.line("int (*row)[cols] = grid;");
            program.line("int walked = 0;");
            program.line("for (int i = 0; i < rows; i++) {");
            program.line_at(1, "walked = walked + (*row)[i];");
            program.line_at(1, "row = row + 1;");
            program.line("}");
            program.blank();
            program.check(Ty::I32, "walked", 33);
            assert(program.top_lines() =~~= vla_top(shape));
            assert(program.body_lines() =~~= vla_body(shape));
            assert(program.expected_values() =~= vla_expected(shape));
            assert(program.include_lines() =~~= vla_includes(shape));
        },
        VlaShape::SizeChangesEachTime => {
            program.input(Ty::I32, "base", 2);
            program.blank();
            program.line("int total = 0;");
            program.line("for (int round = 0; round < 5; round++) {");
            program.line_at(1, "int room = base + round;");
            program.line_at(1, "int values[room];");
            program.line_at(1, "for (int j = 0; j < room; j++) {");
            program.line_at(2, "values[j] = j + 1;");
            program.line_at(1, "}");
            program.line_at(1, "total = total + values[room - 1];");
            program.line("}");
            program.blank();
            program.check(Ty::I32, "total", 20);
            assert(program.top_lines() =~~= vla_top(shape));
            assert(program.body_lines() =~~= vla_body(shape));
            assert(program.expected_values() =~= vla_expected(shape));
            assert(program.include_lines() =~~= vla_includes(shape));
        },
        VlaShape::JumpingOutOfTheScope => {
            program.input(Ty::I32, "count", 4);
            program.blank();
            program.line("int total = 0;");
            program.line("for (int round = 0; round < 3; round++) {");
            program.line_at(1, "int values[count + round];");
            program.line_at(1, "for (int j = 0; j < count + round; j++) {");
            program.line_at(2, "values[j] = 1;");
            program.line_at(1, "}");
            program.line_at(1, "total = total + values[0] + values[count + round - 1];");
            program.line_at(1, "if (round == 1) {");
            program.line_at(2, "goto done;");
            program.line_at(1, "}");
            program.line("}");
            program.line("done:");
            program.blank();
            program.check(Ty::I32, "total", 4);
            assert(program.top_lines() =~~= vla_top(shape));
            assert(program.body_lines() =~~= vla_body(shape));
            assert(program.expected_values() =~= vla_expected(shape));
            assert(program.include_lines() =~~= vla_includes(shape));
        },
        _ => {},
    }
}

/// Writes the shapes Alloca, AllocaInALoop, BothInOneFrame.
#[verifier::rlimit(100)]
fn vla_write_2(program: &mut Program, shape: VlaShape)
    requires
        old(program).top_lines() == Seq::<Seq<char>>::empty(),
        old(program).body_lines() == Seq::<Seq<char>>::empty(),
        old(program).expected_values() == Seq::<int>::empty(),
        old(program).include_lines() == Seq::<Seq<char>>::empty(),
        !old(program).sinks(),
        shape == VlaShape::Alloca || shape == VlaShape::AllocaInALoop || shape == VlaShape::BothInOneFrame,
    ensures
        final(program).top_lines() == vla_top(shape),
        final(program).body_lines() == vla_body(shape),
        final(program).expected_values() == vla_expected(shape),
        final(program).include_lines() == vla_includes(shape),
        final(program).sinks() == vla_sinks(shape),
        final(program).purpose_text() == old(program).purpose_text(),
{
    match shape {
        VlaShape::Alloca => {
            program.input(Ty::I32, "count", 8);
            program.blank();
            program.line("unsigned char *room = (unsigned char *)__builtin_alloca(count);");
            program.line("for (int i = 0; i < count; i++) {");
            program.line_at(1, "room[i] = (unsigned char)(i * 3);");
            program.line("}");
            program.line("int total = 0;");
            program.line("for (int i = 0; i < count; i++) {");
            program.line_at(1, "total = total + room[i];");
            program.line("}");
            program.blank();
            program.check(Ty::I32, "total", 84);
            program.check(Ty::I32, "room[count - 1]", 21);
            assert(program.top_lines() =~~= vla_top(shape));
            assert(program.body_lines() =~~= vla_body(shape));
            assert(program.expected_values() =~= vla_expected(shape));
            assert(program.include_lines() =~~= vla_includes(shape));
        },
        VlaShape::AllocaInALoop => {
            program.input(Ty::I32, "rounds", 4);
            program.blank();
            program.line("int total = 0;");
            program.line("for (int i = 0; i < rounds; i++) {");
            program.line_at(1, "unsigned char *room = (unsigned char *)__builtin_alloca(i + 1);");
            program.line_at(1, "room[i] = (unsigned char)(i + 1);");
            program.line_at(1, "total = total + room[i];");
            program.line("}");
            program.blank();
            program.check(Ty::I32, "total", 10);
            assert(program.top_lines() =~~= vla_top(shape));
            assert(program.body_lines() =~~= vla_body(shape));
            assert(program.expected_values() =~= vla_expected(shape));
            assert(program.include_lines() =~~= vla_includes(shape));
        },
        VlaShape::BothInOneFrame => {
            program.input(Ty::I32, "count", 5);
            program.blank();
            program.line("int values[count];");
            program.line("unsigned char *room = (unsigned char *)__builtin_alloca(count);");
            program.line("for (int i = 0; i < count; i++) {");
            program.line_at(1, "values[i] = i + 1;");
            program.line_at(1, "room[i] = (unsigned char)(i * 2);");
            program.line("}");
            program.line("int from_array = 0;");
            program.line("int from_alloca = 0;");
            program.line("for (int i = 0; i < count; i++) {");
            program.line_at(1, "from_array = from_array + values[i];");
            program.line_at(1, "from_alloca = from_alloca + room[i];");
            program.line("}");
            program.blank();
            program.check(Ty::I32, "from_array", 15);
            program.check(Ty::I32, "from_alloca", 20);
            program.check(Ty::I32, "from_array + from_alloca", 35);
            assert(program.top_lines() =~~= vla_top(shape));
            assert(program.body_lines() =~~= vla_body(shape));
            assert(program.expected_values() =~= vla_expected(shape));
            assert(program.include_lines() =~~= vla_includes(shape));
        },
        _ => {},
    }
}

/// Writes a shape.
fn vla_write(program: &mut Program, shape: VlaShape)
    requires
        old(program).top_lines() == Seq::<Seq<char>>::empty(),
        old(program).body_lines() == Seq::<Seq<char>>::empty(),
        old(program).expected_values() == Seq::<int>::empty(),
        old(program).include_lines() == Seq::<Seq<char>>::empty(),
        !old(program).sinks(),
    ensures
        final(program).top_lines() == vla_top(shape),
        final(program).body_lines() == vla_body(shape),
        final(program).expected_values() == vla_expected(shape),
        final(program).include_lines() == vla_includes(shape),
        final(program).sinks() == vla_sinks(shape),
        final(program).purpose_text() == old(program).purpose_text(),
{
    match shape {
        VlaShape::OneDimension | VlaShape::TwoDimensions | VlaShape::AsAParameter => {
            vla_write_0(program, shape);
        },
        VlaShape::PointerToARow | VlaShape::SizeChangesEachTime | VlaShape::JumpingOutOfTheScope => {
            vla_write_1(program, shape);
        },
        VlaShape::Alloca | VlaShape::AllocaInALoop | VlaShape::BothInOneFrame => {
            vla_write_2(program, shape);
        },
    }
}

/// The shapes of a jump out of a function that never returns from it.
#[derive(Clone, Copy, Debug, PartialEq, Eq, Structural)]
pub enum JumpShape {
    TheValueComesBack,
    ZeroBecomesOne,
    VolatileSurvives,
    UnchangedLocalsSurvive,
    ARetryLoop,
    OutOfNestedFrames,
    PastAnInnerHandler,
    StoresAreNotSunk,
}

impl JumpShape {
    /// The axis value.
    pub open spec fn name_text(self) -> Seq<char> {
        match self {
            JumpShape::TheValueComesBack => "the-value-comes-back"@,
            JumpShape::ZeroBecomesOne => "zero-becomes-one"@,
            JumpShape::VolatileSurvives => "volatile-survives"@,
            JumpShape::UnchangedLocalsSurvive => "unchanged-locals-survive"@,
            JumpShape::ARetryLoop => "a-retry-loop"@,
            JumpShape::OutOfNestedFrames => "out-of-nested-frames"@,
            JumpShape::PastAnInnerHandler => "past-an-inner-handler"@,
            JumpShape::StoresAreNotSunk => "stores-are-not-sunk"@,
        }
    }

    /// The axis value.
    pub fn name(self) -> (r: &'static str)
        ensures
            r@ == self.name_text(),
    {
        match self {
            JumpShape::TheValueComesBack => "the-value-comes-back",
            JumpShape::ZeroBecomesOne => "zero-becomes-one",
            JumpShape::VolatileSurvives => "volatile-survives",
            JumpShape::UnchangedLocalsSurvive => "unchanged-locals-survive",
            JumpShape::ARetryLoop => "a-retry-loop",
            JumpShape::OutOfNestedFrames => "out-of-nested-frames",
            JumpShape::PastAnInnerHandler => "past-an-inner-handler",
            JumpShape::StoresAreNotSunk => "stores-are-not-sunk",
        }
    }

    /// The axis value with its words apart, for the purpose line.
    pub open spec fn words_text(self) -> Seq<char> {
        match self {
            JumpShape::TheValueComesBack => "the value comes back"@,
            JumpShape::ZeroBecomesOne => "zero becomes one"@,
            JumpShape::VolatileSurvives => "volatile survives"@,
            JumpShape::UnchangedLocalsSurvive => "unchanged locals survive"@,
            JumpShape::ARetryLoop => "a retry loop"@,
            JumpShape::OutOfNestedFrames => "out of nested frames"@,
            JumpShape::PastAnInnerHandler => "past an inner handler"@,
            JumpShape::StoresAreNotSunk => "stores are not sunk"@,
        }
    }

    /// The axis value with its words apart.
    pub fn words(self) -> (r: &'static str)
        ensures
            r@ == self.words_text(),
    {
        match self {
            JumpShape::TheValueComesBack => "the value comes back",
            JumpShape::ZeroBecomesOne => "zero becomes one",
            JumpShape::VolatileSurvives => "volatile survives",
            JumpShape::UnchangedLocalsSurvive => "unchanged locals survive",
            JumpShape::ARetryLoop => "a retry loop",
            JumpShape::OutOfNestedFrames => "out of nested frames",
            JumpShape::PastAnInnerHandler => "past an inner handler",
            JumpShape::StoresAreNotSunk => "stores are not sunk",
        }
    }
}

/// The lines before `main` of each shape.
pub open spec fn jump_top(shape: JumpShape) -> Seq<Seq<char>> {
    match shape {
        JumpShape::TheValueComesBack => seq![
            "static jmp_buf home;"@,
            "static volatile int arrivals;"@,
        ],
        JumpShape::ZeroBecomesOne => seq![
            "static jmp_buf home;"@,
        ],
        JumpShape::VolatileSurvives => seq![
            "static jmp_buf home;"@,
        ],
        JumpShape::UnchangedLocalsSurvive => seq![
            "static jmp_buf home;"@,
            "static volatile int noise = 2;"@,
        ],
        JumpShape::ARetryLoop => seq![
            "static jmp_buf home;"@,
            "static void fail_at(int step) { longjmp(home, step); }"@,
        ],
        JumpShape::OutOfNestedFrames => seq![
            "static jmp_buf home;"@,
            "static volatile int trail;"@,
            "static void third(void) {"@,
            "    trail = trail * 10 + 3;"@,
            "    longjmp(home, 5);"@,
            "}"@,
            "static void second(void) {"@,
            "    trail = trail * 10 + 2;"@,
            "    third();"@,
            "    trail = trail * 10 + 9;"@,
            "}"@,
            "static void first(void) {"@,
            "    trail = trail * 10 + 1;"@,
            "    second();"@,
            "    trail = trail * 10 + 8;"@,
            "}"@,
        ],
        JumpShape::PastAnInnerHandler => seq![
            "static jmp_buf outer;"@,
            "static jmp_buf inner;"@,
            "static volatile int trail;"@,
        ],
        JumpShape::StoresAreNotSunk => seq![
            "static jmp_buf home;"@,
            "static volatile int port;"@,
            "static void raise_it(void) { longjmp(home, 3); }"@,
        ],
    }
}

/// The statements of `main` of each shape.
pub open spec fn jump_body(shape: JumpShape) -> Seq<Seq<char>> {
    match shape {
        JumpShape::TheValueComesBack => seq![
            Seq::<char>::empty(),
            indent(1) + "volatile int answer = 0;"@,
            indent(1) + "switch (setjmp(home)) {"@,
            indent(1) + "case 0:"@,
            indent(2) + "arrivals = arrivals + 1;"@,
            indent(2) + "longjmp(home, 7);"@,
            indent(2) + "break;"@,
            indent(1) + "case 7:"@,
            indent(2) + "answer = 70;"@,
            indent(2) + "break;"@,
            indent(1) + "default:"@,
            indent(2) + "answer = -1;"@,
            indent(2) + "break;"@,
            indent(1) + "}"@,
            Seq::<char>::empty(),
            print_line(1, Ty::I32, "arrivals"@),
            print_line(1, Ty::I32, "answer"@),
        ],
        JumpShape::ZeroBecomesOne => seq![
            Seq::<char>::empty(),
            indent(1) + "volatile int answer = -1;"@,
            indent(1) + "switch (setjmp(home)) {"@,
            indent(1) + "case 0:"@,
            indent(2) + "longjmp(home, 0);"@,
            indent(2) + "break;"@,
            indent(1) + "case 1:"@,
            indent(2) + "answer = 1;"@,
            indent(2) + "break;"@,
            indent(1) + "default:"@,
            indent(2) + "answer = 99;"@,
            indent(2) + "break;"@,
            indent(1) + "}"@,
            Seq::<char>::empty(),
            print_line(1, Ty::I32, "answer"@),
        ],
        JumpShape::VolatileSurvives => seq![
            Seq::<char>::empty(),
            indent(1) + "volatile int counter = 0;"@,
            indent(1) + "counter = counter + 10;"@,
            indent(1) + "if (setjmp(home) == 0) {"@,
            indent(2) + "counter = counter + 5;"@,
            indent(2) + "longjmp(home, 1);"@,
            indent(1) + "}"@,
            Seq::<char>::empty(),
            print_line(1, Ty::I32, "counter"@),
        ],
        JumpShape::UnchangedLocalsSurvive => seq![
            Seq::<char>::empty(),
            indent(1) + "int fixed = 40;"@,
            indent(1) + "volatile int answer = 0;"@,
            indent(1) + "if (setjmp(home) == 0) {"@,
            indent(2) + "longjmp(home, 1);"@,
            indent(1) + "}"@,
            indent(1) + "answer = fixed + noise;"@,
            Seq::<char>::empty(),
            print_line(1, Ty::I32, "answer"@),
            print_line(1, Ty::I32, "fixed"@),
        ],
        JumpShape::ARetryLoop => seq![
            Seq::<char>::empty(),
            indent(1) + "volatile int attempts = 0;"@,
            indent(1) + "volatile int recoveries = 0;"@,
            indent(1) + "if (setjmp(home) != 0) {"@,
            indent(2) + "recoveries = recoveries + 1;"@,
            indent(1) + "}"@,
            indent(1) + "attempts = attempts + 1;"@,
            indent(1) + "if (attempts < 4) {"@,
            indent(2) + "fail_at(attempts);"@,
            indent(1) + "}"@,
            Seq::<char>::empty(),
            print_line(1, Ty::I32, "attempts"@),
            print_line(1, Ty::I32, "recoveries"@),
        ],
        JumpShape::OutOfNestedFrames => seq![
            Seq::<char>::empty(),
            indent(1) + "volatile int answer = 0;"@,
            indent(1) + "if (setjmp(home) == 0) {"@,
            indent(2) + "first();"@,
            indent(2) + "trail = trail * 10 + 7;"@,
            indent(1) + "} else {"@,
            indent(2) + "answer = 5;"@,
            indent(1) + "}"@,
            Seq::<char>::empty(),
            print_line(1, Ty::I32, "trail"@),
            print_line(1, Ty::I32, "answer"@),
        ],
        JumpShape::PastAnInnerHandler => seq![
            Seq::<char>::empty(),
            indent(1) + "volatile int answer = 0;"@,
            indent(1) + "if (setjmp(outer) == 0) {"@,
            indent(2) + "if (setjmp(inner) == 0) {"@,
            indent(3) + "trail = trail * 10 + 1;"@,
            indent(3) + "longjmp(outer, 2);"@,
            indent(2) + "}"@,
            indent(2) + "trail = trail * 10 + 9;"@,
            indent(1) + "} else {"@,
            indent(2) + "answer = 2;"@,
            indent(1) + "}"@,
            Seq::<char>::empty(),
            print_line(1, Ty::I32, "trail"@),
            print_line(1, Ty::I32, "answer"@),
        ],
        JumpShape::StoresAreNotSunk => seq![
            Seq::<char>::empty(),
            indent(1) + "volatile int answer = 0;"@,
            indent(1) + "if (setjmp(home) == 0) {"@,
            indent(2) + "port = 11;"@,
            indent(2) + "raise_it();"@,
            indent(2) + "port = 22;"@,
            indent(1) + "} else {"@,
            indent(2) + "answer = port;"@,
            indent(1) + "}"@,
            Seq::<char>::empty(),
            print_line(1, Ty::I32, "port"@),
            print_line(1, Ty::I32, "answer"@),
        ],
    }
}

/// The headers of each shape.
pub open spec fn jump_includes(shape: JumpShape) -> Seq<Seq<char>> {
    match shape {
        JumpShape::TheValueComesBack => Seq::empty(),
        JumpShape::ZeroBecomesOne => Seq::empty(),
        JumpShape::VolatileSurvives => Seq::empty(),
        JumpShape::UnchangedLocalsSurvive => Seq::empty(),
        JumpShape::ARetryLoop => Seq::empty(),
        JumpShape::OutOfNestedFrames => Seq::empty(),
        JumpShape::PastAnInnerHandler => Seq::empty(),
        JumpShape::StoresAreNotSunk => Seq::empty(),
    }
}

/// What the program prints of each shape.
pub open spec fn jump_expected(shape: JumpShape) -> Seq<int> {
    match shape {
        JumpShape::TheValueComesBack => seq![
            1int,
            70int,
        ],
        JumpShape::ZeroBecomesOne => seq![
            1int,
        ],
        JumpShape::VolatileSurvives => seq![
            15int,
        ],
        JumpShape::UnchangedLocalsSurvive => seq![
            42int,
            40int,
        ],
        JumpShape::ARetryLoop => seq![
            4int,
            3int,
        ],
        JumpShape::OutOfNestedFrames => seq![
            123int,
            5int,
        ],
        JumpShape::PastAnInnerHandler => seq![
            1int,
            2int,
        ],
        JumpShape::StoresAreNotSunk => seq![
            11int,
            11int,
        ],
    }
}

/// Whether the shape asks for the volatile sink.
pub open spec fn jump_sinks(shape: JumpShape) -> bool {
    match shape {
        JumpShape::TheValueComesBack => false,
        JumpShape::ZeroBecomesOne => false,
        JumpShape::VolatileSurvives => false,
        JumpShape::UnchangedLocalsSurvive => false,
        JumpShape::ARetryLoop => false,
        JumpShape::OutOfNestedFrames => false,
        JumpShape::PastAnInnerHandler => false,
        JumpShape::StoresAreNotSunk => false,
    }
}

/// Writes the shapes TheValueComesBack, ZeroBecomesOne, VolatileSurvives.
#[verifier::rlimit(100)]
fn jump_write_0(program: &mut Program, shape: JumpShape)
    requires
        old(program).top_lines() == Seq::<Seq<char>>::empty(),
        old(program).body_lines() == Seq::<Seq<char>>::empty(),
        old(program).expected_values() == Seq::<int>::empty(),
        old(program).include_lines() == Seq::<Seq<char>>::empty(),
        !old(program).sinks(),
        shape == JumpShape::TheValueComesBack || shape == JumpShape::ZeroBecomesOne || shape == JumpShape::VolatileSurvives,
    ensures
        final(program).top_lines() == jump_top(shape),
        final(program).body_lines() == jump_body(shape),
        final(program).expected_values() == jump_expected(shape),
        final(program).include_lines() == jump_includes(shape),
        final(program).sinks() == jump_sinks(shape),
        final(program).purpose_text() == old(program).purpose_text(),
{
    match shape {
        JumpShape::TheValueComesBack => {
            program.top("static jmp_buf home;");
            program.top("static volatile int arrivals;");
            program.blank();
            program.line("volatile int answer = 0;");
            program.line("switch (setjmp(home)) {");
            program.line("case 0:");
            program.line_at(1, "arrivals = arrivals + 1;");
            program.line_at(1, "longjmp(home, 7);");
            program.line_at(1, "break;");
            program.line("case 7:");
            program.line_at(1, "answer = 70;");
            program.line_at(1, "break;");
            program.line("default:");
            program.line_at(1, "answer = -1;");
            program.line_at(1, "break;");
            program.line("}");
            program.blank();
            program.check(Ty::I32, "arrivals", 1);
            program.check(Ty::I32, "answer", 70);
            assert(program.top_lines() =~~= jump_top(shape));
            assert(program.body_lines() =~~= jump_body(shape));
            assert(program.expected_values() =~= jump_expected(shape));
            assert(program.include_lines() =~~= jump_includes(shape));
        },
        JumpShape::ZeroBecomesOne => {
            program.top("static jmp_buf home;");
            program.blank();
            program.line("volatile int answer = -1;");
            program.line("switch (setjmp(home)) {");
            program.line("case 0:");
            program.line_at(1, "longjmp(home, 0);");
            program.line_at(1, "break;");
            program.line("case 1:");
            program.line_at(1, "answer = 1;");
            program.line_at(1, "break;");
            program.line("default:");
            program.line_at(1, "answer = 99;");
            program.line_at(1, "break;");
            program.line("}");
            program.blank();
            program.check(Ty::I32, "answer", 1);
            assert(program.top_lines() =~~= jump_top(shape));
            assert(program.body_lines() =~~= jump_body(shape));
            assert(program.expected_values() =~= jump_expected(shape));
            assert(program.include_lines() =~~= jump_includes(shape));
        },
        JumpShape::VolatileSurvives => {
            program.top("static jmp_buf home;");
            program.blank();
            program.line("volatile int counter = 0;");
            program.line("counter = counter + 10;");
            program.line("if (setjmp(home) == 0) {");
            program.line_at(1, "counter = counter + 5;");
            program.line_at(1, "longjmp(home, 1);");
            program.line("}");
            program.blank();
            program.check(Ty::I32, "counter", 15);
            assert(program.top_lines() =~~= jump_top(shape));
            assert(program.body_lines() =~~= jump_body(shape));
            assert(program.expected_values() =~= jump_expected(shape));
            assert(program.include_lines() =~~= jump_includes(shape));
        },
        _ => {},
    }
}

/// Writes the shapes UnchangedLocalsSurvive, ARetryLoop, OutOfNestedFrames.
#[verifier::rlimit(100)]
fn jump_write_1(program: &mut Program, shape: JumpShape)
    requires
        old(program).top_lines() == Seq::<Seq<char>>::empty(),
        old(program).body_lines() == Seq::<Seq<char>>::empty(),
        old(program).expected_values() == Seq::<int>::empty(),
        old(program).include_lines() == Seq::<Seq<char>>::empty(),
        !old(program).sinks(),
        shape == JumpShape::UnchangedLocalsSurvive || shape == JumpShape::ARetryLoop || shape == JumpShape::OutOfNestedFrames,
    ensures
        final(program).top_lines() == jump_top(shape),
        final(program).body_lines() == jump_body(shape),
        final(program).expected_values() == jump_expected(shape),
        final(program).include_lines() == jump_includes(shape),
        final(program).sinks() == jump_sinks(shape),
        final(program).purpose_text() == old(program).purpose_text(),
{
    match shape {
        JumpShape::UnchangedLocalsSurvive => {
            program.top("static jmp_buf home;");
            program.top("static volatile int noise = 2;");
            program.blank();
            program.line("int fixed = 40;");
            program.line("volatile int answer = 0;");
            program.line("if (setjmp(home) == 0) {");
            program.line_at(1, "longjmp(home, 1);");
            program.line("}");
            program.line("answer = fixed + noise;");
            program.blank();
            program.check(Ty::I32, "answer", 42);
            program.check(Ty::I32, "fixed", 40);
            assert(program.top_lines() =~~= jump_top(shape));
            assert(program.body_lines() =~~= jump_body(shape));
            assert(program.expected_values() =~= jump_expected(shape));
            assert(program.include_lines() =~~= jump_includes(shape));
        },
        JumpShape::ARetryLoop => {
            program.top("static jmp_buf home;");
            program.top("static void fail_at(int step) { longjmp(home, step); }");
            program.blank();
            program.line("volatile int attempts = 0;");
            program.line("volatile int recoveries = 0;");
            program.line("if (setjmp(home) != 0) {");
            program.line_at(1, "recoveries = recoveries + 1;");
            program.line("}");
            program.line("attempts = attempts + 1;");
            program.line("if (attempts < 4) {");
            program.line_at(1, "fail_at(attempts);");
            program.line("}");
            program.blank();
            program.check(Ty::I32, "attempts", 4);
            program.check(Ty::I32, "recoveries", 3);
            assert(program.top_lines() =~~= jump_top(shape));
            assert(program.body_lines() =~~= jump_body(shape));
            assert(program.expected_values() =~= jump_expected(shape));
            assert(program.include_lines() =~~= jump_includes(shape));
        },
        JumpShape::OutOfNestedFrames => {
            program.top("static jmp_buf home;");
            program.top("static volatile int trail;");
            program.top("static void third(void) {");
            program.top("    trail = trail * 10 + 3;");
            program.top("    longjmp(home, 5);");
            program.top("}");
            program.top("static void second(void) {");
            program.top("    trail = trail * 10 + 2;");
            program.top("    third();");
            program.top("    trail = trail * 10 + 9;");
            program.top("}");
            program.top("static void first(void) {");
            program.top("    trail = trail * 10 + 1;");
            program.top("    second();");
            program.top("    trail = trail * 10 + 8;");
            program.top("}");
            program.blank();
            program.line("volatile int answer = 0;");
            program.line("if (setjmp(home) == 0) {");
            program.line_at(1, "first();");
            program.line_at(1, "trail = trail * 10 + 7;");
            program.line("} else {");
            program.line_at(1, "answer = 5;");
            program.line("}");
            program.blank();
            program.check(Ty::I32, "trail", 123);
            program.check(Ty::I32, "answer", 5);
            assert(program.top_lines() =~~= jump_top(shape));
            assert(program.body_lines() =~~= jump_body(shape));
            assert(program.expected_values() =~= jump_expected(shape));
            assert(program.include_lines() =~~= jump_includes(shape));
        },
        _ => {},
    }
}

/// Writes the shapes PastAnInnerHandler, StoresAreNotSunk.
#[verifier::rlimit(100)]
fn jump_write_2(program: &mut Program, shape: JumpShape)
    requires
        old(program).top_lines() == Seq::<Seq<char>>::empty(),
        old(program).body_lines() == Seq::<Seq<char>>::empty(),
        old(program).expected_values() == Seq::<int>::empty(),
        old(program).include_lines() == Seq::<Seq<char>>::empty(),
        !old(program).sinks(),
        shape == JumpShape::PastAnInnerHandler || shape == JumpShape::StoresAreNotSunk,
    ensures
        final(program).top_lines() == jump_top(shape),
        final(program).body_lines() == jump_body(shape),
        final(program).expected_values() == jump_expected(shape),
        final(program).include_lines() == jump_includes(shape),
        final(program).sinks() == jump_sinks(shape),
        final(program).purpose_text() == old(program).purpose_text(),
{
    match shape {
        JumpShape::PastAnInnerHandler => {
            program.top("static jmp_buf outer;");
            program.top("static jmp_buf inner;");
            program.top("static volatile int trail;");
            program.blank();
            program.line("volatile int answer = 0;");
            program.line("if (setjmp(outer) == 0) {");
            program.line_at(1, "if (setjmp(inner) == 0) {");
            program.line_at(2, "trail = trail * 10 + 1;");
            program.line_at(2, "longjmp(outer, 2);");
            program.line_at(1, "}");
            program.line_at(1, "trail = trail * 10 + 9;");
            program.line("} else {");
            program.line_at(1, "answer = 2;");
            program.line("}");
            program.blank();
            program.check(Ty::I32, "trail", 1);
            program.check(Ty::I32, "answer", 2);
            assert(program.top_lines() =~~= jump_top(shape));
            assert(program.body_lines() =~~= jump_body(shape));
            assert(program.expected_values() =~= jump_expected(shape));
            assert(program.include_lines() =~~= jump_includes(shape));
        },
        JumpShape::StoresAreNotSunk => {
            program.top("static jmp_buf home;");
            program.top("static volatile int port;");
            program.top("static void raise_it(void) { longjmp(home, 3); }");
            program.blank();
            program.line("volatile int answer = 0;");
            program.line("if (setjmp(home) == 0) {");
            program.line_at(1, "port = 11;");
            program.line_at(1, "raise_it();");
            program.line_at(1, "port = 22;");
            program.line("} else {");
            program.line_at(1, "answer = port;");
            program.line("}");
            program.blank();
            program.check(Ty::I32, "port", 11);
            program.check(Ty::I32, "answer", 11);
            assert(program.top_lines() =~~= jump_top(shape));
            assert(program.body_lines() =~~= jump_body(shape));
            assert(program.expected_values() =~= jump_expected(shape));
            assert(program.include_lines() =~~= jump_includes(shape));
        },
        _ => {},
    }
}

/// Writes a shape.
fn jump_write(program: &mut Program, shape: JumpShape)
    requires
        old(program).top_lines() == Seq::<Seq<char>>::empty(),
        old(program).body_lines() == Seq::<Seq<char>>::empty(),
        old(program).expected_values() == Seq::<int>::empty(),
        old(program).include_lines() == Seq::<Seq<char>>::empty(),
        !old(program).sinks(),
    ensures
        final(program).top_lines() == jump_top(shape),
        final(program).body_lines() == jump_body(shape),
        final(program).expected_values() == jump_expected(shape),
        final(program).include_lines() == jump_includes(shape),
        final(program).sinks() == jump_sinks(shape),
        final(program).purpose_text() == old(program).purpose_text(),
{
    match shape {
        JumpShape::TheValueComesBack | JumpShape::ZeroBecomesOne | JumpShape::VolatileSurvives => {
            jump_write_0(program, shape);
        },
        JumpShape::UnchangedLocalsSurvive | JumpShape::ARetryLoop | JumpShape::OutOfNestedFrames => {
            jump_write_1(program, shape);
        },
        JumpShape::PastAnInnerHandler | JumpShape::StoresAreNotSunk => {
            jump_write_2(program, shape);
        },
    }
}

/// Whether a case is the run time sized object shape, whole.
pub open spec fn is_vla_case(c: Case, shape: VlaShape) -> bool {
    &&& c.axes_text() == seq![("shape"@, shape.name_text())]
    &&& c.tags_text() == gnu_when(shape.is_gnu())
    &&& c.program.purpose_text() == "a run time sized object, "@ + shape.name_text()
    &&& c.program.include_lines() == vla_includes(shape)
    &&& c.program.top_lines() == vla_top(shape)
    &&& c.program.body_lines() == vla_body(shape)
    &&& c.program.expected_values() == vla_expected(shape)
    &&& c.program.sinks() == vla_sinks(shape)
}

/// One run time sized object shape.
fn vla_case(shape: VlaShape) -> (r: Case)
    ensures
        is_vla_case(r, shape),
{
    let mut purpose = String::from_str("a run time sized object, ");
    purpose.append(shape.name());
    let mut program = Program::new(purpose.as_str());
    vla_write(&mut program, shape);
    let axes = vec![axis("shape", shape.name())];
    let r = Case { axes, tags: tags_for(shape.gnu()), program };
    assert(r.axes_text() =~= seq![("shape"@, shape.name_text())]);
    r
}

/// The run time sized object shapes, in the order the facet walks them.
pub open spec fn vla_shapes() -> Seq<VlaShape> {
    seq![
        VlaShape::OneDimension,
        VlaShape::TwoDimensions,
        VlaShape::AsAParameter,
        VlaShape::PointerToARow,
        VlaShape::SizeChangesEachTime,
        VlaShape::JumpingOutOfTheScope,
        VlaShape::Alloca,
        VlaShape::AllocaInALoop,
        VlaShape::BothInOneFrame,
    ]
}

/// Objects whose size the compiler learns at run time.
///
/// Every bound comes out of a `volatile` global, so the size really is unknown to the
/// optimizer rather than a constant it can fold back into an ordinary array. Nothing prints a
/// size: a case proves the object was laid out correctly by reading back what it wrote to
/// both ends of it. The `alloca` shapes need a GCC extension and say so with the `gnu` tag.
pub fn vla_and_alloca() -> (r: Vec<Case>)
    ensures
        r@.len() == 9,
        forall|k: int| 0 <= k < 9 ==> is_vla_case(#[trigger] r@[k], vla_shapes()[k]),
{
    let shapes = [
        VlaShape::OneDimension,
        VlaShape::TwoDimensions,
        VlaShape::AsAParameter,
        VlaShape::PointerToARow,
        VlaShape::SizeChangesEachTime,
        VlaShape::JumpingOutOfTheScope,
        VlaShape::Alloca,
        VlaShape::AllocaInALoop,
        VlaShape::BothInOneFrame,
    ];
    assert(shapes@ =~= vla_shapes());
    let mut out: Vec<Case> = Vec::new();
    let mut k: usize = 0;
    while k < 9
        invariant
            k <= 9,
            shapes@ == vla_shapes(),
            out@.len() == k,
            forall|i: int| 0 <= i < k ==> is_vla_case(#[trigger] out@[i], vla_shapes()[i]),
        decreases 9 - k,
    {
        out.push(vla_case(shapes[k]));
        k += 1;
    }
    out
}

/// Whether a case is the jump shape, whole.
pub open spec fn is_jump_case(c: Case, shape: JumpShape) -> bool {
    &&& c.axes_text() == seq![("shape"@, shape.name_text())]
    &&& c.tags_text() == seq!["headers"@]
    &&& c.program.purpose_text() == "setjmp and longjmp, "@ + shape.words_text()
    &&& c.program.include_lines() == seq![include_line("setjmp.h"@)]
    &&& c.program.top_lines() == jump_top(shape)
    &&& c.program.body_lines() == jump_body(shape)
    &&& c.program.expected_values() == jump_expected(shape)
    &&& c.program.sinks() == jump_sinks(shape)
}

/// One jump shape.
fn jump_case(shape: JumpShape) -> (r: Case)
    ensures
        is_jump_case(r, shape),
{
    let mut purpose = String::from_str("setjmp and longjmp, ");
    purpose.append(shape.words());
    let mut program = Program::new(purpose.as_str());
    jump_write(&mut program, shape);
    program.include_header("setjmp.h");
    assert(program.include_lines() =~= seq![include_line("setjmp.h"@)]);
    let axes = vec![axis("shape", shape.name())];
    let tags = vec![String::from_str("headers")];
    let r = Case { axes, tags, program };
    assert(r.axes_text() =~= seq![("shape"@, shape.name_text())]);
    assert(r.tags_text() =~= seq!["headers"@]);
    r
}

/// The jump shapes, in the order the facet walks them.
pub open spec fn jump_shapes() -> Seq<JumpShape> {
    seq![
        JumpShape::TheValueComesBack,
        JumpShape::ZeroBecomesOne,
        JumpShape::VolatileSurvives,
        JumpShape::UnchangedLocalsSurvive,
        JumpShape::ARetryLoop,
        JumpShape::OutOfNestedFrames,
        JumpShape::PastAnInnerHandler,
        JumpShape::StoresAreNotSunk,
    ]
}

/// The jump out of a function that never returns from it.
///
/// Every local written between the `setjmp` and the `longjmp` and read afterwards is
/// `volatile`, which is the one thing C promises about a jumped over frame, and `setjmp` only
/// appears where the standard allows it: the whole controlling expression of an `if` or a
/// `switch`, or one side of a comparison against a constant in one.
pub fn setjmp_longjmp() -> (r: Vec<Case>)
    ensures
        r@.len() == 8,
        forall|k: int| 0 <= k < 8 ==> is_jump_case(#[trigger] r@[k], jump_shapes()[k]),
{
    let shapes = [
        JumpShape::TheValueComesBack,
        JumpShape::ZeroBecomesOne,
        JumpShape::VolatileSurvives,
        JumpShape::UnchangedLocalsSurvive,
        JumpShape::ARetryLoop,
        JumpShape::OutOfNestedFrames,
        JumpShape::PastAnInnerHandler,
        JumpShape::StoresAreNotSunk,
    ];
    assert(shapes@ =~= jump_shapes());
    let mut out: Vec<Case> = Vec::new();
    let mut k: usize = 0;
    while k < 8
        invariant
            k <= 8,
            shapes@ == jump_shapes(),
            out@.len() == k,
            forall|i: int| 0 <= i < k ==> is_jump_case(#[trigger] out@[i], jump_shapes()[i]),
        decreases 8 - k,
    {
        out.push(jump_case(shapes[k]));
        k += 1;
    }
    out
}

/// What a program asks of the widest floating type.
#[derive(Clone, Copy, Debug, PartialEq, Eq, Structural)]
pub enum WideFloat {
    ExactOnSmallIntegers,
    EveryDoubleIsOne,
    AtLeastAsWideAsDouble,
    AsAnArgument,
    MixedWithIntegers,
    ThroughVarargs,
    InAStruct,
    ConvertedBothWays,
    ComparedAgainstIntegers,
    WrittenAsALiteral,
}

impl WideFloat {
    /// The axis value.
    pub open spec fn name_text(self) -> Seq<char> {
        match self {
            WideFloat::ExactOnSmallIntegers => "exact-on-small-integers"@,
            WideFloat::EveryDoubleIsOne => "every-double-is-one"@,
            WideFloat::AtLeastAsWideAsDouble => "at-least-as-wide-as-double"@,
            WideFloat::AsAnArgument => "as-an-argument"@,
            WideFloat::MixedWithIntegers => "mixed-with-integers"@,
            WideFloat::ThroughVarargs => "through-varargs"@,
            WideFloat::InAStruct => "in-a-struct"@,
            WideFloat::ConvertedBothWays => "converted-both-ways"@,
            WideFloat::ComparedAgainstIntegers => "compared-against-integers"@,
            WideFloat::WrittenAsALiteral => "written-as-a-literal"@,
        }
    }

    /// The axis value.
    pub fn name(self) -> (r: &'static str)
        ensures
            r@ == self.name_text(),
    {
        match self {
            WideFloat::ExactOnSmallIntegers => "exact-on-small-integers",
            WideFloat::EveryDoubleIsOne => "every-double-is-one",
            WideFloat::AtLeastAsWideAsDouble => "at-least-as-wide-as-double",
            WideFloat::AsAnArgument => "as-an-argument",
            WideFloat::MixedWithIntegers => "mixed-with-integers",
            WideFloat::ThroughVarargs => "through-varargs",
            WideFloat::InAStruct => "in-a-struct",
            WideFloat::ConvertedBothWays => "converted-both-ways",
            WideFloat::ComparedAgainstIntegers => "compared-against-integers",
            WideFloat::WrittenAsALiteral => "written-as-a-literal",
        }
    }

    /// The axis value with its words apart, for the purpose line.
    pub open spec fn words_text(self) -> Seq<char> {
        match self {
            WideFloat::ExactOnSmallIntegers => "exact on small integers"@,
            WideFloat::EveryDoubleIsOne => "every double is one"@,
            WideFloat::AtLeastAsWideAsDouble => "at least as wide as double"@,
            WideFloat::AsAnArgument => "as an argument"@,
            WideFloat::MixedWithIntegers => "mixed with integers"@,
            WideFloat::ThroughVarargs => "through varargs"@,
            WideFloat::InAStruct => "in a struct"@,
            WideFloat::ConvertedBothWays => "converted both ways"@,
            WideFloat::ComparedAgainstIntegers => "compared against integers"@,
            WideFloat::WrittenAsALiteral => "written as a literal"@,
        }
    }

    /// The axis value with its words apart, for the purpose line.
    pub fn words(self) -> (r: &'static str)
        ensures
            r@ == self.words_text(),
    {
        match self {
            WideFloat::ExactOnSmallIntegers => "exact on small integers",
            WideFloat::EveryDoubleIsOne => "every double is one",
            WideFloat::AtLeastAsWideAsDouble => "at least as wide as double",
            WideFloat::AsAnArgument => "as an argument",
            WideFloat::MixedWithIntegers => "mixed with integers",
            WideFloat::ThroughVarargs => "through varargs",
            WideFloat::InAStruct => "in a struct",
            WideFloat::ConvertedBothWays => "converted both ways",
            WideFloat::ComparedAgainstIntegers => "compared against integers",
            WideFloat::WrittenAsALiteral => "written as a literal",
        }
    }

    /// Whether the shape needs a standard header.
    pub open spec fn is_headed(self) -> bool {
        self == WideFloat::AtLeastAsWideAsDouble || self == WideFloat::ThroughVarargs
    }

    /// Whether the shape needs a standard header.
    pub fn headed(self) -> (r: bool)
        ensures
            r == self.is_headed(),
    {
        self == WideFloat::AtLeastAsWideAsDouble || self == WideFloat::ThroughVarargs
    }
}

/// The shapes in the order the facet walks them.
pub open spec fn wide_floats_list() -> Seq<WideFloat> {
    seq![
        WideFloat::ExactOnSmallIntegers,
        WideFloat::EveryDoubleIsOne,
        WideFloat::AtLeastAsWideAsDouble,
        WideFloat::AsAnArgument,
        WideFloat::MixedWithIntegers,
        WideFloat::ThroughVarargs,
        WideFloat::InAStruct,
        WideFloat::ConvertedBothWays,
        WideFloat::ComparedAgainstIntegers,
        WideFloat::WrittenAsALiteral,
    ]
}

/// The shapes in the order the facet walks them.
fn wide_floats_array() -> (r: Vec<WideFloat>)
    ensures
        r@ == wide_floats_list(),
{
    let r = vec![
        WideFloat::ExactOnSmallIntegers,
        WideFloat::EveryDoubleIsOne,
        WideFloat::AtLeastAsWideAsDouble,
        WideFloat::AsAnArgument,
        WideFloat::MixedWithIntegers,
        WideFloat::ThroughVarargs,
        WideFloat::InAStruct,
        WideFloat::ConvertedBothWays,
        WideFloat::ComparedAgainstIntegers,
        WideFloat::WrittenAsALiteral,
    ];
    assert(r@ =~= wide_floats_list());
    r
}

/// The lines before `main` of each shape.
pub open spec fn wide_float_top(shape: WideFloat) -> Seq<Seq<char>> {
    match shape {
        WideFloat::ExactOnSmallIntegers => seq![
            "static volatile double left_in = 123456.0;"@,
            "static volatile double right_in = 7000.0;"@,
        ],
        WideFloat::EveryDoubleIsOne => seq![
            "static volatile double values[4] = { 0.5, -2.25, 1048576.0, 1e9 };"@,
        ],
        WideFloat::AtLeastAsWideAsDouble => Seq::empty(),
        WideFloat::AsAnArgument => seq![
            "static long double blend(long double a, long double b, long double c,"@,
            "                         long double d, long double e, long double f,"@,
            "                         long double g, long double h) {"@,
            "    return a * 1.0L + b * 2.0L + c * 3.0L + d * 4.0L"@,
            "         + e * 5.0L + f * 6.0L + g * 7.0L + h * 8.0L;"@,
            "}"@,
            "static long double back(long double value) { return value * 2.0L; }"@,
            input_global(Ty::I32, "seed"@, 1int),
        ],
        WideFloat::MixedWithIntegers => seq![
            "static long double mixed(int a, long double b, int c, long double d) {"@,
            "    return b * a + d * c;"@,
            "}"@,
            "static long double after(long double a, int b, long double c) {"@,
            "    return a * b - c;"@,
            "}"@,
            input_global(Ty::I32, "three"@, 3int),
        ],
        WideFloat::ThroughVarargs => seq![
            "static long double total(int count, ...) {"@,
            "    va_list rest;"@,
            "    va_start(rest, count);"@,
            "    long double sum = 0.0L;"@,
            "    for (int i = 0; i < count; i++) {"@,
            "        sum = sum + va_arg(rest, long double);"@,
            "    }"@,
            "    va_end(rest);"@,
            "    return sum;"@,
            "}"@,
            "static long double weighted(int count, ...) {"@,
            "    va_list rest;"@,
            "    va_start(rest, count);"@,
            "    long double sum = 0.0L;"@,
            "    for (int i = 0; i < count; i++) {"@,
            "        int weight = va_arg(rest, int);"@,
            "        sum = sum + va_arg(rest, long double) * weight;"@,
            "    }"@,
            "    va_end(rest);"@,
            "    return sum;"@,
            "}"@,
        ],
        WideFloat::InAStruct => seq![
            "struct wide { long double value; int tag; };"@,
            "static struct wide scale(struct wide held, int by) {"@,
            "    struct wide out;"@,
            "    out.value = held.value * by;"@,
            "    out.tag = held.tag + by;"@,
            "    return out;"@,
            "}"@,
            "static long double sum(struct wide first, struct wide second) {"@,
            "    return first.value + second.value;"@,
            "}"@,
            input_global(Ty::I32, "seven"@, 7int),
        ],
        WideFloat::ConvertedBothWays => seq![
            "static volatile long long big_in = 1099511627776ll;"@,
            "static volatile unsigned long long huge_in = 4000000000ull;"@,
        ],
        WideFloat::ComparedAgainstIntegers => seq![
            input_global(Ty::I32, "seven"@, 7int),
        ],
        WideFloat::WrittenAsALiteral => Seq::empty(),
    }
}

/// The statements of `main` of each shape.
pub open spec fn wide_float_body(shape: WideFloat) -> Seq<Seq<char>> {
    match shape {
        WideFloat::ExactOnSmallIntegers => seq![
            Seq::<char>::empty(),
            indent(1) + "long double left = left_in;"@,
            indent(1) + "long double right = right_in;"@,
            Seq::<char>::empty(),
            print_line(1, Ty::I64, "left + right"@),
            print_line(1, Ty::I64, "left - right"@),
            print_line(1, Ty::I64, "left * right"@),
            print_line(1, Ty::I64, "(left * right) / right"@),
        ],
        WideFloat::EveryDoubleIsOne => seq![
            Seq::<char>::empty(),
            indent(1) + "int kept = 1;"@,
            indent(1) + "for (int i = 0; i < 4; i++) {"@,
            indent(2) + "double narrow = values[i];"@,
            indent(2) + "long double wide = narrow;"@,
            indent(2) + "if ((double)wide != narrow) {"@,
            indent(3) + "kept = 0;"@,
            indent(2) + "}"@,
            indent(2) + "if (wide != narrow) {"@,
            indent(3) + "kept = 0;"@,
            indent(2) + "}"@,
            indent(1) + "}"@,
            Seq::<char>::empty(),
            print_line(1, Ty::I32, "kept"@),
        ],
        WideFloat::AtLeastAsWideAsDouble => seq![
            Seq::<char>::empty(),
            print_line(1, Ty::I32, "LDBL_MANT_DIG >= DBL_MANT_DIG"@),
            print_line(1, Ty::I32, "LDBL_MAX_EXP >= DBL_MAX_EXP"@),
            print_line(1, Ty::I32, "LDBL_MIN_EXP <= DBL_MIN_EXP"@),
            print_line(1, Ty::I32, "LDBL_DIG >= DBL_DIG"@),
            print_line(1, Ty::I32, "LDBL_EPSILON <= DBL_EPSILON"@),
        ],
        WideFloat::AsAnArgument => seq![
            input_read(Ty::I32, "seed"@),
            Seq::<char>::empty(),
            indent(1) + "long double one = seed;"@,
            Seq::<char>::empty(),
            print_line(1, Ty::I64, "blend(one, 2.0L, 3.0L, 4.0L, 5.0L, 6.0L, 7.0L, 8.0L)"@),
            print_line(1, Ty::I64, "back(21.0L)"@),
            print_line(1, Ty::I64, "back(back(back(one)))"@),
        ],
        WideFloat::MixedWithIntegers => seq![
            input_read(Ty::I32, "three"@),
            Seq::<char>::empty(),
            print_line(1, Ty::I64, "mixed(three, 4.0L, 5, 6.0L)"@),
            print_line(1, Ty::I64, "after(10.0L, three, 8.0L)"@),
        ],
        WideFloat::ThroughVarargs => seq![
            Seq::<char>::empty(),
            print_line(1, Ty::I64, "total(5, 1.0L, 2.0L, 4.0L, 8.0L, 16.0L)"@),
            print_line(1, Ty::I64, "weighted(3, 2, 10.0L, 3, 100.0L, 4, 1000.0L)"@),
        ],
        WideFloat::InAStruct => seq![
            input_read(Ty::I32, "seven"@),
            Seq::<char>::empty(),
            indent(1) + "struct wide start;"@,
            indent(1) + "start.value = 12.0L;"@,
            indent(1) + "start.tag = 5;"@,
            indent(1) + "struct wide grown = scale(start, seven);"@,
            Seq::<char>::empty(),
            print_line(1, Ty::I64, "grown.value"@),
            print_line(1, Ty::I32, "grown.tag"@),
            print_line(1, Ty::I64, "sum(start, grown)"@),
        ],
        WideFloat::ConvertedBothWays => seq![
            Seq::<char>::empty(),
            indent(1) + "long long big = big_in;"@,
            indent(1) + "unsigned long long huge = huge_in;"@,
            indent(1) + "long double from_signed = big;"@,
            indent(1) + "long double from_unsigned = huge;"@,
            Seq::<char>::empty(),
            print_line(1, Ty::I64, "from_signed"@),
            print_line(1, Ty::U64, "from_unsigned"@),
            print_line(1, Ty::I64, "from_signed / 1024.0L"@),
            print_line(1, Ty::I64, "-2.75L * 4.0L"@),
            print_line(1, Ty::I32, "3.99L"@),
            print_line(1, Ty::I32, "-3.99L"@),
        ],
        WideFloat::ComparedAgainstIntegers => seq![
            input_read(Ty::I32, "seven"@),
            Seq::<char>::empty(),
            indent(1) + "long double wide = seven;"@,
            Seq::<char>::empty(),
            print_line(1, Ty::I32, "wide > 6"@),
            print_line(1, Ty::I32, "wide == 7"@),
            print_line(1, Ty::I32, "wide < 7.5L"@),
            print_line(1, Ty::I32, "wide + 0.5L > seven"@),
            print_line(1, Ty::I32, "wide / 2.0L == 3.5L"@),
            print_line(1, Ty::I32, "(wide / 2.0L) == (seven / 2)"@),
        ],
        WideFloat::WrittenAsALiteral => seq![
            Seq::<char>::empty(),
            print_line(1, Ty::I64, "1.5e3L"@),
            print_line(1, Ty::I64, "0x1p10L"@),
            print_line(1, Ty::I64, "0x1.8p1L"@),
            print_line(1, Ty::I64, "2.0L * 0x1p20L"@),
            print_line(1, Ty::I64, "0x1p-2L * 8.0L"@),
            print_line(1, Ty::I32, "0.5L == 0.5"@),
        ],
    }
}

/// The headers of each shape.
pub open spec fn wide_float_includes(shape: WideFloat) -> Seq<Seq<char>> {
    match shape {
        WideFloat::ExactOnSmallIntegers => Seq::empty(),
        WideFloat::EveryDoubleIsOne => Seq::empty(),
        WideFloat::AtLeastAsWideAsDouble => seq![
            include_line("float.h"@),
        ],
        WideFloat::AsAnArgument => Seq::empty(),
        WideFloat::MixedWithIntegers => Seq::empty(),
        WideFloat::ThroughVarargs => seq![
            include_line("stdarg.h"@),
        ],
        WideFloat::InAStruct => Seq::empty(),
        WideFloat::ConvertedBothWays => Seq::empty(),
        WideFloat::ComparedAgainstIntegers => Seq::empty(),
        WideFloat::WrittenAsALiteral => Seq::empty(),
    }
}

/// What the program prints of each shape.
pub open spec fn wide_float_expected(shape: WideFloat) -> Seq<int> {
    match shape {
        WideFloat::ExactOnSmallIntegers => seq![
            130_456int,
            116_456int,
            864_192_000int,
            123_456int,
        ],
        WideFloat::EveryDoubleIsOne => seq![
            1int,
        ],
        WideFloat::AtLeastAsWideAsDouble => seq![
            1int,
            1int,
            1int,
            1int,
            1int,
        ],
        WideFloat::AsAnArgument => seq![
            204int,
            42int,
            8int,
        ],
        WideFloat::MixedWithIntegers => seq![
            42int,
            22int,
        ],
        WideFloat::ThroughVarargs => seq![
            31int,
            4320int,
        ],
        WideFloat::InAStruct => seq![
            84int,
            12int,
            96int,
        ],
        WideFloat::ConvertedBothWays => seq![
            1_099_511_627_776int,
            4_000_000_000int,
            1_073_741_824int,
            -11int,
            3int,
            -3int,
        ],
        WideFloat::ComparedAgainstIntegers => seq![
            1int,
            1int,
            1int,
            1int,
            1int,
            0int,
        ],
        WideFloat::WrittenAsALiteral => seq![
            1500int,
            1024int,
            3int,
            2_097_152int,
            2int,
            1int,
        ],
    }
}

/// Whether the shape asks for the volatile sink.
pub open spec fn wide_float_sinks(shape: WideFloat) -> bool {
    match shape {
        WideFloat::ExactOnSmallIntegers => false,
        WideFloat::EveryDoubleIsOne => false,
        WideFloat::AtLeastAsWideAsDouble => false,
        WideFloat::AsAnArgument => false,
        WideFloat::MixedWithIntegers => false,
        WideFloat::ThroughVarargs => false,
        WideFloat::InAStruct => false,
        WideFloat::ConvertedBothWays => false,
        WideFloat::ComparedAgainstIntegers => false,
        WideFloat::WrittenAsALiteral => false,
    }
}

/// Writes some of the shapes.
#[verifier::rlimit(100)]
fn wide_float_write_0(program: &mut Program, shape: WideFloat)
    requires
        old(program).top_lines() == Seq::<Seq<char>>::empty(),
        old(program).body_lines() == Seq::<Seq<char>>::empty(),
        old(program).expected_values() == Seq::<int>::empty(),
        old(program).include_lines() == Seq::<Seq<char>>::empty(),
        !old(program).sinks(),
        shape == WideFloat::ExactOnSmallIntegers || shape == WideFloat::EveryDoubleIsOne,
    ensures
        final(program).top_lines() == wide_float_top(shape),
        final(program).body_lines() == wide_float_body(shape),
        final(program).expected_values() == wide_float_expected(shape),
        final(program).include_lines() == wide_float_includes(shape),
        final(program).sinks() == wide_float_sinks(shape),
        final(program).purpose_text() == old(program).purpose_text(),
{
    match shape {
        WideFloat::ExactOnSmallIntegers => {
            program.top("static volatile double left_in = 123456.0;");
            program.top("static volatile double right_in = 7000.0;");
            program.blank();
            program.line("long double left = left_in;");
            program.line("long double right = right_in;");
            program.blank();
            program.check(Ty::I64, "left + right", 130_456);
            program.check(Ty::I64, "left - right", 116_456);
            program.check(Ty::I64, "left * right", 864_192_000);
            program.check(Ty::I64, "(left * right) / right", 123_456);
            assert(program.top_lines() =~~= wide_float_top(shape));
            assert(program.body_lines() =~~= wide_float_body(shape));
            assert(program.expected_values() =~= wide_float_expected(shape));
            assert(program.include_lines() =~~= wide_float_includes(shape));
        },
        WideFloat::EveryDoubleIsOne => {
            program.top("static volatile double values[4] = { 0.5, -2.25, 1048576.0, 1e9 };");
            program.blank();
            program.line("int kept = 1;");
            program.line("for (int i = 0; i < 4; i++) {");
            program.line_at(1, "double narrow = values[i];");
            program.line_at(1, "long double wide = narrow;");
            program.line_at(1, "if ((double)wide != narrow) {");
            program.line_at(2, "kept = 0;");
            program.line_at(1, "}");
            program.line_at(1, "if (wide != narrow) {");
            program.line_at(2, "kept = 0;");
            program.line_at(1, "}");
            program.line("}");
            program.blank();
            program.check(Ty::I32, "kept", 1);
            assert(program.top_lines() =~~= wide_float_top(shape));
            assert(program.body_lines() =~~= wide_float_body(shape));
            assert(program.expected_values() =~= wide_float_expected(shape));
            assert(program.include_lines() =~~= wide_float_includes(shape));
        },
        _ => {},
    }
}

/// Writes some of the shapes.
#[verifier::rlimit(100)]
fn wide_float_write_1(program: &mut Program, shape: WideFloat)
    requires
        old(program).top_lines() == Seq::<Seq<char>>::empty(),
        old(program).body_lines() == Seq::<Seq<char>>::empty(),
        old(program).expected_values() == Seq::<int>::empty(),
        old(program).include_lines() == Seq::<Seq<char>>::empty(),
        !old(program).sinks(),
        shape == WideFloat::AtLeastAsWideAsDouble || shape == WideFloat::AsAnArgument,
    ensures
        final(program).top_lines() == wide_float_top(shape),
        final(program).body_lines() == wide_float_body(shape),
        final(program).expected_values() == wide_float_expected(shape),
        final(program).include_lines() == wide_float_includes(shape),
        final(program).sinks() == wide_float_sinks(shape),
        final(program).purpose_text() == old(program).purpose_text(),
{
    match shape {
        WideFloat::AtLeastAsWideAsDouble => {
            program.include_header("float.h");
            program.blank();
            program.check(Ty::I32, "LDBL_MANT_DIG >= DBL_MANT_DIG", 1);
            program.check(Ty::I32, "LDBL_MAX_EXP >= DBL_MAX_EXP", 1);
            program.check(Ty::I32, "LDBL_MIN_EXP <= DBL_MIN_EXP", 1);
            program.check(Ty::I32, "LDBL_DIG >= DBL_DIG", 1);
            program.check(Ty::I32, "LDBL_EPSILON <= DBL_EPSILON", 1);
            assert(program.top_lines() =~~= wide_float_top(shape));
            assert(program.body_lines() =~~= wide_float_body(shape));
            assert(program.expected_values() =~= wide_float_expected(shape));
            assert(program.include_lines() =~~= wide_float_includes(shape));
        },
        WideFloat::AsAnArgument => {
            program.top("static long double blend(long double a, long double b, long double c,");
            program.top("                         long double d, long double e, long double f,");
            program.top("                         long double g, long double h) {");
            program.top("    return a * 1.0L + b * 2.0L + c * 3.0L + d * 4.0L");
            program.top("         + e * 5.0L + f * 6.0L + g * 7.0L + h * 8.0L;");
            program.top("}");
            program.top("static long double back(long double value) { return value * 2.0L; }");
            program.input(Ty::I32, "seed", 1);
            program.blank();
            program.line("long double one = seed;");
            program.blank();
            program.check(Ty::I64, "blend(one, 2.0L, 3.0L, 4.0L, 5.0L, 6.0L, 7.0L, 8.0L)", 204);
            program.check(Ty::I64, "back(21.0L)", 42);
            program.check(Ty::I64, "back(back(back(one)))", 8);
            assert(program.top_lines() =~~= wide_float_top(shape));
            assert(program.body_lines() =~~= wide_float_body(shape));
            assert(program.expected_values() =~= wide_float_expected(shape));
            assert(program.include_lines() =~~= wide_float_includes(shape));
        },
        _ => {},
    }
}

/// Writes some of the shapes.
#[verifier::rlimit(100)]
fn wide_float_write_2(program: &mut Program, shape: WideFloat)
    requires
        old(program).top_lines() == Seq::<Seq<char>>::empty(),
        old(program).body_lines() == Seq::<Seq<char>>::empty(),
        old(program).expected_values() == Seq::<int>::empty(),
        old(program).include_lines() == Seq::<Seq<char>>::empty(),
        !old(program).sinks(),
        shape == WideFloat::MixedWithIntegers || shape == WideFloat::ThroughVarargs,
    ensures
        final(program).top_lines() == wide_float_top(shape),
        final(program).body_lines() == wide_float_body(shape),
        final(program).expected_values() == wide_float_expected(shape),
        final(program).include_lines() == wide_float_includes(shape),
        final(program).sinks() == wide_float_sinks(shape),
        final(program).purpose_text() == old(program).purpose_text(),
{
    match shape {
        WideFloat::MixedWithIntegers => {
            program.top("static long double mixed(int a, long double b, int c, long double d) {");
            program.top("    return b * a + d * c;");
            program.top("}");
            program.top("static long double after(long double a, int b, long double c) {");
            program.top("    return a * b - c;");
            program.top("}");
            program.input(Ty::I32, "three", 3);
            program.blank();
            program.check(Ty::I64, "mixed(three, 4.0L, 5, 6.0L)", 42);
            program.check(Ty::I64, "after(10.0L, three, 8.0L)", 22);
            assert(program.top_lines() =~~= wide_float_top(shape));
            assert(program.body_lines() =~~= wide_float_body(shape));
            assert(program.expected_values() =~= wide_float_expected(shape));
            assert(program.include_lines() =~~= wide_float_includes(shape));
        },
        WideFloat::ThroughVarargs => {
            program.include_header("stdarg.h");
            program.top("static long double total(int count, ...) {");
            program.top("    va_list rest;");
            program.top("    va_start(rest, count);");
            program.top("    long double sum = 0.0L;");
            program.top("    for (int i = 0; i < count; i++) {");
            program.top("        sum = sum + va_arg(rest, long double);");
            program.top("    }");
            program.top("    va_end(rest);");
            program.top("    return sum;");
            program.top("}");
            program.top("static long double weighted(int count, ...) {");
            program.top("    va_list rest;");
            program.top("    va_start(rest, count);");
            program.top("    long double sum = 0.0L;");
            program.top("    for (int i = 0; i < count; i++) {");
            program.top("        int weight = va_arg(rest, int);");
            program.top("        sum = sum + va_arg(rest, long double) * weight;");
            program.top("    }");
            program.top("    va_end(rest);");
            program.top("    return sum;");
            program.top("}");
            program.blank();
            program.check(Ty::I64, "total(5, 1.0L, 2.0L, 4.0L, 8.0L, 16.0L)", 31);
            program.check(Ty::I64, "weighted(3, 2, 10.0L, 3, 100.0L, 4, 1000.0L)", 4320);
            assert(program.top_lines() =~~= wide_float_top(shape));
            assert(program.body_lines() =~~= wide_float_body(shape));
            assert(program.expected_values() =~= wide_float_expected(shape));
            assert(program.include_lines() =~~= wide_float_includes(shape));
        },
        _ => {},
    }
}

/// Writes some of the shapes.
#[verifier::rlimit(100)]
fn wide_float_write_3(program: &mut Program, shape: WideFloat)
    requires
        old(program).top_lines() == Seq::<Seq<char>>::empty(),
        old(program).body_lines() == Seq::<Seq<char>>::empty(),
        old(program).expected_values() == Seq::<int>::empty(),
        old(program).include_lines() == Seq::<Seq<char>>::empty(),
        !old(program).sinks(),
        shape == WideFloat::InAStruct || shape == WideFloat::ConvertedBothWays,
    ensures
        final(program).top_lines() == wide_float_top(shape),
        final(program).body_lines() == wide_float_body(shape),
        final(program).expected_values() == wide_float_expected(shape),
        final(program).include_lines() == wide_float_includes(shape),
        final(program).sinks() == wide_float_sinks(shape),
        final(program).purpose_text() == old(program).purpose_text(),
{
    match shape {
        WideFloat::InAStruct => {
            program.top("struct wide { long double value; int tag; };");
            program.top("static struct wide scale(struct wide held, int by) {");
            program.top("    struct wide out;");
            program.top("    out.value = held.value * by;");
            program.top("    out.tag = held.tag + by;");
            program.top("    return out;");
            program.top("}");
            program.top("static long double sum(struct wide first, struct wide second) {");
            program.top("    return first.value + second.value;");
            program.top("}");
            program.input(Ty::I32, "seven", 7);
            program.blank();
            program.line("struct wide start;");
            program.line("start.value = 12.0L;");
            program.line("start.tag = 5;");
            program.line("struct wide grown = scale(start, seven);");
            program.blank();
            program.check(Ty::I64, "grown.value", 84);
            program.check(Ty::I32, "grown.tag", 12);
            program.check(Ty::I64, "sum(start, grown)", 96);
            assert(program.top_lines() =~~= wide_float_top(shape));
            assert(program.body_lines() =~~= wide_float_body(shape));
            assert(program.expected_values() =~= wide_float_expected(shape));
            assert(program.include_lines() =~~= wide_float_includes(shape));
        },
        WideFloat::ConvertedBothWays => {
            program.top("static volatile long long big_in = 1099511627776ll;");
            program.top("static volatile unsigned long long huge_in = 4000000000ull;");
            program.blank();
            program.line("long long big = big_in;");
            program.line("unsigned long long huge = huge_in;");
            program.line("long double from_signed = big;");
            program.line("long double from_unsigned = huge;");
            program.blank();
            program.check(Ty::I64, "from_signed", 1_099_511_627_776);
            program.check(Ty::U64, "from_unsigned", 4_000_000_000);
            program.check(Ty::I64, "from_signed / 1024.0L", 1_073_741_824);
            program.check(Ty::I64, "-2.75L * 4.0L", -11);
            program.check(Ty::I32, "3.99L", 3);
            program.check(Ty::I32, "-3.99L", -3);
            assert(program.top_lines() =~~= wide_float_top(shape));
            assert(program.body_lines() =~~= wide_float_body(shape));
            assert(program.expected_values() =~= wide_float_expected(shape));
            assert(program.include_lines() =~~= wide_float_includes(shape));
        },
        _ => {},
    }
}

/// Writes some of the shapes.
#[verifier::rlimit(100)]
fn wide_float_write_4(program: &mut Program, shape: WideFloat)
    requires
        old(program).top_lines() == Seq::<Seq<char>>::empty(),
        old(program).body_lines() == Seq::<Seq<char>>::empty(),
        old(program).expected_values() == Seq::<int>::empty(),
        old(program).include_lines() == Seq::<Seq<char>>::empty(),
        !old(program).sinks(),
        shape == WideFloat::ComparedAgainstIntegers || shape == WideFloat::WrittenAsALiteral,
    ensures
        final(program).top_lines() == wide_float_top(shape),
        final(program).body_lines() == wide_float_body(shape),
        final(program).expected_values() == wide_float_expected(shape),
        final(program).include_lines() == wide_float_includes(shape),
        final(program).sinks() == wide_float_sinks(shape),
        final(program).purpose_text() == old(program).purpose_text(),
{
    match shape {
        WideFloat::ComparedAgainstIntegers => {
            program.input(Ty::I32, "seven", 7);
            program.blank();
            program.line("long double wide = seven;");
            program.blank();
            program.check(Ty::I32, "wide > 6", 1);
            program.check(Ty::I32, "wide == 7", 1);
            program.check(Ty::I32, "wide < 7.5L", 1);
            program.check(Ty::I32, "wide + 0.5L > seven", 1);
            program.check(Ty::I32, "wide / 2.0L == 3.5L", 1);
            program.check(Ty::I32, "(wide / 2.0L) == (seven / 2)", 0);
            assert(program.top_lines() =~~= wide_float_top(shape));
            assert(program.body_lines() =~~= wide_float_body(shape));
            assert(program.expected_values() =~= wide_float_expected(shape));
            assert(program.include_lines() =~~= wide_float_includes(shape));
        },
        WideFloat::WrittenAsALiteral => {
            program.blank();
            program.check(Ty::I64, "1.5e3L", 1500);
            program.check(Ty::I64, "0x1p10L", 1024);
            program.check(Ty::I64, "0x1.8p1L", 3);
            program.check(Ty::I64, "2.0L * 0x1p20L", 2_097_152);
            program.check(Ty::I64, "0x1p-2L * 8.0L", 2);
            program.check(Ty::I32, "0.5L == 0.5", 1);
            assert(program.top_lines() =~~= wide_float_top(shape));
            assert(program.body_lines() =~~= wide_float_body(shape));
            assert(program.expected_values() =~= wide_float_expected(shape));
            assert(program.include_lines() =~~= wide_float_includes(shape));
        },
        _ => {},
    }
}

/// Writes a shape.
fn wide_float_write(program: &mut Program, shape: WideFloat)
    requires
        old(program).top_lines() == Seq::<Seq<char>>::empty(),
        old(program).body_lines() == Seq::<Seq<char>>::empty(),
        old(program).expected_values() == Seq::<int>::empty(),
        old(program).include_lines() == Seq::<Seq<char>>::empty(),
        !old(program).sinks(),
    ensures
        final(program).top_lines() == wide_float_top(shape),
        final(program).body_lines() == wide_float_body(shape),
        final(program).expected_values() == wide_float_expected(shape),
        final(program).include_lines() == wide_float_includes(shape),
        final(program).sinks() == wide_float_sinks(shape),
        final(program).purpose_text() == old(program).purpose_text(),
{
    match shape {
        WideFloat::ExactOnSmallIntegers | WideFloat::EveryDoubleIsOne => {
            wide_float_write_0(program, shape);
        },
        WideFloat::AtLeastAsWideAsDouble | WideFloat::AsAnArgument => {
            wide_float_write_1(program, shape);
        },
        WideFloat::MixedWithIntegers | WideFloat::ThroughVarargs => {
            wide_float_write_2(program, shape);
        },
        WideFloat::InAStruct | WideFloat::ConvertedBothWays => {
            wide_float_write_3(program, shape);
        },
        WideFloat::ComparedAgainstIntegers | WideFloat::WrittenAsALiteral => {
            wide_float_write_4(program, shape);
        },
    }
}

/// The tags of a long double program: the ones that read a standard header say so.
pub open spec fn wide_float_tags(shape: WideFloat) -> Seq<Seq<char>> {
    if shape.is_headed() {
        seq!["headers"@]
    } else {
        Seq::empty()
    }
}

/// The tags of a long double program.
fn wide_float_tags_of(shape: WideFloat) -> (r: Vec<String>)
    ensures
        r@.map_values(|t: String| t@) == wide_float_tags(shape),
{
    if shape.headed() {
        let r = vec![String::from_str("headers")];
        assert(r@.map_values(|t: String| t@) =~= seq!["headers"@]);
        r
    } else {
        let r: Vec<String> = Vec::new();
        assert(r@.map_values(|t: String| t@) =~= Seq::<Seq<char>>::empty());
        r
    }
}

/// Whether a case is the wide_float shape, whole.
pub open spec fn is_wide_float_case(c: Case, shape: WideFloat) -> bool {
    &&& c.axes_text() == seq![("shape"@, shape.name_text())]
    &&& c.tags_text() == wide_float_tags(shape)
    &&& c.program.purpose_text() == "long double, "@ + shape.words_text()
    &&& c.program.include_lines() == wide_float_includes(shape)
    &&& c.program.top_lines() == wide_float_top(shape)
    &&& c.program.body_lines() == wide_float_body(shape)
    &&& c.program.expected_values() == wide_float_expected(shape)
    &&& c.program.sinks() == wide_float_sinks(shape)
}

/// One wide_float shape.
fn wide_float_case(shape: WideFloat) -> (r: Case)
    ensures
        is_wide_float_case(r, shape),
{
    let mut purpose = String::new();
    purpose.append("long double, ");
    purpose.append(shape.words());
    let mut program = Program::new(purpose.as_str());
    wide_float_write(&mut program, shape);
    let axes = vec![axis("shape", shape.name())];
    let r = Case { axes, tags: wide_float_tags_of(shape), program };
    assert(r.axes_text() =~= seq![("shape"@, shape.name_text())]);
    assert(r.tags_text() =~= wide_float_tags(shape));
    r
}

/// The widest floating type, in the shapes where a target's choice of width must not show.
///
/// Every answer holds whether `long double` is eighty bits, a hundred and twenty eight, or
/// `double` under another name: integers small enough to be exact, the rule that every double is
/// a long double, the limits C requires, arguments past the registers, through an ellipsis and in
/// a struct, conversions both ways, comparisons against integers, and the two ways a constant is
/// written. Nothing prints a floating value, so no answer depends on the machine.
pub fn long_double() -> (r: Vec<Case>)
    ensures
        r@.len() == 10,
        forall|k: int| 0 <= k < 10 ==> is_wide_float_case(#[trigger] r@[k], wide_floats_list()[k]),
{
    let shapes = wide_floats_array();
    let mut out: Vec<Case> = Vec::new();
    let mut k: usize = 0;
    while k < 10
        invariant
            k <= 10,
            shapes@ == wide_floats_list(),
            out@.len() == k,
            forall|i: int| 0 <= i < k ==> is_wide_float_case(#[trigger] out@[i], wide_floats_list()[i]),
        decreases 10 - k,
    {
        out.push(wide_float_case(shapes[k]));
        k += 1;
    }
    out
}

/// Every runtime facet, one batch per facet in the order the phase walks them.
#[verifier::rlimit(100)]
pub fn generate() -> (r: Vec<Batch>)
    ensures
        r@.len() == 3,
        r@[0] is Single,
        r@[0]->cases@.len() == 9,
        forall|k: int| 0 <= k < 9 ==> is_vla_case(#[trigger] r@[0]->cases@[k], vla_shapes()[k]),
        r@[1] is Single,
        r@[1]->cases@.len() == 10,
        forall|k: int| 0 <= k < 10 ==> is_wide_float_case(#[trigger] r@[1]->cases@[k], wide_floats_list()[k]),
        r@[2] is Single,
        r@[2]->cases@.len() == 8,
        forall|k: int| 0 <= k < 8 ==> is_jump_case(#[trigger] r@[2]->cases@[k], jump_shapes()[k]),
{
    let mut out: Vec<Batch> = Vec::new();
    out.push(Batch::Single { cases: vla_and_alloca() });
    out.push(Batch::Single { cases: long_double() });
    out.push(Batch::Single { cases: setjmp_longjmp() });
    out
}

} // verus!
