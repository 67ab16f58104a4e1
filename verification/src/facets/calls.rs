//! Calls seen from the outside: whether a helper is inlined, whether recursion becomes a jump,
//! whether a pure function is called once, whether an indirect call becomes a direct one, and
//! whether definitions nothing refers to are dropped.
//!
//! Each program prints a number that a wrong answer changes, and where the right answer prints
//! the same number as the plain one, the instruction count is where the difference shows.

use vstd::prelude::*;
use vstd::string::*;
use crate::emit::{Program, input_global, input_read, indent, print_line};
use crate::lang::{Ty, wide, wide_types};
use crate::text::{decimal, push_decimal, decimal_string};
use crate::facets::{Case, axis, gnu_when, tags_for, lit, lit_text};

verus! {

/// How much is known about the target of a call through a pointer.
#[derive(Clone, Copy, Debug, PartialEq, Eq, Structural)]
pub enum IndirectShape {
    DirectAssign,
    ConstantTable,
    TwoTargets,
    Unknown,
}

impl IndirectShape {
    /// The axis value.
    pub open spec fn name_text(self) -> Seq<char> {
        match self {
            IndirectShape::DirectAssign => "direct-assign"@,
            IndirectShape::ConstantTable => "constant-table"@,
            IndirectShape::TwoTargets => "two-targets"@,
            IndirectShape::Unknown => "unknown"@,
        }
    }

    /// The axis value.
    pub fn name(self) -> (r: &'static str)
        ensures
            r@ == self.name_text(),
    {
        match self {
            IndirectShape::DirectAssign => "direct-assign",
            IndirectShape::ConstantTable => "constant-table",
            IndirectShape::TwoTargets => "two-targets",
            IndirectShape::Unknown => "unknown",
        }
    }
}

/// The shapes in the order the facet walks them.
pub open spec fn indirect_shapes_list() -> Seq<IndirectShape> {
    seq![
        IndirectShape::DirectAssign,
        IndirectShape::ConstantTable,
        IndirectShape::TwoTargets,
        IndirectShape::Unknown,
    ]
}

/// The shapes in the order the facet walks them.
fn indirect_shapes_array() -> (r: Vec<IndirectShape>)
    ensures
        r@ == indirect_shapes_list(),
{
    let r = vec![
        IndirectShape::DirectAssign,
        IndirectShape::ConstantTable,
        IndirectShape::TwoTargets,
        IndirectShape::Unknown,
    ];
    assert(r@ =~= indirect_shapes_list());
    r
}

/// The lines before `main` of each shape.
pub open spec fn indirect_top(shape: IndirectShape) -> Seq<Seq<char>> {
    match shape {
        IndirectShape::DirectAssign => seq![
            "static int twice(int value) { return value * 2; }"@,
            "static int thrice(int value) { return value * 3; }"@,
            "static int (*const table[2])(int) = { twice, thrice };"@,
            input_global(Ty::I32, "seed"@, 7int),
            input_global(Ty::I32, "pick"@, 1int),
        ],
        IndirectShape::ConstantTable => seq![
            "static int twice(int value) { return value * 2; }"@,
            "static int thrice(int value) { return value * 3; }"@,
            "static int (*const table[2])(int) = { twice, thrice };"@,
            input_global(Ty::I32, "seed"@, 7int),
            input_global(Ty::I32, "pick"@, 1int),
        ],
        IndirectShape::TwoTargets => seq![
            "static int twice(int value) { return value * 2; }"@,
            "static int thrice(int value) { return value * 3; }"@,
            "static int (*const table[2])(int) = { twice, thrice };"@,
            input_global(Ty::I32, "seed"@, 7int),
            input_global(Ty::I32, "pick"@, 1int),
        ],
        IndirectShape::Unknown => seq![
            "static int twice(int value) { return value * 2; }"@,
            "static int thrice(int value) { return value * 3; }"@,
            "static int (*const table[2])(int) = { twice, thrice };"@,
            input_global(Ty::I32, "seed"@, 7int),
            input_global(Ty::I32, "pick"@, 1int),
        ],
    }
}

/// The statements of `main` of each shape.
pub open spec fn indirect_body(shape: IndirectShape) -> Seq<Seq<char>> {
    match shape {
        IndirectShape::DirectAssign => seq![
            input_read(Ty::I32, "seed"@),
            input_read(Ty::I32, "pick"@),
            Seq::<char>::empty(),
            indent(1) + "int (*call)(int) = twice;"@,
            Seq::<char>::empty(),
            print_line(1, Ty::I32, "call(seed)"@),
        ],
        IndirectShape::ConstantTable => seq![
            input_read(Ty::I32, "seed"@),
            input_read(Ty::I32, "pick"@),
            Seq::<char>::empty(),
            indent(1) + "int (*call)(int) = table[1];"@,
            Seq::<char>::empty(),
            print_line(1, Ty::I32, "call(seed)"@),
        ],
        IndirectShape::TwoTargets => seq![
            input_read(Ty::I32, "seed"@),
            input_read(Ty::I32, "pick"@),
            Seq::<char>::empty(),
            indent(1) + "int (*call)(int) = pick ? thrice : twice;"@,
            Seq::<char>::empty(),
            print_line(1, Ty::I32, "call(seed)"@),
        ],
        IndirectShape::Unknown => seq![
            input_read(Ty::I32, "seed"@),
            input_read(Ty::I32, "pick"@),
            Seq::<char>::empty(),
            indent(1) + "int (*call)(int) = table[pick & 1];"@,
            Seq::<char>::empty(),
            print_line(1, Ty::I32, "call(seed)"@),
        ],
    }
}

/// The headers of each shape.
pub open spec fn indirect_includes(shape: IndirectShape) -> Seq<Seq<char>> {
    match shape {
        IndirectShape::DirectAssign => Seq::empty(),
        IndirectShape::ConstantTable => Seq::empty(),
        IndirectShape::TwoTargets => Seq::empty(),
        IndirectShape::Unknown => Seq::empty(),
    }
}

/// What the program prints of each shape.
pub open spec fn indirect_expected(shape: IndirectShape) -> Seq<int> {
    match shape {
        IndirectShape::DirectAssign => seq![
            14int,
        ],
        IndirectShape::ConstantTable => seq![
            21int,
        ],
        IndirectShape::TwoTargets => seq![
            21int,
        ],
        IndirectShape::Unknown => seq![
            21int,
        ],
    }
}

/// Whether the shape asks for the volatile sink.
pub open spec fn indirect_sinks(shape: IndirectShape) -> bool {
    match shape {
        IndirectShape::DirectAssign => false,
        IndirectShape::ConstantTable => false,
        IndirectShape::TwoTargets => false,
        IndirectShape::Unknown => false,
    }
}

/// Writes some of the shapes.
#[verifier::rlimit(100)]
fn indirect_write_0(program: &mut Program, shape: IndirectShape)
    requires
        old(program).top_lines() == Seq::<Seq<char>>::empty(),
        old(program).body_lines() == Seq::<Seq<char>>::empty(),
        old(program).expected_values() == Seq::<int>::empty(),
        old(program).include_lines() == Seq::<Seq<char>>::empty(),
        !old(program).sinks(),
        shape == IndirectShape::DirectAssign || shape == IndirectShape::ConstantTable || shape == IndirectShape::TwoTargets || shape == IndirectShape::Unknown,
    ensures
        final(program).top_lines() == indirect_top(shape),
        final(program).body_lines() == indirect_body(shape),
        final(program).expected_values() == indirect_expected(shape),
        final(program).include_lines() == indirect_includes(shape),
        final(program).sinks() == indirect_sinks(shape),
        final(program).purpose_text() == old(program).purpose_text(),
{
    match shape {
        IndirectShape::DirectAssign => {
            program.top("static int twice(int value) { return value * 2; }");
            program.top("static int thrice(int value) { return value * 3; }");
            program.top("static int (*const table[2])(int) = { twice, thrice };");
            program.input(Ty::I32, "seed", 7);
            program.input(Ty::I32, "pick", 1);
            program.blank();
            program.line("int (*call)(int) = twice;");
            program.blank();
            program.check(Ty::I32, "call(seed)", 14);
            assert(program.top_lines() =~~= indirect_top(shape));
            assert(program.body_lines() =~~= indirect_body(shape));
            assert(program.expected_values() =~= indirect_expected(shape));
            assert(program.include_lines() =~~= indirect_includes(shape));
        },
        IndirectShape::ConstantTable => {
            program.top("static int twice(int value) { return value * 2; }");
            program.top("static int thrice(int value) { return value * 3; }");
            program.top("static int (*const table[2])(int) = { twice, thrice };");
            program.input(Ty::I32, "seed", 7);
            program.input(Ty::I32, "pick", 1);
            program.blank();
            program.line("int (*call)(int) = table[1];");
            program.blank();
            program.check(Ty::I32, "call(seed)", 21);
            assert(program.top_lines() =~~= indirect_top(shape));
            assert(program.body_lines() =~~= indirect_body(shape));
            assert(program.expected_values() =~= indirect_expected(shape));
            assert(program.include_lines() =~~= indirect_includes(shape));
        },
        IndirectShape::TwoTargets => {
            program.top("static int twice(int value) { return value * 2; }");
            program.top("static int thrice(int value) { return value * 3; }");
            program.top("static int (*const table[2])(int) = { twice, thrice };");
            program.input(Ty::I32, "seed", 7);
            program.input(Ty::I32, "pick", 1);
            program.blank();
            program.line("int (*call)(int) = pick ? thrice : twice;");
            program.blank();
            program.check(Ty::I32, "call(seed)", 21);
            assert(program.top_lines() =~~= indirect_top(shape));
            assert(program.body_lines() =~~= indirect_body(shape));
            assert(program.expected_values() =~= indirect_expected(shape));
            assert(program.include_lines() =~~= indirect_includes(shape));
        },
        IndirectShape::Unknown => {
            program.top("static int twice(int value) { return value * 2; }");
            program.top("static int thrice(int value) { return value * 3; }");
            program.top("static int (*const table[2])(int) = { twice, thrice };");
            program.input(Ty::I32, "seed", 7);
            program.input(Ty::I32, "pick", 1);
            program.blank();
            program.line("int (*call)(int) = table[pick & 1];");
            program.blank();
            program.check(Ty::I32, "call(seed)", 21);
            assert(program.top_lines() =~~= indirect_top(shape));
            assert(program.body_lines() =~~= indirect_body(shape));
            assert(program.expected_values() =~= indirect_expected(shape));
            assert(program.include_lines() =~~= indirect_includes(shape));
        },
    }
}

/// Writes a shape.
fn indirect_write(program: &mut Program, shape: IndirectShape)
    requires
        old(program).top_lines() == Seq::<Seq<char>>::empty(),
        old(program).body_lines() == Seq::<Seq<char>>::empty(),
        old(program).expected_values() == Seq::<int>::empty(),
        old(program).include_lines() == Seq::<Seq<char>>::empty(),
        !old(program).sinks(),
    ensures
        final(program).top_lines() == indirect_top(shape),
        final(program).body_lines() == indirect_body(shape),
        final(program).expected_values() == indirect_expected(shape),
        final(program).include_lines() == indirect_includes(shape),
        final(program).sinks() == indirect_sinks(shape),
        final(program).purpose_text() == old(program).purpose_text(),
{
    match shape {
        IndirectShape::DirectAssign | IndirectShape::ConstantTable | IndirectShape::TwoTargets | IndirectShape::Unknown => {
            indirect_write_0(program, shape);
        },
    }
}

/// Whether a case is the indirect shape, whole.
pub open spec fn is_indirect_case(c: Case, shape: IndirectShape) -> bool {
    &&& c.axes_text() == seq![("shape"@, shape.name_text())]
    &&& c.tags_text() == Seq::<Seq<char>>::empty()
    &&& c.program.purpose_text() == "an indirect call, "@ + shape.name_text()
    &&& c.program.include_lines() == indirect_includes(shape)
    &&& c.program.top_lines() == indirect_top(shape)
    &&& c.program.body_lines() == indirect_body(shape)
    &&& c.program.expected_values() == indirect_expected(shape)
    &&& c.program.sinks() == indirect_sinks(shape)
}

/// One indirect shape.
fn indirect_case(shape: IndirectShape) -> (r: Case)
    ensures
        is_indirect_case(r, shape),
{
    let mut purpose = String::new();
    purpose.append("an indirect call, ");
    purpose.append(shape.name());
    let mut program = Program::new(purpose.as_str());
    indirect_write(&mut program, shape);
    let axes = vec![axis("shape", shape.name())];
    let r = Case { axes, tags: tags_for(false), program };
    assert(r.axes_text() =~= seq![("shape"@, shape.name_text())]);
    assert(r.tags_text() =~= Seq::<Seq<char>>::empty());
    r
}

/// A call through a pointer whose target is known, in three amounts of work to see through, and
/// one whose target is not.
///
/// A pointer assigned a function and called at once is a peephole; one read out of a constant
/// table at a constant index needs the table known constant; one chosen by a branch has two
/// targets; and one read at an index nothing knows is the control.
pub fn devirtualize() -> (r: Vec<Case>)
    ensures
        r@.len() == 4,
        forall|k: int| 0 <= k < 4 ==> is_indirect_case(#[trigger] r@[k], indirect_shapes_list()[k]),
{
    let shapes = indirect_shapes_array();
    let mut out: Vec<Case> = Vec::new();
    let mut k: usize = 0;
    while k < 4
        invariant
            k <= 4,
            shapes@ == indirect_shapes_list(),
            out@.len() == k,
            forall|i: int| 0 <= i < k ==> is_indirect_case(#[trigger] out@[i], indirect_shapes_list()[i]),
        decreases 4 - k,
    {
        out.push(indirect_case(shapes[k]));
        k += 1;
    }
    out
}

/// What a function called five times with the same argument does, and who says so.
#[derive(Clone, Copy, Debug, PartialEq, Eq, Structural)]
pub enum CalleeShape {
    InferredConst,
    InferredPure,
    DeclaredConst,
    DeclaredPure,
    Impure,
    UnusedResult,
    LoopingConst,
}

impl CalleeShape {
    /// The axis value.
    pub open spec fn name_text(self) -> Seq<char> {
        match self {
            CalleeShape::InferredConst => "inferred-const"@,
            CalleeShape::InferredPure => "inferred-pure"@,
            CalleeShape::DeclaredConst => "declared-const"@,
            CalleeShape::DeclaredPure => "declared-pure"@,
            CalleeShape::Impure => "impure"@,
            CalleeShape::UnusedResult => "unused-result"@,
            CalleeShape::LoopingConst => "looping-const"@,
        }
    }

    /// The axis value.
    pub fn name(self) -> (r: &'static str)
        ensures
            r@ == self.name_text(),
    {
        match self {
            CalleeShape::InferredConst => "inferred-const",
            CalleeShape::InferredPure => "inferred-pure",
            CalleeShape::DeclaredConst => "declared-const",
            CalleeShape::DeclaredPure => "declared-pure",
            CalleeShape::Impure => "impure",
            CalleeShape::UnusedResult => "unused-result",
            CalleeShape::LoopingConst => "looping-const",
        }
    }

    /// Whether the shape says what the function is with an attribute, a GCC extension.
    pub open spec fn is_declared(self) -> bool {
        self == CalleeShape::DeclaredConst || self == CalleeShape::DeclaredPure
    }

    /// Whether the shape says what the function is with an attribute.
    pub fn declared(self) -> (r: bool)
        ensures
            r == self.is_declared(),
    {
        self == CalleeShape::DeclaredConst || self == CalleeShape::DeclaredPure
    }
}

/// The shapes in the order the facet walks them.
pub open spec fn callee_shapes_list() -> Seq<CalleeShape> {
    seq![
        CalleeShape::InferredConst,
        CalleeShape::InferredPure,
        CalleeShape::DeclaredConst,
        CalleeShape::DeclaredPure,
        CalleeShape::Impure,
        CalleeShape::UnusedResult,
        CalleeShape::LoopingConst,
    ]
}

/// The shapes in the order the facet walks them.
fn callee_shapes_array() -> (r: Vec<CalleeShape>)
    ensures
        r@ == callee_shapes_list(),
{
    let r = vec![
        CalleeShape::InferredConst,
        CalleeShape::InferredPure,
        CalleeShape::DeclaredConst,
        CalleeShape::DeclaredPure,
        CalleeShape::Impure,
        CalleeShape::UnusedResult,
        CalleeShape::LoopingConst,
    ];
    assert(r@ =~= callee_shapes_list());
    r
}

/// The lines before `main` of each shape.
pub open spec fn callee_top(ty: Ty, shape: CalleeShape) -> Seq<Seq<char>> {
    match shape {
        CalleeShape::InferredConst => seq![
            "static "@ + ty.c_text() + " helper("@ + ty.c_text() + " value) {"@,
            "    return "@ + lit_text(ty, 2int) + " * value;"@,
            "}"@,
            input_global(ty, "seed"@, 6int),
        ],
        CalleeShape::InferredPure => seq![
            "static "@ + ty.c_text() + " table[4] = { 1, 2, 3, 4 };"@,
            "static "@ + ty.c_text() + " helper("@ + ty.c_text() + " value) {"@,
            "    return table[1] * value;"@,
            "}"@,
            input_global(ty, "seed"@, 6int),
        ],
        CalleeShape::DeclaredConst => seq![
            "static __attribute__((const)) "@ + ty.c_text() + " helper("@ + ty.c_text() + " value) {"@,
            "    return "@ + lit_text(ty, 2int) + " * value;"@,
            "}"@,
            input_global(ty, "seed"@, 6int),
        ],
        CalleeShape::DeclaredPure => seq![
            "static "@ + ty.c_text() + " table[4] = { 1, 2, 3, 4 };"@,
            "static __attribute__((pure)) "@ + ty.c_text() + " helper("@ + ty.c_text() + " value) {"@,
            "    return table[1] * value;"@,
            "}"@,
            input_global(ty, "seed"@, 6int),
        ],
        CalleeShape::Impure => seq![
            "static "@ + ty.c_text() + " calls = 0;"@,
            "static "@ + ty.c_text() + " helper("@ + ty.c_text() + " value) {"@,
            "    calls = calls + 1;"@,
            "    return "@ + lit_text(ty, 2int) + " * value;"@,
            "}"@,
            input_global(ty, "seed"@, 6int),
        ],
        CalleeShape::UnusedResult => seq![
            "static "@ + ty.c_text() + " table[4] = { 1, 2, 3, 4 };"@,
            "static "@ + ty.c_text() + " helper("@ + ty.c_text() + " value) {"@,
            "    return table[1] * value;"@,
            "}"@,
            input_global(ty, "seed"@, 6int),
        ],
        CalleeShape::LoopingConst => seq![
            "static "@ + ty.c_text() + " helper("@ + ty.c_text() + " value) {"@,
            "    "@ + ty.c_text() + " sum = 0;"@,
            "    for ("@ + ty.c_text() + " i = 0; i < value; i++) {"@,
            "        sum += "@ + lit_text(ty, 2int) + ";"@,
            "    }"@,
            "    return sum;"@,
            "}"@,
            input_global(ty, "seed"@, 6int),
        ],
    }
}

/// The statements of `main` of each shape.
pub open spec fn callee_body(ty: Ty, shape: CalleeShape) -> Seq<Seq<char>> {
    match shape {
        CalleeShape::InferredConst => seq![
            input_read(ty, "seed"@),
            Seq::<char>::empty(),
            indent(1) + ty.c_text() + " total = 0;"@,
            indent(1) + "for (int i = 0; i < 5; i++) {"@,
            indent(2) + "total += helper(seed);"@,
            indent(1) + "}"@,
            Seq::<char>::empty(),
            print_line(1, ty.promotion(), "total"@),
        ],
        CalleeShape::InferredPure => seq![
            input_read(ty, "seed"@),
            Seq::<char>::empty(),
            indent(1) + ty.c_text() + " total = 0;"@,
            indent(1) + "for (int i = 0; i < 5; i++) {"@,
            indent(2) + "total += helper(seed);"@,
            indent(1) + "}"@,
            Seq::<char>::empty(),
            print_line(1, ty.promotion(), "total"@),
        ],
        CalleeShape::DeclaredConst => seq![
            input_read(ty, "seed"@),
            Seq::<char>::empty(),
            indent(1) + ty.c_text() + " total = 0;"@,
            indent(1) + "for (int i = 0; i < 5; i++) {"@,
            indent(2) + "total += helper(seed);"@,
            indent(1) + "}"@,
            Seq::<char>::empty(),
            print_line(1, ty.promotion(), "total"@),
        ],
        CalleeShape::DeclaredPure => seq![
            input_read(ty, "seed"@),
            Seq::<char>::empty(),
            indent(1) + ty.c_text() + " total = 0;"@,
            indent(1) + "for (int i = 0; i < 5; i++) {"@,
            indent(2) + "total += helper(seed);"@,
            indent(1) + "}"@,
            Seq::<char>::empty(),
            print_line(1, ty.promotion(), "total"@),
        ],
        CalleeShape::Impure => seq![
            input_read(ty, "seed"@),
            Seq::<char>::empty(),
            indent(1) + ty.c_text() + " total = 0;"@,
            indent(1) + "for (int i = 0; i < 5; i++) {"@,
            indent(2) + "total += helper(seed);"@,
            indent(1) + "}"@,
            Seq::<char>::empty(),
            print_line(1, ty.promotion(), "total"@),
            print_line(1, ty.promotion(), "calls"@),
        ],
        CalleeShape::UnusedResult => seq![
            input_read(ty, "seed"@),
            Seq::<char>::empty(),
            indent(1) + ty.c_text() + " total = 0;"@,
            indent(1) + "for (int i = 0; i < 5; i++) {"@,
            indent(2) + "helper(seed);"@,
            indent(2) + "total += helper(seed);"@,
            indent(1) + "}"@,
            Seq::<char>::empty(),
            print_line(1, ty.promotion(), "total"@),
        ],
        CalleeShape::LoopingConst => seq![
            input_read(ty, "seed"@),
            Seq::<char>::empty(),
            indent(1) + ty.c_text() + " total = 0;"@,
            indent(1) + "for (int i = 0; i < 5; i++) {"@,
            indent(2) + "helper(seed);"@,
            indent(2) + "total += helper(seed);"@,
            indent(1) + "}"@,
            Seq::<char>::empty(),
            print_line(1, ty.promotion(), "total"@),
        ],
    }
}

/// The headers of each shape.
pub open spec fn callee_includes(ty: Ty, shape: CalleeShape) -> Seq<Seq<char>> {
    match shape {
        CalleeShape::InferredConst => Seq::empty(),
        CalleeShape::InferredPure => Seq::empty(),
        CalleeShape::DeclaredConst => Seq::empty(),
        CalleeShape::DeclaredPure => Seq::empty(),
        CalleeShape::Impure => Seq::empty(),
        CalleeShape::UnusedResult => Seq::empty(),
        CalleeShape::LoopingConst => Seq::empty(),
    }
}

/// What the program prints of each shape.
pub open spec fn callee_expected(ty: Ty, shape: CalleeShape) -> Seq<int> {
    match shape {
        CalleeShape::InferredConst => seq![
            60int,
        ],
        CalleeShape::InferredPure => seq![
            60int,
        ],
        CalleeShape::DeclaredConst => seq![
            60int,
        ],
        CalleeShape::DeclaredPure => seq![
            60int,
        ],
        CalleeShape::Impure => seq![
            60int,
            5int,
        ],
        CalleeShape::UnusedResult => seq![
            60int,
        ],
        CalleeShape::LoopingConst => seq![
            60int,
        ],
    }
}

/// Whether the shape asks for the volatile sink.
pub open spec fn callee_sinks(shape: CalleeShape) -> bool {
    match shape {
        CalleeShape::InferredConst => false,
        CalleeShape::InferredPure => false,
        CalleeShape::DeclaredConst => false,
        CalleeShape::DeclaredPure => false,
        CalleeShape::Impure => false,
        CalleeShape::UnusedResult => false,
        CalleeShape::LoopingConst => false,
    }
}

/// Writes some of the shapes.
#[verifier::rlimit(100)]
fn callee_write_0(program: &mut Program, ty: Ty, shape: CalleeShape)
    requires
        old(program).top_lines() == Seq::<Seq<char>>::empty(),
        old(program).body_lines() == Seq::<Seq<char>>::empty(),
        old(program).expected_values() == Seq::<int>::empty(),
        old(program).include_lines() == Seq::<Seq<char>>::empty(),
        !old(program).sinks(),
        shape == CalleeShape::InferredConst || shape == CalleeShape::InferredPure || shape == CalleeShape::DeclaredConst,
    ensures
        final(program).top_lines() == callee_top(ty, shape),
        final(program).body_lines() == callee_body(ty, shape),
        final(program).expected_values() == callee_expected(ty, shape),
        final(program).include_lines() == callee_includes(ty, shape),
        final(program).sinks() == callee_sinks(shape),
        final(program).purpose_text() == old(program).purpose_text(),
{
    let c = ty.c_name();
    match shape {
        CalleeShape::InferredConst => {
            let mut text1 = String::from_str("static ");
            text1.append(c);
            text1.append(" helper(");
            text1.append(c);
            text1.append(" value) {");
            program.top(text1.as_str());
            let mut text2 = String::from_str("    return ");
            let literal3 = lit(ty, 2);
            text2.append(literal3.as_str());
            text2.append(" * value;");
            program.top(text2.as_str());
            program.top("}");
            program.input(ty, "seed", 6);
            program.blank();
            let mut text4 = String::from_str(c);
            text4.append(" total = 0;");
            program.line(text4.as_str());
            program.line("for (int i = 0; i < 5; i++) {");
            program.line_at(1, "total += helper(seed);");
            program.line("}");
            program.blank();
            program.check(ty.promoted(), "total", 60);
            assert(program.top_lines() =~~= callee_top(ty, shape));
            assert(program.body_lines() =~~= callee_body(ty, shape));
            assert(program.expected_values() =~= callee_expected(ty, shape));
            assert(program.include_lines() =~~= callee_includes(ty, shape));
        },
        CalleeShape::InferredPure => {
            let mut text1 = String::from_str("static ");
            text1.append(c);
            text1.append(" table[4] = { 1, 2, 3, 4 };");
            program.top(text1.as_str());
            let mut text2 = String::from_str("static ");
            text2.append(c);
            text2.append(" helper(");
            text2.append(c);
            text2.append(" value) {");
            program.top(text2.as_str());
            program.top("    return table[1] * value;");
            program.top("}");
            program.input(ty, "seed", 6);
            program.blank();
            let mut text3 = String::from_str(c);
            text3.append(" total = 0;");
            program.line(text3.as_str());
            program.line("for (int i = 0; i < 5; i++) {");
            program.line_at(1, "total += helper(seed);");
            program.line("}");
            program.blank();
            program.check(ty.promoted(), "total", 60);
            assert(program.top_lines() =~~= callee_top(ty, shape));
            assert(program.body_lines() =~~= callee_body(ty, shape));
            assert(program.expected_values() =~= callee_expected(ty, shape));
            assert(program.include_lines() =~~= callee_includes(ty, shape));
        },
        CalleeShape::DeclaredConst => {
            let mut text1 = String::from_str("static __attribute__((const)) ");
            text1.append(c);
            text1.append(" helper(");
            text1.append(c);
            text1.append(" value) {");
            program.top(text1.as_str());
            let mut text2 = String::from_str("    return ");
            let literal3 = lit(ty, 2);
            text2.append(literal3.as_str());
            text2.append(" * value;");
            program.top(text2.as_str());
            program.top("}");
            program.input(ty, "seed", 6);
            program.blank();
            let mut text4 = String::from_str(c);
            text4.append(" total = 0;");
            program.line(text4.as_str());
            program.line("for (int i = 0; i < 5; i++) {");
            program.line_at(1, "total += helper(seed);");
            program.line("}");
            program.blank();
            program.check(ty.promoted(), "total", 60);
            assert(program.top_lines() =~~= callee_top(ty, shape));
            assert(program.body_lines() =~~= callee_body(ty, shape));
            assert(program.expected_values() =~= callee_expected(ty, shape));
            assert(program.include_lines() =~~= callee_includes(ty, shape));
        },
        _ => {},
    }
}

/// Writes some of the shapes.
#[verifier::rlimit(100)]
fn callee_write_1(program: &mut Program, ty: Ty, shape: CalleeShape)
    requires
        old(program).top_lines() == Seq::<Seq<char>>::empty(),
        old(program).body_lines() == Seq::<Seq<char>>::empty(),
        old(program).expected_values() == Seq::<int>::empty(),
        old(program).include_lines() == Seq::<Seq<char>>::empty(),
        !old(program).sinks(),
        shape == CalleeShape::DeclaredPure || shape == CalleeShape::Impure || shape == CalleeShape::UnusedResult,
    ensures
        final(program).top_lines() == callee_top(ty, shape),
        final(program).body_lines() == callee_body(ty, shape),
        final(program).expected_values() == callee_expected(ty, shape),
        final(program).include_lines() == callee_includes(ty, shape),
        final(program).sinks() == callee_sinks(shape),
        final(program).purpose_text() == old(program).purpose_text(),
{
    let c = ty.c_name();
    match shape {
        CalleeShape::DeclaredPure => {
            let mut text1 = String::from_str("static ");
            text1.append(c);
            text1.append(" table[4] = { 1, 2, 3, 4 };");
            program.top(text1.as_str());
            let mut text2 = String::from_str("static __attribute__((pure)) ");
            text2.append(c);
            text2.append(" helper(");
            text2.append(c);
            text2.append(" value) {");
            program.top(text2.as_str());
            program.top("    return table[1] * value;");
            program.top("}");
            program.input(ty, "seed", 6);
            program.blank();
            let mut text3 = String::from_str(c);
            text3.append(" total = 0;");
            program.line(text3.as_str());
            program.line("for (int i = 0; i < 5; i++) {");
            program.line_at(1, "total += helper(seed);");
            program.line("}");
            program.blank();
            program.check(ty.promoted(), "total", 60);
            assert(program.top_lines() =~~= callee_top(ty, shape));
            assert(program.body_lines() =~~= callee_body(ty, shape));
            assert(program.expected_values() =~= callee_expected(ty, shape));
            assert(program.include_lines() =~~= callee_includes(ty, shape));
        },
        CalleeShape::Impure => {
            let mut text1 = String::from_str("static ");
            text1.append(c);
            text1.append(" calls = 0;");
            program.top(text1.as_str());
            let mut text2 = String::from_str("static ");
            text2.append(c);
            text2.append(" helper(");
            text2.append(c);
            text2.append(" value) {");
            program.top(text2.as_str());
            program.top("    calls = calls + 1;");
            let mut text3 = String::from_str("    return ");
            let literal4 = lit(ty, 2);
            text3.append(literal4.as_str());
            text3.append(" * value;");
            program.top(text3.as_str());
            program.top("}");
            program.input(ty, "seed", 6);
            program.blank();
            let mut text5 = String::from_str(c);
            text5.append(" total = 0;");
            program.line(text5.as_str());
            program.line("for (int i = 0; i < 5; i++) {");
            program.line_at(1, "total += helper(seed);");
            program.line("}");
            program.blank();
            program.check(ty.promoted(), "total", 60);
            program.check(ty.promoted(), "calls", 5);
            assert(program.top_lines() =~~= callee_top(ty, shape));
            assert(program.body_lines() =~~= callee_body(ty, shape));
            assert(program.expected_values() =~= callee_expected(ty, shape));
            assert(program.include_lines() =~~= callee_includes(ty, shape));
        },
        CalleeShape::UnusedResult => {
            let mut text1 = String::from_str("static ");
            text1.append(c);
            text1.append(" table[4] = { 1, 2, 3, 4 };");
            program.top(text1.as_str());
            let mut text2 = String::from_str("static ");
            text2.append(c);
            text2.append(" helper(");
            text2.append(c);
            text2.append(" value) {");
            program.top(text2.as_str());
            program.top("    return table[1] * value;");
            program.top("}");
            program.input(ty, "seed", 6);
            program.blank();
            let mut text3 = String::from_str(c);
            text3.append(" total = 0;");
            program.line(text3.as_str());
            program.line("for (int i = 0; i < 5; i++) {");
            program.line_at(1, "helper(seed);");
            program.line_at(1, "total += helper(seed);");
            program.line("}");
            program.blank();
            program.check(ty.promoted(), "total", 60);
            assert(program.top_lines() =~~= callee_top(ty, shape));
            assert(program.body_lines() =~~= callee_body(ty, shape));
            assert(program.expected_values() =~= callee_expected(ty, shape));
            assert(program.include_lines() =~~= callee_includes(ty, shape));
        },
        _ => {},
    }
}

/// Writes some of the shapes.
#[verifier::rlimit(100)]
fn callee_write_2(program: &mut Program, ty: Ty, shape: CalleeShape)
    requires
        old(program).top_lines() == Seq::<Seq<char>>::empty(),
        old(program).body_lines() == Seq::<Seq<char>>::empty(),
        old(program).expected_values() == Seq::<int>::empty(),
        old(program).include_lines() == Seq::<Seq<char>>::empty(),
        !old(program).sinks(),
        shape == CalleeShape::LoopingConst,
    ensures
        final(program).top_lines() == callee_top(ty, shape),
        final(program).body_lines() == callee_body(ty, shape),
        final(program).expected_values() == callee_expected(ty, shape),
        final(program).include_lines() == callee_includes(ty, shape),
        final(program).sinks() == callee_sinks(shape),
        final(program).purpose_text() == old(program).purpose_text(),
{
    let c = ty.c_name();
    match shape {
        CalleeShape::LoopingConst => {
            let mut text1 = String::from_str("static ");
            text1.append(c);
            text1.append(" helper(");
            text1.append(c);
            text1.append(" value) {");
            program.top(text1.as_str());
            let mut text2 = String::from_str("    ");
            text2.append(c);
            text2.append(" sum = 0;");
            program.top(text2.as_str());
            let mut text3 = String::from_str("    for (");
            text3.append(c);
            text3.append(" i = 0; i < value; i++) {");
            program.top(text3.as_str());
            let mut text4 = String::from_str("        sum += ");
            let literal5 = lit(ty, 2);
            text4.append(literal5.as_str());
            text4.append(";");
            program.top(text4.as_str());
            program.top("    }");
            program.top("    return sum;");
            program.top("}");
            program.input(ty, "seed", 6);
            program.blank();
            let mut text6 = String::from_str(c);
            text6.append(" total = 0;");
            program.line(text6.as_str());
            program.line("for (int i = 0; i < 5; i++) {");
            program.line_at(1, "helper(seed);");
            program.line_at(1, "total += helper(seed);");
            program.line("}");
            program.blank();
            program.check(ty.promoted(), "total", 60);
            assert(program.top_lines() =~~= callee_top(ty, shape));
            assert(program.body_lines() =~~= callee_body(ty, shape));
            assert(program.expected_values() =~= callee_expected(ty, shape));
            assert(program.include_lines() =~~= callee_includes(ty, shape));
        },
        _ => {},
    }
}

/// Writes a shape.
fn callee_write(program: &mut Program, ty: Ty, shape: CalleeShape)
    requires
        old(program).top_lines() == Seq::<Seq<char>>::empty(),
        old(program).body_lines() == Seq::<Seq<char>>::empty(),
        old(program).expected_values() == Seq::<int>::empty(),
        old(program).include_lines() == Seq::<Seq<char>>::empty(),
        !old(program).sinks(),
    ensures
        final(program).top_lines() == callee_top(ty, shape),
        final(program).body_lines() == callee_body(ty, shape),
        final(program).expected_values() == callee_expected(ty, shape),
        final(program).include_lines() == callee_includes(ty, shape),
        final(program).sinks() == callee_sinks(shape),
        final(program).purpose_text() == old(program).purpose_text(),
{
    match shape {
        CalleeShape::InferredConst | CalleeShape::InferredPure | CalleeShape::DeclaredConst => {
            callee_write_0(program, ty, shape);
        },
        CalleeShape::DeclaredPure | CalleeShape::Impure | CalleeShape::UnusedResult => {
            callee_write_1(program, ty, shape);
        },
        CalleeShape::LoopingConst => {
            callee_write_2(program, ty, shape);
        },
    }
}

/// Whether a case is the callee shape at a type, whole.
pub open spec fn is_callee_case(c: Case, ty: Ty, shape: CalleeShape) -> bool {
    &&& c.axes_text() == seq![("type"@, ty.name_text()), ("shape"@, shape.name_text())]
    &&& c.tags_text() == gnu_when(shape.is_declared())
    &&& c.program.purpose_text() == "a "@ + shape.name_text() + " "@ + ty.c_text() + " function called five times"@
    &&& c.program.include_lines() == callee_includes(ty, shape)
    &&& c.program.top_lines() == callee_top(ty, shape)
    &&& c.program.body_lines() == callee_body(ty, shape)
    &&& c.program.expected_values() == callee_expected(ty, shape)
    &&& c.program.sinks() == callee_sinks(shape)
}

/// One callee shape at one type.
fn callee_case(ty: Ty, shape: CalleeShape) -> (r: Case)
    ensures
        is_callee_case(r, ty, shape),
{
    let mut purpose = String::new();
    purpose.append("a ");
    purpose.append(shape.name());
    purpose.append(" ");
    purpose.append(ty.c_name());
    purpose.append(" function called five times");
    let mut program = Program::new(purpose.as_str());
    callee_write(&mut program, ty, shape);
    let axes = vec![axis("type", ty.name()), axis("shape", shape.name())];
    let r = Case { axes, tags: tags_for(shape.declared()), program };
    assert(r.axes_text() =~= seq![("type"@, ty.name_text()), ("shape"@, shape.name_text())]);
    assert(r.tags_text() =~= gnu_when(shape.is_declared()));
    r
}

/// Functions that do not look at memory, called more than once with the same argument, on every
/// type at the width of a register.
///
/// A function that reads and writes nothing can be called once instead of five times, and one
/// that only reads can be while nothing writes. Whether the compiler works that out or is told
/// with an attribute is the axis, and the attribute shapes are tagged `gnu`. The last two throw
/// one call's result away each time round, once with a helper that multiplies and once with one
/// that loops to the same answer.
pub fn function_purity() -> (r: Vec<Case>)
    ensures
        r@.len() == 28,
        forall|k: int|
            0 <= k < 28 ==> is_callee_case(
                #[trigger] r@[k],
                wide_types()[k / 7],
                callee_shapes_list()[k % 7],
            ),
{
    let types = wide();
    let shapes = callee_shapes_array();
    let mut out: Vec<Case> = Vec::new();
    let mut k: usize = 0;
    while k < 28
        invariant
            k <= 28,
            types@ == wide_types(),
            shapes@ == callee_shapes_list(),
            out@.len() == k,
            forall|i: int|
                0 <= i < k ==> is_callee_case(
                    #[trigger] out@[i],
                    wide_types()[i / 7],
                    callee_shapes_list()[i % 7],
                ),
        decreases 28 - k,
    {
        out.push(callee_case(types[k / 7], shapes[k % 7]));
        k += 1;
    }
    out
}

/// Recursion that is really a loop: a function calling itself, two calling each other, and a tail call to another function.
#[derive(Clone, Copy, Debug, PartialEq, Eq, Structural)]
pub enum RecursionShape {
    SelfCall,
    Mutual,
    Forward,
}

impl RecursionShape {
    /// The axis value.
    pub open spec fn name_text(self) -> Seq<char> {
        match self {
            RecursionShape::SelfCall => "self"@,
            RecursionShape::Mutual => "mutual"@,
            RecursionShape::Forward => "forward"@,
        }
    }

    /// The axis value.
    pub fn name(self) -> (r: &'static str)
        ensures
            r@ == self.name_text(),
    {
        match self {
            RecursionShape::SelfCall => "self",
            RecursionShape::Mutual => "mutual",
            RecursionShape::Forward => "forward",
        }
    }
}

/// The shapes in the order the facet walks them.
pub open spec fn recursion_shapes_list() -> Seq<RecursionShape> {
    seq![
        RecursionShape::SelfCall,
        RecursionShape::Mutual,
        RecursionShape::Forward,
    ]
}

/// The shapes in the order the facet walks them.
fn recursion_shapes_array() -> (r: Vec<RecursionShape>)
    ensures
        r@ == recursion_shapes_list(),
{
    let r = vec![
        RecursionShape::SelfCall,
        RecursionShape::Mutual,
        RecursionShape::Forward,
    ];
    assert(r@ =~= recursion_shapes_list());
    r
}

/// The lines before `main` of each shape.
pub open spec fn recursion_top(ty: Ty, shape: RecursionShape) -> Seq<Seq<char>> {
    match shape {
        RecursionShape::SelfCall => seq![
            "static "@ + ty.c_text() + " walk(int left, "@ + ty.c_text() + " total) {"@,
            "    if (left == 0) {"@,
            "        return total;"@,
            "    }"@,
            "    return walk(left - 1, total + 1);"@,
            "}"@,
        ],
        RecursionShape::Mutual => seq![
            "static "@ + ty.c_text() + " odd(int left, "@ + ty.c_text() + " total);"@,
            "static "@ + ty.c_text() + " even(int left, "@ + ty.c_text() + " total) {"@,
            "    if (left == 0) {"@,
            "        return total;"@,
            "    }"@,
            "    return odd(left - 1, total + 1);"@,
            "}"@,
            "static "@ + ty.c_text() + " odd(int left, "@ + ty.c_text() + " total) {"@,
            "    if (left == 0) {"@,
            "        return total;"@,
            "    }"@,
            "    return even(left - 1, total + 1);"@,
            "}"@,
            "static "@ + ty.c_text() + " walk(int left, "@ + ty.c_text() + " total) {"@,
            "    return even(left, total);"@,
            "}"@,
        ],
        RecursionShape::Forward => seq![
            "static "@ + ty.c_text() + " finish("@ + ty.c_text() + " total) {"@,
            "    return total;"@,
            "}"@,
            "static "@ + ty.c_text() + " step(int left, "@ + ty.c_text() + " total) {"@,
            "    if (left == 0) {"@,
            "        return finish(total);"@,
            "    }"@,
            "    return step(left - 1, total + 1);"@,
            "}"@,
            "static "@ + ty.c_text() + " walk(int left, "@ + ty.c_text() + " total) {"@,
            "    return step(left, total);"@,
            "}"@,
        ],
    }
}

/// The statements of `main` of each shape.
pub open spec fn recursion_body(ty: Ty, shape: RecursionShape) -> Seq<Seq<char>> {
    match shape {
        RecursionShape::SelfCall => Seq::empty(),
        RecursionShape::Mutual => Seq::empty(),
        RecursionShape::Forward => Seq::empty(),
    }
}

/// The headers of each shape.
pub open spec fn recursion_includes(ty: Ty, shape: RecursionShape) -> Seq<Seq<char>> {
    match shape {
        RecursionShape::SelfCall => Seq::empty(),
        RecursionShape::Mutual => Seq::empty(),
        RecursionShape::Forward => Seq::empty(),
    }
}

/// What the program prints of each shape.
pub open spec fn recursion_expected(ty: Ty, shape: RecursionShape) -> Seq<int> {
    match shape {
        RecursionShape::SelfCall => Seq::empty(),
        RecursionShape::Mutual => Seq::empty(),
        RecursionShape::Forward => Seq::empty(),
    }
}

/// Whether the shape asks for the volatile sink.
pub open spec fn recursion_sinks(shape: RecursionShape) -> bool {
    match shape {
        RecursionShape::SelfCall => false,
        RecursionShape::Mutual => false,
        RecursionShape::Forward => false,
    }
}

/// Writes some of the shapes.
#[verifier::rlimit(100)]
fn recursion_write_0(program: &mut Program, ty: Ty, shape: RecursionShape)
    requires
        old(program).top_lines() == Seq::<Seq<char>>::empty(),
        old(program).body_lines() == Seq::<Seq<char>>::empty(),
        old(program).expected_values() == Seq::<int>::empty(),
        old(program).include_lines() == Seq::<Seq<char>>::empty(),
        !old(program).sinks(),
        shape == RecursionShape::SelfCall || shape == RecursionShape::Mutual || shape == RecursionShape::Forward,
    ensures
        final(program).top_lines() == recursion_top(ty, shape),
        final(program).body_lines() == recursion_body(ty, shape),
        final(program).expected_values() == recursion_expected(ty, shape),
        final(program).include_lines() == recursion_includes(ty, shape),
        final(program).sinks() == recursion_sinks(shape),
        final(program).purpose_text() == old(program).purpose_text(),
{
    let c = ty.c_name();
    match shape {
        RecursionShape::SelfCall => {
            let mut text1 = String::from_str("static ");
            text1.append(c);
            text1.append(" walk(int left, ");
            text1.append(c);
            text1.append(" total) {");
            program.top(text1.as_str());
            program.top("    if (left == 0) {");
            program.top("        return total;");
            program.top("    }");
            program.top("    return walk(left - 1, total + 1);");
            program.top("}");
            assert(program.top_lines() =~~= recursion_top(ty, shape));
            assert(program.body_lines() =~~= recursion_body(ty, shape));
            assert(program.expected_values() =~= recursion_expected(ty, shape));
            assert(program.include_lines() =~~= recursion_includes(ty, shape));
        },
        RecursionShape::Mutual => {
            let mut text1 = String::from_str("static ");
            text1.append(c);
            text1.append(" odd(int left, ");
            text1.append(c);
            text1.append(" total);");
            program.top(text1.as_str());
            let mut text2 = String::from_str("static ");
            text2.append(c);
            text2.append(" even(int left, ");
            text2.append(c);
            text2.append(" total) {");
            program.top(text2.as_str());
            program.top("    if (left == 0) {");
            program.top("        return total;");
            program.top("    }");
            program.top("    return odd(left - 1, total + 1);");
            program.top("}");
            let mut text3 = String::from_str("static ");
            text3.append(c);
            text3.append(" odd(int left, ");
            text3.append(c);
            text3.append(" total) {");
            program.top(text3.as_str());
            program.top("    if (left == 0) {");
            program.top("        return total;");
            program.top("    }");
            program.top("    return even(left - 1, total + 1);");
            program.top("}");
            let mut text4 = String::from_str("static ");
            text4.append(c);
            text4.append(" walk(int left, ");
            text4.append(c);
            text4.append(" total) {");
            program.top(text4.as_str());
            program.top("    return even(left, total);");
            program.top("}");
            assert(program.top_lines() =~~= recursion_top(ty, shape));
            assert(program.body_lines() =~~= recursion_body(ty, shape));
            assert(program.expected_values() =~= recursion_expected(ty, shape));
            assert(program.include_lines() =~~= recursion_includes(ty, shape));
        },
        RecursionShape::Forward => {
            let mut text1 = String::from_str("static ");
            text1.append(c);
            text1.append(" finish(");
            text1.append(c);
            text1.append(" total) {");
            program.top(text1.as_str());
            program.top("    return total;");
            program.top("}");
            let mut text2 = String::from_str("static ");
            text2.append(c);
            text2.append(" step(int left, ");
            text2.append(c);
            text2.append(" total) {");
            program.top(text2.as_str());
            program.top("    if (left == 0) {");
            program.top("        return finish(total);");
            program.top("    }");
            program.top("    return step(left - 1, total + 1);");
            program.top("}");
            let mut text3 = String::from_str("static ");
            text3.append(c);
            text3.append(" walk(int left, ");
            text3.append(c);
            text3.append(" total) {");
            program.top(text3.as_str());
            program.top("    return step(left, total);");
            program.top("}");
            assert(program.top_lines() =~~= recursion_top(ty, shape));
            assert(program.body_lines() =~~= recursion_body(ty, shape));
            assert(program.expected_values() =~= recursion_expected(ty, shape));
            assert(program.include_lines() =~~= recursion_includes(ty, shape));
        },
    }
}

/// Writes a shape.
fn recursion_write(program: &mut Program, ty: Ty, shape: RecursionShape)
    requires
        old(program).top_lines() == Seq::<Seq<char>>::empty(),
        old(program).body_lines() == Seq::<Seq<char>>::empty(),
        old(program).expected_values() == Seq::<int>::empty(),
        old(program).include_lines() == Seq::<Seq<char>>::empty(),
        !old(program).sinks(),
    ensures
        final(program).top_lines() == recursion_top(ty, shape),
        final(program).body_lines() == recursion_body(ty, shape),
        final(program).expected_values() == recursion_expected(ty, shape),
        final(program).include_lines() == recursion_includes(ty, shape),
        final(program).sinks() == recursion_sinks(shape),
        final(program).purpose_text() == old(program).purpose_text(),
{
    match shape {
        RecursionShape::SelfCall | RecursionShape::Mutual | RecursionShape::Forward => {
            recursion_write_0(program, ty, shape);
        },
    }
}

/// The tags of a recursion program: the deepest needs the calls to have become jumps.
pub open spec fn recursion_tags(depth: int) -> Seq<Seq<char>> {
    if depth >= 5000 {
        seq!["needs-tail-calls"@]
    } else {
        Seq::empty()
    }
}

/// Whether a case is the recursion program for a type, a depth and a shape, whole.
pub open spec fn is_recursion_case(c: Case, ty: Ty, depth: int, shape: RecursionShape) -> bool {
    &&& c.axes_text() == seq![
        ("type"@, ty.name_text()),
        ("depth"@, decimal(depth)),
        ("shape"@, shape.name_text()),
    ]
    &&& c.tags_text() == recursion_tags(depth)
    &&& c.program.purpose_text() == shape.name_text() + " tail recursion "@ + decimal(depth)
        + " deep accumulating into "@ + ty.c_text()
    &&& c.program.include_lines() == Seq::<Seq<char>>::empty()
    &&& c.program.top_lines() == recursion_top(ty, shape).push(
        input_global(Ty::I32, "depth"@, depth),
    )
    &&& c.program.body_lines() == seq![
        input_read(Ty::I32, "depth"@),
        Seq::empty(),
        print_line(1, ty.promotion(), "walk(depth, "@ + lit_text(ty, 0) + ")"@),
    ]
    &&& c.program.expected_values() == seq![depth]
    &&& !c.program.sinks()
}

/// The recursion program for one type, depth and shape.
fn recursion_case(ty: Ty, depth: i128, shape: RecursionShape) -> (r: Case)
    requires
        1 <= depth <= 5000,
    ensures
        is_recursion_case(r, ty, depth as int, shape),
{
    let deep = decimal_string(depth);
    let mut purpose = String::from_str(shape.name());
    purpose.append(" tail recursion ");
    purpose.append(deep.as_str());
    purpose.append(" deep accumulating into ");
    purpose.append(ty.c_name());
    let mut program = Program::new(purpose.as_str());
    recursion_write(&mut program, ty, shape);
    program.input(Ty::I32, "depth", depth);
    program.blank();
    let mut call = String::from_str("walk(depth, ");
    let zero = lit(ty, 0);
    call.append(zero.as_str());
    call.append(")");
    program.check(ty.promoted(), call.as_str(), depth);
    assert(program.body_lines() =~~= seq![
        input_read(Ty::I32, "depth"@),
        Seq::empty(),
        print_line(1, ty.promotion(), "walk(depth, "@ + lit_text(ty, 0) + ")"@),
    ]);
    let axes = vec![axis("type", ty.name()), axis("depth", deep.as_str()), axis("shape", shape.name())];
    let tags = if depth >= 5000 {
        vec![String::from_str("needs-tail-calls")]
    } else {
        Vec::new()
    };
    let r = Case { axes, tags, program };
    assert(r.axes_text() =~= seq![
        ("type"@, ty.name_text()),
        ("depth"@, decimal(depth as int)),
        ("shape"@, shape.name_text()),
    ]);
    assert(r.tags_text() =~= recursion_tags(depth as int));
    assert(r.program.expected_values() =~= seq![depth as int]);
    r
}

/// The depths of the recursion programs.
pub open spec fn recursion_depths() -> Seq<int> {
    seq![8, 1000, 5000]
}

/// Recursion that is really a loop, on every type at the width of a register.
///
/// Self recursion with an accumulator, mutual recursion between two functions, and a tail call
/// to a different function, each of which should become a jump. The depths stop at five thousand
/// rather than at one that overflows a stack, since a program that only passes when the call
/// became a jump fails at `-O0` for every compiler; the deepest is tagged as needing tail calls.
pub fn tail_call() -> (r: Vec<Case>)
    ensures
        r@.len() == 36,
        forall|k: int|
            0 <= k < 36 ==> is_recursion_case(
                #[trigger] r@[k],
                wide_types()[k / 9],
                recursion_depths()[(k % 9) / 3],
                recursion_shapes_list()[k % 3],
            ),
{
    let types = wide();
    let shapes = recursion_shapes_array();
    let depths: [i128; 3] = [8, 1000, 5000];
    let mut out: Vec<Case> = Vec::new();
    let mut k: usize = 0;
    while k < 36
        invariant
            k <= 36,
            types@ == wide_types(),
            shapes@ == recursion_shapes_list(),
            depths@ == seq![8i128, 1000, 5000],
            out@.len() == k,
            forall|i: int|
                0 <= i < k ==> is_recursion_case(
                    #[trigger] out@[i],
                    wide_types()[i / 9],
                    recursion_depths()[(i % 9) / 3],
                    recursion_shapes_list()[i % 3],
                ),
        decreases 36 - k,
    {
        let depth = depths[(k % 9) / 3];
        assert(depth as int == recursion_depths()[(k as int % 9) / 3]);
        out.push(recursion_case(types[k / 9], depth, shapes[k % 3]));
        k += 1;
    }
    out
}

/// One statement of the inlined helper: add the next number.
pub open spec fn helper_step(ty: Ty, s: int) -> Seq<char> {
    "    value = value + "@ + lit_text(ty, s + 1) + ";"@
}

/// One call of the helper, at its own offset from the seed.
pub open spec fn helper_call(ty: Ty, at: int) -> Seq<char> {
    indent(1) + "total += helper(seed + "@ + lit_text(ty, at) + ");"@
}

/// The helper an inlining program calls, before `main`.
pub open spec fn helper_top(ty: Ty, body: nat) -> Seq<Seq<char>> {
    seq!["static "@ + ty.c_text() + " helper("@ + ty.c_text() + " value) {"@] + Seq::new(
        body,
        |s: int| helper_step(ty, s),
    ) + seq!["    return value;"@, "}"@, input_global(ty, "seed"@, 0)]
}

/// What an inlining program prints: every call adds its offset and the helper's own sum.
pub open spec fn inline_total(body: int, sites: int) -> int {
    sites * (body * (body + 1) / 2) + sites * (sites - 1) / 2
}

/// Whether a case is the inlining program for a type, a body size and a call count, whole.
pub open spec fn is_inline_case(c: Case, ty: Ty, body: int, sites: int) -> bool {
    &&& c.axes_text() == seq![
        ("type"@, ty.name_text()),
        ("body"@, decimal(body)),
        ("sites"@, decimal(sites)),
    ]
    &&& c.tags_text() == Seq::<Seq<char>>::empty()
    &&& c.program.purpose_text() == "a "@ + decimal(body) + " statement "@ + ty.c_text()
        + " helper called from "@ + decimal(sites) + " places"@
    &&& c.program.include_lines() == Seq::<Seq<char>>::empty()
    &&& c.program.top_lines() == helper_top(ty, body as nat)
    &&& c.program.body_lines() == seq![
        input_read(ty, "seed"@),
        Seq::empty(),
        indent(1) + ty.c_text() + " total = 0;"@,
    ] + Seq::new(sites as nat, |at: int| helper_call(ty, at)) + seq![
        Seq::empty(),
        print_line(1, ty.promotion(), "total"@),
    ]
    &&& c.program.expected_values() == seq![inline_total(body, sites)]
    &&& !c.program.sinks()
}

/// The inlining program for one type, body size and call count.
fn inline_case(ty: Ty, body: i128, sites: i128) -> (r: Case)
    requires
        1 <= body <= 16,
        1 <= sites <= 20,
    ensures
        is_inline_case(r, ty, body as int, sites as int),
{
    let size = decimal_string(body);
    let calls = decimal_string(sites);
    let c = ty.c_name();
    let mut purpose = String::from_str("a ");
    purpose.append(size.as_str());
    purpose.append(" statement ");
    purpose.append(c);
    purpose.append(" helper called from ");
    purpose.append(calls.as_str());
    purpose.append(" places");
    let mut program = Program::new(purpose.as_str());
    let mut head = String::from_str("static ");
    head.append(c);
    head.append(" helper(");
    head.append(c);
    head.append(" value) {");
    program.top(head.as_str());
    let ghost before = program.top_lines();
    let mut s: i128 = 0;
    while s < body
        invariant
            0 <= s <= body <= 16,
            program.top_lines() == before + Seq::new(s as nat, |i: int| helper_step(ty, i)),
            program.body_lines() == Seq::<Seq<char>>::empty(),
            program.purpose_text() == purpose@,
            program.include_lines() == Seq::<Seq<char>>::empty(),
            program.expected_values() == Seq::<int>::empty(),
            !program.sinks(),
        decreases body - s,
    {
        let mut text = String::from_str("    value = value + ");
        let literal = lit(ty, s + 1);
        text.append(literal.as_str());
        text.append(";");
        program.top(text.as_str());
        assert(text@ =~= helper_step(ty, s as int));
        assert(before + Seq::new((s + 1) as nat, |i: int| helper_step(ty, i)) =~= (before
            + Seq::new(s as nat, |i: int| helper_step(ty, i))).push(text@));
        s += 1;
    }
    program.top("    return value;");
    program.top("}");
    program.input(ty, "seed", 0);
    program.blank();
    let mut start = String::from_str(c);
    start.append(" total = 0;");
    program.line(start.as_str());
    let ghost middle = program.body_lines();
    let mut at: i128 = 0;
    while at < sites
        invariant
            0 <= at <= sites <= 20,
            program.body_lines() == middle + Seq::new(at as nat, |i: int| helper_call(ty, i)),
            program.top_lines() == helper_top(ty, body as nat),
            program.purpose_text() == purpose@,
            program.include_lines() == Seq::<Seq<char>>::empty(),
            program.expected_values() == Seq::<int>::empty(),
            !program.sinks(),
        decreases sites - at,
    {
        let mut text = String::from_str("total += helper(seed + ");
        let literal = lit(ty, at);
        text.append(literal.as_str());
        text.append(");");
        program.line(text.as_str());
        assert(indent(1) + text@ =~= helper_call(ty, at as int));
        assert(middle + Seq::new((at + 1) as nat, |i: int| helper_call(ty, i)) =~= (middle
            + Seq::new(at as nat, |i: int| helper_call(ty, i))).push(indent(1) + text@));
        at += 1;
    }
    program.blank();
    assert(body * (body + 1) <= 16 * 17 && sites * (body * (body + 1) / 2) <= 20 * 136 && sites
        * (sites - 1) <= 20 * 19) by (nonlinear_arith)
        requires
            1 <= body <= 16,
            1 <= sites <= 20,
    ;
    let step: i128 = body * (body + 1) / 2;
    program.check(ty.promoted(), "total", sites * step + sites * (sites - 1) / 2);
    assert(program.body_lines() =~~= seq![
        input_read(ty, "seed"@),
        Seq::empty(),
        indent(1) + ty.c_text() + " total = 0;"@,
    ] + Seq::new(sites as nat, |i: int| helper_call(ty, i)) + seq![
        Seq::empty(),
        print_line(1, ty.promotion(), "total"@),
    ]);
    let axes = vec![axis("type", ty.name()), axis("body", size.as_str()), axis("sites", calls.as_str())];
    let r = Case { axes, tags: tags_for(false), program };
    assert(r.axes_text() =~= seq![
        ("type"@, ty.name_text()),
        ("body"@, decimal(body as int)),
        ("sites"@, decimal(sites as int)),
    ]);
    assert(r.program.expected_values() =~= seq![inline_total(body as int, sites as int)]);
    r
}

/// The sizes of the helper body and the counts of call sites the inlining programs walk.
pub open spec fn inline_sizes() -> Seq<int> {
    seq![1, 4, 16]
}

/// A helper of a given size called from a given number of places, on every type at the width
/// of a register.
///
/// The body adds one, two and so on up to its size, so each call adds the triangular number of
/// the size and its own offset from the seed. Whether a compiler inlines a helper of a given
/// size into a given number of callers is the question, and every total fits the promoted type.
pub fn inline() -> (r: Vec<Case>)
    ensures
        r@.len() == 36,
        forall|k: int|
            0 <= k < 36 ==> is_inline_case(
                #[trigger] r@[k],
                wide_types()[k / 9],
                inline_sizes()[(k % 9) / 3],
                seq![1int, 4, 20][k % 3],
            ),
{
    let types = wide();
    let bodies: [i128; 3] = [1, 4, 16];
    let sites: [i128; 3] = [1, 4, 20];
    let mut out: Vec<Case> = Vec::new();
    let mut k: usize = 0;
    while k < 36
        invariant
            k <= 36,
            types@ == wide_types(),
            bodies@ == seq![1i128, 4, 16],
            sites@ == seq![1i128, 4, 20],
            out@.len() == k,
            forall|i: int|
                0 <= i < k ==> is_inline_case(
                    #[trigger] out@[i],
                    wide_types()[i / 9],
                    inline_sizes()[(i % 9) / 3],
                    seq![1int, 4, 20][i % 3],
                ),
        decreases 36 - k,
    {
        let body = bodies[(k % 9) / 3];
        let count = sites[k % 3];
        assert(body as int == inline_sizes()[(k as int % 9) / 3]);
        assert(count as int == seq![1int, 4, 20][k as int % 3]);
        out.push(inline_case(types[k / 9], body, count));
        k += 1;
    }
    out
}

/// What kind of definition nothing refers to.
#[derive(Clone, Copy, Debug, PartialEq, Eq, Structural)]
pub enum Unreferenced {
    Functions,
    Variables,
    Chain,
}

impl Unreferenced {
    /// The axis value.
    pub open spec fn name_text(self) -> Seq<char> {
        match self {
            Unreferenced::Functions => "functions"@,
            Unreferenced::Variables => "variables"@,
            Unreferenced::Chain => "chain"@,
        }
    }

    /// The axis value.
    pub fn name(self) -> (r: &'static str)
        ensures
            r@ == self.name_text(),
    {
        match self {
            Unreferenced::Functions => "functions",
            Unreferenced::Variables => "variables",
            Unreferenced::Chain => "chain",
        }
    }
}

/// The first `n` functions nobody calls, three lines each.
pub open spec fn unused_functions(n: nat) -> Seq<Seq<char>>
    decreases n,
{
    if n == 0 {
        Seq::empty()
    } else {
        let at = n - 1;
        unused_functions((n - 1) as nat) + seq![
            "static int unused"@ + decimal(at) + "(int value) {"@,
            "    return value * "@ + decimal(at + 1) + " + "@ + decimal(at) + ";"@,
            "}"@,
        ]
    }
}

/// A variable nobody reads.
pub open spec fn unused_variable(at: int) -> Seq<char> {
    "static int unused"@ + decimal(at) + " = "@ + decimal(at) + ";"@
}

/// A link of a chain nothing calls the first of: each calls the one before it.
pub open spec fn chain_link(at: int) -> Seq<char> {
    if at == 0 {
        "static int link0(int value) { return value + 1; }"@
    } else {
        "static int link"@ + decimal(at) + "(int value) { return link"@ + decimal(at - 1)
            + "(value) + 1; }"@
    }
}

/// The definitions nothing refers to, of a kind and a count.
pub open spec fn unreferenced_top(count: nat, kind: Unreferenced) -> Seq<Seq<char>> {
    match kind {
        Unreferenced::Functions => unused_functions(count),
        Unreferenced::Variables => Seq::new(count, |at: int| unused_variable(at)),
        Unreferenced::Chain => Seq::new(count, |at: int| chain_link(at)),
    }
}

/// Whether a case is the program with `count` unreferenced definitions of a kind, whole.
pub open spec fn is_unreferenced_case(c: Case, count: int, kind: Unreferenced) -> bool {
    &&& c.axes_text() == seq![("count"@, decimal(count)), ("kind"@, kind.name_text())]
    &&& c.tags_text() == Seq::<Seq<char>>::empty()
    &&& c.program.purpose_text() == decimal(count) + " unreferenced "@ + kind.name_text()
    &&& c.program.include_lines() == Seq::<Seq<char>>::empty()
    &&& c.program.top_lines() == unreferenced_top(count as nat, kind).push(
        input_global(Ty::I32, "seed"@, 4),
    )
    &&& c.program.body_lines() == seq![
        input_read(Ty::I32, "seed"@),
        Seq::empty(),
        print_line(1, Ty::I32, "seed + 1"@),
    ]
    &&& c.program.expected_values() == seq![5int]
    &&& !c.program.sinks()
}

/// Writes the definitions nothing refers to.
fn write_unreferenced(program: &mut Program, count: i128, kind: Unreferenced)
    requires
        0 <= count <= 20,
    ensures
        final(program).top_lines() == old(program).top_lines() + unreferenced_top(
            count as nat,
            kind,
        ),
        final(program).body_lines() == old(program).body_lines(),
        final(program).expected_values() == old(program).expected_values(),
        final(program).include_lines() == old(program).include_lines(),
        final(program).sinks() == old(program).sinks(),
        final(program).purpose_text() == old(program).purpose_text(),
{
    let ghost before = program.top_lines();
    let mut at: i128 = 0;
    while at < count
        invariant
            0 <= at <= count <= 20,
            program.top_lines() == before + unreferenced_top(at as nat, kind),
            program.body_lines() == old(program).body_lines(),
            program.expected_values() == old(program).expected_values(),
            program.include_lines() == old(program).include_lines(),
            program.sinks() == old(program).sinks(),
            program.purpose_text() == old(program).purpose_text(),
        decreases count - at,
    {
        match kind {
            Unreferenced::Functions => {
                let mut head = String::from_str("static int unused");
                push_decimal(&mut head, at);
                head.append("(int value) {");
                program.top(head.as_str());
                let mut back = String::from_str("    return value * ");
                push_decimal(&mut back, at + 1);
                back.append(" + ");
                push_decimal(&mut back, at);
                back.append(";");
                program.top(back.as_str());
                program.top("}");
                assert(unused_functions((at + 1) as nat) =~= unused_functions(at as nat) + seq![
                    head@,
                    back@,
                    "}"@,
                ]);
                assert(before + unreferenced_top((at + 1) as nat, kind) =~= before
                    + unreferenced_top(at as nat, kind) + seq![head@, back@, "}"@]);
            },
            Unreferenced::Variables => {
                let mut text = String::from_str("static int unused");
                push_decimal(&mut text, at);
                text.append(" = ");
                push_decimal(&mut text, at);
                text.append(";");
                program.top(text.as_str());
                assert(text@ =~= unused_variable(at as int));
                assert(before + unreferenced_top((at + 1) as nat, kind) =~= (before
                    + unreferenced_top(at as nat, kind)).push(text@));
            },
            Unreferenced::Chain => {
                let mut text = String::new();
                if at == 0 {
                    text.append("static int link0(int value) { return value + 1; }");
                } else {
                    text.append("static int link");
                    push_decimal(&mut text, at);
                    text.append("(int value) { return link");
                    push_decimal(&mut text, at - 1);
                    text.append("(value) + 1; }");
                }
                assert(text@ =~= chain_link(at as int));
                assert(before + unreferenced_top((at + 1) as nat, kind) =~= (before
                    + unreferenced_top(at as nat, kind)).push(text@));
                program.top(text.as_str());
            },
        }
        at += 1;
    }
}

/// The program with `count` unreferenced definitions of a kind.
fn unreferenced_case(count: i128, kind: Unreferenced) -> (r: Case)
    requires
        1 <= count <= 20,
    ensures
        is_unreferenced_case(r, count as int, kind),
{
    let n = decimal_string(count);
    let mut purpose = String::from_str(n.as_str());
    purpose.append(" unreferenced ");
    purpose.append(kind.name());
    let mut program = Program::new(purpose.as_str());
    write_unreferenced(&mut program, count, kind);
    program.input(Ty::I32, "seed", 4);
    program.blank();
    program.check(Ty::I32, "seed + 1", 5);
    assert(program.top_lines() =~~= unreferenced_top(count as nat, kind).push(
        input_global(Ty::I32, "seed"@, 4),
    ));
    assert(program.body_lines() =~~= seq![
        input_read(Ty::I32, "seed"@),
        Seq::empty(),
        print_line(1, Ty::I32, "seed + 1"@),
    ]);
    let axes = vec![axis("count", n.as_str()), axis("kind", kind.name())];
    let r = Case { axes, tags: tags_for(false), program };
    assert(r.axes_text() =~= seq![("count"@, decimal(count as int)), ("kind"@, kind.name_text())]);
    assert(r.program.expected_values() =~= seq![5int]);
    r
}

/// The kinds of unreferenced definitions, in the order they are walked.
pub open spec fn unreferenced_kinds() -> Seq<Unreferenced> {
    seq![Unreferenced::Functions, Unreferenced::Variables, Unreferenced::Chain]
}

/// Definitions nothing refers to, one, five and twenty of them.
///
/// A static function nobody calls and a static variable nobody reads should not reach the object
/// file at all, and twenty of them that survive are twenty times the evidence. The chain needs
/// more than one pass to remove: each link is called by the next and nothing calls the last.
pub fn reachability() -> (r: Vec<Case>)
    ensures
        r@.len() == 9,
        forall|k: int|
            0 <= k < 9 ==> is_unreferenced_case(
                #[trigger] r@[k],
                seq![1int, 5, 20][k / 3],
                unreferenced_kinds()[k % 3],
            ),
{
    let counts: [i128; 3] = [1, 5, 20];
    let kinds: [Unreferenced; 3] = [Unreferenced::Functions, Unreferenced::Variables, Unreferenced::Chain];
    let mut out: Vec<Case> = Vec::new();
    let mut k: usize = 0;
    while k < 9
        invariant
            k <= 9,
            counts@ == seq![1i128, 5, 20],
            kinds@ == unreferenced_kinds(),
            out@.len() == k,
            forall|i: int|
                0 <= i < k ==> is_unreferenced_case(
                    #[trigger] out@[i],
                    seq![1int, 5, 20][i / 3],
                    unreferenced_kinds()[i % 3],
                ),
        decreases 9 - k,
    {
        let count = counts[k / 3];
        assert(count as int == seq![1int, 5, 20][k as int / 3]);
        out.push(unreferenced_case(count, kinds[k % 3]));
        k += 1;
    }
    out
}


} // verus!
