//! What happens inside one basic block: dead computations, stores a later store hides, arms
//! whose condition is a constant, and chains an associative operator can regroup.
//!
//! Each is decided by looking at a short window of straight line code, and each program prints
//! an answer the rewrite may not change.

use vstd::prelude::*;
use vstd::string::*;
use crate::emit::{Program, input_global, input_read, indent, print_line};
use crate::lang::{
    Ty, Op, arithmetic_in, c_value, eval, result_ty, result_type, wide, wide_types, lemma_wrap_is_contained,
    lemma_wrap_keeps_contained,
};
use crate::text::{decimal, push_decimal};
use crate::facets::{Case, axis, tags_for, lit, lit_text};

use crate::facets::Batch;
verus! {

/// A branch whose condition is a constant, and where its dead arm stands.
#[derive(Clone, Copy, Debug, PartialEq, Eq, Structural)]
pub enum DeadArm {
    IfFalse,
    IfTrue,
    WhileFalse,
    SwitchConstant,
    EarlyReturn,
    DeadCall,
    DeadCallCompare,
    DeadCallLabel,
}

impl DeadArm {
    /// The axis value.
    pub open spec fn name_text(self) -> Seq<char> {
        match self {
            DeadArm::IfFalse => "if-false"@,
            DeadArm::IfTrue => "if-true"@,
            DeadArm::WhileFalse => "while-false"@,
            DeadArm::SwitchConstant => "switch-constant"@,
            DeadArm::EarlyReturn => "early-return"@,
            DeadArm::DeadCall => "dead-call"@,
            DeadArm::DeadCallCompare => "dead-call-compare"@,
            DeadArm::DeadCallLabel => "dead-call-label"@,
        }
    }

    /// The axis value.
    pub fn name(self) -> (r: &'static str)
        ensures
            r@ == self.name_text(),
    {
        match self {
            DeadArm::IfFalse => "if-false",
            DeadArm::IfTrue => "if-true",
            DeadArm::WhileFalse => "while-false",
            DeadArm::SwitchConstant => "switch-constant",
            DeadArm::EarlyReturn => "early-return",
            DeadArm::DeadCall => "dead-call",
            DeadArm::DeadCallCompare => "dead-call-compare",
            DeadArm::DeadCallLabel => "dead-call-label",
        }
    }
}

/// The shapes in the order the facet walks them.
pub open spec fn dead_arms_list() -> Seq<DeadArm> {
    seq![
        DeadArm::IfFalse,
        DeadArm::IfTrue,
        DeadArm::WhileFalse,
        DeadArm::SwitchConstant,
        DeadArm::EarlyReturn,
        DeadArm::DeadCall,
        DeadArm::DeadCallCompare,
        DeadArm::DeadCallLabel,
    ]
}

/// The shapes in the order the facet walks them.
fn dead_arms_array() -> (r: Vec<DeadArm>)
    ensures
        r@ == dead_arms_list(),
{
    let r = vec![
        DeadArm::IfFalse,
        DeadArm::IfTrue,
        DeadArm::WhileFalse,
        DeadArm::SwitchConstant,
        DeadArm::EarlyReturn,
        DeadArm::DeadCall,
        DeadArm::DeadCallCompare,
        DeadArm::DeadCallLabel,
    ];
    assert(r@ =~= dead_arms_list());
    r
}

/// The lines before `main` of each shape.
pub open spec fn dead_arm_top(shape: DeadArm) -> Seq<Seq<char>> {
    match shape {
        DeadArm::IfFalse => seq![
            input_global(Ty::I32, "seed"@, 10int),
        ],
        DeadArm::IfTrue => seq![
            input_global(Ty::I32, "seed"@, 10int),
        ],
        DeadArm::WhileFalse => seq![
            input_global(Ty::I32, "seed"@, 10int),
        ],
        DeadArm::SwitchConstant => seq![
            input_global(Ty::I32, "seed"@, 10int),
        ],
        DeadArm::EarlyReturn => seq![
            input_global(Ty::I32, "seed"@, 10int),
            "static int pick(int seed) {"@,
            "    return seed + 1;"@,
            "    return seed * 100;"@,
            "}"@,
        ],
        DeadArm::DeadCall => seq![
            input_global(Ty::I32, "seed"@, 10int),
            "void corpus_link_error(void);"@,
        ],
        DeadArm::DeadCallCompare => seq![
            input_global(Ty::I32, "seed"@, 10int),
            "void corpus_link_error(void);"@,
        ],
        DeadArm::DeadCallLabel => seq![
            input_global(Ty::I32, "seed"@, 10int),
            "void corpus_link_error(void);"@,
        ],
    }
}

/// The statements of `main` of each shape.
pub open spec fn dead_arm_body(shape: DeadArm) -> Seq<Seq<char>> {
    match shape {
        DeadArm::IfFalse => seq![
            input_read(Ty::I32, "seed"@),
            Seq::<char>::empty(),
            indent(1) + "int answer = 0;"@,
            indent(1) + "if (0) {"@,
            indent(2) + "answer = seed * 100;"@,
            indent(1) + "} else {"@,
            indent(2) + "answer = seed + 1;"@,
            indent(1) + "}"@,
            Seq::<char>::empty(),
            print_line(1, Ty::I32, "answer"@),
        ],
        DeadArm::IfTrue => seq![
            input_read(Ty::I32, "seed"@),
            Seq::<char>::empty(),
            indent(1) + "int answer = 0;"@,
            indent(1) + "if (1) {"@,
            indent(2) + "answer = seed + 1;"@,
            indent(1) + "} else {"@,
            indent(2) + "answer = seed * 100;"@,
            indent(1) + "}"@,
            Seq::<char>::empty(),
            print_line(1, Ty::I32, "answer"@),
        ],
        DeadArm::WhileFalse => seq![
            input_read(Ty::I32, "seed"@),
            Seq::<char>::empty(),
            indent(1) + "int answer = 0;"@,
            indent(1) + "answer = seed + 1;"@,
            indent(1) + "while (0) {"@,
            indent(2) + "answer = seed * 100;"@,
            indent(1) + "}"@,
            Seq::<char>::empty(),
            print_line(1, Ty::I32, "answer"@),
        ],
        DeadArm::SwitchConstant => seq![
            input_read(Ty::I32, "seed"@),
            Seq::<char>::empty(),
            indent(1) + "int answer = 0;"@,
            indent(1) + "switch (2) {"@,
            indent(2) + "case 1: answer = seed * 100; break;"@,
            indent(2) + "case 2: answer = seed + 1; break;"@,
            indent(2) + "default: answer = seed * 200; break;"@,
            indent(1) + "}"@,
            Seq::<char>::empty(),
            print_line(1, Ty::I32, "answer"@),
        ],
        DeadArm::EarlyReturn => seq![
            input_read(Ty::I32, "seed"@),
            Seq::<char>::empty(),
            indent(1) + "int answer = 0;"@,
            indent(1) + "answer = pick(seed);"@,
            Seq::<char>::empty(),
            print_line(1, Ty::I32, "answer"@),
        ],
        DeadArm::DeadCall => seq![
            input_read(Ty::I32, "seed"@),
            Seq::<char>::empty(),
            indent(1) + "int answer = 0;"@,
            indent(1) + "if (0) {"@,
            indent(2) + "corpus_link_error();"@,
            indent(2) + "answer = seed * 100;"@,
            indent(1) + "} else {"@,
            indent(2) + "answer = seed + 1;"@,
            indent(1) + "}"@,
            Seq::<char>::empty(),
            print_line(1, Ty::I32, "answer"@),
        ],
        DeadArm::DeadCallCompare => seq![
            input_read(Ty::I32, "seed"@),
            Seq::<char>::empty(),
            indent(1) + "int answer = 0;"@,
            indent(1) + "answer = seed + 1;"@,
            indent(1) + "if (3 > 5) {"@,
            indent(2) + "corpus_link_error();"@,
            indent(2) + "answer = seed * 100;"@,
            indent(1) + "}"@,
            Seq::<char>::empty(),
            print_line(1, Ty::I32, "answer"@),
        ],
        DeadArm::DeadCallLabel => seq![
            input_read(Ty::I32, "seed"@),
            Seq::<char>::empty(),
            indent(1) + "int answer = 0;"@,
            indent(1) + "switch (seed - 9) {"@,
            indent(2) + "case 0:"@,
            indent(3) + "if (0) { corpus_link_error(); case 1: answer = seed + 1; }"@,
            indent(1) + "}"@,
            Seq::<char>::empty(),
            print_line(1, Ty::I32, "answer"@),
        ],
    }
}

/// The headers of each shape.
pub open spec fn dead_arm_includes(shape: DeadArm) -> Seq<Seq<char>> {
    match shape {
        DeadArm::IfFalse => Seq::empty(),
        DeadArm::IfTrue => Seq::empty(),
        DeadArm::WhileFalse => Seq::empty(),
        DeadArm::SwitchConstant => Seq::empty(),
        DeadArm::EarlyReturn => Seq::empty(),
        DeadArm::DeadCall => Seq::empty(),
        DeadArm::DeadCallCompare => Seq::empty(),
        DeadArm::DeadCallLabel => Seq::empty(),
    }
}

/// What the program prints of each shape.
pub open spec fn dead_arm_expected(shape: DeadArm) -> Seq<int> {
    match shape {
        DeadArm::IfFalse => seq![
            11int,
        ],
        DeadArm::IfTrue => seq![
            11int,
        ],
        DeadArm::WhileFalse => seq![
            11int,
        ],
        DeadArm::SwitchConstant => seq![
            11int,
        ],
        DeadArm::EarlyReturn => seq![
            11int,
        ],
        DeadArm::DeadCall => seq![
            11int,
        ],
        DeadArm::DeadCallCompare => seq![
            11int,
        ],
        DeadArm::DeadCallLabel => seq![
            11int,
        ],
    }
}

/// Whether the shape asks for the volatile sink.
pub open spec fn dead_arm_sinks(shape: DeadArm) -> bool {
    match shape {
        DeadArm::IfFalse => false,
        DeadArm::IfTrue => false,
        DeadArm::WhileFalse => false,
        DeadArm::SwitchConstant => false,
        DeadArm::EarlyReturn => false,
        DeadArm::DeadCall => false,
        DeadArm::DeadCallCompare => false,
        DeadArm::DeadCallLabel => false,
    }
}

/// Writes some of the shapes.
#[verifier::rlimit(100)]
fn dead_arm_write_0(program: &mut Program, shape: DeadArm)
    requires
        old(program).top_lines() == Seq::<Seq<char>>::empty(),
        old(program).body_lines() == Seq::<Seq<char>>::empty(),
        old(program).expected_values() == Seq::<int>::empty(),
        old(program).include_lines() == Seq::<Seq<char>>::empty(),
        !old(program).sinks(),
        shape == DeadArm::IfFalse || shape == DeadArm::IfTrue || shape == DeadArm::WhileFalse || shape == DeadArm::SwitchConstant,
    ensures
        final(program).top_lines() == dead_arm_top(shape),
        final(program).body_lines() == dead_arm_body(shape),
        final(program).expected_values() == dead_arm_expected(shape),
        final(program).include_lines() == dead_arm_includes(shape),
        final(program).sinks() == dead_arm_sinks(shape),
        final(program).purpose_text() == old(program).purpose_text(),
{
    match shape {
        DeadArm::IfFalse => {
            program.input(Ty::I32, "seed", 10);
            program.blank();
            program.line("int answer = 0;");
            program.line("if (0) {");
            program.line_at(1, "answer = seed * 100;");
            program.line("} else {");
            program.line_at(1, "answer = seed + 1;");
            program.line("}");
            program.blank();
            program.check(Ty::I32, "answer", 11);
            assert(program.top_lines() =~~= dead_arm_top(shape));
            assert(program.body_lines() =~~= dead_arm_body(shape));
            assert(program.expected_values() =~= dead_arm_expected(shape));
            assert(program.include_lines() =~~= dead_arm_includes(shape));
        },
        DeadArm::IfTrue => {
            program.input(Ty::I32, "seed", 10);
            program.blank();
            program.line("int answer = 0;");
            program.line("if (1) {");
            program.line_at(1, "answer = seed + 1;");
            program.line("} else {");
            program.line_at(1, "answer = seed * 100;");
            program.line("}");
            program.blank();
            program.check(Ty::I32, "answer", 11);
            assert(program.top_lines() =~~= dead_arm_top(shape));
            assert(program.body_lines() =~~= dead_arm_body(shape));
            assert(program.expected_values() =~= dead_arm_expected(shape));
            assert(program.include_lines() =~~= dead_arm_includes(shape));
        },
        DeadArm::WhileFalse => {
            program.input(Ty::I32, "seed", 10);
            program.blank();
            program.line("int answer = 0;");
            program.line("answer = seed + 1;");
            program.line("while (0) {");
            program.line_at(1, "answer = seed * 100;");
            program.line("}");
            program.blank();
            program.check(Ty::I32, "answer", 11);
            assert(program.top_lines() =~~= dead_arm_top(shape));
            assert(program.body_lines() =~~= dead_arm_body(shape));
            assert(program.expected_values() =~= dead_arm_expected(shape));
            assert(program.include_lines() =~~= dead_arm_includes(shape));
        },
        DeadArm::SwitchConstant => {
            program.input(Ty::I32, "seed", 10);
            program.blank();
            program.line("int answer = 0;");
            program.line("switch (2) {");
            program.line_at(1, "case 1: answer = seed * 100; break;");
            program.line_at(1, "case 2: answer = seed + 1; break;");
            program.line_at(1, "default: answer = seed * 200; break;");
            program.line("}");
            program.blank();
            program.check(Ty::I32, "answer", 11);
            assert(program.top_lines() =~~= dead_arm_top(shape));
            assert(program.body_lines() =~~= dead_arm_body(shape));
            assert(program.expected_values() =~= dead_arm_expected(shape));
            assert(program.include_lines() =~~= dead_arm_includes(shape));
        },
        _ => {},
    }
}

/// Writes some of the shapes.
#[verifier::rlimit(100)]
fn dead_arm_write_1(program: &mut Program, shape: DeadArm)
    requires
        old(program).top_lines() == Seq::<Seq<char>>::empty(),
        old(program).body_lines() == Seq::<Seq<char>>::empty(),
        old(program).expected_values() == Seq::<int>::empty(),
        old(program).include_lines() == Seq::<Seq<char>>::empty(),
        !old(program).sinks(),
        shape == DeadArm::EarlyReturn || shape == DeadArm::DeadCall || shape == DeadArm::DeadCallCompare || shape == DeadArm::DeadCallLabel,
    ensures
        final(program).top_lines() == dead_arm_top(shape),
        final(program).body_lines() == dead_arm_body(shape),
        final(program).expected_values() == dead_arm_expected(shape),
        final(program).include_lines() == dead_arm_includes(shape),
        final(program).sinks() == dead_arm_sinks(shape),
        final(program).purpose_text() == old(program).purpose_text(),
{
    match shape {
        DeadArm::EarlyReturn => {
            program.input(Ty::I32, "seed", 10);
            program.blank();
            program.line("int answer = 0;");
            program.top("static int pick(int seed) {");
            program.top("    return seed + 1;");
            program.top("    return seed * 100;");
            program.top("}");
            program.line("answer = pick(seed);");
            program.blank();
            program.check(Ty::I32, "answer", 11);
            assert(program.top_lines() =~~= dead_arm_top(shape));
            assert(program.body_lines() =~~= dead_arm_body(shape));
            assert(program.expected_values() =~= dead_arm_expected(shape));
            assert(program.include_lines() =~~= dead_arm_includes(shape));
        },
        DeadArm::DeadCall => {
            program.input(Ty::I32, "seed", 10);
            program.top("void corpus_link_error(void);");
            program.blank();
            program.line("int answer = 0;");
            program.line("if (0) {");
            program.line_at(1, "corpus_link_error();");
            program.line_at(1, "answer = seed * 100;");
            program.line("} else {");
            program.line_at(1, "answer = seed + 1;");
            program.line("}");
            program.blank();
            program.check(Ty::I32, "answer", 11);
            assert(program.top_lines() =~~= dead_arm_top(shape));
            assert(program.body_lines() =~~= dead_arm_body(shape));
            assert(program.expected_values() =~= dead_arm_expected(shape));
            assert(program.include_lines() =~~= dead_arm_includes(shape));
        },
        DeadArm::DeadCallCompare => {
            program.input(Ty::I32, "seed", 10);
            program.top("void corpus_link_error(void);");
            program.blank();
            program.line("int answer = 0;");
            program.line("answer = seed + 1;");
            program.line("if (3 > 5) {");
            program.line_at(1, "corpus_link_error();");
            program.line_at(1, "answer = seed * 100;");
            program.line("}");
            program.blank();
            program.check(Ty::I32, "answer", 11);
            assert(program.top_lines() =~~= dead_arm_top(shape));
            assert(program.body_lines() =~~= dead_arm_body(shape));
            assert(program.expected_values() =~= dead_arm_expected(shape));
            assert(program.include_lines() =~~= dead_arm_includes(shape));
        },
        DeadArm::DeadCallLabel => {
            program.input(Ty::I32, "seed", 10);
            program.top("void corpus_link_error(void);");
            program.blank();
            program.line("int answer = 0;");
            program.line("switch (seed - 9) {");
            program.line_at(1, "case 0:");
            program.line_at(2, "if (0) { corpus_link_error(); case 1: answer = seed + 1; }");
            program.line("}");
            program.blank();
            program.check(Ty::I32, "answer", 11);
            assert(program.top_lines() =~~= dead_arm_top(shape));
            assert(program.body_lines() =~~= dead_arm_body(shape));
            assert(program.expected_values() =~= dead_arm_expected(shape));
            assert(program.include_lines() =~~= dead_arm_includes(shape));
        },
        _ => {},
    }
}

/// Writes a shape.
fn dead_arm_write(program: &mut Program, shape: DeadArm)
    requires
        old(program).top_lines() == Seq::<Seq<char>>::empty(),
        old(program).body_lines() == Seq::<Seq<char>>::empty(),
        old(program).expected_values() == Seq::<int>::empty(),
        old(program).include_lines() == Seq::<Seq<char>>::empty(),
        !old(program).sinks(),
    ensures
        final(program).top_lines() == dead_arm_top(shape),
        final(program).body_lines() == dead_arm_body(shape),
        final(program).expected_values() == dead_arm_expected(shape),
        final(program).include_lines() == dead_arm_includes(shape),
        final(program).sinks() == dead_arm_sinks(shape),
        final(program).purpose_text() == old(program).purpose_text(),
{
    match shape {
        DeadArm::IfFalse | DeadArm::IfTrue | DeadArm::WhileFalse | DeadArm::SwitchConstant => {
            dead_arm_write_0(program, shape);
        },
        DeadArm::EarlyReturn | DeadArm::DeadCall | DeadArm::DeadCallCompare | DeadArm::DeadCallLabel => {
            dead_arm_write_1(program, shape);
        },
    }
}

/// Whether a case is the dead_arm shape, whole.
pub open spec fn is_dead_arm_case(c: Case, shape: DeadArm) -> bool {
    &&& c.axes_text() == seq![("shape"@, shape.name_text())]
    &&& c.tags_text() == Seq::<Seq<char>>::empty()
    &&& c.program.purpose_text() == "a "@ + shape.name_text() + " whose dead arm must not run"@
    &&& c.program.include_lines() == dead_arm_includes(shape)
    &&& c.program.top_lines() == dead_arm_top(shape)
    &&& c.program.body_lines() == dead_arm_body(shape)
    &&& c.program.expected_values() == dead_arm_expected(shape)
    &&& c.program.sinks() == dead_arm_sinks(shape)
}

/// One dead_arm shape.
fn dead_arm_case(shape: DeadArm) -> (r: Case)
    ensures
        is_dead_arm_case(r, shape),
{
    let mut purpose = String::new();
    purpose.append("a ");
    purpose.append(shape.name());
    purpose.append(" whose dead arm must not run");
    let mut program = Program::new(purpose.as_str());
    dead_arm_write(&mut program, shape);
    let axes = vec![axis("shape", shape.name())];
    let r = Case { axes, tags: tags_for(false), program };
    assert(r.axes_text() =~= seq![("shape"@, shape.name_text())]);
    assert(r.tags_text() =~= Seq::<Seq<char>>::empty());
    r
}

/// Branches whose condition is a constant, with an arm that can never run.
///
/// The dead arm holds something that would print the wrong answer if it ran. The last three put a
/// call to a function nothing defines in it, so a compiler that keeps the arm does not link,
/// which is an oracle that needs nothing beyond the link, and the reason a dead arm has to go at
/// every optimization level. The last hides a live label inside the dead arm, so deleting the
/// whole statement is as wrong as keeping it.
pub fn unreachable_code() -> (r: Vec<Case>)
    ensures
        r@.len() == 8,
        forall|k: int| 0 <= k < 8 ==> is_dead_arm_case(#[trigger] r@[k], dead_arms_list()[k]),
{
    let shapes = dead_arms_array();
    let mut out: Vec<Case> = Vec::new();
    let mut k: usize = 0;
    while k < 8
        invariant
            k <= 8,
            shapes@ == dead_arms_list(),
            out@.len() == k,
            forall|i: int| 0 <= i < k ==> is_dead_arm_case(#[trigger] out@[i], dead_arms_list()[i]),
        decreases 8 - k,
    {
        out.push(dead_arm_case(shapes[k]));
        k += 1;
    }
    out
}

/// Where a store a later store makes invisible is written.
#[derive(Clone, Copy, Debug, PartialEq, Eq, Structural)]
pub enum StoreKind {
    Local,
    Array,
    AddressTaken,
}

impl StoreKind {
    /// The axis value.
    pub open spec fn name_text(self) -> Seq<char> {
        match self {
            StoreKind::Local => "local"@,
            StoreKind::Array => "array"@,
            StoreKind::AddressTaken => "address-taken"@,
        }
    }

    /// The axis value.
    pub fn name(self) -> (r: &'static str)
        ensures
            r@ == self.name_text(),
    {
        match self {
            StoreKind::Local => "local",
            StoreKind::Array => "array",
            StoreKind::AddressTaken => "address-taken",
        }
    }
}

/// The shapes in the order the facet walks them.
pub open spec fn store_kinds_list() -> Seq<StoreKind> {
    seq![
        StoreKind::Local,
        StoreKind::Array,
        StoreKind::AddressTaken,
    ]
}

/// The shapes in the order the facet walks them.
fn store_kinds_array() -> (r: Vec<StoreKind>)
    ensures
        r@ == store_kinds_list(),
{
    let r = vec![
        StoreKind::Local,
        StoreKind::Array,
        StoreKind::AddressTaken,
    ];
    assert(r@ =~= store_kinds_list());
    r
}

/// The lines before `main`.
pub open spec fn overwritten_top(ty: Ty, shape: StoreKind) -> Seq<Seq<char>> {
    match shape {
        StoreKind::Local => seq![
            input_global(ty, "seed"@, 5int),
        ],
        StoreKind::Array => seq![
            input_global(ty, "seed"@, 5int),
        ],
        StoreKind::AddressTaken => seq![
            input_global(ty, "seed"@, 5int),
        ],
    }
}

/// The statements of `main`.
pub open spec fn overwritten_body(ty: Ty, shape: StoreKind) -> Seq<Seq<char>> {
    match shape {
        StoreKind::Local => seq![
            input_read(ty, "seed"@),
            Seq::<char>::empty(),
            indent(1) + ty.c_text() + " slot = seed;"@,
            indent(1) + "slot = seed + "@ + lit_text(ty, 1int) + ";"@,
            indent(1) + "slot = seed + "@ + lit_text(ty, 2int) + ";"@,
            indent(1) + "slot = seed + "@ + lit_text(ty, 3int) + ";"@,
            Seq::<char>::empty(),
        ],
        StoreKind::Array => seq![
            input_read(ty, "seed"@),
            Seq::<char>::empty(),
            indent(1) + ty.c_text() + " buffer[4];"@,
            indent(1) + "buffer[0] = seed;"@,
            indent(1) + "buffer[0] = seed + "@ + lit_text(ty, 1int) + ";"@,
            indent(1) + "buffer[0] = seed + "@ + lit_text(ty, 3int) + ";"@,
            indent(1) + ty.c_text() + " slot = buffer[0];"@,
            Seq::<char>::empty(),
        ],
        StoreKind::AddressTaken => seq![
            input_read(ty, "seed"@),
            Seq::<char>::empty(),
            indent(1) + ty.c_text() + " slot = seed;"@,
            indent(1) + ty.c_text() + " *at = &slot;"@,
            indent(1) + "*at = seed + "@ + lit_text(ty, 1int) + ";"@,
            indent(1) + "*at = seed + "@ + lit_text(ty, 3int) + ";"@,
            Seq::<char>::empty(),
        ],
    }
}

/// The headers.
pub open spec fn overwritten_includes(ty: Ty, shape: StoreKind) -> Seq<Seq<char>> {
    match shape {
        StoreKind::Local => Seq::empty(),
        StoreKind::Array => Seq::empty(),
        StoreKind::AddressTaken => Seq::empty(),
    }
}

/// What the program prints.
pub open spec fn overwritten_expected(ty: Ty, shape: StoreKind) -> Seq<int> {
    match shape {
        StoreKind::Local => Seq::empty(),
        StoreKind::Array => Seq::empty(),
        StoreKind::AddressTaken => Seq::empty(),
    }
}

/// Writes some of the shapes.
#[verifier::rlimit(100)]
fn overwritten_write_0(program: &mut Program, ty: Ty, shape: StoreKind)
    requires
        old(program).top_lines() == Seq::<Seq<char>>::empty(),
        old(program).body_lines() == Seq::<Seq<char>>::empty(),
        old(program).expected_values() == Seq::<int>::empty(),
        old(program).include_lines() == Seq::<Seq<char>>::empty(),
        !old(program).sinks(),
        shape == StoreKind::Local || shape == StoreKind::Array || shape == StoreKind::AddressTaken,
    ensures
        final(program).top_lines() == overwritten_top(ty, shape),
        final(program).body_lines() == overwritten_body(ty, shape),
        final(program).expected_values() == overwritten_expected(ty, shape),
        final(program).include_lines() == overwritten_includes(ty, shape),
        !final(program).sinks(),
        final(program).purpose_text() == old(program).purpose_text(),
{
    let c = ty.c_name();
    match shape {
        StoreKind::Local => {
            program.input(ty, "seed", 5);
            program.blank();
            let mut text1 = String::from_str(c);
            text1.append(" slot = seed;");
            program.line(text1.as_str());
            let mut text2 = String::from_str("slot = seed + ");
            let literal3 = lit(ty, 1);
            text2.append(literal3.as_str());
            text2.append(";");
            program.line(text2.as_str());
            let mut text4 = String::from_str("slot = seed + ");
            let literal5 = lit(ty, 2);
            text4.append(literal5.as_str());
            text4.append(";");
            program.line(text4.as_str());
            let mut text6 = String::from_str("slot = seed + ");
            let literal7 = lit(ty, 3);
            text6.append(literal7.as_str());
            text6.append(";");
            program.line(text6.as_str());
            program.blank();
            assert(program.top_lines() =~~= overwritten_top(ty, shape));
            assert(program.body_lines() =~~= overwritten_body(ty, shape));
            assert(program.expected_values() =~= overwritten_expected(ty, shape));
            assert(program.include_lines() =~~= overwritten_includes(ty, shape));
        },
        StoreKind::Array => {
            program.input(ty, "seed", 5);
            program.blank();
            let mut text1 = String::from_str(c);
            text1.append(" buffer[4];");
            program.line(text1.as_str());
            program.line("buffer[0] = seed;");
            let mut text2 = String::from_str("buffer[0] = seed + ");
            let literal3 = lit(ty, 1);
            text2.append(literal3.as_str());
            text2.append(";");
            program.line(text2.as_str());
            let mut text4 = String::from_str("buffer[0] = seed + ");
            let literal5 = lit(ty, 3);
            text4.append(literal5.as_str());
            text4.append(";");
            program.line(text4.as_str());
            let mut text6 = String::from_str(c);
            text6.append(" slot = buffer[0];");
            program.line(text6.as_str());
            program.blank();
            assert(program.top_lines() =~~= overwritten_top(ty, shape));
            assert(program.body_lines() =~~= overwritten_body(ty, shape));
            assert(program.expected_values() =~= overwritten_expected(ty, shape));
            assert(program.include_lines() =~~= overwritten_includes(ty, shape));
        },
        StoreKind::AddressTaken => {
            program.input(ty, "seed", 5);
            program.blank();
            let mut text1 = String::from_str(c);
            text1.append(" slot = seed;");
            program.line(text1.as_str());
            let mut text2 = String::from_str(c);
            text2.append(" *at = &slot;");
            program.line(text2.as_str());
            let mut text3 = String::from_str("*at = seed + ");
            let literal4 = lit(ty, 1);
            text3.append(literal4.as_str());
            text3.append(";");
            program.line(text3.as_str());
            let mut text5 = String::from_str("*at = seed + ");
            let literal6 = lit(ty, 3);
            text5.append(literal6.as_str());
            text5.append(";");
            program.line(text5.as_str());
            program.blank();
            assert(program.top_lines() =~~= overwritten_top(ty, shape));
            assert(program.body_lines() =~~= overwritten_body(ty, shape));
            assert(program.expected_values() =~= overwritten_expected(ty, shape));
            assert(program.include_lines() =~~= overwritten_includes(ty, shape));
        },
    }
}

/// Writes a shape.
fn overwritten_write(program: &mut Program, ty: Ty, shape: StoreKind)
    requires
        old(program).top_lines() == Seq::<Seq<char>>::empty(),
        old(program).body_lines() == Seq::<Seq<char>>::empty(),
        old(program).expected_values() == Seq::<int>::empty(),
        old(program).include_lines() == Seq::<Seq<char>>::empty(),
        !old(program).sinks(),
    ensures
        final(program).top_lines() == overwritten_top(ty, shape),
        final(program).body_lines() == overwritten_body(ty, shape),
        final(program).expected_values() == overwritten_expected(ty, shape),
        final(program).include_lines() == overwritten_includes(ty, shape),
        !final(program).sinks(),
        final(program).purpose_text() == old(program).purpose_text(),
{
    match shape {
        StoreKind::Local | StoreKind::Array | StoreKind::AddressTaken => {
            overwritten_write_0(program, ty, shape);
        },
    }
}

/// Whether a case is the overwritten program for its point, whole.
pub open spec fn is_overwritten_case(c: Case, ty: Ty, shape: StoreKind) -> bool {
    &&& c.axes_text() == seq![("type"@, ty.name_text()), ("shape"@, shape.name_text())]
    &&& c.tags_text() == Seq::<Seq<char>>::empty()
    &&& c.program.purpose_text() == "overwritten "@ + shape.name_text() + " stores of "@ + ty.c_text()
    &&& c.program.include_lines() == overwritten_includes(ty, shape)
    &&& c.program.top_lines() == overwritten_top(ty, shape)
    &&& c.program.body_lines() == overwritten_body(ty, shape).push(print_line(1, ty.promotion(), "slot"@))
    &&& c.program.expected_values() == seq![c_value(Op::Add, ty, 5, 3)->0]
    &&& !c.program.sinks()
}

/// The overwritten program for one point.
fn overwritten_case(ty: Ty, shape: StoreKind) -> (r: Case)
    requires
    ensures
        is_overwritten_case(r, ty, shape),
{
    let mut purpose = String::new();
    purpose.append("overwritten ");
    purpose.append(shape.name());
    purpose.append(" stores of ");
    purpose.append(ty.c_name());
    assert(purpose@ =~= "overwritten "@ + shape.name_text() + " stores of "@ + ty.c_text());
    let mut program = Program::new(purpose.as_str());
    overwritten_write(&mut program, ty, shape);
    let added = eval(Op::Add, ty, 5, 3);
    assert(ty.contains(5) && ty.contains(3));
    assert(added is Some);
    let value = added.unwrap();
    program.check(ty.promoted(), "slot", value);
    let axes = vec![axis("type", ty.name()), axis("shape", shape.name())];
    let r = Case { axes, tags: tags_for(false), program };
    assert(r.axes_text() =~= seq![("type"@, ty.name_text()), ("shape"@, shape.name_text())]);
    assert(r.tags_text() =~= Seq::<Seq<char>>::empty());
    assert(r.program.expected_values() =~= seq![c_value(Op::Add, ty, 5, 3)->0]);
    r
}

/// Stores a later store makes invisible, on every type at the width of a register.
///
/// A plain local needs no reasoning to remove them, an array element needs the two indices known
/// equal, and a local whose address was taken needs the pointer known not to escape. Every shape
/// reads the last value written, the seed plus three.
pub fn dead_store() -> (r: Vec<Case>)
    ensures
        r@.len() == 12,
        forall|k: int| 0 <= k < 12 ==> is_overwritten_case(#[trigger] r@[k], wide_types()[k / 3], store_kinds_list()[k % 3]),
{
    let types = wide();
    let shape_all = store_kinds_array();
    let mut out: Vec<Case> = Vec::new();
    let mut k: usize = 0;
    while k < 12
        invariant
            k <= 12,
            types@ == wide_types(),
            shape_all@ == store_kinds_list(),
            out@.len() == k,
            forall|i: int| 0 <= i < k ==> is_overwritten_case(#[trigger] out@[i], wide_types()[i / 3], store_kinds_list()[i % 3]),
        decreases 12 - k,
    {
        out.push(overwritten_case(types[k / 3], shape_all[k % 3]));
        k += 1;
    }
    out
}

/// One step of the dead chain: multiply by three and add the step's position.
pub open spec fn dead_step(ty: Ty, step: int) -> Seq<char> {
    indent(1) + "dead = dead * "@ + lit_text(ty, 3) + " + "@ + lit_text(ty, step) + ";"@
}

/// The statements of a dead code program, before the one live check.
pub open spec fn dead_body(ty: Ty, depth: nat) -> Seq<Seq<char>> {
    seq![input_read(ty, "seed"@), Seq::empty(), indent(1) + ty.c_text() + " dead = seed;"@]
        + Seq::new(depth, |step: int| dead_step(ty, step)) + seq![Seq::empty()]
}

/// Whether a case is the dead chain of a depth beside one live computation, whole.
pub open spec fn is_dead_chain_case(c: Case, ty: Ty, depth: int) -> bool {
    &&& c.axes_text() == seq![("type"@, ty.name_text()), ("depth"@, decimal(depth))]
    &&& c.tags_text() == Seq::<Seq<char>>::empty()
    &&& c.program.purpose_text() == "a chain of "@ + decimal(depth) + " dead "@ + ty.c_text()
        + " computations beside one live one"@
    &&& c.program.include_lines() == Seq::<Seq<char>>::empty()
    &&& c.program.top_lines() == seq![input_global(ty, "seed"@, 3)]
    &&& c.program.body_lines() == dead_body(ty, depth as nat).push(
        print_line(1, ty.promotion(), "seed + "@ + lit_text(ty, 1)),
    )
    &&& c.program.expected_values() == seq![c_value(Op::Add, ty, 3, 1)->0]
    &&& !c.program.sinks()
}

/// The dead chain of one depth beside one live computation.
fn dead_chain_case(ty: Ty, depth: i128) -> (r: Case)
    requires
        1 <= depth <= 16,
        ty.is_signed() ==> ty.width() >= 32,
        wide_types().contains(ty),
    ensures
        is_dead_chain_case(r, ty, depth as int),
{
    let c = ty.c_name();
    let mut purpose = String::from_str("a chain of ");
    push_decimal(&mut purpose, depth);
    purpose.append(" dead ");
    purpose.append(c);
    purpose.append(" computations beside one live one");
    let mut program = Program::new(purpose.as_str());
    program.input(ty, "seed", 3);
    program.blank();
    let mut start = String::from_str(c);
    start.append(" dead = seed;");
    program.line(start.as_str());
    let ghost before = program.body_lines();
    let mut step: i128 = 0;
    while step < depth
        invariant
            0 <= step <= depth <= 16,
            program.body_lines() == before + Seq::new(step as nat, |i: int| dead_step(ty, i)),
            program.top_lines() == seq![input_global(ty, "seed"@, 3)],
            program.purpose_text() == purpose@,
            program.include_lines() == Seq::<Seq<char>>::empty(),
            program.expected_values() == Seq::<int>::empty(),
            !program.sinks(),
        decreases depth - step,
    {
        let mut text = String::from_str("dead = dead * ");
        let three = lit(ty, 3);
        text.append(three.as_str());
        text.append(" + ");
        let at = lit(ty, step);
        text.append(at.as_str());
        text.append(";");
        program.line(text.as_str());
        assert(indent(1) + text@ =~= dead_step(ty, step as int));
        assert(before + Seq::new((step + 1) as nat, |i: int| dead_step(ty, i)) =~= (before
            + Seq::new(step as nat, |i: int| dead_step(ty, i))).push(indent(1) + text@));
        step += 1;
    }
    program.blank();
    let live = eval(Op::Add, ty, 3, 1);
    assert(live is Some);
    let mut expr = String::from_str("seed + ");
    let one = lit(ty, 1);
    expr.append(one.as_str());
    program.check(ty.promoted(), expr.as_str(), live.unwrap());
    assert(program.body_lines() =~~= dead_body(ty, depth as nat).push(
        print_line(1, ty.promotion(), "seed + "@ + lit_text(ty, 1)),
    ));
    let mut deep = String::new();
    push_decimal(&mut deep, depth);
    let axes = vec![axis("type", ty.name()), axis("depth", deep.as_str())];
    let r = Case { axes, tags: tags_for(false), program };
    assert(r.axes_text() =~= seq![("type"@, ty.name_text()), ("depth"@, decimal(depth as int))]);
    assert(r.program.expected_values() =~= seq![c_value(Op::Add, ty, 3, 1)->0]);
    r
}

/// Computations nobody reads beside one somebody does, on every type at the width of a
/// register and three chain lengths.
///
/// Removing the dead chain is legal and leaving it is harmless, so the answer is the same at
/// every depth and the size is what says whether dead code elimination ran.
pub fn dead_code() -> (r: Vec<Case>)
    ensures
        r@.len() == 12,
        forall|k: int|
            0 <= k < 12 ==> is_dead_chain_case(
                #[trigger] r@[k],
                wide_types()[k / 3],
                seq![1int, 4, 16][k % 3],
            ),
{
    let types = wide();
    let depths: [i128; 3] = [1, 4, 16];
    let mut out: Vec<Case> = Vec::new();
    let mut k: usize = 0;
    while k < 12
        invariant
            k <= 12,
            types@ == wide_types(),
            depths@ == seq![1i128, 4, 16],
            out@.len() == k,
            forall|i: int|
                0 <= i < k ==> is_dead_chain_case(
                    #[trigger] out@[i],
                    wide_types()[i / 3],
                    seq![1int, 4, 16][i % 3],
                ),
        decreases 12 - k,
    {
        let ty = types[k / 3];
        assert(wide_types().contains(ty)) by {
            assert(wide_types()[k as int / 3] == ty);
        }
        let depth = depths[k % 3];
        assert(depth as int == seq![1int, 4, 16][k as int % 3]);
        out.push(dead_chain_case(ty, depth));
        k += 1;
    }
    out
}

/// The operators a chain is written for: the associative ones.
pub open spec fn chain_op(op: Op) -> bool {
    op == Op::Add || op == Op::Mul || op == Op::And || op == Op::Or || op == Op::Xor
}

/// The four operands of a reassociation program: small numbers for the arithmetic, bit
/// patterns for the logic.
pub open spec fn chain_operands(op: Op) -> Seq<i128> {
    match op {
        Op::Add | Op::Mul | Op::Sub => seq![1i128, 2, 3, 5],
        _ => seq![0x0fi128, 0x33, 0x55, 0xaa],
    }
}

/// The four operands folded left to right, each step the way C evaluates it.
pub open spec fn chain_fold(op: Op, ty: Ty) -> int {
    let o = chain_operands(op);
    let first = c_value(op, ty, o[0], o[1])->0;
    let second = c_value(op, ty, first as i128, o[2])->0;
    c_value(op, ty, second as i128, o[3])->0
}

/// The chain written left leaning, right leaning, balanced, and balanced backwards.
pub open spec fn chain_exprs(op: Op) -> Seq<Seq<char>> {
    let s = " "@ + op.spelling_text() + " "@;
    seq![
        "(((a0"@ + s + "a1)"@ + s + "a2)"@ + s + "a3)"@,
        "(a0"@ + s + "(a1"@ + s + "(a2"@ + s + "a3)))"@,
        "((a0"@ + s + "a1)"@ + s + "(a2"@ + s + "a3))"@,
        "((a3"@ + s + "a2)"@ + s + "(a1"@ + s + "a0))"@,
    ]
}

/// Whether a case is the reassociation program for a type and an operator, whole.
pub open spec fn is_chain_case(c: Case, ty: Ty, op: Op) -> bool {
    let o = chain_operands(op);
    let out = result_type(op, ty);
    let e = chain_exprs(op);
    &&& c.axes_text() == seq![("type"@, ty.name_text()), ("op"@, op.name_text())]
    &&& c.tags_text() == Seq::<Seq<char>>::empty()
    &&& c.program.purpose_text() == "left, right and balanced "@ + op.name_text()
        + " chains on "@ + ty.c_text()
    &&& c.program.include_lines() == Seq::<Seq<char>>::empty()
    &&& c.program.top_lines() == seq![
        input_global(ty, "a0"@, o[0] as int),
        input_global(ty, "a1"@, o[1] as int),
        input_global(ty, "a2"@, o[2] as int),
        input_global(ty, "a3"@, o[3] as int),
    ]
    &&& c.program.body_lines() == seq![
        input_read(ty, "a0"@),
        input_read(ty, "a1"@),
        input_read(ty, "a2"@),
        input_read(ty, "a3"@),
        Seq::empty(),
        print_line(1, out, e[0]),
        print_line(1, out, e[1]),
        print_line(1, out, e[2]),
        print_line(1, out, e[3]),
    ]
    &&& c.program.expected_values() == seq![
        chain_fold(op, ty),
        chain_fold(op, ty),
        chain_fold(op, ty),
        chain_fold(op, ty),
    ]
    &&& !c.program.sinks()
}

/// Folds the four operands left to right, the way C evaluates the left leaning chain.
#[verifier::rlimit(100)]
#[verifier::spinoff_prover]
fn fold_chain(op: Op, ty: Ty, o: [i128; 4]) -> (r: i128)
    requires
        o@ == chain_operands(op),
        wide_types().contains(ty),
        chain_op(op),
    ensures
        r == chain_fold(op, ty),
{
    let p = ty.promoted();
    assert(ty.promotion() == ty);
    proof {
        lemma_wrap_is_contained(ty, 0);
    }
    assert(ty.contains(o[0] as int) && ty.contains(o[1] as int) && ty.contains(o[2] as int)
        && ty.contains(o[3] as int));
    let first = eval(op, ty, o[0], o[1]);
    assert(first is Some) by {
        lemma_small_chain(op, ty);
    }
    let a = first.unwrap();
    let second = eval(op, ty, a, o[2]);
    assert(second is Some) by {
        lemma_small_chain(op, ty);
    }
    let b = second.unwrap();
    let third = eval(op, ty, b, o[3]);
    assert(third is Some) by {
        lemma_small_chain(op, ty);
    }
    third.unwrap()
}

/// Every step of a chain stays small enough for every type at the width of a register.
#[verifier::rlimit(100)]
#[verifier::spinoff_prover]
proof fn lemma_small_chain(op: Op, ty: Ty)
    requires
        wide_types().contains(ty),
        chain_op(op),
    ensures
        ({
            let o = chain_operands(op);
            let first = c_value(op, ty, o[0], o[1]);
            &&& first is Some
            &&& ty.contains(first->0)
            &&& 0 <= first->0 <= 255
            &&& c_value(op, ty, first->0 as i128, o[2]) is Some
            &&& 0 <= c_value(op, ty, first->0 as i128, o[2])->0 <= 255
            &&& ty.contains(c_value(op, ty, first->0 as i128, o[2])->0)
            &&& c_value(op, ty, c_value(op, ty, first->0 as i128, o[2])->0 as i128, o[3]) is Some
        }),
{
    let o = chain_operands(op);
    assert(ty.promotion() == ty);
    assert(ty.contains(255));
    match op {
        Op::Add => {
            assert(o[0] == 1 && o[1] == 2 && o[2] == 3 && o[3] == 5);
            lemma_wrap_keeps_contained(ty, 3);
            lemma_wrap_keeps_contained(ty, 6);
            assert(ty.contains(11));
            assert(c_value(op, ty, 1, 2) == Some(3int));
            assert(c_value(op, ty, 3, 3) == Some(6int));
            assert(c_value(op, ty, 6, 5) == Some(11int));
        },
        Op::Mul => {
            assert(o[0] == 1 && o[1] == 2 && o[2] == 3 && o[3] == 5);
            lemma_wrap_keeps_contained(ty, 2);
            lemma_wrap_keeps_contained(ty, 6);
            assert(ty.contains(30));
        },
        Op::And => {
            assert(o[0] == 0x0f && o[1] == 0x33 && o[2] == 0x55 && o[3] == 0xaa);
            assert(0x0fi128 & 0x33i128 == 3i128) by (bit_vector);
            assert(3i128 & 0x55i128 == 1i128) by (bit_vector);
            lemma_wrap_keeps_contained(ty, 3);
            lemma_wrap_keeps_contained(ty, 1);
        },
        Op::Or => {
            assert(o[0] == 0x0f && o[1] == 0x33 && o[2] == 0x55 && o[3] == 0xaa);
            assert(0x0fi128 | 0x33i128 == 0x3fi128) by (bit_vector);
            assert(0x3fi128 | 0x55i128 == 0x7fi128) by (bit_vector);
            lemma_wrap_keeps_contained(ty, 0x3f);
            lemma_wrap_keeps_contained(ty, 0x7f);
        },
        Op::Xor => {
            assert(o[0] == 0x0f && o[1] == 0x33 && o[2] == 0x55 && o[3] == 0xaa);
            assert(0x0fi128 ^ 0x33i128 == 0x3ci128) by (bit_vector);
            assert(0x3ci128 ^ 0x55i128 == 0x69i128) by (bit_vector);
            lemma_wrap_keeps_contained(ty, 0x3c);
            lemma_wrap_keeps_contained(ty, 0x69);
        },
        _ => {},
    }
}

/// The reassociation program for one type and operator.
fn chain_case(ty: Ty, op: Op) -> (r: Case)
    requires
        wide_types().contains(ty),
        chain_op(op),
    ensures
        is_chain_case(r, ty, op),
{
    let o: [i128; 4] = match op {
        Op::Add | Op::Mul | Op::Sub => [1, 2, 3, 5],
        _ => [0x0f, 0x33, 0x55, 0xaa],
    };
    assert(o@ =~= chain_operands(op));
    let folded = fold_chain(op, ty, o);
    let mut purpose = String::from_str("left, right and balanced ");
    purpose.append(op.name());
    purpose.append(" chains on ");
    purpose.append(ty.c_name());
    let mut program = Program::new(purpose.as_str());
    program.input(ty, "a0", o[0]);
    program.input(ty, "a1", o[1]);
    program.input(ty, "a2", o[2]);
    program.input(ty, "a3", o[3]);
    program.blank();
    let out = result_ty(op, ty);
    let sp = op.spelling();
    let mut s = String::from_str(" ");
    s.append(sp);
    s.append(" ");
    let mut left = String::from_str("(((a0");
    left.append(s.as_str());
    left.append("a1)");
    left.append(s.as_str());
    left.append("a2)");
    left.append(s.as_str());
    left.append("a3)");
    let mut right = String::from_str("(a0");
    right.append(s.as_str());
    right.append("(a1");
    right.append(s.as_str());
    right.append("(a2");
    right.append(s.as_str());
    right.append("a3)))");
    let mut balanced = String::from_str("((a0");
    balanced.append(s.as_str());
    balanced.append("a1)");
    balanced.append(s.as_str());
    balanced.append("(a2");
    balanced.append(s.as_str());
    balanced.append("a3))");
    let mut backwards = String::from_str("((a3");
    backwards.append(s.as_str());
    backwards.append("a2)");
    backwards.append(s.as_str());
    backwards.append("(a1");
    backwards.append(s.as_str());
    backwards.append("a0))");
    program.check(out, left.as_str(), folded);
    program.check(out, right.as_str(), folded);
    program.check(out, balanced.as_str(), folded);
    program.check(out, backwards.as_str(), folded);
    let ghost e = chain_exprs(op);
    assert(left@ =~= e[0]);
    assert(right@ =~= e[1]);
    assert(balanced@ =~= e[2]);
    assert(backwards@ =~= e[3]);
    assert(program.top_lines() =~~= seq![
        input_global(ty, "a0"@, o[0] as int),
        input_global(ty, "a1"@, o[1] as int),
        input_global(ty, "a2"@, o[2] as int),
        input_global(ty, "a3"@, o[3] as int),
    ]);
    assert(program.body_lines() =~~= seq![
        input_read(ty, "a0"@),
        input_read(ty, "a1"@),
        input_read(ty, "a2"@),
        input_read(ty, "a3"@),
        Seq::empty(),
        print_line(1, out, e[0]),
        print_line(1, out, e[1]),
        print_line(1, out, e[2]),
        print_line(1, out, e[3]),
    ]);
    let axes = vec![axis("type", ty.name()), axis("op", op.name())];
    let r = Case { axes, tags: tags_for(false), program };
    assert(r.axes_text() =~= seq![("type"@, ty.name_text()), ("op"@, op.name_text())]);
    assert(r.program.expected_values() =~= seq![
        chain_fold(op, ty),
        chain_fold(op, ty),
        chain_fold(op, ty),
        chain_fold(op, ty),
    ]);
    r
}

/// The operators a reassociation program chains.
pub open spec fn chain_ops() -> Seq<Op> {
    seq![Op::Add, Op::Mul, Op::And, Op::Or, Op::Xor]
}

/// The same chain written four ways round, on every type at the width of a register and every
/// associative operator.
///
/// Left leaning, right leaning, balanced and balanced backwards are one value for an associative
/// and commutative operator, so every program prints the same answer four times, and a rewrite
/// that regrouped wrongly prints a different one.
pub fn reassociate() -> (r: Vec<Case>)
    ensures
        r@.len() == 20,
        forall|k: int|
            0 <= k < 20 ==> is_chain_case(#[trigger] r@[k], wide_types()[k / 5], chain_ops()[k % 5]),
{
    let types = wide();
    let ops: [Op; 5] = [Op::Add, Op::Mul, Op::And, Op::Or, Op::Xor];
    let mut out: Vec<Case> = Vec::new();
    let mut k: usize = 0;
    while k < 20
        invariant
            k <= 20,
            types@ == wide_types(),
            ops@ == chain_ops(),
            out@.len() == k,
            forall|i: int|
                0 <= i < k ==> is_chain_case(#[trigger] out@[i], wide_types()[i / 5], chain_ops()[i % 5]),
        decreases 20 - k,
    {
        let ty = types[k / 5];
        assert(wide_types().contains(ty)) by {
            assert(wide_types()[k as int / 5] == ty);
        }
        out.push(chain_case(ty, ops[k % 5]));
        k += 1;
    }
    out
}

/// Every reassociation program prints one answer four times: the four groupings of an
/// associative operator are one value.
pub proof fn lemma_chain_prints_one_answer(c: Case, ty: Ty, op: Op)
    requires
        is_chain_case(c, ty, op),
    ensures
        c.program.expected_values().len() == 4,
        forall|i: int, j: int|
            0 <= i < 4 && 0 <= j < 4 ==> c.program.expected_values()[i]
                == c.program.expected_values()[j],
{
}

/// However long the dead chain, the program prints the same answer: what is dead cannot change
/// it.
pub proof fn lemma_dead_chain_answer_ignores_depth(a: Case, b: Case, ty: Ty, d: int, e: int)
    requires
        is_dead_chain_case(a, ty, d),
        is_dead_chain_case(b, ty, e),
    ensures
        a.program.expected_values() == b.program.expected_values(),
{
}

/// Every unreachable arm program prints the live arm's answer, eleven.
pub proof fn lemma_unreachable_prints_the_live_arm(c: Case, shape: DeadArm)
    requires
        is_dead_arm_case(c, shape),
    ensures
        c.program.expected_values() == seq![11int],
{
    assert(dead_arm_expected(shape) =~= seq![11int]);
}

/// The facets inside one basic block that this library builds, one batch per facet in the
/// order the phase walks them: reassociation, dead code, dead stores and unreachable arms.
#[verifier::rlimit(100)]
pub fn generate() -> (r: Vec<Batch>)
    ensures
        r@.len() == 4,
        r@[0] is Single,
        r@[0]->cases@.len() == 20,
        forall|k: int|
            0 <= k < 20 ==> is_chain_case(#[trigger] r@[0]->cases@[k], wide_types()[k / 5], chain_ops()[k % 5]),
        r@[1] is Single,
        r@[1]->cases@.len() == 12,
        forall|k: int|
            0 <= k < 12 ==> is_dead_chain_case(
                #[trigger] r@[1]->cases@[k],
                wide_types()[k / 3],
                seq![1int, 4, 16][k % 3],
            ),
        r@[2] is Single,
        r@[2]->cases@.len() == 12,
        forall|k: int| 0 <= k < 12 ==> is_overwritten_case(#[trigger] r@[2]->cases@[k], wide_types()[k / 3], store_kinds_list()[k % 3]),
        r@[3] is Single,
        r@[3]->cases@.len() == 8,
        forall|k: int| 0 <= k < 8 ==> is_dead_arm_case(#[trigger] r@[3]->cases@[k], dead_arms_list()[k]),
{
    let mut out: Vec<Batch> = Vec::new();
    out.push(Batch::Single { cases: reassociate() });
    out.push(Batch::Single { cases: dead_code() });
    out.push(Batch::Single { cases: dead_store() });
    out.push(Batch::Single { cases: unreachable_code() });
    out
}

} // verus!
