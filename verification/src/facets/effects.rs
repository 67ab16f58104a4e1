//! What a callee does to memory, and what its caller may do with the call because of it: keep
//! values in registers across the call, or take the call out of a loop.
//!
//! Every callee is `noinline`, because with an inliner in the way these programs would measure
//! the inliner rather than what the callee was worked out to do. Every loop runs a thousand
//! times, and the checks after the total say the calls really ran.

use vstd::prelude::*;
use vstd::string::*;
use crate::emit::{Program, input_global, input_read, indent, print_line, source_text, expected_text};
use crate::lang::{Ty, wide, wide_types};
use crate::facets::{Case, LinkedCase, axis, gnu_when, tags_for, lit, lit_text, unit, unit_text};

verus! {

/// What a callee does to memory its caller can see.
#[derive(Clone, Copy, Debug, PartialEq, Eq, Structural)]
pub enum EffectShape {
    WritesOneArray,
    WritesBothArrays,
    ReadsOnly,
    WritesWhatIsRead,
    LendsALocal,
    KeepsALocal,
}

impl EffectShape {
    /// The axis value.
    pub open spec fn name_text(self) -> Seq<char> {
        match self {
            EffectShape::WritesOneArray => "writes-one-array"@,
            EffectShape::WritesBothArrays => "writes-both-arrays"@,
            EffectShape::ReadsOnly => "reads-only"@,
            EffectShape::WritesWhatIsRead => "writes-what-is-read"@,
            EffectShape::LendsALocal => "lends-a-local"@,
            EffectShape::KeepsALocal => "keeps-a-local"@,
        }
    }

    /// The axis value.
    pub fn name(self) -> (r: &'static str)
        ensures
            r@ == self.name_text(),
    {
        match self {
            EffectShape::WritesOneArray => "writes-one-array",
            EffectShape::WritesBothArrays => "writes-both-arrays",
            EffectShape::ReadsOnly => "reads-only",
            EffectShape::WritesWhatIsRead => "writes-what-is-read",
            EffectShape::LendsALocal => "lends-a-local",
            EffectShape::KeepsALocal => "keeps-a-local",
        }
    }

    /// The axis value with its words apart, for the purpose line.
    pub open spec fn words_text(self) -> Seq<char> {
        match self {
            EffectShape::WritesOneArray => "writes one array"@,
            EffectShape::WritesBothArrays => "writes both arrays"@,
            EffectShape::ReadsOnly => "reads only"@,
            EffectShape::WritesWhatIsRead => "writes what is read"@,
            EffectShape::LendsALocal => "lends a local"@,
            EffectShape::KeepsALocal => "keeps a local"@,
        }
    }

    /// The axis value with its words apart, for the purpose line.
    pub fn words(self) -> (r: &'static str)
        ensures
            r@ == self.words_text(),
    {
        match self {
            EffectShape::WritesOneArray => "writes one array",
            EffectShape::WritesBothArrays => "writes both arrays",
            EffectShape::ReadsOnly => "reads only",
            EffectShape::WritesWhatIsRead => "writes what is read",
            EffectShape::LendsALocal => "lends a local",
            EffectShape::KeepsALocal => "keeps a local",
        }
    }
}

/// The shapes in the order the facet walks them.
pub open spec fn effect_shapes_list() -> Seq<EffectShape> {
    seq![
        EffectShape::WritesOneArray,
        EffectShape::WritesBothArrays,
        EffectShape::ReadsOnly,
        EffectShape::WritesWhatIsRead,
        EffectShape::LendsALocal,
        EffectShape::KeepsALocal,
    ]
}

/// The shapes in the order the facet walks them.
fn effect_shapes_array() -> (r: Vec<EffectShape>)
    ensures
        r@ == effect_shapes_list(),
{
    let r = vec![
        EffectShape::WritesOneArray,
        EffectShape::WritesBothArrays,
        EffectShape::ReadsOnly,
        EffectShape::WritesWhatIsRead,
        EffectShape::LendsALocal,
        EffectShape::KeepsALocal,
    ];
    assert(r@ =~= effect_shapes_list());
    r
}

/// The lines before `main` of each shape.
pub open spec fn effect_top(ty: Ty, shape: EffectShape) -> Seq<Seq<char>> {
    match shape {
        EffectShape::WritesOneArray => seq![
            "static "@ + ty.c_text() + " left[4];"@,
            "static "@ + ty.c_text() + " right[4];"@,
            "static __attribute__((noinline)) "@ + "void bump("@ + ty.c_text() + " *out, "@ + ty.c_text() + " *in) {"@,
            "    out[0] = out[0] + in[1];"@,
            "    out[2] = out[2] + "@ + lit_text(ty, 1int) + ";"@,
            "}"@,
            input_global(ty, "seed"@, 6int),
        ],
        EffectShape::WritesBothArrays => seq![
            "static "@ + ty.c_text() + " left[4];"@,
            "static "@ + ty.c_text() + " right[4];"@,
            "static __attribute__((noinline)) "@ + "void bump("@ + ty.c_text() + " *out, "@ + ty.c_text() + " *in) {"@,
            "    out[0] = out[0] + in[1];"@,
            "    in[2] = in[2] + "@ + lit_text(ty, 1int) + ";"@,
            "}"@,
            input_global(ty, "seed"@, 6int),
        ],
        EffectShape::ReadsOnly => seq![
            "static "@ + ty.c_text() + " table[4];"@,
            "static "@ + ty.c_text() + " watch[4];"@,
            "static __attribute__((noinline)) "@ + ty.c_text() + " scan("@ + ty.c_text() + " *in) {"@,
            "    return in[0] + in[3];"@,
            "}"@,
            input_global(ty, "seed"@, 6int),
        ],
        EffectShape::WritesWhatIsRead => seq![
            "static "@ + ty.c_text() + " table[4];"@,
            "static "@ + ty.c_text() + " watch[4];"@,
            "static __attribute__((noinline)) "@ + ty.c_text() + " scan("@ + ty.c_text() + " *in) {"@,
            "    watch[1] = watch[1] + "@ + lit_text(ty, 1int) + ";"@,
            "    return in[0] + in[3];"@,
            "}"@,
            input_global(ty, "seed"@, 6int),
        ],
        EffectShape::LendsALocal => seq![
            "static "@ + ty.c_text() + " anchor;"@,
            "static __attribute__((noinline)) "@ + ty.c_text() + " sum_of("@ + ty.c_text() + " *of) {"@,
            "    return of[0] + of[1];"@,
            "}"@,
            "static __attribute__((noinline)) "@ + "void tick(void) {"@,
            "    anchor = anchor + "@ + lit_text(ty, 1int) + ";"@,
            "}"@,
            input_global(ty, "seed"@, 6int),
        ],
        EffectShape::KeepsALocal => seq![
            "static "@ + ty.c_text() + " *kept;"@,
            "static __attribute__((noinline)) "@ + ty.c_text() + " sum_of("@ + ty.c_text() + " *of) {"@,
            "    kept = of;"@,
            "    return of[0] + of[1];"@,
            "}"@,
            "static __attribute__((noinline)) "@ + "void tick(void) {"@,
            "    *kept = *kept + "@ + lit_text(ty, 1int) + ";"@,
            "}"@,
            input_global(ty, "seed"@, 6int),
        ],
    }
}

/// The statements of `main` of each shape.
pub open spec fn effect_body(ty: Ty, shape: EffectShape) -> Seq<Seq<char>> {
    match shape {
        EffectShape::WritesOneArray => seq![
            input_read(ty, "seed"@),
            Seq::<char>::empty(),
            indent(1) + "left[0] = seed;"@,
            indent(1) + "right[1] = seed + "@ + lit_text(ty, 1int) + ";"@,
            indent(1) + "right[2] = seed + "@ + lit_text(ty, 2int) + ";"@,
            indent(1) + "right[3] = seed + "@ + lit_text(ty, 3int) + ";"@,
            indent(1) + ty.c_text() + " total = 0;"@,
            indent(1) + "for (int i = 0; i < "@ + "1000"@ + "; i++) {"@,
            indent(2) + "bump(left, right);"@,
            indent(2) + "total += right[2] + right[3];"@,
            indent(1) + "}"@,
            Seq::<char>::empty(),
            print_line(1, ty.promotion(), "total"@),
            print_line(1, ty.promotion(), "left[0]"@),
            print_line(1, ty.promotion(), "left[2]"@),
        ],
        EffectShape::WritesBothArrays => seq![
            input_read(ty, "seed"@),
            Seq::<char>::empty(),
            indent(1) + "left[0] = seed;"@,
            indent(1) + "right[1] = seed + "@ + lit_text(ty, 1int) + ";"@,
            indent(1) + "right[2] = seed + "@ + lit_text(ty, 2int) + ";"@,
            indent(1) + "right[3] = seed + "@ + lit_text(ty, 3int) + ";"@,
            indent(1) + ty.c_text() + " total = 0;"@,
            indent(1) + "for (int i = 0; i < "@ + "1000"@ + "; i++) {"@,
            indent(2) + "bump(left, right);"@,
            indent(2) + "total += right[2] + right[3];"@,
            indent(1) + "}"@,
            Seq::<char>::empty(),
            print_line(1, ty.promotion(), "total"@),
            print_line(1, ty.promotion(), "left[0]"@),
            print_line(1, ty.promotion(), "right[2]"@),
        ],
        EffectShape::ReadsOnly => seq![
            input_read(ty, "seed"@),
            Seq::<char>::empty(),
            indent(1) + "table[0] = seed;"@,
            indent(1) + "table[3] = seed + "@ + lit_text(ty, 1int) + ";"@,
            indent(1) + "watch[1] = seed + "@ + lit_text(ty, 2int) + ";"@,
            indent(1) + "watch[2] = seed + "@ + lit_text(ty, 3int) + ";"@,
            indent(1) + ty.c_text() + " total = 0;"@,
            indent(1) + "for (int i = 0; i < "@ + "1000"@ + "; i++) {"@,
            indent(2) + "total += scan(table);"@,
            indent(2) + "total += watch[1] + watch[2];"@,
            indent(1) + "}"@,
            Seq::<char>::empty(),
            print_line(1, ty.promotion(), "total"@),
            print_line(1, ty.promotion(), "table[0]"@),
            print_line(1, ty.promotion(), "watch[1]"@),
        ],
        EffectShape::WritesWhatIsRead => seq![
            input_read(ty, "seed"@),
            Seq::<char>::empty(),
            indent(1) + "table[0] = seed;"@,
            indent(1) + "table[3] = seed + "@ + lit_text(ty, 1int) + ";"@,
            indent(1) + "watch[1] = seed + "@ + lit_text(ty, 2int) + ";"@,
            indent(1) + "watch[2] = seed + "@ + lit_text(ty, 3int) + ";"@,
            indent(1) + ty.c_text() + " total = 0;"@,
            indent(1) + "for (int i = 0; i < "@ + "1000"@ + "; i++) {"@,
            indent(2) + "total += scan(table);"@,
            indent(2) + "total += watch[1] + watch[2];"@,
            indent(1) + "}"@,
            Seq::<char>::empty(),
            print_line(1, ty.promotion(), "total"@),
            print_line(1, ty.promotion(), "table[0]"@),
            print_line(1, ty.promotion(), "watch[1]"@),
        ],
        EffectShape::LendsALocal => seq![
            input_read(ty, "seed"@),
            Seq::<char>::empty(),
            indent(1) + ty.c_text() + " local[3];"@,
            indent(1) + "local[0] = seed;"@,
            indent(1) + "local[1] = seed + "@ + lit_text(ty, 1int) + ";"@,
            indent(1) + "local[2] = seed + "@ + lit_text(ty, 2int) + ";"@,
            indent(1) + ty.c_text() + " total = 0;"@,
            indent(1) + "for (int i = 0; i < "@ + "1000"@ + "; i++) {"@,
            indent(2) + "total += sum_of(local);"@,
            indent(2) + "tick();"@,
            indent(2) + "total += local[0] + local[2];"@,
            indent(1) + "}"@,
            Seq::<char>::empty(),
            print_line(1, ty.promotion(), "total"@),
            print_line(1, ty.promotion(), "local[0]"@),
            print_line(1, ty.promotion(), "anchor"@),
        ],
        EffectShape::KeepsALocal => seq![
            input_read(ty, "seed"@),
            Seq::<char>::empty(),
            indent(1) + ty.c_text() + " local[3];"@,
            indent(1) + "local[0] = seed;"@,
            indent(1) + "local[1] = seed + "@ + lit_text(ty, 1int) + ";"@,
            indent(1) + "local[2] = seed + "@ + lit_text(ty, 2int) + ";"@,
            indent(1) + ty.c_text() + " total = 0;"@,
            indent(1) + "for (int i = 0; i < "@ + "1000"@ + "; i++) {"@,
            indent(2) + "total += sum_of(local);"@,
            indent(2) + "tick();"@,
            indent(2) + "total += local[0] + local[2];"@,
            indent(1) + "}"@,
            Seq::<char>::empty(),
            print_line(1, ty.promotion(), "total"@),
            print_line(1, ty.promotion(), "local[0]"@),
            print_line(1, ty.promotion(), "local[2]"@),
        ],
    }
}

/// The headers of each shape.
pub open spec fn effect_includes(ty: Ty, shape: EffectShape) -> Seq<Seq<char>> {
    match shape {
        EffectShape::WritesOneArray => Seq::empty(),
        EffectShape::WritesBothArrays => Seq::empty(),
        EffectShape::ReadsOnly => Seq::empty(),
        EffectShape::WritesWhatIsRead => Seq::empty(),
        EffectShape::LendsALocal => Seq::empty(),
        EffectShape::KeepsALocal => Seq::empty(),
    }
}

/// What the program prints of each shape.
pub open spec fn effect_expected(ty: Ty, shape: EffectShape) -> Seq<int> {
    match shape {
        EffectShape::WritesOneArray => seq![
            (17int * 1000int),
            (6int + 7int * 1000int),
            1000int,
        ],
        EffectShape::WritesBothArrays => seq![
            (18int * 1000int + 1000int * 999int / 2int),
            (6int + 7int * 1000int),
            (8int + 1000int),
        ],
        EffectShape::ReadsOnly => seq![
            (30int * 1000int),
            6int,
            8int,
        ],
        EffectShape::WritesWhatIsRead => seq![
            (31int * 1000int + 1000int * 999int / 2int),
            6int,
            (8int + 1000int),
        ],
        EffectShape::LendsALocal => seq![
            (27int * 1000int),
            6int,
            1000int,
        ],
        EffectShape::KeepsALocal => seq![
            (28int * 1000int + 2int * (1000int * 999int / 2int)),
            (6int + 1000int),
            8int,
        ],
    }
}

/// Whether the shape asks for the volatile sink.
pub open spec fn effect_sinks(shape: EffectShape) -> bool {
    match shape {
        EffectShape::WritesOneArray => false,
        EffectShape::WritesBothArrays => false,
        EffectShape::ReadsOnly => false,
        EffectShape::WritesWhatIsRead => false,
        EffectShape::LendsALocal => false,
        EffectShape::KeepsALocal => false,
    }
}

/// Writes some of the shapes.
#[verifier::rlimit(100)]
fn effect_write_0(program: &mut Program, ty: Ty, shape: EffectShape)
    requires
        old(program).top_lines() == Seq::<Seq<char>>::empty(),
        old(program).body_lines() == Seq::<Seq<char>>::empty(),
        old(program).expected_values() == Seq::<int>::empty(),
        old(program).include_lines() == Seq::<Seq<char>>::empty(),
        !old(program).sinks(),
        shape == EffectShape::WritesOneArray || shape == EffectShape::WritesBothArrays,
    ensures
        final(program).top_lines() == effect_top(ty, shape),
        final(program).body_lines() == effect_body(ty, shape),
        final(program).expected_values() == effect_expected(ty, shape),
        final(program).include_lines() == effect_includes(ty, shape),
        final(program).sinks() == effect_sinks(shape),
        final(program).purpose_text() == old(program).purpose_text(),
{
    let c = ty.c_name();
    match shape {
        EffectShape::WritesOneArray => {
            let mut text1 = String::from_str("static ");
            text1.append(c);
            text1.append(" left[4];");
            program.top(text1.as_str());
            let mut text2 = String::from_str("static ");
            text2.append(c);
            text2.append(" right[4];");
            program.top(text2.as_str());
            let mut text3 = String::from_str("static __attribute__((noinline)) ");
            text3.append("void bump(");
            text3.append(c);
            text3.append(" *out, ");
            text3.append(c);
            text3.append(" *in) {");
            program.top(text3.as_str());
            program.top("    out[0] = out[0] + in[1];");
            let mut text4 = String::from_str("    out[2] = out[2] + ");
            let literal5 = lit(ty, 1);
            text4.append(literal5.as_str());
            text4.append(";");
            program.top(text4.as_str());
            program.top("}");
            program.input(ty, "seed", 6);
            program.blank();
            program.line("left[0] = seed;");
            let mut text6 = String::from_str("right[1] = seed + ");
            let literal7 = lit(ty, 1);
            text6.append(literal7.as_str());
            text6.append(";");
            program.line(text6.as_str());
            let mut text8 = String::from_str("right[2] = seed + ");
            let literal9 = lit(ty, 2);
            text8.append(literal9.as_str());
            text8.append(";");
            program.line(text8.as_str());
            let mut text10 = String::from_str("right[3] = seed + ");
            let literal11 = lit(ty, 3);
            text10.append(literal11.as_str());
            text10.append(";");
            program.line(text10.as_str());
            let mut text12 = String::from_str(c);
            text12.append(" total = 0;");
            program.line(text12.as_str());
            let mut text13 = String::from_str("for (int i = 0; i < ");
            text13.append("1000");
            text13.append("; i++) {");
            program.line(text13.as_str());
            program.line_at(1, "bump(left, right);");
            program.line_at(1, "total += right[2] + right[3];");
            program.line("}");
            program.blank();
            program.check(ty.promoted(), "total", 17 * 1000);
            program.check(ty.promoted(), "left[0]", 6 + 7 * 1000);
            program.check(ty.promoted(), "left[2]", 1000);
            assert(program.top_lines() =~~= effect_top(ty, shape));
            assert(program.body_lines() =~~= effect_body(ty, shape));
            assert(program.expected_values() =~= effect_expected(ty, shape));
            assert(program.include_lines() =~~= effect_includes(ty, shape));
        },
        EffectShape::WritesBothArrays => {
            let mut text1 = String::from_str("static ");
            text1.append(c);
            text1.append(" left[4];");
            program.top(text1.as_str());
            let mut text2 = String::from_str("static ");
            text2.append(c);
            text2.append(" right[4];");
            program.top(text2.as_str());
            let mut text3 = String::from_str("static __attribute__((noinline)) ");
            text3.append("void bump(");
            text3.append(c);
            text3.append(" *out, ");
            text3.append(c);
            text3.append(" *in) {");
            program.top(text3.as_str());
            program.top("    out[0] = out[0] + in[1];");
            let mut text4 = String::from_str("    in[2] = in[2] + ");
            let literal5 = lit(ty, 1);
            text4.append(literal5.as_str());
            text4.append(";");
            program.top(text4.as_str());
            program.top("}");
            program.input(ty, "seed", 6);
            program.blank();
            program.line("left[0] = seed;");
            let mut text6 = String::from_str("right[1] = seed + ");
            let literal7 = lit(ty, 1);
            text6.append(literal7.as_str());
            text6.append(";");
            program.line(text6.as_str());
            let mut text8 = String::from_str("right[2] = seed + ");
            let literal9 = lit(ty, 2);
            text8.append(literal9.as_str());
            text8.append(";");
            program.line(text8.as_str());
            let mut text10 = String::from_str("right[3] = seed + ");
            let literal11 = lit(ty, 3);
            text10.append(literal11.as_str());
            text10.append(";");
            program.line(text10.as_str());
            let mut text12 = String::from_str(c);
            text12.append(" total = 0;");
            program.line(text12.as_str());
            let mut text13 = String::from_str("for (int i = 0; i < ");
            text13.append("1000");
            text13.append("; i++) {");
            program.line(text13.as_str());
            program.line_at(1, "bump(left, right);");
            program.line_at(1, "total += right[2] + right[3];");
            program.line("}");
            program.blank();
            program.check(ty.promoted(), "total", 18 * 1000 + 1000 * 999 / 2);
            program.check(ty.promoted(), "left[0]", 6 + 7 * 1000);
            program.check(ty.promoted(), "right[2]", 8 + 1000);
            assert(program.top_lines() =~~= effect_top(ty, shape));
            assert(program.body_lines() =~~= effect_body(ty, shape));
            assert(program.expected_values() =~= effect_expected(ty, shape));
            assert(program.include_lines() =~~= effect_includes(ty, shape));
        },
        _ => {},
    }
}

/// Writes some of the shapes.
#[verifier::rlimit(100)]
fn effect_write_1(program: &mut Program, ty: Ty, shape: EffectShape)
    requires
        old(program).top_lines() == Seq::<Seq<char>>::empty(),
        old(program).body_lines() == Seq::<Seq<char>>::empty(),
        old(program).expected_values() == Seq::<int>::empty(),
        old(program).include_lines() == Seq::<Seq<char>>::empty(),
        !old(program).sinks(),
        shape == EffectShape::ReadsOnly || shape == EffectShape::WritesWhatIsRead,
    ensures
        final(program).top_lines() == effect_top(ty, shape),
        final(program).body_lines() == effect_body(ty, shape),
        final(program).expected_values() == effect_expected(ty, shape),
        final(program).include_lines() == effect_includes(ty, shape),
        final(program).sinks() == effect_sinks(shape),
        final(program).purpose_text() == old(program).purpose_text(),
{
    let c = ty.c_name();
    match shape {
        EffectShape::ReadsOnly => {
            let mut text1 = String::from_str("static ");
            text1.append(c);
            text1.append(" table[4];");
            program.top(text1.as_str());
            let mut text2 = String::from_str("static ");
            text2.append(c);
            text2.append(" watch[4];");
            program.top(text2.as_str());
            let mut text3 = String::from_str("static __attribute__((noinline)) ");
            text3.append(c);
            text3.append(" scan(");
            text3.append(c);
            text3.append(" *in) {");
            program.top(text3.as_str());
            program.top("    return in[0] + in[3];");
            program.top("}");
            program.input(ty, "seed", 6);
            program.blank();
            program.line("table[0] = seed;");
            let mut text4 = String::from_str("table[3] = seed + ");
            let literal5 = lit(ty, 1);
            text4.append(literal5.as_str());
            text4.append(";");
            program.line(text4.as_str());
            let mut text6 = String::from_str("watch[1] = seed + ");
            let literal7 = lit(ty, 2);
            text6.append(literal7.as_str());
            text6.append(";");
            program.line(text6.as_str());
            let mut text8 = String::from_str("watch[2] = seed + ");
            let literal9 = lit(ty, 3);
            text8.append(literal9.as_str());
            text8.append(";");
            program.line(text8.as_str());
            let mut text10 = String::from_str(c);
            text10.append(" total = 0;");
            program.line(text10.as_str());
            let mut text11 = String::from_str("for (int i = 0; i < ");
            text11.append("1000");
            text11.append("; i++) {");
            program.line(text11.as_str());
            program.line_at(1, "total += scan(table);");
            program.line_at(1, "total += watch[1] + watch[2];");
            program.line("}");
            program.blank();
            program.check(ty.promoted(), "total", 30 * 1000);
            program.check(ty.promoted(), "table[0]", 6);
            program.check(ty.promoted(), "watch[1]", 8);
            assert(program.top_lines() =~~= effect_top(ty, shape));
            assert(program.body_lines() =~~= effect_body(ty, shape));
            assert(program.expected_values() =~= effect_expected(ty, shape));
            assert(program.include_lines() =~~= effect_includes(ty, shape));
        },
        EffectShape::WritesWhatIsRead => {
            let mut text1 = String::from_str("static ");
            text1.append(c);
            text1.append(" table[4];");
            program.top(text1.as_str());
            let mut text2 = String::from_str("static ");
            text2.append(c);
            text2.append(" watch[4];");
            program.top(text2.as_str());
            let mut text3 = String::from_str("static __attribute__((noinline)) ");
            text3.append(c);
            text3.append(" scan(");
            text3.append(c);
            text3.append(" *in) {");
            program.top(text3.as_str());
            let mut text4 = String::from_str("    watch[1] = watch[1] + ");
            let literal5 = lit(ty, 1);
            text4.append(literal5.as_str());
            text4.append(";");
            program.top(text4.as_str());
            program.top("    return in[0] + in[3];");
            program.top("}");
            program.input(ty, "seed", 6);
            program.blank();
            program.line("table[0] = seed;");
            let mut text6 = String::from_str("table[3] = seed + ");
            let literal7 = lit(ty, 1);
            text6.append(literal7.as_str());
            text6.append(";");
            program.line(text6.as_str());
            let mut text8 = String::from_str("watch[1] = seed + ");
            let literal9 = lit(ty, 2);
            text8.append(literal9.as_str());
            text8.append(";");
            program.line(text8.as_str());
            let mut text10 = String::from_str("watch[2] = seed + ");
            let literal11 = lit(ty, 3);
            text10.append(literal11.as_str());
            text10.append(";");
            program.line(text10.as_str());
            let mut text12 = String::from_str(c);
            text12.append(" total = 0;");
            program.line(text12.as_str());
            let mut text13 = String::from_str("for (int i = 0; i < ");
            text13.append("1000");
            text13.append("; i++) {");
            program.line(text13.as_str());
            program.line_at(1, "total += scan(table);");
            program.line_at(1, "total += watch[1] + watch[2];");
            program.line("}");
            program.blank();
            program.check(ty.promoted(), "total", 31 * 1000 + 1000 * 999 / 2);
            program.check(ty.promoted(), "table[0]", 6);
            program.check(ty.promoted(), "watch[1]", 8 + 1000);
            assert(program.top_lines() =~~= effect_top(ty, shape));
            assert(program.body_lines() =~~= effect_body(ty, shape));
            assert(program.expected_values() =~= effect_expected(ty, shape));
            assert(program.include_lines() =~~= effect_includes(ty, shape));
        },
        _ => {},
    }
}

/// Writes some of the shapes.
#[verifier::rlimit(100)]
fn effect_write_2(program: &mut Program, ty: Ty, shape: EffectShape)
    requires
        old(program).top_lines() == Seq::<Seq<char>>::empty(),
        old(program).body_lines() == Seq::<Seq<char>>::empty(),
        old(program).expected_values() == Seq::<int>::empty(),
        old(program).include_lines() == Seq::<Seq<char>>::empty(),
        !old(program).sinks(),
        shape == EffectShape::LendsALocal || shape == EffectShape::KeepsALocal,
    ensures
        final(program).top_lines() == effect_top(ty, shape),
        final(program).body_lines() == effect_body(ty, shape),
        final(program).expected_values() == effect_expected(ty, shape),
        final(program).include_lines() == effect_includes(ty, shape),
        final(program).sinks() == effect_sinks(shape),
        final(program).purpose_text() == old(program).purpose_text(),
{
    let c = ty.c_name();
    match shape {
        EffectShape::LendsALocal => {
            let mut text1 = String::from_str("static ");
            text1.append(c);
            text1.append(" anchor;");
            program.top(text1.as_str());
            let mut text2 = String::from_str("static __attribute__((noinline)) ");
            text2.append(c);
            text2.append(" sum_of(");
            text2.append(c);
            text2.append(" *of) {");
            program.top(text2.as_str());
            program.top("    return of[0] + of[1];");
            program.top("}");
            let mut text3 = String::from_str("static __attribute__((noinline)) ");
            text3.append("void tick(void) {");
            program.top(text3.as_str());
            let mut text4 = String::from_str("    anchor = anchor + ");
            let literal5 = lit(ty, 1);
            text4.append(literal5.as_str());
            text4.append(";");
            program.top(text4.as_str());
            program.top("}");
            program.input(ty, "seed", 6);
            program.blank();
            let mut text6 = String::from_str(c);
            text6.append(" local[3];");
            program.line(text6.as_str());
            program.line("local[0] = seed;");
            let mut text7 = String::from_str("local[1] = seed + ");
            let literal8 = lit(ty, 1);
            text7.append(literal8.as_str());
            text7.append(";");
            program.line(text7.as_str());
            let mut text9 = String::from_str("local[2] = seed + ");
            let literal10 = lit(ty, 2);
            text9.append(literal10.as_str());
            text9.append(";");
            program.line(text9.as_str());
            let mut text11 = String::from_str(c);
            text11.append(" total = 0;");
            program.line(text11.as_str());
            let mut text12 = String::from_str("for (int i = 0; i < ");
            text12.append("1000");
            text12.append("; i++) {");
            program.line(text12.as_str());
            program.line_at(1, "total += sum_of(local);");
            program.line_at(1, "tick();");
            program.line_at(1, "total += local[0] + local[2];");
            program.line("}");
            program.blank();
            program.check(ty.promoted(), "total", 27 * 1000);
            program.check(ty.promoted(), "local[0]", 6);
            program.check(ty.promoted(), "anchor", 1000);
            assert(program.top_lines() =~~= effect_top(ty, shape));
            assert(program.body_lines() =~~= effect_body(ty, shape));
            assert(program.expected_values() =~= effect_expected(ty, shape));
            assert(program.include_lines() =~~= effect_includes(ty, shape));
        },
        EffectShape::KeepsALocal => {
            let mut text1 = String::from_str("static ");
            text1.append(c);
            text1.append(" *kept;");
            program.top(text1.as_str());
            let mut text2 = String::from_str("static __attribute__((noinline)) ");
            text2.append(c);
            text2.append(" sum_of(");
            text2.append(c);
            text2.append(" *of) {");
            program.top(text2.as_str());
            program.top("    kept = of;");
            program.top("    return of[0] + of[1];");
            program.top("}");
            let mut text3 = String::from_str("static __attribute__((noinline)) ");
            text3.append("void tick(void) {");
            program.top(text3.as_str());
            let mut text4 = String::from_str("    *kept = *kept + ");
            let literal5 = lit(ty, 1);
            text4.append(literal5.as_str());
            text4.append(";");
            program.top(text4.as_str());
            program.top("}");
            program.input(ty, "seed", 6);
            program.blank();
            let mut text6 = String::from_str(c);
            text6.append(" local[3];");
            program.line(text6.as_str());
            program.line("local[0] = seed;");
            let mut text7 = String::from_str("local[1] = seed + ");
            let literal8 = lit(ty, 1);
            text7.append(literal8.as_str());
            text7.append(";");
            program.line(text7.as_str());
            let mut text9 = String::from_str("local[2] = seed + ");
            let literal10 = lit(ty, 2);
            text9.append(literal10.as_str());
            text9.append(";");
            program.line(text9.as_str());
            let mut text11 = String::from_str(c);
            text11.append(" total = 0;");
            program.line(text11.as_str());
            let mut text12 = String::from_str("for (int i = 0; i < ");
            text12.append("1000");
            text12.append("; i++) {");
            program.line(text12.as_str());
            program.line_at(1, "total += sum_of(local);");
            program.line_at(1, "tick();");
            program.line_at(1, "total += local[0] + local[2];");
            program.line("}");
            program.blank();
            program.check(ty.promoted(), "total", 28 * 1000 + 2 * (1000 * 999 / 2));
            program.check(ty.promoted(), "local[0]", 6 + 1000);
            program.check(ty.promoted(), "local[2]", 8);
            assert(program.top_lines() =~~= effect_top(ty, shape));
            assert(program.body_lines() =~~= effect_body(ty, shape));
            assert(program.expected_values() =~= effect_expected(ty, shape));
            assert(program.include_lines() =~~= effect_includes(ty, shape));
        },
        _ => {},
    }
}

/// Writes a shape.
fn effect_write(program: &mut Program, ty: Ty, shape: EffectShape)
    requires
        old(program).top_lines() == Seq::<Seq<char>>::empty(),
        old(program).body_lines() == Seq::<Seq<char>>::empty(),
        old(program).expected_values() == Seq::<int>::empty(),
        old(program).include_lines() == Seq::<Seq<char>>::empty(),
        !old(program).sinks(),
    ensures
        final(program).top_lines() == effect_top(ty, shape),
        final(program).body_lines() == effect_body(ty, shape),
        final(program).expected_values() == effect_expected(ty, shape),
        final(program).include_lines() == effect_includes(ty, shape),
        final(program).sinks() == effect_sinks(shape),
        final(program).purpose_text() == old(program).purpose_text(),
{
    match shape {
        EffectShape::WritesOneArray | EffectShape::WritesBothArrays => {
            effect_write_0(program, ty, shape);
        },
        EffectShape::ReadsOnly | EffectShape::WritesWhatIsRead => {
            effect_write_1(program, ty, shape);
        },
        EffectShape::LendsALocal | EffectShape::KeepsALocal => {
            effect_write_2(program, ty, shape);
        },
    }
}

/// Whether a case is the effect shape at a type, whole.
pub open spec fn is_effect_case(c: Case, ty: Ty, shape: EffectShape) -> bool {
    &&& c.axes_text() == seq![("type"@, ty.name_text()), ("shape"@, shape.name_text())]
    &&& c.tags_text() == gnu_when(true)
    &&& c.program.purpose_text() == ty.c_text() + " callee, "@ + shape.words_text()
    &&& c.program.include_lines() == effect_includes(ty, shape)
    &&& c.program.top_lines() == effect_top(ty, shape)
    &&& c.program.body_lines() == effect_body(ty, shape)
    &&& c.program.expected_values() == effect_expected(ty, shape)
    &&& c.program.sinks() == effect_sinks(shape)
}

/// One effect shape at one type.
fn effect_case(ty: Ty, shape: EffectShape) -> (r: Case)
    ensures
        is_effect_case(r, ty, shape),
{
    let mut purpose = String::new();
    purpose.append(ty.c_name());
    purpose.append(" callee, ");
    purpose.append(shape.words());
    let mut program = Program::new(purpose.as_str());
    effect_write(&mut program, ty, shape);
    let axes = vec![axis("type", ty.name()), axis("shape", shape.name())];
    let r = Case { axes, tags: tags_for(true), program };
    assert(r.axes_text() =~= seq![("type"@, ty.name_text()), ("shape"@, shape.name_text())]);
    assert(r.tags_text() =~= gnu_when(true));
    r
}

/// What a callee does to memory, read off the loads around a call to it, on every type at the
/// width of a register.
///
/// A callee that writes one array leaves the other in registers across the call; one that writes
/// both, or writes what its caller reads, does not; one that only reads leaves everything; and a
/// local whose address is lent is safe across a later call unless the callee kept the pointer.
/// Every callee is `noinline`, so the cases need GCC's attribute, and the checks after the total
/// say the calls really ran a thousand times.
pub fn memory_effects() -> (r: Vec<Case>)
    ensures
        r@.len() == 24,
        forall|k: int|
            0 <= k < 24 ==> is_effect_case(
                #[trigger] r@[k],
                wide_types()[k / 6],
                effect_shapes_list()[k % 6],
            ),
{
    let types = wide();
    let shapes = effect_shapes_array();
    let mut out: Vec<Case> = Vec::new();
    let mut k: usize = 0;
    while k < 24
        invariant
            k <= 24,
            types@ == wide_types(),
            shapes@ == effect_shapes_list(),
            out@.len() == k,
            forall|i: int|
                0 <= i < k ==> is_effect_case(
                    #[trigger] out@[i],
                    wide_types()[i / 6],
                    effect_shapes_list()[i % 6],
                ),
        decreases 24 - k,
    {
        out.push(effect_case(types[k / 6], shapes[k % 6]));
        k += 1;
    }
    out
}

/// The squares of six and the numbers after it, `n` of them added up.
pub open spec fn square_sum(n: nat) -> int
    decreases n,
{
    if n == 0 {
        0
    } else {
        square_sum((n - 1) as nat) + (6 + n - 1) * (6 + n - 1)
    }
}

/// The squares of six and the numbers after it, `n` of them added up.
fn square_sum_of(n: i128) -> (r: i128)
    requires
        0 <= n <= 1000,
    ensures
        r == square_sum(n as nat),
{
    let mut total: i128 = 0;
    let mut at: i128 = 0;
    while at < n
        invariant
            0 <= at <= n <= 1000,
            total == square_sum(at as nat),
            0 <= total <= at * 1006 * 1006,
        decreases n - at,
    {
        assert((6 + at) * (6 + at) <= 1006 * 1006) by (nonlinear_arith)
            requires
                0 <= at < 1000,
        ;
        assert(at * 1006 * 1006 + 1006 * 1006 == (at + 1) * 1006 * 1006) by (nonlinear_arith);
        total = total + (6 + at) * (6 + at);
        at += 1;
    }
    total
}

/// A call in a loop, and whether it may come out of the loop.
#[derive(Clone, Copy, Debug, PartialEq, Eq, Structural)]
pub enum MotionShape {
    ReadsATableNothingWrites,
    ReadsATableTheLoopWrites,
    TouchesNothing,
    AnArgumentTheLoopChanges,
    WritesThroughAnArgument,
    ACallUnderAFalseTest,
}

impl MotionShape {
    /// The axis value.
    pub open spec fn name_text(self) -> Seq<char> {
        match self {
            MotionShape::ReadsATableNothingWrites => "reads-a-table-nothing-writes"@,
            MotionShape::ReadsATableTheLoopWrites => "reads-a-table-the-loop-writes"@,
            MotionShape::TouchesNothing => "touches-nothing"@,
            MotionShape::AnArgumentTheLoopChanges => "an-argument-the-loop-changes"@,
            MotionShape::WritesThroughAnArgument => "writes-through-an-argument"@,
            MotionShape::ACallUnderAFalseTest => "a-call-under-a-false-test"@,
        }
    }

    /// The axis value.
    pub fn name(self) -> (r: &'static str)
        ensures
            r@ == self.name_text(),
    {
        match self {
            MotionShape::ReadsATableNothingWrites => "reads-a-table-nothing-writes",
            MotionShape::ReadsATableTheLoopWrites => "reads-a-table-the-loop-writes",
            MotionShape::TouchesNothing => "touches-nothing",
            MotionShape::AnArgumentTheLoopChanges => "an-argument-the-loop-changes",
            MotionShape::WritesThroughAnArgument => "writes-through-an-argument",
            MotionShape::ACallUnderAFalseTest => "a-call-under-a-false-test",
        }
    }

    /// The axis value with its words apart, for the purpose line.
    pub open spec fn words_text(self) -> Seq<char> {
        match self {
            MotionShape::ReadsATableNothingWrites => "reads a table nothing writes"@,
            MotionShape::ReadsATableTheLoopWrites => "reads a table the loop writes"@,
            MotionShape::TouchesNothing => "touches nothing"@,
            MotionShape::AnArgumentTheLoopChanges => "an argument the loop changes"@,
            MotionShape::WritesThroughAnArgument => "writes through an argument"@,
            MotionShape::ACallUnderAFalseTest => "a call under a false test"@,
        }
    }

    /// The axis value with its words apart, for the purpose line.
    pub fn words(self) -> (r: &'static str)
        ensures
            r@ == self.words_text(),
    {
        match self {
            MotionShape::ReadsATableNothingWrites => "reads a table nothing writes",
            MotionShape::ReadsATableTheLoopWrites => "reads a table the loop writes",
            MotionShape::TouchesNothing => "touches nothing",
            MotionShape::AnArgumentTheLoopChanges => "an argument the loop changes",
            MotionShape::WritesThroughAnArgument => "writes through an argument",
            MotionShape::ACallUnderAFalseTest => "a call under a false test",
        }
    }
}

/// The shapes in the order the facet walks them.
pub open spec fn motion_shapes_list() -> Seq<MotionShape> {
    seq![
        MotionShape::ReadsATableNothingWrites,
        MotionShape::ReadsATableTheLoopWrites,
        MotionShape::TouchesNothing,
        MotionShape::AnArgumentTheLoopChanges,
        MotionShape::WritesThroughAnArgument,
        MotionShape::ACallUnderAFalseTest,
    ]
}

/// The shapes in the order the facet walks them.
fn motion_shapes_array() -> (r: Vec<MotionShape>)
    ensures
        r@ == motion_shapes_list(),
{
    let r = vec![
        MotionShape::ReadsATableNothingWrites,
        MotionShape::ReadsATableTheLoopWrites,
        MotionShape::TouchesNothing,
        MotionShape::AnArgumentTheLoopChanges,
        MotionShape::WritesThroughAnArgument,
        MotionShape::ACallUnderAFalseTest,
    ];
    assert(r@ =~= motion_shapes_list());
    r
}

/// The lines before `main` of each shape.
pub open spec fn motion_top(ty: Ty, shape: MotionShape) -> Seq<Seq<char>> {
    match shape {
        MotionShape::ReadsATableNothingWrites => seq![
            "static "@ + ty.c_text() + " table[4];"@,
            "static "@ + ty.c_text() + " scratch[4];"@,
            "static __attribute__((noinline)) "@ + ty.c_text() + " scan("@ + ty.c_text() + " *in) {"@,
            "    return in[0] + in[3];"@,
            "}"@,
            input_global(ty, "seed"@, 6int),
        ],
        MotionShape::ReadsATableTheLoopWrites => seq![
            "static "@ + ty.c_text() + " table[4];"@,
            "static __attribute__((noinline)) "@ + ty.c_text() + " scan("@ + ty.c_text() + " *in) {"@,
            "    return in[0] + in[3];"@,
            "}"@,
            input_global(ty, "seed"@, 6int),
        ],
        MotionShape::TouchesNothing => seq![
            "static "@ + ty.c_text() + " scratch[4];"@,
            "static __attribute__((noinline)) "@ + ty.c_text() + " square("@ + ty.c_text() + " of) {"@,
            "    return of * of;"@,
            "}"@,
            input_global(ty, "seed"@, 6int),
        ],
        MotionShape::AnArgumentTheLoopChanges => seq![
            "static "@ + ty.c_text() + " scratch[4];"@,
            "static __attribute__((noinline)) "@ + ty.c_text() + " square("@ + ty.c_text() + " of) {"@,
            "    return of * of;"@,
            "}"@,
            input_global(ty, "seed"@, 6int),
        ],
        MotionShape::WritesThroughAnArgument => seq![
            "static "@ + ty.c_text() + " counter[2];"@,
            "static __attribute__((noinline)) "@ + ty.c_text() + " bump("@ + ty.c_text() + " *out) {"@,
            "    out[0] = out[0] + "@ + lit_text(ty, 1int) + ";"@,
            "    return out[1];"@,
            "}"@,
            input_global(ty, "seed"@, 6int),
        ],
        MotionShape::ACallUnderAFalseTest => seq![
            "static __attribute__((noinline)) "@ + ty.c_text() + " divide("@ + ty.c_text() + " top, "@ + ty.c_text() + " bottom) {"@,
            "    return top / bottom;"@,
            "}"@,
            input_global(ty, "seed"@, 6int),
            input_global(ty, "gate"@, 0int),
            input_global(ty, "bottom"@, 0int),
        ],
    }
}

/// The statements of `main` of each shape.
pub open spec fn motion_body(ty: Ty, shape: MotionShape) -> Seq<Seq<char>> {
    match shape {
        MotionShape::ReadsATableNothingWrites => seq![
            input_read(ty, "seed"@),
            Seq::<char>::empty(),
            indent(1) + "table[0] = seed;"@,
            indent(1) + "table[3] = seed + "@ + lit_text(ty, 1int) + ";"@,
            indent(1) + ty.c_text() + " total = 0;"@,
            indent(1) + "for (int i = 0; i < "@ + "1000"@ + "; i++) {"@,
            indent(2) + "total += scan(table);"@,
            indent(2) + "scratch[i & 3] = scratch[i & 3] + "@ + lit_text(ty, 1int) + ";"@,
            indent(1) + "}"@,
            Seq::<char>::empty(),
            print_line(1, ty.promotion(), "total"@),
            print_line(1, ty.promotion(), "table[3]"@),
            print_line(1, ty.promotion(), "scratch[3]"@),
        ],
        MotionShape::ReadsATableTheLoopWrites => seq![
            input_read(ty, "seed"@),
            Seq::<char>::empty(),
            indent(1) + "table[0] = seed;"@,
            indent(1) + "table[3] = seed + "@ + lit_text(ty, 1int) + ";"@,
            indent(1) + ty.c_text() + " total = 0;"@,
            indent(1) + "for (int i = 0; i < "@ + "1000"@ + "; i++) {"@,
            indent(2) + "total += scan(table);"@,
            indent(2) + "table[3] = table[3] + "@ + lit_text(ty, 1int) + ";"@,
            indent(1) + "}"@,
            Seq::<char>::empty(),
            print_line(1, ty.promotion(), "total"@),
            print_line(1, ty.promotion(), "table[0]"@),
            print_line(1, ty.promotion(), "table[3]"@),
        ],
        MotionShape::TouchesNothing => seq![
            input_read(ty, "seed"@),
            Seq::<char>::empty(),
            indent(1) + ty.c_text() + " total = 0;"@,
            indent(1) + "for (int i = 0; i < "@ + "1000"@ + "; i++) {"@,
            indent(2) + "total += square(seed);"@,
            indent(2) + "scratch[i & 3] = scratch[i & 3] + "@ + lit_text(ty, 1int) + ";"@,
            indent(1) + "}"@,
            Seq::<char>::empty(),
            print_line(1, ty.promotion(), "total"@),
            print_line(1, ty.promotion(), "scratch[3]"@),
        ],
        MotionShape::AnArgumentTheLoopChanges => seq![
            input_read(ty, "seed"@),
            Seq::<char>::empty(),
            indent(1) + ty.c_text() + " total = 0;"@,
            indent(1) + "for (int i = 0; i < "@ + "1000"@ + "; i++) {"@,
            indent(2) + "total += square(seed + ("@ + ty.c_text() + ")i);"@,
            indent(2) + "scratch[i & 3] = scratch[i & 3] + "@ + lit_text(ty, 1int) + ";"@,
            indent(1) + "}"@,
            Seq::<char>::empty(),
            print_line(1, ty.promotion(), "total"@),
            print_line(1, ty.promotion(), "scratch[3]"@),
        ],
        MotionShape::WritesThroughAnArgument => seq![
            input_read(ty, "seed"@),
            Seq::<char>::empty(),
            indent(1) + "counter[1] = seed;"@,
            indent(1) + ty.c_text() + " total = 0;"@,
            indent(1) + "for (int i = 0; i < "@ + "1000"@ + "; i++) {"@,
            indent(2) + "total += bump(counter);"@,
            indent(1) + "}"@,
            Seq::<char>::empty(),
            print_line(1, ty.promotion(), "total"@),
            print_line(1, ty.promotion(), "counter[0]"@),
            print_line(1, ty.promotion(), "counter[1]"@),
        ],
        MotionShape::ACallUnderAFalseTest => seq![
            input_read(ty, "seed"@),
            input_read(ty, "gate"@),
            input_read(ty, "bottom"@),
            Seq::<char>::empty(),
            indent(1) + ty.c_text() + " total = 0;"@,
            indent(1) + "for (int i = 0; i < "@ + "1000"@ + "; i++) {"@,
            indent(2) + "if (gate) {"@,
            indent(3) + "total += divide(seed, bottom);"@,
            indent(2) + "}"@,
            indent(2) + "total += "@ + lit_text(ty, 1int) + ";"@,
            indent(1) + "}"@,
            Seq::<char>::empty(),
            print_line(1, ty.promotion(), "total"@),
        ],
    }
}

/// The headers of each shape.
pub open spec fn motion_includes(ty: Ty, shape: MotionShape) -> Seq<Seq<char>> {
    match shape {
        MotionShape::ReadsATableNothingWrites => Seq::empty(),
        MotionShape::ReadsATableTheLoopWrites => Seq::empty(),
        MotionShape::TouchesNothing => Seq::empty(),
        MotionShape::AnArgumentTheLoopChanges => Seq::empty(),
        MotionShape::WritesThroughAnArgument => Seq::empty(),
        MotionShape::ACallUnderAFalseTest => Seq::empty(),
    }
}

/// What the program prints of each shape.
pub open spec fn motion_expected(ty: Ty, shape: MotionShape) -> Seq<int> {
    match shape {
        MotionShape::ReadsATableNothingWrites => seq![
            (13int * 1000int),
            7int,
            (1000int / 4int),
        ],
        MotionShape::ReadsATableTheLoopWrites => seq![
            (13int * 1000int + 1000int * 999int / 2int),
            6int,
            (7int + 1000int),
        ],
        MotionShape::TouchesNothing => seq![
            (36int * 1000int),
            (1000int / 4int),
        ],
        MotionShape::AnArgumentTheLoopChanges => seq![
            square_sum(1000),
            (1000int / 4int),
        ],
        MotionShape::WritesThroughAnArgument => seq![
            (6int * 1000int),
            1000int,
            6int,
        ],
        MotionShape::ACallUnderAFalseTest => seq![
            1000int,
        ],
    }
}

/// Whether the shape asks for the volatile sink.
pub open spec fn motion_sinks(shape: MotionShape) -> bool {
    match shape {
        MotionShape::ReadsATableNothingWrites => false,
        MotionShape::ReadsATableTheLoopWrites => false,
        MotionShape::TouchesNothing => false,
        MotionShape::AnArgumentTheLoopChanges => false,
        MotionShape::WritesThroughAnArgument => false,
        MotionShape::ACallUnderAFalseTest => false,
    }
}

/// Writes some of the shapes.
#[verifier::rlimit(100)]
fn motion_write_0(program: &mut Program, ty: Ty, shape: MotionShape)
    requires
        old(program).top_lines() == Seq::<Seq<char>>::empty(),
        old(program).body_lines() == Seq::<Seq<char>>::empty(),
        old(program).expected_values() == Seq::<int>::empty(),
        old(program).include_lines() == Seq::<Seq<char>>::empty(),
        !old(program).sinks(),
        shape == MotionShape::ReadsATableNothingWrites || shape == MotionShape::ReadsATableTheLoopWrites,
    ensures
        final(program).top_lines() == motion_top(ty, shape),
        final(program).body_lines() == motion_body(ty, shape),
        final(program).expected_values() == motion_expected(ty, shape),
        final(program).include_lines() == motion_includes(ty, shape),
        final(program).sinks() == motion_sinks(shape),
        final(program).purpose_text() == old(program).purpose_text(),
{
    let c = ty.c_name();
    match shape {
        MotionShape::ReadsATableNothingWrites => {
            let mut text1 = String::from_str("static ");
            text1.append(c);
            text1.append(" table[4];");
            program.top(text1.as_str());
            let mut text2 = String::from_str("static ");
            text2.append(c);
            text2.append(" scratch[4];");
            program.top(text2.as_str());
            let mut text3 = String::from_str("static __attribute__((noinline)) ");
            text3.append(c);
            text3.append(" scan(");
            text3.append(c);
            text3.append(" *in) {");
            program.top(text3.as_str());
            program.top("    return in[0] + in[3];");
            program.top("}");
            program.input(ty, "seed", 6);
            program.blank();
            program.line("table[0] = seed;");
            let mut text4 = String::from_str("table[3] = seed + ");
            let literal5 = lit(ty, 1);
            text4.append(literal5.as_str());
            text4.append(";");
            program.line(text4.as_str());
            let mut text6 = String::from_str(c);
            text6.append(" total = 0;");
            program.line(text6.as_str());
            let mut text7 = String::from_str("for (int i = 0; i < ");
            text7.append("1000");
            text7.append("; i++) {");
            program.line(text7.as_str());
            program.line_at(1, "total += scan(table);");
            let mut text8 = String::from_str("scratch[i & 3] = scratch[i & 3] + ");
            let literal9 = lit(ty, 1);
            text8.append(literal9.as_str());
            text8.append(";");
            program.line_at(1, text8.as_str());
            program.line("}");
            program.blank();
            program.check(ty.promoted(), "total", 13 * 1000);
            program.check(ty.promoted(), "table[3]", 7);
            program.check(ty.promoted(), "scratch[3]", 1000 / 4);
            assert(program.top_lines() =~~= motion_top(ty, shape));
            assert(program.body_lines() =~~= motion_body(ty, shape));
            assert(program.expected_values() =~= motion_expected(ty, shape));
            assert(program.include_lines() =~~= motion_includes(ty, shape));
        },
        MotionShape::ReadsATableTheLoopWrites => {
            let mut text1 = String::from_str("static ");
            text1.append(c);
            text1.append(" table[4];");
            program.top(text1.as_str());
            let mut text2 = String::from_str("static __attribute__((noinline)) ");
            text2.append(c);
            text2.append(" scan(");
            text2.append(c);
            text2.append(" *in) {");
            program.top(text2.as_str());
            program.top("    return in[0] + in[3];");
            program.top("}");
            program.input(ty, "seed", 6);
            program.blank();
            program.line("table[0] = seed;");
            let mut text3 = String::from_str("table[3] = seed + ");
            let literal4 = lit(ty, 1);
            text3.append(literal4.as_str());
            text3.append(";");
            program.line(text3.as_str());
            let mut text5 = String::from_str(c);
            text5.append(" total = 0;");
            program.line(text5.as_str());
            let mut text6 = String::from_str("for (int i = 0; i < ");
            text6.append("1000");
            text6.append("; i++) {");
            program.line(text6.as_str());
            program.line_at(1, "total += scan(table);");
            let mut text7 = String::from_str("table[3] = table[3] + ");
            let literal8 = lit(ty, 1);
            text7.append(literal8.as_str());
            text7.append(";");
            program.line_at(1, text7.as_str());
            program.line("}");
            program.blank();
            program.check(ty.promoted(), "total", 13 * 1000 + 1000 * 999 / 2);
            program.check(ty.promoted(), "table[0]", 6);
            program.check(ty.promoted(), "table[3]", 7 + 1000);
            assert(program.top_lines() =~~= motion_top(ty, shape));
            assert(program.body_lines() =~~= motion_body(ty, shape));
            assert(program.expected_values() =~= motion_expected(ty, shape));
            assert(program.include_lines() =~~= motion_includes(ty, shape));
        },
        _ => {},
    }
}

/// Writes some of the shapes.
#[verifier::rlimit(100)]
fn motion_write_1(program: &mut Program, ty: Ty, shape: MotionShape)
    requires
        old(program).top_lines() == Seq::<Seq<char>>::empty(),
        old(program).body_lines() == Seq::<Seq<char>>::empty(),
        old(program).expected_values() == Seq::<int>::empty(),
        old(program).include_lines() == Seq::<Seq<char>>::empty(),
        !old(program).sinks(),
        shape == MotionShape::TouchesNothing || shape == MotionShape::AnArgumentTheLoopChanges,
    ensures
        final(program).top_lines() == motion_top(ty, shape),
        final(program).body_lines() == motion_body(ty, shape),
        final(program).expected_values() == motion_expected(ty, shape),
        final(program).include_lines() == motion_includes(ty, shape),
        final(program).sinks() == motion_sinks(shape),
        final(program).purpose_text() == old(program).purpose_text(),
{
    let c = ty.c_name();
    match shape {
        MotionShape::TouchesNothing => {
            let mut text1 = String::from_str("static ");
            text1.append(c);
            text1.append(" scratch[4];");
            program.top(text1.as_str());
            let mut text2 = String::from_str("static __attribute__((noinline)) ");
            text2.append(c);
            text2.append(" square(");
            text2.append(c);
            text2.append(" of) {");
            program.top(text2.as_str());
            program.top("    return of * of;");
            program.top("}");
            program.input(ty, "seed", 6);
            program.blank();
            let mut text3 = String::from_str(c);
            text3.append(" total = 0;");
            program.line(text3.as_str());
            let mut text4 = String::from_str("for (int i = 0; i < ");
            text4.append("1000");
            text4.append("; i++) {");
            program.line(text4.as_str());
            program.line_at(1, "total += square(seed);");
            let mut text5 = String::from_str("scratch[i & 3] = scratch[i & 3] + ");
            let literal6 = lit(ty, 1);
            text5.append(literal6.as_str());
            text5.append(";");
            program.line_at(1, text5.as_str());
            program.line("}");
            program.blank();
            program.check(ty.promoted(), "total", 36 * 1000);
            program.check(ty.promoted(), "scratch[3]", 1000 / 4);
            assert(program.top_lines() =~~= motion_top(ty, shape));
            assert(program.body_lines() =~~= motion_body(ty, shape));
            assert(program.expected_values() =~= motion_expected(ty, shape));
            assert(program.include_lines() =~~= motion_includes(ty, shape));
        },
        MotionShape::AnArgumentTheLoopChanges => {
            let squares = square_sum_of(1000);
            let mut text1 = String::from_str("static ");
            text1.append(c);
            text1.append(" scratch[4];");
            program.top(text1.as_str());
            let mut text2 = String::from_str("static __attribute__((noinline)) ");
            text2.append(c);
            text2.append(" square(");
            text2.append(c);
            text2.append(" of) {");
            program.top(text2.as_str());
            program.top("    return of * of;");
            program.top("}");
            program.input(ty, "seed", 6);
            program.blank();
            let mut text3 = String::from_str(c);
            text3.append(" total = 0;");
            program.line(text3.as_str());
            let mut text4 = String::from_str("for (int i = 0; i < ");
            text4.append("1000");
            text4.append("; i++) {");
            program.line(text4.as_str());
            let mut text5 = String::from_str("total += square(seed + (");
            text5.append(c);
            text5.append(")i);");
            program.line_at(1, text5.as_str());
            let mut text6 = String::from_str("scratch[i & 3] = scratch[i & 3] + ");
            let literal7 = lit(ty, 1);
            text6.append(literal7.as_str());
            text6.append(";");
            program.line_at(1, text6.as_str());
            program.line("}");
            program.blank();
            program.check(ty.promoted(), "total", squares);
            program.check(ty.promoted(), "scratch[3]", 1000 / 4);
            assert(program.top_lines() =~~= motion_top(ty, shape));
            assert(program.body_lines() =~~= motion_body(ty, shape));
            assert(program.expected_values() =~= motion_expected(ty, shape));
            assert(program.include_lines() =~~= motion_includes(ty, shape));
        },
        _ => {},
    }
}

/// Writes some of the shapes.
#[verifier::rlimit(100)]
fn motion_write_2(program: &mut Program, ty: Ty, shape: MotionShape)
    requires
        old(program).top_lines() == Seq::<Seq<char>>::empty(),
        old(program).body_lines() == Seq::<Seq<char>>::empty(),
        old(program).expected_values() == Seq::<int>::empty(),
        old(program).include_lines() == Seq::<Seq<char>>::empty(),
        !old(program).sinks(),
        shape == MotionShape::WritesThroughAnArgument || shape == MotionShape::ACallUnderAFalseTest,
    ensures
        final(program).top_lines() == motion_top(ty, shape),
        final(program).body_lines() == motion_body(ty, shape),
        final(program).expected_values() == motion_expected(ty, shape),
        final(program).include_lines() == motion_includes(ty, shape),
        final(program).sinks() == motion_sinks(shape),
        final(program).purpose_text() == old(program).purpose_text(),
{
    let c = ty.c_name();
    match shape {
        MotionShape::WritesThroughAnArgument => {
            let mut text1 = String::from_str("static ");
            text1.append(c);
            text1.append(" counter[2];");
            program.top(text1.as_str());
            let mut text2 = String::from_str("static __attribute__((noinline)) ");
            text2.append(c);
            text2.append(" bump(");
            text2.append(c);
            text2.append(" *out) {");
            program.top(text2.as_str());
            let mut text3 = String::from_str("    out[0] = out[0] + ");
            let literal4 = lit(ty, 1);
            text3.append(literal4.as_str());
            text3.append(";");
            program.top(text3.as_str());
            program.top("    return out[1];");
            program.top("}");
            program.input(ty, "seed", 6);
            program.blank();
            program.line("counter[1] = seed;");
            let mut text5 = String::from_str(c);
            text5.append(" total = 0;");
            program.line(text5.as_str());
            let mut text6 = String::from_str("for (int i = 0; i < ");
            text6.append("1000");
            text6.append("; i++) {");
            program.line(text6.as_str());
            program.line_at(1, "total += bump(counter);");
            program.line("}");
            program.blank();
            program.check(ty.promoted(), "total", 6 * 1000);
            program.check(ty.promoted(), "counter[0]", 1000);
            program.check(ty.promoted(), "counter[1]", 6);
            assert(program.top_lines() =~~= motion_top(ty, shape));
            assert(program.body_lines() =~~= motion_body(ty, shape));
            assert(program.expected_values() =~= motion_expected(ty, shape));
            assert(program.include_lines() =~~= motion_includes(ty, shape));
        },
        MotionShape::ACallUnderAFalseTest => {
            let mut text1 = String::from_str("static __attribute__((noinline)) ");
            text1.append(c);
            text1.append(" divide(");
            text1.append(c);
            text1.append(" top, ");
            text1.append(c);
            text1.append(" bottom) {");
            program.top(text1.as_str());
            program.top("    return top / bottom;");
            program.top("}");
            program.input(ty, "seed", 6);
            program.input(ty, "gate", 0);
            program.input(ty, "bottom", 0);
            program.blank();
            let mut text2 = String::from_str(c);
            text2.append(" total = 0;");
            program.line(text2.as_str());
            let mut text3 = String::from_str("for (int i = 0; i < ");
            text3.append("1000");
            text3.append("; i++) {");
            program.line(text3.as_str());
            program.line_at(1, "if (gate) {");
            program.line_at(2, "total += divide(seed, bottom);");
            program.line_at(1, "}");
            let mut text4 = String::from_str("total += ");
            let literal5 = lit(ty, 1);
            text4.append(literal5.as_str());
            text4.append(";");
            program.line_at(1, text4.as_str());
            program.line("}");
            program.blank();
            program.check(ty.promoted(), "total", 1000);
            assert(program.top_lines() =~~= motion_top(ty, shape));
            assert(program.body_lines() =~~= motion_body(ty, shape));
            assert(program.expected_values() =~= motion_expected(ty, shape));
            assert(program.include_lines() =~~= motion_includes(ty, shape));
        },
        _ => {},
    }
}

/// Writes a shape.
fn motion_write(program: &mut Program, ty: Ty, shape: MotionShape)
    requires
        old(program).top_lines() == Seq::<Seq<char>>::empty(),
        old(program).body_lines() == Seq::<Seq<char>>::empty(),
        old(program).expected_values() == Seq::<int>::empty(),
        old(program).include_lines() == Seq::<Seq<char>>::empty(),
        !old(program).sinks(),
    ensures
        final(program).top_lines() == motion_top(ty, shape),
        final(program).body_lines() == motion_body(ty, shape),
        final(program).expected_values() == motion_expected(ty, shape),
        final(program).include_lines() == motion_includes(ty, shape),
        final(program).sinks() == motion_sinks(shape),
        final(program).purpose_text() == old(program).purpose_text(),
{
    match shape {
        MotionShape::ReadsATableNothingWrites | MotionShape::ReadsATableTheLoopWrites => {
            motion_write_0(program, ty, shape);
        },
        MotionShape::TouchesNothing | MotionShape::AnArgumentTheLoopChanges => {
            motion_write_1(program, ty, shape);
        },
        MotionShape::WritesThroughAnArgument | MotionShape::ACallUnderAFalseTest => {
            motion_write_2(program, ty, shape);
        },
    }
}

/// Whether a case is the motion shape at a type, whole.
pub open spec fn is_motion_case(c: Case, ty: Ty, shape: MotionShape) -> bool {
    &&& c.axes_text() == seq![("type"@, ty.name_text()), ("shape"@, shape.name_text())]
    &&& c.tags_text() == gnu_when(true)
    &&& c.program.purpose_text() == ty.c_text() + " call, "@ + shape.words_text()
    &&& c.program.include_lines() == motion_includes(ty, shape)
    &&& c.program.top_lines() == motion_top(ty, shape)
    &&& c.program.body_lines() == motion_body(ty, shape)
    &&& c.program.expected_values() == motion_expected(ty, shape)
    &&& c.program.sinks() == motion_sinks(shape)
}

/// One motion shape at one type.
fn motion_case(ty: Ty, shape: MotionShape) -> (r: Case)
    ensures
        is_motion_case(r, ty, shape),
{
    let mut purpose = String::new();
    purpose.append(ty.c_name());
    purpose.append(" call, ");
    purpose.append(shape.words());
    let mut program = Program::new(purpose.as_str());
    motion_write(&mut program, ty, shape);
    let axes = vec![axis("type", ty.name()), axis("shape", shape.name())];
    let r = Case { axes, tags: tags_for(true), program };
    assert(r.axes_text() =~= seq![("type"@, ty.name_text()), ("shape"@, shape.name_text())]);
    assert(r.tags_text() =~= gnu_when(true));
    r
}

/// Whether a call comes out of a loop, on every type at the width of a register.
///
/// A call to a callee that reads a table the loop never writes may be run once, and so may a
/// call to one that touches no memory on an argument the loop leaves alone; each comes in a pair
/// with the one line that makes the move wrong. A callee writing through its argument loses every
/// write but the first if the call comes out, and a call under a false test is handed a zero to
/// divide by. Every callee is `noinline`, so the cases need GCC's attribute.
pub fn call_motion() -> (r: Vec<Case>)
    ensures
        r@.len() == 24,
        forall|k: int|
            0 <= k < 24 ==> is_motion_case(
                #[trigger] r@[k],
                wide_types()[k / 6],
                motion_shapes_list()[k % 6],
            ),
{
    let types = wide();
    let shapes = motion_shapes_array();
    let mut out: Vec<Case> = Vec::new();
    let mut k: usize = 0;
    while k < 24
        invariant
            k <= 24,
            types@ == wide_types(),
            shapes@ == motion_shapes_list(),
            out@.len() == k,
            forall|i: int|
                0 <= i < k ==> is_motion_case(
                    #[trigger] out@[i],
                    wide_types()[i / 6],
                    motion_shapes_list()[i % 6],
                ),
        decreases 24 - k,
    {
        out.push(motion_case(types[k / 6], shapes[k % 6]));
        k += 1;
    }
    out
}

/// A call in a loop whose callee is compiled in another translation unit.
#[derive(Clone, Copy, Debug, PartialEq, Eq, Structural)]
pub enum UnitShape {
    AnotherUnitWritesACounter,
    AnotherUnitIsSilent,
    AnotherUnitPromisesConst,
}

impl UnitShape {
    /// The axis value.
    pub open spec fn name_text(self) -> Seq<char> {
        match self {
            UnitShape::AnotherUnitWritesACounter => "another-unit-writes-a-counter"@,
            UnitShape::AnotherUnitIsSilent => "another-unit-is-silent"@,
            UnitShape::AnotherUnitPromisesConst => "another-unit-promises-const"@,
        }
    }

    /// The axis value.
    pub fn name(self) -> (r: &'static str)
        ensures
            r@ == self.name_text(),
    {
        match self {
            UnitShape::AnotherUnitWritesACounter => "another-unit-writes-a-counter",
            UnitShape::AnotherUnitIsSilent => "another-unit-is-silent",
            UnitShape::AnotherUnitPromisesConst => "another-unit-promises-const",
        }
    }

    /// The axis value with its words apart, for the purpose line.
    pub open spec fn words_text(self) -> Seq<char> {
        match self {
            UnitShape::AnotherUnitWritesACounter => "another unit writes a counter"@,
            UnitShape::AnotherUnitIsSilent => "another unit is silent"@,
            UnitShape::AnotherUnitPromisesConst => "another unit promises const"@,
        }
    }

    /// The axis value with its words apart, for the purpose line.
    pub fn words(self) -> (r: &'static str)
        ensures
            r@ == self.words_text(),
    {
        match self {
            UnitShape::AnotherUnitWritesACounter => "another unit writes a counter",
            UnitShape::AnotherUnitIsSilent => "another unit is silent",
            UnitShape::AnotherUnitPromisesConst => "another unit promises const",
        }
    }
}

/// The shapes in the order the facet walks them.
pub open spec fn unit_shapes_list() -> Seq<UnitShape> {
    seq![
        UnitShape::AnotherUnitWritesACounter,
        UnitShape::AnotherUnitIsSilent,
        UnitShape::AnotherUnitPromisesConst,
    ]
}

/// The shapes in the order the facet walks them.
fn unit_shapes_array() -> (r: Vec<UnitShape>)
    ensures
        r@ == unit_shapes_list(),
{
    let r = vec![
        UnitShape::AnotherUnitWritesACounter,
        UnitShape::AnotherUnitIsSilent,
        UnitShape::AnotherUnitPromisesConst,
    ];
    assert(r@ =~= unit_shapes_list());
    r
}

/// The lines before `main` of each shape.
pub open spec fn unit_call_top(ty: Ty, shape: UnitShape) -> Seq<Seq<char>> {
    match shape {
        UnitShape::AnotherUnitWritesACounter => seq![
            ty.c_text() + " corpus_step("@ + ty.c_text() + " of);"@,
            ty.c_text() + " corpus_calls(void);"@,
            input_global(ty, "seed"@, 6int),
        ],
        UnitShape::AnotherUnitIsSilent => seq![
            ty.c_text() + " corpus_weigh("@ + ty.c_text() + " of);"@,
            "static "@ + ty.c_text() + " scratch[4];"@,
            input_global(ty, "seed"@, 6int),
        ],
        UnitShape::AnotherUnitPromisesConst => seq![
            "__attribute__((const)) "@ + ty.c_text() + " corpus_weigh("@ + ty.c_text() + " of);"@,
            "static "@ + ty.c_text() + " scratch[4];"@,
            input_global(ty, "seed"@, 6int),
        ],
    }
}

/// The statements of `main` of each shape.
pub open spec fn unit_call_body(ty: Ty, shape: UnitShape) -> Seq<Seq<char>> {
    match shape {
        UnitShape::AnotherUnitWritesACounter => seq![
            input_read(ty, "seed"@),
            Seq::<char>::empty(),
            indent(1) + ty.c_text() + " total = 0;"@,
            indent(1) + "for (int i = 0; i < 1000; i++) {"@,
            indent(2) + "total += corpus_step(seed);"@,
            indent(1) + "}"@,
            Seq::<char>::empty(),
            print_line(1, ty.promotion(), "total"@),
            print_line(1, ty.promotion(), "corpus_calls()"@),
        ],
        UnitShape::AnotherUnitIsSilent => seq![
            input_read(ty, "seed"@),
            Seq::<char>::empty(),
            indent(1) + ty.c_text() + " total = 0;"@,
            indent(1) + "for (int i = 0; i < 1000; i++) {"@,
            indent(2) + "total += corpus_weigh(seed);"@,
            indent(2) + "scratch[i & 3] = scratch[i & 3] + "@ + lit_text(ty, 1int) + ";"@,
            indent(1) + "}"@,
            Seq::<char>::empty(),
            print_line(1, ty.promotion(), "total"@),
            print_line(1, ty.promotion(), "scratch[3]"@),
        ],
        UnitShape::AnotherUnitPromisesConst => seq![
            input_read(ty, "seed"@),
            Seq::<char>::empty(),
            indent(1) + ty.c_text() + " total = 0;"@,
            indent(1) + "for (int i = 0; i < 1000; i++) {"@,
            indent(2) + "total += corpus_weigh(seed);"@,
            indent(2) + "scratch[i & 3] = scratch[i & 3] + "@ + lit_text(ty, 1int) + ";"@,
            indent(1) + "}"@,
            Seq::<char>::empty(),
            print_line(1, ty.promotion(), "total"@),
            print_line(1, ty.promotion(), "scratch[3]"@),
        ],
    }
}

/// The headers of each shape.
pub open spec fn unit_call_includes(ty: Ty, shape: UnitShape) -> Seq<Seq<char>> {
    match shape {
        UnitShape::AnotherUnitWritesACounter => Seq::empty(),
        UnitShape::AnotherUnitIsSilent => Seq::empty(),
        UnitShape::AnotherUnitPromisesConst => Seq::empty(),
    }
}

/// What the program prints of each shape.
pub open spec fn unit_call_expected(ty: Ty, shape: UnitShape) -> Seq<int> {
    match shape {
        UnitShape::AnotherUnitWritesACounter => seq![
            (12int * 1000int),
            1000int,
        ],
        UnitShape::AnotherUnitIsSilent => seq![
            (19int * 1000int),
            (1000int / 4int),
        ],
        UnitShape::AnotherUnitPromisesConst => seq![
            (19int * 1000int),
            (1000int / 4int),
        ],
    }
}

/// Whether the shape asks for the volatile sink.
pub open spec fn unit_call_sinks(shape: UnitShape) -> bool {
    match shape {
        UnitShape::AnotherUnitWritesACounter => false,
        UnitShape::AnotherUnitIsSilent => false,
        UnitShape::AnotherUnitPromisesConst => false,
    }
}

/// Writes some of the shapes.
#[verifier::rlimit(100)]
fn unit_call_write_0(program: &mut Program, ty: Ty, shape: UnitShape)
    requires
        old(program).top_lines() == Seq::<Seq<char>>::empty(),
        old(program).body_lines() == Seq::<Seq<char>>::empty(),
        old(program).expected_values() == Seq::<int>::empty(),
        old(program).include_lines() == Seq::<Seq<char>>::empty(),
        !old(program).sinks(),
        shape == UnitShape::AnotherUnitWritesACounter || shape == UnitShape::AnotherUnitIsSilent || shape == UnitShape::AnotherUnitPromisesConst,
    ensures
        final(program).top_lines() == unit_call_top(ty, shape),
        final(program).body_lines() == unit_call_body(ty, shape),
        final(program).expected_values() == unit_call_expected(ty, shape),
        final(program).include_lines() == unit_call_includes(ty, shape),
        final(program).sinks() == unit_call_sinks(shape),
        final(program).purpose_text() == old(program).purpose_text(),
{
    let c = ty.c_name();
    match shape {
        UnitShape::AnotherUnitWritesACounter => {
            let mut text1 = String::from_str(c);
            text1.append(" corpus_step(");
            text1.append(c);
            text1.append(" of);");
            program.top(text1.as_str());
            let mut text2 = String::from_str(c);
            text2.append(" corpus_calls(void);");
            program.top(text2.as_str());
            program.input(ty, "seed", 6);
            program.blank();
            let mut text3 = String::from_str(c);
            text3.append(" total = 0;");
            program.line(text3.as_str());
            program.line("for (int i = 0; i < 1000; i++) {");
            program.line_at(1, "total += corpus_step(seed);");
            program.line("}");
            program.blank();
            program.check(ty.promoted(), "total", 12 * 1000);
            program.check(ty.promoted(), "corpus_calls()", 1000);
            assert(program.top_lines() =~~= unit_call_top(ty, shape));
            assert(program.body_lines() =~~= unit_call_body(ty, shape));
            assert(program.expected_values() =~= unit_call_expected(ty, shape));
            assert(program.include_lines() =~~= unit_call_includes(ty, shape));
        },
        UnitShape::AnotherUnitIsSilent => {
            let mut text1 = String::from_str(c);
            text1.append(" corpus_weigh(");
            text1.append(c);
            text1.append(" of);");
            program.top(text1.as_str());
            let mut text2 = String::from_str("static ");
            text2.append(c);
            text2.append(" scratch[4];");
            program.top(text2.as_str());
            program.input(ty, "seed", 6);
            program.blank();
            let mut text3 = String::from_str(c);
            text3.append(" total = 0;");
            program.line(text3.as_str());
            program.line("for (int i = 0; i < 1000; i++) {");
            program.line_at(1, "total += corpus_weigh(seed);");
            let mut text4 = String::from_str("scratch[i & 3] = scratch[i & 3] + ");
            let literal5 = lit(ty, 1);
            text4.append(literal5.as_str());
            text4.append(";");
            program.line_at(1, text4.as_str());
            program.line("}");
            program.blank();
            program.check(ty.promoted(), "total", 19 * 1000);
            program.check(ty.promoted(), "scratch[3]", 1000 / 4);
            assert(program.top_lines() =~~= unit_call_top(ty, shape));
            assert(program.body_lines() =~~= unit_call_body(ty, shape));
            assert(program.expected_values() =~= unit_call_expected(ty, shape));
            assert(program.include_lines() =~~= unit_call_includes(ty, shape));
        },
        UnitShape::AnotherUnitPromisesConst => {
            let mut text1 = String::from_str("__attribute__((const)) ");
            text1.append(c);
            text1.append(" corpus_weigh(");
            text1.append(c);
            text1.append(" of);");
            program.top(text1.as_str());
            let mut text2 = String::from_str("static ");
            text2.append(c);
            text2.append(" scratch[4];");
            program.top(text2.as_str());
            program.input(ty, "seed", 6);
            program.blank();
            let mut text3 = String::from_str(c);
            text3.append(" total = 0;");
            program.line(text3.as_str());
            program.line("for (int i = 0; i < 1000; i++) {");
            program.line_at(1, "total += corpus_weigh(seed);");
            let mut text4 = String::from_str("scratch[i & 3] = scratch[i & 3] + ");
            let literal5 = lit(ty, 1);
            text4.append(literal5.as_str());
            text4.append(";");
            program.line_at(1, text4.as_str());
            program.line("}");
            program.blank();
            program.check(ty.promoted(), "total", 19 * 1000);
            program.check(ty.promoted(), "scratch[3]", 1000 / 4);
            assert(program.top_lines() =~~= unit_call_top(ty, shape));
            assert(program.body_lines() =~~= unit_call_body(ty, shape));
            assert(program.expected_values() =~= unit_call_expected(ty, shape));
            assert(program.include_lines() =~~= unit_call_includes(ty, shape));
        },
    }
}

/// Writes a shape.
fn unit_call_write(program: &mut Program, ty: Ty, shape: UnitShape)
    requires
        old(program).top_lines() == Seq::<Seq<char>>::empty(),
        old(program).body_lines() == Seq::<Seq<char>>::empty(),
        old(program).expected_values() == Seq::<int>::empty(),
        old(program).include_lines() == Seq::<Seq<char>>::empty(),
        !old(program).sinks(),
    ensures
        final(program).top_lines() == unit_call_top(ty, shape),
        final(program).body_lines() == unit_call_body(ty, shape),
        final(program).expected_values() == unit_call_expected(ty, shape),
        final(program).include_lines() == unit_call_includes(ty, shape),
        final(program).sinks() == unit_call_sinks(shape),
        final(program).purpose_text() == old(program).purpose_text(),
{
    match shape {
        UnitShape::AnotherUnitWritesACounter | UnitShape::AnotherUnitIsSilent | UnitShape::AnotherUnitPromisesConst => {
            unit_call_write_0(program, ty, shape);
        },
    }
}

/// The helper unit: one that counts its own calls, or one that touches nothing.
pub open spec fn unit_call_helper(ty: Ty, counting: bool) -> Seq<char> {
    let c = ty.c_text();
    if counting {
        unit_text(
            "A callee that counts its own calls, so the caller can say how many there were."@,
            "static "@ + c + " made = "@ + lit_text(ty, 0) + ";\n\n"@ + c + " corpus_step("@ + c
                + " of)\n{\n    made = ("@ + c + ")(made + 1);\n    return ("@ + c
                + ")(of * 2);\n}\n\n"@ + c + " corpus_calls(void)\n{\n    return made;\n}\n"@,
        )
    } else {
        unit_text(
            "A callee that works its answer out from its argument and touches nothing."@,
            c + " corpus_weigh("@ + c + " of)\n{\n    return ("@ + c + ")(of * 3 + 1);\n}\n"@,
        )
    }
}

/// Whether a linked case is the call across units for a type and a shape, whole.
pub open spec fn is_unit_call_case(c: LinkedCase, ty: Ty, shape: UnitShape) -> bool {
    &&& c.axes_text() == seq![("type"@, ty.name_text()), ("shape"@, shape.name_text())]
    &&& c.tags_text() == gnu_when(shape == UnitShape::AnotherUnitPromisesConst)
    &&& c.units_text() == seq![
        ("helper"@, unit_call_helper(ty, shape == UnitShape::AnotherUnitWritesACounter)),
    ]
    &&& c.source@ == source_text(
        ty.c_text() + " call in a loop, "@ + shape.words_text(),
        unit_call_includes(ty, shape),
        unit_call_top(ty, shape),
        unit_call_body(ty, shape),
        true,
        unit_call_sinks(shape),
    )
    &&& c.output@ == expected_text(unit_call_expected(ty, shape))
}

/// The call across units for one type and shape.
fn unit_call_case(ty: Ty, shape: UnitShape) -> (r: LinkedCase)
    ensures
        is_unit_call_case(r, ty, shape),
{
    let c = ty.c_name();
    let counting = shape == UnitShape::AnotherUnitWritesACounter;
    let helper = if counting {
        let mut body = String::from_str("static ");
        body.append(c);
        body.append(" made = ");
        let zero = lit(ty, 0);
        body.append(zero.as_str());
        body.append(";\n\n");
        body.append(c);
        body.append(" corpus_step(");
        body.append(c);
        body.append(" of)\n{\n    made = (");
        body.append(c);
        body.append(")(made + 1);\n    return (");
        body.append(c);
        body.append(")(of * 2);\n}\n\n");
        body.append(c);
        body.append(" corpus_calls(void)\n{\n    return made;\n}\n");
        unit(
            "helper",
            "A callee that counts its own calls, so the caller can say how many there were.",
            body.as_str(),
        )
    } else {
        let mut body = String::from_str(c);
        body.append(" corpus_weigh(");
        body.append(c);
        body.append(" of)\n{\n    return (");
        body.append(c);
        body.append(")(of * 3 + 1);\n}\n");
        unit(
            "helper",
            "A callee that works its answer out from its argument and touches nothing.",
            body.as_str(),
        )
    };
    let mut purpose = String::from_str(c);
    purpose.append(" call in a loop, ");
    purpose.append(shape.words());
    let mut program = Program::new(purpose.as_str());
    unit_call_write(&mut program, ty, shape);
    assert(unit_call_expected(ty, shape).len() > 0);
    let (source, output) = program.finish();
    let axes = vec![axis("type", ty.name()), axis("shape", shape.name())];
    let units = vec![helper];
    let r = LinkedCase {
        axes,
        tags: tags_for(shape == UnitShape::AnotherUnitPromisesConst),
        source,
        units,
        output,
    };
    assert(r.axes_text() =~= seq![("type"@, ty.name_text()), ("shape"@, shape.name_text())]);
    assert(r.units_text() =~= seq![
        ("helper"@, unit_call_helper(ty, shape == UnitShape::AnotherUnitWritesACounter)),
    ]);
    r
}

/// A call in a loop whose callee is in another translation unit, on every type at the width of
/// a register.
///
/// The helper is compiled on its own and the main unit holds only a declaration, so the only
/// summary the compiler has is the one the declaration gives. A helper that counts its own calls
/// says how many there were, and a compiler that took the call out of the loop prints one rather
/// than a thousand. The other two are the same program over a helper that touches nothing, with
/// `__attribute__((const))` on the declaration in the second, so the difference between them is
/// what the promise was worth.
pub fn calls_across_units() -> (r: Vec<LinkedCase>)
    ensures
        r@.len() == 12,
        forall|k: int|
            0 <= k < 12 ==> is_unit_call_case(
                #[trigger] r@[k],
                wide_types()[k / 3],
                unit_shapes_list()[k % 3],
            ),
{
    let types = wide();
    let shapes = unit_shapes_array();
    let mut out: Vec<LinkedCase> = Vec::new();
    let mut k: usize = 0;
    while k < 12
        invariant
            k <= 12,
            types@ == wide_types(),
            shapes@ == unit_shapes_list(),
            out@.len() == k,
            forall|i: int|
                0 <= i < k ==> is_unit_call_case(
                    #[trigger] out@[i],
                    wide_types()[i / 3],
                    unit_shapes_list()[i % 3],
                ),
        decreases 12 - k,
    {
        out.push(unit_call_case(types[k / 3], shapes[k % 3]));
        k += 1;
    }
    out
}

} // verus!
