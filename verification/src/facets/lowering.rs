//! Switches of every density and size, and the lowering each one asks for.
//!
//! Every program walks every label and a value no label has, and adds up what it got, so a
//! lowering that falls into the wrong arm for one input prints a different number.

use vstd::prelude::*;
use vstd::string::*;
use crate::emit::{Program, input_global, input_read, indent, print_line};
use crate::lang::Ty;
use crate::text::{decimal, push_decimal};
use crate::facets::{Case, axis, tags_for};

verus! {

/// How far apart a switch's labels are.
#[derive(Clone, Copy, Debug, PartialEq, Eq, Structural)]
pub enum Spacing {
    Dense,
    Sparse,
    VerySparse,
}

impl Spacing {
    /// The axis value.
    pub open spec fn name_text(self) -> Seq<char> {
        match self {
            Spacing::Dense => "dense"@,
            Spacing::Sparse => "sparse"@,
            Spacing::VerySparse => "very-sparse"@,
        }
    }

    /// The axis value.
    pub fn name(self) -> (r: &'static str)
        ensures
            r@ == self.name_text(),
    {
        match self {
            Spacing::Dense => "dense",
            Spacing::Sparse => "sparse",
            Spacing::VerySparse => "very-sparse",
        }
    }

    /// The distance between one label and the next.
    pub open spec fn stride_of(self) -> int {
        match self {
            Spacing::Dense => 1,
            Spacing::Sparse => 17,
            Spacing::VerySparse => 1000,
        }
    }

    /// The distance between one label and the next.
    pub fn stride(self) -> (r: i128)
        ensures
            r == self.stride_of(),
    {
        match self {
            Spacing::Dense => 1,
            Spacing::Sparse => 17,
            Spacing::VerySparse => 1000,
        }
    }
}

/// The arm of label `label`: the value `label` strides along returns one more than the label.
pub open spec fn lowering_arm(label: int, stride: int) -> Seq<char> {
    "    case "@ + decimal(label * stride) + ": return "@ + decimal(label + 1) + ";"@
}

/// The function a lowering program switches in, before `main`, and the step it reads.
pub open spec fn lowering_top(labels: int, stride: int) -> Seq<Seq<char>> {
    seq!["static int classify(int value) {"@, "    switch (value) {"@] + Seq::new(
        labels as nat,
        |label: int| lowering_arm(label, stride),
    ) + seq![
        "    default: return 0;"@,
        "    }"@,
        "}"@,
        input_global(Ty::I32, "step"@, stride),
    ]
}

/// The statements of a lowering program: every label once, then a value no label has.
pub open spec fn lowering_body(labels: int) -> Seq<Seq<char>> {
    seq![
        input_read(Ty::I32, "step"@),
        Seq::empty(),
        indent(1) + "long long total = 0;"@,
        indent(1) + "for (int label = 0; label < "@ + decimal(labels) + "; label++) {"@,
        indent(2) + "total += classify(label * step);"@,
        indent(1) + "}"@,
        indent(1) + "total += classify(-1);"@,
        Seq::empty(),
        print_line(1, Ty::I64, "total"@),
    ]
}

/// Whether a case is the switch of a density with a number of labels, whole.
pub open spec fn is_lowering_case(c: Case, spacing: Spacing, labels: int) -> bool {
    &&& c.axes_text() == seq![("density"@, spacing.name_text()), ("labels"@, decimal(labels))]
    &&& c.tags_text() == Seq::<Seq<char>>::empty()
    &&& c.program.purpose_text() == "a "@ + spacing.name_text() + " switch with "@ + decimal(labels)
        + " labels"@
    &&& c.program.include_lines() == Seq::<Seq<char>>::empty()
    &&& c.program.top_lines() == lowering_top(labels, spacing.stride_of())
    &&& c.program.body_lines() == lowering_body(labels)
    &&& c.program.expected_values() == seq![labels * (labels + 1) / 2]
    &&& !c.program.sinks()
}

/// The switch of one density with `labels` labels.
fn lowering_case(spacing: Spacing, labels: i128) -> (r: Case)
    requires
        1 <= labels <= 40,
    ensures
        is_lowering_case(r, spacing, labels as int),
{
    let stride = spacing.stride();
    let mut count = String::new();
    push_decimal(&mut count, labels);
    assert(Seq::<char>::empty() + decimal(labels as int) =~= decimal(labels as int));
    let mut purpose = String::from_str("a ");
    purpose.append(spacing.name());
    purpose.append(" switch with ");
    purpose.append(count.as_str());
    purpose.append(" labels");
    let mut program = Program::new(purpose.as_str());
    program.top("static int classify(int value) {");
    program.top("    switch (value) {");
    let ghost before = program.top_lines();
    let mut label: i128 = 0;
    while label < labels
        invariant
            0 <= label <= labels <= 40,
            stride == spacing.stride_of(),
            program.top_lines() == before + Seq::new(
                label as nat,
                |l: int| lowering_arm(l, stride as int),
            ),
            program.body_lines() == Seq::<Seq<char>>::empty(),
            program.purpose_text() == purpose@,
            program.include_lines() == Seq::<Seq<char>>::empty(),
            program.expected_values() == Seq::<int>::empty(),
            !program.sinks(),
        decreases labels - label,
    {
        let mut arm = String::from_str("    case ");
        push_decimal(&mut arm, label * stride);
        arm.append(": return ");
        push_decimal(&mut arm, label + 1);
        arm.append(";");
        program.top(arm.as_str());
        assert(arm@ =~= lowering_arm(label as int, stride as int));
        assert(before + Seq::new((label + 1) as nat, |l: int| lowering_arm(l, stride as int))
            =~= (before + Seq::new(label as nat, |l: int| lowering_arm(l, stride as int))).push(
            arm@,
        ));
        label += 1;
    }
    program.top("    default: return 0;");
    program.top("    }");
    program.top("}");
    program.input(Ty::I32, "step", stride);
    program.blank();
    program.line("long long total = 0;");
    let mut head = String::from_str("for (int label = 0; label < ");
    head.append(count.as_str());
    head.append("; label++) {");
    program.line(head.as_str());
    program.line_at(1, "total += classify(label * step);");
    program.line("}");
    program.line("total += classify(-1);");
    program.blank();
    assert(labels * (labels + 1) <= 40 * 41) by (nonlinear_arith)
        requires
            1 <= labels <= 40,
    ;
    program.check(Ty::I64, "total", labels * (labels + 1) / 2);
    assert(program.top_lines() =~~= lowering_top(labels as int, stride as int));
    assert(program.body_lines() =~~= lowering_body(labels as int));
    let axes = vec![axis("density", spacing.name()), axis("labels", count.as_str())];
    let r = Case { axes, tags: tags_for(false), program };
    assert(r.axes_text() =~= seq![
        ("density"@, spacing.name_text()),
        ("labels"@, decimal(labels as int)),
    ]);
    assert(r.program.expected_values() =~= seq![labels * (labels + 1) / 2]);
    r
}

/// The label counts of the lowering programs, either side of thirty two.
pub open spec fn lowering_counts() -> Seq<int> {
    seq![3, 8, 31, 33, 40]
}

/// The densities of the lowering programs, in the order they are walked.
pub open spec fn spacings() -> Seq<Spacing> {
    seq![Spacing::Dense, Spacing::Sparse, Spacing::VerySparse]
}

/// Switches of every density and size.
///
/// Spacing decides the lowering: consecutive labels become a jump table, labels spread over a
/// wide range a search or a chain, and three labels three comparisons whatever their spacing.
/// Every program walks every label and one value no label has, and adds up what it got, so a
/// switch that falls into the wrong arm for one input is caught. The sizes sit either side of
/// thirty two, where the clusters stop being walked and start being searched.
pub fn switch_lowering() -> (r: Vec<Case>)
    ensures
        r@.len() == 15,
        forall|k: int|
            0 <= k < 15 ==> is_lowering_case(
                #[trigger] r@[k],
                spacings()[k / 5],
                lowering_counts()[k % 5],
            ),
{
    let all: [Spacing; 3] = [Spacing::Dense, Spacing::Sparse, Spacing::VerySparse];
    let counts: [i128; 5] = [3, 8, 31, 33, 40];
    let mut out: Vec<Case> = Vec::new();
    let mut k: usize = 0;
    while k < 15
        invariant
            k <= 15,
            all@ == spacings(),
            counts@ == seq![3i128, 8, 31, 33, 40],
            out@.len() == k,
            forall|i: int|
                0 <= i < k ==> is_lowering_case(
                    #[trigger] out@[i],
                    spacings()[i / 5],
                    lowering_counts()[i % 5],
                ),
        decreases 15 - k,
    {
        let labels = counts[k % 5];
        assert(labels as int == lowering_counts()[k as int % 5]);
        out.push(lowering_case(all[k / 5], labels));
        k += 1;
    }
    out
}

} // verus!
