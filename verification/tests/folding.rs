use corpus_gen::emit::Program;
use corpus_gen::facets::folding::{constant_fold_case, simplify_case, strength_case};
use corpus_gen::facets::narrowing::{NarrowShape, narrow_shapes, narrowing_case};
use corpus_gen::facets::prune::{PruneShape, prune_finish, prune_shapes, prune_start, tally};
use corpus_gen::facets::spread;
use corpus_gen::lang::{Op, Ty, all, ops};

/// A table of operands worth trying on a type: both ends, the values next to them, and a few
/// small ones.
fn interesting(ty: Ty) -> Vec<i128> {
    let mut v = vec![ty.min(), ty.min() + 1, -1, 0, 1, 2, 3, 7, 100, ty.max() - 1, ty.max()];
    v.retain(|&x| ty.holds(x));
    v.sort();
    v.dedup();
    v
}

/// Shift counts around the width of the promoted type.
fn shift_counts(ty: Ty) -> Vec<i128> {
    vec![0, 1, 7, 31, 32, 63].into_iter().filter(|&c| ty.holds(c)).collect()
}

fn finished(program: Program) -> (String, String) {
    program.finish()
}

/// Every sample of the byte range once, in the order a multiplier that is odd walks it.
fn byte_samples() -> Vec<i128> {
    (0..256i128).map(|i| (i * 37 + 7) & 255).collect()
}

/// The start of a prune program, its sample array, and the walk over it.
fn prune_program(shape: PruneShape) -> (String, String) {
    let samples = byte_samples();
    let mut program = prune_start(shape);
    program.input(Ty::I32, "seed", 7);
    program.line("static int data[256];");
    program.line("for (int i = 0; i < 256; i++) {");
    program.line_at(1, "data[i] = (i * 37 + seed) & 255;");
    program.line("}");
    prune_finish(&mut program, shape, &samples);
    program.finish()
}

fn prune_counts(shape: PruneShape) -> (i128, i128) {
    let (_, output) = prune_program(shape);
    let values: Vec<i128> = output.lines().map(|l| l.parse().unwrap()).collect();
    assert_eq!(values.len(), 2);
    assert_eq!((values[0], values[1]), tally(shape, &byte_samples()));
    (values[0], values[1])
}

#[test]
fn constant_folding_covers_every_type_and_operation_pair_that_has_a_defined_answer() {
    let mut programs = 0;
    for ty in all() {
        for op in ops() {
            let lefts = spread(&interesting(ty), 8);
            let rights = if op.is_shift() { shift_counts(ty) } else { lefts.clone() };
            let (source, _) = finished(constant_fold_case(ty, op, &lefts, &rights));
            assert!(source.contains(&format!("fold {} on {} operands", op.name(), ty.c_name())));
            programs += 1;
        }
    }
    assert!(programs >= 90, "only {programs} programs");
}

#[test]
fn a_folding_case_carries_its_operands_in_the_source_so_a_failure_names_itself() {
    let lefts = spread(&interesting(Ty::U8), 8);
    let (source, _) = finished(constant_fold_case(Ty::U8, Op::Add, &lefts, &lefts));
    assert!(source.contains("(unsigned char)"), "{source}");
}

#[test]
fn strength_reduction_cases_use_an_operand_the_compiler_cannot_see() {
    for ty in all() {
        for op in [Op::Mul, Op::Div, Op::Rem] {
            let (source, _) = finished(strength_case(ty, op, &spread(&interesting(ty), 6)));
            assert!(source.contains("static volatile"), "{source}");
        }
    }
}

#[test]
fn every_identity_case_prints_at_least_one_value_per_operand_it_declares() {
    for ty in all() {
        let (source, output) = finished(simplify_case(ty, &spread(&interesting(ty), 6)));
        let inputs = source.matches("static volatile").count();
        assert!(output.lines().count() >= inputs, "{source}");
    }
}

#[test]
fn a_fold_skips_the_pairs_c_leaves_undefined() {
    let (source, output) = finished(constant_fold_case(Ty::I32, Op::Add, &[1, 2147483647], &[1]));
    assert_eq!(output, "2\n");
    assert!(source.contains("((int)1) + ((int)1)"), "{source}");
    let (_, output) =
        finished(constant_fold_case(Ty::I32, Op::Div, &[7, -2147483648], &[0, -1, 2]));
    assert_eq!(output, "-7\n3\n-1073741824\n");
    let (_, output) = finished(constant_fold_case(Ty::I32, Op::Rem, &[-7, -2147483648], &[-1, 2]));
    assert_eq!(output, "0\n-1\n0\n");
}

#[test]
fn a_shift_fold_writes_its_count_plainly_and_skips_counts_past_the_width() {
    let (source, output) = finished(constant_fold_case(Ty::U8, Op::Shl, &[1], &[0, 3, 31, 32]));
    assert_eq!(output, "1\n8\n");
    assert!(source.contains("((unsigned char)1u) << 3"), "{source}");
    let (_, output) = finished(constant_fold_case(Ty::U32, Op::Shl, &[1], &[31, 32]));
    assert_eq!(output, "2147483648\n");
    let (_, output) = finished(constant_fold_case(Ty::I32, Op::Shr, &[-8, 8], &[1]));
    assert_eq!(output, "4\n");
}

#[test]
fn a_unary_fold_is_written_once_per_operand() {
    let (source, output) = finished(constant_fold_case(Ty::U8, Op::Not, &[0, 5], &[0, 9]));
    assert_eq!(output, "-1\n-6\n");
    assert!(source.contains("~((unsigned char)5u)"), "{source}");
    let (_, output) =
        finished(constant_fold_case(Ty::I32, Op::Neg, &[-2147483648, 3], &[-2147483648]));
    assert_eq!(output, "-3\n");
    let (_, output) = finished(constant_fold_case(Ty::U32, Op::Neg, &[1], &[1]));
    assert_eq!(output, "4294967295\n");
}

#[test]
fn a_strength_case_divides_by_each_constant_the_type_holds() {
    let (source, output) = finished(strength_case(Ty::U8, Op::Div, &[200]));
    assert_eq!(output, "200\n100\n66\n50\n40\n28\n25\n20\n12\n3\n2\n0\n");
    assert!(source.contains("x0 / ((unsigned char)255u)"), "{source}");
    assert!(!source.contains("1000"), "{source}");
}

#[test]
fn an_identity_case_skips_the_shifts_of_a_negative_unknown() {
    let (_, output) = finished(simplify_case(Ty::I32, &[-2147483648]));
    let values: Vec<&str> = output.lines().collect();
    assert_eq!(values.len(), 17);
    assert_eq!(values[3], "0");
    assert_eq!(values[11], "-1");
    assert_eq!(values[14], "-2147483648");
    assert_eq!(&values[15..], ["1", "0"]);
}

#[test]
fn every_narrowing_shape_prints_what_the_narrow_type_holds() {
    let expect = [
        (NarrowShape::StoredBack, Ty::U8, "4\n250\n251\n5\n255\n250\n"),
        (NarrowShape::WideUse, Ty::U8, "510\n"),
        (NarrowShape::MixedSign, Ty::I8, "-125\n"),
        (NarrowShape::RoundTrip, Ty::U8, "1\n0\n"),
        (NarrowShape::Divide, Ty::I8, "-2\n-1\n"),
        (NarrowShape::Shift, Ty::U8, "248\n0\n"),
        (NarrowShape::BitField, Ty::U16, "7\n7\n7\n21\n"),
    ];
    assert_eq!(narrow_shapes().len(), expect.len());
    for (shape, ty, output) in expect {
        let operand = match shape {
            NarrowShape::MixedSign => -128,
            NarrowShape::Divide => -7,
            _ => 255,
        };
        let (source, printed) = finished(narrowing_case(ty, shape, &[operand]));
        assert_eq!(printed, output, "{source}");
        assert!(source.contains(&format!("{} arithmetic on {}", shape.name(), ty.c_name())));
    }
}

#[test]
fn a_negative_operand_is_not_shifted() {
    let (_, printed) = finished(narrowing_case(Ty::I16, NarrowShape::Shift, &[-1, 2]));
    assert_eq!(printed, "16\n1024\n");
}

#[test]
fn every_prune_shape_the_pass_has_to_decide_is_generated() {
    let shapes: Vec<&str> = prune_shapes().into_iter().map(|s| s.name()).collect();
    for wanted in [
        "greater-then-greater",
        "greater-then-not-greater",
        "less-then-less",
        "less-then-not-less",
        "at-or-above-then-greater",
        "at-or-below-then-at-or-below",
        "equal-then-unequal",
        "equal-then-nonzero",
        "through-a-call",
        "two-values",
        "masked-bound",
        "switch-unreachable-case",
        "switch-every-case-unreachable",
        "switch-after-a-range-check",
        "inside-a-loop",
    ] {
        assert!(shapes.contains(&wanted), "no case for {wanted}");
    }
    assert_eq!(shapes.len(), 15);
}

#[test]
fn a_shape_the_guard_settles_runs_its_inner_arm_every_time_the_guard_lets_a_sample_through() {
    for shape in [
        PruneShape::GreaterThenGreater,
        PruneShape::LessThenLess,
        PruneShape::AtOrAboveThenGreater,
        PruneShape::AtOrBelowThenAtOrBelow,
        PruneShape::EqualThenUnequal,
        PruneShape::EqualThenNonzero,
        PruneShape::ThroughACall,
        PruneShape::TwoValues,
        PruneShape::MaskedBound,
        PruneShape::SwitchAfterARangeCheck,
        PruneShape::InsideALoop,
    ] {
        let (outer, inner) = prune_counts(shape);
        assert_eq!(outer, inner, "{} counts", shape.name());
        assert!(outer > 0, "{} never reaches its guarded region", shape.name());
    }
}

#[test]
fn a_shape_the_guard_rules_out_never_runs_its_inner_arm() {
    for shape in [
        PruneShape::GreaterThenNotGreater,
        PruneShape::LessThenNotLess,
        PruneShape::SwitchUnreachableCase,
        PruneShape::SwitchEveryCaseUnreachable,
    ] {
        let (outer, inner) = prune_counts(shape);
        assert_eq!(inner, 0, "{} runs an arm it cannot reach", shape.name());
        assert!(outer > 0, "{} never reaches its guarded region", shape.name());
    }
}

#[test]
fn the_counts_are_the_ones_a_full_pass_over_the_byte_range_produces() {
    assert_eq!(prune_counts(PruneShape::GreaterThenGreater), (155, 155));
    assert_eq!(prune_counts(PruneShape::LessThenLess), (100, 100));
    assert_eq!(prune_counts(PruneShape::AtOrAboveThenGreater), (156, 156));
    assert_eq!(prune_counts(PruneShape::AtOrBelowThenAtOrBelow), (101, 101));
    assert_eq!(prune_counts(PruneShape::EqualThenUnequal), (1, 1));
    assert_eq!(prune_counts(PruneShape::TwoValues), (128, 128));
    assert_eq!(prune_counts(PruneShape::MaskedBound), (256, 256));
    assert_eq!(prune_counts(PruneShape::SwitchUnreachableCase), (128, 0));
    assert_eq!(prune_counts(PruneShape::SwitchEveryCaseUnreachable), (256, 0));
    assert_eq!(prune_counts(PruneShape::SwitchAfterARangeCheck), (64, 64));
    assert_eq!(prune_counts(PruneShape::InsideALoop), (1920, 1920));
}

#[test]
fn no_prune_case_gets_the_value_it_tests_from_a_literal() {
    for shape in prune_shapes() {
        let (source, _) = prune_program(shape);
        assert!(source.contains("static volatile int seed_in"), "{source}");
        assert!(source.contains("data[i] = (i * 37 + seed) & 255;"), "{source}");
        assert!(source.contains("        int x = data[i];"), "{source}");
        assert!(source.contains("for (int i = 0; i < 256; i++) {"), "{source}");
    }
}

#[test]
fn the_shape_that_needs_inlining_first_is_the_only_one_with_a_helper() {
    let with_helper: Vec<&str> = prune_shapes()
        .into_iter()
        .filter(|&shape| prune_program(shape).0.contains("static int above("))
        .map(|shape| shape.name())
        .collect();
    assert_eq!(with_helper, ["through-a-call"]);
}
