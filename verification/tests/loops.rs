use corpus_gen::facets::loops::{
    HoistShape, LoopShape, fits, hoisted, loop_hoist, loop_shape, ramp, shaped, trip_counts,
};
use corpus_gen::facets::Case;
use corpus_gen::lang::Ty;

struct Done {
    ty: String,
    shape: String,
    source: String,
    output: String,
}

fn finished(cases: Vec<Case>) -> Vec<Done> {
    cases
        .into_iter()
        .map(|case| {
            let (source, output) = case.program.finish();
            Done {
                ty: case.axes[0].1.clone(),
                shape: case.axes[1].1.clone(),
                source,
                output,
            }
        })
        .collect()
}

fn answer(cases: &[Done], ty: &str, shape: &str) -> String {
    cases.iter().find(|c| c.ty == ty && c.shape == shape).unwrap().output.clone()
}

#[test]
fn every_hoisting_shape_is_generated_for_every_type() {
    let cases = finished(loop_hoist());
    for ty in ["i32", "u32", "i64", "u64"] {
        let shapes: Vec<&str> =
            cases.iter().filter(|c| c.ty == ty).map(|c| c.shape.as_str()).collect();
        assert_eq!(shapes.len(), 14, "{ty}");
        assert!(shapes.contains(&"divide-under-a-test"), "{ty}");
        assert!(shapes.contains(&"volatile-load"), "{ty}");
    }
}

#[test]
fn the_two_shapes_that_fault_when_hoisted_expect_nothing_to_happen() {
    let cases = finished(loop_hoist());
    for shape in ["divide-that-may-not-run", "load-that-may-not-run"] {
        assert_eq!(answer(&cases, "i64", shape), "0\n", "{shape}");
    }
}

#[test]
fn the_same_divide_expects_the_same_answer_whichever_end_the_loop_tests_at() {
    let cases = finished(loop_hoist());
    let value = |shape: &str| answer(&cases, "i32", shape).trim().parse::<i64>().unwrap();
    assert_eq!(value("divide-at-the-bottom") - value("divide-under-a-test"), 8 * 21);
}

#[test]
fn the_hoisting_totals_are_the_loops_run_by_hand() {
    let cases = finished(loop_hoist());
    assert_eq!(answer(&cases, "i32", "global-load"), "52\n");
    assert_eq!(answer(&cases, "u64", "a-chain-of-three"), "1116\n");
    assert_eq!(answer(&cases, "i64", "out-of-a-nest"), "288\n");
    assert_eq!(answer(&cases, "u32", "under-pressure"), "536\n");
    assert_eq!(answer(&cases, "i32", "a-store-of-something-invariant"), "8\n28\n");
    let pressure = cases.iter().find(|c| c.ty == "i32" && c.shape == "under-pressure").unwrap();
    assert!(pressure.source.contains("        v7 += h + (int)i;"));
    assert!(pressure.source.contains("    total += v0 + v1 + v2 + v3 + v4 + v5 + v6 + v7;"));
}

#[test]
fn a_narrow_type_still_gets_every_hoisting_shape() {
    // The answers are all small, so even a byte type, which accumulates in `int`, holds them.
    assert!(hoisted(Ty::I8, HoistShape::UnderPressure).is_some());
    assert!(fits(Ty::U8, 536));
    assert!(!fits(Ty::I32, 1i128 << 40));
    assert_eq!(ramp(3, 8), 52);
    assert_eq!(ramp(0, 0), 0);
}

#[test]
fn every_loop_shape_is_generated_for_every_type() {
    let cases = finished(loop_shape());
    assert_eq!(cases.len(), 64);
    for ty in ["i32", "u32", "i64", "u64"] {
        assert_eq!(cases.iter().filter(|c| c.ty == ty).count(), 16, "{ty}");
    }
}

#[test]
fn the_loop_shape_totals_are_the_loops_run_by_hand() {
    let cases = finished(loop_shape());
    assert_eq!(answer(&cases, "i32", "two-exits-one-join"), "10\n");
    assert_eq!(answer(&cases, "i32", "two-latches"), "104\n");
    assert_eq!(answer(&cases, "u32", "live-out-twice"), "10\n20\n45\n");
    assert_eq!(answer(&cases, "i64", "live-out-multi-exit"), "6\n15\n");
    assert_eq!(answer(&cases, "u64", "irreducible"), "44\n");
    assert_eq!(answer(&cases, "i32", "entry-provable"), "15\n");
    assert_eq!(answer(&cases, "i32", "entry-disprovable"), "0\n");
    assert_eq!(answer(&cases, "i32", "header-store"), "28\n");
    assert_eq!(answer(&cases, "i32", "live-out-from-header"), "21\n63\n");
}

#[test]
fn a_header_over_the_limit_has_the_terms_the_limit_names() {
    let cases = finished(loop_shape());
    let small = cases.iter().find(|c| c.ty == "i32" && c.shape == "header-over-size-limit").unwrap();
    assert!(small.source.contains("    while ((i ^ 1) + (i ^ 2) + (i ^ 3) < bound) {"));
    assert!(small.source.contains("static volatile int bound_in = 10;"));
    assert_eq!(small.output, "6\n");
    let large = cases.iter().find(|c| c.ty == "i32" && c.shape == "header-over-speed-limit").unwrap();
    assert!(large.source.contains("(i ^ 10) + (i ^ 11) < bound"));
    assert!(large.source.contains("static volatile int bound_in = 70;"));
    assert_eq!(large.output, "6\n");
}

#[test]
fn the_plain_while_loop_says_so() {
    let program = shaped(Ty::U32, LoopShape::WhileToDoWhile).unwrap();
    let (source, output) = program.finish();
    assert!(source.starts_with("// a plain unsigned int `while` loop, which should end up a `do`\n"));
    assert_eq!(output, "45\n");
}

#[test]
fn every_trip_count_is_the_loop_run_by_hand() {
    let cases = trip_counts();
    let outputs: Vec<(String, String)> = cases
        .into_iter()
        .map(|case| (case.axes[0].1.clone(), case.program.finish().1))
        .collect();
    let get = |shape: &str| outputs.iter().find(|(s, _)| s == shape).unwrap().1.clone();
    assert_eq!(get("exit-on-not-equal"), "5\n20\n");
    assert_eq!(get("step-does-not-divide"), "4\n9\n");
    assert_eq!(get("starts-past-the-limit"), "0\n0\n");
    assert_eq!(get("unsigned-wraps-round"), "12\n12\n");
    assert_eq!(get("counts-down"), "4\n22\n");
    assert_eq!(get("walks-a-pointer"), "4\n36\n");
    assert_eq!(get("derived-counter"), "9\n25\n117\n");
    assert_eq!(get("two-exits"), "5\n1\n");
    assert_eq!(get("inner-depends-on-outer"), "28\n56\n");
    assert_eq!(get("unknown-limit"), "7\n21\n");
}
