use corpus_gen::facets::Case;
use corpus_gen::facets::folds::{address_fold, compare_fold, frame_address, load_fold};
use corpus_gen::facets::lowering::switch_lowering;
use corpus_gen::facets::machine::{
    block_layout, calling_convention, if_conversion, register_alloc, register_pressure,
    scheduling, scheduling_memory,
};
use corpus_gen::facets::peephole::{bit_liveness, compare_elim, machine_peephole, selection};
use corpus_gen::facets::switches::switch_hot_case;

struct Done {
    id: String,
    axes: Vec<(String, String)>,
    tags: Vec<String>,
    source: String,
    output: String,
}

impl Done {
    fn get(&self, name: &str) -> Option<&str> {
        self.axes.iter().find(|(n, _)| n == name).map(|(_, v)| v.as_str())
    }

    fn has_tag(&self, tag: &str) -> bool {
        self.tags.iter().any(|t| t == tag)
    }
}

fn done(cases: Vec<Case>) -> Vec<Done> {
    cases
        .into_iter()
        .map(|case| {
            let id = case.axes.iter().map(|(_, v)| v.as_str()).collect::<Vec<_>>().join("/");
            let (source, output) = case.program.finish();
            Done { id, axes: case.axes, tags: case.tags, source, output }
        })
        .collect()
}

fn output(case: &Done) -> &str {
    &case.output
}

#[test]
fn the_selection_patterns_cover_arithmetic_comparison_and_bit_work() {
    let cases = done(selection());
    let patterns: Vec<&str> = cases.iter().filter_map(|c| c.get("pattern")).collect();
    for wanted in ["multiply-add", "min", "max", "mask-low", "round-down"] {
        assert!(patterns.contains(&wanted), "no case for {wanted}");
    }
    let mad = cases
        .iter()
        .find(|c| c.get("pattern") == Some("multiply-add") && c.get("type") == Some("i32"))
        .unwrap();
    assert_eq!(output(mad), "340\n");
}

#[test]
fn register_pressure_goes_past_the_register_file_of_every_target_rucc_has() {
    let cases = done(register_alloc());
    let live: Vec<&str> = cases.iter().filter_map(|c| c.get("live")).collect();
    assert!(live.contains(&"64"));
    let case = cases
        .iter()
        .find(|c| {
            c.get("live") == Some("4") && c.get("type") == Some("i32") && c.get("shape") == Some("straight")
        })
        .unwrap();
    assert_eq!(output(case), "10\n");
}

#[test]
fn the_call_off_the_path_cases_read_their_values_only_in_the_arm_without_the_call() {
    let cases = done(register_pressure());
    let case = cases
        .iter()
        .find(|c| {
            c.get("shape") == Some("call-off-the-path")
                && c.get("type") == Some("i32")
                && c.get("live") == Some("6")
        })
        .unwrap();
    for at in 0..6 {
        assert_eq!(case.source.matches(&format!("v{at};")).count(), 1, "v{at} in {}", case.id);
        assert!(case.source.contains(&format!("        kept += v{at};")), "{}", case.id);
    }
    assert_eq!(output(case), "21\n");
}

fn scheduling_cases() -> Vec<Done> {
    let mut cases = done(scheduling());
    cases.extend(done(scheduling_memory()));
    cases
}

#[test]
fn the_scheduling_cases_only_use_types_where_wrapping_is_defined() {
    let cases = scheduling_cases();
    assert!(!cases.is_empty());
    for case in &cases {
        let ty = case.get("type").unwrap();
        assert!(ty.starts_with('u'), "{} accumulates in {ty}", case.id);
    }
}

#[test]
fn one_chain_and_four_chains_do_the_same_number_of_multiplies() {
    let cases = scheduling_cases();
    let one = cases
        .iter()
        .find(|c| c.get("chains") == Some("1") && c.get("length") == Some("8") && c.get("type") == Some("u64"))
        .unwrap();
    let four = cases
        .iter()
        .find(|c| c.get("chains") == Some("4") && c.get("length") == Some("8") && c.get("type") == Some("u64"))
        .unwrap();
    assert_eq!(one.source.matches("* (unsigned long long)3").count(), 8);
    assert_eq!(four.source.matches("* (unsigned long long)3").count(), 32);
}

#[test]
fn every_memory_scheduling_shape_is_generated_for_both_unsigned_wide_types() {
    let shapes = ["read-after-write", "write-after-read", "two-writes", "read-only"];
    let cases = scheduling_cases();
    for ty in ["u32", "u64"] {
        for shape in shapes {
            assert!(
                cases.iter().any(|c| c.get("type") == Some(ty) && c.get("access") == Some(shape)),
                "no {shape} case for {ty}"
            );
        }
    }
}

#[test]
fn the_four_memory_scheduling_shapes_each_print_a_different_number() {
    let cases = scheduling_cases();
    let mut seen: Vec<&str> = cases
        .iter()
        .filter(|c| c.get("type") == Some("u64") && c.get("access").is_some())
        .map(output)
        .collect();
    assert_eq!(seen.len(), 4);
    seen.sort_unstable();
    seen.dedup();
    assert_eq!(seen.len(), 4, "two shapes print the same number");
}

#[test]
fn the_read_only_memory_shape_is_the_only_one_that_never_stores_in_its_loop() {
    for case in scheduling_cases() {
        let Some(shape) = case.get("access") else {
            continue;
        };
        let stores = case.source.matches("buffer[").count();
        let fill = case.source.matches("buffer[i] =").count();
        assert_eq!(fill, 1, "{} does not fill its buffer once", case.id);
        if shape == "read-only" {
            assert!(!case.source.contains("buffer[at] ="), "{} stores and says it does not", case.id);
        } else {
            assert!(stores > 2, "{} has nothing for the order to matter to", case.id);
        }
    }
}

fn switch_cases() -> Vec<Done> {
    let mut cases = done(switch_lowering());
    cases.extend(done(switch_hot_case()));
    cases
}

#[test]
fn every_switch_case_visits_every_label_and_the_default() {
    for case in switch_cases() {
        if case.get("shape") == Some("hot-case") {
            continue;
        }
        let labels: i128 = case.get("labels").unwrap().parse().unwrap();
        let expected: i128 = (1..=labels).sum();
        assert_eq!(output(&case), format!("{expected}\n"), "{}", case.id);
        assert!(case.source.contains("classify(-1)"), "{}", case.id);
    }
}

#[test]
fn a_sparse_switch_really_is_spread_out() {
    let cases = switch_cases();
    let sparse = cases
        .iter()
        .find(|c| c.get("density") == Some("very-sparse") && c.get("labels") == Some("8"))
        .unwrap();
    assert!(sparse.source.contains("case 7000:"), "{}", sparse.source);
}

#[test]
fn the_switch_sizes_sit_either_side_of_the_cluster_limit() {
    let cases = switch_cases();
    let labels: Vec<&str> = cases.iter().filter_map(|c| c.get("labels")).collect();
    assert!(labels.contains(&"31"), "nothing below the limit and near it");
    assert!(labels.contains(&"33"), "nothing above the limit and near it");
}

#[test]
fn calls_are_generated_past_the_point_where_arguments_stop_fitting_in_registers() {
    let cases = done(calling_convention());
    let counts: Vec<&str> =
        cases.iter().filter(|c| c.get("kind") == Some("integer")).filter_map(|c| c.get("count")).collect();
    assert!(counts.contains(&"8"));
    assert!(counts.contains(&"16"));
    let sixteen =
        cases.iter().find(|c| c.get("kind") == Some("integer") && c.get("count") == Some("16")).unwrap();
    assert_eq!(output(sixteen), "136\n");
}

#[test]
fn the_variable_argument_case_is_the_only_one_that_needs_a_header() {
    let cases = done(calling_convention());
    for case in &cases {
        assert_eq!(case.has_tag("headers"), case.source.contains("#include"), "{}", case.id);
    }
    let varargs = cases.iter().find(|c| c.get("kind") == Some("varargs")).unwrap();
    assert!(varargs.source.contains("#include <stdarg.h>"));
    assert_eq!(output(varargs), "21\n");
}

#[test]
fn the_double_negate_peephole_only_appears_for_signed_types() {
    let cases = done(machine_peephole());
    for case in &cases {
        if case.get("shape") == Some("double-negate") {
            assert!(case.get("type").unwrap().starts_with('i'), "{}", case.id);
        }
    }
}

#[test]
fn the_if_conversion_cases_run_a_condition_that_flips_every_iteration() {
    for case in done(if_conversion()) {
        assert!(case.source.contains("int odd = i & 1;"), "{}", case.id);
    }
}

#[test]
fn every_address_fold_case_reads_back_exactly_what_it_wrote() {
    let cases = done(address_fold());
    assert!(!cases.is_empty());
    for case in &cases {
        let wanted = match case.get("shape") {
            Some("several-offsets") => "18\n",
            Some("store-then-load") => "6\n",
            Some("computed-index" | "base-written-between" | "reader-in-another-block") => "11\n",
            Some("filled-then-read") => "68\n",
            _ => "26\n",
        };
        assert_eq!(output(case), wanted, "{}", case.id);
    }
}

#[test]
fn the_address_shapes_the_fold_has_to_refuse_are_all_present() {
    let cases = done(address_fold());
    let shapes: Vec<&str> = cases.iter().filter_map(|case| case.get("shape")).collect();
    for wanted in ["base-written-between", "reader-in-another-block", "global-many-readers"] {
        assert!(shapes.contains(&wanted), "no case for {wanted}");
    }
}

#[test]
fn the_global_many_readers_shape_puts_its_array_at_file_scope() {
    for case in done(address_fold()) {
        if case.get("shape") == Some("global-many-readers") {
            assert!(case.source.contains("shared[4];\n"), "{}", case.id);
            let at = case.source.find("shared[4];").unwrap();
            assert!(at < case.source.find("int main").unwrap(), "{}", case.id);
        }
    }
}

#[test]
fn every_load_fold_case_prints_the_number_its_shape_fixes() {
    let cases = done(load_fold());
    assert!(!cases.is_empty());
    for case in &cases {
        let wanted = match case.get("shape") {
            Some("two-readers") => "21\n",
            Some("load-between") => "5\n",
            Some("index-written-between") => "19\n",
            Some("subtract-left") => "3\n",
            Some("subtract-right") => "6\n",
            _ => "13\n",
        };
        assert_eq!(output(case), wanted, "{}", case.id);
    }
}

#[test]
fn the_load_fold_shapes_the_pass_has_to_refuse_are_all_present() {
    let cases = done(load_fold());
    let shapes: Vec<&str> = cases.iter().filter_map(|case| case.get("shape")).collect();
    for wanted in [
        "two-readers",
        "store-between",
        "call-between",
        "load-between",
        "index-written-between",
        "subtract-left",
        "reader-in-another-block",
        "narrower-load",
    ] {
        assert!(shapes.contains(&wanted), "no case for {wanted}");
    }
}

#[test]
fn every_load_fold_case_with_an_array_fills_it_before_it_reads_it_at_an_unknown_index() {
    for case in done(load_fold()) {
        if case.get("shape") == Some("load-between") {
            continue;
        }
        assert!(case.source.contains("for (int i = 0; i < 8; i++) {"), "{}", case.id);
        assert!(case.source.contains("[at]"), "{}", case.id);
    }
}

#[test]
fn the_load_between_shape_reads_two_volatile_globals_in_the_order_it_subtracts_them() {
    for case in done(load_fold()) {
        if case.get("shape") != Some("load-between") {
            continue;
        }
        assert!(case.source.contains("volatile"), "{}", case.id);
        let first = case.source.find("first = first_in").unwrap();
        let second = case.source.find("second = second_in").unwrap();
        assert!(first < second, "{}", case.id);
        assert!(case.source.contains("total = second - first;"), "{}", case.id);
    }
}

#[test]
fn the_call_between_shape_calls_through_a_pointer_the_compiler_cannot_see_through() {
    for case in done(load_fold()) {
        if case.get("shape") != Some("call-between") {
            continue;
        }
        assert!(case.source.contains("jump();"), "{} has no call", case.id);
        assert!(case.source.contains("(*volatile jump)"), "{} inlines away", case.id);
    }
}

#[test]
fn the_frame_address_family_counts_from_one_offset_to_six() {
    let cases = done(frame_address());
    let counted: Vec<Option<&str>> = cases.iter().map(|case| case.get("offsets")).collect();
    let wanted = ["one", "two", "three", "four", "five", "six"];
    assert_eq!(counted, wanted.map(Some), "one program per count and no others");
}

#[test]
fn every_frame_address_case_uses_one_more_offset_than_the_one_before() {
    let wanted = ["5\n", "11\n", "18\n", "26\n", "35\n", "45\n"];
    for (at, (case, answer)) in done(frame_address()).iter().zip(wanted).enumerate() {
        assert_eq!(output(case), answer, "{}", case.id);
        assert!(case.source.contains(&format!("long long room[{}];", at + 1)), "{}", case.id);
        assert!(case.source.contains(&format!("room[{at}] = seed")), "{}", case.id);
        assert!(!case.source.contains(&format!("room[{}] = seed", at + 1)), "{}", case.id);
        assert!(!case.source.contains("room[i]"), "{}", case.id);
    }
}

#[test]
fn every_bit_liveness_case_has_a_block_boundary_between_the_widening_and_its_reader() {
    let cases = done(bit_liveness());
    assert!(!cases.is_empty());
    for case in &cases {
        assert!(
            case.source.contains("if (flag) {") || case.source.contains("for (int i"),
            "{} has no block boundary in it",
            case.id
        );
    }
}

#[test]
fn every_bit_liveness_case_prints_what_the_narrow_type_still_holds() {
    for case in &done(bit_liveness()) {
        let signed = matches!(case.get("type"), Some("i8" | "i16"));
        let wanted = match case.get("shape") {
            Some("in-a-loop") => "15\n",
            Some("narrowed-from-a-double") => "41\n",
            Some("upper-bits-read") => {
                if signed {
                    "-55\n"
                } else {
                    "201\n"
                }
            }
            _ => "40\n",
        };
        assert_eq!(output(case), wanted, "{}", case.id);
    }
}

#[test]
fn the_bit_liveness_shape_that_catches_a_wrong_count_reads_the_widened_value_whole() {
    let mut seen = 0;
    for case in done(bit_liveness()) {
        if case.get("shape") != Some("upper-bits-read") {
            continue;
        }
        let signed = matches!(case.get("type"), Some("i8" | "i16"));
        let test = if signed { "beyond = wide < 0;" } else { "beyond = wide > 127;" };
        assert!(case.source.contains(test), "{}", case.id);
        seen += 1;
    }
    assert_eq!(seen, 4, "one shape that must not change per narrow type");
}

#[test]
fn every_compare_elim_case_has_two_comparisons_or_arithmetic_before_one() {
    let cases = done(compare_elim());
    assert!(!cases.is_empty());
    for case in &cases {
        let twice = case.source.matches("a == b").count() + case.source.matches("a != b").count();
        let after = case.source.contains(" & mask") || case.source.contains(" | b") || case.source.contains("(a - b)");
        assert!(twice >= 2 || after, "{} has nothing in front of its comparison", case.id);
    }
}

#[test]
fn every_compare_elim_case_prints_what_the_comparisons_really_answer() {
    for case in &done(compare_elim()) {
        let wanted = match case.get("shape") {
            Some("same-comparison") => "1\n",
            Some("byte-and-branch") => "7\n",
            Some("after-and") => "19\n",
            Some("after-or") => "8\n",
            Some("after-sub") => "6\n",
            Some("after-sub-ordered") => "9\n",
            _ => "11\n",
        };
        assert_eq!(output(case), wanted, "{}", case.id);
    }
}

#[test]
fn the_compare_elim_shape_that_must_stay_is_there_for_every_signed_type() {
    let cases = done(compare_elim());
    let ordered: Vec<&str> = cases
        .iter()
        .filter(|case| case.get("shape") == Some("after-sub-ordered"))
        .filter_map(|case| case.get("type"))
        .collect();
    assert_eq!(ordered, ["i32", "i64"]);
    for case in &cases {
        if case.get("shape") == Some("after-sub-ordered") {
            assert!(case.source.contains("(d < 0) ? 4 : 8"), "{}", case.id);
        }
    }
}

#[test]
fn the_compare_elim_case_the_issue_asks_for_writes_the_compared_value_in_between() {
    let mut seen = 0;
    for case in done(compare_elim()) {
        if case.get("shape") != Some("written-in-between") {
            continue;
        }
        let lines: Vec<&str> = case.source.lines().map(str::trim).collect();
        let masked = lines.iter().position(|line| line.starts_with("int first"));
        let moved = lines.iter().position(|line| *line == "value = spare;");
        let asked = lines.iter().position(|line| line.starts_with("int second"));
        assert!(masked < moved && moved < asked, "{}", case.id);
        seen += 1;
    }
    assert_eq!(seen, 4, "one per type");
}

#[test]
fn every_layout_program_counts_a_thousand_rounds_of_the_common_path() {
    let cases = done(block_layout());
    assert_eq!(cases.len(), 4);
    for case in &cases {
        assert_eq!(output(case), "1000\n", "{}", case.id);
        assert!(case.source.contains("static volatile int rare_in = 0;"), "{}", case.id);
    }
}

#[test]
fn the_compare_fold_skips_the_big_constant_at_a_byte_and_keeps_it_elsewhere() {
    let cases = done(compare_fold());
    assert_eq!(cases.len(), 118);
    for case in &cases {
        let byte = matches!(case.get("type"), Some("i8" | "u8"));
        if case.get("shape") == Some("big-constant") {
            assert!(!byte, "{}", case.id);
            assert_eq!(output(case), "4\n", "{}", case.id);
        }
        if case.get("shape") == Some("equal-left") {
            assert_eq!(output(case), "7\n", "{}", case.id);
        }
    }
    assert_eq!(cases.iter().filter(|c| c.get("shape") == Some("big-constant")).count(), 6);
}

#[test]
fn a_memory_scheduling_total_is_the_loop_run_by_hand() {
    let cases = scheduling_cases();
    for (ty, modulus) in [("u32", 1u128 << 32), ("u64", 1u128 << 64)] {
        let mut buffer: Vec<u128> = (0..16).map(|i| 1 + i).collect();
        let mut total: u128 = 0;
        for i in 0..64usize {
            let at = (i * 7) % 16;
            buffer[at] = (buffer[at] * 3 + 1) % modulus;
            total = (total * 5 + buffer[at]) % modulus;
        }
        let case = cases
            .iter()
            .find(|c| c.get("type") == Some(ty) && c.get("access") == Some("read-after-write"))
            .unwrap();
        assert_eq!(output(case), format!("{total}\n"), "{}", case.id);
    }
}

#[test]
fn a_scheduling_total_is_the_chains_run_by_hand() {
    let cases = scheduling_cases();
    for chains in [1u128, 2, 4] {
        for length in [8u128, 32] {
            let modulus = 1u128 << 32;
            let mut total = 0u128;
            for chain in 0..chains {
                let mut value = 1 + chain;
                for _ in 0..4 * length {
                    value = (value * 3 + 1) % modulus;
                }
                total = (total + value) % modulus;
            }
            let case = cases
                .iter()
                .find(|c| {
                    c.get("type") == Some("u32")
                        && c.get("chains") == Some(chains.to_string().as_str())
                        && c.get("length") == Some(length.to_string().as_str())
                })
                .unwrap();
            assert_eq!(output(case), format!("{total}\n"), "{}", case.id);
        }
    }
}

#[test]
fn a_register_pressure_total_adds_every_value_and_what_the_shape_keeps() {
    let cases = done(register_pressure());
    assert_eq!(cases.len(), 60);
    let case = cases
        .iter()
        .find(|c| c.get("shape") == Some("both-classes") && c.get("type") == Some("u64") && c.get("live") == Some("24"))
        .unwrap();
    assert_eq!(output(case), format!("{}\n", 24 * 25 / 2 + 10));
    assert!(case.source.contains("double dsum"), "{}", case.id);
}
