use corpus_gen::facets::calls::{devirtualize, function_purity, reachability, tail_call};
use corpus_gen::facets::effects::{call_motion, calls_across_units, memory_effects};
use corpus_gen::facets::Case;

struct Done {
    id: String,
    axes: Vec<(String, String)>,
    tags: Vec<String>,
    source: String,
    output: String,
    units: usize,
}

impl Done {
    fn get(&self, name: &str) -> Option<&str> {
        self.axes.iter().find(|(n, _)| n == name).map(|(_, v)| v.as_str())
    }

    fn has_tag(&self, tag: &str) -> bool {
        self.tags.iter().any(|t| t == tag)
    }
}

fn done(cases: Vec<Case>) -> Vec<Done> {
    cases
        .into_iter()
        .map(|case| {
            let id = case.axes.iter().map(|(_, v)| v.as_str()).collect::<Vec<_>>().join("/");
            let (source, output) = case.program.finish();
            Done { id, axes: case.axes, tags: case.tags, source, output, units: 0 }
        })
        .collect()
}

fn call_motion_cases() -> Vec<Done> {
    let mut cases = done(call_motion());
    for case in calls_across_units() {
        let id = case.axes.iter().map(|(_, v)| v.as_str()).collect::<Vec<_>>().join("/");
        cases.push(Done {
            id,
            units: case.units.len(),
            axes: case.axes,
            tags: case.tags,
            source: case.source,
            output: case.output,
        });
    }
    cases
}

fn output(case: &Done) -> &str {
    &case.output
}

#[test]
fn inlining_covers_the_small_and_the_large_from_one_site_and_from_twenty() {
    let cases = done(corpus_gen::facets::calls::inline());
    let corners: Vec<(&str, &str)> = cases
        .iter()
        .filter(|c| c.get("type") == Some("i32"))
        .filter_map(|c| Some((c.get("body")?, c.get("sites")?)))
        .collect();
    for wanted in [("1", "1"), ("16", "20"), ("1", "20"), ("16", "1")] {
        assert!(corners.contains(&wanted), "no case for {wanted:?}");
    }
}

#[test]
fn an_inlined_helper_adds_the_triangular_number_of_its_body_size() {
    let cases = done(corpus_gen::facets::calls::inline());
    let case = cases
        .iter()
        .find(|c| c.get("type") == Some("i32") && c.get("body") == Some("4") && c.get("sites") == Some("1"))
        .unwrap();
    assert_eq!(output(case), "10\n");
}

#[test]
fn the_deep_tail_recursion_cases_say_so_with_a_tag() {
    for case in &done(tail_call()) {
        let deep = case.get("depth") == Some("5000");
        assert_eq!(case.has_tag("needs-tail-calls"), deep, "{}", case.id);
    }
}

#[test]
fn every_tail_recursion_shape_counts_up_to_its_depth() {
    for case in done(tail_call()) {
        let depth = case.get("depth").unwrap();
        assert_eq!(output(&case), format!("{depth}\n"), "{}", case.id);
    }
}

#[test]
fn the_cases_that_use_an_attribute_are_tagged_and_the_others_are_not() {
    for case in done(function_purity()) {
        let declared = case.get("shape").is_some_and(|s| s.starts_with("declared"));
        assert_eq!(case.has_tag("gnu"), declared, "{}", case.id);
        assert_eq!(case.source.contains("__attribute__"), declared, "{}", case.id);
    }
}

#[test]
fn the_impure_function_also_checks_how_many_times_it_ran() {
    let cases = done(function_purity());
    let case = cases.iter().find(|c| c.get("shape") == Some("impure") && c.get("type") == Some("i32")).unwrap();
    assert_eq!(output(case), "60\n5\n");
}

#[test]
fn twenty_unused_definitions_make_a_longer_program_than_one() {
    let cases = done(reachability());
    let one = cases.iter().find(|c| c.get("count") == Some("1") && c.get("kind") == Some("functions")).unwrap();
    let many = cases.iter().find(|c| c.get("count") == Some("20") && c.get("kind") == Some("functions")).unwrap();
    assert_eq!(one.source.matches("static int unused").count(), 1);
    assert_eq!(many.source.matches("static int unused").count(), 20);
    assert!(many.source.len() > one.source.len());
    assert_eq!(output(one), output(many));
}

#[test]
fn every_devirtualization_shape_calls_something_and_knows_what_it_returns() {
    let cases = done(devirtualize());
    assert_eq!(cases.len(), 4);
    let direct = cases.iter().find(|c| c.get("shape") == Some("direct-assign")).unwrap();
    assert_eq!(output(direct), "14\n");
    for case in &cases {
        assert!(case.source.contains("call(seed)"), "{}", case.id);
    }
}

#[test]
fn each_memory_effect_pair_prints_a_different_total() {
    let cases = done(memory_effects());
    let shape = |want: &str| {
        let case = cases.iter().find(|c| c.get("shape") == Some(want) && c.get("type") == Some("i32")).unwrap();
        output(case).to_owned()
    };
    assert_eq!(shape("writes-one-array"), "17000\n7006\n1000\n");
    assert_eq!(shape("writes-both-arrays"), "517500\n7006\n1008\n");
    assert_eq!(shape("reads-only"), "30000\n6\n8\n");
    assert_eq!(shape("writes-what-is-read"), "530500\n6\n1008\n");
    assert_eq!(shape("lends-a-local"), "27000\n6\n1000\n");
    assert_eq!(shape("keeps-a-local"), "1027000\n1006\n8\n");
}

#[test]
fn every_memory_effect_callee_is_kept_out_of_line_and_says_so() {
    let cases = done(memory_effects());
    assert_eq!(cases.len(), 24);
    for case in &cases {
        assert!(case.source.contains("__attribute__((noinline))"), "{}", case.id);
        assert!(case.has_tag("gnu"), "{}", case.id);
        assert_eq!(output(case).lines().count(), 3, "{}", case.id);
    }
}

#[test]
fn each_call_motion_pair_agrees_on_the_total_or_disagrees_on_the_count() {
    let cases = call_motion_cases();
    let shape = |want: &str| {
        let case = cases.iter().find(|c| c.get("shape") == Some(want) && c.get("type") == Some("i32")).unwrap();
        output(case).to_owned()
    };
    assert_eq!(shape("reads-a-table-nothing-writes"), "13000\n7\n250\n");
    assert_eq!(shape("reads-a-table-the-loop-writes"), "512500\n6\n1007\n");
    assert_eq!(shape("touches-nothing"), "36000\n250\n");
    assert_eq!(shape("an-argument-the-loop-changes"), "338863500\n250\n");
    assert_eq!(shape("writes-through-an-argument"), "6000\n1000\n6\n");
    assert_eq!(shape("a-call-under-a-false-test"), "1000\n");
}

#[test]
fn every_call_motion_callee_the_case_can_see_is_kept_out_of_line_and_says_so() {
    let cases = call_motion_cases();
    assert_eq!(cases.len(), 36);
    let (together, apart): (Vec<_>, Vec<_>) = cases.iter().partition(|case| case.units == 0);
    assert_eq!(together.len(), 24);
    for case in together {
        assert!(case.source.contains("__attribute__((noinline))"), "{}", case.id);
        assert!(case.has_tag("gnu"), "{}", case.id);
    }
    assert_eq!(apart.len(), 12);
    for case in apart {
        assert_eq!(case.units, 1, "{}", case.id);
        assert!(!case.source.contains("noinline"), "{}", case.id);
        let promises = case.get("shape") == Some("another-unit-promises-const");
        assert_eq!(case.has_tag("gnu"), promises, "{}", case.id);
        assert_eq!(case.source.contains("__attribute__"), promises, "{}", case.id);
    }
}

#[test]
fn the_shapes_across_units_print_the_same_answer_whatever_the_compiler_believes() {
    let cases = call_motion_cases();
    let shape = |want: &str| {
        let case = cases.iter().find(|c| c.get("shape") == Some(want) && c.get("type") == Some("i32")).unwrap();
        output(case).to_owned()
    };
    assert_eq!(shape("another-unit-writes-a-counter"), "12000\n1000\n");
    assert_eq!(shape("another-unit-is-silent"), "19000\n250\n");
    assert_eq!(shape("another-unit-promises-const"), "19000\n250\n");
}

#[test]
fn the_counting_helper_unit_keeps_its_own_count_and_the_main_unit_only_declares_it() {
    let units = calls_across_units();
    let counting = units
        .iter()
        .find(|c| c.axes.iter().any(|(n, v)| n == "shape" && v == "another-unit-writes-a-counter"))
        .unwrap();
    assert_eq!(counting.units[0].0, "helper");
    assert!(counting.units[0].1.contains("made = (int)(made + 1);"));
    assert!(counting.source.contains("int corpus_step(int of);"));
    assert!(!counting.source.contains("made"));
}

#[test]
fn a_chain_of_unreferenced_links_calls_each_link_from_the_next() {
    let cases = done(reachability());
    let chain = cases.iter().find(|c| c.get("count") == Some("5") && c.get("kind") == Some("chain")).unwrap();
    assert!(chain.source.contains("static int link0(int value) { return value + 1; }"));
    assert!(chain.source.contains("static int link4(int value) { return link3(value) + 1; }"));
    assert_eq!(output(chain), "5\n");
}
