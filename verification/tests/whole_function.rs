use corpus_gen::facets::global::{
    alias_analysis, alias_layers, code_motion, common_subexpr, constant_propagation,
    copy_propagation, load_forwarding, load_forwarding_walk, memory_ssa, scalar_replacement,
    value_range, value_range_places,
};
use corpus_gen::facets::local::{dead_code, dead_store, reassociate, unreachable_code};
use corpus_gen::facets::Case;

struct Done {
    id: String,
    axes: Vec<(String, String)>,
    source: String,
    output: String,
}

impl Done {
    fn get(&self, name: &str) -> Option<&str> {
        self.axes.iter().find(|(n, _)| n == name).map(|(_, v)| v.as_str())
    }
}

fn done(cases: Vec<Case>) -> Vec<Done> {
    cases
        .into_iter()
        .map(|case| {
            let id = case.axes.iter().map(|(_, v)| v.as_str()).collect::<Vec<_>>().join("/");
            let (source, output) = case.program.finish();
            Done { id, axes: case.axes, source, output }
        })
        .collect()
}

#[test]
fn the_walk_back_from_a_load_reads_what_the_last_store_wrote() {
    let cases = done(memory_ssa());
    assert!(!cases.is_empty());
    for case in &cases {
        let text = &case.output;
        assert!(text == "41\n" || text == "42\n", "{} expects {text:?}", case.id);
    }
}

#[test]
fn the_memory_ssa_shapes_that_must_stop_the_walk_are_all_present() {
    let cases = done(memory_ssa());
    let shapes: Vec<&str> = cases.iter().filter_map(|c| c.get("shape")).collect();
    for wanted in ["stopped-by-call", "stopped-by-may-alias", "merge-at-join"] {
        assert!(shapes.contains(&wanted), "no case for {wanted}");
    }
}

#[test]
fn every_common_subexpression_shape_computes_the_same_total() {
    let cases = done(common_subexpr());
    assert!(!cases.is_empty());
    for case in &cases {
        assert_eq!(case.output, "84\n", "{}", case.id);
    }
}

#[test]
fn every_load_forwarding_shape_reads_back_the_value_that_was_written() {
    let mut cases = done(load_forwarding());
    cases.extend(done(load_forwarding_walk()));
    for case in cases {
        assert_eq!(case.output, "41\n", "{}", case.id);
    }
}

#[test]
fn a_copy_chain_of_any_depth_ends_where_it_started() {
    let cases = done(copy_propagation());
    for case in &cases {
        assert_eq!(case.output, "12\n", "{}", case.id);
    }
    let deep = cases.iter().find(|c| c.get("depth") == Some("32")).unwrap();
    assert!(deep.source.contains("c31 = c30;"));
}

fn alias_cases() -> Vec<Done> {
    let mut cases = done(alias_analysis());
    cases.extend(done(alias_layers()));
    cases
}

#[test]
fn the_may_alias_case_expects_the_answer_you_get_when_the_pointers_do_alias() {
    let cases = alias_cases();
    let aliasing = cases.iter().find(|c| c.get("shape") == Some("may-alias")).unwrap();
    let distinct = cases.iter().find(|c| c.get("shape") == Some("distinct-locals")).unwrap();
    assert_eq!(aliasing.output, "14\n");
    assert_eq!(distinct.output, "13\n");
}

#[test]
fn the_restrict_case_actually_says_restrict() {
    let cases = alias_cases();
    let case = cases.iter().find(|c| c.get("shape") == Some("restrict")).unwrap();
    assert!(case.source.contains("restrict"), "{}", case.source);
}

#[test]
fn every_scalar_replacement_shape_adds_up_to_seventeen() {
    let cases = done(scalar_replacement());
    assert!(cases.len() >= 15);
    for case in &cases {
        assert_eq!(case.output, "17\n", "{}", case.id);
    }
}

#[test]
fn every_range_question_has_the_answer_yes() {
    let mut cases = done(value_range());
    cases.extend(done(value_range_places()));
    for case in cases {
        assert!(case.output.lines().all(|line| line == "1"), "{} expects {:?}", case.id, case.output);
    }
}

#[test]
fn constant_propagation_reaches_the_same_answer_by_four_routes() {
    let cases = done(constant_propagation());
    for case in &cases {
        assert_eq!(case.output, "42\n", "{}", case.id);
    }
    let shapes: Vec<&str> = cases.iter().filter_map(|c| c.get("shape")).collect();
    for wanted in ["direct", "through-copy", "same-on-both-arms", "through-array"] {
        assert!(shapes.contains(&wanted), "no case for {wanted}");
    }
}

#[test]
fn a_reassociation_case_writes_the_same_chain_four_ways_and_expects_one_answer() {
    for case in done(reassociate()) {
        let lines: Vec<&str> = case.output.lines().collect();
        assert_eq!(lines.len(), 4, "{}", case.id);
        assert!(lines.windows(2).all(|w| w[0] == w[1]), "{}", case.id);
    }
}

#[test]
fn a_dead_code_case_has_more_source_at_a_greater_depth_and_the_same_answer() {
    let cases = done(dead_code());
    let shallow = cases.iter().find(|c| c.get("depth") == Some("1")).unwrap();
    let deep = cases
        .iter()
        .find(|c| c.get("depth") == Some("16") && c.get("type") == shallow.get("type"))
        .unwrap();
    assert!(deep.source.len() > shallow.source.len());
    assert_eq!(shallow.output, deep.output);
}

#[test]
fn every_dead_store_shape_reads_the_last_value_written() {
    let cases = done(dead_store());
    for shape in ["local", "array", "address-taken"] {
        let case = cases
            .iter()
            .find(|c| c.get("shape") == Some(shape))
            .unwrap_or_else(|| panic!("no case for {shape}"));
        assert_eq!(case.output, "8\n", "{}", case.id);
    }
}

#[test]
fn every_unreachable_case_expects_the_live_arm_and_not_the_dead_one() {
    let cases = done(unreachable_code());
    assert_eq!(cases.len(), 8);
    for case in cases {
        assert_eq!(case.output, "11\n", "{}", case.id);
    }
}

#[test]
fn a_dead_call_case_names_a_function_it_never_defines() {
    let cases = done(unreachable_code());
    let dead: Vec<_> =
        cases.iter().filter(|c| c.get("shape").is_some_and(|s| s.starts_with("dead-call"))).collect();
    assert_eq!(dead.len(), 3);
    for case in dead {
        assert!(case.source.contains("void corpus_link_error(void);"), "{}", case.id);
        assert!(case.source.contains("corpus_link_error();"), "{}", case.id);
        assert!(!case.source.contains("corpus_link_error(void) {"), "{}", case.id);
    }
}

#[test]
fn a_reassociated_product_and_a_reassociated_pattern_print_what_c_gives() {
    let cases = done(reassociate());
    let product = cases.iter().find(|c| c.get("op") == Some("mul") && c.get("type") == Some("u32")).unwrap();
    assert_eq!(product.output, "30\n30\n30\n30\n");
    let xor = cases.iter().find(|c| c.get("op") == Some("xor") && c.get("type") == Some("i64")).unwrap();
    let folded = 0x0f ^ 0x33 ^ 0x55 ^ 0xaa;
    assert_eq!(xor.output, format!("{folded}\n").repeat(4));
    assert!(xor.source.contains("((a3 ^ a2) ^ (a1 ^ a0))"), "{}", xor.id);
}

#[test]
fn the_layer_programs_print_the_sums_their_shapes_fix() {
    let cases = done(alias_layers());
    for case in &cases {
        let wanted = match case.get("shape") {
            Some("char-pointer" | "union-pun") => "7\n",
            Some("computed-same-index") => "14\n",
            _ => "8\n",
        };
        assert_eq!(case.output, wanted, "{}", case.id);
    }
    let pun = cases.iter().find(|c| c.get("shape") == Some("union-pun") && c.get("type") == Some("u64")).unwrap();
    assert!(pun.source.contains("unsigned char parts[8];"), "{}", pun.id);
}

#[test]
fn a_long_walk_passes_thirty_two_other_stores() {
    let cases = done(load_forwarding_walk());
    let long = cases.iter().find(|c| c.get("shape") == Some("long-chain") && c.get("type") == Some("i32")).unwrap();
    assert!(long.source.contains("slots[32] = value + (int)32;"), "{}", long.id);
    assert!(!long.source.contains("slots[33]"), "{}", long.id);
}
