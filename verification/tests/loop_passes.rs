use corpus_gen::facets::loop_passes::{
    induction_variable, loop_deletion, loop_idiom, loop_invariant, loop_restructure, loop_rotate,
    loop_unroll, loop_unswitch,
};
use corpus_gen::facets::loops::trip_counts;
use corpus_gen::facets::Case;

struct Done {
    id: String,
    axes: Vec<(String, String)>,
    source: String,
    output: String,
}

impl Done {
    fn get(&self, name: &str) -> Option<&str> {
        self.axes.iter().find(|(n, _)| n == name).map(|(_, v)| v.as_str())
    }
}

fn done(cases: Vec<Case>) -> Vec<Done> {
    cases
        .into_iter()
        .map(|case| {
            let id = case.axes.iter().map(|(_, v)| v.as_str()).collect::<Vec<_>>().join("/");
            let (source, output) = case.program.finish();
            Done { id, axes: case.axes, source, output }
        })
        .collect()
}

fn output(case: &Done) -> &str {
    &case.output
}

#[test]
fn a_one_iteration_loop_and_a_hundred_iteration_loop_are_both_generated() {
    let cases = done(loop_unroll());
    let trips: Vec<&str> = cases.iter().filter_map(|c| c.get("trips")).collect();
    assert!(trips.contains(&"1"));
    assert!(trips.contains(&"100"));
}

#[test]
fn the_expected_total_of_an_invariant_loop_matches_the_arithmetic() {
    let cases = done(loop_invariant());
    let case = cases.iter().find(|c| c.get("type") == Some("i32") && c.get("trips") == Some("4")).unwrap();
    assert_eq!(output(case), "66\n");
}

#[test]
fn a_known_and_an_unknown_trip_count_expect_the_same_answer() {
    let cases = done(loop_unroll());
    for trips in ["4", "7", "100"] {
        let known = cases
            .iter()
            .find(|c| c.get("trips") == Some(trips) && c.get("bound") == Some("known") && c.get("type") == Some("i64"))
            .unwrap();
        let unknown = cases
            .iter()
            .find(|c| c.get("trips") == Some(trips) && c.get("bound") == Some("unknown") && c.get("type") == Some("i64"))
            .unwrap();
        assert_eq!(output(known), output(unknown), "trips {trips}");
    }
}

#[test]
fn all_four_rotations_of_the_same_loop_expect_the_same_answer() {
    let cases = done(loop_rotate());
    for trips in ["1", "2", "7", "16"] {
        let answers: Vec<&str> = cases
            .iter()
            .filter(|c| c.get("trips") == Some(trips) && c.get("type") == Some("i32"))
            .map(output)
            .collect();
        assert_eq!(answers.len(), 4, "trips {trips}");
        assert!(answers.windows(2).all(|w| w[0] == w[1]), "trips {trips}: {answers:?}");
    }
}

#[test]
fn all_four_traversals_of_the_same_grid_expect_the_same_total() {
    let cases = done(loop_restructure());
    let answers: Vec<&str> = cases
        .iter()
        .filter(|c| c.get("side") == Some("8") && c.get("type") == Some("i32"))
        .map(output)
        .collect();
    assert_eq!(answers.len(), 4);
    assert!(answers.windows(2).all(|w| w[0] == w[1]), "{answers:?}");
    assert_eq!(answers[0], "2016\n");
}

#[test]
fn unswitching_generates_both_settings_of_the_flag_and_they_differ() {
    let cases = done(loop_unswitch());
    let on = cases
        .iter()
        .find(|c| c.get("flag") == Some("1") && c.get("trips") == Some("4") && c.get("type") == Some("i32"))
        .unwrap();
    let off = cases
        .iter()
        .find(|c| c.get("flag") == Some("0") && c.get("trips") == Some("4") && c.get("type") == Some("i32"))
        .unwrap();
    assert_eq!(output(on), "12\n");
    assert_eq!(output(off), "10\n");
}

#[test]
fn a_deleted_loop_and_a_live_loop_sit_in_the_same_program() {
    for case in done(loop_deletion()) {
        assert!(case.source.contains("unread"), "{}", case.id);
        assert!(case.source.contains("total"), "{}", case.id);
        assert_eq!(case.source.matches("for (int i").count(), 2, "{}", case.id);
    }
}

#[test]
fn every_idiom_kind_is_covered_and_the_sum_adds_up() {
    let cases = done(loop_idiom());
    let kinds: Vec<&str> = cases.iter().filter_map(|c| c.get("kind")).collect();
    for wanted in ["fill", "copy", "sum", "count"] {
        assert!(kinds.contains(&wanted), "no case for {wanted}");
    }
    let sum = cases
        .iter()
        .find(|c| c.get("kind") == Some("sum") && c.get("trips") == Some("16") && c.get("type") == Some("i32"))
        .unwrap();
    assert_eq!(output(sum), "136\n");
}

#[test]
fn no_loop_case_expects_a_value_its_accumulator_cannot_hold() {
    let mut all = Vec::new();
    all.extend(done(loop_invariant()));
    all.extend(done(induction_variable()));
    all.extend(done(trip_counts()));
    all.extend(done(loop_unroll()));
    all.extend(done(loop_idiom()));
    all.extend(done(loop_deletion()));
    all.extend(done(loop_rotate()));
    all.extend(done(loop_restructure()));
    all.extend(done(loop_unswitch()));
    for case in all {
        for line in output(&case).lines() {
            let value: i128 = line.parse().unwrap_or_else(|_| panic!("{}", case.id));
            assert!(value.abs() < i128::from(i64::MAX), "{}", case.id);
        }
    }
}

#[test]
fn three_induction_variables_stay_in_step() {
    let cases = done(induction_variable());
    let case = cases.iter().find(|c| c.get("type") == Some("u64") && c.get("trips") == Some("7")).unwrap();
    assert_eq!(output(case), "84\n21\n7\n");
    assert!(case.source.contains("unsigned long long buffer[7];"), "{}", case.id);
}

#[test]
fn an_idiom_copy_checks_the_first_and_the_last_element() {
    let cases = done(loop_idiom());
    let copy = cases
        .iter()
        .find(|c| c.get("kind") == Some("copy") && c.get("trips") == Some("100") && c.get("type") == Some("u32"))
        .unwrap();
    assert_eq!(output(copy), "1\n100\n");
    assert!(copy.source.contains("target[99]"), "{}", copy.id);
    let count = cases
        .iter()
        .find(|c| c.get("kind") == Some("count") && c.get("trips") == Some("7") && c.get("type") == Some("i64"))
        .unwrap();
    assert_eq!(output(count), "2\n");
}
