use corpus_gen::facets::runtime::{long_double, setjmp_longjmp, vla_and_alloca};
use corpus_gen::facets::Case;

struct Done {
    id: String,
    facet: &'static str,
    tags: Vec<String>,
    source: String,
    output: String,
}

fn cases() -> Vec<Done> {
    let mut all: Vec<(&'static str, Case)> = Vec::new();
    all.extend(vla_and_alloca().into_iter().map(|c| ("vla-and-alloca", c)));
    all.extend(long_double().into_iter().map(|c| ("long-double", c)));
    all.extend(setjmp_longjmp().into_iter().map(|c| ("setjmp-longjmp", c)));
    all.into_iter()
        .map(|(facet, case)| {
            let id = case.axes[0].1.clone();
            let tags = case.tags;
            let (source, output) = case.program.finish();
            Done { id, facet, tags, source, output }
        })
        .collect()
}

#[test]
fn all_three_facets_produce_cases() {
    let cases = cases();
    for facet in ["vla-and-alloca", "long-double", "setjmp-longjmp"] {
        assert!(cases.iter().any(|case| case.facet == facet), "nothing for {facet}");
    }
}

#[test]
fn the_long_double_answers_hold_whatever_its_width() {
    let all = cases();
    let get = |id: &str| all.iter().find(|c| c.id == id).unwrap();
    assert_eq!(get("exact-on-small-integers").output, "130456\n116456\n864192000\n123456\n");
    assert_eq!(get("compared-against-integers").output, "1\n1\n1\n1\n1\n0\n");
    assert_eq!(get("converted-both-ways").output, "1099511627776\n4000000000\n1073741824\n-11\n3\n-3\n");
    let varargs = get("through-varargs");
    assert!(varargs.source.contains("#include <stdarg.h>"));
    assert!(varargs.tags.iter().any(|tag| tag == "headers"));
    assert!(get("in-a-struct").tags.is_empty());
}

#[test]
fn no_case_prints_a_size_because_a_size_is_a_property_of_the_machine() {
    for case in cases() {
        assert!(!case.source.contains("sizeof"), "{} would print a machine number", case.id);
    }
}

#[test]
fn setjmp_only_appears_where_c_allows_it() {
    for case in cases().iter().filter(|case| case.facet == "setjmp-longjmp") {
        for line in case.source.lines().filter(|line| line.contains("setjmp(")) {
            let trimmed = line.trim();
            let allowed = trimmed.starts_with("if (setjmp(")
                || trimmed.starts_with("switch (setjmp(")
                || trimmed.starts_with("while (setjmp(");
            assert!(allowed, "{} writes setjmp somewhere C does not allow: {trimmed}", case.id);
        }
    }
}

#[test]
fn every_local_read_after_a_jump_is_volatile() {
    for case in cases().iter().filter(|case| case.facet == "setjmp-longjmp") {
        let non_volatile = case
            .source
            .lines()
            .filter(|line| line.trim().starts_with("int ") && line.starts_with("    "))
            .count();
        let expected = usize::from(case.id.contains("unchanged-locals-survive"));
        assert_eq!(non_volatile, expected, "{} has a local C would call indeterminate", case.id);
    }
}

#[test]
fn the_extension_cases_say_so_and_the_header_cases_say_so() {
    for case in cases() {
        if case.source.contains("__builtin_alloca") {
            assert!(case.tags.iter().any(|tag| tag == "gnu"), "{} is untagged", case.id);
        }
        if case.source.contains("#include") {
            assert!(case.tags.iter().any(|tag| tag == "headers"), "{} is untagged", case.id);
        }
    }
}

#[test]
fn every_bound_of_a_run_time_sized_object_comes_from_somewhere_opaque() {
    for case in cases().iter().filter(|case| case.facet == "vla-and-alloca") {
        assert!(case.source.contains("static volatile"), "{} has a foldable bound", case.id);
    }
}

#[test]
fn every_case_carries_the_answer_the_generator_worked_out() {
    for case in cases() {
        assert!(!case.output.is_empty(), "{} has no oracle", case.id);
    }
}

#[test]
fn the_run_time_sized_answers_are_the_arrays_read_back() {
    let all = cases();
    let get = |id: &str| all.iter().find(|c| c.id == id).unwrap().output.clone();
    assert_eq!(get("one-dimension"), "55\n25\n");
    assert_eq!(get("two-dimensions"), "138\n23\n0\n");
    assert_eq!(get("both-in-one-frame"), "15\n20\n35\n");
    assert_eq!(get("out-of-nested-frames"), "123\n5\n");
    assert_eq!(get("a-retry-loop"), "4\n3\n");
}
