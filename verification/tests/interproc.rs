use corpus_gen::facets::interproc::{
    TailShape, constant_args, declared_purity, dispatch_text, dispatched, tail_dispatch,
    unused_params, unused_returns,
};
use corpus_gen::facets::Case;

/// Each case's axes, source and output.
fn finished(cases: Vec<Case>) -> Vec<(Vec<(String, String)>, String, String)> {
    cases
        .into_iter()
        .map(|case| {
            let (source, output) = case.program.finish();
            (case.axes, source, output)
        })
        .collect()
}

fn find<'a>(
    cases: &'a [(Vec<(String, String)>, String, String)],
    ty: &str,
    shape: &str,
) -> &'a (Vec<(String, String)>, String, String) {
    cases
        .iter()
        .find(|(axes, _, _)| {
            axes.iter().any(|(n, v)| n == "type" && v == ty)
                && axes.iter().any(|(n, v)| n == "shape" && v == shape)
        })
        .unwrap_or_else(|| panic!("no {ty} {shape} case"))
}

#[test]
fn a_dispatch_case_is_every_shape_and_calls_the_next_state_in_tail_position() {
    let cases = tail_dispatch();
    assert_eq!(cases.len(), 5);
    for case in cases {
        assert!(case.tags.iter().any(|t| t == "gnu"));
        let (source, _) = case.program.finish();
        assert!(
            source.contains("return s0(p + 1")
                || source.contains("return rotate(p + 1")
                || source.contains("return s1(p + 1")
                || source.contains("return table["),
            "{source}"
        );
    }
}

#[test]
fn a_dispatch_answer_is_the_state_machine_run_by_hand() {
    let text = [5u8, 250, 3];
    let alternate = (((9u64 * 31 + 5) ^ (250 << 3)) * 31) + 3;
    assert_eq!(dispatched(TailShape::Alternate, 2, &text, 9), alternate);
    let table = ((9u64 * 31 + 5) * 31 + 250 + 1) * 31 + 3 + 3;
    assert_eq!(dispatched(TailShape::Table, 4, &text, 9), table);
    let (a, b, c, d) = (3u64, 9 + 5, 1 + 250, 2 + 3);
    assert_eq!(dispatched(TailShape::Rotate, 1, &text, 9), a + 3 * b + 5 * c + 7 * d);
}

#[test]
fn a_switch_dispatch_mixes_with_the_prime_and_the_state() {
    // State 0 reads 5 and goes to 5 % 4 = 1, state 1 reads 250 and goes to 251 % 4 = 3.
    let text = [5u8, 250, 3];
    let prime = 0x0100_0000_01b3u64;
    let want = ((9u64.wrapping_mul(prime) + 5).wrapping_mul(prime) + 250 + 1)
        .wrapping_mul(prime)
        .wrapping_add(3 + 3);
    assert_eq!(dispatched(TailShape::Switch, 4, &text, 9), want);
}

#[test]
fn the_dispatch_text_is_drawn_from_the_seed() {
    let text = dispatch_text();
    assert_eq!(text.len(), 2048);
    let mut drawn = 7u64;
    for byte in &text[..4] {
        drawn = drawn.wrapping_mul(6_364_136_223_846_793_005).wrapping_add(1_442_695_040_888_963_407);
        assert_eq!(*byte, (drawn >> 33) as u8);
    }
}

#[test]
fn a_sixteen_state_switch_writes_every_state_and_a_default() {
    let cases = tail_dispatch();
    let case = cases.into_iter().nth(2).unwrap();
    assert_eq!(case.axes[1].1, "16");
    let (source, _) = case.program.finish();
    assert!(source.contains("s15(const unsigned char *p, const unsigned char *end, unsigned long long acc) {"));
    assert_eq!(source.matches("    default:").count(), 16);
    assert!(source.contains("        return s15(p + 1, end, next);"));
}

#[test]
fn the_disagreeing_call_sites_expect_a_different_total_from_the_agreeing_ones() {
    let cases = finished(constant_args());
    assert_eq!(find(&cases, "i32", "all-sites-agree").2, "90\n");
    assert_eq!(find(&cases, "i32", "sites-disagree").2, "72\n");
}

#[test]
fn the_shapes_a_propagation_reaches_through_and_the_ones_it_refuses_agree_on_the_total() {
    let cases = finished(constant_args());
    for shape in ["handed-on", "one-more-level", "recursive", "other-objects-call-it"] {
        assert_eq!(find(&cases, "i32", shape).2, "60\n", "{shape}");
    }
    assert_eq!(find(&cases, "i32", "address-escapes").2, "42\n");
}

#[test]
fn the_varargs_shape_asks_for_the_header_that_makes_it_legal() {
    let cases = finished(constant_args());
    let case = find(&cases, "i64", "through-varargs");
    assert!(case.1.contains("#include <stdarg.h>"));
    assert_eq!(case.2, "60\n");
}

#[test]
fn a_constant_argument_case_is_written_at_its_own_type() {
    let cases = finished(constant_args());
    assert_eq!(cases.len(), 36);
    let case = find(&cases, "u64", "one-site");
    assert!(case.1.contains("static unsigned long long scale(unsigned long long value, unsigned long long factor) {"));
    assert!(case.1.contains("    total += scale(seed, (unsigned long long)10ull);"));
    let other = find(&cases, "u32", "other-objects-call-it");
    assert!(other.1.contains("\nunsigned int scale(unsigned int value"), "{}", other.1);
}

#[test]
fn an_unread_parameter_case_checks_what_has_to_survive() {
    let cases = finished(unused_params());
    assert_eq!(cases.len(), 44);
    assert_eq!(find(&cases, "i32", "argument-has-a-side-effect").2, "2\n8\n");
    assert_eq!(find(&cases, "i64", "argument-is-an-address").2, "9\n4\n");
    assert_eq!(find(&cases, "u32", "middle-unread").2, "69\n");
    assert_eq!(find(&cases, "u64", "recursive-only").2, "6\n");
    assert!(find(&cases, "i32", "variadic").1.contains("#include <stdarg.h>"));
}

#[test]
fn an_unread_return_case_checks_the_mark_before_the_total() {
    let cases = finished(unused_returns());
    assert_eq!(cases.len(), 36);
    assert_eq!(find(&cases, "i32", "result-ignored").2, "7\n0\n");
    assert_eq!(find(&cases, "i32", "one-helper-of-two").2, "7\n103\n");
    assert_eq!(find(&cases, "u64", "recursive").2, "6\n0\n");
    assert_eq!(find(&cases, "i64", "returns-a-pointer").2, "2\n0\n");
    assert!(find(&cases, "i32", "read-in-a-condition").1.contains("        total += (int)5;"));
}

#[test]
fn a_purity_case_is_a_pair_that_differs_only_in_the_promise() {
    let cases = declared_purity();
    assert_eq!(cases.len(), 32);
    let written = &cases[4];
    let silent = &cases[5];
    assert_eq!(written.axes[2].1, "written");
    assert_eq!(silent.axes[2].1, "silent");
    assert!(written.source.contains("__attribute__((pure)) int corpus_look(const int *at);"));
    assert!(silent.source.contains("\nint corpus_look(const int *at);"));
    assert_eq!(written.output, "16\n");
    assert_eq!(written.output, silent.output);
    assert_eq!(written.units[0].0, "helper");
    assert!(written.units[0].1.contains("return (int)(at[0] + at[2]);"));
    assert_eq!(cases[7].output, "24\n");
    assert!(cases[0].source.contains("__attribute__((const)) int corpus_weigh(int of);"));
}
