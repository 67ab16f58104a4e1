use corpus_gen::facets::backend::{Hint, HintedShape, expect_layout};
use corpus_gen::facets::conversion::{ROLLS, if_conversion_chain, if_conversion_rate, rolled};
use corpus_gen::facets::division::{
    DIVISION_ROUNDS, DIVISION_SEED, DIVISION_STREAM, Dividend, dividends, divided, division,
    exact_division, next_state,
};
use corpus_gen::facets::switches::{
    COLD_LABEL, HOT_LABEL, hot_arm, hot_bar, mixed_arm, switch_hot_case, switch_runs,
};
use corpus_gen::facets::Case;

/// A finished case: its axes, its tags, its source and its output.
struct Done {
    axes: Vec<(String, String)>,
    tags: Vec<String>,
    source: String,
    output: String,
}

impl Done {
    fn get(&self, name: &str) -> Option<&str> {
        self.axes.iter().find(|(n, _)| n == name).map(|(_, v)| v.as_str())
    }

    fn has_tag(&self, tag: &str) -> bool {
        self.tags.iter().any(|t| t == tag)
    }
}

fn finished(cases: Vec<Case>) -> Vec<Done> {
    cases
        .into_iter()
        .map(|case| {
            let (source, output) = case.program.finish();
            Done { axes: case.axes, tags: case.tags, source, output }
        })
        .collect()
}

#[test]
fn the_three_hints_at_one_rate_print_the_same_number_and_a_higher_rate_prints_more() {
    let cases = finished(if_conversion_rate());
    assert_eq!(cases.len(), 15);
    let mut last = 0u64;
    for rate in [50u32, 75, 90, 95, 99] {
        let rate = rate.to_string();
        let totals: Vec<u64> = cases
            .iter()
            .filter(|c| c.get("rate") == Some(rate.as_str()))
            .map(|c| c.output.trim().parse().unwrap())
            .collect();
        assert_eq!(totals.len(), 3, "rate {rate} has {} cases", totals.len());
        assert!(totals.iter().all(|&t| t == totals[0]), "rate {rate} disagrees: {totals:?}");
        assert!(totals[0] > last, "rate {rate} adds up to no more than the rate below it");
        last = totals[0];
    }
}

#[test]
fn the_chain_shapes_with_the_same_widening_add_up_what_the_control_does() {
    let cases = finished(if_conversion_chain());
    let total = |name: &str| {
        let case = cases.iter().find(|c| c.get("shape") == Some(name)).unwrap();
        case.output.clone()
    };
    assert_eq!(total("shared-widening"), total("different-widening"));
    assert_ne!(total("shared-widening"), total("shared-mask"));
}

#[test]
fn a_rate_total_is_the_rounds_added_up_by_hand() {
    // The same rounds in the plain arithmetic of the C, not through the library's helpers.
    let mut state: u32 = 7;
    let mut total: u64 = 0;
    for _ in 0..ROLLS {
        state = state.wrapping_mul(1_103_515_245).wrapping_add(12_345);
        let x = state >> 24;
        let v = if (state >> 16) % 100 < 90 { x * 3 } else { x + 7 };
        total = total.wrapping_add(u64::from(v));
    }
    assert_eq!(rolled(7, 90), total);
    assert_ne!(rolled(7, 90), rolled(8, 90), "the seed does not matter");
}

#[test]
fn a_rate_case_is_tagged_gnu_exactly_when_it_writes_a_builtin() {
    for case in finished(if_conversion_rate()) {
        assert_eq!(case.has_tag("gnu"), case.source.contains("__builtin_expect"), "{:?}", case.axes);
        assert!(case.source.contains("for (int i = 0; i < 20000000; i++) {"));
    }
}

#[test]
fn every_layout_case_expects_a_thousand_iterations_of_the_common_path() {
    for case in finished(expect_layout()) {
        assert_eq!(case.output, "1000\n", "{:?}", case.axes);
    }
}

#[test]
fn every_hinted_shape_is_written_once_with_a_hint_and_once_without() {
    let cases = finished(expect_layout());
    let shapes = [
        HintedShape::RareCall,
        HintedShape::HotThen,
        HintedShape::WidenedCondition,
        HintedShape::RareChain,
    ];
    for shape in shapes {
        for hint in [Hint::Plain, Hint::Builtin, Hint::Probability] {
            assert!(
                cases.iter().any(|c| {
                    c.get("shape") == Some(shape.name()) && c.get("hint") == Some(hint.name())
                }),
                "no {} program with the {} hint",
                shape.name(),
                hint.name()
            );
        }
    }
}

#[test]
fn a_layout_case_is_tagged_gnu_exactly_when_it_writes_a_builtin() {
    for case in finished(expect_layout()) {
        assert_eq!(case.has_tag("gnu"), case.source.contains("__builtin_"), "{:?}", case.axes);
    }
}

#[test]
fn the_two_spellings_of_a_hint_differ_only_in_the_hint() {
    let cases = finished(expect_layout());
    for shape in ["rare-call", "hot-then", "widened-condition", "rare-chain"] {
        let plain = cases
            .iter()
            .find(|c| c.get("shape") == Some(shape) && c.get("hint") == Some("none"))
            .unwrap();
        for hint in ["builtin", "probability"] {
            let other = cases
                .iter()
                .find(|c| c.get("shape") == Some(shape) && c.get("hint") == Some(hint))
                .unwrap();
            assert_eq!(plain.output, other.output, "{shape} answers differently with {hint}");
            assert_eq!(
                plain.source.lines().count(),
                other.source.lines().count(),
                "{shape} is a different program with the {hint} hint"
            );
        }
    }
}

#[test]
fn every_hinted_layout_case_puts_a_call_on_the_arm_it_says_is_cold() {
    for case in finished(expect_layout()) {
        if case.get("hint").is_none() {
            continue;
        }
        assert!(case.source.contains("cold();"), "{:?} has no cold arm", case.axes);
        assert!(case.source.contains("(*volatile cold)"), "{:?} inlines away", case.axes);
    }
}

#[test]
fn a_hot_case_hint_names_the_hot_label_or_a_cold_one_and_leaves_the_total_alone() {
    let hot = finished(switch_hot_case());
    assert_eq!(hot.len(), 12);
    for case in &hot {
        let stride = if case.get("density") == Some("dense") { 1 } else { 17 };
        let named = |label: i128| format!("__builtin_expect(value, {})", label * stride);
        let hot_named = case.source.contains(&named(HOT_LABEL));
        let cold_named = case.source.contains(&named(COLD_LABEL));
        match case.get("hint") {
            Some("right") => assert!(hot_named && !cold_named, "{:?}", case.axes),
            Some("wrong") => assert!(cold_named && !hot_named, "{:?}", case.axes),
            _ => assert!(!case.source.contains("__builtin_expect"), "{:?}", case.axes),
        }
        let twin = hot
            .iter()
            .find(|c| {
                c.get("hint") == Some("none")
                    && c.get("density") == case.get("density")
                    && c.get("rate") == case.get("rate")
            })
            .unwrap();
        assert_eq!(case.output, twin.output, "{:?}", case.axes);
    }
}

#[test]
fn the_hot_arms_are_not_a_line_and_the_bar_rounds_to_the_nearest() {
    assert_eq!(hot_arm(0), 1);
    assert_eq!(hot_arm(1), 920);
    assert_eq!(hot_arm(23), 138);
    assert_eq!(hot_arm(-1), -918);
    assert_eq!(hot_bar(75), 96);
    assert_eq!(hot_bar(95), 122);
    assert_eq!(hot_bar(50), 64);
}

#[test]
fn every_shape_of_a_run_is_generated() {
    let cases = finished(switch_runs());
    let shapes: Vec<&str> = cases.iter().filter_map(|c| c.get("shape")).collect();
    for wanted in
        ["one-run", "several-runs", "runs-and-singles", "edge-run", "classifier", "look-alike-arms"]
    {
        assert!(shapes.contains(&wanted), "no case for {wanted}");
    }
}

#[test]
fn a_run_really_is_a_stretch_of_labels_going_to_one_arm() {
    let cases = finished(switch_runs());
    let long = cases
        .iter()
        .find(|c| c.get("shape") == Some("one-run") && c.get("variant") == Some("100"))
        .unwrap();
    assert_eq!(long.source.matches("    case ").count(), 100);
    assert_eq!(long.source.matches("return 1;").count(), 1);
    assert_eq!(long.output, "100\n");
}

#[test]
fn a_run_at_the_edge_reaches_the_last_value_of_its_type() {
    let cases = finished(switch_runs());
    let top = cases.iter().find(|c| c.get("variant") == Some("u32-top")).unwrap();
    assert!(top.source.contains("case 4294967295u:"), "{}", top.source);
    let bottom = cases.iter().find(|c| c.get("variant") == Some("i32-bottom")).unwrap();
    assert!(bottom.source.contains("case (-2147483647 - 1):"), "{}", bottom.source);
    assert_eq!(top.output, "3\n");
    assert_eq!(bottom.output, "3\n");
}

#[test]
fn the_classifier_sends_sixty_five_labels_to_four_arms() {
    for variant in ["char", "unsigned-char"] {
        let cases = finished(switch_runs());
        let case = cases
            .iter()
            .find(|c| c.get("shape") == Some("classifier") && c.get("variant") == Some(variant))
            .unwrap();
        assert_eq!(case.source.matches("    case ").count(), 65);
        assert!(case.source.contains("case 'z':"));
        assert!(case.source.contains("case '\\t':"));
    }
}

#[test]
fn the_classifier_total_counts_each_kind_of_character() {
    // 38 lower case letters, 2 capitals, 6 digits, 12 spaces, tabs and newlines, and the
    // punctuation, which goes to the default.
    let cases = finished(switch_runs());
    let case = cases.iter().find(|c| c.get("variant") == Some("char")).unwrap();
    assert_eq!(case.output, format!("{}\n", 38 + 2 * 2 + 3 * 6 + 4 * 12));
    assert!(case.source.contains("dogs.\\tTwice, at 07:45.\\n\";"));
}

#[test]
fn the_look_alike_arms_each_give_a_different_answer() {
    let cases = finished(switch_runs());
    let case = cases.iter().find(|c| c.get("shape") == Some("look-alike-arms")).unwrap();
    for step in 1..=5 {
        assert!(case.source.contains(&format!("out = value + {step};")));
    }
    assert_eq!(case.output, "75\n");
}

#[test]
fn the_mixed_switch_answers_runs_singles_and_holes() {
    assert_eq!(mixed_arm(9), 0);
    assert_eq!(mixed_arm(10), 1);
    assert_eq!(mixed_arm(45), 2);
    assert_eq!(mixed_arm(311), 3);
    assert_eq!(mixed_arm(1500), 7);
    assert_eq!(mixed_arm(4001), 0);
    let cases = finished(switch_runs());
    let mixed = cases.iter().find(|c| c.get("shape") == Some("runs-and-singles")).unwrap();
    assert_eq!(mixed.output, "54\n");
    assert!(mixed.source.contains("static const int probes[] = { 9, 10, 11, 14, 15, 16, 39,"));
}

#[test]
fn several_runs_add_up_each_arm_eight_times() {
    let cases = finished(switch_runs());
    let four = cases
        .iter()
        .find(|c| c.get("shape") == Some("several-runs") && c.get("variant") == Some("4"))
        .unwrap();
    assert_eq!(four.output, "80\n");
    assert!(four.source.contains("    case 41:\n        return 4;"));
}

#[test]
fn a_division_case_covers_every_width_sign_and_divisor() {
    let mut cases = finished(division());
    cases.extend(finished(exact_division()));
    assert_eq!(cases.len(), (10 * 3 + 5) * 2 + 2);
    for case in &cases {
        let divisor = case.get("divisor").expect("a divisor");
        if divisor == "minus-7" {
            assert!(case.source.contains("(-7)"), "{:?}", case.axes);
            assert!(case.get("type").is_some_and(|ty| ty.starts_with('i')), "{:?}", case.axes);
        }
    }
}

#[test]
fn a_division_answer_is_what_the_type_itself_gives() {
    let find = |name: &str| dividends().into_iter().find(|one| one.name() == name).expect(name);
    let mut state = DIVISION_SEED;
    let (mut narrow, mut signed, mut wide) = (0u64, 0u64, 0u64);
    for _ in 0..DIVISION_STREAM {
        state = next_state(state);
        narrow = narrow.wrapping_add(u64::from((state >> 33) as u16 / 10));
        signed = signed.wrapping_add(i64::from((state >> 32) as u32 as i32 % -7) as u64);
        wide = wide.wrapping_add(state / 7);
    }
    let rounds = u64::from(DIVISION_ROUNDS);
    assert_eq!(divided(find("u16"), 10, false), narrow.wrapping_mul(rounds));
    assert_eq!(divided(find("i32"), -7, true), signed.wrapping_mul(rounds));
    assert_eq!(divided(find("u64"), 7, false), wide.wrapping_mul(rounds));
}

#[test]
fn a_narrow_signed_dividend_is_read_with_its_sign() {
    let state: u64 = 0xffff_ffff_ffff_ffff;
    assert_eq!(Dividend::I8.value(state), -1);
    assert_eq!(Dividend::U8.value(state), 255);
    assert_eq!(Dividend::I32.value(state), -1);
    assert_eq!(Dividend::U32Widened.value(state), 4_294_967_295);
    assert_eq!(Dividend::I64.value(state), -1);
    assert_eq!(Dividend::U64.value(state), 18_446_744_073_709_551_615);
}

#[test]
fn a_pointer_subtraction_case_divides_by_the_structure_size() {
    let cases = finished(exact_division());
    assert_eq!(cases[0].get("divisor"), Some("12"));
    assert!(cases[0].source.contains("static struct { char bytes[12]; } items[1024];"));
    assert_eq!(cases[0].output, cases[1].output, "the answer counts elements, not bytes");
}
