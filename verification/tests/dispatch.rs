use corpus_gen::facets::dispatch::{
    AddressedShape, DISPATCHES, STREAM, SwitchShape, addressed_byte, addressed_step,
    dispatch_answer, dispatch_stream, interpreter_answer, interpreter_run, letter_offset, scatter,
    shapes, steps, switch_dispatch, word,
};
use corpus_gen::facets::Case;

/// Every case of the facet, with its axes as plain pairs, its source and its output.
fn finished(cases: Vec<Case>) -> Vec<(Vec<(String, String)>, String, String)> {
    cases
        .into_iter()
        .map(|case| {
            let (source, output) = case.program.finish();
            (case.axes, source, output)
        })
        .collect()
}

fn get<'a>(axes: &'a [(String, String)], name: &str) -> Option<&'a str> {
    axes.iter().find(|(n, _)| n == name).map(|(_, v)| v.as_str())
}

fn shape(name: &str) -> SwitchShape {
    shapes().into_iter().find(|s| s.name() == name).expect(name)
}

#[test]
fn a_value_in_a_hole_goes_to_the_default_and_a_label_gets_its_answer() {
    let holes = shape("holes");
    assert_eq!(dispatch_answer(holes, 0), scatter(0));
    assert_eq!(dispatch_answer(holes, 1), 0);
    assert_eq!(dispatch_answer(holes, 30), scatter(15));
    assert_eq!(dispatch_answer(holes, 31), 0);
    assert_eq!(dispatch_answer(holes, 32), 0);
    let wide = shape("wide-answers");
    assert!(dispatch_answer(wide, 1) > i128::from(i16::MAX));
    let below = shape("negative-answers");
    assert!((i128::from(i8::MIN)..0).contains(&dispatch_answer(below, 2)));
}

#[test]
fn a_masked_switch_has_a_label_for_every_value_the_mask_gives() {
    for shape in shapes().into_iter().filter(|shape| shape.masked()) {
        assert_eq!(shape.labels().count_ones(), 1, "the {} mask leaves a value out", shape.name());
        for value in 0..shape.span() {
            let answer = dispatch_answer(shape, value);
            assert_ne!(answer, 0, "{} at {value} reaches the default", shape.name());
            assert_eq!(answer, dispatch_answer(shape, value & (shape.labels() - 1)));
        }
    }
    let cases = finished(switch_dispatch());
    let masked = cases.iter().find(|c| get(&c.0, "shape") == Some("masked")).expect("masked");
    assert!(masked.1.contains("switch (value & 15)"), "{}", masked.1);
}

#[test]
fn an_address_switch_reads_inside_every_string_it_returns() {
    assert!((0..16).all(|step| word(step).len() >= 4));
    for step in -1..16 {
        assert!(letter_offset(step) + 4 <= 62, "{step}");
    }
    let holes = AddressedShape::NamesWithHoles;
    assert_eq!(addressed_step(holes, 30), Some(15));
    assert_eq!(addressed_step(holes, 31), None);
    assert_eq!(addressed_step(holes, 32), None);
    assert_eq!(addressed_byte(holes, 2, 1), i128::from(b'e'));
    assert_eq!(addressed_byte(holes, 3, 0), i128::from(b'n'));
    let into = AddressedShape::IntoLetters;
    assert_eq!(addressed_byte(into, 0, 0), i128::from(b'J'));
    let cases = finished(switch_dispatch());
    for shape in [AddressedShape::Names, AddressedShape::NamesWithHoles, AddressedShape::IntoLetters]
    {
        let case = cases.iter().find(|c| get(&c.0, "shape") == Some(shape.name()));
        let case = case.unwrap_or_else(|| panic!("no case for {}", shape.name()));
        assert!(case.1.contains("static const char *"), "{}", case.1);
        assert!(case.1.contains("[at & 3]"), "{}", case.1);
    }
}

#[test]
fn every_dispatch_shape_is_generated() {
    let cases = finished(switch_dispatch());
    let names: Vec<&str> = cases.iter().filter_map(|c| get(&c.0, "shape")).collect();
    for wanted in [
        "affine",
        "scattered",
        "constant-arms",
        "below-zero",
        "near-the-edge",
        "shared-default",
        "interpreter",
        "five-labels",
        "six-labels",
        "seven-labels",
        "eight-labels",
        "holes",
        "wide-answers",
        "negative-answers",
        "masked",
        "masked-four",
    ] {
        assert!(names.contains(&wanted), "no case for {wanted}");
    }
    for paired in ["affine", "scattered"] {
        let both = cases
            .iter()
            .filter(|c| get(&c.0, "shape") == Some(paired))
            .filter_map(|c| get(&c.0, "stream"))
            .count();
        assert_eq!(both, 2, "the {paired} shape has nothing to be compared against");
    }
}

#[test]
fn a_dispatch_case_walks_its_stream_a_whole_number_of_times() {
    assert_eq!(STREAM.count_ones(), 1, "the walk masks the index rather than dividing");
    assert_eq!(DISPATCHES % STREAM, 0);
    for (axes, source, _) in finished(switch_dispatch()) {
        assert!(source.contains("count_in = 10240000"), "{axes:?}");
        assert!(source.contains("at & 4095"), "{axes:?}");
    }
}

#[test]
fn the_unpredictable_stream_is_longer_than_a_predictor_remembers() {
    assert!(STREAM >= 4096, "the stream is short enough to be learned");
    for shape in shapes() {
        let stream = dispatch_stream(shape, false);
        assert_eq!(stream.len() as i128, STREAM);
        for period in 1..=64 {
            let repeats = stream.iter().zip(stream.iter().skip(period)).all(|(a, b)| a == b);
            assert!(!repeats, "the {} stream repeats every {period}", shape.name());
        }
    }
}

#[test]
fn every_dispatch_stream_reaches_the_default_and_every_label() {
    for shape in shapes() {
        let stream = dispatch_stream(shape, false);
        for step in 0..shape.labels() {
            let label = shape.base() + step;
            assert!(stream.contains(&label), "the {} stream misses {label}", shape.name());
        }
        if shape.masked() {
            continue;
        }
        let misses = stream.iter().filter(|&&v| v >= shape.base() + shape.labels()).count();
        assert!(misses > 0, "the {} stream never takes the default", shape.name());
    }
}

#[test]
fn the_shape_that_is_not_a_line_really_is_not() {
    let answers: Vec<i128> = (0..16).map(scatter).collect();
    let scale = answers[1] - answers[0];
    let offset = answers[0];
    let holds = answers
        .iter()
        .enumerate()
        .all(|(step, &answer)| scale * step as i128 + offset == answer);
    assert!(!holds, "the negative control is a line after all");
}

#[test]
fn the_answers_near_the_top_of_int_need_arithmetic_that_wraps() {
    let shape = shape("near-the-edge");
    let scale = dispatch_answer(shape, shape.base() + 1) - dispatch_answer(shape, shape.base());
    assert!(scale * shape.base() > i128::from(i32::MAX), "nothing wraps at {scale} times the base");
}

#[test]
fn the_shared_default_label_has_no_arm_of_its_own() {
    let cases = finished(switch_dispatch());
    let case = cases
        .iter()
        .find(|c| get(&c.0, "shape") == Some("shared-default"))
        .expect("the shared-default case");
    assert!(case.1.contains("    case 15:\n    default: return 0;"), "{}", case.1);
}

#[test]
fn no_interpreter_arm_throws_the_accumulator_away() {
    for work in steps() {
        assert!(work.contains("acc"), "{work} does not read the accumulator");
    }
    assert!(!steps().iter().any(|work| work.contains('&')), "an arm masks the accumulator");
}

#[test]
fn the_interpreter_answer_still_depends_on_where_the_loop_started() {
    let from_one = interpreter_run(1);
    assert_ne!(from_one, interpreter_run(2), "the accumulator was thrown away");
    assert_ne!(from_one, interpreter_run(u64::MAX), "the high bits were thrown away");
    assert_eq!(i128::from(from_one), interpreter_answer());
}

#[test]
fn a_dispatch_case_prints_its_pass_total_times_the_passes() {
    let cases = finished(switch_dispatch());
    assert_eq!(cases.len(), 21);
    let affine = &cases[0];
    assert_eq!(get(&affine.0, "stream"), Some("unpredictable"));
    let in_order = &cases[1];
    assert_eq!(get(&in_order.0, "stream"), Some("in-order"));
    // The in-order affine stream counts 7, 8, ... round twenty, so a pass is 204 full rounds
    // of the twenty values and sixteen more from seven, and the answers of a round add to 136.
    let values: Vec<i128> = (0..4096).map(|at| (at + 7) % 20).collect();
    let pass: i128 = values.iter().map(|&v| if v < 16 { v + 1 } else { 0 }).sum();
    assert_eq!(in_order.2, format!("{}\n", pass * 2500));
    assert!(in_order.1.contains("stream[at] = (at + seed) % 20;"));
}

#[test]
fn the_below_zero_shape_adds_its_base_to_the_fill() {
    let cases = finished(switch_dispatch());
    let below = cases.iter().find(|c| get(&c.0, "shape") == Some("below-zero")).unwrap();
    assert!(below.1.contains("stream[at] = -8 + (int)((state >> 16) % 20u);"), "{}", below.1);
    assert!(below.1.contains("    case -8: return 1;"), "{}", below.1);
}

#[test]
fn the_interpreter_case_prints_the_run_from_one() {
    let cases = finished(switch_dispatch());
    let interp = cases.iter().find(|c| get(&c.0, "shape") == Some("interpreter")).unwrap();
    assert_eq!(interp.2, format!("{}\n", interpreter_run(1)));
    assert!(interp.1.contains("    case 3: return ((acc << 3) | (acc >> 61)) ^ operand;"));
}

#[test]
fn a_dispatch_answer_is_defined_far_from_the_labels() {
    assert_eq!(dispatch_answer(SwitchShape::Affine, i128::MAX), 0);
    assert_eq!(dispatch_answer(SwitchShape::Affine, i128::MIN), 0);
    assert_eq!(dispatch_answer(SwitchShape::Holes, i128::MAX - 1), 0);
    assert_eq!(
        dispatch_answer(SwitchShape::Masked, i128::MAX),
        dispatch_answer(SwitchShape::Masked, 15)
    );
}

#[test]
fn an_in_order_stream_counts_round_its_span_from_the_seed() {
    let stream = dispatch_stream(SwitchShape::Holes, true);
    assert_eq!(stream.len() as i128, STREAM);
    for (at, &value) in stream.iter().enumerate() {
        assert_eq!(value, (at as i128 + 7) % 36);
    }
}
