use corpus_gen::facets::memory::{stack_slots, store_fold, store_fold_constant};
use corpus_gen::facets::Case;

struct Done {
    id: String,
    ty: Option<String>,
    shape: String,
    source: String,
    output: String,
}

fn finished(cases: Vec<Case>) -> Vec<Done> {
    cases
        .into_iter()
        .map(|case| {
            let get = |name: &str| {
                case.axes.iter().find(|(n, _)| n == name).map(|(_, v)| v.clone())
            };
            let ty = get("type");
            let shape = get("shape").unwrap();
            let id = format!("{}/{}", ty.clone().unwrap_or_default(), shape);
            let (source, output) = case.program.finish();
            Done { id, ty, shape, source, output }
        })
        .collect()
}

#[test]
fn every_store_fold_case_prints_the_number_its_shape_fixes() {
    let cases = finished(store_fold());
    assert!(!cases.is_empty());
    for case in &cases {
        let wanted = match case.shape.as_str() {
            "subtract" => "3\n",
            "subtract-reversed" => "17\n",
            "bitwise-and" => "8\n",
            "two-readers" => "21\n",
            "answer-read" => "26\n",
            "store-between" => "18\n",
            "other-place" | "other-offset" | "index-written-between" => "21\n",
            "frame-slots" => "15\n",
            _ => "13\n",
        };
        assert_eq!(case.output, wanted, "{}", case.id);
    }
}

#[test]
fn the_store_fold_shapes_the_pass_has_to_refuse_are_all_present() {
    let cases = finished(store_fold());
    let shapes: Vec<&str> = cases.iter().map(|case| case.shape.as_str()).collect();
    for wanted in [
        "subtract-reversed",
        "two-readers",
        "answer-read",
        "store-between",
        "call-between",
        "other-place",
        "other-offset",
        "index-written-between",
        "frame-slots",
    ] {
        assert!(shapes.contains(&wanted), "no case for {wanted}");
    }
}

#[test]
fn the_store_fold_shapes_cover_every_operation_that_has_a_memory_destination() {
    let cases = finished(store_fold());
    let shapes: Vec<&str> = cases.iter().map(|case| case.shape.as_str()).collect();
    for wanted in ["add", "subtract", "bitwise-and", "bitwise-or", "exclusive-or"] {
        assert!(shapes.contains(&wanted), "no case for {wanted}");
    }
    for case in &cases {
        assert!(!case.source.contains("*="), "{} multiplies", case.id);
    }
}

#[test]
fn both_arrangements_of_the_store_fold_subtraction_are_present_and_differ() {
    let cases = finished(store_fold());
    let one = cases.iter().find(|case| case.shape == "subtract").expect("no subtract case");
    let other =
        cases.iter().find(|case| case.shape == "subtract-reversed").expect("no reversed case");
    assert!(one.source.contains("buffer[at] -= seed;"), "{}", one.id);
    assert!(other.source.contains("- buffer[at];"), "{}", other.id);
    assert_ne!(one.output, other.output);
}

#[test]
fn every_store_fold_case_with_an_array_reads_the_answer_back_at_an_index_nothing_knows() {
    for case in finished(store_fold()) {
        if case.shape == "frame-slots" {
            continue;
        }
        assert!(case.source.contains("[back]"), "{}", case.id);
        assert!(case.source.contains("back = back_in;"), "{}", case.id);
        assert!(case.source.contains("for (int i = 0; i < 8; i++) {"), "{}", case.id);
    }
}

#[test]
fn the_frame_slots_shape_puts_both_locals_in_the_frame() {
    for case in finished(store_fold()) {
        if case.shape != "frame-slots" {
            continue;
        }
        assert!(case.source.contains("hold = &one;"), "{}", case.id);
        assert!(case.source.contains("hold = &two;"), "{}", case.id);
        assert!(case.source.contains("*volatile hold;"), "{}", case.id);
        assert!(case.source.contains("two = one + seed;"), "{}", case.id);
    }
}

#[test]
fn every_store_fold_constant_case_prints_the_number_its_shape_fixes() {
    let cases = finished(store_fold_constant());
    assert!(!cases.is_empty());
    for case in &cases {
        let wanted = match case.shape.as_str() {
            "subtract" => "3\n",
            "subtract-reversed" => "12\n",
            "bitwise-and" => "8\n",
            "big-constant" => "4668\n",
            "two-readers" => "21\n",
            "answer-read" => "26\n",
            "store-between" => "18\n",
            "other-place" | "other-offset" | "index-written-between" => "21\n",
            "frame-slots" => "15\n",
            _ => "13\n",
        };
        assert_eq!(case.output, wanted, "{}", case.id);
    }
}

#[test]
fn the_store_fold_constant_shapes_the_walk_has_to_refuse_are_all_present() {
    let cases = finished(store_fold_constant());
    let shapes: Vec<&str> = cases.iter().map(|case| case.shape.as_str()).collect();
    for wanted in [
        "subtract-reversed",
        "two-readers",
        "answer-read",
        "store-between",
        "call-between",
        "other-place",
        "other-offset",
        "index-written-between",
        "frame-slots",
    ] {
        assert!(shapes.contains(&wanted), "no case for {wanted}");
    }
}

#[test]
fn the_store_fold_constant_shapes_cover_every_operation_that_has_a_memory_destination() {
    let cases = finished(store_fold_constant());
    let shapes: Vec<&str> = cases.iter().map(|case| case.shape.as_str()).collect();
    for wanted in ["add", "subtract", "bitwise-and", "bitwise-or", "exclusive-or"] {
        assert!(shapes.contains(&wanted), "no case for {wanted}");
    }
    for case in &cases {
        assert!(!case.source.contains("*="), "{} multiplies", case.id);
    }
}

#[test]
fn every_store_fold_constant_case_works_against_a_number_written_down() {
    for case in finished(store_fold_constant()) {
        for reached in ["+= seed", "-= seed", "|= seed", "&= seed", "^= seed", "+ seed;"] {
            assert!(!case.source.contains(reached), "{} uses {reached}", case.id);
        }
    }
}

#[test]
fn the_store_fold_constant_family_runs_from_a_byte_up_to_eight_of_them() {
    let cases = finished(store_fold_constant());
    let types: Vec<&str> = cases.iter().filter_map(|case| case.ty.as_deref()).collect();
    for wanted in ["i8", "u8", "i16", "u16", "i32", "u32", "i64", "u64"] {
        assert!(types.contains(&wanted), "no case at {wanted}");
    }
    for case in &cases {
        if case.shape == "big-constant" {
            assert_ne!(case.ty.as_deref(), Some("i8"), "{}", case.id);
            assert_ne!(case.ty.as_deref(), Some("u8"), "{}", case.id);
        }
    }
    assert_eq!(cases.len(), 8 * 15 - 2);
}

#[test]
fn the_stack_slot_shapes_cover_both_the_ones_that_may_share_and_the_ones_that_may_not() {
    let cases = finished(stack_slots());
    let shapes: Vec<&str> = cases.iter().map(|case| case.shape.as_str()).collect();
    for wanted in ["two-scopes", "both-at-once", "address-escapes", "wide-alignment"] {
        assert!(shapes.contains(&wanted), "no case for {wanted}");
    }
    let apart = cases.iter().find(|c| c.shape == "two-scopes").unwrap();
    let together = cases.iter().find(|c| c.shape == "both-at-once").unwrap();
    assert_eq!(apart.output, "216\n");
    assert_eq!(together.output, "284\n");
}

#[test]
fn the_escaping_case_reads_its_array_through_the_pointer_it_handed_out() {
    let cases = finished(stack_slots());
    let case = cases.iter().find(|c| c.shape == "address-escapes").unwrap();
    let (before, after) = case.source.split_once("stash(kept);").unwrap();
    assert!(before.contains("kept[i] = seed + i;"), "{}", case.id);
    assert!(!after.contains("kept["), "{}", case.id);
    assert!(after.contains("total += escaped[i];"), "{}", case.id);
    assert_eq!(case.output, "216\n");
}

#[test]
fn the_other_stack_slot_totals_are_the_arrays_added_up() {
    let cases = finished(stack_slots());
    let get = |shape: &str| cases.iter().find(|c| c.shape == shape).unwrap().output.clone();
    assert_eq!(get("wide-alignment"), "216\n");
    assert_eq!(get("spilled-around-a-call"), "200\n");
    assert_eq!(get("scope-in-a-loop"), "468\n");
}
