use corpus_gen::facets::{Batch, backend, global, interproc, local, loops, runtime};

fn sizes(batches: &[Batch]) -> Vec<usize> {
    batches
        .iter()
        .map(|batch| match batch {
            Batch::Single { cases } => cases.len(),
            Batch::Linked { linked } => linked.len(),
        })
        .collect()
}

#[test]
fn every_phase_builds_one_batch_per_facet_and_no_batch_is_empty() {
    let phases = [
        (backend::generate(), 27),
        (interproc::generate(), 13),
        (loops::generate(), 11),
        (local::generate(), 4),
        (global::generate(), 12),
        (runtime::generate(), 3),
    ];
    for (batches, facets) in &phases {
        assert_eq!(batches.len(), *facets);
        assert!(sizes(batches).iter().all(|&n| n > 0));
    }
}

#[test]
fn the_interprocedural_phase_links_the_two_batches_whose_callee_is_elsewhere() {
    let batches = interproc::generate();
    let linked: Vec<usize> = batches
        .iter()
        .enumerate()
        .filter(|(_, batch)| matches!(batch, Batch::Linked { .. }))
        .map(|(at, _)| at)
        .collect();
    assert_eq!(linked, vec![7, 12]);
    assert_eq!(sizes(&batches), vec![36, 36, 5, 28, 36, 44, 36, 32, 9, 4, 24, 24, 12]);
}

#[test]
fn every_program_of_the_runtime_phase_prints_something() {
    for batch in runtime::generate() {
        let Batch::Single { cases } = batch else { panic!("a runtime batch is never linked") };
        for case in cases {
            let (_, output) = case.program.finish();
            assert!(!output.is_empty());
        }
    }
}

#[test]
fn the_loop_phase_walks_its_facets_in_order() {
    let batches = loops::generate();
    assert_eq!(sizes(&batches), vec![32, 56, 32, 10, 64, 64, 64, 24, 64, 64, 48]);
}
