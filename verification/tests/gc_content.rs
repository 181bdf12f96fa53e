use gc_content::accumulator::GcAccumulator;
use gc_content::calculator::GcContent;
use gc_content::calculator::compute;
use gc_content::columnar::StringColumn;
use gc_content::columnar::gc_content_of_column;
use gc_content::columnar::update_from_column;

/// Renders a composition as the percentage the engine would emit:
/// `None` for the undefined case.
fn percent(c: GcContent) -> Option<f64> {
    match c {
        GcContent::Undefined => None,
        GcContent::Ratio { gc, total } => Some(gc as f64 / total as f64 * 100.0),
    }
}

fn column(rows: Vec<Option<&str>>) -> StringColumn {
    StringColumn::from_rows(rows.into_iter().map(|r| r.map(str::to_string)).collect())
}

#[test]
fn all_gc_is_hundred_percent() {
    assert_eq!(compute(b"G"), GcContent::Ratio { gc: 1, total: 1 });
    assert_eq!(compute(b"GgCc"), GcContent::Ratio { gc: 4, total: 4 });
    assert_eq!(percent(compute(b"GCGCGC")), Some(100.0));
}

#[test]
fn all_other_is_zero_percent_not_undefined() {
    assert_eq!(compute(b"AaTt"), GcContent::Ratio { gc: 0, total: 4 });
    assert_eq!(percent(compute(b"ATAT")), Some(0.0));
    assert_ne!(compute(b"ATAT"), GcContent::Undefined);
    // unrecognized bytes count as informative non-GC content
    assert_eq!(compute(b"XY-Z"), GcContent::Ratio { gc: 0, total: 4 });
}

#[test]
fn all_ambiguous_is_undefined() {
    assert_eq!(compute(b"NnNn"), GcContent::Undefined);
    assert_eq!(compute(b""), GcContent::Undefined);
    assert_eq!(compute(b"\n\n"), GcContent::Undefined);
    assert_eq!(percent(compute(b"NNN")), None);
    assert_ne!(compute(b"NNN"), compute(b"AT"));
}

#[test]
fn separators_do_not_affect_the_result() {
    assert_eq!(compute(b"GC\nAT"), compute(b"GCAT"));
    assert_eq!(compute(b"\nG\nC\n"), compute(b"GC"));
}

#[test]
fn case_does_not_affect_the_result() {
    assert_eq!(compute(b"gcat"), compute(b"GCAT"));
    assert_eq!(compute(b"gAtTaCa"), compute(b"GATTACA"));
}

#[test]
fn mixed_sequence_exact_ratio() {
    // GATTACA: G, C are GC-class; seven informative bytes, two GC
    assert_eq!(compute(b"GATTACA"), GcContent::Ratio { gc: 2, total: 7 });
}

#[test]
fn scalar_adapter_propagates_nulls() {
    let col = column(vec![Some("GC"), None, Some("AT"), None]);
    let out = gc_content_of_column(&col);
    assert_eq!(out.len(), 4);
    assert_eq!(out[0], Some(GcContent::Ratio { gc: 2, total: 2 }));
    assert_eq!(out[1], None);
    assert_eq!(out[2], Some(GcContent::Ratio { gc: 0, total: 2 }));
    assert_eq!(out[3], None);

    // a null stays null whatever its neighbours hold
    let col2 = column(vec![Some("NNNN"), None, Some("gggg")]);
    let out2 = gc_content_of_column(&col2);
    assert_eq!(out2[1], None);
    assert_eq!(out2[0], Some(GcContent::Undefined));
    assert_eq!(out2[2], Some(GcContent::Ratio { gc: 4, total: 4 }));
}

#[test]
fn scalar_adapter_empty_column() {
    let col = column(vec![]);
    assert_eq!(gc_content_of_column(&col), Vec::<Option<GcContent>>::new());
}

#[test]
fn end_to_end_batch() {
    let col = column(vec![Some("GCGCGC"), None, Some("ATATAT"), Some("GATTACA")]);
    let out: Vec<Option<f64>> =
        gc_content_of_column(&col).into_iter().map(|r| r.and_then(percent)).collect();
    // GATTACA holds one G and one C among seven informative bytes
    assert_eq!(out, vec![Some(100.0), None, Some(0.0), Some(2.0 / 7.0 * 100.0)]);
}

#[test]
fn aggregate_counts_and_finalize() {
    let mut acc = GcAccumulator::new();
    assert!(acc.try_update(b"GC\nAT"));
    assert!(acc.try_update(b"NNN"));
    assert_eq!(acc.gc_value(), 2);
    assert_eq!(acc.total_value(), 4);
    assert_eq!(acc.finalize(), GcContent::Ratio { gc: 2, total: 4 });
}

#[test]
fn aggregate_of_nothing_is_undefined() {
    let acc = GcAccumulator::new();
    assert_eq!(acc.finalize(), GcContent::Undefined);

    // feeding only ambiguous bytes leaves the total at zero
    let mut acc = GcAccumulator::new();
    assert!(acc.try_update(b"NnN"));
    assert_eq!(acc.finalize(), GcContent::Undefined);
}

#[test]
fn aggregate_skips_nulls() {
    let mut acc = GcAccumulator::new();
    assert!(acc.update_option(Some(b"GC".as_slice())));
    assert!(acc.update_option(None));
    assert!(acc.update_option(Some(b"AT".as_slice())));
    assert_eq!(acc.finalize(), GcContent::Ratio { gc: 2, total: 4 });
}

#[test]
fn merge_matches_feeding_everything_to_one_accumulator() {
    let inputs: [&[u8]; 4] = [b"GC", b"AAAA", b"NN", b"GATTACA"];

    let mut whole = GcAccumulator::new();
    for s in inputs {
        assert!(whole.try_update(s));
    }

    // partition {GC, AAAA} | {NN, GATTACA}
    let mut left = GcAccumulator::new();
    assert!(left.try_update(b"GC"));
    assert!(left.try_update(b"AAAA"));
    let mut right = GcAccumulator::new();
    assert!(right.try_update(b"NN"));
    assert!(right.try_update(b"GATTACA"));

    let mut merged = GcAccumulator::new();
    merged.merge(&left);
    merged.merge(&right);
    assert_eq!(merged.gc_value(), whole.gc_value());
    assert_eq!(merged.total_value(), whole.total_value());

    // merging in the other order gives the same state
    let mut swapped = GcAccumulator::new();
    swapped.merge(&right);
    swapped.merge(&left);
    assert_eq!(swapped.gc_value(), whole.gc_value());
    assert_eq!(swapped.total_value(), whole.total_value());

    assert_eq!(merged.finalize(), whole.finalize());
}

#[test]
fn aggregate_is_not_the_average_of_scalars() {
    // "GC" alone is 100%, "AAAA" alone is 0%, but together they hold
    // two GC bytes among six informative ones.
    let mut acc = GcAccumulator::new();
    assert!(acc.try_update(b"GC"));
    assert!(acc.try_update(b"AAAA"));
    let agg = acc.finalize();
    assert_eq!(agg, GcContent::Ratio { gc: 2, total: 6 });
    let p = percent(agg).unwrap();
    assert!((p - 100.0 * 2.0 / 6.0).abs() < 1e-12);
    assert!((p - 50.0).abs() > 15.0);
}

#[test]
fn aggregate_equals_compute_of_concatenation() {
    let mut acc = GcAccumulator::new();
    assert!(acc.try_update(b"GC"));
    assert!(acc.try_update(b"NATN"));
    assert_eq!(acc.finalize(), compute(b"GCNATN"));
}

#[test]
fn aggregate_over_a_column_skips_nulls() {
    let mut acc = GcAccumulator::new();
    let col = column(vec![Some("GC"), None, Some("AAAA"), Some("NN")]);
    assert!(update_from_column(&mut acc, &col));
    assert_eq!(acc.gc_value(), 2);
    assert_eq!(acc.total_value(), 6);

    // a second batch keeps accumulating
    let col2 = column(vec![Some("gg"), None]);
    assert!(update_from_column(&mut acc, &col2));
    assert_eq!(acc.finalize(), GcContent::Ratio { gc: 4, total: 8 });
}

#[test]
fn column_and_per_row_results_agree() {
    let rows = vec![Some("GCgc"), Some("NnNn"), None, Some("A\nC")];
    let col = column(rows.clone());
    let out = gc_content_of_column(&col);
    for (row, got) in rows.iter().zip(out.iter()) {
        match row {
            None => assert_eq!(*got, None),
            Some(s) => assert_eq!(*got, Some(compute(s.as_bytes()))),
        }
    }
}
