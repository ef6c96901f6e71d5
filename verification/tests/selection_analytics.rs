use geoviewer::analytics::agreed_status;
use geoviewer::analytics::analysis_report;
use geoviewer::analytics::AttemptFacts;
use geoviewer::analytics::MaterialFacts;
use geoviewer::analytics::PlanFacts;
use geoviewer::analytics::check_pushdown;
use geoviewer::analytics::clamp_limit;
use geoviewer::analytics::comparing_status;
use geoviewer::analytics::failure_status;
use geoviewer::analytics::is_building_class;
use geoviewer::analytics::job_outcome;
use geoviewer::analytics::AnalysisPanel;
use geoviewer::analytics::PanelAction;
use geoviewer::analytics::ScanTally;
use geoviewer::selection::feature_name;
use geoviewer::selection::hit_field;
use geoviewer::selection::is_map_click;
use geoviewer::selection::selection_report;
use geoviewer::selection::selection_status;
use geoviewer::selection::tolerance_status;
use geoviewer::selection::toggles_selection;
use geoviewer::selection::HitFieldError;
use geoviewer::selection::HitLine;

#[test]
fn feature_names_skip_blank_attributes() {
    let c = vec![None, Some("   ".to_owned()), Some("Paris".to_owned()), Some("X".to_owned())];
    assert_eq!(feature_name(&c), "Paris");
    assert_eq!(feature_name(&vec![None, Some("\t".to_owned())]), "-");
    assert_eq!(feature_name(&vec![]), "-");
}

#[test]
fn selection_report_lists_hits_and_signals() {
    let hits = vec![HitLine { layer: "Cities".to_owned(), feature: "12".to_owned(), name: "A&B".to_owned() }];
    let signals = vec!["0.500s  selectionChanged(1)".to_owned()];
    assert_eq!(
        selection_report(&hits, &signals),
        "<pre>Selected: 1\nClick: add | Ctrl+Click: toggle\n\nSelection set\n1. Cities | Feature 12 | A&amp;B\n\nselectionChanged(int count) log\nElapsed time since opening\n0.500s  selectionChanged(1)\n</pre>"
    );
    assert_eq!(
        selection_report(&vec![], &vec![]),
        "<pre>Selected: 0\nClick: add | Ctrl+Click: toggle\n\nSelection set\nNo selected features.\n\nselectionChanged(int count) log\nElapsed time since opening\n</pre>"
    );
}

#[test]
fn selection_and_tolerance_texts() {
    assert_eq!(selection_status(4), "Selected: 4 | Signal: selectionChanged(int count)");
    assert_eq!(tolerance_status(2, "States"), "2 hit(s) | Selected: States");
}

#[test]
fn clicks_and_modifiers() {
    assert!(is_map_click(20, 2, 1));
    assert!(!is_map_click(20, 1, 1));
    assert!(toggles_selection(0x0400_0000));
    assert!(toggles_selection(0x0600_0000));
    assert!(!toggles_selection(0x0200_0000));
}

#[test]
fn hit_fields() {
    assert_eq!(hit_field(Some(42)), Ok(42));
    assert_eq!(hit_field(None), Err(HitFieldError::Missing));
    assert_eq!(hit_field(Some(1i64 << 40)), Err(HitFieldError::OutOfRange));
}

#[test]
fn building_classes_and_limits() {
    assert!(is_building_class("house"));
    assert!(!is_building_class("garage"));
    assert_eq!(clamp_limit(0), 1);
    assert_eq!(clamp_limit(500), 500);
    assert_eq!(clamp_limit(2_000_000), 100000);
}

#[test]
fn the_tally_stops_counting_at_the_limit() {
    let mut t = ScanTally::new(2);
    assert!(t.absorb_page(100, &vec![true; 4096]));
    assert_eq!(t.matched, 2);
    assert_eq!(t.offset, 4096);
    assert!(!t.absorb_page(50, &vec![false, true]));
    assert_eq!(t.matched, 2);
    assert_eq!(t.offset, 4098);
    assert_eq!(t.transferred, 150);
}

#[test]
fn paging_does_not_change_the_count() {
    let rows: Vec<bool> = (0..10).map(|i| i % 3 != 1).collect();
    let mut paged = ScanTally::new(5);
    paged.absorb_page(10, &rows[..4].to_vec());
    paged.absorb_page(10, &rows[4..].to_vec());
    let mut whole = ScanTally::new(5);
    whole.absorb_page(20, &rows);
    assert_eq!(paged, whole);
    assert_eq!(whole.matched, 5);
}

#[test]
fn the_tally_counts_matches_below_the_limit() {
    let mut t = ScanTally::new(10);
    assert!(!t.absorb_page(7, &vec![true, false, true]));
    assert_eq!(t.matched, 2);
}

#[test]
fn pushdown_must_agree() {
    assert_eq!(check_pushdown(3, 3), Ok(()));
    assert_eq!(check_pushdown(3, 4), Err("Filter mismatch: Rust=3, DuckDB=4".to_owned()));
    assert_eq!(comparing_status("house"), "Comparing class 'house': full dataset transfer and filtered query...");
    assert_eq!(agreed_status(12, "house"), "12 buildings (house); both filter results agree");
}

#[test]
fn the_analysis_panel() {
    let mut p = AnalysisPanel::new();
    assert_eq!(p.control(1, 0, "garage"), None);
    assert_eq!(p.class, "apartments");
    p.control(1, 0, "commercial");
    assert_eq!(p.class, "commercial");
    p.control(2, -5, "");
    assert_eq!(p.limit, 1);
    p.control(3, 0, "");
    assert!(p.take_start());
    assert!(!p.take_start());
    p.job_started(true);
    assert_eq!(p.control(4, 0, ""), Some(PanelAction::Cancel));
    p.control(3, 0, "");
    assert!(!p.take_start());
    p.job_finished();
    assert_eq!(p.control(4, 0, ""), None);
    assert_eq!(p.running_text(), "Running analysis for 'commercial' (maximum 1)...");
    assert_eq!(p.done_status(5), "5 filtered buildings (commercial)");
}

#[test]
fn job_outcomes() {
    assert_eq!(job_outcome(Some(true), Some(true), None), Err("Analysis cancelled".to_owned()));
    assert_eq!(job_outcome(None, Some(false), Some("disk full")), Err("disk full".to_owned()));
    assert_eq!(job_outcome(None, None, None), Err("Analysis failed".to_owned()));
    assert_eq!(job_outcome(Some(false), Some(true), None), Ok(()));
    assert_eq!(failure_status("Analysis failed", "timeout"), "Analysis failed: timeout");
}

#[test]
fn analysis_reports_list_plan_attempts_and_materialization() {
    let plan = PlanFacts {
        backend: Some("DuckDB".to_owned()),
        predicate_pushdown: true,
        projection_pushdown: false,
        explanation: None,
        attempts: Some(vec![
            AttemptFacts { backend: None, succeeded: false, elapsed: "3".to_owned(), message: Some("busy".to_owned()) },
            AttemptFacts { backend: Some("DuckDB".to_owned()), succeeded: true, elapsed: "12".to_owned(), message: None },
        ]),
    };
    let head = "Building class: house\nMaximum results: 25\nBBOX: 18.04, 59.30, 18.10, 59.35\n\nANALYSIS PLAN\nRequested backend: Auto\nSelected backend: DuckDB\nPredicate pushdown: yes\nProjection pushdown: no\n\n\n\nEXECUTION ATTEMPTS\nUnknown: failed (3 ms) busy\nDuckDB: success (12 ms) \n";
    assert_eq!(analysis_report("house", 25, &plan, None), head);
    let material = MaterialFacts {
        source_rows: "40".to_owned(),
        features: "25".to_owned(),
        skipped: "null".to_owned(),
        warnings: Some(vec![Some("clipped".to_owned()), None]),
    };
    let full = format!("{head}\nMATERIALIZATION\nSource rows: 40\nLayer features: 25\nSkipped: null\nclipped\n\n");
    assert_eq!(analysis_report("house", 25, &plan, Some(&material)), full);
}
