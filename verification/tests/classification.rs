use geoviewer::classification::apply_button_text;
use geoviewer::classification::field_offered;
use geoviewer::classification::method_index;
use geoviewer::classification::offered_methods;
use geoviewer::classification::panel_control_ids;
use geoviewer::classification::target_index;
use geoviewer::classification::ClassAction;
use geoviewer::classification::ClassError;
use geoviewer::classification::ClassSettings;

#[test]
fn settings_by_sample() {
    let c = ClassSettings::new("CategorizedRenderer");
    assert!(c.categorized);
    assert_eq!(c.field, "STATE");
    assert_eq!(c.classes, 64);
    assert_eq!(c.ramp, "Unique");
    let g = ClassSettings::new("Classification");
    assert!(!g.categorized);
    assert_eq!(g.field, "POPULATION");
    assert_eq!(g.method, 4);
    assert_eq!(g.classes, 15);
    assert_eq!(g.interval, 1_000_000_000);
    let m = ClassSettings::new("ClassificationMethods");
    assert_eq!(m.method, 2);
    assert_eq!(m.classes, 5);
}

#[test]
fn methods_and_targets_by_name() {
    assert_eq!(method_index("Manual"), Some(0));
    assert_eq!(method_index("K-Means Spatial"), Some(10));
    assert_eq!(method_index("Jenks"), None);
    assert_eq!(target_index("Outline width"), Some(3));
    assert_eq!(target_index("Opacity"), None);
}

#[test]
fn switching_the_renderer_resets_field_and_ramp() {
    let mut s = ClassSettings::new("Classification");
    let r = s.change(1, 0, 0, "Categorized", "Classification");
    assert_eq!(r, Ok(ClassAction::Changed { fields_reset: true, interval_reset: false, then_apply: false }));
    assert!(s.categorized);
    assert_eq!(s.field, "STATEFP");
    assert_eq!(s.ramp, "Unique");
}

#[test]
fn a_deviation_method_brings_a_large_interval_back_to_one() {
    let mut s = ClassSettings::new("Classification");
    let r = s.change(3, 0, 0, "Standard Deviation", "Classification");
    assert_eq!(r, Ok(ClassAction::Changed { fields_reset: false, interval_reset: true, then_apply: false }));
    assert_eq!(s.method, 6);
    assert_eq!(s.interval, 10000);
    let mut t = ClassSettings::new("GraduatedRenderer");
    let r2 = t.change(3, 0, 0, "Standard Deviation with Central", "GraduatedRenderer");
    assert_eq!(r2, Ok(ClassAction::Changed { fields_reset: false, interval_reset: false, then_apply: true }));
    assert_eq!(t.interval, 10000);
}

#[test]
fn refused_changes_leave_the_settings() {
    let mut s = ClassSettings::new("Classification");
    assert_eq!(s.change(3, 0, 0, "Jenks", "Classification"), Err(ClassError::InvalidMethod));
    assert_eq!(s.method, 4);
    assert_eq!(s.change(7, 0, 0, "Alpha", "Classification"), Err(ClassError::InvalidTarget));
    assert_eq!(s.target, 0);
    assert_eq!(s.change(42, 0, 0, "", "Classification"), Err(ClassError::UnknownControl));
    assert_eq!(ClassError::UnknownControl.message(), "Unknown classification control");
}

#[test]
fn other_controls() {
    let mut s = ClassSettings::new("GraduatedRenderer");
    assert_eq!(s.change(4, 7, 70000, "", "GraduatedRenderer"), Ok(ClassAction::Changed { fields_reset: false, interval_reset: false, then_apply: true }));
    assert_eq!(s.classes, 7);
    s.change(5, 0, 25000, "", "GraduatedRenderer").unwrap();
    assert_eq!(s.interval, 25000);
    s.change(9, 0, 0, "Discrete", "GraduatedRenderer").unwrap();
    assert_eq!(s.ramp_mode, 1);
    s.change(10, 0, 0, "Yes", "GraduatedRenderer").unwrap();
    assert!(s.reverse);
    assert_eq!(s.change(6, 0, 0, "1, 2", "GraduatedRenderer"), Ok(ClassAction::ReadBreaks { then_apply: true }));
    assert_eq!(s.change(11, 0, 0, "", "GraduatedRenderer"), Ok(ClassAction::Apply));
    assert_eq!(s.change(12, 0, 0, "", "GraduatedRenderer"), Ok(ClassAction::Clear));
    assert_eq!(s.change(13, 0, 0, "", "GraduatedRenderer"), Ok(ClassAction::ZoomToLayer));
}

#[test]
fn enabled_controls_follow_the_method() {
    let s = ClassSettings::new("Classification");
    assert_eq!(s.control_states(), vec![(3, true), (4, true), (5, false), (6, false), (9, true)]);
    let mut m = ClassSettings::new("Classification");
    m.change(3, 0, 0, "Manual", "Classification").unwrap();
    assert_eq!(m.control_states(), vec![(3, true), (4, false), (5, false), (6, true), (9, true)]);
}

#[test]
fn status_texts() {
    let s = ClassSettings::new("Classification");
    assert_eq!(s.applied_status(), "Classification applied: POPULATION / Natural Breaks");
    let c = ClassSettings::new("ClearRenderer");
    assert_eq!(c.applied_status(), "Classification applied: STATE / Categorized");
    assert_eq!(s.failure(), "Classification failed for POPULATION");
}

#[test]
fn panels_by_sample() {
    assert_eq!(panel_control_ids("Classification"), vec![1, 2, 4, 5, 6, 7, 9, 10, 3, 8, 11, 12, 13]);
    assert_eq!(panel_control_ids("ClassificationMethods"), vec![3]);
    assert_eq!(panel_control_ids("ClearRenderer"), vec![11, 12, 13]);
    assert_eq!(panel_control_ids("CategorizedRenderer"), vec![13]);
    assert_eq!(offered_methods("ClassificationMethods"), vec!["Equal Interval", "Quantile", "Standard Deviation"]);
    assert_eq!(offered_methods("Classification").len(), 11);
    assert_eq!(apply_button_text("ClearRenderer"), "Apply Categorized Renderer");
    assert_eq!(apply_button_text("Classification"), "Apply");
}

#[test]
fn fields_offered() {
    assert!(field_offered(true, None));
    assert!(field_offered(false, Some(2)));
    assert!(!field_offered(false, Some(4)));
    assert!(!field_offered(false, None));
}
