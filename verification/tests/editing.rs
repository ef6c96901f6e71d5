use geoviewer::editing::check_save;
use geoviewer::editing::edit_kind;
use geoviewer::editing::extra_layout;
use geoviewer::editing::history_continues;
use geoviewer::editing::sample_button_list;
use geoviewer::editing::sample_extra_list;
use geoviewer::editing::ExtraControl;
use geoviewer::editing::ExtraKind;
use geoviewer::editing::site_attributes;
use geoviewer::editing::site_name_text;
use geoviewer::editing::ControlChange;
use geoviewer::editing::EditCommand;
use geoviewer::editing::EditError;
use geoviewer::editing::EditSample;
use geoviewer::editing::EditState;
use geoviewer::editing::Placement;
use geoviewer::editing::StatusFacts;
use geoviewer::Tool;

fn facts() -> StatusFacts {
    StatusFacts {
        editing: true,
        dirty: false,
        count: 3,
        selection: 0,
        undo: false,
        redo: false,
        can_edit_layer: true,
        can_edit_selected: false,
        can_move_selected: false,
        red_count: 0,
        blue_count: 0,
        attributes: String::new(),
    }
}

#[test]
fn samples_and_kinds_by_name() {
    assert_eq!(EditSample::from_name("SnappingEnabled"), EditSample::SnappingEnabled);
    assert_eq!(EditSample::from_name("Whatever"), EditSample::Other);
    assert_eq!(edit_kind("SnappingEnabled"), 3);
    assert_eq!(edit_kind("AddPolylineInteractive"), 3);
    assert_eq!(edit_kind("AddPolygonProgrammatic"), 5);
    assert_eq!(edit_kind("InsertVertex"), 5);
    assert_eq!(edit_kind("EditSession"), 1);
}

#[test]
fn buttons_become_commands() {
    let mut s = EditState::new("EditSession");
    assert_eq!(s.command(1), Ok(EditCommand::Begin { layer: 0 }));
    assert_eq!(s.command(9), Ok(EditCommand::Draw { layer: 0, tool: Tool::AddPoint }));
    assert_eq!(s.command(24), Ok(EditCommand::History { layer: 0, undo: false, times: 5 }));
    assert_eq!(s.command(99), Err(EditError::UnknownCommand));
    assert_eq!(s.command(27), Ok(EditCommand::Activate { layer: 1 }));
    assert_eq!(s.active(), 1);
    assert_eq!(s.command(3), Ok(EditCommand::Commit { layer: 1 }));
}

#[test]
fn controls_set_indices_and_attributes() {
    let mut s = EditState::new("InsertVertex");
    assert_eq!(s.control(102, 3, ""), Ok(ControlChange::Part));
    assert_eq!(s.control(18, 0, ""), Ok(ControlChange::Command { command: EditCommand::InsertVertex { part: 3, vertex: 2 } }));
    assert_eq!(s.control(106, 0, "Depot"), Ok(ControlChange::Name));
    assert_eq!(s.attributes().name, "Depot");
    assert_eq!(s.control(109, 0, "On"), Ok(ControlChange::Snapping { on: true }));
    assert_eq!(s.control(109, 0, "Off"), Ok(ControlChange::Snapping { on: false }));
}

#[test]
fn session_signals_are_logged_once_known() {
    let mut s = EditState::new("EditSessionSignals");
    assert_eq!(s.signal(7, 0), Some("layerEditSessionStarted | layer 0".to_owned()));
    assert_eq!(s.signal(3, 0), None);
    let mut other = EditState::new("EditSession");
    assert_eq!(other.signal(8, 1), None);
}

#[test]
fn status_line_lists_the_layer_state() {
    let mut s = EditState::new("EditSession");
    assert_eq!(
        s.status(&facts()),
        "Layer 0 | Editing: true | Dirty: false | Features: 3 | Selected: 0 | Undo: false | Redo: false"
    );
    s.set_message("saved");
    let line = s.status(&facts());
    assert!(line.ends_with(" | Redo: false | saved"));
    assert!(s.accept_status(&line));
    assert!(!s.accept_status(&line));
}

#[test]
fn generated_points_walk_the_grid() {
    let mut s = EditState::new("AddPointProgrammatic");
    assert_eq!(s.placement(), Placement::GridPoint { col: 0, row: 0 });
    s.record_added();
    assert_eq!(s.placement(), Placement::GridPoint { col: 7, row: 11 });
    let lines = EditState::new("AddPolylineProgrammatic");
    assert_eq!(lines.placement(), Placement::Line { col: 0, row: 0 });
}

#[test]
fn reset_restarts_generation() {
    let mut s = EditState::new("MultiLayerEdit");
    s.record_added();
    let plan = s.reset();
    assert!(plan.two_layers);
    assert_eq!(s.active(), 1);
    assert_eq!(s.serial(), 0);
}

#[test]
fn site_texts() {
    assert_eq!(site_name_text(12), "Site 12");
    let a = site_attributes(1);
    assert_eq!(a.name, "Site 2");
    assert_eq!(a.category, "Even");
    assert_eq!(a.score, 20);
    assert_eq!(a.priority, 2);
}

#[test]
fn failure_messages() {
    assert_eq!(EditCommand::AddFeature.failure_message(), "Cannot add geometry");
    assert_eq!(EditCommand::Reset.failure_message(), "Command failed");
}

#[test]
fn extra_controls_are_laid_out_by_id() {
    let snapping = extra_layout(ExtraControl::SnappingChoice);
    assert_eq!((snapping.id, snapping.kind, snapping.label, snapping.text), (109, ExtraKind::Combo, "Snapping", "On"));
    assert_eq!(snapping.options, vec!["On", "Off"]);
    let tolerance = extra_layout(ExtraControl::SnapTolerance);
    assert_eq!(tolerance.id, 110);
    assert_eq!(tolerance.label, "Tolerance (pixels)");
    assert_eq!(tolerance.kind, ExtraKind::Number { minimum: 100, maximum: 6400, value: 1400, whole: true });
    let part = extra_layout(ExtraControl::PartIndex);
    assert_eq!((part.id, part.label), (102, "Part index"));
    assert_eq!(part.kind, ExtraKind::Number { minimum: 0, maximum: 0, value: 0, whole: true });
    let vertex = extra_layout(ExtraControl::VertexIndex);
    assert_eq!(vertex.kind, ExtraKind::Number { minimum: 0, maximum: 10000, value: 200, whole: true });
    let x = extra_layout(ExtraControl::NewVertexX);
    assert_eq!(x.kind, ExtraKind::Number { minimum: -18000, maximum: 18000, value: -10066, whole: false });
}

#[test]
fn delete_vertex_panel_ids() {
    let s = EditSample::from_name("DeleteVertex");
    let mut ids: Vec<i32> = sample_button_list(s).iter().map(|b| b.id).collect();
    ids.extend(sample_extra_list(s).into_iter().map(|c| extra_layout(c).id));
    assert_eq!(ids, vec![8, 11, 20, 19, 5, 7, 6, 102, 103]);
}

#[test]
fn edit_refusals_and_history() {
    assert_eq!(EditError::UnknownCommand.message(), "Unknown edit command");
    assert!(history_continues(0, 5, true));
    assert!(!history_continues(0, 5, false));
    assert!(!history_continues(4, 5, true));
    assert!(!history_continues(0, 1, true));
    assert_eq!(check_save(0), Err("Add points before saving"));
    assert_eq!(check_save(2), Ok(()));
    let s = EditState::new("AddPointProgrammatic");
    assert_eq!(s.add_placement(false), Err("Choose Begin Edit first"));
    assert_eq!(s.add_placement(true), Ok(s.placement()));
}
