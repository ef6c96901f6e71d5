use geoviewer::events::action_line;
use geoviewer::events::is_busy_event;
use geoviewer::events::layer_command;
use geoviewer::events::layer_file;
use geoviewer::events::layer_name;
use geoviewer::events::load_failure;
use geoviewer::events::signal_line;
use geoviewer::events::signal_name;
use geoviewer::events::LayerCommand;
use geoviewer::labels::check_cities;
use geoviewer::labels::collision_pane;
use geoviewer::labels::collision_status;
use geoviewer::labels::halo_color_of;
use geoviewer::labels::label_patch;
use geoviewer::labels::LabelError;
use geoviewer::labels::LabelPatch;
use geoviewer::labels::LabelSample;

#[test]
fn label_samples_by_name() {
    assert_eq!(LabelSample::from_name("LabelHalo"), Ok(LabelSample::Halo));
    assert_eq!(LabelSample::from_name("LabelCollisionOff"), Ok(LabelSample::CollisionOff));
    assert_eq!(LabelSample::from_name("Labels"), Err(LabelError::UnknownSample));
    assert_eq!(LabelError::UnknownSample.message(), "Unknown label example");
}

#[test]
fn label_colors_by_sample() {
    assert_eq!(LabelSample::Basic.label_color(), "#FFFF00");
    assert_eq!(LabelSample::Font.label_color(), "#1F2933");
    assert_eq!(LabelSample::Rotation.label_color(), "#253238");
    assert_eq!(LabelSample::Basic.halo_color(), "#000000");
    assert_eq!(LabelSample::Halo.halo_color(), "#FFF2A8");
    assert_eq!(LabelSample::Offset.halo_color(), "#FFFFFF");
    assert!(LabelSample::Halo.wide_halo());
    assert!(!LabelSample::Basic.wide_halo());
}

#[test]
fn label_controls_become_patches() {
    assert_eq!(label_patch(LabelSample::Basic, 1, "Yes"), Ok(LabelPatch::ShowLabels(true)));
    assert_eq!(label_patch(LabelSample::Basic, 2, "NAME"), Ok(LabelPatch::LabelField("NAME".to_owned())));
    assert_eq!(label_patch(LabelSample::Font, 3, "No"), Ok(LabelPatch::Italic(false)));
    assert_eq!(label_patch(LabelSample::Halo, 2, "Blue"), Ok(LabelPatch::HaloColor("#BAE6FD")));
    assert_eq!(label_patch(LabelSample::Offset, 3, ""), Ok(LabelPatch::ResetOffset));
    assert_eq!(label_patch(LabelSample::Rotation, 2, ""), Err(LabelError::UnknownControl));
    assert_eq!(label_patch(LabelSample::CollisionOff, 1, ""), Err(LabelError::UnknownControl));
}

#[test]
fn halo_colors_by_name() {
    assert_eq!(halo_color_of("Black"), "#000000");
    assert_eq!(halo_color_of("Yellow"), "#FFF2A8");
    assert_eq!(halo_color_of("White"), "#FFFFFF");
    assert_eq!(halo_color_of("Purple"), "#FFFFFF");
}

#[test]
fn collision_panes() {
    let left = collision_pane(0);
    assert!(!left.allow_overlap);
    assert_eq!(left.title, "Cities - collision filtering");
    let right = collision_pane(1);
    assert!(right.allow_overlap);
    assert_eq!(right.title, "Cities - overlap allowed");
    assert_eq!(check_cities(3), Ok(()));
    assert_eq!(check_cities(0), Err(LabelError::NoCities));
}

#[test]
fn logged_signals_by_type() {
    assert_eq!(signal_name(3), Some("layerAdded"));
    assert_eq!(signal_name(28), Some("renderBackendChanged"));
    assert_eq!(signal_name(11), None);
}

#[test]
fn signal_lines_carry_the_time_of_day() {
    let ms = 86_400_000u64 * 3 + 3_723_004;
    assert_eq!(signal_line(ms, "layerAdded", "<b>World</b>", 2, -1), "01:02:03.004 Signal: layerAdded(&lt;b&gt;World&lt;/b&gt;) [2 / -1]");
    assert_eq!(signal_line(86_399_999, "layersChanged", "", 0, 0), "23:59:59.999 Signal: layersChanged() [0 / 0]");
}

#[test]
fn toolbar_commands() {
    assert_eq!(layer_command(2, -1), Ok(LayerCommand::Add(1)));
    assert_eq!(layer_command(4, -1), Ok(LayerCommand::Remove(None)));
    assert_eq!(layer_command(6, 2), Ok(LayerCommand::ToggleVisibility(Some(2))));
    assert_eq!(layer_command(10, 0), Ok(LayerCommand::ClearLog));
    assert_eq!(layer_command(7, 0), Err("Unknown event command"));
    assert_eq!(action_line(9), "Action: command 9");
    assert_eq!(layer_name(2), "Cities");
    assert_eq!(layer_file(0), None);
    assert_eq!(layer_file(1), Some("usa_states/usa_states.shp"));
    assert_eq!(load_failure("States"), "Could not load States");
}

#[test]
fn busy_events() {
    assert!(is_busy_event(29));
    assert!(is_busy_event(15));
    assert!(!is_busy_event(2));
}

#[test]
fn collision_status_names_both_panes() {
    assert_eq!(collision_status(), "Left (Viewer A): collision filtering. Right (Viewer B): label overlap allowed.");
}
