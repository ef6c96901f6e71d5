use geoviewer::panes::follow_step;
use geoviewer::panes::pair_command;
use geoviewer::panes::sync_status;
use geoviewer::panes::PairCommand;
use geoviewer::panes::PaneSync;
use geoviewer::setup::data_path;
use geoviewer::setup::extra_path;
use geoviewer::setup::window_layout;
use geoviewer::setup::WindowLayout;
use geoviewer::tiles::basemap_status;
use geoviewer::tiles::cache_budget;
use geoviewer::tiles::cache_folder;
use geoviewer::tiles::cache_text_enabled;
use geoviewer::tiles::find_preset_by_name;
use geoviewer::tiles::find_preset_by_url;
use geoviewer::tiles::pane_tile_size;
use geoviewer::tiles::preset_entry;
use geoviewer::tiles::tile_layer_name;
use geoviewer::tiles::XyzAction;
use geoviewer::tiles::XyzError;
use geoviewer::tiles::XyzSettings;
use geoviewer::Tool;

#[test]
fn windows_by_sample() {
    assert_eq!(window_layout("MultiWindowSync"), WindowLayout { dual: true, width: 1280, height: 760 });
    assert_eq!(window_layout("LabelCollisionOff"), WindowLayout { dual: true, width: 1280, height: 760 });
    assert_eq!(window_layout("HelloMap"), WindowLayout { dual: false, width: 1200, height: 800 });
    assert_eq!(window_layout("LandCoverInference"), WindowLayout { dual: false, width: 1280, height: 820 });
    assert_eq!(window_layout("ObjectDetectionInference"), WindowLayout { dual: false, width: 1280, height: 820 });
}

#[test]
fn data_paths_are_joined_under_the_root() {
    let p = extra_path("/samples/SelectionSignal", "usa_states/usa_states.shp");
    assert!(p.starts_with("/samples/SelectionSignal"));
    assert!(p.ends_with("usa_states/usa_states.shp"));
    assert!(p.contains("../data"));
    let sep = std::path::MAIN_SEPARATOR;
    assert_eq!(p, format!("/samples/SelectionSignal{sep}../data{sep}usa_states/usa_states.shp"));
    assert_eq!(extra_path("/samples/What?", "a:b.shp"), format!("/samples/What?{sep}../data{sep}a:b.shp"));
    assert_eq!(extra_path("/samples/SelectionSignal", "/tmp/cities.shp"), "/tmp/cities.shp");
    assert_eq!(extra_path("/samples/", "a.shp"), format!("/samples/../data{sep}a.shp"));
    assert_eq!(extra_path("", "a.shp"), format!("../data{sep}a.shp"));
}

#[test]
fn data_path_reads_the_path_back() {
    let p = std::path::PathBuf::from("data").join("cities.shp");
    let expected = p.to_string_lossy().into_owned();
    assert_eq!(data_path(p), expected);
}

#[test]
fn presets_by_url_and_name() {
    assert_eq!(find_preset_by_url("https://tile.openstreetmap.org/{z}/{x}/{y}.png"), Some(25));
    assert_eq!(find_preset_by_url("https://example.com/{z}/{x}/{y}.png"), None);
    assert_eq!(find_preset_by_name("Esri Ocean"), Some(11));
    assert_eq!(find_preset_by_name("Esri"), None);
    assert_eq!(preset_entry(0).0, "Bing Virtual Earth");
    assert_eq!(preset_entry(26).1, "https://tile.opentopomap.org/{z}/{x}/{y}.png");
}

#[test]
fn cache_folders_keep_only_ascii_letters_and_digits() {
    assert_eq!(cache_folder("CartoDb Dark Matter (No Labels)"), "CartoDb_Dark_Matter__No_Labels_");
    assert_eq!(cache_folder("Esri Gray (dark)"), "Esri_Gray__dark_");
    assert_eq!(cache_folder("Zürich 2"), "Z_rich_2");
}

#[test]
fn xyz_settings_and_checks() {
    let mut s = XyzSettings::new();
    assert_eq!(s.preset_to_add(), Ok(25));
    assert_eq!(s.control(2, 12, "", false), XyzAction::Nothing);
    assert_eq!(s.control(3, 4, "", false), XyzAction::Nothing);
    assert_eq!(s.check_zoom(), Err(XyzError::ZoomOrder));
    assert_eq!(s.preset_to_add(), Err(XyzError::ZoomOrder));
    s.control(3, 19, "", false);
    s.control(1, 0, "https://example.com/{z}/{x}/{y}.png", false);
    assert_eq!(s.preset_to_add(), Err(XyzError::UnknownPreset));
    assert_eq!(s.control(8, 0, "Google Maps", false), XyzAction::Preset(18));
    assert_eq!(s.url, "https://mt1.google.com/vt/lyrs=m&x={x}&y={y}&z={z}");
    assert_eq!(s.control(8, 0, "Nowhere", false), XyzAction::Nothing);
    assert_eq!(s.control(4, 0, "", false), XyzAction::Nothing);
    assert!(!s.cache);
    assert_eq!(s.control(5, 0, "", false), XyzAction::Apply);
    assert_eq!(XyzError::UnknownPreset.message(), "Unknown XYZ preset URL");
    assert!(cache_text_enabled("Enabled"));
    assert!(!cache_text_enabled("Disabled"));
    assert_eq!(basemap_status("OpenTopoMap"), "Basemap: OpenTopoMap");
}

#[test]
fn presets_have_their_own_cache_folders() {
    let folders: Vec<String> = (0..27).map(|i| cache_folder(preset_entry(i).0)).collect();
    for i in 0..27 {
        for j in 0..i {
            assert_ne!(folders[i], folders[j]);
        }
    }
}

#[test]
fn every_preset_chosen_by_name_is_the_one_added() {
    for i in 0..27 {
        let (name, _) = preset_entry(i);
        let mut s = XyzSettings::new();
        assert_eq!(s.control(8, 0, name, true), XyzAction::Preset(i));
        assert_eq!(s.preset_to_add(), Ok(i));
    }
}

#[test]
fn tile_sizes_and_budgets() {
    assert_eq!(pane_tile_size(0), 256);
    assert_eq!(pane_tile_size(1), 512);
    assert_eq!(tile_layer_name(512), "512 px tiles");
    let small = cache_budget(1);
    assert!(small.enabled);
    assert_eq!((small.pixels, small.item_pixels), (131072, 131072));
    let off = cache_budget(0);
    assert!(!off.enabled);
    assert_eq!(cache_budget(2).pixels, 4194304);
}

#[test]
fn panes_follow_each_other() {
    assert_eq!(follow_step(true, true, true), PaneSync::LeftToRight);
    assert_eq!(follow_step(true, false, true), PaneSync::RightToLeft);
    assert_eq!(follow_step(true, false, false), PaneSync::Neither);
    assert_eq!(follow_step(false, true, true), PaneSync::Neither);
    assert_eq!(pair_command(5), Some(PairCommand::UseTool(Tool::ZoomBox)));
    assert_eq!(pair_command(4), Some(PairCommand::ToggleSync));
    assert_eq!(pair_command(7), None);
    assert_eq!(sync_status(false), "Sync Off");
}
