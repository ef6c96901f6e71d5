use geoviewer::inference::check_overlap;
use geoviewer::inference::completed_status;
use geoviewer::inference::details_text;
use geoviewer::inference::check_land_inputs;
use geoviewer::inference::image_buttons;
use geoviewer::inference::land_details;
use geoviewer::inference::land_diagnostics;
use geoviewer::inference::LandAction;
use geoviewer::inference::LandCoverPanel;
use geoviewer::inference::LandFacts;
use geoviewer::inference::image_key;
use geoviewer::inference::image_position;
use geoviewer::inference::is_image_extension;
use geoviewer::inference::name_position;
use geoviewer::inference::next_image;
use geoviewer::inference::order_images;
use geoviewer::inference::provider_index;
use geoviewer::inference::provider_name;
use geoviewer::layers::check_arc_found;
use geoviewer::layers::check_predicate;
use geoviewer::layers::feature_title;
use geoviewer::layers::hull_status;
use geoviewer::layers::listed_status;
use geoviewer::layers::measured_features;
use geoviewer::layers::measured_status;
use geoviewer::layers::predicate_text;
use geoviewer::layers::raster_center;
use geoviewer::layers::rows_listed;
use geoviewer::layers::titled_block;
use geoviewer::memory::append_kind;
use geoviewer::memory::memory_layer_entry;
use geoviewer::memory::memory_status;
use geoviewer::memory::AppendKind;
use geoviewer::memory::MemoryCommand;
use geoviewer::memory::MemoryCursors;
use geoviewer::renderers::eq_ignore_case;
use geoviewer::renderers::pop_class_value;
use geoviewer::renderers::range_label;
use geoviewer::renderers::recolor;
use geoviewer::renderers::renderer_status;
use geoviewer::renderers::rule_color_pair;
use geoviewer::renderers::style_control;
use geoviewer::renderers::StyleControl;
use geoviewer::topology::check_relation;
use geoviewer::topology::fix_style;
use geoviewer::topology::operation_id;
use geoviewer::topology::fix_status;
use geoviewer::topology::parts_summary;
use geoviewer::topology::ring_color;
use geoviewer::zones::default_feature_name;
use geoviewer::zones::feature_labels;
use geoviewer::zones::initial_zones;
use geoviewer::zones::zone_color_pair;
use geoviewer::zones::zone_status;
use geoviewer::zones::ZoneAction;
use geoviewer::zones::ZoneEditor;

#[test]
fn reports_become_log_markup() {
    assert_eq!(details_text("a<b\nc&d"), "a&lt;b<br>c&amp;d");
    assert_eq!(details_text(""), "");
}

#[test]
fn stepping_through_images() {
    assert_eq!(next_image(7, 0, 3, None), None);
    assert_eq!(next_image(7, 2, 3, None), Some(1));
    assert_eq!(next_image(8, 2, 3, None), None);
    assert_eq!(next_image(8, 0, 3, None), Some(1));
    assert_eq!(next_image(9, 1, 3, Some(1)), None);
    assert_eq!(next_image(9, 1, 3, Some(2)), Some(2));
    assert_eq!(next_image(4, 1, 3, Some(2)), None);
    assert_eq!(image_buttons(0, 3), Ok((false, true)));
    assert_eq!(image_buttons(2, 3), Ok((true, false)));
    assert_eq!(image_buttons(3, 3), Err("Invalid image index"));
    assert_eq!(image_position(1, 3, "2.jpg"), "2 / 3 - 2.jpg");
    let names = vec!["1.jpg".to_owned(), "2.jpg".to_owned(), "1.jpg".to_owned()];
    assert_eq!(name_position(&names, "1.jpg"), Some(0));
    assert_eq!(name_position(&names, "9.jpg"), None);
}

#[test]
fn images_are_ordered_by_number_then_name() {
    let names = vec!["10.jpg".to_owned(), "b.png".to_owned(), "2.tif".to_owned(), "a.png".to_owned()];
    assert_eq!(order_images(names), Ok(vec!["2.tif".to_owned(), "10.jpg".to_owned(), "a.png".to_owned(), "b.png".to_owned()]));
    assert_eq!(order_images(vec![]), Err("No supported sample images found"));
    assert_eq!(image_key("7.jpeg"), 7);
    assert_eq!(image_key("cat.jpeg"), u32::MAX);
    assert!(is_image_extension("JPG"));
    assert!(is_image_extension("tiff"));
    assert!(!is_image_extension("gif"));
}

#[test]
fn inference_choices_and_checks() {
    assert_eq!(provider_index(2, 5), 2);
    assert_eq!(provider_index(9, 5), 4);
    assert_eq!(provider_name("DirectML"), "directml");
    assert_eq!(check_overlap(0, 0), Ok(()));
    assert_eq!(check_overlap(4, 1), Ok(()));
    assert_eq!(check_overlap(4, 0), Err("Inference polygons do not overlap the raster view; check coordinate systems"));
    assert_eq!(completed_status(12), "Inference completed: 12 building polygons");
}

#[test]
fn memory_commands_move_their_cursor() {
    let mut c = MemoryCursors::new();
    let first = c.command(1).unwrap();
    assert_eq!(first, MemoryCommand::AddPoint { column: 0, row: 0 });
    assert_eq!(c.command(1), Ok(first));
    for _ in 0..13 {
        let done = c.command(1).unwrap();
        c.record_done(done);
    }
    assert_eq!(c.points, 13);
    assert_eq!(c.command(1), Ok(MemoryCommand::AddPoint { column: 1, row: 1 }));
    let route = c.command(2).unwrap();
    assert_eq!(route, MemoryCommand::AddRoute { steps: 1 });
    c.record_done(route);
    assert_eq!(c.command(2), Ok(MemoryCommand::AddRoute { steps: 2 }));
    assert_eq!(c.command(3), Ok(MemoryCommand::AddRegion { steps: 1 }));
    let before = c;
    c.record_done(MemoryCommand::FullExtent);
    assert_eq!(c, before);
    assert_eq!(c.command(4), Ok(MemoryCommand::Reset));
    assert_eq!(c, before);
    c.record_done(MemoryCommand::Reset);
    assert_eq!(c, MemoryCursors { points: 0, routes: 1, regions: 1 });
    assert_eq!(c.command(6), Err("Unknown command"));
    assert_eq!(memory_layer_entry(0), ("Memory Regions", 5));
    assert_eq!(append_kind(1), Some(AppendKind::Polyline));
    assert_eq!(append_kind(3), None);
    assert_eq!(memory_status(3, 1, 2), "Memory features - points: 3 | lines: 1 | polygons: 2");
}

#[test]
fn zones_cycle_and_the_editor_applies_one() {
    let zones = initial_zones(7);
    assert_eq!(zones[0], "Residential");
    assert_eq!(zones[5], "Residential");
    assert_eq!(zones[6], "Commercial");
    let labels = feature_labels(&vec!["Alameda".to_owned(), "Butte".to_owned()]);
    assert_eq!(labels, vec!["1: Alameda".to_owned(), "2: Butte".to_owned()]);
    let mut e = ZoneEditor::new(initial_zones(2));
    assert_eq!(e.control(1, "2: Butte", &labels), Ok(ZoneAction::ShowZone));
    assert_eq!(e.selected, 1);
    assert_eq!(e.zone, "Commercial");
    assert_eq!(e.control(2, "Park", &labels), Ok(ZoneAction::Nothing));
    assert_eq!(e.control(3, "", &labels), Ok(ZoneAction::Apply));
    e.applied();
    assert_eq!(e.zones, vec!["Residential".to_owned(), "Park".to_owned()]);
    assert_eq!(e.control(1, "3: Colusa", &labels), Err("Invalid feature"));
    assert_eq!(e.selected, 1);
    assert_eq!(default_feature_name(4), "Feature 5");
    assert_eq!(zone_status("Butte", "Park"), "Butte - zone=Park");
    assert_eq!(zone_color_pair(3), ("#AA9AD9A8", "#EB15803D"));
}

#[test]
fn population_classes() {
    assert_eq!(pop_class_value("Less than 50,000"), 1);
    assert_eq!(pop_class_value("  1,000,000 TO 5,000,000 "), 6);
    assert_eq!(pop_class_value("Unknown"), 0);
    assert!(eq_ignore_case("Shp", "sHP"));
    assert!(!eq_ignore_case("É", "é"));
    assert_eq!(range_label(2), "100,000 to 250,000");
    assert_eq!(range_label(6), "Other");
    assert_eq!(rule_color_pair(5), ("#91A9423A", "#D261201C"));
    assert_eq!(recolor("#FFD95F35", "48"), "#48D95F35");
    assert_eq!(recolor("#AB", "af"), "#afD95F35");
    assert_eq!(renderer_status(true), "GraduatedRendererSize applied: POP_CLASS");
    assert_eq!(style_control(4), Ok(StyleControl::Size));
    assert_eq!(style_control(7), Err("Unknown style control"));
}

#[test]
fn layer_checks_and_texts() {
    assert_eq!(rows_listed(40), 12);
    assert_eq!(rows_listed(5), 5);
    assert_eq!(titled_block("Layer metadata", "{\"a\":\"<x>\"}"), "<b>Layer metadata</b><pre>{\"a\":\"&lt;x&gt;\"}</pre>");
    assert_eq!(feature_title(0), "Feature 1");
    assert_eq!(listed_status(30), "Loaded 30 features; showing the first 12 attribute rows.");
    assert_eq!(measured_features(2, 10, 5), Ok(15));
    assert_eq!(measured_features(1, 10, 5), Err("Expected country and city layers"));
    assert_eq!(measured_features(2, 0, 0), Err("World layer has no features"));
    assert_eq!(measured_features(2, i32::MAX, i32::MAX), Ok(2 * i32::MAX as i64));
    assert_eq!(measured_status(15), "World layer loaded — 15 features");
    assert_eq!(check_arc_found(1), Ok(()));
    assert_eq!(check_arc_found(0), Err("ArcFind returned the wrong candidate"));
    assert_eq!(raster_center(Some(101), Some(40)), Ok((50, 20)));
    assert_eq!(raster_center(Some(0), Some(40)), Err("Invalid raster width"));
    assert_eq!(raster_center(Some(3), None), Err("Invalid raster height"));
    assert_eq!(hull_status(1, 9), "ConvexHullShape: 1 result rings, 9 vertices");
    assert_eq!(predicate_text(4), "cross");
    assert_eq!(check_predicate("touch", false, "{}"), Err("Expected touch to be true: {}".to_owned()));
    assert_eq!(check_predicate("touch", true, "{}"), Ok(()));
}

#[test]
fn topology_fix_choices() {
    assert_eq!(operation_id("FixShape"), Some(0));
    assert_eq!(operation_id("ClearShape"), Some(2));
    assert_eq!(operation_id("Source only"), None);
    assert_eq!(fix_style(1).color, "#7B2CBF");
    assert_eq!(fix_style(7).note, "FixShape removes duplicate vertices and drops invalid short parts.");
    assert_eq!(
        parts_summary(&vec![7, 1, 2, 3], "(0.00, 0.00) - (1.00, 1.00)"),
        "Parts: 4\nVertices: 13\nExtent: (0.00, 0.00) - (1.00, 1.00)\npart 1: 7 vertices\npart 2: 1 vertices\npart 3: 2 vertices\npart 4: 3 vertices\n"
    );
    assert_eq!(parts_summary(&vec![0], ""), "Parts: 1\nVertices: 0\nExtent: (empty)\npart 1: 0 vertices\n");
    assert_eq!(parts_summary(&vec![], "ignored"), "Parts: 0\nVertices: 0\nExtent: (empty)\n");
    assert_eq!(fix_status(Some("FixShape")), "FixShape applied.");
    assert_eq!(fix_status(None), "Source geometry is shown. Choose a fix operation.");
    assert_eq!(check_relation(None, Some("FF2F11212")), Ok(()));
    assert_eq!(check_relation(None, Some("FF2")), Err("Invalid DE-9IM matrix".to_owned()));
    assert_eq!(check_relation(Some("bad wkt"), None), Err("bad wkt".to_owned()));
    assert_eq!(ring_color(true), "#2A9D8F");
    assert_eq!(ring_color(false), "#D95D39");
}

#[test]
fn the_land_cover_panel() {
    let mut p = LandCoverPanel::new("in.tif", "model");
    assert_eq!(p.provider, "auto");
    assert_eq!(p.control(3, "CUDA"), LandAction::Nothing);
    assert_eq!(p.provider, "cuda");
    assert_eq!(p.control(7, ""), LandAction::Opacity { apply: false });
    assert_eq!(p.control(5, ""), LandAction::Clear { remove_layer: false });
    assert!(!p.take_start(true));
    p.control(4, "");
    assert!(!p.take_start(false));
    assert!(p.take_start(true));
    assert!(!p.take_start(true));
    p.finished(false);
    assert!(!p.has_prediction);
    p.finished(true);
    assert_eq!(p.prediction_controls(), vec![(7, true), (5, true)]);
    assert_eq!(p.control(7, ""), LandAction::Opacity { apply: true });
    assert_eq!(p.control(5, ""), LandAction::Clear { remove_layer: true });
    assert!(!p.has_prediction);
    assert_eq!(p.control(1, "other.tif"), LandAction::OpenIfFile);
    assert_eq!(p.raster, "other.tif");
    assert_eq!(check_land_inputs(true, false), Err("Select an existing input raster and model package."));
    assert_eq!(check_land_inputs(true, true), Ok(()));
    assert!(land_details("a<b\nc").starts_with("a&lt;b<br>c<br><br><b>ESA WorldCover classes</b>"));
    let f = LandFacts {
        model_id: "wc".to_owned(),
        model_version: "1".to_owned(),
        provider: "cpu".to_owned(),
        width: "10".to_owned(),
        height: "20".to_owned(),
        tiles: "4".to_owned(),
        elapsed: "99".to_owned(),
        mask_path: "m.tif".to_owned(),
        preview_path: "p.tif".to_owned(),
    };
    assert_eq!(
        land_diagnostics(&f),
        "GeoKernel AI land-cover inference\n\nModel: wc 1\nProvider: cpu\nRaster: 10 x 20\nTiles: 4\nElapsed: 99 ms\n\nClass mask:\nm.tif\n\nColor preview:\np.tif"
    );
}
