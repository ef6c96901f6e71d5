use geoviewer::cities::city_layers;
use geoviewer::cities::file_stem;
use geoviewer::cities::is_shapefile_extension;
use geoviewer::cities::layer_title;
use geoviewer::cloud::check_sources;
use geoviewer::cloud::open_failure;
use geoviewer::cloud::raster_epsg;
use geoviewer::cloud::report_log;
use geoviewer::cloud::select_tiles;
use geoviewer::cloud::source_layer_failure;
use geoviewer::cloud::TileItem;
use geoviewer::drawing::check_parts;
use geoviewer::drawing::check_roundtrip;
use geoviewer::drawing::draw_layer;
use geoviewer::drawing::draw_mode;
use geoviewer::drawing::geojson_preset;
use geoviewer::drawing::output_changed;
use geoviewer::drawing::shape_draw;
use geoviewer::drawing::ShapeDraw;
use geoviewer::ordering::parse_u32;
use geoviewer::ordering::sort_keyed;
use geoviewer::ordering::text_le_exec;
use geoviewer::Tool;

#[test]
fn tiles_are_picked_once_per_grid_square() {
    let item = |key: &str, has_visual: bool| TileItem { key: key.to_owned(), has_visual };
    let items = vec![item("34:V:CL", true), item("34:V:CL", true), item("33:V:XG", false), item("33:V:XG", true), item("34:V:DL", true)];
    assert_eq!(select_tiles(&items), Ok(vec![0, 3, 4]));
    assert_eq!(select_tiles(&vec![item("a", false)]), Err("No visual COG assets matched the search"));
    assert_eq!(select_tiles(&vec![]), Err("No visual COG assets matched the search"));
}

#[test]
fn at_most_sixteen_tiles_are_picked() {
    let items: Vec<TileItem> = (0..20).map(|i| TileItem { key: format!("k{i}"), has_visual: true }).collect();
    assert_eq!(select_tiles(&items), Ok((0..16).collect::<Vec<usize>>()));
}

#[test]
fn cloud_texts_and_checks() {
    assert_eq!(report_log("a<b & c>d"), "<pre>a&lt;b &amp; c>d</pre>");
    assert_eq!(raster_epsg(Some(32634)), Ok(32634));
    assert_eq!(raster_epsg(Some(0)), Err("Raster CRS is unavailable"));
    assert_eq!(raster_epsg(None), Err("Raster CRS is unavailable"));
    assert_eq!(check_sources(0), Err("PMTiles has no vector source layers"));
    assert_eq!(check_sources(2), Ok(()));
    assert_eq!(source_layer_failure(3), "Could not open PMTiles source layer 3");
    assert_eq!(open_failure("/vsis3/x.tif"), "GDAL could not open /vsis3/x.tif");
}

#[test]
fn geometry_reading_checks() {
    assert_eq!(geojson_preset("MultiPolygon"), Some(3));
    assert_eq!(geojson_preset("Polyline"), None);
    assert_eq!(check_parts(&vec![1, 4]), Ok(()));
    assert_eq!(check_parts(&vec![]), Err("Empty geometry"));
    assert_eq!(check_parts(&vec![3, 0]), Err("Empty geometry"));
    assert_eq!(shape_draw(Some("Polyline")), Ok(ShapeDraw::Lines));
    assert_eq!(shape_draw(Some("Polygon")), Ok(ShapeDraw::Polygon));
    assert_eq!(shape_draw(Some("MultiPoint")), Err("Unsupported geometry"));
    assert_eq!(shape_draw(None), Err("Unsupported geometry"));
}

#[test]
fn geometry_writing_modes() {
    assert_eq!(draw_mode("Polyline"), Some(1));
    assert_eq!(draw_mode("Line"), None);
    assert_eq!(draw_layer(0), (1, Tool::AddPoint));
    assert_eq!(draw_layer(2), (5, Tool::AddPolygon));
    assert_eq!(check_roundtrip(Some(1)), Ok(()));
    assert_eq!(check_roundtrip(Some(0)), Err("GeoJSON roundtrip failed"));
    assert!(output_changed("{\"type\":\"Point\"}", ""));
    assert!(!output_changed("x", "x"));
}

#[test]
fn numbers_are_parsed_as_the_standard_library_does() {
    assert_eq!(parse_u32("42"), Some(42));
    assert_eq!(parse_u32("+7"), Some(7));
    assert_eq!(parse_u32("007"), Some(7));
    assert_eq!(parse_u32("4294967295"), Some(u32::MAX));
    assert_eq!(parse_u32("4294967296"), None);
    assert_eq!(parse_u32("99999999999999999999"), None);
    assert_eq!(parse_u32(""), None);
    assert_eq!(parse_u32("+"), None);
    assert_eq!(parse_u32("-1"), None);
    assert_eq!(parse_u32("12a"), None);
    for s in ["0", "15", "+3", "x", "", "4294967295", "4294967296", "-0"] {
        assert_eq!(parse_u32(s), s.parse::<u32>().ok());
    }
}

#[test]
fn names_sort_by_number_then_text() {
    assert!(text_le_exec("Aa", "Ab"));
    assert!(text_le_exec("Ab", "Ab"));
    assert!(text_le_exec("Ab", "Abc"));
    assert!(!text_le_exec("b", "Abc"));
    let sorted = sort_keyed(vec![(2, "b".to_owned()), (1, "z".to_owned()), (2, "a".to_owned()), (u32::MAX, "img".to_owned())]);
    assert_eq!(sorted, vec![(1, "z".to_owned()), (2, "a".to_owned()), (2, "b".to_owned()), (u32::MAX, "img".to_owned())]);
}

#[test]
fn city_layers_are_titled_and_coloured_in_name_order() {
    let files = vec!["san_jose.shp".to_owned(), "los__angeles.shp".to_owned(), "fresno.shp".to_owned()];
    let layers = city_layers(files).ok().unwrap();
    let titles: Vec<&str> = layers.iter().map(|l| l.title.as_str()).collect();
    assert_eq!(titles, vec!["Fresno", "Los Angeles", "San Jose"]);
    assert_eq!(layers[1].file, "los__angeles.shp");
    assert_eq!(layers[0].fill, "#BFD6E5");
    assert_eq!(layers[2].fill, "#D8CDA7");
    assert_eq!(city_layers(vec![]).err(), Some("No city Shapefiles found. Run ./run.ps1 -Example LayerZoomTo first."));
}

#[test]
fn city_titles_and_stems() {
    assert_eq!(layer_title("_santa__cruz_"), "Santa Cruz");
    assert_eq!(layer_title("éclair_x"), "Éclair X");
    assert_eq!(layer_title(""), "");
    assert_eq!(file_stem("oakland.shp"), "oakland");
    assert_eq!(file_stem("a.b.shp"), "a.b");
    assert_eq!(file_stem(".hidden"), ".hidden");
    assert_eq!(file_stem("noext"), "noext");
    assert!(is_shapefile_extension("SHP"));
    assert!(is_shapefile_extension("shp"));
    assert!(!is_shapefile_extension("shx"));
}
