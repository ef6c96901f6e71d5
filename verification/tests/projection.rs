use geoviewer::projection::check_crs_info;
use geoviewer::projection::crs_definition;
use geoviewer::projection::crs_status;
use geoviewer::projection::is_domain_error;
use geoviewer::projection::normalize_authority;
use geoviewer::projection::unknown_crs;
use geoviewer::projection::ViewFit;

#[test]
fn filters_only_expected_nonfatal_projection_messages() {
    assert!(is_domain_error(3, b"Point outside of projection domain"));
    assert!(is_domain_error(3, b"Reprojection failed, err = 2050, further errors will be suppressed on the transform object."));
    assert!(!is_domain_error(4, b"Point outside of projection domain"));
    assert!(!is_domain_error(3, b"Cannot open dataset"));
    assert!(!is_domain_error(3, b"Reprojection failed, err = 2049"));
}

#[test]
fn domain_error_needs_the_exact_message() {
    assert!(!is_domain_error(3, b"Point outside of projection domain "));
    assert!(!is_domain_error(3, b"point outside of projection domain"));
    assert!(!is_domain_error(3, b""));
    assert!(!is_domain_error(2, b"Reprojection failed, err = 2050, further errors will be suppressed on the transform object."));
}

#[test]
fn reprojection_views_by_preset() {
    assert_eq!(ViewFit::for_reprojection("EPSG:4326"), ViewFit::Centered { half_x: 18000, half_y: 8500 });
    assert_eq!(ViewFit::for_reprojection("EPSG:3857"), ViewFit::Centered { half_x: 2003750834, half_y: 2003750834 });
    assert_eq!(ViewFit::for_reprojection("EPSG:3395"), ViewFit::Centered { half_x: 2003750834, half_y: 2000000000 });
    assert_eq!(ViewFit::for_reprojection("Miller"), ViewFit::Centered { half_x: 2003750834, half_y: 1550000000 });
    assert_eq!(ViewFit::for_reprojection("Sinusoidal"), ViewFit::Centered { half_x: 2003750834, half_y: 1050000000 });
    assert_eq!(ViewFit::for_reprojection("Mollweide"), ViewFit::Centered { half_x: 1850000000, half_y: 950000000 });
    assert_eq!(ViewFit::for_reprojection("Eckert IV"), ViewFit::Centered { half_x: 1850000000, half_y: 950000000 });
}

#[test]
fn geographic_setup_views_by_preset() {
    assert_eq!(ViewFit::for_geographic_setup("EPSG:4326"), ViewFit::Centered { half_x: 18000, half_y: 8500 });
    assert_eq!(ViewFit::for_geographic_setup("EPSG:3857"), ViewFit::Centered { half_x: 2003750834, half_y: 2003750834 });
    assert_eq!(ViewFit::for_geographic_setup("Miller"), ViewFit::Layer);
}

#[test]
fn projection_texts() {
    assert_eq!(crs_status("Miller"), "Viewer CRS: Miller; source layer remains EPSG:4326");
    assert_eq!(unknown_crs("Foo"), "Unknown CRS: Foo");
    assert_eq!(crs_definition("EPSG", 32635), "EPSG:32635");
    assert_eq!(crs_definition("ESRI", -5), "ESRI:-5");
}

#[test]
fn authority_is_trimmed_and_upper_cased() {
    assert_eq!(normalize_authority("  esri \n"), "ESRI");
    assert_eq!(normalize_authority("Ignf"), "IGNF");
}

#[test]
fn crs_info_checks() {
    assert_eq!(check_crs_info(Some("bad code"), Some("WGS 84")), Err("bad code".to_owned()));
    assert_eq!(check_crs_info(None, Some("WGS 84")), Ok(()));
    assert_eq!(check_crs_info(None, Some("")), Err("CRS name missing".to_owned()));
    assert_eq!(check_crs_info(None, None), Err("CRS name missing".to_owned()));
}
