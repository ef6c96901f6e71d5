use geoviewer::lockfile::sdk_variable_entry;
use geoviewer::lockfile::sdk_version;
use geoviewer::lockfile::LockError;

fn std_version(lock: &str) -> Result<String, LockError> {
    let package = lock
        .split("[[package]]")
        .find(|entry| entry.lines().any(|line| line == "name = \"geokernel\""))
        .ok_or(LockError::MissingPackage)?;
    package
        .lines()
        .find_map(|line| line.strip_prefix("version = ").map(|value| value.trim_matches('"').to_owned()))
        .ok_or(LockError::MissingVersion)
}

const LOCK: &str = "# This file is automatically @generated by Cargo.\nversion = 4\n\n[[package]]\nname = \"base64\"\nversion = \"0.22.1\"\n\n[[package]]\nname = \"geokernel\"\nversion = \"1.5.39\"\nsource = \"registry+https://github.com/rust-lang/crates.io-index\"\n";

#[test]
fn the_sdk_version_is_read_from_its_entry() {
    assert_eq!(sdk_version(LOCK), Ok("1.5.39".to_owned()));
}

#[test]
fn lock_file_errors() {
    assert_eq!(sdk_version("[[package]]\nname = \"serde\"\nversion = \"1.0\"\n"), Err(LockError::MissingPackage));
    assert_eq!(sdk_version("[[package]]\nname = \"geokernel\"\nsource = \"x\"\n"), Err(LockError::MissingVersion));
    assert_eq!(sdk_version(""), Err(LockError::MissingPackage));
    assert_eq!(LockError::MissingPackage.message(), "geokernel is missing from Cargo.lock");
}

#[test]
fn lock_files_read_as_the_standard_library_splits_them() {
    let cases = [
        LOCK,
        "[[package]]\r\nname = \"geokernel\"\r\nversion = \"2.0.0\"\r\n",
        "name = \"geokernel\"\nversion = \"0.1\"",
        "[[package]]\nname = \"geokernel\" \nversion = \"3\"\n",
        "[[package]]\nversion = \"\"\"9\"\"\"\nname = \"geokernel\"",
        "[[package]]\nname = \"geokernel\"\nversion = \n",
        "[[package]][[package]]\nname = \"geokernel\"\nversion = \"4\"[[package]]\nversion = \"5\"",
        "[[package]]\nname = \"geokernel\"\r",
        "x[[package]]name = \"geokernel\"\nversion = \"6\"\r\n",
        "[[package]]\nname = \"geokernel\"\n\nversion = \"\"",
    ];
    for lock in cases {
        assert_eq!(sdk_version(lock), std_version(lock), "{lock:?}");
    }
}

#[test]
fn sdk_environment() {
    assert_eq!(sdk_variable_entry(0), ("GEOKERNEL_BIN", ""));
    assert_eq!(sdk_variable_entry(2), ("QT_QPA_PLATFORM_PLUGIN_PATH", "plugins/platforms"));
    assert_eq!(sdk_variable_entry(5), ("PROJ_DATA", "proj-data"));
}
