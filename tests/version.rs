use hiramu_cli::error::GenerationError;
use hiramu_cli::version::{get_version_from_cargo_toml, version_line, version_or_unknown, version_report};

#[test]
fn version_comes_from_the_manifest() {
    let manifest = "[package]\nname = \"hiramu-cli\"\nversion = \"0.1.15\"\nedition = \"2021\"\n";
    assert_eq!(get_version_from_cargo_toml(manifest).unwrap(), "0.1.15");
    assert_eq!(version_report("hiramu-cli", manifest).unwrap(), "hiramu-cli version 0.1.15");
}

#[test]
fn missing_version_is_unknown() {
    assert_eq!(get_version_from_cargo_toml("[package]\nname = \"x\"\n").unwrap(), "Unknown");
    assert_eq!(get_version_from_cargo_toml("[package]\nversion = 3\n").unwrap(), "Unknown");
    assert_eq!(get_version_from_cargo_toml("").unwrap(), "Unknown");
    assert_eq!(version_or_unknown(None), "Unknown");
    assert_eq!(version_or_unknown(Some("2.0.0".to_string())), "2.0.0");
}

#[test]
fn invalid_manifest_is_a_parse_error() {
    assert!(get_version_from_cargo_toml("[package\nversion = ").is_err());
    let r = version_report("hiramu-cli", "version = = 1");
    assert!(matches!(r, Err(GenerationError::CargoTomlParseError(_))));
}

#[test]
fn version_line_has_the_fixed_shape() {
    assert_eq!(version_line("hiramu-cli", "1.2.3"), "hiramu-cli version 1.2.3");
}
