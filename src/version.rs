//! The program's version, as its package manifest records it.

use vstd::prelude::*;

use crate::error::GenerationError;

verus! {

/// What a TOML document records at `package.version`: `None` when the text
/// is not valid TOML, `Some(None)` when it holds no string there.
pub uninterp spec fn toml_package_version(text: Seq<char>) -> Option<Option<Seq<char>>>;

/// Relies on `toml::from_str` to parse the text as a TOML document, then on
/// `toml::Value::get` and `toml::Value::as_str` to read the string at
/// `package.version`. The outcome depends on the text alone.
#[verifier::external_body]
fn read_package_version(text: &str) -> (r: Result<Option<String>, toml::de::Error>)
    ensures
        r is Err <==> toml_package_version(text@) is None,
        r matches Ok(found) ==> toml_package_version(text@) == Some(
            match found {
                Some(v) => Some(v@),
                None => None,
            },
        ),
{
    toml::from_str::<toml::Value>(text).map(
        |doc| doc.get("package").and_then(|p| p.get("version")).and_then(|v| v.as_str()).map(
            |v| v.to_string(),
        ),
    )
}

/// The version text shown when the manifest records none.
pub const UNKNOWN_VERSION: &'static str = "Unknown";

/// The version to show for what the manifest records.
pub open spec fn shown_version(found: Option<Seq<char>>) -> Seq<char> {
    match found {
        Some(v) => v,
        None => UNKNOWN_VERSION@,
    }
}

/// The version found in the manifest, or `Unknown` when there is none.
pub fn version_or_unknown(found: Option<String>) -> (r: String)
    ensures
        r@ == shown_version(
            match found {
                Some(v) => Some(v@),
                None => None,
            },
        ),
{
    match found {
        Some(v) => v,
        None => String::from_str(UNKNOWN_VERSION),
    }
}

/// The version recorded in a package manifest's text. Fails when the text
/// is not valid TOML; gives `Unknown` when it records no version.
pub fn get_version_from_cargo_toml(manifest: &str) -> (r: Result<String, toml::de::Error>)
    ensures
        r is Err <==> toml_package_version(manifest@) is None,
        r matches Ok(v) ==> v@ == shown_version(toml_package_version(manifest@)->Some_0),
{
    match read_package_version(manifest) {
        Ok(found) => Ok(version_or_unknown(found)),
        Err(e) => Err(e),
    }
}

/// The line that reports a program's version: `<program> version <version>`.
pub fn version_line(program: &str, version: &str) -> (r: String)
    ensures
        r@ == program@ + " version "@ + version@,
{
    let mut r = String::from_str(program);
    r.append(" version ");
    r.append(version);
    r
}

/// The version report for `program`, from its manifest's text. A manifest
/// that is not valid TOML gives the manifest parse error.
pub fn version_report(program: &str, manifest: &str) -> (r: Result<String, GenerationError>)
    ensures
        r is Err <==> toml_package_version(manifest@) is None,
        r matches Err(e) ==> e is CargoTomlParseError,
        r matches Ok(line) ==> line@ == program@ + " version "@ + shown_version(
            toml_package_version(manifest@)->Some_0,
        ),
{
    match get_version_from_cargo_toml(manifest) {
        Ok(v) => Ok(version_line(program, v.as_str())),
        Err(e) => Err(GenerationError::CargoTomlParseError(e)),
    }
}

} // verus!
