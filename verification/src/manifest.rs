//! Reading a package's declared name out of its build-manifest text.
//!
//! The manifest is a structured key/value document; parsing it is the `toml`
//! crate's work and stands behind one trusted wrapper. What the wrapper
//! returns is given names (`manifest_parses`, `manifest_field`), and the
//! name discovery is verified against those names.

use vstd::prelude::*;

use crate::errors::KuraError;

verus! {

/// Whether the text parses as a structured key/value document.
pub uninterp spec fn manifest_parses(text: Seq<char>) -> bool;

/// The string value at key `key` of table `section` of the parsed document.
/// Meaningful only when `manifest_parses(text)` holds; `None` when the
/// section is missing, the key is missing, or the value there is no string.
pub uninterp spec fn manifest_field(text: Seq<char>, section: Seq<char>, key: Seq<char>) -> Option<
    Seq<char>,
>;

/// Relies on the `toml` crate: `str::parse::<toml::Table>` to parse the
/// document, then `toml::Table::get`, `toml::Value::get` and
/// `toml::Value::as_str` to read the string at key `key` of table `section`.
/// The result is a function of the three arguments alone; `manifest_parses`
/// and `manifest_field` name it. `None` means the text does not parse;
/// `Some(None)` means it parses but holds no string at that place.
#[verifier::external_body]
fn read_manifest_str_field(text: &str, section: &str, key: &str) -> (r: Option<Option<String>>)
    ensures
        r is Some <==> manifest_parses(text@),
        match r {
            Some(Some(v)) => manifest_field(text@, section@, key@) == Some(v@),
            Some(None) => manifest_field(text@, section@, key@) is None,
            None => true,
        },
{
    match text.parse::<toml::Table>() {
        Ok(doc) => Some(
            doc.get(section).and_then(|t| t.get(key)).and_then(|v| v.as_str()).map(
                |s| s.to_string(),
            ),
        ),
        Err(_) => None,
    }
}

/// The package name that the manifest text declares, if any.
pub open spec fn declared_name(text: Seq<char>) -> Option<Seq<char>> {
    manifest_field(text, "package"@, "name"@)
}

/// Reads the declared package name out of build-manifest text.
///
/// Fails with `RemoteManifestUnavailable` exactly when the text does not
/// parse, and with `ManifestFieldMissing` exactly when it parses but declares
/// no name.
pub fn find_package_name(manifest_text: &str) -> (r: Result<String, KuraError>)
    ensures
        match r {
            Ok(n) => manifest_parses(manifest_text@) && declared_name(manifest_text@) == Some(n@),
            Err(e) => {
                &&& (e == KuraError::RemoteManifestUnavailable || e
                    == KuraError::ManifestFieldMissing)
                &&& (e == KuraError::RemoteManifestUnavailable <==> !manifest_parses(
                    manifest_text@,
                ))
                &&& (e == KuraError::ManifestFieldMissing <==> manifest_parses(manifest_text@)
                    && declared_name(manifest_text@) is None)
            },
        },
{
    match read_manifest_str_field(manifest_text, "package", "name") {
        None => Err(KuraError::RemoteManifestUnavailable),
        Some(None) => Err(KuraError::ManifestFieldMissing),
        Some(Some(n)) => Ok(n),
    }
}

} // verus!
