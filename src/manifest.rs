//! Version manifests: the local one naming the installed version, the
//! remote one naming the latest full archive, and the archive URL of each
//! version.

use vstd::prelude::*;

verus! {

/// `serde_json::Error`.
#[verifier::external_type_specification]
#[verifier::external_body]
pub struct ExJsonError(serde_json::Error);

/// Where the remote manifest naming the latest full archive is published.
pub const BOOTSTRAP_MANIFEST_URL: &'static str = "https://dreamio.xyz/downloads/Builds/Windows/version.json";

/// The local manifest file, relative to the installation directory.
pub const LOCAL_MANIFEST_FILE: &'static str = "version.json";

/// The file a downloaded archive is staged in, relative to the
/// installation directory.
pub const STAGED_ARCHIVE_FILE: &'static str = "update.zip";

/// The string member `key` of the JSON document `text`: `None` where `text`
/// is not a JSON document, `Some(None)` where it has no such member or the
/// member is not a string.
pub uninterp spec fn json_string_member(text: Seq<char>, key: Seq<char>) -> Option<Option<Seq<char>>>;

/// Relies on `serde_json::from_str` (into a `serde_json::Value`),
/// `Value::get` and `Value::as_str`: the string member `key` of the document
/// `text`, which depends on the two strings alone.
#[verifier::external_body]
fn string_member(text: &str, key: &str) -> (r: Result<Option<String>, serde_json::Error>)
    ensures
        match r {
            Ok(Some(s)) => json_string_member(text@, key@) == Some(Some(s@)),
            Ok(None) => json_string_member(text@, key@) == Some(None::<Seq<char>>),
            Err(_) => json_string_member(text@, key@) is None,
        },
{
    let v: serde_json::Value = serde_json::from_str(text)?;
    Ok(v.get(key).and_then(serde_json::Value::as_str).map(String::from))
}

/// Why a manifest could not be read.
#[derive(Clone, Copy, Debug, PartialEq, Eq, Structural)]
pub enum ManifestError {
    /// The text is not a JSON document.
    Malformed,
    /// The document lacks the expected string member.
    MissingField,
}

/// The outcome of looking up a required string member.
pub open spec fn required_member(found: Option<Option<Seq<char>>>) -> Result<Seq<char>, ManifestError> {
    match found {
        None => Err(ManifestError::Malformed),
        Some(None) => Err(ManifestError::MissingField),
        Some(Some(s)) => Ok(s),
    }
}

/// The view of a result that carries a string.
pub open spec fn result_view(r: Result<String, ManifestError>) -> Result<Seq<char>, ManifestError> {
    match r {
        Ok(s) => Ok(s@),
        Err(e) => Err(e),
    }
}

/// Turns the lookup of a required string member into its value or the
/// reason it is missing.
pub fn required_string(found: Result<Option<String>, serde_json::Error>) -> (r: Result<String, ManifestError>)
    ensures
        match found {
            Err(_) => r == Err::<String, ManifestError>(ManifestError::Malformed),
            Ok(None) => r == Err::<String, ManifestError>(ManifestError::MissingField),
            Ok(Some(s)) => r == Ok::<String, ManifestError>(s),
        },
{
    match found {
        Err(_) => Err(ManifestError::Malformed),
        Ok(None) => Err(ManifestError::MissingField),
        Ok(Some(s)) => Ok(s),
    }
}

/// The installed version named by the local manifest `text`, its
/// `versionCode` member.
pub fn read_version_code(text: &str) -> (r: Result<String, ManifestError>)
    ensures
        result_view(r) == required_member(json_string_member(text@, "versionCode"@)),
{
    required_string(string_member(text, "versionCode"))
}

/// The URL of the latest full archive named by the remote manifest `text`,
/// its `latestUrl` member.
pub fn read_latest_url(text: &str) -> (r: Result<String, ManifestError>)
    ensures
        result_view(r) == required_member(json_string_member(text@, "latestUrl"@)),
{
    required_string(string_member(text, "latestUrl"))
}

/// The URL of the incremental archive published for version `code`.
pub open spec fn versioned_url_of(code: Seq<char>) -> Seq<char> {
    "https://dreamio.xyz/downloads/Builds/Windows/patches/"@ + code + ".zip"@
}

/// The URL of the incremental archive published for version `code`.
pub fn versioned_url(code: &str) -> (r: String)
    ensures
        r@ == versioned_url_of(code@),
{
    let base = String::from_str("https://dreamio.xyz/downloads/Builds/Windows/patches/");
    base.concat(code).concat(".zip")
}

/// The installed version and the archive URL derived from it.
#[derive(Clone, Debug, PartialEq, Eq)]
pub struct VersionManifest {
    pub version_code: String,
    pub download_url: String,
}

/// Reads the local manifest `text` and derives the versioned archive URL.
pub fn read_version_manifest(text: &str) -> (r: Result<VersionManifest, ManifestError>)
    ensures
        match r {
            Ok(m) => {
                &&& required_member(json_string_member(text@, "versionCode"@)) == Ok::<Seq<char>, ManifestError>(m.version_code@)
                &&& m.download_url@ == versioned_url_of(m.version_code@)
            },
            Err(e) => required_member(json_string_member(text@, "versionCode"@)) == Err::<Seq<char>, ManifestError>(e),
        },
{
    match read_version_code(text) {
        Ok(code) => {
            let url = versioned_url(code.as_str());
            Ok(VersionManifest { version_code: code, download_url: url })
        },
        Err(e) => Err(e),
    }
}

} // verus!
