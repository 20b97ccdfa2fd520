//! Manifest formats: how a format is named, how it is recognised from a
//! file's extension, and how failures to read one are reported.

use vstd::prelude::*;
use crate::error::DeployError;
use crate::text::str_eq;

verus! {

/// The text formats in which a manifest can be written.
#[derive(Debug, Clone, Copy, PartialEq, Eq, Structural)]
pub enum Format {
    Yaml,
    Json,
    Toml,
}

/// The name of a format, as `--format` takes it and as messages print it.
pub open spec fn format_name(f: Format) -> Seq<char> {
    match f {
        Format::Yaml => "yaml"@,
        Format::Json => "json"@,
        Format::Toml => "toml"@,
    }
}

/// The format that a file extension (or a `--format` value) stands for.
pub open spec fn format_of_extension(ext: Seq<char>) -> Option<Format> {
    if ext == "yaml"@ || ext == "yml"@ {
        Some(Format::Yaml)
    } else if ext == "json"@ {
        Some(Format::Json)
    } else if ext == "toml"@ {
        Some(Format::Toml)
    } else {
        None
    }
}

/// The extension of the last component of a path, as
/// `std::path::Path::extension` finds it: the text after the final `.` of
/// the file name, or none when the path has no file name, or the file name
/// has no `.` other than a leading one.
pub uninterp spec fn path_extension(path: Seq<char>) -> Option<Seq<char>>;

/// `std::path::Path::extension` on `path`, read back as text. The result is
/// named by `path_extension`; nothing more is claimed of it.
#[verifier::external_body]
fn extension_of(path: &str) -> (ext: Option<&str>)
    ensures
        match ext {
            Some(e) => path_extension(path@) == Some(e@),
            None => path_extension(path@) is None,
        },
{
    match std::path::Path::new(path).extension() {
        Some(e) => e.to_str(),
        None => None,
    }
}

/// The format of the file at `path`, judged by its extension.
pub open spec fn format_of_path(path: Seq<char>) -> Option<Format> {
    match path_extension(path) {
        Some(ext) => format_of_extension(ext),
        None => None,
    }
}

impl Format {
    /// The format that a file extension stands for: "yaml" or "yml", "json", "toml".
    pub fn from_extension(ext: &str) -> (f: Option<Format>)
        ensures
            f == format_of_extension(ext@),
    {
        if str_eq(ext, "yaml") || str_eq(ext, "yml") {
            Some(Format::Yaml)
        } else if str_eq(ext, "json") {
            Some(Format::Json)
        } else if str_eq(ext, "toml") {
            Some(Format::Toml)
        } else {
            None
        }
    }

    /// The format of the file at `path`, judged by its extension.
    pub fn from_path(path: &str) -> (f: Option<Format>)
        ensures
            f == format_of_path(path@),
    {
        match extension_of(path) {
            Some(ext) => Format::from_extension(ext),
            None => None,
        }
    }

    /// The name of this format.
    pub fn as_str(&self) -> (s: &'static str)
        ensures
            s@ == format_name(*self),
    {
        match self {
            Format::Yaml => "yaml",
            Format::Json => "json",
            Format::Toml => "toml",
        }
    }
}

/// What recognising a file's format gives for a file whose extension is `ext`:
/// the format, or else the failure that names the extension ("unknown"
/// when there is none).
pub open spec fn recognised(ext: Option<Seq<char>>, r: Result<Format, DeployError>) -> bool {
    let wanted = match ext {
        Some(e) => format_of_extension(e),
        None => None,
    };
    match r {
        Ok(f) => wanted == Some(f),
        Err(DeployError::UnsupportedFormat(name)) => wanted is None && name@ == match ext {
            Some(e) => e,
            None => "unknown"@,
        },
        Err(_) => false,
    }
}

/// Recognises the format of a file from its extension, `None` when it has none.
pub fn format_for_extension(ext: Option<&str>) -> (r: Result<Format, DeployError>)
    ensures
        recognised(match ext { Some(e) => Some(e@), None => None }, r),
{
    match ext {
        Some(e) => match Format::from_extension(e) {
            Some(f) => Ok(f),
            None => Err(DeployError::UnsupportedFormat(String::from_str(e))),
        },
        None => Err(DeployError::UnsupportedFormat(String::from_str("unknown"))),
    }
}

/// Recognises the format of the file at `path` from its extension; the
/// first step of loading a manifest from a file.
pub fn detect_format(path: &str) -> (r: Result<Format, DeployError>)
    ensures
        recognised(path_extension(path@), r),
        r matches Ok(f) ==> format_of_path(path@) == Some(f),
        r is Err ==> format_of_path(path@) is None,
{
    format_for_extension(extension_of(path))
}

/// The place that a parse failure names when the bytes came from no file.
pub open spec fn parse_label(f: Format) -> Seq<char> {
    match f {
        Format::Yaml => "<yaml>"@,
        Format::Json => "<json>"@,
        Format::Toml => "<toml>"@,
    }
}

/// The failure to parse bytes in the format `format`, with the parser's
/// message `source`.
pub fn parse_failure(format: Format, source: String) -> (e: DeployError)
    ensures
        e matches DeployError::Parse { path, source: s } && path@ == parse_label(format) && s == source,
{
    let label = match format {
        Format::Yaml => "<yaml>",
        Format::Json => "<json>",
        Format::Toml => "<toml>",
    };
    DeployError::Parse { path: String::from_str(label), source }
}

/// A failure, with the path of the file it concerns put in when it is a
/// parse failure; every other failure is kept as it is.
pub open spec fn at_path(e: DeployError, path: String) -> DeployError {
    match e {
        DeployError::Parse { source, .. } => DeployError::Parse { path, source },
        other => other,
    }
}

/// Puts the path of the file that was being read into a parse failure.
pub fn attach_path(e: DeployError, path: String) -> (r: DeployError)
    ensures
        r == at_path(e, path),
{
    match e {
        DeployError::Parse { source, .. } => DeployError::Parse { path, source },
        other => other,
    }
}

/// Every format is recognised again from its own name: reading back the
/// name that `as_str` gives yields the same format.
pub proof fn lemma_format_name_round_trip(f: Format)
    ensures
        format_of_extension(format_name(f)) == Some(f),
{
    reveal_strlit("yaml");
    reveal_strlit("yml");
    reveal_strlit("json");
    reveal_strlit("toml");
    assert("json"@[0] != "yaml"@[0]);
    assert("toml"@[0] != "yaml"@[0]);
    assert("toml"@[0] != "json"@[0]);
    assert("json"@.len() != "yml"@.len());
    assert("toml"@.len() != "yml"@.len());
}

/// Distinct formats have distinct names.
pub proof fn lemma_format_names_distinct(f: Format, g: Format)
    requires
        format_name(f) == format_name(g),
    ensures
        f == g,
{
    lemma_format_name_round_trip(f);
    lemma_format_name_round_trip(g);
}

/// Putting a path into a failure twice leaves the second path: the path of
/// a parse failure is the one that was put in last.
pub proof fn lemma_at_path_last_wins(e: DeployError, p: String, q: String)
    ensures
        at_path(at_path(e, p), q) == at_path(e, q),
{
}

/// Putting a path into a failure changes only parse failures, and keeps
/// their parser message.
pub proof fn lemma_at_path_keeps_kind(e: DeployError, p: String)
    ensures
        e is Parse <==> at_path(e, p) is Parse,
        e is Parse ==> at_path(e, p)->Parse_source == e->Parse_source && at_path(e, p)->Parse_path == p,
        !(e is Parse) ==> at_path(e, p) == e,
{
}

} // verus!
