//! The errors of the library: rule violations found by validation, and the
//! failures of loading a manifest.

use vstd::prelude::*;
use crate::text::decimal_string;

verus! {

/// A manifest rule that a value breaks.
#[derive(Debug)]
pub enum ValidationError {
    /// A required field is absent or empty.
    MissingField(&'static str),
    /// A field holds a value outside what the rules allow.
    InvalidValue { field: &'static str, detail: String },
    /// The manifest declares a format version other than the supported one.
    UnsupportedVersion(u32),
    /// Any other violation, described in words.
    Custom(String),
}

/// The mathematical content of a [`ValidationError`]: its variant and the
/// text of its fields.
pub enum Violation {
    MissingField(Seq<char>),
    InvalidValue(Seq<char>, Seq<char>),
    UnsupportedVersion(u32),
    Custom(Seq<char>),
}

impl View for ValidationError {
    type V = Violation;

    open spec fn view(&self) -> Violation {
        match self {
            ValidationError::MissingField(f) => Violation::MissingField(f@),
            ValidationError::InvalidValue { field, detail } => Violation::InvalidValue(field@, detail@),
            ValidationError::UnsupportedVersion(v) => Violation::UnsupportedVersion(*v),
            ValidationError::Custom(s) => Violation::Custom(s@),
        }
    }
}

/// The message that describes a violation to a reader.
pub open spec fn violation_message(v: Violation) -> Seq<char> {
    match v {
        Violation::MissingField(f) => "missing required field: "@ + f,
        Violation::InvalidValue(f, d) => "invalid value for "@ + f + ": "@ + d,
        Violation::UnsupportedVersion(n) => "version "@ + crate::text::decimal(n as nat) + " is not supported"@,
        Violation::Custom(s) => s,
    }
}

impl ValidationError {
    /// The message that describes this violation.
    pub fn to_string(&self) -> (s: String)
        ensures
            s@ == violation_message(self@),
    {
        match self {
            ValidationError::MissingField(f) => {
                let mut s = String::from_str("missing required field: ");
                s.append(f);
                s
            },
            ValidationError::InvalidValue { field, detail } => {
                let mut s = String::from_str("invalid value for ");
                s.append(field);
                s.append(": ");
                s.append(detail.as_str());
                s
            },
            ValidationError::UnsupportedVersion(v) => {
                let mut s = String::from_str("version ");
                let digits = decimal_string(*v as u64);
                s.append(digits.as_str());
                s.append(" is not supported");
                s
            },
            ValidationError::Custom(c) => String::from_str(c.as_str()),
        }
    }
}

/// A failure to load a manifest: its reading, its parsing, its format, or
/// one of its rules.
#[derive(Debug)]
pub enum DeployError {
    /// The manifest breaks a rule.
    Validation(ValidationError),
    /// The manifest at `path` could not be read; `source` says why.
    Io { path: String, source: String },
    /// The manifest at `path` could not be parsed; `source` says why.
    Parse { path: String, source: String },
    /// The manifest's format is not one that the library reads.
    UnsupportedFormat(String),
}

/// The message that describes a loading failure to a reader.
pub open spec fn deploy_error_message(e: DeployError) -> Seq<char> {
    match e {
        DeployError::Validation(v) => "validation error: "@ + violation_message(v@),
        DeployError::Io { path, source } => "I/O error reading "@ + path@ + ": "@ + source@,
        DeployError::Parse { path, source } => "parse error in "@ + path@ + ": "@ + source@,
        DeployError::UnsupportedFormat(f) => "unsupported format: "@ + f@,
    }
}

impl DeployError {
    /// The message that describes this failure.
    pub fn to_string(&self) -> (s: String)
        ensures
            s@ == deploy_error_message(*self),
    {
        match self {
            DeployError::Validation(v) => {
                let mut s = String::from_str("validation error: ");
                let inner = v.to_string();
                s.append(inner.as_str());
                s
            },
            DeployError::Io { path, source } => {
                let mut s = String::from_str("I/O error reading ");
                s.append(path.as_str());
                s.append(": ");
                s.append(source.as_str());
                s
            },
            DeployError::Parse { path, source } => {
                let mut s = String::from_str("parse error in ");
                s.append(path.as_str());
                s.append(": ");
                s.append(source.as_str());
                s
            },
            DeployError::UnsupportedFormat(f) => {
                let mut s = String::from_str("unsupported format: ");
                s.append(f.as_str());
                s
            },
        }
    }
}

impl From<ValidationError> for DeployError {
    fn from(e: ValidationError) -> (r: DeployError) {
        DeployError::Validation(e)
    }
}

impl vstd::std_specs::convert::FromSpecImpl<ValidationError> for DeployError {
    open spec fn obeys_from_spec() -> bool {
        true
    }

    open spec fn from_spec(e: ValidationError) -> DeployError {
        DeployError::Validation(e)
    }
}

} // verus!
