//! The error of the resolve and fetch stage: its own failures, and those of the
//! collaborators it wraps, under one classification.
use crate::diagnostics::{
    declared, delegated, meta_of, Classification, Classified, Declaration,
    Diagnostic, DiagnosticCategory, DiagnosticError, FsPath, Net, NetMeta, ParseMeta, Parseable,
    PathMeta,
};
use crate::package_spec::{spec_text, PackageSpec, SpecifierParseError};
use vstd::prelude::*;

verus! {

#[verifier::external_type_specification]
#[verifier::external_body]
pub struct ExIoError(std::io::Error);

#[verifier::external_type_specification]
#[verifier::external_body]
pub struct ExJsonError(serde_json::Error);

#[verifier::external_type_specification]
#[verifier::external_body]
pub struct ExUrlParseError(url::ParseError);

pub const MISSING_VERSION_LABEL: &'static str = "rogga::missing_version";

pub const MISSING_VERSION_ADVICE: &'static str =
    "Try using `oro view` to see what versions are available";

pub const DIR_READ_LABEL: &'static str = "rogga::dir::read";

pub const SERDE_LABEL: &'static str = "rogga::serde";

pub const BAD_URL_LABEL: &'static str = "rogga::bad_url";

pub const MISC_LABEL: &'static str = "rogga::misc";

/// Error type returned by all calls of the resolve and fetch stage.
#[derive(Debug)]
pub enum RoggaError {
    /// The package was found, but the version that was resolved does not exist.
    MissingVersion(PackageSpec, String),
    /// A specifier did not parse; classified as the parse error is.
    PackageSpecError(SpecifierParseError),
    /// The resolver failed; classified as the resolver classified it.
    ResolverError(DiagnosticError),
    /// A directory could not be read.
    IoError(std::io::Error, String),
    /// The registry client failed; classified as the client classified it.
    OroClientError(DiagnosticError),
    /// A document did not decode.
    SerdeError(serde_json::Error),
    /// A URL did not parse.
    UrlError(url::ParseError),
    /// A miscellaneous, usually internal error.
    MiscError(String),
}

/// The message of a missing version.
pub open spec fn missing_version_message(spec: Seq<char>, version: Seq<char>) -> Seq<char> {
    "Package for `"@ + spec + "` was found, but resolved version `"@ + version
        + "` does not exist."@
}

/// The message of a miscellaneous error.
pub open spec fn misc_message(text: Seq<char>) -> Seq<char> {
    "A miscellaneous error occurred: "@ + text
}

impl Net for RoggaError {
    open spec fn net_meta(&self) -> Option<NetMeta> {
        match self {
            RoggaError::PackageSpecError(e) => e.net_meta(),
            RoggaError::ResolverError(e) => e.net_meta(),
            RoggaError::OroClientError(e) => e.net_meta(),
            _ => None,
        }
    }

    fn net(&self) -> (r: Option<NetMeta>) {
        match self {
            RoggaError::PackageSpecError(e) => e.net(),
            RoggaError::ResolverError(e) => e.net(),
            RoggaError::OroClientError(e) => e.net(),
            _ => None,
        }
    }
}

impl FsPath for RoggaError {
    open spec fn path_meta(&self) -> Option<PathMeta> {
        match self {
            RoggaError::PackageSpecError(e) => e.path_meta(),
            RoggaError::ResolverError(e) => e.path_meta(),
            RoggaError::OroClientError(e) => e.path_meta(),
            RoggaError::IoError(_, path) => Some(PathMeta { path: *path }),
            _ => None,
        }
    }

    fn path(&self) -> (r: Option<PathMeta>) {
        match self {
            RoggaError::PackageSpecError(e) => e.path(),
            RoggaError::ResolverError(e) => e.path(),
            RoggaError::OroClientError(e) => e.path(),
            RoggaError::IoError(_, path) => Some(PathMeta { path: path.clone() }),
            _ => None,
        }
    }
}

impl Parseable for RoggaError {
    open spec fn parse_meta(&self) -> Option<ParseMeta> {
        match self {
            RoggaError::PackageSpecError(e) => e.parse_meta(),
            RoggaError::ResolverError(e) => e.parse_meta(),
            RoggaError::OroClientError(e) => e.parse_meta(),
            _ => None,
        }
    }

    fn parse_report(&self) -> (r: Option<ParseMeta>) {
        match self {
            RoggaError::PackageSpecError(e) => e.parse_report(),
            RoggaError::ResolverError(e) => e.parse_report(),
            RoggaError::OroClientError(e) => e.parse_report(),
            _ => None,
        }
    }
}

impl Diagnostic for RoggaError {
    open spec fn classified(&self) -> Classified {
        match self {
            RoggaError::MissingVersion(..) => declared(
                Some(DiagnosticCategory::Misc),
                Some(MISSING_VERSION_LABEL@),
                Some(MISSING_VERSION_ADVICE@),
            ),
            RoggaError::PackageSpecError(e) => e.classified(),
            RoggaError::ResolverError(e) => e.classified(),
            RoggaError::IoError(..) => declared(
                Some(DiagnosticCategory::Fs),
                Some(DIR_READ_LABEL@),
                None,
            ),
            RoggaError::OroClientError(e) => e.classified(),
            RoggaError::SerdeError(_) => declared(None, Some(SERDE_LABEL@), None),
            RoggaError::UrlError(_) => declared(None, Some(BAD_URL_LABEL@), None),
            RoggaError::MiscError(_) => declared(
                Some(DiagnosticCategory::Misc),
                Some(MISC_LABEL@),
                None,
            ),
        }
    }

    open spec fn message_of(&self) -> Option<Seq<char>> {
        match self {
            RoggaError::MissingVersion(spec, version) => Some(
                missing_version_message(spec_text(spec@), version@),
            ),
            RoggaError::PackageSpecError(e) => e.message_of(),
            RoggaError::ResolverError(e) => e.message_of(),
            RoggaError::OroClientError(e) => e.message_of(),
            RoggaError::MiscError(text) => Some(misc_message(text@)),
            _ => None,
        }
    }

    fn classification(&self) -> (r: Classification) {
        match self {
            RoggaError::MissingVersion(..) => Declaration::new().category(
                DiagnosticCategory::Misc,
            ).label(MISSING_VERSION_LABEL).advice(MISSING_VERSION_ADVICE).classify(),
            RoggaError::PackageSpecError(e) => delegated(e),
            RoggaError::ResolverError(e) => delegated(e),
            RoggaError::IoError(..) => Declaration::new().category(DiagnosticCategory::Fs).label(
                DIR_READ_LABEL,
            ).classify(),
            RoggaError::OroClientError(e) => delegated(e),
            RoggaError::SerdeError(_) => Declaration::new().label(SERDE_LABEL).classify(),
            RoggaError::UrlError(_) => Declaration::new().label(BAD_URL_LABEL).classify(),
            RoggaError::MiscError(_) => Declaration::new().category(DiagnosticCategory::Misc).label(
                MISC_LABEL,
            ).classify(),
        }
    }

    fn message(&self) -> (r: String) {
        match self {
            RoggaError::MissingVersion(spec, version) => {
                let mut out = "Package for `".to_owned();
                let text = spec.to_text();
                out.append(text.as_str());
                out.append("` was found, but resolved version `");
                out.append(version.as_str());
                out.append("` does not exist.");
                out
            },
            RoggaError::PackageSpecError(e) => e.message(),
            RoggaError::ResolverError(e) => e.message(),
            RoggaError::IoError(e, _) => e.to_string(),
            RoggaError::OroClientError(e) => e.message(),
            RoggaError::SerdeError(e) => e.to_string(),
            RoggaError::UrlError(e) => e.to_string(),
            RoggaError::MiscError(text) => {
                let mut out = "A miscellaneous error occurred: ".to_owned();
                out.append(text.as_str());
                out
            },
        }
    }
}

/// A variant that wraps a specifier error is classified exactly as the wrapped error:
/// same category, label, advice, metadata and message.
pub proof fn spec_error_delegates(e: SpecifierParseError)
    ensures
        RoggaError::PackageSpecError(e).classified() == e.classified(),
        meta_of(&RoggaError::PackageSpecError(e)) == meta_of(&e),
        RoggaError::PackageSpecError(e).message_of() == e.message_of(),
{
}

/// A variant that wraps a resolver error is classified exactly as the wrapped error.
pub proof fn resolver_error_delegates(e: DiagnosticError)
    ensures
        RoggaError::ResolverError(e).classified() == e.classified(),
        meta_of(&RoggaError::ResolverError(e)) == meta_of(&e),
        RoggaError::ResolverError(e).message_of() == e.message_of(),
{
}

/// A variant that wraps a registry client error is classified exactly as the wrapped error.
pub proof fn client_error_delegates(e: DiagnosticError)
    ensures
        RoggaError::OroClientError(e).classified() == e.classified(),
        meta_of(&RoggaError::OroClientError(e)) == meta_of(&e),
        RoggaError::OroClientError(e).message_of() == e.message_of(),
{
}

} // verus!
