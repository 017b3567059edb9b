//! Error classifier: every fatal failure is mapped into one kind of a
//! closed taxonomy before it is shown to the operator, with a
//! remediation text per kind, and the underlying detail preserved
//! verbatim for diagnostics.

use vstd::prelude::*;
use vstd::string::StringExecFns;
use crate::runner::ProcessError;

verus! {

/// Where in the build the failure was first observed.
#[derive(Clone, Copy, Debug, PartialEq, Eq, Structural)]
pub enum FailureOrigin {
    RuntimeDetection,
    DependencyListing,
    RuntimeInstall,
    ManifestRead,
    CacheAccess,
    PackageManagerSetup,
    PackageManagerInstall,
    ProjectTask,
}

/// What failed, with its kind-specific payload. The payload flows upward
/// unchanged until it is rendered.
pub enum FailureSource {
    /// An external command exited nonzero or was terminated.
    Process(ProcessError),
    /// A filesystem or temp-file fault, as diagnostic text.
    Io(String),
    /// An input that did not parse, as diagnostic text.
    Parse(String),
    /// A defect reported by the orchestrating framework itself — the
    /// tool's problem, not the project's.
    Framework(String),
}

/// The closed set of failure kinds surfaced to the operator, plus the
/// distinct internal category for failures originating outside the
/// declared taxonomy.
#[derive(Clone, Copy, Debug, PartialEq, Eq, Structural)]
pub enum ErrorKind {
    RuntimeDetectionFailed,
    DependencyListingFailed,
    RuntimeInstallFailed,
    ManifestLockMissing,
    CacheIoFailed,
    PackageManagerSetupFailed,
    PackageManagerInstallFailed,
    ProjectTaskFailed,
    /// Not part of the taxonomy proper: an unexpected failure of the
    /// tool itself, reported with a generic message.
    Internal,
}

/// A failure after classification: exactly one kind, the untouched
/// source, and the remediation text for the kind.
pub struct ClassifiedError {
    pub kind: ErrorKind,
    pub source: FailureSource,
    pub remediation: String,
}

/// The kind owed for a failure: a framework defect is Internal whatever
/// its origin; every other failure is classified by where it arose.
pub open spec fn kind_of(origin: FailureOrigin, source: FailureSource) -> ErrorKind {
    match source {
        FailureSource::Framework(_) => ErrorKind::Internal,
        _ => match origin {
            FailureOrigin::RuntimeDetection => ErrorKind::RuntimeDetectionFailed,
            FailureOrigin::DependencyListing => ErrorKind::DependencyListingFailed,
            FailureOrigin::RuntimeInstall => ErrorKind::RuntimeInstallFailed,
            FailureOrigin::ManifestRead => ErrorKind::ManifestLockMissing,
            FailureOrigin::CacheAccess => ErrorKind::CacheIoFailed,
            FailureOrigin::PackageManagerSetup => ErrorKind::PackageManagerSetupFailed,
            FailureOrigin::PackageManagerInstall => ErrorKind::PackageManagerInstallFailed,
            FailureOrigin::ProjectTask => ErrorKind::ProjectTaskFailed,
        },
    }
}

/// The remediation text for each kind. The Internal text is the generic
/// "the tool has a problem" message, not a remediation.
pub open spec fn remediation_of(kind: ErrorKind) -> Seq<char> {
    match kind {
        ErrorKind::RuntimeDetectionFailed => "The runtime version could not be detected from the application. Without this information the build cannot continue."@,
        ErrorKind::DependencyListingFailed => "Dependency information could not be read from the application. Without this information the build cannot continue."@,
        ErrorKind::RuntimeInstallFailed => "Could not install the detected runtime version."@,
        ErrorKind::ManifestLockMissing => "A manifest lock file is required in the root of the application, but none was found. It may not be tracked in version control, or you may be on a different branch."@,
        ErrorKind::CacheIoFailed => "An internal error occurred while caching files."@,
        ErrorKind::PackageManagerSetupFailed => "Installation of the package manager failed. It is needed to install the dependencies listed in the manifest."@,
        ErrorKind::PackageManagerInstallFailed => "Could not install dependencies via the package manager. Dependencies are listed in the manifest and resolved in its lock file."@,
        ErrorKind::ProjectTaskFailed => "A project-defined build task failed while being run."@,
        ErrorKind::Internal => "An unexpected internal error was reported by the framework used by this build tool. If the issue persists, consider opening an issue or a support ticket."@,
    }
}

/// The remediation text for a kind.
pub fn remediation_text(kind: ErrorKind) -> (r: String)
    ensures
        r@ == remediation_of(kind),
{
    match kind {
        ErrorKind::RuntimeDetectionFailed => String::from_str(
            "The runtime version could not be detected from the application. Without this information the build cannot continue.",
        ),
        ErrorKind::DependencyListingFailed => String::from_str(
            "Dependency information could not be read from the application. Without this information the build cannot continue.",
        ),
        ErrorKind::RuntimeInstallFailed => String::from_str(
            "Could not install the detected runtime version.",
        ),
        ErrorKind::ManifestLockMissing => String::from_str(
            "A manifest lock file is required in the root of the application, but none was found. It may not be tracked in version control, or you may be on a different branch.",
        ),
        ErrorKind::CacheIoFailed => String::from_str(
            "An internal error occurred while caching files.",
        ),
        ErrorKind::PackageManagerSetupFailed => String::from_str(
            "Installation of the package manager failed. It is needed to install the dependencies listed in the manifest.",
        ),
        ErrorKind::PackageManagerInstallFailed => String::from_str(
            "Could not install dependencies via the package manager. Dependencies are listed in the manifest and resolved in its lock file.",
        ),
        ErrorKind::ProjectTaskFailed => String::from_str(
            "A project-defined build task failed while being run.",
        ),
        ErrorKind::Internal => String::from_str(
            "An unexpected internal error was reported by the framework used by this build tool. If the issue persists, consider opening an issue or a support ticket.",
        ),
    }
}

/// Classifies a failure: assigns the one kind its origin and source owe,
/// attaches the remediation text, and keeps the underlying source
/// untouched — detail is never discarded.
pub fn classify(origin: FailureOrigin, source: FailureSource) -> (e: ClassifiedError)
    ensures
        e.kind == kind_of(origin, source),
        e.source == source,
        e.remediation@ == remediation_of(e.kind),
{
    let kind = match &source {
        FailureSource::Framework(_) => ErrorKind::Internal,
        _ => match origin {
            FailureOrigin::RuntimeDetection => ErrorKind::RuntimeDetectionFailed,
            FailureOrigin::DependencyListing => ErrorKind::DependencyListingFailed,
            FailureOrigin::RuntimeInstall => ErrorKind::RuntimeInstallFailed,
            FailureOrigin::ManifestRead => ErrorKind::ManifestLockMissing,
            FailureOrigin::CacheAccess => ErrorKind::CacheIoFailed,
            FailureOrigin::PackageManagerSetup => ErrorKind::PackageManagerSetupFailed,
            FailureOrigin::PackageManagerInstall => ErrorKind::PackageManagerInstallFailed,
            FailureOrigin::ProjectTask => ErrorKind::ProjectTaskFailed,
        },
    };
    let remediation = remediation_text(kind);
    ClassifiedError { kind, source, remediation }
}

} // verus!
