//! The error taxonomy of a conversion run.

use vstd::prelude::*;
use vstd::string::*;

verus! {

/// Why a conversion step failed. Startup failures are fatal to the run;
/// per-file failures are returned to the caller, which decides between
/// aborting and skip-and-report.
#[derive(Clone, Copy, Debug, PartialEq, Eq, Structural)]
pub enum ProcessorErrorKind {
    /// The source root is missing (or the destination root could not be made).
    StartupDirectoryError,
    /// The source file could not be opened for reading.
    SourceOpenError,
    /// Reading the source or writing the destination failed mid-conversion.
    ConversionIOError,
}

/// A failed conversion step: what went wrong, and at which path. Carries the
/// path as a plain value so that a caller can produce an actionable message;
/// nothing is swallowed silently.
#[derive(Debug)]
pub struct ProcessorError {
    kind: ProcessorErrorKind,
    path: String,
}

/// The fixed message prefix that `ProcessorError::message` puts before the
/// offending path, by error kind.
pub open spec fn message_prefix(kind: ProcessorErrorKind) -> Seq<char> {
    match kind {
        ProcessorErrorKind::StartupDirectoryError => "startup directory is unusable: "@,
        ProcessorErrorKind::SourceOpenError => "cannot open source file: "@,
        ProcessorErrorKind::ConversionIOError => "conversion failed on: "@,
    }
}

impl ProcessorError {
    /// What went wrong.
    pub closed spec fn kind_spec(&self) -> ProcessorErrorKind {
        self.kind
    }

    /// The path at which it went wrong.
    pub closed spec fn path_spec(&self) -> Seq<char> {
        self.path@
    }

    /// An error of the given kind at the given path.
    pub fn new(kind: ProcessorErrorKind, path: &str) -> (e: Self)
        ensures
            e.kind_spec() == kind,
            e.path_spec() == path@,
    {
        ProcessorError { kind, path: String::from_str(path) }
    }

    /// A fatal startup error: the source root is missing or the destination
    /// root could not be created.
    pub fn startup_directory(path: &str) -> (e: Self)
        ensures
            e.kind_spec() == ProcessorErrorKind::StartupDirectoryError,
            e.path_spec() == path@,
    {
        Self::new(ProcessorErrorKind::StartupDirectoryError, path)
    }

    /// A per-file error: the source file could not be opened for reading.
    pub fn source_open(path: &str) -> (e: Self)
        ensures
            e.kind_spec() == ProcessorErrorKind::SourceOpenError,
            e.path_spec() == path@,
    {
        Self::new(ProcessorErrorKind::SourceOpenError, path)
    }

    /// A per-file error: reading or writing failed during the conversion.
    pub fn conversion_io(path: &str) -> (e: Self)
        ensures
            e.kind_spec() == ProcessorErrorKind::ConversionIOError,
            e.path_spec() == path@,
    {
        Self::new(ProcessorErrorKind::ConversionIOError, path)
    }

    /// What went wrong.
    pub fn kind(&self) -> (k: ProcessorErrorKind)
        ensures
            k == self.kind_spec(),
    {
        self.kind
    }

    /// The path at which it went wrong.
    pub fn path(&self) -> (p: &str)
        ensures
            p@ == self.path_spec(),
    {
        self.path.as_str()
    }

    /// A human-readable account of the failure: the kind's fixed prefix,
    /// then the offending path.
    pub fn message(&self) -> (m: String)
        ensures
            m@ == message_prefix(self.kind_spec()) + self.path_spec(),
    {
        let prefix = match self.kind {
            ProcessorErrorKind::StartupDirectoryError => "startup directory is unusable: ",
            ProcessorErrorKind::SourceOpenError => "cannot open source file: ",
            ProcessorErrorKind::ConversionIOError => "conversion failed on: ",
        };
        let mut m = String::from_str(prefix);
        m.append(self.path.as_str());
        m
    }
}

} // verus!
