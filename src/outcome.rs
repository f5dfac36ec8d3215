//! What a print call reports, and what the operating system answers to
//! each request of a print job.
use vstd::prelude::*;
use vstd::string::*;

verus! {

/// Why a print call failed; each kind carries a readable diagnostic.
#[derive(Debug, PartialEq, Eq)]
pub enum PrintError {
    /// No printer was named.
    Configuration(String),
    /// The printer list could not be read.
    Enumeration(String),
    /// No device context could be opened on the printer.
    DeviceAcquisition(String),
    /// Starting or ending the document or the page failed.
    JobControl(String),
    /// Writing the spool file or running the print command failed.
    Spool(String),
    /// This platform has no native printing.
    PlatformUnsupported(String),
}

impl PrintError {
    /// The diagnostic text that the error carries.
    pub open spec fn diagnostic(&self) -> Seq<char> {
        match self {
            PrintError::Configuration(d) => d@,
            PrintError::Enumeration(d) => d@,
            PrintError::DeviceAcquisition(d) => d@,
            PrintError::JobControl(d) => d@,
            PrintError::Spool(d) => d@,
            PrintError::PlatformUnsupported(d) => d@,
        }
    }

    /// A copy of the error.
    pub fn duplicate(&self) -> (r: PrintError)
        ensures
            r == *self,
    {
        match self {
            PrintError::Configuration(d) => PrintError::Configuration(d.clone()),
            PrintError::Enumeration(d) => PrintError::Enumeration(d.clone()),
            PrintError::DeviceAcquisition(d) => PrintError::DeviceAcquisition(d.clone()),
            PrintError::JobControl(d) => PrintError::JobControl(d.clone()),
            PrintError::Spool(d) => PrintError::Spool(d.clone()),
            PrintError::PlatformUnsupported(d) => PrintError::PlatformUnsupported(d.clone()),
        }
    }

    /// The message shown to the user: the diagnostic text.
    pub fn message(&self) -> (r: String)
        ensures
            r@ == self.diagnostic(),
    {
        match self {
            PrintError::Configuration(d) => d.clone(),
            PrintError::Enumeration(d) => d.clone(),
            PrintError::DeviceAcquisition(d) => d.clone(),
            PrintError::JobControl(d) => d.clone(),
            PrintError::Spool(d) => d.clone(),
            PrintError::PlatformUnsupported(d) => d.clone(),
        }
    }
}

/// The outcome that a finished job reports.
pub open spec fn outcome_of(error: Option<PrintError>) -> Result<(), PrintError> {
    match error {
        Some(e) => Err(e),
        None => Ok(()),
    }
}

/// Copies a pending error into the result of a job.
pub fn outcome(error: &Option<PrintError>) -> (r: Result<(), PrintError>)
    ensures
        r == outcome_of(*error),
{
    match error {
        Some(e) => Err(e.duplicate()),
        None => Ok(()),
    }
}

/// The operating system's answer to one request of a print job.
#[derive(Debug, PartialEq, Eq)]
pub enum Reply {
    /// The request succeeded.
    Done,
    /// The request failed, with the system's diagnostic text.
    Failed(String),
    /// A command ran and reported failure, with its error output.
    CommandFailed(String),
    /// The font metrics that were asked for.
    Metrics { height: i32, external_leading: i32 },
}

/// `prefix` followed by `detail`.
pub fn prefixed(prefix: &str, detail: &String) -> (r: String)
    ensures
        r@ == prefix@ + detail@,
{
    let mut r = String::from_str(prefix);
    r.append(detail.as_str());
    r
}

} // verus!
