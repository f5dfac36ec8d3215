//! Print requests: the checks made before any printing, and the choice of
//! the job that carries a request out.
use vstd::prelude::*;
use vstd::string::*;
use crate::outcome::PrintError;
use crate::raster::{GdiJob, Stage, FALLBACK_LINE_HEIGHT};
use crate::spool::{SpoolJob, SpoolStage, spool_text, spool_script};
use crate::text::{lines_of, views};

verus! {

/// A print request as the user interface sends it.
pub struct PrintTicketPayload {
    pub text: String,
    pub printer_name: Option<String>,
    /// Line endings of the spool file: carriage return and line feed where
    /// this is set, the text as it is where it is not.
    pub use_crlf: Option<bool>,
}

/// The printer that a request names, where it names one.
pub open spec fn named_printer(p: PrintTicketPayload) -> Option<Seq<char>> {
    match p.printer_name {
        Some(n) => if n@.len() > 0 {
            Some(n@)
        } else {
            None
        },
        None => None,
    }
}

/// The error for a request that names no printer.
pub open spec fn no_printer_message() -> Seq<char> {
    "No printer configured"@
}

/// The error on a platform without native printing.
pub open spec fn unsupported_message() -> Seq<char> {
    "Impresión solo soportada en Windows"@
}

/// The printer name of a request, where it is there and not empty.
fn printer_of(payload: &PrintTicketPayload) -> (r: Option<&str>)
    ensures
        match r {
            Some(s) => named_printer(*payload) == Some(s@),
            None => named_printer(*payload) is None,
        },
{
    match &payload.printer_name {
        Some(n) => if n.as_str().is_empty() {
            None
        } else {
            Some(n.as_str())
        },
        None => None,
    }
}

/// The raster job for a request. A request that names no printer is a
/// configuration error, and one on a platform without native printing is
/// refused; neither reaches the printing system.
pub fn print_ticket(payload: &PrintTicketPayload, native_printing: bool) -> (r: Result<
    GdiJob,
    PrintError,
>)
    ensures
        named_printer(*payload) is None ==> (r matches Err(PrintError::Configuration(m))
            && m@ == no_printer_message()),
        named_printer(*payload) is Some && !native_printing ==> (r matches Err(
            PrintError::PlatformUnsupported(m),
        ) && m@ == unsupported_message()),
        named_printer(*payload) is Some && native_printing ==> (r matches Ok(job) && {
            &&& job.wf()
            &&& views(job.lines@) == lines_of(payload.text@)
            &&& Some(job.printer@) == named_printer(*payload)
            &&& job.document@ == "Ticket Novum"@
            &&& job.face@ == "Consolas"@
            &&& job.held() == 0
            &&& job.error is None
            &&& job.next_line == 0
            &&& job.line_height == FALLBACK_LINE_HEIGHT
            &&& job.stage == if job.lines.len() == 0 {
                Stage::Unwind
            } else {
                Stage::Open
            }
        }),
{
    match printer_of(payload) {
        None => Err(PrintError::Configuration(String::from_str("No printer configured"))),
        Some(name) => if native_printing {
            Ok(GdiJob::new(payload.text.as_str(), name))
        } else {
            Err(
                PrintError::PlatformUnsupported(
                    String::from_str("Impresión solo soportada en Windows"),
                ),
            )
        },
    }
}

/// Whether a request asks for carriage returns before line feeds.
pub open spec fn wants_crlf(p: PrintTicketPayload) -> bool {
    match p.use_crlf {
        Some(b) => b,
        None => false,
    }
}

/// The spool job for a request, through the file at `path`. The checks are
/// those of `print_ticket`.
pub fn print_ticket_file(payload: &PrintTicketPayload, native_printing: bool, path: &str) -> (r:
    Result<SpoolJob, PrintError>)
    ensures
        named_printer(*payload) is None ==> (r matches Err(PrintError::Configuration(m))
            && m@ == no_printer_message()),
        named_printer(*payload) is Some && !native_printing ==> (r matches Err(
            PrintError::PlatformUnsupported(m),
        ) && m@ == unsupported_message()),
        named_printer(*payload) is Some && native_printing ==> (r matches Ok(job) && {
            &&& job.wf()
            &&& job.stage == SpoolStage::Write
            &&& job.error is None
            &&& job.path@ == path@
            &&& job.contents@ == spool_text(payload.text@, wants_crlf(*payload))
            &&& job.script@ == spool_script(path@, named_printer(*payload))
        }),
{
    match printer_of(payload) {
        None => Err(PrintError::Configuration(String::from_str("No printer configured"))),
        Some(name) => if native_printing {
            let use_crlf = match payload.use_crlf {
                Some(b) => b,
                None => false,
            };
            Ok(SpoolJob::new(payload.text.as_str(), Some(name), use_crlf, path))
        } else {
            Err(
                PrintError::PlatformUnsupported(
                    String::from_str("Impresión solo soportada en Windows"),
                ),
            )
        },
    }
}

} // verus!
