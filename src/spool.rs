//! The spool job: the text goes to a temporary file, and a print command of
//! the operating system sends that file's raw content to the printer.
//!
//! As with the raster job, each state names one request; the caller
//! performs it and hands the answer to `print_ticket_file_windows`. The
//! file is removed once the command has run, whatever its outcome.
use vstd::prelude::*;
use vstd::string::*;
use crate::outcome::{PrintError, Reply, outcome, outcome_of, prefixed};

verus! {

/// `s` with every `c` replaced by `t`.
pub open spec fn replaced(s: Seq<char>, c: char, t: Seq<char>) -> Seq<char>
    decreases s.len(),
{
    if s.len() == 0 {
        Seq::empty()
    } else {
        replaced(s.drop_last(), c, t) + if s.last() == c {
            t
        } else {
            seq![s.last()]
        }
    }
}

/// What the spool file holds: with `use_crlf`, every line feed becomes a
/// carriage return and line feed and one more such pair ends the text;
/// without it, the text as it is.
pub open spec fn spool_text(s: Seq<char>, use_crlf: bool) -> Seq<char> {
    if use_crlf {
        replaced(s, '\n', "\r\n"@) + "\r\n"@
    } else {
        s
    }
}

/// `s` as a single-quoted literal of the command shell.
pub open spec fn quoted(s: Seq<char>) -> Seq<char> {
    "'"@ + replaced(s, '\'', "''"@) + "'"@
}

/// The command that prints the file at `path`, on the named printer or on
/// the default one.
pub open spec fn spool_script(path: Seq<char>, printer: Option<Seq<char>>) -> Seq<char> {
    "Get-Content -Path "@ + quoted(path) + " -Raw | Out-Printer"@ + match printer {
        Some(n) => " -Name "@ + quoted(n),
        None => Seq::empty(),
    }
}

/// The view of an optional string.
pub open spec fn opt_view(o: Option<&str>) -> Option<Seq<char>> {
    match o {
        Some(s) => Some(s@),
        None => None,
    }
}

/// `text` with every `c` replaced by `t`.
pub fn replace_char(text: &str, c: char, t: &str) -> (r: String)
    ensures
        r@ == replaced(text@, c, t@),
{
    let n = text.unicode_len();
    let mut r = String::new();
    let mut i: usize = 0;
    while i < n
        invariant
            n == text@.len(),
            i <= n,
            r@ == replaced(text@.take(i as int), c, t@),
        decreases n - i,
    {
        proof {
            assert(text@.take(i + 1).drop_last() =~= text@.take(i as int));
        }
        if text.get_char(i) == c {
            r.append(t);
        } else {
            let one = text.substring_char(i, i + 1);
            proof {
                assert(one@ =~= seq![text@[i as int]]);
            }
            r.append(one);
        }
        i = i + 1;
    }
    proof {
        assert(text@.take(n as int) =~= text@);
    }
    r
}

/// The content of the spool file for `text`.
pub fn normalize_line_endings(text: &str, use_crlf: bool) -> (r: String)
    ensures
        r@ == spool_text(text@, use_crlf),
{
    if use_crlf {
        let mut r = replace_char(text, '\n', "\r\n");
        r.append("\r\n");
        r
    } else {
        String::from_str(text)
    }
}

/// `s` as a single-quoted literal of the command shell.
pub fn quote(s: &str) -> (r: String)
    ensures
        r@ == quoted(s@),
{
    let mut r = String::from_str("'");
    let inner = replace_char(s, '\'', "''");
    r.append(inner.as_str());
    r.append("'");
    r
}

/// The command that prints the file at `path`.
pub fn print_script(path: &str, printer: Option<&str>) -> (r: String)
    ensures
        r@ == spool_script(path@, opt_view(printer)),
{
    let mut r = String::from_str("Get-Content -Path ");
    let p = quote(path);
    r.append(p.as_str());
    r.append(" -Raw | Out-Printer");
    match printer {
        Some(n) => {
            r.append(" -Name ");
            let q = quote(n);
            r.append(q.as_str());
        },
        None => {
            proof {
                assert(r@ + Seq::<char>::empty() =~= r@);
            }
        },
    }
    r
}

/// The request that a spool job in this stage makes next.
#[derive(Debug, Clone, Copy, PartialEq, Eq)]
pub enum SpoolStage {
    /// Write the spool file.
    Write,
    /// Run the print command.
    Run,
    /// Remove the spool file.
    Remove,
    /// Report.
    Done,
}

/// One request of the spool job to the operating system.
#[derive(Debug, PartialEq, Eq)]
pub enum SpoolAction {
    WriteFile { path: String, contents: String },
    /// Run the command with no console window. A command that cannot be
    /// started answers `Failed`; one that ran and failed answers
    /// `CommandFailed` with its error output.
    RunScript { script: String },
    /// Remove the file; a failure here is not reported.
    RemoveFile { path: String },
    /// The job is over, with this result.
    Finish(Result<(), PrintError>),
}

/// A spool job.
pub struct SpoolJob {
    pub path: String,
    pub contents: String,
    pub script: String,
    pub stage: SpoolStage,
    /// The error met, which the job reports.
    pub error: Option<PrintError>,
}

impl SpoolJob {
    pub open spec fn wf(&self) -> bool {
        (self.stage == SpoolStage::Write || self.stage == SpoolStage::Run) ==> self.error is None
    }

    /// The number of requests left at most before the job finishes.
    pub open spec fn measure(&self) -> nat {
        match self.stage {
            SpoolStage::Write => 3,
            SpoolStage::Run => 2,
            SpoolStage::Remove => 1,
            SpoolStage::Done => 0,
        }
    }

    /// The request that the job makes now.
    pub open spec fn action(&self) -> SpoolAction {
        match self.stage {
            SpoolStage::Write => SpoolAction::WriteFile { path: self.path, contents: self.contents },
            SpoolStage::Run => SpoolAction::RunScript { script: self.script },
            SpoolStage::Remove => SpoolAction::RemoveFile { path: self.path },
            SpoolStage::Done => SpoolAction::Finish(outcome_of(self.error)),
        }
    }

    /// `next` is this job after the answer `reply` to `self.action()`.
    pub open spec fn stepped(&self, next: SpoolJob, reply: Reply) -> bool {
        &&& next.path == self.path
        &&& next.contents == self.contents
        &&& next.script == self.script
        &&& match self.stage {
            SpoolStage::Write => match reply {
                Reply::Failed(d) => {
                    &&& next.stage == SpoolStage::Remove
                    &&& next.error matches Some(PrintError::Spool(m)) && m@ == d@
                },
                _ => next.stage == SpoolStage::Run && next.error is None,
            },
            SpoolStage::Run => {
                &&& next.stage == SpoolStage::Remove
                &&& match reply {
                    Reply::Failed(d) => next.error matches Some(PrintError::Spool(m)) && m@ == d@,
                    Reply::CommandFailed(e) => next.error matches Some(PrintError::Spool(m)) && m@
                        == "Error al imprimir: "@ + e@,
                    _ => next.error is None,
                }
            },
            SpoolStage::Remove => next.stage == SpoolStage::Done && next.error == self.error,
            SpoolStage::Done => next.stage == SpoolStage::Done && next.error == self.error,
        }
    }

    /// A spool job that prints `text` through the file at `path`, on the
    /// named printer or on the default one.
    pub fn new(text: &str, printer: Option<&str>, use_crlf: bool, path: &str) -> (r: SpoolJob)
        ensures
            r.wf(),
            r.stage == SpoolStage::Write,
            r.path@ == path@,
            r.contents@ == spool_text(text@, use_crlf),
            r.script@ == spool_script(path@, opt_view(printer)),
            r.error is None,
    {
        SpoolJob {
            path: String::from_str(path),
            contents: normalize_line_endings(text, use_crlf),
            script: print_script(path, printer),
            stage: SpoolStage::Write,
            error: None,
        }
    }

    /// The request that the job makes now.
    pub fn next_action(&self) -> (r: SpoolAction)
        ensures
            r == self.action(),
    {
        match self.stage {
            SpoolStage::Write => SpoolAction::WriteFile {
                path: self.path.clone(),
                contents: self.contents.clone(),
            },
            SpoolStage::Run => SpoolAction::RunScript { script: self.script.clone() },
            SpoolStage::Remove => SpoolAction::RemoveFile { path: self.path.clone() },
            SpoolStage::Done => SpoolAction::Finish(outcome(&self.error)),
        }
    }
}

/// Moves the spool job on by the answer `reply` to its current request,
/// and returns the request that it makes next.
pub fn print_ticket_file_windows(job: &mut SpoolJob, reply: Reply) -> (r: SpoolAction)
    requires
        old(job).wf(),
    ensures
        final(job).wf(),
        old(job).stepped(*final(job), reply),
        r == final(job).action(),
{
    match job.stage {
        SpoolStage::Write => {
            if let Reply::Failed(d) = &reply {
                job.error = Some(PrintError::Spool(d.clone()));
                job.stage = SpoolStage::Remove;
            } else {
                job.stage = SpoolStage::Run;
            }
        },
        SpoolStage::Run => {
            match &reply {
                Reply::Failed(d) => {
                    job.error = Some(PrintError::Spool(d.clone()));
                },
                Reply::CommandFailed(e) => {
                    job.error = Some(PrintError::Spool(prefixed("Error al imprimir: ", e)));
                },
                _ => {},
            }
            job.stage = SpoolStage::Remove;
        },
        SpoolStage::Remove => {
            job.stage = SpoolStage::Done;
        },
        SpoolStage::Done => {},
    }
    job.next_action()
}

/// Once the print command has run, the next request removes the spool
/// file, whether the command succeeded or not.
pub proof fn lemma_file_removed_after_run(job: SpoolJob, next: SpoolJob, reply: Reply)
    requires
        job.wf(),
        job.stage == SpoolStage::Run,
        job.stepped(next, reply),
    ensures
        next.action() == (SpoolAction::RemoveFile { path: job.path }),
        next.measure() < job.measure(),
{
}

/// Every step of a spool job that has not finished brings it closer to the
/// end, and it reports only from its last stage.
pub proof fn lemma_spool_progresses(job: SpoolJob, next: SpoolJob, reply: Reply)
    requires
        job.wf(),
        job.stepped(next, reply),
    ensures
        next.wf(),
        job.measure() > 0 ==> next.measure() < job.measure(),
        job.measure() == 0 <==> job.action() is Finish,
{
}

} // verus!
