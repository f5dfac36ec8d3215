//! The raster print job: the text is drawn line by line on a printer's
//! device context, with no dialog and no window.
//!
//! The job is a state machine. Each state names one request to the
//! operating system (`GdiJob::action`); the caller performs it and hands
//! the answer back to `print_ticket_gdi_windows`, which moves the job on.
//! Whatever the answers, the job ends with every resource it acquired
//! released, in the order font, page, document, device context.
use vstd::prelude::*;
use vstd::string::*;
use crate::outcome::{PrintError, Reply, outcome, outcome_of, prefixed};
use crate::text::{split_lines, lines_of, views};

verus! {

/// Left margin of every line, in device units.
pub const MARGIN_X: i32 = 50;

/// Vertical position of the first line, in device units.
pub const ORIGIN_Y: u64 = 100;

/// Line pitch used when the device reports no usable font metrics.
pub const FALLBACK_LINE_HEIGHT: u64 = 150;

/// Height of the fixed-pitch font, in logical units.
pub const FONT_HEIGHT: i32 = 120;

/// Weight of the fixed-pitch font (normal).
pub const FONT_WEIGHT: i32 = 400;

/// The request that a job in this stage makes next.
#[derive(Debug, Clone, Copy, PartialEq, Eq)]
pub enum Stage {
    /// Open a device context on the printer.
    Open,
    /// Start the document.
    BeginDoc,
    /// Start the page.
    BeginPage,
    /// Create and select the font.
    MakeFont,
    /// Ask for the font metrics.
    Measure,
    /// Draw the current line.
    Draw,
    /// Release what is held, then report.
    Unwind,
}

/// One request of the raster job to the operating system.
#[derive(Debug, PartialEq, Eq)]
pub enum GdiAction {
    CreateDc { printer: String },
    StartDoc { document: String },
    StartPage,
    /// Create the font, select it and draw with a transparent background.
    CreateFont { height: i32, weight: i32, face: String },
    QueryMetrics,
    DrawLine { x: i32, y: i32, text: String },
    /// Select the previous font again and delete the created one.
    ReleaseFont,
    EndPage,
    EndDoc,
    DeleteDc,
    /// The job is over, with this result.
    Finish(Result<(), PrintError>),
}

/// The vertical position of line slot `k`.
pub open spec fn slot_y(line_height: int, k: int) -> int {
    ORIGIN_Y + k * line_height
}

/// Line pitch from the reported font metrics: glyph height plus external
/// leading, or the fallback where that is not positive.
pub open spec fn metric_line_height(height: i32, external_leading: i32) -> int {
    if height + external_leading > 0 {
        height + external_leading
    } else {
        FALLBACK_LINE_HEIGHT as int
    }
}

/// The line pitch that a metrics reply gives.
pub open spec fn line_height_from(reply: Reply) -> int {
    match reply {
        Reply::Metrics { height, external_leading } => metric_line_height(height, external_leading),
        _ => FALLBACK_LINE_HEIGHT as int,
    }
}

/// A raster print job and the resources it holds.
pub struct GdiJob {
    pub lines: Vec<String>,
    pub printer: String,
    pub document: String,
    pub face: String,
    pub stage: Stage,
    /// The line slot to draw next.
    pub next_line: usize,
    pub line_height: u64,
    pub dc: bool,
    pub doc: bool,
    pub page: bool,
    pub font: bool,
    /// The first error met; it is what the job reports.
    pub error: Option<PrintError>,
}

impl GdiJob {
    /// Line `k` has text and a slot that a device coordinate can address.
    pub open spec fn drawable(&self, k: int) -> bool {
        &&& self.lines@[k]@.len() > 0
        &&& slot_y(self.line_height as int, k) <= i32::MAX
    }

    /// `next_line` is the first drawable line at or after `from`, or the end.
    pub open spec fn seeks_from(&self, from: int) -> bool {
        &&& from <= self.next_line <= self.lines.len()
        &&& forall|m: int| from <= m < self.next_line ==> !self.drawable(m)
        &&& self.next_line < self.lines.len() ==> self.drawable(self.next_line as int)
    }

    pub open spec fn held(&self) -> nat {
        (if self.font { 1nat } else { 0nat }) + (if self.page { 1nat } else { 0nat }) + (
        if self.doc { 1nat } else { 0nat }) + (if self.dc { 1nat } else { 0nat })
    }

    pub open spec fn wf(&self) -> bool {
        &&& 0 < self.line_height <= u32::MAX
        &&& self.next_line <= self.lines.len()
        &&& self.font ==> self.page
        &&& self.page ==> self.doc
        &&& self.doc ==> self.dc
        &&& self.stage != Stage::Unwind ==> self.error is None
        &&& match self.stage {
            Stage::Open => !self.dc && self.lines.len() > 0,
            Stage::BeginDoc => self.dc && !self.doc,
            Stage::BeginPage => self.doc && !self.page,
            Stage::MakeFont => self.page && !self.font,
            Stage::Measure => self.page,
            Stage::Draw => self.page && self.next_line < self.lines.len() && self.drawable(
                self.next_line as int,
            ),
            Stage::Unwind => true,
        }
    }

    /// The number of requests left at most before the job finishes.
    pub open spec fn measure(&self) -> nat {
        let l = self.lines.len();
        match self.stage {
            Stage::Open => (l + 10) as nat,
            Stage::BeginDoc => (l + 9) as nat,
            Stage::BeginPage => (l + 8) as nat,
            Stage::MakeFont => (l + 7) as nat,
            Stage::Measure => (l + 6) as nat,
            Stage::Draw => (l - self.next_line + 5) as nat,
            Stage::Unwind => self.held(),
        }
    }

    /// The request that the job makes now.
    pub open spec fn action(&self) -> GdiAction {
        match self.stage {
            Stage::Open => GdiAction::CreateDc { printer: self.printer },
            Stage::BeginDoc => GdiAction::StartDoc { document: self.document },
            Stage::BeginPage => GdiAction::StartPage,
            Stage::MakeFont => GdiAction::CreateFont {
                height: FONT_HEIGHT,
                weight: FONT_WEIGHT,
                face: self.face,
            },
            Stage::Measure => GdiAction::QueryMetrics,
            Stage::Draw => GdiAction::DrawLine {
                x: MARGIN_X,
                y: slot_y(self.line_height as int, self.next_line as int) as i32,
                text: self.lines@[self.next_line as int],
            },
            Stage::Unwind => if self.font {
                GdiAction::ReleaseFont
            } else if self.page {
                GdiAction::EndPage
            } else if self.doc {
                GdiAction::EndDoc
            } else if self.dc {
                GdiAction::DeleteDc
            } else {
                GdiAction::Finish(outcome_of(self.error))
            },
        }
    }

    /// The held resources are those of `other`.
    pub open spec fn same_held(&self, other: GdiJob) -> bool {
        &&& self.dc == other.dc
        &&& self.doc == other.doc
        &&& self.page == other.page
        &&& self.font == other.font
    }

    /// The error that a failed request of the job records.
    pub open spec fn records(&self, next: GdiJob, reply: Reply, prefix: Seq<char>) -> bool {
        match reply {
            Reply::Failed(d) => if self.error is None {
                next.error matches Some(PrintError::JobControl(m)) && m@ == prefix + d@
            } else {
                next.error == self.error
            },
            _ => next.error == self.error,
        }
    }

    /// `next` is this job after the answer `reply` to `self.action()`.
    pub open spec fn stepped(&self, next: GdiJob, reply: Reply) -> bool {
        &&& next.lines == self.lines
        &&& next.printer == self.printer
        &&& next.document == self.document
        &&& next.face == self.face
        &&& match self.stage {
            Stage::Open => match reply {
                Reply::Failed(d) => {
                    &&& next.stage == Stage::Unwind
                    &&& next.same_held(*self)
                    &&& next.error matches Some(PrintError::DeviceAcquisition(m)) && m@
                        == "No se pudo abrir la impresora: "@ + d@
                    &&& next.line_height == self.line_height
                    &&& next.next_line == self.next_line
                },
                _ => {
                    &&& next.stage == Stage::BeginDoc
                    &&& next.dc && !next.doc && !next.page && !next.font
                    &&& next.error is None
                    &&& next.line_height == self.line_height
                    &&& next.next_line == self.next_line
                },
            },
            Stage::BeginDoc => {
                &&& next.dc && !next.page && !next.font
                &&& next.line_height == self.line_height
                &&& next.next_line == self.next_line
                &&& if reply is Failed {
                    &&& next.stage == Stage::Unwind && !next.doc
                    &&& self.records(next, reply, "StartDoc falló: "@)
                } else {
                    next.stage == Stage::BeginPage && next.doc && next.error is None
                }
            },
            Stage::BeginPage => {
                &&& next.dc && next.doc && !next.font
                &&& next.line_height == self.line_height
                &&& next.next_line == self.next_line
                &&& if reply is Failed {
                    &&& next.stage == Stage::Unwind && !next.page
                    &&& self.records(next, reply, "StartPage falló: "@)
                } else {
                    next.stage == Stage::MakeFont && next.page && next.error is None
                }
            },
            Stage::MakeFont => {
                &&& next.stage == Stage::Measure
                &&& next.dc && next.doc && next.page
                &&& next.font == !(reply is Failed)
                &&& next.error is None
                &&& next.line_height == self.line_height
                &&& next.next_line == self.next_line
            },
            Stage::Measure => {
                &&& next.same_held(*self)
                &&& next.error is None
                &&& next.line_height == line_height_from(reply)
                &&& next.seeks_from(0)
                &&& next.stage == if next.next_line < next.lines.len() {
                    Stage::Draw
                } else {
                    Stage::Unwind
                }
            },
            Stage::Draw => {
                &&& next.same_held(*self)
                &&& next.error is None
                &&& next.line_height == self.line_height
                &&& next.seeks_from(self.next_line + 1)
                &&& next.stage == if next.next_line < next.lines.len() {
                    Stage::Draw
                } else {
                    Stage::Unwind
                }
            },
            Stage::Unwind => {
                &&& next.stage == Stage::Unwind
                &&& next.line_height == self.line_height
                &&& next.next_line == self.next_line
                &&& if self.font {
                    &&& !next.font && next.page == self.page && next.doc == self.doc
                        && next.dc == self.dc
                    &&& next.error == self.error
                } else if self.page {
                    &&& !next.font && !next.page && next.doc == self.doc && next.dc == self.dc
                    &&& self.records(next, reply, "EndPage falló: "@)
                } else if self.doc {
                    &&& !next.font && !next.page && !next.doc && next.dc == self.dc
                    &&& self.records(next, reply, "EndDoc falló: "@)
                } else {
                    &&& !next.font && !next.page && !next.doc && !next.dc
                    &&& next.error == self.error
                }
            },
        }
    }
}

/// The device coordinate of line slot `k`, where one can address it.
pub fn slot_position(line_height: u64, k: usize) -> (r: Option<i32>)
    requires
        line_height <= u32::MAX,
    ensures
        r is Some <==> slot_y(line_height as int, k as int) <= i32::MAX,
        r is Some ==> r->0 == slot_y(line_height as int, k as int),
{
    match (k as u64).checked_mul(line_height) {
        None => {
            proof {
                assert(k as int * line_height as int >= 0) by (nonlinear_arith);
            }
            None
        },
        Some(offset) => match offset.checked_add(ORIGIN_Y) {
            Some(y) if y <= 2147483647u64 => Some(y as i32),
            _ => None,
        },
    }
}

impl GdiJob {
    /// A raster job that prints `text` on `printer`. Empty text asks for
    /// no device at all: the job is finished from the start.
    pub fn new(text: &str, printer: &str) -> (r: GdiJob)
        ensures
            r.wf(),
            views(r.lines@) == lines_of(text@),
            r.printer@ == printer@,
            r.document@ == "Ticket Novum"@,
            r.face@ == "Consolas"@,
            r.line_height == FALLBACK_LINE_HEIGHT,
            r.next_line == 0,
            r.held() == 0,
            r.error is None,
            r.stage == if lines_of(text@).len() == 0 {
                Stage::Unwind
            } else {
                Stage::Open
            },
    {
        let lines = split_lines(text);
        let stage = if lines.len() == 0 {
            Stage::Unwind
        } else {
            Stage::Open
        };
        proof {
            assert(views(lines@).len() == lines@.len());
        }
        GdiJob {
            lines,
            printer: String::from_str(printer),
            document: String::from_str("Ticket Novum"),
            face: String::from_str("Consolas"),
            stage,
            next_line: 0,
            line_height: FALLBACK_LINE_HEIGHT,
            dc: false,
            doc: false,
            page: false,
            font: false,
            error: None,
        }
    }

    /// Line `k` has text and an addressable slot.
    fn is_drawable(&self, k: usize) -> (r: bool)
        requires
            k < self.lines.len(),
            self.line_height <= u32::MAX,
        ensures
            r == self.drawable(k as int),
    {
        !self.lines[k].as_str().is_empty() && slot_position(self.line_height, k).is_some()
    }

    /// Moves `next_line` to the first drawable line at or after `from`, and
    /// goes on drawing if there is one, else to unwinding.
    fn seek(&mut self, from: usize)
        requires
            from <= old(self).lines.len(),
            old(self).line_height <= u32::MAX,
        ensures
            final(self).seeks_from(from as int),
            final(self).stage == if final(self).next_line < final(self).lines.len() {
                Stage::Draw
            } else {
                Stage::Unwind
            },
            *final(self) == (GdiJob {
                next_line: final(self).next_line,
                stage: final(self).stage,
                ..*old(self)
            }),
    {
        let mut j = from;
        while j < self.lines.len()
            invariant
                from <= j <= self.lines.len(),
                self.line_height <= u32::MAX,
                forall|m: int| from <= m < j ==> !self.drawable(m),
            ensures
                from <= j <= self.lines.len(),
                forall|m: int| from <= m < j ==> !self.drawable(m),
                j < self.lines.len() ==> self.drawable(j as int),
            decreases self.lines.len() - j,
        {
            if self.is_drawable(j) {
                break;
            }
            j = j + 1;
        }
        let ghost before = *self;
        self.next_line = j;
        self.stage = if j < self.lines.len() {
            Stage::Draw
        } else {
            Stage::Unwind
        };
        assert forall|m: int| from <= m < j implies !self.drawable(m) by {
            assert(!before.drawable(m));
        }
        assert(j < self.lines.len() ==> before.drawable(j as int));
    }

    /// The request that the job makes now.
    pub fn next_action(&self) -> (r: GdiAction)
        requires
            self.wf(),
        ensures
            r == self.action(),
    {
        match self.stage {
            Stage::Open => GdiAction::CreateDc { printer: self.printer.clone() },
            Stage::BeginDoc => GdiAction::StartDoc { document: self.document.clone() },
            Stage::BeginPage => GdiAction::StartPage,
            Stage::MakeFont => GdiAction::CreateFont {
                height: FONT_HEIGHT,
                weight: FONT_WEIGHT,
                face: self.face.clone(),
            },
            Stage::Measure => GdiAction::QueryMetrics,
            Stage::Draw => {
                let y = slot_position(self.line_height, self.next_line);
                GdiAction::DrawLine {
                    x: MARGIN_X,
                    y: y.unwrap(),
                    text: self.lines[self.next_line].clone(),
                }
            },
            Stage::Unwind => if self.font {
                GdiAction::ReleaseFont
            } else if self.page {
                GdiAction::EndPage
            } else if self.doc {
                GdiAction::EndDoc
            } else if self.dc {
                GdiAction::DeleteDc
            } else {
                GdiAction::Finish(outcome(&self.error))
            },
        }
    }

    /// Records a failed request as a job-control error, unless an earlier
    /// error is already recorded.
    fn record(&mut self, reply: &Reply, prefix: &str)
        ensures
            old(self).records(*final(self), *reply, prefix@),
            *final(self) == (GdiJob { error: final(self).error, ..*old(self) }),
    {
        if let Reply::Failed(d) = reply {
            if self.error.is_none() {
                self.error = Some(PrintError::JobControl(prefixed(prefix, d)));
            }
        }
    }

    /// Takes in the answer to the current request.
    fn advance(&mut self, reply: Reply)
        requires
            old(self).wf(),
        ensures
            final(self).wf(),
            old(self).stepped(*final(self), reply),
    {
        match self.stage {
            Stage::Open => {
                if let Reply::Failed(d) = &reply {
                    self.error = Some(
                        PrintError::DeviceAcquisition(prefixed("No se pudo abrir la impresora: ", d)),
                    );
                    self.stage = Stage::Unwind;
                } else {
                    self.dc = true;
                    self.stage = Stage::BeginDoc;
                }
            },
            Stage::BeginDoc => {
                if matches!(reply, Reply::Failed(_)) {
                    self.record(&reply, "StartDoc falló: ");
                    self.stage = Stage::Unwind;
                } else {
                    self.doc = true;
                    self.stage = Stage::BeginPage;
                }
            },
            Stage::BeginPage => {
                if matches!(reply, Reply::Failed(_)) {
                    self.record(&reply, "StartPage falló: ");
                    self.stage = Stage::Unwind;
                } else {
                    self.page = true;
                    self.stage = Stage::MakeFont;
                }
            },
            Stage::MakeFont => {
                self.font = !matches!(reply, Reply::Failed(_));
                self.stage = Stage::Measure;
            },
            Stage::Measure => {
                self.line_height = match reply {
                    Reply::Metrics { height, external_leading } => {
                        let sum = height as i64 + external_leading as i64;
                        if sum > 0 {
                            sum as u64
                        } else {
                            FALLBACK_LINE_HEIGHT
                        }
                    },
                    _ => FALLBACK_LINE_HEIGHT,
                };
                self.seek(0);
            },
            Stage::Draw => {
                let from = self.next_line + 1;
                self.seek(from);
            },
            Stage::Unwind => {
                if self.font {
                    self.font = false;
                } else if self.page {
                    self.record(&reply, "EndPage falló: ");
                    self.page = false;
                } else if self.doc {
                    self.record(&reply, "EndDoc falló: ");
                    self.doc = false;
                } else {
                    self.dc = false;
                }
            },
        }
    }
}

/// Moves the raster job on by the answer `reply` to its current request,
/// and returns the request that it makes next.
pub fn print_ticket_gdi_windows(job: &mut GdiJob, reply: Reply) -> (r: GdiAction)
    requires
        old(job).wf(),
    ensures
        final(job).wf(),
        old(job).stepped(*final(job), reply),
        r == final(job).action(),
{
    job.advance(reply);
    job.next_action()
}

/// The line pitch is positive, from the metrics or from the fallback.
pub proof fn lemma_line_height_positive(reply: Reply)
    ensures
        line_height_from(reply) > 0,
        line_height_from(reply) <= u32::MAX,
{
}

/// Every step of a job that has not finished brings it closer to the end,
/// so each job finishes after finitely many requests.
pub proof fn lemma_job_progresses(job: GdiJob, next: GdiJob, reply: Reply)
    requires
        job.wf(),
        job.stepped(next, reply),
    ensures
        next.wf() ==> next.line_height > 0,
        job.measure() > 0 ==> next.measure() < job.measure(),
        job.measure() == 0 <==> job.action() is Finish,
{
}

/// A job reports its result only when it holds nothing: the font, the
/// page, the document and the device context have all been released.
pub proof fn lemma_finish_releases_all(job: GdiJob)
    requires
        job.wf(),
        job.action() is Finish,
    ensures
        !job.font && !job.page && !job.doc && !job.dc,
        job.action() == GdiAction::Finish(outcome_of(job.error)),
{
}

/// A device context that was open is given up only by a `DeleteDc` request,
/// after the font, the page and the document.
pub proof fn lemma_device_released_last(job: GdiJob, next: GdiJob, reply: Reply)
    requires
        job.wf(),
        job.stepped(next, reply),
        job.dc,
        !next.dc,
    ensures
        job.action() == GdiAction::DeleteDc,
        !next.font && !next.page && !next.doc,
{
}

/// When drawing ends, every line of the text has had its slot: one slot
/// per line, empty lines included, so the next free slot lies one line
/// pitch per line below the origin.
pub proof fn lemma_every_line_has_a_slot(job: GdiJob, next: GdiJob, reply: Reply)
    requires
        job.wf(),
        job.stepped(next, reply),
        job.stage == Stage::Measure || job.stage == Stage::Draw,
        next.stage == Stage::Unwind,
    ensures
        next.next_line == next.lines.len(),
        slot_y(next.line_height as int, next.next_line as int) == ORIGIN_Y + next.lines.len()
            * next.line_height,
{
}

/// Drawing goes slot by slot: line `k` of the text is drawn at
/// `ORIGIN_Y + k * line_height`, and the only lines passed over without a
/// drawing request are empty ones (or ones whose slot lies beyond any
/// device coordinate); they still take their slot.
pub proof fn lemma_lines_drawn_in_their_slots(job: GdiJob, next: GdiJob, reply: Reply)
    requires
        job.wf(),
        job.stepped(next, reply),
        job.stage == Stage::Measure || job.stage == Stage::Draw,
    ensures
        next.lines == job.lines,
        forall|m: int|
            (if job.stage == Stage::Draw { job.next_line + 1 } else { 0 }) <= m < next.next_line
                ==> !next.drawable(m),
        next.stage == Stage::Draw ==> next.action() == (GdiAction::DrawLine {
            x: MARGIN_X,
            y: (ORIGIN_Y + next.next_line * next.line_height) as i32,
            text: next.lines@[next.next_line as int],
        }),
        next.stage == Stage::Draw ==> next.lines@[next.next_line as int]@.len() > 0
            && ORIGIN_Y + next.next_line * next.line_height <= i32::MAX,
{
}

/// A printer that cannot be opened ends the job at once with a device
/// error: no document or page request follows.
pub proof fn lemma_open_failure_finishes(job: GdiJob, next: GdiJob, d: String)
    requires
        job.wf(),
        job.stage == Stage::Open,
        job.stepped(next, Reply::Failed(d)),
    ensures
        next.action() matches GdiAction::Finish(Err(PrintError::DeviceAcquisition(m))) && m@
            == "No se pudo abrir la impresora: "@ + d@,
{
}

} // verus!
