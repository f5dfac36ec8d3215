use ticket_printer::directory::{
    equal_ignoring_ascii_case, list_printers, list_printers_windows, printer_names_in, trim, CommandOutput,
};
use ticket_printer::orchestrator::{print_ticket, print_ticket_file, PrintTicketPayload};
use ticket_printer::outcome::{PrintError, Reply};
use ticket_printer::raster::{print_ticket_gdi_windows, GdiAction, GdiJob};
use ticket_printer::spool::{
    normalize_line_endings, print_script, print_ticket_file_windows, replace_char, SpoolAction,
    SpoolJob,
};
use ticket_printer::text::split_lines;

fn s(x: &str) -> String {
    x.to_string()
}

fn payload(text: &str, printer: Option<&str>) -> PrintTicketPayload {
    PrintTicketPayload { text: s(text), printer_name: printer.map(s), use_crlf: None }
}

/// Runs a raster job, answering each request from `answer`, and returns
/// every request it made.
fn run_gdi(mut job: GdiJob, answer: impl Fn(&GdiAction) -> Reply) -> Vec<GdiAction> {
    let mut seen = Vec::new();
    let mut action = job.next_action();
    for _ in 0..1000 {
        let finished = matches!(action, GdiAction::Finish(_));
        let reply = answer(&action);
        seen.push(action);
        if finished {
            return seen;
        }
        action = print_ticket_gdi_windows(&mut job, reply);
    }
    panic!("the job did not finish");
}

fn draw(y: i32, text: &str) -> GdiAction {
    GdiAction::DrawLine { x: 50, y, text: s(text) }
}

fn prologue(printer: &str) -> Vec<GdiAction> {
    vec![
        GdiAction::CreateDc { printer: s(printer) },
        GdiAction::StartDoc { document: s("Ticket Novum") },
        GdiAction::StartPage,
        GdiAction::CreateFont { height: 120, weight: 400, face: s("Consolas") },
        GdiAction::QueryMetrics,
    ]
}

fn epilogue(result: Result<(), PrintError>) -> Vec<GdiAction> {
    vec![
        GdiAction::ReleaseFont,
        GdiAction::EndPage,
        GdiAction::EndDoc,
        GdiAction::DeleteDc,
        GdiAction::Finish(result),
    ]
}

fn metrics(height: i32, external_leading: i32) -> impl Fn(&GdiAction) -> Reply {
    move |a: &GdiAction| match a {
        GdiAction::QueryMetrics => Reply::Metrics { height, external_leading },
        _ => Reply::Done,
    }
}

#[test]
fn lines_follow_str_lines() {
    assert_eq!(split_lines("a\r\nb"), vec![s("a"), s("b")]);
    assert_eq!(split_lines("a\n"), vec![s("a")]);
    assert_eq!(split_lines(""), Vec::<String>::new());
    assert_eq!(split_lines("\n"), vec![s("")]);
    assert_eq!(split_lines("a\n\nb"), vec![s("a"), s(""), s("b")]);
    assert_eq!(split_lines("x\r"), vec![s("x\r")]);
    assert_eq!(split_lines("ñ\r\n€"), vec![s("ñ"), s("€")]);
}

#[test]
fn two_lines_printed_one_pitch_apart() {
    let job = print_ticket(&payload("LINE1\nLINE2", Some("POS-80")), true).unwrap();
    let seen = run_gdi(job, metrics(100, 20));
    let mut expected = prologue("POS-80");
    expected.push(draw(100, "LINE1"));
    expected.push(draw(220, "LINE2"));
    expected.extend(epilogue(Ok(())));
    assert_eq!(seen, expected);
}

#[test]
fn empty_line_takes_a_slot() {
    let job = GdiJob::new("A\n\nB", "P");
    let seen = run_gdi(job, metrics(30, 5));
    let mut expected = prologue("P");
    expected.push(draw(100, "A"));
    expected.push(draw(170, "B"));
    expected.extend(epilogue(Ok(())));
    assert_eq!(seen, expected);
}

#[test]
fn metrics_failure_falls_back_to_fixed_pitch() {
    let job = GdiJob::new("a\nb", "P");
    let seen = run_gdi(job, |a: &GdiAction| match a {
        GdiAction::QueryMetrics => Reply::Failed(s("no metrics")),
        _ => Reply::Done,
    });
    assert_eq!(seen[5], draw(100, "a"));
    assert_eq!(seen[6], draw(250, "b"));
    assert_eq!(seen.last(), Some(&GdiAction::Finish(Ok(()))));
}

#[test]
fn non_positive_metrics_fall_back_to_fixed_pitch() {
    let job = GdiJob::new("a\nb", "P");
    let seen = run_gdi(job, metrics(0, 0));
    assert_eq!(seen[6], draw(250, "b"));
    let job = GdiJob::new("a\nb", "P");
    let seen = run_gdi(job, metrics(-40, 10));
    assert_eq!(seen[6], draw(250, "b"));
}

#[test]
fn font_failure_is_not_fatal() {
    let job = GdiJob::new("a", "P");
    let seen = run_gdi(job, |a: &GdiAction| match a {
        GdiAction::CreateFont { .. } => Reply::Failed(s("no font")),
        _ => Reply::Done,
    });
    let mut expected = prologue("P");
    expected.push(draw(100, "a"));
    expected.extend(vec![
        GdiAction::EndPage,
        GdiAction::EndDoc,
        GdiAction::DeleteDc,
        GdiAction::Finish(Ok(())),
    ]);
    assert_eq!(seen, expected);
}

#[test]
fn empty_text_prints_nothing() {
    let job = GdiJob::new("", "P");
    let seen = run_gdi(job, |_: &GdiAction| Reply::Done);
    assert_eq!(seen, vec![GdiAction::Finish(Ok(()))]);
}

#[test]
fn device_failure_reports_at_once() {
    let job = GdiJob::new("A", "nope");
    let seen = run_gdi(job, |a: &GdiAction| match a {
        GdiAction::CreateDc { .. } => Reply::Failed(s("invalid printer name")),
        _ => Reply::Done,
    });
    assert_eq!(
        seen,
        vec![
            GdiAction::CreateDc { printer: s("nope") },
            GdiAction::Finish(Err(PrintError::DeviceAcquisition(s(
                "No se pudo abrir la impresora: invalid printer name"
            )))),
        ]
    );
}

#[test]
fn start_doc_failure_releases_device() {
    let job = GdiJob::new("A", "P");
    let seen = run_gdi(job, |a: &GdiAction| match a {
        GdiAction::StartDoc { .. } => Reply::Failed(s("denied")),
        _ => Reply::Done,
    });
    assert_eq!(
        seen[1..],
        [
            GdiAction::StartDoc { document: s("Ticket Novum") },
            GdiAction::DeleteDc,
            GdiAction::Finish(Err(PrintError::JobControl(s("StartDoc falló: denied")))),
        ]
    );
}

#[test]
fn start_page_failure_ends_document_and_device() {
    let job = GdiJob::new("A", "P");
    let seen = run_gdi(job, |a: &GdiAction| match a {
        GdiAction::StartPage => Reply::Failed(s("paper")),
        _ => Reply::Done,
    });
    assert_eq!(
        seen[2..],
        [
            GdiAction::StartPage,
            GdiAction::EndDoc,
            GdiAction::DeleteDc,
            GdiAction::Finish(Err(PrintError::JobControl(s("StartPage falló: paper")))),
        ]
    );
}

#[test]
fn first_end_failure_is_reported_and_device_released() {
    let job = GdiJob::new("A", "P");
    let seen = run_gdi(job, |a: &GdiAction| match a {
        GdiAction::EndPage => Reply::Failed(s("jam")),
        GdiAction::EndDoc => Reply::Failed(s("later")),
        _ => Reply::Done,
    });
    let mut expected = prologue("P");
    expected.push(draw(100, "A"));
    expected.extend(epilogue(Err(PrintError::JobControl(s("EndPage falló: jam")))));
    assert_eq!(seen, expected);
}

#[test]
fn end_doc_failure_is_reported() {
    let job = GdiJob::new("A", "P");
    let seen = run_gdi(job, |a: &GdiAction| match a {
        GdiAction::EndDoc => Reply::Failed(s("spooler")),
        _ => Reply::Done,
    });
    assert_eq!(
        seen.last(),
        Some(&GdiAction::Finish(Err(PrintError::JobControl(s("EndDoc falló: spooler")))))
    );
    assert_eq!(seen[seen.len() - 2], GdiAction::DeleteDc);
}

#[test]
fn missing_printer_is_configuration_error() {
    let r = print_ticket(&payload("A", None), true);
    assert!(matches!(r, Err(PrintError::Configuration(ref m)) if m == "No printer configured"));
    let r = print_ticket_file(&payload("A", None), true, "t.txt");
    assert!(matches!(r, Err(PrintError::Configuration(_))));
}

#[test]
fn empty_printer_is_configuration_error() {
    let r = print_ticket(&payload("A", Some("")), true);
    assert!(matches!(r, Err(PrintError::Configuration(ref m)) if m == "No printer configured"));
    let r = print_ticket_file(&payload("A", Some("")), false, "t.txt");
    assert!(matches!(r, Err(PrintError::Configuration(_))));
}

#[test]
fn unsupported_platform_is_refused() {
    let r = print_ticket(&payload("A", Some("P")), false);
    assert_eq!(r.err(), Some(PrintError::PlatformUnsupported(s("Impresión solo soportada en Windows"))));
    let r = print_ticket_file(&payload("A", Some("P")), false, "t.txt");
    assert!(matches!(r, Err(PrintError::PlatformUnsupported(_))));
}

#[test]
fn error_message_is_the_diagnostic() {
    assert_eq!(PrintError::Spool(s("disk full")).message(), s("disk full"));
    let e = PrintError::JobControl(s("x"));
    assert_eq!(e.duplicate(), e);
}

fn run_spool(mut job: SpoolJob, answer: impl Fn(&SpoolAction) -> Reply) -> Vec<SpoolAction> {
    let mut seen = Vec::new();
    let mut action = job.next_action();
    for _ in 0..10 {
        let finished = matches!(action, SpoolAction::Finish(_));
        let reply = answer(&action);
        seen.push(action);
        if finished {
            return seen;
        }
        action = print_ticket_file_windows(&mut job, reply);
    }
    panic!("the job did not finish");
}

#[test]
fn spool_file_has_crlf_and_is_removed_after_failed_run() {
    let mut p = payload("a\nb", Some("POS-80"));
    p.use_crlf = Some(true);
    let job = print_ticket_file(&p, true, "C:\\tmp\\t.txt").unwrap();
    let seen = run_spool(job, |a: &SpoolAction| match a {
        SpoolAction::RunScript { .. } => Reply::CommandFailed(s("offline")),
        _ => Reply::Done,
    });
    assert_eq!(
        seen,
        vec![
            SpoolAction::WriteFile { path: s("C:\\tmp\\t.txt"), contents: s("a\r\nb\r\n") },
            SpoolAction::RunScript {
                script: s("Get-Content -Path 'C:\\tmp\\t.txt' -Raw | Out-Printer -Name 'POS-80'")
            },
            SpoolAction::RemoveFile { path: s("C:\\tmp\\t.txt") },
            SpoolAction::Finish(Err(PrintError::Spool(s("Error al imprimir: offline")))),
        ]
    );
}

#[test]
fn spool_file_removed_after_successful_run() {
    let job = SpoolJob::new("x", None, false, "f.txt");
    let seen = run_spool(job, |_: &SpoolAction| Reply::Done);
    assert_eq!(
        seen,
        vec![
            SpoolAction::WriteFile { path: s("f.txt"), contents: s("x") },
            SpoolAction::RunScript { script: s("Get-Content -Path 'f.txt' -Raw | Out-Printer") },
            SpoolAction::RemoveFile { path: s("f.txt") },
            SpoolAction::Finish(Ok(())),
        ]
    );
}

#[test]
fn spool_write_failure_is_reported() {
    let job = SpoolJob::new("x", Some("P"), true, "f.txt");
    let seen = run_spool(job, |a: &SpoolAction| match a {
        SpoolAction::WriteFile { .. } => Reply::Failed(s("read-only")),
        _ => Reply::Done,
    });
    assert_eq!(seen.len(), 3);
    assert_eq!(seen[1], SpoolAction::RemoveFile { path: s("f.txt") });
    assert_eq!(
        seen[2],
        SpoolAction::Finish(Err(PrintError::Spool(s("read-only"))))
    );
}

#[test]
fn request_without_crlf_flag_keeps_text() {
    let job = print_ticket_file(&payload("a\nb", Some("P")), true, "f").unwrap();
    assert_eq!(job.contents, s("a\nb"));
    let mut p = payload("a\nb", Some("P"));
    p.use_crlf = Some(false);
    let job = print_ticket_file(&p, true, "f").unwrap();
    assert_eq!(job.contents, s("a\nb"));
}

#[test]
fn spool_launch_failure_reports_io_error_and_removes_file() {
    let job = SpoolJob::new("x", Some("P"), false, "f.txt");
    let seen = run_spool(job, |a: &SpoolAction| match a {
        SpoolAction::RunScript { .. } => Reply::Failed(s("program not found")),
        _ => Reply::Done,
    });
    assert_eq!(seen[2], SpoolAction::RemoveFile { path: s("f.txt") });
    assert_eq!(seen[3], SpoolAction::Finish(Err(PrintError::Spool(s("program not found")))));
}

#[test]
fn no_native_printing_lists_no_printers() {
    assert_eq!(list_printers(false, None), Ok(Vec::new()));
    let ok = CommandOutput { success: true, stdout: s("POS-80\n"), stderr: s("") };
    assert_eq!(list_printers(true, Some(Ok(ok))), Ok(vec![s("POS-80")]));
}

#[test]
fn line_endings_and_quotes() {
    assert_eq!(normalize_line_endings("a\nb", true), s("a\r\nb\r\n"));
    assert_eq!(normalize_line_endings("a\nb", false), s("a\nb"));
    assert_eq!(normalize_line_endings("", true), s("\r\n"));
    assert_eq!(replace_char("it's", '\'', "''"), s("it''s"));
    assert_eq!(
        print_script("C:\\O'Hara\\t.txt", Some("Bob's printer")),
        s("Get-Content -Path 'C:\\O''Hara\\t.txt' -Raw | Out-Printer -Name 'Bob''s printer'")
    );
}

#[test]
fn directory_drops_virtual_printer_and_blanks() {
    let listing = "  microsoft PRINT to pdf \r\nPOS-80\r\n\r\n   \n\tEPSON TM\u{3000}\nMicrosoft Print to PDF";
    assert_eq!(printer_names_in(listing), vec![s("POS-80"), s("EPSON TM")]);
    assert_eq!(printer_names_in(""), Vec::<String>::new());
}

#[test]
fn trim_and_case_helpers() {
    assert_eq!(trim("\u{a0} a b \t"), s("a b"));
    assert_eq!(trim("   "), s(""));
    assert!(equal_ignoring_ascii_case("Microsoft Print to PDF", "MICROSOFT print TO pdf"));
    assert!(!equal_ignoring_ascii_case("Microsoft Print to PDF", "Microsoft Print to PDF2"));
    assert!(!equal_ignoring_ascii_case("É", "é"));
}

#[test]
fn listing_results() {
    let ok = CommandOutput { success: true, stdout: s("A\nB\n"), stderr: s("") };
    assert_eq!(list_printers_windows(Ok(ok)), Ok(vec![s("A"), s("B")]));
    let failed = CommandOutput { success: false, stdout: s("A"), stderr: s("boom") };
    assert_eq!(
        list_printers_windows(Ok(failed)),
        Err(PrintError::Enumeration(s("PowerShell error: boom")))
    );
    assert_eq!(
        list_printers_windows(Err(s("not found"))),
        Err(PrintError::Enumeration(s("not found")))
    );
}
