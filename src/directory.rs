//! The printer directory: the names of the physical printers, read from the
//! listing that the system's printer query prints, one name per line.
use vstd::prelude::*;
use vstd::string::*;
use crate::outcome::{PrintError, prefixed};
use crate::text::{split_lines, lines_of, views};

verus! {

/// The software printer that exports to PDF; it is never listed.
pub open spec fn virtual_printer() -> Seq<char> {
    "Microsoft Print to PDF"@
}

/// `c` has the Unicode White_Space property, which `str::trim` strips.
pub open spec fn is_space(c: char) -> bool {
    let u = c as u32;
    ||| 9 <= u <= 13
    ||| u == 32
    ||| u == 0x85
    ||| u == 0xA0
    ||| u == 0x1680
    ||| 0x2000 <= u <= 0x200A
    ||| u == 0x2028
    ||| u == 0x2029
    ||| u == 0x202F
    ||| u == 0x205F
    ||| u == 0x3000
}

pub open spec fn trim_start(x: Seq<char>) -> Seq<char>
    decreases x.len(),
{
    if x.len() > 0 && is_space(x[0]) {
        trim_start(x.drop_first())
    } else {
        x
    }
}

pub open spec fn trim_end(x: Seq<char>) -> Seq<char>
    decreases x.len(),
{
    if x.len() > 0 && is_space(x.last()) {
        trim_end(x.drop_last())
    } else {
        x
    }
}

/// `x` without white space at either end.
pub open spec fn trimmed(x: Seq<char>) -> Seq<char> {
    trim_end(trim_start(x))
}

/// The code of `c` with ASCII capitals taken to small letters.
pub open spec fn ascii_lower(c: char) -> u32 {
    let u = c as u32;
    if 65 <= u <= 90 {
        (u + 32) as u32
    } else {
        u
    }
}

/// `x` and `y` are equal but for the case of ASCII letters.
pub open spec fn eq_ignore_ascii_case(x: Seq<char>, y: Seq<char>) -> bool {
    &&& x.len() == y.len()
    &&& forall|i: int| 0 <= i < x.len() ==> ascii_lower(#[trigger] x[i]) == ascii_lower(y[i])
}

/// A trimmed line names a physical printer.
pub open spec fn is_listed(name: Seq<char>) -> bool {
    name.len() > 0 && !eq_ignore_ascii_case(name, virtual_printer())
}

/// The printer names among `lines`: each trimmed, the empty ones and the
/// virtual printer left out, in their order.
pub open spec fn names_in(lines: Seq<Seq<char>>) -> Seq<Seq<char>>
    decreases lines.len(),
{
    if lines.len() == 0 {
        Seq::empty()
    } else {
        let rest = names_in(lines.drop_last());
        let name = trimmed(lines.last());
        if is_listed(name) {
            rest.push(name)
        } else {
            rest
        }
    }
}

/// The printer names in a listing.
pub open spec fn printer_names(listing: Seq<char>) -> Seq<Seq<char>> {
    names_in(lines_of(listing))
}

/// What the printer query reported.
pub struct CommandOutput {
    /// The query exited with success.
    pub success: bool,
    pub stdout: String,
    pub stderr: String,
}

/// `c` is white space, as `char::is_whitespace` says.
pub fn is_space_char(c: char) -> (r: bool)
    ensures
        r == is_space(c),
{
    let u = c as u32;
    (9 <= u && u <= 13) || u == 32 || u == 0x85 || u == 0xA0 || u == 0x1680 || (0x2000 <= u && u
        <= 0x200A) || u == 0x2028 || u == 0x2029 || u == 0x202F || u == 0x205F || u == 0x3000
}

/// `s` without white space at either end, as `str::trim` gives it.
pub fn trim(s: &str) -> (r: String)
    ensures
        r@ == trimmed(s@),
{
    let n = s.unicode_len();
    let mut a: usize = 0;
    proof {
        assert(s@.subrange(0, n as int) =~= s@);
    }
    while a < n && is_space_char(s.get_char(a))
        invariant
            n == s@.len(),
            a <= n,
            trim_start(s@) == trim_start(s@.subrange(a as int, n as int)),
        decreases n - a,
    {
        proof {
            assert(s@.subrange(a as int, n as int).drop_first() =~= s@.subrange(a + 1, n as int));
        }
        a = a + 1;
    }
    let mut b: usize = n;
    proof {
        assert(trim_start(s@.subrange(a as int, n as int)) == s@.subrange(a as int, n as int));
    }
    while b > a && is_space_char(s.get_char(b - 1))
        invariant
            n == s@.len(),
            a <= b <= n,
            trimmed(s@) == trim_end(s@.subrange(a as int, b as int)),
        decreases b - a,
    {
        proof {
            assert(s@.subrange(a as int, b as int).drop_last() =~= s@.subrange(
                a as int,
                b - 1,
            ));
        }
        b = b - 1;
    }
    String::from_str(s.substring_char(a, b))
}

/// The code of `c` with ASCII capitals taken to small letters.
fn lower_code(c: char) -> (r: u32)
    ensures
        r == ascii_lower(c),
{
    let u = c as u32;
    if 65 <= u && u <= 90 {
        u + 32
    } else {
        u
    }
}

/// `s` and `t` are equal but for the case of ASCII letters, as
/// `str::eq_ignore_ascii_case` says.
pub fn equal_ignoring_ascii_case(s: &str, t: &str) -> (r: bool)
    ensures
        r == eq_ignore_ascii_case(s@, t@),
{
    let n = s.unicode_len();
    if n != t.unicode_len() {
        return false;
    }
    let mut i: usize = 0;
    while i < n
        invariant
            n == s@.len() == t@.len(),
            i <= n,
            forall|k: int| 0 <= k < i ==> ascii_lower(#[trigger] s@[k]) == ascii_lower(t@[k]),
        decreases n - i,
    {
        if lower_code(s.get_char(i)) != lower_code(t.get_char(i)) {
            return false;
        }
        i = i + 1;
    }
    true
}

/// The printer names in `listing`: one per line, trimmed, with empty lines
/// and the virtual PDF printer left out, in the order listed.
pub fn printer_names_in(listing: &str) -> (r: Vec<String>)
    ensures
        views(r@) == printer_names(listing@),
{
    let lines = split_lines(listing);
    let mut names: Vec<String> = Vec::new();
    let mut i: usize = 0;
    while i < lines.len()
        invariant
            i <= lines.len(),
            views(lines@) == lines_of(listing@),
            views(names@) == names_in(views(lines@).take(i as int)),
        decreases lines.len() - i,
    {
        proof {
            assert(views(lines@).take(i + 1).drop_last() =~= views(lines@).take(i as int));
        }
        let name = trim(lines[i].as_str());
        if !name.as_str().is_empty() && !equal_ignoring_ascii_case(
            name.as_str(),
            "Microsoft Print to PDF",
        ) {
            names.push(name);
            proof {
                assert(views(names@) =~= names_in(views(lines@).take(i as int)).push(name@));
            }
        }
        i = i + 1;
    }
    proof {
        assert(views(lines@).take(lines.len() as int) =~= views(lines@));
    }
    names
}

/// The physical printers that a run of the printer query reports: an
/// error with the query's diagnostic where it could not run or failed,
/// else the names in its output.
pub fn list_printers_windows(output: Result<CommandOutput, String>) -> (r: Result<
    Vec<String>,
    PrintError,
>)
    ensures
        match output {
            Err(e) => r matches Err(PrintError::Enumeration(m)) && m@ == e@,
            Ok(o) => if o.success {
                r matches Ok(names) && views(names@) == printer_names(o.stdout@)
            } else {
                r matches Err(PrintError::Enumeration(m)) && m@ == "PowerShell error: "@
                    + o.stderr@
            },
        },
{
    match output {
        Err(e) => Err(PrintError::Enumeration(e)),
        Ok(o) => if o.success {
            Ok(printer_names_in(o.stdout.as_str()))
        } else {
            Err(PrintError::Enumeration(prefixed("PowerShell error: ", &o.stderr)))
        },
    }
}

/// The physical printers. Without native printing there are none, and no
/// query is run: `output` is the query's report exactly where the platform
/// has native printing.
pub fn list_printers(native_printing: bool, output: Option<Result<CommandOutput, String>>) -> (r:
    Result<Vec<String>, PrintError>)
    requires
        native_printing <==> output is Some,
    ensures
        !native_printing ==> (r matches Ok(names) && names@.len() == 0),
        native_printing ==> match output->0 {
            Err(e) => r matches Err(PrintError::Enumeration(m)) && m@ == e@,
            Ok(o) => if o.success {
                r matches Ok(names) && views(names@) == printer_names(o.stdout@)
            } else {
                r matches Err(PrintError::Enumeration(m)) && m@ == "PowerShell error: "@
                    + o.stderr@
            },
        },
{
    match output {
        Some(o) => list_printers_windows(o),
        None => Ok(Vec::new()),
    }
}

/// No listed name equals the virtual PDF printer, whatever its case or the
/// white space around it in the listing.
pub proof fn lemma_virtual_printer_never_listed(listing: Seq<char>)
    ensures
        forall|k: int|
            0 <= k < printer_names(listing).len() ==> !eq_ignore_ascii_case(
                #[trigger] printer_names(listing)[k],
                virtual_printer(),
            ) && printer_names(listing)[k].len() > 0,
{
    lemma_names_listed(lines_of(listing));
}

pub proof fn lemma_names_listed(lines: Seq<Seq<char>>)
    ensures
        forall|k: int| 0 <= k < names_in(lines).len() ==> is_listed(#[trigger] names_in(lines)[k]),
    decreases lines.len(),
{
    if lines.len() > 0 {
        let rest = names_in(lines.drop_last());
        lemma_names_listed(lines.drop_last());
        assert forall|k: int| 0 <= k < names_in(lines).len() implies is_listed(
            #[trigger] names_in(lines)[k],
        ) by {
            if k < rest.len() {
                assert(names_in(lines)[k] == rest[k]);
            }
        }
    }
}

} // verus!
