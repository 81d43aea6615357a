//! The per-path plan of a run: which paths are looked at, what is asked of the
//! file system for each, what is reported, and the line that shows it.
use vstd::prelude::*;

use itertools::Itertools;

use crate::file_system::{
    extension_text, file_type_text, get_file_extension, get_file_type, get_mime_type,
    get_mime_type_by_content, guessed_mime, is_regular_file, mime_text, sniffed_mime, FileFacts,
};
use crate::inside_file::{get_type_from_shebang, shebang_type};
use crate::text::{opt_text, starts_with};

verus! {

/// What a run reports for each path; chosen once for the whole run.
#[derive(Debug, Clone, Copy, PartialEq, Eq, Structural)]
pub enum Mode {
    /// The entry's type, with the script kind of a shebang file.
    FileType,
    /// A MIME type.
    MimeType,
    /// The file name's extension.
    Extension,
}

/// The mode a run's flags select: a MIME type where it is asked for, else an
/// extension where that is asked for, else the file type.
pub open spec fn mode_for(mime_type: bool, extension: bool) -> Mode {
    if mime_type {
        Mode::MimeType
    } else if extension {
        Mode::Extension
    } else {
        Mode::FileType
    }
}

/// The mode a run's flags select (see `mode_for`).
pub fn select_mode(mime_type: bool, extension: bool) -> (r: Mode)
    ensures
        r == mode_for(mime_type, extension),
{
    if mime_type {
        Mode::MimeType
    } else if extension {
        Mode::Extension
    } else {
        Mode::FileType
    }
}

/// How MIME types are found.
#[derive(Debug, Clone, Copy, PartialEq, Eq, Structural)]
pub enum MimeBackend {
    /// From the path's extension, with mime_guess's table.
    ByExtension,
    /// From the file's leading bytes, with infer's signatures.
    BySignature,
}

/// What is to be read from the file system for one existing path.
#[derive(Debug, Clone, Copy, PartialEq, Eq, Structural)]
pub struct Probes {
    /// The file's first line.
    pub first_line: bool,
    /// The entry's metadata, and the target of a link.
    pub metadata: bool,
    /// The file's leading bytes.
    pub head: bool,
    /// Whether the entry is a directory.
    pub is_dir: bool,
}

/// What was read for one path. A value that was not asked for, or could not
/// be read, is `None` (or `false`).
pub struct Findings {
    pub first_line: Option<String>,
    pub facts: Option<FileFacts>,
    pub head: Option<Vec<u8>>,
    pub is_dir: bool,
}

/// The result for one path.
pub enum Report {
    /// The path does not exist.
    CannotOpen,
    /// The path exists but its metadata could not be read.
    MetadataUnreadable,
    /// The description of the path.
    Info(String),
}

pub enum ReportView {
    CannotOpen,
    MetadataUnreadable,
    Info(Seq<char>),
}

impl View for Report {
    type V = ReportView;

    open spec fn view(&self) -> ReportView {
        match self {
            Report::CannotOpen => ReportView::CannotOpen,
            Report::MetadataUnreadable => ReportView::MetadataUnreadable,
            Report::Info(s) => ReportView::Info(s@),
        }
    }
}

/// One output line, and whether it goes to the error stream.
pub struct Line {
    pub to_stderr: bool,
    pub text: String,
}

/// Each path the first time it comes, in the order given.
pub open spec fn first_occurrences(paths: Seq<Seq<char>>) -> Seq<Seq<char>>
    decreases paths.len(),
{
    if paths.len() == 0 {
        paths
    } else {
        let rest = first_occurrences(paths.drop_last());
        if paths.drop_last().contains(paths.last()) {
            rest
        } else {
            rest.push(paths.last())
        }
    }
}

/// Relies on itertools' `Itertools::unique`: it yields each item the first
/// time it comes, in the order of the input, and drops later equal ones
/// (strings are equal when their characters are).
#[verifier::external_body]
fn unique(paths: &Vec<String>) -> (r: Vec<String>)
    ensures
        r.deep_view() == first_occurrences(paths.deep_view()),
{
    paths.iter().unique().cloned().collect()
}

/// Deduplication keeps every path of the input and no path twice: one task
/// runs for each distinct path.
pub proof fn lemma_first_occurrences(paths: Seq<Seq<char>>)
    ensures
        first_occurrences(paths).no_duplicates(),
        forall|p: Seq<char>| #[trigger]
            first_occurrences(paths).contains(p) <==> paths.contains(p),
    decreases paths.len(),
{
    if paths.len() > 0 {
        let init = paths.drop_last();
        let last = paths.last();
        lemma_first_occurrences(init);
        let rest = first_occurrences(init);
        assert forall|p: Seq<char>| paths.contains(p) <==> (init.contains(p) || p == last) by {
            if paths.contains(p) {
                let i = choose|i: int| 0 <= i < paths.len() && paths[i] == p;
                if i < paths.len() - 1 {
                    assert(init[i] == p);
                }
            }
            if init.contains(p) {
                let i = choose|i: int| 0 <= i < init.len() && init[i] == p;
                assert(paths[i] == p);
            }
            if p == last {
                assert(paths[paths.len() - 1] == p);
            }
        }
        if !init.contains(last) {
            let r = rest.push(last);
            assert forall|p: Seq<char>| r.contains(p) <==> (rest.contains(p) || p == last) by {
                if r.contains(p) {
                    let i = choose|i: int| 0 <= i < r.len() && r[i] == p;
                    if i < rest.len() {
                        assert(rest[i] == p);
                    }
                }
                if rest.contains(p) {
                    let i = choose|i: int| 0 <= i < rest.len() && rest[i] == p;
                    assert(r[i] == p);
                }
                if p == last {
                    assert(r[r.len() - 1] == p);
                }
            }
            assert forall|i: int, j: int| 0 <= i < r.len() && 0 <= j < r.len() && i != j implies r[i]
                != r[j] by {
                if i < rest.len() && j < rest.len() {
                    assert(r[i] == rest[i] && r[j] == rest[j]);
                } else if i < rest.len() {
                    assert(rest.contains(r[i]));
                } else if j < rest.len() {
                    assert(rest.contains(r[j]));
                }
            }
        }
    }
}

/// The paths of a run, each once, in the order in which they first come.
pub fn distinct_paths(paths: &Vec<String>) -> (r: Vec<String>)
    ensures
        r.deep_view() == first_occurrences(paths.deep_view()),
{
    unique(paths)
}

/// What is read for a path: nothing where it does not exist; else what the
/// mode needs.
pub open spec fn probes_needed(mode: Mode, backend: MimeBackend, exists: bool) -> Probes {
    Probes {
        first_line: exists && mode == Mode::FileType,
        metadata: exists && mode == Mode::FileType,
        head: exists && mode == Mode::MimeType && backend == MimeBackend::BySignature,
        is_dir: exists && mode == Mode::MimeType,
    }
}

/// What to read from the file system for a path (see `probes_needed`).
pub fn probes_for(mode: Mode, backend: MimeBackend, exists: bool) -> (r: Probes)
    ensures
        r == probes_needed(mode, backend, exists),
{
    let file_type = mode == Mode::FileType;
    let mime = mode == Mode::MimeType;
    Probes {
        first_line: exists && file_type,
        metadata: exists && file_type,
        head: exists && mime && backend == MimeBackend::BySignature,
        is_dir: exists && mime,
    }
}

/// The description in the file-type mode: the script kind that the first
/// line names, joined to the entry's type, or the entry's type alone.
pub open spec fn type_description(first_line: Option<String>, f: FileFacts) -> Seq<char> {
    let script = match first_line {
        Some(l) => shebang_type(l@),
        None => None,
    };
    match script {
        Some(s) => s + " script, "@ + file_type_text(f),
        None => file_type_text(f),
    }
}

/// What is reported for a path. A missing path is reported as such and
/// nothing else is looked at. Else, by mode: the MIME type from the chosen
/// backend; the extension, from the path's text alone; or the description from
/// the first line and the metadata, where the metadata could be read.
pub open spec fn classification(
    path: Seq<char>,
    mode: Mode,
    backend: MimeBackend,
    exists: bool,
    found: Findings,
) -> ReportView {
    if !exists {
        ReportView::CannotOpen
    } else {
        match mode {
            Mode::MimeType => {
                let guess = match backend {
                    MimeBackend::ByExtension => guessed_mime(path),
                    MimeBackend::BySignature => match found.head {
                        Some(h) => sniffed_mime(h@),
                        None => None,
                    },
                };
                ReportView::Info(mime_text(guess, found.is_dir))
            },
            Mode::Extension => ReportView::Info(extension_text(path)),
            Mode::FileType => match found.facts {
                Some(f) => ReportView::Info(type_description(found.first_line, f)),
                None => ReportView::MetadataUnreadable,
            },
        }
    }
}

/// What is reported for a path (see `classification`).
pub fn classify(
    path: &str,
    mode: Mode,
    backend: MimeBackend,
    exists: bool,
    found: &Findings,
) -> (r: Report)
    ensures
        r@ == classification(path@, mode, backend, exists, *found),
{
    if !exists {
        return Report::CannotOpen;
    }
    match mode {
        Mode::MimeType => match backend {
            MimeBackend::ByExtension => Report::Info(get_mime_type(path, found.is_dir)),
            MimeBackend::BySignature => Report::Info(
                get_mime_type_by_content(&found.head, found.is_dir),
            ),
        },
        Mode::Extension => Report::Info(get_file_extension(path)),
        Mode::FileType => match &found.facts {
            Some(f) => {
                let kind = get_file_type(f);
                let script = match &found.first_line {
                    Some(l) => get_type_from_shebang(l.as_str()),
                    None => None,
                };
                match script {
                    Some(s) => {
                        let mut text = s;
                        text.append(" script, ");
                        text.append(kind.as_str());
                        Report::Info(text)
                    },
                    None => Report::Info(kind),
                }
            },
            None => Report::MetadataUnreadable,
        },
    }
}

/// A regular file whose first line does not start with `#!` is no script,
/// and is reported as `ASCII text`.
pub proof fn lemma_plain_regular_file(path: Seq<char>, backend: MimeBackend, found: Findings)
    requires
        found.first_line matches Some(l) ==> !starts_with(l@, "#!"@),
        found.facts matches Some(f) && is_regular_file(f),
    ensures
        found.first_line matches Some(l) ==> shebang_type(l@) is None,
        found.facts matches Some(f) && file_type_text(f) == "ASCII text"@,
        classification(path, Mode::FileType, backend, true, found) == ReportView::Info(
            "ASCII text"@,
        ),
{
}

/// A missing path is reported as one that cannot be opened, whatever the
/// mode, and nothing is read for it.
pub proof fn lemma_missing_path(
    path: Seq<char>,
    mode: Mode,
    backend: MimeBackend,
    found: Findings,
)
    ensures
        classification(path, mode, backend, false, found) == ReportView::CannotOpen,
        probes_needed(mode, backend, false) == (Probes {
            first_line: false,
            metadata: false,
            head: false,
            is_dir: false,
        }),
{
}

/// The report on a path is a function of the path and of what was read for
/// it: classifying an unchanged path again gives the same report.
pub proof fn lemma_classification_repeatable(
    path: Seq<char>,
    mode: Mode,
    backend: MimeBackend,
    exists: bool,
    a: Findings,
    b: Findings,
)
    requires
        opt_text(a.first_line) == opt_text(b.first_line),
        a.facts == b.facts,
        a.head matches Some(h) ==> b.head matches Some(g) && h@ == g@,
        a.head is None ==> b.head is None,
        a.is_dir == b.is_dir,
    ensures
        classification(path, mode, backend, exists, a) == classification(
            path,
            mode,
            backend,
            exists,
            b,
        ),
{
}

/// The width that a path and a description are padded to on a full line.
pub const COLUMN_WIDTH: usize = 15;

/// `s` followed by spaces up to `width` characters; `s` itself where it is
/// that long already.
pub open spec fn pad_right(s: Seq<char>, width: nat) -> Seq<char> {
    if s.len() >= width {
        s
    } else {
        s + Seq::new((width - s.len()) as nat, |_i: int| ' ')
    }
}

/// The text that reports on a path, without the path in front.
pub open spec fn message(path: Seq<char>, r: ReportView) -> Seq<char> {
    match r {
        ReportView::CannotOpen => "cannot open '"@ + path + "' (No such file, directory or flag)"@,
        ReportView::MetadataUnreadable => "cannot read metadata of '"@ + path + "'"@,
        ReportView::Info(s) => s,
    }
}

/// The line printed for a path. A brief line is the message alone. A full
/// line is the padded path, the separator, a space, and the message, where a
/// description is padded too.
pub open spec fn line_text(path: Seq<char>, separator: Seq<char>, brief: bool, r: ReportView) -> Seq<
    char,
> {
    if brief {
        message(path, r)
    } else {
        pad_right(path, COLUMN_WIDTH as nat) + separator + " "@ + match r {
            ReportView::Info(s) => pad_right(s, COLUMN_WIDTH as nat),
            _ => message(path, r),
        }
    }
}

/// `s` padded with spaces to `width` characters (see `pad_right`).
pub fn padded(s: &str, width: usize) -> (r: String)
    ensures
        r@ == pad_right(s@, width as nat),
{
    let n = s.unicode_len();
    let mut r = s.to_owned();
    if n >= width {
        return r;
    }
    let mut k: usize = n;
    while k < width
        invariant
            n <= k <= width,
            n == s@.len(),
            r@ == s@ + Seq::new((k - n) as nat, |_i: int| ' '),
        decreases width - k,
    {
        proof {
            reveal_strlit(" ");
            assert(" "@ =~= seq![' ']);
        }
        r.append(" ");
        assert(r@ =~= s@ + Seq::new((k + 1 - n) as nat, |_i: int| ' '));
        k = k + 1;
    }
    r
}

fn message_of(path: &str, report: &Report) -> (r: String)
    ensures
        r@ == message(path@, report@),
{
    match report {
        Report::CannotOpen => {
            let mut r = "cannot open '".to_owned();
            r.append(path);
            r.append("' (No such file, directory or flag)");
            r
        },
        Report::MetadataUnreadable => {
            let mut r = "cannot read metadata of '".to_owned();
            r.append(path);
            r.append("'");
            r
        },
        Report::Info(s) => s.clone(),
    }
}

/// The line for a path (see `line_text`); it goes to the error stream where
/// the report is an error.
pub fn render(path: &str, separator: &str, brief: bool, report: &Report) -> (r: Line)
    ensures
        r.text@ == line_text(path@, separator@, brief, report@),
        r.to_stderr == !(report is Info),
{
    let to_stderr = !matches!(report, Report::Info(_));
    if brief {
        return Line { to_stderr, text: message_of(path, report) };
    }
    let mut text = padded(path, COLUMN_WIDTH);
    text.append(separator);
    text.append(" ");
    match report {
        Report::Info(s) => text.append(padded(s.as_str(), COLUMN_WIDTH).as_str()),
        _ => text.append(message_of(path, report).as_str()),
    }
    Line { to_stderr, text }
}

/// Why a run cannot start.
#[derive(Debug, Clone, Copy, PartialEq, Eq, Structural)]
pub enum ConfigError {
    /// No path was given.
    NoPaths,
    /// The number of jobs is negative.
    InvalidJobs,
}

/// The width of the worker pool for a run over `n_paths` paths with the given
/// number of jobs, where 0 leaves the choice to the pool. A run needs a path,
/// and a number of jobs that is not negative.
pub open spec fn width_for(n_paths: nat, jobs: Option<isize>) -> Result<usize, ConfigError> {
    if n_paths == 0 {
        Err(ConfigError::NoPaths)
    } else {
        match jobs {
            Some(j) => if j < 0 {
                Err(ConfigError::InvalidJobs)
            } else {
                Ok(j as usize)
            },
            None => Ok(0),
        }
    }
}

/// The width of the worker pool for a run (see `width_for`).
pub fn pool_width(n_paths: usize, jobs: Option<isize>) -> (r: Result<usize, ConfigError>)
    ensures
        r == width_for(n_paths as nat, jobs),
{
    if n_paths == 0 {
        return Err(ConfigError::NoPaths);
    }
    match jobs {
        Some(j) => if j < 0 {
            Err(ConfigError::InvalidJobs)
        } else {
            Ok(j as usize)
        },
        None => Ok(0),
    }
}

} // verus!
