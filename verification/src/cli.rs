//! The command line of the manifest checker: what its arguments ask for,
//! and the report it prints for a valid manifest.

use vstd::prelude::*;
use crate::model::{process_count, DeployManifest, Start};
use crate::parser::Format;
use crate::text::{decimal_string, str_eq};

verus! {

/// Where the manifest to check comes from, and in which format to read it.
#[derive(Debug)]
pub enum Invocation {
    /// A file; its format is the one given, or else judged by its extension.
    File { path: String, format: Option<Format> },
    /// Standard input, in the format given.
    Stdin { format: Format },
}

/// Arguments that the checker cannot act on.
#[derive(Debug)]
pub enum ArgsError {
    /// `--format` (or `-f`) came last, without a value.
    MissingFormatValue,
    /// `--format` named a format that is not known.
    UnsupportedFormat(String),
}

/// What the arguments have set so far: the last path given, the last format
/// given, and whether `--stdin` was given.
pub struct ArgScan {
    pub path: Option<Seq<char>>,
    pub format: Option<Format>,
    pub stdin: bool,
}

/// The content of an [`ArgsError`].
pub enum ArgFailure {
    MissingFormatValue,
    UnsupportedFormat(Seq<char>),
}

impl View for ArgsError {
    type V = ArgFailure;

    open spec fn view(&self) -> ArgFailure {
        match self {
            ArgsError::MissingFormatValue => ArgFailure::MissingFormatValue,
            ArgsError::UnsupportedFormat(s) => ArgFailure::UnsupportedFormat(s@),
        }
    }
}

/// Reads the arguments from position `i` on, left to right, starting from
/// what `st` has set: `--format`/`-f` takes the next argument as a format,
/// `--stdin` selects standard input, and any other argument is a path.
pub open spec fn scan_args(args: Seq<Seq<char>>, i: int, st: ArgScan) -> Result<ArgScan, ArgFailure>
    decreases args.len() - i,
{
    if i < 0 || i >= args.len() {
        Ok(st)
    } else if args[i] == "--format"@ || args[i] == "-f"@ {
        if i + 1 >= args.len() {
            Err(ArgFailure::MissingFormatValue)
        } else {
            match crate::parser::format_of_extension(args[i + 1]) {
                Some(f) => scan_args(args, i + 2, ArgScan { path: st.path, format: Some(f), stdin: st.stdin }),
                None => Err(ArgFailure::UnsupportedFormat(args[i + 1])),
            }
        }
    } else if args[i] == "--stdin"@ {
        scan_args(args, i + 1, ArgScan { path: st.path, format: st.format, stdin: true })
    } else {
        scan_args(args, i + 1, ArgScan { path: Some(args[i]), format: st.format, stdin: st.stdin })
    }
}

/// The texts of a list of strings.
pub open spec fn string_texts(list: Seq<String>) -> Seq<Seq<char>> {
    list.map_values(|s: String| s@)
}

/// What the whole command line asks for: the arguments after the program's
/// name are read as `scan_args` says; a path is read as a file unless
/// `--stdin` was given; standard input is read as YAML unless a format was given.
pub open spec fn invocation_matches(args: Seq<Seq<char>>, r: Result<Invocation, ArgsError>) -> bool {
    match scan_args(args, 1, ArgScan { path: None, format: None, stdin: false }) {
        Ok(st) => match r {
            Ok(Invocation::File { path, format }) => st.path == Some(path@) && !st.stdin && st.format == format,
            Ok(Invocation::Stdin { format }) => (st.path is None || st.stdin) && format == match st.format {
                Some(f) => f,
                None => Format::Yaml,
            },
            Err(_) => false,
        },
        Err(fail) => r matches Err(e) && e@ == fail,
    }
}

/// Works out from the command line (the program's name first) where to read
/// the manifest from and in which format.
pub fn parse_args(args: &Vec<String>) -> (r: Result<Invocation, ArgsError>)
    ensures
        invocation_matches(string_texts(args@), r),
{
    let ghost all = string_texts(args@);
    let ghost init = ArgScan { path: None, format: None, stdin: false };
    let mut path: Option<&String> = None;
    let mut explicit: Option<Format> = None;
    let mut stdin_mode = false;
    let n = args.len();
    let mut i: usize = 1;
    while i < n
        invariant
            n == args@.len(),
            all == string_texts(args@),
            init == (ArgScan { path: None, format: None, stdin: false }),
            1 <= i,
            scan_args(all, 1, init) == scan_args(all, i as int, ArgScan {
                path: match path { Some(p) => Some(p@), None => None },
                format: explicit,
                stdin: stdin_mode,
            }),
        decreases n - i,
    {
        let arg = args[i].as_str();
        assert(all[i as int] == arg@);
        let ghost at = i as int;
        let ghost st = ArgScan {
            path: match path { Some(p) => Some(p@), None => None },
            format: explicit,
            stdin: stdin_mode,
        };
        if str_eq(arg, "--format") || str_eq(arg, "-f") {
            i = i + 1;
            if i >= n {
                assert(scan_args(all, at, st) == Err::<ArgScan, ArgFailure>(ArgFailure::MissingFormatValue));
                return Err(ArgsError::MissingFormatValue);
            }
            let value = args[i].as_str();
            assert(all[i as int] == value@);
            match Format::from_extension(value) {
                Some(f) => explicit = Some(f),
                None => {
                    let e = ArgsError::UnsupportedFormat(String::from_str(value));
                    assert(scan_args(all, at, st) == Err::<ArgScan, ArgFailure>(e@));
                    return Err(e);
                },
            }
        } else if str_eq(arg, "--stdin") {
            stdin_mode = true;
        } else {
            path = Some(&args[i]);
        }
        i = i + 1;
    }
    let ghost st = ArgScan {
        path: match path { Some(p) => Some(p@), None => None },
        format: explicit,
        stdin: stdin_mode,
    };
    assert(scan_args(all, i as int, st) == Ok::<ArgScan, ArgFailure>(st));
    match path {
        Some(p) => {
            if !stdin_mode {
                return Ok(Invocation::File { path: p.clone(), format: explicit });
            }
        },
        None => {},
    }
    let format = match explicit {
        Some(f) => f,
        None => Format::Yaml,
    };
    Ok(Invocation::Stdin { format })
}

impl ArgsError {
    /// The message that describes the problem with the arguments.
    pub fn to_string(&self) -> (s: String)
        ensures
            s@ == match self@ {
                ArgFailure::MissingFormatValue => "--format requires an argument"@,
                ArgFailure::UnsupportedFormat(f) => "unsupported format '"@ + f + "'"@,
            },
    {
        match self {
            ArgsError::MissingFormatValue => String::from_str("--format requires an argument"),
            ArgsError::UnsupportedFormat(f) => {
                let mut s = String::from_str("unsupported format '");
                s.append(f.as_str());
                s.append("'");
                s
            },
        }
    }
}

/// The number of processes that a start section runs.
pub open spec fn process_total(start: Start) -> nat {
    match start {
        Start::Simple(_) => 1,
        Start::Multi(p) => crate::model::process_entries(p).len(),
    }
}

/// The lines that the checker prints for a valid manifest: its application,
/// runtime (and the runtime's version when given), build strategy and number
/// of build commands when a build is given, and number of start processes.
pub open spec fn summary_lines(m: DeployManifest) -> Seq<Seq<char>> {
    seq!["\u{2713} manifest valid"@, "  app:  "@ + m.app.name@, "  runtime: "@ + m.runtime.runtime_type@]
        + match m.runtime.version {
            Some(v) => seq!["  version: "@ + v@],
            None => Seq::empty(),
        }
        + match m.build {
            Some(b) => seq!["  build: "@ + b.strategy@ + " ("@ + match b.commands {
                Some(c) => crate::text::decimal(c@.len()),
                None => Seq::empty(),
            } + " commands)"@],
            None => Seq::empty(),
        }
        + seq!["  start processes: "@ + crate::text::decimal(process_total(m.start))]
}

/// The report on a valid manifest, line by line.
pub fn summary(m: &DeployManifest) -> (lines: Vec<String>)
    ensures
        string_texts(lines@) == summary_lines(*m),
{
    let mut lines: Vec<String> = Vec::new();
    lines.push(String::from_str("\u{2713} manifest valid"));
    let mut app = String::from_str("  app:  ");
    app.append(m.app.name.as_str());
    lines.push(app);
    let mut runtime = String::from_str("  runtime: ");
    runtime.append(m.runtime.runtime_type.as_str());
    lines.push(runtime);
    let ghost head = string_texts(lines@);
    match &m.runtime.version {
        Some(v) => {
            let mut line = String::from_str("  version: ");
            line.append(v.as_str());
            lines.push(line);
        },
        None => {},
    }
    let ghost with_version = string_texts(lines@);
    match &m.build {
        Some(b) => {
            let mut line = String::from_str("  build: ");
            line.append(b.strategy.as_str());
            line.append(" (");
            match &b.commands {
                Some(c) => {
                    let count = decimal_string(c.len() as u64);
                    line.append(count.as_str());
                },
                None => {},
            }
            line.append(" commands)");
            lines.push(line);
        },
        None => {},
    }
    let total: usize = match &m.start {
        Start::Simple(_) => 1,
        Start::Multi(p) => process_count(p),
    };
    let mut line = String::from_str("  start processes: ");
    let count = decimal_string(total as u64);
    line.append(count.as_str());
    lines.push(line);
    assert(string_texts(lines@) =~= summary_lines(*m));
    lines
}

/// A `--stdin` added at the end of arguments that were read without error
/// only selects standard input: the path and the format chosen before it are
/// kept as they were.
pub proof fn lemma_trailing_stdin_keeps_choices(args: Seq<Seq<char>>, i: int, st: ArgScan)
    requires
        0 <= i <= args.len(),
        scan_args(args, i, st) is Ok,
    ensures
        scan_args(args.push("--stdin"@), i, st) == Ok::<ArgScan, ArgFailure>(ArgScan {
            path: scan_args(args, i, st)->Ok_0.path,
            format: scan_args(args, i, st)->Ok_0.format,
            stdin: true,
        }),
    decreases args.len() - i,
{
    let longer = args.push("--stdin"@);
    reveal_strlit("--stdin");
    reveal_strlit("--format");
    reveal_strlit("-f");
    if i == args.len() {
        assert(longer[i] == "--stdin"@);
        assert(longer[i] != "--format"@);
        assert(longer[i] != "-f"@);
    } else {
        assert(longer[i] == args[i]);
        if args[i] == "--format"@ || args[i] == "-f"@ {
            assert(longer[i + 1] == args[i + 1]);
            let f = crate::parser::format_of_extension(args[i + 1])->Some_0;
            lemma_trailing_stdin_keeps_choices(args, i + 2, ArgScan { path: st.path, format: Some(f), stdin: st.stdin });
        } else if args[i] == "--stdin"@ {
            lemma_trailing_stdin_keeps_choices(args, i + 1, ArgScan { path: st.path, format: st.format, stdin: true });
        } else {
            lemma_trailing_stdin_keeps_choices(args, i + 1, ArgScan { path: Some(args[i]), format: st.format, stdin: st.stdin });
        }
    }
}

/// When a command line that reads without error gets `--stdin` added at its
/// end, the checker reads standard input, in the last format given to
/// `--format` or `-f` anywhere before it (YAML when none was given).
pub proof fn lemma_stdin_keeps_format(args: Seq<Seq<char>>, r: Result<Invocation, ArgsError>)
    requires
        args.len() >= 1,
        scan_args(args, 1, ArgScan { path: None, format: None, stdin: false }) is Ok,
        invocation_matches(args.push("--stdin"@), r),
    ensures
        r matches Ok(Invocation::Stdin { format }) && format == match scan_args(
            args,
            1,
            ArgScan { path: None, format: None, stdin: false },
        )->Ok_0.format {
            Some(f) => f,
            None => Format::Yaml,
        },
{
    lemma_trailing_stdin_keeps_choices(args, 1, ArgScan { path: None, format: None, stdin: false });
}

/// The report's build line, for a manifest with a build: the strategy, then
/// the number of build commands whatever the strategy is (nothing in its
/// place when no commands are given); it comes after the application,
/// runtime and (when given) runtime version lines, and only the start line
/// follows it.
pub proof fn lemma_summary_build_line(m: DeployManifest)
    requires
        m.build is Some,
    ensures
        ({
            let lines = summary_lines(m);
            let k: int = if m.runtime.version is Some { 4 } else { 3 };
            &&& lines.len() == k + 2
            &&& (m.build->0.commands matches Some(c) ==> lines[k] == "  build: "@ + m.build->0.strategy@
                + " ("@ + crate::text::decimal(c@.len()) + " commands)"@)
            &&& (m.build->0.commands is None ==> lines[k] == "  build: "@ + m.build->0.strategy@
                + " ( commands)"@)
            &&& lines[k + 1] == "  start processes: "@ + crate::text::decimal(process_total(m.start))
        }),
{
    reveal_strlit(" (");
    reveal_strlit(" commands)");
    reveal_strlit(" ( commands)");
    let b = m.build->0;
    assert(" ("@ + Seq::<char>::empty() + " commands)"@ =~= " ( commands)"@);
    assert("  build: "@ + b.strategy@ + " ("@ + Seq::<char>::empty() + " commands)"@
        =~= "  build: "@ + b.strategy@ + " ( commands)"@);
}

} // verus!
