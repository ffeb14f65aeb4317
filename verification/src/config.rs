//! Configuration: the modes of the program and the reading of its
//! command line.
//!
//! ```text
//! release-linear-ticket-update [MODE] [OPTIONS] [FILES...]
//!
//! Modes:
//!   parse-notes        Parse release notes for PR numbers
//!   extract-tickets    Extract Linear tickets from PRs
//!   update-tickets     Update Linear tickets to completed
//!   (default)          Run the full pipeline
//!
//! Options:
//!   --release-tag TAG      GitHub release tag
//!   --linear-api-key KEY   Linear API authentication key
//!   --linear-org ORG       Linear organization identifier
//!   --dry-run              Preview changes without updating
//!   --update-all-statuses  Update regardless of current Linear state
//!
//! Files:
//!   -                      Read from stdin (can be mixed with files)
//!   file1 file2 ...        Read from these files
//! ```

use vstd::prelude::*;
use crate::text::{matches_at, starts_with, str_eq, substring, to_chars, views};

verus! {

/// What the program is asked to do.
#[derive(Debug, Clone, Copy, PartialEq, Eq, Structural)]
pub enum Mode {
    /// Find pull-request numbers in release notes.
    ParseNotes,
    /// Find ticket identifiers in pull requests.
    ExtractTickets,
    /// Move tickets to a completed state.
    UpdateTickets,
    /// Run the three stages as one pipeline.
    Orchestrator,
}

/// Where a stage reads its lines from.
#[derive(Debug, Clone, PartialEq, Eq)]
pub enum InputSource {
    /// Standard input.
    Stdin,
    /// The file at this path.
    File(String),
}

/// What an `InputSource` holds, as plain values.
pub enum InputSourceView {
    Stdin,
    File(Seq<char>),
}

impl View for InputSource {
    type V = InputSourceView;

    open spec fn view(&self) -> InputSourceView {
        match self {
            InputSource::Stdin => InputSourceView::Stdin,
            InputSource::File(path) => InputSourceView::File(path@),
        }
    }
}

/// The views of the sources of `v`, in order.
pub open spec fn source_views(v: Seq<InputSource>) -> Seq<InputSourceView> {
    Seq::new(v.len(), |i: int| v[i]@)
}

/// The view of the string in `o`, if there is one.
pub open spec fn option_view(o: Option<String>) -> Option<Seq<char>> {
    match o {
        Some(s) => Some(s@),
        None => None,
    }
}

/// The options and input sources read from a command line.
#[derive(Debug, Clone, PartialEq, Eq)]
pub struct ParsedArgs {
    pub release_tag: Option<String>,
    pub linear_api_key: Option<String>,
    pub linear_org: Option<String>,
    pub input_sources: Vec<InputSource>,
    pub dry_run: bool,
    pub update_all_statuses: bool,
}

/// What a `ParsedArgs` holds, as plain values.
pub struct ParsedView {
    pub release_tag: Option<Seq<char>>,
    pub linear_api_key: Option<Seq<char>>,
    pub linear_org: Option<Seq<char>>,
    pub input_sources: Seq<InputSourceView>,
    pub dry_run: bool,
    pub update_all_statuses: bool,
}

impl View for ParsedArgs {
    type V = ParsedView;

    open spec fn view(&self) -> ParsedView {
        ParsedView {
            release_tag: option_view(self.release_tag),
            linear_api_key: option_view(self.linear_api_key),
            linear_org: option_view(self.linear_org),
            input_sources: source_views(self.input_sources@),
            dry_run: self.dry_run,
            update_all_statuses: self.update_all_statuses,
        }
    }
}

/// The configuration of one run of the program.
#[derive(Debug, Clone, PartialEq, Eq)]
pub struct Config {
    /// What the program is asked to do.
    pub mode: Mode,
    /// The release whose notes are read.
    pub release_tag: Option<String>,
    /// The key that opens the tracker, where the command line gives it.
    pub linear_api_key: Option<String>,
    /// The organization in the tracker, where the command line gives it.
    pub linear_org: Option<String>,
    /// Where the stage reads its lines from, in order.
    pub input_sources: Vec<InputSource>,
    /// Whether changes are only shown, not made.
    pub dry_run: bool,
    /// Whether tickets are moved whatever state they are in.
    pub update_all_statuses: bool,
}

/// What a `Config` holds, as plain values.
pub struct ConfigView {
    pub mode: Mode,
    pub args: ParsedView,
}

impl View for Config {
    type V = ConfigView;

    open spec fn view(&self) -> ConfigView {
        ConfigView {
            mode: self.mode,
            args: ParsedView {
                release_tag: option_view(self.release_tag),
                linear_api_key: option_view(self.linear_api_key),
                linear_org: option_view(self.linear_org),
                input_sources: source_views(self.input_sources@),
                dry_run: self.dry_run,
                update_all_statuses: self.update_all_statuses,
            },
        }
    }
}

/// The options before anything is read.
pub open spec fn no_args() -> ParsedView {
    ParsedView {
        release_tag: None,
        linear_api_key: None,
        linear_org: None,
        input_sources: Seq::empty(),
        dry_run: false,
        update_all_statuses: false,
    }
}

/// The mode that a command line asks for and the index of its first option:
/// the full pipeline where the first argument is an option, else the mode
/// that the first argument names.
pub open spec fn mode_of(args: Seq<Seq<char>>) -> Result<(Mode, int), Seq<char>> {
    if args.len() < 2 {
        Err("Orchestrator mode requires --release-tag flag"@)
    } else if starts_with(args[1], "--"@) {
        Ok((Mode::Orchestrator, 1))
    } else if args[1] == "parse-notes"@ {
        Ok((Mode::ParseNotes, 2))
    } else if args[1] == "extract-tickets"@ {
        Ok((Mode::ExtractTickets, 2))
    } else if args[1] == "update-tickets"@ {
        Ok((Mode::UpdateTickets, 2))
    } else {
        Err("Unknown mode: "@ + args[1])
    }
}

/// What follows `prefix` in `arg`, where `arg` begins with it.
pub open spec fn value_after(arg: Seq<char>, prefix: Seq<char>) -> Option<Seq<char>> {
    if starts_with(arg, prefix) {
        Some(arg.subrange(prefix.len() as int, arg.len() as int))
    } else {
        None
    }
}

/// The value of an option written as two arguments: the argument after
/// index `i`, or the complaint that it is missing.
pub open spec fn next_value(args: Seq<Seq<char>>, i: int, complaint: Seq<char>) -> Result<
    Seq<char>,
    Seq<char>,
> {
    if i + 1 < args.len() {
        Ok(args[i + 1])
    } else {
        Err(complaint)
    }
}

/// Reads the option at index `i`, if the argument there is one that every
/// mode knows: whether it was one, the index of the next argument and the
/// options read so far; or the complaint about a missing value.
pub open spec fn common_flag(args: Seq<Seq<char>>, i: int, p: ParsedView) -> Result<
    (bool, int, ParsedView),
    Seq<char>,
> {
    if i < 0 || i >= args.len() {
        Err("Internal error while parsing args"@)
    } else if args[i] == "--dry-run"@ {
        Ok((true, i + 1, ParsedView { dry_run: true, ..p }))
    } else if args[i] == "--update-all-statuses"@ {
        Ok((true, i + 1, ParsedView { update_all_statuses: true, ..p }))
    } else if let Some(value) = value_after(args[i], "--release-tag="@) {
        Ok((true, i + 1, ParsedView { release_tag: Some(value), ..p }))
    } else if args[i] == "--release-tag"@ {
        match next_value(args, i, "Missing value for --release-tag"@) {
            Ok(value) => Ok((true, i + 2, ParsedView { release_tag: Some(value), ..p })),
            Err(e) => Err(e),
        }
    } else if let Some(value) = value_after(args[i], "--linear-api-key="@) {
        Ok((true, i + 1, ParsedView { linear_api_key: Some(value), ..p }))
    } else if args[i] == "--linear-api-key"@ {
        match next_value(args, i, "Missing value for --linear-api-key"@) {
            Ok(value) => Ok((true, i + 2, ParsedView { linear_api_key: Some(value), ..p })),
            Err(e) => Err(e),
        }
    } else if let Some(value) = value_after(args[i], "--linear-org="@) {
        Ok((true, i + 1, ParsedView { linear_org: Some(value), ..p }))
    } else if args[i] == "--linear-org"@ {
        match next_value(args, i, "Missing value for --linear-org"@) {
            Ok(value) => Ok((true, i + 2, ParsedView { linear_org: Some(value), ..p })),
            Err(e) => Err(e),
        }
    } else {
        Ok((false, i, p))
    }
}

/// The options after a `-` was read: standard input is added as a source
/// in the two modes that read lines, once; elsewhere `-` is refused.
pub open spec fn stdin_arg(mode: Mode, p: ParsedView, stdin_used: bool) -> Result<
    ParsedView,
    Seq<char>,
> {
    match mode {
        Mode::ExtractTickets | Mode::UpdateTickets => if stdin_used {
            Err("stdin (-) cannot be specified more than once"@)
        } else {
            Ok(ParsedView { input_sources: p.input_sources.push(InputSourceView::Stdin), ..p })
        },
        Mode::ParseNotes => Err("parse-notes reads from stdin implicitly; '-' is not accepted"@),
        Mode::Orchestrator => Err("Orchestrator mode does not accept stdin ('-')"@),
    }
}

/// The options after the path `arg` was read: the file is added as a source
/// in the two modes that read lines; elsewhere it is refused.
pub open spec fn file_arg(mode: Mode, arg: Seq<char>, p: ParsedView) -> Result<
    ParsedView,
    Seq<char>,
> {
    match mode {
        Mode::ExtractTickets | Mode::UpdateTickets => Ok(
            ParsedView { input_sources: p.input_sources.push(InputSourceView::File(arg)), ..p },
        ),
        Mode::ParseNotes => Err("parse-notes does not accept file arguments"@),
        Mode::Orchestrator => Err("Orchestrator mode does not accept file arguments"@),
    }
}

/// The options that the arguments from index `i` on add to `p`, read from
/// left to right, or the first complaint.
pub open spec fn parse_from(
    mode: Mode,
    args: Seq<Seq<char>>,
    i: int,
    p: ParsedView,
    stdin_used: bool,
) -> Result<ParsedView, Seq<char>>
    decreases args.len() - i,
{
    if i < 0 || i >= args.len() {
        Ok(p)
    } else {
        match common_flag(args, i, p) {
            Err(e) => Err(e),
            Ok((true, next, q)) => parse_from(mode, args, next, q, stdin_used),
            Ok((false, _, _)) => if args[i] == "-"@ {
                match stdin_arg(mode, p, stdin_used) {
                    Err(e) => Err(e),
                    Ok(q) => parse_from(mode, args, i + 1, q, true),
                }
            } else if starts_with(args[i], "--"@) {
                Err("Unknown flag: "@ + args[i])
            } else {
                match file_arg(mode, args[i], p) {
                    Err(e) => Err(e),
                    Ok(q) => parse_from(mode, args, i + 1, q, stdin_used),
                }
            },
        }
    }
}

/// The options with the default source filled in: standard input, in the
/// two modes that read lines, where no source was named.
pub open spec fn with_defaults(mode: Mode, p: ParsedView) -> ParsedView {
    if p.input_sources.len() == 0 && (mode == Mode::ExtractTickets || mode == Mode::UpdateTickets) {
        ParsedView { input_sources: seq![InputSourceView::Stdin], ..p }
    } else {
        p
    }
}

/// The complaint about options that do not go with the mode, if there is one.
pub open spec fn complaint(mode: Mode, p: ParsedView) -> Option<Seq<char>> {
    match mode {
        Mode::ParseNotes => if p.linear_api_key is Some || p.linear_org is Some || p.dry_run
            || p.update_all_statuses {
            Some(
                "parse-notes does not accept Linear credentials, --dry-run, or --update-all-statuses"@,
            )
        } else {
            None
        },
        Mode::ExtractTickets => if p.release_tag is Some || p.linear_api_key is Some
            || p.linear_org is Some || p.dry_run || p.update_all_statuses {
            Some(
                "extract-tickets does not accept --release-tag, Linear credentials, --dry-run, or --update-all-statuses"@,
            )
        } else {
            None
        },
        Mode::UpdateTickets => if p.release_tag is Some {
            Some("update-tickets does not accept --release-tag"@)
        } else {
            None
        },
        Mode::Orchestrator => if p.release_tag is None {
            Some("Orchestrator mode requires --release-tag flag"@)
        } else if p.input_sources.len() != 0 {
            Some("Orchestrator mode does not accept input files"@)
        } else {
            None
        },
    }
}

/// The configuration that a command line asks for, or the first complaint
/// about it. `args[0]` is the name of the program.
pub open spec fn config_of(args: Seq<Seq<char>>) -> Result<ConfigView, Seq<char>> {
    match mode_of(args) {
        Err(e) => Err(e),
        Ok((mode, start)) => match parse_from(mode, args, start, no_args(), false) {
            Err(e) => Err(e),
            Ok(p) => match complaint(mode, with_defaults(mode, p)) {
                Some(e) => Err(e),
                None => Ok(ConfigView { mode, args: with_defaults(mode, p) }),
            },
        },
    }
}

/// A credential: the one from the command line where there is one, else the
/// one from the environment, else the complaint.
pub open spec fn credential(
    flag: Option<Seq<char>>,
    env_value: Option<Seq<char>>,
    missing: Seq<char>,
) -> Result<Seq<char>, Seq<char>> {
    match flag {
        Some(value) => Ok(value),
        None => match env_value {
            Some(value) => Ok(value),
            None => Err(missing),
        },
    }
}

/// Tells whether `s` begins with `prefix`.
pub fn str_starts_with(s: &str, prefix: &str) -> (b: bool)
    ensures
        b == starts_with(s@, prefix@),
{
    let x = to_chars(s);
    let y = to_chars(prefix);
    matches_at(x.as_slice(), y.as_slice(), 0, false)
}

/// What follows `prefix` in `arg`, where `arg` begins with it.
pub fn strip_prefix(arg: &str, prefix: &str) -> (value: Option<String>)
    ensures
        option_view(value) == value_after(arg@, prefix@),
{
    let x = to_chars(arg);
    let y = to_chars(prefix);
    if matches_at(x.as_slice(), y.as_slice(), 0, false) {
        Some(substring(arg, y.len(), x.len()))
    } else {
        None
    }
}

/// The mode that a command line asks for and the index of its first option.
pub fn parse_mode_and_start_index(args: &Vec<String>) -> (r: Result<(Mode, usize), String>)
    ensures
        match (r, mode_of(views(args@))) {
            (Ok((mode, start)), Ok((m, s))) => mode == m && start == s,
            (Err(e), Err(f)) => e@ == f,
            _ => false,
        },
{
    if args.len() < 2 {
        return Err("Orchestrator mode requires --release-tag flag".to_owned());
    }
    let first = args[1].as_str();
    assert(first@ == views(args@)[1]);
    if str_starts_with(first, "--") {
        return Ok((Mode::Orchestrator, 1));
    }
    if str_eq(first, "parse-notes") {
        Ok((Mode::ParseNotes, 2))
    } else if str_eq(first, "extract-tickets") {
        Ok((Mode::ExtractTickets, 2))
    } else if str_eq(first, "update-tickets") {
        Ok((Mode::UpdateTickets, 2))
    } else {
        let mut message = "Unknown mode: ".to_owned();
        message.append(first);
        Err(message)
    }
}

/// The value of an option written as two arguments: the argument after
/// index `i`, or `complaint`.
fn value_of_next(args: &Vec<String>, i: usize, complaint: &str) -> (r: Result<String, String>)
    requires
        i < args@.len(),
    ensures
        match (r, next_value(views(args@), i as int, complaint@)) {
            (Ok(value), Ok(v)) => value@ == v,
            (Err(e), Err(f)) => e@ == f,
            _ => false,
        },
{
    let count = args.len();
    if i + 1 < count {
        let value = args[i + 1].clone();
        assert(value@ == views(args@)[i + 1]);
        Ok(value)
    } else {
        Err(complaint.to_owned())
    }
}

/// Reads the option at index `*i`, if the argument there is one that every
/// mode knows. Returns whether it was one; then `*i` is the index of the
/// next argument and `parsed` holds the option. On a complaint, and where
/// the argument is no such option, both are left as they were.
pub fn parse_common_flags(args: &Vec<String>, i: &mut usize, parsed: &mut ParsedArgs) -> (r: Result<
    bool,
    String,
>)
    ensures
        match (r, common_flag(views(args@), *old(i) as int, old(parsed)@)) {
            (Ok(taken), Ok((t, next, p))) => taken == t && *final(i) == next && final(parsed)@
                == p,
            (Err(e), Err(f)) => e@ == f && *final(i) == *old(i) && final(parsed)@ == old(
                parsed,
            )@,
            _ => false,
        },
{
    let at = *i;
    if at >= args.len() {
        return Err("Internal error while parsing args".to_owned());
    }
    let arg = args[at].as_str();
    assert(arg@ == views(args@)[at as int]);
    if str_eq(arg, "--dry-run") {
        parsed.dry_run = true;
        *i = at + 1;
        return Ok(true);
    }
    if str_eq(arg, "--update-all-statuses") {
        parsed.update_all_statuses = true;
        *i = at + 1;
        return Ok(true);
    }
    if let Some(value) = strip_prefix(arg, "--release-tag=") {
        parsed.release_tag = Some(value);
        *i = at + 1;
        return Ok(true);
    }
    if str_eq(arg, "--release-tag") {
        match value_of_next(args, at, "Missing value for --release-tag") {
            Ok(value) => {
                parsed.release_tag = Some(value);
                *i = at + 2;
                return Ok(true);
            },
            Err(e) => {
                return Err(e);
            },
        }
    }
    if let Some(value) = strip_prefix(arg, "--linear-api-key=") {
        parsed.linear_api_key = Some(value);
        *i = at + 1;
        return Ok(true);
    }
    if str_eq(arg, "--linear-api-key") {
        match value_of_next(args, at, "Missing value for --linear-api-key") {
            Ok(value) => {
                parsed.linear_api_key = Some(value);
                *i = at + 2;
                return Ok(true);
            },
            Err(e) => {
                return Err(e);
            },
        }
    }
    if let Some(value) = strip_prefix(arg, "--linear-org=") {
        parsed.linear_org = Some(value);
        *i = at + 1;
        return Ok(true);
    }
    if str_eq(arg, "--linear-org") {
        match value_of_next(args, at, "Missing value for --linear-org") {
            Ok(value) => {
                parsed.linear_org = Some(value);
                *i = at + 2;
                return Ok(true);
            },
            Err(e) => {
                return Err(e);
            },
        }
    }
    Ok(false)
}

/// Takes a `-` in: adds standard input as a source and sets `stdin_used`,
/// in the two modes that read lines, once; elsewhere complains and leaves
/// both as they were.
pub fn handle_stdin_arg(mode: Mode, parsed: &mut ParsedArgs, stdin_used: &mut bool) -> (r: Result<
    (),
    String,
>)
    ensures
        match (r, stdin_arg(mode, old(parsed)@, *old(stdin_used))) {
            (Ok(_), Ok(p)) => final(parsed)@ == p && *final(stdin_used),
            (Err(e), Err(f)) => e@ == f && final(parsed)@ == old(parsed)@ && *final(stdin_used)
                == *old(stdin_used),
            _ => false,
        },
{
    match mode {
        Mode::ExtractTickets | Mode::UpdateTickets => {
            if *stdin_used {
                return Err("stdin (-) cannot be specified more than once".to_owned());
            }
            let ghost before = parsed@.input_sources;
            parsed.input_sources.push(InputSource::Stdin);
            assert(parsed@.input_sources =~= before.push(InputSourceView::Stdin));
            *stdin_used = true;
            Ok(())
        },
        Mode::ParseNotes => Err(
            "parse-notes reads from stdin implicitly; '-' is not accepted".to_owned(),
        ),
        Mode::Orchestrator => Err("Orchestrator mode does not accept stdin ('-')".to_owned()),
    }
}

/// Takes the path `arg` in: adds the file as a source, in the two modes
/// that read lines; elsewhere complains and leaves `parsed` as it was.
pub fn handle_file_arg(mode: Mode, arg: &str, parsed: &mut ParsedArgs) -> (r: Result<(), String>)
    ensures
        match (r, file_arg(mode, arg@, old(parsed)@)) {
            (Ok(_), Ok(p)) => final(parsed)@ == p,
            (Err(e), Err(f)) => e@ == f && final(parsed)@ == old(parsed)@,
            _ => false,
        },
{
    match mode {
        Mode::ExtractTickets | Mode::UpdateTickets => {
            let ghost before = parsed@.input_sources;
            parsed.input_sources.push(InputSource::File(arg.to_owned()));
            assert(parsed@.input_sources =~= before.push(InputSourceView::File(arg@)));
            Ok(())
        },
        Mode::ParseNotes => Err("parse-notes does not accept file arguments".to_owned()),
        Mode::Orchestrator => Err("Orchestrator mode does not accept file arguments".to_owned()),
    }
}

/// The options and sources that the arguments from index `start_idx` on
/// name, read from left to right, or the first complaint.
pub fn parse_flags_and_inputs(mode: Mode, args: &Vec<String>, start_idx: usize) -> (r: Result<
    ParsedArgs,
    String,
>)
    ensures
        match (r, parse_from(mode, views(args@), start_idx as int, no_args(), false)) {
            (Ok(parsed), Ok(p)) => parsed@ == p,
            (Err(e), Err(f)) => e@ == f,
            _ => false,
        },
{
    let mut parsed = ParsedArgs {
        release_tag: None,
        linear_api_key: None,
        linear_org: None,
        input_sources: Vec::new(),
        dry_run: false,
        update_all_statuses: false,
    };
    assert(parsed@.input_sources =~= Seq::empty());
    let ghost all = views(args@);
    let ghost goal = parse_from(mode, all, start_idx as int, no_args(), false);
    let mut stdin_used = false;
    let mut i: usize = start_idx;
    while i < args.len()
        invariant
            all == views(args@),
            goal == parse_from(mode, all, start_idx as int, no_args(), false),
            parse_from(mode, all, i as int, parsed@, stdin_used) == goal,
        decreases args.len() - i,
    {
        let ghost at = i;
        match parse_common_flags(args, &mut i, &mut parsed) {
            Err(e) => {
                return Err(e);
            },
            Ok(true) => {
                continue ;
            },
            Ok(false) => {},
        }
        let arg = args[i].as_str();
        assert(arg@ == all[i as int]);
        if str_eq(arg, "-") {
            match handle_stdin_arg(mode, &mut parsed, &mut stdin_used) {
                Err(e) => {
                    return Err(e);
                },
                Ok(_) => {},
            }
            i += 1;
            continue ;
        }
        if str_starts_with(arg, "--") {
            let mut message = "Unknown flag: ".to_owned();
            message.append(arg);
            return Err(message);
        }
        match handle_file_arg(mode, arg, &mut parsed) {
            Err(e) => {
                return Err(e);
            },
            Ok(_) => {},
        }
        i += 1;
    }
    Ok(parsed)
}

/// Fills in the default source: standard input, in the two modes that read
/// lines, where no source was named.
pub fn apply_defaults(mode: Mode, parsed: &mut ParsedArgs)
    ensures
        final(parsed)@ == with_defaults(mode, old(parsed)@),
{
    let reads_lines = match mode {
        Mode::ExtractTickets | Mode::UpdateTickets => true,
        _ => false,
    };
    if parsed.input_sources.len() == 0 && reads_lines {
        parsed.input_sources.push(InputSource::Stdin);
        assert(parsed@.input_sources =~= seq![InputSourceView::Stdin]);
    }
}

/// Complains about options that do not go with the mode.
pub fn validate_config(mode: Mode, parsed: &ParsedArgs) -> (r: Result<(), String>)
    ensures
        match (r, complaint(mode, parsed@)) {
            (Ok(_), None) => true,
            (Err(e), Some(f)) => e@ == f,
            _ => false,
        },
{
    match mode {
        Mode::ParseNotes => {
            if parsed.linear_api_key.is_some() || parsed.linear_org.is_some() || parsed.dry_run
                || parsed.update_all_statuses {
                return Err(
                    "parse-notes does not accept Linear credentials, --dry-run, or --update-all-statuses".to_owned(),
                );
            }
        },
        Mode::ExtractTickets => {
            if parsed.release_tag.is_some() || parsed.linear_api_key.is_some()
                || parsed.linear_org.is_some() || parsed.dry_run || parsed.update_all_statuses {
                return Err(
                    "extract-tickets does not accept --release-tag, Linear credentials, --dry-run, or --update-all-statuses".to_owned(),
                );
            }
        },
        Mode::UpdateTickets => {
            if parsed.release_tag.is_some() {
                return Err("update-tickets does not accept --release-tag".to_owned());
            }
        },
        Mode::Orchestrator => {
            if parsed.release_tag.is_none() {
                return Err("Orchestrator mode requires --release-tag flag".to_owned());
            }
            if parsed.input_sources.len() != 0 {
                return Err("Orchestrator mode does not accept input files".to_owned());
            }
        },
    }
    Ok(())
}

/// A credential: the one from the command line where there is one, else the
/// one from the environment, else the complaint `missing`.
fn resolve_credential(flag: &Option<String>, env_value: Option<String>, missing: &str) -> (r:
    Result<String, String>)
    ensures
        match (r, credential(option_view(*flag), option_view(env_value), missing@)) {
            (Ok(value), Ok(v)) => value@ == v,
            (Err(e), Err(f)) => e@ == f,
            _ => false,
        },
{
    match flag {
        Some(value) => Ok(value.clone()),
        None => match env_value {
            Some(value) => Ok(value),
            None => Err(missing.to_owned()),
        },
    }
}

impl Config {
    /// The key that opens the tracker: the one from the command line where
    /// there is one, else `env_value`, the value of the environment
    /// variable `LINEAR_API_KEY`.
    pub fn get_linear_api_key(&self, env_value: Option<String>) -> (r: Result<String, String>)
        ensures
            match (
                r,
                credential(
                    self@.args.linear_api_key,
                    option_view(env_value),
                    "LINEAR_API_KEY not provided via --linear-api-key flag or environment variable"@,
                ),
            ) {
                (Ok(value), Ok(v)) => value@ == v,
                (Err(e), Err(f)) => e@ == f,
                _ => false,
            },
    {
        resolve_credential(
            &self.linear_api_key,
            env_value,
            "LINEAR_API_KEY not provided via --linear-api-key flag or environment variable",
        )
    }

    /// The organization in the tracker: the one from the command line where
    /// there is one, else `env_value`, the value of the environment
    /// variable `LINEAR_ORG`.
    pub fn get_linear_org(&self, env_value: Option<String>) -> (r: Result<String, String>)
        ensures
            match (
                r,
                credential(
                    self@.args.linear_org,
                    option_view(env_value),
                    "LINEAR_ORG not provided via --linear-org flag or environment variable"@,
                ),
            ) {
                (Ok(value), Ok(v)) => value@ == v,
                (Err(e), Err(f)) => e@ == f,
                _ => false,
            },
    {
        resolve_credential(
            &self.linear_org,
            env_value,
            "LINEAR_ORG not provided via --linear-org flag or environment variable",
        )
    }

    /// The configuration that the command line `args` asks for, or the
    /// first complaint about it. `args[0]` is the name of the program.
    pub fn from_args(args: &Vec<String>) -> (r: Result<Config, String>)
        ensures
            match (r, config_of(views(args@))) {
                (Ok(config), Ok(c)) => config@ == c,
                (Err(e), Err(f)) => e@ == f,
                _ => false,
            },
    {
        let (mode, start_idx) = match parse_mode_and_start_index(args) {
            Ok(found) => found,
            Err(e) => {
                return Err(e);
            },
        };
        let mut parsed = match parse_flags_and_inputs(mode, args, start_idx) {
            Ok(parsed) => parsed,
            Err(e) => {
                return Err(e);
            },
        };
        apply_defaults(mode, &mut parsed);
        match validate_config(mode, &parsed) {
            Ok(_) => {},
            Err(e) => {
                return Err(e);
            },
        }
        Ok(
            Config {
                mode,
                release_tag: parsed.release_tag,
                linear_api_key: parsed.linear_api_key,
                linear_org: parsed.linear_org,
                input_sources: parsed.input_sources,
                dry_run: parsed.dry_run,
                update_all_statuses: parsed.update_all_statuses,
            },
        )
    }
}

/// How often standard input stands among `sources`.
pub open spec fn stdin_count(sources: Seq<InputSourceView>) -> nat
    decreases sources.len(),
{
    if sources.len() == 0 {
        0
    } else if sources.last() is Stdin {
        stdin_count(sources.drop_last()) + 1
    } else {
        stdin_count(sources.drop_last())
    }
}

/// The options go with the mode, and standard input is read at most once:
/// the two modes that read lines have at least one source and no release
/// tag, the note parser and the pipeline have no source, and the pipeline
/// has a release tag.
pub open spec fn is_consistent(c: ConfigView) -> bool {
    &&& stdin_count(c.args.input_sources) <= 1
    &&& match c.mode {
        Mode::ParseNotes => {
            &&& c.args.input_sources.len() == 0
            &&& c.args.linear_api_key is None
            &&& c.args.linear_org is None
            &&& !c.args.dry_run
            &&& !c.args.update_all_statuses
        },
        Mode::ExtractTickets => {
            &&& c.args.input_sources.len() > 0
            &&& c.args.release_tag is None
            &&& c.args.linear_api_key is None
            &&& c.args.linear_org is None
            &&& !c.args.dry_run
            &&& !c.args.update_all_statuses
        },
        Mode::UpdateTickets => c.args.input_sources.len() > 0 && c.args.release_tag is None,
        Mode::Orchestrator => c.args.input_sources.len() == 0 && c.args.release_tag is Some,
    }
}

/// Reading arguments keeps standard input from being named twice, and adds
/// no source in a mode that reads no lines.
pub proof fn lemma_parse_from_sources(
    mode: Mode,
    args: Seq<Seq<char>>,
    i: int,
    p: ParsedView,
    stdin_used: bool,
)
    requires
        stdin_count(p.input_sources) <= 1,
        stdin_count(p.input_sources) == 1 ==> stdin_used,
        (mode == Mode::ParseNotes || mode == Mode::Orchestrator) ==> p.input_sources.len() == 0,
    ensures
        parse_from(mode, args, i, p, stdin_used) matches Ok(q) ==> {
            &&& stdin_count(q.input_sources) <= 1
            &&& (mode == Mode::ParseNotes || mode == Mode::Orchestrator)
                ==> q.input_sources.len() == 0
        },
    decreases args.len() - i,
{
    if 0 <= i < args.len() {
        match common_flag(args, i, p) {
            Err(e) => {},
            Ok((true, next, q)) => {
                lemma_parse_from_sources(mode, args, next, q, stdin_used);
            },
            Ok((false, _, _)) => {
                if args[i] == "-"@ {
                    if let Ok(q) = stdin_arg(mode, p, stdin_used) {
                        assert(q.input_sources.drop_last() =~= p.input_sources);
                        lemma_parse_from_sources(mode, args, i + 1, q, true);
                    }
                } else if starts_with(args[i], "--"@) {
                } else {
                    if let Ok(q) = file_arg(mode, args[i], p) {
                        assert(q.input_sources.drop_last() =~= p.input_sources);
                        lemma_parse_from_sources(mode, args, i + 1, q, stdin_used);
                    }
                }
            },
        }
    }
}

/// Whatever the command line, a configuration that is read from it without
/// complaint is consistent.
pub proof fn law_config_is_consistent(args: Seq<Seq<char>>)
    ensures
        config_of(args) matches Ok(c) ==> is_consistent(c),
{
    if let Ok((mode, start)) = mode_of(args) {
        lemma_parse_from_sources(mode, args, start, no_args(), false);
        if let Ok(p) = parse_from(mode, args, start, no_args(), false) {
            let q = with_defaults(mode, p);
            if q != p {
                assert(q.input_sources.drop_last() =~= Seq::<InputSourceView>::empty());
                assert(stdin_count(q.input_sources) == 1);
            }
        }
    }
}

} // verus!
