use vstd::prelude::*;
use crate::text::{ascii_lower_char, chars_of, seq_starts_with, starts_with_str, str_eq, string_from_chars};

verus! {

// ---------------------------------------------------------------------------
// Command-line arguments
// ---------------------------------------------------------------------------

/// Options given on the command line.
#[derive(Clone, Debug)]
pub struct RuntimeArgs {
    pub reset_mode: Option<String>,
    pub no_backup: bool,
}

/// A malformed command line.
#[derive(Clone, Copy, Debug, PartialEq, Eq, Structural)]
pub enum RuntimeArgsError {
    /// `--reset` without a mode, or `--reset=` with a blank one.
    MissingResetMode,
}

impl RuntimeArgsError {
    /// Message shown to the user.
    pub fn message(&self) -> (s: String)
        ensures
            s@ == "--reset requires a mode (supported: hard-all-history)"@,
    {
        "--reset requires a mode (supported: hard-all-history)".to_owned()
    }
}

/// A white-space character (the Unicode `White_Space` property).
pub open spec fn is_unicode_whitespace(c: char) -> bool {
    let u = c as u32;
    ||| 0x09 <= u <= 0x0d
    ||| u == 0x20
    ||| u == 0x85
    ||| u == 0xa0
    ||| u == 0x1680
    ||| 0x2000 <= u <= 0x200a
    ||| u == 0x2028
    ||| u == 0x2029
    ||| u == 0x202f
    ||| u == 0x205f
    ||| u == 0x3000
}

/// The text is empty once white space is trimmed.
pub open spec fn is_blank(s: Seq<char>) -> bool {
    forall|i: int| 0 <= i < s.len() ==> is_unicode_whitespace(#[trigger] s[i])
}

pub(crate) fn is_whitespace_char(c: char) -> (b: bool)
    ensures
        b == is_unicode_whitespace(c),
{
    let u = c as u32;
    (0x09 <= u && u <= 0x0d) || u == 0x20 || u == 0x85 || u == 0xa0 || u == 0x1680 || (0x2000
        <= u && u <= 0x200a) || u == 0x2028 || u == 0x2029 || u == 0x202f || u == 0x205f || u
        == 0x3000
}

fn is_blank_from(cs: &Vec<char>, from: usize) -> (b: bool)
    requires
        from <= cs@.len(),
    ensures
        b == is_blank(cs@.skip(from as int)),
{
    let mut i = from;
    while i < cs.len()
        invariant
            from <= i <= cs@.len(),
            forall|k: int| from <= k < i ==> is_unicode_whitespace(#[trigger] cs@[k]),
        decreases cs@.len() - i,
    {
        if !is_whitespace_char(cs[i]) {
            assert(cs@.skip(from as int)[i - from] == cs@[i as int]);
            return false;
        }
        i = i + 1;
    }
    assert forall|k: int| 0 <= k < cs@.skip(from as int).len() implies is_unicode_whitespace(
        #[trigger] cs@.skip(from as int)[k],
    ) by {
        assert(cs@.skip(from as int)[k] == cs@[from + k]);
    }
    true
}

/// Result of reading the arguments from position `i` on, given the reset
/// mode and backup flag found so far: `None` for a malformed command line.
/// `--no-backup` sets the flag; `--reset MODE` and `--reset=MODE` set the
/// mode (a later one wins); other arguments are ignored.
pub open spec fn spec_parse_args(
    args: Seq<Seq<char>>,
    i: int,
    mode: Option<Seq<char>>,
    no_backup: bool,
) -> Option<(Option<Seq<char>>, bool)>
    decreases args.len() - i,
{
    if i < 0 || i >= args.len() {
        Some((mode, no_backup))
    } else if args[i] == "--no-backup"@ {
        spec_parse_args(args, i + 1, mode, true)
    } else if args[i] == "--reset"@ {
        if i + 1 < args.len() {
            spec_parse_args(args, i + 2, Some(args[i + 1]), no_backup)
        } else {
            None
        }
    } else if seq_starts_with(args[i], "--reset="@) {
        let m = args[i].skip(8);
        if is_blank(m) {
            None
        } else {
            spec_parse_args(args, i + 1, Some(m), no_backup)
        }
    } else {
        spec_parse_args(args, i + 1, mode, no_backup)
    }
}

/// Views of a list of strings.
pub open spec fn arg_views(args: Seq<String>) -> Seq<Seq<char>> {
    args.map_values(|a: String| a@)
}

/// Views of an optional string.
pub open spec fn opt_view(o: Option<String>) -> Option<Seq<char>> {
    match o {
        Some(s) => Some(s@),
        None => None,
    }
}

/// Reads the command-line arguments (without the program name).
pub fn parse_runtime_args(args: &Vec<String>) -> (r: Result<RuntimeArgs, RuntimeArgsError>)
    ensures
        match spec_parse_args(arg_views(args@), 0, None, false) {
            Some((mode, no_backup)) => r matches Ok(ra) && opt_view(ra.reset_mode) == mode
                && ra.no_backup == no_backup,
            None => r == Err::<RuntimeArgs, RuntimeArgsError>(RuntimeArgsError::MissingResetMode),
        },
{
    let ghost views = arg_views(args@);
    let mut parsed = RuntimeArgs { reset_mode: None, no_backup: false };
    let mut i: usize = 0;
    while i < args.len()
        invariant
            i <= args@.len(),
            views == arg_views(args@),
            spec_parse_args(views, 0, None, false) == spec_parse_args(
                views,
                i as int,
                opt_view(parsed.reset_mode),
                parsed.no_backup,
            ),
        decreases args@.len() - i,
    {
        let arg = args[i].as_str();
        assert(views[i as int] == arg@);
        if str_eq(arg, "--no-backup") {
            parsed.no_backup = true;
            i = i + 1;
        } else if str_eq(arg, "--reset") {
            if i + 1 >= args.len() {
                return Err(RuntimeArgsError::MissingResetMode);
            }
            assert(views[i + 1] == args@[i + 1]@);
            parsed.reset_mode = Some(args[i + 1].clone());
            i = i + 2;
        } else {
            let cs = chars_of(arg);
            if starts_with_str(&cs, "--reset=") {
                proof {
                    reveal_strlit("--reset=");
                }
                if is_blank_from(&cs, 8) {
                    return Err(RuntimeArgsError::MissingResetMode);
                }
                parsed.reset_mode = Some(string_from_chars(&cs, 8));
            }
            i = i + 1;
        }
    }
    Ok(parsed)
}

// ---------------------------------------------------------------------------
// Start-up reset
// ---------------------------------------------------------------------------

/// Reset settings of the configuration file.
#[derive(Clone, Debug)]
pub struct ResetConfig {
    pub enabled_on_start: bool,
    pub mode: String,
    pub no_backup: bool,
    pub delete_prices: bool,
    pub delete_learning_state: bool,
    pub delete_paper_state: bool,
}

/// What a hard reset deletes, and whether it backs up first.
#[derive(Clone, Copy, Debug, PartialEq, Eq, Structural)]
pub struct HardResetOptions {
    pub no_backup: bool,
    pub delete_prices: bool,
    pub delete_learning_state: bool,
    pub delete_paper_state: bool,
}

/// A reset mode other than a hard reset of all history was requested.
#[derive(Clone, Debug)]
pub enum StartupResetError {
    UnsupportedResetMode(String),
}

/// A requested mode, lower-cased with dashes read as underscores.
pub open spec fn normalized_mode(m: Seq<char>) -> Seq<char> {
    m.map_values(
        |c: char|
            if ascii_lower_char(c) == '-' {
                '_'
            } else {
                ascii_lower_char(c)
            },
    )
}

/// The reset to run at start-up: none unless one was requested on the
/// command line (the configuration's own switch is deprecated and ignored);
/// a requested mode must read `hard_all_history` (case-insensitively, with
/// `-` for `_`); backups are skipped if either the command line or the
/// configuration says so.
pub open spec fn spec_reset_plan(
    requested: Option<Seq<char>>,
    reset: ResetConfig,
    cli_no_backup: bool,
) -> Option<Option<HardResetOptions>> {
    match requested {
        None => Some(None),
        Some(m) => if normalized_mode(m) == "hard_all_history"@ {
            Some(
                Some(
                    HardResetOptions {
                        no_backup: cli_no_backup || reset.no_backup,
                        delete_prices: reset.delete_prices,
                        delete_learning_state: reset.delete_learning_state,
                        delete_paper_state: reset.delete_paper_state,
                    },
                ),
            )
        } else {
            None
        },
    }
}

/// Decides the start-up reset: `Ok(None)` when none is requested,
/// `Ok(Some(options))` for a hard reset of all history, and an error naming
/// the mode otherwise.
pub fn plan_startup_reset(args: &RuntimeArgs, reset: &ResetConfig) -> (r: Result<
    Option<HardResetOptions>,
    StartupResetError,
>)
    ensures
        match spec_reset_plan(opt_view(args.reset_mode), *reset, args.no_backup) {
            Some(plan) => r == Ok::<Option<HardResetOptions>, StartupResetError>(plan),
            None => r matches Err(StartupResetError::UnsupportedResetMode(m)) && Some(m@) == opt_view(
                args.reset_mode,
            ),
        },
{
    let mode = match &args.reset_mode {
        None => return Ok(None),
        Some(m) => m,
    };
    let cs = chars_of(mode.as_str());
    let target = chars_of("hard_all_history");
    let mut matches = cs.len() == target.len();
    let mut i: usize = 0;
    while matches && i < cs.len()
        invariant
            i <= cs@.len(),
            cs@ == mode@,
            target@ == "hard_all_history"@,
            matches ==> cs@.len() == target@.len(),
            matches ==> forall|k: int| 0 <= k < i ==> normalized_mode(cs@)[k] == target@[k],
            !matches ==> normalized_mode(cs@) != target@,
        decreases cs@.len() - i,
    {
        let c = cs[i];
        let lc = if 'A' <= c && c <= 'Z' {
            ((c as u8) + 32) as char
        } else {
            c
        };
        let nc = if lc == '-' {
            '_'
        } else {
            lc
        };
        assert(nc == normalized_mode(cs@)[i as int]);
        if nc != target[i] {
            matches = false;
        }
        i = i + 1;
    }
    if !matches {
        return Err(StartupResetError::UnsupportedResetMode(mode.clone()));
    }
    assert(normalized_mode(cs@) =~= target@);
    Ok(
        Some(
            HardResetOptions {
                no_backup: args.no_backup || reset.no_backup,
                delete_prices: reset.delete_prices,
                delete_learning_state: reset.delete_learning_state,
                delete_paper_state: reset.delete_paper_state,
            },
        ),
    )
}

} // verus!
