//! Command-line options: `--test <FILE>`, `--debug [FRAMES]` and
//! `-h`/`--help`.
use crate::text::{chars_eq, chars_of, parse_unsigned, parse_unsigned_chars};
use vstd::prelude::*;

verus! {

/// The options the program runs with.
#[derive(Clone, Debug)]
pub struct Args {
    /// The scenario file to run, if any.
    pub test_config: Option<String>,
    /// Whether debug mode is on.
    pub debug_mode: bool,
    /// Frames before exit in debug mode; 0 means no limit.
    pub max_frames: u64,
}

/// Debug settings handed to the user interface.
#[derive(Clone, Debug)]
pub struct DebugConfig {
    /// Whether debug mode is on.
    pub enabled: bool,
    /// Frames before exit; 0 means no limit.
    pub max_frames: u64,
}

/// What the command line asks for.
#[derive(Clone, Debug)]
pub enum ArgsOutcome {
    /// Run with these options.
    Run(Args),
    /// Print the usage text and exit successfully.
    Help,
    /// `--test` came last, without a file.
    MissingTestPath,
    /// An argument that is not an option.
    UnknownArgument(String),
}

/// `u64::from_str` on a text.
pub open spec fn u64_text(s: Seq<char>) -> Option<nat> {
    parse_unsigned(s, u64::MAX as nat)
}

/// Reads the arguments from index `i` on, with the options read so far.
/// `--debug` takes the next argument as its frame count when that parses
/// as a `u64`, and leaves it otherwise.
pub open spec fn parse_from(
    args: Seq<String>,
    i: int,
    test: Option<String>,
    debug: bool,
    max: u64,
) -> ArgsOutcome
    decreases args.len() - i,
{
    if i < 0 || i >= args.len() {
        ArgsOutcome::Run(Args { test_config: test, debug_mode: debug, max_frames: max })
    } else if args[i]@ == "--test"@ {
        if i + 1 < args.len() {
            parse_from(args, i + 2, Some(args[i + 1]), debug, max)
        } else {
            ArgsOutcome::MissingTestPath
        }
    } else if args[i]@ == "--debug"@ {
        if i + 1 < args.len() && u64_text(args[i + 1]@) is Some {
            parse_from(args, i + 2, test, true, u64_text(args[i + 1]@).unwrap() as u64)
        } else {
            parse_from(args, i + 1, test, true, max)
        }
    } else if args[i]@ == "-h"@ || args[i]@ == "--help"@ {
        ArgsOutcome::Help
    } else {
        ArgsOutcome::UnknownArgument(args[i])
    }
}

/// What a whole command line asks for; the first argument is the
/// program's name and is skipped.
pub open spec fn parsed_args(args: Seq<String>) -> ArgsOutcome {
    parse_from(args, 1, None, false, 0)
}

/// Whether a text is the literal `lit`.
fn text_is(s: &String, lit: &str) -> (b: bool)
    ensures
        b == (s@ == lit@),
{
    let a = chars_of(s.as_str());
    let l = chars_of(lit);
    chars_eq(a.as_slice(), l.as_slice())
}

/// Reads a command line (the program's name first).
pub fn parse_args(args: &Vec<String>) -> (r: ArgsOutcome)
    ensures
        r == parsed_args(args@),
{
    let n = args.len();
    let mut test_config: Option<String> = None;
    let mut debug_mode = false;
    let mut max_frames: u64 = 0;
    let mut i: usize = 1;
    while i < n
        invariant
            n == args@.len(),
            1 <= i,
            parse_from(args@, i as int, test_config, debug_mode, max_frames) == parsed_args(
                args@,
            ),
        decreases n - i,
    {
        let arg = &args[i];
        if text_is(arg, "--test") {
            if i + 1 < n {
                test_config = Some(args[i + 1].clone());
                i = i + 2;
            } else {
                return ArgsOutcome::MissingTestPath;
            }
        } else if text_is(arg, "--debug") {
            debug_mode = true;
            if i + 1 < n {
                let next = chars_of(args[i + 1].as_str());
                match parse_unsigned_chars(next.as_slice(), 0xffff_ffff_ffff_ffff) {
                    Some(v) => {
                        max_frames = v;
                        i = i + 2;
                    },
                    None => {
                        i = i + 1;
                    },
                }
            } else {
                i = i + 1;
            }
        } else if text_is(arg, "-h") || text_is(arg, "--help") {
            return ArgsOutcome::Help;
        } else {
            return ArgsOutcome::UnknownArgument(arg.clone());
        }
    }
    ArgsOutcome::Run(Args { test_config, debug_mode, max_frames })
}

/// The debug settings the options give: none unless debug mode is on.
pub fn debug_config_for(args: &Args) -> (d: Option<DebugConfig>)
    ensures
        args.debug_mode <==> d.is_some(),
        d matches Some(c) ==> c.enabled && c.max_frames == args.max_frames,
{
    if args.debug_mode {
        Some(DebugConfig { enabled: true, max_frames: args.max_frames })
    } else {
        None
    }
}

} // verus!
