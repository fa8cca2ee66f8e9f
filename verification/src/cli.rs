use vstd::prelude::*;
use crate::output_selection::CaptureMode;
use crate::text::{joined, text_eq};

verus! {

/// Command-line usage.
pub const HELP: &'static str = "Usage: popshot [--area | --freehand | --fullscreen]

Without a mode, open the snipping toolbar.
  --area        Drag to capture an area (Esc cancels)
  --freehand    Draw a freehand area (Esc cancels)
  --fullscreen  Capture the desktop immediately
  -h, --help    Show this help";

/// What the command line asks for.
#[derive(Debug, Default, PartialEq, Eq)]
pub struct Options {
    /// Start as a D-Bus activated service that waits for requests.
    pub service: bool,
    /// Capture at once in this mode.
    pub mode: Option<CaptureMode>,
}

/// The message for an argument that is not understood (or comes twice).
pub open spec fn unknown_option_message(arg: Seq<char>) -> Seq<char> {
    "Unknown or repeated option: "@ + arg
}

/// The message when a mode is combined with another mode or with service startup.
pub open spec fn conflict_message() -> Seq<char> {
    "Choose one capture mode; service startup cannot include a mode"@
}

/// The capture mode that a command-line flag selects.
pub open spec fn mode_flag(arg: Seq<char>) -> Option<CaptureMode> {
    if arg == "--area"@ {
        Some(CaptureMode::Rectangle)
    } else if arg == "--freehand"@ {
        Some(CaptureMode::Freehand)
    } else if arg == "--fullscreen"@ {
        Some(CaptureMode::Fullscreen)
    } else {
        None
    }
}

/// The outcome of reading `args` from left to right, having read earlier
/// arguments into `service` and `mode`: `Ok(None)` asks for help,
/// `Ok(Some((service, mode)))` is the request, `Err` carries the message.
pub open spec fn parse_from(service: bool, mode: Option<CaptureMode>, args: Seq<Seq<char>>)
    -> Result<Option<(bool, Option<CaptureMode>)>, Seq<char>>
    decreases args.len(),
{
    if args.len() == 0 {
        Ok(Some((service, mode)))
    } else {
        let arg = args[0];
        if arg == "-h"@ || arg == "--help"@ {
            Ok(None)
        } else if arg == "--gapplication-service"@ && !service && mode is None {
            parse_from(true, mode, args.drop_first())
        } else if mode_flag(arg) is Some {
            if service || mode is Some {
                Err(conflict_message())
            } else {
                parse_from(service, mode_flag(arg), args.drop_first())
            }
        } else {
            Err(unknown_option_message(arg))
        }
    }
}

/// The views of a list of strings.
pub open spec fn texts(args: Seq<String>) -> Seq<Seq<char>> {
    args.map_values(|s: String| s@)
}

/// Whether `parse` gave back what `parse_from` describes.
pub open spec fn parse_matches(
    result: Result<Option<Options>, String>,
    expected: Result<Option<(bool, Option<CaptureMode>)>, Seq<char>>,
) -> bool {
    match (result, expected) {
        (Ok(None), Ok(None)) => true,
        (Ok(Some(o)), Ok(Some((service, mode)))) => o.service == service && o.mode == mode,
        (Err(m), Err(e)) => m@ == e,
        _ => false,
    }
}

fn flag_mode(arg: &str) -> (mode: Option<CaptureMode>)
    ensures
        mode == mode_flag(arg@),
{
    if text_eq(arg, "--area") {
        Some(CaptureMode::Rectangle)
    } else if text_eq(arg, "--freehand") {
        Some(CaptureMode::Freehand)
    } else if text_eq(arg, "--fullscreen") {
        Some(CaptureMode::Fullscreen)
    } else {
        None
    }
}

/// Reads the command-line arguments (without the program name).
pub fn parse(args: Vec<String>) -> (result: Result<Option<Options>, String>)
    ensures
        parse_matches(result, parse_from(false, None, texts(args@))),
{
    let mut options = Options { service: false, mode: None };
    let mut i: usize = 0;
    assert(texts(args@).subrange(0, args@.len() as int) =~= texts(args@));
    while i < args.len()
        invariant
            i <= args@.len(),
            parse_from(false, None, texts(args@)) == parse_from(
                options.service,
                options.mode,
                texts(args@).subrange(i as int, args@.len() as int),
            ),
        decreases args@.len() - i,
    {
        let arg = args[i].as_str();
        let ghost rest = texts(args@).subrange(i as int, args@.len() as int);
        assert(rest[0] == arg@);
        assert(rest.drop_first() =~= texts(args@).subrange(i + 1, args@.len() as int));
        if text_eq(arg, "-h") || text_eq(arg, "--help") {
            return Ok(None);
        }
        if text_eq(arg, "--gapplication-service") && !options.service && options.mode.is_none() {
            options.service = true;
            i = i + 1;
            continue;
        }
        let mode = match flag_mode(arg) {
            Some(mode) => mode,
            None => {
                return Err(joined("Unknown or repeated option: ", arg));
            },
        };
        if options.service || options.mode.is_some() {
            return Err(String::from_str("Choose one capture mode; service startup cannot include a mode"));
        }
        options.mode = Some(mode);
        i = i + 1;
    }
    assert(texts(args@).subrange(i as int, args@.len() as int).len() == 0);
    Ok(Some(options))
}

/// Service startup never comes with a capture mode.
pub proof fn lemma_service_has_no_mode(service: bool, mode: Option<CaptureMode>, args: Seq<Seq<char>>)
    requires
        !(service && mode is Some),
    ensures
        parse_from(service, mode, args) matches Ok(Some((s, m))) ==> !(s && m is Some),
    decreases args.len(),
{
    if args.len() > 0 {
        let arg = args[0];
        if arg == "-h"@ || arg == "--help"@ {
        } else if arg == "--gapplication-service"@ && !service && mode is None {
            lemma_service_has_no_mode(true, mode, args.drop_first());
        } else if mode_flag(arg) is Some {
            if !(service || mode is Some) {
                lemma_service_has_no_mode(service, mode_flag(arg), args.drop_first());
            }
        }
    }
}

} // verus!

verus! {

/// An argument that asks for help.
pub open spec fn is_help(arg: Seq<char>) -> bool {
    arg == "-h"@ || arg == "--help"@
}

/// An argument that starts the application: service startup or a capture mode.
pub open spec fn is_start_option(arg: Seq<char>) -> bool {
    arg == "--gapplication-service"@ || mode_flag(arg) is Some
}

proof fn lemma_options_distinct(arg: Seq<char>)
    ensures
        is_help(arg) ==> !is_start_option(arg),
        arg == "--gapplication-service"@ ==> mode_flag(arg) is None,
{
    reveal_strlit("-h");
    reveal_strlit("--help");
    reveal_strlit("--gapplication-service");
    reveal_strlit("--area");
    reveal_strlit("--freehand");
    reveal_strlit("--fullscreen");
    assert("-h"@.len() == 2 && "--help"@.len() == 6 && "--gapplication-service"@.len() == 22);
    assert("--area"@.len() == 6 && "--freehand"@.len() == 10 && "--fullscreen"@.len() == 12);
    assert("--help"@[2] != "--area"@[2]);
    assert("--help"@ != "--area"@);
}

/// Once service startup or a mode has been read, only the end of the arguments
/// succeeds; help still answers with help, and anything else is an error.
proof fn lemma_after_start(service: bool, mode: Option<CaptureMode>, rest: Seq<Seq<char>>)
    requires
        service || mode is Some,
    ensures
        rest.len() == 0 ==> parse_from(service, mode, rest) == Ok::<Option<(bool, Option<CaptureMode>)>, Seq<char>>(
            Some((service, mode)),
        ),
        rest.len() > 0 && is_help(rest[0]) ==> parse_from(service, mode, rest) == Ok::<
            Option<(bool, Option<CaptureMode>)>,
            Seq<char>,
        >(None),
        rest.len() > 0 && !is_help(rest[0]) ==> parse_from(service, mode, rest) is Err,
{
    if rest.len() > 0 {
        lemma_options_distinct(rest[0]);
    }
}

/// What the command line gives, over every list of arguments: it succeeds
/// exactly when it is empty or is one service or mode flag (which it then
/// reports), asks for help exactly when help comes first or right after one
/// such flag, and is an error otherwise.
pub proof fn lemma_parse_outcome(args: Seq<Seq<char>>)
    ensures
        (parse_from(false, None, args) matches Ok(Some(_))) <==> (args.len() == 0 || (args.len() == 1
            && is_start_option(args[0]))),
        args.len() == 1 && is_start_option(args[0]) ==> parse_from(false, None, args) == Ok::<
            Option<(bool, Option<CaptureMode>)>,
            Seq<char>,
        >(Some((args[0] == "--gapplication-service"@, mode_flag(args[0])))),
        (parse_from(false, None, args) == Ok::<Option<(bool, Option<CaptureMode>)>, Seq<char>>(None)) <==> ((
        args.len() >= 1 && is_help(args[0])) || (args.len() >= 2 && is_start_option(args[0]) && is_help(
            args[1],
        ))),
{
    if args.len() > 0 {
        let a = args[0];
        let rest = args.drop_first();
        lemma_options_distinct(a);
        if !is_help(a) {
            if a == "--gapplication-service"@ {
                lemma_after_start(true, None, rest);
            } else if mode_flag(a) is Some {
                lemma_after_start(false, mode_flag(a), rest);
            }
            if rest.len() > 0 {
                assert(rest[0] == args[1]);
            }
        }
    }
}

} // verus!
