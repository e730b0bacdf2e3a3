//! The command line of the emulator program: which arguments there are and
//! what they ask for. Reading the process's arguments, printing the usage
//! text and exiting are the program's business.

use vstd::prelude::*;
use vstd::string::StringExecFns;

verus! {

/// The regular expression that tells the name of a program file: an
/// escaped dot, the letters `ch8`, and the end of the text.
pub open spec fn rom_pattern() -> Seq<char> {
    "\\.ch8$"@
}

/// Whether `name` is the name of a program file: it ends in `.ch8`.
pub open spec fn is_rom_name(name: Seq<char>) -> bool {
    &&& name.len() >= 4
    &&& name[name.len() - 4] == '.'
    &&& name[name.len() - 3] == 'c'
    &&& name[name.len() - 2] == 'h'
    &&& name[name.len() - 1] == '8'
}

/// Compiles `pattern` with `regex::Regex::new` and searches `text` with
/// `regex::Regex::is_match`, which tells whether the expression has a match
/// anywhere in the text; `None` where `new` returns an error.
///
/// The contract speaks of the one pattern the library uses. By the crate's
/// syntax, `\.` is a literal dot, letters and digits stand for themselves,
/// and `$`, with no flag set, is the end of the text: so `\.ch8$` compiles
/// and has a match exactly in the texts that end in `.ch8`. Of other
/// patterns nothing is claimed.
#[verifier::external_body]
fn is_match(pattern: &str, text: &str) -> (matched: Option<bool>)
    ensures
        pattern@ == rom_pattern() ==> matched == Some(is_rom_name(text@)),
{
    match regex::Regex::new(pattern) {
        Ok(compiled) => Some(compiled.is_match(text)),
        Err(_) => None,
    }
}

/// What one argument asks for.
#[derive(Clone, Copy, Debug, PartialEq, Eq)]
pub enum Argument {
    /// `-d` or `--debug`: show the debugging regions.
    Debug,
    /// `-h` or `--help`: print the usage text and leave.
    Help,
    /// The name of a program file.
    Rom,
    /// Anything else.
    Unknown,
}

/// What the command line as a whole asks for.
#[derive(Clone, Debug, PartialEq, Eq)]
pub enum CommandLine {
    /// Run the program in `filename`, or, where no file is named, one that
    /// the user has yet to choose.
    Run { filename: Option<String>, debug: bool },
    /// Print the usage text and leave.
    Help,
    /// `value` is neither an option nor the name of a program file.
    Unknown { value: String },
}

/// What the argument `value` asks for, given the result of matching it
/// against the pattern for program files. The options come first: `-d` is
/// an option whatever the pattern says of it.
pub open spec fn classify(value: Seq<char>, rom_match: Option<bool>) -> Argument {
    if value == "-d"@ || value == "--debug"@ {
        Argument::Debug
    } else if value == "-h"@ || value == "--help"@ {
        Argument::Help
    } else if rom_match == Some(true) {
        Argument::Rom
    } else {
        Argument::Unknown
    }
}

/// What the arguments from index `from` on ask for, where those before
/// have named `filename` and asked for `debug`. An argument that is no
/// option is the name of a program file where it ends in `.ch8`, and
/// unknown else. The first `--help` or unknown argument ends the parse; of
/// several file names the last counts.
pub open spec fn parse_from(
    argv: Seq<String>,
    from: int,
    filename: Option<String>,
    debug: bool,
) -> CommandLine
    decreases argv.len() - from,
{
    if from < 0 || from >= argv.len() {
        CommandLine::Run { filename, debug }
    } else {
        let value = argv[from];
        match classify(value@, Some(is_rom_name(value@))) {
            Argument::Debug => parse_from(argv, from + 1, filename, true),
            Argument::Help => CommandLine::Help,
            Argument::Rom => parse_from(argv, from + 1, Some(value), debug),
            Argument::Unknown => CommandLine::Unknown { value },
        }
    }
}

/// What the command line `argv` asks for; `argv[0]` is the program's own
/// name and is not looked at.
pub open spec fn parse_arguments(argv: Seq<String>) -> CommandLine {
    parse_from(argv, 1, None, false)
}

/// Classifies one argument, given the result of matching it against the
/// pattern for program files.
pub fn classify_argument(value: &String, rom_match: Option<bool>) -> (kind: Argument)
    ensures
        kind == classify(value@, rom_match),
{
    let debug_short = String::from_str("-d");
    let debug_long = String::from_str("--debug");
    let help_short = String::from_str("-h");
    let help_long = String::from_str("--help");
    if *value == debug_short || *value == debug_long {
        Argument::Debug
    } else if *value == help_short || *value == help_long {
        Argument::Help
    } else {
        match rom_match {
            Some(true) => Argument::Rom,
            _ => Argument::Unknown,
        }
    }
}

/// Whether `filename` is the name of a program file: whether it ends in
/// `.ch8`.
pub fn is_rom_filename(filename: &String) -> (rom: bool)
    ensures
        rom == is_rom_name(filename@),
{
    match is_match("\\.ch8$", filename.as_str()) {
        Some(true) => true,
        _ => false,
    }
}

/// Parses the command line.
pub fn parse_command_line_args(argv: &Vec<String>) -> (parsed: CommandLine)
    ensures
        parsed == parse_arguments(argv@),
{
    let mut filename: Option<String> = None;
    let mut debug: bool = false;
    let mut idx: usize = 1;
    while idx < argv.len()
        invariant
            1 <= idx,
            parse_arguments(argv@) == parse_from(argv@, idx as int, filename, debug),
        decreases argv@.len() - idx,
    {
        let value: &String = &argv[idx];
        let rom_match = is_match("\\.ch8$", value.as_str());
        match classify_argument(value, rom_match) {
            Argument::Debug => {
                debug = true;
            },
            Argument::Help => {
                return CommandLine::Help;
            },
            Argument::Rom => {
                filename = Some(value.clone());
            },
            Argument::Unknown => {
                return CommandLine::Unknown { value: value.clone() };
            },
        }
        idx += 1;
    }
    CommandLine::Run { filename, debug }
}

} // verus!
