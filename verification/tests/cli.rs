use chip8::cli::classify_argument;
use chip8::{is_rom_filename, parse_command_line_args, Argument, CommandLine};

fn args(values: &[&str]) -> Vec<String> {
    values.iter().map(|value| value.to_string()).collect()
}

fn run(filename: Option<&str>, debug: bool) -> CommandLine {
    CommandLine::Run { filename: filename.map(|name| name.to_string()), debug }
}

fn unknown(value: &str) -> CommandLine {
    CommandLine::Unknown { value: value.to_string() }
}

#[test]
fn no_arguments() {
    assert_eq!(parse_command_line_args(&args(&["chip8"])), run(None, false));
    assert_eq!(parse_command_line_args(&Vec::new()), run(None, false));
}

#[test]
fn program_name_is_not_looked_at() {
    assert_eq!(parse_command_line_args(&args(&["-h"])), run(None, false));
    assert_eq!(parse_command_line_args(&args(&["bogus", "-d"])), run(None, true));
}

#[test]
fn debug_option_in_both_forms() {
    assert_eq!(parse_command_line_args(&args(&["chip8", "-d"])), run(None, true));
    assert_eq!(parse_command_line_args(&args(&["chip8", "--debug"])), run(None, true));
    assert_eq!(parse_command_line_args(&args(&["chip8", "-d", "--debug"])), run(None, true));
}

#[test]
fn file_name_and_option_in_any_order() {
    assert_eq!(
        parse_command_line_args(&args(&["chip8", "pong.ch8", "-d"])),
        run(Some("pong.ch8"), true)
    );
    assert_eq!(
        parse_command_line_args(&args(&["chip8", "-d", "roms/pong.ch8"])),
        run(Some("roms/pong.ch8"), true)
    );
    assert_eq!(
        parse_command_line_args(&args(&["chip8", "pong.ch8"])),
        run(Some("pong.ch8"), false)
    );
}

#[test]
fn last_file_name_counts() {
    assert_eq!(
        parse_command_line_args(&args(&["chip8", "a.ch8", "b.ch8"])),
        run(Some("b.ch8"), false)
    );
}

#[test]
fn help_ends_the_parse() {
    assert_eq!(parse_command_line_args(&args(&["chip8", "-h"])), CommandLine::Help);
    assert_eq!(parse_command_line_args(&args(&["chip8", "--help"])), CommandLine::Help);
    assert_eq!(
        parse_command_line_args(&args(&["chip8", "-d", "-h", "bogus"])),
        CommandLine::Help
    );
}

#[test]
fn first_unknown_argument_ends_the_parse() {
    assert_eq!(parse_command_line_args(&args(&["chip8", "bogus", "-h"])), unknown("bogus"));
    assert_eq!(
        parse_command_line_args(&args(&["chip8", "a.ch8", "-x", "-y"])),
        unknown("-x")
    );
    assert_eq!(parse_command_line_args(&args(&["chip8", ""])), unknown(""));
    assert_eq!(parse_command_line_args(&args(&["chip8", "-D"])), unknown("-D"));
}

#[test]
fn program_file_names_end_in_dot_ch8() {
    for name in ["pong.ch8", ".ch8", "a.b.ch8", "dir/x.ch8", "-d.ch8", "x.ch8.ch8"] {
        assert!(is_rom_filename(&name.to_string()), "{}", name);
    }
    for name in ["pong", "ch8", "pongch8", "pong.ch8x", "pong.CH8", "pong.ch8 ", "pong-ch8", ""]
    {
        assert!(!is_rom_filename(&name.to_string()), "{:?}", name);
    }
    assert!(!is_rom_filename(&"pong.ch8\n".to_string()));
}

#[test]
fn classify_argument_goes_by_the_given_match() {
    let name = "pong.ch8".to_string();
    assert_eq!(classify_argument(&name, Some(true)), Argument::Rom);
    assert_eq!(classify_argument(&name, Some(false)), Argument::Unknown);
    assert_eq!(classify_argument(&name, None), Argument::Unknown);
}

#[test]
fn classify_argument_puts_options_first() {
    for matched in [Some(true), Some(false), None] {
        assert_eq!(classify_argument(&"-d".to_string(), matched), Argument::Debug);
        assert_eq!(classify_argument(&"--debug".to_string(), matched), Argument::Debug);
        assert_eq!(classify_argument(&"-h".to_string(), matched), Argument::Help);
        assert_eq!(classify_argument(&"--help".to_string(), matched), Argument::Help);
    }
    assert_eq!(classify_argument(&"--Help".to_string(), Some(false)), Argument::Unknown);
}
