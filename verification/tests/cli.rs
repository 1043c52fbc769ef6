use anmrenderer::cli::{parse_command_line, parse_script_number, CliOutcome};

#[test]
fn one_argument_prints_usage() {
    // `program onlyonearg`: wrong argument count, so the program must ask
    // for a usage message and never create a window or render.
    let script_arg: Vec<u8> = Vec::new();
    let outcome = parse_command_line(2, &script_arg);
    assert_eq!(outcome, CliOutcome::Usage);
}

#[test]
fn no_arguments_prints_usage() {
    let script_arg: Vec<u8> = Vec::new();
    assert_eq!(parse_command_line(1, &script_arg), CliOutcome::Usage);
}

#[test]
fn extra_arguments_print_usage() {
    let script_arg: Vec<u8> = b"3".to_vec();
    assert_eq!(parse_command_line(4, &script_arg), CliOutcome::Usage);
}

#[test]
fn well_formed_arguments_run() {
    let script_arg: Vec<u8> = b"3".to_vec();
    assert_eq!(parse_command_line(3, &script_arg), CliOutcome::Run { script: 3 });
}

#[test]
fn non_numeric_script_number_is_a_parse_error() {
    let script_arg: Vec<u8> = b"abc".to_vec();
    assert_eq!(parse_command_line(3, &script_arg), CliOutcome::BadScriptNumber);
}

#[test]
fn parse_script_number_accepts_bounds() {
    assert_eq!(parse_script_number(&b"0".to_vec()), Some(0));
    assert_eq!(parse_script_number(&b"7".to_vec()), Some(7));
    assert_eq!(parse_script_number(&b"255".to_vec()), Some(255));
    assert_eq!(parse_script_number(&b"007".to_vec()), Some(7));
}

#[test]
fn parse_script_number_rejects_out_of_range() {
    assert_eq!(parse_script_number(&b"256".to_vec()), None);
    assert_eq!(parse_script_number(&b"1000".to_vec()), None);
}

#[test]
fn parse_script_number_rejects_non_digits() {
    assert_eq!(parse_script_number(&b"".to_vec()), None);
    assert_eq!(parse_script_number(&b"1a".to_vec()), None);
    assert_eq!(parse_script_number(&b"-1".to_vec()), None);
    assert_eq!(parse_script_number(&b"+1".to_vec()), None);
    assert_eq!(parse_script_number(&b" 1".to_vec()), None);
}
