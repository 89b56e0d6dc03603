use slashsum::cli::{parse_args, CliAction};

fn args(list: &[&str]) -> Vec<String> {
    list.iter().map(|s| s.to_string()).collect()
}

#[test]
fn test_version_flag_short_circuits() {
    let r = parse_args(&args(&["slashsum", "file.txt", "--version"]));
    assert!(matches!(r, CliAction::Version));
    let r = parse_args(&args(&["slashsum", "--version"]));
    assert!(matches!(r, CliAction::Version));
}

#[test]
fn test_help_flags() {
    assert!(matches!(
        parse_args(&args(&["slashsum", "-h"])),
        CliAction::Help
    ));
    assert!(matches!(
        parse_args(&args(&["slashsum", "--help"])),
        CliAction::Help
    ));
    // Version wins over help
    assert!(matches!(
        parse_args(&args(&["slashsum", "--help", "--version"])),
        CliAction::Version
    ));
}

#[test]
fn test_argument_count_validation() {
    assert!(matches!(
        parse_args(&args(&["slashsum"])),
        CliAction::InvalidArgCount
    ));
    assert!(matches!(
        parse_args(&args(&["slashsum", "a", "b", "c"])),
        CliAction::InvalidArgCount
    ));
}

#[test]
fn test_unrecognized_option() {
    let r = parse_args(&args(&["slashsum", "file.txt", "--svae"]));
    match r {
        CliAction::InvalidOption(o) => assert_eq!(o, "--svae"),
        _ => panic!("expected an invalid-option error"),
    }
}

#[test]
fn test_run_with_and_without_save() {
    match parse_args(&args(&["slashsum", "file.txt"])) {
        CliAction::Run { path, save } => {
            assert_eq!(path, "file.txt");
            assert!(!save);
        }
        _ => panic!("expected a run"),
    }
    match parse_args(&args(&["slashsum", "file.txt", "--save"])) {
        CliAction::Run { path, save } => {
            assert_eq!(path, "file.txt");
            assert!(save);
        }
        _ => panic!("expected a run"),
    }
}
