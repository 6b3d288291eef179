use babble::cli::{debug_config_for, parse_args, Args, ArgsOutcome};

fn args(list: &[&str]) -> Vec<String> {
    let mut v = vec!["proto".to_string()];
    v.extend(list.iter().map(|s| s.to_string()));
    v
}

fn run(list: &[&str]) -> Args {
    match parse_args(&args(list)) {
        ArgsOutcome::Run(a) => a,
        other => panic!("unexpected outcome {:?}", other),
    }
}

#[test]
fn no_arguments_runs_plainly() {
    let a = run(&[]);
    assert!(a.test_config.is_none());
    assert!(!a.debug_mode);
    assert_eq!(a.max_frames, 0);
    assert!(debug_config_for(&a).is_none());
}

#[test]
fn test_and_debug_options() {
    let a = run(&["--test", "scenario.toml", "--debug", "120"]);
    assert_eq!(a.test_config, Some("scenario.toml".to_string()));
    assert!(a.debug_mode);
    assert_eq!(a.max_frames, 120);
    let d = debug_config_for(&a).unwrap();
    assert!(d.enabled);
    assert_eq!(d.max_frames, 120);
}

#[test]
fn debug_without_frame_count_keeps_next_argument() {
    let a = run(&["--debug", "--test", "x.toml"]);
    assert!(a.debug_mode);
    assert_eq!(a.max_frames, 0);
    assert_eq!(a.test_config, Some("x.toml".to_string()));
    assert!(matches!(parse_args(&args(&["--debug", "-5"])), ArgsOutcome::UnknownArgument(s) if s == "-5"));
    assert_eq!(run(&["--debug", "+7"]).max_frames, 7);
}

#[test]
fn help_missing_path_and_unknown() {
    assert!(matches!(parse_args(&args(&["-h"])), ArgsOutcome::Help));
    assert!(matches!(parse_args(&args(&["--debug", "--help"])), ArgsOutcome::Help));
    assert!(matches!(parse_args(&args(&["--test"])), ArgsOutcome::MissingTestPath));
    assert!(matches!(parse_args(&args(&["--verbose"])), ArgsOutcome::UnknownArgument(s) if s == "--verbose"));
}

#[test]
fn frame_count_must_fit() {
    assert_eq!(run(&["--debug", "18446744073709551615"]).max_frames, u64::MAX);
    assert!(matches!(
        parse_args(&args(&["--debug", "18446744073709551616"])),
        ArgsOutcome::UnknownArgument(s) if s == "18446744073709551616"
    ));
}
