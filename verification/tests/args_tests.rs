use pipeprog::args::Args;

#[test]
fn nothing_given_means_standard_streams() {
    let args = Args::resolve(None, None, false, None);
    assert_eq!(args.infile, "");
    assert_eq!(args.outfile, "");
    assert_eq!(args.silent, false);
    assert!(args.reads_stdin());
    assert!(args.writes_stdout());
}

#[test]
fn paths_are_kept() {
    let args = Args::resolve(
        Some("in.bin".to_string()),
        Some("out.bin".to_string()),
        false,
        None,
    );
    assert_eq!(args.infile, "in.bin");
    assert_eq!(args.outfile, "out.bin");
    assert!(!args.reads_stdin());
    assert!(!args.writes_stdout());
}

#[test]
fn flag_switches_silence_on() {
    assert!(Args::resolve(None, None, true, None).silent);
    assert!(Args::resolve(None, None, true, Some(String::new())).silent);
}

#[test]
fn toggle_switches_silence_on_when_not_empty() {
    assert!(Args::resolve(None, None, false, Some("1".to_string())).silent);
    assert!(Args::resolve(None, None, false, Some("no".to_string())).silent);
    assert!(!Args::resolve(None, None, false, Some(String::new())).silent);
}
