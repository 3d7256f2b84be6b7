use cargo_nnd::cmdline::{cargo_args, run, Args, Breakpoint, BreakpointError};

fn empty_args() -> Args {
    Args {
        package: None,
        bin: None,
        example: None,
        tests: false,
        test: None,
        bench: None,
        features: Vec::new(),
        all_features: false,
        no_default_features: false,
        breakpoint: None,
        extra_args: Vec::new(),
    }
}

#[test]
fn breakpoint_file_and_line() {
    let bp = Breakpoint::from_arg_value("foo.rs:12").unwrap();
    assert_eq!(bp.file, "foo.rs");
    assert_eq!(bp.line, 12);
}

#[test]
fn breakpoint_splits_at_the_first_colon() {
    let bp = Breakpoint::from_arg_value("a:b:3");
    assert!(matches!(bp, Err(BreakpointError::InvalidLine { text }) if text == "b:3"));
}

#[test]
fn breakpoint_without_separator_is_rejected() {
    let r = Breakpoint::from_arg_value("foo.rs");
    assert!(matches!(r, Err(BreakpointError::MissingSeparator { value }) if value == "foo.rs"));
}

#[test]
fn breakpoint_line_must_be_a_number() {
    assert!(matches!(
        Breakpoint::from_arg_value("a:xy"),
        Err(BreakpointError::InvalidLine { text }) if text == "xy"
    ));
    assert!(matches!(
        Breakpoint::from_arg_value("a:"),
        Err(BreakpointError::InvalidLine { text }) if text.is_empty()
    ));
    assert!(matches!(
        Breakpoint::from_arg_value("a:12 "),
        Err(BreakpointError::InvalidLine { .. })
    ));
}

#[test]
fn breakpoint_line_accepts_a_leading_plus() {
    let bp = Breakpoint::from_arg_value("a:+7").unwrap();
    assert_eq!(bp.line, 7);
    assert!(Breakpoint::from_arg_value("a:+").is_err());
}

#[test]
fn breakpoint_line_rejects_overflow() {
    let r = Breakpoint::from_arg_value("a:99999999999999999999999999");
    assert!(matches!(r, Err(BreakpointError::InvalidLine { .. })));
}

#[test]
fn breakpoint_with_empty_file_parses() {
    let bp = Breakpoint::from_arg_value(":12").unwrap();
    assert_eq!(bp.file, "");
    assert_eq!(bp.line, 12);
}

#[test]
fn minimal_build_command() {
    let args = empty_args();
    assert_eq!(cargo_args(&args, false), vec!["cargo", "build"]);
    assert_eq!(
        cargo_args(&args, true),
        vec!["cargo", "build", "--message-format=json"]
    );
}

#[test]
fn full_build_command() {
    let mut args = empty_args();
    args.package = Some("pkg".to_string());
    args.bin = Some("tool".to_string());
    args.example = Some("demo".to_string());
    args.tests = true;
    args.test = Some("it".to_string());
    args.bench = Some("speed".to_string());
    args.features = vec!["alpha".to_string(), "beta".to_string()];
    args.all_features = true;
    args.no_default_features = true;
    assert_eq!(
        cargo_args(&args, true),
        vec![
            "cargo",
            "build",
            "--message-format=json",
            "--package=pkg",
            "--bin=tool",
            "--example=demo",
            "--tests",
            "--test=it",
            "--bench=speed",
            "-F",
            "alpha",
            "-F",
            "beta",
            "--all-features",
            "--no-default-features",
        ]
    );
}

#[test]
fn debugger_command_without_breakpoint_breaks_at_entry() {
    let mut args = empty_args();
    args.extra_args = vec!["--flag".to_string(), "value".to_string()];
    assert_eq!(
        run(&args, "target/debug/tool"),
        vec!["nnd", "-s", "target/debug/tool", "--flag", "value"]
    );
}

#[test]
fn debugger_command_with_breakpoint() {
    let mut args = empty_args();
    args.breakpoint = Some(Breakpoint {
        file: "/src/main.rs".to_string(),
        line: 10,
    });
    assert_eq!(
        run(&args, "t"),
        vec!["nnd", "--breakpoint", "/src/main.rs:10", "t"]
    );
}
