use cargo_nnd::debug_info::{DebugInfo, Profile};
use cargo_nnd::event::BuildEvent;
use cargo_nnd::parse::{decode_fields, parse, JsonPrim, RawFields};

fn artifact(d: DebugInfo, exe: Option<&str>) -> BuildEvent {
    BuildEvent::ArtifactProduced {
        profile: Profile { debuginfo: d },
        executable: exe.map(|s| s.to_string()),
    }
}

#[test]
fn artifact_line_with_numeric_debuginfo() {
    let line = r#"{"reason":"compiler-artifact","profile":{"debuginfo":2},"executable":"/tmp/a.out"}"#;
    let ev = parse(line).unwrap();
    assert_eq!(ev, artifact(DebugInfo::N(2), Some("/tmp/a.out")));
}

#[test]
fn artifact_line_with_boolean_debuginfo() {
    let line = r#"{"reason":"compiler-artifact","profile":{"debuginfo":true},"executable":"x"}"#;
    assert_eq!(parse(line).unwrap(), artifact(DebugInfo::B(true), Some("x")));
}

#[test]
fn artifact_line_with_string_debuginfo() {
    let line =
        r#"{"reason":"compiler-artifact","profile":{"debuginfo":"limited"},"executable":"x"}"#;
    assert_eq!(
        parse(line).unwrap(),
        artifact(DebugInfo::S("limited".to_string()), Some("x"))
    );
}

#[test]
fn artifact_line_with_null_executable() {
    let line = r#"{"reason":"compiler-artifact","profile":{"debuginfo":0},"executable":null}"#;
    assert_eq!(parse(line).unwrap(), artifact(DebugInfo::N(0), None));
}

#[test]
fn artifact_line_without_executable_field() {
    let line = r#"{"reason":"compiler-artifact","profile":{"debuginfo":0}}"#;
    assert_eq!(parse(line).unwrap(), artifact(DebugInfo::N(0), None));
}

#[test]
fn finish_lines() {
    assert_eq!(
        parse(r#"{"reason":"build-finished","success":true}"#).unwrap(),
        BuildEvent::BuildFinished { success: true }
    );
    assert_eq!(
        parse(r#"{"reason":"build-finished","success":false}"#).unwrap(),
        BuildEvent::BuildFinished { success: false }
    );
}

#[test]
fn unknown_discriminator_is_tolerated() {
    let line = r#"{"reason":"fresh-kind","payload":{"x":1}}"#;
    assert_eq!(parse(line).unwrap(), BuildEvent::Unrecognized);
    let line2 = r#"{"reason":"compiler-message","message":"warning"}"#;
    assert_eq!(parse(line2).unwrap(), BuildEvent::Unrecognized);
}

#[test]
fn missing_required_field_fails_with_the_line() {
    let line = r#"{"reason":"compiler-artifact"}"#;
    let err = parse(line).unwrap_err();
    assert_eq!(err.line, line);
    let line2 = r#"{"reason":"build-finished"}"#;
    assert_eq!(parse(line2).unwrap_err().line, line2);
}

#[test]
fn mistyped_fields_fail() {
    let null_debuginfo =
        r#"{"reason":"compiler-artifact","profile":{"debuginfo":null},"executable":"x"}"#;
    assert!(parse(null_debuginfo).is_err());
    let fractional_debuginfo =
        r#"{"reason":"compiler-artifact","profile":{"debuginfo":1.5},"executable":"x"}"#;
    assert!(parse(fractional_debuginfo).is_err());
    let numeric_executable =
        r#"{"reason":"compiler-artifact","profile":{"debuginfo":1},"executable":5}"#;
    assert!(parse(numeric_executable).is_err());
    let string_success = r#"{"reason":"build-finished","success":"yes"}"#;
    assert!(parse(string_success).is_err());
    let numeric_reason = r#"{"reason":5}"#;
    assert!(parse(numeric_reason).is_err());
    let no_reason = r#"{"success":true}"#;
    assert!(parse(no_reason).is_err());
}

#[test]
fn lines_that_are_not_json_objects_fail() {
    let garbage = "error: could not compile";
    assert_eq!(parse(garbage).unwrap_err().line, garbage);
    assert!(parse(r#"[1,2]"#).is_err());
    assert!(parse(r#""compiler-artifact""#).is_err());
    assert!(parse("").is_err());
}

#[test]
fn reparsing_a_valid_line_gives_an_equal_event() {
    let line = r#"{"reason":"compiler-artifact","profile":{"debuginfo":1},"executable":"a.out"}"#;
    assert_eq!(parse(line).unwrap(), parse(line).unwrap());
    let finish = r#"{"reason":"build-finished","success":true}"#;
    assert_eq!(parse(finish).unwrap(), parse(finish).unwrap());
}

#[test]
fn decode_works_on_plain_fields() {
    let f = RawFields {
        reason: JsonPrim::Str("compiler-artifact".to_string()),
        debuginfo: JsonPrim::Num(1),
        executable: JsonPrim::Absent,
        success: JsonPrim::Absent,
    };
    assert_eq!(decode_fields(f, "l").unwrap(), artifact(DebugInfo::N(1), None));
    let missing = RawFields {
        reason: JsonPrim::Str("compiler-artifact".to_string()),
        debuginfo: JsonPrim::Absent,
        executable: JsonPrim::Absent,
        success: JsonPrim::Absent,
    };
    assert_eq!(decode_fields(missing, "the line").unwrap_err().line, "the line");
    let unknown = RawFields {
        reason: JsonPrim::Str("something-else".to_string()),
        debuginfo: JsonPrim::Absent,
        executable: JsonPrim::Absent,
        success: JsonPrim::Absent,
    };
    assert_eq!(decode_fields(unknown, "l").unwrap(), BuildEvent::Unrecognized);
}
