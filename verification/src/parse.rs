//! The build event parser: decodes one line of the build tool's structured
//! output into a `BuildEvent`.
//!
//! A line is a JSON object whose `reason` field selects the event shape.  The
//! JSON reading itself is done by `serde_json`; everything it hands back is
//! first flattened to the plain fields this tool looks at (`RawFields`), and
//! the decision logic over those fields is verified.

use vstd::prelude::*;
use vstd::string::StringExecFns;
use crate::debug_info::{DebugInfo, Profile};
use crate::event::BuildEvent;
use crate::text::str_eq;

verus! {

#[verifier::external_type_specification]
#[verifier::external_body]
pub struct ExValue(serde_json::Value);

/// What one JSON field of a build-output line held, as far as this tool
/// reads it: absent, null, a boolean, an unsigned integer, a string, or
/// some other JSON shape.
#[derive(Debug)]
pub enum JsonPrim {
    Absent,
    Null,
    Bool(bool),
    Num(u64),
    Str(String),
    Other,
}

/// The fields of one structured-output line that this tool looks at.
#[derive(Debug)]
pub struct RawFields {
    /// The event discriminator, `reason`.
    pub reason: JsonPrim,
    /// `profile.debuginfo` of an artifact event.
    pub debuginfo: JsonPrim,
    /// `executable` of an artifact event.
    pub executable: JsonPrim,
    /// `success` of a finish event.
    pub success: JsonPrim,
}

/// The fields that reading a line as JSON yields: `None` when the line is not
/// well-formed JSON, otherwise each field as the document holds it.  A pure
/// function of the line's characters.
pub uninterp spec fn json_fields_of(s: Seq<char>) -> Option<RawFields>;

/// Relies on `serde_json::from_str` and `serde_json::Value::get`: reading a
/// line of JSON is a pure function of the line's characters alone; a line
/// that is not well-formed JSON fails to read, and `get` on anything but an
/// object yields nothing.  The result is flattened at once to the plain
/// fields this tool looks at.
#[verifier::external_body]
fn extract_fields(line: &str) -> (r: Option<RawFields>)
    ensures
        r == json_fields_of(line@),
{
    let v: serde_json::Value = match serde_json::from_str(line) {
        Ok(v) => v,
        Err(_) => return None,
    };
    let dbg = match v.get("profile") {
        Some(p) => p.get("debuginfo"),
        None => None,
    };
    Some(RawFields {
        reason: field_prim(v.get("reason")),
        debuginfo: field_prim(dbg),
        executable: field_prim(v.get("executable")),
        success: field_prim(v.get("success")),
    })
}

/// The conversion half of `extract_fields`: one JSON value, arm by arm, to
/// the library's plain form.  Relies on `serde_json::Value` being the enum of
/// the six JSON shapes and on `Number::as_u64` returning the value of an
/// unsigned integer number and nothing else.
#[verifier::external_body]
fn field_prim(v: Option<&serde_json::Value>) -> JsonPrim {
    match v {
        None => JsonPrim::Absent,
        Some(serde_json::Value::Null) => JsonPrim::Null,
        Some(serde_json::Value::Bool(b)) => JsonPrim::Bool(*b),
        Some(serde_json::Value::Number(n)) => match n.as_u64() {
            Some(u) => JsonPrim::Num(u),
            None => JsonPrim::Other,
        },
        Some(serde_json::Value::String(s)) => JsonPrim::Str(s.clone()),
        Some(_) => JsonPrim::Other,
    }
}

/// A line whose discriminator matched a known event shape but whose required
/// fields were absent or mistyped; carries the offending line for diagnosis.
#[derive(Debug)]
pub struct ParseError {
    pub line: String,
}

/// The debug-info setting an artifact event's `debuginfo` field denotes:
/// a number, a boolean or a string; anything else is mistyped.
pub open spec fn spec_dbg(p: JsonPrim) -> Option<DebugInfo> {
    match p {
        JsonPrim::Num(n) => Some(DebugInfo::N(n)),
        JsonPrim::Bool(b) => Some(DebugInfo::B(b)),
        JsonPrim::Str(s) => Some(DebugInfo::S(s)),
        _ => None,
    }
}

/// The executable path an artifact event's `executable` field denotes: a
/// string is a path, null or an absent field is "no executable", anything
/// else is mistyped.
pub open spec fn spec_exe(p: JsonPrim) -> Option<Option<String>> {
    match p {
        JsonPrim::Str(s) => Some(Some(s)),
        JsonPrim::Null => Some(Option::<String>::None),
        JsonPrim::Absent => Some(Option::<String>::None),
        _ => None,
    }
}

/// The event a line's fields decode to, or `None` for a decode failure: the
/// discriminator must be a string; an unknown discriminator decodes to
/// `Unrecognized`; a known discriminator requires its fields well-typed.
pub open spec fn spec_event(f: RawFields) -> Option<BuildEvent> {
    match f.reason {
        JsonPrim::Str(tag) => if tag@ == "compiler-artifact"@ {
            match (spec_dbg(f.debuginfo), spec_exe(f.executable)) {
                (Some(d), Some(e)) => Some(
                    BuildEvent::ArtifactProduced { profile: Profile { debuginfo: d }, executable: e },
                ),
                _ => None,
            }
        } else if tag@ == "build-finished"@ {
            match f.success {
                JsonPrim::Bool(b) => Some(BuildEvent::BuildFinished { success: b }),
                _ => None,
            }
        } else {
            Some(BuildEvent::Unrecognized)
        },
        _ => None,
    }
}

/// Decodes the fields of one line; on failure the error carries the line.
pub fn decode_fields(f: RawFields, line: &str) -> (r: Result<BuildEvent, ParseError>)
    ensures
        spec_event(f) matches Some(e) ==> (r matches Ok(ev) && ev == e),
        spec_event(f) is None ==> (r matches Err(p) && p.line@ == line@),
{
    let RawFields { reason, debuginfo, executable, success } = f;
    match reason {
        JsonPrim::Str(tag) => {
            if str_eq(tag.as_str(), "compiler-artifact") {
                let d = match debuginfo {
                    JsonPrim::Num(n) => Some(DebugInfo::N(n)),
                    JsonPrim::Bool(b) => Some(DebugInfo::B(b)),
                    JsonPrim::Str(s) => Some(DebugInfo::S(s)),
                    _ => None,
                };
                match d {
                    Some(dbg) => match executable {
                        JsonPrim::Str(p) => Ok(
                            BuildEvent::ArtifactProduced {
                                profile: Profile { debuginfo: dbg },
                                executable: Some(p),
                            },
                        ),
                        JsonPrim::Null | JsonPrim::Absent => Ok(
                            BuildEvent::ArtifactProduced {
                                profile: Profile { debuginfo: dbg },
                                executable: None,
                            },
                        ),
                        _ => Err(ParseError { line: String::from_str(line) }),
                    },
                    None => Err(ParseError { line: String::from_str(line) }),
                }
            } else if str_eq(tag.as_str(), "build-finished") {
                match success {
                    JsonPrim::Bool(b) => Ok(BuildEvent::BuildFinished { success: b }),
                    _ => Err(ParseError { line: String::from_str(line) }),
                }
            } else {
                Ok(BuildEvent::Unrecognized)
            }
        },
        _ => Err(ParseError { line: String::from_str(line) }),
    }
}

/// The event a whole line decodes to, or `None` for a failure: the line must
/// be well-formed JSON, and its fields must decode.
pub open spec fn spec_parse_ok(s: Seq<char>) -> Option<BuildEvent> {
    match json_fields_of(s) {
        Some(f) => spec_event(f),
        None => None,
    }
}

/// Decodes one line of structured build output.  The result is a function of
/// the line's characters alone; on failure the error carries the line.
pub fn parse(line: &str) -> (r: Result<BuildEvent, ParseError>)
    ensures
        spec_parse_ok(line@) matches Some(e) ==> (r matches Ok(ev) && ev == e),
        spec_parse_ok(line@) is None ==> (r matches Err(p) && p.line@ == line@),
{
    match extract_fields(line) {
        Some(f) => decode_fields(f, line),
        None => Err(ParseError { line: String::from_str(line) }),
    }
}

/// Parsing is deterministic: two successful parses of the same line yield
/// the same event, so re-parsing a valid line gives a structurally equal
/// result.
pub proof fn lemma_parse_deterministic(s: Seq<char>, e1: BuildEvent, e2: BuildEvent)
    requires
        spec_parse_ok(s) == Some(e1),
        spec_parse_ok(s) == Some(e2),
    ensures
        e1 == e2,
{
}

/// A line with a well-typed but unknown discriminator decodes to
/// `Unrecognized`, never to an error: new build-tool event kinds do not
/// break this tool.
pub proof fn lemma_unknown_reason_unrecognized(f: RawFields)
    requires
        f.reason matches JsonPrim::Str(tag) && tag@ != "compiler-artifact"@ && tag@
            != "build-finished"@,
    ensures
        spec_event(f) == Some(BuildEvent::Unrecognized),
{
}

/// A line with a known discriminator but a missing required field fails to
/// decode: an artifact event needs its debug-info setting, a finish event
/// its success flag.
pub proof fn lemma_missing_field_fails(f: RawFields)
    requires
        f.reason matches JsonPrim::Str(tag) && (tag@ == "compiler-artifact"@ && f.debuginfo
            is Absent || tag@ == "build-finished"@ && f.success is Absent),
    ensures
        spec_event(f) is None,
{
    reveal_strlit("compiler-artifact");
    reveal_strlit("build-finished");
    assert(("compiler-artifact"@).len() == 17 && ("build-finished"@).len() == 14);
}

} // verus!
