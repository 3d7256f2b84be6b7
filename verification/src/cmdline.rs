//! Command-line computation: the build-target options, the build tool's
//! argument list (structured or human-readable mode), the breakpoint
//! specifier, and the debugger's argument list.

use vstd::prelude::*;
use vstd::string::{StrSliceExecFns, StringExecFns};
use crate::text::dec_repr;
use crate::text::fmt_u64;

verus! {

/// The options selecting what to build and debug.
#[derive(Debug)]
pub struct Args {
    /// Package to build.
    pub package: Option<String>,
    /// Build and debug the specified binary.
    pub bin: Option<String>,
    /// Build and debug the specified example.
    pub example: Option<String>,
    /// Build and debug tests.
    pub tests: bool,
    /// Build and debug the specified test.
    pub test: Option<String>,
    /// Build and debug the specified bench.
    pub bench: Option<String>,
    /// Features to activate.
    pub features: Vec<String>,
    /// Activate all available features.
    pub all_features: bool,
    /// Do not activate the `default` feature.
    pub no_default_features: bool,
    /// Where the debugger should break, if anywhere in particular.
    pub breakpoint: Option<Breakpoint>,
    /// Extra arguments to pass to the debuggee.
    pub extra_args: Vec<String>,
}

/// A `file:line` pair identifying where the debugger should pause.
#[derive(Debug)]
pub struct Breakpoint {
    pub file: String,
    pub line: usize,
}

/// Why a breakpoint specifier was rejected; each variant carries the
/// offending raw text for the message shown to the user.
#[derive(Debug)]
pub enum BreakpointError {
    /// No `:` separator between file and line.
    MissingSeparator { value: String },
    /// The part after the separator is not a line number.
    InvalidLine { text: String },
}

/// `c` is a decimal digit.
pub open spec fn is_digit(c: char) -> bool {
    48 <= c as u32 <= 57
}

/// The value of a decimal digit.
pub open spec fn digit_val(c: char) -> nat {
    (c as u32 - 48) as nat
}

/// The value of a digit string, most significant digit first.
pub open spec fn digits_val(s: Seq<char>) -> nat
    decreases s.len(),
{
    if s.len() == 0 {
        0
    } else {
        digits_val(s.drop_last()) * 10 + digit_val(s.last())
    }
}

/// Every character of `s` is a decimal digit.
pub open spec fn all_digits(s: Seq<char>) -> bool {
    forall|i: int| 0 <= i < s.len() ==> is_digit(s[i])
}

/// What `usize` parsing accepts: an optional leading `+`, then at least one
/// digit and nothing else, with a value that fits the machine word.
pub open spec fn spec_parse_usize(s: Seq<char>) -> Option<nat> {
    let body = if s.len() > 0 && s[0] == '+' {
        s.skip(1)
    } else {
        s
    };
    if body.len() > 0 && all_digits(body) && digits_val(body) <= usize::MAX as nat {
        Some(digits_val(body))
    } else {
        None
    }
}

proof fn lemma_digits_val_prefix_le(s: Seq<char>, j: int)
    requires
        0 <= j <= s.len(),
    ensures
        digits_val(s.take(j)) <= digits_val(s),
    decreases s.len() - j,
{
    if j == s.len() {
        assert(s.take(j) =~= s);
    } else {
        assert(s.take(j + 1).drop_last() =~= s.take(j));
        assert(s.take(j + 1).last() == s[j]);
        assert(digits_val(s.take(j + 1)) == digits_val(s.take(j)) * 10 + digit_val(s[j]));
        lemma_digits_val_prefix_le(s, j + 1);
    }
}

/// Parses a decimal `usize`, exactly as strict as the standard unsigned
/// parse: an optional leading `+`, then digits only, rejecting empty input
/// and overflow.
pub fn parse_usize(s: &str) -> (r: Option<usize>)
    ensures
        r matches Some(n) ==> spec_parse_usize(s@) == Some(n as nat),
        r is None ==> spec_parse_usize(s@) is None,
{
    let len = s.unicode_len();
    let mut i: usize = 0;
    if len > 0 && s.get_char(0) == '+' {
        i = 1;
    }
    let ghost start = i as int;
    let ghost body = s@.skip(start);
    proof {
        assert(s@.skip(0) =~= s@);
        assert(body.len() == s@.len() - start);
    }
    if i >= len {
        return None;
    }
    let mut val: usize = 0;
    while i < len
        invariant
            start <= i as int <= len,
            len == s@.len(),
            0 <= start <= 1,
            body == s@.skip(start),
            start == 0 ==> body == s@,
            (start == 1) == (s@.len() > 0 && s@[0] == '+'),
            all_digits(body.take(i - start)),
            val as nat == digits_val(body.take(i - start)),
        decreases len - i,
    {
        let c = s.get_char(i);
        let cu: u32 = c as u32;
        proof {
            assert(body[i - start] == s@[i as int]);
        }
        if cu < 48 || cu > 57 {
            proof {
                assert(!is_digit(body[i - start]));
            }
            return None;
        }
        let d: usize = (cu - 48) as usize;
        let ghost prev = val as nat;
        let next: usize = match val.checked_mul(10) {
            Some(t) => match t.checked_add(d) {
                Some(n) => n,
                None => {
                    proof {
                        overflow_reasoning(body, i - start, prev, d as nat);
                    }
                    return None;
                },
            },
            None => {
                proof {
                    overflow_reasoning(body, i - start, prev, d as nat);
                }
                return None;
            },
        };
        val = next;
        i += 1;
        proof {
            assert(body.take(i - start).drop_last() =~= body.take(i - start - 1));
            assert(body.take(i - start).last() == body[i - start - 1]);
        }
    }
    proof {
        assert(body.take(len - start) =~= body);
    }
    Some(val)
}

proof fn overflow_reasoning(body: Seq<char>, k: int, prev: nat, d: nat)
    requires
        0 <= k < body.len(),
        all_digits(body.take(k)),
        is_digit(body[k]),
        prev == digits_val(body.take(k)),
        d == digit_val(body[k]),
        prev * 10 + d > usize::MAX as nat,
    ensures
        digits_val(body) > usize::MAX as nat,
{
    assert(body.take(k + 1).drop_last() =~= body.take(k));
    assert(body.take(k + 1).last() == body[k]);
    assert(digits_val(body.take(k + 1)) == prev * 10 + d);
    lemma_digits_val_prefix_le(body, k + 1);
}

/// `s` has its first `:` at position `i`.
pub open spec fn colon_at(s: Seq<char>, i: int) -> bool {
    0 <= i < s.len() && s[i] == ':' && (forall|j: int| 0 <= j < i ==> s[j] != ':')
}

/// `s` holds a `:` somewhere.
pub open spec fn has_colon(s: Seq<char>) -> bool {
    exists|i: int| 0 <= i < s.len() && s[i] == ':'
}

fn find_colon(s: &str) -> (r: Option<usize>)
    ensures
        r matches Some(i) ==> colon_at(s@, i as int),
        r is None ==> !has_colon(s@),
{
    let len = s.unicode_len();
    let mut i: usize = 0;
    while i < len
        invariant
            i <= len,
            len == s@.len(),
            forall|j: int| 0 <= j < i ==> s@[j] != ':',
        decreases len - i,
    {
        if s.get_char(i) == ':' {
            return Some(i);
        }
        i += 1;
    }
    None
}

impl Breakpoint {
    /// Parses a `file:line` breakpoint specifier: the file is everything
    /// before the first `:`, the line everything after it, read as a decimal
    /// number.
    pub fn from_arg_value(value: &str) -> (r: Result<Breakpoint, BreakpointError>)
        ensures
            r matches Ok(bp) ==> (exists|i: int|
                #[trigger] colon_at(value@, i) && bp.file@ == value@.take(i) && spec_parse_usize(
                    value@.skip(i + 1),
                ) == Some(bp.line as nat)),
            r matches Err(e) ==> (match e {
                BreakpointError::MissingSeparator { value: v } => v@ == value@ && !has_colon(
                    value@,
                ),
                BreakpointError::InvalidLine { text } => exists|i: int|
                    #[trigger] colon_at(value@, i) && text@ == value@.skip(i + 1)
                        && spec_parse_usize(value@.skip(i + 1)) is None,
            }),
    {
        let len = value.unicode_len();
        let idx = match find_colon(value) {
            Some(i) => i,
            None => {
                return Err(BreakpointError::MissingSeparator { value: String::from_str(value) });
            },
        };
        let file_part = value.substring_char(0, idx);
        let line_part = value.substring_char(idx + 1, len);
        proof {
            assert(line_part@ =~= value@.skip(idx + 1));
            assert(file_part@ =~= value@.take(idx as int));
        }
        match parse_usize(line_part) {
            Some(n) => Ok(Breakpoint { file: String::from_str(file_part), line: n }),
            None => Err(BreakpointError::InvalidLine { text: String::from_str(line_part) }),
        }
    }
}

/// The argument a present option contributes: `prefix` glued to the value.
pub open spec fn opt_arg(prefix: Seq<char>, o: Option<String>) -> Seq<Seq<char>> {
    match o {
        Some(s) => seq![prefix + s@],
        None => Seq::empty(),
    }
}

/// The argument a switch contributes when it is on.
pub open spec fn switch_arg(name: Seq<char>, on: bool) -> Seq<Seq<char>> {
    if on {
        seq![name]
    } else {
        Seq::empty()
    }
}

/// The arguments the feature list contributes: `-F` before each feature.
pub open spec fn feature_args(fs: Seq<Seq<char>>) -> Seq<Seq<char>>
    decreases fs.len(),
{
    if fs.len() == 0 {
        Seq::empty()
    } else {
        feature_args(fs.drop_last()) + seq!["-F"@, fs.last()]
    }
}

fn push_arg(v: &mut Vec<String>, s: String)
    ensures
        final(v).deep_view() == old(v).deep_view().push(s@),
{
    let ghost dv = v.deep_view();
    let ghost sv = s@;
    v.push(s);
    proof {
        assert(v.deep_view() =~= dv.push(sv));
    }
}

fn push_opt(v: &mut Vec<String>, prefix: &str, o: &Option<String>)
    ensures
        final(v).deep_view() == old(v).deep_view() + opt_arg(prefix@, *o),
{
    let ghost dv = v.deep_view();
    match o {
        Some(s) => {
            let mut t = String::from_str(prefix);
            t.append(s.as_str());
            push_arg(v, t);
            proof {
                assert(v.deep_view() =~= dv + opt_arg(prefix@, *o));
            }
        },
        None => {
            proof {
                assert(v.deep_view() =~= dv + opt_arg(prefix@, *o));
            }
        },
    }
}

fn push_switch(v: &mut Vec<String>, name: &str, on: bool)
    ensures
        final(v).deep_view() == old(v).deep_view() + switch_arg(name@, on),
{
    let ghost dv = v.deep_view();
    if on {
        push_arg(v, String::from_str(name));
    }
    proof {
        assert(v.deep_view() =~= dv + switch_arg(name@, on));
    }
}

fn push_features(v: &mut Vec<String>, fs: &Vec<String>)
    ensures
        final(v).deep_view() == old(v).deep_view() + feature_args(fs.deep_view()),
{
    let ghost base = v.deep_view();
    let mut i: usize = 0;
    while i < fs.len()
        invariant
            i <= fs.len(),
            v.deep_view() == base + feature_args(fs.deep_view().take(i as int)),
        decreases fs.len() - i,
    {
        push_arg(v, String::from_str("-F"));
        let f = &fs[i];
        push_arg(v, f.clone());
        i += 1;
        proof {
            let fsv = fs.deep_view();
            assert(fsv.take(i as int).drop_last() =~= fsv.take(i as int - 1));
            assert(fsv.take(i as int).last() == fsv[i as int - 1]);
            assert(v.deep_view() =~= base + feature_args(fsv.take(i as int)));
        }
    }
    proof {
        assert(fs.deep_view().take(fs.len() as int) =~= fs.deep_view());
    }
}

fn push_all(v: &mut Vec<String>, items: &Vec<String>)
    ensures
        final(v).deep_view() == old(v).deep_view() + items.deep_view(),
{
    let ghost base = v.deep_view();
    let mut i: usize = 0;
    while i < items.len()
        invariant
            i <= items.len(),
            v.deep_view() == base + items.deep_view().take(i as int),
        decreases items.len() - i,
    {
        let s = &items[i];
        push_arg(v, s.clone());
        i += 1;
        proof {
            let itv = items.deep_view();
            assert(itv.take(i as int) =~= itv.take(i as int - 1).push(itv[i as int - 1]));
            assert(v.deep_view() =~= base + itv.take(i as int));
        }
    }
    proof {
        assert(items.deep_view().take(items.len() as int) =~= items.deep_view());
    }
}

/// The build tool's full command line for these options: structured
/// (machine-readable) output when `json` is set, human-readable otherwise;
/// the target and feature selection is the same either way.
pub open spec fn spec_cargo_args(a: Args, json: bool) -> Seq<Seq<char>> {
    seq!["cargo"@, "build"@] + switch_arg("--message-format=json"@, json) + opt_arg(
        "--package="@,
        a.package,
    ) + opt_arg("--bin="@, a.bin) + opt_arg("--example="@, a.example) + switch_arg(
        "--tests"@,
        a.tests,
    ) + opt_arg("--test="@, a.test) + opt_arg("--bench="@, a.bench) + feature_args(
        a.features.deep_view(),
    ) + switch_arg("--all-features"@, a.all_features) + switch_arg(
        "--no-default-features"@,
        a.no_default_features,
    )
}

/// Computes the build tool's command line, program name first.
pub fn cargo_args(args: &Args, json: bool) -> (r: Vec<String>)
    ensures
        r.deep_view() == spec_cargo_args(*args, json),
{
    let mut v: Vec<String> = Vec::new();
    proof {
        assert(v.deep_view() =~= Seq::<Seq<char>>::empty());
    }
    push_arg(&mut v, String::from_str("cargo"));
    push_arg(&mut v, String::from_str("build"));
    push_switch(&mut v, "--message-format=json", json);
    push_opt(&mut v, "--package=", &args.package);
    push_opt(&mut v, "--bin=", &args.bin);
    push_opt(&mut v, "--example=", &args.example);
    push_switch(&mut v, "--tests", args.tests);
    push_opt(&mut v, "--test=", &args.test);
    push_opt(&mut v, "--bench=", &args.bench);
    push_features(&mut v, &args.features);
    push_switch(&mut v, "--all-features", args.all_features);
    push_switch(&mut v, "--no-default-features", args.no_default_features);
    proof {
        assert(v.deep_view() =~= spec_cargo_args(*args, json));
    }
    v
}

/// The debugger's full command line: a `file:line` breakpoint when one was
/// requested, otherwise the flag meaning "break at program entry"; then the
/// resolved executable and the pass-through arguments.
pub open spec fn spec_run_args(
    bp: Option<Breakpoint>,
    target: Seq<char>,
    extra: Seq<Seq<char>>,
) -> Seq<Seq<char>> {
    seq!["nnd"@] + (match bp {
        Some(b) => seq!["--breakpoint"@, b.file@ + seq![':'] + dec_repr(b.line as nat)],
        None => seq!["-s"@],
    }) + seq![target] + extra
}

/// Computes the debugger's command line, program name first.  The breakpoint
/// file, if any, is expected already resolved to its canonical location.
pub fn run(args: &Args, target: &str) -> (r: Vec<String>)
    ensures
        r.deep_view() == spec_run_args(args.breakpoint, target@, args.extra_args.deep_view()),
{
    let mut v: Vec<String> = Vec::new();
    proof {
        assert(v.deep_view() =~= Seq::<Seq<char>>::empty());
        reveal_strlit(":");
        assert(":"@ =~= seq![':']);
    }
    push_arg(&mut v, String::from_str("nnd"));
    match &args.breakpoint {
        Some(b) => {
            push_arg(&mut v, String::from_str("--breakpoint"));
            let mut t = b.file.clone();
            t.append(":");
            let num = fmt_u64(b.line as u64);
            t.append(num.as_str());
            proof {
                assert(t@ =~= b.file@ + seq![':'] + dec_repr(b.line as nat));
            }
            push_arg(&mut v, t);
        },
        None => {
            push_arg(&mut v, String::from_str("-s"));
        },
    }
    push_arg(&mut v, String::from_str(target));
    push_all(&mut v, &args.extra_args);
    proof {
        assert(v.deep_view() =~= spec_run_args(
            args.breakpoint,
            target@,
            args.extra_args.deep_view(),
        ));
    }
    v
}

} // verus!
