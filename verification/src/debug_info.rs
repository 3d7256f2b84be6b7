//! The debug-info classifier: the build tool reports the debug-information
//! setting of a compiled artifact in one of three shapes (a numeric level, a
//! boolean flag, or a named string level), and the debugger needs at least
//! line-level correlation between machine code and source.  This module
//! normalizes the three shapes to one "sufficient for debugging" verdict.

use vstd::prelude::*;
use crate::text::{str_eq, fmt_u64, dec_repr};

verus! {

/// A debug-information setting as the build tool reports it.  Exactly one
/// encoding is present per instance; the choice of encoding is the build
/// tool's.
#[derive(Debug)]
pub enum DebugInfo {
    /// A numeric level.
    N(u64),
    /// A boolean flag.
    B(bool),
    /// A named string level.
    S(String),
}

/// The debug-info values this tool knows; any other value is an invariant
/// violation by the build tool and is never classified as a boolean.
pub open spec fn recognized(d: DebugInfo) -> bool {
    match d {
        DebugInfo::N(n) => n == 0 || n == 1 || n == 2,
        DebugInfo::B(_) => true,
        DebugInfo::S(s) => s@ == "none"@ || s@ == "line-directives-only"@ || s@
            == "line-tables-only"@ || s@ == "limited"@ || s@ == "full"@,
    }
}

/// Whether a recognized debug-info setting carries enough source correlation
/// for a debugger: numeric 1 and 2, boolean true, and the string levels
/// "limited" and "full".
pub open spec fn sufficient(d: DebugInfo) -> bool {
    match d {
        DebugInfo::N(n) => n == 1 || n == 2,
        DebugInfo::B(b) => b,
        DebugInfo::S(s) => s@ == "limited"@ || s@ == "full"@,
    }
}

impl DebugInfo {
    /// Structural equality of two settings.
    pub open spec fn spec_eq(self, other: DebugInfo) -> bool {
        match (self, other) {
            (DebugInfo::N(a), DebugInfo::N(b)) => a == b,
            (DebugInfo::B(a), DebugInfo::B(b)) => a == b,
            (DebugInfo::S(a), DebugInfo::S(b)) => a@ == b@,
            _ => false,
        }
    }

    /// The setting, rendered as the build tool wrote it: the number, the
    /// boolean, or the bare string.
    pub fn display(&self) -> (r: String)
        ensures
            r@ == self.spec_display(),
    {
        proof {
            reveal_strlit("true");
            reveal_strlit("false");
        }
        match self {
            DebugInfo::N(n) => fmt_u64(*n),
            DebugInfo::B(b) => {
                if *b {
                    String::from_str("true")
                } else {
                    String::from_str("false")
                }
            },
            DebugInfo::S(s) => s.clone(),
        }
    }

    /// What `display` renders.
    pub open spec fn spec_display(self) -> Seq<char> {
        match self {
            DebugInfo::N(n) => dec_repr(n as nat),
            DebugInfo::B(b) => if b {
                "true"@
            } else {
                "false"@
            },
            DebugInfo::S(s) => s@,
        }
    }
}

impl Clone for DebugInfo {
    fn clone(&self) -> (r: DebugInfo)
        ensures
            r == *self,
    {
        match self {
            DebugInfo::N(n) => DebugInfo::N(*n),
            DebugInfo::B(b) => DebugInfo::B(*b),
            DebugInfo::S(s) => DebugInfo::S(s.clone()),
        }
    }
}

impl PartialEq for DebugInfo {
    fn eq(&self, other: &DebugInfo) -> (r: bool) {
        match (self, other) {
            (DebugInfo::N(a), DebugInfo::N(b)) => a == b,
            (DebugInfo::B(a), DebugInfo::B(b)) => a == b,
            (DebugInfo::S(a), DebugInfo::S(b)) => str_eq(a.as_str(), b.as_str()),
            _ => false,
        }
    }
}

impl vstd::std_specs::cmp::PartialEqSpecImpl for DebugInfo {
    open spec fn obeys_eq_spec() -> bool {
        true
    }

    open spec fn eq_spec(&self, other: &DebugInfo) -> bool {
        self.spec_eq(*other)
    }
}

/// Classifies a debug-info setting: `Some(true)` when it suffices for
/// debugging, `Some(false)` when it does not, and `None` exactly on the
/// values this tool does not recognize — an unrecognized value never yields
/// a boolean verdict.
pub fn classify(d: &DebugInfo) -> (r: Option<bool>)
    ensures
        r == (if recognized(*d) {
            Some(sufficient(*d))
        } else {
            None::<bool>
        }),
{
    match d {
        DebugInfo::N(n) => {
            if *n == 0 {
                Some(false)
            } else if *n == 1 || *n == 2 {
                Some(true)
            } else {
                None
            }
        },
        DebugInfo::B(b) => Some(*b),
        DebugInfo::S(s) => {
            proof {
                reveal_strlit("none");
                reveal_strlit("line-directives-only");
                reveal_strlit("line-tables-only");
                reveal_strlit("limited");
                reveal_strlit("full");
                assert(("none"@).len() == 4 && ("limited"@).len() == 7 && ("full"@).len() == 4);
                assert(("line-directives-only"@).len() == 20 && ("line-tables-only"@).len() == 16);
                assert(("none"@)[0] != ("full"@)[0]);
                assert("none"@ != "full"@);
            }
            let t = s.as_str();
            if str_eq(t, "none") || str_eq(t, "line-directives-only") || str_eq(
                t,
                "line-tables-only",
            ) {
                Some(false)
            } else if str_eq(t, "limited") || str_eq(t, "full") {
                Some(true)
            } else {
                None
            }
        },
    }
}

/// The per-artifact build profile, as far as this tool reads it.
#[derive(Debug)]
pub struct Profile {
    pub debuginfo: DebugInfo,
}

impl Profile {
    /// The verdict for a recognized setting; callers establish recognition
    /// first (through `classify`, or by how the value was built).
    pub fn has_enough_debug_info(&self) -> (r: bool)
        requires
            recognized(self.debuginfo),
        ensures
            r == sufficient(self.debuginfo),
    {
        match classify(&self.debuginfo) {
            Some(b) => b,
            None => vstd::pervasive::unreached(),
        }
    }

    /// Structural equality of two profiles.
    pub open spec fn spec_eq(self, other: Profile) -> bool {
        self.debuginfo.spec_eq(other.debuginfo)
    }
}

impl PartialEq for Profile {
    fn eq(&self, other: &Profile) -> (r: bool) {
        self.debuginfo == other.debuginfo
    }
}

impl vstd::std_specs::cmp::PartialEqSpecImpl for Profile {
    open spec fn obeys_eq_spec() -> bool {
        true
    }

    open spec fn eq_spec(&self, other: &Profile) -> bool {
        self.spec_eq(*other)
    }
}

} // verus!
