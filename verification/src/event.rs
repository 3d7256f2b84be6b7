//! One decoded event of the build tool's structured output stream.

use vstd::prelude::*;
use crate::debug_info::Profile;
use crate::text::str_eq;

verus! {

/// A build event, decoded from one line of structured output.  Lines whose
/// discriminator this tool does not know decode to `Unrecognized`, so a newer
/// build tool emitting new event kinds never breaks this tool.
#[derive(Debug)]
pub enum BuildEvent {
    /// A build step produced an artifact; `executable` is present only for
    /// executable artifacts.
    ArtifactProduced { profile: Profile, executable: Option<String> },
    /// The build tool reported the end of the build.
    BuildFinished { success: bool },
    /// An event kind this tool does not know; tolerated and ignored.
    Unrecognized,
}

impl BuildEvent {
    /// Structural equality of two events.
    pub open spec fn spec_eq(self, other: BuildEvent) -> bool {
        match (self, other) {
            (
                BuildEvent::ArtifactProduced { profile: p1, executable: e1 },
                BuildEvent::ArtifactProduced { profile: p2, executable: e2 },
            ) => p1.spec_eq(p2) && match (e1, e2) {
                (Some(a), Some(b)) => a@ == b@,
                (None, None) => true,
                _ => false,
            },
            (
                BuildEvent::BuildFinished { success: s1 },
                BuildEvent::BuildFinished { success: s2 },
            ) => s1 == s2,
            (BuildEvent::Unrecognized, BuildEvent::Unrecognized) => true,
            _ => false,
        }
    }
}

impl PartialEq for BuildEvent {
    fn eq(&self, other: &BuildEvent) -> (r: bool) {
        match (self, other) {
            (
                BuildEvent::ArtifactProduced { profile: p1, executable: e1 },
                BuildEvent::ArtifactProduced { profile: p2, executable: e2 },
            ) => p1 == p2 && match (e1, e2) {
                (Some(a), Some(b)) => str_eq(a.as_str(), b.as_str()),
                (None, None) => true,
                _ => false,
            },
            (
                BuildEvent::BuildFinished { success: s1 },
                BuildEvent::BuildFinished { success: s2 },
            ) => s1 == s2,
            (BuildEvent::Unrecognized, BuildEvent::Unrecognized) => true,
            _ => false,
        }
    }
}

impl vstd::std_specs::cmp::PartialEqSpecImpl for BuildEvent {
    open spec fn obeys_eq_spec() -> bool {
        true
    }

    open spec fn eq_spec(&self, other: &BuildEvent) -> bool {
        self.spec_eq(*other)
    }
}

} // verus!
