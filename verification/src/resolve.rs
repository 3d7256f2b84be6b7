//! The artifact resolution state machine: consumes the ordered event stream
//! of one build invocation, accumulates the build status, and determines the
//! single resulting executable path — or fails with a diagnosable error.

use vstd::prelude::*;
use crate::debug_info::{recognized, sufficient, DebugInfo};
use crate::event::BuildEvent;

verus! {

/// Where the stream stands: still building, finished successfully, or the
/// build tool itself reported failure.
#[derive(Debug, PartialEq, Eq, Structural, Clone, Copy)]
pub enum Status {
    Building,
    Finished,
    Failed,
}

/// Why resolution failed; each variant carries what the user needs to fix
/// the build configuration.
#[derive(Debug)]
pub enum ResolveError {
    /// An executable artifact was compiled with too little debug information
    /// for a debugger; carries the setting observed.
    InsufficientDebugInfo(DebugInfo),
    /// The build tool reported a debug-info value this tool does not
    /// recognize: an invariant violation, unrecoverable.
    InvalidDebugInfo(DebugInfo),
    /// The build produced more than one executable; which one to debug is
    /// ambiguous.
    MultipleExecutables,
    /// The build finished without producing any executable artifact.
    NoArtifact,
    /// The stream ended while the build was still running: no finish event
    /// was seen.
    MalformedStream,
}

/// What a fully consumed stream resolves to: the one executable path, or
/// "the build failed — replay it visibly so the user sees why".
#[derive(Debug)]
pub enum Resolution {
    Resolved(String),
    BuildFailed,
}

/// The accumulator for one build invocation.  At most one executable is ever
/// recorded; a second one is a hard error, not a silent overwrite.
#[derive(Debug)]
pub struct ResolutionState {
    pub status: Status,
    pub resolved: Option<String>,
}

/// The state a fresh invocation starts in.
pub open spec fn spec_init() -> ResolutionState {
    ResolutionState { status: Status::Building, resolved: None }
}

/// One transition of the state machine.  An artifact without an executable
/// path is ignored whatever its profile says (dependencies are compiled under
/// their own profiles); an executable artifact must carry a recognized,
/// sufficient debug-info setting and must be the first one recorded; a finish
/// event ends the building phase one way or the other.
pub open spec fn spec_step(st: ResolutionState, ev: BuildEvent) -> Result<
    ResolutionState,
    ResolveError,
> {
    match ev {
        BuildEvent::Unrecognized => Ok(st),
        BuildEvent::ArtifactProduced { profile, executable } => match executable {
            None => Ok(st),
            Some(path) => if !recognized(profile.debuginfo) {
                Err(ResolveError::InvalidDebugInfo(profile.debuginfo))
            } else if !sufficient(profile.debuginfo) {
                Err(ResolveError::InsufficientDebugInfo(profile.debuginfo))
            } else if st.resolved is Some {
                Err(ResolveError::MultipleExecutables)
            } else {
                Ok(ResolutionState { status: st.status, resolved: Some(path) })
            },
        },
        BuildEvent::BuildFinished { success } => Ok(
            ResolutionState {
                status: if success {
                    Status::Finished
                } else {
                    Status::Failed
                },
                resolved: st.resolved,
            },
        ),
    }
}

/// What a stream whose consumption has ended resolves to: a reported failure
/// trumps everything; ending while still building means the stream was cut
/// short; a finished build must have recorded exactly one executable.
pub open spec fn spec_outcome(st: ResolutionState) -> Result<Resolution, ResolveError> {
    match st.status {
        Status::Failed => Ok(Resolution::BuildFailed),
        Status::Building => Err(ResolveError::MalformedStream),
        Status::Finished => match st.resolved {
            Some(path) => Ok(Resolution::Resolved(path)),
            None => Err(ResolveError::NoArtifact),
        },
    }
}

/// What a whole stream resolves to, consuming events in order from `i` on,
/// stopping at the first terminal state or error.
pub open spec fn spec_resolve_from(st: ResolutionState, evs: Seq<BuildEvent>, i: int) -> Result<
    Resolution,
    ResolveError,
>
    decreases evs.len() - i,
{
    if st.status != Status::Building {
        spec_outcome(st)
    } else if i < 0 || i >= evs.len() {
        spec_outcome(st)
    } else {
        match spec_step(st, evs[i]) {
            Ok(st2) => spec_resolve_from(st2, evs, i + 1),
            Err(e) => Err(e),
        }
    }
}

/// What an ordered event stream resolves to, from the initial state.
pub open spec fn spec_resolve(evs: Seq<BuildEvent>) -> Result<Resolution, ResolveError> {
    spec_resolve_from(spec_init(), evs, 0)
}

impl ResolutionState {
    /// A fresh accumulator: building, nothing recorded.
    pub fn new() -> (r: ResolutionState)
        ensures
            r == spec_init(),
    {
        ResolutionState { status: Status::Building, resolved: None }
    }

    /// Feeds one event.  On an error the state is unchanged and consumption
    /// must stop; otherwise the state advances as `spec_step` says.
    pub fn step(&mut self, ev: &BuildEvent) -> (r: Result<(), ResolveError>)
        requires
            old(self).status is Building,
        ensures
            spec_step(*old(self), *ev) matches Ok(st2) ==> (r is Ok && *final(self) == st2),
            spec_step(*old(self), *ev) matches Err(e) ==> (r == Err::<(), ResolveError>(e)
                && *final(self) == *old(self)),
    {
        match ev {
            BuildEvent::Unrecognized => Ok(()),
            BuildEvent::ArtifactProduced { profile, executable } => match executable {
                None => Ok(()),
                Some(path) => {
                    match crate::debug_info::classify(&profile.debuginfo) {
                        None => Err(ResolveError::InvalidDebugInfo(profile.debuginfo.clone())),
                        Some(false) => Err(
                            ResolveError::InsufficientDebugInfo(profile.debuginfo.clone()),
                        ),
                        Some(true) => {
                            if self.resolved.is_some() {
                                Err(ResolveError::MultipleExecutables)
                            } else {
                                self.resolved = Some(path.clone());
                                Ok(())
                            }
                        },
                    }
                },
            },
            BuildEvent::BuildFinished { success } => {
                self.status = if *success {
                    Status::Finished
                } else {
                    Status::Failed
                };
                Ok(())
            },
        }
    }

    /// The resolution once consumption has ended (the stream is exhausted or
    /// a terminal state was reached).
    pub fn outcome(&self) -> (r: Result<Resolution, ResolveError>)
        ensures
            r == spec_outcome(*self),
    {
        match self.status {
            Status::Failed => Ok(Resolution::BuildFailed),
            Status::Building => Err(ResolveError::MalformedStream),
            Status::Finished => match &self.resolved {
                Some(path) => Ok(Resolution::Resolved(path.clone())),
                None => Err(ResolveError::NoArtifact),
            },
        }
    }
}

/// A recorded executable is never silently overwritten: any transition that
/// succeeds leaves an already-recorded path exactly as it was — a second
/// executable is a hard error instead.
pub proof fn lemma_no_silent_overwrite(st: ResolutionState, ev: BuildEvent)
    requires
        st.resolved is Some,
        spec_step(st, ev) is Ok,
    ensures
        spec_step(st, ev)->Ok_0.resolved == st.resolved,
{
}

/// An error is final: once a transition fails, the whole stream resolves to
/// that error, whatever events follow.
pub proof fn lemma_error_is_final(st: ResolutionState, evs: Seq<BuildEvent>, i: int)
    requires
        st.status is Building,
        0 <= i < evs.len(),
        spec_step(st, evs[i]) is Err,
    ensures
        spec_resolve_from(st, evs, i) == Err::<Resolution, ResolveError>(
            spec_step(st, evs[i])->Err_0,
        ),
{
}

/// Resolves a whole ordered event stream: events are consumed in order until
/// a terminal state or the first error; later events cannot undo an error.
pub fn resolve_events(events: &Vec<BuildEvent>) -> (r: Result<Resolution, ResolveError>)
    ensures
        r == spec_resolve(events@),
{
    let mut st = ResolutionState::new();
    let mut i: usize = 0;
    while i < events.len()
        invariant
            i <= events.len(),
            st.status is Building,
            spec_resolve(events@) == spec_resolve_from(st, events@, i as int),
        decreases events.len() - i,
    {
        let ghost pre = st;
        match st.step(&events[i]) {
            Ok(()) => {},
            Err(e) => {
                proof {
                    assert(spec_resolve_from(pre, events@, i as int) == Err::<
                        Resolution,
                        ResolveError,
                    >(e));
                }
                return Err(e);
            },
        }
        i += 1;
        if !matches!(st.status, Status::Building) {
            proof {
                assert(spec_resolve_from(st, events@, i as int) == spec_outcome(st));
            }
            return st.outcome();
        }
    }
    st.outcome()
}

} // verus!
