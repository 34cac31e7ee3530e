//! The link-stage state machine.
//!
//! The mechanism runs exactly once per build, entirely before any binary
//! exists. The sentinel symbol starts out referenced by the divergent hook in
//! a compiled-but-unlinked object. The optimizer either proves every call to
//! the hook unreachable — eliminating the reference — or leaves it for the
//! linker, which finds no definition and aborts with the embedded diagnostic.

use crate::diagnostic::contains_seq;
use crate::diagnostic::lemma_diagnostic_contains_payload;
use crate::diagnostic::payload;
use crate::diagnostic::sentinel_link_name;
use crate::diagnostic::sentinel_message;
use vstd::prelude::*;

verus! {

/// Build-time state of the sentinel symbol reference.
#[derive(Clone, Copy, Debug, PartialEq, Eq, Structural)]
pub enum SentinelState {
    /// The symbol is referenced in a compiled-but-unlinked object.
    Unresolved,
    /// The optimizer removed every reference before the link step.
    Eliminated,
    /// The linker attempted resolution, found no definition, and aborted.
    LinkFailure,
}

/// What the optimizer does to the initially unresolved reference: when no
/// reachable panic-triggering path survives, dead-code elimination removes
/// the hook's body and with it the only call to the sentinel.
pub open spec fn state_after_optimizer(panic_path_survives: bool) -> SentinelState {
    if panic_path_survives {
        SentinelState::Unresolved
    } else {
        SentinelState::Eliminated
    }
}

/// What the linker does next, given that nothing defines the sentinel: an
/// eliminated reference needs no resolution, while an unresolved one cannot
/// be resolved and aborts the link. Terminal states have no transition.
pub open spec fn state_after_linker(s: SentinelState) -> SentinelState {
    match s {
        SentinelState::Unresolved => SentinelState::LinkFailure,
        SentinelState::Eliminated => SentinelState::Eliminated,
        SentinelState::LinkFailure => SentinelState::LinkFailure,
    }
}

/// The terminal state of one build in which nothing defines the sentinel.
pub open spec fn terminal_state(panic_path_survives: bool) -> SentinelState {
    state_after_linker(state_after_optimizer(panic_path_survives))
}

/// The facts about one link closure that decide a build.
pub struct LinkClosure {
    /// True when at least one reachable panic-triggering path survives
    /// target optimization.
    pub panic_path_survives: bool,
    /// True when some object in the link closure defines the sentinel
    /// symbol. Leaving the sentinel undefined everywhere is an invariant of
    /// the mechanism; a definition is a build hazard this component cannot
    /// detect.
    pub sentinel_defined: bool,
    /// True when the target belongs to the Unix family.
    pub unix_family: bool,
}

/// The terminal result of one build.
#[derive(Debug)]
pub enum BuildOutcome {
    /// The link step completed and produced a runnable binary.
    Runnable,
    /// The linker aborted on the unresolved sentinel, printing its link
    /// name — the diagnostic — inside its own undefined-symbol error.
    FailedLink { diagnostic: String },
}

/// Decides one build: whether the sentinel reference survives to the link
/// step, and what the linker then does with it.
///
/// The last clause is the hazard inherent to the mechanism: a definition of
/// the sentinel anywhere in the link closure lets the linker resolve the
/// surviving reference, so the build silently succeeds with panic paths
/// still present.
pub fn link(c: &LinkClosure) -> (o: BuildOutcome)
    ensures
        !c.panic_path_survives ==> o is Runnable,
        c.panic_path_survives && !c.sentinel_defined ==> o is FailedLink,
        o matches BuildOutcome::FailedLink { diagnostic } ==> diagnostic@ == sentinel_message(
            c.unix_family,
        ),
        !c.sentinel_defined ==> ((o is Runnable) <==> terminal_state(c.panic_path_survives)
            == SentinelState::Eliminated),
        c.panic_path_survives && c.sentinel_defined ==> o is Runnable,
{
    if c.panic_path_survives && !c.sentinel_defined {
        let name = sentinel_link_name(c.unix_family);
        BuildOutcome::FailedLink { diagnostic: name.to_owned() }
    } else {
        BuildOutcome::Runnable
    }
}

/// Soundness: when no reachable panic path survives optimization, the
/// sentinel never reaches the link step unresolved and the build ends in the
/// implicit success state.
pub proof fn lemma_soundness()
    ensures
        state_after_optimizer(false) != SentinelState::Unresolved,
        terminal_state(false) == SentinelState::Eliminated,
{
}

/// Completeness: when a panic path survives optimization and nothing defines
/// the sentinel, the build ends in link failure, and on either platform
/// family the emitted diagnostic carries the payload verbatim.
pub proof fn lemma_completeness(unix_family: bool)
    ensures
        terminal_state(true) == SentinelState::LinkFailure,
        contains_seq(sentinel_message(unix_family), payload()),
{
    lemma_diagnostic_contains_payload(unix_family);
}

/// The two terminal states admit no further transition: the mechanism runs
/// exactly once per build.
pub proof fn lemma_terminal_states_fixed()
    ensures
        state_after_linker(SentinelState::Eliminated) == SentinelState::Eliminated,
        state_after_linker(SentinelState::LinkFailure) == SentinelState::LinkFailure,
{
}

} // verus!
