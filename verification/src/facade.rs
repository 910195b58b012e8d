//! The one-shot installation protocol of the facade's global sink slot.
//!
//! The facade owns one process-wide registration slot and one maximum-level
//! filter. `install_with_level` claims the slot at most once: the very first
//! call constructs the sink and sets the filter, every later call is a no-op
//! that returns without error, and a slot already claimed by an unrelated
//! sink is an unrecoverable configuration conflict. The embedding program
//! holds the real process-global state behind a one-shot gate and performs
//! exactly this transition inside it.

use vstd::prelude::*;

use crate::severity::Severity;
use crate::sink::{LogError, LogSink};

verus! {

/// The state of the facade's global registration slot.
#[derive(Clone, Copy, PartialEq, Eq, Structural, Debug)]
pub enum SinkSlot {
    /// No sink has been registered yet.
    Vacant,
    /// This crate's sink is registered; it is never replaced.
    Installed(LogSink),
    /// An unrelated component registered its own sink first.
    ClaimedElsewhere,
}

/// The facade's process-global state: the registration slot and the global
/// maximum-level filter (`None` means everything is filtered out, the state
/// before any installation).
#[derive(Clone, Copy, PartialEq, Eq, Debug)]
pub struct FacadeState {
    /// Who holds the global sink registration.
    pub slot: SinkSlot,
    /// The facade-wide maximum-level filter.
    pub max_filter: Option<Severity>,
}

impl FacadeState {
    /// The facade as a process starts: no sink, everything filtered out.
    pub fn new() -> (f: FacadeState)
        ensures
            f.slot is Vacant,
            f.max_filter is None,
    {
        FacadeState { slot: SinkSlot::Vacant, max_filter: None }
    }
}

/// How one installation attempt at `level` changes the facade: a vacant slot
/// is claimed with a sink at `level` and the filter is set to `level`;
/// any other state is left exactly as it is.
pub open spec fn install_transition(f: FacadeState, level: Severity) -> FacadeState {
    if f.slot is Vacant {
        FacadeState {
            slot: SinkSlot::Installed(LogSink { minimum_level: level }),
            max_filter: Some(level),
        }
    } else {
        f
    }
}

/// What one installation attempt at `level` reports: only a slot already
/// claimed by an unrelated sink is an error; claiming the slot and finding
/// our own sink already installed both succeed.
pub open spec fn install_result(f: FacadeState) -> Result<(), LogError> {
    if f.slot is ClaimedElsewhere {
        Err(LogError::SinkAlreadyRegisteredByOther)
    } else {
        Ok(())
    }
}

/// Install a sink that suppresses records less severe than `level`, and set
/// the facade's filter to `level` — but only if no sink is registered yet.
/// Calling it again, at any level, changes nothing and succeeds; a slot
/// claimed by an unrelated sink is reported as unrecoverable.
pub fn install_with_level(facade: &mut FacadeState, level: Severity) -> (r: Result<(), LogError>)
    ensures
        *final(facade) == install_transition(*old(facade), level),
        r == install_result(*old(facade)),
        old(facade).slot is Vacant ==> final(facade).slot == SinkSlot::Installed(
            LogSink { minimum_level: level },
        ) && final(facade).max_filter == Some(level),
        !(old(facade).slot is Vacant) ==> *final(facade) == *old(facade),
        r is Err <==> old(facade).slot is ClaimedElsewhere,
{
    match facade.slot {
        SinkSlot::Vacant => {
            let sink = LogSink::new(level);
            facade.slot = SinkSlot::Installed(sink);
            facade.max_filter = Some(level);
            Ok(())
        },
        SinkSlot::Installed(_) => Ok(()),
        SinkSlot::ClaimedElsewhere => Err(LogError::SinkAlreadyRegisteredByOther),
    }
}

/// Install a sink with no severity restriction: the same as
/// `install_with_level` at `Trace`, so everything from `Trace` upward is
/// forwarded.
pub fn install(facade: &mut FacadeState) -> (r: Result<(), LogError>)
    ensures
        *final(facade) == install_transition(*old(facade), Severity::Trace),
        r == install_result(*old(facade)),
{
    install_with_level(facade, Severity::Trace)
}

/// Installation is one-shot: once any installation attempt has run, every
/// later attempt, at any level, leaves the facade exactly as it was — only
/// one sink is ever constructed and registered.
pub proof fn lemma_install_one_shot(f: FacadeState, first: Severity, second: Severity)
    ensures
        install_transition(install_transition(f, first), second) == install_transition(f, first),
{
}

/// The first installation wins: starting from a vacant facade, after an
/// attempt at `first` and then one at `second`, the registered sink and the
/// filter still carry `first`, whatever `second` was.
pub proof fn lemma_first_level_wins(f: FacadeState, first: Severity, second: Severity)
    requires
        f.slot is Vacant,
    ensures
        install_transition(install_transition(f, first), second).slot == SinkSlot::Installed(
            LogSink { minimum_level: first },
        ),
        install_transition(install_transition(f, first), second).max_filter == Some(first),
{
}

} // verus!
