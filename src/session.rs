use vstd::prelude::*;
use crate::initdata::{InitDataError, ParsedInitData};

verus! {

/// Where the seed service stands.
#[derive(Clone, Copy, Debug, PartialEq, Eq, Structural)]
pub enum SeedPhase {
    /// Waiting for the launch configuration to be read and checked.
    AwaitConfig,
    /// Waiting for backend detection.
    AwaitProvider,
    /// Waiting for the backend to return the input keying material.
    AwaitIkm,
    /// The seed was derived and handed to the transport.
    Serving,
    /// The service stopped on an error.
    Stopped,
}

/// What the previous command produced.
#[derive(Clone, Copy, Debug, PartialEq, Eq, Structural)]
pub enum SeedEvent {
    ConfigAccepted,
    ConfigRefused,
    ProviderFound,
    NoProvider,
    IkmRead,
    IkmFailed,
}

/// Why the service stopped.
#[derive(Clone, Copy, Debug, PartialEq, Eq, Structural)]
pub enum SeedFailure {
    Config,
    NoProvider,
    Ikm,
}

/// What the caller does next.
#[derive(Clone, Copy, Debug, PartialEq, Eq, Structural)]
pub enum SeedCommand {
    DetectProvider,
    ReadIkm,
    DeriveAndServe,
    Stop(SeedFailure),
    Nothing,
}

/// The service's decisions: the configuration is checked first, then the
/// backend is detected, then the keying material is read; any failure stops
/// the service, and an event that does not belong to the phase stops it too.
pub open spec fn seed_transition(phase: SeedPhase, event: SeedEvent) -> (SeedPhase, SeedCommand) {
    match (phase, event) {
        (SeedPhase::AwaitConfig, SeedEvent::ConfigAccepted) => (SeedPhase::AwaitProvider, SeedCommand::DetectProvider),
        (SeedPhase::AwaitConfig, _) => (SeedPhase::Stopped, SeedCommand::Stop(SeedFailure::Config)),
        (SeedPhase::AwaitProvider, SeedEvent::ProviderFound) => (SeedPhase::AwaitIkm, SeedCommand::ReadIkm),
        (SeedPhase::AwaitProvider, _) => (SeedPhase::Stopped, SeedCommand::Stop(SeedFailure::NoProvider)),
        (SeedPhase::AwaitIkm, SeedEvent::IkmRead) => (SeedPhase::Serving, SeedCommand::DeriveAndServe),
        (SeedPhase::AwaitIkm, _) => (SeedPhase::Stopped, SeedCommand::Stop(SeedFailure::Ikm)),
        (p, _) => (p, SeedCommand::Nothing),
    }
}

/// The commands issued from `phase` on when the events are `events`.
pub open spec fn seed_run(phase: SeedPhase, events: Seq<SeedEvent>) -> Seq<SeedCommand>
    decreases events.len(),
{
    if events.len() == 0 {
        Seq::empty()
    } else {
        let (next, command) = seed_transition(phase, events[0]);
        seq![command] + seed_run(next, events.drop_first())
    }
}

/// A command that reaches a backend or produces a seed.
pub open spec fn touches_keying_material(c: SeedCommand) -> bool {
    c == SeedCommand::DetectProvider || c == SeedCommand::ReadIkm || c == SeedCommand::DeriveAndServe
}

/// The next phase and command after `event`.
pub fn seed_step(phase: SeedPhase, event: SeedEvent) -> (r: (SeedPhase, SeedCommand))
    ensures
        r == seed_transition(phase, event),
{
    match (phase, event) {
        (SeedPhase::AwaitConfig, SeedEvent::ConfigAccepted) => (SeedPhase::AwaitProvider, SeedCommand::DetectProvider),
        (SeedPhase::AwaitConfig, _) => (SeedPhase::Stopped, SeedCommand::Stop(SeedFailure::Config)),
        (SeedPhase::AwaitProvider, SeedEvent::ProviderFound) => (SeedPhase::AwaitIkm, SeedCommand::ReadIkm),
        (SeedPhase::AwaitProvider, _) => (SeedPhase::Stopped, SeedCommand::Stop(SeedFailure::NoProvider)),
        (SeedPhase::AwaitIkm, SeedEvent::IkmRead) => (SeedPhase::Serving, SeedCommand::DeriveAndServe),
        (SeedPhase::AwaitIkm, _) => (SeedPhase::Stopped, SeedCommand::Stop(SeedFailure::Ikm)),
        (p, _) => (p, SeedCommand::Nothing),
    }
}

/// The event that a checked launch configuration gives the service.
pub fn config_event(config: &Result<ParsedInitData, InitDataError>) -> (e: SeedEvent)
    ensures
        e == (if config is Ok { SeedEvent::ConfigAccepted } else { SeedEvent::ConfigRefused }),
{
    match config {
        Ok(_) => SeedEvent::ConfigAccepted,
        Err(_) => SeedEvent::ConfigRefused,
    }
}

proof fn lemma_stopped_run_is_inert(events: Seq<SeedEvent>)
    ensures
        forall|i: int| 0 <= i < seed_run(SeedPhase::Stopped, events).len()
            ==> #[trigger] seed_run(SeedPhase::Stopped, events)[i] == SeedCommand::Nothing,
    decreases events.len(),
{
    if events.len() > 0 {
        lemma_stopped_run_is_inert(events.drop_first());
    }
}

/// The security gate holds over the whole service: once the launch
/// configuration is refused, the service stops with a configuration error and
/// never detects a backend, reads keying material or derives a seed, whatever
/// events follow.
pub proof fn lemma_refused_config_never_reaches_tpm(events: Seq<SeedEvent>)
    requires
        events.len() > 0,
        events[0] == SeedEvent::ConfigRefused,
    ensures
        seed_run(SeedPhase::AwaitConfig, events)[0] == SeedCommand::Stop(SeedFailure::Config),
        forall|i: int| 0 <= i < seed_run(SeedPhase::AwaitConfig, events).len()
            ==> !touches_keying_material(#[trigger] seed_run(SeedPhase::AwaitConfig, events)[i]),
{
    let rest = seed_run(SeedPhase::Stopped, events.drop_first());
    lemma_stopped_run_is_inert(events.drop_first());
    let run = seed_run(SeedPhase::AwaitConfig, events);
    assert(run == seq![SeedCommand::Stop(SeedFailure::Config)] + rest);
    assert forall|i: int| 0 <= i < run.len() implies !touches_keying_material(#[trigger] run[i]) by {
        if i >= 1 {
            assert(run[i] == rest[i - 1]);
        }
    }
}

} // verus!
