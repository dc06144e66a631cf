use vstd::prelude::*;
use crate::templates::{ak_rsa_template, ak_template, ek_rsa_template, ek_template, RsaTemplate};

verus! {

/// The persistent handle at which the attestation key lives, shared by the
/// provisioning path and by every consumer of the key.
pub const AK_HANDLE: u32 = 0x81010002;

/// The TPM command that provisioning is waiting on.
#[derive(Clone, Copy, Debug, PartialEq, Eq, Structural)]
pub enum ProvisionStep {
    /// Resolving an object at `AK_HANDLE` with a null-auth session.
    Probe,
    /// Creating the transient endorsement key.
    CreateEk,
    /// Creating the attestation key pair under the endorsement key.
    CreateAk,
    /// Loading the attestation key into a transient slot.
    LoadAk,
    /// Evicting the loaded attestation key to `AK_HANDLE` under Owner auth.
    PersistAk,
    /// Flushing the transient endorsement key.
    FlushEk,
    /// Flushing the transient endorsement key after the given stage failed.
    Unwind(CreationStage),
    /// Provisioning ended successfully.
    Finished,
    /// Provisioning stopped on a failed TPM command.
    Aborted,
}

/// A stage of key creation at which provisioning can fail.
#[derive(Clone, Copy, Debug, PartialEq, Eq, Structural)]
pub enum CreationStage {
    CreateEk,
    CreateAk,
    LoadAk,
    PersistAk,
    FlushEk,
}

/// What the TPM answered to the command of the current step.
#[derive(Clone, Copy, Debug, PartialEq, Eq, Structural)]
pub enum StepOutcome {
    Succeeded,
    Failed,
}

/// The next thing for the caller to do against the TPM, or the result.
#[derive(Clone, Copy, Debug, PartialEq, Eq, Structural)]
pub enum ProvisionAction {
    ProbeHandle(u32),
    CreatePrimaryEk(RsaTemplate),
    CreateAk(RsaTemplate),
    LoadAk,
    EvictToPersistent(u32),
    FlushEk,
    /// Provisioning succeeded; `created` tells whether a new key was made.
    ReportSuccess { created: bool },
    /// Provisioning failed at the given stage; nothing more is to be done.
    ReportFailure(CreationStage),
    /// The run is over; nothing is to be done.
    Idle,
}

/// The first step and command of every provisioning run.
pub open spec fn initial() -> (ProvisionStep, ProvisionAction) {
    (ProvisionStep::Probe, ProvisionAction::ProbeHandle(AK_HANDLE as u32))
}

/// How provisioning proceeds when the command of `step` ends with `outcome`.
/// A probe that resolves ends the run with nothing created; a probe that
/// fails starts creation; a failure during creation aborts the run, and once
/// the endorsement key exists it is flushed before the failure is reported
/// (the failure reported is the first one, whatever the flush answers).
pub open spec fn transition(step: ProvisionStep, outcome: StepOutcome) -> (ProvisionStep, ProvisionAction) {
    match (step, outcome) {
        (ProvisionStep::Probe, StepOutcome::Succeeded) =>
            (ProvisionStep::Finished, ProvisionAction::ReportSuccess { created: false }),
        (ProvisionStep::Probe, StepOutcome::Failed) =>
            (ProvisionStep::CreateEk, ProvisionAction::CreatePrimaryEk(ek_template())),
        (ProvisionStep::CreateEk, StepOutcome::Succeeded) =>
            (ProvisionStep::CreateAk, ProvisionAction::CreateAk(ak_template())),
        (ProvisionStep::CreateAk, StepOutcome::Succeeded) =>
            (ProvisionStep::LoadAk, ProvisionAction::LoadAk),
        (ProvisionStep::LoadAk, StepOutcome::Succeeded) =>
            (ProvisionStep::PersistAk, ProvisionAction::EvictToPersistent(AK_HANDLE as u32)),
        (ProvisionStep::PersistAk, StepOutcome::Succeeded) =>
            (ProvisionStep::FlushEk, ProvisionAction::FlushEk),
        (ProvisionStep::FlushEk, StepOutcome::Succeeded) =>
            (ProvisionStep::Finished, ProvisionAction::ReportSuccess { created: true }),
        (ProvisionStep::CreateEk, StepOutcome::Failed) =>
            (ProvisionStep::Aborted, ProvisionAction::ReportFailure(CreationStage::CreateEk)),
        (ProvisionStep::CreateAk, StepOutcome::Failed) =>
            (ProvisionStep::Unwind(CreationStage::CreateAk), ProvisionAction::FlushEk),
        (ProvisionStep::LoadAk, StepOutcome::Failed) =>
            (ProvisionStep::Unwind(CreationStage::LoadAk), ProvisionAction::FlushEk),
        (ProvisionStep::PersistAk, StepOutcome::Failed) =>
            (ProvisionStep::Unwind(CreationStage::PersistAk), ProvisionAction::FlushEk),
        (ProvisionStep::FlushEk, StepOutcome::Failed) =>
            (ProvisionStep::Aborted, ProvisionAction::ReportFailure(CreationStage::FlushEk)),
        (ProvisionStep::Unwind(stage), _) => (ProvisionStep::Aborted, ProvisionAction::ReportFailure(stage)),
        (ProvisionStep::Finished, _) => (ProvisionStep::Finished, ProvisionAction::Idle),
        (ProvisionStep::Aborted, _) => (ProvisionStep::Aborted, ProvisionAction::Idle),
    }
}

/// The actions issued from `step` on when the TPM answers with `outcomes`.
pub open spec fn run_from(step: ProvisionStep, outcomes: Seq<StepOutcome>) -> Seq<ProvisionAction>
    decreases outcomes.len(),
{
    if outcomes.len() == 0 {
        Seq::empty()
    } else {
        let (next, action) = transition(step, outcomes[0]);
        seq![action] + run_from(next, outcomes.drop_first())
    }
}

/// All actions of one provisioning run, from its first command on.
pub open spec fn provisioning_run(outcomes: Seq<StepOutcome>) -> Seq<ProvisionAction> {
    seq![initial().1] + run_from(initial().0, outcomes)
}

/// An action that creates, loads or persists a TPM object.
pub open spec fn creates_object(a: ProvisionAction) -> bool {
    match a {
        ProvisionAction::CreatePrimaryEk(_) | ProvisionAction::CreateAk(_)
        | ProvisionAction::LoadAk | ProvisionAction::EvictToPersistent(_) => true,
        _ => false,
    }
}

/// The step and command that start a provisioning run.
pub fn start_provisioning() -> (r: (ProvisionStep, ProvisionAction))
    ensures
        r == initial(),
{
    (ProvisionStep::Probe, ProvisionAction::ProbeHandle(AK_HANDLE))
}

/// The next step and action once the command of `step` ended with `outcome`.
pub fn next_step(step: ProvisionStep, outcome: StepOutcome) -> (r: (ProvisionStep, ProvisionAction))
    ensures
        r == transition(step, outcome),
{
    match (step, outcome) {
        (ProvisionStep::Probe, StepOutcome::Succeeded) =>
            (ProvisionStep::Finished, ProvisionAction::ReportSuccess { created: false }),
        (ProvisionStep::Probe, StepOutcome::Failed) =>
            (ProvisionStep::CreateEk, ProvisionAction::CreatePrimaryEk(ek_rsa_template())),
        (ProvisionStep::CreateEk, StepOutcome::Succeeded) =>
            (ProvisionStep::CreateAk, ProvisionAction::CreateAk(ak_rsa_template())),
        (ProvisionStep::CreateAk, StepOutcome::Succeeded) =>
            (ProvisionStep::LoadAk, ProvisionAction::LoadAk),
        (ProvisionStep::LoadAk, StepOutcome::Succeeded) =>
            (ProvisionStep::PersistAk, ProvisionAction::EvictToPersistent(AK_HANDLE)),
        (ProvisionStep::PersistAk, StepOutcome::Succeeded) =>
            (ProvisionStep::FlushEk, ProvisionAction::FlushEk),
        (ProvisionStep::FlushEk, StepOutcome::Succeeded) =>
            (ProvisionStep::Finished, ProvisionAction::ReportSuccess { created: true }),
        (ProvisionStep::CreateEk, StepOutcome::Failed) =>
            (ProvisionStep::Aborted, ProvisionAction::ReportFailure(CreationStage::CreateEk)),
        (ProvisionStep::CreateAk, StepOutcome::Failed) =>
            (ProvisionStep::Unwind(CreationStage::CreateAk), ProvisionAction::FlushEk),
        (ProvisionStep::LoadAk, StepOutcome::Failed) =>
            (ProvisionStep::Unwind(CreationStage::LoadAk), ProvisionAction::FlushEk),
        (ProvisionStep::PersistAk, StepOutcome::Failed) =>
            (ProvisionStep::Unwind(CreationStage::PersistAk), ProvisionAction::FlushEk),
        (ProvisionStep::FlushEk, StepOutcome::Failed) =>
            (ProvisionStep::Aborted, ProvisionAction::ReportFailure(CreationStage::FlushEk)),
        (ProvisionStep::Unwind(stage), _) => (ProvisionStep::Aborted, ProvisionAction::ReportFailure(stage)),
        (ProvisionStep::Finished, _) => (ProvisionStep::Finished, ProvisionAction::Idle),
        (ProvisionStep::Aborted, _) => (ProvisionStep::Aborted, ProvisionAction::Idle),
    }
}

proof fn lemma_finished_run_is_idle(outcomes: Seq<StepOutcome>)
    ensures
        forall|i: int| 0 <= i < run_from(ProvisionStep::Finished, outcomes).len()
            ==> #[trigger] run_from(ProvisionStep::Finished, outcomes)[i] == ProvisionAction::Idle,
    decreases outcomes.len(),
{
    if outcomes.len() > 0 {
        lemma_finished_run_is_idle(outcomes.drop_first());
    }
}

/// Provisioning is idempotent: in every run whose probe resolves an object at
/// the handle (as in every run once the key is persisted), no object is
/// created, loaded or persisted, and the run reports success. So two such runs
/// in a row both succeed and neither creates anything.
pub proof fn lemma_provisioning_idempotent(first: Seq<StepOutcome>, second: Seq<StepOutcome>)
    requires
        first.len() > 0 && first[0] == StepOutcome::Succeeded,
        second.len() > 0 && second[0] == StepOutcome::Succeeded,
    ensures
        provisioning_run(first)[1] == (ProvisionAction::ReportSuccess { created: false }),
        provisioning_run(second)[1] == (ProvisionAction::ReportSuccess { created: false }),
        forall|i: int| 0 <= i < provisioning_run(first).len()
            ==> !creates_object(#[trigger] provisioning_run(first)[i]),
        forall|i: int| 0 <= i < provisioning_run(second).len()
            ==> !creates_object(#[trigger] provisioning_run(second)[i]),
{
    lemma_probe_found_run(first);
    lemma_probe_found_run(second);
}

proof fn lemma_probe_found_run(outcomes: Seq<StepOutcome>)
    requires
        outcomes.len() > 0 && outcomes[0] == StepOutcome::Succeeded,
    ensures
        provisioning_run(outcomes)[1] == (ProvisionAction::ReportSuccess { created: false }),
        forall|i: int| 0 <= i < provisioning_run(outcomes).len()
            ==> !creates_object(#[trigger] provisioning_run(outcomes)[i]),
{
    let rest = run_from(ProvisionStep::Finished, outcomes.drop_first());
    lemma_finished_run_is_idle(outcomes.drop_first());
    let run = provisioning_run(outcomes);
    assert(run_from(ProvisionStep::Probe, outcomes)
        == seq![ProvisionAction::ReportSuccess { created: false }] + rest);
    assert(run == seq![ProvisionAction::ProbeHandle(AK_HANDLE as u32),
        ProvisionAction::ReportSuccess { created: false }] + rest);
    assert forall|i: int| 0 <= i < run.len() implies !creates_object(#[trigger] run[i]) by {
        if i >= 2 {
            assert(run[i] == rest[i - 2]);
        }
    }
}

proof fn lemma_persist_position(step: ProvisionStep, outcomes: Seq<StepOutcome>, j: int)
    requires
        0 <= j < run_from(step, outcomes).len(),
        run_from(step, outcomes)[j] is EvictToPersistent,
    ensures
        run_from(step, outcomes)[j] == ProvisionAction::EvictToPersistent(AK_HANDLE as u32),
        step == ProvisionStep::LoadAk && j == 0
        || step == ProvisionStep::CreateAk && j == 1
            && run_from(step, outcomes)[0] == ProvisionAction::LoadAk
        || step == ProvisionStep::CreateEk && j == 2
            && run_from(step, outcomes)[0] == ProvisionAction::CreateAk(ak_template())
            && run_from(step, outcomes)[1] == ProvisionAction::LoadAk
        || step == ProvisionStep::Probe && j == 3
            && run_from(step, outcomes)[0] == ProvisionAction::CreatePrimaryEk(ek_template())
            && run_from(step, outcomes)[1] == ProvisionAction::CreateAk(ak_template())
            && run_from(step, outcomes)[2] == ProvisionAction::LoadAk,
    decreases outcomes.len(),
{
    let (next, action) = transition(step, outcomes[0]);
    let rest = run_from(next, outcomes.drop_first());
    assert(run_from(step, outcomes) == seq![action] + rest);
    if j > 0 {
        assert(rest[j - 1] == run_from(step, outcomes)[j]);
        lemma_persist_position(next, outcomes.drop_first(), j - 1);
    }
}

/// Provisioning keeps its order: in every run, the attestation key is
/// persisted only as the fifth command, after a failed probe, the creation of
/// the endorsement key from its template, the creation of the attestation key
/// from its template and its loading, and it is persisted at `AK_HANDLE`.
pub proof fn lemma_persist_follows_creation(outcomes: Seq<StepOutcome>, i: int)
    requires
        0 <= i < provisioning_run(outcomes).len(),
        provisioning_run(outcomes)[i] is EvictToPersistent,
    ensures
        i == 4,
        provisioning_run(outcomes)[1] == ProvisionAction::CreatePrimaryEk(ek_template()),
        provisioning_run(outcomes)[2] == ProvisionAction::CreateAk(ak_template()),
        provisioning_run(outcomes)[3] == ProvisionAction::LoadAk,
        provisioning_run(outcomes)[4] == ProvisionAction::EvictToPersistent(AK_HANDLE as u32),
{
    let run = provisioning_run(outcomes);
    let rest = run_from(ProvisionStep::Probe, outcomes);
    assert(run == seq![ProvisionAction::ProbeHandle(AK_HANDLE as u32)] + rest);
    assert(rest[i - 1] == run[i]);
    lemma_persist_position(ProvisionStep::Probe, outcomes, i - 1);
    assert(run[1] == rest[0]);
    assert(run[2] == rest[1]);
    assert(run[3] == rest[2]);
}

/// A command that ends the run with its result.
pub open spec fn is_report(a: ProvisionAction) -> bool {
    a is ReportSuccess || a is ReportFailure
}

proof fn lemma_report_position(step: ProvisionStep, outcomes: Seq<StepOutcome>, j: int)
    requires
        0 <= j < run_from(step, outcomes).len(),
        is_report(run_from(step, outcomes)[j]),
    ensures
        step is FlushEk || step is Unwind ==> j == 0,
        step is CreateAk || step is LoadAk || step is PersistAk
            ==> j >= 1 && run_from(step, outcomes)[j - 1] == ProvisionAction::FlushEk,
        !(step is Finished || step is Aborted),
    decreases outcomes.len(),
{
    let (next, action) = transition(step, outcomes[0]);
    let rest = run_from(next, outcomes.drop_first());
    assert(run_from(step, outcomes) == seq![action] + rest);
    if j > 0 {
        assert(rest[j - 1] == run_from(step, outcomes)[j]);
        lemma_report_position(next, outcomes.drop_first(), j - 1);
        if j >= 2 {
            assert(rest[j - 2] == run_from(step, outcomes)[j - 1]);
        }
    }
}

/// The transient endorsement key does not outlive a run: in every run that
/// created it, the command just before the run's result, success or failure,
/// is the flush of the endorsement key.
pub proof fn lemma_ek_flushed_before_report(outcomes: Seq<StepOutcome>, i: int)
    requires
        outcomes.len() >= 2,
        outcomes[0] == StepOutcome::Failed,
        outcomes[1] == StepOutcome::Succeeded,
        0 <= i < provisioning_run(outcomes).len(),
        is_report(provisioning_run(outcomes)[i]),
    ensures
        i >= 4,
        provisioning_run(outcomes)[i - 1] == ProvisionAction::FlushEk,
{
    let run = provisioning_run(outcomes);
    let o1 = outcomes.drop_first();
    let o2 = o1.drop_first();
    let rest = run_from(ProvisionStep::CreateAk, o2);
    assert(run_from(ProvisionStep::CreateEk, o1) == seq![ProvisionAction::CreateAk(ak_template())] + rest);
    assert(run_from(ProvisionStep::Probe, outcomes)
        == seq![ProvisionAction::CreatePrimaryEk(ek_template())] + run_from(ProvisionStep::CreateEk, o1));
    assert(run == seq![
        ProvisionAction::ProbeHandle(AK_HANDLE as u32),
        ProvisionAction::CreatePrimaryEk(ek_template()),
        ProvisionAction::CreateAk(ak_template()),
    ] + rest);
    assert(rest[i - 3] == run[i]);
    lemma_report_position(ProvisionStep::CreateAk, o2, i - 3);
    assert(rest[i - 4] == run[i - 1]);
}

} // verus!
