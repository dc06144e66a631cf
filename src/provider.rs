use vstd::prelude::*;
use crate::tpm::{detect_platform, TpmSeedProvider, DEFAULT_TPM_DEVICE};

verus! {

/// The backends that can supply input keying material, one variant each.
pub enum SeedProviderKind {
    Tpm(TpmSeedProvider),
}

/// No backend was detected on this machine.
#[derive(Clone, Copy, Debug, PartialEq, Eq, Structural)]
pub enum DetectError {
    NoProvider,
}

/// Chooses the backend from what detection found, in priority order: the
/// TPM first; with nothing found, an error.
pub fn select_provider(tpm_present: bool) -> (r: Result<SeedProviderKind, DetectError>)
    ensures
        r is Ok <==> tpm_present,
        r is Err ==> r->Err_0 == DetectError::NoProvider,
        r is Ok ==> (r->Ok_0 matches SeedProviderKind::Tpm(p) && p.device_spec() == DEFAULT_TPM_DEVICE@),
{
    if tpm_present {
        Ok(SeedProviderKind::Tpm(TpmSeedProvider::default()))
    } else {
        Err(DetectError::NoProvider)
    }
}

/// Detects the backend available on this machine.
pub fn detect_provider() -> (r: Result<SeedProviderKind, DetectError>)
    ensures
        r is Err ==> r->Err_0 == DetectError::NoProvider,
        r is Ok ==> (r->Ok_0 matches SeedProviderKind::Tpm(p) && p.device_spec() == DEFAULT_TPM_DEVICE@),
{
    select_provider(detect_platform())
}

} // verus!
