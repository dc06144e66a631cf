use vstd::prelude::*;

verus! {

/// The SHA-256 digest of a byte string.
pub uninterp spec fn sha256_of(data: Seq<u8>) -> Seq<u8>;

/// Relies on `sha2::Sha256::digest`: the 32-byte digest of the input.
#[verifier::external_body]
fn sha256(data: &[u8]) -> (d: [u8; 32])
    ensures
        d@ == sha256_of(data@),
{
    <sha2::Sha256 as sha2::Digest>::digest(data).into()
}

/// The launch configuration as the derivation uses it: the domain separator
/// read from it, and the digest of its raw bytes (not of the parsed fields,
/// so that any change to the file changes the digest).
pub struct ParsedInitData {
    pub domain_separator: String,
    pub init_data_digest: [u8; 32],
}

/// Why a launch configuration is refused.
#[derive(Clone, Copy, Debug, PartialEq, Eq, Structural)]
pub enum InitDataError {
    /// The domain separator is absent or empty. No default is substituted.
    MissingDomainSeparator,
}

/// What a launch configuration with raw bytes `raw` and domain-separator field
/// `domain_separator` yields: the separator and the digest of the raw bytes,
/// or a refusal when the separator is absent or empty.
pub open spec fn init_data_result(raw: Seq<u8>, domain_separator: Option<Seq<char>>)
    -> Result<(Seq<char>, Seq<u8>), InitDataError>
{
    match domain_separator {
        Some(ds) if ds.len() > 0 => Ok((ds, sha256_of(raw))),
        _ => Err(InitDataError::MissingDomainSeparator),
    }
}

pub open spec fn opt_view(s: Option<String>) -> Option<Seq<char>> {
    match s {
        Some(x) => Some(x@),
        None => None,
    }
}

impl ParsedInitData {
    /// Builds the record from the configuration's raw bytes and the value of
    /// its domain-separator field, if the field is present.
    pub fn from_config(raw: &[u8], domain_separator: Option<String>) -> (r: Result<ParsedInitData, InitDataError>)
        ensures
            match r {
                Ok(p) => init_data_result(raw@, opt_view(domain_separator))
                    == Ok::<(Seq<char>, Seq<u8>), InitDataError>((p.domain_separator@, p.init_data_digest@)),
                Err(e) => init_data_result(raw@, opt_view(domain_separator))
                    == Err::<(Seq<char>, Seq<u8>), InitDataError>(e),
            },
    {
        match domain_separator {
            Some(ds) => {
                if ds.as_str().is_empty() {
                    Err(InitDataError::MissingDomainSeparator)
                } else {
                    let digest = sha256(raw);
                    Ok(ParsedInitData { domain_separator: ds, init_data_digest: digest })
                }
            },
            None => Err(InitDataError::MissingDomainSeparator),
        }
    }
}

/// The security gate: a configuration whose domain separator is absent or
/// empty is refused, whatever its bytes, so no record and hence no seed is
/// ever produced from it.
pub proof fn lemma_security_gate(raw: Seq<u8>, domain_separator: Option<Seq<char>>)
    requires
        domain_separator is None || domain_separator->Some_0.len() == 0,
    ensures
        init_data_result(raw, domain_separator) == Err::<(Seq<char>, Seq<u8>), InitDataError>(
            InitDataError::MissingDomainSeparator,
        ),
{
}

} // verus!
