use vstd::prelude::*;

verus! {

/// The key under which the seed is published in the resources document.
pub const RESOURCE_KEY: &'static str = "default/key/1";

/// The standard base64 alphabet encoding, with padding, of a byte string.
pub uninterp spec fn base64_standard_of(bytes: Seq<u8>) -> Seq<char>;

/// Relies on `base64::Engine::encode` with the `STANDARD` engine: the padded
/// standard-alphabet encoding of the input.
#[verifier::external_body]
fn base64_standard(bytes: &[u8]) -> (s: String)
    ensures
        s@ == base64_standard_of(bytes@),
{
    base64::Engine::encode(&base64::engine::general_purpose::STANDARD, bytes)
}

/// Relies on `zeroize::Zeroize` for `String`: the bytes are overwritten with
/// zeros and the string is left empty.
#[verifier::external_body]
fn wipe_string(s: &mut String)
    ensures
        final(s)@ == Seq::<char>::empty(),
{
    zeroize::Zeroize::zeroize(s)
}

/// The resources document: one JSON object that maps `RESOURCE_KEY` to the
/// base64 encoding of the seed, followed by a newline.
pub open spec fn resource_document(seed: Seq<u8>) -> Seq<char> {
    "{\""@ + RESOURCE_KEY@ + "\": \""@ + base64_standard_of(seed) + "\"}\n"@
}

/// Renders the resources document that carries the seed. The intermediate
/// encoding of the seed is wiped before it is dropped.
pub fn resource_json(seed: &[u8; 32]) -> (doc: String)
    ensures
        doc@ == resource_document(seed@),
{
    let mut encoded = base64_standard(seed.as_slice());
    let mut doc = String::from_str("{\"");
    doc.append(RESOURCE_KEY);
    doc.append("\": \"");
    doc.append(encoded.as_str());
    doc.append("\"}\n");
    wipe_string(&mut encoded);
    doc
}

/// How one offer of the document to a reader ended.
#[derive(Clone, Copy, Debug, PartialEq, Eq, Structural)]
pub enum DeliveryOutcome {
    /// The named pipe could not be made.
    PipeCreationFailed,
    /// The pipe could not be opened for writing.
    OpenFailed,
    /// Writing the document to the reader failed.
    WriteFailed,
    /// The reader got the whole document.
    Delivered,
}

/// What the serving loop does next.
#[derive(Clone, Copy, Debug, PartialEq, Eq, Structural)]
pub enum ServeDecision {
    /// Stop serving with an error.
    Stop,
    /// Remove the pipe and offer it afresh to the next reader.
    OfferAgain,
}

/// The serving loop's decision after one offer: a failure to create the pipe
/// is fatal; a failed or finished delivery loses at most that one delivery
/// and the pipe is offered again.
pub fn after_delivery(outcome: DeliveryOutcome) -> (d: ServeDecision)
    ensures
        d == ServeDecision::Stop <==> outcome == DeliveryOutcome::PipeCreationFailed,
{
    match outcome {
        DeliveryOutcome::PipeCreationFailed => ServeDecision::Stop,
        _ => ServeDecision::OfferAgain,
    }
}

} // verus!
