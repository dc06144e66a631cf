use tee_seed::fifo::{after_delivery, resource_json, DeliveryOutcome, ServeDecision};

#[test]
fn resource_document_is_exact() {
    let seed: [u8; 32] = [
        0x66, 0x55, 0xd9, 0xe1, 0x5f, 0x2f, 0xbb, 0x32, 0x9f, 0xc5, 0xf7, 0x3f, 0x25, 0xc3, 0x23, 0x28,
        0xa3, 0xae, 0x0f, 0x90, 0x69, 0xaa, 0x03, 0x41, 0xd6, 0x7d, 0x17, 0xf1, 0x50, 0x8e, 0x00, 0x63,
    ];
    assert_eq!(
        resource_json(&seed),
        "{\"default/key/1\": \"ZlXZ4V8vuzKfxfc/JcMjKKOuD5BpqgNB1n0X8VCOAGM=\"}\n"
    );
}

#[test]
fn zero_seed_document() {
    let doc = resource_json(&[0u8; 32]);
    assert_eq!(doc, "{\"default/key/1\": \"AAAAAAAAAAAAAAAAAAAAAAAAAAAAAAAAAAAAAAAAAAA=\"}\n");
}

#[test]
fn only_pipe_creation_failure_stops_serving() {
    assert_eq!(after_delivery(DeliveryOutcome::PipeCreationFailed), ServeDecision::Stop);
    assert_eq!(after_delivery(DeliveryOutcome::OpenFailed), ServeDecision::OfferAgain);
    assert_eq!(after_delivery(DeliveryOutcome::WriteFailed), ServeDecision::OfferAgain);
    assert_eq!(after_delivery(DeliveryOutcome::Delivered), ServeDecision::OfferAgain);
}
