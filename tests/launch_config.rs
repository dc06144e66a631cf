use tee_seed::initdata::{InitDataError, ParsedInitData};
use tee_seed::session::{config_event, seed_step, SeedCommand, SeedEvent, SeedFailure, SeedPhase};

#[test]
fn empty_separator_is_refused() {
    let r = ParsedInitData::from_config(b"[data]\ndomain_separator = \"\"\n", Some(String::new()));
    assert!(matches!(r, Err(InitDataError::MissingDomainSeparator)));
}

#[test]
fn absent_separator_is_refused() {
    let r = ParsedInitData::from_config(b"[data]\n", None);
    assert!(matches!(r, Err(InitDataError::MissingDomainSeparator)));
}

#[test]
fn digest_of_empty_configuration() {
    let p = ParsedInitData::from_config(b"", Some("x".to_string())).unwrap();
    let expected: [u8; 32] = [
        0xe3, 0xb0, 0xc4, 0x42, 0x98, 0xfc, 0x1c, 0x14, 0x9a, 0xfb, 0xf4, 0xc8, 0x99, 0x6f, 0xb9,
        0x24, 0x27, 0xae, 0x41, 0xe4, 0x64, 0x9b, 0x93, 0x4c, 0xa4, 0x95, 0x99, 0x1b, 0x78, 0x52,
        0xb8, 0x55,
    ];
    assert_eq!(p.init_data_digest, expected);
    assert_eq!(p.domain_separator, "x");
}

#[test]
fn refused_configuration_stops_before_provider() {
    let refused = ParsedInitData::from_config(b"[data]\n", None);
    let event = config_event(&refused);
    assert_eq!(event, SeedEvent::ConfigRefused);
    let (phase, command) = seed_step(SeedPhase::AwaitConfig, event);
    assert_eq!(command, SeedCommand::Stop(SeedFailure::Config));
    let (_, after) = seed_step(phase, SeedEvent::ProviderFound);
    assert_eq!(after, SeedCommand::Nothing);
}

#[test]
fn accepted_configuration_proceeds_in_order() {
    let accepted = ParsedInitData::from_config(b"x", Some("sep".to_string()));
    let (p1, c1) = seed_step(SeedPhase::AwaitConfig, config_event(&accepted));
    assert_eq!(c1, SeedCommand::DetectProvider);
    let (p2, c2) = seed_step(p1, SeedEvent::ProviderFound);
    assert_eq!(c2, SeedCommand::ReadIkm);
    let (p3, c3) = seed_step(p2, SeedEvent::IkmRead);
    assert_eq!(c3, SeedCommand::DeriveAndServe);
    assert_eq!(p3, SeedPhase::Serving);
}
