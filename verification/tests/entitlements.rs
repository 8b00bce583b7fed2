use feenk_signer::command::Event;
use feenk_signer::entitlements::{advance, candidate, EntitlementsAction, EntitlementsStep, FIRST_CANDIDATE};
use feenk_signer::options::SignOptions;

const TEXT: &str = "<plist/>";

fn options(identity: Option<&str>, entitlements: Option<&str>) -> SignOptions {
    SignOptions {
        artefact: "A.app".to_string(),
        certificate: "cert".to_string(),
        password: None,
        singing_identity: identity.map(|s| s.to_string()),
        entitlements: entitlements.map(|s| s.to_string()),
    }
}

#[test]
fn candidate_names() {
    assert_eq!(FIRST_CANDIDATE, "Product.entitlement");
    assert_eq!(candidate(7), "Product-7.entitlement");
    assert_eq!(candidate(65535), "Product-65535.entitlement");
    assert_eq!(candidate(0), "Product-0.entitlement");
}

#[test]
fn sign_options_identity_defaults() {
    assert_eq!(options(None, None).singing_identity(), "Developer ID Application: feenk gmbh (77664ZXL29)");
    assert_eq!(options(Some("Me"), None).singing_identity(), "Me");
}

#[test]
fn configured_entitlements_are_used_directly() {
    let o = options(Some("Me"), Some("my.entitlements"));
    let mut step = EntitlementsStep::Start;
    match o.with_signing_identity_and_entitlements(TEXT, &mut step, Event::Begin) {
        EntitlementsAction::Use(i, f) => {
            assert_eq!(i, "Me");
            assert_eq!(f, "my.entitlements");
        }
        _ => panic!("expected Use"),
    }
    assert!(matches!(o.with_signing_identity_and_entitlements(TEXT, &mut step, Event::Completed), EntitlementsAction::Done));
    assert!(matches!(o.with_signing_identity_and_entitlements(TEXT, &mut step, Event::Begin), EntitlementsAction::Done));
}

#[test]
fn temporary_file_is_fresh_and_cleaned() {
    let o = options(None, None);
    let mut step = EntitlementsStep::Start;
    match o.with_signing_identity_and_entitlements(TEXT, &mut step, Event::Begin) {
        EntitlementsAction::Exists(f) => assert_eq!(f, "Product.entitlement"),
        _ => panic!("expected Exists"),
    }
    let next = match o.with_signing_identity_and_entitlements(TEXT, &mut step, Event::Exists(true)) {
        EntitlementsAction::Exists(f) => f,
        _ => panic!("expected Exists"),
    };
    let digits = next.strip_prefix("Product-").unwrap().strip_suffix(".entitlement").unwrap();
    assert!(digits.parse::<u16>().is_ok());
    match o.with_signing_identity_and_entitlements(TEXT, &mut step, Event::Exists(false)) {
        EntitlementsAction::Write(f, c) => {
            assert_eq!(f, next);
            assert_eq!(c, TEXT);
        }
        _ => panic!("expected Write"),
    }
    match o.with_signing_identity_and_entitlements(TEXT, &mut step, Event::Completed) {
        EntitlementsAction::Use(i, f) => {
            assert_eq!(i, "Developer ID Application: feenk gmbh (77664ZXL29)");
            assert_eq!(f, next);
        }
        _ => panic!("expected Use"),
    }
    match o.with_signing_identity_and_entitlements(TEXT, &mut step, Event::Completed) {
        EntitlementsAction::Exists(f) => assert_eq!(f, next),
        _ => panic!("expected Exists"),
    }
    match o.with_signing_identity_and_entitlements(TEXT, &mut step, Event::Exists(true)) {
        EntitlementsAction::Remove(f) => assert_eq!(f, next),
        _ => panic!("expected Remove"),
    }
    assert!(matches!(o.with_signing_identity_and_entitlements(TEXT, &mut step, Event::Completed), EntitlementsAction::Done));
}

#[test]
fn advance_uses_the_given_suffix() {
    let mut step = EntitlementsStep::Probing("Product.entitlement".to_string());
    match advance("Me", &None, TEXT, &mut step, Event::Exists(true), 4242) {
        EntitlementsAction::Exists(f) => assert_eq!(f, "Product-4242.entitlement"),
        _ => panic!("expected Exists"),
    }
}

#[test]
fn write_only_after_absence() {
    let mut step = EntitlementsStep::Probing("Product.entitlement".to_string());
    assert!(matches!(advance("Me", &None, TEXT, &mut step, Event::Completed, 1), EntitlementsAction::Unexpected));
    assert!(matches!(advance("Me", &None, TEXT, &mut step, Event::Exists(false), 1), EntitlementsAction::Write(_, _)));
}

#[test]
fn cleaning_skips_missing_file() {
    let mut step = EntitlementsStep::Cleaning("Product.entitlement".to_string());
    assert!(matches!(advance("Me", &None, TEXT, &mut step, Event::Exists(false), 1), EntitlementsAction::Done));
}
