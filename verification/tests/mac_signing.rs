use feenk_signer::command::{Event, Invocation};
use feenk_signer::macos::signer::{MacAction, MacSigning, MacStep};
use feenk_signer::macos::MacSigner;

const IDENTITY_OUTPUT: &str = "  1) 0123456789ABCDEF \"Developer ID Application: feenk gmbh (77664ZXL29)\"\n     1 valid identities found\n";
const FEENK: &str = "Developer ID Application: feenk gmbh (77664ZXL29)";
const TEXT: &str = "<plist version=\"1.0\"><dict/></plist>";
const KC: &str = "/work/MyKeychain.keychain";

fn signer(entitlements: Option<&str>) -> MacSigner {
    MacSigner {
        artefact: "GToolkit.app".to_string(),
        singing_identity: None,
        entitlements: entitlements.map(|s| s.to_string()),
        certificate: "cert.p12".to_string(),
        password: Some("pw".to_string()),
    }
}

fn args(a: &[&str]) -> Vec<String> {
    a.iter().map(|s| s.to_string()).collect()
}

fn run(a: MacAction) -> Invocation {
    match a {
        MacAction::Run(i) => i,
        _ => panic!("expected Run"),
    }
}

fn capture(a: MacAction) -> Invocation {
    match a {
        MacAction::Capture(i) => i,
        _ => panic!("expected Capture"),
    }
}

fn fail(a: MacAction) -> String {
    match a {
        MacAction::Fail(m) => m,
        _ => panic!("expected Fail"),
    }
}

/// Drives a signing up to the point where the key partition list was set.
fn up_to_partition(s: &MacSigner, exists: bool) -> MacSigning {
    let (mut session, first) = s.start("/work", exists, TEXT.to_string());
    let mut a = first;
    if exists {
        assert_eq!(run(a).args, args(&["delete-keychain", KC]));
        a = s.sign(&mut session, Event::Exited(true));
    }
    assert_eq!(run(a).args, args(&["create-keychain", "-p", "temporaryPassword", KC]));
    let a = s.sign(&mut session, Event::Exited(true));
    assert_eq!(capture(a).args, args(&["list-keychains", "-d", "user"]));
    let a = s.sign(
        &mut session,
        Event::Output(Some(
            "    \"/Users/u/login.keychain-db\"\n    \"/Library/Keychains/System.keychain\"\n".to_string(),
        )),
    );
    assert_eq!(
        run(a).args,
        args(&[
            "list-keychains", "-d", "user", "-s", KC, "/Users/u/login.keychain-db",
            "/Library/Keychains/System.keychain"
        ])
    );
    let a = s.sign(&mut session, Event::Exited(true));
    assert_eq!(run(a).args, args(&["set-keychain-settings", KC]));
    let a = s.sign(&mut session, Event::Exited(true));
    assert_eq!(run(a).args, args(&["unlock-keychain", "-p", "temporaryPassword", KC]));
    let a = s.sign(&mut session, Event::Exited(true));
    assert_eq!(
        run(a).args,
        args(&["import", "cert.p12", "-k", KC, "-P", "pw", "-T", "/usr/bin/codesign"])
    );
    let a = s.sign(&mut session, Event::Exited(true));
    assert_eq!(capture(a).args, args(&["find-identity", "-v", "-p", "codesigning", KC]));
    let a = s.sign(&mut session, Event::Output(Some(IDENTITY_OUTPUT.to_string())));
    assert_eq!(
        run(a).args,
        args(&[
            "set-key-partition-list", "-S", "apple-tool:,apple:", "-s", "-k", "temporaryPassword",
            "-D", FEENK, "-t", "private", KC
        ])
    );
    session
}

#[test]
fn identity_defaults_to_feenk() {
    assert_eq!(signer(None).singing_identity(), "Developer ID Application: feenk gmbh (77664ZXL29)");
    let mut s = signer(None);
    s.singing_identity = Some("Other".to_string());
    assert_eq!(s.singing_identity(), "Other");
}

#[test]
fn full_signing_with_temporary_entitlements() {
    let s = signer(None);
    let mut session = up_to_partition(&s, true);
    match s.sign(&mut session, Event::Exited(true)) {
        MacAction::Exists(f) => assert_eq!(f, "Product.entitlement"),
        _ => panic!("expected Exists"),
    }
    match s.sign(&mut session, Event::Exists(false)) {
        MacAction::WriteEntitlements(f, c) => {
            assert_eq!(f, "Product.entitlement");
            assert_eq!(c, TEXT);
        }
        _ => panic!("expected WriteEntitlements"),
    }
    match s.sign(&mut session, Event::Completed) {
        MacAction::Codesign(i) => {
            assert_eq!(i.program, "codesign");
            assert_eq!(
                i.args,
                args(&[
                    "--entitlements", "Product.entitlement", "--force", "-v", "--options=runtime",
                    "--deep", "--timestamp", "--file-list", "-", "-s",
                    "Developer ID Application: feenk gmbh (77664ZXL29)", "GToolkit.app"
                ])
            );
        }
        _ => panic!("expected Codesign"),
    }
    match s.sign(&mut session, Event::Exited(true)) {
        MacAction::Exists(f) => assert_eq!(f, "Product.entitlement"),
        _ => panic!("expected Exists"),
    }
    match s.sign(&mut session, Event::Exists(true)) {
        MacAction::Remove(f) => assert_eq!(f, "Product.entitlement"),
        _ => panic!("expected Remove"),
    }
    let a = s.sign(&mut session, Event::Completed);
    assert_eq!(run(a).args, args(&["delete-keychain", KC]));
    assert!(matches!(s.sign(&mut session, Event::Exited(true)), MacAction::Finish));
    assert!(matches!(session.step, MacStep::Finished));
    assert_eq!(session.security.keychain, None);
    assert!(matches!(s.sign(&mut session, Event::Begin), MacAction::Finish));
}

#[test]
fn configured_entitlements_skip_temporary_file() {
    let s = signer(Some("my.entitlements"));
    let mut session = up_to_partition(&s, false);
    match s.sign(&mut session, Event::Exited(true)) {
        MacAction::Codesign(i) => assert_eq!(i.args[1], "my.entitlements"),
        _ => panic!("expected Codesign"),
    }
    let a = s.sign(&mut session, Event::Exited(true));
    assert_eq!(run(a).args, args(&["delete-keychain", KC]));
    assert!(matches!(s.sign(&mut session, Event::Exited(true)), MacAction::Finish));
}

#[test]
fn taken_entitlements_name_is_replaced() {
    let s = signer(None);
    let mut session = up_to_partition(&s, false);
    let _ = s.sign(&mut session, Event::Exited(true));
    match s.sign(&mut session, Event::Exists(true)) {
        MacAction::Exists(f) => {
            assert!(f.starts_with("Product-") && f.ends_with(".entitlement"));
            assert_ne!(f, "Product.entitlement");
        }
        _ => panic!("expected Exists"),
    }
}

#[test]
fn start_without_stale_keychain_creates_it() {
    let s = signer(None);
    let (session, a) = s.start("/work", false, TEXT.to_string());
    assert_eq!(run(a).args, args(&["create-keychain", "-p", "temporaryPassword", KC]));
    assert_eq!(session.security.keychain, None);
}

#[test]
fn failures_name_their_cause() {
    let s = signer(None);
    let (mut session, _) = s.start("/work", true, TEXT.to_string());
    assert_eq!(fail(s.sign(&mut session, Event::Exited(false))), "Could not delete a .keychain file");
    assert_eq!(fail(s.sign(&mut session, Event::Exited(true))), "Could not delete a .keychain file");

    let (mut session, _) = s.start("/work", false, TEXT.to_string());
    assert_eq!(fail(s.sign(&mut session, Event::Exited(false))), "Could not create a .keychain file");

    let (mut session, _) = s.start("/work", false, TEXT.to_string());
    let _ = s.sign(&mut session, Event::Exited(true));
    assert_eq!(fail(s.sign(&mut session, Event::Output(None))), "Could not list keychains");

    let (mut session, _) = s.start("/work", false, TEXT.to_string());
    let _ = s.sign(&mut session, Event::Exited(true));
    let _ = s.sign(&mut session, Event::Output(Some(String::new())));
    assert_eq!(fail(s.sign(&mut session, Event::Exited(false))), "Could add temporary keychain");

    let (mut session, _) = s.start("/work", false, TEXT.to_string());
    assert_eq!(fail(s.sign(&mut session, Event::Completed)), "Unexpected event");
}

#[test]
fn failed_deletion_keeps_keychain_recorded() {
    let s = signer(None);
    let (mut session, _) = s.start("/work", true, TEXT.to_string());
    assert_eq!(session.security.keychain, Some(KC.to_string()));
    let _ = s.sign(&mut session, Event::Exited(false));
    assert_eq!(session.security.keychain, Some(KC.to_string()));
}

#[test]
fn failed_creation_records_no_keychain() {
    let s = signer(None);
    let (mut session, _) = s.start("/work", false, TEXT.to_string());
    assert_eq!(session.security.keychain, None);
    let _ = s.sign(&mut session, Event::Exited(false));
    assert_eq!(session.security.keychain, None);
}

#[test]
fn failed_final_deletion_keeps_keychain_recorded() {
    let s = signer(Some("e.plist"));
    let mut session = up_to_partition(&s, false);
    let _ = s.sign(&mut session, Event::Exited(true));
    let _ = s.sign(&mut session, Event::Exited(true));
    assert_eq!(fail(s.sign(&mut session, Event::Exited(false))), "Could not delete a .keychain file");
    assert_eq!(session.security.keychain, Some(KC.to_string()));
}

#[test]
fn unquoted_identity_listing_gives_empty_identity() {
    let s = signer(None);
    let (mut session, _) = s.start("/work", false, TEXT.to_string());
    for e in [Event::Exited(true), Event::Output(Some(String::new())), Event::Exited(true), Event::Exited(true), Event::Exited(true), Event::Exited(true)] {
        let _ = s.sign(&mut session, e);
    }
    let a = s.sign(&mut session, Event::Output(Some("     0 valid identities found\n".to_string())));
    assert_eq!(run(a).args[7], "");
}

#[test]
fn password_reaches_only_import() {
    let with = signer(None);
    let mut without = signer(None);
    without.password = Some("other".to_string());
    let a = up_to_partition(&with, false);
    let (mut b, _) = without.start("/work", false, TEXT.to_string());
    for e in [Event::Exited(true), Event::Output(Some(String::new())), Event::Exited(true), Event::Exited(true)] {
        let _ = without.sign(&mut b, e);
    }
    let import = run(without.sign(&mut b, Event::Exited(true)));
    assert_eq!(import.args[5], "other");
    let _ = without.sign(&mut b, Event::Exited(true));
    let partition = run(without.sign(&mut b, Event::Output(Some(IDENTITY_OUTPUT.to_string()))));
    assert_eq!(partition.args[5], "temporaryPassword");
    assert_eq!(a.security.keychain, b.security.keychain);
}

#[test]
fn codesign_failure_keeps_keychain() {
    let s = signer(Some("e.plist"));
    let mut session = up_to_partition(&s, false);
    let _ = s.sign(&mut session, Event::Exited(true));
    assert_eq!(fail(s.sign(&mut session, Event::Exited(false))), "Could not codesign");
    assert_eq!(session.security.keychain, Some(KC.to_string()));
}

#[test]
fn transition_is_deterministic_in_the_suffix() {
    let s = signer(None);
    let session = up_to_partition(&s, false);
    let (session, _) = s.transition(session, Event::Exited(true), 9);
    let (session, a) = s.transition(session, Event::Exists(true), 9);
    match a {
        MacAction::Exists(f) => assert_eq!(f, "Product-9.entitlement"),
        _ => panic!("expected Exists"),
    }
    assert_eq!(session.security.keychain_file, KC);
}
