use feenk_signer::security::{Security, KEYCHAIN_NAME, KEYCHAIN_PASSWORD};

fn args(a: &[&str]) -> Vec<String> {
    a.iter().map(|s| s.to_string()).collect()
}

fn security(exists: bool) -> Security {
    Security::new("cert.p12".to_string(), Some("pw".to_string()), "/work", exists)
}

#[test]
fn new_records_existing_keychain() {
    let s = security(true);
    assert_eq!(s.keychain_file, "/work/MyKeychain.keychain");
    assert_eq!(s.keychain, Some("/work/MyKeychain.keychain".to_string()));
    assert_eq!(s.certificate, "cert.p12");
    assert_eq!(s.certificate_password, Some("pw".to_string()));
    let t = security(false);
    assert_eq!(t.keychain, None);
}

#[test]
fn keychain_constants() {
    assert_eq!(KEYCHAIN_NAME, "MyKeychain.keychain");
    assert_eq!(Security::keychain_password(), KEYCHAIN_PASSWORD);
    assert_eq!(Security::keychain_password(), "temporaryPassword");
    assert_eq!(Security::keychain_file_path("/a/b"), "/a/b/MyKeychain.keychain");
}

#[test]
fn delete_keychain_only_when_recorded() {
    let mut s = security(true);
    let run = s.delete_keychain().unwrap();
    assert_eq!(run.program, "security");
    assert_eq!(run.args, args(&["delete-keychain", "/work/MyKeychain.keychain"]));
    assert_eq!(s.keychain, Some("/work/MyKeychain.keychain".to_string()));
    s.forget_keychain();
    assert_eq!(s.keychain, None);
    assert!(s.delete_keychain().is_none());
    s.record_keychain();
    assert_eq!(s.keychain, Some("/work/MyKeychain.keychain".to_string()));
}

#[test]
fn keychain_commands() {
    let s = security(false);
    let kc = "/work/MyKeychain.keychain";
    assert_eq!(s.create_keychain().args, args(&["create-keychain", "-p", "temporaryPassword", kc]));
    assert_eq!(s.keychain, None);
    assert_eq!(s.list_keychains().args, args(&["list-keychains", "-d", "user"]));
    let listed = vec!["/Users/u/login.keychain-db".to_string(), "/Library/Keychains/System.keychain".to_string()];
    assert_eq!(
        s.add_keychain_to_user_domain(&listed).args,
        args(&[
            "list-keychains", "-d", "user", "-s", kc, "/Users/u/login.keychain-db",
            "/Library/Keychains/System.keychain"
        ])
    );
    assert_eq!(s.set_keychain_settings().args, args(&["set-keychain-settings", kc]));
    assert_eq!(s.unlock_keychain().args, args(&["unlock-keychain", "-p", "temporaryPassword", kc]));
    assert_eq!(
        s.import_keychain().args,
        args(&["import", "cert.p12", "-k", kc, "-P", "pw", "-T", "/usr/bin/codesign"])
    );
    assert_eq!(s.find_identity().args, args(&["find-identity", "-v", "-p", "codesigning", kc]));
    let run = s.set_key_partition_list("Developer ID Application: feenk gmbh (77664ZXL29)");
    assert_eq!(run.program, "security");
    assert_eq!(
        run.args,
        args(&[
            "set-key-partition-list", "-S", "apple-tool:,apple:", "-s", "-k", "temporaryPassword",
            "-D", "Developer ID Application: feenk gmbh (77664ZXL29)", "-t", "private", kc
        ])
    );
}

#[test]
fn import_without_password() {
    let s = Security::new("c".to_string(), None, "/w", false);
    assert_eq!(
        s.import_keychain().args,
        args(&["import", "c", "-k", "/w/MyKeychain.keychain", "-P", "", "-T", "/usr/bin/codesign"])
    );
}

#[test]
fn keychain_listing_drops_quotes_and_splits() {
    let out = "    \"/Users/u/login.keychain-db\"\n    \"/Library/Keychains/System.keychain\"\n";
    assert_eq!(
        Security::keychain_listing(out),
        vec!["/Users/u/login.keychain-db".to_string(), "/Library/Keychains/System.keychain".to_string()]
    );
    assert!(Security::keychain_listing("").is_empty());
    assert_eq!(
        Security::keychain_listing("\"/Users/u/My\u{A0}Keychains/a.keychain-db\"\n"),
        vec!["/Users/u/My\u{A0}Keychains/a.keychain-db".to_string()]
    );
}

#[test]
fn keychain_list_text_drops_quotes_only() {
    assert_eq!(
        Security::keychain_list_text("    \"/Users/u/Library/Keychains/login.keychain-db\"\n"),
        "    /Users/u/Library/Keychains/login.keychain-db\n"
    );
}

#[test]
fn identity_is_the_quoted_name_of_the_first_line() {
    let out = "  1) 0123ABCD \"Developer ID Application: feenk gmbh (77664ZXL29)\"\n     1 valid identities found\n";
    assert_eq!(Security::identity_in(out), "Developer ID Application: feenk gmbh (77664ZXL29)");
    assert_eq!(Security::identity_in(""), "");
    assert_eq!(Security::identity_in("     0 valid identities found\n"), "");
    assert_eq!(Security::identity_in("a \"open ended"), "open ended");
    assert_eq!(Security::identity_in("x\n\"second\""), "");
}
