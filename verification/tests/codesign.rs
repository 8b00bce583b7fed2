use feenk_signer::codesign::{Codesign, KEYCHAIN_NAME};
use feenk_signer::macos::Codesign as MacCodesign;

#[test]
fn codesign_names_each_argument() {
    let mut c = Codesign::new("Dev ID".to_string(), "app.entitlements".to_string());
    let run = c.sign("My App.app".to_string());
    assert_eq!(run.program, "codesign");
    let expected: Vec<String> = [
        "--entitlements", "app.entitlements", "--force", "-v", "--options=runtime", "--deep",
        "--timestamp", "--file-list", "-", "-s", "Dev ID", "My App.app",
    ]
    .iter()
    .map(|s| s.to_string())
    .collect();
    assert_eq!(run.args, expected);
    assert_eq!(c.signing_identity, "Dev ID");
    assert_eq!(KEYCHAIN_NAME, "MyNewKeychain.keychain");
    assert_eq!(Codesign::outcome(true), Ok(()));
    assert_eq!(Codesign::outcome(false), Err("Could not codesign".to_string()));
    assert_eq!(Codesign::keychain_file_path("/w"), "/w/MyNewKeychain.keychain");
}

#[test]
fn mac_codesign_command_text() {
    let c = MacCodesign::new("Developer ID Application: feenk gmbh (77664ZXL29)".to_string(), "Product.entitlement".to_string());
    assert_eq!(
        c.command_text("GToolkit.app"),
        "codesign --entitlements Product.entitlement  --force -v --options=runtime  --deep --timestamp --file-list - -s 'Developer ID Application: feenk gmbh (77664ZXL29)' GToolkit.app"
    );
}

#[test]
fn mac_codesign_parses_the_command_string() {
    let c = MacCodesign::new("Developer ID Application: feenk gmbh (77664ZXL29)".to_string(), "Product.entitlement".to_string());
    let run = c.sign("GToolkit.app");
    assert_eq!(run.program, "codesign");
    let expected: Vec<String> = [
        "--entitlements", "Product.entitlement", "--force", "-v", "--options=runtime", "--deep",
        "--timestamp", "--file-list", "-", "-s", "Developer ID Application: feenk gmbh (77664ZXL29)",
        "GToolkit.app",
    ]
    .iter()
    .map(|s| s.to_string())
    .collect();
    assert_eq!(run.args, expected);
}

#[test]
fn mac_codesign_keeps_quoted_identity_whole() {
    let c = MacCodesign::new("Dev \"X\" Y".to_string(), "e.plist".to_string());
    let run = c.sign("My App.app");
    assert_eq!(run.args[10], "Dev \"X\" Y");
    assert_eq!(run.args[11], "My");
    assert_eq!(run.args[12], "App.app");
}

#[test]
fn both_codesign_forms_agree_on_plain_paths() {
    let id = "Developer ID Application: feenk gmbh (77664ZXL29)";
    let mac = MacCodesign::new(id.to_string(), "Product.entitlement".to_string()).sign("GToolkit.app");
    let plain = Codesign::new(id.to_string(), "Product.entitlement".to_string()).sign("GToolkit.app".to_string());
    assert_eq!(mac.program, plain.program);
    assert_eq!(mac.args, plain.args);
}
