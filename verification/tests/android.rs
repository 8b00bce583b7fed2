use feenk_signer::android::signer::build_tool_name;
use feenk_signer::android::AndroidSigner;

#[test]
fn apksigner_arguments() {
    let s = AndroidSigner {
        artefact: "app.apk".to_string(),
        keystore: "release.keystore".to_string(),
        password: "secret".to_string(),
    };
    let run = s.sign(false);
    assert_eq!(run.program, "apksigner");
    let expected: Vec<String> = ["sign", "--ks", "release.keystore", "--ks-pass", "pass:secret", "app.apk"]
        .iter()
        .map(|a| a.to_string())
        .collect();
    assert_eq!(run.args, expected);
    assert_eq!(s.sign(true).program, "apksigner.bat");
    assert_eq!(s.outcome(true), Ok(()));
    assert_eq!(s.outcome(false), Err("Failed to sign an apk: app.apk".to_string()));
}

#[test]
fn build_tool_names() {
    assert_eq!(build_tool_name(false), "apksigner");
    assert_eq!(build_tool_name(true), "apksigner.bat");
}
