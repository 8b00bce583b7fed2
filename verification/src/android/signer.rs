//! Signing an Android .apk with `apksigner` and a keystore.
use vstd::prelude::*;

use crate::command::{command_line, push_arg, CommandLine, Invocation};

verus! {

/// An .apk to sign and the keystore to sign it with.
pub struct AndroidSigner {
    /// An .apk file that needs to be signed.
    pub artefact: String,
    /// Keystore file.
    pub keystore: String,
    /// Keystore password.
    pub password: String,
}

/// The name of the `apksigner` build tool: with `.bat` on Windows.
pub open spec fn apksigner_name(windows: bool) -> Seq<char> {
    if windows {
        "apksigner.bat"@
    } else {
        "apksigner"@
    }
}

/// The `apksigner` run (the tool found by its name among the SDK's build
/// tools) that signs `artefact` with `keystore`, whose password is handed as
/// `pass:<password>`.
pub open spec fn apksign_line(
    tool: Seq<char>,
    keystore: Seq<char>,
    password: Seq<char>,
    artefact: Seq<char>,
) -> CommandLine {
    command_line(
        tool,
        seq!["sign"@, "--ks"@, keystore, "--ks-pass"@, "pass:"@ + password, artefact],
    )
}

/// The message of a signing that failed for `artefact`.
pub open spec fn apk_failure(artefact: Seq<char>) -> Seq<char> {
    "Failed to sign an apk: "@ + artefact
}

/// The apksigner run differs between platforms in its program alone: its
/// arguments are the same on every platform, with the keystore after
/// `--ks`, the password as `pass:<password>` after `--ks-pass`, and the
/// artefact last.
pub proof fn lemma_apksign_arguments_platform_free(
    keystore: Seq<char>,
    password: Seq<char>,
    artefact: Seq<char>,
)
    ensures
        apksign_line(apksigner_name(true), keystore, password, artefact).args == apksign_line(
            apksigner_name(false),
            keystore,
            password,
            artefact,
        ).args,
        forall|windows: bool|
            {
                let args = #[trigger] apksign_line(
                    apksigner_name(windows),
                    keystore,
                    password,
                    artefact,
                ).args;
                &&& args.len() == 6
                &&& args[1] == "--ks"@
                &&& args[2] == keystore
                &&& args[3] == "--ks-pass"@
                &&& args[4] == "pass:"@ + password
                &&& args[5] == artefact
            },
{
}

/// The name of the `apksigner` build tool on Windows (`windows`) or
/// elsewhere.
pub fn build_tool_name(windows: bool) -> (n: &'static str)
    ensures
        n@ == apksigner_name(windows),
{
    if windows {
        "apksigner.bat"
    } else {
        "apksigner"
    }
}

impl AndroidSigner {
    /// The run that signs the artefact; its program is the name of the build
    /// tool, which the caller finds in the SDK. The signing fails where it
    /// does not exit successfully.
    pub fn sign(&self, windows: bool) -> (r: Invocation)
        ensures
            r@ == apksign_line(
                apksigner_name(windows),
                self.keystore@,
                self.password@,
                self.artefact@,
            ),
            r@.args.len() == 6,
            r@.args[4] == "pass:"@ + self.password@,
    {
        let mut pass = String::from_str("pass:");
        pass.append(self.password.as_str());
        let mut args: Vec<String> = Vec::new();
        assert(args.deep_view() =~= Seq::<Seq<char>>::empty());
        push_arg(&mut args, "sign");
        push_arg(&mut args, "--ks");
        push_arg(&mut args, self.keystore.as_str());
        push_arg(&mut args, "--ks-pass");
        push_arg(&mut args, pass.as_str());
        push_arg(&mut args, self.artefact.as_str());
        assert(args.deep_view() =~= seq![
            "sign"@,
            "--ks"@,
            self.keystore@,
            "--ks-pass"@,
            "pass:"@ + self.password@,
            self.artefact@,
        ]);
        Invocation { program: String::from_str(build_tool_name(windows)), args }
    }

    /// The outcome of the signing, where the run exited successfully
    /// (`success`) or not: it fails, naming the artefact, exactly where the
    /// run did not succeed.
    pub fn outcome(&self, success: bool) -> (r: Result<(), String>)
        ensures
            r is Ok <==> success,
            r matches Err(m) ==> m@ == apk_failure(self.artefact@),
    {
        if success {
            Ok(())
        } else {
            let mut m = String::from_str("Failed to sign an apk: ");
            m.append(self.artefact.as_str());
            Err(m)
        }
    }
}

} // verus!
