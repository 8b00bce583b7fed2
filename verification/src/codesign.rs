//! A codesign invocation that names its arguments one by one.
use vstd::prelude::*;

use crate::command::{command_line, push_arg, push_owned_arg, CommandLine, Invocation};
use crate::text::{join, join_path};

verus! {

/// File name of a keychain in the working directory.
pub const KEYCHAIN_NAME: &'static str = "MyNewKeychain.keychain";

/// Why a signing failed, where codesign did not succeed.
pub const CODESIGN_FAILED: &'static str = "Could not codesign";

/// What codesign is to sign with: an identity and an entitlements file.
pub struct Codesign {
    pub signing_identity: String,
    pub entitlements: String,
}

/// The codesign run that signs `file` deeply, with the hardened runtime and
/// a timestamp, as `identity` and with the entitlements file `entitlements`.
pub open spec fn codesign_line(
    entitlements: Seq<char>,
    identity: Seq<char>,
    file: Seq<char>,
) -> CommandLine {
    command_line(
        "codesign"@,
        seq![
            "--entitlements"@,
            entitlements,
            "--force"@,
            "-v"@,
            "--options=runtime"@,
            "--deep"@,
            "--timestamp"@,
            "--file-list"@,
            "-"@,
            "-s"@,
            identity,
            file,
        ],
    )
}

impl Codesign {
    /// Signing as `signing_identity` with the entitlements file `entitlements`.
    pub fn new(signing_identity: String, entitlements: String) -> (c: Codesign)
        ensures
            c.signing_identity@ == signing_identity@,
            c.entitlements@ == entitlements@,
    {
        Codesign { signing_identity, entitlements }
    }

    /// The path of the keychain file for the working directory `current_dir`.
    pub fn keychain_file_path(current_dir: &str) -> (p: String)
        ensures
            p@ == join_path(current_dir@, KEYCHAIN_NAME@),
    {
        join(current_dir, KEYCHAIN_NAME)
    }

    /// The outcome of a codesign run that exited successfully (`success`) or
    /// not: it fails exactly where the run did not succeed.
    pub fn outcome(success: bool) -> (r: Result<(), String>)
        ensures
            r is Ok <==> success,
            r matches Err(m) ==> m@ == CODESIGN_FAILED@,
    {
        if success {
            Ok(())
        } else {
            Err(String::from_str(CODESIGN_FAILED))
        }
    }

    /// The codesign run that signs `file_path`; its exit status is judged by
    /// `outcome`.
    pub fn sign(&mut self, file_path: String) -> (r: Invocation)
        ensures
            final(self).signing_identity@ == old(self).signing_identity@,
            final(self).entitlements@ == old(self).entitlements@,
            r@ == codesign_line(old(self).entitlements@, old(self).signing_identity@, file_path@),
    {
        let mut args: Vec<String> = Vec::new();
        assert(args.deep_view() =~= Seq::<Seq<char>>::empty());
        push_arg(&mut args, "--entitlements");
        push_arg(&mut args, self.entitlements.as_str());
        push_arg(&mut args, "--force");
        push_arg(&mut args, "-v");
        push_arg(&mut args, "--options=runtime");
        push_arg(&mut args, "--deep");
        push_arg(&mut args, "--timestamp");
        push_arg(&mut args, "--file-list");
        push_arg(&mut args, "-");
        push_arg(&mut args, "-s");
        push_arg(&mut args, self.signing_identity.as_str());
        let ghost fv = file_path@;
        push_owned_arg(&mut args, file_path);
        assert(args.deep_view() =~= seq![
            "--entitlements"@,
            self.entitlements@,
            "--force"@,
            "-v"@,
            "--options=runtime"@,
            "--deep"@,
            "--timestamp"@,
            "--file-list"@,
            "-"@,
            "-s"@,
            self.signing_identity@,
            fv,
        ]);
        Invocation { program: String::from_str("codesign"), args }
    }
}

} // verus!
