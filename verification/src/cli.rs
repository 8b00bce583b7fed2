//! The command line: which kind of artefact to sign, and how.
use vstd::prelude::*;

use crate::android::AndroidSigner;
use crate::macos::MacSigner;

verus! {

/// What to sign.
pub enum Commands {
    /// Sign using Apple developer certificate.
    Mac(MacSigner),
    /// Sign Android .apk using keystore.
    Android(AndroidSigner),
}

/// The parsed command line.
pub struct Cli {
    pub command: Commands,
}

} // verus!
