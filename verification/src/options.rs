//! Options of a signing: the artefact, the certificate, and optionally the
//! signing identity and the entitlements file.
use vstd::prelude::*;

use crate::command::{opt_view, Event};
use crate::entitlements::{
    entitlements_next, needs_candidate, step_entitlements, EntitlementsAction, EntitlementsStep,
};
use crate::macos::signer::FEENK_SIGNING_IDENTITY;

verus! {

/// What to sign and with what.
pub struct SignOptions {
    /// A folder (.app) or a file that needs to be signed.
    pub artefact: String,
    /// Base64 encoded certificate.
    pub certificate: String,
    /// Certificate password.
    pub password: Option<String>,
    /// Signing identity.
    pub singing_identity: Option<String>,
    /// File path to .entitlements file.
    pub entitlements: Option<String>,
}

/// The identity that signs: the configured one, or `FEENK_SIGNING_IDENTITY`.
pub open spec fn options_identity(identity: Option<Seq<char>>) -> Seq<char> {
    match identity {
        Some(i) => i,
        None => FEENK_SIGNING_IDENTITY@,
    }
}

/// A configured identity is used as it is, whatever it holds; the default
/// identity only where none is configured.
pub proof fn lemma_options_identity(identity: Option<Seq<char>>)
    ensures
        identity matches Some(i) ==> options_identity(identity) == i,
        identity is None ==> options_identity(identity) == FEENK_SIGNING_IDENTITY@,
{
}

impl SignOptions {
    /// The identity that signs: the configured one, or
    /// `FEENK_SIGNING_IDENTITY`.
    pub fn singing_identity(&self) -> (i: &str)
        ensures
            i@ == options_identity(opt_view(self.singing_identity)),
            self.singing_identity matches Some(configured) ==> i@ == configured@,
            self.singing_identity is None ==> i@ == FEENK_SIGNING_IDENTITY@,
    {
        match &self.singing_identity {
            Some(identity) => identity.as_str(),
            None => FEENK_SIGNING_IDENTITY,
        }
    }

    /// One step of choosing, using and cleaning up the entitlements file:
    /// the configured file, else a fresh temporary file (named at random
    /// after `Product.entitlement` is taken, and never the name just
    /// reported taken) that holds
    /// `default_entitlements` while it is in use. Where no random name can
    /// be drawn, the step stays and `Unavailable` is answered.
    pub fn with_signing_identity_and_entitlements(
        &self,
        default_entitlements: &str,
        step: &mut EntitlementsStep,
        event: Event,
    ) -> (action: EntitlementsAction)
        ensures
            (exists|suffix: u16|
                (final(step)@, action@) == #[trigger] entitlements_next(
                    options_identity(opt_view(self.singing_identity)),
                    opt_view(self.entitlements),
                    default_entitlements@,
                    old(step)@,
                    event@,
                    suffix,
                )) || (needs_candidate(old(step)@, event@) && final(step)@ == old(step)@
                && action is Unavailable),
            needs_candidate(old(step)@, event@) && action@ is Exists ==> action@->Exists_0
                != old(step)@->Probing_0,
    {
        step_entitlements(
            self.singing_identity(),
            &self.entitlements,
            default_entitlements,
            step,
            event,
        )
    }
}

} // verus!
