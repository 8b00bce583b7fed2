//! What every step of a macOS signing keeps, and what it never does.
use vstd::prelude::*;

use crate::command::EventView;
use crate::entitlements::{candidate_name, EntitlementsStepView, FIRST_CANDIDATE};
use crate::macos::codesign::{codesign_text, parsed_command};
use crate::macos::signer::{
    identity_for, mac_next, mac_start, FEENK_SIGNING_IDENTITY, MacActionView, MacSignerView, MacSigningView, MacStepView,
};
use crate::security::{delete_line, import_line, password_or_empty, SecurityView};

verus! {

/// A name the temporary entitlements file may have.
pub open spec fn is_candidate(name: Seq<char>) -> bool {
    name == FIRST_CANDIDATE@ || exists|n: u16| name == #[trigger] candidate_name(n)
}

/// Where the entitlements file stands while codesign is under way: the
/// configured file in use as it is, or a temporary file with a candidate name.
pub open spec fn entitlements_in_order(
    configured: Option<Seq<char>>,
    sub: EntitlementsStepView,
) -> bool {
    match configured {
        Some(e) => sub == EntitlementsStepView::Using(e, false),
        None => match sub {
            EntitlementsStepView::Probing(c) => is_candidate(c),
            EntitlementsStepView::Writing(c) => is_candidate(c),
            EntitlementsStepView::Using(c, temporary) => temporary && is_candidate(c),
            EntitlementsStepView::Cleaning(c) => is_candidate(c),
            EntitlementsStepView::Removing(c) => is_candidate(c),
            _ => false,
        },
    }
}

/// What holds of every signing of `signer`: it signs with the signer's
/// certificate and password, and the temporary keychain is recorded as
/// present from its successful creation until its successful deletion (a
/// stale keychain found at the start is recorded until it is deleted).
pub open spec fn mac_invariant(signer: MacSignerView, s: MacSigningView) -> bool {
    let kc = s.security.keychain_file;
    &&& s.security.certificate == signer.certificate
    &&& s.security.certificate_password == signer.password
    &&& match s.step {
        MacStepView::CreatingKeychain => s.security.keychain is None,
        MacStepView::Finished => s.security.keychain is None,
        MacStepView::Failed(_) => true,
        MacStepView::Signing(sub) => s.security.keychain == Some(kc) && entitlements_in_order(
            signer.entitlements,
            sub,
        ),
        _ => s.security.keychain == Some(kc),
    }
}

/// A configured signing identity is used as it is, whatever characters it
/// holds; the feenk identity is used only where none is configured.
pub proof fn lemma_configured_identity_used(signer: MacSignerView)
    ensures
        signer.singing_identity matches Some(i) ==> identity_for(signer) == i,
        signer.singing_identity is None ==> identity_for(signer) == FEENK_SIGNING_IDENTITY@,
{
}

/// Every signing starts in a state where `mac_invariant` holds.
pub proof fn lemma_start_establishes_invariant(
    signer: MacSignerView,
    current_dir: Seq<char>,
    keychain_file_exists: bool,
    default_entitlements: Seq<char>,
)
    ensures
        mac_invariant(
            signer,
            mac_start(signer, current_dir, keychain_file_exists, default_entitlements).0,
        ),
{
}

/// Every step of a signing keeps `mac_invariant`, whatever the caller
/// reports and whatever candidate name is drawn.
pub proof fn lemma_step_keeps_invariant(
    signer: MacSignerView,
    s: MacSigningView,
    e: EventView,
    suffix: u16,
)
    requires
        mac_invariant(signer, s),
    ensures
        mac_invariant(signer, mac_next(signer, s, e, suffix).0),
{
    let r = mac_next(signer, s, e, suffix);
    match s.step {
        MacStepView::Signing(sub) => {
            assert(is_candidate(candidate_name(suffix)));
        },
        MacStepView::PartitioningKey => {
            assert(is_candidate(FIRST_CANDIDATE@));
        },
        _ => {},
    }
}

/// A signing never changes the certificate, its password, the location of
/// the temporary keychain or the default entitlements.
pub proof fn lemma_step_keeps_certificate_and_keychain_file(
    signer: MacSignerView,
    s: MacSigningView,
    e: EventView,
    suffix: u16,
)
    ensures
        mac_next(signer, s, e, suffix).0.security.certificate == s.security.certificate,
        mac_next(signer, s, e, suffix).0.security.certificate_password
            == s.security.certificate_password,
        mac_next(signer, s, e, suffix).0.security.keychain_file == s.security.keychain_file,
        mac_next(signer, s, e, suffix).0.default_entitlements == s.default_entitlements,
{
}

/// A signing finishes only right after the deletion of the temporary
/// keychain succeeded.
pub proof fn lemma_finish_only_after_deletion(
    signer: MacSignerView,
    s: MacSigningView,
    e: EventView,
    suffix: u16,
)
    requires
        mac_invariant(signer, s),
        !(s.step is Finished),
        mac_next(signer, s, e, suffix).0.step is Finished,
    ensures
        s.step is DeletingKeychain,
        e == EventView::Exited(true),
{
}

/// When a signing turns to deleting the keychain, it asks for the deletion
/// of the temporary keychain file.
pub proof fn lemma_deletion_targets_the_keychain(
    signer: MacSignerView,
    s: MacSigningView,
    e: EventView,
    suffix: u16,
)
    requires
        mac_invariant(signer, s),
        !(s.step is DeletingKeychain),
        mac_next(signer, s, e, suffix).0.step is DeletingKeychain,
    ensures
        mac_next(signer, s, e, suffix).1 == MacActionView::Run(
            delete_line(s.security.keychain_file),
        ),
{
}

/// A temporary entitlements file is written only with the default
/// entitlements, and only where the caller has just reported it absent.
pub proof fn lemma_writes_only_absent_file(
    signer: MacSignerView,
    s: MacSigningView,
    e: EventView,
    suffix: u16,
    file: Seq<char>,
    text: Seq<char>,
)
    requires
        mac_next(signer, s, e, suffix).1 == MacActionView::WriteEntitlements(file, text),
    ensures
        s.step == MacStepView::Signing(EntitlementsStepView::Probing(file)),
        e == EventView::Exists(false),
        text == s.default_entitlements,
{
}

/// A signing with a configured entitlements file never writes or removes a
/// file.
pub proof fn lemma_configured_entitlements_untouched(
    signer: MacSignerView,
    s: MacSigningView,
    e: EventView,
    suffix: u16,
)
    requires
        mac_invariant(signer, s),
        signer.entitlements is Some,
    ensures
        !(mac_next(signer, s, e, suffix).1 is WriteEntitlements),
        !(mac_next(signer, s, e, suffix).1 is Remove),
{
}

/// Codesign signs the artefact as the signer's identity, with the configured
/// entitlements file where there is one.
pub proof fn lemma_codesign_uses_identity(
    signer: MacSignerView,
    s: MacSigningView,
    e: EventView,
    suffix: u16,
)
    requires
        mac_invariant(signer, s),
        mac_next(signer, s, e, suffix).1 is Codesign,
    ensures
        exists|file: Seq<char>|
            mac_next(signer, s, e, suffix).1 == MacActionView::Codesign(
                parsed_command(codesign_text(file, identity_for(signer), signer.artefact)),
            ) && (signer.entitlements is Some ==> file == signer.entitlements->0),
{
}

/// A temporary entitlements file is checked for right after codesign
/// succeeded with it, and removed where it still exists.
pub proof fn lemma_temporary_file_cleaned(
    signer: MacSignerView,
    s: MacSigningView,
    e: EventView,
    suffix: u16,
    file: Seq<char>,
)
    ensures
        s.step == MacStepView::Signing(EntitlementsStepView::Using(file, true)) && e
            == EventView::Exited(true) ==> mac_next(signer, s, e, suffix).1
            == MacActionView::Exists(file),
        s.step == MacStepView::Signing(EntitlementsStepView::Cleaning(file)) && e
            == EventView::Exists(true) ==> mac_next(signer, s, e, suffix).1
            == MacActionView::Remove(file),
{
}

/// `s` with the certificate password `password`.
pub open spec fn with_password(s: MacSigningView, password: Option<Seq<char>>) -> MacSigningView {
    MacSigningView {
        security: SecurityView { certificate_password: password, ..s.security },
        ..s
    }
}

/// `signer` with the certificate password `password`.
pub open spec fn signer_with_password(
    signer: MacSignerView,
    password: Option<Seq<char>>,
) -> MacSignerView {
    MacSignerView { password, ..signer }
}

/// Two signings that differ only in the certificate password start alike,
/// with the same first request.
pub proof fn lemma_password_start(
    signer: MacSignerView,
    password: Option<Seq<char>>,
    current_dir: Seq<char>,
    keychain_file_exists: bool,
    default_entitlements: Seq<char>,
)
    ensures
        mac_start(
            signer_with_password(signer, password),
            current_dir,
            keychain_file_exists,
            default_entitlements,
        ) == (
            with_password(
                mac_start(signer, current_dir, keychain_file_exists, default_entitlements).0,
                password,
            ),
            mac_start(signer, current_dir, keychain_file_exists, default_entitlements).1,
        ),
{
}

/// The certificate password reaches nothing but the argument after `-P` of
/// the certificate's import: two signings that differ only in the password
/// go to states that differ only in the password, and ask for the same thing,
/// but for that import run.
pub proof fn lemma_password_reaches_only_import(
    signer: MacSignerView,
    s: MacSigningView,
    e: EventView,
    suffix: u16,
    password: Option<Seq<char>>,
)
    ensures
        mac_next(signer_with_password(signer, password), with_password(s, password), e, suffix).0
            == with_password(mac_next(signer, s, e, suffix).0, password),
        mac_next(signer_with_password(signer, password), with_password(s, password), e, suffix).1
            == mac_next(signer, s, e, suffix).1 || (s.step is UnlockingKeychain && e
            == EventView::Exited(true) && mac_next(signer, s, e, suffix).1 == MacActionView::Run(
            import_line(
                s.security.certificate,
                password_or_empty(s.security.certificate_password),
                s.security.keychain_file,
            ),
        ) && mac_next(
            signer_with_password(signer, password),
            with_password(s, password),
            e,
            suffix,
        ).1 == MacActionView::Run(
            import_line(
                s.security.certificate,
                password_or_empty(password),
                s.security.keychain_file,
            ),
        )),
{
}

/// Where the program of a keychain step, of codesign or of a deletion exits
/// unsuccessfully, the signing ends: it fails, says why, and keeps its
/// keychain record as it was.
pub proof fn lemma_failed_run_ends_signing(signer: MacSignerView, s: MacSigningView, suffix: u16)
    requires
        s.step is DeletingStaleKeychain || s.step is CreatingKeychain || s.step is AddingKeychain
            || s.step is ConfiguringKeychain || s.step is UnlockingKeychain
            || s.step is ImportingCertificate || s.step is PartitioningKey
            || s.step is DeletingKeychain || (s.step is Signing && s.step->Signing_0 is Using),
    ensures
        mac_next(signer, s, EventView::Exited(false), suffix).0.step is Failed,
        mac_next(signer, s, EventView::Exited(false), suffix).1 is Fail,
        mac_next(signer, s, EventView::Exited(false), suffix).0.step->Failed_0 == mac_next(
            signer,
            s,
            EventView::Exited(false),
            suffix,
        ).1->Fail_0,
        mac_next(signer, s, EventView::Exited(false), suffix).0.security == s.security,
{
}

/// Where the program whose output is needed cannot be started, the signing
/// fails.
pub proof fn lemma_missing_output_ends_signing(
    signer: MacSignerView,
    s: MacSigningView,
    suffix: u16,
)
    requires
        s.step is ListingKeychains || s.step is FindingIdentity,
    ensures
        mac_next(signer, s, EventView::Output(None), suffix).0.step is Failed,
        mac_next(signer, s, EventView::Output(None), suffix).1 is Fail,
        mac_next(signer, s, EventView::Output(None), suffix).0.security == s.security,
{
}

/// The keychain is set up in order: each step is reached only from the step
/// before it, and only after that step succeeded; codesign comes only after
/// the key partition list was set.
pub proof fn lemma_setup_in_order(signer: MacSignerView, s: MacSigningView, e: EventView, suffix: u16)
    ensures
        ({
            let t = mac_next(signer, s, e, suffix).0.step;
            &&& t is CreatingKeychain && !(s.step is CreatingKeychain) ==> s.step is DeletingStaleKeychain
                && e == EventView::Exited(true)
            &&& t is ListingKeychains && !(s.step is ListingKeychains) ==> s.step is CreatingKeychain
                && e == EventView::Exited(true)
            &&& t is AddingKeychain && !(s.step is AddingKeychain) ==> s.step is ListingKeychains
                && e is Output && e->Output_0 is Some
            &&& t is ConfiguringKeychain && !(s.step is ConfiguringKeychain) ==> s.step is AddingKeychain
                && e == EventView::Exited(true)
            &&& t is UnlockingKeychain && !(s.step is UnlockingKeychain) ==> s.step is ConfiguringKeychain
                && e == EventView::Exited(true)
            &&& t is ImportingCertificate && !(s.step is ImportingCertificate) ==> s.step is UnlockingKeychain
                && e == EventView::Exited(true)
            &&& t is FindingIdentity && !(s.step is FindingIdentity) ==> s.step is ImportingCertificate
                && e == EventView::Exited(true)
            &&& t is PartitioningKey && !(s.step is PartitioningKey) ==> s.step is FindingIdentity
                && e is Output && e->Output_0 is Some
            &&& t is Signing && !(s.step is Signing) ==> s.step is PartitioningKey && e
                == EventView::Exited(true)
        }),
{
}

/// A finished or failed signing stays as it is and asks for nothing more.
pub proof fn lemma_end_is_final(
    signer: MacSignerView,
    s: MacSigningView,
    e: EventView,
    suffix: u16,
)
    requires
        s.step is Finished || s.step is Failed,
    ensures
        mac_next(signer, s, e, suffix).0 == s,
        s.step is Finished ==> mac_next(signer, s, e, suffix).1 == MacActionView::Finish,
        s.step is Failed ==> mac_next(signer, s, e, suffix).1 == MacActionView::Fail(
            s.step->Failed_0,
        ),
{
}

} // verus!
