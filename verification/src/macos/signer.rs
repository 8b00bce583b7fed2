//! Signing a macOS application: a temporary keychain is set up with the
//! certificate, codesign signs the artefact, and the keychain is deleted.
//!
//! The signing runs programs and touches files; `MacSigner::sign` decides,
//! from where the signing stands and what the caller reports of the last
//! action, what the caller is to do next.
use vstd::prelude::*;

use crate::command::{opt_view, CommandLine, Event, EventView, Invocation};
use crate::entitlements::{
    advance, entitlements_next, fresh_suffix, needs_candidate, step_entitlements,
    wants_candidate, EntitlementsAction, EntitlementsActionView, EntitlementsStep,
    EntitlementsStepView,
};
use crate::macos::codesign::{codesign_text, parsed_command, Codesign};
use crate::security::{
    add_line, create_line, delete_line, find_line, identity_of, import_line, initial_security,
    list_line, listing_of, partition_line, password_or_empty, settings_line, unlock_line,
    with_keychain, without_keychain, Security, SecurityView,
};

verus! {

/// The identity that signs when none is configured.
pub const FEENK_SIGNING_IDENTITY: &'static str =
    "Developer ID Application: feenk gmbh (77664ZXL29)";

/// Why a signing failed, where a keychain file could not be deleted.
pub const DELETE_FAILED: &'static str = "Could not delete a .keychain file";

/// Why a signing failed, where a keychain step other than deleting, listing
/// or adding failed.
pub const KEYCHAIN_FAILED: &'static str = "Could not create a .keychain file";

/// Why a signing failed, where keychains or identities could not be listed.
pub const LIST_FAILED: &'static str = "Could not list keychains";

/// Why a signing failed, where the temporary keychain could not be added to
/// the user domain.
pub const ADD_FAILED: &'static str = "Could add temporary keychain";

/// Why a signing failed, where no random name could be drawn for a
/// temporary entitlements file.
pub const NO_RANDOM_NAME: &'static str = "Could not draw a random entitlements file name";

/// Why a signing failed, where codesign did not succeed.
pub const CODESIGN_FAILED: &'static str = "Could not codesign";

/// Why a signing failed, where the caller reported something that does not
/// answer the last request.
pub const UNEXPECTED: &'static str = "Unexpected event";

/// A macOS artefact to sign and what to sign it with.
pub struct MacSigner {
    /// A folder (.app) or a .zip file that needs to be signed.
    pub artefact: String,
    /// Signing identity.
    pub singing_identity: Option<String>,
    /// File path to a .entitlements file.
    pub entitlements: Option<String>,
    /// Path to the .p12 certificate.
    pub certificate: String,
    /// Certificate password.
    pub password: Option<String>,
}

/// The mathematical value of a `MacSigner`.
pub struct MacSignerView {
    pub artefact: Seq<char>,
    pub singing_identity: Option<Seq<char>>,
    pub entitlements: Option<Seq<char>>,
    pub certificate: Seq<char>,
    pub password: Option<Seq<char>>,
}

impl View for MacSigner {
    type V = MacSignerView;

    open spec fn view(&self) -> MacSignerView {
        MacSignerView {
            artefact: self.artefact@,
            singing_identity: opt_view(self.singing_identity),
            entitlements: opt_view(self.entitlements),
            certificate: self.certificate@,
            password: opt_view(self.password),
        }
    }
}

/// Where a signing stands: which request the caller was last given.
pub enum MacStep {
    DeletingStaleKeychain,
    CreatingKeychain,
    ListingKeychains,
    AddingKeychain,
    ConfiguringKeychain,
    UnlockingKeychain,
    ImportingCertificate,
    FindingIdentity,
    PartitioningKey,
    /// Choosing, using and cleaning up the entitlements file; codesign runs
    /// while the file is in use.
    Signing(EntitlementsStep),
    DeletingKeychain,
    Finished,
    Failed(String),
}

/// The mathematical value of a `MacStep`.
pub enum MacStepView {
    DeletingStaleKeychain,
    CreatingKeychain,
    ListingKeychains,
    AddingKeychain,
    ConfiguringKeychain,
    UnlockingKeychain,
    ImportingCertificate,
    FindingIdentity,
    PartitioningKey,
    Signing(EntitlementsStepView),
    DeletingKeychain,
    Finished,
    Failed(Seq<char>),
}

impl View for MacStep {
    type V = MacStepView;

    open spec fn view(&self) -> MacStepView {
        match self {
            MacStep::DeletingStaleKeychain => MacStepView::DeletingStaleKeychain,
            MacStep::CreatingKeychain => MacStepView::CreatingKeychain,
            MacStep::ListingKeychains => MacStepView::ListingKeychains,
            MacStep::AddingKeychain => MacStepView::AddingKeychain,
            MacStep::ConfiguringKeychain => MacStepView::ConfiguringKeychain,
            MacStep::UnlockingKeychain => MacStepView::UnlockingKeychain,
            MacStep::ImportingCertificate => MacStepView::ImportingCertificate,
            MacStep::FindingIdentity => MacStepView::FindingIdentity,
            MacStep::PartitioningKey => MacStepView::PartitioningKey,
            MacStep::Signing(e) => MacStepView::Signing(e@),
            MacStep::DeletingKeychain => MacStepView::DeletingKeychain,
            MacStep::Finished => MacStepView::Finished,
            MacStep::Failed(m) => MacStepView::Failed(m@),
        }
    }
}

/// A signing in progress.
pub struct MacSigning {
    pub step: MacStep,
    pub security: Security,
    /// What a temporary entitlements file is to hold.
    pub default_entitlements: String,
}

/// The mathematical value of a `MacSigning`.
pub struct MacSigningView {
    pub step: MacStepView,
    pub security: SecurityView,
    pub default_entitlements: Seq<char>,
}

impl View for MacSigning {
    type V = MacSigningView;

    open spec fn view(&self) -> MacSigningView {
        MacSigningView {
            step: self.step@,
            security: self.security@,
            default_entitlements: self.default_entitlements@,
        }
    }
}

/// What the caller is to do next.
pub enum MacAction {
    /// Run this program and report `Exited`.
    Run(Invocation),
    /// Print this codesign run, run it and report `Exited`.
    Codesign(Invocation),
    /// Run this program with its standard output captured and report `Output`.
    Capture(Invocation),
    /// Report whether this file exists.
    Exists(String),
    /// Write the default entitlements (second) into this file (first) and
    /// report `Completed`.
    WriteEntitlements(String, String),
    /// Remove this file and report `Completed`.
    Remove(String),
    /// The artefact is signed.
    Finish,
    /// The signing failed, for this reason.
    Fail(String),
}

/// The mathematical value of a `MacAction`.
pub enum MacActionView {
    Run(CommandLine),
    Codesign(CommandLine),
    Capture(CommandLine),
    Exists(Seq<char>),
    WriteEntitlements(Seq<char>, Seq<char>),
    Remove(Seq<char>),
    Finish,
    Fail(Seq<char>),
}

impl View for MacAction {
    type V = MacActionView;

    open spec fn view(&self) -> MacActionView {
        match self {
            MacAction::Run(i) => MacActionView::Run(i@),
            MacAction::Codesign(i) => MacActionView::Codesign(i@),
            MacAction::Capture(i) => MacActionView::Capture(i@),
            MacAction::Exists(f) => MacActionView::Exists(f@),
            MacAction::WriteEntitlements(f, c) => MacActionView::WriteEntitlements(f@, c@),
            MacAction::Remove(f) => MacActionView::Remove(f@),
            MacAction::Finish => MacActionView::Finish,
            MacAction::Fail(m) => MacActionView::Fail(m@),
        }
    }
}

/// The identity that signs: the configured one, or `FEENK_SIGNING_IDENTITY`.
pub open spec fn identity_for(signer: MacSignerView) -> Seq<char> {
    match signer.singing_identity {
        Some(i) => i,
        None => FEENK_SIGNING_IDENTITY@,
    }
}

/// The signing `s` goes to `step` with `security` and asks for `action`.
pub open spec fn go(
    s: MacSigningView,
    step: MacStepView,
    security: SecurityView,
    action: MacActionView,
) -> (MacSigningView, MacActionView) {
    (MacSigningView { step, security, ..s }, action)
}

/// The signing `s` fails with `message`.
pub open spec fn failing(s: MacSigningView, message: Seq<char>) -> (
    MacSigningView,
    MacActionView,
) {
    go(s, MacStepView::Failed(message), s.security, MacActionView::Fail(message))
}

/// Once the entitlements file is no longer needed: the keychain is deleted
/// if it is recorded, else the signing is finished.
pub open spec fn wrap_up(s: MacSigningView) -> (MacSigningView, MacActionView) {
    match s.security.keychain {
        Some(k) => go(
            s,
            MacStepView::DeletingKeychain,
            s.security,
            MacActionView::Run(delete_line(k)),
        ),
        None => go(s, MacStepView::Finished, s.security, MacActionView::Finish),
    }
}

/// What the signing `s` does with a step of the entitlements file.
pub open spec fn follow_entitlements(
    signer: MacSignerView,
    s: MacSigningView,
    sub: (EntitlementsStepView, EntitlementsActionView),
) -> (MacSigningView, MacActionView) {
    let step = MacStepView::Signing(sub.0);
    let sec = s.security;
    match sub.1 {
        EntitlementsActionView::Exists(f) => go(s, step, sec, MacActionView::Exists(f)),
        EntitlementsActionView::Write(f, c) => go(
            s,
            step,
            sec,
            MacActionView::WriteEntitlements(f, c),
        ),
        EntitlementsActionView::Use(i, f) => go(
            s,
            step,
            sec,
            MacActionView::Codesign(parsed_command(codesign_text(f, i, signer.artefact))),
        ),
        EntitlementsActionView::Remove(f) => go(s, step, sec, MacActionView::Remove(f)),
        EntitlementsActionView::Done => wrap_up(s),
        EntitlementsActionView::Unexpected => failing(s, UNEXPECTED@),
        EntitlementsActionView::Unavailable => failing(s, NO_RANDOM_NAME@),
    }
}

/// The first request of a signing in `current_dir`, where the temporary
/// keychain file exists there or not: delete that stale keychain, else create
/// the keychain. A temporary entitlements file is to hold
/// `default_entitlements`.
pub open spec fn mac_start(
    signer: MacSignerView,
    current_dir: Seq<char>,
    keychain_file_exists: bool,
    default_entitlements: Seq<char>,
) -> (MacSigningView, MacActionView) {
    let security = initial_security(
        signer.certificate,
        signer.password,
        current_dir,
        keychain_file_exists,
    );
    let s = MacSigningView {
        step: MacStepView::DeletingStaleKeychain,
        security,
        default_entitlements,
    };
    match security.keychain {
        Some(k) => (s, MacActionView::Run(delete_line(k))),
        None => go(
            s,
            MacStepView::CreatingKeychain,
            security,
            MacActionView::Run(create_line(security.keychain_file)),
        ),
    }
}

/// One step of a signing: from where `s` stands and the caller's report `e`,
/// where it goes and what the caller is to do. `suffix` names the next
/// candidate entitlements file where a candidate is taken. The keychain
/// record changes only when the caller reports that the step that changes it
/// succeeded.
pub open spec fn mac_next(
    signer: MacSignerView,
    s: MacSigningView,
    e: EventView,
    suffix: u16,
) -> (MacSigningView, MacActionView) {
    let sec = s.security;
    let kc = sec.keychain_file;
    match s.step {
        MacStepView::DeletingStaleKeychain => match e {
            EventView::Exited(true) => go(
                s,
                MacStepView::CreatingKeychain,
                without_keychain(sec),
                MacActionView::Run(create_line(kc)),
            ),
            EventView::Exited(false) => failing(s, DELETE_FAILED@),
            _ => failing(s, UNEXPECTED@),
        },
        MacStepView::CreatingKeychain => match e {
            EventView::Exited(true) => go(
                s,
                MacStepView::ListingKeychains,
                with_keychain(sec),
                MacActionView::Capture(list_line()),
            ),
            EventView::Exited(false) => failing(s, KEYCHAIN_FAILED@),
            _ => failing(s, UNEXPECTED@),
        },
        MacStepView::ListingKeychains => match e {
            EventView::Output(Some(out)) => go(
                s,
                MacStepView::AddingKeychain,
                sec,
                MacActionView::Run(add_line(kc, listing_of(out))),
            ),
            EventView::Output(None) => failing(s, LIST_FAILED@),
            _ => failing(s, UNEXPECTED@),
        },
        MacStepView::AddingKeychain => match e {
            EventView::Exited(true) => go(
                s,
                MacStepView::ConfiguringKeychain,
                with_keychain(sec),
                MacActionView::Run(settings_line(kc)),
            ),
            EventView::Exited(false) => failing(s, ADD_FAILED@),
            _ => failing(s, UNEXPECTED@),
        },
        MacStepView::ConfiguringKeychain => match e {
            EventView::Exited(true) => go(
                s,
                MacStepView::UnlockingKeychain,
                with_keychain(sec),
                MacActionView::Run(unlock_line(kc)),
            ),
            EventView::Exited(false) => failing(s, KEYCHAIN_FAILED@),
            _ => failing(s, UNEXPECTED@),
        },
        MacStepView::UnlockingKeychain => match e {
            EventView::Exited(true) => go(
                s,
                MacStepView::ImportingCertificate,
                with_keychain(sec),
                MacActionView::Run(
                    import_line(sec.certificate, password_or_empty(sec.certificate_password), kc),
                ),
            ),
            EventView::Exited(false) => failing(s, KEYCHAIN_FAILED@),
            _ => failing(s, UNEXPECTED@),
        },
        MacStepView::ImportingCertificate => match e {
            EventView::Exited(true) => go(
                s,
                MacStepView::FindingIdentity,
                with_keychain(sec),
                MacActionView::Capture(find_line(kc)),
            ),
            EventView::Exited(false) => failing(s, KEYCHAIN_FAILED@),
            _ => failing(s, UNEXPECTED@),
        },
        MacStepView::FindingIdentity => match e {
            EventView::Output(Some(out)) => go(
                s,
                MacStepView::PartitioningKey,
                sec,
                MacActionView::Run(partition_line(identity_of(out), kc)),
            ),
            EventView::Output(None) => failing(s, LIST_FAILED@),
            _ => failing(s, UNEXPECTED@),
        },
        MacStepView::PartitioningKey => match e {
            EventView::Exited(true) => follow_entitlements(
                signer,
                s,
                entitlements_next(
                    identity_for(signer),
                    signer.entitlements,
                    s.default_entitlements,
                    EntitlementsStepView::Start,
                    EventView::Begin,
                    suffix,
                ),
            ),
            EventView::Exited(false) => failing(s, KEYCHAIN_FAILED@),
            _ => failing(s, UNEXPECTED@),
        },
        MacStepView::Signing(sub) => if sub is Using {
            match e {
                EventView::Exited(true) => follow_entitlements(
                    signer,
                    s,
                    entitlements_next(
                        identity_for(signer),
                        signer.entitlements,
                        s.default_entitlements,
                        sub,
                        EventView::Completed,
                        suffix,
                    ),
                ),
                EventView::Exited(false) => failing(s, CODESIGN_FAILED@),
                _ => failing(s, UNEXPECTED@),
            }
        } else {
            follow_entitlements(
                signer,
                s,
                entitlements_next(
                    identity_for(signer),
                    signer.entitlements,
                    s.default_entitlements,
                    sub,
                    e,
                    suffix,
                ),
            )
        },
        MacStepView::DeletingKeychain => match e {
            EventView::Exited(true) => go(
                s,
                MacStepView::Finished,
                without_keychain(sec),
                MacActionView::Finish,
            ),
            EventView::Exited(false) => failing(s, DELETE_FAILED@),
            _ => failing(s, UNEXPECTED@),
        },
        MacStepView::Finished => (s, MacActionView::Finish),
        MacStepView::Failed(m) => (s, MacActionView::Fail(m)),
    }
}

/// Whether the signing `s`, answered by `e`, needs a new candidate name for
/// the entitlements file.
pub open spec fn mac_needs_name(s: MacSigningView, e: EventView) -> bool {
    s.step is Signing && needs_candidate(s.step->Signing_0, e)
}

fn going(
    step: MacStep,
    security: Security,
    default_entitlements: String,
    action: MacAction,
) -> (r: (MacSigning, MacAction))
    ensures
        r.0@ == (MacSigningView {
            step: step@,
            security: security@,
            default_entitlements: default_entitlements@,
        }),
        r.1@ == action@,
{
    (MacSigning { step, security, default_entitlements }, action)
}

fn fail_with(security: Security, default_entitlements: String, message: &str) -> (r: (
    MacSigning,
    MacAction,
))
    ensures
        r.0@ == (MacSigningView {
            step: MacStepView::Failed(message@),
            security: security@,
            default_entitlements: default_entitlements@,
        }),
        r.1@ == MacActionView::Fail(message@),
{
    going(
        MacStep::Failed(String::from_str(message)),
        security,
        default_entitlements,
        MacAction::Fail(String::from_str(message)),
    )
}

impl MacSigner {
    /// The identity that signs: the configured one, or
    /// `FEENK_SIGNING_IDENTITY`.
    pub fn singing_identity(&self) -> (i: &str)
        ensures
            i@ == identity_for(self@),
            self.singing_identity matches Some(configured) ==> i@ == configured@,
            self.singing_identity is None ==> i@ == FEENK_SIGNING_IDENTITY@,
    {
        match &self.singing_identity {
            Some(identity) => identity.as_str(),
            None => FEENK_SIGNING_IDENTITY,
        }
    }

    /// One step of choosing, using and cleaning up the entitlements file:
    /// the configured file, else a fresh temporary file (named at random
    /// after `Product.entitlement` is taken, and never the name just
    /// reported taken) that holds
    /// `default_entitlements` while it is in use. Where no random name can
    /// be drawn, the step stays and `Unavailable` is answered.
    pub fn with_signing_identity_and_entitlements(
        &self,
        default_entitlements: &str,
        step: &mut EntitlementsStep,
        event: Event,
    ) -> (action: EntitlementsAction)
        ensures
            (exists|suffix: u16|
                (final(step)@, action@) == #[trigger] entitlements_next(
                    identity_for(self@),
                    self@.entitlements,
                    default_entitlements@,
                    old(step)@,
                    event@,
                    suffix,
                )) || (needs_candidate(old(step)@, event@) && final(step)@ == old(step)@
                && action is Unavailable),
            needs_candidate(old(step)@, event@) && action@ is Exists ==> action@->Exists_0
                != old(step)@->Probing_0,
    {
        step_entitlements(
            self.singing_identity(),
            &self.entitlements,
            default_entitlements,
            step,
            event,
        )
    }

    fn follow(
        &self,
        security: Security,
        default_entitlements: String,
        sub: EntitlementsStep,
        action: EntitlementsAction,
    ) -> (r: (MacSigning, MacAction))
        ensures
            (r.0@, r.1@) == follow_entitlements(
                self@,
                MacSigningView {
                    step: MacStepView::Signing(sub@),
                    security: security@,
                    default_entitlements: default_entitlements@,
                },
                (sub@, action@),
            ),
    {
        match action {
            EntitlementsAction::Exists(f) => going(
                MacStep::Signing(sub),
                security,
                default_entitlements,
                MacAction::Exists(f),
            ),
            EntitlementsAction::Write(f, c) => going(
                MacStep::Signing(sub),
                security,
                default_entitlements,
                MacAction::WriteEntitlements(f, c),
            ),
            EntitlementsAction::Use(i, f) => {
                let codesign = Codesign::new(i, f);
                let run = codesign.sign(self.artefact.as_str());
                going(MacStep::Signing(sub), security, default_entitlements, MacAction::Codesign(run))
            },
            EntitlementsAction::Remove(f) => going(
                MacStep::Signing(sub),
                security,
                default_entitlements,
                MacAction::Remove(f),
            ),
            EntitlementsAction::Done => match security.delete_keychain() {
                Some(run) => going(
                    MacStep::DeletingKeychain,
                    security,
                    default_entitlements,
                    MacAction::Run(run),
                ),
                None => going(MacStep::Finished, security, default_entitlements, MacAction::Finish),
            },
            EntitlementsAction::Unexpected => fail_with(security, default_entitlements, UNEXPECTED),
            EntitlementsAction::Unavailable => fail_with(
                security,
                default_entitlements,
                NO_RANDOM_NAME,
            ),
        }
    }

    /// Starts signing in the working directory `current_dir`, where the
    /// temporary keychain file exists or not (`keychain_file_exists`); a
    /// temporary entitlements file is to hold `default_entitlements`.
    pub fn start(
        &self,
        current_dir: &str,
        keychain_file_exists: bool,
        default_entitlements: String,
    ) -> (r: (MacSigning, MacAction))
        ensures
            (r.0@, r.1@) == mac_start(
                self@,
                current_dir@,
                keychain_file_exists,
                default_entitlements@,
            ),
    {
        let security = Security::new(
            self.certificate.clone(),
            self.password.clone(),
            current_dir,
            keychain_file_exists,
        );
        match security.delete_keychain() {
            Some(run) => going(
                MacStep::DeletingStaleKeychain,
                security,
                default_entitlements,
                MacAction::Run(run),
            ),
            None => {
                let run = security.create_keychain();
                going(MacStep::CreatingKeychain, security, default_entitlements, MacAction::Run(run))
            },
        }
    }

    /// One step of the signing `s`, where the caller reports `event`;
    /// `suffix` names the next candidate entitlements file where one is taken.
    pub fn transition(&self, s: MacSigning, event: Event, suffix: u16) -> (r: (
        MacSigning,
        MacAction,
    ))
        ensures
            (r.0@, r.1@) == mac_next(self@, s@, event@, suffix),
    {
        let mut sec = s.security;
        let text = s.default_entitlements;
        match s.step {
            MacStep::DeletingStaleKeychain => match event {
                Event::Exited(true) => {
                    sec.forget_keychain();
                    let run = sec.create_keychain();
                    going(MacStep::CreatingKeychain, sec, text, MacAction::Run(run))
                },
                Event::Exited(false) => fail_with(sec, text, DELETE_FAILED),
                _ => fail_with(sec, text, UNEXPECTED),
            },
            MacStep::CreatingKeychain => match event {
                Event::Exited(true) => {
                    sec.record_keychain();
                    let run = sec.list_keychains();
                    going(MacStep::ListingKeychains, sec, text, MacAction::Capture(run))
                },
                Event::Exited(false) => fail_with(sec, text, KEYCHAIN_FAILED),
                _ => fail_with(sec, text, UNEXPECTED),
            },
            MacStep::ListingKeychains => match event {
                Event::Output(Some(out)) => {
                    let keychains = Security::keychain_listing(out.as_str());
                    let run = sec.add_keychain_to_user_domain(&keychains);
                    going(MacStep::AddingKeychain, sec, text, MacAction::Run(run))
                },
                Event::Output(None) => fail_with(sec, text, LIST_FAILED),
                _ => fail_with(sec, text, UNEXPECTED),
            },
            MacStep::AddingKeychain => match event {
                Event::Exited(true) => {
                    sec.record_keychain();
                    let run = sec.set_keychain_settings();
                    going(MacStep::ConfiguringKeychain, sec, text, MacAction::Run(run))
                },
                Event::Exited(false) => fail_with(sec, text, ADD_FAILED),
                _ => fail_with(sec, text, UNEXPECTED),
            },
            MacStep::ConfiguringKeychain => match event {
                Event::Exited(true) => {
                    sec.record_keychain();
                    let run = sec.unlock_keychain();
                    going(MacStep::UnlockingKeychain, sec, text, MacAction::Run(run))
                },
                Event::Exited(false) => fail_with(sec, text, KEYCHAIN_FAILED),
                _ => fail_with(sec, text, UNEXPECTED),
            },
            MacStep::UnlockingKeychain => match event {
                Event::Exited(true) => {
                    sec.record_keychain();
                    let run = sec.import_keychain();
                    going(MacStep::ImportingCertificate, sec, text, MacAction::Run(run))
                },
                Event::Exited(false) => fail_with(sec, text, KEYCHAIN_FAILED),
                _ => fail_with(sec, text, UNEXPECTED),
            },
            MacStep::ImportingCertificate => match event {
                Event::Exited(true) => {
                    sec.record_keychain();
                    let run = sec.find_identity();
                    going(MacStep::FindingIdentity, sec, text, MacAction::Capture(run))
                },
                Event::Exited(false) => fail_with(sec, text, KEYCHAIN_FAILED),
                _ => fail_with(sec, text, UNEXPECTED),
            },
            MacStep::FindingIdentity => match event {
                Event::Output(Some(out)) => {
                    let id = Security::identity_in(out.as_str());
                    let run = sec.set_key_partition_list(id.as_str());
                    going(MacStep::PartitioningKey, sec, text, MacAction::Run(run))
                },
                Event::Output(None) => fail_with(sec, text, LIST_FAILED),
                _ => fail_with(sec, text, UNEXPECTED),
            },
            MacStep::PartitioningKey => match event {
                Event::Exited(true) => {
                    let mut sub = EntitlementsStep::Start;
                    let action = advance(
                        self.singing_identity(),
                        &self.entitlements,
                        text.as_str(),
                        &mut sub,
                        Event::Begin,
                        suffix,
                    );
                    self.follow(sec, text, sub, action)
                },
                Event::Exited(false) => fail_with(sec, text, KEYCHAIN_FAILED),
                _ => fail_with(sec, text, UNEXPECTED),
            },
            MacStep::Signing(sub) => {
                let mut sub = sub;
                let using = match &sub {
                    EntitlementsStep::Using(_, _) => true,
                    _ => false,
                };
                if using {
                    match event {
                        Event::Exited(true) => {
                            let action = advance(
                                self.singing_identity(),
                                &self.entitlements,
                                text.as_str(),
                                &mut sub,
                                Event::Completed,
                                suffix,
                            );
                            self.follow(sec, text, sub, action)
                        },
                        Event::Exited(false) => fail_with(sec, text, CODESIGN_FAILED),
                        _ => fail_with(sec, text, UNEXPECTED),
                    }
                } else {
                    let action = advance(
                        self.singing_identity(),
                        &self.entitlements,
                        text.as_str(),
                        &mut sub,
                        event,
                        suffix,
                    );
                    self.follow(sec, text, sub, action)
                }
            },
            MacStep::DeletingKeychain => match event {
                Event::Exited(true) => {
                    sec.forget_keychain();
                    going(MacStep::Finished, sec, text, MacAction::Finish)
                },
                Event::Exited(false) => fail_with(sec, text, DELETE_FAILED),
                _ => fail_with(sec, text, UNEXPECTED),
            },
            MacStep::Finished => going(MacStep::Finished, sec, text, MacAction::Finish),
            MacStep::Failed(m) => {
                let again = m.clone();
                going(MacStep::Failed(m), sec, text, MacAction::Fail(again))
            },
        }
    }

    /// One step of the signing `session`, where the caller reports `event`:
    /// the session moves on and the caller is told what to do next. A
    /// candidate entitlements file name that is needed is drawn at random,
    /// other than the one just reported taken; where none can be drawn, the
    /// signing fails.
    pub fn sign(&self, session: &mut MacSigning, event: Event) -> (action: MacAction)
        ensures
            (exists|suffix: u16|
                (final(session)@, action@) == #[trigger] mac_next(
                    self@,
                    old(session)@,
                    event@,
                    suffix,
                )) || (mac_needs_name(old(session)@, event@) && (final(session)@, action@)
                == failing(old(session)@, NO_RANDOM_NAME@)),
            mac_needs_name(old(session)@, event@) && action@ is Exists ==> action@->Exists_0
                != old(session)@.step->Signing_0->Probing_0,
    {
        let needs_name = match &session.step {
            MacStep::Signing(sub) => wants_candidate(sub, &event),
            _ => false,
        };
        let mut taken = MacSigning {
            step: MacStep::Finished,
            security: Security {
                certificate: String::new(),
                certificate_password: None,
                keychain: None,
                keychain_file: String::new(),
            },
            default_entitlements: String::new(),
        };
        std::mem::swap(&mut taken, session);
        let suffix = if needs_name {
            let drawn = match &taken.step {
                MacStep::Signing(EntitlementsStep::Probing(f)) => fresh_suffix(f.as_str()),
                _ => fresh_suffix(""),
            };
            match drawn {
                Some(x) => x,
                None => {
                    let (next, action) = fail_with(
                        taken.security,
                        taken.default_entitlements,
                        NO_RANDOM_NAME,
                    );
                    *session = next;
                    return action;
                },
            }
        } else {
            0
        };
        let (next, action) = self.transition(taken, event, suffix);
        *session = next;
        action
    }
}

} // verus!
