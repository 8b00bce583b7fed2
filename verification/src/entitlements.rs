//! The entitlements file handed to codesign: the configured one, or a fresh
//! temporary file that holds the default entitlements while it is in use.
use vstd::prelude::*;

use rand::RngCore;

use crate::command::{opt_view, Event, EventView};
use crate::text::{chars_of, decimal, lemma_decimal_value, push_decimal};

verus! {

/// The first name tried for a temporary entitlements file.
pub const FIRST_CANDIDATE: &'static str = "Product.entitlement";

/// The name tried after a name that was taken: `Product-<suffix>.entitlement`.
pub open spec fn candidate_name(suffix: u16) -> Seq<char> {
    "Product-"@ + decimal(suffix as nat) + ".entitlement"@
}

/// The name `Product-<suffix>.entitlement`.
pub fn candidate(suffix: u16) -> (name: String)
    ensures
        name@ == candidate_name(suffix),
{
    let mut name = String::from_str("Product-");
    push_decimal(&mut name, suffix);
    name.append(".entitlement");
    name
}

/// A random `u16` made of two bytes from the operating system's generator
/// (`rand::rngs::OsRng::try_fill_bytes`), or `None` where the generator
/// reports an error. Nothing is stated of the value: it is drawn at random.
#[verifier::external_body]
pub(crate) fn random_suffix() -> Option<u16> {
    let mut bytes = [0u8; 2];
    match rand::rngs::OsRng.try_fill_bytes(&mut bytes) {
        Ok(()) => Some(u16::from_ne_bytes(bytes)),
        Err(_) => None,
    }
}

/// Whether `suffix` names the candidate file `file`.
fn names_file(suffix: u16, file: &str) -> (b: bool)
    ensures
        b == (candidate_name(suffix) == file@),
{
    let a = chars_of(candidate(suffix).as_str());
    let b = chars_of(file);
    if a.len() != b.len() {
        return false;
    }
    let mut i: usize = 0;
    while i < a.len()
        invariant
            a@ == candidate_name(suffix),
            b@ == file@,
            a.len() == b.len(),
            i <= a.len(),
            forall|k: int| 0 <= k < i ==> a@[k] == b@[k],
        decreases a.len() - i,
    {
        if a[i] != b[i] {
            return false;
        }
        i = i + 1;
    }
    assert(a@ =~= b@);
    true
}

/// The suffix of the next candidate file after `taken` was reported to
/// exist: a random number, or the number after it where the random one
/// names `taken` itself, which is known to be there. `None` where no random
/// number can be drawn.
pub(crate) fn fresh_suffix(taken: &str) -> (r: Option<u16>)
    ensures
        r matches Some(s) ==> candidate_name(s) != taken@,
{
    match random_suffix() {
        Some(s) => if names_file(s, taken) {
            let t = s.wrapping_add(1);
            proof {
                lemma_candidate_names_distinct(s, t);
            }
            Some(t)
        } else {
            Some(s)
        },
        None => None,
    }
}

/// Where the choice of the entitlements file stands.
pub enum EntitlementsStep {
    /// Nothing asked yet.
    Start,
    /// Asked whether this candidate file exists.
    Probing(String),
    /// Asked to write the default entitlements into this (absent) file.
    Writing(String),
    /// Asked to sign with this file; `true` when it is a temporary file.
    Using(String, bool),
    /// Asked whether the temporary file still exists after use.
    Cleaning(String),
    /// Asked to remove the temporary file.
    Removing(String),
    /// The entitlements file is no longer needed.
    Done,
}

/// The mathematical value of an `EntitlementsStep`.
pub enum EntitlementsStepView {
    Start,
    Probing(Seq<char>),
    Writing(Seq<char>),
    Using(Seq<char>, bool),
    Cleaning(Seq<char>),
    Removing(Seq<char>),
    Done,
}

impl View for EntitlementsStep {
    type V = EntitlementsStepView;

    open spec fn view(&self) -> EntitlementsStepView {
        match self {
            EntitlementsStep::Start => EntitlementsStepView::Start,
            EntitlementsStep::Probing(f) => EntitlementsStepView::Probing(f@),
            EntitlementsStep::Writing(f) => EntitlementsStepView::Writing(f@),
            EntitlementsStep::Using(f, t) => EntitlementsStepView::Using(f@, *t),
            EntitlementsStep::Cleaning(f) => EntitlementsStepView::Cleaning(f@),
            EntitlementsStep::Removing(f) => EntitlementsStepView::Removing(f@),
            EntitlementsStep::Done => EntitlementsStepView::Done,
        }
    }
}

/// What the caller is asked to do next.
pub enum EntitlementsAction {
    /// Report whether this file exists.
    Exists(String),
    /// Write the default entitlements (second) into this file (first), then
    /// report `Completed`.
    Write(String, String),
    /// Do the work that needs the signing identity (first) and the
    /// entitlements file (second), then report `Completed`.
    Use(String, String),
    /// Remove this file, then report `Completed`.
    Remove(String),
    /// Nothing more is needed.
    Done,
    /// The event does not answer the last request.
    Unexpected,
    /// No random name could be drawn for the next candidate file.
    Unavailable,
}

/// The mathematical value of an `EntitlementsAction`.
pub enum EntitlementsActionView {
    Exists(Seq<char>),
    Write(Seq<char>, Seq<char>),
    Use(Seq<char>, Seq<char>),
    Remove(Seq<char>),
    Done,
    Unexpected,
    Unavailable,
}

impl View for EntitlementsAction {
    type V = EntitlementsActionView;

    open spec fn view(&self) -> EntitlementsActionView {
        match self {
            EntitlementsAction::Exists(f) => EntitlementsActionView::Exists(f@),
            EntitlementsAction::Write(f, c) => EntitlementsActionView::Write(f@, c@),
            EntitlementsAction::Use(i, f) => EntitlementsActionView::Use(i@, f@),
            EntitlementsAction::Remove(f) => EntitlementsActionView::Remove(f@),
            EntitlementsAction::Done => EntitlementsActionView::Done,
            EntitlementsAction::Unexpected => EntitlementsActionView::Unexpected,
            EntitlementsAction::Unavailable => EntitlementsActionView::Unavailable,
        }
    }
}

/// One step of choosing, using and cleaning up the entitlements file, for
/// the signing `identity` and the `configured` entitlements file, if any.
/// `suffix` names the next candidate when a candidate file is taken.
pub open spec fn entitlements_next(
    identity: Seq<char>,
    configured: Option<Seq<char>>,
    contents: Seq<char>,
    step: EntitlementsStepView,
    event: EventView,
    suffix: u16,
) -> (EntitlementsStepView, EntitlementsActionView) {
    match step {
        EntitlementsStepView::Start => match event {
            EventView::Begin => match configured {
                Some(e) => (
                    EntitlementsStepView::Using(e, false),
                    EntitlementsActionView::Use(identity, e),
                ),
                None => (
                    EntitlementsStepView::Probing(FIRST_CANDIDATE@),
                    EntitlementsActionView::Exists(FIRST_CANDIDATE@),
                ),
            },
            _ => (step, EntitlementsActionView::Unexpected),
        },
        EntitlementsStepView::Probing(file) => match event {
            EventView::Exists(true) => (
                EntitlementsStepView::Probing(candidate_name(suffix)),
                EntitlementsActionView::Exists(candidate_name(suffix)),
            ),
            EventView::Exists(false) => (
                EntitlementsStepView::Writing(file),
                EntitlementsActionView::Write(file, contents),
            ),
            _ => (step, EntitlementsActionView::Unexpected),
        },
        EntitlementsStepView::Writing(file) => match event {
            EventView::Completed => (
                EntitlementsStepView::Using(file, true),
                EntitlementsActionView::Use(identity, file),
            ),
            _ => (step, EntitlementsActionView::Unexpected),
        },
        EntitlementsStepView::Using(file, temporary) => match event {
            EventView::Completed => if temporary {
                (EntitlementsStepView::Cleaning(file), EntitlementsActionView::Exists(file))
            } else {
                (EntitlementsStepView::Done, EntitlementsActionView::Done)
            },
            _ => (step, EntitlementsActionView::Unexpected),
        },
        EntitlementsStepView::Cleaning(file) => match event {
            EventView::Exists(true) => (
                EntitlementsStepView::Removing(file),
                EntitlementsActionView::Remove(file),
            ),
            EventView::Exists(false) => (EntitlementsStepView::Done, EntitlementsActionView::Done),
            _ => (step, EntitlementsActionView::Unexpected),
        },
        EntitlementsStepView::Removing(file) => match event {
            EventView::Completed => (EntitlementsStepView::Done, EntitlementsActionView::Done),
            _ => (step, EntitlementsActionView::Unexpected),
        },
        EntitlementsStepView::Done => (step, EntitlementsActionView::Done),
    }
}

/// The default entitlements, and nothing else, are written, and only into
/// the candidate file that the caller has just reported absent.
pub proof fn lemma_write_only_absent(
    identity: Seq<char>,
    configured: Option<Seq<char>>,
    contents: Seq<char>,
    step: EntitlementsStepView,
    event: EventView,
    suffix: u16,
    file: Seq<char>,
    text: Seq<char>,
)
    requires
        entitlements_next(identity, configured, contents, step, event, suffix).1
            == EntitlementsActionView::Write(file, text),
    ensures
        step == EntitlementsStepView::Probing(file),
        event == EventView::Exists(false),
        text == contents,
{
}

/// The work is handed the signing identity; at the start, it is handed the
/// configured entitlements file at once where there is one, and nothing
/// where there is none (a file is probed for first).
pub proof fn lemma_use_identity(
    identity: Seq<char>,
    configured: Option<Seq<char>>,
    contents: Seq<char>,
    step: EntitlementsStepView,
    event: EventView,
    suffix: u16,
    who: Seq<char>,
    file: Seq<char>,
)
    requires
        entitlements_next(identity, configured, contents, step, event, suffix).1
            == EntitlementsActionView::Use(who, file),
    ensures
        who == identity,
        step is Start ==> configured == Some(file),
{
}

/// Once the entitlements file is no longer needed, nothing more is asked.
pub proof fn lemma_done_is_final(
    identity: Seq<char>,
    configured: Option<Seq<char>>,
    contents: Seq<char>,
    event: EventView,
    suffix: u16,
)
    ensures
        entitlements_next(
            identity,
            configured,
            contents,
            EntitlementsStepView::Done,
            event,
            suffix,
        ) == (
            EntitlementsStepView::Done,
            EntitlementsActionView::Done,
        ),
{
}

/// Candidate names are told apart by their suffixes, and none is the first
/// candidate.
pub proof fn lemma_candidate_names_distinct(s1: u16, s2: u16)
    ensures
        s1 != s2 ==> candidate_name(s1) != candidate_name(s2),
        candidate_name(s1) != FIRST_CANDIDATE@,
{
    reveal_strlit("Product-");
    reveal_strlit(".entitlement");
    reveal_strlit("Product.entitlement");
    let c1 = candidate_name(s1);
    assert(c1[7] == '-');
    assert(FIRST_CANDIDATE@[7] == '.');
    if s1 != s2 && candidate_name(s1) == candidate_name(s2) {
        lemma_decimal_value(s1 as nat);
        lemma_decimal_value(s2 as nat);
        let d1 = decimal(s1 as nat);
        let d2 = decimal(s2 as nat);
        assert(c1.len() == 8 + d1.len() + 12);
        assert(candidate_name(s2).len() == 8 + d2.len() + 12);
        assert(c1.subrange(8, 8 + d1.len() as int) =~= d1);
        assert(candidate_name(s2).subrange(8, 8 + d2.len() as int) =~= d2);
        assert(d1 == d2);
        assert(false);
    }
}

/// Where the candidate file is reported taken, the next candidate asked
/// about is the one named by the suffix drawn: two different suffixes lead
/// to two different questions, and neither asks about the first candidate
/// again; the rest of the state is the candidate alone.
pub proof fn lemma_taken_candidate_replaced(
    identity: Seq<char>,
    configured: Option<Seq<char>>,
    contents: Seq<char>,
    file: Seq<char>,
    s1: u16,
    s2: u16,
)
    ensures
        entitlements_next(
            identity,
            configured,
            contents,
            EntitlementsStepView::Probing(file),
            EventView::Exists(true),
            s1,
        ).1 == EntitlementsActionView::Exists(candidate_name(s1)),
        s1 != s2 ==> entitlements_next(
            identity,
            configured,
            contents,
            EntitlementsStepView::Probing(file),
            EventView::Exists(true),
            s1,
        ).1 != entitlements_next(
            identity,
            configured,
            contents,
            EntitlementsStepView::Probing(file),
            EventView::Exists(true),
            s2,
        ).1,
        entitlements_next(
            identity,
            configured,
            contents,
            EntitlementsStepView::Probing(file),
            EventView::Exists(true),
            s1,
        ).1 != EntitlementsActionView::Exists(FIRST_CANDIDATE@),
{
    lemma_candidate_names_distinct(s1, s2);
}

/// Whether `step` answered by `event` needs a new candidate name.
pub open spec fn needs_candidate(step: EntitlementsStepView, event: EventView) -> bool {
    step is Probing && event == EventView::Exists(true)
}

/// Carries out `entitlements_next` on `step`.
pub fn advance(
    identity: &str,
    configured: &Option<String>,
    contents: &str,
    step: &mut EntitlementsStep,
    event: Event,
    suffix: u16,
) -> (action: EntitlementsAction)
    ensures
        (final(step)@, action@) == entitlements_next(
            identity@,
            opt_view(*configured),
            contents@,
            old(step)@,
            event@,
            suffix,
        ),
{
    match step {
        EntitlementsStep::Start => match event {
            Event::Begin => match configured {
                Some(e) => {
                    *step = EntitlementsStep::Using(e.clone(), false);
                    EntitlementsAction::Use(String::from_str(identity), e.clone())
                },
                None => {
                    *step = EntitlementsStep::Probing(String::from_str(FIRST_CANDIDATE));
                    EntitlementsAction::Exists(String::from_str(FIRST_CANDIDATE))
                },
            },
            _ => EntitlementsAction::Unexpected,
        },
        EntitlementsStep::Probing(file) => match event {
            Event::Exists(true) => {
                let next = candidate(suffix);
                *step = EntitlementsStep::Probing(next.clone());
                EntitlementsAction::Exists(next)
            },
            Event::Exists(false) => {
                let f = file.clone();
                *step = EntitlementsStep::Writing(f.clone());
                EntitlementsAction::Write(f, String::from_str(contents))
            },
            _ => EntitlementsAction::Unexpected,
        },
        EntitlementsStep::Writing(file) => match event {
            Event::Completed => {
                let f = file.clone();
                *step = EntitlementsStep::Using(f.clone(), true);
                EntitlementsAction::Use(String::from_str(identity), f)
            },
            _ => EntitlementsAction::Unexpected,
        },
        EntitlementsStep::Using(file, temporary) => match event {
            Event::Completed => {
                if *temporary {
                    let f = file.clone();
                    *step = EntitlementsStep::Cleaning(f.clone());
                    EntitlementsAction::Exists(f)
                } else {
                    *step = EntitlementsStep::Done;
                    EntitlementsAction::Done
                }
            },
            _ => EntitlementsAction::Unexpected,
        },
        EntitlementsStep::Cleaning(file) => match event {
            Event::Exists(true) => {
                let f = file.clone();
                *step = EntitlementsStep::Removing(f.clone());
                EntitlementsAction::Remove(f)
            },
            Event::Exists(false) => {
                *step = EntitlementsStep::Done;
                EntitlementsAction::Done
            },
            _ => EntitlementsAction::Unexpected,
        },
        EntitlementsStep::Removing(_) => match event {
            Event::Completed => {
                *step = EntitlementsStep::Done;
                EntitlementsAction::Done
            },
            _ => EntitlementsAction::Unexpected,
        },
        EntitlementsStep::Done => EntitlementsAction::Done,
    }
}

/// Whether `step` answered by `event` needs a new candidate name.
pub fn wants_candidate(step: &EntitlementsStep, event: &Event) -> (b: bool)
    ensures
        b == needs_candidate(step@, event@),
{
    match (step, event) {
        (EntitlementsStep::Probing(_), Event::Exists(true)) => true,
        _ => false,
    }
}

/// Carries out one step of `entitlements_next`, drawing the next candidate
/// name at random where one is needed (never the name just reported taken);
/// where none can be drawn, the step stays and `Unavailable` is answered.
pub fn step_entitlements(
    identity: &str,
    configured: &Option<String>,
    contents: &str,
    step: &mut EntitlementsStep,
    event: Event,
) -> (action: EntitlementsAction)
    ensures
        (exists|suffix: u16|
            (final(step)@, action@) == #[trigger] entitlements_next(
                identity@,
                opt_view(*configured),
                contents@,
                old(step)@,
                event@,
                suffix,
            )) || (needs_candidate(old(step)@, event@) && final(step)@ == old(step)@
            && action is Unavailable),
        needs_candidate(old(step)@, event@) && action@ is Exists ==> action@->Exists_0
            != old(step)@->Probing_0,
{
    let suffix = if wants_candidate(step, &event) {
        let drawn = match step {
            EntitlementsStep::Probing(f) => fresh_suffix(f.as_str()),
            _ => fresh_suffix(""),
        };
        match drawn {
            Some(x) => x,
            None => return EntitlementsAction::Unavailable,
        }
    } else {
        0
    };
    advance(identity, configured, contents, step, event, suffix)
}

} // verus!
