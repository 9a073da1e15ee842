//! The checking adapter: a session over a stateful spelling engine that
//! owns two paired native resources, a speller and a document checker
//! bound to it.
//!
//! The engine itself lives outside this library (it is a native library
//! driven through foreign calls), so the session is modelled as a state
//! machine: the caller performs one engine operation per returned
//! [`EngineAction`] and reports what happened as an event. The machine
//! decides every ordering question — construction is all-or-nothing (a
//! failure while building the document checker still releases the speller),
//! teardown releases the checker strictly before the speller, and each
//! fragment's hit sequence is drained to its zero-length sentinel before
//! the next fragment may be submitted.

use crate::fragment::MisspellingHit;
use crate::lines::LINE_FEED;
use vstd::prelude::*;

verus! {

/// The largest fragment length the engine can address in one submission.
pub const MAX_SUBMISSION_LENGTH: usize = 0x7fff_ffff;

/// The default language tag, `en_US`, as bytes.
pub open spec fn default_language() -> Seq<u8> {
    seq![101u8, 110u8, 95u8, 85u8, 83u8]
}

/// What the engine is configured with, once, at construction: a language,
/// the camel-case and run-together word-splitting switches, and zero or
/// more supplementary word-list files to merge in.
pub struct EngineConfig {
    pub language: Vec<u8>,
    pub camel_case: bool,
    pub run_together: bool,
    pub wordlists: Vec<Vec<u8>>,
}

impl EngineConfig {
    /// The view: language bytes, the two switches, and the word-list paths.
    pub open spec fn model(self) -> (Seq<u8>, bool, bool, Seq<Seq<u8>>) {
        (self.language@, self.camel_case, self.run_together, self.wordlists@.map_values(|w: Vec<u8>| w@))
    }

    /// The default configuration: the fixed default locale with both
    /// splitting switches enabled, plus the given word lists.
    pub fn new_default(wordlists: Vec<Vec<u8>>) -> (config: EngineConfig)
        ensures
            config.language@ == default_language(),
            config.camel_case,
            config.run_together,
            config.wordlists == wordlists,
    {
        let mut language: Vec<u8> = Vec::new();
        language.push(101);
        language.push(110);
        language.push(95);
        language.push(85);
        language.push(83);
        proof {
            assert(language@ =~= default_language());
        }
        EngineConfig { language, camel_case: true, run_together: true, wordlists }
    }
}

/// Where a session stands in its lifecycle.
#[derive(Clone, Copy, PartialEq, Eq, Structural, Debug)]
pub enum Phase {
    /// The speller is being constructed.
    AwaitSpeller,
    /// The speller exists; the document checker is being constructed.
    AwaitChecker,
    /// Checker construction failed; the speller must still be released.
    FailRelease,
    /// Construction failed; nothing is live any more.
    Failed,
    /// Both resources are live and no submission is in progress.
    Ready,
    /// A fragment was submitted; hits are being pulled until the sentinel.
    Draining,
    /// Teardown has begun; the checker is being released first.
    ClosingChecker,
    /// The checker is gone; the speller is being released.
    ClosingSpeller,
    /// Teardown finished; nothing is live any more.
    Closed,
}

/// The one engine operation the caller must perform next.
#[derive(Clone, Copy, PartialEq, Eq, Structural, Debug)]
pub enum EngineAction {
    /// Construct the speller from the session's configuration.
    CreateSpeller,
    /// Construct the document checker bound to the live speller.
    CreateChecker,
    /// Release the document checker.
    ReleaseChecker,
    /// Release the speller.
    ReleaseSpeller,
    /// Pull the next misspelling for the current submission.
    PullNext,
    /// No engine work is owed.
    Idle,
}

/// What the engine reported back for the previous action.
pub enum EngineEvent {
    /// The speller was constructed.
    SpellerOk,
    /// Speller construction failed, with the engine's diagnostic text.
    SpellerErr(Seq<u8>),
    /// The document checker was constructed.
    CheckerOk,
    /// Checker construction failed, with the engine's diagnostic text.
    CheckerErr(Seq<u8>),
    /// The speller was released.
    SpellerReleased,
    /// The document checker was released.
    CheckerReleased,
    /// One pull: a (byte offset, byte length) token; length zero is the
    /// sentinel that ends the current submission's sequence.
    Pulled(usize, usize),
}

/// The session's abstract state.
pub struct SessionModel {
    pub phase: Phase,
    pub speller_live: bool,
    pub checker_live: bool,
    pub hits: Seq<MisspellingHit>,
    pub error: Option<Seq<u8>>,
    pub config: (Seq<u8>, bool, bool, Seq<Seq<u8>>),
}

/// Which events a state can answer.
pub open spec fn expects(s: SessionModel, e: EngineEvent) -> bool {
    match e {
        EngineEvent::SpellerOk => s.phase == Phase::AwaitSpeller,
        EngineEvent::SpellerErr(_) => s.phase == Phase::AwaitSpeller,
        EngineEvent::CheckerOk => s.phase == Phase::AwaitChecker,
        EngineEvent::CheckerErr(_) => s.phase == Phase::AwaitChecker,
        EngineEvent::SpellerReleased => s.phase == Phase::FailRelease || s.phase
            == Phase::ClosingSpeller,
        EngineEvent::CheckerReleased => s.phase == Phase::ClosingChecker,
        EngineEvent::Pulled(_, _) => s.phase == Phase::Draining,
    }
}

/// The transition relation: from a state and an engine event to the next
/// state and the next owed action.
pub open spec fn step(s: SessionModel, e: EngineEvent) -> (SessionModel, EngineAction) {
    match e {
        EngineEvent::SpellerOk => (
            SessionModel { phase: Phase::AwaitChecker, speller_live: true, ..s },
            EngineAction::CreateChecker,
        ),
        EngineEvent::SpellerErr(message) => (
            SessionModel { phase: Phase::Failed, error: Some(message), ..s },
            EngineAction::Idle,
        ),
        EngineEvent::CheckerOk => (
            SessionModel { phase: Phase::Ready, checker_live: true, ..s },
            EngineAction::Idle,
        ),
        EngineEvent::CheckerErr(message) => (
            SessionModel { phase: Phase::FailRelease, error: Some(message), ..s },
            EngineAction::ReleaseSpeller,
        ),
        EngineEvent::SpellerReleased => {
            if s.phase == Phase::FailRelease {
                (SessionModel { phase: Phase::Failed, speller_live: false, ..s }, EngineAction::Idle)
            } else {
                (SessionModel { phase: Phase::Closed, speller_live: false, ..s }, EngineAction::Idle)
            }
        },
        EngineEvent::CheckerReleased => (
            SessionModel { phase: Phase::ClosingSpeller, checker_live: false, ..s },
            EngineAction::ReleaseSpeller,
        ),
        EngineEvent::Pulled(offset, length) => {
            if length == 0 {
                (SessionModel { phase: Phase::Ready, ..s }, EngineAction::Idle)
            } else {
                (
                    SessionModel {
                        hits: s.hits.push(MisspellingHit { offset, length }),
                        ..s
                    },
                    EngineAction::PullNext,
                )
            }
        },
    }
}

/// The session invariant: what each phase says of the two native resources.
/// In particular the document checker is never live without the speller it
/// was bound to.
pub open spec fn inv(s: SessionModel) -> bool {
    &&& s.checker_live ==> s.speller_live
    &&& match s.phase {
        Phase::AwaitSpeller => !s.speller_live && !s.checker_live,
        Phase::AwaitChecker => s.speller_live && !s.checker_live,
        Phase::FailRelease => s.speller_live && !s.checker_live && s.error is Some,
        Phase::Failed => !s.speller_live && !s.checker_live && s.error is Some,
        Phase::Ready => s.speller_live && s.checker_live,
        Phase::Draining => s.speller_live && s.checker_live,
        Phase::ClosingChecker => s.speller_live && s.checker_live,
        Phase::ClosingSpeller => s.speller_live && !s.checker_live,
        Phase::Closed => !s.speller_live && !s.checker_live,
    }
}

/// Every expected step preserves the session invariant.
pub proof fn lemma_step_preserves_inv(s: SessionModel, e: EngineEvent)
    requires
        inv(s),
        expects(s, e),
    ensures
        inv(step(s, e).0),
{
}

/// A construction failure at the document-checker step does not leak the
/// speller: the machine's next action is to release it, and once the
/// release is acknowledged, nothing is live and the engine's diagnostic
/// is carried out as the session's error.
pub proof fn lemma_checker_failure_releases_speller(s: SessionModel, message: Seq<u8>)
    requires
        inv(s),
        s.phase == Phase::AwaitChecker,
    ensures
        step(s, EngineEvent::CheckerErr(message)).1 == EngineAction::ReleaseSpeller,
        !step(step(s, EngineEvent::CheckerErr(message)).0, EngineEvent::SpellerReleased).0.speller_live,
        !step(step(s, EngineEvent::CheckerErr(message)).0, EngineEvent::SpellerReleased).0.checker_live,
        step(step(s, EngineEvent::CheckerErr(message)).0, EngineEvent::SpellerReleased).0.error
            == Some(message),
        step(step(s, EngineEvent::CheckerErr(message)).0, EngineEvent::SpellerReleased).0.phase
            == Phase::Failed,
{
}

/// Teardown is ordered: from a ready session, closing releases the checker
/// first, and only its acknowledged release asks for the speller's; after
/// both, nothing is live.
pub proof fn lemma_teardown_order(s: SessionModel)
    requires
        inv(s),
        s.phase == Phase::ClosingChecker,
    ensures
        s.speller_live && s.checker_live,
        step(s, EngineEvent::CheckerReleased).1 == EngineAction::ReleaseSpeller,
        step(s, EngineEvent::CheckerReleased).0.speller_live,
        !step(s, EngineEvent::CheckerReleased).0.checker_live,
        !step(step(s, EngineEvent::CheckerReleased).0, EngineEvent::SpellerReleased).0.speller_live,
        step(step(s, EngineEvent::CheckerReleased).0, EngineEvent::SpellerReleased).0.phase
            == Phase::Closed,
{
}

/// Run a whole event trace through the machine.
pub open spec fn run_events(s: SessionModel, events: Seq<EngineEvent>) -> SessionModel
    decreases events.len(),
{
    if events.len() == 0 {
        s
    } else {
        run_events(step(s, events[0]).0, events.skip(1))
    }
}

/// Every event of the trace is expected where it arrives.
pub open spec fn trace_expected(s: SessionModel, events: Seq<EngineEvent>) -> bool
    decreases events.len(),
{
    events.len() == 0 || (expects(s, events[0]) && trace_expected(
        step(s, events[0]).0,
        events.skip(1),
    ))
}

/// Along any expected trace no half-destroyed state is observable: the
/// session invariant — in particular that the document checker never
/// outlives the speller it was bound to — holds after every step.
pub proof fn lemma_inv_along_trace(s: SessionModel, events: Seq<EngineEvent>)
    requires
        inv(s),
        trace_expected(s, events),
    ensures
        inv(run_events(s, events)),
    decreases events.len(),
{
    if events.len() > 0 {
        lemma_step_preserves_inv(s, events[0]);
        lemma_inv_along_trace(step(s, events[0]).0, events.skip(1));
    }
}

/// Run a whole sequence of pulls through the machine.
pub open spec fn run_pulls(s: SessionModel, pulls: Seq<(usize, usize)>) -> SessionModel
    decreases pulls.len(),
{
    if pulls.len() == 0 {
        s
    } else {
        run_pulls(step(s, EngineEvent::Pulled(pulls[0].0, pulls[0].1)).0, pulls.skip(1))
    }
}

/// The hits a sequence of non-sentinel pulls stands for.
pub open spec fn hits_of_pulls(pulls: Seq<(usize, usize)>) -> Seq<MisspellingHit> {
    pulls.map_values(|p: (usize, usize)| MisspellingHit { offset: p.0, length: p.1 })
}

/// Draining appends exactly the pulled tokens, in order, and stays in the
/// draining phase until the sentinel.
pub proof fn lemma_drain_collects_exactly(s: SessionModel, pulls: Seq<(usize, usize)>)
    requires
        inv(s),
        s.phase == Phase::Draining,
        forall|i: int| 0 <= i < pulls.len() ==> (#[trigger] pulls[i]).1 > 0,
    ensures
        run_pulls(s, pulls).hits == s.hits + hits_of_pulls(pulls),
        run_pulls(s, pulls).phase == Phase::Draining,
        run_pulls(s, pulls).speller_live == s.speller_live,
        run_pulls(s, pulls).checker_live == s.checker_live,
        run_pulls(s, pulls).error == s.error,
    decreases pulls.len(),
{
    if pulls.len() == 0 {
        assert(s.hits + hits_of_pulls(pulls) =~= s.hits);
    } else {
        let s1 = step(s, EngineEvent::Pulled(pulls[0].0, pulls[0].1)).0;
        lemma_step_preserves_inv(s, EngineEvent::Pulled(pulls[0].0, pulls[0].1));
        assert forall|i: int| 0 <= i < pulls.skip(1).len() implies (#[trigger] pulls.skip(
            1,
        )[i]).1 > 0 by {
            assert(pulls.skip(1)[i] == pulls[i + 1]);
        }
        lemma_drain_collects_exactly(s1, pulls.skip(1));
        assert(s1.hits + hits_of_pulls(pulls.skip(1)) =~= s.hits + hits_of_pulls(pulls));
    }
}

/// Sequential submissions are independent: begin a fragment, drain its
/// pulls to the sentinel, begin another and drain again — each drain's
/// collected hits are exactly its own pulls' tokens, never the other's.
pub proof fn lemma_submissions_independent(
    s: SessionModel,
    first: Seq<(usize, usize)>,
    second: Seq<(usize, usize)>,
)
    requires
        inv(s),
        s.phase == Phase::Ready,
        forall|i: int| 0 <= i < first.len() ==> (#[trigger] first[i]).1 > 0,
        forall|i: int| 0 <= i < second.len() ==> (#[trigger] second[i]).1 > 0,
    ensures
        ({
            let drained_first = run_pulls(begin_model(s), first);
            let settled = step(drained_first, EngineEvent::Pulled(0, 0)).0;
            let drained_second = run_pulls(begin_model(settled), second);
            &&& drained_first.hits == hits_of_pulls(first)
            &&& settled.hits == hits_of_pulls(first)
            &&& drained_second.hits == hits_of_pulls(second)
        }),
{
    let begun = begin_model(s);
    lemma_drain_collects_exactly(begun, first);
    assert(begun.hits + hits_of_pulls(first) =~= hits_of_pulls(first));
    let drained_first = run_pulls(begun, first);
    let settled = step(drained_first, EngineEvent::Pulled(0, 0)).0;
    lemma_step_preserves_inv(drained_first, EngineEvent::Pulled(0, 0));
    let begun_second = begin_model(settled);
    lemma_drain_collects_exactly(begun_second, second);
    assert(begun_second.hits + hits_of_pulls(second) =~= hits_of_pulls(second));
}

/// What beginning a fragment does to the abstract state: the previous
/// submission's hits are discarded and a new drain starts.
pub open spec fn begin_model(s: SessionModel) -> SessionModel {
    SessionModel { phase: Phase::Draining, hits: Seq::empty(), ..s }
}

/// A checker session: the state machine's concrete carrier. The engine's
/// two native resources live with the caller that performs the actions;
/// this type decides every transition and remembers the current
/// submission's hits and any construction error.
pub struct CheckerSession {
    pub phase: Phase,
    pub speller_live: bool,
    pub checker_live: bool,
    pub hits: Vec<MisspellingHit>,
    pub error: Option<Vec<u8>>,
    pub config: EngineConfig,
}

impl CheckerSession {
    /// The abstract state this session stands in.
    pub open spec fn model(self) -> SessionModel {
        SessionModel {
            phase: self.phase,
            speller_live: self.speller_live,
            checker_live: self.checker_live,
            hits: self.hits@,
            error: match self.error {
                Some(message) => Some(message@),
                None => None,
            },
            config: self.config.model(),
        }
    }

    /// Open a session: construction starts with the speller, built from
    /// the given configuration.
    pub fn open(config: EngineConfig) -> (r: (CheckerSession, EngineAction))
        ensures
            r.0.model() == (SessionModel {
                phase: Phase::AwaitSpeller,
                speller_live: false,
                checker_live: false,
                hits: Seq::empty(),
                error: None,
                config: config.model(),
            }),
            r.1 == EngineAction::CreateSpeller,
            inv(r.0.model()),
    {
        let session = CheckerSession {
            phase: Phase::AwaitSpeller,
            speller_live: false,
            checker_live: false,
            hits: Vec::new(),
            error: None,
            config,
        };
        proof {
            assert(session.model().hits =~= Seq::<MisspellingHit>::empty());
        }
        (session, EngineAction::CreateSpeller)
    }

    /// The speller was constructed.
    pub fn on_speller_ok(&mut self) -> (action: EngineAction)
        requires
            old(self).phase == Phase::AwaitSpeller,
        ensures
            (final(self).model(), action) == step(old(self).model(), EngineEvent::SpellerOk),
    {
        self.phase = Phase::AwaitChecker;
        self.speller_live = true;
        EngineAction::CreateChecker
    }

    /// Speller construction failed with the engine's diagnostic.
    pub fn on_speller_err(&mut self, message: Vec<u8>) -> (action: EngineAction)
        requires
            old(self).phase == Phase::AwaitSpeller,
        ensures
            (final(self).model(), action) == step(
                old(self).model(),
                EngineEvent::SpellerErr(message@),
            ),
    {
        self.phase = Phase::Failed;
        self.error = Some(message);
        EngineAction::Idle
    }

    /// The document checker was constructed; the session is ready.
    pub fn on_checker_ok(&mut self) -> (action: EngineAction)
        requires
            old(self).phase == Phase::AwaitChecker,
        ensures
            (final(self).model(), action) == step(old(self).model(), EngineEvent::CheckerOk),
    {
        self.phase = Phase::Ready;
        self.checker_live = true;
        EngineAction::Idle
    }

    /// Checker construction failed: the speller must now be released
    /// before the error is surfaced.
    pub fn on_checker_err(&mut self, message: Vec<u8>) -> (action: EngineAction)
        requires
            old(self).phase == Phase::AwaitChecker,
        ensures
            (final(self).model(), action) == step(
                old(self).model(),
                EngineEvent::CheckerErr(message@),
            ),
    {
        self.phase = Phase::FailRelease;
        self.error = Some(message);
        EngineAction::ReleaseSpeller
    }

    /// The speller was released (after a construction failure or at the
    /// end of teardown).
    pub fn on_speller_released(&mut self) -> (action: EngineAction)
        requires
            old(self).phase == Phase::FailRelease || old(self).phase == Phase::ClosingSpeller,
        ensures
            (final(self).model(), action) == step(old(self).model(), EngineEvent::SpellerReleased),
    {
        if self.phase == Phase::FailRelease {
            self.phase = Phase::Failed;
        } else {
            self.phase = Phase::Closed;
        }
        self.speller_live = false;
        EngineAction::Idle
    }

    /// The document checker was released; the speller's turn follows.
    pub fn on_checker_released(&mut self) -> (action: EngineAction)
        requires
            old(self).phase == Phase::ClosingChecker,
        ensures
            (final(self).model(), action) == step(old(self).model(), EngineEvent::CheckerReleased),
    {
        self.phase = Phase::ClosingSpeller;
        self.checker_live = false;
        EngineAction::ReleaseSpeller
    }

    /// One pulled token for the current submission; a zero length is the
    /// sentinel that ends it.
    pub fn on_pulled(&mut self, offset: usize, length: usize) -> (action: EngineAction)
        requires
            old(self).phase == Phase::Draining,
        ensures
            (final(self).model(), action) == step(
                old(self).model(),
                EngineEvent::Pulled(offset, length),
            ),
    {
        if length == 0 {
            self.phase = Phase::Ready;
            EngineAction::Idle
        } else {
            self.hits.push(MisspellingHit { offset, length });
            EngineAction::PullNext
        }
    }

    /// Submit one fragment's text: the previous submission's hits are
    /// discarded and the engine must be asked to process `text`, then be
    /// pulled until the sentinel. The text must be a single physical line
    /// and fit the engine's addressable length.
    pub fn begin_fragment(&mut self, text: &[u8]) -> (action: EngineAction)
        requires
            old(self).phase == Phase::Ready,
            forall|i: int| 0 <= i < text@.len() ==> text@[i] != LINE_FEED,
            text@.len() <= MAX_SUBMISSION_LENGTH,
        ensures
            final(self).model() == begin_model(old(self).model()),
            action == EngineAction::PullNext,
    {
        self.phase = Phase::Draining;
        self.hits.clear();
        proof {
            assert(final(self).model().hits =~= Seq::<MisspellingHit>::empty());
        }
        EngineAction::PullNext
    }

    /// The hits collected for the last completed submission.
    pub fn fragment_hits(&self) -> (hits: &Vec<MisspellingHit>)
        ensures
            hits@ == self.model().hits,
    {
        &self.hits
    }

    /// Begin teardown: the document checker is released strictly before
    /// the speller.
    pub fn close(&mut self) -> (action: EngineAction)
        requires
            old(self).phase == Phase::Ready,
        ensures
            final(self).model() == (SessionModel {
                phase: Phase::ClosingChecker,
                ..old(self).model()
            }),
            action == EngineAction::ReleaseChecker,
    {
        self.phase = Phase::ClosingChecker;
        EngineAction::ReleaseChecker
    }

    /// The construction error carried by a failed session.
    pub fn take_error(self) -> (message: Option<Vec<u8>>)
        ensures
            self.model().error is Some <==> message is Some,
            message is Some ==> message->0@ == self.model().error->0,
    {
        self.error
    }
}

} // verus!
