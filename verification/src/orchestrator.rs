//! The conversation state machine.
//!
//! A conversation alternates senior and junior turns over a growing,
//! append-only transcript. A round is one senior turn followed by one
//! junior turn; the round count increments only when the junior agent
//! responds. After each junior turn the machine checks agreement first
//! (a case-insensitive sentinel in the junior's reply), then round
//! exhaustion. A round bound of zero means a senior-only single opinion.
//! Failures and cancellation abort the conversation, always preserving the
//! transcript accumulated so far and never appending partial turn content.
//!
//! The machine decides; the surrounding driver performs the provider calls
//! and feeds each completed response back in as a plain value.

use vstd::prelude::*;

use crate::config::{clone_backend, AgentBackend, BackendModel, Config};
use crate::errors::ConversationError;
use crate::provider::{response_well_formed, validate_response, ChatMessage, LlmResponse, Role};
use crate::registry::{registry_keys_unique, supports, ProviderRegistry};
use crate::sentinel::{contains_sentinel, detect_sentinel};

verus! {

/// The agent a turn belongs to.
#[derive(Clone, Copy, Debug, PartialEq, Eq, Structural)]
pub enum Speaker {
    Senior,
    Junior,
}

/// How a conversation concluded.
#[derive(Clone, Copy, Debug, PartialEq, Eq, Structural)]
pub enum Outcome {
    /// The junior agent's reply contained the agreement sentinel.
    Agreed,
    /// The configured number of rounds ran out without agreement.
    RoundsExhausted,
    /// A failure or a cancellation ended the conversation early.
    Aborted,
}

/// Where the state machine stands.
#[derive(Clone, Copy, Debug, PartialEq, Eq, Structural)]
pub enum Phase {
    AwaitingSenior,
    AwaitingJunior,
    Done,
}

/// One completed turn of the transcript: the agent it belongs to and the
/// message it appended. Immutable once appended.
pub struct TranscriptEntry {
    pub speaker: Speaker,
    pub message: ChatMessage,
}

/// Mathematical value of a transcript entry.
#[verifier::ext_equal]
pub ghost struct EntryModel {
    pub speaker: Speaker,
    pub role: Role,
    pub content: Seq<char>,
}

impl View for TranscriptEntry {
    type V = EntryModel;

    open spec fn view(&self) -> EntryModel {
        EntryModel {
            speaker: self.speaker,
            role: self.message.role,
            content: self.message.content@,
        }
    }
}

/// Mathematical value of a transcript.
pub open spec fn entries_view(s: Seq<TranscriptEntry>) -> Seq<EntryModel> {
    s.map_values(|e: TranscriptEntry| e@)
}

/// Appending an entry appends its value.
pub proof fn lemma_entries_view_push(s: Seq<TranscriptEntry>, e: TranscriptEntry)
    ensures
        entries_view(s.push(e)) == entries_view(s).push(e@),
{
    assert(entries_view(s.push(e)) =~= entries_view(s).push(e@));
}

/// Mathematical state of a conversation.
#[verifier::ext_equal]
pub ghost struct ConvModel {
    pub senior: BackendModel,
    pub junior: BackendModel,
    pub sentinel: Seq<char>,
    pub max_rounds: int,
    pub rounds: int,
    pub transcript: Seq<EntryModel>,
    pub phase: Phase,
    pub outcome: Option<Outcome>,
    pub failure: Option<ConversationError>,
}

/// Well-formed conversation state: the transcript length follows the phase
/// and the round count, speakers strictly alternate starting with the
/// senior, every transcript message is an assistant message, and a
/// conversation is concluded exactly when it has an outcome.
pub open spec fn conv_wf(m: ConvModel) -> bool {
    &&& 0 <= m.rounds <= m.max_rounds
    &&& (m.phase == Phase::AwaitingSenior ==> m.transcript.len() == 2 * m.rounds && (m.rounds
        < m.max_rounds || (m.max_rounds == 0 && m.rounds == 0)))
    &&& (m.phase == Phase::AwaitingJunior ==> m.transcript.len() == 2 * m.rounds + 1 && m.rounds
        < m.max_rounds)
    &&& (m.phase == Phase::Done <==> m.outcome is Some)
    &&& (m.failure is Some ==> m.phase == Phase::Done && m.outcome == Some(Outcome::Aborted))
    &&& (m.outcome == Some(Outcome::Agreed) ==> m.transcript.len() == 2 * m.rounds && m.rounds
        >= 1)
    &&& (m.outcome == Some(Outcome::RoundsExhausted) ==> (m.max_rounds == 0 && m.rounds == 0
        && m.transcript.len() == 1) || (m.rounds == m.max_rounds && m.max_rounds >= 1
        && m.transcript.len() == 2 * m.rounds))
    &&& (m.outcome == Some(Outcome::Aborted) ==> m.transcript.len() == 2 * m.rounds
        || m.transcript.len() == 2 * m.rounds + 1)
    &&& (forall|i: int|
        0 <= i < m.transcript.len() ==> (#[trigger] m.transcript[i]).speaker == (if i % 2 == 0 {
            Speaker::Senior
        } else {
            Speaker::Junior
        }) && m.transcript[i].role == Role::Assistant)
}

/// The state a conversation starts in.
pub open spec fn initial_model(
    senior: BackendModel,
    junior: BackendModel,
    max_rounds: int,
    sentinel: Seq<char>,
) -> ConvModel {
    ConvModel {
        senior,
        junior,
        sentinel,
        max_rounds,
        rounds: 0,
        transcript: Seq::empty(),
        phase: Phase::AwaitingSenior,
        outcome: None,
        failure: None,
    }
}

/// One completed turn: the aggregated response text is appended as an
/// assistant message of the awaited agent. A senior turn under a zero
/// round bound concludes at once (senior-only single opinion); a junior
/// turn completes the round and then checks agreement first, exhaustion
/// second. A concluded conversation absorbs further turns.
pub open spec fn step_turn(m: ConvModel, content: Seq<char>) -> ConvModel {
    if m.phase == Phase::AwaitingSenior {
        let appended = ConvModel {
            transcript: m.transcript.push(
                EntryModel { speaker: Speaker::Senior, role: Role::Assistant, content },
            ),
            ..m
        };
        if m.max_rounds == 0 {
            ConvModel { phase: Phase::Done, outcome: Some(Outcome::RoundsExhausted), ..appended }
        } else {
            ConvModel { phase: Phase::AwaitingJunior, ..appended }
        }
    } else if m.phase == Phase::AwaitingJunior {
        let appended = ConvModel {
            transcript: m.transcript.push(
                EntryModel { speaker: Speaker::Junior, role: Role::Assistant, content },
            ),
            rounds: m.rounds + 1,
            ..m
        };
        if contains_sentinel(content, m.sentinel) {
            ConvModel { phase: Phase::Done, outcome: Some(Outcome::Agreed), ..appended }
        } else if m.rounds + 1 == m.max_rounds {
            ConvModel { phase: Phase::Done, outcome: Some(Outcome::RoundsExhausted), ..appended }
        } else {
            ConvModel { phase: Phase::AwaitingSenior, ..appended }
        }
    } else {
        m
    }
}

/// An abort: the conversation concludes with the carried error and the
/// transcript exactly as accumulated — no partial content is appended.
pub open spec fn step_abort(m: ConvModel, e: ConversationError) -> ConvModel {
    ConvModel { phase: Phase::Done, outcome: Some(Outcome::Aborted), failure: Some(e), ..m }
}

/// The state after feeding completed turns in order, stopping once the
/// conversation concludes.
pub open spec fn run_turns(m: ConvModel, cs: Seq<Seq<char>>) -> ConvModel
    decreases cs.len(),
{
    if cs.len() == 0 || m.phase == Phase::Done {
        m
    } else {
        run_turns(step_turn(m, cs[0]), cs.drop_first())
    }
}

/// How many of the offered turns are actually consumed before the
/// conversation concludes: a concluded conversation issues no further
/// provider calls.
pub open spec fn turns_used(m: ConvModel, cs: Seq<Seq<char>>) -> int
    decreases cs.len(),
{
    if cs.len() == 0 || m.phase == Phase::Done {
        0
    } else {
        1 + turns_used(step_turn(m, cs[0]), cs.drop_first())
    }
}

/// No offered content contains the sentinel.
pub open spec fn no_sentinel(cs: Seq<Seq<char>>, sentinel: Seq<char>) -> bool {
    forall|i: int| 0 <= i < cs.len() ==> !contains_sentinel(#[trigger] cs[i], sentinel)
}

/// A completed turn preserves well-formedness, appends exactly one message,
/// and never touches the configuration.
pub proof fn lemma_step_turn_wf(m: ConvModel, content: Seq<char>)
    requires
        conv_wf(m),
    ensures
        conv_wf(step_turn(m, content)),
        m.phase != Phase::Done ==> step_turn(m, content).transcript.len() == m.transcript.len()
            + 1,
        step_turn(m, content).max_rounds == m.max_rounds,
        step_turn(m, content).sentinel == m.sentinel,
        step_turn(m, content).senior == m.senior,
        step_turn(m, content).junior == m.junior,
{
    let m2 = step_turn(m, content);
    if m.phase == Phase::AwaitingSenior {
        assert(m.transcript.len() % 2 == 0);
    } else if m.phase == Phase::AwaitingJunior {
        assert(m.transcript.len() % 2 == 1);
    }
}

/// An abort preserves well-formedness and the transcript: cancellation or
/// failure never appends partial content, so the transcript holds exactly
/// the fully completed turns.
pub proof fn lemma_step_abort_wf(m: ConvModel, e: ConversationError)
    requires
        conv_wf(m),
        m.phase != Phase::Done,
    ensures
        conv_wf(step_abort(m, e)),
        step_abort(m, e).transcript == m.transcript,
        step_abort(m, e).outcome == Some(Outcome::Aborted),
        step_abort(m, e).failure == Some(e),
{
}

/// A concluded conversation consumes nothing further: no more provider
/// calls occur and the state stands.
pub proof fn lemma_done_absorbs(m: ConvModel, cs: Seq<Seq<char>>)
    requires
        m.phase == Phase::Done,
    ensures
        run_turns(m, cs) == m,
        turns_used(m, cs) == 0,
{
}

/// The transcript length after any run equals the length before plus the
/// number of turns actually executed, and well-formedness is preserved.
pub proof fn lemma_transcript_tracks_turns(m: ConvModel, cs: Seq<Seq<char>>)
    requires
        conv_wf(m),
    ensures
        conv_wf(run_turns(m, cs)),
        run_turns(m, cs).transcript.len() == m.transcript.len() + turns_used(m, cs),
        0 <= turns_used(m, cs) <= cs.len(),
    decreases cs.len(),
{
    if cs.len() == 0 || m.phase == Phase::Done {
    } else {
        lemma_step_turn_wf(m, cs[0]);
        lemma_transcript_tracks_turns(step_turn(m, cs[0]), cs.drop_first());
    }
}

/// Speakers of a well-formed transcript strictly alternate senior, junior,
/// senior, junior, and every message is an assistant message.
pub proof fn lemma_transcript_alternates(m: ConvModel)
    requires
        conv_wf(m),
    ensures
        forall|i: int|
            0 <= i < m.transcript.len() ==> (#[trigger] m.transcript[i]).speaker == (if i % 2
                == 0 {
                Speaker::Senior
            } else {
                Speaker::Junior
            }) && m.transcript[i].role == Role::Assistant,
{
}

/// From the start of a round, feeding one full round of turns per
/// remaining round, none containing the sentinel, concludes the
/// conversation with round exhaustion, consuming every offered turn.
proof fn lemma_rounds_progress(m: ConvModel, cs: Seq<Seq<char>>)
    requires
        conv_wf(m),
        m.phase == Phase::AwaitingSenior,
        m.max_rounds >= 1,
        cs.len() == 2 * (m.max_rounds - m.rounds),
        no_sentinel(cs, m.sentinel),
    ensures
        run_turns(m, cs).phase == Phase::Done,
        run_turns(m, cs).outcome == Some(Outcome::RoundsExhausted),
        turns_used(m, cs) == cs.len(),
        run_turns(m, cs).transcript.len() == m.transcript.len() + cs.len(),
    decreases cs.len(),
{
    lemma_step_turn_wf(m, cs[0]);
    let m1 = step_turn(m, cs[0]);
    let cs1 = cs.drop_first();
    assert(m1.phase == Phase::AwaitingJunior);
    assert(cs1[0] == cs[1]);
    assert(!contains_sentinel(cs[1], m.sentinel));
    lemma_step_turn_wf(m1, cs1[0]);
    let m2 = step_turn(m1, cs1[0]);
    let cs2 = cs1.drop_first();
    assert(run_turns(m, cs) == run_turns(m1, cs1));
    assert(run_turns(m1, cs1) == run_turns(m2, cs2));
    assert(turns_used(m, cs) == 1 + turns_used(m1, cs1));
    assert(turns_used(m1, cs1) == 1 + turns_used(m2, cs2));
    if m.rounds + 1 == m.max_rounds {
        assert(cs2.len() == 0);
        assert(m2.phase == Phase::Done);
        assert(m2.outcome == Some(Outcome::RoundsExhausted));
    } else {
        assert(m2.phase == Phase::AwaitingSenior);
        assert(cs2.len() == 2 * (m2.max_rounds - m2.rounds));
        assert forall|i: int| 0 <= i < cs2.len() implies !contains_sentinel(
            #[trigger] cs2[i],
            m2.sentinel,
        ) by {
            assert(cs2[i] == cs[i + 2]);
        }
        lemma_rounds_progress(m2, cs2);
    }
}

/// With a round bound of at least one and no agreement sentinel appearing,
/// a conversation executes exactly two turns per round — the senior's and
/// the junior's — and concludes with round exhaustion.
pub proof fn lemma_rounds_exhausted(
    senior: BackendModel,
    junior: BackendModel,
    max_rounds: int,
    sentinel: Seq<char>,
    cs: Seq<Seq<char>>,
)
    requires
        max_rounds >= 1,
        cs.len() == 2 * max_rounds,
        no_sentinel(cs, sentinel),
    ensures
        run_turns(initial_model(senior, junior, max_rounds, sentinel), cs).phase == Phase::Done,
        run_turns(initial_model(senior, junior, max_rounds, sentinel), cs).outcome == Some(
            Outcome::RoundsExhausted,
        ),
        turns_used(initial_model(senior, junior, max_rounds, sentinel), cs) == 2 * max_rounds,
        run_turns(initial_model(senior, junior, max_rounds, sentinel), cs).transcript.len() == 2
            * max_rounds,
{
    let m = initial_model(senior, junior, max_rounds, sentinel);
    assert(conv_wf(m));
    lemma_rounds_progress(m, cs);
}

/// A round bound of zero yields exactly one turn — the senior's — and
/// concludes with round exhaustion; no junior turn is ever issued.
pub proof fn lemma_zero_rounds(
    senior: BackendModel,
    junior: BackendModel,
    sentinel: Seq<char>,
    cs: Seq<Seq<char>>,
)
    requires
        cs.len() >= 1,
    ensures
        run_turns(initial_model(senior, junior, 0, sentinel), cs).phase == Phase::Done,
        run_turns(initial_model(senior, junior, 0, sentinel), cs).outcome == Some(
            Outcome::RoundsExhausted,
        ),
        turns_used(initial_model(senior, junior, 0, sentinel), cs) == 1,
        run_turns(initial_model(senior, junior, 0, sentinel), cs).transcript.len() == 1,
        run_turns(initial_model(senior, junior, 0, sentinel), cs).transcript[0].speaker
            == Speaker::Senior,
    decreases cs.len(),
{
    let m = initial_model(senior, junior, 0, sentinel);
    let m1 = step_turn(m, cs[0]);
    assert(m1.phase == Phase::Done);
    lemma_done_absorbs(m1, cs.drop_first());
}

/// From the start of a round, feeding rounds whose junior replies lack the
/// sentinel until a final junior reply that contains it, the conversation
/// concludes agreed, consuming exactly the offered turns. Agreement takes
/// precedence over simultaneous round exhaustion.
proof fn lemma_agreement_progress(m: ConvModel, cs: Seq<Seq<char>>)
    requires
        conv_wf(m),
        m.phase == Phase::AwaitingSenior,
        m.max_rounds >= 1,
        cs.len() >= 2,
        cs.len() % 2 == 0,
        m.rounds + cs.len() / 2 <= m.max_rounds,
        forall|i: int|
            0 <= i < cs.len() - 1 && i % 2 == 1 ==> !contains_sentinel(
                #[trigger] cs[i],
                m.sentinel,
            ),
        contains_sentinel(cs[cs.len() - 1], m.sentinel),
    ensures
        run_turns(m, cs).phase == Phase::Done,
        run_turns(m, cs).outcome == Some(Outcome::Agreed),
        turns_used(m, cs) == cs.len(),
        run_turns(m, cs).transcript.len() == m.transcript.len() + cs.len(),
    decreases cs.len(),
{
    lemma_step_turn_wf(m, cs[0]);
    let m1 = step_turn(m, cs[0]);
    let cs1 = cs.drop_first();
    assert(m1.phase == Phase::AwaitingJunior);
    assert(cs1[0] == cs[1]);
    lemma_step_turn_wf(m1, cs1[0]);
    let m2 = step_turn(m1, cs1[0]);
    let cs2 = cs1.drop_first();
    assert(run_turns(m, cs) == run_turns(m1, cs1));
    assert(run_turns(m1, cs1) == run_turns(m2, cs2));
    assert(turns_used(m, cs) == 1 + turns_used(m1, cs1));
    assert(turns_used(m1, cs1) == 1 + turns_used(m2, cs2));
    if cs.len() == 2 {
        assert(contains_sentinel(cs[1], m.sentinel));
        assert(m2.phase == Phase::Done);
        assert(m2.outcome == Some(Outcome::Agreed));
    } else {
        assert(1 < cs.len() - 1);
        assert(!contains_sentinel(cs[1], m.sentinel));
        assert(m2.phase == Phase::AwaitingSenior);
        assert(cs2.len() == cs.len() - 2);
        assert(m2.rounds + cs2.len() / 2 <= m2.max_rounds);
        assert forall|i: int|
            0 <= i < cs2.len() - 1 && i % 2 == 1 implies !contains_sentinel(
            #[trigger] cs2[i],
            m2.sentinel,
        ) by {
            assert(cs2[i] == cs[i + 2]);
        }
        assert(cs2[cs2.len() - 1] == cs[cs.len() - 1]);
        lemma_agreement_progress(m2, cs2);
    }
}

/// If the junior's reply at round `k` contains the agreement sentinel and
/// no earlier junior reply does, the conversation concludes agreed after
/// exactly `2k` turns; no further provider calls occur.
pub proof fn lemma_agreement(
    senior: BackendModel,
    junior: BackendModel,
    max_rounds: int,
    sentinel: Seq<char>,
    cs: Seq<Seq<char>>,
    k: int,
)
    requires
        1 <= k <= max_rounds,
        cs.len() == 2 * k,
        forall|i: int|
            0 <= i < cs.len() - 1 && i % 2 == 1 ==> !contains_sentinel(#[trigger] cs[i], sentinel),
        contains_sentinel(cs[cs.len() - 1], sentinel),
    ensures
        run_turns(initial_model(senior, junior, max_rounds, sentinel), cs).phase == Phase::Done,
        run_turns(initial_model(senior, junior, max_rounds, sentinel), cs).outcome == Some(
            Outcome::Agreed,
        ),
        turns_used(initial_model(senior, junior, max_rounds, sentinel), cs) == 2 * k,
        run_turns(initial_model(senior, junior, max_rounds, sentinel), cs).transcript.len() == 2
            * k,
{
    let m = initial_model(senior, junior, max_rounds, sentinel);
    assert(conv_wf(m));
    lemma_agreement_progress(m, cs);
}

/// Final value of a conversation: how it concluded, the transcript
/// snapshot, and optional structured findings.
pub struct ReviewVerdict {
    pub outcome: Outcome,
    pub transcript: Vec<TranscriptEntry>,
    pub findings: Option<String>,
}

/// The conversation orchestrator's state: owned exclusively by one
/// conversation, mutated only by appending one message per completed turn
/// and by concluding. The agent backends are fixed at construction and
/// never substituted.
pub struct Conversation {
    senior: AgentBackend,
    junior: AgentBackend,
    sentinel: String,
    max_rounds: usize,
    rounds_completed: usize,
    transcript: Vec<TranscriptEntry>,
    phase: Phase,
    outcome: Option<Outcome>,
    failure: Option<ConversationError>,
}

impl View for Conversation {
    type V = ConvModel;

    closed spec fn view(&self) -> ConvModel {
        ConvModel {
            senior: self.senior@,
            junior: self.junior@,
            sentinel: self.sentinel@,
            max_rounds: self.max_rounds as int,
            rounds: self.rounds_completed as int,
            transcript: entries_view(self.transcript@),
            phase: self.phase,
            outcome: self.outcome,
            failure: self.failure,
        }
    }
}

impl Conversation {
    /// Initialises a conversation: both configured backends must resolve to
    /// a registered provider that supports their model, checked before any
    /// provider call is attempted; otherwise initialisation fails fast with
    /// an unsupported-model error and no conversation exists.
    pub fn new(cfg: &Config, registry: &ProviderRegistry, sentinel: String) -> (r: Result<
        Conversation,
        ConversationError,
    >)
        requires
            registry_keys_unique(registry@),
        ensures
            r is Ok <==> supports(registry@, cfg.agents.senior@) && supports(
                registry@,
                cfg.agents.junior@,
            ),
            r matches Ok(c) ==> c@ == initial_model(
                cfg.agents.senior@,
                cfg.agents.junior@,
                cfg.agents.max_rounds as int,
                sentinel@,
            ) && conv_wf(c@),
            r is Err ==> r == Err::<Conversation, ConversationError>(
                ConversationError::UnsupportedModel,
            ),
    {
        if !registry.backend_supported(&cfg.agents.senior) {
            return Err(ConversationError::UnsupportedModel);
        }
        if !registry.backend_supported(&cfg.agents.junior) {
            return Err(ConversationError::UnsupportedModel);
        }
        let c = Conversation {
            senior: clone_backend(&cfg.agents.senior),
            junior: clone_backend(&cfg.agents.junior),
            sentinel,
            max_rounds: cfg.agents.max_rounds,
            rounds_completed: 0,
            transcript: Vec::new(),
            phase: Phase::AwaitingSenior,
            outcome: None,
            failure: None,
        };
        proof {
            assert(entries_view(c.transcript@) =~= Seq::<EntryModel>::empty());
            assert(c@ =~= initial_model(
                cfg.agents.senior@,
                cfg.agents.junior@,
                cfg.agents.max_rounds as int,
                sentinel@,
            ));
        }
        Ok(c)
    }

    /// True once the conversation has concluded.
    pub fn is_done(&self) -> (r: bool)
        ensures
            r == (self@.phase == Phase::Done),
    {
        match self.phase {
            Phase::Done => true,
            _ => false,
        }
    }

    /// The agent whose turn is awaited.
    pub fn next_speaker(&self) -> (s: Speaker)
        requires
            self@.phase != Phase::Done,
        ensures
            s == (if self@.phase == Phase::AwaitingSenior {
                Speaker::Senior
            } else {
                Speaker::Junior
            }),
    {
        match self.phase {
            Phase::AwaitingJunior => Speaker::Junior,
            _ => Speaker::Senior,
        }
    }

    /// The backend the senior agent is bound to.
    pub fn senior_backend(&self) -> (b: &AgentBackend)
        ensures
            b@ == self@.senior,
    {
        &self.senior
    }

    /// The backend the junior agent is bound to.
    pub fn junior_backend(&self) -> (b: &AgentBackend)
        ensures
            b@ == self@.junior,
    {
        &self.junior
    }

    /// The transcript accumulated so far, in turn order.
    pub fn transcript(&self) -> (t: &Vec<TranscriptEntry>)
        ensures
            entries_view(t@) == self@.transcript,
    {
        &self.transcript
    }

    /// Number of fully completed turns, which is exactly the transcript
    /// length.
    pub fn turns_executed(&self) -> (n: usize)
        ensures
            n == self@.transcript.len(),
    {
        self.transcript.len()
    }

    /// Number of completed rounds.
    pub fn rounds_completed(&self) -> (n: usize)
        ensures
            n == self@.rounds,
    {
        self.rounds_completed
    }

    /// The round bound the conversation was configured with.
    pub fn max_rounds(&self) -> (n: usize)
        ensures
            n == self@.max_rounds,
    {
        self.max_rounds
    }

    /// How the conversation concluded, if it has.
    pub fn outcome(&self) -> (o: Option<Outcome>)
        ensures
            o == self@.outcome,
    {
        self.outcome
    }

    /// The error a conversation was aborted with, if any.
    pub fn failure(&self) -> (e: Option<ConversationError>)
        ensures
            e == self@.failure,
    {
        self.failure
    }

    /// Consumes one completed turn. A well-formed response is appended as a
    /// single assistant message of the awaited agent and the termination
    /// policy is evaluated; a malformed response (empty content, no finish
    /// reason) aborts the conversation, retaining the transcript.
    pub fn on_response(&mut self, resp: LlmResponse) -> (r: Result<(), ConversationError>)
        requires
            old(self)@.phase != Phase::Done,
            conv_wf(old(self)@),
        ensures
            conv_wf(final(self)@),
            response_well_formed(resp) ==> r is Ok && final(self)@ == step_turn(
                old(self)@,
                resp.content@,
            ),
            !response_well_formed(resp) ==> r == Err::<(), ConversationError>(
                ConversationError::MalformedResponse,
            ) && final(self)@ == step_abort(old(self)@, ConversationError::MalformedResponse),
    {
        match validate_response(&resp) {
            Err(e) => {
                self.phase = Phase::Done;
                self.outcome = Some(Outcome::Aborted);
                self.failure = Some(e);
                proof {
                    assert(self@ =~= step_abort(old(self)@, ConversationError::MalformedResponse));
                    lemma_step_abort_wf(old(self)@, ConversationError::MalformedResponse);
                }
                Err(e)
            },
            Ok(()) => {
                match self.phase {
                    Phase::AwaitingSenior => {
                        let entry = TranscriptEntry {
                            speaker: Speaker::Senior,
                            message: ChatMessage { role: Role::Assistant, content: resp.content },
                        };
                        proof {
                            lemma_entries_view_push(self.transcript@, entry);
                        }
                        self.transcript.push(entry);
                        if self.max_rounds == 0 {
                            self.phase = Phase::Done;
                            self.outcome = Some(Outcome::RoundsExhausted);
                        } else {
                            self.phase = Phase::AwaitingJunior;
                        }
                    },
                    Phase::AwaitingJunior => {
                        let agreed = detect_sentinel(resp.content.as_str(), self.sentinel.as_str());
                        let entry = TranscriptEntry {
                            speaker: Speaker::Junior,
                            message: ChatMessage { role: Role::Assistant, content: resp.content },
                        };
                        proof {
                            lemma_entries_view_push(self.transcript@, entry);
                        }
                        self.transcript.push(entry);
                        self.rounds_completed = self.rounds_completed + 1;
                        if agreed {
                            self.phase = Phase::Done;
                            self.outcome = Some(Outcome::Agreed);
                        } else if self.rounds_completed == self.max_rounds {
                            self.phase = Phase::Done;
                            self.outcome = Some(Outcome::RoundsExhausted);
                        } else {
                            self.phase = Phase::AwaitingSenior;
                        }
                    },
                    Phase::Done => {
                        proof {
                            assert(false);
                        }
                    },
                }
                proof {
                    assert(self@ =~= step_turn(old(self)@, resp.content@));
                    lemma_step_turn_wf(old(self)@, resp.content@);
                }
                Ok(())
            },
        }
    }

    /// Aborts the conversation with the given error: the transcript is
    /// preserved exactly as accumulated, for diagnostics.
    pub fn on_failure(&mut self, e: ConversationError)
        requires
            old(self)@.phase != Phase::Done,
            conv_wf(old(self)@),
        ensures
            conv_wf(final(self)@),
            final(self)@ == step_abort(old(self)@, e),
            final(self)@.transcript == old(self)@.transcript,
    {
        self.phase = Phase::Done;
        self.outcome = Some(Outcome::Aborted);
        self.failure = Some(e);
        proof {
            assert(self@ =~= step_abort(old(self)@, e));
            lemma_step_abort_wf(old(self)@, e);
        }
    }

    /// Aborts on a cancellation delivered mid-call: no partial assistant
    /// message is ever appended, so the transcript holds exactly the fully
    /// completed turns.
    pub fn on_cancel(&mut self)
        requires
            old(self)@.phase != Phase::Done,
            conv_wf(old(self)@),
        ensures
            conv_wf(final(self)@),
            final(self)@ == step_abort(old(self)@, ConversationError::Cancelled),
            final(self)@.transcript == old(self)@.transcript,
    {
        self.on_failure(ConversationError::Cancelled);
    }

    /// Produces the final verdict of a concluded conversation, carrying the
    /// whole transcript snapshot.
    pub fn into_verdict(self) -> (v: ReviewVerdict)
        requires
            self@.phase == Phase::Done,
            conv_wf(self@),
        ensures
            Some(v.outcome) == self@.outcome,
            entries_view(v.transcript@) == self@.transcript,
            v.findings is None,
    {
        let outcome = match self.outcome {
            Some(o) => o,
            None => {
                proof {
                    assert(false);
                }
                Outcome::Aborted
            },
        };
        ReviewVerdict { outcome, transcript: self.transcript, findings: None }
    }
}

} // verus!
