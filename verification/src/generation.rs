//! The generation session: the verified bookkeeping of one autoregressive
//! decode loop, and the streaming sink it reports fragments to.
//!
//! The surrounding application performs the native work — tokenizing the
//! prompt, decoding batches, drawing tokens — and feeds each observation to
//! the session, which decides everything else: when the token budget is
//! spent, how the output grows, when a stop sequence trims and halts it, and
//! what a streaming consumer is told, in what order.

use vstd::prelude::*;

use crate::config::GenerateParams;
use crate::config::ChatMessage;
use crate::error::LlamaError;
use crate::session::run_halts;
use crate::session::run_text;
use crate::session::session_push;
use crate::session::step_halts;
use crate::session::step_text;
use crate::session::trace_wf;
use crate::session::lemma_run_snoc;
use crate::session::StepEvent;
use crate::slot::ModelSlot;
use crate::template::build_single_prompt;
use crate::template::chat_prompt;
use crate::template::format_chat_messages;
use crate::template::opt_str_view;
use crate::template::single_prompt;

verus! {

use vstd::string::StringExecFns;
use vstd::string::StringSliceAdditionalSpecFns;

/// Why a session ended.
#[derive(Debug, Clone, Copy, PartialEq, Eq, Structural)]
pub enum FinishReason {
    /// The sampler drew an end-of-generation token.
    EosReached,
    /// The output came to end with a configured stop sequence.
    StopMatched,
    /// The token budget was spent; a normal termination, not an error.
    BudgetExhausted,
}

/// Where a session stands.
#[derive(Debug, Clone, Copy, PartialEq, Eq, Structural)]
pub enum SessionPhase {
    /// Created; the prompt has not been decoded yet.
    AwaitingPrompt,
    /// The prompt is decoded and the session accepts sampled tokens.
    Generating,
    /// The session ended for the given reason.
    Finished(FinishReason),
}

/// A consumer of streamed generation events. Each event is a text fragment,
/// or the terminal end-of-stream mark when `done` is true.
pub trait FragmentSink: Sized {
    /// The events this sink has received, in order: each fragment's
    /// characters, with its end-of-stream flag. A sink that does not keep
    /// them reports none.
    open spec fn events(&self) -> Seq<(Seq<char>, bool)> {
        Seq::empty()
    }

    /// Receives one event.
    fn push_event(&mut self, fragment: &str, done: bool)
        ensures
            final(self).events() == old(self).events().push((fragment@, done)),
    ;
}

/// A sink that keeps every event it receives, for callers that collect a
/// stream rather than forward it.
pub struct RecorderSink {
    entries: Vec<(String, bool)>,
}

impl RecorderSink {
    /// An empty recorder.
    pub fn new() -> (s: RecorderSink)
        ensures
            s.events() == Seq::<(Seq<char>, bool)>::empty(),
    {
        let s = RecorderSink { entries: Vec::new() };
        proof {
            assert(s.events() =~= Seq::<(Seq<char>, bool)>::empty());
        }
        s
    }

    /// The recorded events.
    pub fn entries(&self) -> (r: &Vec<(String, bool)>)
        ensures
            r@.len() == self.events().len(),
            forall|i: int|
                0 <= i < r@.len() ==> self.events()[i] == (r@[i].0@, r@[i].1),
    {
        &self.entries
    }
}

impl FragmentSink for RecorderSink {
    closed spec fn events(&self) -> Seq<(Seq<char>, bool)> {
        self.entries@.map(|i: int, e: (String, bool)| (e.0@, e.1))
    }

    fn push_event(&mut self, fragment: &str, done: bool) {
        self.entries.push((String::from_str(fragment), done));
        proof {
            assert(self.events() =~= old(self).events().push((fragment@, done)));
        }
    }
}

/// Most prompt tokens a session accepts; native token counts are 32-bit
/// signed.
pub const MAX_PROMPT_TOKENS: usize = 0x7fff_ffff;

/// One generation call's state: the templated prompt to decode, the stop
/// sequences and token budget that govern the loop, the advancing cursor,
/// and the accumulated output. Ephemeral: created per call, never shared.
pub struct GenerationSession {
    prompt: String,
    stop_sequences: Vec<String>,
    max_tokens: u32,
    steps: u32,
    cursor: u64,
    output: String,
    phase: SessionPhase,
    history: Ghost<Seq<StepEvent>>,
}

impl GenerationSession {
    /// The full prompt this session decodes.
    pub closed spec fn prompt_view(&self) -> Seq<char> {
        self.prompt@
    }

    /// The configured stop sequences.
    pub closed spec fn stops_view(&self) -> Seq<Seq<char>> {
        self.stop_sequences.deep_view()
    }

    /// The token budget.
    pub closed spec fn budget(&self) -> u32 {
        self.max_tokens
    }

    /// How many sampled tokens the session has consumed.
    pub closed spec fn steps_taken(&self) -> u32 {
        self.steps
    }

    /// The next absolute token position.
    pub closed spec fn cursor_val(&self) -> u64 {
        self.cursor
    }

    /// The accumulated output.
    pub closed spec fn out_view(&self) -> Seq<char> {
        self.output@
    }

    /// Where the session stands.
    pub closed spec fn phase_of(&self) -> SessionPhase {
        self.phase
    }

    /// The events the session has consumed, in order.
    pub closed spec fn hist(&self) -> Seq<StepEvent> {
        self.history@
    }

    /// The session's invariant: the output is exactly the fold of the
    /// consumed events, the phase matches the trace, the step count stays
    /// within the budget, and the cursor stays within native position range.
    pub closed spec fn wf(&self) -> bool {
        &&& self.steps == self.hist().len()
        &&& self.steps <= self.max_tokens
        &&& self.cursor <= MAX_PROMPT_TOKENS as u64 + self.steps as u64
        &&& trace_wf(Seq::empty(), self.hist(), self.stops_view())
        &&& self.out_view() == run_text(Seq::empty(), self.hist(), self.stops_view())
        &&& match self.phase {
            SessionPhase::AwaitingPrompt => self.steps == 0 && self.cursor == 0 && self.hist()
                == Seq::<StepEvent>::empty(),
            SessionPhase::Generating => !run_halts(Seq::empty(), self.hist(), self.stops_view())
                && self.steps < self.max_tokens,
            SessionPhase::Finished(FinishReason::EosReached) => self.hist().len() > 0
                && self.hist().last() is Eos,
            SessionPhase::Finished(FinishReason::StopMatched) => run_halts(
                Seq::empty(),
                self.hist(),
                self.stops_view(),
            ),
            SessionPhase::Finished(FinishReason::BudgetExhausted) => !run_halts(
                Seq::empty(),
                self.hist(),
                self.stops_view(),
            ) && self.steps == self.max_tokens,
        }
    }

    /// A fresh session over a templated prompt, governed by `params`. No
    /// output has accumulated and no token has been consumed. Of the
    /// parameters, the session keeps what governs the loop — the token
    /// budget and the stop sequences; the sampling settings are read by the
    /// caller when it builds the native sampler chain.
    pub fn new(prompt: String, params: GenerateParams) -> (s: GenerationSession)
        ensures
            s.wf(),
            s.phase_of() == SessionPhase::AwaitingPrompt,
            s.prompt_view() == prompt@,
            s.stops_view() == params.stop_sequences.deep_view(),
            s.budget() == params.max_tokens,
            s.steps_taken() == 0,
            s.out_view() == Seq::<char>::empty(),
            s.hist() == Seq::<StepEvent>::empty(),
    {
        GenerationSession {
            prompt,
            stop_sequences: params.stop_sequences,
            max_tokens: params.max_tokens,
            steps: 0,
            cursor: 0,
            output: String::new(),
            phase: SessionPhase::AwaitingPrompt,
            history: Ghost(Seq::empty()),
        }
    }

    /// The prompt to hand to the tokenizer.
    pub fn prompt_text(&self) -> (r: &String)
        ensures
            r@ == self.prompt_view(),
    {
        &self.prompt
    }

    /// Records that the prompt was tokenized into `n_prompt_tokens` tokens
    /// and decoded; generation starts after it, so the cursor stands there.
    /// With a zero token budget the session is immediately over, with empty
    /// output and no sampling step consumed.
    pub fn prompt_ready(&mut self, n_prompt_tokens: usize)
        requires
            old(self).wf(),
            old(self).phase_of() == SessionPhase::AwaitingPrompt,
            n_prompt_tokens <= MAX_PROMPT_TOKENS,
        ensures
            final(self).wf(),
            final(self).cursor_val() == n_prompt_tokens as u64,
            final(self).cursor_val() >= old(self).cursor_val(),
            final(self).phase_of() == (if old(self).budget() == 0 {
                SessionPhase::Finished(FinishReason::BudgetExhausted)
            } else {
                SessionPhase::Generating
            }),
            final(self).out_view() == old(self).out_view(),
            final(self).hist() == old(self).hist(),
            final(self).steps_taken() == old(self).steps_taken(),
            final(self).prompt_view() == old(self).prompt_view(),
            final(self).stops_view() == old(self).stops_view(),
            final(self).budget() == old(self).budget(),
    {
        self.cursor = n_prompt_tokens as u64;
        if self.max_tokens == 0 {
            self.phase = SessionPhase::Finished(FinishReason::BudgetExhausted);
        } else {
            self.phase = SessionPhase::Generating;
        }
    }

    /// Whether the loop should draw another token.
    pub fn wants_token(&self) -> (r: bool)
        ensures
            r == (self.phase_of() == SessionPhase::Generating),
    {
        match self.phase {
            SessionPhase::Generating => true,
            _ => false,
        }
    }

    /// Consumes one sampled token, already decoded to its text fragment (or
    /// recognized as end-of-generation). Returns true when the token must
    /// not be fed back — the session halted on it: on end-of-generation the
    /// output is final as it stands; on a stop-sequence match the matched
    /// suffix has been trimmed off. Otherwise the caller feeds the token at
    /// the cursor's previous position and the cursor advances; spending the
    /// last budgeted token ends the session normally.
    pub fn push_token(&mut self, fragment: &str, is_eog: bool) -> (halted: bool)
        requires
            old(self).wf(),
            old(self).phase_of() == SessionPhase::Generating,
        ensures
            final(self).wf(),
            final(self).hist() == old(self).hist().push(
                if is_eog {
                    StepEvent::Eos
                } else {
                    StepEvent::Fragment(fragment@)
                },
            ),
            final(self).steps_taken() == old(self).steps_taken() + 1,
            final(self).cursor_val() >= old(self).cursor_val(),
            final(self).prompt_view() == old(self).prompt_view(),
            final(self).stops_view() == old(self).stops_view(),
            final(self).budget() == old(self).budget(),
            is_eog ==> {
                &&& final(self).out_view() == old(self).out_view()
                &&& final(self).phase_of() == SessionPhase::Finished(FinishReason::EosReached)
                &&& halted
                &&& final(self).cursor_val() == old(self).cursor_val()
            },
            !is_eog ==> {
                &&& final(self).out_view() == step_text(
                    old(self).out_view(),
                    fragment@,
                    old(self).stops_view(),
                )
                &&& halted == step_halts(old(self).out_view(), fragment@, old(self).stops_view())
                &&& (halted ==> final(self).phase_of() == SessionPhase::Finished(
                    FinishReason::StopMatched,
                ) && final(self).cursor_val() == old(self).cursor_val())
                &&& (!halted ==> final(self).cursor_val() == old(self).cursor_val() + 1
                    && final(self).phase_of() == (
                    if old(self).steps_taken() + 1 == old(self).budget() {
                        SessionPhase::Finished(FinishReason::BudgetExhausted)
                    } else {
                        SessionPhase::Generating
                    }))
            },
    {
        proof {
            lemma_run_snoc(
                Seq::empty(),
                self.history@,
                if is_eog {
                    StepEvent::Eos
                } else {
                    StepEvent::Fragment(fragment@)
                },
                self.stop_sequences.deep_view(),
            );
        }
        if is_eog {
            proof {
                self.history@ = self.history@.push(StepEvent::Eos);
            }
            self.steps = self.steps + 1;
            self.phase = SessionPhase::Finished(FinishReason::EosReached);
            true
        } else {
            let halts = session_push(&mut self.output, fragment, &self.stop_sequences);
            proof {
                self.history@ = self.history@.push(StepEvent::Fragment(fragment@));
            }
            self.steps = self.steps + 1;
            if halts {
                self.phase = SessionPhase::Finished(FinishReason::StopMatched);
                true
            } else {
                self.cursor = self.cursor + 1;
                if self.steps == self.max_tokens {
                    self.phase = SessionPhase::Finished(FinishReason::BudgetExhausted);
                }
                false
            }
        }
    }

    /// As `push_token`, and additionally streams the fragment to `sink`
    /// before it is accumulated, so the sink observes exactly what is
    /// appended, in generation order. A fragment later trimmed by a stop
    /// sequence has still been streamed; it is never un-sent. An
    /// end-of-generation signal streams nothing.
    pub fn push_token_streamed<S: FragmentSink>(
        &mut self,
        fragment: &str,
        is_eog: bool,
        sink: &mut S,
    ) -> (halted: bool)
        requires
            old(self).wf(),
            old(self).phase_of() == SessionPhase::Generating,
        ensures
            final(self).wf(),
            final(self).hist() == old(self).hist().push(
                if is_eog {
                    StepEvent::Eos
                } else {
                    StepEvent::Fragment(fragment@)
                },
            ),
            final(self).steps_taken() == old(self).steps_taken() + 1,
            final(self).cursor_val() >= old(self).cursor_val(),
            final(self).prompt_view() == old(self).prompt_view(),
            final(self).stops_view() == old(self).stops_view(),
            final(self).budget() == old(self).budget(),
            final(sink).events() == (if is_eog {
                old(sink).events()
            } else {
                old(sink).events().push((fragment@, false))
            }),
            is_eog ==> {
                &&& final(self).out_view() == old(self).out_view()
                &&& final(self).phase_of() == SessionPhase::Finished(FinishReason::EosReached)
                &&& halted
            },
            !is_eog ==> {
                &&& final(self).out_view() == step_text(
                    old(self).out_view(),
                    fragment@,
                    old(self).stops_view(),
                )
                &&& halted == step_halts(old(self).out_view(), fragment@, old(self).stops_view())
                &&& (halted ==> final(self).phase_of() == SessionPhase::Finished(
                    FinishReason::StopMatched,
                ))
                &&& (!halted ==> final(self).cursor_val() == old(self).cursor_val() + 1
                    && final(self).phase_of() == (
                    if old(self).steps_taken() + 1 == old(self).budget() {
                        SessionPhase::Finished(FinishReason::BudgetExhausted)
                    } else {
                        SessionPhase::Generating
                    }))
            },
    {
        if !is_eog {
            sink.push_event(fragment, false);
        }
        self.push_token(fragment, is_eog)
    }

    /// Streams the mandatory terminal mark: one empty fragment with the done
    /// flag set, after all content fragments. Emitted once, when the session
    /// has finished.
    pub fn emit_done<S: FragmentSink>(&self, sink: &mut S)
        requires
            self.phase_of() matches SessionPhase::Finished(_),
        ensures
            final(sink).events() == old(sink).events().push((Seq::<char>::empty(), true)),
    {
        proof {
            reveal_strlit("");
            assert(""@ =~= Seq::<char>::empty());
        }
        sink.push_event("", true);
    }

    /// Where the session stands.
    pub fn phase(&self) -> (r: SessionPhase)
        ensures
            r == self.phase_of(),
    {
        self.phase
    }

    /// The next absolute token position.
    pub fn cursor(&self) -> (r: u64)
        ensures
            r == self.cursor_val(),
    {
        self.cursor
    }

    /// The accumulated output so far.
    pub fn output_so_far(&self) -> (r: String)
        ensures
            r@ == self.out_view(),
    {
        self.output.clone()
    }

    /// Consumes the session, yielding its output.
    pub fn into_output(self) -> (r: String)
        ensures
            r@ == self.out_view(),
    {
        self.output
    }
}

/// Law: a well-formed session's output is exactly the fold of the events it
/// has consumed — a trace only the last event of which may halt — and it
/// never consumes more events than its token budget.
pub proof fn lemma_session_matches_trace(s: GenerationSession)
    requires
        s.wf(),
    ensures
        s.out_view() == run_text(Seq::empty(), s.hist(), s.stops_view()),
        trace_wf(Seq::empty(), s.hist(), s.stops_view()),
        s.steps_taken() == s.hist().len(),
        s.steps_taken() <= s.budget(),
{
}

/// Law: a session with a zero token budget consumes no sampling step and its
/// output is empty.
pub proof fn lemma_zero_budget_no_steps(s: GenerationSession)
    requires
        s.wf(),
        s.budget() == 0,
    ensures
        s.steps_taken() == 0,
        s.hist() == Seq::<StepEvent>::empty(),
        s.out_view() == Seq::<char>::empty(),
{
    assert(s.hist() =~= Seq::<StepEvent>::empty());
}

/// Begins a single-turn generation against the loaded model: fails with
/// `ModelNotLoaded` exactly when the slot is empty, and otherwise yields a
/// fresh session over the single-turn templated prompt.
pub fn begin_generation(
    slot: &ModelSlot,
    prompt: &str,
    system: Option<&str>,
    params: GenerateParams,
) -> (r: Result<GenerationSession, LlamaError>)
    ensures
        r is Err <==> !slot.is_loaded_spec(),
        match r {
            Ok(s) => {
                &&& s.wf()
                &&& s.phase_of() == SessionPhase::AwaitingPrompt
                &&& s.prompt_view() == single_prompt(opt_str_view(system), prompt@)
                &&& s.stops_view() == params.stop_sequences.deep_view()
                &&& s.budget() == params.max_tokens
                &&& s.out_view() == Seq::<char>::empty()
            },
            Err(e) => e is ModelNotLoaded,
        },
{
    if !slot.is_model_loaded() {
        return Err(LlamaError::ModelNotLoaded);
    }
    let full_prompt = build_single_prompt(system, prompt);
    Ok(GenerationSession::new(full_prompt, params))
}

/// Begins a chat generation against the loaded model: fails with
/// `ModelNotLoaded` exactly when the slot is empty, and otherwise yields a
/// fresh session over the multi-turn templated prompt.
pub fn begin_chat(slot: &ModelSlot, messages: &Vec<ChatMessage>, params: GenerateParams) -> (r:
    Result<GenerationSession, LlamaError>)
    ensures
        r is Err <==> !slot.is_loaded_spec(),
        match r {
            Ok(s) => {
                &&& s.wf()
                &&& s.phase_of() == SessionPhase::AwaitingPrompt
                &&& s.prompt_view() == chat_prompt(messages@)
                &&& s.stops_view() == params.stop_sequences.deep_view()
                &&& s.budget() == params.max_tokens
                &&& s.out_view() == Seq::<char>::empty()
            },
            Err(e) => e is ModelNotLoaded,
        },
{
    if !slot.is_model_loaded() {
        return Err(LlamaError::ModelNotLoaded);
    }
    let full_prompt = format_chat_messages(messages);
    Ok(GenerationSession::new(full_prompt, params))
}

/// Rejects a text whose byte length exceeds what the native tokenizer
/// accepts (a 32-bit signed count), with `TokenizationError` exactly then.
pub fn validate_prompt_size(text: &str) -> (r: Result<(), LlamaError>)
    ensures
        r is Err <==> text.spec_bytes().len() as usize > 0x7fff_ffff,
        r matches Err(e) ==> e is TokenizationError,
{
    if text.len() > 0x7fff_ffff {
        Err(LlamaError::TokenizationError(String::from_str("input too large to tokenize")))
    } else {
        Ok(())
    }
}

/// The per-position logits request for seeding a batch with `n` prompt
/// tokens: logits are requested only for the final position.
pub fn seed_logits_flags(n: usize) -> (v: Vec<bool>)
    ensures
        v@.len() == n,
        forall|i: int| 0 <= i < n ==> v@[i] == (i == n - 1),
{
    let mut v: Vec<bool> = Vec::new();
    let mut i: usize = 0;
    while i < n
        invariant
            i <= n,
            v@.len() == i,
            forall|k: int| 0 <= k < i ==> v@[k] == (k == n - 1),
        decreases n - i,
    {
        v.push(i == n - 1);
        i += 1;
    }
    v
}

} // verus!
