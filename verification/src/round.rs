//! A round: one task decomposed into an ordered pipeline of steps, with
//! two-queue (resolved/unresolved) state, prefix composition and whole-round
//! failure recovery.
//!
//! Steps wait in `unresolved_steps` in execution order and move to the back
//! of `resolved_steps` as they complete. What the generation backend answered
//! for a step reaches the round as a [`StepReply`] value; the transport, the
//! retrying and the waiting stay with the caller.

use vstd::prelude::*;
use std::collections::VecDeque;
use crate::context::{RequestContext, Turn, TurnRole};
use crate::deque::{deque_back, deque_back_mut};
use crate::step::{CascadeError, CascadeStep, PrimeReply, StepConfig, StepKind, StepReply};
use crate::text::{join_texts, lemma_join_step, push_char, separator_text};

verus! {

/// The outcome texts of the steps, in order.
pub open spec fn outcome_texts(steps: Seq<CascadeStep>) -> Seq<Seq<char>> {
    steps.map_values(|s: CascadeStep| s.spec_outcome_text())
}

/// How many replies the first `k` steps consume: one per inference step.
pub open spec fn replies_used(steps: Seq<CascadeStep>, k: int) -> int
    decreases k,
{
    if k <= 0 {
        0
    } else {
        replies_used(steps, k - 1) + if steps[k - 1].kind is Inference {
            1int
        } else {
            0int
        }
    }
}

/// The reply that running step `k` consumes: the next unconsumed reply for an
/// inference step, nothing for a guidance step.
pub open spec fn step_reply_at(
    steps: Seq<CascadeStep>,
    replies: Seq<StepReply>,
    k: int,
) -> Option<StepReply> {
    if steps[k].kind is Inference && 0 <= replies_used(steps, k) < replies.len() {
        Some(replies[replies_used(steps, k)])
    } else {
        None
    }
}

/// Whether step `k` fails when run with its reply.
pub open spec fn step_fails_at(steps: Seq<CascadeStep>, replies: Seq<StepReply>, k: int) -> bool {
    steps[k].spec_run_fails(step_reply_at(steps, replies, k))
}

/// The first index at or after `k` whose step fails, if any.
pub open spec fn first_failure_from(
    steps: Seq<CascadeStep>,
    replies: Seq<StepReply>,
    k: int,
) -> Option<int>
    decreases steps.len() - k,
    when 0 <= k <= steps.len()
{
    if k >= steps.len() {
        None
    } else if step_fails_at(steps, replies, k) {
        Some(k)
    } else {
        first_failure_from(steps, replies, k + 1)
    }
}

/// The reply count consumed by a step prefix is non-negative, grows by at
/// most one per step, and never shrinks.
pub proof fn lemma_replies_used_bounds(steps: Seq<CascadeStep>, k1: int, k2: int)
    requires
        0 <= k1 <= k2,
    ensures
        0 <= replies_used(steps, k1) <= replies_used(steps, k2) <= replies_used(steps, k1) + (k2
            - k1),
    decreases k2 - k1,
{
    if k1 < k2 {
        lemma_replies_used_bounds(steps, k1, k2 - 1);
    } else {
        lemma_replies_used_nonneg(steps, k1);
    }
}

/// The reply count consumed by a step prefix is non-negative.
pub proof fn lemma_replies_used_nonneg(steps: Seq<CascadeStep>, k: int)
    ensures
        replies_used(steps, k) >= 0,
    decreases (if k >= 0 {
        k
    } else {
        0
    }),
{
    if k > 0 {
        lemma_replies_used_nonneg(steps, k - 1);
    }
}

/// If no step before `k` fails, the first failure of the whole pipeline is
/// the first failure at or after `k`.
pub proof fn lemma_first_failure_prefix(steps: Seq<CascadeStep>, replies: Seq<StepReply>, k: int)
    requires
        0 <= k <= steps.len(),
        forall|j: int| 0 <= j < k ==> !step_fails_at(steps, replies, j),
    ensures
        first_failure_from(steps, replies, 0) == first_failure_from(steps, replies, k),
    decreases k,
{
    if k > 0 {
        lemma_first_failure_prefix(steps, replies, k - 1);
    }
}

/// The first step of a fresh round with no display prefix of its own sees an
/// empty composed context, so `generation_prefix` reports no context at all.
pub proof fn lemma_fresh_round_prefix_empty(round: CascadeRound, step: CascadeStep)
    requires
        round.resolved_steps@.len() == 0,
        step.spec_prefix_text() is None,
    ensures
        round.spec_generation_prefix(step).len() == 0,
{
    assert(outcome_texts(round.resolved_steps@).len() == 0);
}

/// A round of guidance-only steps never fails, whatever replies are on hand,
/// and each of its steps resolves to its own literal content.
pub proof fn lemma_guidance_round_trip(steps: Seq<CascadeStep>, replies: Seq<StepReply>)
    requires
        forall|k: int| 0 <= k < steps.len() ==> (#[trigger] steps[k]).kind is Guidance,
    ensures
        first_failure_from(steps, replies, 0) is None,
        forall|k: int|
            0 <= k < steps.len() ==> (#[trigger] steps[k]).spec_resolved_text(
                step_reply_at(steps, replies, k),
            ) == steps[k].spec_content_text(),
{
    assert(forall|k: int| 0 <= k < steps.len() ==> !step_fails_at(steps, replies, k));
    lemma_first_failure_prefix(steps, replies, steps.len() as int);
}

/// One task decomposed into an ordered pipeline of steps.
#[derive(Debug)]
pub struct CascadeRound {
    /// What the round is to accomplish; seeds the first conversational turn.
    pub task: String,
    /// Steps not yet successfully run, in execution order.
    pub unresolved_steps: VecDeque<CascadeStep>,
    /// Steps that completed, in completion order, which is also display order.
    pub resolved_steps: VecDeque<CascadeStep>,
    /// Optional separator between concatenated step outputs.
    pub step_separator: Option<char>,
}

impl CascadeRound {
    /// Every step of the round is well formed.
    pub open spec fn wf(self) -> bool {
        &&& forall|i: int|
            0 <= i < self.unresolved_steps@.len() ==> (#[trigger] self.unresolved_steps@[i]).wf()
        &&& forall|i: int|
            0 <= i < self.resolved_steps@.len() ==> (#[trigger] self.resolved_steps@[i]).wf()
    }

    /// Every step in the resolved queue actually holds an outcome; the
    /// queues' invariant outside an in-flight step.
    pub open spec fn all_resolved_ok(self) -> bool {
        forall|i: int|
            0 <= i < self.resolved_steps@.len() ==> (#[trigger] self.resolved_steps@[i]).is_resolved()
    }

    /// The round's outcome text: the resolved steps' outputs joined in order
    /// with the separator between adjacent entries.
    pub open spec fn spec_outcome(self) -> Seq<char> {
        join_texts(outcome_texts(self.resolved_steps@), self.step_separator)
    }

    /// The text context visible to `step` before it runs: the joined outputs
    /// of all resolved steps, then the step's own non-empty display prefix,
    /// separated from a non-empty base by the separator.
    pub open spec fn spec_generation_prefix(self, step: CascadeStep) -> Seq<char> {
        let base = self.spec_outcome();
        match step.spec_prefix_text() {
            Some(p) => if base.len() == 0 {
                p
            } else {
                base + separator_text(self.step_separator) + p
            },
            None => base,
        }
    }

    /// A fresh round for `task`: no steps, separated by a single space.
    pub fn new(task: String) -> (r: CascadeRound)
        ensures
            r.task == task,
            r.unresolved_steps@ =~= Seq::<CascadeStep>::empty(),
            r.resolved_steps@ =~= Seq::<CascadeStep>::empty(),
            r.step_separator == Some(' '),
            r.wf(),
            r.all_resolved_ok(),
    {
        CascadeRound {
            task,
            unresolved_steps: VecDeque::new(),
            resolved_steps: VecDeque::new(),
            step_separator: Some(' '),
        }
    }

    /// Appends a new inference step at the back of the unresolved queue,
    /// at position one past the current queue length, and returns a handle
    /// to it for further configuration.
    pub fn add_inference_step(&mut self, step_config: &StepConfig) -> (ret: &mut CascadeStep)
        requires
            old(self).unresolved_steps@.len() < usize::MAX,
        ensures
            *ret == (CascadeStep {
                kind: StepKind::Inference,
                step_config: *step_config,
                step_index: (old(self).unresolved_steps@.len() + 1) as usize,
                llm_content: None,
                outcome: None,
                primitive: None,
            }),
            final(self).unresolved_steps@ =~= old(self).unresolved_steps@.push(*final(ret)),
            final(self).resolved_steps == old(self).resolved_steps,
            final(self).task == old(self).task,
            final(self).step_separator == old(self).step_separator,
    {
        let idx = self.unresolved_steps.len() + 1;
        self.unresolved_steps.push_back(CascadeStep::new_inference_step(step_config.clone(), idx));
        match deque_back_mut(&mut self.unresolved_steps) {
            Some(s) => s,
            None => vstd::pervasive::unreached(),
        }
    }

    /// Appends a new guidance step whose output is the given literal text,
    /// never sent to the backend for generation.
    pub fn add_guidance_step(&mut self, step_config: &StepConfig, llm_content: String) -> (ret:
        &mut CascadeStep)
        requires
            old(self).unresolved_steps@.len() < usize::MAX,
        ensures
            *ret == (CascadeStep {
                kind: StepKind::Guidance,
                step_config: *step_config,
                step_index: (old(self).unresolved_steps@.len() + 1) as usize,
                llm_content: Some(llm_content),
                outcome: None,
                primitive: None,
            }),
            final(self).unresolved_steps@ =~= old(self).unresolved_steps@.push(*final(ret)),
            final(self).resolved_steps == old(self).resolved_steps,
            final(self).task == old(self).task,
            final(self).step_separator == old(self).step_separator,
    {
        let idx = self.unresolved_steps.len() + 1;
        self.unresolved_steps.push_back(
            CascadeStep::new_guidance_step(step_config.clone(), idx, llm_content),
        );
        match deque_back_mut(&mut self.unresolved_steps) {
            Some(s) => s,
            None => vstd::pervasive::unreached(),
        }
    }

    /// The resolved steps' outputs joined in order; fails exactly when some
    /// step in the resolved queue holds no outcome yet.
    fn joined_outcomes(&self) -> (r: Result<String, CascadeError>)
        ensures
            r is Ok <==> self.all_resolved_ok(),
            r matches Ok(s) ==> s@ == self.spec_outcome(),
            r matches Err(e) ==> e == CascadeError::UnresolvedOutcome,
    {
        let ghost texts = outcome_texts(self.resolved_steps@);
        let mut text = String::new();
        let n = self.resolved_steps.len();
        let mut i: usize = 0;
        while i < n
            invariant
                i <= n,
                n == self.resolved_steps@.len(),
                texts == outcome_texts(self.resolved_steps@),
                forall|j: int|
                    0 <= j < i ==> (#[trigger] self.resolved_steps@[j]).is_resolved(),
                text@ == join_texts(texts.take(i as int), self.step_separator),
            decreases n - i,
        {
            let step = &self.resolved_steps[i];
            match step.display_step_outcome() {
                Ok(o) => {
                    if i > 0 {
                        if let Some(c) = self.step_separator {
                            push_char(&mut text, c);
                        }
                    }
                    text.append(o.as_str());
                    proof {
                        assert(texts[i as int] == self.resolved_steps@[i as int].spec_outcome_text());
                        lemma_join_step(texts, self.step_separator, i as int);
                    }
                },
                Err(e) => {
                    return Err(e);
                },
            }
            i = i + 1;
        }
        proof {
            assert(texts.take(n as int) =~= texts);
        }
        Ok(text)
    }

    /// Builds the text context visible to `current_step` before it runs.
    /// Returns `Ok(None)` exactly when the composed text is empty, so a
    /// caller can tell "no context" from "empty string context"; fails
    /// exactly when some resolved step holds no outcome yet.
    pub fn generation_prefix(&self, current_step: &CascadeStep) -> (r: Result<
        Option<String>,
        CascadeError,
    >)
        ensures
            r is Ok <==> self.all_resolved_ok(),
            r matches Ok(p) ==> match p {
                Some(s) => s@ == self.spec_generation_prefix(*current_step) && s@.len() > 0,
                None => self.spec_generation_prefix(*current_step).len() == 0,
            },
            r matches Err(e) ==> e == CascadeError::UnresolvedOutcome,
    {
        let mut text = match self.joined_outcomes() {
            Ok(t) => t,
            Err(e) => {
                return Err(e);
            },
        };
        match current_step.display_step_prefix() {
            Some(p) => {
                if !text.as_str().is_empty() {
                    if let Some(c) = self.step_separator {
                        push_char(&mut text, c);
                    }
                }
                text.append(p.as_str());
            },
            None => {},
        }
        if text.as_str().is_empty() {
            Ok(None)
        } else {
            Ok(Some(text))
        }
    }

    /// The round's final externally visible result: the resolved steps'
    /// outputs joined in order; fails exactly when some resolved step holds
    /// no outcome yet.
    pub fn display_outcome(&self) -> (r: Result<String, CascadeError>)
        ensures
            r is Ok <==> self.all_resolved_ok(),
            r matches Ok(s) ==> s@ == self.spec_outcome(),
            r matches Err(e) ==> e == CascadeError::UnresolvedOutcome,
    {
        self.joined_outcomes()
    }

    /// The typed result carried by the most recently resolved step, if any.
    pub fn primitive_result(&self) -> (r: Option<String>)
        ensures
            match r {
                Some(p) => self.resolved_steps@.len() > 0 && (self.resolved_steps@.last().primitive
                    matches Some(q) && p@ == q@),
                None => self.resolved_steps@.len() == 0 || self.resolved_steps@.last().primitive
                    is None,
            },
    {
        match deque_back(&self.resolved_steps) {
            Some(step) => step.primitive_result(),
            None => None,
        }
    }

    /// Opens the round: appends the task as a new user turn.
    pub fn open_round(&mut self, base_req: &mut RequestContext)
        ensures
            *final(self) == *old(self),
            final(base_req).turns@ == old(base_req).turns@.push(
                (Turn { role: TurnRole::User, content: old(self).task }),
            ),
    {
        let t = self.task.clone();
        base_req.add_user_turn(t);
    }

    /// Closes the round: appends the current outcome as a new assistant
    /// turn; fails, leaving the context unchanged, exactly when the outcome
    /// cannot be formatted.
    pub fn close_round(&mut self, base_req: &mut RequestContext) -> (r: Result<(), CascadeError>)
        ensures
            *final(self) == *old(self),
            r is Ok <==> old(self).all_resolved_ok(),
            r is Ok ==> final(base_req).turns@.len() == old(base_req).turns@.len() + 1
                && final(base_req).turns@.drop_last() =~= old(base_req).turns@ && final(base_req).turns@.last().role == TurnRole::Assistant && final(base_req).turns@.last().content@
                == old(self).spec_outcome(),
            r matches Err(e) ==> e == CascadeError::UnresolvedOutcome && *final(base_req) == *old(base_req),
    {
        let outcome = match self.display_outcome() {
            Ok(o) => o,
            Err(e) => {
                return Err(e);
            },
        };
        base_req.add_assistant_turn(outcome);
        Ok(())
    }

    /// A handle to the most recently resolved step, for reading or attaching
    /// its decoded result; fails when no step has resolved.
    pub fn last_step(&mut self) -> (r: Result<&mut CascadeStep, CascadeError>)
        ensures
            old(self).resolved_steps@.len() == 0 ==> (r matches Err(e) && e
                == CascadeError::NoSteps) && final(self).resolved_steps@ == old(
                self,
            ).resolved_steps@ && final(self).unresolved_steps == old(self).unresolved_steps
                && final(self).task == old(self).task && final(self).step_separator == old(
                self,
            ).step_separator,
            old(self).resolved_steps@.len() != 0 ==> (r matches Ok(s) && *s == old(self).resolved_steps@.last() && final(self).resolved_steps@ =~= old(self).resolved_steps@.update(old(self).resolved_steps@.len() - 1, *final(s))) && final(self).unresolved_steps == old(self).unresolved_steps && final(self).task == old(self).task
                && final(self).step_separator == old(self).step_separator,
    {
        match deque_back_mut(&mut self.resolved_steps) {
            Some(s) => Ok(s),
            None => Err(CascadeError::NoSteps),
        }
    }

    /// Runs the front unresolved step. The prefix visible to the step is
    /// composed first, so an unformattable resolved queue fails here without
    /// losing the step. On success the step moves to the back of the
    /// resolved queue; on failure it returns to the front of the unresolved
    /// queue unchanged and the error is propagated.
    pub fn run_next_step(&mut self, reply: Option<StepReply>) -> (r: Result<(), CascadeError>)
        requires
            old(self).wf(),
            old(self).unresolved_steps@.len() > 0,
            old(self).unresolved_steps@[0].kind is Inference ==> reply is Some,
        ensures
            final(self).task == old(self).task,
            final(self).step_separator == old(self).step_separator,
            final(self).wf(),
            final(self).unresolved_steps@.len() + final(self).resolved_steps@.len() == old(self).unresolved_steps@.len() + old(self).resolved_steps@.len(),
            !old(self).all_resolved_ok() ==> (r matches Err(e) && e
                == CascadeError::UnresolvedOutcome) && final(self).unresolved_steps@ =~= old(self).unresolved_steps@ && final(self).resolved_steps@ == old(self).resolved_steps@,
            old(self).all_resolved_ok() && !old(self).unresolved_steps@[0].spec_run_fails(reply)
                ==> r is Ok && final(self).unresolved_steps@ =~= old(self).unresolved_steps@.skip(1)
                && final(self).resolved_steps@.len() == old(self).resolved_steps@.len() + 1 && final(self).resolved_steps@.drop_last() =~= old(self).resolved_steps@
                && CascadeStep::resolved_from(
                final(self).resolved_steps@.last(),
                old(self).unresolved_steps@[0],
                old(self).unresolved_steps@[0].spec_resolved_text(reply),
            ) && final(self).all_resolved_ok(),
            old(self).all_resolved_ok() && old(self).unresolved_steps@[0].spec_run_fails(reply)
                ==> (r matches Err(CascadeError::Exec(e)) && (reply matches Some(
                StepReply::Failed(e2),
            ) && e == e2)) && final(self).unresolved_steps@ =~= old(self).unresolved_steps@ && final(self).resolved_steps@ == old(self).resolved_steps@,
    {
        let mut current_step = match self.unresolved_steps.pop_front() {
            Some(s) => s,
            None => vstd::pervasive::unreached(),
        };
        match self.generation_prefix(&current_step) {
            Ok(_prefix) => {
                // the caller composed this same prefix when it issued the
                // backend request; recomposing it here keeps the failure for
                // an unformattable resolved queue at the step boundary
            },
            Err(e) => {
                self.unresolved_steps.push_front(current_step);
                proof {
                    assert(self.unresolved_steps@ =~= old(self).unresolved_steps@);
                }
                return Err(e);
            },
        }
        match current_step.run_step(reply) {
            Ok(()) => {
                self.resolved_steps.push_back(current_step);
                proof {
                    assert(self.resolved_steps@.drop_last() =~= old(self).resolved_steps@);
                }
                Ok(())
            },
            Err(e) => {
                self.unresolved_steps.push_front(current_step);
                proof {
                    assert(self.unresolved_steps@ =~= old(self).unresolved_steps@);
                }
                Err(e)
            },
        }
    }

    /// Runs every unresolved step in order against the shared context.
    /// `replies` holds what the backend answered for each inference step, in
    /// order; guidance steps consume none of them.
    ///
    /// On full success the task is appended as one user turn and the final
    /// outcome as one assistant turn. If any step fails, every step —
    /// resolved or not — is merged back into the unresolved queue in its
    /// original relative order, the error is propagated, and the shared
    /// context is left untouched: the round is re-runnable from scratch.
    #[verifier::loop_isolation(false)]
    pub fn run_all_steps(&mut self, base_req: &mut RequestContext, replies: Vec<StepReply>) -> (r:
        Result<(), CascadeError>)
        requires
            old(self).wf(),
            old(self).all_resolved_ok(),
            replies@.len() >= replies_used(
                old(self).unresolved_steps@,
                old(self).unresolved_steps@.len() as int,
            ),
            old(self).resolved_steps@.len() + old(self).unresolved_steps@.len() < usize::MAX,
        ensures
            final(self).task == old(self).task,
            final(self).step_separator == old(self).step_separator,
            final(self).wf(),
            first_failure_from(old(self).unresolved_steps@, replies@, 0) is None ==> r is Ok
                && final(self).unresolved_steps@.len() == 0 && final(self).resolved_steps@.len()
                == old(self).resolved_steps@.len() + old(self).unresolved_steps@.len() && final(self).resolved_steps@.take(old(self).resolved_steps@.len() as int) =~= old(self).resolved_steps@ && (forall|k: int|
                0 <= k < old(self).unresolved_steps@.len() ==> CascadeStep::resolved_from(
                    final(self).resolved_steps@[old(self).resolved_steps@.len() + k],
                    old(self).unresolved_steps@[k],
                    old(self).unresolved_steps@[k].spec_resolved_text(
                        step_reply_at(old(self).unresolved_steps@, replies@, k),
                    ),
                )) && final(base_req).turns@.len() == old(base_req).turns@.len() + 2 && final(base_req).turns@.take(old(base_req).turns@.len() as int) =~= old(base_req).turns@ && final(base_req).turns@[old(base_req).turns@.len() as int] == (Turn {
                role: TurnRole::User,
                content: old(self).task,
            }) && final(base_req).turns@.last().role == TurnRole::Assistant && final(base_req).turns@.last().content@ == final(self).spec_outcome(),
            first_failure_from(old(self).unresolved_steps@, replies@, 0) matches Some(f) ==> (
            r matches Err(CascadeError::Exec(e)) && (step_reply_at(
                old(self).unresolved_steps@,
                replies@,
                f,
            ) matches Some(StepReply::Failed(e2)) && e == e2)) && *final(base_req) == *old(base_req)
                && final(self).resolved_steps@.len() == 0 && final(self).unresolved_steps@.len()
                == old(self).resolved_steps@.len() + old(self).unresolved_steps@.len() && final(self).unresolved_steps@.take(old(self).resolved_steps@.len() as int) =~= old(self).resolved_steps@ && (forall|k: int|
                0 <= k < f ==> CascadeStep::resolved_from(
                    final(self).unresolved_steps@[old(self).resolved_steps@.len() + k],
                    old(self).unresolved_steps@[k],
                    old(self).unresolved_steps@[k].spec_resolved_text(
                        step_reply_at(old(self).unresolved_steps@, replies@, k),
                    ),
                )) && final(self).unresolved_steps@.skip(
                old(self).resolved_steps@.len() as int + f,
            ) =~= old(self).unresolved_steps@.skip(f),
    {
        let ghost steps0 = old(self).unresolved_steps@;
        let ghost res0 = old(self).resolved_steps@;
        let ghost reps = replies@;
        let mut replies = replies;
        let mut k: usize = 0;
        while self.unresolved_steps.len() > 0
            invariant
                0 <= k <= steps0.len(),
                self.unresolved_steps@ =~= steps0.skip(k as int),
                self.resolved_steps@.len() == res0.len() + k,
                self.resolved_steps@.take(res0.len() as int) =~= res0,
                forall|j: int|
                    0 <= j < k ==> CascadeStep::resolved_from(
                        self.resolved_steps@[res0.len() + j],
                        steps0[j],
                        steps0[j].spec_resolved_text(#[trigger] step_reply_at(steps0, reps, j)),
                    ),
                forall|j: int| 0 <= j < k ==> !step_fails_at(steps0, reps, j),
                replies@ =~= reps.skip(replies_used(steps0, k as int)),
                self.wf(),
                self.all_resolved_ok(),
                self.task == old(self).task,
                self.step_separator == old(self).step_separator,
                *base_req == *old(base_req),
            decreases steps0.len() - k,
        {
            proof {
                lemma_replies_used_bounds(steps0, 0, k as int);
                lemma_replies_used_bounds(steps0, k as int, k + 1);
                lemma_replies_used_bounds(steps0, k + 1, steps0.len() as int);
                assert(self.unresolved_steps@[0] == steps0[k as int]);
            }
            let is_inf = match self.unresolved_steps[0].kind {
                StepKind::Inference => true,
                StepKind::Guidance => false,
            };
            let reply: Option<StepReply> = if is_inf {
                Some(replies.remove(0))
            } else {
                None
            };
            proof {
                assert(reply == step_reply_at(steps0, reps, k as int));
            }
            match self.run_next_step(reply) {
                Ok(()) => {
                    proof {
                        assert(!step_fails_at(steps0, reps, k as int));
                        assert(self.unresolved_steps@ =~= steps0.skip(k + 1));
                        assert(self.resolved_steps@.take(res0.len() as int) =~= res0);
                        if is_inf {
                            assert(replies@ =~= reps.skip(replies_used(steps0, k + 1)));
                        } else {
                            assert(replies_used(steps0, k + 1) == replies_used(steps0, k as int));
                        }
                    }
                    k = k + 1;
                },
                Err(e) => {
                    proof {
                        assert(step_fails_at(steps0, reps, k as int));
                        lemma_first_failure_prefix(steps0, reps, k as int);
                        assert(first_failure_from(steps0, reps, 0) == Some(k as int));
                    }
                    let mut merged: VecDeque<CascadeStep> = VecDeque::new();
                    std::mem::swap(&mut merged, &mut self.resolved_steps);
                    merged.append(&mut self.unresolved_steps);
                    self.unresolved_steps = merged;
                    proof {
                        assert(self.unresolved_steps@.take(res0.len() as int) =~= res0);
                        assert(self.unresolved_steps@.skip(res0.len() as int + k as int)
                            =~= steps0.skip(k as int));
                    }
                    return Err(e);
                },
            }
        }
        proof {
            assert(k == steps0.len());
            lemma_first_failure_prefix(steps0, reps, steps0.len() as int);
            assert(first_failure_from(steps0, reps, 0) is None);
        }
        let outcome = match self.display_outcome() {
            Ok(o) => o,
            Err(_) => vstd::pervasive::unreached(),
        };
        let t = self.task.clone();
        base_req.add_user_turn(t);
        base_req.add_assistant_turn(outcome);
        proof {
            assert(final(base_req).turns@.take(old(base_req).turns@.len() as int) =~= old(base_req).turns@);
        }
        Ok(())
    }

    /// Primes the backend's context cache with the text as it stood before
    /// the most recently resolved step ran. The step is popped to compose
    /// that prefix and is always pushed back, whatever the outcome, so queue
    /// membership is preserved; a priming failure is propagated afterwards.
    /// `prime` is what the backend's priming call yielded.
    pub fn set_cache_up_to_last_step(&mut self, prime: PrimeReply) -> (r: Result<
        (),
        CascadeError,
    >)
        requires
            old(self).resolved_steps@.len() > 0,
        ensures
            final(self).task == old(self).task,
            final(self).step_separator == old(self).step_separator,
            final(self).unresolved_steps == old(self).unresolved_steps,
            final(self).resolved_steps@ =~= old(self).resolved_steps@,
            !(forall|j: int|
                0 <= j < old(self).resolved_steps@.len() - 1 ==> (#[trigger] old(self).resolved_steps@[j]).is_resolved()) ==> (r matches Err(e) && e
                == CascadeError::UnresolvedOutcome),
            (forall|j: int|
                0 <= j < old(self).resolved_steps@.len() - 1 ==> (#[trigger] old(self).resolved_steps@[j]).is_resolved()) ==> match prime {
                PrimeReply::Primed => r is Ok,
                PrimeReply::PrimeFailed(e) => (r matches Err(CascadeError::Exec(e2)) && e2 == e),
            },
    {
        let last = match self.resolved_steps.pop_back() {
            Some(s) => s,
            None => vstd::pervasive::unreached(),
        };
        match self.generation_prefix(&last) {
            Ok(_prefix) => {
                // the caller already issued the priming call with this very
                // prefix; `prime` is what that call yielded
            },
            Err(e) => {
                self.resolved_steps.push_back(last);
                proof {
                    assert(self.resolved_steps@ =~= old(self).resolved_steps@);
                }
                return Err(e);
            },
        }
        self.resolved_steps.push_back(last);
        proof {
            assert(self.resolved_steps@ =~= old(self).resolved_steps@);
        }
        match prime {
            PrimeReply::Primed => Ok(()),
            PrimeReply::PrimeFailed(e) => Err(CascadeError::Exec(e)),
        }
    }
}

} // verus!
