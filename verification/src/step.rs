//! A single unit of work inside a round.
//!
//! A step is either an inference step, whose output the generation backend
//! produces, or a guidance step, whose output is a literal given at creation.
//! A step starts unresolved; a successful run resolves it and fixes its
//! displayable outcome. What a backend attempt yielded reaches the step as a
//! [`StepReply`] value: the transport itself stays with the caller.

use vstd::prelude::*;
use crate::executor::ExecError;

verus! {

/// The two kinds of step.
#[derive(Debug, Clone, Copy, PartialEq, Eq, Structural)]
pub enum StepKind {
    /// Output is generated by the backend.
    Inference,
    /// Output is a literal injected verbatim, never sent for generation.
    Guidance,
}

/// Per-step configuration the round reads: an optional seed text that the
/// step exposes to the generation prefix before it has run.
#[derive(Debug)]
pub struct StepConfig {
    pub step_prefix: Option<String>,
}

impl Clone for StepConfig {
    fn clone(&self) -> (r: Self)
        ensures
            r == *self,
    {
        StepConfig {
            step_prefix: match &self.step_prefix {
                Some(p) => Some(p.clone()),
                None => None,
            },
        }
    }
}

/// An error of the cascade itself.
#[derive(Debug, PartialEq, Eq)]
pub enum CascadeError {
    /// A step was asked for its outcome while unresolved.
    UnresolvedOutcome,
    /// The round has no resolved step to hand out.
    NoSteps,
    /// A step's execution failed with this backend error.
    Exec(ExecError),
}

/// What the backend attempt for one inference step yielded.
#[derive(Debug)]
pub enum StepReply {
    /// The backend produced this text.
    Generated(String),
    /// The attempt failed with this classified error.
    Failed(ExecError),
}

/// What a cache-priming call yielded.
#[derive(Debug)]
pub enum PrimeReply {
    /// The backend accepted the prefix into its context cache.
    Primed,
    /// The priming call failed with this classified error.
    PrimeFailed(ExecError),
}

/// One step of a round.
#[derive(Debug)]
pub struct CascadeStep {
    pub kind: StepKind,
    pub step_config: StepConfig,
    /// 1-based position assigned when the step was appended.
    pub step_index: usize,
    /// The literal content of a guidance step; `None` for inference steps.
    pub llm_content: Option<String>,
    /// The displayable outcome; `Some` exactly once the step has resolved.
    pub outcome: Option<String>,
    /// The typed result decoded from the outcome by the caller, if any.
    pub primitive: Option<String>,
}

impl CascadeStep {
    /// A guidance step carries its literal content.
    pub open spec fn wf(self) -> bool {
        self.kind is Guidance ==> self.llm_content is Some
    }

    /// A step is resolved once it holds an outcome.
    pub open spec fn is_resolved(self) -> bool {
        self.outcome is Some
    }

    /// The text of the outcome; empty while unresolved.
    pub open spec fn spec_outcome_text(self) -> Seq<char> {
        match self.outcome {
            Some(o) => o@,
            None => Seq::empty(),
        }
    }

    /// The literal content of a guidance step; empty for inference steps.
    pub open spec fn spec_content_text(self) -> Seq<char> {
        match self.llm_content {
            Some(c) => c@,
            None => Seq::empty(),
        }
    }

    /// The non-empty display prefix the step exposes before it runs: a
    /// guidance step's literal content, or an inference step's seed text.
    pub open spec fn spec_prefix_text(self) -> Option<Seq<char>> {
        let raw = match self.kind {
            StepKind::Guidance => match self.llm_content {
                Some(c) => c@,
                None => Seq::empty(),
            },
            StepKind::Inference => match self.step_config.step_prefix {
                Some(p) => p@,
                None => Seq::empty(),
            },
        };
        if raw.len() > 0 {
            Some(raw)
        } else {
            None
        }
    }

    /// The outcome text a successful run assigns: the literal content for a
    /// guidance step, the generated text of the reply for an inference step.
    pub open spec fn spec_resolved_text(self, reply: Option<StepReply>) -> Seq<char> {
        match self.kind {
            StepKind::Guidance => self.spec_content_text(),
            StepKind::Inference => match reply {
                Some(StepReply::Generated(t)) => t@,
                _ => Seq::empty(),
            },
        }
    }

    /// Whether running with this reply fails: only an inference step whose
    /// backend attempt failed does.
    pub open spec fn spec_run_fails(self, reply: Option<StepReply>) -> bool {
        self.kind is Inference && (reply matches Some(StepReply::Failed(_)))
    }

    /// `post` is `pre` resolved with outcome text `text`: every other field
    /// is kept.
    pub open spec fn resolved_from(post: CascadeStep, pre: CascadeStep, text: Seq<char>) -> bool {
        &&& post.kind == pre.kind
        &&& post.step_config == pre.step_config
        &&& post.step_index == pre.step_index
        &&& post.llm_content == pre.llm_content
        &&& post.primitive == pre.primitive
        &&& post.outcome matches Some(o) && o@ == text
    }

    /// A fresh, unresolved inference step at the given 1-based position.
    pub fn new_inference_step(step_config: StepConfig, step_index: usize) -> (r: CascadeStep)
        ensures
            r == (CascadeStep {
                kind: StepKind::Inference,
                step_config,
                step_index,
                llm_content: None,
                outcome: None,
                primitive: None,
            }),
    {
        CascadeStep {
            kind: StepKind::Inference,
            step_config,
            step_index,
            llm_content: None,
            outcome: None,
            primitive: None,
        }
    }

    /// A fresh, unresolved guidance step with the given literal content.
    pub fn new_guidance_step(step_config: StepConfig, step_index: usize, llm_content: String) -> (r:
        CascadeStep)
        ensures
            r == (CascadeStep {
                kind: StepKind::Guidance,
                step_config,
                step_index,
                llm_content: Some(llm_content),
                outcome: None,
                primitive: None,
            }),
    {
        CascadeStep {
            kind: StepKind::Guidance,
            step_config,
            step_index,
            llm_content: Some(llm_content),
            outcome: None,
            primitive: None,
        }
    }

    /// The step's displayable outcome; fails (never panics) while the step
    /// is unresolved.
    pub fn display_step_outcome(&self) -> (r: Result<String, CascadeError>)
        ensures
            r is Ok <==> self.is_resolved(),
            r matches Ok(s) ==> s@ == self.spec_outcome_text(),
            r matches Err(e) ==> e == CascadeError::UnresolvedOutcome,
    {
        match &self.outcome {
            Some(o) => Ok(o.clone()),
            None => Err(CascadeError::UnresolvedOutcome),
        }
    }

    /// The non-empty display prefix the step exposes, if any.
    pub fn display_step_prefix(&self) -> (r: Option<String>)
        ensures
            match r {
                Some(s) => self.spec_prefix_text() == Some(s@),
                None => self.spec_prefix_text() is None,
            },
    {
        let raw: Option<&String> = match self.kind {
            StepKind::Guidance => match &self.llm_content {
                Some(c) => Some(c),
                None => None,
            },
            StepKind::Inference => match &self.step_config.step_prefix {
                Some(p) => Some(p),
                None => None,
            },
        };
        match raw {
            Some(s) => if s.as_str().is_empty() {
                None
            } else {
                Some(s.clone())
            },
            None => None,
        }
    }

    /// Resolves the step. A guidance step resolves to its literal content and
    /// never consults the reply; an inference step resolves to the generated
    /// text of its reply, or propagates the reply's failure unchanged.
    pub fn run_step(&mut self, reply: Option<StepReply>) -> (r: Result<(), CascadeError>)
        requires
            old(self).wf(),
            old(self).kind is Inference ==> reply is Some,
        ensures
            !old(self).spec_run_fails(reply) ==> r is Ok && CascadeStep::resolved_from(
                *final(self),
                *old(self),
                old(self).spec_resolved_text(reply),
            ),
            old(self).spec_run_fails(reply) ==> *final(self) == *old(self) && (r matches Err(
                CascadeError::Exec(e),
            ) && (reply matches Some(StepReply::Failed(e2)) && e == e2)),
            final(self).wf(),
    {
        match self.kind {
            StepKind::Guidance => {
                let text: String = match &self.llm_content {
                    Some(c) => c.clone(),
                    None => vstd::pervasive::unreached(),
                };
                self.outcome = Some(text);
                Ok(())
            },
            StepKind::Inference => match reply {
                Some(StepReply::Generated(t)) => {
                    self.outcome = Some(t);
                    Ok(())
                },
                Some(StepReply::Failed(e)) => Err(CascadeError::Exec(e)),
                None => vstd::pervasive::unreached(),
            },
        }
    }

    /// The typed result carried by the step, if one was decoded.
    pub fn primitive_result(&self) -> (r: Option<String>)
        ensures
            match r {
                Some(p) => self.primitive matches Some(q) && p@ == q@,
                None => self.primitive is None,
            },
    {
        match &self.primitive {
            Some(p) => Some(p.clone()),
            None => None,
        }
    }
}

} // verus!
