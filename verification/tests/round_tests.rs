use llm_client::context::{RequestContext, TurnRole};
use llm_client::executor::{ApiErrorBody, ExecError};
use llm_client::round::CascadeRound;
use llm_client::step::{CascadeError, PrimeReply, StepConfig, StepKind, StepReply};

fn config() -> StepConfig {
    StepConfig { step_prefix: None }
}

fn some_error() -> ExecError {
    ExecError::Api(ApiErrorBody {
        message: "rate limited".to_string(),
        error_type: None,
    })
}

#[test]
fn fresh_round_has_task_and_space_separator() {
    let round = CascadeRound::new("solve it".to_string());
    assert_eq!(round.task, "solve it");
    assert_eq!(round.step_separator, Some(' '));
    assert_eq!(round.unresolved_steps.len(), 0);
    assert_eq!(round.resolved_steps.len(), 0);
}

#[test]
fn added_steps_get_one_based_positions() {
    let mut round = CascadeRound::new("t".to_string());
    round.add_inference_step(&config());
    round.add_guidance_step(&config(), "lit".to_string());
    assert_eq!(round.unresolved_steps[0].step_index, 1);
    assert_eq!(round.unresolved_steps[1].step_index, 2);
    assert_eq!(round.unresolved_steps[0].kind, StepKind::Inference);
    assert_eq!(round.unresolved_steps[1].kind, StepKind::Guidance);
    assert_eq!(
        round.unresolved_steps[1].llm_content,
        Some("lit".to_string())
    );
}

// step counting: the two queues always hold every appended step
#[test]
fn step_count_is_preserved_at_every_observable_point() {
    let mut round = CascadeRound::new("t".to_string());
    round.add_guidance_step(&config(), "a".to_string());
    round.add_inference_step(&config());
    round.add_guidance_step(&config(), "c".to_string());
    assert_eq!(round.unresolved_steps.len() + round.resolved_steps.len(), 3);

    round.run_next_step(None).unwrap();
    assert_eq!(round.unresolved_steps.len() + round.resolved_steps.len(), 3);

    let failed = round.run_next_step(Some(StepReply::Failed(some_error())));
    assert!(failed.is_err());
    assert_eq!(round.unresolved_steps.len() + round.resolved_steps.len(), 3);

    round
        .run_next_step(Some(StepReply::Generated("b".to_string())))
        .unwrap();
    round.run_next_step(None).unwrap();
    assert_eq!(round.unresolved_steps.len() + round.resolved_steps.len(), 3);
    assert_eq!(round.resolved_steps.len(), 3);
}

// a fresh round composes no context for a step without its own prefix
#[test]
fn generation_prefix_of_fresh_round_is_none() {
    let mut round = CascadeRound::new("t".to_string());
    round.add_inference_step(&config());
    let step = round.unresolved_steps.front().unwrap();
    let prefix = round.generation_prefix(step).unwrap();
    assert_eq!(prefix, None);
}

#[test]
fn generation_prefix_appends_own_prefix_after_separator() {
    let mut round = CascadeRound::new("t".to_string());
    round.add_guidance_step(&config(), "a".to_string());
    round.add_guidance_step(&config(), "next".to_string());
    round.run_next_step(None).unwrap();
    let step = round.unresolved_steps.front().unwrap();
    let prefix = round.generation_prefix(step).unwrap();
    assert_eq!(prefix, Some("a next".to_string()));
}

// joined outcomes: "a b" with the space separator, "ab" without one
#[test]
fn display_outcome_joins_with_and_without_separator() {
    let mut round = CascadeRound::new("t".to_string());
    round.add_guidance_step(&config(), "a".to_string());
    round.add_guidance_step(&config(), "b".to_string());
    round.run_next_step(None).unwrap();
    round.run_next_step(None).unwrap();
    assert_eq!(round.display_outcome().unwrap(), "a b");

    round.step_separator = None;
    assert_eq!(round.display_outcome().unwrap(), "ab");
}

// a failure in the middle of a round rolls the whole round back
#[test]
fn failed_round_merges_all_steps_back_in_order() {
    let mut round = CascadeRound::new("t".to_string());
    round.add_guidance_step(&config(), "one".to_string());
    round.add_inference_step(&config());
    round.add_guidance_step(&config(), "three".to_string());

    let mut req = RequestContext::new();
    let replies = vec![StepReply::Failed(some_error())];
    let result = round.run_all_steps(&mut req, replies);
    assert!(result.is_err());

    assert_eq!(round.resolved_steps.len(), 0);
    assert_eq!(round.unresolved_steps.len(), 3);
    // step 1 comes back resolved, step 2 failed, step 3 never attempted
    assert_eq!(round.unresolved_steps[0].step_index, 1);
    assert_eq!(round.unresolved_steps[0].outcome, Some("one".to_string()));
    assert_eq!(round.unresolved_steps[1].step_index, 2);
    assert_eq!(round.unresolved_steps[1].outcome, None);
    assert_eq!(round.unresolved_steps[2].step_index, 3);
    assert_eq!(round.unresolved_steps[2].outcome, None);
    // the shared context is left untouched
    assert_eq!(req.turns.len(), 0);
}

// success moves the popped step to the back of resolved; failure to the
// front of unresolved; other steps keep their relative order
#[test]
fn run_next_step_moves_step_to_back_or_front() {
    let mut round = CascadeRound::new("t".to_string());
    round.add_guidance_step(&config(), "a".to_string());
    round.add_inference_step(&config());
    round.add_guidance_step(&config(), "c".to_string());

    round.run_next_step(None).unwrap();
    assert_eq!(round.resolved_steps.back().unwrap().step_index, 1);
    assert_eq!(round.unresolved_steps[0].step_index, 2);
    assert_eq!(round.unresolved_steps[1].step_index, 3);

    let err = round.run_next_step(Some(StepReply::Failed(some_error())));
    assert!(matches!(err, Err(CascadeError::Exec(_))));
    assert_eq!(round.unresolved_steps[0].step_index, 2);
    assert_eq!(round.unresolved_steps[1].step_index, 3);
    assert_eq!(round.resolved_steps.len(), 1);

    round
        .run_next_step(Some(StepReply::Generated("b".to_string())))
        .unwrap();
    assert_eq!(round.resolved_steps.back().unwrap().step_index, 2);
    assert_eq!(
        round.resolved_steps.back().unwrap().outcome,
        Some("b".to_string())
    );
}

// the popped step always returns to resolved, even when priming fails
#[test]
fn set_cache_restores_step_on_failure() {
    let mut round = CascadeRound::new("t".to_string());
    round.add_guidance_step(&config(), "a".to_string());
    round.add_guidance_step(&config(), "b".to_string());
    round.run_next_step(None).unwrap();
    round.run_next_step(None).unwrap();

    let err = round.set_cache_up_to_last_step(PrimeReply::PrimeFailed(some_error()));
    assert!(matches!(err, Err(CascadeError::Exec(_))));
    assert_eq!(round.resolved_steps.len(), 2);
    assert_eq!(round.resolved_steps.back().unwrap().step_index, 2);

    round
        .set_cache_up_to_last_step(PrimeReply::Primed)
        .unwrap();
    assert_eq!(round.resolved_steps.len(), 2);
    assert_eq!(round.resolved_steps.back().unwrap().step_index, 2);
}

// a guidance-only round runs end to end with no backend call and appends
// exactly one user and one assistant turn
#[test]
fn guidance_only_round_runs_end_to_end() {
    let mut round = CascadeRound::new("compose".to_string());
    round.add_guidance_step(&config(), "hello".to_string());
    round.add_guidance_step(&config(), "there".to_string());
    round.add_guidance_step(&config(), "general".to_string());

    let mut req = RequestContext::new();
    round.run_all_steps(&mut req, Vec::new()).unwrap();

    assert_eq!(round.unresolved_steps.len(), 0);
    assert_eq!(round.display_outcome().unwrap(), "hello there general");
    assert_eq!(req.turns.len(), 2);
    assert_eq!(req.turns[0].role, TurnRole::User);
    assert_eq!(req.turns[0].content, "compose");
    assert_eq!(req.turns[1].role, TurnRole::Assistant);
    assert_eq!(req.turns[1].content, "hello there general");
}

#[test]
fn run_all_steps_feeds_replies_to_inference_steps_in_order() {
    let mut round = CascadeRound::new("t".to_string());
    round.add_inference_step(&config());
    round.add_guidance_step(&config(), "mid".to_string());
    round.add_inference_step(&config());

    let mut req = RequestContext::new();
    let replies = vec![
        StepReply::Generated("first".to_string()),
        StepReply::Generated("last".to_string()),
    ];
    round.run_all_steps(&mut req, replies).unwrap();
    assert_eq!(round.display_outcome().unwrap(), "first mid last");
}

#[test]
fn primitive_result_comes_from_most_recently_resolved_step() {
    let mut round = CascadeRound::new("t".to_string());
    assert_eq!(round.primitive_result(), None);
    round.add_guidance_step(&config(), "a".to_string());
    round.run_next_step(None).unwrap();
    assert_eq!(round.primitive_result(), None);

    let step = round.last_step().unwrap();
    step.primitive = Some("42".to_string());
    assert_eq!(round.primitive_result(), Some("42".to_string()));
}

#[test]
fn last_step_fails_on_empty_round() {
    let mut round = CascadeRound::new("t".to_string());
    assert_eq!(round.last_step().unwrap_err(), CascadeError::NoSteps);
}

#[test]
fn open_and_close_round_append_the_two_turns() {
    let mut round = CascadeRound::new("ask".to_string());
    round.add_guidance_step(&config(), "answer".to_string());
    let mut req = RequestContext::new();
    round.open_round(&mut req);
    round.run_next_step(None).unwrap();
    round.close_round(&mut req).unwrap();
    assert_eq!(req.turns.len(), 2);
    assert_eq!(req.turns[0].role, TurnRole::User);
    assert_eq!(req.turns[0].content, "ask");
    assert_eq!(req.turns[1].role, TurnRole::Assistant);
    assert_eq!(req.turns[1].content, "answer");
}

#[test]
fn display_step_outcome_fails_while_unresolved() {
    let mut round = CascadeRound::new("t".to_string());
    round.add_guidance_step(&config(), "a".to_string());
    let step = round.unresolved_steps.front().unwrap();
    assert_eq!(
        step.display_step_outcome().unwrap_err(),
        CascadeError::UnresolvedOutcome
    );
}

#[test]
fn inference_step_seed_text_reaches_the_prefix() {
    let mut round = CascadeRound::new("t".to_string());
    round.add_guidance_step(&config(), "base".to_string());
    round.add_inference_step(&StepConfig {
        step_prefix: Some("seed".to_string()),
    });
    round.run_next_step(None).unwrap();
    let step = round.unresolved_steps.front().unwrap();
    let prefix = round.generation_prefix(step).unwrap();
    assert_eq!(prefix, Some("base seed".to_string()));
}

// after a rollback the round is re-runnable from scratch
#[test]
fn rolled_back_round_reruns_cleanly() {
    let mut round = CascadeRound::new("t".to_string());
    round.add_guidance_step(&config(), "one".to_string());
    round.add_inference_step(&config());

    let mut req = RequestContext::new();
    let failing = vec![StepReply::Failed(some_error())];
    assert!(round.run_all_steps(&mut req, failing).is_err());
    assert_eq!(req.turns.len(), 0);
    assert_eq!(round.unresolved_steps.len(), 2);

    let good = vec![StepReply::Generated("two".to_string())];
    round.run_all_steps(&mut req, good).unwrap();
    assert_eq!(round.display_outcome().unwrap(), "one two");
    assert_eq!(req.turns.len(), 2);
}
