//! End-to-end runs of the iteration machine against the `NullAdapter`,
//! driven by a loop on a simulated clock.

use web_ai_automation::adapter::WebUiState;
use web_ai_automation::fsm::{
    generation_timed_out, judge_confirmation, judge_generation_poll, looks_like_arena_error, recovery_note,
    recovery_verdict, Event, FsmConfig, FsmError, GenerationVerdict, IterationMachine, StabilityWatch, Step, Work,
};
use web_ai_automation::null::{NullAdapter, StateScript};
use web_ai_automation::recovery::{DispatchStep, Problem, RecoveryDispatcher, RecoveryOutcome};
use web_ai_automation::state_log::{transition_at, StateTransition};

fn fast_config() -> FsmConfig {
    FsmConfig {
        max_wait_for_gen_ms: 2_000,
        post_submit_quiet_ms: 0,
        max_generation_ms: 4_000,
        min_generation_ms: 100,
        generation_poll_ms: 50,
        max_retries: 1,
        poll_interval_ms: 20,
        state_stable_ms: 40,
        unknown_polls_threshold: 4,
    }
}

/// Runs iterations the way the runner does, with sleeps on a simulated
/// clock and the transitions kept in memory.
struct Sim {
    adapter: NullAdapter,
    config: FsmConfig,
    recovery: RecoveryDispatcher,
    now_ms: u64,
    log: Vec<StateTransition>,
}

impl Sim {
    fn new(adapter: NullAdapter) -> Sim {
        Sim {
            adapter,
            config: fast_config(),
            recovery: RecoveryDispatcher::new(Vec::new()),
            now_ms: 0,
            log: Vec::new(),
        }
    }

    fn sleep(&mut self, ms: u64) {
        self.now_ms += ms;
    }

    fn log(&mut self, from: &str, to: &str, note: Option<String>) {
        let t = transition_at(format!("{}ms", self.now_ms), self.adapter.name(), 0, 0, from, to, note, None);
        self.log.push(t);
    }

    fn recover(&mut self, p: Problem) -> Result<(), FsmError> {
        let mut run = self.recovery.begin(p.duplicate());
        loop {
            match run.next() {
                DispatchStep::Execute(_) => {
                    // Nothing on this desktop can be fixed by an action.
                    if run.record(RecoveryOutcome::Escalate) {
                        let b = self.recovery.backoff_ms();
                        self.sleep(b);
                    }
                }
                DispatchStep::Done(result) => {
                    let note = recovery_note(&p, &result);
                    return match recovery_verdict(&p, result) {
                        Ok(action) => {
                            self.log("recovery", action, Some(note));
                            Ok(())
                        }
                        Err(e) => {
                            self.log("recovery", "failed", Some(note));
                            Err(e)
                        }
                    };
                }
            }
        }
    }

    fn wait_for_any(&mut self, targets: Vec<WebUiState>, timeout_ms: u64, stage: &'static str) -> Result<WebUiState, FsmError> {
        let mut watch = StabilityWatch::new(targets, self.now_ms, timeout_ms, &self.config);
        while !watch.expired(self.now_ms) {
            let detected = self.adapter.detect_state().map_err(FsmError::Adapter)?;
            if watch.note_detection(detected) {
                self.recover(Problem::UnknownScreen)?;
            }
            if let Some(s) = watch.settle(detected, self.now_ms) {
                return Ok(s);
            }
            let p = self.config.poll_interval_ms;
            self.sleep(p);
        }
        Err(FsmError::Timeout(stage))
    }

    fn watch_generation(&mut self) -> Result<WebUiState, FsmError> {
        let started = self.now_ms;
        loop {
            if generation_timed_out(self.now_ms - started, &self.config) {
                return Err(FsmError::Timeout("Generating"));
            }
            let p = self.config.generation_poll_ms;
            self.sleep(p);
            let detected = self.adapter.detect_state().map_err(FsmError::Adapter)?;
            match judge_generation_poll(detected, self.now_ms - started, &self.config) {
                GenerationVerdict::Finish(s) => return Ok(s),
                GenerationVerdict::Confirm => {
                    self.sleep(5_000);
                    let confirm = self.adapter.detect_state().map_err(FsmError::Adapter)?;
                    if let Some(s) = judge_confirmation(confirm) {
                        return Ok(s);
                    }
                }
                GenerationVerdict::KeepWaiting => {}
            }
        }
    }

    fn do_work(&mut self, m: &IterationMachine, prompt: &str) -> Result<Event, FsmError> {
        match m.work(&self.config) {
            Work::WaitFor { targets, timeout_ms, stage } => Ok(Event::Observed(self.wait_for_any(targets, timeout_ms, stage)?)),
            Work::Submit => {
                let text = m.effective_prompt(prompt, None);
                self.adapter.submit_prompt(&text).map_err(FsmError::Adapter)?;
                Ok(Event::Submitted)
            }
            Work::PostSubmitThenWaitFor { targets, timeout_ms, stage } => {
                self.sleep(5_000);
                let _ = self.adapter.detect_state().map_err(FsmError::Adapter)?;
                self.sleep(40_000);
                Ok(Event::Observed(self.wait_for_any(targets, timeout_ms, stage)?))
            }
            Work::WatchGeneration => Ok(Event::Observed(self.watch_generation()?)),
            Work::Copy => Ok(Event::Copied(self.adapter.copy_response().map_err(FsmError::Adapter)?)),
            Work::Pause { ms } => {
                self.sleep(ms);
                Ok(Event::Paused)
            }
            Work::StartNewChat { ready_timeout_ms, stage } => {
                self.adapter.start_new_chat().map_err(FsmError::Adapter)?;
                self.wait_for_any(vec![WebUiState::Ready], ready_timeout_ms, stage)?;
                Ok(Event::NewChatReady)
            }
            Work::Decide => Ok(Event::Proceed),
        }
    }

    fn run_iteration(&mut self, prompt: &str) -> Result<String, FsmError> {
        let (mut m, t) = IterationMachine::start(&self.config);
        self.log(t.from, t.to, None);
        loop {
            let ev = match self.do_work(&m, prompt) {
                Ok(ev) => ev,
                Err(e) => Event::Failed(e),
            };
            match m.advance(ev) {
                Step::Moved(t) => self.log(t.from, t.to, None),
                Step::MovedThenFailed(t, e) => {
                    self.log(t.from, t.to, None);
                    return Err(e);
                }
                Step::Completed(r) => return Ok(r),
                Step::Stopped(e) => return Err(e),
            }
        }
    }
}

// ── Happy path ──────────────────────────────────────────────────────────────

#[test]
fn fsm_completes_with_default_script() {
    let mut sim = Sim::new(NullAdapter::new());
    let response = sim
        .run_iteration("what is the capital of France?")
        .expect("FSM should complete on the default Ready→Generating→Complete script");
    assert!(response.contains("[null adapter response]"));
    assert!(response.contains("what is the capital of France?"));
}

// ── Skip-Generating path (very short response) ──────────────────────────────

#[test]
fn fsm_handles_immediate_complete_without_generating() {
    let script = StateScript {
        states: vec![WebUiState::Ready, WebUiState::Complete, WebUiState::Complete],
    };
    let mut sim = Sim::new(NullAdapter::with_script(script));
    let response = sim.run_iteration("ping").expect("immediate-complete is valid");
    assert!(response.contains("ping"));
}

// ── Unknown screen → recovery escalates and FSM fails ───────────────────────

#[test]
fn fsm_fails_when_screen_stays_unknown() {
    let script = StateScript {
        states: vec![WebUiState::Unknown; 50],
    };
    let mut sim = Sim::new(NullAdapter::with_script(script));
    let result = sim.run_iteration("anything");
    assert!(result.is_err(), "expected FSM to fail with persistent Unknown");
}

// ── Error → retry → success ─────────────────────────────────────────────────

#[test]
fn fsm_retries_after_error_then_completes() {
    let script = StateScript {
        states: vec![
            WebUiState::Ready,
            WebUiState::Generating,
            WebUiState::Error,
            WebUiState::Ready,
            WebUiState::Generating,
            WebUiState::Complete,
        ],
    };
    let mut sim = Sim::new(NullAdapter::with_script(script));
    let _ = sim.run_iteration("test");
    let line_count = sim.log.len();
    assert!(line_count >= 3, "state log should have at least 3 transitions, got {line_count}");
}

// ── Paths through the machine, step by step ─────────────────────────────────

#[test]
fn default_run_visits_the_happy_path_in_order() {
    let mut sim = Sim::new(NullAdapter::new());
    sim.run_iteration("q").unwrap();
    let path: Vec<(String, String)> = sim.log.iter().map(|t| (t.from.clone(), t.to.clone())).collect();
    let expected = [
        ("<start>", "Idle"),
        ("Idle", "Submitting"),
        ("Submitting", "WaitingForGen"),
        ("WaitingForGen", "Generating"),
        ("Generating", "Complete"),
        ("Complete", "Copying"),
        ("Copying", "Done"),
    ];
    assert_eq!(path.len(), expected.len());
    for (i, (f, t)) in expected.iter().enumerate() {
        assert_eq!(path[i].0, *f);
        assert_eq!(path[i].1, *t);
    }
}

#[test]
fn repeated_error_exhausts_retries() {
    let script = StateScript {
        states: vec![WebUiState::Ready, WebUiState::Generating, WebUiState::Error],
    };
    let mut sim = Sim::new(NullAdapter::with_script(script));
    let r = sim.run_iteration("x");
    assert!(matches!(r, Err(FsmError::RetriesExhausted)));
    let last = sim.log.last().unwrap();
    assert_eq!(last.from, "Error");
    assert_eq!(last.to, "Failed");
    assert!(sim.log.iter().any(|t| t.to == "Retrying"));
    assert!(sim.log.iter().any(|t| t.to == "StartingNewChat"));
}

#[test]
fn failed_recovery_lists_what_was_tried() {
    let script = StateScript {
        states: vec![WebUiState::Unknown],
    };
    let mut sim = Sim::new(NullAdapter::with_script(script));
    let r = sim.run_iteration("x");
    match r {
        Err(FsmError::Unrecovered(u)) => {
            assert!(matches!(u.problem, Problem::UnknownScreen));
            assert!(u.tried.is_empty());
        }
        other => panic!("expected an unrecovered problem, got {other:?}"),
    }
    let last = sim.log.last().unwrap();
    assert_eq!(last.from, "recovery");
    assert_eq!(last.to, "failed");
    assert_eq!(last.note.as_deref(), Some("could not resolve unknown screen; tried []"));
}

#[test]
fn machine_retries_then_gives_up_after_max_retries() {
    let cfg = fast_config();
    let (mut m, t) = IterationMachine::start(&cfg);
    assert_eq!((t.from, t.to), ("<start>", "Idle"));
    assert!(matches!(m.advance(Event::Observed(WebUiState::Ready)), Step::Moved(_)));
    assert!(matches!(m.advance(Event::Submitted), Step::Moved(_)));
    assert!(matches!(m.advance(Event::Observed(WebUiState::Generating)), Step::Moved(_)));
    assert_eq!(m.state_name(), "Generating");
    match m.advance(Event::Observed(WebUiState::Error)) {
        Step::Moved(t) => assert_eq!((t.from, t.to), ("Generating", "Error")),
        other => panic!("unexpected {other:?}"),
    }
    match m.advance(Event::Proceed) {
        Step::Moved(t) => assert_eq!((t.from, t.to), ("Error", "Retrying")),
        other => panic!("unexpected {other:?}"),
    }
    assert_eq!(m.retries(), 1);
    assert!(matches!(m.work(&cfg), Work::Pause { ms: 1000 }));
    assert!(matches!(m.advance(Event::Paused), Step::Moved(_)));
    assert_eq!(m.state_name(), "StartingNewChat");
    assert!(matches!(m.advance(Event::NewChatReady), Step::Moved(_)));
    assert_eq!(m.state_name(), "Submitting");
    // After a restart in a new chat the previous output is prepended.
    assert_eq!(
        m.effective_prompt("P", Some("CTX")),
        "═══ PREVIOUS ITERATION OUTPUT (for context) ═══\nCTX\n\n═══ CURRENT PROMPT ═══\nP"
    );
    // An empty context leaves the prompt alone.
    assert_eq!(m.effective_prompt("P", Some("")), "P");
    assert!(matches!(m.advance(Event::Submitted), Step::Moved(_)));
    assert!(matches!(m.advance(Event::Observed(WebUiState::Generating)), Step::Moved(_)));
    assert!(matches!(m.advance(Event::Observed(WebUiState::Error)), Step::Moved(_)));
    match m.advance(Event::Proceed) {
        Step::MovedThenFailed(t, FsmError::RetriesExhausted) => assert_eq!((t.from, t.to), ("Error", "Failed")),
        other => panic!("unexpected {other:?}"),
    }
    assert_eq!(m.retries(), 1);
}

#[test]
fn copied_arena_error_is_routed_to_error() {
    let cfg = fast_config();
    let (mut m, _) = IterationMachine::start(&cfg);
    m.advance(Event::Observed(WebUiState::Ready));
    m.advance(Event::Submitted);
    m.advance(Event::Observed(WebUiState::Complete));
    assert_eq!(m.state_name(), "Complete");
    m.advance(Event::Proceed);
    assert_eq!(m.state_name(), "Copying");
    m.advance(Event::Copied(String::from("Something went wrong. Please try again.")));
    assert_eq!(m.state_name(), "Error");
}

#[test]
fn chat_full_during_generation_starts_a_new_chat() {
    let cfg = fast_config();
    let (mut m, _) = IterationMachine::start(&cfg);
    m.advance(Event::Observed(WebUiState::Ready));
    m.advance(Event::Submitted);
    m.advance(Event::Observed(WebUiState::Generating));
    m.advance(Event::Observed(WebUiState::ChatFull));
    assert_eq!(m.state_name(), "StartingNewChat");
    assert_eq!(m.retries(), 0);
}

#[test]
fn chat_full_problem_restarts_in_a_new_chat() {
    let cfg = fast_config();
    let (mut m, _) = IterationMachine::start(&cfg);
    match m.on_problem(&Problem::ChatFull) {
        web_ai_automation::fsm::ProblemPlan::Restart(t) => assert_eq!((t.from, t.to), ("Idle", "StartingNewChat")),
        other => panic!("unexpected {other:?}"),
    }
    assert!(matches!(m.on_problem(&Problem::UnexpectedModal), web_ai_automation::fsm::ProblemPlan::Recover));
    assert_eq!(m.state_name(), "StartingNewChat");
}

// ── Polling decisions ───────────────────────────────────────────────────────

#[test]
fn stability_watch_needs_a_stable_target() {
    let cfg = fast_config();
    let mut w = StabilityWatch::new(vec![WebUiState::Ready], 1_000, 500, &cfg);
    assert_eq!(w.settle(WebUiState::Ready, 1_000), None);
    assert_eq!(w.settle(WebUiState::Ready, 1_039), None);
    // Flicker restarts the clock.
    assert_eq!(w.settle(WebUiState::Generating, 1_045), None);
    assert_eq!(w.settle(WebUiState::Ready, 1_050), None);
    assert_eq!(w.settle(WebUiState::Ready, 1_090), Some(WebUiState::Ready));
    // A stable non-target is never accepted.
    let mut g = StabilityWatch::new(vec![WebUiState::Ready], 0, 500, &cfg);
    g.settle(WebUiState::Generating, 0);
    assert_eq!(g.settle(WebUiState::Generating, 400), None);
    assert!(!g.expired(499));
    assert!(g.expired(500));
}

#[test]
fn unknown_streak_triggers_recovery_at_threshold() {
    let cfg = fast_config();
    let mut w = StabilityWatch::new(vec![WebUiState::Ready], 0, 500, &cfg);
    assert!(!w.note_detection(WebUiState::Unknown));
    assert!(!w.note_detection(WebUiState::Unknown));
    assert!(!w.note_detection(WebUiState::Unknown));
    assert!(w.note_detection(WebUiState::Unknown));
    // The streak starts over after recovery, and any other state resets it.
    assert!(!w.note_detection(WebUiState::Unknown));
    assert!(!w.note_detection(WebUiState::Ready));
    assert!(!w.note_detection(WebUiState::Unknown));
}

#[test]
fn generation_polls_trust_complete_only_after_the_quiet_period() {
    let cfg = fast_config();
    assert_eq!(judge_generation_poll(WebUiState::Complete, 99, &cfg), GenerationVerdict::KeepWaiting);
    assert_eq!(judge_generation_poll(WebUiState::Complete, 100, &cfg), GenerationVerdict::Confirm);
    assert_eq!(judge_generation_poll(WebUiState::Error, 0, &cfg), GenerationVerdict::Finish(WebUiState::Error));
    assert_eq!(judge_generation_poll(WebUiState::ChatFull, 0, &cfg), GenerationVerdict::Finish(WebUiState::ChatFull));
    assert_eq!(judge_generation_poll(WebUiState::Generating, 5_000, &cfg), GenerationVerdict::KeepWaiting);
    assert_eq!(judge_confirmation(WebUiState::Complete), Some(WebUiState::Complete));
    assert_eq!(judge_confirmation(WebUiState::Generating), None);
    assert!(!generation_timed_out(3_999, &cfg));
    assert!(generation_timed_out(4_000, &cfg));
}

#[test]
fn default_config_values() {
    let c = FsmConfig::default();
    assert_eq!(c.max_wait_for_gen_ms, 60_000);
    assert_eq!(c.max_generation_ms, 600_000);
    assert_eq!(c.generation_poll_ms, 15_000);
    assert_eq!(c.max_retries, 3);
    assert_eq!(c.poll_interval_ms, 500);
    assert_eq!(c.state_stable_ms, 700);
    assert_eq!(c.unknown_polls_threshold, 6);
}

#[test]
fn arena_error_screening() {
    assert!(looks_like_arena_error("Something went wrong"));
    assert!(looks_like_arena_error("PLEASE START A NEW CHAT"));
    assert!(looks_like_arena_error("Failed to generate a response"));
    assert!(looks_like_arena_error("Error: try again later"));
    assert!(!looks_like_arena_error("Please try again"));
    assert!(!looks_like_arena_error("The capital of France is Paris."));
    // Long texts are real responses even when they mention an error.
    let long = format!("{} something went wrong", "x".repeat(500));
    assert!(!looks_like_arena_error(&long));
}

#[test]
fn machine_accepts_only_fitting_events() {
    let (m, _) = IterationMachine::start(&FsmConfig::default());
    assert!(m.accepts(&Event::Observed(WebUiState::Ready)));
    assert!(m.accepts(&Event::Observed(WebUiState::Complete)));
    assert!(!m.accepts(&Event::Observed(WebUiState::Generating)));
    assert!(!m.accepts(&Event::Submitted));
    assert!(!m.accepts(&Event::Copied(String::from("x"))));
    assert!(m.accepts(&Event::Failed(FsmError::RetriesExhausted)));
}
