# web_ai_automation

A verified core for a desktop bot that drives chat web UIs (Arena.ai and
DeepSeek) through screenshots, clicks and the clipboard. The library in
`src/` holds the decisions, stated in Verus contracts and proved; `app/`
holds the parts that touch the machine (AppleScript or the Windows window
manager, files, the clock, serde records) and drives the library.

## Layout

- `src/adapter.rs` – screen states, regions, adapter errors, match centres.
- `src/matrix.rs`, `src/stats.rs`, `src/blobs.rs` – captured pixels, exact
  means/variances/shares decided on integers, and bright connected
  components found by flood fill.
- `src/fsm.rs`, `src/detection.rs`, `src/recovery.rs`, `src/watchdog.rs` –
  the per-prompt state machine, the stability filter, probe plans, the
  recovery dispatcher and the invariant watchdog.
- `src/arena/` – Arena.ai: calibrated regions and their scaling, detection
  plans, pixel probes, pasting and sending, copy-button ranking, the A/B
  chooser, session-setup checks, template lists and titles; the session
  setup (`setup_flow`), the model pick (`model_pick`) and the prompt
  submission (`submit_flow`) as step functions from observation to action.
- `src/deepseek/` – DeepSeek: regions, plans, detectors, chips and uploads,
  toggles and the model selector, send confirmation; its setup and
  submission protocols (`setup_flow`, `submit_flow`).
- `src/browser_state/` – parsing what the browser reports on each platform.
- `src/null.rs`, `src/runtime.rs`, `src/state_log.rs`, `src/text.rs`,
  `src/parse.rs` – the scripted adapter, resume state, the transition log,
  and string helpers with exact specifications.
- `tests/` – the tests, run against the compiled library.
- `app/` – the I/O around the library; `app/flows.rs` runs the setup,
  model-pick and submission protocols against a host that supplies the
  screen and the pointer.
