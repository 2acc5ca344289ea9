use web_ai_automation::arena::model_pick::{pick_begin, pick_next, PickAction, PickEvent, PickPhase, PickState};

fn s(x: &str) -> String {
    x.to_string()
}

fn failure(a: PickAction) -> String {
    match a {
        PickAction::Finish(Err(m)) => m,
        _ => panic!("expected a failure"),
    }
}

/// Open the dropdown on the second click, which goes to the scanned spot.
fn opened() -> PickState {
    let (st, a) = pick_begin((700, 60));
    assert!(matches!(a, PickAction::CheckOpen));
    let (st, a) = pick_next(&st, PickEvent::MenuOpen(false));
    assert!(matches!(a, PickAction::ClickHeader((700, 60))));
    let (st, a) = pick_next(&st, PickEvent::Outcome(Ok(())));
    assert!(matches!(a, PickAction::CheckOpen));
    let (st, a) = pick_next(&st, PickEvent::MenuOpen(false));
    assert!(matches!(a, PickAction::ScanHeader));
    let (st, a) = pick_next(&st, PickEvent::Scanned(Some((690, 58))));
    assert!(matches!(a, PickAction::ClickHeader((690, 58))));
    let (st, _) = pick_next(&st, PickEvent::Outcome(Ok(())));
    let (st, a) = pick_next(&st, PickEvent::MenuOpen(true));
    assert!(matches!(a, PickAction::ReadSearch));
    st
}

#[test]
fn pick_full_run_with_clearing() {
    let st = opened();
    let (st, a) = pick_next(&st, PickEvent::SearchRead(Some(true)));
    assert!(matches!(a, PickAction::PrepareClipboard));
    let (st, a) = pick_next(&st, PickEvent::Outcome(Ok(())));
    assert!(matches!(a, PickAction::LocateSearch));
    let (st, a) = pick_next(&st, PickEvent::SearchAt((700, 120)));
    assert!(matches!(a, PickAction::ClickSearch((700, 120))));
    let (st, a) = pick_next(&st, PickEvent::Outcome(Ok(())));
    assert!(matches!(a, PickAction::ClearSearch));
    let (st, a) = pick_next(&st, PickEvent::Outcome(Ok(())));
    assert!(matches!(a, PickAction::Paste));
    let (st, a) = pick_next(&st, PickEvent::Outcome(Ok(())));
    assert!(matches!(a, PickAction::CheckPaste));
    let (st, a) = pick_next(&st, PickEvent::PasteChecked { filled: Some(true), detail: s(""), compare: s("") });
    assert!(matches!(a, PickAction::PressDown));
    let (st, a) = pick_next(&st, PickEvent::Outcome(Ok(())));
    assert!(matches!(a, PickAction::PressReturn));
    let (st, a) = pick_next(&st, PickEvent::Outcome(Ok(())));
    assert!(matches!(a, PickAction::CheckClosed));
    let (st, a) = pick_next(&st, PickEvent::Closed { still_open: false, detail: s("") });
    assert!(matches!(a, PickAction::CheckHeader));
    let (st, a) = pick_next(&st, PickEvent::Header { matches: None, detail: s("") });
    assert!(matches!(a, PickAction::RestoreClipboard));
    let (st, a) = pick_next(&st, PickEvent::Outcome(Ok(())));
    assert!(matches!(a, PickAction::Finish(Ok(()))));
    assert_eq!(st.phase, PickPhase::Finished);
}

#[test]
fn pick_gives_up_after_four_header_clicks() {
    let (mut st, _) = pick_begin((700, 60));
    let mut clicks = 0;
    loop {
        let (t, a) = pick_next(&st, PickEvent::MenuOpen(false));
        match a {
            PickAction::ClickHeader(_) => {
                clicks += 1;
                let (t, _) = pick_next(&t, PickEvent::Outcome(Ok(())));
                st = t;
            },
            PickAction::ScanHeader => {
                let (t, a) = pick_next(&t, PickEvent::Scanned(None));
                assert!(matches!(a, PickAction::ClickHeader((700, 60))));
                clicks += 1;
                let (t, _) = pick_next(&t, PickEvent::Outcome(Ok(())));
                st = t;
            },
            other => {
                assert_eq!(failure(other), "verify failed step 6: model dropdown did not open after retry+scan");
                break;
            },
        }
    }
    assert_eq!(clicks, 4);
}

#[test]
fn pick_paste_that_did_not_fill_restores_then_fails() {
    let st = opened();
    let (st, _) = pick_next(&st, PickEvent::SearchRead(Some(false)));
    let (st, _) = pick_next(&st, PickEvent::Outcome(Ok(())));
    let (st, _) = pick_next(&st, PickEvent::SearchAt((700, 85)));
    let (st, a) = pick_next(&st, PickEvent::Outcome(Ok(())));
    assert!(matches!(a, PickAction::Paste));
    let (st, _) = pick_next(&st, PickEvent::Outcome(Ok(())));
    let (st, a) = pick_next(
        &st,
        PickEvent::PasteChecked { filled: Some(false), detail: s("diff=0.50% var_delta=2.0"), compare: s("Compare a.png vs b.png.") },
    );
    assert!(matches!(a, PickAction::RestoreClipboard));
    let (_, a) = pick_next(&st, PickEvent::Outcome(Ok(())));
    assert_eq!(
        failure(a),
        "verify failed step 6: cmd+v paste did NOT fill model search input. diff=0.50% var_delta=2.0 Search input wasn't focused at (700,85). Compare a.png vs b.png."
    );
}

#[test]
fn pick_header_click_error_names_click() {
    let (st, _) = pick_begin((1, 2));
    let (st, _) = pick_next(&st, PickEvent::MenuOpen(false));
    let (_, a) = pick_next(&st, PickEvent::Outcome(Err(s("no pointer"))));
    assert_eq!(failure(a), "model click 1: no pointer");
}

#[test]
fn pick_calibration_mismatch_fails_without_restore() {
    let st = opened();
    let (st, _) = pick_next(&st, PickEvent::SearchRead(Some(false)));
    let (st, _) = pick_next(&st, PickEvent::Outcome(Ok(())));
    let (st, _) = pick_next(&st, PickEvent::SearchAt((1, 1)));
    let (st, _) = pick_next(&st, PickEvent::Outcome(Ok(())));
    let (st, _) = pick_next(&st, PickEvent::Outcome(Ok(())));
    let (st, _) = pick_next(&st, PickEvent::PasteChecked { filled: Some(true), detail: s(""), compare: s("") });
    let (st, _) = pick_next(&st, PickEvent::Outcome(Ok(())));
    let (st, _) = pick_next(&st, PickEvent::Outcome(Ok(())));
    let (st, _) = pick_next(&st, PickEvent::Closed { still_open: false, detail: s("") });
    let (st, a) = pick_next(&st, PickEvent::Header { matches: Some(false), detail: s("'m' (score 0.500 < 0.85).") });
    assert_eq!(st.phase, PickPhase::Finished);
    assert_eq!(failure(a), "verify failed step 6: model header doesn't match calibrated 'm' (score 0.500 < 0.85).");
}
