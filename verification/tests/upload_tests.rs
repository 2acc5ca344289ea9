use web_ai_automation::adapter::{dialog_appeared, dialog_missing, AdapterError, Region};
use web_ai_automation::arena::probes::upload_regions;
use web_ai_automation::arena::regions::Regions;
use web_ai_automation::adapter::WebUiState;
use web_ai_automation::matrix::GrayMatrix;
use web_ai_automation::deepseek::upload::{
    attach_click_point, upload_next, UploadNext, UploadPoll, UploadPollOutcome, UploadPollStep, UploadSigns,
    FILE_REJECTED_DEFER_SENTINEL, SERVER_BUSY_RESTART_SENTINEL,
};

fn quiet() -> UploadSigns {
    UploadSigns { server_busy: false, new_chat_pill: false, send_active: false, chip_visible: false }
}

fn other(e: &AdapterError) -> String {
    match e {
        AdapterError::Other(s) => s.clone(),
        _ => panic!("not an Other error"),
    }
}

#[test]
fn paperclip_click_point() {
    let pill = Region { x1: 1150, y1: 900, x2: 1260, y2: 941 };
    assert_eq!(attach_click_point(Some(pill), (0, 0)), (1125, 928));
    assert_eq!(attach_click_point(None, (1210, 760)), (1210, 768));
}

#[test]
fn polls_read_busy_then_complete_then_rejected() {
    let mut p = UploadPoll::new();
    let all = UploadSigns { server_busy: true, new_chat_pill: true, send_active: true, chip_visible: true };
    assert_eq!(p.step(all), UploadPollStep::Finished(UploadPollOutcome::ServerBusy));
    let mut p = UploadPoll::new();
    assert_eq!(p.step(UploadSigns { new_chat_pill: true, chip_visible: true, ..quiet() }), UploadPollStep::Finished(UploadPollOutcome::Complete));
    let mut p = UploadPoll::new();
    assert_eq!(p.step(UploadSigns { send_active: true, ..quiet() }), UploadPollStep::Finished(UploadPollOutcome::Complete));
    let mut p = UploadPoll::new();
    assert_eq!(p.step(UploadSigns { chip_visible: true, ..quiet() }), UploadPollStep::Finished(UploadPollOutcome::Rejected));
}

#[test]
fn fifteen_quiet_polls_time_out() {
    let mut p = UploadPoll::new();
    for _ in 0..14 {
        assert_eq!(p.step(quiet()), UploadPollStep::Wait(15_000));
    }
    assert_eq!(p.step(quiet()), UploadPollStep::Finished(UploadPollOutcome::Timeout));
    assert_eq!(p.polls, 15);
}

#[test]
fn outcomes_lead_to_success_reload_retry_or_deferral() {
    assert!(matches!(upload_next(0, UploadPollOutcome::Complete, false), UploadNext::Attached));
    match upload_next(1, UploadPollOutcome::ServerBusy, true) {
        UploadNext::ReloadThenFail(e) => assert_eq!(other(&e), SERVER_BUSY_RESTART_SENTINEL),
        _ => panic!("expected a reload"),
    }
    match upload_next(0, UploadPollOutcome::Rejected, false) {
        UploadNext::DeleteChipThenRetry(e) => {
            assert_eq!(other(&e), "upload rejected and × delete failed — cannot recover")
        }
        _ => panic!("expected a retry"),
    }
    match upload_next(1, UploadPollOutcome::Rejected, false) {
        UploadNext::DeleteChipThenFail(e) => assert_eq!(other(&e), FILE_REJECTED_DEFER_SENTINEL),
        _ => panic!("expected a deferral"),
    }
    match upload_next(1, UploadPollOutcome::Rejected, true) {
        UploadNext::DeleteChipThenFail(e) => assert_eq!(other(&e), "deferred upload still failing"),
        _ => panic!("expected a failure"),
    }
    match upload_next(0, UploadPollOutcome::Timeout, false) {
        UploadNext::Fail(AdapterError::Timeout { what, after_ms }) => {
            assert_eq!(what, "upload polling timed out without chip or active send button");
            assert_eq!(after_ms, 150_000);
        }
        _ => panic!("expected a timeout"),
    }
}

#[test]
fn file_dialog_shows_as_a_variance_move() {
    let page = GrayMatrix { width: 4, height: 1, data: vec![0, 40, 0, 40] }; // variance 400
    let dialog = GrayMatrix { width: 4, height: 1, data: vec![0, 60, 0, 60] }; // variance 900
    let close = GrayMatrix { width: 4, height: 1, data: vec![0, 44, 0, 44] }; // variance 484
    assert!(dialog_appeared(&page, &dialog));
    assert!(dialog_appeared(&dialog, &page));
    assert!(!dialog_appeared(&page, &close));
    assert!(!dialog_appeared(&GrayMatrix { width: 0, height: 0, data: vec![] }, &GrayMatrix { width: 0, height: 0, data: vec![] }));
    match dialog_missing() {
        AdapterError::NotFound { what } => assert_eq!(what, "file dialog did not appear after clicking attach button"),
        _ => panic!("expected NotFound"),
    }
}

#[test]
fn arena_upload_regions_follow_the_page() {
    let r = Regions::mac_1512x982();
    assert_eq!(upload_regions(&r, WebUiState::Ready), (r.attach_scan_fresh, r.send_or_stop, r.input_box));
    assert_eq!(upload_regions(&r, WebUiState::Complete), (r.attach_scan_inchat, r.send_or_stop_inchat, r.input_box));
}
