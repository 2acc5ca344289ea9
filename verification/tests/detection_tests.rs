use web_ai_automation::stats::PixelStats;
use web_ai_automation::adapter::WebUiState;
use web_ai_automation::arena::detect::UrlClass;
use web_ai_automation::arena::plan::{arena_detection_plan, arena_watchdog_plan};
use web_ai_automation::arena::regions::Regions;
use web_ai_automation::deepseek::detect::UrlClass as DeepSeekUrlClass;
use web_ai_automation::deepseek::plan::deepseek_detection_plan;
use web_ai_automation::deepseek::regions::Regions as DeepSeekRegions;
use web_ai_automation::detection::{
    sample_reading, variance_reading, Answer, Check, DetectStep, Detection, Fallback, Probe, VarianceReading, VarianceTrack,
};

/// Walk a plan against a screen described by `answer`; returns the verdict
/// (or the variance fallback) and the probes that ran.
fn walk(plan: (Vec<Check>, Fallback), answer: impl Fn(&Probe) -> Answer) -> (DetectStep, Vec<Probe>) {
    let mut d = Detection::new(plan.0, plan.1);
    let mut ran = Vec::new();
    loop {
        match d.next() {
            DetectStep::Run(p) => {
                let a = answer(&p);
                ran.push(p);
                d.record(a);
            }
            other => return (other, ran),
        }
    }
}

fn nothing(p: &Probe) -> Answer {
    match p {
        Probe::DownloadButton => Answer::Download(None),
        _ => Answer::Seen(false),
    }
}

#[test]
fn arena_modals_win_everywhere() {
    let r = Regions::mac_1512x982_code();
    for url in [UrlClass::Home, UrlClass::InChat, UrlClass::OffSite, UrlClass::Unknown] {
        let (v, ran) = walk(arena_detection_plan(url, &r), |p| Answer::Seen(*p == Probe::ChatFullModal));
        assert_eq!(v, DetectStep::Verdict(WebUiState::ChatFull));
        assert_eq!(ran, vec![Probe::ChatFullModal]);
        let (v, _) = walk(arena_detection_plan(url, &r), |p| Answer::Seen(*p == Probe::ErrorBanner));
        assert_eq!(v, DetectStep::Verdict(WebUiState::Error));
    }
}

#[test]
fn arena_off_site_and_home() {
    let r = Regions::mac_1512x982_code();
    let (v, ran) = walk(arena_detection_plan(UrlClass::OffSite, &r), nothing);
    assert_eq!(v, DetectStep::Verdict(WebUiState::Unknown));
    assert!(!ran.contains(&Probe::StopSquareWatchdog));
    let (v, ran) = walk(arena_detection_plan(UrlClass::Home, &r), nothing);
    assert_eq!(v, DetectStep::Verdict(WebUiState::Ready));
    // Detection only reads: the clicking watchdog is a plan of its own.
    assert!(!ran.contains(&Probe::StopSquareWatchdog));
    assert_eq!(arena_watchdog_plan(UrlClass::Home), vec![Probe::StopSquareWatchdog]);
    assert_eq!(arena_watchdog_plan(UrlClass::Unknown), vec![Probe::StopSquareWatchdog]);
    assert_eq!(arena_watchdog_plan(UrlClass::OffSite), Vec::<Probe>::new());
}

#[test]
fn arena_code_chat_download_button_decides_first() {
    let r = Regions::mac_1512x982_code();
    let (v, ran) = walk(arena_detection_plan(UrlClass::InChat, &r), |p| match p {
        Probe::DownloadButton => Answer::Download(Some(false)),
        _ => Answer::Seen(false),
    });
    assert_eq!(v, DetectStep::Verdict(WebUiState::Generating));
    assert_eq!(ran.last(), Some(&Probe::DownloadButton));
    let (v, _) = walk(arena_detection_plan(UrlClass::InChat, &r), |p| match p {
        Probe::DownloadButton => Answer::Download(Some(true)),
        _ => Answer::Seen(true),
    });
    // The modal probes fired first.
    assert_eq!(v, DetectStep::Verdict(WebUiState::ChatFull));
}

#[test]
fn arena_code_chat_open_panel_completes_after_the_stop_checks() {
    let r = Regions::mac_1512x982_code();
    let (v, ran) = walk(arena_detection_plan(UrlClass::InChat, &r), |p| match p {
        Probe::DownloadButton => Answer::Download(None),
        Probe::CodePanel => Answer::Seen(true),
        _ => Answer::Seen(false),
    });
    assert_eq!(v, DetectStep::Verdict(WebUiState::Complete));
    assert!(ran.contains(&Probe::StopButtonOnScreen));
    assert!(ran.contains(&Probe::RerunButton));
    assert!(!ran.iter().any(|p| matches!(p, Probe::CopyTemplate(_))));
    // A stop button still wins over the open panel.
    let (v, _) = walk(arena_detection_plan(UrlClass::InChat, &r), |p| match p {
        Probe::DownloadButton => Answer::Download(None),
        Probe::CodePanel => Answer::Seen(true),
        Probe::StopTemplate(_) => Answer::Seen(true),
        _ => Answer::Seen(false),
    });
    assert_eq!(v, DetectStep::Verdict(WebUiState::Generating));
}

#[test]
fn arena_chat_without_signals_falls_back_to_variance() {
    let code = Regions::mac_1512x982_code();
    let (v, _) = walk(arena_detection_plan(UrlClass::InChat, &code), nothing);
    assert_eq!(v, DetectStep::VarianceFallback);
    let text = Regions::mac_1512x982_text_scaffold();
    let (v, ran) = walk(arena_detection_plan(UrlClass::InChat, &text), nothing);
    assert_eq!(v, DetectStep::VarianceFallback);
    assert!(!ran.contains(&Probe::DownloadButton));
    let (v, _) = walk(arena_detection_plan(UrlClass::InChat, &text), |p| Answer::Seen(*p == Probe::LatestCopyButton));
    assert_eq!(v, DetectStep::Verdict(WebUiState::Complete));
}

#[test]
fn arena_without_url_reads_the_prompt_button() {
    let r = Regions::mac_1512x982_code();
    let stop = Probe::StopTemplate(r.send_or_stop);
    let send = Probe::SendTemplate(r.send_or_stop);
    let (v, _) = walk(arena_detection_plan(UrlClass::Unknown, &r), |p| Answer::Seen(*p == stop));
    assert_eq!(v, DetectStep::Verdict(WebUiState::Generating));
    let (v, _) = walk(arena_detection_plan(UrlClass::Unknown, &r), |p| Answer::Seen(*p == send));
    assert_eq!(v, DetectStep::Verdict(WebUiState::Ready));
    let (v, _) = walk(arena_detection_plan(UrlClass::Unknown, &r), nothing);
    assert_eq!(v, DetectStep::Verdict(WebUiState::Unknown));
}

#[test]
fn deepseek_send_button_means_complete_only_in_a_chat() {
    let r = DeepSeekRegions::mac_1512x982();
    let send = |p: &Probe| Answer::Seen(matches!(p, Probe::SendButtonIn(_)));
    let (v, ran) = walk(deepseek_detection_plan(DeepSeekUrlClass::InChat, &r), send);
    assert_eq!(v, DetectStep::Verdict(WebUiState::Complete));
    assert_eq!(ran[0], Probe::DismissDocPanel);
    // The in-chat send rail is tried first.
    assert_eq!(ran[1], Probe::StopTemplate(r.send_scan_inchat));
    let (v, _) = walk(deepseek_detection_plan(DeepSeekUrlClass::Unknown, &r), send);
    assert_eq!(v, DetectStep::Verdict(WebUiState::Ready));
    let (v, ran) = walk(deepseek_detection_plan(DeepSeekUrlClass::OffSite, &r), send);
    assert_eq!(v, DetectStep::Verdict(WebUiState::Unknown));
    assert!(ran.is_empty());
}

#[test]
fn deepseek_home_and_generation() {
    let r = DeepSeekRegions::mac_1512x982();
    let (v, _) = walk(deepseek_detection_plan(DeepSeekUrlClass::Home, &r), |p| Answer::Seen(*p == Probe::ModelSelector));
    assert_eq!(v, DetectStep::Verdict(WebUiState::Ready));
    let (v, _) = walk(deepseek_detection_plan(DeepSeekUrlClass::Home, &r), |p| {
        Answer::Seen(matches!(p, Probe::WhiteStopSquare(_)))
    });
    assert_eq!(v, DetectStep::Verdict(WebUiState::Generating));
    let (v, _) = walk(deepseek_detection_plan(DeepSeekUrlClass::InChat, &r), nothing);
    assert_eq!(v, DetectStep::VarianceFallback);
    let (v, _) = walk(deepseek_detection_plan(DeepSeekUrlClass::Home, &r), nothing);
    assert_eq!(v, DetectStep::Verdict(WebUiState::Unknown));
}

#[test]
fn variance_fallback_needs_an_earlier_jump() {
    let mut t = VarianceTrack::new();
    assert_eq!(t.decide(VarianceReading::First), WebUiState::Unknown);
    // Steady from the start: the page never changed since submission.
    assert_eq!(t.decide(VarianceReading::Steady), WebUiState::Unknown);
    assert_eq!(t.stable_polls, 1);
    assert_eq!(t.decide(VarianceReading::Jump), WebUiState::Generating);
    assert!(t.saw_change);
    assert_eq!(t.stable_polls, 0);
    // After a jump, steady variance alone is not completion.
    for _ in 0..4 {
        assert_eq!(t.decide(VarianceReading::Steady), WebUiState::Generating);
    }
    assert_eq!(t.stable_polls, 4);
    assert_eq!(t.decide(VarianceReading::Other), WebUiState::Unknown);
    assert_eq!(t.stable_polls, 0);
}

fn stats(data: Vec<u8>) -> PixelStats {
    PixelStats::of_all(&data)
}

#[test]
fn conversation_variance_readings() {
    let flat = stats(vec![0, 0, 0, 0]);
    let busy = stats(vec![0, 60, 0, 60]); // variance 900
    let busier = stats(vec![0, 62, 0, 62]); // variance 961
    let calm = stats(vec![0, 58, 0, 58]); // variance 841
    assert_eq!(variance_reading(None, busy, true), VarianceReading::First);
    // 900 against 0: a jump either way.
    assert_eq!(variance_reading(Some(flat), busy, true), VarianceReading::Jump);
    assert_eq!(variance_reading(Some(busy), flat, false), VarianceReading::Jump);
    // 961 against 900 moved by 61 > 50.
    assert_eq!(variance_reading(Some(busy), busier, true), VarianceReading::Jump);
    // 841 against 900 moved by 59; 900 against 900 is steady.
    assert_eq!(variance_reading(Some(busy), calm, true), VarianceReading::Jump);
    assert_eq!(variance_reading(Some(busy), busy, true), VarianceReading::Steady);
    assert_eq!(variance_reading(Some(busy), busy, false), VarianceReading::Other);
    // Quiet screens are never steady.
    assert_eq!(variance_reading(Some(flat), flat, true), VarianceReading::Other);
    let empty = stats(vec![]);
    assert_eq!(variance_reading(Some(empty), empty, true), VarianceReading::Other);
}

#[test]
fn sample_reading_ignores_implausible_and_resized_samples() {
    let cur = PixelStats { n: 4, sum: 400, sq_sum: 40000 };
    // More than 255 per pixel cannot come from a capture.
    assert_eq!(sample_reading(None, PixelStats { n: 1, sum: 300, sq_sum: 0 }, true), VarianceReading::Other);
    // A previous sample of another size counts as none.
    assert_eq!(sample_reading(Some(PixelStats { n: 9, sum: 0, sq_sum: 0 }), cur, true), VarianceReading::First);
    assert_eq!(sample_reading(Some(PixelStats { n: 4, sum: 2000, sq_sum: 0 }), cur, true), VarianceReading::First);
    assert_eq!(sample_reading(None, cur, true), VarianceReading::First);
}
