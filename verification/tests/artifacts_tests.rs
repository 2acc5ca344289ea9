use web_ai_automation::adapter::{match_center, Region};
use web_ai_automation::adapter::AdapterError;
use web_ai_automation::arena::artifacts::{
    download_landed, download_poll, is_partial_download, newest_download, numbered_name, DownloadEntry, DownloadPoll,
};
use web_ai_automation::arena::detect::ButtonCandidate;
use web_ai_automation::arena::probes::{download_click_target, download_search_regions, should_download};
use web_ai_automation::arena::regions::{ArenaSurface, Regions};

#[test]
fn unfinished_downloads() {
    assert!(is_partial_download(Some("crdownload")));
    assert!(is_partial_download(Some("download")));
    assert!(is_partial_download(Some("tmp")));
    assert!(!is_partial_download(Some("zip")));
    assert!(!is_partial_download(None));
}

#[test]
fn numbered_names_for_taken_files() {
    assert_eq!(numbered_name(Some("project"), Some("zip"), 1), "project_1.zip");
    assert_eq!(numbered_name(Some("project"), Some(""), 12), "project_12");
    assert_eq!(numbered_name(Some("notes"), None, 999), "notes_999");
    assert_eq!(numbered_name(None, Some("zip"), 3), "artifact_3.zip");
}

#[test]
fn download_button_search_and_click() {
    let r = Regions::mac_1512x982();
    let v = download_search_regions(&r);
    assert_eq!(v[0], ("expected", r.download_button, 720));
    assert_eq!(v[1], ("toolbar", Region { x1: 490, y1: 130, x2: 1512, y2: 185 }, 700));
    assert_eq!(v[2], ("top_band", Region { x1: 490, y1: 130, x2: 1512, y2: 210 }, 680));
    let bright = ButtonCandidate { center: (950, 147), bounds: Region { x1: 930, y1: 140, x2: 970, y2: 155 }, area: 4, sum: 800 };
    let dim = ButtonCandidate { sum: 700, ..bright };
    assert_eq!(download_click_target(Some((960, 148)), Some(dim)), Some((960, 148)));
    assert_eq!(download_click_target(None, Some(bright)), Some((950, 147)));
    assert_eq!(download_click_target(None, Some(dim)), None);
    assert_eq!(download_click_target(None, None), None);
}

#[test]
fn downloads_only_on_the_code_surface() {
    assert!(should_download(ArenaSurface::Code, true, None));
    assert!(should_download(ArenaSurface::Code, false, Some(true)));
    assert!(!should_download(ArenaSurface::Code, false, Some(false)));
    assert!(!should_download(ArenaSurface::Text, true, Some(true)));
}

#[test]
fn template_match_centres() {
    let scan = Region { x1: 240, y1: 440, x2: 430, y2: 535 };
    assert_eq!(match_center(scan, 100, 20, 25, 25), (352, 472));
    assert_eq!(match_center(scan, 0, 0, 1, 1), (240, 440));
}

fn entry(modified_ns: u128, is_file: bool, partial: bool) -> DownloadEntry {
    DownloadEntry { modified_ns, is_file, partial }
}

#[test]
fn newest_finished_download() {
    let entries = vec![
        entry(10, true, false),
        entry(30, false, false),
        entry(40, true, true),
        entry(20, true, false),
        entry(20, true, false),
    ];
    assert_eq!(newest_download(&entries), Some(3));
    assert_eq!(newest_download(&vec![entry(5, true, true)]), None);
    assert_eq!(newest_download(&vec![]), None);
}

#[test]
fn download_landed_needs_a_new_finished_file() {
    assert!(download_landed(None, "/d/a.zip", Some("zip")));
    assert!(download_landed(Some("/d/old.zip"), "/d/a.zip", Some("zip")));
    assert!(!download_landed(Some("/d/a.zip"), "/d/a.zip", Some("zip")));
    assert!(!download_landed(None, "/d/a.zip.crdownload", Some("crdownload")));
}

#[test]
fn download_poll_gives_up_after_thirty() {
    assert!(matches!(download_poll(1, true), DownloadPoll::Move));
    assert!(matches!(download_poll(29, false), DownloadPoll::Wait));
    assert!(matches!(download_poll(30, true), DownloadPoll::Move));
    match download_poll(30, false) {
        DownloadPoll::GiveUp(AdapterError::Timeout { what, after_ms }) => {
            assert_eq!(what, "download file in ~/Downloads");
            assert_eq!(after_ms, 30_000);
        },
        _ => panic!("expected a timeout"),
    }
}
