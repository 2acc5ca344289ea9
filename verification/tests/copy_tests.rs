use web_ai_automation::adapter::Region;
use web_ai_automation::adapter::clipboard_took_copy;
use web_ai_automation::arena::copy::{footer_regions, text_copy_candidates, CopyHit};
use web_ai_automation::arena::layout::text_copy_scan_region;
use web_ai_automation::arena::regions::Regions;

fn hit(x: i32, y: i32, score: u32) -> CopyHit {
    CopyHit { x, y, score }
}

fn strip() -> Region {
    Region { x1: 240, y1: 440, x2: 430, y2: 535 }
}

#[test]
fn footers_follow_the_page() {
    let r = Regions::mac_1512x982();
    assert_eq!(footer_regions(&r, true), (r.message_footer_inchat, r.message_footer));
    assert_eq!(footer_regions(&r, false), (r.message_footer, r.message_footer_inchat));
}

#[test]
fn a_copy_changes_the_clipboard_to_real_text() {
    assert!(!clipboard_took_copy("answer", "answer"));
    assert!(!clipboard_took_copy("answer", " \n\t "));
    assert!(clipboard_took_copy("answer", "new answer"));
    assert!(clipboard_took_copy("", " x "));
    assert!(!clipboard_took_copy("", ""));
}

#[test]
fn text_copy_candidates_nearest_the_expected_column_first() {
    // The strip is the calibrated text-mode copy strip; 63 % of its 190
    // pixels puts the expected column at x = 360.
    assert_eq!(text_copy_scan_region(&Regions::mac_1512x982()), strip());
    let hits = vec![hit(300, 500, 5), hit(362, 520, 1), hit(365, 521, 9), hit(358, 480, 3), hit(100, 525, 2)];
    // (358, 480) is more than 28 rows above the lowest match; (365, 521)
    // repeats (362, 520).
    assert_eq!(text_copy_candidates(strip(), &hits, (0, 0)), vec![(362, 520), (300, 500), (100, 525)]);
    assert_eq!(text_copy_candidates(strip(), &hits, (2, -3)), vec![(364, 517), (302, 497), (102, 522)]);
}

#[test]
fn ties_go_lower_then_better_scored_then_first_found() {
    let hits = vec![hit(350, 500, 1), hit(370, 510, 1), hit(330, 510, 1), hit(390, 510, 4)];
    // All at distance 10 except (330, 510) and (390, 510) at 30: the lower
    // (370, 510) first, then (350, 500); then the better-scored (390, 510).
    assert_eq!(
        text_copy_candidates(strip(), &hits, (0, 0)),
        vec![(370, 510), (350, 500), (390, 510), (330, 510)]
    );
    let same = vec![hit(350, 510, 2), hit(370, 510, 2)];
    assert_eq!(text_copy_candidates(strip(), &same, (0, 0)), vec![(350, 510), (370, 510)]);
}

#[test]
fn at_most_six_candidates() {
    let hits: Vec<CopyHit> = (0..8).map(|k| hit(240 + 20 * k, 500, 1)).collect();
    let c = text_copy_candidates(strip(), &hits, (0, 0));
    assert_eq!(c.len(), 6);
    assert_eq!(c[0], (360, 500));
    assert_eq!(text_copy_candidates(strip(), &Vec::new(), (0, 0)), Vec::<(i32, i32)>::new());
}

#[test]
fn ranking_keeps_every_spaced_match_in_order() {
    // Five matches far apart on one row: all kept, nearest the expected
    // column (x = 360) first, each one once.
    let hits = vec![hit(250, 500, 1), hit(400, 500, 1), hit(300, 500, 1), hit(360, 500, 1), hit(330, 500, 1)];
    let c = text_copy_candidates(strip(), &hits, (0, 0));
    assert_eq!(c, vec![(360, 500), (330, 500), (400, 500), (300, 500), (250, 500)]);
    let mut xs: Vec<i32> = c.iter().map(|p| p.0).collect();
    xs.sort();
    assert_eq!(xs, vec![250, 300, 330, 360, 400]);
}
