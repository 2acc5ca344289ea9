use web_ai_automation::adapter::Region;
use web_ai_automation::deepseek::chips::{best_attach_hit, busy_chip_seen, chip_close_search, rightmost_chip, ScreenHit};

fn hit(x: i32, y: i32, score: u32) -> ScreenHit {
    ScreenHit { x, y, score }
}

#[test]
fn rightmost_chip_takes_the_first_furthest_right() {
    let hits = vec![hit(500, 600, 1), hit(700, 610, 1), hit(700, 620, 9), hit(650, 600, 5)];
    assert_eq!(rightmost_chip(&hits), Some((700, 610)));
    assert_eq!(rightmost_chip(&Vec::new()), None);
}

#[test]
fn too_many_chip_matches_are_noise() {
    let twelve: Vec<ScreenHit> = (0..12).map(|k| hit(100 + k, 600, 1)).collect();
    assert_eq!(rightmost_chip(&twelve), Some((111, 600)));
    let thirteen: Vec<ScreenHit> = (0..13).map(|k| hit(100 + k, 600, 1)).collect();
    assert_eq!(rightmost_chip(&thirteen), None);
}

#[test]
fn busy_chip_needs_a_plausible_match_count() {
    assert!(!busy_chip_seen(&vec![]));
    assert!(!busy_chip_seen(&vec![0, 13, 40]));
    assert!(busy_chip_seen(&vec![0, 12]));
    assert!(busy_chip_seen(&vec![1]));
}

#[test]
fn attach_button_is_the_best_scored_match() {
    let band = Region { x1: 1180, y1: 700, x2: 1300, y2: 800 };
    let hits = vec![hit(1200, 710, 3), hit(1210, 760, 8), hit(1220, 770, 8)];
    assert_eq!(best_attach_hit(band, &hits), Some((1210, 760)));
    assert_eq!(best_attach_hit(band, &Vec::new()), None);
}

#[test]
fn in_chat_top_edge_matches_are_skipped() {
    let band = Region { x1: 1180, y1: 860, x2: 1300, y2: 960 };
    let hits = vec![hit(1210, 864, 9), hit(1200, 930, 2)];
    assert_eq!(best_attach_hit(band, &hits), Some((1200, 930)));
    let only_top = vec![hit(1210, 894, 9)];
    assert_eq!(best_attach_hit(band, &only_top), None);
    // A band above row 850 keeps its top matches.
    let fresh = Region { x1: 1180, y1: 700, x2: 1300, y2: 800 };
    assert_eq!(best_attach_hit(fresh, &vec![hit(1210, 704, 9)]), Some((1210, 704)));
}

#[test]
fn chip_close_button_is_searched_top_right_of_the_icon() {
    let (hover, search) = chip_close_search((700, 610));
    assert_eq!(hover, vec![(700, 610), (695, 600), (760, 592)]);
    assert_eq!(search, Region { x1: 800, y1: 575, x2: 960, y2: 615 });
}
