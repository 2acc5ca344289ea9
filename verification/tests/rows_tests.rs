use web_ai_automation::adapter::Region;
use web_ai_automation::arena::session_setup::{dropdown_search_row_open, find_row_centers};
use web_ai_automation::matrix::GrayMatrix;
use web_ai_automation::stats::{count_at_least_in, share_reaches, PixelStats};

fn striped(height: usize, bands: &[(usize, usize)]) -> GrayMatrix {
    let width = 10;
    let mut data = vec![0u8; width * height];
    for &(first, last) in bands {
        for y in first..=last {
            for x in 0..width {
                data[y * width + x] = if x % 2 == 0 { 0 } else { 255 };
            }
        }
    }
    GrayMatrix { width, height, data }
}

fn menu() -> Region {
    Region { x1: 0, y1: 100, x2: 10, y2: 140 }
}

#[test]
fn separate_bands_give_separate_rows() {
    let cap = striped(40, &[(2, 9), (30, 39)]);
    assert_eq!(find_row_centers(menu(), &cap), vec![105, 134]);
}

#[test]
fn title_and_subtitle_bands_merge() {
    let cap = striped(40, &[(5, 12), (30, 39)]);
    assert_eq!(find_row_centers(menu(), &cap), vec![121]);
}

#[test]
fn thin_bands_are_dropped() {
    // Six rows close a band (kept); five rows do not; a band running to the
    // bottom needs seven.
    let cap = striped(40, &[(2, 7), (15, 19), (34, 39)]);
    assert_eq!(find_row_centers(menu(), &cap), vec![104]);
    let cap = striped(40, &[(2, 7), (33, 39)]);
    assert_eq!(find_row_centers(menu(), &cap), vec![104, 136]);
}

#[test]
fn flat_or_small_captures_have_no_rows() {
    let flat = GrayMatrix { width: 10, height: 40, data: vec![90; 400] };
    assert_eq!(find_row_centers(menu(), &flat), Vec::<i32>::new());
    let small = striped(7, &[(0, 6)]);
    assert_eq!(find_row_centers(menu(), &small), Vec::<i32>::new());
    let narrow_region = Region { x1: 0, y1: 100, x2: 4, y2: 140 };
    assert_eq!(find_row_centers(narrow_region, &striped(40, &[(2, 9)])), Vec::<i32>::new());
}

#[test]
fn search_row_open_by_texture_or_brightness() {
    let textured = GrayMatrix { width: 2, height: 1, data: vec![10, 20] };
    assert!(dropdown_search_row_open(&textured));
    let bright = GrayMatrix { width: 2, height: 1, data: vec![50, 50] };
    assert!(dropdown_search_row_open(&bright));
    let noisy = GrayMatrix { width: 2, height: 1, data: vec![0, 40] };
    assert!(!dropdown_search_row_open(&noisy));
    let flat = GrayMatrix { width: 2, height: 1, data: vec![10, 10] };
    assert!(!dropdown_search_row_open(&flat));
}

#[test]
fn exact_statistics() {
    let data = vec![0u8, 10];
    let st = PixelStats::of_all(&data);
    assert_eq!((st.n, st.sum, st.sq_sum), (2, 10, 100));
    assert!(st.variance_at_least(25));
    assert!(!st.variance_above(25));
    assert!(st.variance_above(24));
    assert!(!st.variance_at_least(26));
    assert!(st.mean_at_least(5));
    assert!(!st.mean_above(5));
    let range = PixelStats::of_range(&vec![9u8, 1, 2, 3, 9], 1, 4);
    assert_eq!((range.n, range.sum, range.sq_sum), (3, 6, 14));
    assert_eq!(count_at_least_in(&vec![1u8, 5, 9, 5], 0, 4, 5), 3);
    assert!(share_reaches(1, 3, 1, 3));
    assert!(!share_reaches(1, 4, 1, 3));
    assert!(share_reaches(0, 0, 0, 1));
    let empty = PixelStats::of_all(&Vec::new());
    assert!(!empty.variance_above(0));
    assert!(empty.variance_at_least(0));
}
