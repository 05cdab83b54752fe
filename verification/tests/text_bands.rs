//! Finding lines of text.
use tensaku::pixels::Pixbuf;
use tensaku::text_bands::{
    bands, can_detect, clear_local_band_cache, detect_local_band, init_from_pixbuf, BandState,
};
use tensaku::units::UNIT;

/// A white page, with stripes of ink on some rows.
fn page(rows: std::ops::Range<usize>) -> Pixbuf {
    let (w, h) = (120usize, 100usize);
    let mut pixels = vec![255u8; w * h * 3];
    for y in rows {
        for x in 0..w {
            if x % 4 < 2 {
                pixels[(y * w + x) * 3..(y * w + x) * 3 + 3].fill(0);
            }
        }
    }
    Pixbuf {
        width: w as u32,
        height: h as u32,
        rowstride: w * 3,
        has_alpha: false,
        pixels,
    }
}

fn found(state: &BandState) -> Vec<(i64, i64)> {
    bands(state)
        .iter()
        .map(|b| (b.y_start / UNIT, b.y_end / UNIT))
        .collect()
}

#[test]
fn a_line_of_text_is_found() {
    let mut state = BandState::new();
    assert!(found(&state).is_empty());
    init_from_pixbuf(&mut state, page(20..32));
    assert_eq!(found(&state), vec![(20, 32)]);
    let mut thin = BandState::new();
    init_from_pixbuf(&mut thin, page(20..24));
    assert!(found(&thin).is_empty());
}

#[test]
fn only_the_first_page_counts() {
    let mut state = BandState::new();
    init_from_pixbuf(&mut state, page(20..32));
    init_from_pixbuf(&mut state, page(60..70));
    assert_eq!(found(&state), vec![(20, 32)]);
    let near = detect_local_band(&mut state, 60 * UNIT, 25 * UNIT).unwrap();
    assert_eq!((near.y_start, near.y_end), (20 * UNIT, 32 * UNIT));
    clear_local_band_cache(&mut state);
    assert!(detect_local_band(&mut state, 60 * UNIT, 65 * UNIT).is_none());
}

#[test]
fn a_band_is_kept_while_the_pointer_stays_near() {
    let mut state = BandState::new();
    init_from_pixbuf(&mut state, page(20..32));
    let band = detect_local_band(&mut state, 60 * UNIT, 40 * UNIT).unwrap();
    assert_eq!(band.y_end, 32 * UNIT);
    assert!(detect_local_band(&mut state, 100 * UNIT, 52 * UNIT).is_some());
    assert!(detect_local_band(&mut state, 100 * UNIT, 60 * UNIT).is_none());
    assert!(detect_local_band(&mut state, 200 * UNIT, 25 * UNIT).is_none());
}

#[test]
fn the_lower_half_of_the_last_row_is_not_looked_at() {
    let mut state = BandState::new();
    assert!(can_detect(&state, 60 * UNIT, 99 * UNIT + UNIT / 2));
    init_from_pixbuf(&mut state, page(20..32));
    assert!(can_detect(&state, 60 * UNIT, 99 * UNIT));
    assert!(!can_detect(&state, 60 * UNIT, 99 * UNIT + UNIT / 2));
    assert!(can_detect(&state, 60 * UNIT, 100 * UNIT));
    assert!(can_detect(&state, 130 * UNIT, 99 * UNIT + UNIT / 2));
}
